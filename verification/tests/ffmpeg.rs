use knoobar::ffmpeg::{ffmpeg_args, ffprobe_args, read_chunk_len, seconds_string, FfmpegDecodeOpts};
use knoobar::playback::{DecodePlan, DecoderKind};

#[test]
fn seconds_have_three_decimals() {
    assert_eq!(seconds_string(0), "0.000");
    assert_eq!(seconds_string(5), "0.005");
    assert_eq!(seconds_string(83250), "83.250");
    assert_eq!(seconds_string(3_600_000), "3600.000");
    for ms in [1u64, 999, 1000, 1001, 12345, 987654321] {
        assert_eq!(seconds_string(ms), format!("{:.3}", ms as f64 / 1000.0));
    }
}

#[test]
fn ffmpeg_command_line() {
    let opts = FfmpegDecodeOpts { path: "/m/a b.wma".to_string(), output_rate: 44100, start_ms: 1500 };
    let args = ffmpeg_args(&opts);
    assert_eq!(
        args,
        vec![
            "-hide_banner", "-loglevel", "error", "-nostdin", "-ss", "1.500", "-i", "/m/a b.wma", "-f",
            "f32le", "-ac", "2", "-ar", "44100", "-",
        ]
    );
}

#[test]
fn ffmpeg_options_from_plan() {
    let plan = DecodePlan {
        path: "x.dsf".to_string(),
        decoder: DecoderKind::Ffmpeg,
        start_ms: 2000,
        output_rate: 48000,
    };
    let o = FfmpegDecodeOpts::from_plan(plan);
    assert_eq!(o.path, "x.dsf");
    assert_eq!(o.output_rate, 48000);
    assert_eq!(o.start_ms, 2000);
}

#[test]
fn ffprobe_command_line() {
    assert_eq!(
        ffprobe_args("/m/x.dff"),
        vec!["-v", "error", "-show_entries", "format=duration", "-of", "default=noprint_wrappers=1:nokey=1", "/m/x.dff"]
    );
}

#[test]
fn read_chunks() {
    assert_eq!(read_chunk_len(48000), 19200);
    assert_eq!(read_chunk_len(44100), 17640);
    assert_eq!(read_chunk_len(8000), 4096);
    assert_eq!(read_chunk_len(0), 4096);
}
