use knoobar::playback::{choose_decoder, resolve_duration, DecoderKind, PlaybackEngine};
use knoobar::probe::needs_ffprobe;

fn loaded(path: &str, symphonia_ok: bool, probed: Option<u64>, ffprobe: Option<u64>) -> PlaybackEngine {
    let mut e = PlaybackEngine::new(48000, 2).unwrap();
    e.begin_load(path.to_string());
    let _ = e.finish_load(symphonia_ok, probed, ffprobe);
    e
}

#[test]
fn mono_output_is_refused() {
    assert_eq!(PlaybackEngine::new(48000, 1).err(), Some("mono output not supported".to_string()));
    assert!(PlaybackEngine::new(48000, 0).is_err());
    assert!(PlaybackEngine::new(44100, 2).is_ok());
    assert!(PlaybackEngine::new(44100, 6).is_ok());
}

#[test]
fn fresh_engine_has_nothing_loaded() {
    let e = PlaybackEngine::new(48000, 2).unwrap();
    let s = e.status_snapshot();
    assert_eq!(s.path, None);
    assert_eq!(s.decoder, None);
    assert_eq!(s.duration_ms, 0);
    assert_eq!(s.position_ms, 0);
    assert!(!s.playing);
    assert_eq!(e.output_sample_rate, 48000);
}

#[test]
fn play_and_seek_need_a_loaded_file() {
    let mut e = PlaybackEngine::new(48000, 2).unwrap();
    assert_eq!(e.play(), Err("nothing loaded".to_string()));
    assert!(!e.playing);
    assert_eq!(e.seek(1000).err(), Some("nothing loaded".to_string()));
    assert_eq!(e.status.position_ms, 0);
}

#[test]
fn load_chooses_symphonia_for_decodable_files() {
    let mut e = PlaybackEngine::new(48000, 2).unwrap();
    e.begin_load("/m/a.flac".to_string());
    assert_eq!(e.status.path.as_deref(), Some("/m/a.flac"));
    assert_eq!(e.status.decoder, None);
    let plan = e.finish_load(true, Some(183_000), None);
    assert_eq!(plan.decoder, DecoderKind::Symphonia);
    assert_eq!(plan.start_ms, 0);
    assert_eq!(plan.output_rate, 48000);
    assert_eq!(plan.path, "/m/a.flac");
    assert_eq!(e.status.decoder, Some(DecoderKind::Symphonia));
    assert_eq!(e.status.duration_ms, 183_000);
    assert_eq!(e.status.decoder.unwrap().name(), "symphonia");
}

#[test]
fn load_chooses_ffmpeg_when_preferred_or_needed() {
    let e = loaded("/m/a.WMA", true, Some(1000), None);
    assert_eq!(e.status.decoder, Some(DecoderKind::Ffmpeg));
    let e = loaded("/m/a.flac", false, Some(1000), None);
    assert_eq!(e.status.decoder, Some(DecoderKind::Ffmpeg));
    assert_eq!(DecoderKind::Ffmpeg.name(), "ffmpeg");
    assert_eq!(choose_decoder("x.dsf", true), DecoderKind::Ffmpeg);
    assert_eq!(choose_decoder("x.mp3", true), DecoderKind::Symphonia);
}

#[test]
fn duration_falls_back_to_ffprobe() {
    assert!(needs_ffprobe(None));
    assert!(needs_ffprobe(Some(0)));
    assert!(!needs_ffprobe(Some(5)));
    assert_eq!(resolve_duration(Some(5), Some(9)), 5);
    assert_eq!(resolve_duration(None, Some(9)), 9);
    assert_eq!(resolve_duration(Some(0), Some(9)), 9);
    assert_eq!(resolve_duration(Some(0), None), 0);
    assert_eq!(resolve_duration(None, None), 0);
    assert_eq!(loaded("a.dff", true, None, Some(7000)).status.duration_ms, 7000);
}

#[test]
fn position_follows_rendered_samples() {
    let mut e = loaded("/m/a.flac", true, Some(60_000), None);
    e.play().unwrap();
    assert!(e.playing && e.status.playing);
    assert!(e.render_fits(96_000));
    e.rendered(96_000);
    assert_eq!(e.status.position_ms, 1000);
    e.rendered(48_000);
    assert_eq!(e.status.position_ms, 1500);
    assert_eq!(e.samples_sent, 144_000);
}

#[test]
fn pause_then_play_resumes_at_same_position() {
    let mut e = loaded("/m/a.flac", true, Some(60_000), None);
    e.play().unwrap();
    e.rendered(96_000);
    e.pause();
    assert!(!e.playing && !e.status.playing);
    assert_eq!(e.status.position_ms, 1000);
    assert_eq!(e.base_position_ms, 1000);
    assert_eq!(e.samples_sent, 0);
    e.pause();
    assert_eq!(e.status.position_ms, 1000);
    e.play().unwrap();
    assert_eq!(e.status.position_ms, 1000);
    e.rendered(0);
    assert_eq!(e.status.position_ms, 1000);
    e.rendered(4_800);
    assert_eq!(e.status.position_ms, 1050);
}

#[test]
fn seek_is_clamped_to_duration() {
    let mut e = loaded("/m/a.flac", true, Some(10_000), None);
    let (path, pos) = e.seek(25_000).unwrap();
    assert_eq!(path, "/m/a.flac");
    assert_eq!(pos, 10_000);
    assert_eq!(e.status.position_ms, 10_000);
    let (_, pos) = e.seek(2_500).unwrap();
    assert_eq!(pos, 2_500);
    assert_eq!(e.base_position_ms, 2_500);
    assert!(!e.playing);
    let plan = e.seek_plan(path, true, pos);
    assert_eq!(plan.start_ms, 2_500);
    assert_eq!(plan.decoder, DecoderKind::Symphonia);
}

#[test]
fn seek_keeps_reported_playing_state() {
    let mut e = loaded("/m/a.flac", true, Some(10_000), None);
    e.play().unwrap();
    e.seek(3_000).unwrap();
    assert!(e.status.playing);
    assert!(!e.playing);
}

#[test]
fn load_resets_previous_state() {
    let mut e = loaded("/m/a.flac", true, Some(10_000), None);
    e.play().unwrap();
    e.rendered(96_000);
    e.begin_load("/m/b.mp3".to_string());
    assert_eq!(e.status.position_ms, 0);
    assert!(!e.status.playing && !e.playing);
    assert_eq!(e.samples_sent, 0);
    assert_eq!(e.base_position_ms, 0);
    assert_eq!(e.status.duration_ms, 0);
}

#[test]
fn rendering_needs_room_and_a_rate() {
    let mut e = PlaybackEngine::new(0, 2).unwrap();
    assert!(!e.render_fits(1));
    e.output_sample_rate = 48000;
    e.samples_sent = u64::MAX;
    assert!(!e.render_fits(1));
    assert!(!e.render_fits(0));
    e.samples_sent = 0;
    assert!(e.render_fits(1_000_000));
}

#[test]
fn seeking_twice_to_the_same_place_is_seeking_once() {
    let mut e = loaded("/m/a.flac", true, Some(10_000), None);
    e.seek(4_000).unwrap();
    let first = (e.status.position_ms, e.base_position_ms, e.samples_sent, e.playing);
    e.seek(4_000).unwrap();
    assert_eq!((e.status.position_ms, e.base_position_ms, e.samples_sent, e.playing), first);
}
