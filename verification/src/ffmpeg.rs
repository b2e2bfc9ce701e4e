//! The command lines of the external `ffmpeg` decoder and `ffprobe` duration
//! probe, and the size of the reads from the decoder's output.

use vstd::prelude::*;

use crate::playback::DecodePlan;
use crate::text::{
    all_digits, concat_str, decimal, decimal_string, decimal_value, lemma_decimal_denotes,
    lemma_three_digits_denote, padded_decimal, three_digits,
};

verus! {

/// How to run the `ffmpeg` decoder: the file, the output sample rate, and the
/// position (in milliseconds) at which decoding starts.
pub struct FfmpegDecodeOpts {
    pub path: String,
    pub output_rate: u32,
    pub start_ms: u64,
}

impl FfmpegDecodeOpts {
    /// The options that carry out a decode plan.
    pub fn from_plan(plan: DecodePlan) -> (o: FfmpegDecodeOpts)
        ensures
            o.path == plan.path,
            o.output_rate == plan.output_rate,
            o.start_ms == plan.start_ms,
    {
        FfmpegDecodeOpts { path: plan.path, output_rate: plan.output_rate, start_ms: plan.start_ms }
    }
}

/// A position in milliseconds written as seconds with three decimals, the
/// form `-ss` takes (`83250` is `"83.250"`).
pub open spec fn seconds_text(ms: nat) -> Seq<char> {
    decimal(ms / 1000) + "."@ + padded_decimal(ms % 1000, 3)
}

/// Writes a position in milliseconds as seconds with three decimals.
pub fn seconds_string(ms: u64) -> (s: String)
    ensures
        s@ == seconds_text(ms as nat),
{
    let whole = decimal_string(ms / 1000);
    let with_dot = concat_str(whole.as_str(), ".");
    let frac = three_digits(ms % 1000);
    concat_str(with_dot.as_str(), frac.as_str())
}

/// The arguments of the `ffmpeg` decoder: quiet, no stdin, seek to the start
/// position, read `path`, write raw little-endian 32-bit float stereo at the
/// output rate to stdout.
pub open spec fn spec_ffmpeg_args(path: Seq<char>, output_rate: u32, start_ms: u64) -> Seq<Seq<char>> {
    seq![
        "-hide_banner"@, "-loglevel"@, "error"@, "-nostdin"@, "-ss"@, seconds_text(start_ms as nat),
        "-i"@, path, "-f"@, "f32le"@, "-ac"@, "2"@, "-ar"@, decimal(output_rate as nat), "-"@,
    ]
}

/// The command-line arguments for `ffmpeg` under these options.
pub fn ffmpeg_args(opts: &FfmpegDecodeOpts) -> (v: Vec<String>)
    ensures
        v@.map_values(|s: String| s@) == spec_ffmpeg_args(opts.path@, opts.output_rate, opts.start_ms),
{
    let v = vec![
        "-hide_banner".to_string(),
        "-loglevel".to_string(),
        "error".to_string(),
        "-nostdin".to_string(),
        "-ss".to_string(),
        seconds_string(opts.start_ms),
        "-i".to_string(),
        opts.path.clone(),
        "-f".to_string(),
        "f32le".to_string(),
        "-ac".to_string(),
        "2".to_string(),
        "-ar".to_string(),
        decimal_string(opts.output_rate as u64),
        "-".to_string(),
    ];
    assert(v@.map_values(|s: String| s@) =~= spec_ffmpeg_args(
        opts.path@,
        opts.output_rate,
        opts.start_ms,
    ));
    v
}

/// The arguments of `ffprobe` that print only the container's duration in
/// seconds.
pub open spec fn spec_ffprobe_args(path: Seq<char>) -> Seq<Seq<char>> {
    seq![
        "-v"@, "error"@, "-show_entries"@, "format=duration"@, "-of"@,
        "default=noprint_wrappers=1:nokey=1"@, path,
    ]
}

/// The command-line arguments for `ffprobe` on `path`.
pub fn ffprobe_args(path: &str) -> (v: Vec<String>)
    ensures
        v@.map_values(|s: String| s@) == spec_ffprobe_args(path@),
{
    let v = vec![
        "-v".to_string(),
        "error".to_string(),
        "-show_entries".to_string(),
        "format=duration".to_string(),
        "-of".to_string(),
        "default=noprint_wrappers=1:nokey=1".to_string(),
        path.to_string(),
    ];
    assert(v@.map_values(|s: String| s@) =~= spec_ffprobe_args(path@));
    v
}

/// Bytes read from `ffmpeg` at a time: a twentieth of a second of stereo
/// 32-bit samples, but at least 4096.
pub open spec fn spec_read_chunk_len(output_rate: u32) -> int {
    let b = (output_rate as int) * 4 * 2 / 20;
    if b >= 4096 {
        b
    } else {
        4096
    }
}

/// The size of the read buffer for the decoder's output.
pub fn read_chunk_len(output_rate: u32) -> (n: usize)
    requires
        (output_rate as int) * 8 <= usize::MAX,
    ensures
        n == spec_read_chunk_len(output_rate),
{
    let b = (output_rate as usize) * 4 * 2 / 20;
    if b >= 4096 {
        b
    } else {
        4096
    }
}

/// The `ffmpeg` command line carries the options: after `-i` comes the path;
/// after `-ss` the start position as whole seconds, a `.` and three digits
/// of milliseconds, which together denote `start_ms`; and after `-ar` the
/// digits of the output rate, so the decoder produces samples at the rate the
/// device plays.
pub proof fn law_ffmpeg_args_carry_options(path: Seq<char>, output_rate: u32, start_ms: u64)
    ensures
        ({
            let a = spec_ffmpeg_args(path, output_rate, start_ms);
            let ss = a[5];
            &&& a.len() == 15
            &&& a[6] == "-i"@
            &&& a[7] == path
            &&& a[12] == "-ar"@
            &&& all_digits(a[13])
            &&& decimal_value(a[13]) == output_rate
            &&& a[4] == "-ss"@
            &&& ss.len() >= 5
            &&& ss[ss.len() - 4] == '.'
            &&& all_digits(ss.take(ss.len() - 4))
            &&& all_digits(ss.skip(ss.len() - 3))
            &&& decimal_value(ss.take(ss.len() - 4)) * 1000 + decimal_value(ss.skip(ss.len() - 3))
                == start_ms
        }),
{
    reveal_strlit(".");
    let a = spec_ffmpeg_args(path, output_rate, start_ms);
    lemma_decimal_denotes(output_rate as nat);
    let whole = decimal((start_ms / 1000) as nat);
    let frac = padded_decimal((start_ms % 1000) as nat, 3);
    lemma_decimal_denotes((start_ms / 1000) as nat);
    lemma_three_digits_denote((start_ms % 1000) as nat);
    let ss = a[5];
    assert(ss == whole + "."@ + frac);
    assert("."@.len() == 1);
    assert(ss.take(ss.len() - 4) =~= whole);
    assert(ss.skip(ss.len() - 3) =~= frac);
    assert(ss[ss.len() - 4] == "."@[0]);
    assert((start_ms / 1000) * 1000 + start_ms % 1000 == start_ms);
}

} // verus!
