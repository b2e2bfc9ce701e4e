//! What probing an audio file reports, and how a duration that probing could
//! not find is completed.

use vstd::prelude::*;

use crate::media::{extension_hint, spec_extension_hint};
use crate::text::opt_view;

verus! {

/// Stream facts of an audio file.
#[derive(Debug, Clone)]
pub struct ProbedInfo {
    pub sample_rate: Option<u32>,
    pub channels: Option<u8>,
    pub duration_ms: Option<u64>,
    pub codec_hint: Option<String>,
    pub container: Option<String>,
}

impl ProbedInfo {
    /// Nothing known about the file (what indexing uses when probing fails).
    pub fn unknown() -> (p: ProbedInfo)
        ensures
            p.sample_rate is None,
            p.channels is None,
            p.duration_ms is None,
            p.codec_hint is None,
            p.container is None,
    {
        ProbedInfo {
            sample_rate: None,
            channels: None,
            duration_ms: None,
            codec_hint: None,
            container: None,
        }
    }
}

/// The facts of a probed file: the stream's sample rate and duration as the
/// decoder reports them, the channel count kept in a byte (as `as u8` keeps
/// it), the codec's name, and the container named by the lower-cased
/// extension of `path`.
pub fn probed_info(
    sample_rate: Option<u32>,
    channel_count: Option<usize>,
    duration_ms: Option<u64>,
    codec_name: String,
    path: &str,
) -> (p: ProbedInfo)
    ensures
        p.sample_rate == sample_rate,
        p.channels == (match channel_count {
            Some(c) => Some(c as u8),
            None => None,
        }),
        p.duration_ms == duration_ms,
        p.codec_hint == Some(codec_name),
        opt_view(p.container) == spec_extension_hint(path@),
{
    let channels = match channel_count {
        Some(c) => Some(c as u8),
        None => None,
    };
    ProbedInfo {
        sample_rate,
        channels,
        duration_ms,
        codec_hint: Some(codec_name),
        container: extension_hint(path),
    }
}

/// Whether the duration found by probing is missing, so that `ffprobe` is
/// asked for it.
pub open spec fn spec_needs_ffprobe(probed_ms: Option<u64>) -> bool {
    match probed_ms {
        Some(d) => d == 0,
        None => true,
    }
}

/// True when probing gave no duration, or a duration of zero.
pub fn needs_ffprobe(probed_ms: Option<u64>) -> (b: bool)
    ensures
        b == spec_needs_ffprobe(probed_ms),
{
    match probed_ms {
        Some(d) => d == 0,
        None => true,
    }
}

} // verus!
