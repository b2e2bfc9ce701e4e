//! Channel layout of decoded audio: every decoded block is turned into
//! interleaved stereo frames (left, right) before it is queued for output.
//! The functions are generic over the sample type; the player uses them on
//! 32-bit float samples.

use vstd::prelude::*;

verus! {

/// Interleaved stereo made from a mono signal: each sample becomes a frame
/// whose left and right samples are both that sample.
pub open spec fn spec_mono_to_stereo<T>(m: Seq<T>) -> Seq<T> {
    Seq::new(2 * m.len(), |i: int| m[i / 2])
}

/// The channel of a `ch`-channel frame that becomes the right channel: the
/// second one, or the only one for mono.
pub open spec fn right_source(ch: nat) -> nat {
    if ch >= 2 {
        1
    } else {
        0
    }
}

/// Interleaved stereo taken from interleaved `ch`-channel data: frame `f`
/// keeps channel 0 as left and channel 1 (channel 0 for mono) as right; a
/// trailing partial frame is dropped. Two-channel data is kept as it is.
pub open spec fn spec_take_stereo<T>(data: Seq<T>, ch: nat) -> Seq<T>
    recommends
        ch > 0,
{
    if ch == 2 {
        data
    } else {
        Seq::new(
            2 * (data.len() / ch),
            |i: int|
                if i % 2 == 0 {
                    data[(i / 2) * ch]
                } else {
                    data[(i / 2) * ch + right_source(ch)]
                },
        )
    }
}

/// Stereo from interleaved data of `channels` channels (a count of 0 is
/// taken as mono).
pub open spec fn spec_to_stereo<T>(data: Seq<T>, channels: nat) -> Seq<T> {
    if channels <= 1 {
        spec_mono_to_stereo(data)
    } else {
        spec_take_stereo(data, channels)
    }
}

/// Duplicates each mono sample into a left/right pair.
pub fn mono_to_stereo<T: Copy>(m: &[T]) -> (v: Vec<T>)
    ensures
        v@ == spec_mono_to_stereo(m@),
{
    let mut v: Vec<T> = Vec::new();
    let mut i: usize = 0;
    while i < m.len()
        invariant
            i <= m@.len(),
            v@ == spec_mono_to_stereo(m@.take(i as int)),
        decreases m@.len() - i,
    {
        let s = m[i];
        v.push(s);
        v.push(s);
        proof {
            assert(spec_mono_to_stereo(m@.take(i + 1)) =~= spec_mono_to_stereo(m@.take(i as int)).push(
                s,
            ).push(s));
        }
        i += 1;
    }
    assert(m@.take(m@.len() as int) =~= m@);
    v
}

/// Keeps the first two channels of interleaved `ch`-channel data (the only
/// channel twice for mono).
pub fn take_stereo<T: Copy>(data: &[T], ch: usize) -> (v: Vec<T>)
    requires
        ch > 0,
    ensures
        v@ == spec_take_stereo(data@, ch as nat),
{
    if ch == 2 {
        return vstd::slice::slice_to_vec(data);
    }
    let frames = data.len() / ch;
    let right = if ch >= 2 {
        1
    } else {
        0
    };
    let mut v: Vec<T> = Vec::new();
    let mut f: usize = 0;
    proof {
        assert(frames * ch <= data@.len()) by (nonlinear_arith)
            requires
                frames == data@.len() / (ch as nat),
                ch > 0,
        ;
    }
    while f < frames
        invariant
            ch > 0,
            ch != 2,
            frames == data@.len() / (ch as nat),
            frames * ch <= data@.len(),
            right == right_source(ch as nat),
            f <= frames,
            v@ == spec_take_stereo(data@, ch as nat).take(2 * f),
        decreases frames - f,
    {
        proof {
            assert(f * ch + ch <= frames * ch) by (nonlinear_arith)
                requires
                    f < frames,
                    ch > 0,
            ;
            assert(f * ch + ch == (f + 1) * ch) by (nonlinear_arith);
            assert(data@.len() == data.len());
        }
        let base = f * ch;
        let l = data[base];
        let r = data[base + right];
        v.push(l);
        v.push(r);
        proof {
            let full = spec_take_stereo(data@, ch as nat);
            assert(full.len() == 2 * frames);
            assert((2 * f) / 2 == f);
            assert((2 * f + 1) / 2 == f);
            assert(full[2 * f] == l);
            assert(full[2 * f + 1] == r);
            assert(full.take(2 * (f + 1)) =~= full.take(2 * f).push(l).push(r));
        }
        f += 1;
    }
    proof {
        let full = spec_take_stereo(data@, ch as nat);
        assert(full.take(2 * frames) =~= full);
    }
    v
}

/// Interleaved stereo from a decoded block with `channels` channels: mono
/// (or a count of 0) is duplicated, wider layouts keep their first two
/// channels.
pub fn to_stereo<T: Copy>(data: &[T], channels: usize) -> (v: Vec<T>)
    ensures
        v@ == spec_to_stereo(data@, channels as nat),
{
    let ch = if channels > 1 {
        channels
    } else {
        1
    };
    if ch == 1 {
        mono_to_stereo(data)
    } else {
        take_stereo(data, ch)
    }
}

// ---------------------------------------------------------------------------
// Laws
// ---------------------------------------------------------------------------

/// Stereo output consists of whole frames (an even number of samples),
/// except that two-channel input is passed through as it is.
pub proof fn law_stereo_output_whole_frames<T>(data: Seq<T>, channels: nat)
    requires
        channels == 2 ==> data.len() % 2 == 0,
    ensures
        spec_to_stereo(data, channels).len() % 2 == 0,
{
}

/// Two-channel input is already stereo: it comes out unchanged.
pub proof fn law_stereo_input_unchanged<T>(data: Seq<T>)
    ensures
        spec_to_stereo(data, 2) == data,
{
}

} // verus!
