//! The decisions of the in-process decoding thread: when it reads the next
//! packet, what it does with each outcome of reading and decoding one, and
//! when the sample queue is too full to take more.

use vstd::prelude::*;

verus! {

/// Capacity of the sample queue between decoder and output: eight seconds of
/// 48 kHz stereo.
pub const QUEUE_CAP: usize = 768000;

/// Samples of room the decoder leaves free in the queue.
pub const QUEUE_HEADROOM: usize = 256;

/// What the decoding thread does before reading a packet.
#[derive(Clone, Copy, Debug, PartialEq, Eq, Structural)]
pub enum LoopGate {
    /// Decoding was stopped: leave the loop.
    Stop,
    /// Playback is paused: sleep and ask again.
    Wait,
    /// Read and decode the next packet.
    Read,
}

/// Stopping wins over pausing; only a running, playing decoder reads.
pub open spec fn spec_loop_gate(stop: bool, playing: bool) -> LoopGate {
    if stop {
        LoopGate::Stop
    } else if !playing {
        LoopGate::Wait
    } else {
        LoopGate::Read
    }
}

/// Decides the next move of the decoding loop.
pub fn loop_gate(stop: bool, playing: bool) -> (g: LoopGate)
    ensures
        g == spec_loop_gate(stop, playing),
{
    if stop {
        LoopGate::Stop
    } else if !playing {
        LoopGate::Wait
    } else {
        LoopGate::Read
    }
}

/// What came of reading and decoding one packet.
#[derive(Clone, Copy, Debug, PartialEq, Eq, Structural)]
pub enum PacketOutcome {
    /// No packet could be read: the stream ended or failed.
    EndOfStream,
    /// The packet belongs to another track.
    OtherTrack,
    /// The packet could not be decoded.
    DecodeError,
    /// The decoder asks to be reset.
    ResetRequired,
    /// Decoding failed otherwise.
    OtherError,
    /// Samples were decoded.
    Decoded,
}

/// What the decoding thread does with a packet outcome.
#[derive(Clone, Copy, Debug, PartialEq, Eq, Structural)]
pub enum PacketAction {
    /// Leave the loop.
    Finish,
    /// Go on with the next packet.
    Skip,
    /// Reset the decoder, then go on with the next packet.
    ResetAndSkip,
    /// Turn the samples into stereo and queue them.
    Output,
}

/// Only the end of the stream ends decoding; bad packets and packets of
/// other tracks are skipped; a reset request resets the decoder.
pub open spec fn spec_packet_action(o: PacketOutcome) -> PacketAction {
    match o {
        PacketOutcome::EndOfStream => PacketAction::Finish,
        PacketOutcome::OtherTrack => PacketAction::Skip,
        PacketOutcome::DecodeError => PacketAction::Skip,
        PacketOutcome::ResetRequired => PacketAction::ResetAndSkip,
        PacketOutcome::OtherError => PacketAction::Skip,
        PacketOutcome::Decoded => PacketAction::Output,
    }
}

/// Decides what to do with a packet outcome.
pub fn packet_action(o: PacketOutcome) -> (a: PacketAction)
    ensures
        a == spec_packet_action(o),
{
    match o {
        PacketOutcome::EndOfStream => PacketAction::Finish,
        PacketOutcome::OtherTrack => PacketAction::Skip,
        PacketOutcome::DecodeError => PacketAction::Skip,
        PacketOutcome::ResetRequired => PacketAction::ResetAndSkip,
        PacketOutcome::OtherError => PacketAction::Skip,
        PacketOutcome::Decoded => PacketAction::Output,
    }
}

/// Whether a queue holding `len` samples is too full for the decoder to push
/// another: more than its capacity less the headroom.
pub fn queue_too_full(len: usize) -> (b: bool)
    ensures
        b == (len > QUEUE_CAP - QUEUE_HEADROOM),
{
    len > QUEUE_CAP - QUEUE_HEADROOM
}

/// Only the end of the stream, or a stop, ends decoding.
pub proof fn law_only_end_or_stop_finishes(stop: bool, playing: bool, o: PacketOutcome)
    ensures
        spec_loop_gate(stop, playing) == LoopGate::Stop <==> stop,
        spec_packet_action(o) == PacketAction::Finish <==> o == PacketOutcome::EndOfStream,
{
}

} // verus!
