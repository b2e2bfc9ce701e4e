use knoobar::decode::{loop_gate, packet_action, queue_too_full, LoopGate, PacketAction, PacketOutcome, QUEUE_CAP};

#[test]
fn stop_wins_over_pause() {
    assert_eq!(loop_gate(true, true), LoopGate::Stop);
    assert_eq!(loop_gate(true, false), LoopGate::Stop);
    assert_eq!(loop_gate(false, false), LoopGate::Wait);
    assert_eq!(loop_gate(false, true), LoopGate::Read);
}

#[test]
fn packet_outcomes() {
    assert_eq!(packet_action(PacketOutcome::EndOfStream), PacketAction::Finish);
    assert_eq!(packet_action(PacketOutcome::OtherTrack), PacketAction::Skip);
    assert_eq!(packet_action(PacketOutcome::DecodeError), PacketAction::Skip);
    assert_eq!(packet_action(PacketOutcome::ResetRequired), PacketAction::ResetAndSkip);
    assert_eq!(packet_action(PacketOutcome::OtherError), PacketAction::Skip);
    assert_eq!(packet_action(PacketOutcome::Decoded), PacketAction::Output);
}

#[test]
fn queue_headroom() {
    assert_eq!(QUEUE_CAP, 48000 * 2 * 8);
    assert!(!queue_too_full(0));
    assert!(!queue_too_full(QUEUE_CAP - 256));
    assert!(queue_too_full(QUEUE_CAP - 255));
    assert!(queue_too_full(QUEUE_CAP));
}
