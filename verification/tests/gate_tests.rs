use noisy_trackball::gate::PlaybackGate;

#[test]
fn fresh_gate_always_permits() {
    let gate: PlaybackGate<u32> = PlaybackGate::new();
    assert!(gate.can_trigger(false));
    assert!(gate.can_trigger(true));
    assert!(gate.current().is_none());
}

#[test]
fn playing_clip_suppresses_new_trigger() {
    // The held handle's queried state is still playing: a qualifying
    // motion sample must not lead to a new trigger, and the handle stays.
    let mut gate: PlaybackGate<u32> = PlaybackGate::new();
    gate.record(42);
    assert!(!gate.can_trigger(true));
    assert_eq!(*gate.current(), Some(42));
}

#[test]
fn completed_clip_reopens_gate() {
    let mut gate: PlaybackGate<u32> = PlaybackGate::new();
    gate.record(42);
    assert!(gate.can_trigger(false));
}

#[test]
fn new_trigger_replaces_held_handle() {
    let mut gate: PlaybackGate<u32> = PlaybackGate::new();
    gate.record(1);
    gate.record(2);
    assert_eq!(*gate.current(), Some(2));
}
