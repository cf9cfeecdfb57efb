use synth::keys::{
    key_event_packet, left_keys, needs_confirmation, settle, KeyCode, KeyEvent, KeyMap, State,
    NUM_KEYS,
};

#[test]
fn notes_of_keys() {
    assert_eq!(KeyCode::C1.to_note(1), Some(36));
    assert_eq!(KeyCode::A1.to_note(3), Some(69));
    assert_eq!(KeyCode::B1.to_note(7), Some(119));
    assert_eq!(KeyCode::B1.to_note(8), None);
    assert_eq!(KeyCode::G1.to_note(8), Some(127));
    assert_eq!(KeyCode::C1.to_note(0), None);
    assert_eq!(KeyCode::C1.to_note(9), None);
    assert_eq!(KeyCode::SHIFT.to_note(4), None);
}

#[test]
fn wiring() {
    let keys = left_keys();
    assert_eq!(keys.len(), NUM_KEYS);
    assert_eq!(keys[0], KeyMap::new(6, KeyCode::SHIFT));
    assert_eq!(keys[13], KeyMap { channel: 0, code: KeyCode::ASharp1 });
}

#[test]
fn start_state() {
    let s = State::new();
    assert_eq!(s.octave, 4);
    assert!(s.notes_on.iter().all(|on| !on));
    assert!(s.positions.iter().all(|p| *p == 2000));
}

#[test]
fn press_then_release() {
    let mut s = State::new();
    assert!(!needs_confirmation(&s, KeyCode::C1, 1960));
    assert!(needs_confirmation(&s, KeyCode::C1, 1900));
    assert_eq!(settle(&mut s, KeyCode::C1, 1900), Some(KeyEvent::Pressed(KeyCode::C1, 100)));
    assert!(s.notes_on[3]);
    assert_eq!(s.positions[3], 1900);
    assert_eq!(settle(&mut s, KeyCode::C1, 1700), None);
    assert_eq!(settle(&mut s, KeyCode::C1, 2000), Some(KeyEvent::Released(KeyCode::C1, 127)));
    assert!(!s.notes_on[3]);
}

#[test]
fn small_movement_only_moves_the_position() {
    let mut s = State::new();
    assert_eq!(settle(&mut s, KeyCode::E1, 1970), None);
    assert!(!s.notes_on[7]);
    assert_eq!(s.positions[7], 1970);
}

#[test]
fn packets() {
    let p = key_event_packet(KeyEvent::Pressed(KeyCode::A1, 100), 3).unwrap();
    assert_eq!(p, vec![0x08, 0x90, 69, 100]);
    let r = key_event_packet(KeyEvent::Released(KeyCode::C1, 5), 3).unwrap();
    assert_eq!(r, vec![0x08, 0x80, 60, 5]);
    assert_eq!(key_event_packet(KeyEvent::Pressed(KeyCode::UP, 5), 3), None);
}

#[test]
fn default_is_the_start_state() {
    let s = State::default();
    assert_eq!(s.octave, 4);
    assert_eq!(s.notes_on, vec![false; NUM_KEYS]);
    assert_eq!(s.positions, vec![2000; NUM_KEYS]);
}
