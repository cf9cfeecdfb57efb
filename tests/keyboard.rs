use synth::keyboard::{key_to_message, key_to_note, ComputerKey, KeyPress};
use synth::midi::MidiMessage;

#[test]
fn letter_rows_play_octave_four() {
    assert_eq!(ComputerKey::Z.value(4), Some(48));
    assert_eq!(ComputerKey::M.value(4), Some(59));
    assert_eq!(ComputerKey::M.value(10), Some(3));
    assert_eq!(ComputerKey::Z.value(11), None);
    assert_eq!(ComputerKey::Q.value(4), None);
    assert_eq!(
        key_to_note(ComputerKey::N, KeyPress::Down),
        Some(MidiMessage::NoteOn { channel: 0, note: 57, velocity: 127 })
    );
    assert_eq!(
        key_to_message(ComputerKey::N, KeyPress::Up),
        Some(MidiMessage::NoteOff { channel: 0, note: 57, velocity: 127 })
    );
}

#[test]
fn other_keys_send_on_key_down_only() {
    assert_eq!(key_to_message(ComputerKey::Q, KeyPress::Down), Some(MidiMessage::Start));
    assert_eq!(key_to_message(ComputerKey::Q, KeyPress::Up), None);
    assert_eq!(
        key_to_message(ComputerKey::O, KeyPress::Down),
        Some(MidiMessage::SysEx { data: vec![3, 3, 3] })
    );
    assert_eq!(
        key_to_message(ComputerKey::Num4, KeyPress::Down),
        Some(MidiMessage::ControlChange { channel: 1, control: 0x60, value: 127 })
    );
    assert_eq!(
        key_to_message(ComputerKey::Minus, KeyPress::Down),
        Some(MidiMessage::ControlChange { channel: 0, control: 0x61, value: 127 })
    );
    assert_eq!(key_to_message(ComputerKey::R, KeyPress::Down), None);
    assert_eq!(key_to_message(ComputerKey::Other, KeyPress::Down), None);
}
