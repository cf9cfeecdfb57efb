use synth::midi::{bytes_to_midi, midi_to_bytes, DecodeError, MidiMessage};

fn note_on_c3() -> MidiMessage {
    MidiMessage::NoteOn { channel: 0, note: 0x30, velocity: 0x7F }
}

#[test]
fn test_midi_to_bytes_note_on() {
    let buffer = midi_to_bytes(note_on_c3());

    assert_eq!(buffer.len(), 3);
    assert_eq!(buffer[0], 0x90);
    assert_eq!(buffer[1], 0x30);
    assert_eq!(buffer[2], 0x7F);
}

#[test]
fn test_handle_midi_message_valid() {
    let bytes = &[0x90, 0x30, 0x7F];
    let message = bytes_to_midi(bytes);
    assert!(message.is_ok());
    assert_eq!(message.unwrap(), note_on_c3());
}

#[test]
fn test_handle_midi_message_invalid() {
    let bytes = &[0x90, 0x3C];
    let message = bytes_to_midi(bytes);
    assert!(message.is_err());
}

#[test]
fn test_handle_midi_message_empty() {
    let bytes: &[u8] = &[];
    let message = bytes_to_midi(bytes);
    assert!(message.is_err());
}

#[test]
fn test_handle_unexpected_data_byte() {
    let bytes = &[0x0, 0x3C, 0x7F];
    let message = bytes_to_midi(bytes);
    assert!(message.is_err());
}

fn every_kind() -> Vec<MidiMessage> {
    vec![
        MidiMessage::NoteOff { channel: 15, note: 0, velocity: 64 },
        MidiMessage::NoteOn { channel: 3, note: 127, velocity: 1 },
        MidiMessage::PolyPressure { channel: 1, note: 60, pressure: 100 },
        MidiMessage::ControlChange { channel: 2, control: 0x60, value: 0x7F },
        MidiMessage::ProgramChange { channel: 9, program: 42 },
        MidiMessage::ChannelPressure { channel: 4, pressure: 7 },
        MidiMessage::PitchBend { channel: 0, bend: 0x2000 },
        MidiMessage::PitchBend { channel: 5, bend: 0x3FFF },
        MidiMessage::SysEx { data: vec![] },
        MidiMessage::SysEx { data: vec![2, 2, 2] },
        MidiMessage::TimingClock,
        MidiMessage::Start,
        MidiMessage::Continue,
        MidiMessage::Stop,
        MidiMessage::ActiveSensing,
        MidiMessage::Reset,
    ]
}

#[test]
fn round_trip_every_kind() {
    for m in every_kind() {
        assert!(m.is_valid());
        let bytes = midi_to_bytes(m.clone());
        assert_eq!(bytes_to_midi(&bytes), Ok(m));
    }
}

#[test]
fn encoding_agrees_with_wmidi() {
    for m in every_kind() {
        let ours = midi_to_bytes(m.clone());
        let theirs = wmidi::MidiMessage::try_from(ours.as_slice()).unwrap();
        let mut again = vec![0u8; theirs.bytes_size()];
        theirs.copy_to_slice(&mut again).unwrap();
        assert_eq!(ours, again);
    }
}

#[test]
fn pitch_bend_bytes() {
    let bytes = midi_to_bytes(MidiMessage::PitchBend { channel: 1, bend: 0x2001 });
    assert_eq!(bytes, vec![0xE1, 0x01, 0x40]);
}

#[test]
fn sysex_bytes() {
    let bytes = midi_to_bytes(MidiMessage::SysEx { data: vec![3, 3, 3] });
    assert_eq!(bytes, vec![0xF0, 3, 3, 3, 0xF7]);
}

#[test]
fn invalid_messages_are_reported() {
    assert!(!MidiMessage::NoteOn { channel: 16, note: 1, velocity: 1 }.is_valid());
    assert!(!MidiMessage::NoteOn { channel: 0, note: 128, velocity: 1 }.is_valid());
    assert!(!MidiMessage::PitchBend { channel: 0, bend: 0x4000 }.is_valid());
    assert!(!MidiMessage::SysEx { data: vec![1, 0x80] }.is_valid());
}

#[test]
fn each_decode_error() {
    assert_eq!(bytes_to_midi(&[]), Err(DecodeError::NoBytes));
    assert_eq!(bytes_to_midi(&[0x3C]), Err(DecodeError::UnexpectedDataByte));
    assert_eq!(bytes_to_midi(&[0x90, 0x3C, 0x80]), Err(DecodeError::UnexpectedStatusByte));
    assert_eq!(bytes_to_midi(&[0x90, 0x3C]), Err(DecodeError::NotEnoughBytes));
    assert_eq!(bytes_to_midi(&[0xF0, 1, 2]), Err(DecodeError::NoSysExEndByte));
    assert_eq!(bytes_to_midi(&[0xF0, 1, 0x90]), Err(DecodeError::UnexpectedStatusByte));
    assert_eq!(bytes_to_midi(&[0xF1, 1]), Err(DecodeError::UnsupportedStatusByte));
}

#[test]
fn program_change_needs_one_data_byte() {
    assert_eq!(
        bytes_to_midi(&[0xC2, 5]),
        Ok(MidiMessage::ProgramChange { channel: 2, program: 5 })
    );
    assert_eq!(bytes_to_midi(&[0xC2]), Err(DecodeError::NotEnoughBytes));
}

#[test]
fn trailing_bytes_are_not_read() {
    assert_eq!(bytes_to_midi(&[0xFA, 0x12]), Ok(MidiMessage::Start));
    assert_eq!(
        bytes_to_midi(&[0x80, 60, 0, 0x90]),
        Ok(MidiMessage::NoteOff { channel: 0, note: 60, velocity: 0 })
    );
}
