//! Playing the synthesizer from a computer keyboard: two rows of letters
//! form a piano octave, and other keys send the interface's actions and
//! parameter steps.
use vstd::prelude::*;
use crate::midi::MidiMessage;
use crate::router::{DATA_DECREMENT, DATA_INCREMENT};

verus! {

/// Octave the letter keys play in.
pub const KEYBOARD_OCTAVE: u8 = 4;

/// Largest velocity and controller value.
pub const DATA_MAX: u8 = 0x7F;

/// The keys of a computer keyboard that do something, and `Other` for the
/// rest.
#[derive(Clone, Copy, Debug, PartialEq, Eq, Structural)]
pub enum ComputerKey {
    Z,
    S,
    X,
    D,
    C,
    V,
    G,
    B,
    H,
    N,
    J,
    M,
    Q,
    W,
    R,
    T,
    Y,
    U,
    O,
    P,
    Num1,
    Num2,
    Num3,
    Num4,
    Num5,
    Num6,
    Num7,
    Num8,
    Num9,
    Num0,
    Minus,
    Equals,
    Other,
}

/// Whether a key went down or came up.
#[derive(Clone, Copy, Debug, PartialEq, Eq, Structural)]
pub enum KeyPress {
    Down,
    Up,
}

/// The reserved system-exclusive payloads: record, menu and select.
pub open spec fn record_payload() -> Seq<u8> {
    seq![2u8, 2u8, 2u8]
}

pub open spec fn menu_payload() -> Seq<u8> {
    seq![3u8, 3u8, 3u8]
}

pub open spec fn select_payload() -> Seq<u8> {
    seq![4u8, 4u8, 4u8]
}

impl ComputerKey {
    /// Semitones above C of a piano key.
    pub open spec fn spec_semitone(self) -> Option<u8> {
        match self {
            ComputerKey::Z => Some(0u8),
            ComputerKey::S => Some(1u8),
            ComputerKey::X => Some(2u8),
            ComputerKey::D => Some(3u8),
            ComputerKey::C => Some(4u8),
            ComputerKey::V => Some(5u8),
            ComputerKey::G => Some(6u8),
            ComputerKey::B => Some(7u8),
            ComputerKey::H => Some(8u8),
            ComputerKey::N => Some(9u8),
            ComputerKey::J => Some(10u8),
            ComputerKey::M => Some(11u8),
            _ => None,
        }
    }

    /// The note a piano key plays in `octave`, wrapped into the MIDI range.
    pub open spec fn spec_value(self, octave: u8) -> Option<u8> {
        if octave > 10 {
            None
        } else {
            match self.spec_semitone() {
                Some(s) => Some(((s + 12 * octave) % 128) as u8),
                None => None,
            }
        }
    }

    /// Semitones above C of a piano key.
    pub fn semitone(&self) -> (r: Option<u8>)
        ensures
            r == self.spec_semitone(),
    {
        match self {
            ComputerKey::Z => Some(0),
            ComputerKey::S => Some(1),
            ComputerKey::X => Some(2),
            ComputerKey::D => Some(3),
            ComputerKey::C => Some(4),
            ComputerKey::V => Some(5),
            ComputerKey::G => Some(6),
            ComputerKey::B => Some(7),
            ComputerKey::H => Some(8),
            ComputerKey::N => Some(9),
            ComputerKey::J => Some(10),
            ComputerKey::M => Some(11),
            _ => None,
        }
    }

    /// The note a piano key plays in `octave` (at most 10), its top bit
    /// cleared to stay within the MIDI range; other keys play none.
    pub fn value(&self, octave: u8) -> (r: Option<u8>)
        ensures
            r == self.spec_value(octave),
    {
        if octave > 10 {
            return None;
        }
        match self.semitone() {
            Some(s) => Some((s + 12 * octave) % 128),
            None => None,
        }
    }
}

/// The model of the message a key sends, if any.
pub open spec fn key_message_spec(key: ComputerKey, press: KeyPress) -> Option<crate::midi::Message> {
    match key.spec_value(KEYBOARD_OCTAVE) {
        Some(note) => match press {
            KeyPress::Down => Some(
                crate::midi::Message::NoteOn { channel: 0, note, velocity: DATA_MAX },
            ),
            KeyPress::Up => Some(
                crate::midi::Message::NoteOff { channel: 0, note, velocity: DATA_MAX },
            ),
        },
        None => if press == KeyPress::Up {
            None
        } else {
            match key {
                ComputerKey::Q => Some(crate::midi::Message::Start),
                ComputerKey::W => Some(crate::midi::Message::SysEx { data: record_payload() }),
                ComputerKey::O => Some(crate::midi::Message::SysEx { data: menu_payload() }),
                ComputerKey::P => Some(crate::midi::Message::SysEx { data: select_payload() }),
                ComputerKey::Num1 | ComputerKey::Minus => Some(step_message(0, DATA_DECREMENT)),
                ComputerKey::Num2 | ComputerKey::Equals => Some(step_message(0, DATA_INCREMENT)),
                ComputerKey::Num3 => Some(step_message(1, DATA_DECREMENT)),
                ComputerKey::Num4 => Some(step_message(1, DATA_INCREMENT)),
                ComputerKey::Num5 => Some(step_message(2, DATA_DECREMENT)),
                ComputerKey::Num6 => Some(step_message(2, DATA_INCREMENT)),
                ComputerKey::Num7 => Some(step_message(3, DATA_DECREMENT)),
                ComputerKey::Num8 => Some(step_message(3, DATA_INCREMENT)),
                _ => None,
            }
        },
    }
}

/// The controller message that steps the parameter of `channel`.
pub open spec fn step_message(channel: u8, control: u8) -> crate::midi::Message {
    crate::midi::Message::ControlChange { channel, control, value: DATA_MAX }
}

/// The note message a piano key sends in the keyboard's octave.
pub fn key_to_note(key: ComputerKey, press: KeyPress) -> (r: Option<MidiMessage>)
    ensures
        match key.spec_value(KEYBOARD_OCTAVE) {
            Some(_) => r matches Some(m) && Some(m@) == key_message_spec(key, press),
            None => r is None,
        },
{
    match key.value(KEYBOARD_OCTAVE) {
        Some(note) => match press {
            KeyPress::Down => Some(MidiMessage::NoteOn { channel: 0, note, velocity: DATA_MAX }),
            KeyPress::Up => Some(MidiMessage::NoteOff { channel: 0, note, velocity: DATA_MAX }),
        },
        None => None,
    }
}

fn payload(b: u8) -> (r: Vec<u8>)
    ensures
        r@ == seq![b, b, b],
{
    let r = vec![b, b, b];
    assert(r@ =~= seq![b, b, b]);
    r
}

/// The message a key sends: piano keys play notes on channel 1 at full
/// velocity; on a key-down, `Q` sends Start, `W`, `O` and `P` the record,
/// menu and select payloads, and the digit row and `-`/`=` step the first
/// four parameters down and up.
pub fn key_to_message(key: ComputerKey, press: KeyPress) -> (r: Option<MidiMessage>)
    ensures
        match r {
            Some(m) => key_message_spec(key, press) == Some(m@),
            None => key_message_spec(key, press) is None,
        },
{
    let note = key_to_note(key, press);
    if note.is_some() {
        return note;
    }
    if press == KeyPress::Up {
        return None;
    }
    match key {
        ComputerKey::Q => Some(MidiMessage::Start),
        ComputerKey::W => Some(MidiMessage::SysEx { data: payload(2) }),
        ComputerKey::O => Some(MidiMessage::SysEx { data: payload(3) }),
        ComputerKey::P => Some(MidiMessage::SysEx { data: payload(4) }),
        ComputerKey::Num1 | ComputerKey::Minus => Some(
            MidiMessage::ControlChange { channel: 0, control: DATA_DECREMENT, value: DATA_MAX },
        ),
        ComputerKey::Num2 | ComputerKey::Equals => Some(
            MidiMessage::ControlChange { channel: 0, control: DATA_INCREMENT, value: DATA_MAX },
        ),
        ComputerKey::Num3 => Some(
            MidiMessage::ControlChange { channel: 1, control: DATA_DECREMENT, value: DATA_MAX },
        ),
        ComputerKey::Num4 => Some(
            MidiMessage::ControlChange { channel: 1, control: DATA_INCREMENT, value: DATA_MAX },
        ),
        ComputerKey::Num5 => Some(
            MidiMessage::ControlChange { channel: 2, control: DATA_DECREMENT, value: DATA_MAX },
        ),
        ComputerKey::Num6 => Some(
            MidiMessage::ControlChange { channel: 2, control: DATA_INCREMENT, value: DATA_MAX },
        ),
        ComputerKey::Num7 => Some(
            MidiMessage::ControlChange { channel: 3, control: DATA_DECREMENT, value: DATA_MAX },
        ),
        ComputerKey::Num8 => Some(
            MidiMessage::ControlChange { channel: 3, control: DATA_INCREMENT, value: DATA_MAX },
        ),
        _ => None,
    }
}

} // verus!
