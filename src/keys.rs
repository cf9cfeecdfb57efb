//! The key matrix of the keyboard: which key sits on which multiplexer
//! channel, which note a key plays, and when a reading counts as a press or
//! a release.
use vstd::prelude::*;
use crate::midi::{encode_spec, midi_to_bytes, MidiMessage};

verus! {

/// Number of keys on the board.
pub const NUM_KEYS: usize = 15;

/// Change of a key's reading, in converter units, that counts as movement.
pub const DEBOUNCE_THRESHOLD: u16 = 50;

/// Reading of a key at rest.
pub const REST_POSITION: u16 = 2000;

/// Octave the board starts in.
pub const START_OCTAVE: u8 = 4;

/// MIDI note number of the C of octave 1.
pub const C1_NOTE: u8 = 24;

/// The keys of the board.
#[derive(Clone, Copy, Debug, PartialEq, Eq, Structural)]
pub enum KeyCode {
    SHIFT,
    UP,
    DOWN,
    C1,
    CSharp1,
    D1,
    DSharp1,
    E1,
    F1,
    FSharp1,
    G1,
    GSharp1,
    A1,
    ASharp1,
    B1,
}

impl KeyCode {
    /// The position of the key in the board's per-key tables.
    pub open spec fn spec_index(self) -> int {
        match self {
            KeyCode::SHIFT => 0,
            KeyCode::UP => 1,
            KeyCode::DOWN => 2,
            KeyCode::C1 => 3,
            KeyCode::CSharp1 => 4,
            KeyCode::D1 => 5,
            KeyCode::DSharp1 => 6,
            KeyCode::E1 => 7,
            KeyCode::F1 => 8,
            KeyCode::FSharp1 => 9,
            KeyCode::G1 => 10,
            KeyCode::GSharp1 => 11,
            KeyCode::A1 => 12,
            KeyCode::ASharp1 => 13,
            KeyCode::B1 => 14,
        }
    }

    /// Semitones of a note key above C; control keys play no note.
    pub open spec fn spec_semitone(self) -> Option<int> {
        let i = self.spec_index();
        if i >= 3 {
            Some(i - 3)
        } else {
            None
        }
    }

    /// The note the key plays in `octave`.
    pub open spec fn spec_note(self, octave: u8) -> Option<u8> {
        if octave < 1 || octave > 8 {
            None
        } else {
            match self.spec_semitone() {
                Some(s) => {
                    let n = C1_NOTE + s + 12 * octave;
                    if n <= 127 {
                        Some(n as u8)
                    } else {
                        None
                    }
                },
                None => None,
            }
        }
    }

    /// The position of the key in the board's per-key tables.
    pub fn index(&self) -> (r: usize)
        ensures
            r == self.spec_index(),
            r < NUM_KEYS,
    {
        match self {
            KeyCode::SHIFT => 0,
            KeyCode::UP => 1,
            KeyCode::DOWN => 2,
            KeyCode::C1 => 3,
            KeyCode::CSharp1 => 4,
            KeyCode::D1 => 5,
            KeyCode::DSharp1 => 6,
            KeyCode::E1 => 7,
            KeyCode::F1 => 8,
            KeyCode::FSharp1 => 9,
            KeyCode::G1 => 10,
            KeyCode::GSharp1 => 11,
            KeyCode::A1 => 12,
            KeyCode::ASharp1 => 13,
            KeyCode::B1 => 14,
        }
    }

    /// The MIDI note the key plays in `octave` (1 to 8): its note of octave
    /// 1 raised by `octave` octaves. Control keys, other octaves and notes
    /// past the MIDI range give nothing.
    pub fn to_note(&self, octave: u8) -> (r: Option<u8>)
        ensures
            r == self.spec_note(octave),
    {
        if octave < 1 || octave > 8 {
            return None;
        }
        let i = self.index();
        if i < 3 {
            return None;
        }
        let n = C1_NOTE as usize + (i - 3) + 12 * octave as usize;
        if n <= 127 {
            Some(n as u8)
        } else {
            None
        }
    }
}

/// A key and the multiplexer channel its sensor is wired to.
#[derive(Clone, Copy, Debug, PartialEq, Eq, Structural)]
pub struct KeyMap {
    pub channel: u8,
    pub code: KeyCode,
}

impl KeyMap {
    pub fn new(channel: u8, key: KeyCode) -> (r: KeyMap)
        ensures
            r == (KeyMap { channel, code: key }),
    {
        KeyMap { channel, code: key }
    }
}

/// The wiring of the left half of the board, in scanning order.
pub open spec fn left_keys_spec() -> Seq<KeyMap> {
    seq![
        KeyMap { channel: 6, code: KeyCode::SHIFT },
        KeyMap { channel: 7, code: KeyCode::UP },
        KeyMap { channel: 8, code: KeyCode::DOWN },
        KeyMap { channel: 9, code: KeyCode::C1 },
        KeyMap { channel: 5, code: KeyCode::CSharp1 },
        KeyMap { channel: 10, code: KeyCode::D1 },
        KeyMap { channel: 4, code: KeyCode::DSharp1 },
        KeyMap { channel: 11, code: KeyCode::E1 },
        KeyMap { channel: 12, code: KeyCode::F1 },
        KeyMap { channel: 2, code: KeyCode::FSharp1 },
        KeyMap { channel: 13, code: KeyCode::G1 },
        KeyMap { channel: 1, code: KeyCode::GSharp1 },
        KeyMap { channel: 14, code: KeyCode::A1 },
        KeyMap { channel: 0, code: KeyCode::ASharp1 },
        KeyMap { channel: 15, code: KeyCode::B1 },
    ]
}

/// The wiring of the left half of the board, in scanning order.
pub fn left_keys() -> (r: Vec<KeyMap>)
    ensures
        r@ == left_keys_spec(),
{
    let r = vec![
        KeyMap::new(6, KeyCode::SHIFT),
        KeyMap::new(7, KeyCode::UP),
        KeyMap::new(8, KeyCode::DOWN),
        KeyMap::new(9, KeyCode::C1),
        KeyMap::new(5, KeyCode::CSharp1),
        KeyMap::new(10, KeyCode::D1),
        KeyMap::new(4, KeyCode::DSharp1),
        KeyMap::new(11, KeyCode::E1),
        KeyMap::new(12, KeyCode::F1),
        KeyMap::new(2, KeyCode::FSharp1),
        KeyMap::new(13, KeyCode::G1),
        KeyMap::new(1, KeyCode::GSharp1),
        KeyMap::new(14, KeyCode::A1),
        KeyMap::new(0, KeyCode::ASharp1),
        KeyMap::new(15, KeyCode::B1),
    ];
    assert(r@ =~= left_keys_spec());
    r
}

/// What the scanner reports about a key.
#[derive(Clone, Copy, Debug, PartialEq, Eq, Structural)]
pub enum KeyEvent {
    Pressed(KeyCode, u8),
    Released(KeyCode, u8),
}

/// The scanner's memory: the octave, which keys are down, and each key's
/// last settled reading.
#[derive(Clone, Debug)]
pub struct State {
    pub octave: u8,
    pub notes_on: Vec<bool>,
    pub positions: Vec<u16>,
}

/// How far apart two readings are.
pub open spec fn distance(a: u16, b: u16) -> int {
    if a >= b {
        a - b
    } else {
        b - a
    }
}

impl State {
    /// One entry per key in both tables.
    pub open spec fn wf(&self) -> bool {
        self.notes_on@.len() == NUM_KEYS && self.positions@.len() == NUM_KEYS
    }

    /// The start state: octave four, no key down, every key at rest.
    pub fn new() -> (r: State)
        ensures
            r.wf(),
            r.octave == START_OCTAVE,
            forall|i: int| 0 <= i < NUM_KEYS ==> !#[trigger] r.notes_on@[i],
            forall|i: int| 0 <= i < NUM_KEYS ==> #[trigger] r.positions@[i] == REST_POSITION,
    {
        let mut notes_on: Vec<bool> = Vec::new();
        let mut positions: Vec<u16> = Vec::new();
        let mut i: usize = 0;
        while i < NUM_KEYS
            invariant
                i <= NUM_KEYS,
                notes_on@.len() == i,
                positions@.len() == i,
                forall|j: int| 0 <= j < i ==> !#[trigger] notes_on@[j],
                forall|j: int| 0 <= j < i ==> #[trigger] positions@[j] == REST_POSITION,
            decreases NUM_KEYS - i,
        {
            notes_on.push(false);
            positions.push(REST_POSITION);
            i = i + 1;
        }
        State { octave: START_OCTAVE, notes_on, positions }
    }
}

impl Default for State {
    fn default() -> (r: State)
        ensures
            r.wf(),
            r.octave == START_OCTAVE,
            forall|i: int| 0 <= i < NUM_KEYS ==> !#[trigger] r.notes_on@[i],
            forall|i: int| 0 <= i < NUM_KEYS ==> #[trigger] r.positions@[i] == REST_POSITION,
    {
        State::new()
    }
}

/// Whether a first reading of `key` has moved far enough from its settled
/// position that the scanner should wait and read it again.
pub fn needs_confirmation(state: &State, key: KeyCode, reading: u16) -> (r: bool)
    requires
        state.wf(),
    ensures
        r == (distance(reading, state.positions@[key.spec_index()]) > DEBOUNCE_THRESHOLD),
{
    let previous = state.positions[key.index()];
    let d = if reading >= previous {
        reading - previous
    } else {
        previous - reading
    };
    d > DEBOUNCE_THRESHOLD
}

/// The event, if any, that a confirmed reading `next` of a key gives: a
/// reading far enough below the settled one presses a key that is up, one
/// far enough above releases a key that is down. The velocity is the
/// distance moved, at most 127.
pub open spec fn settle_event(key: KeyCode, on: bool, previous: u16, next: u16) -> Option<
    KeyEvent,
> {
    let d = distance(next, previous);
    let velocity = (if d > 127 {
        127
    } else {
        d
    }) as u8;
    if d <= DEBOUNCE_THRESHOLD {
        None
    } else if previous > next {
        if on {
            None
        } else {
            Some(KeyEvent::Pressed(key, velocity))
        }
    } else {
        if on {
            Some(KeyEvent::Released(key, velocity))
        } else {
            None
        }
    }
}

/// Takes the confirmed reading `next` of `key`: records it as the key's
/// settled position, marks the key down or up on a press or a release, and
/// returns that event.
pub fn settle(state: &mut State, key: KeyCode, next: u16) -> (r: Option<KeyEvent>)
    requires
        old(state).wf(),
    ensures
        final(state).wf(),
        final(state).octave == old(state).octave,
        r == settle_event(
            key,
            old(state).notes_on@[key.spec_index()],
            old(state).positions@[key.spec_index()],
            next,
        ),
        final(state).positions@ == old(state).positions@.update(key.spec_index(), next),
        final(state).notes_on@ == old(state).notes_on@.update(
            key.spec_index(),
            match r {
                Some(KeyEvent::Pressed(_, _)) => true,
                Some(KeyEvent::Released(_, _)) => false,
                None => old(state).notes_on@[key.spec_index()],
            },
        ),
{
    let k = key.index();
    let previous = state.positions[k];
    let on = state.notes_on[k];
    let d = if next >= previous {
        next - previous
    } else {
        previous - next
    };
    let velocity: u8 = if d > 127 {
        127
    } else {
        d as u8
    };
    let mut event: Option<KeyEvent> = None;
    if d > DEBOUNCE_THRESHOLD {
        if previous > next {
            if !on {
                state.notes_on.set(k, true);
                event = Some(KeyEvent::Pressed(key, velocity));
            }
        } else if on {
            state.notes_on.set(k, false);
            event = Some(KeyEvent::Released(key, velocity));
        }
    }
    state.positions.set(k, next);
    proof {
        if event is None {
            assert(state.notes_on@ =~= old(state).notes_on@.update(
                key.spec_index(),
                old(state).notes_on@[key.spec_index()],
            ));
        }
    }
    event
}

/// First byte of every packet the board sends over USB.
pub const USB_PACKET_HEADER: u8 = 0x08;

/// The USB packet for a key event in `octave` on MIDI channel 1: the header
/// byte, then the note-on or note-off message. Keys that play no note in
/// that octave send nothing.
pub fn key_event_packet(event: KeyEvent, octave: u8) -> (r: Option<Vec<u8>>)
    ensures
        ({
            let (key, velocity, on) = match event {
                KeyEvent::Pressed(k, v) => (k, v, true),
                KeyEvent::Released(k, v) => (k, v, false),
            };
            match key.spec_note(octave) {
                None => r is None,
                Some(n) => {
                    let v = (velocity % 128) as u8;
                    let m = if on {
                        crate::midi::Message::NoteOn { channel: 0, note: n, velocity: v }
                    } else {
                        crate::midi::Message::NoteOff { channel: 0, note: n, velocity: v }
                    };
                    r matches Some(p) && p@ == seq![USB_PACKET_HEADER] + encode_spec(m)
                },
            }
        }),
{
    let (key, velocity, on) = match event {
        KeyEvent::Pressed(k, v) => (k, v, true),
        KeyEvent::Released(k, v) => (k, v, false),
    };
    match key.to_note(octave) {
        None => None,
        Some(note) => {
            let velocity = velocity % 128;
            let message = if on {
                MidiMessage::NoteOn { channel: 0, note, velocity }
            } else {
                MidiMessage::NoteOff { channel: 0, note, velocity }
            };
            let body = midi_to_bytes(message);
            let mut packet: Vec<u8> = Vec::new();
            packet.push(USB_PACKET_HEADER);
            let mut i: usize = 0;
            while i < body.len()
                invariant
                    i <= body@.len(),
                    packet@ == seq![USB_PACKET_HEADER] + body@.subrange(0, i as int),
                decreases body@.len() - i,
            {
                packet.push(body[i]);
                i = i + 1;
                assert(packet@ =~= seq![USB_PACKET_HEADER] + body@.subrange(0, i as int));
            }
            assert(body@.subrange(0, body@.len() as int) =~= body@);
            Some(packet)
        },
    }
}

} // verus!
