//! Conversion between raw MIDI byte frames and typed messages.
use vstd::prelude::*;

verus! {

/// Why a byte frame is not a MIDI message.
#[derive(Clone, Copy, Debug, PartialEq, Eq, Structural)]
pub enum DecodeError {
    /// The frame holds no bytes.
    NoBytes,
    /// The frame starts with a data byte where a status byte belongs.
    UnexpectedDataByte,
    /// A status byte stands where a data byte belongs.
    UnexpectedStatusByte,
    /// The status byte asks for more data bytes than the frame holds.
    NotEnoughBytes,
    /// A system-exclusive frame that never ends.
    NoSysExEndByte,
    /// A status byte of a kind this codec does not handle.
    UnsupportedStatusByte,
}

/// A MIDI message as plain values.
#[derive(Clone, Debug, PartialEq, Eq)]
pub enum MidiMessage {
    NoteOff { channel: u8, note: u8, velocity: u8 },
    NoteOn { channel: u8, note: u8, velocity: u8 },
    PolyPressure { channel: u8, note: u8, pressure: u8 },
    ControlChange { channel: u8, control: u8, value: u8 },
    ProgramChange { channel: u8, program: u8 },
    ChannelPressure { channel: u8, pressure: u8 },
    PitchBend { channel: u8, bend: u16 },
    SysEx { data: Vec<u8> },
    TimingClock,
    Start,
    Continue,
    Stop,
    ActiveSensing,
    Reset,
}

/// The mathematical model of a `MidiMessage`.
pub enum Message {
    NoteOff { channel: u8, note: u8, velocity: u8 },
    NoteOn { channel: u8, note: u8, velocity: u8 },
    PolyPressure { channel: u8, note: u8, pressure: u8 },
    ControlChange { channel: u8, control: u8, value: u8 },
    ProgramChange { channel: u8, program: u8 },
    ChannelPressure { channel: u8, pressure: u8 },
    PitchBend { channel: u8, bend: u16 },
    SysEx { data: Seq<u8> },
    TimingClock,
    Start,
    Continue,
    Stop,
    ActiveSensing,
    Reset,
}

impl View for MidiMessage {
    type V = Message;

    open spec fn view(&self) -> Message {
        match self {
            MidiMessage::NoteOff { channel, note, velocity } => Message::NoteOff {
                channel: *channel,
                note: *note,
                velocity: *velocity,
            },
            MidiMessage::NoteOn { channel, note, velocity } => Message::NoteOn {
                channel: *channel,
                note: *note,
                velocity: *velocity,
            },
            MidiMessage::PolyPressure { channel, note, pressure } => Message::PolyPressure {
                channel: *channel,
                note: *note,
                pressure: *pressure,
            },
            MidiMessage::ControlChange { channel, control, value } => Message::ControlChange {
                channel: *channel,
                control: *control,
                value: *value,
            },
            MidiMessage::ProgramChange { channel, program } => Message::ProgramChange {
                channel: *channel,
                program: *program,
            },
            MidiMessage::ChannelPressure { channel, pressure } => Message::ChannelPressure {
                channel: *channel,
                pressure: *pressure,
            },
            MidiMessage::PitchBend { channel, bend } => Message::PitchBend {
                channel: *channel,
                bend: *bend,
            },
            MidiMessage::SysEx { data } => Message::SysEx { data: data@ },
            MidiMessage::TimingClock => Message::TimingClock,
            MidiMessage::Start => Message::Start,
            MidiMessage::Continue => Message::Continue,
            MidiMessage::Stop => Message::Stop,
            MidiMessage::ActiveSensing => Message::ActiveSensing,
            MidiMessage::Reset => Message::Reset,
        }
    }
}

/// A data byte: its top bit is clear.
pub open spec fn is_data(b: u8) -> bool {
    b < 0x80
}

pub open spec fn all_data(s: Seq<u8>) -> bool {
    forall|i: int| 0 <= i < s.len() ==> is_data(#[trigger] s[i])
}

impl Message {
    /// The messages that have a byte encoding: channels below 16, data values
    /// of seven bits, pitch bends of fourteen.
    pub open spec fn wf(self) -> bool {
        match self {
            Message::NoteOff { channel, note, velocity } => channel < 16 && is_data(note)
                && is_data(velocity),
            Message::NoteOn { channel, note, velocity } => channel < 16 && is_data(note)
                && is_data(velocity),
            Message::PolyPressure { channel, note, pressure } => channel < 16 && is_data(note)
                && is_data(pressure),
            Message::ControlChange { channel, control, value } => channel < 16 && is_data(
                control,
            ) && is_data(value),
            Message::ProgramChange { channel, program } => channel < 16 && is_data(program),
            Message::ChannelPressure { channel, pressure } => channel < 16 && is_data(pressure),
            Message::PitchBend { channel, bend } => channel < 16 && bend < 0x4000,
            Message::SysEx { data } => all_data(data),
            _ => true,
        }
    }
}

/// The bytes of a message on the wire.
pub open spec fn encode_spec(m: Message) -> Seq<u8> {
    match m {
        Message::NoteOff { channel, note, velocity } => seq![(0x80 + channel) as u8, note, velocity],
        Message::NoteOn { channel, note, velocity } => seq![(0x90 + channel) as u8, note, velocity],
        Message::PolyPressure { channel, note, pressure } => seq![
            (0xA0 + channel) as u8,
            note,
            pressure,
        ],
        Message::ControlChange { channel, control, value } => seq![
            (0xB0 + channel) as u8,
            control,
            value,
        ],
        Message::ProgramChange { channel, program } => seq![(0xC0 + channel) as u8, program],
        Message::ChannelPressure { channel, pressure } => seq![(0xD0 + channel) as u8, pressure],
        Message::PitchBend { channel, bend } => seq![
            (0xE0 + channel) as u8,
            (bend % 128) as u8,
            (bend / 128) as u8,
        ],
        Message::SysEx { data } => seq![0xF0u8] + data + seq![0xF7u8],
        Message::TimingClock => seq![0xF8u8],
        Message::Start => seq![0xFAu8],
        Message::Continue => seq![0xFBu8],
        Message::Stop => seq![0xFCu8],
        Message::ActiveSensing => seq![0xFEu8],
        Message::Reset => seq![0xFFu8],
    }
}

/// Number of data bytes that follow a channel status byte of kind `kind`
/// (the status byte's high nibble).
pub open spec fn channel_data_len(kind: u8) -> int {
    if kind == 0xC || kind == 0xD {
        1
    } else {
        2
    }
}

/// Decodes a frame whose first byte is a channel status byte.
pub open spec fn decode_channel_spec(b: Seq<u8>) -> Result<Message, DecodeError> {
    let kind = (b[0] / 16) as u8;
    let channel = (b[0] % 16) as u8;
    let n = channel_data_len(kind);
    if b.len() < n + 1 {
        Err(DecodeError::NotEnoughBytes)
    } else if !is_data(b[1]) || (n == 2 && !is_data(b[2])) {
        Err(DecodeError::UnexpectedStatusByte)
    } else if kind == 0x8 {
        Ok(Message::NoteOff { channel, note: b[1], velocity: b[2] })
    } else if kind == 0x9 {
        Ok(Message::NoteOn { channel, note: b[1], velocity: b[2] })
    } else if kind == 0xA {
        Ok(Message::PolyPressure { channel, note: b[1], pressure: b[2] })
    } else if kind == 0xB {
        Ok(Message::ControlChange { channel, control: b[1], value: b[2] })
    } else if kind == 0xC {
        Ok(Message::ProgramChange { channel, program: b[1] })
    } else if kind == 0xD {
        Ok(Message::ChannelPressure { channel, pressure: b[1] })
    } else {
        Ok(Message::PitchBend { channel, bend: (b[1] + 128 * b[2]) as u16 })
    }
}

/// The index of the first status byte at or after `i`, or the length of `b`
/// if there is none.
pub open spec fn first_status_from(b: Seq<u8>, i: int) -> int
    decreases b.len() - i,
{
    if i >= b.len() {
        b.len() as int
    } else if !is_data(b[i]) {
        i
    } else {
        first_status_from(b, i + 1)
    }
}

/// Decodes a frame that starts with 0xF0: data bytes up to 0xF7.
pub open spec fn decode_sysex_spec(b: Seq<u8>) -> Result<Message, DecodeError> {
    let end = first_status_from(b, 1);
    if end >= b.len() {
        Err(DecodeError::NoSysExEndByte)
    } else if b[end] == 0xF7 {
        Ok(Message::SysEx { data: b.subrange(1, end) })
    } else {
        Err(DecodeError::UnexpectedStatusByte)
    }
}

/// The message that a frame starts with. Bytes after a complete message are
/// not read.
pub open spec fn decode_spec(b: Seq<u8>) -> Result<Message, DecodeError> {
    if b.len() == 0 {
        Err(DecodeError::NoBytes)
    } else if is_data(b[0]) {
        Err(DecodeError::UnexpectedDataByte)
    } else if b[0] < 0xF0 {
        decode_channel_spec(b)
    } else if b[0] == 0xF0 {
        decode_sysex_spec(b)
    } else if b[0] == 0xF8 {
        Ok(Message::TimingClock)
    } else if b[0] == 0xFA {
        Ok(Message::Start)
    } else if b[0] == 0xFB {
        Ok(Message::Continue)
    } else if b[0] == 0xFC {
        Ok(Message::Stop)
    } else if b[0] == 0xFE {
        Ok(Message::ActiveSensing)
    } else if b[0] == 0xFF {
        Ok(Message::Reset)
    } else {
        Err(DecodeError::UnsupportedStatusByte)
    }
}

pub open spec fn result_view(r: Result<MidiMessage, DecodeError>) -> Result<Message, DecodeError> {
    match r {
        Ok(m) => Ok(m@),
        Err(e) => Err(e),
    }
}

impl MidiMessage {
    /// Whether the message has a byte encoding.
    pub fn is_valid(&self) -> (r: bool)
        ensures
            r == self@.wf(),
    {
        match self {
            MidiMessage::NoteOff { channel, note, velocity } => *channel < 16 && *note < 0x80
                && *velocity < 0x80,
            MidiMessage::NoteOn { channel, note, velocity } => *channel < 16 && *note < 0x80
                && *velocity < 0x80,
            MidiMessage::PolyPressure { channel, note, pressure } => *channel < 16 && *note < 0x80
                && *pressure < 0x80,
            MidiMessage::ControlChange { channel, control, value } => *channel < 16 && *control
                < 0x80 && *value < 0x80,
            MidiMessage::ProgramChange { channel, program } => *channel < 16 && *program < 0x80,
            MidiMessage::ChannelPressure { channel, pressure } => *channel < 16 && *pressure
                < 0x80,
            MidiMessage::PitchBend { channel, bend } => *channel < 16 && *bend < 0x4000,
            MidiMessage::SysEx { data } => {
                let mut i: usize = 0;
                while i < data.len()
                    invariant
                        i <= data@.len(),
                        self@ == (Message::SysEx { data: data@ }),
                        forall|j: int| 0 <= j < i ==> is_data(#[trigger] data@[j]),
                    decreases data@.len() - i,
                {
                    if data[i] >= 0x80 {
                        assert(!is_data(data@[i as int]));
                        return false;
                    }
                    i = i + 1;
                }
                true
            },
            _ => true,
        }
    }
}

/// Decodes the message that `bytes` starts with.
pub fn bytes_to_midi(bytes: &[u8]) -> (r: Result<MidiMessage, DecodeError>)
    ensures
        result_view(r) == decode_spec(bytes@),
{
    if bytes.len() == 0 {
        return Err(DecodeError::NoBytes);
    }
    let status = bytes[0];
    if status < 0x80 {
        Err(DecodeError::UnexpectedDataByte)
    } else if status < 0xF0 {
        decode_channel(bytes)
    } else if status == 0xF0 {
        decode_sysex(bytes)
    } else if status == 0xF8 {
        Ok(MidiMessage::TimingClock)
    } else if status == 0xFA {
        Ok(MidiMessage::Start)
    } else if status == 0xFB {
        Ok(MidiMessage::Continue)
    } else if status == 0xFC {
        Ok(MidiMessage::Stop)
    } else if status == 0xFE {
        Ok(MidiMessage::ActiveSensing)
    } else if status == 0xFF {
        Ok(MidiMessage::Reset)
    } else {
        Err(DecodeError::UnsupportedStatusByte)
    }
}

fn decode_channel(bytes: &[u8]) -> (r: Result<MidiMessage, DecodeError>)
    requires
        bytes@.len() > 0,
        0x80 <= bytes@[0] < 0xF0,
    ensures
        result_view(r) == decode_channel_spec(bytes@),
{
    let kind = bytes[0] / 16;
    let channel = bytes[0] % 16;
    let n: usize = if kind == 0xC || kind == 0xD {
        1
    } else {
        2
    };
    if bytes.len() < n + 1 {
        return Err(DecodeError::NotEnoughBytes);
    }
    let first = bytes[1];
    if first >= 0x80 {
        return Err(DecodeError::UnexpectedStatusByte);
    }
    if n == 1 {
        if kind == 0xC {
            return Ok(MidiMessage::ProgramChange { channel, program: first });
        } else {
            return Ok(MidiMessage::ChannelPressure { channel, pressure: first });
        }
    }
    let second = bytes[2];
    if second >= 0x80 {
        return Err(DecodeError::UnexpectedStatusByte);
    }
    if kind == 0x8 {
        Ok(MidiMessage::NoteOff { channel, note: first, velocity: second })
    } else if kind == 0x9 {
        Ok(MidiMessage::NoteOn { channel, note: first, velocity: second })
    } else if kind == 0xA {
        Ok(MidiMessage::PolyPressure { channel, note: first, pressure: second })
    } else if kind == 0xB {
        Ok(MidiMessage::ControlChange { channel, control: first, value: second })
    } else {
        Ok(MidiMessage::PitchBend { channel, bend: first as u16 + 128 * second as u16 })
    }
}

fn decode_sysex(bytes: &[u8]) -> (r: Result<MidiMessage, DecodeError>)
    requires
        bytes@.len() > 0,
        bytes@[0] == 0xF0,
    ensures
        result_view(r) == decode_sysex_spec(bytes@),
{
    let mut data: Vec<u8> = Vec::new();
    let mut i: usize = 1;
    while i < bytes.len() && bytes[i] < 0x80
        invariant
            1 <= i <= bytes@.len(),
            data@ == bytes@.subrange(1, i as int),
            first_status_from(bytes@, 1) == first_status_from(bytes@, i as int),
        decreases bytes@.len() - i,
    {
        data.push(bytes[i]);
        i = i + 1;
        assert(data@ == bytes@.subrange(1, i as int));
    }
    if i == bytes.len() {
        Err(DecodeError::NoSysExEndByte)
    } else if bytes[i] == 0xF7 {
        Ok(MidiMessage::SysEx { data })
    } else {
        Err(DecodeError::UnexpectedStatusByte)
    }
}

/// The bytes of `message` on the wire.
pub fn midi_to_bytes(message: MidiMessage) -> (r: Vec<u8>)
    requires
        message@.wf(),
    ensures
        r@ == encode_spec(message@),
{
    match &message {
        MidiMessage::NoteOff { channel, note, velocity } => vec![0x80 + *channel, *note, *velocity],
        MidiMessage::NoteOn { channel, note, velocity } => vec![0x90 + *channel, *note, *velocity],
        MidiMessage::PolyPressure { channel, note, pressure } => vec![
            0xA0 + *channel,
            *note,
            *pressure,
        ],
        MidiMessage::ControlChange { channel, control, value } => vec![
            0xB0 + *channel,
            *control,
            *value,
        ],
        MidiMessage::ProgramChange { channel, program } => vec![0xC0 + *channel, *program],
        MidiMessage::ChannelPressure { channel, pressure } => vec![0xD0 + *channel, *pressure],
        MidiMessage::PitchBend { channel, bend } => vec![
            0xE0 + *channel,
            (*bend % 128) as u8,
            (*bend / 128) as u8,
        ],
        MidiMessage::SysEx { data } => {
            let mut out: Vec<u8> = Vec::new();
            out.push(0xF0);
            let mut i: usize = 0;
            while i < data.len()
                invariant
                    i <= data@.len(),
                    out@ == seq![0xF0u8] + data@.subrange(0, i as int),
                decreases data@.len() - i,
            {
                out.push(data[i]);
                i = i + 1;
                assert(out@ == seq![0xF0u8] + data@.subrange(0, i as int));
            }
            out.push(0xF7);
            assert(data@.subrange(0, data@.len() as int) == data@);
            out
        },
        MidiMessage::TimingClock => vec![0xF8],
        MidiMessage::Start => vec![0xFA],
        MidiMessage::Continue => vec![0xFB],
        MidiMessage::Stop => vec![0xFC],
        MidiMessage::ActiveSensing => vec![0xFE],
        MidiMessage::Reset => vec![0xFF],
    }
}

proof fn lemma_sysex_end(data: Seq<u8>, i: int)
    requires
        all_data(data),
        1 <= i <= data.len() + 1,
    ensures
        first_status_from(seq![0xF0u8] + data + seq![0xF7u8], i) == data.len() + 1,
    decreases data.len() + 1 - i,
{
    let b = seq![0xF0u8] + data + seq![0xF7u8];
    if i <= data.len() {
        assert(b[i] == data[i - 1]);
        lemma_sysex_end(data, i + 1);
    } else {
        assert(b[i] == 0xF7u8);
    }
}

/// Decoding the encoding of a message gives the message back.
pub proof fn lemma_round_trip(m: Message)
    requires
        m.wf(),
    ensures
        decode_spec(encode_spec(m)) == Ok::<Message, DecodeError>(m),
{
    match m {
        Message::SysEx { data } => {
            let b = seq![0xF0u8] + data + seq![0xF7u8];
            lemma_sysex_end(data, 1);
            assert(b.subrange(1, data.len() as int + 1) =~= data);
        },
        Message::PitchBend { channel, bend } => {
            assert((bend % 128) + 128 * (bend / 128) == bend) by (nonlinear_arith);
        },
        _ => {},
    }
}

/// The empty frame, a note-on frame cut short after its note, and any frame
/// that starts with a data byte all decode to an error.
pub proof fn lemma_malformed(b: Seq<u8>)
    ensures
        b.len() == 0 ==> decode_spec(b) is Err,
        b.len() == 2 && 0x90 <= b[0] < 0xA0 ==> decode_spec(b) is Err,
        b.len() > 0 && is_data(b[0]) ==> decode_spec(b) is Err,
{
}

} // verus!
