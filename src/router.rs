//! Classification of decoded MIDI messages into engine and UI events.
use vstd::prelude::*;
use crate::midi::{bytes_to_midi, decode_spec, DecodeError, Message, MidiMessage};
use crate::params::{Direction, Parameter};

verus! {

/// Controller number that raises the parameter of its channel.
pub const DATA_INCREMENT: u8 = 0x60;

/// Controller number that lowers the parameter of its channel.
pub const DATA_DECREMENT: u8 = 0x61;

/// An event for the audio engine.
#[derive(Clone, Copy, Debug, PartialEq, Eq, Structural)]
pub enum EngineEvent {
    NoteOn(u8),
    NoteOff(u8),
    ParameterChange(Parameter, Direction),
}

/// A discrete signal for the user interface.
#[derive(Clone, Copy, Debug, PartialEq, Eq, Structural)]
pub enum ActionEvent {
    A,
    B,
    X,
    Y,
    Quit,
}

/// Where a message goes.
#[derive(Clone, Copy, Debug, PartialEq, Eq, Structural)]
pub enum Routed {
    Engine(EngineEvent),
    Action(ActionEvent),
    Dropped,
}

/// The parameter that channel `channel` controls.
pub open spec fn channel_parameter(channel: u8) -> Option<Parameter> {
    if channel < 16 {
        Some(choose|p: Parameter| p.spec_index() == channel)
    } else {
        None
    }
}

/// The action that a system-exclusive payload stands for.
pub open spec fn sysex_action(data: Seq<u8>) -> Option<ActionEvent> {
    if data == seq![2u8, 2u8, 2u8] {
        Some(ActionEvent::B)
    } else if data == seq![3u8, 3u8, 3u8] {
        Some(ActionEvent::X)
    } else if data == seq![4u8, 4u8, 4u8] {
        Some(ActionEvent::Y)
    } else {
        None
    }
}

/// Where message `m` goes.
pub open spec fn route_spec(m: Message) -> Routed {
    match m {
        Message::NoteOn { note, velocity, .. } => if velocity == 0 {
            Routed::Engine(EngineEvent::NoteOff(note))
        } else {
            Routed::Engine(EngineEvent::NoteOn(note))
        },
        Message::NoteOff { note, .. } => Routed::Engine(EngineEvent::NoteOff(note)),
        Message::ControlChange { channel, control, .. } => {
            if (control == DATA_INCREMENT || control == DATA_DECREMENT) && channel < 16 {
                let d = if control == DATA_INCREMENT {
                    Direction::Increment
                } else {
                    Direction::Decrement
                };
                Routed::Engine(
                    EngineEvent::ParameterChange(channel_parameter(channel).unwrap(), d),
                )
            } else {
                Routed::Dropped
            }
        },
        Message::Start => Routed::Action(ActionEvent::A),
        Message::SysEx { data } => match sysex_action(data) {
            Some(a) => Routed::Action(a),
            None => Routed::Dropped,
        },
        _ => Routed::Dropped,
    }
}

proof fn lemma_channel_parameter(p: Parameter, channel: u8)
    requires
        p.spec_index() == channel,
    ensures
        channel_parameter(channel) == Some(p),
{
    let q = choose|q: Parameter| q.spec_index() == channel;
    assert(q.spec_index() == channel);
    assert(q == p);
}

fn payload_is(data: &Vec<u8>, b: u8) -> (r: bool)
    ensures
        r == (data@ == seq![b, b, b]),
{
    if data.len() == 3 && data[0] == b && data[1] == b && data[2] == b {
        assert(data@ =~= seq![b, b, b]);
        true
    } else {
        false
    }
}

/// Where `message` goes: notes to the engine (a note-on of velocity zero
/// ends its note, as MIDI senders use it), data increments and
/// decrements to the parameter of their channel, Start and the three
/// reserved system-exclusive payloads to the user interface.
pub fn route(message: &MidiMessage) -> (r: Routed)
    ensures
        r == route_spec(message@),
{
    match message {
        MidiMessage::NoteOn { note, velocity, .. } => if *velocity == 0 {
            Routed::Engine(EngineEvent::NoteOff(*note))
        } else {
            Routed::Engine(EngineEvent::NoteOn(*note))
        },
        MidiMessage::NoteOff { note, .. } => Routed::Engine(EngineEvent::NoteOff(*note)),
        MidiMessage::ControlChange { channel, control, .. } => {
            if *control != DATA_INCREMENT && *control != DATA_DECREMENT {
                return Routed::Dropped;
            }
            let d = if *control == DATA_INCREMENT {
                Direction::Increment
            } else {
                Direction::Decrement
            };
            match Parameter::from_index(*channel) {
                Some(p) => {
                    proof {
                        lemma_channel_parameter(p, *channel);
                    }
                    Routed::Engine(EngineEvent::ParameterChange(p, d))
                },
                None => Routed::Dropped,
            }
        },
        MidiMessage::Start => Routed::Action(ActionEvent::A),
        MidiMessage::SysEx { data } => {
            if payload_is(data, 2) {
                Routed::Action(ActionEvent::B)
            } else if payload_is(data, 3) {
                Routed::Action(ActionEvent::X)
            } else if payload_is(data, 4) {
                Routed::Action(ActionEvent::Y)
            } else {
                Routed::Dropped
            }
        },
        _ => Routed::Dropped,
    }
}

/// Decodes a received frame and says where its message goes; a frame that
/// does not decode is reported and nothing is routed.
pub fn route_frame(bytes: &[u8]) -> (r: Result<Routed, DecodeError>)
    ensures
        match decode_spec(bytes@) {
            Ok(m) => r == Ok::<Routed, DecodeError>(route_spec(m)),
            Err(e) => r == Err::<Routed, DecodeError>(e),
        },
{
    match bytes_to_midi(bytes) {
        Ok(m) => Ok(route(&m)),
        Err(e) => Err(e),
    }
}

} // verus!
