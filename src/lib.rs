//! The logic of a polyphonic MIDI synthesizer and of the keyboard that
//! plays it.
//!
//! - `midi`: MIDI byte frames to typed messages and back.
//! - `params`: the named control values, held within range.
//! - `router`: which messages go to the engine and which to the interface.
//! - `engine`: one voice slot per note, and the commands that start and
//!   fade voices in the render graph.
//! - `envelope`: the amplitude shape of a voice.
//! - `render`: rendered frames written into a device buffer.
//! - `ui`: the interface's screens and menus.
//! - `keyboard`: playing from a computer keyboard.
//! - `keys`, `led`: the hardware keyboard's key matrix and status light.

pub mod engine;
pub mod envelope;
pub mod keyboard;
pub mod keys;
pub mod led;
pub mod midi;
pub mod params;
pub mod render;
pub mod router;
pub mod ui;
