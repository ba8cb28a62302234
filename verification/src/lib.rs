//! A polyphonic additive-synthesis engine driven by MIDI input.
//!
//! The crate holds the synthesizer's core logic: the MIDI byte-frame
//! codec, the connection manager's state machine, the fixed-point
//! oscillator voices, and the voice pool with per-key state.  All
//! continuous quantities (frequencies, volumes, phases) are integer
//! fixed-point values so that every computation can be verified.

pub mod audio_writer;
pub mod keyboard;
pub mod midi_message;
pub mod midi_reader;
pub mod synth;
pub mod synth_voice;
