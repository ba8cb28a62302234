//! Helpers behind the on-screen keyboard: turning a key press or
//! release into the synthetic MIDI event the synthesizer consumes,
//! and reading a key's state out of a copied key-state buffer.

use vstd::prelude::*;

use crate::midi_message::{MidiKeyEvent, MidiMessage};
use crate::synth::SynthKeyState;

verus! {

/// The synthetic MIDI event a pointer press or release on a key
/// stands for: zero pressure releases the key, anything else strikes
/// it, always on channel 1.
pub fn send_note_event(key: usize, pressure: u8) -> (r: MidiMessage)
    ensures
        r == (if pressure == 0 {
            MidiMessage::NoteOff(1, MidiKeyEvent { key: key as u8, pressure: 0 })
        } else {
            MidiMessage::NoteOn(1, MidiKeyEvent { key: key as u8, pressure })
        }),
{
    if pressure == 0 {
        MidiMessage::NoteOff(1, MidiKeyEvent { key: key as u8, pressure: 0 })
    } else {
        MidiMessage::NoteOn(1, MidiKeyEvent { key: key as u8, pressure })
    }
}

/// The state a key shows a reader; a key out of range reads `Off`.
pub fn get_key_state(key: usize, keys: &Vec<SynthKeyState>) -> (r: SynthKeyState)
    ensures
        r == (if key < keys@.len() {
            keys@[key as int]
        } else {
            SynthKeyState::Off
        }),
{
    if key < keys.len() {
        keys[key]
    } else {
        SynthKeyState::Off
    }
}

} // verus!
