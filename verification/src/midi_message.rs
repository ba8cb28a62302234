//! Stateless codec from raw MIDI byte frames to structured events.
//!
//! Decoding is a total, pure function of the frame: malformed or
//! too-short frames decode to `MidiMessage::Invalid` instead of
//! failing.  The channel is 1-based (status nibble plus one).

use vstd::prelude::*;

verus! {

/// Key press or release data carried by note events.
#[derive(Clone, Copy, Debug, PartialEq, Eq, Structural)]
pub struct MidiKeyEvent {
    pub key: u8,
    pub pressure: u8,
}

/// A control-change event's controller number and value.
#[derive(Clone, Copy, Debug, PartialEq, Eq, Structural)]
pub struct MidiControlEvent {
    pub control: u8,
    pub value: u8,
}

/// A program-change event's program number.
#[derive(Clone, Copy, Debug, PartialEq, Eq, Structural)]
pub struct MidiProgramChangeEvent {
    pub number: u8,
}

/// A channel-aftertouch event's pressure.
#[derive(Clone, Copy, Debug, PartialEq, Eq, Structural)]
pub struct MidiAftertouchEvent {
    pub pressure: u8,
}

/// A pitch-wheel event's 14-bit wheel position.
#[derive(Clone, Copy, Debug, PartialEq, Eq, Structural)]
pub struct MidiPitchEvent {
    pub wheel: u16,
}

/// The first two payload bytes of a system-exclusive frame,
/// zero-padded when the frame is shorter.
#[derive(Clone, Copy, Debug, PartialEq, Eq)]
pub struct MidiSysExEvent {
    pub data: [u8; 2],
}

/// A structured MIDI event, or a connection-lifecycle notification.
///
/// `PortConnected` and `PortDisconnected` are produced by the
/// connection manager, never by the codec; the rest carry the
/// 1-based channel the frame addressed.
#[derive(Clone, Copy, Debug, PartialEq, Eq)]
pub enum MidiMessage {
    PortConnected,
    PortDisconnected,
    Invalid,
    NoteOn(u8, MidiKeyEvent),
    NoteOff(u8, MidiKeyEvent),
    PolyAfertouch(u8, MidiKeyEvent),
    ControlChange(u8, MidiControlEvent),
    ProgramChange(u8, MidiProgramChangeEvent),
    ChannelAftertouch(u8, MidiAftertouchEvent),
    PitchWheel(u8, MidiPitchEvent),
    SysEx(u8, MidiSysExEvent),
}

/// How many bytes a frame needs for its status byte's kind.
/// Unrecognized status bytes need only themselves; system-exclusive
/// frames are accepted at any length.
pub open spec fn spec_min_frame_len(status: u8) -> int {
    let hi = status & 0xf0;
    if hi == 0xc0 || hi == 0xd0 {
        2
    } else if hi == 0x80 || hi == 0x90 || hi == 0xa0 || hi == 0xb0 || hi == 0xe0 {
        3
    } else {
        1
    }
}

/// The byte at `i`, or zero past the end of the frame.
pub open spec fn spec_byte_or_zero(data: Seq<u8>, i: int) -> u8 {
    if 0 <= i < data.len() {
        data[i]
    } else {
        0
    }
}

/// The 1-based channel a status byte addresses.
pub open spec fn spec_channel(status: u8) -> u8 {
    ((status & 0x0f) + 1) as u8
}

/// The 14-bit pitch-wheel position packed little-endian from two
/// data bytes: the first byte holds the low seven bits.
pub open spec fn spec_wheel(lo: u8, hi: u8) -> u16 {
    (((hi as u16) << 7) | (lo as u16)) as u16
}

/// What a raw byte frame decodes to.
pub open spec fn spec_decode(data: Seq<u8>) -> MidiMessage {
    if data.len() == 0 {
        MidiMessage::Invalid
    } else {
        let status = data[0];
        let chan = spec_channel(status);
        let hi = status & 0xf0;
        if hi == 0x80 {
            if data.len() >= 3 {
                MidiMessage::NoteOff(chan, MidiKeyEvent { key: data[1], pressure: data[2] })
            } else {
                MidiMessage::Invalid
            }
        } else if hi == 0x90 {
            if data.len() >= 3 {
                MidiMessage::NoteOn(chan, MidiKeyEvent { key: data[1], pressure: data[2] })
            } else {
                MidiMessage::Invalid
            }
        } else if hi == 0xa0 {
            if data.len() >= 3 {
                MidiMessage::PolyAfertouch(chan, MidiKeyEvent { key: data[1], pressure: data[2] })
            } else {
                MidiMessage::Invalid
            }
        } else if hi == 0xb0 {
            if data.len() >= 3 {
                MidiMessage::ControlChange(
                    chan,
                    MidiControlEvent { control: data[1], value: data[2] },
                )
            } else {
                MidiMessage::Invalid
            }
        } else if hi == 0xc0 {
            if data.len() >= 2 {
                MidiMessage::ProgramChange(chan, MidiProgramChangeEvent { number: data[1] })
            } else {
                MidiMessage::Invalid
            }
        } else if hi == 0xd0 {
            if data.len() >= 2 {
                MidiMessage::ChannelAftertouch(chan, MidiAftertouchEvent { pressure: data[1] })
            } else {
                MidiMessage::Invalid
            }
        } else if hi == 0xe0 {
            if data.len() >= 3 {
                MidiMessage::PitchWheel(chan, MidiPitchEvent { wheel: spec_wheel(data[1], data[2]) })
            } else {
                MidiMessage::Invalid
            }
        } else if hi == 0xf0 {
            MidiMessage::SysEx(
                chan,
                MidiSysExEvent {
                    data: [spec_byte_or_zero(data, 1), spec_byte_or_zero(data, 2)],
                },
            )
        } else {
            MidiMessage::Invalid
        }
    }
}

impl MidiMessage {
    /// Decodes one raw byte frame.  Total and pure: every frame,
    /// including an empty or truncated one, yields a message.
    pub fn decode(data: &[u8]) -> (r: MidiMessage)
        ensures
            r == spec_decode(data@),
    {
        if data.len() == 0 {
            return MidiMessage::Invalid;
        }
        let status = data[0];
        proof {
            assert((status & 0x0f) <= 0x0f) by (bit_vector);
        }
        let chan: u8 = (status & 0x0f) + 1;
        match status & 0xf0 {
            0x80 => if data.len() >= 3 {
                MidiMessage::NoteOff(chan, MidiKeyEvent { key: data[1], pressure: data[2] })
            } else {
                MidiMessage::Invalid
            },
            0x90 => if data.len() >= 3 {
                MidiMessage::NoteOn(chan, MidiKeyEvent { key: data[1], pressure: data[2] })
            } else {
                MidiMessage::Invalid
            },
            0xa0 => if data.len() >= 3 {
                MidiMessage::PolyAfertouch(chan, MidiKeyEvent { key: data[1], pressure: data[2] })
            } else {
                MidiMessage::Invalid
            },
            0xb0 => if data.len() >= 3 {
                MidiMessage::ControlChange(
                    chan,
                    MidiControlEvent { control: data[1], value: data[2] },
                )
            } else {
                MidiMessage::Invalid
            },
            0xc0 => if data.len() >= 2 {
                MidiMessage::ProgramChange(chan, MidiProgramChangeEvent { number: data[1] })
            } else {
                MidiMessage::Invalid
            },
            0xd0 => if data.len() >= 2 {
                MidiMessage::ChannelAftertouch(chan, MidiAftertouchEvent { pressure: data[1] })
            } else {
                MidiMessage::Invalid
            },
            0xe0 => if data.len() >= 3 {
                MidiMessage::PitchWheel(
                    chan,
                    MidiPitchEvent { wheel: ((data[2] as u16) << 7) | (data[1] as u16) },
                )
            } else {
                MidiMessage::Invalid
            },
            0xf0 => {
                let b1: u8 = if data.len() >= 2 { data[1] } else { 0 };
                let b2: u8 = if data.len() >= 3 { data[2] } else { 0 };
                MidiMessage::SysEx(chan, MidiSysExEvent { data: [b1, b2] })
            },
            _ => MidiMessage::Invalid,
        }
    }
}

/// Every frame shorter than its status byte's minimum length decodes
/// to `Invalid`, except system-exclusive frames, which are accepted at
/// any length.
pub proof fn lemma_short_frames_decode_invalid(data: Seq<u8>)
    requires
        data.len() > 0,
        data[0] & 0xf0 != 0xf0,
        data.len() < spec_min_frame_len(data[0]),
    ensures
        spec_decode(data) == MidiMessage::Invalid,
{
}

/// The empty frame decodes to `Invalid`.
pub proof fn lemma_empty_frame_decodes_invalid()
    ensures
        spec_decode(Seq::<u8>::empty()) == MidiMessage::Invalid,
{
}

} // verus!
