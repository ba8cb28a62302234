use key_synth::midi_message::{
    MidiAftertouchEvent, MidiControlEvent, MidiKeyEvent, MidiMessage, MidiPitchEvent,
    MidiProgramChangeEvent, MidiSysExEvent,
};

#[test]
fn decode_note_on() {
    let msg = MidiMessage::decode(&[0x90, 60, 100]);
    assert_eq!(
        msg,
        MidiMessage::NoteOn(1, MidiKeyEvent { key: 60, pressure: 100 })
    );
}

#[test]
fn decode_note_off() {
    let msg = MidiMessage::decode(&[0x80, 60, 0]);
    assert_eq!(
        msg,
        MidiMessage::NoteOff(1, MidiKeyEvent { key: 60, pressure: 0 })
    );
}

#[test]
fn decode_channel_is_one_based() {
    let msg = MidiMessage::decode(&[0x9f, 10, 20]);
    assert_eq!(
        msg,
        MidiMessage::NoteOn(16, MidiKeyEvent { key: 10, pressure: 20 })
    );
}

#[test]
fn decode_poly_aftertouch() {
    let msg = MidiMessage::decode(&[0xa2, 61, 90]);
    assert_eq!(
        msg,
        MidiMessage::PolyAfertouch(3, MidiKeyEvent { key: 61, pressure: 90 })
    );
}

#[test]
fn decode_control_change() {
    let msg = MidiMessage::decode(&[0xb0, 7, 127]);
    assert_eq!(
        msg,
        MidiMessage::ControlChange(
            1,
            MidiControlEvent {
                control: 7,
                value: 127
            }
        )
    );
}

#[test]
fn decode_program_change() {
    let msg = MidiMessage::decode(&[0xc1, 42]);
    assert_eq!(
        msg,
        MidiMessage::ProgramChange(2, MidiProgramChangeEvent { number: 42 })
    );
}

#[test]
fn decode_channel_aftertouch() {
    let msg = MidiMessage::decode(&[0xd0, 99]);
    assert_eq!(
        msg,
        MidiMessage::ChannelAftertouch(1, MidiAftertouchEvent { pressure: 99 })
    );
}

#[test]
fn decode_pitch_wheel_packs_fourteen_bits_little_endian() {
    let msg = MidiMessage::decode(&[0xe3, 0x01, 0x02]);
    assert_eq!(msg, MidiMessage::PitchWheel(4, MidiPitchEvent { wheel: 257 }));
}

#[test]
fn decode_pitch_wheel_extremes() {
    let lo = MidiMessage::decode(&[0xe0, 0x00, 0x00]);
    assert_eq!(lo, MidiMessage::PitchWheel(1, MidiPitchEvent { wheel: 0 }));
    let hi = MidiMessage::decode(&[0xe0, 0x7f, 0x7f]);
    assert_eq!(
        hi,
        MidiMessage::PitchWheel(1, MidiPitchEvent { wheel: 0x3fff })
    );
}

#[test]
fn decode_sysex_full() {
    let msg = MidiMessage::decode(&[0xf0, 1, 2]);
    assert_eq!(msg, MidiMessage::SysEx(1, MidiSysExEvent { data: [1, 2] }));
}

#[test]
fn decode_sysex_zero_pads_missing_payload() {
    let one = MidiMessage::decode(&[0xf7, 9]);
    assert_eq!(one, MidiMessage::SysEx(8, MidiSysExEvent { data: [9, 0] }));
    let none = MidiMessage::decode(&[0xf0]);
    assert_eq!(none, MidiMessage::SysEx(1, MidiSysExEvent { data: [0, 0] }));
}

#[test]
fn decode_short_three_byte_frames_invalid() {
    assert_eq!(MidiMessage::decode(&[0x90, 60]), MidiMessage::Invalid);
    assert_eq!(MidiMessage::decode(&[0x90]), MidiMessage::Invalid);
    assert_eq!(MidiMessage::decode(&[0x80, 60]), MidiMessage::Invalid);
    assert_eq!(MidiMessage::decode(&[0xa0, 60]), MidiMessage::Invalid);
    assert_eq!(MidiMessage::decode(&[0xb0, 7]), MidiMessage::Invalid);
    assert_eq!(MidiMessage::decode(&[0xe0, 1]), MidiMessage::Invalid);
}

#[test]
fn decode_short_two_byte_frames_invalid() {
    assert_eq!(MidiMessage::decode(&[0xc0]), MidiMessage::Invalid);
    assert_eq!(MidiMessage::decode(&[0xd0]), MidiMessage::Invalid);
}

#[test]
fn decode_empty_frame_invalid() {
    assert_eq!(MidiMessage::decode(&[]), MidiMessage::Invalid);
}

#[test]
fn decode_unknown_status_invalid() {
    assert_eq!(MidiMessage::decode(&[0x42, 1, 2]), MidiMessage::Invalid);
    assert_eq!(MidiMessage::decode(&[0x00, 1, 2]), MidiMessage::Invalid);
    assert_eq!(MidiMessage::decode(&[0x7f]), MidiMessage::Invalid);
}
