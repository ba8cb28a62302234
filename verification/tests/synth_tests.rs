use key_synth::synth::{SynthKeyState, SynthKeyboard, SynthVoiceIndex, DEFAULT_VOLUME};
use key_synth::synth_voice::{bell, get_midi_note_frequency, piano, vibraphone, SynthVoice};

#[test]
fn frequency_of_a4_is_440_hz() {
    assert_eq!(get_midi_note_frequency(69), 440_000);
}

#[test]
fn frequency_one_octave_up_doubles() {
    assert_eq!(get_midi_note_frequency(81), 880_000);
    assert_eq!(get_midi_note_frequency(93), 1_760_000);
}

#[test]
fn frequency_one_octave_down_halves() {
    assert_eq!(get_midi_note_frequency(57), 220_000);
    assert_eq!(get_midi_note_frequency(45), 110_000);
}

#[test]
fn frequency_in_hertz_within_tolerance() {
    let a4 = get_midi_note_frequency(69) as f64 / 1000.0;
    assert!((a4 - 440.0).abs() < 0.01);
    let a5 = get_midi_note_frequency(81) as f64 / 1000.0;
    assert!((a5 - 880.0).abs() < 0.01);
    let c4 = get_midi_note_frequency(60) as f64 / 1000.0;
    assert!((c4 - 261.6256).abs() < 0.01);
}

#[test]
fn frequency_of_middle_c() {
    // C4 is 261.6256 Hz; the fixed-point tuning rounds down to the
    // millihertz.
    assert_eq!(get_midi_note_frequency(60), 261_625);
}

#[test]
fn voice_start_sets_state_and_volume() {
    let mut v = SynthVoice::empty();
    v.start(69, 127);
    assert!(v.active);
    assert!(!v.stopping);
    assert_eq!(v.key, 69);
    assert_eq!(v.freq, 440_000);
    assert_eq!(v.volume, 65536);
    assert_eq!(v.tick, 0);
}

#[test]
fn voice_pressure_maps_linearly() {
    let mut v = SynthVoice::empty();
    v.start(60, 0);
    assert_eq!(v.volume, 0);
    v.start(60, 64);
    assert_eq!(v.volume, 64 * 65536 / 127);
}

#[test]
fn voice_overtones_derive_from_fundamental() {
    let mut v = SynthVoice::empty();
    v.set_instrument(piano());
    v.start(69, 127);
    // the piano's second overtone sits at twice the fundamental
    assert_eq!(v.overtones[0].0, 440_000);
    assert_eq!(v.overtones[1].0, 880_000);
    assert_eq!(v.overtones[4].0, 2_200_000);
}

#[test]
fn voice_stop_marks_release_only() {
    let mut v = SynthVoice::empty();
    v.start(60, 100);
    v.stop();
    assert!(v.active);
    assert!(v.stopping);
}

#[test]
fn voice_set_instrument_is_idempotent() {
    let mut v = SynthVoice::empty();
    v.start(72, 110);
    v.set_instrument(bell());
    let once = v;
    v.set_instrument(bell());
    assert_eq!(v.overtones, once.overtones);
    assert_eq!(v.freq, once.freq);
    assert_eq!(v.volume, once.volume);
}

#[test]
fn voice_gen_samples_advances_tick_and_decays() {
    let mut v = SynthVoice::empty();
    v.start(69, 127);
    let mut buf = vec![0i16; 256];
    v.gen_samples(&mut buf);
    assert_eq!(v.tick, 256);
    assert!(v.active);
    // one per-buffer decay step: volume * 64881 / 65536
    assert_eq!(v.volume, 64881);
}

#[test]
fn voice_gen_samples_produces_sound() {
    let mut v = SynthVoice::empty();
    v.start(69, 127);
    let mut buf = vec![0i16; 256];
    v.gen_samples(&mut buf);
    assert!(buf.iter().any(|&s| s != 0));
}

#[test]
fn voice_gen_samples_adds_saturating() {
    let mut v = SynthVoice::empty();
    v.start(69, 127);
    let mut buf = vec![i16::MAX; 256];
    v.gen_samples(&mut buf);
    // mixing into a full buffer must not wrap around
    assert!(buf.iter().all(|&s| s > i16::MAX / 2));
}

#[test]
fn voice_release_ramp_deactivates_at_buffer_end() {
    let mut v = SynthVoice::empty();
    v.start(69, 127);
    v.stop();
    let mut buf = vec![0i16; 128];
    v.gen_samples(&mut buf);
    assert!(!v.active);
}

#[test]
fn silent_overtones_mix_silence() {
    // the vibraphone's second overtone has zero loudness
    let vib = vibraphone();
    assert_eq!(vib.overtones[1].loudness, 0);
    let mut v = SynthVoice::empty();
    v.set_instrument(vib);
    v.start(69, 0);
    let mut buf = vec![0i16; 64];
    v.gen_samples(&mut buf);
    // zero volume: nothing mixed
    assert!(buf.iter().all(|&s| s == 0));
}

#[test]
fn pool_starts_quiet_and_disconnected() {
    let kb = SynthKeyboard::new();
    assert!(!kb.is_midi_connected());
    assert_eq!(kb.get_volume(), DEFAULT_VOLUME);
    let mut keys = vec![SynthKeyState::VoiceStolen; 88];
    kb.copy_keys(&mut keys);
    assert!(keys.iter().all(|k| matches!(k, SynthKeyState::Off)));
}

#[test]
fn pool_play_key_marks_playing() {
    let mut kb = SynthKeyboard::new();
    kb.play_key(60, 100);
    match kb.keys[60] {
        SynthKeyState::Playing(SynthVoiceIndex(i)) => {
            assert!(kb.voices[i].active);
            assert_eq!(kb.voices[i].key, 60);
        }
        other => panic!("expected Playing, got {:?}", other),
    }
}

#[test]
fn pool_ninth_key_steals_cursor_voice() {
    let mut kb = SynthKeyboard::new();
    for key in 30..38 {
        kb.play_key(key, 100);
    }
    // all eight voices busy; the next distinct key steals voice 0,
    // the cursor's own
    kb.play_key(38, 100);
    assert_eq!(kb.keys[38], SynthKeyState::Playing(SynthVoiceIndex(0)));
    assert_eq!(kb.keys[30], SynthKeyState::VoiceStolen);
    assert_eq!(kb.next_voice, 1);
}

#[test]
fn pool_repress_reuses_same_voice() {
    let mut kb = SynthKeyboard::new();
    kb.play_key(40, 100);
    let idx = match kb.keys[40] {
        SynthKeyState::Playing(SynthVoiceIndex(i)) => i,
        other => panic!("expected Playing, got {:?}", other),
    };
    let cursor = kb.next_voice;
    kb.play_key(40, 55);
    assert_eq!(kb.keys[40], SynthKeyState::Playing(SynthVoiceIndex(idx)));
    assert_eq!(kb.next_voice, cursor);
    assert_eq!(kb.voices[idx].volume, 55 * 65536 / 127);
}

#[test]
fn pool_stop_key_goes_off_immediately() {
    let mut kb = SynthKeyboard::new();
    kb.play_key(50, 100);
    let idx = match kb.keys[50] {
        SynthKeyState::Playing(SynthVoiceIndex(i)) => i,
        other => panic!("expected Playing, got {:?}", other),
    };
    kb.stop_key(50);
    assert_eq!(kb.keys[50], SynthKeyState::Off);
    // the voice keeps ringing through its release ramp
    assert!(kb.voices[idx].active);
    assert!(kb.voices[idx].stopping);
}

#[test]
fn pool_stop_unplayed_key_is_harmless() {
    let mut kb = SynthKeyboard::new();
    kb.stop_key(10);
    assert_eq!(kb.keys[10], SynthKeyState::Off);
}

#[test]
fn pool_ignores_out_of_range_keys() {
    let mut kb = SynthKeyboard::new();
    kb.play_key(100, 100);
    kb.stop_key(200);
    let mut keys = vec![SynthKeyState::Off; 88];
    kb.copy_keys(&mut keys);
    assert!(keys.iter().all(|k| matches!(k, SynthKeyState::Off)));
}

#[test]
fn pool_copy_keys_needs_exact_length() {
    let mut kb = SynthKeyboard::new();
    kb.play_key(60, 100);
    let mut short = vec![SynthKeyState::Off; 10];
    kb.copy_keys(&mut short);
    assert!(short.iter().all(|k| matches!(k, SynthKeyState::Off)));
}

#[test]
fn pool_volume_and_connection_accessors() {
    let mut kb = SynthKeyboard::new();
    kb.set_volume(12345);
    assert_eq!(kb.get_volume(), 12345);
    kb.set_midi_connected(true);
    assert!(kb.is_midi_connected());
    kb.set_midi_connected(false);
    assert!(!kb.is_midi_connected());
}

#[test]
fn pool_set_instrument_is_idempotent() {
    let mut kb = SynthKeyboard::new();
    kb.play_key(60, 100);
    kb.play_key(64, 90);
    kb.set_instrument(bell());
    let voices_once: Vec<_> = kb.voices.iter().map(|v| v.overtones).collect();
    kb.set_instrument(bell());
    let voices_twice: Vec<_> = kb.voices.iter().map(|v| v.overtones).collect();
    assert_eq!(voices_once, voices_twice);
}

#[test]
fn pool_gen_samples_of_idle_pool_is_silent() {
    let mut kb = SynthKeyboard::new();
    let mut buf = vec![0i16; 512];
    kb.gen_samples(&mut buf);
    assert!(buf.iter().all(|&s| s == 0));
}

#[test]
fn pool_gen_samples_mixes_active_voices() {
    let mut kb = SynthKeyboard::new();
    kb.play_key(69, 127);
    let mut buf = vec![0i16; 512];
    kb.gen_samples(&mut buf);
    assert!(buf.iter().any(|&s| s != 0));
    assert_eq!(buf.len(), 512);
}
