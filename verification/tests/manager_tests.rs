use key_synth::audio_writer::{
    clamp_sample_rate, find_acceptable_config, find_preferred_config, RequestedConfig,
    SupportedConfigRange,
};
use key_synth::keyboard::{get_key_state, send_note_event};
use key_synth::midi_message::{MidiKeyEvent, MidiMessage};
use key_synth::midi_reader::{
    str_contains, ConnectedStep, MidiConnector, MidiReaderCommand, MidiReaderConfigAcceptedPorts,
    MidiReaderConfigSleepTime, MidiReaderEvent,
};
use key_synth::synth::SynthKeyState;

fn strings(names: &[&str]) -> Vec<String> {
    names.iter().map(|s| (*s).to_owned()).collect()
}

#[test]
fn contains_finds_substrings() {
    assert!(str_contains("hello world", "lo wo"));
    assert!(str_contains("hello", "hello"));
    assert!(str_contains("hello", ""));
    assert!(str_contains("", ""));
    assert!(!str_contains("hello", "world"));
    assert!(!str_contains("", "a"));
    assert!(!str_contains("abc", "abcd"));
}

#[test]
fn select_matches_superstring_port_name() {
    let connector = MidiConnector::new(5000, strings(&["SMK25"]));
    let ports = strings(&["Midi Through 14:0", "SMK25 MIDI 1 24:0"]);
    assert_eq!(connector.select_midi_in_port(&ports), Some(1));
}

#[test]
fn select_picks_first_matching_port() {
    let connector = MidiConnector::new(5000, strings(&["MIDI"]));
    let ports = strings(&["A MIDI 1", "B MIDI 2"]);
    assert_eq!(connector.select_midi_in_port(&ports), Some(0));
}

#[test]
fn select_tries_every_pattern() {
    let connector = MidiConnector::new(5000, strings(&["nope", "25"]));
    let ports = strings(&["SMK25 MIDI 1"]);
    assert_eq!(connector.select_midi_in_port(&ports), Some(0));
}

#[test]
fn select_finds_nothing_without_match() {
    let connector = MidiConnector::new(5000, strings(&["SMK25"]));
    let ports = strings(&["Midi Through 14:0"]);
    assert_eq!(connector.select_midi_in_port(&ports), None);
    assert_eq!(connector.select_midi_in_port(&strings(&[])), None);
}

#[test]
fn connect_success_emits_one_port_connected() {
    let mut connector = MidiConnector::new(5000, strings(&["SMK25"]));
    let emit = connector.on_connect_success("SMK25 MIDI 1".to_owned());
    assert_eq!(emit, MidiMessage::PortConnected);
    assert_eq!(connector.connected_port_name.as_deref(), Some("SMK25 MIDI 1"));
}

#[test]
fn vanished_port_disconnects_within_one_poll() {
    let mut connector = MidiConnector::new(5000, strings(&["SMK25"]));
    connector.on_connect_success("SMK25 MIDI 1".to_owned());

    // the port is still enumerated: stay connected, nothing emitted
    let still_there = strings(&["SMK25 MIDI 1", "Other"]);
    assert_eq!(connector.check_connected_port(&still_there), None);
    assert!(connector.connected_port_name.is_some());

    // the port vanished: exactly one PortDisconnected, back to searching
    let gone = strings(&["Other"]);
    assert_eq!(
        connector.check_connected_port(&gone),
        Some(MidiMessage::PortDisconnected)
    );
    assert!(connector.connected_port_name.is_none());
}

#[test]
fn connect_failure_returns_to_searching() {
    let mut connector = MidiConnector::new(5000, strings(&["SMK25"]));
    connector.on_connect_failure();
    assert!(connector.connected_port_name.is_none());
}

#[test]
fn close_while_searching_stops() {
    let mut connector = MidiConnector::new(5000, strings(&["SMK25"]));
    assert!(connector.handle_searching_event(MidiReaderEvent::Command(MidiReaderCommand::Close)));
    assert!(connector.handle_searching_event(MidiReaderEvent::ChannelClosed));
    assert!(!connector.handle_searching_event(MidiReaderEvent::Timeout));
}

#[test]
fn reconfigure_patterns_while_searching_takes_effect() {
    let mut connector = MidiConnector::new(5000, strings(&["SMK25"]));
    let cfg = MidiReaderConfigAcceptedPorts {
        accepted_midi_ports: strings(&["Through"]),
    };
    let stop = connector.handle_searching_event(MidiReaderEvent::Command(
        MidiReaderCommand::ConfigAcceptedPorts(cfg),
    ));
    assert!(!stop);
    let ports = strings(&["Midi Through 14:0"]);
    assert_eq!(connector.select_midi_in_port(&ports), Some(0));
}

#[test]
fn reconfigure_sleep_time_keeps_searching() {
    let mut connector = MidiConnector::new(5000, strings(&["SMK25"]));
    let cfg = MidiReaderConfigSleepTime {
        sleep_time_millis: 100,
    };
    let stop = connector.handle_searching_event(MidiReaderEvent::Command(
        MidiReaderCommand::ConfigSleepTime(cfg),
    ));
    assert!(!stop);
    assert_eq!(connector.sleep_time_millis, 100);
}

#[test]
fn close_while_connected_disconnects_and_stops() {
    let mut connector = MidiConnector::new(5000, strings(&["SMK25"]));
    connector.on_connect_success("SMK25 MIDI 1".to_owned());
    let step = connector.handle_connected_event(MidiReaderEvent::Command(MidiReaderCommand::Close));
    assert_eq!(
        step,
        ConnectedStep {
            disconnect: true,
            stop: true,
            emit_disconnected: true
        }
    );
    assert!(connector.connected_port_name.is_none());
}

#[test]
fn reconfigure_patterns_while_connected_forces_reconnect() {
    let mut connector = MidiConnector::new(5000, strings(&["SMK25"]));
    connector.on_connect_success("SMK25 MIDI 1".to_owned());
    let cfg = MidiReaderConfigAcceptedPorts {
        accepted_midi_ports: strings(&["SMK25"]),
    };
    let step = connector.handle_connected_event(MidiReaderEvent::Command(
        MidiReaderCommand::ConfigAcceptedPorts(cfg),
    ));
    // an unconditional disconnect/reconnect cycle, even though the
    // connected port still matches the new patterns
    assert_eq!(
        step,
        ConnectedStep {
            disconnect: true,
            stop: false,
            emit_disconnected: true
        }
    );
    assert!(connector.connected_port_name.is_none());
}

#[test]
fn reconfigure_sleep_time_keeps_connection() {
    let mut connector = MidiConnector::new(5000, strings(&["SMK25"]));
    connector.on_connect_success("SMK25 MIDI 1".to_owned());
    let cfg = MidiReaderConfigSleepTime {
        sleep_time_millis: 250,
    };
    let step = connector.handle_connected_event(MidiReaderEvent::Command(
        MidiReaderCommand::ConfigSleepTime(cfg),
    ));
    assert_eq!(
        step,
        ConnectedStep {
            disconnect: false,
            stop: false,
            emit_disconnected: false
        }
    );
    assert_eq!(connector.sleep_time_millis, 250);
    assert!(connector.connected_port_name.is_some());
}

#[test]
fn note_events_from_screen_keyboard() {
    assert_eq!(
        send_note_event(60, 64),
        MidiMessage::NoteOn(1, MidiKeyEvent { key: 60, pressure: 64 })
    );
    assert_eq!(
        send_note_event(60, 0),
        MidiMessage::NoteOff(1, MidiKeyEvent { key: 60, pressure: 0 })
    );
}

#[test]
fn key_state_reads_default_off_out_of_range() {
    let keys = vec![SynthKeyState::VoiceStolen; 3];
    assert_eq!(get_key_state(1, &keys), SynthKeyState::VoiceStolen);
    assert_eq!(get_key_state(5, &keys), SynthKeyState::Off);
}

fn range(format_i16: bool, channels: u16, rates: (u32, u32), buffers: (u32, u32)) -> SupportedConfigRange {
    SupportedConfigRange {
        sample_format_i16: format_i16,
        channels,
        min_sample_rate: rates.0,
        max_sample_rate: rates.1,
        has_buffer_range: true,
        min_buffer_size: buffers.0,
        max_buffer_size: buffers.1,
    }
}

#[test]
fn preferred_config_needs_exact_channels() {
    let req = RequestedConfig {
        min_sample_rate: 44100,
        max_sample_rate: 48000,
        pref_sample_rate: 48000,
        buffer_size: 1024,
        num_channels: 2,
    };
    let ranges = vec![
        range(true, 1, (8000, 96000), (64, 4096)),
        range(false, 2, (8000, 96000), (64, 4096)),
        range(true, 2, (8000, 96000), (64, 4096)),
    ];
    assert_eq!(find_preferred_config(&ranges, &req), Some(2));
    // the mono range is still acceptable, and comes first
    assert_eq!(find_acceptable_config(&ranges, &req), Some(0));
}

#[test]
fn config_search_respects_rate_and_buffer_spans() {
    let req = RequestedConfig {
        min_sample_rate: 44100,
        max_sample_rate: 48000,
        pref_sample_rate: 48000,
        buffer_size: 1024,
        num_channels: 2,
    };
    let ranges = vec![
        range(true, 2, (8000, 22050), (64, 4096)),
        range(true, 2, (8000, 96000), (64, 512)),
    ];
    assert_eq!(find_preferred_config(&ranges, &req), None);
    assert_eq!(find_acceptable_config(&ranges, &req), None);
}

#[test]
fn sample_rate_clamps_into_span() {
    assert_eq!(clamp_sample_rate(48000, 8000, 96000), 48000);
    assert_eq!(clamp_sample_rate(48000, 8000, 44100), 44100);
    assert_eq!(clamp_sample_rate(48000, 88200, 96000), 88200);
}
