//! The MIDI input connection manager's state machine.
//!
//! The manager lives on its own thread: it polls the visible input
//! ports, picks the first whose name contains one of the accepted
//! patterns, connects, and watches both the command channel and the
//! port list.  Everything it decides — which port to pick, how a
//! command or a vanished port changes its state, and which
//! lifecycle message to emit — is verified here; the thread, the
//! waiting and the hardware driver stay outside.

use vstd::prelude::*;
use vstd::string::StrSliceExecFns;

use crate::midi_message::MidiMessage;

verus! {

/// A reconfiguration payload: the new set of accepted port name
/// patterns, tried in order.
pub struct MidiReaderConfigAcceptedPorts {
    pub accepted_midi_ports: Vec<String>,
}

/// A reconfiguration payload: the new poll interval in milliseconds.
pub struct MidiReaderConfigSleepTime {
    pub sleep_time_millis: u64,
}

/// A command sent to the manager: terminate it, or reconfigure its
/// patterns or its poll cadence.
pub enum MidiReaderCommand {
    Close,
    ConfigAcceptedPorts(MidiReaderConfigAcceptedPorts),
    ConfigSleepTime(MidiReaderConfigSleepTime),
}

/// What one bounded wait on the command channel observed: a command,
/// the peer gone, or nothing within the poll interval.
pub enum MidiReaderEvent {
    Command(MidiReaderCommand),
    ChannelClosed,
    Timeout,
}

/// `needle` occurs in `hay` starting at position `i`.
pub open spec fn is_substring_at(hay: Seq<char>, needle: Seq<char>, i: int) -> bool {
    &&& 0 <= i
    &&& i + needle.len() <= hay.len()
    &&& hay.subrange(i, i + needle.len() as int) == needle
}

/// `needle` occurs somewhere in `hay`.
pub open spec fn spec_contains_str(hay: Seq<char>, needle: Seq<char>) -> bool {
    exists|i: int| is_substring_at(hay, needle, i)
}

fn match_at(hay: &str, needle: &str, i: usize, hlen: usize, nlen: usize) -> (r: bool)
    requires
        hlen == hay@.len(),
        nlen == needle@.len(),
        i + nlen <= hlen,
    ensures
        r == is_substring_at(hay@, needle@, i as int),
{
    let mut j: usize = 0;
    while j < nlen
        invariant
            hlen == hay@.len(),
            nlen == needle@.len(),
            i + nlen <= hlen,
            j <= nlen,
            forall|m: int| 0 <= m < j ==> hay@[i + m] == needle@[m],
        decreases nlen - j,
    {
        if hay.get_char(i + j) != needle.get_char(j) {
            proof {
                assert(hay@.subrange(i as int, i + nlen as int)[j as int] != needle@[j as int]);
            }
            return false;
        }
        j = j + 1;
    }
    proof {
        assert(hay@.subrange(i as int, i + nlen as int) =~= needle@);
    }
    true
}

/// Whether one string contains another, measured in characters.
pub fn str_contains(hay: &str, needle: &str) -> (r: bool)
    ensures
        r == spec_contains_str(hay@, needle@),
{
    let hlen = hay.unicode_len();
    let nlen = needle.unicode_len();
    if nlen > hlen {
        proof {
            assert(forall|i: int| !is_substring_at(hay@, needle@, i));
        }
        return false;
    }
    if nlen == 0 {
        proof {
            assert(hay@.subrange(0, 0) =~= needle@);
            assert(is_substring_at(hay@, needle@, 0));
        }
        return true;
    }
    let mut i: usize = 0;
    while i < hlen
        invariant
            hlen == hay@.len(),
            nlen == needle@.len(),
            0 < nlen <= hlen,
            i <= hlen,
            forall|m: int| 0 <= m < i ==> !is_substring_at(hay@, needle@, m),
        decreases hlen - i,
    {
        if hlen - i >= nlen {
            if match_at(hay, needle, i, hlen, nlen) {
                return true;
            }
        }
        i = i + 1;
    }
    proof {
        assert(forall|m: int| m >= hlen ==> !is_substring_at(hay@, needle@, m));
    }
    false
}

/// A port name matches when it contains at least one of the accepted
/// patterns as a substring.
pub open spec fn name_matches(name: Seq<char>, patterns: Seq<Seq<char>>) -> bool {
    exists|j: int| 0 <= j < patterns.len() && spec_contains_str(name, patterns[j])
}

/// The first matching port at or after index `i`.
pub open spec fn spec_select_from(names: Seq<Seq<char>>, patterns: Seq<Seq<char>>, i: int) -> Option<
    int,
>
    decreases names.len() - i,
{
    if i < 0 || i >= names.len() {
        None
    } else if name_matches(names[i], patterns) {
        Some(i)
    } else {
        spec_select_from(names, patterns, i + 1)
    }
}

/// The first port whose name matches any accepted pattern.
pub open spec fn spec_select(names: Seq<Seq<char>>, patterns: Seq<Seq<char>>) -> Option<int> {
    spec_select_from(names, patterns, 0)
}

/// The mathematical shadow of the manager: the accepted patterns,
/// the poll interval, and the connected port's name, present exactly
/// while a live connection exists.
pub struct ConnectorView {
    pub accepted: Seq<Seq<char>>,
    pub sleep_time_millis: u64,
    pub connected: Option<Seq<char>>,
}

/// The MIDI connection manager's state.  `connected_port_name` is
/// `Some` exactly while a hardware connection is held.
pub struct MidiConnector {
    pub accepted_midi_ports: Vec<String>,
    pub sleep_time_millis: u64,
    pub connected_port_name: Option<String>,
}

impl View for MidiConnector {
    type V = ConnectorView;

    open spec fn view(&self) -> ConnectorView {
        ConnectorView {
            accepted: self.accepted_midi_ports.deep_view(),
            sleep_time_millis: self.sleep_time_millis,
            connected: match self.connected_port_name {
                Some(name) => Some(name@),
                None => None,
            },
        }
    }
}

/// The connected port is still among the visible port names.
pub open spec fn spec_port_present(connected: Option<Seq<char>>, names: Seq<Seq<char>>) -> bool {
    match connected {
        Some(name) => exists|i: int| 0 <= i < names.len() && names[i] == name,
        None => false,
    }
}

/// What the manager does with an event while it searches for a port.
pub open spec fn searching_step_rel(
    pre: ConnectorView,
    post: ConnectorView,
    event: MidiReaderEvent,
    stop: bool,
) -> bool {
    match event {
        MidiReaderEvent::Command(MidiReaderCommand::Close) => post == pre && stop,
        MidiReaderEvent::ChannelClosed => post == pre && stop,
        MidiReaderEvent::Command(MidiReaderCommand::ConfigAcceptedPorts(cfg)) => {
            &&& post == (ConnectorView { accepted: cfg.accepted_midi_ports.deep_view(), ..pre })
            &&& !stop
        },
        MidiReaderEvent::Command(MidiReaderCommand::ConfigSleepTime(cfg)) => {
            &&& post == (ConnectorView { sleep_time_millis: cfg.sleep_time_millis, ..pre })
            &&& !stop
        },
        MidiReaderEvent::Timeout => post == pre && !stop,
    }
}

/// What the manager does with an event while connected.
pub open spec fn connected_step_rel(
    pre: ConnectorView,
    post: ConnectorView,
    event: MidiReaderEvent,
    step: ConnectedStep,
) -> bool {
    match event {
        MidiReaderEvent::Command(MidiReaderCommand::Close) => {
            &&& post == (ConnectorView { connected: None, ..pre })
            &&& step.disconnect && step.stop && step.emit_disconnected
        },
        MidiReaderEvent::ChannelClosed => {
            &&& post == (ConnectorView { connected: None, ..pre })
            &&& step.disconnect && step.stop && step.emit_disconnected
        },
        MidiReaderEvent::Command(MidiReaderCommand::ConfigAcceptedPorts(cfg)) => {
            &&& post == (ConnectorView {
                accepted: cfg.accepted_midi_ports.deep_view(),
                connected: None,
                ..pre
            })
            &&& step.disconnect && !step.stop && step.emit_disconnected
        },
        MidiReaderEvent::Command(MidiReaderCommand::ConfigSleepTime(cfg)) => {
            &&& post == (ConnectorView { sleep_time_millis: cfg.sleep_time_millis, ..pre })
            &&& !step.disconnect && !step.stop && !step.emit_disconnected
        },
        MidiReaderEvent::Timeout => {
            &&& post == pre
            &&& !step.disconnect && !step.stop && !step.emit_disconnected
        },
    }
}

/// What the manager must do after one connected-phase event: drop
/// the connection, terminate, and/or emit `PortDisconnected`.
#[derive(Clone, Copy, Debug, PartialEq, Eq, Structural)]
pub struct ConnectedStep {
    pub disconnect: bool,
    pub stop: bool,
    pub emit_disconnected: bool,
}

impl MidiConnector {
    /// A fresh manager: not connected, searching with the given
    /// patterns at the given cadence.
    pub fn new(sleep_time_millis: u64, accepted_midi_ports: Vec<String>) -> (r: MidiConnector)
        ensures
            r@.accepted == accepted_midi_ports.deep_view(),
            r@.sleep_time_millis == sleep_time_millis,
            r@.connected is None,
    {
        MidiConnector { accepted_midi_ports, sleep_time_millis, connected_port_name: None }
    }

    /// Picks the first visible port whose name contains one of the
    /// accepted patterns; `None` when no port matches.
    pub fn select_midi_in_port(&self, port_names: &Vec<String>) -> (r: Option<usize>)
        ensures
            match r {
                Some(i) => i < port_names@.len() && spec_select(
                    port_names.deep_view(),
                    self@.accepted,
                ) == Some(i as int),
                None => spec_select(port_names.deep_view(), self@.accepted) is None,
            },
    {
        let mut i: usize = 0;
        while i < port_names.len()
            invariant
                i <= port_names@.len(),
                spec_select(port_names.deep_view(), self@.accepted) == spec_select_from(
                    port_names.deep_view(),
                    self@.accepted,
                    i as int,
                ),
            decreases port_names@.len() - i,
        {
            if self.port_name_matches(&port_names[i]) {
                return Some(i);
            }
            i = i + 1;
        }
        None
    }

    /// Whether one port name matches any accepted pattern.
    fn port_name_matches(&self, name: &String) -> (r: bool)
        ensures
            r == name_matches(name@, self@.accepted),
    {
        let mut j: usize = 0;
        while j < self.accepted_midi_ports.len()
            invariant
                j <= self@.accepted.len(),
                self@.accepted.len() == self.accepted_midi_ports@.len(),
                forall|m: int|
                    0 <= m < j ==> !spec_contains_str(name@, #[trigger] self@.accepted[m]),
            decreases self@.accepted.len() - j,
        {
            proof {
                assert(self@.accepted[j as int] == self.accepted_midi_ports@[j as int]@);
            }
            if str_contains(name.as_str(), self.accepted_midi_ports[j].as_str()) {
                return true;
            }
            j = j + 1;
        }
        false
    }

    /// Whether the port this manager is connected to is still among
    /// the visible port names.
    pub fn has_connected_midi_in_port(&self, port_names: &Vec<String>) -> (r: bool)
        ensures
            r == spec_port_present(self@.connected, port_names.deep_view()),
    {
        match &self.connected_port_name {
            Some(connected) => {
                let mut i: usize = 0;
                while i < port_names.len()
                    invariant
                        i <= port_names@.len(),
                        self.connected_port_name == Some(*connected),
                        forall|m: int|
                            0 <= m < i ==> port_names.deep_view()[m] != connected@,
                    decreases port_names@.len() - i,
                {
                    proof {
                        assert(port_names.deep_view()[i as int] == port_names@[i as int]@);
                    }
                    if port_names[i] == *connected {
                        return true;
                    }
                    i = i + 1;
                }
                false
            },
            None => false,
        }
    }

    /// Records a successful connection and names the lifecycle
    /// message to forward: exactly one `PortConnected`.
    pub fn on_connect_success(&mut self, port_name: String) -> (emit: MidiMessage)
        ensures
            final(self)@ == (ConnectorView { connected: Some(port_name@), ..old(self)@ }),
            emit == MidiMessage::PortConnected,
    {
        self.connected_port_name = Some(port_name);
        MidiMessage::PortConnected
    }

    /// Records a failed connection attempt: not fatal, the search
    /// resumes after one poll interval.
    pub fn on_connect_failure(&mut self)
        ensures
            final(self)@ == (ConnectorView { connected: None, ..old(self)@ }),
    {
        self.connected_port_name = None;
    }

    /// Applies one event observed while searching; `true` means the
    /// manager terminates.  A pattern reconfiguration takes effect
    /// immediately; a cadence reconfiguration only changes the wait.
    pub fn handle_searching_event(&mut self, event: MidiReaderEvent) -> (stop: bool)
        ensures
            searching_step_rel(old(self)@, final(self)@, event, stop),
    {
        match event {
            MidiReaderEvent::Command(MidiReaderCommand::Close) => true,
            MidiReaderEvent::ChannelClosed => true,
            MidiReaderEvent::Command(MidiReaderCommand::ConfigAcceptedPorts(cfg)) => {
                self.accepted_midi_ports = cfg.accepted_midi_ports;
                false
            },
            MidiReaderEvent::Command(MidiReaderCommand::ConfigSleepTime(cfg)) => {
                self.sleep_time_millis = cfg.sleep_time_millis;
                false
            },
            MidiReaderEvent::Timeout => false,
        }
    }

    /// Applies one event observed while connected.  Closing (or a
    /// severed channel) disconnects and terminates; a pattern
    /// reconfiguration unconditionally disconnects and re-searches;
    /// a cadence reconfiguration and a timeout keep the connection.
    pub fn handle_connected_event(&mut self, event: MidiReaderEvent) -> (step: ConnectedStep)
        ensures
            connected_step_rel(old(self)@, final(self)@, event, step),
    {
        match event {
            MidiReaderEvent::Command(MidiReaderCommand::Close) => {
                self.connected_port_name = None;
                ConnectedStep { disconnect: true, stop: true, emit_disconnected: true }
            },
            MidiReaderEvent::ChannelClosed => {
                self.connected_port_name = None;
                ConnectedStep { disconnect: true, stop: true, emit_disconnected: true }
            },
            MidiReaderEvent::Command(MidiReaderCommand::ConfigAcceptedPorts(cfg)) => {
                self.accepted_midi_ports = cfg.accepted_midi_ports;
                self.connected_port_name = None;
                ConnectedStep { disconnect: true, stop: false, emit_disconnected: true }
            },
            MidiReaderEvent::Command(MidiReaderCommand::ConfigSleepTime(cfg)) => {
                self.sleep_time_millis = cfg.sleep_time_millis;
                ConnectedStep { disconnect: false, stop: false, emit_disconnected: false }
            },
            MidiReaderEvent::Timeout => ConnectedStep {
                disconnect: false,
                stop: false,
                emit_disconnected: false,
            },
        }
    }

    /// The poll-cadence liveness check while connected: when the
    /// connected port's name is no longer enumerated the manager
    /// disconnects — emitting exactly one `PortDisconnected` — and
    /// returns to searching; otherwise nothing changes.
    pub fn check_connected_port(&mut self, port_names: &Vec<String>) -> (emit: Option<
        MidiMessage,
    >)
        ensures
            spec_port_present(old(self)@.connected, port_names.deep_view()) ==> {
                &&& final(self)@ == old(self)@
                &&& emit is None
            },
            !spec_port_present(old(self)@.connected, port_names.deep_view()) ==> {
                &&& final(self)@ == (ConnectorView { connected: None, ..old(self)@ })
                &&& emit == Some(MidiMessage::PortDisconnected)
            },
    {
        if self.has_connected_midi_in_port(port_names) {
            None
        } else {
            self.connected_port_name = None;
            Some(MidiMessage::PortDisconnected)
        }
    }
}

/// A matching port at index `i` guarantees the search selects some
/// port no later than `i`.
proof fn lemma_select_from_finds(names: Seq<Seq<char>>, patterns: Seq<Seq<char>>, k: int, i: int)
    requires
        0 <= k <= i < names.len(),
        name_matches(names[i], patterns),
    ensures
        spec_select_from(names, patterns, k) is Some,
        k <= spec_select_from(names, patterns, k)->0 <= i,
        name_matches(names[spec_select_from(names, patterns, k)->0], patterns),
    decreases i - k,
{
    if !name_matches(names[k], patterns) {
        lemma_select_from_finds(names, patterns, k + 1, i);
    }
}

/// When some visible port's name is a superstring of some accepted
/// pattern, the search selects a port, and a successful connection
/// then moves the manager to `Connected` with exactly one
/// `PortConnected` emitted (`on_connect_success`).  When a connected
/// port's name later vanishes from the visible list, the next poll
/// check disconnects with exactly one `PortDisconnected` and the
/// manager returns to searching (`check_connected_port`).
pub proof fn lemma_connection_lifecycle(
    names: Seq<Seq<char>>,
    patterns: Seq<Seq<char>>,
    i: int,
    j: int,
    connected: Seq<char>,
)
    requires
        0 <= i < names.len(),
        0 <= j < patterns.len(),
        spec_contains_str(names[i], patterns[j]),
        forall|m: int| 0 <= m < names.len() ==> names[m] != connected,
    ensures
        spec_select(names, patterns) is Some,
        name_matches(names[spec_select(names, patterns)->0], patterns),
        !spec_port_present(Some(connected), names),
{
    lemma_select_from_finds(names, patterns, 0, i);
}

} // verus!
