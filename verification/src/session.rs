//! The session controller: one state machine fed by two streams, the
//! notifications of the relay manager and the inputs of the control side.
//!
//! A session is active, paused or terminated. It starts active. The pause key
//! moves it between active and paused; a stop or shutdown notification, the
//! quit key or an interruption signal terminates it, and nothing moves it
//! after that. Events are counted and shown while it is active, and taken off
//! the stream without a trace while it is paused.

use crate::display::{event_line, render_event, render_summary, summary_lines, texts};
use crate::sanitize::{sanitize_string, sanitized};
use crate::stats::{count_of, is_snapshot, recorded, KindStats, StatsTable};
use vstd::prelude::*;
use vstd::string::*;

verus! {

/// What the operator chose at startup.
#[derive(Clone, Copy, Debug, PartialEq, Eq)]
pub struct Config {
    /// Print the per-kind statistics when the session ends.
    pub stats: bool,
    /// Show the sanitized content beside the kind of each event.
    pub content: bool,
    /// Reserved. Accepted, and without any effect.
    pub show_tags: bool,
}

/// Where the session stands.
#[derive(Clone, Copy, Debug, PartialEq, Eq)]
pub struct SessionState {
    /// While set, events are taken off the stream and dropped.
    pub paused: bool,
    /// Set once; nothing is processed after it.
    pub terminated: bool,
}

/// What the session reads of a received event.
#[derive(Debug, PartialEq, Eq)]
pub struct Event {
    /// The number that classifies the event.
    pub kind: u64,
    /// The text that the event carries, as it came from the relay.
    pub content: String,
}

/// One message of the relay manager.
#[derive(Debug, PartialEq, Eq)]
pub enum Notification {
    /// An event arrived.
    Event(Event),
    /// A message of the relay protocol; of no concern to the session.
    ProtocolMessage,
    /// The status of a relay changed.
    RelayStatusChanged,
    /// The relay manager stopped.
    Stop,
    /// The relay manager shut down.
    Shutdown,
    /// Reading the stream failed; the text says how.
    TransportError(String),
}

/// One input on the control side: a key of the operator's terminal, or a
/// signal from outside.
#[derive(Clone, Copy, Debug, PartialEq, Eq)]
pub enum ControlInput {
    /// A character key, with or without the control modifier.
    Key { code: char, control: bool },
    /// An interruption signal sent to the process.
    Interrupt,
    /// Anything else.
    Other,
}

/// One input of the session, from either stream.
#[derive(Debug, PartialEq, Eq)]
pub enum Input {
    Notification(Notification),
    Control(ControlInput),
}

/// The stream that a line goes to.
#[derive(Clone, Copy, Debug, PartialEq, Eq)]
pub enum Channel {
    Stdout,
    Stderr,
}

/// One line for the operator. It ends with a carriage return; the line feed
/// is left to whoever prints it.
#[derive(Debug, PartialEq, Eq)]
pub struct Output {
    pub channel: Channel,
    pub line: String,
}

impl View for Output {
    type V = (Channel, Seq<char>);

    open spec fn view(&self) -> (Channel, Seq<char>) {
        (self.channel, self.line@)
    }
}

/// The session as a mathematical value.
pub struct SessionModel {
    pub config: Config,
    pub state: SessionState,
    pub counts: Map<u64, nat>,
}

/// A session at its start: active, with nothing counted.
pub open spec fn initial(config: Config) -> SessionModel {
    SessionModel {
        config,
        state: SessionState { paused: false, terminated: false },
        counts: Map::empty(),
    }
}

/// Whether a session in state `s` takes events in: it is neither paused nor
/// terminated.
pub open spec fn is_active(s: SessionModel) -> bool {
    !s.state.paused && !s.state.terminated
}

/// The key that pauses and resumes.
pub open spec fn toggles_pause(input: ControlInput) -> bool {
    input matches ControlInput::Key { code, .. } && code == 'p'
}

/// What ends the session from the control side: an interruption signal, or
/// the quit key, `c` with the control modifier.
pub open spec fn interrupts(input: ControlInput) -> bool {
    ||| input is Interrupt
    ||| input matches ControlInput::Key { code, control } && code == 'c' && control
}

/// The session after one notification.
pub open spec fn after_notification(s: SessionModel, n: Notification) -> SessionModel {
    if s.state.terminated {
        s
    } else {
        match n {
            Notification::Event(event) => if is_active(s) {
                SessionModel { counts: recorded(s.counts, event.kind), ..s }
            } else {
                s
            },
            Notification::Stop | Notification::Shutdown => SessionModel {
                state: SessionState { terminated: true, ..s.state },
                ..s
            },
            _ => s,
        }
    }
}

/// The line that one notification brings out.
pub open spec fn notification_output(s: SessionModel, n: Notification) -> Option<
    (Channel, Seq<char>),
> {
    if s.state.terminated {
        None
    } else {
        match n {
            Notification::Event(event) => if !is_active(s) {
                None
            } else if s.config.content {
                Some((Channel::Stdout, event_line(event.kind, Some(sanitized(event.content@)))))
            } else {
                Some((Channel::Stdout, event_line(event.kind, None)))
            },
            Notification::ProtocolMessage => None,
            Notification::RelayStatusChanged => Some((Channel::Stdout, "relay status\r"@)),
            Notification::Stop => Some((Channel::Stdout, "stop!\r"@)),
            Notification::Shutdown => Some((Channel::Stderr, "shutdown!\r"@)),
            Notification::TransportError(detail) => Some(
                (Channel::Stderr, "error! "@ + detail@ + "\r"@),
            ),
        }
    }
}

/// The session after one input of the control side.
pub open spec fn after_control(s: SessionModel, c: ControlInput) -> SessionModel {
    if s.state.terminated {
        s
    } else if toggles_pause(c) {
        SessionModel { state: SessionState { paused: !s.state.paused, ..s.state }, ..s }
    } else if interrupts(c) {
        SessionModel { state: SessionState { terminated: true, ..s.state }, ..s }
    } else {
        s
    }
}

/// The line that one input of the control side brings out.
pub open spec fn control_output(s: SessionModel, c: ControlInput) -> Option<(Channel, Seq<char>)> {
    if s.state.terminated {
        None
    } else if toggles_pause(c) {
        if s.state.paused {
            Some((Channel::Stdout, "UNPAUSED\r"@))
        } else {
            Some((Channel::Stdout, "PAUSED\r"@))
        }
    } else {
        None
    }
}

/// The session after one input.
pub open spec fn next(s: SessionModel, input: Input) -> SessionModel {
    match input {
        Input::Notification(n) => after_notification(s, n),
        Input::Control(c) => after_control(s, c),
    }
}

/// The line that one input brings out.
pub open spec fn emitted(s: SessionModel, input: Input) -> Option<(Channel, Seq<char>)> {
    match input {
        Input::Notification(n) => notification_output(s, n),
        Input::Control(c) => control_output(s, c),
    }
}

/// Whether the counter that `input` would raise, if any, can still be raised.
pub open spec fn has_room(s: SessionModel, input: Input) -> bool {
    input matches Input::Notification(Notification::Event(event)) ==> !is_active(s) || count_of(
        s.counts,
        event.kind,
    ) < u64::MAX
}

/// Whether `lines` is the summary that a session in state `s` ends with: none
/// where the statistics are off, else one line per counter, ascending by kind.
pub open spec fn is_summary(lines: Seq<Seq<char>>, s: SessionModel) -> bool {
    if s.config.stats {
        exists|entries: Seq<(u64, KindStats)>| #[trigger]
            is_snapshot(entries, s.counts) && lines == summary_lines(entries)
    } else {
        lines.len() == 0
    }
}

/// What `out` holds, as a value.
pub open spec fn shown(out: Option<Output>) -> Option<(Channel, Seq<char>)> {
    match out {
        Some(output) => Some(output@),
        None => None,
    }
}

/// The session controller. It alone owns the state and the counters.
pub struct Session {
    config: Config,
    state: SessionState,
    stats: StatsTable,
}

impl View for Session {
    type V = SessionModel;

    closed spec fn view(&self) -> SessionModel {
        SessionModel { config: self.config, state: self.state, counts: self.stats@ }
    }
}

impl Session {
    /// A session at its start.
    pub fn new(config: Config) -> (session: Self)
        ensures
            session@ == initial(config),
    {
        Session {
            config,
            state: SessionState { paused: false, terminated: false },
            stats: StatsTable::new(),
        }
    }

    /// What the operator chose at startup.
    pub fn config(&self) -> (config: Config)
        ensures
            config == self@.config,
    {
        self.config
    }

    /// Where the session stands.
    pub fn state(&self) -> (state: SessionState)
        ensures
            state == self@.state,
    {
        self.state
    }

    /// The counters, for reading.
    pub fn stats(&self) -> (stats: &StatsTable)
        ensures
            stats@ == self@.counts,
    {
        &self.stats
    }

    /// Whether `input` can be handed to `step`: it cannot where it would raise
    /// a counter that stands at its maximum.
    pub fn has_room(&self, input: &Input) -> (ok: bool)
        ensures
            ok == has_room(self@, *input),
    {
        match input {
            Input::Notification(Notification::Event(event)) => self.state.terminated
                || self.state.paused || self.stats.seen_count(event.kind) < u64::MAX,
            _ => true,
        }
    }

    /// Handles one message of the relay manager. An event is counted and
    /// shown while the session is active, and dropped otherwise; `Stop` and
    /// `Shutdown` end the session; a transport error is reported and the
    /// session goes on.
    pub fn on_notification(&mut self, notification: &Notification) -> (out: Option<Output>)
        requires
            has_room(old(self)@, Input::Notification(*notification)),
        ensures
            final(self)@ == after_notification(old(self)@, *notification),
            shown(out) == notification_output(old(self)@, *notification),
            old(self)@.state.terminated ==> final(self)@ == old(self)@ && out is None,
    {
        if self.state.terminated {
            return None;
        }
        match notification {
            Notification::Event(event) => {
                if self.state.paused {
                    return None;
                }
                self.stats.record(event.kind);
                let line = if self.config.content {
                    let content = sanitize_string(event.content.as_str());
                    render_event(event.kind, Some(content.as_str()))
                } else {
                    render_event(event.kind, None)
                };
                Some(Output { channel: Channel::Stdout, line })
            },
            Notification::ProtocolMessage => None,
            Notification::RelayStatusChanged => Some(
                Output { channel: Channel::Stdout, line: String::from_str("relay status\r") },
            ),
            Notification::Stop => {
                self.state.terminated = true;
                Some(Output { channel: Channel::Stdout, line: String::from_str("stop!\r") })
            },
            Notification::Shutdown => {
                self.state.terminated = true;
                Some(Output { channel: Channel::Stderr, line: String::from_str("shutdown!\r") })
            },
            Notification::TransportError(detail) => {
                let mut line = String::from_str("error! ");
                line.append(detail.as_str());
                line.append("\r");
                Some(Output { channel: Channel::Stderr, line })
            },
        }
    }

    /// Handles one input of the control side. The pause key toggles the
    /// pause, an interruption ends the session, and anything else is ignored.
    pub fn on_control(&mut self, control: &ControlInput) -> (out: Option<Output>)
        ensures
            final(self)@ == after_control(old(self)@, *control),
            shown(out) == control_output(old(self)@, *control),
            old(self)@.state.terminated ==> final(self)@ == old(self)@ && out is None,
    {
        if self.state.terminated {
            return None;
        }
        match control {
            ControlInput::Key { code, control } => {
                if *code == 'p' {
                    self.state.paused = !self.state.paused;
                    if self.state.paused {
                        Some(Output { channel: Channel::Stdout, line: String::from_str("PAUSED\r") })
                    } else {
                        Some(
                            Output {
                                channel: Channel::Stdout,
                                line: String::from_str("UNPAUSED\r"),
                            },
                        )
                    }
                } else {
                    if *code == 'c' && *control {
                        self.state.terminated = true;
                    }
                    None
                }
            },
            ControlInput::Interrupt => {
                self.state.terminated = true;
                None
            },
            ControlInput::Other => None,
        }
    }

    /// The lines of the final summary: none where the statistics are off,
    /// else one per counter, in ascending order of kind.
    pub fn summary(&self) -> (lines: Vec<String>)
        ensures
            is_summary(texts(lines@), self@),
    {
        if self.config.stats {
            let entries = self.stats.snapshot();
            let lines = render_summary(&entries);
            assert(is_snapshot(entries@, self@.counts) && texts(lines@) == summary_lines(
                entries@,
            ));
            lines
        } else {
            Vec::new()
        }
    }

    /// Handles one input, from whichever stream was ready first.
    pub fn step(&mut self, input: &Input) -> (out: Option<Output>)
        requires
            has_room(old(self)@, *input),
        ensures
            final(self)@ == next(old(self)@, *input),
            shown(out) == emitted(old(self)@, *input),
            old(self)@.state.terminated ==> final(self)@ == old(self)@ && out is None,
    {
        match input {
            Input::Notification(notification) => self.on_notification(notification),
            Input::Control(control) => self.on_control(control),
        }
    }
}

} // verus!
