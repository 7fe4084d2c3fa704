//! A run as a conversation: the session says what to do next, the caller
//! does it and reports what happened, and the session answers with the
//! text to write.
//!
//! The session never opens or reads anything itself.  It decides the order
//! of the sources, what a source that cannot be opened costs (a diagnostic,
//! and on to the next), what a failed read costs (the run), and how each
//! line is numbered.

use vstd::prelude::*;
use vstd::string::*;
use crate::config::{texts, Config};
use crate::emit::{output_line, LineCounter};

verus! {

/// Where a session stands.
#[derive(Debug, Clone, Copy, PartialEq, Eq)]
pub enum Phase {
    /// No source is open: the next one is to be opened, or none is left.
    Between,
    /// A source is open and its lines are being read.
    Draining,
    /// A read failed; the run is over.
    Aborted,
}

/// What the caller reports to the session.
#[derive(Debug)]
pub enum Event<'a> {
    /// The source that was to be opened is open.
    Opened,
    /// The source that was to be opened could not be; `detail` says why.
    OpenFailed { detail: &'a str },
    /// The open source gave its next line, `text`, without terminator.
    Line { text: &'a str },
    /// The open source has no more lines.
    EndOfSource,
    /// Reading the open source failed; `detail` says why.
    ReadFailed { detail: &'a str },
}

/// What the session asks the caller to do next.
#[derive(Debug)]
pub enum Action {
    /// Open the source `identifier` and report `Opened` or `OpenFailed`.
    Open { identifier: String },
    /// Read a line of the open source and report `Line`, `EndOfSource` or
    /// `ReadFailed`.
    Read,
    /// Stop: every source had its turn, or a read failed with this detail.
    Finish { result: Result<(), String> },
}

/// What one step writes.
#[derive(Debug)]
pub struct Written {
    /// Text for standard output.
    pub stdout: String,
    /// Text for standard error.
    pub stderr: String,
}

/// The state of a session as plain data.
pub struct SessionView {
    /// How many sources have had their turn.
    pub position: nat,
    /// Where the session stands.
    pub phase: Phase,
    /// The lines read so far from the open source; empty unless draining.
    pub lines: Seq<Seq<char>>,
    /// The detail of the read failure; empty unless aborted.
    pub failure: Seq<char>,
}

/// The diagnostic for a source that could not be opened.
pub open spec fn open_failure_line(identifier: Seq<char>, detail: Seq<char>) -> Seq<char> {
    "Failed to open "@ + identifier + ": "@ + detail + seq!['\n']
}

/// The state at the start of a run.
pub open spec fn initial() -> SessionView {
    SessionView { position: 0, phase: Phase::Between, lines: Seq::empty(), failure: Seq::empty() }
}

/// Whether `event` answers what a session in state `state` over `count`
/// sources asked for.
pub open spec fn in_turn(count: nat, state: SessionView, event: Event) -> bool {
    match state.phase {
        Phase::Between => state.position < count && (event is Opened || event is OpenFailed),
        Phase::Draining => event is Line || event is EndOfSource || event is ReadFailed,
        Phase::Aborted => false,
    }
}

/// The state after `event`.  An event out of turn changes nothing.
pub open spec fn step_state(count: nat, state: SessionView, event: Event) -> SessionView {
    if !in_turn(count, state, event) {
        state
    } else {
        match event {
            Event::Opened => SessionView { phase: Phase::Draining, ..state },
            Event::OpenFailed { .. } => SessionView { position: state.position + 1, ..state },
            Event::Line { text } => SessionView { lines: state.lines.push(text@), ..state },
            Event::EndOfSource => SessionView {
                position: state.position + 1,
                phase: Phase::Between,
                lines: Seq::empty(),
                ..state
            },
            Event::ReadFailed { detail } => SessionView {
                phase: Phase::Aborted,
                lines: Seq::empty(),
                failure: detail@,
                ..state
            },
        }
    }
}

/// What `event` sends to standard output: the rendering of a line that
/// was read in turn, nothing otherwise.
pub open spec fn step_stdout(all: bool, nonblank: bool, state: SessionView, event: Event) -> Seq<char> {
    match event {
        Event::Line { text } if state.phase == Phase::Draining => output_line(
            all,
            nonblank,
            state.lines.push(text@),
            state.lines.len() as int,
        ),
        _ => Seq::empty(),
    }
}

/// What `event` sends to standard error: the diagnostic for a source that
/// could not be opened in turn, nothing otherwise.
pub open spec fn step_stderr(sources: Seq<Seq<char>>, state: SessionView, event: Event) -> Seq<char> {
    match event {
        Event::OpenFailed { detail } if state.phase == Phase::Between && state.position
            < sources.len() => open_failure_line(sources[state.position as int], detail@),
        _ => Seq::empty(),
    }
}

/// The diagnostic line for a source that could not be opened.
pub fn open_failure_message(identifier: &str, detail: &str) -> (line: String)
    ensures
        line@ == open_failure_line(identifier@, detail@),
{
    let mut line = String::from_str("Failed to open ");
    line.append(identifier);
    line.append(": ");
    line.append(detail);
    proof {
        reveal_strlit("\n");
    }
    line.append("\n");
    line
}

/// One run over the sources of a configuration.
pub struct Session<'a> {
    config: &'a Config,
    position: usize,
    phase: Phase,
    counter: LineCounter,
    failure: String,
}

impl<'a> Session<'a> {
    /// The configuration that the session runs over.
    pub closed spec fn config(&self) -> &Config {
        self.config
    }

    /// The session's state as plain data.
    pub closed spec fn view(&self) -> SessionView {
        SessionView {
            position: self.position as nat,
            phase: self.phase,
            lines: if self.phase == Phase::Draining {
                self.counter.lines()
            } else {
                Seq::empty()
            },
            failure: if self.phase == Phase::Aborted {
                self.failure@
            } else {
                Seq::empty()
            },
        }
    }

    /// The position is that of a source, or just past the last one when
    /// no source is open.
    #[verifier::type_invariant]
    spec fn position_in_range(&self) -> bool {
        &&& self.position <= self.config.sources().len()
        &&& self.phase != Phase::Between ==> self.position < self.config.sources().len()
    }

    /// A session at the start of its run.
    pub fn new(config: &'a Config) -> (session: Session<'a>)
        ensures
            session.config() == config,
            session@ == initial(),
    {
        Session {
            config,
            position: 0,
            phase: Phase::Between,
            counter: LineCounter::new(),
            failure: String::new(),
        }
    }

    /// What the caller is to do next.
    pub fn next_action(&self) -> (action: Action)
        ensures
            match self@.phase {
                Phase::Aborted => action matches Action::Finish { result: Err(detail) } && detail@
                    == self@.failure,
                Phase::Draining => action is Read,
                Phase::Between => if self@.position < self.config().sources().len() {
                    action matches Action::Open { identifier } && identifier@
                        == self.config().sources()[self@.position as int]
                } else {
                    action matches Action::Finish { result: Ok(_) }
                },
            },
    {
        match self.phase {
            Phase::Aborted => Action::Finish { result: Err(self.failure.clone()) },
            Phase::Draining => Action::Read,
            Phase::Between => {
                let files = self.config.files();
                if self.position < files.len() {
                    Action::Open { identifier: files[self.position].clone() }
                } else {
                    Action::Finish { result: Ok(()) }
                }
            },
        }
    }

    /// Whether the count of lines of the open source has room for one more.
    pub fn has_room(&self) -> (room: bool)
        ensures
            room == (self@.lines.len() < usize::MAX),
    {
        match self.phase {
            Phase::Draining => self.counter.lines_seen() < usize::MAX,
            _ => true,
        }
    }

    /// Takes what the caller reports and returns what is to be written.
    ///
    /// The count of lines of one source is kept in a `usize`; a line that
    /// would take it past `usize::MAX` is outside what this function
    /// accepts, and [`Session::has_room`] tells.
    pub fn step(&mut self, event: Event<'_>) -> (written: Written)
        requires
            event is Line ==> old(self)@.lines.len() < usize::MAX,
        ensures
            final(self).config() == old(self).config(),
            final(self)@ == step_state(old(self).config().sources().len(), old(self)@, event),
            written.stdout@ == step_stdout(
                old(self).config().numbers_all(),
                old(self).config().numbers_nonblank(),
                old(self)@,
                event,
            ),
            written.stderr@ == step_stderr(old(self).config().sources(), old(self)@, event),
    {
        let mut written = Written { stdout: String::new(), stderr: String::new() };
        let files = self.config.files();
        proof {
            use_type_invariant(&*self);
            assert(texts(files@).len() == files.len());
        }
        match self.phase {
            Phase::Aborted => {},
            Phase::Between => {
                if self.position < files.len() {
                    match event {
                        Event::Opened => {
                            self.counter = LineCounter::new();
                            self.phase = Phase::Draining;
                        },
                        Event::OpenFailed { detail } => {
                            written.stderr = open_failure_message(files[self.position].as_str(), detail);
                            self.position = self.position + 1;
                        },
                        _ => {},
                    }
                }
            },
            Phase::Draining => {
                match event {
                    Event::Line { text } => {
                        let mut counter = self.counter;
                        written.stdout = counter.emit(self.config, text);
                        self.counter = counter;
                    },
                    Event::EndOfSource => {
                        self.phase = Phase::Between;
                        self.position = self.position + 1;
                    },
                    Event::ReadFailed { detail } => {
                        self.failure = String::from_str(detail);
                        self.phase = Phase::Aborted;
                    },
                    _ => {},
                }
            },
        }
        written
    }
}

} // verus!
