//! The coordinator of one run, as a state machine. The caller performs each
//! action it returns (hide the cursor, render the progress bar, join the
//! worker, clean the terminal, report) and hands back what happened as the
//! next event. Terminal cleanup is issued exactly once, before the outcome is
//! reported, on every path: early failures and finished workers alike.
use vstd::prelude::*;
use crate::outcome::{RunOutcome, join_outcome, join_outcome_of};

verus! {

/// Pause between two renders of the progress bar, about ten renders a
/// second.
pub const RENDER_INTERVAL_MS: u64 = 100;

#[derive(Debug)]
pub enum Phase {
    /// Before the worker is spawned.
    Preparing,
    /// The worker runs and the progress bar is rendered.
    Running,
    /// The terminal is being cleaned; the outcome waits to be reported.
    Finishing(RunOutcome),
    /// The outcome has been reported.
    Done,
}

#[derive(Debug)]
pub enum Event {
    /// The worker was spawned.
    Spawned,
    /// A poll of the worker; `true` once it has finished.
    Tick(bool),
    /// The worker was joined: its outcome, or `None` when it ended abnormally.
    Joined(Option<RunOutcome>),
    /// The run ended before the worker was spawned.
    Failed(RunOutcome),
    /// The terminal was cleaned.
    Cleaned,
}

#[derive(Debug)]
pub enum Action {
    HideCursor,
    /// Render the progress bar, then wait [`RENDER_INTERVAL_MS`].
    Render,
    Join,
    /// Clear the current line, flush and show the cursor.
    CleanTerminal,
    /// Print the outcome's message and exit with its code.
    Report(RunOutcome),
    /// The event does not apply in this phase; nothing to do.
    Idle,
}

/// State of the coordinator and of the terminal it owns.
#[derive(Debug)]
pub struct Session {
    pub phase: Phase,
    pub cursor_hidden: bool,
    pub line_clear: bool,
}

pub open spec fn initial_session() -> Session {
    Session { phase: Phase::Preparing, cursor_hidden: false, line_clear: true }
}

/// One transition: the next state and the action to perform.
pub open spec fn next(s: Session, e: Event) -> (Session, Action) {
    match (s.phase, e) {
        (Phase::Preparing, Event::Spawned) => (
            Session { phase: Phase::Running, cursor_hidden: true, line_clear: s.line_clear },
            Action::HideCursor,
        ),
        (Phase::Preparing, Event::Failed(o)) => (
            Session { phase: Phase::Finishing(o), cursor_hidden: false, line_clear: true },
            Action::CleanTerminal,
        ),
        (Phase::Running, Event::Tick(finished)) => if finished {
            (s, Action::Join)
        } else {
            (
                Session { phase: Phase::Running, cursor_hidden: s.cursor_hidden, line_clear: false },
                Action::Render,
            )
        },
        (Phase::Running, Event::Joined(r)) => (
            Session {
                phase: Phase::Finishing(join_outcome_of(r)),
                cursor_hidden: false,
                line_clear: true,
            },
            Action::CleanTerminal,
        ),
        (Phase::Finishing(o), Event::Cleaned) => (
            Session { phase: Phase::Done, cursor_hidden: s.cursor_hidden, line_clear: s.line_clear },
            Action::Report(o),
        ),
        _ => (s, Action::Idle),
    }
}

impl Session {
    pub fn new() -> (r: Session)
        ensures
            r == initial_session(),
    {
        Session { phase: Phase::Preparing, cursor_hidden: false, line_clear: true }
    }

    /// Takes `event`, moves to the next phase and returns the action to
    /// perform.
    pub fn step(&mut self, event: Event) -> (a: Action)
        ensures
            (*final(self), a) == next(*old(self), event),
    {
        let mut phase = Phase::Done;
        std::mem::swap(&mut phase, &mut self.phase);
        match (phase, event) {
            (Phase::Preparing, Event::Spawned) => {
                self.phase = Phase::Running;
                self.cursor_hidden = true;
                Action::HideCursor
            },
            (Phase::Preparing, Event::Failed(o)) => {
                self.phase = Phase::Finishing(o);
                self.cursor_hidden = false;
                self.line_clear = true;
                Action::CleanTerminal
            },
            (Phase::Running, Event::Tick(finished)) => {
                self.phase = Phase::Running;
                if finished {
                    Action::Join
                } else {
                    self.line_clear = false;
                    Action::Render
                }
            },
            (Phase::Running, Event::Joined(r)) => {
                self.phase = Phase::Finishing(join_outcome(r));
                self.cursor_hidden = false;
                self.line_clear = true;
                Action::CleanTerminal
            },
            (Phase::Finishing(o), Event::Cleaned) => {
                self.phase = Phase::Done;
                Action::Report(o)
            },
            (p, _) => {
                self.phase = p;
                Action::Idle
            },
        }
    }
}

/// The state after a sequence of events.
pub open spec fn run(s: Session, events: Seq<Event>) -> Session
    decreases events.len(),
{
    if events.len() == 0 {
        s
    } else {
        run(next(s, events[0]).0, events.drop_first())
    }
}

/// How many times a sequence of events makes the coordinator clean the
/// terminal.
pub open spec fn cleanups(s: Session, events: Seq<Event>) -> nat
    decreases events.len(),
{
    if events.len() == 0 {
        0
    } else {
        let (s2, a) = next(s, events[0]);
        (if a is CleanTerminal { 1nat } else { 0nat }) + cleanups(s2, events.drop_first())
    }
}

/// Terminal state that each phase holds.
pub open spec fn consistent(s: Session) -> bool {
    match s.phase {
        Phase::Preparing => !s.cursor_hidden && s.line_clear,
        Phase::Running => s.cursor_hidden,
        Phase::Finishing(_) => !s.cursor_hidden && s.line_clear,
        Phase::Done => !s.cursor_hidden && s.line_clear,
    }
}

/// Cleanups issued before a state is reached.
pub open spec fn cleaned(s: Session) -> nat {
    if s.phase is Finishing || s.phase is Done { 1 } else { 0 }
}

proof fn lemma_run_consistent(s: Session, events: Seq<Event>)
    requires
        consistent(s),
    ensures
        consistent(run(s, events)),
        cleaned(s) + cleanups(s, events) == cleaned(run(s, events)),
    decreases events.len(),
{
    if events.len() > 0 {
        lemma_run_consistent(next(s, events[0]).0, events.drop_first());
    }
}

/// Whatever happens during a run, the terminal is cleaned at most once, and a
/// run that has reported its outcome cleaned it exactly once and left the
/// cursor visible and the last line clear.
pub proof fn lemma_cleanup_exactly_once(events: Seq<Event>)
    ensures
        cleanups(initial_session(), events) <= 1,
        run(initial_session(), events).phase is Done ==> cleanups(initial_session(), events) == 1
            && !run(initial_session(), events).cursor_hidden
            && run(initial_session(), events).line_clear,
{
    lemma_run_consistent(initial_session(), events);
}

/// The outcome is reported only from a state whose terminal was already
/// cleaned.
pub proof fn lemma_report_after_cleanup(s: Session, e: Event)
    requires
        consistent(s),
        next(s, e).1 is Report,
    ensures
        cleaned(s) == 1,
        !s.cursor_hidden && s.line_clear,
{
}

} // verus!
