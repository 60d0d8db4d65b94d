//! A session: focus and rest phases in turn for one project, until the user
//! quits. The session decides what is done next; whoever drives it runs the
//! phases, saves the focus time, and reports how each went.

use crate::timer::{PhaseLabel, TimerOutcome};
use crate::tracker::capped_sum;
use vstd::prelude::*;

verus! {

/// Where a session stands.
#[derive(Debug, Clone, Copy, PartialEq, Eq, Structural)]
pub enum Stage {
    /// The focus phase of the current cycle is running.
    Focus,
    /// The seconds of the focus phase that just ended are being saved; `quit`
    /// tells whether the user ended that phase.
    Saving { seconds: u64, quit: bool },
    /// The rest phase of the current cycle is running.
    Rest,
    /// The session is over; `during` is the phase in which it ended.
    Ended { during: PhaseLabel },
}

/// What happened outside the session.
#[derive(Debug, PartialEq, Eq)]
pub enum SessionEvent {
    /// The phase that was running ended.
    PhaseEnded(TimerOutcome),
    /// The store's answer to a save: whether it found the project and
    /// changed its total, or the message with which it failed.
    Saved(Result<bool, String>),
}

/// What is to be done next.
#[derive(Debug, PartialEq, Eq)]
pub enum SessionAction {
    /// Run a phase of `seconds`, the focus or the rest of cycle `cycle`.
    RunPhase { label: PhaseLabel, seconds: u64, cycle: u64 },
    /// Add `seconds` of focus to the project's stored total.
    Save { seconds: u64 },
    /// The session is over: `during` is the phase that the user ended,
    /// `logged` tells whether any focus time was saved, `total_seconds` how much.
    Finish { during: PhaseLabel, logged: bool, total_seconds: u64 },
    /// The focus time could not be saved: the session is over, and `message`
    /// says why.
    Fail { message: String },
    /// The event was not the one awaited, and changed nothing.
    Ignored,
}

/// An action with its message as plain text.
pub ghost enum ActionView {
    RunPhase { label: PhaseLabel, seconds: u64, cycle: u64 },
    Save { seconds: u64 },
    Finish { during: PhaseLabel, logged: bool, total_seconds: u64 },
    Fail { message: Seq<char> },
    Ignored,
}

impl View for SessionAction {
    type V = ActionView;

    open spec fn view(&self) -> ActionView {
        match *self {
            SessionAction::RunPhase { label, seconds, cycle } => ActionView::RunPhase {
                label,
                seconds,
                cycle,
            },
            SessionAction::Save { seconds } => ActionView::Save { seconds },
            SessionAction::Finish { during, logged, total_seconds } => ActionView::Finish {
                during,
                logged,
                total_seconds,
            },
            SessionAction::Fail { message } => ActionView::Fail { message: message@ },
            SessionAction::Ignored => ActionView::Ignored,
        }
    }
}

/// The state of a session.
pub ghost struct SessionState {
    pub project: Seq<char>,
    pub focus_seconds: u64,
    pub rest_seconds: u64,
    pub cycle: u64,
    pub stage: Stage,
    pub logged_seconds: u64,
    pub any_logged: bool,
}

impl SessionState {
    /// A session at the start of the focus phase of its first cycle.
    pub open spec fn init(project: Seq<char>, focus_seconds: u64, rest_seconds: u64) -> SessionState {
        SessionState {
            project,
            focus_seconds,
            rest_seconds,
            cycle: 1,
            stage: Stage::Focus,
            logged_seconds: 0,
            any_logged: false,
        }
    }

    /// What the session is waiting for.
    pub open spec fn pending(self) -> ActionView {
        match self.stage {
            Stage::Focus => ActionView::RunPhase {
                label: PhaseLabel::Focus,
                seconds: self.focus_seconds,
                cycle: self.cycle,
            },
            Stage::Saving { seconds, quit } => ActionView::Save { seconds },
            Stage::Rest => ActionView::RunPhase {
                label: PhaseLabel::Rest,
                seconds: self.rest_seconds,
                cycle: self.cycle,
            },
            Stage::Ended { during } => ActionView::Finish {
                during,
                logged: self.any_logged,
                total_seconds: self.logged_seconds,
            },
        }
    }

    /// Where the session goes once the focus phase is dealt with: it ends if
    /// the user quit, and rests otherwise.
    pub open spec fn after_focus(self, quit: bool) -> SessionState {
        SessionState {
            stage: if quit {
                Stage::Ended { during: PhaseLabel::Focus }
            } else {
                Stage::Rest
            },
            ..self
        }
    }

    /// Whether `event` is the one that the session is waiting for.
    pub open spec fn awaits(self, event: SessionEvent) -> bool {
        match (self.stage, event) {
            (Stage::Focus, SessionEvent::PhaseEnded(_)) => true,
            (Stage::Rest, SessionEvent::PhaseEnded(_)) => true,
            (Stage::Saving { .. }, SessionEvent::Saved(_)) => true,
            _ => false,
        }
    }

    /// The state after `event`.
    ///
    /// - A focus phase that ended with seconds elapsed has them saved before
    ///   anything else; with none, the session goes on at once.
    /// - Once they are saved they count as logged, and the session goes on;
    ///   where the store failed or did not find the project, the session is
    ///   over and they do not count.
    /// - A rest phase that the user ended ends the session; one that ran out
    ///   begins the next cycle. Rest time is never saved.
    /// - An event that is not awaited changes nothing.
    pub open spec fn next(self, event: SessionEvent) -> SessionState {
        match (self.stage, event) {
            (Stage::Focus, SessionEvent::PhaseEnded(outcome)) => if outcome.elapsed_seconds > 0 {
                SessionState {
                    stage: Stage::Saving { seconds: outcome.elapsed_seconds, quit: outcome.quit },
                    ..self
                }
            } else {
                self.after_focus(outcome.quit)
            },
            (Stage::Saving { seconds, quit }, SessionEvent::Saved(Ok(true))) => SessionState {
                logged_seconds: capped_sum(self.logged_seconds as nat, seconds as nat) as u64,
                any_logged: true,
                ..self
            }.after_focus(quit),
            (Stage::Saving { seconds, quit }, SessionEvent::Saved(_)) => SessionState {
                stage: Stage::Ended { during: PhaseLabel::Focus },
                ..self
            },
            (Stage::Rest, SessionEvent::PhaseEnded(outcome)) => if outcome.quit {
                SessionState { stage: Stage::Ended { during: PhaseLabel::Rest }, ..self }
            } else {
                SessionState {
                    stage: Stage::Focus,
                    cycle: capped_sum(self.cycle as nat, 1) as u64,
                    ..self
                }
            },
            _ => self,
        }
    }

    /// What is said where the store did not find the project to save to.
    pub open spec fn not_found(self) -> Seq<char> {
        "Project '"@ + self.project + "' not found for update"@
    }

    /// What is to be done after `event`: what the new state waits for; the
    /// failure, where the focus time could not be saved; nothing, where the
    /// event was not awaited.
    pub open spec fn action(self, event: SessionEvent) -> ActionView {
        if !self.awaits(event) {
            ActionView::Ignored
        } else {
            match event {
                SessionEvent::Saved(Err(message)) => ActionView::Fail { message: message@ },
                SessionEvent::Saved(Ok(false)) => ActionView::Fail { message: self.not_found() },
                _ => self.next(event).pending(),
            }
        }
    }
}

/// A session for one project.
#[derive(Debug)]
pub struct Session {
    project_name: String,
    focus_seconds: u64,
    rest_seconds: u64,
    cycle: u64,
    stage: Stage,
    logged_seconds: u64,
    any_logged: bool,
}

impl View for Session {
    type V = SessionState;

    closed spec fn view(&self) -> SessionState {
        SessionState {
            project: self.project_name@,
            focus_seconds: self.focus_seconds,
            rest_seconds: self.rest_seconds,
            cycle: self.cycle,
            stage: self.stage,
            logged_seconds: self.logged_seconds,
            any_logged: self.any_logged,
        }
    }
}

impl Session {
    /// A session for `project_name` with phases of the lengths given, in whole
    /// seconds, about to begin its first focus phase. A length of no seconds
    /// is a phase that ends at once.
    pub fn new(project_name: String, focus_seconds: u64, rest_seconds: u64) -> (out: Session)
        ensures
            out@ == SessionState::init(project_name@, focus_seconds, rest_seconds),
    {
        Session {
            project_name,
            focus_seconds,
            rest_seconds,
            cycle: 1,
            stage: Stage::Focus,
            logged_seconds: 0,
            any_logged: false,
        }
    }

    /// The name of the project that the session is for.
    pub fn project_name(&self) -> (out: &str)
        ensures
            out@ == self@.project,
    {
        self.project_name.as_str()
    }

    /// The number of the current cycle, from 1.
    pub fn cycle(&self) -> (out: u64)
        ensures
            out == self@.cycle,
    {
        self.cycle
    }

    /// Where the session stands.
    pub fn stage(&self) -> (out: Stage)
        ensures
            out == self@.stage,
    {
        self.stage
    }

    /// The seconds of focus that were saved so far.
    pub fn logged_seconds(&self) -> (out: u64)
        ensures
            out == self@.logged_seconds,
    {
        self.logged_seconds
    }

    /// Whether any focus time was saved so far.
    pub fn any_logged(&self) -> (out: bool)
        ensures
            out == self@.any_logged,
    {
        self.any_logged
    }

    /// What the session is waiting for.
    pub fn pending(&self) -> (out: SessionAction)
        ensures
            out@ == self@.pending(),
    {
        match self.stage {
            Stage::Focus => SessionAction::RunPhase {
                label: PhaseLabel::Focus,
                seconds: self.focus_seconds,
                cycle: self.cycle,
            },
            Stage::Saving { seconds, quit } => SessionAction::Save { seconds },
            Stage::Rest => SessionAction::RunPhase {
                label: PhaseLabel::Rest,
                seconds: self.rest_seconds,
                cycle: self.cycle,
            },
            Stage::Ended { during } => SessionAction::Finish {
                during,
                logged: self.any_logged,
                total_seconds: self.logged_seconds,
            },
        }
    }

    /// Takes an event and says what is to be done next.
    pub fn step(&mut self, event: SessionEvent) -> (out: SessionAction)
        ensures
            final(self)@ == old(self)@.next(event),
            out@ == old(self)@.action(event),
    {
        match (self.stage, event) {
            (Stage::Focus, SessionEvent::PhaseEnded(outcome)) => {
                if outcome.elapsed_seconds > 0 {
                    self.stage =
                    Stage::Saving { seconds: outcome.elapsed_seconds, quit: outcome.quit };
                } else if outcome.quit {
                    self.stage = Stage::Ended { during: PhaseLabel::Focus };
                } else {
                    self.stage = Stage::Rest;
                }
                self.pending()
            },
            (Stage::Saving { seconds, quit }, SessionEvent::Saved(Ok(true))) => {
                self.logged_seconds = self.logged_seconds.saturating_add(seconds);
                self.any_logged = true;
                if quit {
                    self.stage = Stage::Ended { during: PhaseLabel::Focus };
                } else {
                    self.stage = Stage::Rest;
                }
                self.pending()
            },
            (Stage::Saving { seconds, quit }, SessionEvent::Saved(Ok(false))) => {
                self.stage = Stage::Ended { during: PhaseLabel::Focus };
                let mut message = String::from_str("Project '");
                message.append(self.project_name.as_str());
                message.append("' not found for update");
                SessionAction::Fail { message }
            },
            (Stage::Saving { seconds, quit }, SessionEvent::Saved(Err(message))) => {
                self.stage = Stage::Ended { during: PhaseLabel::Focus };
                SessionAction::Fail { message }
            },
            (Stage::Rest, SessionEvent::PhaseEnded(outcome)) => {
                if outcome.quit {
                    self.stage = Stage::Ended { during: PhaseLabel::Rest };
                } else {
                    self.stage = Stage::Focus;
                    self.cycle = self.cycle.saturating_add(1);
                }
                self.pending()
            },
            _ => SessionAction::Ignored,
        }
    }
}

} // verus!
