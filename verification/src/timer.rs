//! The countdown of one phase: it loses a second whenever a second of real
//! time has passed while it was not paused, and ends when nothing remains or
//! when the user quits.

use crate::display::{is_color_name, is_painting, status_line, status_line_spec, tint, tint_bold};
use vstd::prelude::*;

verus! {

/// What a phase is for.
#[derive(Debug, Clone, Copy, PartialEq, Eq, Structural)]
pub enum PhaseLabel {
    Focus,
    Rest,
}

/// A key of the keyboard, as far as the countdown tells keys apart.
#[derive(Debug, Clone, Copy, PartialEq, Eq, Structural)]
pub enum Key {
    Char(char),
    Esc,
    Other,
}

/// What the terminal reported: a key with whether it was pressed (and not
/// released or repeated), or something else, such as a change of size.
#[derive(Debug, Clone, Copy, PartialEq, Eq, Structural)]
pub enum Input {
    Key { code: Key, press: bool },
    Other,
}

/// What an input asks of the countdown.
#[derive(Debug, Clone, Copy, PartialEq, Eq, Structural)]
pub enum Control {
    TogglePause,
    Quit,
    Ignore,
}

/// How a phase ended: the seconds that passed while it was not paused, and
/// whether the user ended it.
#[derive(Debug, Clone, Copy, PartialEq, Eq, Structural)]
pub struct TimerOutcome {
    pub elapsed_seconds: u64,
    pub quit: bool,
}

/// One round of the countdown's loop: whether a second has passed since the
/// last one was counted, and the input that was pending, if any.
#[derive(Debug, Clone, Copy, PartialEq, Eq, Structural)]
pub struct Poll {
    pub second_due: bool,
    pub input: Option<Input>,
}

/// What the countdown does after looking at the clock.
#[derive(Debug, Clone, Copy, PartialEq, Eq, Structural)]
pub struct Tick {
    /// Whether the moment from which the next second is measured is now.
    pub restart_second: bool,
    /// The outcome, once nothing remains.
    pub outcome: Option<TimerOutcome>,
}

/// The number of frames of the progress indicator.
pub const FRAMES: usize = 10;

/// The control that an input stands for: `p` pauses and resumes, `q` and the
/// escape key quit, in either case of the letter; all else is ignored, and so
/// is a key that was not pressed.
pub open spec fn control_of(input: Option<Input>) -> Control {
    match input {
        Some(Input::Key { code, press: true }) => match code {
            Key::Char(c) => if c == 'p' || c == 'P' {
                Control::TogglePause
            } else if c == 'q' || c == 'Q' {
                Control::Quit
            } else {
                Control::Ignore
            },
            Key::Esc => Control::Quit,
            Key::Other => Control::Ignore,
        },
        _ => Control::Ignore,
    }
}

/// The state of a countdown.
pub ghost struct TimerState {
    pub label: PhaseLabel,
    pub total: nat,
    pub remaining: nat,
    pub elapsed: nat,
    pub paused: bool,
    pub frame: usize,
}

impl TimerState {
    /// A countdown of `total` seconds that has not begun.
    pub open spec fn init(label: PhaseLabel, total: nat) -> TimerState {
        TimerState { label, total, remaining: total, elapsed: 0, paused: false, frame: 0 }
    }

    /// What has passed and what remains make up the whole.
    pub open spec fn wf(self) -> bool {
        self.elapsed + self.remaining == self.total
    }

    /// Whether a look at the clock counts a second.
    pub open spec fn counts(self, second_due: bool) -> bool {
        !self.paused && second_due && self.remaining > 0
    }

    /// The state after a look at the clock.
    pub open spec fn clocked(self, second_due: bool) -> TimerState {
        if self.counts(second_due) {
            TimerState {
                remaining: (self.remaining - 1) as nat,
                elapsed: self.elapsed + 1,
                ..self
            }
        } else {
            self
        }
    }

    /// Whether the next second is measured from this look at the clock: after
    /// a second that was due, and always while paused, so that a pause owes
    /// no time when it ends.
    pub open spec fn restarts_second(self, second_due: bool) -> bool {
        self.paused || second_due
    }

    /// The state after an input that does not quit: a toggle flips the pause,
    /// and the progress indicator moves on by one frame.
    pub open spec fn keyed(self, control: Control) -> TimerState {
        TimerState {
            paused: if control == Control::TogglePause {
                !self.paused
            } else {
                self.paused
            },
            frame: if self.frame == usize::MAX {
                0
            } else {
                (self.frame + 1) as usize
            },
            ..self
        }
    }

    /// The state after one round that does not end the phase.
    pub open spec fn polled(self, poll: Poll) -> TimerState {
        self.clocked(poll.second_due).keyed(control_of(poll.input))
    }

    /// The outcome of a phase that ends in this state.
    pub open spec fn outcome(self, quit: bool) -> TimerOutcome {
        TimerOutcome { elapsed_seconds: self.elapsed as u64, quit }
    }
}

/// The outcome of the rounds `script` on a countdown in state `s`: the first
/// round after whose look at the clock nothing remains ends the phase
/// naturally, the first whose input quits ends it there; `None` while the
/// script ends before the phase.
pub open spec fn run_from(s: TimerState, script: Seq<Poll>) -> Option<TimerOutcome>
    decreases script.len(),
{
    if script.len() == 0 {
        None
    } else {
        let now = s.clocked(script[0].second_due);
        if now.remaining == 0 {
            Some(now.outcome(false))
        } else if control_of(script[0].input) == Control::Quit {
            Some(now.outcome(true))
        } else {
            run_from(now.keyed(control_of(script[0].input)), script.drop_first())
        }
    }
}

/// The outcome of a phase of `total` seconds under the rounds `script`. A
/// phase of no seconds ends at once, with nothing elapsed.
pub open spec fn run_timer_spec(label: PhaseLabel, total: nat, script: Seq<Poll>) -> Option<
    TimerOutcome,
> {
    if total == 0 {
        Some(TimerOutcome { elapsed_seconds: 0, quit: false })
    } else {
        run_from(TimerState::init(label, total), script)
    }
}

/// The control that an input stands for.
pub fn classify_input(input: Option<Input>) -> (out: Control)
    ensures
        out == control_of(input),
{
    match input {
        Some(Input::Key { code, press }) => {
            if !press {
                Control::Ignore
            } else {
                match code {
                    Key::Char(c) => {
                        if c == 'p' || c == 'P' {
                            Control::TogglePause
                        } else if c == 'q' || c == 'Q' {
                            Control::Quit
                        } else {
                            Control::Ignore
                        }
                    },
                    Key::Esc => Control::Quit,
                    Key::Other => Control::Ignore,
                }
            }
        },
        _ => Control::Ignore,
    }
}

impl PhaseLabel {
    /// The label as the status line shows it.
    pub open spec fn name_spec(self) -> Seq<char> {
        match self {
            PhaseLabel::Focus => "Focus"@,
            PhaseLabel::Rest => "Rest"@,
        }
    }

    /// The label as the status line shows it.
    pub fn name(self) -> (out: &'static str)
        ensures
            out@ == self.name_spec(),
    {
        match self {
            PhaseLabel::Focus => "Focus",
            PhaseLabel::Rest => "Rest",
        }
    }
}

/// A running countdown.
#[derive(Debug, Clone, Copy)]
pub struct TimerPhase {
    label: PhaseLabel,
    total: u64,
    remaining: u64,
    elapsed: u64,
    paused: bool,
    frame: usize,
}

impl View for TimerPhase {
    type V = TimerState;

    closed spec fn view(&self) -> TimerState {
        TimerState {
            label: self.label,
            total: self.total as nat,
            remaining: self.remaining as nat,
            elapsed: self.elapsed as nat,
            paused: self.paused,
            frame: self.frame,
        }
    }
}

impl TimerPhase {
    #[verifier::type_invariant]
    spec fn inv(self) -> bool {
        self.elapsed + self.remaining == self.total
    }

    /// A countdown of `total_seconds` that has not begun.
    pub fn new(label: PhaseLabel, total_seconds: u64) -> (out: TimerPhase)
        ensures
            out@ == TimerState::init(label, total_seconds as nat),
    {
        TimerPhase {
            label,
            total: total_seconds,
            remaining: total_seconds,
            elapsed: 0,
            paused: false,
            frame: 0,
        }
    }

    /// The phase's label.
    pub fn label(&self) -> (out: PhaseLabel)
        ensures
            out == self@.label,
    {
        self.label
    }

    /// The seconds that the phase was given.
    pub fn total_seconds(&self) -> (out: u64)
        ensures
            out == self@.total,
    {
        self.total
    }

    /// The seconds that remain.
    pub fn remaining_seconds(&self) -> (out: u64)
        ensures
            out == self@.remaining,
            self@.wf(),
    {
        proof {
            use_type_invariant(self);
        }
        self.remaining
    }

    /// The seconds that have passed while the countdown was not paused.
    pub fn elapsed_seconds(&self) -> (out: u64)
        ensures
            out == self@.elapsed,
            self@.wf(),
    {
        proof {
            use_type_invariant(self);
        }
        self.elapsed
    }

    /// Whether the countdown is paused.
    pub fn is_paused(&self) -> (out: bool)
        ensures
            out == self@.paused,
    {
        self.paused
    }

    /// Looks at the clock: counts a second where one is due and the countdown
    /// is not paused, and reports the outcome once nothing remains.
    pub fn tick(&mut self, second_due: bool) -> (out: Tick)
        ensures
            final(self)@ == old(self)@.clocked(second_due),
            out.restart_second == old(self)@.restarts_second(second_due),
            out.outcome == if final(self)@.remaining == 0 {
                Some(final(self)@.outcome(false))
            } else {
                None
            },
    {
        proof {
            use_type_invariant(&*self);
        }
        let restart_second = self.paused || second_due;
        if !self.paused && second_due && self.remaining > 0 {
            *self = TimerPhase {
                label: self.label,
                total: self.total,
                remaining: self.remaining - 1,
                elapsed: self.elapsed + 1,
                paused: self.paused,
                frame: self.frame,
            };
        }
        let outcome = if self.remaining == 0 {
            Some(TimerOutcome { elapsed_seconds: self.elapsed, quit: false })
        } else {
            None
        };
        Tick { restart_second, outcome }
    }

    /// Takes the input that was pending after a look at the clock. A quit
    /// ends the phase with what has elapsed and changes nothing; anything
    /// else lets it go on.
    pub fn input(&mut self, input: Option<Input>) -> (out: Option<TimerOutcome>)
        ensures
            control_of(input) == Control::Quit ==> {
                &&& out == Some(old(self)@.outcome(true))
                &&& *final(self) == *old(self)
            },
            control_of(input) != Control::Quit ==> {
                &&& out.is_none()
                &&& final(self)@ == old(self)@.keyed(control_of(input))
            },
    {
        proof {
            use_type_invariant(&*self);
        }
        match classify_input(input) {
            Control::Quit => Some(TimerOutcome { elapsed_seconds: self.elapsed, quit: true }),
            control => {
                let paused = match control {
                    Control::TogglePause => !self.paused,
                    _ => self.paused,
                };
                *self = TimerPhase {
                    label: self.label,
                    total: self.total,
                    remaining: self.remaining,
                    elapsed: self.elapsed,
                    paused,
                    frame: self.frame.wrapping_add(1),
                };
                None
            },
        }
    }

    /// Draws the status line: the pause sign while paused, else the frame of
    /// the progress indicator that is due; then the label and what remains.
    /// The terminal decides whether the indicator comes out in colour.
    pub fn render(&self) -> (out: String)
        ensures
            exists|shown: Seq<char>|
                is_painting(shown, indicator_glyph(self@.paused, self@.frame)) && out@
                    == status_line_spec(shown, self@.label.name_spec(), self@.remaining),
    {
        let shown = if self.paused {
            proof {
                reveal_strlit("⏸");
                reveal_strlit("yellow");
            }
            tint_bold("⏸", "yellow")
        } else {
            let (glyph, color) = frame_of(self.frame % FRAMES);
            tint(glyph, color)
        };
        let out = status_line(shown.as_str(), self.label.name(), self.remaining);
        assert(is_painting(shown@, indicator_glyph(self@.paused, self@.frame)) && out@
            == status_line_spec(shown@, self@.label.name_spec(), self@.remaining));
        out
    }
}

/// The glyph of the progress indicator's frame `index`.
pub open spec fn frame_glyph(index: int) -> Seq<char> {
    if index == 0 {
        "⠋"@
    } else if index == 1 {
        "⠙"@
    } else if index == 2 {
        "⠹"@
    } else if index == 3 {
        "⠸"@
    } else if index == 4 {
        "⠼"@
    } else if index == 5 {
        "⠴"@
    } else if index == 6 {
        "⠦"@
    } else if index == 7 {
        "⠧"@
    } else if index == 8 {
        "⠇"@
    } else {
        "⠏"@
    }
}

/// The glyph that the status line shows: the pause sign while paused, else
/// the frame that `frame` stands at, the frames coming round in turn.
pub open spec fn indicator_glyph(paused: bool, frame: usize) -> Seq<char> {
    if paused {
        "⏸"@
    } else {
        frame_glyph(frame as int % 10)
    }
}

/// The glyph and the colour of the progress indicator's frame `index`.
fn frame_of(index: usize) -> (out: (&'static str, &'static str))
    requires
        index < FRAMES,
    ensures
        out.0@ == frame_glyph(index as int),
        !out.0@.contains('\x1B'),
        is_color_name(out.1@),
{
    proof {
        reveal_strlit("red");
        reveal_strlit("magenta");
        reveal_strlit("yellow");
        reveal_strlit("green");
        reveal_strlit("cyan");
        reveal_strlit("blue");
        reveal_strlit("purple");
        reveal_strlit("black");
        reveal_strlit("bright black");
        reveal_strlit("bright red");
        reveal_strlit("⠋");
        reveal_strlit("⠙");
        reveal_strlit("⠹");
        reveal_strlit("⠸");
        reveal_strlit("⠼");
        reveal_strlit("⠴");
        reveal_strlit("⠦");
        reveal_strlit("⠧");
        reveal_strlit("⠇");
        reveal_strlit("⠏");
    }
    if index == 0 {
        ("⠋", "red")
    } else if index == 1 {
        ("⠙", "magenta")
    } else if index == 2 {
        ("⠹", "yellow")
    } else if index == 3 {
        ("⠸", "green")
    } else if index == 4 {
        ("⠼", "cyan")
    } else if index == 5 {
        ("⠴", "blue")
    } else if index == 6 {
        ("⠦", "purple")
    } else if index == 7 {
        ("⠧", "black")
    } else if index == 8 {
        ("⠇", "bright black")
    } else {
        ("⠏", "bright red")
    }
}

/// Runs a phase of `total_seconds` over the rounds of `script`, and gives its
/// outcome if the phase ends within them.
pub fn run_timer(label: PhaseLabel, total_seconds: u64, script: &Vec<Poll>) -> (out: Option<
    TimerOutcome,
>)
    ensures
        out == run_timer_spec(label, total_seconds as nat, script@),
{
    if total_seconds == 0 {
        return Some(TimerOutcome { elapsed_seconds: 0, quit: false });
    }
    let mut phase = TimerPhase::new(label, total_seconds);
    let mut i: usize = 0;
    assert(script@.skip(0) == script@);
    while i < script.len()
        invariant
            i <= script.len(),
            run_from(phase@, script@.skip(i as int)) == run_timer_spec(
                label,
                total_seconds as nat,
                script@,
            ),
        decreases script.len() - i,
    {
        let poll = script[i];
        proof {
            assert(script@.skip(i as int)[0] == poll);
            assert(script@.skip(i as int).drop_first() == script@.skip(i + 1));
        }
        let tick = phase.tick(poll.second_due);
        if tick.outcome.is_some() {
            return tick.outcome;
        }
        let ended = phase.input(poll.input);
        if ended.is_some() {
            return ended;
        }
        i += 1;
    }
    None
}

} // verus!
