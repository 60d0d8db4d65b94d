//! What holds of every countdown, whatever the rounds it goes through.

use crate::timer::{
    control_of, run_from, run_timer_spec, Control, PhaseLabel, Poll, TimerOutcome, TimerState,
};
use vstd::prelude::*;

verus! {

/// No round of `script` holds an input that pauses, resumes or quits.
pub open spec fn undisturbed(script: Seq<Poll>) -> bool {
    forall|i: int| 0 <= i < script.len() ==> control_of(#[trigger] script[i].input) == Control::Ignore
}

/// The number of rounds of `script` at which a second was due.
pub open spec fn seconds_due(script: Seq<Poll>) -> nat
    decreases script.len(),
{
    if script.len() == 0 {
        0
    } else {
        seconds_due(script.drop_first()) + if script[0].second_due {
            1nat
        } else {
            0nat
        }
    }
}

/// The state of a countdown after all the rounds of `script`, none of which
/// is taken to end it.
pub open spec fn state_after(s: TimerState, script: Seq<Poll>) -> TimerState
    decreases script.len(),
{
    if script.len() == 0 {
        s
    } else {
        state_after(s.polled(script[0]), script.drop_first())
    }
}

/// The number of rounds of `script` at which a second was due while the
/// countdown, begun in state `s`, was not paused.
pub open spec fn seconds_due_unpaused(s: TimerState, script: Seq<Poll>) -> nat
    decreases script.len(),
{
    if script.len() == 0 {
        0
    } else {
        seconds_due_unpaused(s.polled(script[0]), script.drop_first()) + if !s.paused
            && script[0].second_due {
            1nat
        } else {
            0nat
        }
    }
}

proof fn lemma_undisturbed_run(s: TimerState, script: Seq<Poll>)
    requires
        s.wf(),
        !s.paused,
        s.remaining > 0,
        s.total <= u64::MAX,
        undisturbed(script),
        seconds_due(script) >= s.remaining,
    ensures
        run_from(s, script) == Some(TimerOutcome { elapsed_seconds: s.total as u64, quit: false }),
    decreases script.len(),
{
    let now = s.clocked(script[0].second_due);
    assert(control_of(script[0].input) == Control::Ignore);
    if now.remaining != 0 {
        let rest = script.drop_first();
        assert forall|i: int| 0 <= i < rest.len() implies control_of(#[trigger] rest[i].input)
            == Control::Ignore by {
            assert(rest[i] == script[i + 1]);
        }
        lemma_undisturbed_run(now.keyed(Control::Ignore), rest);
    }
}

/// A phase that no input pauses or ends runs to its end: once as many seconds
/// have come due as the phase has, it has ended by itself, with all of them
/// elapsed.
pub proof fn law_undisturbed_phase_completes(
    label: PhaseLabel,
    total_seconds: u64,
    script: Seq<Poll>,
)
    requires
        undisturbed(script),
        seconds_due(script) >= total_seconds,
    ensures
        run_timer_spec(label, total_seconds as nat, script) == Some(
            TimerOutcome { elapsed_seconds: total_seconds, quit: false },
        ),
{
    if total_seconds > 0 {
        lemma_undisturbed_run(TimerState::init(label, total_seconds as nat), script);
    }
}

proof fn lemma_quit_run(s: TimerState, script: Seq<Poll>)
    requires
        s.wf(),
        !s.paused,
        s.total <= u64::MAX,
        script.len() > 0,
        undisturbed(script.drop_last()),
        control_of(script.last().input) == Control::Quit,
        seconds_due(script) < s.remaining,
    ensures
        run_from(s, script) == Some(
            TimerOutcome { elapsed_seconds: (s.elapsed + seconds_due(script)) as u64, quit: true },
        ),
    decreases script.len(),
{
    let now = s.clocked(script[0].second_due);
    let rest = script.drop_first();
    if script.len() == 1 {
        assert(seconds_due(rest) == 0);
    } else {
        assert(script.drop_last()[0] == script[0]);
        assert(control_of(script[0].input) == Control::Ignore);
        assert(rest.drop_last() == script.drop_last().drop_first());
        assert forall|i: int| 0 <= i < rest.drop_last().len() implies control_of(
            #[trigger] rest.drop_last()[i].input,
        ) == Control::Ignore by {
            assert(rest.drop_last()[i] == script.drop_last()[i + 1]);
        }
        assert(rest.last() == script.last());
        lemma_quit_run(now.keyed(Control::Ignore), rest);
    }
}

/// A quit reports what has elapsed. Where nothing pauses the phase and the
/// last round of `script` quits, the phase ends there with as many seconds
/// elapsed as had come due, as long as these are fewer than the phase has.
pub proof fn law_quit_reports_elapsed(label: PhaseLabel, total_seconds: u64, script: Seq<Poll>)
    requires
        total_seconds > 0,
        script.len() > 0,
        undisturbed(script.drop_last()),
        control_of(script.last().input) == Control::Quit,
        seconds_due(script) < total_seconds,
    ensures
        run_timer_spec(label, total_seconds as nat, script) == Some(
            TimerOutcome { elapsed_seconds: seconds_due(script) as u64, quit: true },
        ),
{
    lemma_quit_run(TimerState::init(label, total_seconds as nat), script);
}

/// A pause stops the countdown. While a countdown is paused and no input
/// resumes it, neither what remains nor what has elapsed changes, however
/// many seconds come due.
pub proof fn law_pause_holds_the_countdown(s: TimerState, script: Seq<Poll>)
    requires
        s.paused,
        forall|i: int|
            0 <= i < script.len() ==> control_of(#[trigger] script[i].input)
                != Control::TogglePause,
    ensures
        state_after(s, script).remaining == s.remaining,
        state_after(s, script).elapsed == s.elapsed,
        state_after(s, script).paused,
    decreases script.len(),
{
    if script.len() > 0 {
        let rest = script.drop_first();
        assert(control_of(script[0].input) != Control::TogglePause);
        assert forall|i: int| 0 <= i < rest.len() implies control_of(#[trigger] rest[i].input)
            != Control::TogglePause by {
            assert(rest[i] == script[i + 1]);
        }
        law_pause_holds_the_countdown(s.polled(script[0]), rest);
    }
}

/// What has elapsed is the time spent unpaused, and no more: after any
/// rounds, the countdown has moved by the number of seconds that came due
/// while it was not paused, or by all that remained if that is less.
pub proof fn law_elapsed_is_unpaused_time(s: TimerState, script: Seq<Poll>)
    requires
        s.wf(),
    ensures
        state_after(s, script).wf(),
        state_after(s, script).total == s.total,
        state_after(s, script).elapsed == s.elapsed + vstd::math::min(
            s.remaining as int,
            seconds_due_unpaused(s, script) as int,
        ),
    decreases script.len(),
{
    if script.len() > 0 {
        law_elapsed_is_unpaused_time(s.polled(script[0]), script.drop_first());
    }
}

/// A phase never reports more than it has: whatever the rounds, the seconds
/// that a phase reports as elapsed are at most those it was given, and a
/// phase that ended by itself reports all of them.
pub proof fn law_elapsed_within_total(label: PhaseLabel, total_seconds: u64, script: Seq<Poll>)
    ensures
        match run_timer_spec(label, total_seconds as nat, script) {
            Some(outcome) => outcome.elapsed_seconds <= total_seconds && (!outcome.quit
                ==> outcome.elapsed_seconds == total_seconds),
            None => true,
        },
{
    if total_seconds > 0 {
        lemma_run_within_total(TimerState::init(label, total_seconds as nat), script);
    }
}

proof fn lemma_run_within_total(s: TimerState, script: Seq<Poll>)
    requires
        s.wf(),
        s.total <= u64::MAX,
    ensures
        match run_from(s, script) {
            Some(outcome) => outcome.elapsed_seconds <= s.total && (!outcome.quit
                ==> outcome.elapsed_seconds == s.total),
            None => true,
        },
    decreases script.len(),
{
    if script.len() > 0 {
        let now = s.clocked(script[0].second_due);
        if now.remaining != 0 && control_of(script[0].input) != Control::Quit {
            lemma_run_within_total(now.keyed(control_of(script[0].input)), script.drop_first());
        }
    }
}

proof fn lemma_toggles(s: TimerState, script: Seq<Poll>)
    requires
        forall|i: int|
            0 <= i < script.len() ==> !(#[trigger] script[i]).second_due && control_of(
                script[i].input,
            ) == Control::TogglePause,
    ensures
        state_after(s, script).remaining == s.remaining,
        state_after(s, script).elapsed == s.elapsed,
        state_after(s, script).total == s.total,
        state_after(s, script).paused == if script.len() % 2 == 0 {
            s.paused
        } else {
            !s.paused
        },
    decreases script.len(),
{
    if script.len() > 0 {
        let rest = script.drop_first();
        assert(!script[0].second_due && control_of(script[0].input) == Control::TogglePause);
        assert forall|i: int| 0 <= i < rest.len() implies !(#[trigger] rest[i]).second_due
            && control_of(rest[i].input) == Control::TogglePause by {
            assert(rest[i] == script[i + 1]);
        }
        lemma_toggles(s.polled(script[0]), rest);
    }
}

/// Pausing and resuming between two seconds costs nothing: after an even
/// number of toggles, with no second due meanwhile, the countdown remains
/// as it was, paused or not, with the same time remaining.
pub proof fn law_even_toggles_change_nothing(s: TimerState, script: Seq<Poll>)
    requires
        script.len() % 2 == 0,
        forall|i: int|
            0 <= i < script.len() ==> !(#[trigger] script[i]).second_due && control_of(
                script[i].input,
            ) == Control::TogglePause,
    ensures
        state_after(s, script).remaining == s.remaining,
        state_after(s, script).elapsed == s.elapsed,
        state_after(s, script).paused == s.paused,
{
    lemma_toggles(s, script);
}

} // verus!
