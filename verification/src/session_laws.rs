//! What holds of every session, whatever happens to it.

use crate::session::{ActionView, SessionEvent, SessionState, Stage};
use crate::tracker::capped_sum;
use crate::timer::{PhaseLabel, TimerOutcome};
use vstd::prelude::*;

verus! {

/// The state of a session after all of `events`.
pub open spec fn state_after(s: SessionState, events: Seq<SessionEvent>) -> SessionState
    decreases events.len(),
{
    if events.len() == 0 {
        s
    } else {
        state_after(s.next(events[0]), events.drop_first())
    }
}

/// The seconds that `event` adds to the project's stored total: those of a
/// save that the session was waiting for and that the store carried out.
pub open spec fn stored_by(s: SessionState, event: SessionEvent) -> nat {
    match (s.stage, event) {
        (Stage::Saving { seconds, quit }, SessionEvent::Saved(Ok(true))) => seconds as nat,
        _ => 0,
    }
}

/// The project's stored total after `events`, where it was `stored` before
/// them and the session was in state `s`.
pub open spec fn stored_after(stored: nat, s: SessionState, events: Seq<SessionEvent>) -> nat
    decreases events.len(),
{
    if events.len() == 0 {
        stored
    } else {
        stored_after(stored + stored_by(s, events[0]), s.next(events[0]), events.drop_first())
    }
}

/// The event that a phase ended after `elapsed_seconds`.
pub open spec fn phase_ended(elapsed_seconds: u64, quit: bool) -> SessionEvent {
    SessionEvent::PhaseEnded(TimerOutcome { elapsed_seconds, quit })
}

/// A full cycle stores its focus time once. Where the focus phase runs out
/// after `focus` seconds and they are saved, the stored total has grown by
/// them; the rest phase that follows leaves it there, and the next cycle
/// begins with a focus phase.
pub proof fn law_cycle_stores_focus_only(s: SessionState, stored: nat, focus: u64, rest: u64)
    requires
        s.stage == Stage::Focus,
        focus > 0,
    ensures
        s.action(phase_ended(focus, false)) == (ActionView::Save { seconds: focus }),
        stored_after(
            stored,
            s,
            seq![phase_ended(focus, false), SessionEvent::Saved(Ok(true))],
        ) == stored + focus,
        state_after(
            s,
            seq![phase_ended(focus, false), SessionEvent::Saved(Ok(true))],
        ).stage == Stage::Rest,
        stored_after(
            stored,
            s,
            seq![
                phase_ended(focus, false),
                SessionEvent::Saved(Ok(true)),
                phase_ended(rest, false),
            ],
        ) == stored + focus,
        state_after(
            s,
            seq![
                phase_ended(focus, false),
                SessionEvent::Saved(Ok(true)),
                phase_ended(rest, false),
            ],
        ).stage == Stage::Focus,
{
    let e1 = phase_ended(focus, false);
    let e2 = SessionEvent::Saved(Ok(true));
    let e3 = phase_ended(rest, false);
    let two = seq![e1, e2];
    let three = seq![e1, e2, e3];
    reveal_with_fuel(stored_after, 4);
    reveal_with_fuel(state_after, 4);
    assert(two.drop_first() == seq![e2]);
    assert(seq![e2].drop_first() == Seq::<SessionEvent>::empty());
    assert(three.drop_first() == seq![e2, e3]);
    assert(seq![e2, e3].drop_first() == seq![e3]);
    assert(seq![e3].drop_first() == Seq::<SessionEvent>::empty());
}

/// Quitting a focus phase stores what had elapsed and ends the session
/// without a rest: the seconds are saved, and then the session is over.
pub proof fn law_quit_in_focus_stores_elapsed(s: SessionState, stored: nat, elapsed: u64)
    requires
        s.stage == Stage::Focus,
        elapsed > 0,
    ensures
        s.action(phase_ended(elapsed, true)) == (ActionView::Save { seconds: elapsed }),
        s.next(phase_ended(elapsed, true)).action(SessionEvent::Saved(Ok(true))) == (
        ActionView::Finish {
            during: PhaseLabel::Focus,
            logged: true,
            total_seconds: capped_sum(s.logged_seconds as nat, elapsed as nat) as u64,
        }),
        stored_after(
            stored,
            s,
            seq![phase_ended(elapsed, true), SessionEvent::Saved(Ok(true))],
        ) == stored + elapsed,
{
    let e1 = phase_ended(elapsed, true);
    let e2 = SessionEvent::Saved(Ok(true));
    reveal_with_fuel(stored_after, 3);
    assert(seq![e1, e2].drop_first() == seq![e2]);
    assert(seq![e2].drop_first() == Seq::<SessionEvent>::empty());
}

/// Phases come in turn. A focus phase that runs out is followed by the rest
/// phase of the same cycle, at once where nothing elapsed and else once what
/// elapsed is saved; a rest phase that runs out is followed by the focus
/// phase of the next cycle. This holds for phases of any length, also of none.
pub proof fn law_phases_alternate(s: SessionState, elapsed: u64)
    ensures
        s.stage == Stage::Focus && elapsed == 0 ==> s.action(phase_ended(elapsed, false)) == (
        ActionView::RunPhase { label: PhaseLabel::Rest, seconds: s.rest_seconds, cycle: s.cycle }),
        s.stage == Stage::Focus && elapsed > 0 ==> {
            &&& s.action(phase_ended(elapsed, false)) == (ActionView::Save { seconds: elapsed })
            &&& s.next(phase_ended(elapsed, false)).action(SessionEvent::Saved(Ok(true))) == (
            ActionView::RunPhase {
                label: PhaseLabel::Rest,
                seconds: s.rest_seconds,
                cycle: s.cycle,
            })
        },
        s.stage == Stage::Rest ==> s.action(phase_ended(elapsed, false)) == (ActionView::RunPhase {
            label: PhaseLabel::Focus,
            seconds: s.focus_seconds,
            cycle: capped_sum(s.cycle as nat, 1) as u64,
        }),
        SessionState::init(s.project, s.focus_seconds, s.rest_seconds).pending() == (
        ActionView::RunPhase { label: PhaseLabel::Focus, seconds: s.focus_seconds, cycle: 1 }),
{
}

/// Rest is never stored. Whatever way a rest phase ends, nothing is saved:
/// the stored total and the seconds logged stay as the focus phase left them.
pub proof fn law_rest_stores_nothing(s: SessionState, stored: nat, outcome: TimerOutcome)
    requires
        s.stage == Stage::Rest,
    ensures
        !(s.action(SessionEvent::PhaseEnded(outcome)) is Save),
        s.next(SessionEvent::PhaseEnded(outcome)).logged_seconds == s.logged_seconds,
        s.next(SessionEvent::PhaseEnded(outcome)).any_logged == s.any_logged,
        stored_after(stored, s, seq![SessionEvent::PhaseEnded(outcome)]) == stored,
{
    let e = SessionEvent::PhaseEnded(outcome);
    reveal_with_fuel(stored_after, 2);
    assert(seq![e].drop_first() == Seq::<SessionEvent>::empty());
}

/// Only the user ends a session. A phase that runs out never ends it, and
/// neither does the save that follows such a phase: a session ends by a
/// quit, or by a save that the store does not carry out.
pub proof fn law_session_ends_by_quit_only(s: SessionState, event: SessionEvent)
    requires
        !(s.stage is Ended),
        s.next(event).stage is Ended,
    ensures
        match event {
            SessionEvent::PhaseEnded(outcome) => outcome.quit,
            SessionEvent::Saved(Ok(true)) => s.stage matches Stage::Saving { quit, .. } && quit,
            SessionEvent::Saved(_) => true,
        },
{
}

/// A session that is over stays over, and what it logged stays as it is.
pub proof fn law_ended_is_final(s: SessionState, event: SessionEvent)
    requires
        s.stage is Ended,
    ensures
        s.next(event) == s,
        s.action(event) == ActionView::Ignored,
{
}

/// What a session logs is what was stored. After any events, the seconds
/// that a session counts as logged are those it counted before and those
/// that its saves added to the stored total meanwhile, up to the largest
/// number it can count.
pub proof fn law_logged_is_what_was_stored(s: SessionState, events: Seq<SessionEvent>)
    ensures
        state_after(s, events).logged_seconds == vstd::math::min(
            s.logged_seconds + stored_after(0, s, events),
            u64::MAX as int,
        ),
    decreases events.len(),
{
    if events.len() > 0 {
        let t = s.next(events[0]);
        let rest = events.drop_first();
        law_logged_is_what_was_stored(t, rest);
        lemma_stored_shift(stored_by(s, events[0]), t, rest);
    }
}

proof fn lemma_stored_shift(stored: nat, s: SessionState, events: Seq<SessionEvent>)
    ensures
        stored_after(stored, s, events) == stored + stored_after(0, s, events),
    decreases events.len(),
{
    if events.len() > 0 {
        let t = s.next(events[0]);
        let rest = events.drop_first();
        lemma_stored_shift(stored + stored_by(s, events[0]), t, rest);
        lemma_stored_shift(stored_by(s, events[0]), t, rest);
    }
}

} // verus!
