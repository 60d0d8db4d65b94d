use pomo::timer::{
    classify_input, run_timer, Control, Input, Key, PhaseLabel, Poll, Tick, TimerOutcome,
    TimerPhase,
};

fn key(c: char) -> Option<Input> {
    Some(Input::Key { code: Key::Char(c), press: true })
}

fn second() -> Poll {
    Poll { second_due: true, input: None }
}

fn idle() -> Poll {
    Poll { second_due: false, input: None }
}

fn typed(c: char, second_due: bool) -> Poll {
    Poll { second_due, input: key(c) }
}

#[test]
fn keys_are_told_apart() {
    assert_eq!(classify_input(key('p')), Control::TogglePause);
    assert_eq!(classify_input(key('P')), Control::TogglePause);
    assert_eq!(classify_input(key('q')), Control::Quit);
    assert_eq!(classify_input(key('Q')), Control::Quit);
    assert_eq!(classify_input(Some(Input::Key { code: Key::Esc, press: true })), Control::Quit);
    assert_eq!(classify_input(key('x')), Control::Ignore);
    assert_eq!(classify_input(Some(Input::Key { code: Key::Other, press: true })), Control::Ignore);
    assert_eq!(classify_input(Some(Input::Other)), Control::Ignore);
    assert_eq!(classify_input(None), Control::Ignore);
}

#[test]
fn a_key_that_was_not_pressed_is_ignored() {
    assert_eq!(
        classify_input(Some(Input::Key { code: Key::Char('q'), press: false })),
        Control::Ignore
    );
    assert_eq!(
        classify_input(Some(Input::Key { code: Key::Esc, press: false })),
        Control::Ignore
    );
}

#[test]
fn a_phase_of_no_seconds_ends_at_once() {
    let none: Vec<Poll> = Vec::new();
    assert_eq!(
        run_timer(PhaseLabel::Focus, 0, &none),
        Some(TimerOutcome { elapsed_seconds: 0, quit: false })
    );
    assert_eq!(
        run_timer(PhaseLabel::Rest, 0, &vec![typed('q', true)]),
        Some(TimerOutcome { elapsed_seconds: 0, quit: false })
    );
}

#[test]
fn an_undisturbed_phase_runs_to_its_end() {
    for total in [1u64, 2, 5, 60] {
        let mut script = Vec::new();
        for _ in 0..total {
            script.push(idle());
            script.push(second());
            script.push(typed('x', false));
        }
        assert_eq!(
            run_timer(PhaseLabel::Focus, total, &script),
            Some(TimerOutcome { elapsed_seconds: total, quit: false })
        );
    }
}

#[test]
fn a_phase_is_not_over_before_its_last_second() {
    let script = vec![second(), idle(), second()];
    assert_eq!(run_timer(PhaseLabel::Focus, 3, &script), None);
}

#[test]
fn a_quit_reports_the_seconds_elapsed_so_far() {
    let total = 10u64;
    for k in 0..total {
        let mut script = Vec::new();
        for _ in 0..k {
            script.push(second());
            script.push(idle());
        }
        script.push(typed('q', false));
        script.push(second());
        assert_eq!(
            run_timer(PhaseLabel::Focus, total, &script),
            Some(TimerOutcome { elapsed_seconds: k, quit: true })
        );
    }
}

#[test]
fn a_second_due_in_the_round_of_the_quit_counts() {
    let script = vec![second(), typed('Q', true)];
    assert_eq!(
        run_timer(PhaseLabel::Rest, 5, &script),
        Some(TimerOutcome { elapsed_seconds: 2, quit: true })
    );
}

#[test]
fn the_last_second_wins_over_a_quit_in_the_same_round() {
    let script = vec![typed('q', true)];
    assert_eq!(
        run_timer(PhaseLabel::Focus, 1, &script),
        Some(TimerOutcome { elapsed_seconds: 1, quit: false })
    );
}

#[test]
fn a_pause_holds_the_countdown() {
    let mut script = vec![second(), typed('p', false)];
    for _ in 0..50 {
        script.push(second());
    }
    script.push(typed('q', true));
    assert_eq!(
        run_timer(PhaseLabel::Focus, 3, &script),
        Some(TimerOutcome { elapsed_seconds: 1, quit: true })
    );
}

#[test]
fn resuming_goes_on_from_where_the_pause_began() {
    let mut script = vec![second(), typed('p', false)];
    for _ in 0..7 {
        script.push(second());
    }
    script.push(typed('P', false));
    script.push(second());
    script.push(second());
    assert_eq!(
        run_timer(PhaseLabel::Focus, 3, &script),
        Some(TimerOutcome { elapsed_seconds: 3, quit: false })
    );
}

#[test]
fn an_even_number_of_toggles_changes_nothing() {
    let mut phase = TimerPhase::new(PhaseLabel::Focus, 9);
    phase.tick(true);
    for _ in 0..6 {
        assert_eq!(phase.tick(false).outcome, None);
        assert_eq!(phase.input(key('p')), None);
    }
    assert_eq!(phase.remaining_seconds(), 8);
    assert_eq!(phase.elapsed_seconds(), 1);
    assert!(!phase.is_paused());
}

#[test]
fn tick_counts_a_second_only_when_due_and_not_paused() {
    let mut phase = TimerPhase::new(PhaseLabel::Focus, 2);
    assert_eq!(phase.total_seconds(), 2);
    assert_eq!(phase.label(), PhaseLabel::Focus);
    assert_eq!(phase.tick(false), Tick { restart_second: false, outcome: None });
    assert_eq!(phase.remaining_seconds(), 2);
    assert_eq!(phase.tick(true), Tick { restart_second: true, outcome: None });
    assert_eq!(phase.remaining_seconds(), 1);
    assert_eq!(phase.elapsed_seconds(), 1);
    assert_eq!(phase.input(key('p')), None);
    assert!(phase.is_paused());
    assert_eq!(phase.tick(false), Tick { restart_second: true, outcome: None });
    assert_eq!(phase.tick(true), Tick { restart_second: true, outcome: None });
    assert_eq!(phase.remaining_seconds(), 1);
    assert_eq!(phase.input(key('p')), None);
    assert_eq!(
        phase.tick(true),
        Tick {
            restart_second: true,
            outcome: Some(TimerOutcome { elapsed_seconds: 2, quit: false })
        }
    );
    assert_eq!(phase.remaining_seconds(), 0);
}

#[test]
fn a_quit_leaves_the_countdown_as_it_was() {
    let mut phase = TimerPhase::new(PhaseLabel::Rest, 4);
    phase.tick(true);
    assert_eq!(
        phase.input(Some(Input::Key { code: Key::Esc, press: true })),
        Some(TimerOutcome { elapsed_seconds: 1, quit: true })
    );
    assert_eq!(phase.remaining_seconds(), 3);
    assert_eq!(phase.elapsed_seconds(), 1);
}

#[test]
fn labels_have_their_names() {
    assert_eq!(PhaseLabel::Focus.name(), "Focus");
    assert_eq!(PhaseLabel::Rest.name(), "Rest");
}

#[test]
fn render_without_colour_shows_the_plain_glyph() {
    colored::control::set_override(false);
    let mut phase = TimerPhase::new(PhaseLabel::Focus, 65);
    assert_eq!(phase.render(), "\r\x1B[2K⠋ Focus remaining: 01:05");
    phase.input(None);
    assert_eq!(phase.render(), "\r\x1B[2K⠙ Focus remaining: 01:05");
    phase.input(key('p'));
    assert_eq!(phase.render(), "\r\x1B[2K⏸ Focus remaining: 01:05");
}

#[test]
fn render_in_colour_paints_each_frame() {
    colored::control::set_override(true);
    let codes = ["31", "35", "33", "32", "36", "34", "35", "30", "90", "91"];
    let glyphs = ["⠋", "⠙", "⠹", "⠸", "⠼", "⠴", "⠦", "⠧", "⠇", "⠏"];
    let mut phase = TimerPhase::new(PhaseLabel::Rest, 5);
    for round in 0..20 {
        let expected = format!(
            "\r\x1B[2K\x1B[{}m{}\x1B[0m Rest remaining: 00:05",
            codes[round % 10],
            glyphs[round % 10]
        );
        assert_eq!(phase.render(), expected);
        phase.input(None);
    }
}

#[test]
fn render_in_colour_paints_the_pause_sign_bold() {
    colored::control::set_override(true);
    let mut phase = TimerPhase::new(PhaseLabel::Focus, 600);
    phase.input(key('p'));
    assert_eq!(phase.render(), "\r\x1B[2K\x1B[1;33m⏸\x1B[0m Focus remaining: 10:00");
}
