use pomo::display::{clock_text, push_decimal, push_two_digits, status_bar, status_line};

#[test]
fn decimal_agrees_with_std() {
    for n in [0u64, 1, 9, 10, 11, 99, 100, 12345, u64::MAX] {
        let mut out = String::from("x");
        push_decimal(&mut out, n);
        assert_eq!(out, format!("x{}", n));
    }
}

#[test]
fn two_digits_pads_with_a_zero() {
    for n in [0u64, 5, 9, 10, 59, 100, 4321] {
        let mut out = String::new();
        push_two_digits(&mut out, n);
        assert_eq!(out, format!("{:02}", n));
    }
}

#[test]
fn clock_shows_minutes_and_seconds() {
    assert_eq!(clock_text(0), "00:00");
    assert_eq!(clock_text(1), "00:01");
    assert_eq!(clock_text(59), "00:59");
    assert_eq!(clock_text(60), "01:00");
    assert_eq!(clock_text(1500), "25:00");
    assert_eq!(clock_text(5999), "99:59");
    assert_eq!(clock_text(6000), "100:00");
    assert_eq!(clock_text(u64::MAX), format!("{:02}:{:02}", u64::MAX / 60, u64::MAX % 60));
}

#[test]
fn status_line_is_laid_out_as_the_terminal_expects() {
    assert_eq!(status_line("*", "Focus", 65), "\r\x1B[2K* Focus remaining: 01:05");
    assert_eq!(status_line("", "Rest", 0), "\r\x1B[2K Rest remaining: 00:00");
}

#[test]
fn status_bar_fills_from_the_left() {
    assert_eq!(status_bar(0), "░".repeat(30));
    assert_eq!(status_bar(30), "█".repeat(30));
    assert_eq!(status_bar(7), "█".repeat(7) + &"░".repeat(23));
}
