use pomo::text::{is_cancel, is_white_space, parse_u8, to_ascii_upper, to_chars, to_text, trimmed};

fn chars(s: &str) -> Vec<char> {
    s.chars().collect()
}

#[test]
fn to_chars_matches_std() {
    assert_eq!(to_chars("héllo ⏸"), chars("héllo ⏸"));
    assert_eq!(to_chars(""), Vec::<char>::new());
}

#[test]
fn to_text_takes_the_range() {
    let v = chars("abcdef");
    assert_eq!(to_text(&v, 1, 4), "bcd");
    assert_eq!(to_text(&v, 2, 2), "");
    assert_eq!(to_text(&v, 0, 6), "abcdef");
}

#[test]
fn white_space_agrees_with_std_on_every_char() {
    let mut n: u32 = 0;
    while n <= 0x10FFFF {
        if let Some(c) = char::from_u32(n) {
            assert_eq!(is_white_space(c), c.is_whitespace(), "U+{:04X}", n);
        }
        n += 1;
    }
}

#[test]
fn ascii_upper_agrees_with_std() {
    let mut n: u32 = 0;
    while n <= 0x2FF {
        if let Some(c) = char::from_u32(n) {
            assert_eq!(to_ascii_upper(c), c.to_ascii_uppercase());
        }
        n += 1;
    }
}

#[test]
fn trimmed_agrees_with_std() {
    for s in ["", "   ", " a ", "\t\r\n x y \u{3000}", "abc", "\u{a0}q\u{2028}", " . "] {
        assert_eq!(trimmed(s), chars(s.trim()), "{:?}", s);
    }
}

#[test]
fn cancel_in_any_case_and_with_white_space() {
    assert!(is_cancel("cancel"));
    assert!(is_cancel("  CANCEL\r\n"));
    assert!(is_cancel("CaNcEl"));
    assert!(!is_cancel("cancel it"));
    assert!(!is_cancel("cance"));
    assert!(!is_cancel(""));
    assert!(!is_cancel("c a n c e l"));
}

#[test]
fn parse_u8_agrees_with_std() {
    let cases = [
        "", "+", "-", "0", "7", "+7", "-7", "007", "255", "256", "0255", "00000000000000000001",
        "99999999999999999999999", "1 ", " 1", "1a", "++1", "+-1", "٣", "2.0", "1e1", "+255",
        "+256", "-0",
    ];
    for s in cases {
        assert_eq!(parse_u8(&chars(s)), s.parse::<u8>().ok(), "{:?}", s);
    }
}

#[test]
fn parse_u8_reads_every_value() {
    let mut n: u32 = 0;
    while n < 300 {
        let text = format!("{}", n);
        let expected = if n <= 255 { Some(n as u8) } else { None };
        assert_eq!(parse_u8(&chars(&text)), expected);
        n += 1;
    }
}
