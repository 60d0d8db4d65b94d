//! The status line that a running phase redraws: an indicator, the phase's
//! label and the time that remains.

use colored::Colorize;
use vstd::prelude::*;

verus! {

/// The character that writes the digit `d`.
pub open spec fn digit_char(d: nat) -> char
    recommends
        d < 10,
{
    (48 + d) as u8 as char
}

/// `n` in decimal, without leading zeros.
pub open spec fn decimal(n: nat) -> Seq<char>
    decreases n,
{
    if n < 10 {
        seq![digit_char(n)]
    } else {
        decimal(n / 10).push(digit_char(n % 10))
    }
}

/// `n` in decimal, with a leading zero where it has one digit only.
pub open spec fn two_digits(n: nat) -> Seq<char> {
    if n < 10 {
        seq!['0'] + decimal(n)
    } else {
        decimal(n)
    }
}

/// A number of seconds as minutes and seconds, `MM:SS`.
pub open spec fn clock(seconds: nat) -> Seq<char> {
    two_digits(seconds / 60) + seq![':'] + two_digits(seconds % 60)
}

/// The line that shows `indicator`, the phase's `label` and what remains. It
/// starts by returning to the line's start and clearing the line.
pub open spec fn status_line_spec(indicator: Seq<char>, label: Seq<char>, remaining: nat) -> Seq<
    char,
> {
    seq!['\r', '\x1B', '[', '2', 'K'] + indicator + seq![' '] + label + " remaining: "@ + clock(
        remaining,
    )
}

/// Whether `shown` is `text` as a terminal shows it in colour or without:
/// `text` itself, or `text` between an escape sequence that sets a style and
/// the one that resets it.
pub open spec fn is_painting(shown: Seq<char>, text: Seq<char>) -> bool {
    ||| shown == text
    ||| exists|style: Seq<char>|
        shown == seq!['\x1B', '['] + style + seq!['m'] + text + seq!['\x1B', '[', '0', 'm']
}

/// The width of the bar that shows a project's share of all focus time.
pub const BAR_WIDTH: usize = 30;

/// A bar of `BAR_WIDTH` cells of which the first `filled` are full.
pub open spec fn status_bar_spec(filled: nat) -> Seq<char> {
    Seq::new(BAR_WIDTH as nat, |i: int| if i < filled { '█' } else { '░' })
}

/// The bar that shows a share of `filled` cells out of `BAR_WIDTH`.
pub fn status_bar(filled: usize) -> (out: String)
    requires
        filled <= BAR_WIDTH,
    ensures
        out@ == status_bar_spec(filled as nat),
{
    let mut out = String::new();
    let mut i: usize = 0;
    while i < BAR_WIDTH
        invariant
            i <= BAR_WIDTH,
            out@ == status_bar_spec(filled as nat).take(i as int),
        decreases BAR_WIDTH - i,
    {
        out.push(if i < filled { '█' } else { '░' });
        assert(status_bar_spec(filled as nat).take(i + 1) == status_bar_spec(filled as nat).take(
            i as int,
        ).push(status_bar_spec(filled as nat)[i as int]));
        i += 1;
    }
    assert(status_bar_spec(filled as nat).take(BAR_WIDTH as int) == status_bar_spec(filled as nat));
    out
}

/// Appends `n` in decimal to `out`.
pub fn push_decimal(out: &mut String, n: u64)
    ensures
        final(out)@ == old(out)@ + decimal(n as nat),
    decreases n,
{
    if n >= 10 {
        push_decimal(out, n / 10);
    }
    let d: u8 = (n % 10) as u8;
    out.push((48 + d) as char);
}

/// Appends `n` in decimal to `out`, in two digits at least.
pub fn push_two_digits(out: &mut String, n: u64)
    ensures
        final(out)@ == old(out)@ + two_digits(n as nat),
{
    if n < 10 {
        out.push('0');
    }
    push_decimal(out, n);
}

/// The time that remains, as `MM:SS`.
pub fn clock_text(seconds: u64) -> (out: String)
    ensures
        out@ == clock(seconds as nat),
{
    let mut out = String::new();
    push_two_digits(&mut out, seconds / 60);
    out.push(':');
    push_two_digits(&mut out, seconds % 60);
    out
}

/// The status line for an indicator that is already painted.
pub fn status_line(indicator: &str, label: &str, remaining: u64) -> (out: String)
    ensures
        out@ == status_line_spec(indicator@, label@, remaining as nat),
{
    let mut out = String::new();
    out.push('\r');
    out.push('\x1B');
    out.push('[');
    out.push('2');
    out.push('K');
    out.append(indicator);
    out.push(' ');
    out.append(label);
    out.append(" remaining: ");
    let time = clock_text(remaining);
    out.append(time.as_str());
    out
}

/// Whether `color` is the name of a colour and not a colour written in
/// hexadecimal digits, which begins with `#`.
pub open spec fn is_color_name(color: Seq<char>) -> bool {
    color.len() == 0 || color[0] != '#'
}

/// `colored`'s `Colorize::color` on a string slice, shown through `Display`.
/// Whether the colour is applied depends on the terminal and the environment:
/// the result is the text itself, or the text between the escape sequence of
/// a style and the reset sequence. This is claimed only of a text that holds
/// no escape character, which `colored` would otherwise rewrite. A colour
/// that begins with `#` is left out: `colored` cuts such a colour at fixed
/// places and panics where a place falls inside a character.
#[verifier::external_body]
pub(crate) fn tint(text: &str, color: &str) -> (out: String)
    requires
        is_color_name(color@),
    ensures
        !text@.contains('\x1B') ==> is_painting(out@, text@),
{
    text.color(color).to_string()
}

/// `colored`'s `Colorize::color` followed by `Colorize::bold`, shown through
/// `Display`: as `tint`, with the bold style added where a style is applied,
/// and with the same colours left out.
#[verifier::external_body]
pub(crate) fn tint_bold(text: &str, color: &str) -> (out: String)
    requires
        is_color_name(color@),
    ensures
        !text@.contains('\x1B') ==> is_painting(out@, text@),
{
    text.color(color).bold().to_string()
}

} // verus!
