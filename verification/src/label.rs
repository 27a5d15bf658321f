//! The texts that show a time: `MM:SS`, and the label of a timer.

use crate::duration::truncated_quotient;
use crate::duration::truncated_remainder;
use vstd::prelude::*;
use vstd::string::StringExecFns;

verus! {

/// The character of one decimal digit.
pub open spec fn digit(d: int) -> char {
    if d == 0 {
        '0'
    } else if d == 1 {
        '1'
    } else if d == 2 {
        '2'
    } else if d == 3 {
        '3'
    } else if d == 4 {
        '4'
    } else if d == 5 {
        '5'
    } else if d == 6 {
        '6'
    } else if d == 7 {
        '7'
    } else if d == 8 {
        '8'
    } else {
        '9'
    }
}

/// The decimal digits of a natural number, without leading zeros.
pub open spec fn digits(n: nat) -> Seq<char>
    decreases n,
{
    if n < 10 {
        seq![digit(n as int)]
    } else {
        digits(n / 10).push(digit((n % 10) as int))
    }
}

/// An integer in decimal, with a minus sign before a negative one.
pub open spec fn decimal(n: int) -> Seq<char> {
    if n < 0 {
        seq!['-'] + digits((-n) as nat)
    } else {
        digits(n as nat)
    }
}

/// A text made two characters wide: one shorter than that gets zeros in
/// front, a longer one stays as it is.
pub open spec fn two_wide(text: Seq<char>) -> Seq<char> {
    if text.len() >= 2 {
        text
    } else {
        Seq::new((2 - text.len()) as nat, |i: int| '0') + text
    }
}

/// A number of seconds as minutes and seconds, each at least two characters
/// wide, with a colon between them. The minutes are not carried into hours.
pub open spec fn clock_text(seconds: int) -> Seq<char> {
    two_wide(decimal(truncated_quotient(seconds, 60))) + seq![':'] + two_wide(
        decimal(truncated_remainder(seconds, 60)),
    )
}

/// The label of a timer: the time gone, a slash, the length, and the time
/// left in brackets.
pub open spec fn timer_label_text(elapsed: int, remaining: int, length: int) -> Seq<char> {
    clock_text(elapsed) + seq!['/'] + clock_text(length) + seq![' ', '('] + clock_text(remaining)
        + seq![')']
}

/// A number has one digit if it is less than ten, and more if it is not.
proof fn lemma_digits_len(n: nat)
    ensures
        digits(n).len() >= 1,
        digits(n).len() == 1 <==> n < 10,
    decreases n,
{
    if n >= 10 {
        lemma_digits_len(n / 10);
    }
}

/// The text of one decimal digit.
fn digit_text(d: u128) -> (text: &'static str)
    requires
        d < 10,
    ensures
        text@ == seq![digit(d as int)],
{
    proof {
        reveal_strlit("0");
        reveal_strlit("1");
        reveal_strlit("2");
        reveal_strlit("3");
        reveal_strlit("4");
        reveal_strlit("5");
        reveal_strlit("6");
        reveal_strlit("7");
        reveal_strlit("8");
        reveal_strlit("9");
    }
    match d {
        0 => "0",
        1 => "1",
        2 => "2",
        3 => "3",
        4 => "4",
        5 => "5",
        6 => "6",
        7 => "7",
        8 => "8",
        _ => "9",
    }
}

/// Adds the decimal digits of `n` to the end of `text`.
fn append_digits(text: &mut String, n: u128)
    ensures
        final(text)@ == old(text)@ + digits(n as nat),
    decreases n,
{
    if n >= 10 {
        append_digits(text, n / 10);
    }
    text.append(digit_text(n % 10));
}

/// Adds `n` in decimal to the end of `text`.
fn append_decimal(text: &mut String, n: i128)
    ensures
        final(text)@ == old(text)@ + decimal(n as int),
{
    if n < 0 {
        proof {
            reveal_strlit("-");
        }
        text.append("-");
        let magnitude: u128 = if n == i128::MIN {
            i128::MAX as u128 + 1
        } else {
            (-n) as u128
        };
        append_digits(text, magnitude);
    } else {
        append_digits(text, n as u128);
    }
}

/// Adds `n` in decimal, at least two characters wide, to the end of `text`.
fn append_two_wide(text: &mut String, n: i128)
    ensures
        final(text)@ == old(text)@ + two_wide(decimal(n as int)),
{
    proof {
        lemma_digits_len(if n < 0 {
            (-n) as nat
        } else {
            n as nat
        });
    }
    if 0 <= n && n < 10 {
        proof {
            reveal_strlit("0");
        }
        text.append("0");
    }
    append_decimal(text, n);
}

/// Adds `seconds` as minutes and seconds to the end of `text`.
fn append_clock(text: &mut String, seconds: i128)
    ensures
        final(text)@ == old(text)@ + clock_text(seconds as int),
{
    let remaining_minutes = seconds / 60;
    let remaining_seconds = seconds % 60;
    append_two_wide(text, remaining_minutes);
    proof {
        reveal_strlit(":");
    }
    text.append(":");
    append_two_wide(text, remaining_seconds);
}

/// Writes a number of seconds as minutes and seconds, `MM:SS`. Each part
/// is at least two characters wide; the minutes are not carried into hours.
pub fn format_seconds(seconds: i128) -> (text: String)
    ensures
        text@ == clock_text(seconds as int),
{
    let mut text = String::new();
    append_clock(&mut text, seconds);
    text
}

/// Writes the label of a timer: `gone/length (left)`, each a time as
/// `format_seconds` writes it.
pub fn build_timer_label(time_elapsed: i128, time_remaining: i128, timer_length: i128) -> (label:
    String)
    ensures
        label@ == timer_label_text(
            time_elapsed as int,
            time_remaining as int,
            timer_length as int,
        ),
{
    let mut label = String::new();
    append_clock(&mut label, time_elapsed);
    proof {
        reveal_strlit("/");
        reveal_strlit(" (");
        reveal_strlit(")");
    }
    label.append("/");
    append_clock(&mut label, timer_length);
    label.append(" (");
    append_clock(&mut label, time_remaining);
    label.append(")");
    label
}

} // verus!
