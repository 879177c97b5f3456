//! The display form of a count of seconds: `MM:SS` below one hour, and
//! `HH:MM:SS` from one hour on.

use vstd::prelude::*;
use crate::digits::{decimal, is_digit, lemma_decimal_reads_back, push_two_digits, two_digits};

verus! {

/// `a / b` rounded toward zero, as the machine divides signed integers.
pub open spec fn truncated_div(a: int, b: int) -> int
    recommends
        b > 0,
{
    if a >= 0 {
        a / b
    } else {
        -((-a) / b)
    }
}

/// The remainder that goes with [`truncated_div`]: it has the sign of `a`.
pub open spec fn truncated_rem(a: int, b: int) -> int
    recommends
        b > 0,
{
    if a >= 0 {
        a % b
    } else {
        -((-a) % b)
    }
}

/// The display form of `seconds`. With `minutes` the whole minutes, rounded
/// toward zero: where `minutes` is beyond 59 in either direction, the form is
/// hours, minutes within the hour and seconds within the minute; else it is
/// `minutes` and seconds within the minute. Each part is written by
/// [`two_digits`], and parts are joined by colons. For a negative count every
/// part that is not zero is negative and carries its own minus sign.
pub open spec fn formatted(seconds: int) -> Seq<char> {
    let minutes = truncated_div(seconds, 60);
    let seconds_part = truncated_rem(seconds, 60);
    if minutes > 59 || minutes < -59 {
        two_digits(truncated_div(seconds, 3600)) + seq![':'] + two_digits(
            truncated_rem(minutes, 60),
        ) + seq![':'] + two_digits(seconds_part)
    } else {
        two_digits(minutes) + seq![':'] + two_digits(seconds_part)
    }
}

/// `text` with a space in place of each colon.
pub open spec fn without_colons(text: Seq<char>) -> Seq<char> {
    text.map_values(
        |c: char|
            if c == ':' {
                ' '
            } else {
                c
            },
    )
}

/// The parts of the display form of `seconds`, joined by `separator`.
pub open spec fn joined_parts(seconds: int, separator: Seq<char>) -> Seq<char> {
    let minutes = truncated_div(seconds, 60);
    let seconds_part = truncated_rem(seconds, 60);
    if minutes > 59 || minutes < -59 {
        two_digits(truncated_div(seconds, 3600)) + separator + two_digits(
            truncated_rem(minutes, 60),
        ) + separator + two_digits(seconds_part)
    } else {
        two_digits(minutes) + separator + two_digits(seconds_part)
    }
}

/// No part of a display form holds a colon or a space.
pub proof fn lemma_part_is_plain(v: int)
    ensures
        forall|i: int|
            0 <= i < two_digits(v).len() ==> (#[trigger] two_digits(v)[i]) != ':' && two_digits(
                v,
            )[i] != ' ',
        without_colons(two_digits(v)) == two_digits(v),
{
    let part = two_digits(v);
    if v < 0 {
        lemma_decimal_reads_back((-v) as nat);
        assert forall|i: int| 0 <= i < part.len() implies (#[trigger] part[i]) != ':' && part[i]
            != ' ' by {
            if i > 0 {
                assert(is_digit(decimal((-v) as nat)[i - 1]));
            }
        }
    } else if v >= 10 {
        lemma_decimal_reads_back(v as nat);
        assert forall|i: int| 0 <= i < part.len() implies (#[trigger] part[i]) != ':' && part[i]
            != ' ' by {
            assert(is_digit(decimal(v as nat)[i]));
        }
    }
    assert(without_colons(part) =~= part);
}

/// The display form with a space in place of each colon is the parts joined
/// by spaces, and the display form itself is the parts joined by colons.
pub proof fn lemma_spaced_form(seconds: int)
    ensures
        formatted(seconds) == joined_parts(seconds, seq![':']),
        without_colons(formatted(seconds)) == joined_parts(seconds, seq![' ']),
{
    let minutes = truncated_div(seconds, 60);
    lemma_part_is_plain(truncated_div(seconds, 3600));
    lemma_part_is_plain(truncated_rem(minutes, 60));
    lemma_part_is_plain(minutes);
    lemma_part_is_plain(truncated_rem(seconds, 60));
    assert(without_colons(formatted(seconds)) =~= joined_parts(seconds, seq![' ']));
}

/// The parts of the display form of `secs`, joined by `separator`.
fn format_with(secs: i64, separator: &str) -> (text: String)
    ensures
        text@ == joined_parts(secs as int, separator@),
{
    let minutes = secs / 60;
    let seconds_part = secs % 60;
    let mut text = String::new();
    if minutes > 59 || minutes < -59 {
        push_two_digits(&mut text, secs / 3600);
        text.append(separator);
        push_two_digits(&mut text, minutes % 60);
        text.append(separator);
        push_two_digits(&mut text, seconds_part);
    } else {
        push_two_digits(&mut text, minutes);
        text.append(separator);
        push_two_digits(&mut text, seconds_part);
    }
    text
}

/// Formats a count of seconds for display.
pub fn format_time(secs: i64) -> (text: String)
    ensures
        text@ == formatted(secs as int),
{
    proof {
        reveal_strlit(":");
        assert(":"@ =~= seq![':']);
        lemma_spaced_form(secs as int);
    }
    format_with(secs, ":")
}

/// Formats a count of seconds for display, with a space in place of each
/// colon.
pub fn format_time_spaced(secs: i64) -> (text: String)
    ensures
        text@ == without_colons(formatted(secs as int)),
{
    proof {
        reveal_strlit(" ");
        assert(" "@ =~= seq![' ']);
        lemma_spaced_form(secs as int);
    }
    format_with(secs, " ")
}

} // verus!
