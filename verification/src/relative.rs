//! Relative mode: a time expression that denotes a duration, such as
//! `1:02:03` for one hour, two minutes and three seconds.

use vstd::prelude::*;
use vstd::arithmetic::power::pow;
use crate::digits::{all_digits, digits_value, is_digit};
use crate::error::ParseFailure;
use crate::fields::{
    all_fields_numeric, field_value, field_values, join_fields, lemma_split_join, parse_fields,
    saturated, split_fields, FIELD_CAP,
};

verus! {

/// The number written by `values` as base-sixty digits, most significant
/// first: the last value counts once, and each step to the left counts sixty
/// times as much.
pub open spec fn sexagesimal(values: Seq<nat>) -> nat
    decreases values.len(),
{
    if values.len() == 0 {
        0
    } else {
        sexagesimal(values.drop_last()) * 60 + values.last()
    }
}

/// The sum of the values, each times sixty to the power of its position
/// counted from the right, the rightmost position being 0.
pub open spec fn weighted_sum(values: Seq<nat>) -> int
    decreases values.len(),
{
    if values.len() == 0 {
        0
    } else {
        values[0] * pow(60, (values.len() - 1) as nat) + weighted_sum(values.skip(1))
    }
}

/// What a relative time expression means: every field must be numeric, else
/// the expression is an invalid number; the seconds are the fields read as
/// base-sixty digits (seconds, minutes, hours and so on from the right), and
/// must fit in 32 bits.
pub open spec fn relative_seconds(text: Seq<char>) -> Result<u32, ParseFailure> {
    let fields = split_fields(text);
    if !all_fields_numeric(fields) {
        Err(ParseFailure::InvalidNumber)
    } else if sexagesimal(field_values(fields)) > u32::MAX {
        Err(ParseFailure::Overflow)
    } else {
        Ok(sexagesimal(field_values(fields)) as u32)
    }
}

proof fn lemma_weighted_sum_push(values: Seq<nat>, last: nat)
    ensures
        weighted_sum(values.push(last)) == weighted_sum(values) * 60 + last,
    decreases values.len(),
{
    let grown = values.push(last);
    if values.len() == 0 {
        assert(pow(60, 0) == 1) by {
            reveal_with_fuel(pow, 1);
        }
        assert(weighted_sum(grown) == last * pow(60, 0) + weighted_sum(grown.skip(1)));
    } else {
        let rest = values.skip(1);
        assert(grown.skip(1) =~= rest.push(last));
        lemma_weighted_sum_push(rest, last);
        let high = pow(60, (values.len() - 1) as nat);
        assert(pow(60, values.len() as nat) == 60 * high) by {
            reveal_with_fuel(pow, 1);
        }
        let first = values[0] as int;
        assert(first * (60 * high) == (first * high) * 60) by (nonlinear_arith);
    }
}

/// Reading base-sixty digits left to right gives the weighted sum.
pub proof fn lemma_sexagesimal_is_weighted_sum(values: Seq<nat>)
    ensures
        sexagesimal(values) == weighted_sum(values),
    decreases values.len(),
{
    if values.len() > 0 {
        lemma_sexagesimal_is_weighted_sum(values.drop_last());
        lemma_weighted_sum_push(values.drop_last(), values.last());
        assert(values.drop_last().push(values.last()) =~= values);
    }
}

/// A non-empty run of digits is a numeric field, holds no colon, and stands
/// for its decimal value.
pub proof fn lemma_digit_run_is_field(run: Seq<char>)
    requires
        run.len() > 0,
        all_digits(run),
    ensures
        field_value(run) == Some(digits_value(run)),
        !run.contains(':'),
{
    assert forall|k: int| 0 <= k < run.len() implies run[k] != ':' by {
        assert(is_digit(run[k]));
    }
}

/// For every time expression made of one or more non-empty runs of digits
/// joined by colons, the seconds are the sum of the runs' values, each times
/// sixty to the power of its position counted from the right, provided that
/// sum fits in 32 bits.
pub proof fn lemma_relative_seconds_of_digit_fields(fields: Seq<Seq<char>>)
    requires
        fields.len() >= 1,
        forall|i: int|
            0 <= i < fields.len() ==> (#[trigger] fields[i]).len() > 0 && all_digits(fields[i]),
        weighted_sum(fields.map_values(|f: Seq<char>| digits_value(f))) <= u32::MAX,
    ensures
        relative_seconds(join_fields(fields)) == Ok::<u32, ParseFailure>(
            weighted_sum(fields.map_values(|f: Seq<char>| digits_value(f))) as u32,
        ),
{
    assert forall|i: int| 0 <= i < fields.len() implies !(#[trigger] fields[i]).contains(':')
        && field_value(fields[i]) == Some(digits_value(fields[i])) by {
        lemma_digit_run_is_field(fields[i]);
    }
    lemma_split_join(fields);
    let values = fields.map_values(|f: Seq<char>| digits_value(f));
    assert(field_values(fields) =~= values);
    lemma_sexagesimal_is_weighted_sum(values);
}

/// Hours, minutes and seconds written as three runs of digits give
/// `3600 * hours + 60 * minutes + seconds`; minutes and seconds alone give
/// `60 * minutes + seconds`; a single run is seconds.
pub proof fn lemma_relative_seconds_up_to_three_fields(fields: Seq<Seq<char>>)
    requires
        1 <= fields.len() <= 3,
        forall|i: int|
            0 <= i < fields.len() ==> (#[trigger] fields[i]).len() > 0 && all_digits(fields[i]),
    ensures
        fields.len() == 1 && digits_value(fields[0]) <= u32::MAX ==> relative_seconds(
            join_fields(fields),
        ) == Ok::<u32, ParseFailure>(digits_value(fields[0]) as u32),
        fields.len() == 2 && 60 * digits_value(fields[0]) + digits_value(fields[1]) <= u32::MAX
            ==> relative_seconds(join_fields(fields)) == Ok::<u32, ParseFailure>(
            (60 * digits_value(fields[0]) + digits_value(fields[1])) as u32,
        ),
        fields.len() == 3 && 3600 * digits_value(fields[0]) + 60 * digits_value(fields[1])
            + digits_value(fields[2]) <= u32::MAX ==> relative_seconds(join_fields(fields))
            == Ok::<u32, ParseFailure>(
            (3600 * digits_value(fields[0]) + 60 * digits_value(fields[1]) + digits_value(
                fields[2],
            )) as u32,
        ),
{
    let values = fields.map_values(|f: Seq<char>| digits_value(f));
    lemma_sexagesimal_is_weighted_sum(values);
    reveal_with_fuel(sexagesimal, 4);
    if weighted_sum(values) <= u32::MAX {
        lemma_relative_seconds_of_digit_fields(fields);
    }
}

/// Reads a relative time expression: colon-separated numeric fields, taken
/// from the right as seconds, minutes, hours and so on in steps of sixty.
/// A text without a colon is a number of seconds.
pub fn get_seconds_from_mixed_format(input: &str) -> (seconds: Result<u32, ParseFailure>)
    ensures
        seconds == relative_seconds(input@),
{
    match parse_fields(input, true) {
        None => Err(ParseFailure::InvalidNumber),
        Some(values) => {
            let ghost exact = field_values(split_fields(input@));
            let mut total: u128 = 0;
            let mut i: usize = 0;
            while i < values.len()
                invariant
                    i <= values.len(),
                    values@.len() == exact.len(),
                    forall|k: int| 0 <= k < values@.len() ==> values@[k] == saturated(exact[k]),
                    total == saturated(sexagesimal(exact.take(i as int))),
                decreases values.len() - i,
            {
                let value = values[i];
                proof {
                    assert(exact.take(i as int + 1).drop_last() =~= exact.take(i as int));
                }
                total = if total >= FIELD_CAP {
                    FIELD_CAP
                } else if total * 60 + value > FIELD_CAP {
                    FIELD_CAP
                } else {
                    total * 60 + value
                };
                i = i + 1;
            }
            assert(exact.take(i as int) =~= exact);
            if total > u32::MAX as u128 {
                Err(ParseFailure::Overflow)
            } else {
                Ok(total as u32)
            }
        },
    }
}

} // verus!
