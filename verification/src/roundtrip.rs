//! What the formatter writes, the parsers read.

use vstd::prelude::*;
use crate::clock::clock_target;
use crate::digits::{lemma_two_digits_read_back, two_digits};
use crate::error::ParseFailure;
use crate::fields::{join_fields, lemma_split_join};
use crate::format::formatted;
use crate::relative::{
    lemma_digit_run_is_field, lemma_relative_seconds_up_to_three_fields, relative_seconds,
};

verus! {

/// The display form of a count of seconds that is not negative and fits in
/// 32 bits reads back, as a relative time expression, as that count.
pub proof fn lemma_formatted_reads_back(seconds: nat)
    requires
        seconds <= u32::MAX,
    ensures
        relative_seconds(formatted(seconds as int)) == Ok::<u32, ParseFailure>(seconds as u32),
{
    reveal_with_fuel(join_fields, 4);
    let minutes = seconds / 60;
    let second = two_digits((seconds % 60) as int);
    lemma_two_digits_read_back(seconds % 60);
    if minutes > 59 {
        let hour = two_digits((seconds / 3600) as int);
        let minute = two_digits((minutes % 60) as int);
        lemma_two_digits_read_back(seconds / 3600);
        lemma_two_digits_read_back(minutes % 60);
        let fields = seq![hour, minute, second];
        assert(join_fields(fields) =~= formatted(seconds as int));
        assert(seconds == 3600 * (seconds / 3600) + 60 * (minutes % 60) + seconds % 60);
        lemma_relative_seconds_up_to_three_fields(fields);
    } else {
        let minute = two_digits(minutes as int);
        lemma_two_digits_read_back(minutes);
        let fields = seq![minute, second];
        assert(fields.drop_last() =~= seq![minute]);
        assert(join_fields(fields) =~= formatted(seconds as int));
        lemma_relative_seconds_up_to_three_fields(fields);
    }
}

/// A time of day written as `HH:MM:SS`, each part to a width of two, names
/// that time of day.
pub proof fn lemma_clock_text_names_its_time(hour: nat, minute: nat, second: nat)
    requires
        hour < 24,
        minute < 60,
        second < 60,
    ensures
        clock_target(
            two_digits(hour as int) + seq![':'] + two_digits(minute as int) + seq![':']
                + two_digits(second as int),
        ) == Some((hour, minute, second)),
{
    reveal_with_fuel(join_fields, 4);
    let fields = seq![
        two_digits(hour as int),
        two_digits(minute as int),
        two_digits(second as int),
    ];
    lemma_two_digits_read_back(hour);
    lemma_two_digits_read_back(minute);
    lemma_two_digits_read_back(second);
    assert forall|i: int| 0 <= i < fields.len() implies !(#[trigger] fields[i]).contains(':') by {
        lemma_digit_run_is_field(fields[i]);
    }
    lemma_digit_run_is_field(fields[0]);
    lemma_digit_run_is_field(fields[1]);
    lemma_digit_run_is_field(fields[2]);
    lemma_split_join(fields);
    assert(join_fields(fields) =~= fields[0] + seq![':'] + fields[1] + seq![':'] + fields[2]);
}

} // verus!
