//! Absolute mode: a time expression that names a time of day, such as
//! `18:30`, counted down to from the current time of day.

use vstd::prelude::*;
use crate::error::ParseFailure;
use crate::fields::{
    all_fields_unsigned, field_values, lemma_split_nonempty, parse_fields, saturated,
    split_fields, unsigned_value,
};

verus! {

/// The seconds of one day.
pub const SECONDS_PER_DAY: u32 = 86_400;

/// A time of day on the local wall clock, to the second. The hour is below
/// 24, the minute and the second are below 60.
#[derive(Clone, Copy, Debug, PartialEq, Eq)]
pub struct ClockTime {
    hour: u32,
    minute: u32,
    second: u32,
}

impl ClockTime {
    /// The hour, as a number.
    pub closed spec fn spec_hour(self) -> nat {
        self.hour as nat
    }

    /// The minute, as a number.
    pub closed spec fn spec_minute(self) -> nat {
        self.minute as nat
    }

    /// The second, as a number.
    pub closed spec fn spec_second(self) -> nat {
        self.second as nat
    }

    /// Every clock time that executable code holds is within the ranges.
    #[verifier::type_invariant]
    pub open spec fn well_formed(self) -> bool {
        self.spec_hour() < 24 && self.spec_minute() < 60 && self.spec_second() < 60
    }

    /// The seconds from midnight to this time.
    pub open spec fn spec_seconds_of_day(self) -> nat {
        self.spec_hour() * 3600 + self.spec_minute() * 60 + self.spec_second()
    }

    /// The clock time `hour:minute:second`, if each part is within its range.
    pub fn new(hour: u32, minute: u32, second: u32) -> (time: Option<ClockTime>)
        ensures
            time is Some <==> hour < 24 && minute < 60 && second < 60,
            time matches Some(t) ==> t.spec_hour() == hour && t.spec_minute() == minute
                && t.spec_second() == second && t.well_formed(),
    {
        if hour < 24 && minute < 60 && second < 60 {
            Some(ClockTime { hour, minute, second })
        } else {
            None
        }
    }

    /// The hour, 0 to 23.
    pub fn hour(&self) -> (hour: u32)
        ensures
            hour == self.spec_hour(),
            hour < 24,
    {
        proof {
            use_type_invariant(self);
        }
        self.hour
    }

    /// The minute, 0 to 59.
    pub fn minute(&self) -> (minute: u32)
        ensures
            minute == self.spec_minute(),
            minute < 60,
    {
        proof {
            use_type_invariant(self);
        }
        self.minute
    }

    /// The second, 0 to 59.
    pub fn second(&self) -> (second: u32)
        ensures
            second == self.spec_second(),
            second < 60,
    {
        proof {
            use_type_invariant(self);
        }
        self.second
    }

    /// The seconds from midnight to this time.
    pub fn seconds_of_day(&self) -> (seconds: u32)
        ensures
            seconds == self.spec_seconds_of_day(),
            seconds < SECONDS_PER_DAY,
    {
        proof {
            use_type_invariant(self);
        }
        self.hour * 3600 + self.minute * 60 + self.second
    }

    /// The seconds from this time to the nearest coming `target`: today's if
    /// the target is not yet past, tomorrow's if it is. A target equal to
    /// this time is reached at once.
    pub fn seconds_until(&self, target: &ClockTime) -> (seconds: u32)
        ensures
            seconds == seconds_between(self.spec_seconds_of_day(), target.spec_seconds_of_day()),
            seconds < SECONDS_PER_DAY,
    {
        let now = self.seconds_of_day();
        let then = target.seconds_of_day();
        if then >= now {
            then - now
        } else {
            then + SECONDS_PER_DAY - now
        }
    }
}

/// The seconds from `now` to the nearest coming `target`, both counted from
/// midnight: the difference where the target is not yet past, and the
/// difference plus one day where it is.
pub open spec fn seconds_between(now: nat, target: nat) -> nat {
    if target >= now {
        (target - now) as nat
    } else {
        (target + SECONDS_PER_DAY - now) as nat
    }
}

/// Whether every value fits in 32 bits.
pub open spec fn all_fit_32_bits(values: Seq<nat>) -> bool {
    forall|i: int| 0 <= i < values.len() ==> #[trigger] values[i] <= u32::MAX
}

/// The hour, minute and second that a clock-time expression names: its
/// first three fields, a missing minute or second being 0. Every field is
/// read as an unsigned number of 32 bits: an optional `+`, then one or more
/// ASCII digits; a minus sign is refused, before zeros too. `None` where a
/// field is no such number or one of the three is out of its range (hour 0
/// to 23, minute and second 0 to 59). Fields after the third must be such
/// numbers and say nothing else.
pub open spec fn clock_target(text: Seq<char>) -> Option<(nat, nat, nat)> {
    let fields = split_fields(text);
    let values = field_values(fields);
    let hour = values[0];
    let minute = if values.len() > 1 {
        values[1]
    } else {
        0
    };
    let second = if values.len() > 2 {
        values[2]
    } else {
        0
    };
    if all_fields_unsigned(fields) && all_fit_32_bits(values) && hour < 24 && minute < 60
        && second < 60 {
        Some((hour, minute, second))
    } else {
        None
    }
}

/// A clock-time expression with a minus sign at the head of any field names
/// no time of day, whatever follows the sign.
pub proof fn lemma_clock_refuses_minus(text: Seq<char>, i: int)
    requires
        0 <= i < split_fields(text).len(),
        split_fields(text)[i].len() > 0,
        split_fields(text)[i][0] == '-',
    ensures
        clock_target(text) is None,
{
    assert(unsigned_value(split_fields(text)[i]) is None);
}

/// What a clock-time expression means at the time of day `now`: the seconds
/// until the nearest coming occurrence of the time it names. The seconds are
/// counted on the face of the clock: from the hour, minute and second of
/// `now` to those of the target, as if every day had 86 400 seconds.
pub open spec fn until_seconds(text: Seq<char>, now: ClockTime) -> Result<u32, ParseFailure> {
    match clock_target(text) {
        None => Err(ParseFailure::InvalidClockField),
        Some((hour, minute, second)) => Ok(
            seconds_between(now.spec_seconds_of_day(), hour * 3600 + minute * 60 + second) as u32,
        ),
    }
}

/// For every time of day `now` and every expression that names a time of
/// day: a target strictly after `now` is `target - now` seconds away, with no
/// day added; a target strictly before `now` is `target + 1 day - now`
/// seconds away; the current second itself is 0 seconds away.
pub proof fn lemma_until_today_or_tomorrow(text: Seq<char>, now: ClockTime)
    requires
        now.well_formed(),
        clock_target(text) is Some,
    ensures
        ({
            let (hour, minute, second) = clock_target(text).unwrap();
            let target = hour * 3600 + minute * 60 + second;
            let current = now.spec_seconds_of_day();
            &&& target > current ==> until_seconds(text, now) == Ok::<u32, ParseFailure>(
                (target - current) as u32,
            )
            &&& target < current ==> until_seconds(text, now) == Ok::<u32, ParseFailure>(
                (target + 86_400 - current) as u32,
            )
            &&& target == current ==> until_seconds(text, now) == Ok::<u32, ParseFailure>(0u32)
            &&& until_seconds(text, now) matches Ok(seconds) && seconds < 86_400
        }),
{
}

/// Reads a clock-time expression: hour, then minute, then second, each an
/// unsigned number.
pub fn parse_clock_time(text: &str) -> (time: Option<ClockTime>)
    ensures
        time is Some <==> clock_target(text@) is Some,
        time matches Some(t) ==> clock_target(text@) == Some(
            (t.spec_hour(), t.spec_minute(), t.spec_second()),
        ) && t.well_formed(),
{
    match parse_fields(text, false) {
        None => None,
        Some(values) => {
            proof {
                lemma_split_nonempty(text@);
            }
            let ghost exact = field_values(split_fields(text@));
            let mut i: usize = 0;
            while i < values.len()
                invariant
                    i <= values.len(),
                    exact == field_values(split_fields(text@)),
                    values@.len() == exact.len(),
                    forall|k: int| 0 <= k < values@.len() ==> values@[k] == saturated(exact[k]),
                    forall|k: int| 0 <= k < i ==> #[trigger] exact[k] <= u32::MAX,
                decreases values.len() - i,
            {
                if values[i] > u32::MAX as u128 {
                    assert(exact[i as int] > u32::MAX);
                    return None;
                }
                i = i + 1;
            }
            let hour = values[0];
            let minute = if values.len() > 1 {
                values[1]
            } else {
                0
            };
            let second = if values.len() > 2 {
                values[2]
            } else {
                0
            };
            if hour < 24 && minute < 60 && second < 60 {
                ClockTime::new(hour as u32, minute as u32, second as u32)
            } else {
                None
            }
        },
    }
}

/// The seconds from the time of day `now` to the nearest coming occurrence
/// of the clock time that `target_time` names.
///
/// The wait is counted on the face of the clock, from the hour, minute and
/// second of `now` alone; no date and no time zone enter. On a day on which
/// the zone's offset from UTC changes between `now` and the target, the
/// seconds that really pass differ from the result by the size of that
/// change, and a time of day that such a day skips or has twice is taken as
/// any other.
pub fn get_seconds_until_time(target_time: &str, now: ClockTime) -> (seconds: Result<
    u32,
    ParseFailure,
>)
    ensures
        seconds == until_seconds(target_time@, now),
        seconds matches Ok(s) ==> s < SECONDS_PER_DAY,
{
    match parse_clock_time(target_time) {
        None => Err(ParseFailure::InvalidClockField),
        Some(target) => Ok(now.seconds_until(&target)),
    }
}

} // verus!
