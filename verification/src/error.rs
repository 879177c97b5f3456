//! The ways in which a countdown can fail before it starts.

use vstd::prelude::*;

verus! {

/// Why a time expression was rejected.
#[derive(Clone, Copy, Debug, PartialEq, Eq, Structural)]
pub enum ParseFailure {
    /// A field of a duration is not a non-negative number.
    InvalidNumber,
    /// A field of a clock time is not an unsigned number, or is out of its
    /// range (hour 0 to 23, minute and second 0 to 59).
    InvalidClockField,
    /// The duration does not fit in 32 bits of seconds.
    Overflow,
}

/// Why no countdown was started.
#[derive(Clone, Copy, Debug, PartialEq, Eq, Structural)]
pub enum ErrorKind {
    /// The time expression was rejected.
    Parse(ParseFailure),
    /// The step between two ticks is zero.
    ZeroStep,
    /// The instant at which the countdown would end cannot be represented.
    TimeOverflow,
}

impl ErrorKind {
    /// The message that tells a user of this error.
    pub open spec fn spec_message(self) -> Seq<char> {
        match self {
            ErrorKind::Parse(ParseFailure::InvalidNumber) => {
                "the time must be numbers separated by colons"@
            },
            ErrorKind::Parse(ParseFailure::InvalidClockField) => {
                "the time of day must be an hour (0-23), optionally with a minute and a second (0-59)"@
            },
            ErrorKind::Parse(ParseFailure::Overflow) => "the time is too long"@,
            ErrorKind::ZeroStep => "the step must be at least one second"@,
            ErrorKind::TimeOverflow => "the end of the countdown is out of range"@,
        }
    }

    /// The message that tells a user of this error.
    pub fn message(&self) -> (text: String)
        ensures
            text@ == self.spec_message(),
    {
        let text = match self {
            ErrorKind::Parse(ParseFailure::InvalidNumber) => {
                "the time must be numbers separated by colons"
            },
            ErrorKind::Parse(ParseFailure::InvalidClockField) => {
                "the time of day must be an hour (0-23), optionally with a minute and a second (0-59)"
            },
            ErrorKind::Parse(ParseFailure::Overflow) => "the time is too long",
            ErrorKind::ZeroStep => "the step must be at least one second",
            ErrorKind::TimeOverflow => "the end of the countdown is out of range",
        };
        text.to_owned()
    }
}

} // verus!
