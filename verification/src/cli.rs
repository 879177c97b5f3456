//! The command line, once its arguments are taken apart.

use vstd::prelude::*;
use crate::clock::{get_seconds_until_time, until_seconds, ClockTime};
use crate::error::ErrorKind;
use crate::plan::{CountdownPlan, PlanView};
use crate::relative::{get_seconds_from_mixed_format, relative_seconds};

verus! {

/// The arguments of the command line.
#[derive(Clone, Debug, PartialEq, Eq)]
pub struct Cli {
    /// Whether every line goes to the console too.
    pub verbose: bool,
    /// The file that holds the latest line; `./time.txt` where none is
    /// given.
    pub file: Option<String>,
    /// The seconds between two ticks.
    pub step: usize,
    /// The text before the remaining time; empty where none is given.
    pub prefix: Option<String>,
    /// The line that ends the countdown; empty where none is given.
    pub ending: Option<String>,
    /// The time expression.
    pub time_in: String,
    /// Whether the time expression names a time of day to count down to,
    /// and not a duration.
    pub until: bool,
}

/// The arguments as plain values.
pub struct CliView {
    pub verbose: bool,
    pub file: Option<Seq<char>>,
    pub step: nat,
    pub prefix: Option<Seq<char>>,
    pub ending: Option<Seq<char>>,
    pub time_in: Seq<char>,
    pub until: bool,
}

/// The text of an argument that may be missing.
pub open spec fn text_of(argument: Option<String>) -> Option<Seq<char>> {
    match argument {
        Some(text) => Some(text@),
        None => None,
    }
}

impl View for Cli {
    type V = CliView;

    open spec fn view(&self) -> CliView {
        CliView {
            verbose: self.verbose,
            file: text_of(self.file),
            step: self.step as nat,
            prefix: text_of(self.prefix),
            ending: text_of(self.ending),
            time_in: self.time_in@,
            until: self.until,
        }
    }
}

/// `argument`, or `default` where it is missing.
pub open spec fn given_or(argument: Option<Seq<char>>, default: Seq<char>) -> Seq<char> {
    match argument {
        Some(text) => text,
        None => default,
    }
}

/// The plan that the arguments stand for at the time of day `now`, or why
/// they stand for none. The time expression is read as a time of day where
/// `until` is set and as a duration where it is not; a rejected expression
/// is told before a step of zero.
pub open spec fn cli_plan(cli: CliView, now: ClockTime) -> Result<PlanView, ErrorKind> {
    let seconds = if cli.until {
        until_seconds(cli.time_in, now)
    } else {
        relative_seconds(cli.time_in)
    };
    match seconds {
        Err(failure) => Err(ErrorKind::Parse(failure)),
        Ok(total) => if cli.step == 0 {
            Err(ErrorKind::ZeroStep)
        } else {
            Ok(
                PlanView {
                    total_seconds: total as nat,
                    prefix: given_or(cli.prefix, Seq::<char>::empty()),
                    ending: given_or(cli.ending, Seq::<char>::empty()),
                    step: cli.step,
                    filepath: given_or(cli.file, "./time.txt"@),
                    verbose: cli.verbose,
                },
            )
        },
    }
}

/// The text of `argument`, or `default` where it is missing.
fn argument_or(argument: Option<String>, default: &str) -> (text: String)
    ensures
        text@ == given_or(text_of(argument), default@),
{
    match argument {
        Some(text) => text,
        None => default.to_owned(),
    }
}

impl Cli {
    /// The plan that the arguments stand for at the time of day `now`.
    pub fn into_plan(self, now: ClockTime) -> (plan: Result<CountdownPlan, ErrorKind>)
        ensures
            plan is Ok <==> cli_plan(self@, now) is Ok,
            plan matches Ok(p) ==> Ok::<PlanView, ErrorKind>(p@) == cli_plan(self@, now),
            plan matches Err(e) ==> Err::<PlanView, ErrorKind>(e) == cli_plan(self@, now),
    {
        let seconds = if self.until {
            get_seconds_until_time(self.time_in.as_str(), now)
        } else {
            get_seconds_from_mixed_format(self.time_in.as_str())
        };
        match seconds {
            Err(failure) => Err(ErrorKind::Parse(failure)),
            Ok(total) => {
                let prefix = argument_or(self.prefix, "");
                let ending = argument_or(self.ending, "");
                let filepath = argument_or(self.file, "./time.txt");
                proof {
                    reveal_strlit("");
                    assert(""@ =~= Seq::<char>::empty());
                }
                CountdownPlan::new(total, prefix, ending, self.step, filepath, self.verbose)
            },
        }
    }
}

} // verus!
