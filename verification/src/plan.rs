//! The plan of one countdown: what to count, how often to tick, and where
//! the lines go.

use vstd::prelude::*;
use crate::error::ErrorKind;

verus! {

/// The plan of one countdown. It is made once and never changes. The step is
/// at least one second.
#[derive(Debug, PartialEq, Eq)]
pub struct CountdownPlan {
    total_seconds: u32,
    prefix: String,
    ending: String,
    step: usize,
    filepath: String,
    verbose: bool,
}

/// A plan as plain values.
pub struct PlanView {
    /// The seconds to count down.
    pub total_seconds: nat,
    /// The text before the remaining time in every tick's line.
    pub prefix: Seq<char>,
    /// The line that ends the countdown.
    pub ending: Seq<char>,
    /// The seconds between two ticks, and what each tick takes off.
    pub step: nat,
    /// The file that holds the latest line.
    pub filepath: Seq<char>,
    /// Whether every line goes to the console too.
    pub verbose: bool,
}

impl View for CountdownPlan {
    type V = PlanView;

    closed spec fn view(&self) -> PlanView {
        PlanView {
            total_seconds: self.total_seconds as nat,
            prefix: self.prefix@,
            ending: self.ending@,
            step: self.step as nat,
            filepath: self.filepath@,
            verbose: self.verbose,
        }
    }
}

impl CountdownPlan {
    /// Every plan that executable code holds has a step of at least one.
    #[verifier::type_invariant]
    pub open spec fn well_formed(self) -> bool {
        self@.step >= 1 && self@.step <= usize::MAX && self@.total_seconds <= u32::MAX
    }

    /// The plan of these six parts. A step of zero is refused, and nothing
    /// else is.
    pub fn new(
        total_seconds: u32,
        prefix: String,
        ending: String,
        step: usize,
        filepath: String,
        verbose: bool,
    ) -> (plan: Result<CountdownPlan, ErrorKind>)
        ensures
            step == 0 ==> plan == Err::<CountdownPlan, ErrorKind>(ErrorKind::ZeroStep),
            step != 0 ==> plan is Ok && plan.unwrap()@ == (PlanView {
                total_seconds: total_seconds as nat,
                prefix: prefix@,
                ending: ending@,
                step: step as nat,
                filepath: filepath@,
                verbose,
            }) && plan.unwrap().well_formed(),
    {
        if step == 0 {
            Err(ErrorKind::ZeroStep)
        } else {
            Ok(CountdownPlan { total_seconds, prefix, ending, step, filepath, verbose })
        }
    }

    /// The seconds to count down.
    pub fn total_seconds(&self) -> (seconds: u32)
        ensures
            seconds == self@.total_seconds,
    {
        self.total_seconds
    }

    /// The text before the remaining time in every tick's line.
    pub fn prefix(&self) -> (prefix: &str)
        ensures
            prefix@ == self@.prefix,
    {
        self.prefix.as_str()
    }

    /// The line that ends the countdown.
    pub fn ending(&self) -> (ending: &str)
        ensures
            ending@ == self@.ending,
    {
        self.ending.as_str()
    }

    /// The seconds between two ticks; at least one.
    pub fn step(&self) -> (step: usize)
        ensures
            step == self@.step,
            step >= 1,
    {
        proof {
            use_type_invariant(self);
        }
        self.step
    }

    /// The file that holds the latest line.
    pub fn filepath(&self) -> (filepath: &str)
        ensures
            filepath@ == self@.filepath,
    {
        self.filepath.as_str()
    }

    /// Whether every line goes to the console too.
    pub fn verbose(&self) -> (verbose: bool)
        ensures
            verbose == self@.verbose,
    {
        self.verbose
    }
}

} // verus!
