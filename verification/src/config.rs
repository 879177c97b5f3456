//! The configuration record: the five settings that are kept between runs.

use vstd::prelude::*;
use crate::error::{ErrorKind, ParseFailure};
use crate::input::{get_texts, parse_step, step_of, text_or};
use crate::plan::{CountdownPlan, PlanView};
use crate::relative::{get_seconds_from_mixed_format, relative_seconds};

verus! {

/// The settings of a countdown as they are entered and stored.
#[derive(Clone, Debug, PartialEq, Eq)]
pub struct RustMeDownConfig {
    time_in: String,
    prefix: String,
    ending: String,
    step: usize,
    filepath: String,
}

/// A configuration record as plain values.
pub struct ConfigView {
    /// The duration, as a relative time expression.
    pub time_in: Seq<char>,
    /// The text before the remaining time.
    pub prefix: Seq<char>,
    /// The line that ends the countdown.
    pub ending: Seq<char>,
    /// The seconds between two ticks.
    pub step: nat,
    /// The file that holds the latest line.
    pub filepath: Seq<char>,
}

impl View for RustMeDownConfig {
    type V = ConfigView;

    closed spec fn view(&self) -> ConfigView {
        ConfigView {
            time_in: self.time_in@,
            prefix: self.prefix@,
            ending: self.ending@,
            step: self.step as nat,
            filepath: self.filepath@,
        }
    }
}

/// The five fields of a record, in the order of [`RustMeDownConfig::new`].
pub open spec fn fields_of(config: ConfigView) -> (
    Seq<char>,
    Seq<char>,
    Seq<char>,
    nat,
    Seq<char>,
) {
    (config.time_in, config.prefix, config.ending, config.step, config.filepath)
}

/// The record of five fields.
pub open spec fn record_of(
    fields: (Seq<char>, Seq<char>, Seq<char>, nat, Seq<char>),
) -> ConfigView {
    ConfigView {
        time_in: fields.0,
        prefix: fields.1,
        ending: fields.2,
        step: fields.3,
        filepath: fields.4,
    }
}

/// The plan that a record stands for, or why it stands for none: the time
/// must be a relative time expression, and the step must not be zero. The
/// time is looked at first.
pub open spec fn planned(config: ConfigView, verbose: bool) -> Result<PlanView, ErrorKind> {
    match relative_seconds(config.time_in) {
        Err(failure) => Err(ErrorKind::Parse(failure)),
        Ok(seconds) => if config.step == 0 {
            Err(ErrorKind::ZeroStep)
        } else {
            Ok(
                PlanView {
                    total_seconds: seconds as nat,
                    prefix: config.prefix,
                    ending: config.ending,
                    step: config.step,
                    filepath: config.filepath,
                    verbose,
                },
            )
        },
    }
}

/// Making a record of five fields and taking the five fields out of it
/// gives the same five fields: nothing is lost, added or changed.
pub proof fn lemma_record_round_trip(
    time_in: Seq<char>,
    prefix: Seq<char>,
    ending: Seq<char>,
    step: nat,
    filepath: Seq<char>,
)
    ensures
        fields_of(record_of((time_in, prefix, ending, step, filepath))) == (
            time_in,
            prefix,
            ending,
            step,
            filepath,
        ),
{
}

/// Taking the five fields out of a record and making a record of them
/// gives the same record.
pub proof fn lemma_fields_round_trip(config: ConfigView)
    ensures
        record_of(fields_of(config)) == config,
{
}

impl RustMeDownConfig {
    /// The record of these five fields.
    pub fn new(
        time_in: String,
        prefix: String,
        ending: String,
        step: usize,
        filepath: String,
    ) -> (config: RustMeDownConfig)
        ensures
            config@ == record_of((time_in@, prefix@, ending@, step as nat, filepath@)),
    {
        RustMeDownConfig { time_in, prefix, ending, step, filepath }
    }

    /// The five fields of the record, as they were given to
    /// [`RustMeDownConfig::new`].
    pub fn into_parts(self) -> (parts: (String, String, String, usize, String))
        ensures
            (parts.0@, parts.1@, parts.2@, parts.3 as nat, parts.4@) == fields_of(self@),
    {
        (self.time_in, self.prefix, self.ending, self.step, self.filepath)
    }

    /// The settings of a first start: ten minutes, the prefix `Start in:`,
    /// the ending `gleich`, a step of one second, written to `filepath`.
    pub fn with_defaults(filepath: String) -> (config: RustMeDownConfig)
        ensures
            config@ == record_of(("10:00"@, "Start in:"@, "gleich"@, 1nat, filepath@)),
    {
        RustMeDownConfig {
            time_in: "10:00".to_owned(),
            prefix: "Start in:".to_owned(),
            ending: "gleich".to_owned(),
            step: 1,
            filepath,
        }
    }

    /// The record of an input form. An empty time stands for `10:00`, and a
    /// step that is no number for one second.
    pub fn from_form(
        time_text: &str,
        prefix_text: &str,
        ending_text: &str,
        step_text: &str,
        filepath: String,
    ) -> (config: RustMeDownConfig)
        ensures
            config@ == record_of(
                (
                    text_or(time_text@, "10:00"@),
                    prefix_text@,
                    ending_text@,
                    step_of(step_text@),
                    filepath@,
                ),
            ),
    {
        let (time_in, prefix, ending) = get_texts(time_text, prefix_text, ending_text);
        let step = parse_step(step_text);
        RustMeDownConfig { time_in, prefix, ending, step, filepath }
    }

    /// The duration, as a relative time expression.
    pub fn time_in(&self) -> (time_in: &str)
        ensures
            time_in@ == self@.time_in,
    {
        self.time_in.as_str()
    }

    /// The text before the remaining time.
    pub fn prefix(&self) -> (prefix: &str)
        ensures
            prefix@ == self@.prefix,
    {
        self.prefix.as_str()
    }

    /// The line that ends the countdown.
    pub fn ending(&self) -> (ending: &str)
        ensures
            ending@ == self@.ending,
    {
        self.ending.as_str()
    }

    /// The seconds between two ticks.
    pub fn step(&self) -> (step: usize)
        ensures
            step == self@.step,
    {
        self.step
    }

    /// The file that holds the latest line.
    pub fn filepath(&self) -> (filepath: &str)
        ensures
            filepath@ == self@.filepath,
    {
        self.filepath.as_str()
    }

    /// The seconds that the record's time stands for.
    pub fn get_seconds(&self) -> (seconds: Result<u32, ParseFailure>)
        ensures
            seconds == relative_seconds(self@.time_in),
    {
        get_seconds_from_mixed_format(self.time_in.as_str())
    }

    /// The plan that the record stands for.
    pub fn plan(&self, verbose: bool) -> (plan: Result<CountdownPlan, ErrorKind>)
        ensures
            plan is Ok <==> planned(self@, verbose) is Ok,
            plan matches Ok(p) ==> Ok::<PlanView, ErrorKind>(p@) == planned(self@, verbose),
            plan matches Err(e) ==> Err::<PlanView, ErrorKind>(e) == planned(self@, verbose),
    {
        match self.get_seconds() {
            Err(failure) => Err(ErrorKind::Parse(failure)),
            Ok(seconds) => CountdownPlan::new(
                seconds,
                self.prefix.clone(),
                self.ending.clone(),
                self.step,
                self.filepath.clone(),
                verbose,
            ),
        }
    }
}

} // verus!
