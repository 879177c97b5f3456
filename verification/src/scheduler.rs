//! The countdown as a state machine. The machine does no I/O: it is told
//! what happened (a clock reading, the outcome of a write) and answers with
//! what to do next (write a line, wait, stop).

use vstd::prelude::*;
use crate::error::ErrorKind;
use crate::format::{format_time, format_time_spaced, formatted, without_colons};
use crate::input::{text_or, text_or_default};
use crate::plan::{CountdownPlan, PlanView};

verus! {

/// Where a run stands.
#[derive(Clone, Copy, Debug, PartialEq, Eq, Structural)]
pub enum Phase {
    /// Running: the next clock reading decides between a tick and the end.
    Ticking,
    /// Running: a tick's line is being written.
    Emitting,
    /// Running: the ending line is being written.
    Finishing,
    /// The ending line was written; the run is over.
    Completed,
}

impl Phase {
    /// Whether the run is under way: every phase but the completed one.
    pub open spec fn spec_is_running(self) -> bool {
        self != Phase::Completed
    }

    /// Whether the run is under way.
    pub fn is_running(&self) -> (running: bool)
        ensures
            running == self.spec_is_running(),
    {
        match self {
            Phase::Completed => false,
            _ => true,
        }
    }
}

/// What the machine is told.
#[derive(Debug, PartialEq, Eq)]
pub enum Event {
    /// The wall clock was read: `now` seconds since the epoch.
    Clock { now: i64 },
    /// The line was written to the file.
    Written,
    /// The line could not be written to the file, for this reason.
    SinkWriteFailure { reason: String },
}

/// An event as plain values.
pub enum EventView {
    Clock { now: int },
    Written,
    SinkWriteFailure { reason: Seq<char> },
}

impl View for Event {
    type V = EventView;

    open spec fn view(&self) -> EventView {
        match *self {
            Event::Clock { now } => EventView::Clock { now: now as int },
            Event::Written => EventView::Written,
            Event::SinkWriteFailure { reason } => EventView::SinkWriteFailure { reason: reason@ },
        }
    }
}

/// What the machine asks for.
#[derive(Debug, PartialEq, Eq)]
pub enum Action {
    /// Replace the content of the plan's file by `line`, then tell the
    /// outcome.
    Write { line: String },
    /// Print the `console` lines, wait for `seconds`, then tell the time.
    Wait { console: Vec<String>, seconds: u64 },
    /// Print the `console` lines; the run is over.
    Stop { console: Vec<String> },
}

/// An action as plain values.
pub enum ActionView {
    Write { line: Seq<char> },
    Wait { console: Seq<Seq<char>>, seconds: nat },
    Stop { console: Seq<Seq<char>> },
}

/// The texts of `lines`.
pub open spec fn texts(lines: Seq<String>) -> Seq<Seq<char>> {
    lines.map_values(|line: String| line@)
}

impl View for Action {
    type V = ActionView;

    open spec fn view(&self) -> ActionView {
        match *self {
            Action::Write { line } => ActionView::Write { line: line@ },
            Action::Wait { console, seconds } => ActionView::Wait {
                console: texts(console@),
                seconds: seconds as nat,
            },
            Action::Stop { console } => ActionView::Stop { console: texts(console@) },
        }
    }
}

/// What changes from tick to tick.
#[derive(Clone, Copy, Debug, PartialEq, Eq)]
pub struct TickState {
    remaining_seconds: i64,
    end_instant: i64,
    spaced: bool,
}

/// One run of a countdown.
#[derive(Debug, PartialEq, Eq)]
pub struct Countdown {
    plan: CountdownPlan,
    tick: TickState,
    phase: Phase,
}

/// A run as plain values.
pub struct RunView {
    /// The plan of the run.
    pub plan: PlanView,
    /// The seconds that the next tick shows. Below zero once a step has
    /// gone past the end.
    pub remaining: int,
    /// The instant at which the run ends, in seconds since the epoch.
    pub end: int,
    /// Whether a window shows the tick at hand with spaces in place of the
    /// colons of the time: on every other tick, not on the first.
    pub spaced: bool,
    /// Where the run stands.
    pub phase: Phase,
}

impl View for Countdown {
    type V = RunView;

    closed spec fn view(&self) -> RunView {
        RunView {
            plan: self.plan@,
            remaining: self.tick.remaining_seconds as int,
            end: self.tick.end_instant as int,
            spaced: self.tick.spaced,
            phase: self.phase,
        }
    }
}

/// The line of a tick: the prefix, one space, and the remaining time.
pub open spec fn tick_line(prefix: Seq<char>, remaining: int) -> Seq<char> {
    prefix + seq![' '] + formatted(remaining)
}

/// What a window shows for a run. While the run ticks: the line of the tick
/// at hand, with the colons of the time blinking, that is with a space in
/// place of each on every other tick; the prefix keeps its colons. From the
/// ending line on: the ending line, or `CountMeDown` where that is empty.
/// The file and the console never get the blinking form.
pub open spec fn window_text(run: RunView) -> Seq<char> {
    match run.phase {
        Phase::Ticking | Phase::Emitting => if run.spaced {
            run.plan.prefix + seq![' '] + without_colons(formatted(run.remaining))
        } else {
            tick_line(run.plan.prefix, run.remaining)
        },
        Phase::Finishing | Phase::Completed => text_or(run.plan.ending, "CountMeDown"@),
    }
}

/// What goes to the console after `line` was handed to the file: the reason
/// of a failed write first, then `line` itself where the plan is verbose.
pub open spec fn console_lines(line: Seq<char>, verbose: bool, outcome: EventView) -> Seq<
    Seq<char>,
> {
    let report = match outcome {
        EventView::SinkWriteFailure { reason } => seq![reason],
        _ => Seq::<Seq<char>>::empty(),
    };
    if verbose {
        report.push(line)
    } else {
        report
    }
}

/// `remaining` less one step, held at the least 64-bit number.
pub open spec fn stepped(remaining: int, step: nat) -> int {
    if remaining - step < i64::MIN {
        i64::MIN as int
    } else {
        remaining - step
    }
}

/// The run that starts at the instant `now`, or why none starts: the end
/// instant, `now` plus the plan's seconds, must be a 64-bit number of
/// seconds.
pub open spec fn started(plan: PlanView, now: int) -> Result<RunView, ErrorKind> {
    if now + plan.total_seconds > i64::MAX {
        Err(ErrorKind::TimeOverflow)
    } else {
        Ok(
            RunView {
                plan,
                remaining: plan.total_seconds as int,
                end: now + plan.total_seconds,
                spaced: false,
                phase: Phase::Ticking,
            },
        )
    }
}

/// The machine: the run after `event`, and the action asked for.
///
/// While ticking, a clock reading before the end starts a tick: its line is
/// written. A reading at or after the end starts the finish: the ending line
/// is written, once, whatever it holds. The outcome of a write, failed or
/// not, closes the tick (the remaining time drops by one step, the blinking
/// of the window turns over, and the machine waits for one step) or the run.
/// An event that the phase does not await changes nothing, and the action of
/// the phase is asked for again.
pub open spec fn respond(run: RunView, event: EventView) -> (RunView, ActionView) {
    match run.phase {
        Phase::Ticking => match event {
            EventView::Clock { now } => if now < run.end {
                (
                    RunView { phase: Phase::Emitting, ..run },
                    ActionView::Write { line: tick_line(run.plan.prefix, run.remaining) },
                )
            } else {
                (
                    RunView { phase: Phase::Finishing, ..run },
                    ActionView::Write { line: run.plan.ending },
                )
            },
            _ => (run, ActionView::Wait { console: Seq::<Seq<char>>::empty(), seconds: 0 }),
        },
        Phase::Emitting => match event {
            EventView::Clock { .. } => (
                run,
                ActionView::Write { line: tick_line(run.plan.prefix, run.remaining) },
            ),
            _ => (
                RunView {
                    phase: Phase::Ticking,
                    remaining: stepped(run.remaining, run.plan.step),
                    spaced: !run.spaced,
                    ..run
                },
                ActionView::Wait {
                    console: console_lines(
                        tick_line(run.plan.prefix, run.remaining),
                        run.plan.verbose,
                        event,
                    ),
                    seconds: run.plan.step,
                },
            ),
        },
        Phase::Finishing => match event {
            EventView::Clock { .. } => (run, ActionView::Write { line: run.plan.ending }),
            _ => (
                RunView { phase: Phase::Completed, ..run },
                ActionView::Stop {
                    console: console_lines(run.plan.ending, run.plan.verbose, event),
                },
            ),
        },
        Phase::Completed => (run, ActionView::Stop { console: Seq::<Seq<char>>::empty() }),
    }
}

/// The console lines after `line` was handed to the file with `outcome`.
fn console_for(line: String, verbose: bool, outcome: Event) -> (console: Vec<String>)
    requires
        !(outcome is Clock),
    ensures
        texts(console@) == console_lines(line@, verbose, outcome@),
{
    let mut console: Vec<String> = Vec::new();
    match outcome {
        Event::SinkWriteFailure { reason } => {
            console.push(reason);
        },
        _ => {},
    }
    if verbose {
        console.push(line);
    }
    console
}

impl Countdown {
    /// Starts a run of `plan` at the instant `now`, in seconds since the
    /// epoch. Nothing is emitted yet.
    pub fn start(plan: CountdownPlan, now: i64) -> (run: Result<Countdown, ErrorKind>)
        ensures
            run is Ok <==> started(plan@, now as int) is Ok,
            run matches Ok(r) ==> Ok::<RunView, ErrorKind>(r@) == started(plan@, now as int),
            run matches Err(e) ==> Err::<RunView, ErrorKind>(e) == started(plan@, now as int),
    {
        let total = plan.total_seconds();
        match now.checked_add(total as i64) {
            None => Err(ErrorKind::TimeOverflow),
            Some(end) => Ok(
                Countdown {
                    plan,
                    tick: TickState {
                        remaining_seconds: total as i64,
                        end_instant: end,
                        spaced: false,
                    },
                    phase: Phase::Ticking,
                },
            ),
        }
    }

    /// The plan of this run.
    pub fn plan(&self) -> (plan: &CountdownPlan)
        ensures
            plan@ == self@.plan,
    {
        &self.plan
    }

    /// The seconds that the next tick shows.
    pub fn remaining_seconds(&self) -> (remaining: i64)
        ensures
            remaining == self@.remaining,
    {
        self.tick.remaining_seconds
    }

    /// The instant at which the run ends, in seconds since the epoch.
    pub fn end_instant(&self) -> (end: i64)
        ensures
            end == self@.end,
    {
        self.tick.end_instant
    }

    /// What a window shows for this run now.
    pub fn window_line(&self) -> (line: String)
        ensures
            line@ == window_text(self@),
    {
        match self.phase {
            Phase::Ticking | Phase::Emitting => {
                if self.tick.spaced {
                    let mut line = self.plan.prefix().to_owned();
                    line.append(" ");
                    let time = format_time_spaced(self.tick.remaining_seconds);
                    line.append(time.as_str());
                    proof {
                        reveal_strlit(" ");
                        assert(" "@ =~= seq![' ']);
                    }
                    line
                } else {
                    self.line()
                }
            },
            Phase::Finishing | Phase::Completed => text_or_default(
                self.plan.ending(),
                "CountMeDown",
            ),
        }
    }

    /// Where the run stands.
    pub fn phase(&self) -> (phase: Phase)
        ensures
            phase == self@.phase,
    {
        self.phase
    }

    /// Whether the run is over.
    pub fn is_completed(&self) -> (completed: bool)
        ensures
            completed == (self@.phase == Phase::Completed),
    {
        match self.phase {
            Phase::Completed => true,
            _ => false,
        }
    }

    /// The line of the tick at hand.
    fn line(&self) -> (line: String)
        ensures
            line@ == tick_line(self@.plan.prefix, self@.remaining),
    {
        let mut line = self.plan.prefix().to_owned();
        line.append(" ");
        let time = format_time(self.tick.remaining_seconds);
        line.append(time.as_str());
        proof {
            reveal_strlit(" ");
        }
        line
    }

    /// Tells the machine what happened, and learns what to do next.
    pub fn handle(&mut self, event: Event) -> (action: Action)
        ensures
            final(self)@ == respond(old(self)@, event@).0,
            action@ == respond(old(self)@, event@).1,
    {
        match self.phase {
            Phase::Ticking => match event {
                Event::Clock { now } => {
                    if now < self.tick.end_instant {
                        let line = self.line();
                        self.phase = Phase::Emitting;
                        Action::Write { line }
                    } else {
                        self.phase = Phase::Finishing;
                        Action::Write { line: self.plan.ending().to_owned() }
                    }
                },
                _ => {
                    let console: Vec<String> = Vec::new();
                    assert(texts(console@) =~= Seq::<Seq<char>>::empty());
                    Action::Wait { console, seconds: 0 }
                },
            },
            Phase::Emitting => match event {
                Event::Clock { .. } => Action::Write { line: self.line() },
                outcome => {
                    let line = self.line();
                    let step = self.plan.step();
                    let console = console_for(line, self.plan.verbose(), outcome);
                    let next = self.tick.remaining_seconds as i128 - step as i128;
                    self.tick.remaining_seconds = if next < i64::MIN as i128 {
                        i64::MIN
                    } else {
                        next as i64
                    };
                    self.tick.spaced = !self.tick.spaced;
                    self.phase = Phase::Ticking;
                    Action::Wait { console, seconds: step as u64 }
                },
            },
            Phase::Finishing => match event {
                Event::Clock { .. } => Action::Write { line: self.plan.ending().to_owned() },
                outcome => {
                    let line = self.plan.ending().to_owned();
                    let console = console_for(line, self.plan.verbose(), outcome);
                    self.phase = Phase::Completed;
                    Action::Stop { console }
                },
            },
            Phase::Completed => {
                let console: Vec<String> = Vec::new();
                assert(texts(console@) =~= Seq::<Seq<char>>::empty());
                Action::Stop { console }
            },
        }
    }
}

} // verus!
