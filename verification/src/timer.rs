//! The timer of an interactive front end: idle, or running one countdown.
//! One activation starts it, the next one stops it.

use vstd::prelude::*;
use crate::config::{planned, ConfigView, RustMeDownConfig};
use crate::error::ErrorKind;
use crate::scheduler::{
    respond, started, Action, ActionView, Countdown, Event, EventView, Phase, RunView,
};

verus! {

/// A timer that runs at most one countdown.
#[derive(Debug, PartialEq, Eq)]
pub enum Timer {
    /// No countdown is running.
    Idle,
    /// A countdown is running.
    Running(Countdown),
}

/// A timer as plain values.
pub enum TimerView {
    Idle,
    Running(RunView),
}

impl View for Timer {
    type V = TimerView;

    open spec fn view(&self) -> TimerView {
        match *self {
            Timer::Idle => TimerView::Idle,
            Timer::Running(run) => TimerView::Running(run@),
        }
    }
}

/// The timer after an activation at the instant `now`, and what the
/// activation says. A running timer stops, whatever the record holds. An
/// idle timer starts the countdown that the record stands for; where the
/// record stands for none, or the run cannot start, the timer stays idle
/// and the error is told.
pub open spec fn activated(timer: TimerView, config: ConfigView, verbose: bool, now: int) -> (
    TimerView,
    Result<(), ErrorKind>,
) {
    match timer {
        TimerView::Running(_) => (TimerView::Idle, Ok(())),
        TimerView::Idle => match planned(config, verbose) {
            Err(error) => (TimerView::Idle, Err(error)),
            Ok(plan) => match started(plan, now) {
                Err(error) => (TimerView::Idle, Err(error)),
                Ok(run) => (TimerView::Running(run), Ok(())),
            },
        },
    }
}

/// The timer after `event`, and the action asked for: none while idle; else
/// the action of the run, after which a completed run leaves the timer idle.
pub open spec fn timer_respond(timer: TimerView, event: EventView) -> (
    TimerView,
    Option<ActionView>,
) {
    match timer {
        TimerView::Idle => (TimerView::Idle, None),
        TimerView::Running(run) => {
            let (next, action) = respond(run, event);
            if next.phase == Phase::Completed {
                (TimerView::Idle, Some(action))
            } else {
                (TimerView::Running(next), Some(action))
            }
        },
    }
}

/// Two activations in a row leave an idle timer idle: where the first
/// starts a countdown, the second stops it, whatever record it is given and
/// however soon it comes.
pub proof fn lemma_double_activation_from_idle(
    first: ConfigView,
    second: ConfigView,
    verbose: bool,
    now: int,
    later: int,
)
    requires
        activated(TimerView::Idle, first, verbose, now).1 is Ok,
    ensures
        activated(activated(TimerView::Idle, first, verbose, now).0, second, verbose, later).0
            == TimerView::Idle,
        activated(activated(TimerView::Idle, first, verbose, now).0, second, verbose, later).1
            == Ok::<(), ErrorKind>(()),
{
}

/// An activation of a running timer stops it, and a stopped timer asks for
/// nothing more: no tick and no ending line follow.
pub proof fn lemma_stop_is_silent(
    run: RunView,
    config: ConfigView,
    verbose: bool,
    now: int,
    event: EventView,
)
    ensures
        activated(TimerView::Running(run), config, verbose, now).0 == TimerView::Idle,
        timer_respond(activated(TimerView::Running(run), config, verbose, now).0, event).1
            == None::<ActionView>,
{
}

impl Timer {
    /// An idle timer.
    pub fn new() -> (timer: Timer)
        ensures
            timer@ == TimerView::Idle,
    {
        Timer::Idle
    }

    /// Whether a countdown is running.
    pub fn is_running(&self) -> (running: bool)
        ensures
            running == (self@ is Running),
    {
        match self {
            Timer::Idle => false,
            Timer::Running(_) => true,
        }
    }

    /// The countdown that is running, if one is.
    pub fn countdown(&self) -> (run: Option<&Countdown>)
        ensures
            run is Some <==> self@ is Running,
            run matches Some(r) ==> self@ == TimerView::Running(r@),
    {
        match self {
            Timer::Idle => None,
            Timer::Running(run) => Some(run),
        }
    }

    /// The one entry for the run button: starts the countdown of `config`
    /// at the instant `now` where the timer is idle, and stops the timer
    /// where it is running.
    pub fn activate(&mut self, config: &RustMeDownConfig, verbose: bool, now: i64) -> (outcome:
        Result<(), ErrorKind>)
        ensures
            final(self)@ == activated(old(self)@, config@, verbose, now as int).0,
            outcome == activated(old(self)@, config@, verbose, now as int).1,
    {
        if self.is_running() {
            *self = Timer::Idle;
            return Ok(());
        }
        match config.plan(verbose) {
            Err(error) => Err(error),
            Ok(plan) => match Countdown::start(plan, now) {
                Err(error) => Err(error),
                Ok(run) => {
                    *self = Timer::Running(run);
                    Ok(())
                },
            },
        }
    }

    /// Tells the timer what happened, and learns what to do next.
    pub fn handle(&mut self, event: Event) -> (action: Option<Action>)
        ensures
            final(self)@ == timer_respond(old(self)@, event@).0,
            action is Some <==> timer_respond(old(self)@, event@).1 is Some,
            action matches Some(a) ==> Some(a@) == timer_respond(old(self)@, event@).1,
    {
        let mut current = Timer::Idle;
        std::mem::swap(self, &mut current);
        match current {
            Timer::Idle => None,
            Timer::Running(mut run) => {
                let action = run.handle(event);
                if !run.is_completed() {
                    *self = Timer::Running(run);
                }
                Some(action)
            },
        }
    }
}

} // verus!
