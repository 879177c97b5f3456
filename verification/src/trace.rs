//! What a run writes over time, stated over the machine of the scheduler.

use vstd::prelude::*;
use crate::plan::PlanView;
use crate::scheduler::{
    console_lines, respond, started, tick_line, ActionView, EventView, Phase, RunView,
};
use crate::error::ErrorKind;

verus! {

/// Whether `event` is the outcome of a write.
pub open spec fn is_outcome(event: EventView) -> bool {
    !(event is Clock)
}

/// The run after one whole tick: the clock reads `now`, then the write ends
/// with `outcome`.
pub open spec fn after_tick(run: RunView, now: int, outcome: EventView) -> RunView {
    respond(respond(run, EventView::Clock { now }).0, outcome).0
}

/// The run after `ticks` whole ticks under a clock that is read at `start`
/// and then once every step, the write of tick `i` ending with
/// `outcomes(i)`.
pub open spec fn after_ticks(
    run: RunView,
    start: int,
    ticks: nat,
    outcomes: spec_fn(nat) -> EventView,
) -> RunView
    decreases ticks,
{
    if ticks == 0 {
        run
    } else {
        let earlier = (ticks - 1) as nat;
        after_tick(
            after_ticks(run, start, earlier, outcomes),
            start + earlier * run.plan.step,
            outcomes(earlier),
        )
    }
}

/// A write that fails steers the run as one that succeeds: the next state
/// is the same, and the action is the same but for the reason of the
/// failure, which goes to the console first. So a failing sink never ends a
/// run, and never holds back a tick or the ending line.
pub proof fn lemma_failed_write_changes_no_state(run: RunView, reason: Seq<char>)
    ensures
        respond(run, EventView::SinkWriteFailure { reason }).0 == respond(
            run,
            EventView::Written,
        ).0,
        respond(run, EventView::Written).1 is Write ==> respond(
            run,
            EventView::SinkWriteFailure { reason },
        ).1 == respond(run, EventView::Written).1,
        respond(run, EventView::Written).1 matches ActionView::Wait { console, seconds }
            ==> respond(run, EventView::SinkWriteFailure { reason }).1 == (ActionView::Wait {
            console: if run.phase == Phase::Emitting {
                seq![reason] + console
            } else {
                console
            },
            seconds,
        }),
        respond(run, EventView::Written).1 matches ActionView::Stop { console } ==> respond(
            run,
            EventView::SinkWriteFailure { reason },
        ).1 == (ActionView::Stop {
            console: if run.phase == Phase::Finishing {
                seq![reason] + console
            } else {
                console
            },
        }),
{
    match run.phase {
        Phase::Emitting => {
            let line = tick_line(run.plan.prefix, run.remaining);
            assert(console_lines(line, run.plan.verbose, EventView::SinkWriteFailure { reason })
                =~= seq![reason] + console_lines(line, run.plan.verbose, EventView::Written));
        },
        Phase::Finishing => {
            let line = run.plan.ending;
            assert(console_lines(line, run.plan.verbose, EventView::SinkWriteFailure { reason })
                =~= seq![reason] + console_lines(line, run.plan.verbose, EventView::Written));
        },
        _ => {},
    }
}

/// The ending line is written once: a completed run stays completed and
/// asks for no write, whatever it is told.
pub proof fn lemma_completed_is_final(run: RunView, event: EventView)
    requires
        run.phase == Phase::Completed,
    ensures
        respond(run, event).0 == run,
        respond(run, event).1 == (ActionView::Stop { console: Seq::<Seq<char>>::empty() }),
{
}

/// Under a clock that is read at the start and then once every step, tick
/// number `tick` (the first is number 0) takes place as long as `tick`
/// steps are less than the plan's seconds; it writes the prefix and the
/// remaining time `total - tick * step`, and leaves the run ticking,
/// whatever the outcomes of the writes. A window shows the ticks of odd
/// number with spaces in place of the colons of the time.
pub proof fn lemma_tick_under_even_clock(
    plan: PlanView,
    start: int,
    tick: nat,
    outcomes: spec_fn(nat) -> EventView,
)
    requires
        plan.step >= 1,
        started(plan, start) is Ok,
        forall|i: nat| is_outcome(#[trigger] outcomes(i)),
        tick * plan.step < plan.total_seconds,
    ensures
        ({
            let run = started(plan, start).unwrap();
            let before = after_ticks(run, start, tick, outcomes);
            let now = start + tick * plan.step;
            &&& before == RunView {
                remaining: plan.total_seconds - tick * plan.step,
                spaced: tick % 2 == 1,
                ..run
            }
            &&& respond(before, EventView::Clock { now }).1 == (ActionView::Write {
                line: tick_line(plan.prefix, plan.total_seconds - tick * plan.step),
            })
            &&& after_ticks(run, start, tick + 1, outcomes).phase == Phase::Ticking
            &&& after_ticks(run, start, tick + 1, outcomes).end == run.end
            &&& after_ticks(run, start, tick + 1, outcomes).plan == plan
        }),
    decreases tick,
{
    let step = plan.step as int;
    if tick == 0 {
        assert(tick * step == 0) by (nonlinear_arith)
            requires
                tick == 0,
        ;
    } else {
        let earlier = (tick - 1) as nat;
        assert(tick * step == earlier * step + step) by (nonlinear_arith)
            requires
                tick == earlier + 1,
        ;
        lemma_tick_under_even_clock(plan, start, earlier, outcomes);
    }
}

/// Under the same clock the run ends after exactly as many ticks as steps
/// are needed to cover the plan's seconds: at the first reading that is no
/// longer before the end, the ending line is written, and its outcome,
/// whatever it is, completes the run.
pub proof fn lemma_end_under_even_clock(
    plan: PlanView,
    start: int,
    ticks: nat,
    outcomes: spec_fn(nat) -> EventView,
    last: EventView,
)
    requires
        plan.step >= 1,
        started(plan, start) is Ok,
        forall|i: nat| is_outcome(#[trigger] outcomes(i)),
        is_outcome(last),
        ticks * plan.step >= plan.total_seconds,
        ticks == 0 || (ticks - 1) * plan.step < plan.total_seconds,
    ensures
        ({
            let run = started(plan, start).unwrap();
            let before = after_ticks(run, start, ticks, outcomes);
            let finishing = respond(before, EventView::Clock { now: start + ticks * plan.step });
            &&& before.phase == Phase::Ticking
            &&& finishing.1 == (ActionView::Write { line: plan.ending })
            &&& respond(finishing.0, last).0.phase == Phase::Completed
            &&& respond(finishing.0, last).1 == (ActionView::Stop {
                console: console_lines(plan.ending, plan.verbose, last),
            })
        }),
{
    if ticks > 0 {
        lemma_tick_under_even_clock(plan, start, (ticks - 1) as nat, outcomes);
    }
}

/// No run starts where the end instant is out of range, and one starts
/// everywhere else.
pub proof fn lemma_start_fails_only_on_overflow(plan: PlanView, start: int)
    ensures
        started(plan, start) == Err::<RunView, ErrorKind>(ErrorKind::TimeOverflow) <==> start
            + plan.total_seconds > i64::MAX,
        started(plan, start) is Ok <==> start + plan.total_seconds <= i64::MAX,
{
}

} // verus!
