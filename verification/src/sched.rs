//! The mathematical model of the fixed-step accumulator, and its laws.
//!
//! [`SchedulerState`] is the ghost counterpart of the timing fields of
//! [`crate::session::LocalSessionRunner`]; [`sched_next`] and
//! [`sched_decision`] describe one call of its `run_criteria`.  The trace
//! functions fold those transitions over a whole run of calls, which lets the
//! library state its pacing laws: [`lemma_fixed_step_fidelity`] bounds the
//! number of steps fired by the real time that elapsed, and
//! [`lemma_catch_up_abort`] with [`lemma_no_unbounded_catch_up`] show that a
//! catch-up burst can never run away.

use vstd::arithmetic::div_mod::{
    lemma_div_is_ordered,
    lemma_div_pos_is_pos,
    lemma_fundamental_div_mod_converse,
};
use vstd::prelude::*;

use crate::session::{ShouldRun, STEP_MICROS};

verus! {

/// The duration of one logical step as a mathematical integer.
pub open spec fn step_micros() -> int {
    STEP_MICROS as int
}

/// The accumulator's state between two scheduling calls: the time debt not
/// yet paid off by a logical step, and, while a catch-up burst is in
/// progress, the wall-clock reading at which the burst began.
pub ghost struct SchedulerState {
    pub accumulator: int,
    pub loop_start: Option<int>,
}

impl SchedulerState {
    /// The state a fresh runner starts in: no debt, no burst.
    pub open spec fn init() -> SchedulerState {
        SchedulerState { accumulator: 0, loop_start: None }
    }
}

/// One scheduling call, as seen by the scheduler: the frame's real-time delta
/// and the wall-clock reading at the moment of the call, both in microseconds.
pub ghost struct SchedCall {
    pub delta: int,
    pub now: int,
}

/// The time debt visible to this call: the frame delta is added exactly when
/// no catch-up burst is in progress.
pub open spec fn sched_effective(s: SchedulerState, delta: int) -> int {
    if s.loop_start is None {
        s.accumulator + delta
    } else {
        s.accumulator
    }
}

/// When the current burst began: the recorded start, or this very call.
pub open spec fn sched_start(s: SchedulerState, now: int) -> int {
    match s.loop_start {
        Some(st) => st,
        None => now,
    }
}

/// Wall-clock time spent in the current burst, clamped at zero.
pub open spec fn sched_elapsed(s: SchedulerState, now: int) -> int {
    let st = sched_start(s, now);
    if now >= st {
        now - st
    } else {
        0
    }
}

/// Whether this call aborts a catch-up burst: debt for at least one step
/// remains, but the burst has already consumed more wall time than one step.
pub open spec fn sched_is_abort(s: SchedulerState, delta: int, now: int) -> bool {
    sched_effective(s, delta) >= step_micros() && sched_elapsed(s, now) > step_micros()
}

/// The decision one scheduling call returns.
pub open spec fn sched_decision(s: SchedulerState, delta: int, now: int) -> ShouldRun {
    if sched_effective(s, delta) >= step_micros() {
        if sched_elapsed(s, now) > step_micros() {
            ShouldRun::No
        } else {
            ShouldRun::YesAndCheckAgain
        }
    } else {
        ShouldRun::No
    }
}

/// The scheduler state after one scheduling call.
pub open spec fn sched_next(s: SchedulerState, delta: int, now: int) -> SchedulerState {
    let a = sched_effective(s, delta);
    if a >= step_micros() {
        if sched_elapsed(s, now) > step_micros() {
            SchedulerState { accumulator: 0, loop_start: None }
        } else {
            SchedulerState { accumulator: a - step_micros(), loop_start: Some(sched_start(s, now)) }
        }
    } else {
        SchedulerState { accumulator: a, loop_start: None }
    }
}

/// Whether every frame delta of a run is non-negative.
pub open spec fn trace_valid(calls: Seq<SchedCall>) -> bool {
    forall|i: int| 0 <= i < calls.len() ==> #[trigger] calls[i].delta >= 0
}

/// The scheduler state after a whole run of calls.
pub open spec fn trace_final(s: SchedulerState, calls: Seq<SchedCall>) -> SchedulerState
    decreases calls.len(),
{
    if calls.len() == 0 {
        s
    } else {
        trace_final(sched_next(s, calls[0].delta, calls[0].now), calls.drop_first())
    }
}

/// How many calls of the run answered "step now".
pub open spec fn trace_steps(s: SchedulerState, calls: Seq<SchedCall>) -> int
    decreases calls.len(),
{
    if calls.len() == 0 {
        0
    } else {
        (if sched_decision(s, calls[0].delta, calls[0].now) == ShouldRun::YesAndCheckAgain {
            1int
        } else {
            0int
        }) + trace_steps(sched_next(s, calls[0].delta, calls[0].now), calls.drop_first())
    }
}

/// The real time the run added to the debt: each call whose state had no
/// burst in progress contributes its frame delta.
pub open spec fn trace_added(s: SchedulerState, calls: Seq<SchedCall>) -> int
    decreases calls.len(),
{
    if calls.len() == 0 {
        0
    } else {
        (if s.loop_start is None {
            calls[0].delta
        } else {
            0int
        }) + trace_added(sched_next(s, calls[0].delta, calls[0].now), calls.drop_first())
    }
}

/// How many calls of the run aborted a catch-up burst.
pub open spec fn trace_aborts(s: SchedulerState, calls: Seq<SchedCall>) -> int
    decreases calls.len(),
{
    if calls.len() == 0 {
        0
    } else {
        (if sched_is_abort(s, calls[0].delta, calls[0].now) {
            1int
        } else {
            0int
        }) + trace_aborts(sched_next(s, calls[0].delta, calls[0].now), calls.drop_first())
    }
}

/// The decision the scheduler returns at position `i` of a run.
pub open spec fn trace_decision_at(s: SchedulerState, calls: Seq<SchedCall>, i: int) -> ShouldRun {
    sched_decision(trace_final(s, calls.take(i)), calls[i].delta, calls[i].now)
}

/// The ledger every run keeps: debt stays non-negative, and the time paid out
/// as steps plus the debt still held never exceeds the time paid in — with
/// exact balance when no abort discarded debt.
pub proof fn lemma_sched_ledger(s: SchedulerState, calls: Seq<SchedCall>)
    requires
        s.accumulator >= 0,
        trace_valid(calls),
    ensures
        trace_steps(s, calls) >= 0,
        trace_aborts(s, calls) >= 0,
        trace_final(s, calls).accumulator >= 0,
        trace_final(s, calls).accumulator + trace_steps(s, calls) * step_micros() <= s.accumulator
            + trace_added(s, calls),
        trace_aborts(s, calls) == 0 ==> trace_final(s, calls).accumulator + trace_steps(s, calls)
            * step_micros() == s.accumulator + trace_added(s, calls),
    decreases calls.len(),
{
    if calls.len() > 0 {
        let c = calls[0];
        let s1 = sched_next(s, c.delta, c.now);
        let rest = calls.drop_first();
        assert(c.delta >= 0);
        assert(trace_valid(rest)) by {
            assert forall|i: int| 0 <= i < rest.len() implies #[trigger] rest[i].delta >= 0 by {
                assert(rest[i] == calls[i + 1]);
            }
        }
        lemma_sched_ledger(s1, rest);
        let k = trace_steps(s1, rest);
        if sched_decision(s, c.delta, c.now) == ShouldRun::YesAndCheckAgain {
            assert((1 + k) * step_micros() == step_micros() + k * step_micros())
                by (nonlinear_arith);
        }
    }
}

/// Fixed-step fidelity: over any run that starts with no debt, the number of
/// logical steps fired never exceeds the total real time paid in divided by
/// one step; and when no catch-up abort discarded debt and the run ends at a
/// frame boundary (debt below one step), the count is exactly that quotient.
pub proof fn lemma_fixed_step_fidelity(calls: Seq<SchedCall>)
    requires
        trace_valid(calls),
    ensures
        trace_steps(SchedulerState::init(), calls) * step_micros() <= trace_added(
            SchedulerState::init(),
            calls,
        ),
        trace_steps(SchedulerState::init(), calls) <= trace_added(SchedulerState::init(), calls)
            / step_micros(),
        trace_aborts(SchedulerState::init(), calls) == 0 && trace_final(
            SchedulerState::init(),
            calls,
        ).accumulator < step_micros() ==> trace_steps(SchedulerState::init(), calls) == trace_added(
            SchedulerState::init(),
            calls,
        ) / step_micros(),
{
    let s0 = SchedulerState::init();
    lemma_sched_ledger(s0, calls);
    let steps = trace_steps(s0, calls);
    let added = trace_added(s0, calls);
    let fin = trace_final(s0, calls).accumulator;
    lemma_fundamental_div_mod_converse(steps * step_micros(), step_micros(), steps, 0);
    lemma_div_is_ordered(steps * step_micros(), added, step_micros());
    if trace_aborts(s0, calls) == 0 && fin < step_micros() {
        lemma_fundamental_div_mod_converse(added, step_micros(), steps, fin);
    }
}

/// Catch-up abort: once the wall clock spent in a single burst exceeds one
/// step while debt remains, the call declines to step, forces the debt to
/// zero and ends the burst.
pub proof fn lemma_catch_up_abort(s: SchedulerState, delta: int, now: int)
    requires
        sched_effective(s, delta) >= step_micros(),
        sched_elapsed(s, now) > step_micros(),
    ensures
        sched_decision(s, delta, now) == ShouldRun::No,
        sched_next(s, delta, now).accumulator == 0,
        sched_next(s, delta, now).loop_start is None,
{
}

/// Appending one call to a run advances its final state by one transition.
proof fn lemma_trace_final_snoc(s: SchedulerState, calls: Seq<SchedCall>, c: SchedCall)
    ensures
        trace_final(s, calls.push(c)) == sched_next(trace_final(s, calls), c.delta, c.now),
    decreases calls.len(),
{
    if calls.len() == 0 {
        assert(calls.push(c)[0] == c);
        assert(calls.push(c).drop_first() =~= Seq::<SchedCall>::empty());
        assert(trace_final(s, calls.push(c)) == trace_final(
            sched_next(s, c.delta, c.now),
            Seq::<SchedCall>::empty(),
        ));
        assert(trace_final(s, calls) == s);
    } else {
        assert(calls.push(c)[0] == calls[0]);
        assert(calls.push(c).drop_first() =~= calls.drop_first().push(c));
        lemma_trace_final_snoc(sched_next(s, calls[0].delta, calls[0].now), calls.drop_first(), c);
    }
}

/// While every call of a burst answers "step and check again", the recorded
/// burst start stays the wall-clock reading of the burst's first call.
proof fn lemma_burst_keeps_start(s: SchedulerState, calls: Seq<SchedCall>, n: int)
    requires
        s.loop_start is None,
        1 <= n <= calls.len(),
        forall|i: int| 0 <= i < n ==> #[trigger] trace_decision_at(s, calls, i)
            == ShouldRun::YesAndCheckAgain,
    ensures
        trace_final(s, calls.take(n)).loop_start == Some(calls[0].now),
    decreases n,
{
    if n == 1 {
        assert(calls.take(0) =~= Seq::<SchedCall>::empty());
        assert(calls.take(1) =~= calls.take(0).push(calls[0]));
        lemma_trace_final_snoc(s, calls.take(0), calls[0]);
        assert(trace_decision_at(s, calls, 0) == ShouldRun::YesAndCheckAgain);
    } else {
        lemma_burst_keeps_start(s, calls, n - 1);
        assert(calls.take(n) =~= calls.take(n - 1).push(calls[n - 1]));
        lemma_trace_final_snoc(s, calls.take(n - 1), calls[n - 1]);
        assert(trace_decision_at(s, calls, n - 1) == ShouldRun::YesAndCheckAgain);
    }
}

/// No unbounded catch-up: when the calls of a burst are each separated by at
/// least `c` microseconds of wall-clock time, the scheduler cannot answer
/// "step and check again" more than `STEP / c + 1` times in a row — the
/// burst is cut off as soon as it has consumed more wall time than one step.
pub proof fn lemma_no_unbounded_catch_up(s: SchedulerState, calls: Seq<SchedCall>, c: int)
    requires
        s.loop_start is None,
        c >= 1,
        calls.len() >= 1,
        forall|i: int| 0 <= i < calls.len() ==> #[trigger] calls[i].now >= calls[0].now + i * c,
        forall|i: int| 0 <= i < calls.len() ==> #[trigger] trace_decision_at(s, calls, i)
            == ShouldRun::YesAndCheckAgain,
    ensures
        calls.len() <= step_micros() / c + 1,
{
    let n = calls.len() as int;
    lemma_div_pos_is_pos(step_micros(), c);
    if n >= 2 {
        lemma_burst_keeps_start(s, calls, n - 1);
        let sl = trace_final(s, calls.take(n - 1));
        assert(sl.loop_start == Some(calls[0].now));
        assert(trace_decision_at(s, calls, n - 1) == ShouldRun::YesAndCheckAgain);
        assert(calls[n - 1].now >= calls[0].now + (n - 1) * c);
        assert((n - 1) * c >= 0) by (nonlinear_arith)
            requires
                n >= 2,
                c >= 1,
        ;
        assert(sched_elapsed(sl, calls[n - 1].now) <= step_micros());
        assert((n - 1) * c <= step_micros());
        lemma_fundamental_div_mod_converse((n - 1) * c, c, n - 1, 0);
        lemma_div_is_ordered((n - 1) * c, step_micros(), c);
    }
}

} // verus!
