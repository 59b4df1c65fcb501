//! Health probing: deciding, one observation at a time, whether the managed
//! server has reached a desired reachability state within a wall-clock
//! budget.
//!
//! The prober is a pure state machine.  The driver performs one HTTP probe of
//! the health endpoint (a probe counts as healthy only on an exact success
//! status), hands the observation to [`HealthProber::observe`], and acts on
//! the outcome: done, retry after the fixed interval, or timed out.

use vstd::prelude::*;

verus! {

/// Budget when waiting for the server to come up: starting (a model load) is
/// slow.
pub const HEALTH_UP_BUDGET_MS: u64 = 120_000;

/// Budget when waiting for the server to go down after a stop.
pub const HEALTH_DOWN_BUDGET_MS: u64 = 30_000;

/// Fixed pause between two consecutive probes.
pub const HEALTH_INTERVAL_MS: u64 = 2_000;

/// The waiting budget for the given direction.
pub open spec fn budget_ms(expect_up: bool) -> u64 {
    if expect_up {
        HEALTH_UP_BUDGET_MS
    } else {
        HEALTH_DOWN_BUDGET_MS
    }
}

/// What to do after one probe observation.
#[derive(Clone, Copy, Debug, PartialEq, Eq, Structural)]
pub enum ProbeStep {
    /// The observed state equals the expected one; waiting is over.
    Reached,
    /// Not there yet and budget remains: probe again after this many
    /// milliseconds.
    RetryAfter(u64),
    /// The budget is exhausted without reaching the expected state.
    TimedOut,
}

/// A bounded wait for the server to reach (or leave) the running state.
#[derive(Clone, Copy, Debug, PartialEq, Eq, Structural)]
pub struct HealthProber {
    /// The reachability state being awaited.
    pub expect_up: bool,
    /// Total time slept between probes so far.
    pub waited_ms: u64,
}

impl HealthProber {
    /// The accumulated wait never exceeds the budget by more than one
    /// interval.
    pub open spec fn wf(self) -> bool {
        self.waited_ms <= budget_ms(self.expect_up) + HEALTH_INTERVAL_MS
    }

    /// The exact transition taken by [`Self::observe`]: the prober after the
    /// observation, and the resulting step.
    pub open spec fn step_spec(self, healthy: bool) -> (HealthProber, ProbeStep) {
        if healthy == self.expect_up {
            (self, ProbeStep::Reached)
        } else if self.waited_ms > budget_ms(self.expect_up) {
            (self, ProbeStep::TimedOut)
        } else {
            (
                HealthProber {
                    waited_ms: (self.waited_ms + HEALTH_INTERVAL_MS) as u64,
                    ..self
                },
                ProbeStep::RetryAfter(HEALTH_INTERVAL_MS),
            )
        }
    }

    /// A fresh wait for the given direction.
    pub fn new(expect_up: bool) -> (p: HealthProber)
        ensures
            p == (HealthProber { expect_up, waited_ms: 0 }),
            p.wf(),
    {
        HealthProber { expect_up, waited_ms: 0 }
    }

    /// Accounts for one probe observation.  Succeeds as soon as the observed
    /// healthiness equals the expected one; otherwise either schedules a
    /// retry after the fixed interval or reports budget exhaustion.
    pub fn observe(&mut self, healthy: bool) -> (s: ProbeStep)
        requires
            old(self).wf(),
        ensures
            (*final(self), s) == old(self).step_spec(healthy),
            final(self).wf(),
    {
        if healthy == self.expect_up {
            ProbeStep::Reached
        } else if self.waited_ms > if self.expect_up {
            HEALTH_UP_BUDGET_MS
        } else {
            HEALTH_DOWN_BUDGET_MS
        } {
            ProbeStep::TimedOut
        } else {
            self.waited_ms = self.waited_ms + HEALTH_INTERVAL_MS;
            ProbeStep::RetryAfter(HEALTH_INTERVAL_MS)
        }
    }
}

/// The prober after `k` observations that all missed the expected state.
pub open spec fn after_misses(p: HealthProber, k: nat) -> HealthProber
    decreases k,
{
    if k == 0 {
        p
    } else {
        after_misses(p, (k - 1) as nat).step_spec(!p.expect_up).0
    }
}

/// While the budget lasts, each miss adds exactly one interval to the
/// accumulated wait.
proof fn lemma_miss_wait(p: HealthProber, k: nat)
    requires
        p.waited_ms == 0,
        k * HEALTH_INTERVAL_MS <= budget_ms(p.expect_up) + HEALTH_INTERVAL_MS,
    ensures
        after_misses(p, k).expect_up == p.expect_up,
        after_misses(p, k).waited_ms == k * HEALTH_INTERVAL_MS,
    decreases k,
{
    if k > 0 {
        lemma_miss_wait(p, (k - 1) as nat);
        assert((k - 1) * HEALTH_INTERVAL_MS == k * HEALTH_INTERVAL_MS - HEALTH_INTERVAL_MS)
            by (nonlinear_arith);
    }
}

/// If the probe never observes the expected state, the wait ends in
/// `TimedOut` after exactly one observation more than the budget allows:
/// sixty-two observations when waiting for the server to come up, seventeen
/// when waiting for it to go down.
pub proof fn lemma_probe_budget_exhaustion(p: HealthProber)
    requires
        p.waited_ms == 0,
    ensures
        after_misses(p, (budget_ms(p.expect_up) / HEALTH_INTERVAL_MS + 1) as nat).step_spec(
            !p.expect_up,
        ).1 is TimedOut,
        forall|k: nat|
            k <= budget_ms(p.expect_up) / HEALTH_INTERVAL_MS ==> (#[trigger] after_misses(
                p,
                k,
            )).step_spec(!p.expect_up).1 is RetryAfter,
{
    let b = budget_ms(p.expect_up);
    let n = (b / HEALTH_INTERVAL_MS + 1) as nat;
    assert(n * HEALTH_INTERVAL_MS <= b + HEALTH_INTERVAL_MS) by (nonlinear_arith)
        requires
            n == b / HEALTH_INTERVAL_MS + 1,
            b == budget_ms(p.expect_up),
    ;
    lemma_miss_wait(p, n);
    assert(n * HEALTH_INTERVAL_MS > b) by (nonlinear_arith)
        requires
            n == b / HEALTH_INTERVAL_MS + 1,
            b == budget_ms(p.expect_up),
    ;
    assert forall|k: nat| k <= b / HEALTH_INTERVAL_MS implies (#[trigger] after_misses(
        p,
        k,
    )).step_spec(!p.expect_up).1 is RetryAfter by {
        assert(k * HEALTH_INTERVAL_MS <= b) by (nonlinear_arith)
            requires
                k <= b / HEALTH_INTERVAL_MS,
        ;
        lemma_miss_wait(p, k);
    }
}

} // verus!
