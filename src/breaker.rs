use vstd::prelude::*;
use crate::pool::CircuitBreakerConfig;
use crate::rate_limit::{elapsed, elapsed_ms};

verus! {

/// Failure bookkeeping of one tenant backend.
#[derive(Clone, Copy, Debug, PartialEq, Eq, Structural)]
pub struct CircuitBreakerState {
    /// Failures since the last success.
    pub consecutive_failures: u32,
    /// Whether new work is being turned away.
    pub is_open: bool,
    /// When the circuit last opened, in milliseconds of the monotonic clock.
    pub opened_at_ms: Option<u64>,
}

/// What the breaker says of a new acquisition.
#[derive(Clone, Copy, Debug, PartialEq, Eq, Structural)]
pub enum BreakerDecision {
    /// Proceed normally.
    Allow,
    /// The reset timeout has passed: proceed as a trial.
    Trial,
    /// Fail fast without touching the backend.
    Reject,
}

/// An open circuit knows when it opened, and a closed one does not.
pub open spec fn breaker_wf(s: CircuitBreakerState) -> bool {
    s.is_open <==> s.opened_at_ms is Some
}

/// The decision for an acquisition at `now`.
pub open spec fn breaker_decision(s: CircuitBreakerState, c: CircuitBreakerConfig, now: u64) -> BreakerDecision {
    if !c.enabled || !s.is_open {
        BreakerDecision::Allow
    } else if s.opened_at_ms matches Some(t) && elapsed(now, t) >= c.reset_timeout_ms {
        BreakerDecision::Trial
    } else {
        BreakerDecision::Reject
    }
}

/// The state after a success: closed, with no failures counted.
pub open spec fn after_success(s: CircuitBreakerState) -> CircuitBreakerState {
    CircuitBreakerState { consecutive_failures: 0, is_open: false, opened_at_ms: None }
}

/// The state after a failure at `now`: one more failure; a failed trial
/// re-opens and restarts the timer; a closed circuit opens on reaching the
/// threshold.
pub open spec fn after_failure(s: CircuitBreakerState, c: CircuitBreakerConfig, now: u64) -> CircuitBreakerState {
    let failures = if s.consecutive_failures == u32::MAX {
        u32::MAX
    } else {
        (s.consecutive_failures + 1) as u32
    };
    if c.enabled && (s.is_open || failures >= c.failure_threshold) {
        CircuitBreakerState { consecutive_failures: failures, is_open: true, opened_at_ms: Some(now) }
    } else {
        CircuitBreakerState { consecutive_failures: failures, ..s }
    }
}

/// A failure that moves a closed circuit to open: a trip.
pub open spec fn trips(s: CircuitBreakerState, c: CircuitBreakerConfig, now: u64) -> bool {
    !s.is_open && after_failure(s, c, now).is_open
}

impl CircuitBreakerState {
    /// A closed circuit with no failures.
    pub fn new() -> (r: CircuitBreakerState)
        ensures
            r.consecutive_failures == 0,
            !r.is_open,
            r.opened_at_ms is None,
    {
        CircuitBreakerState { consecutive_failures: 0, is_open: false, opened_at_ms: None }
    }

    /// Whether an acquisition at `now_ms` may proceed, and how.
    pub fn decide(&self, config: &CircuitBreakerConfig, now_ms: u64) -> (r: BreakerDecision)
        ensures
            r == breaker_decision(*self, *config, now_ms),
    {
        if !config.enabled || !self.is_open {
            return BreakerDecision::Allow;
        }
        match self.opened_at_ms {
            Some(t) => {
                if elapsed_ms(now_ms, t) >= config.reset_timeout_ms {
                    BreakerDecision::Trial
                } else {
                    BreakerDecision::Reject
                }
            },
            None => BreakerDecision::Reject,
        }
    }

    /// Records a success: the circuit closes.
    pub fn record_success(&mut self)
        ensures
            *final(self) == after_success(*old(self)),
    {
        self.consecutive_failures = 0;
        self.is_open = false;
        self.opened_at_ms = None;
    }

    /// Records a failure at `now_ms`; returns whether it tripped the circuit.
    pub fn record_failure(&mut self, config: &CircuitBreakerConfig, now_ms: u64) -> (tripped: bool)
        ensures
            *final(self) == after_failure(*old(self), *config, now_ms),
            tripped == trips(*old(self), *config, now_ms),
    {
        let was_open = self.is_open;
        if self.consecutive_failures < u32::MAX {
            self.consecutive_failures = self.consecutive_failures + 1;
        }
        if config.enabled && (was_open || self.consecutive_failures >= config.failure_threshold) {
            self.is_open = true;
            self.opened_at_ms = Some(now_ms);
        }
        !was_open && self.is_open
    }
}

/// The breaker keeps its shape: every transition preserves well-formedness;
/// an enabled breaker opens once failures reach the threshold, turns work
/// away until the reset timeout has passed, then lets a trial through.
pub proof fn lemma_breaker_transitions(s: CircuitBreakerState, c: CircuitBreakerConfig, now: u64, later: u64)
    requires
        breaker_wf(s),
    ensures
        breaker_wf(after_success(s)),
        breaker_wf(after_failure(s, c, now)),
        c.enabled && !s.is_open && s.consecutive_failures + 1 >= c.failure_threshold
            ==> trips(s, c, now) && after_failure(s, c, now).opened_at_ms == Some(now),
        c.enabled && after_failure(s, c, now).is_open && now <= later && later - now < c.reset_timeout_ms
            ==> breaker_decision(after_failure(s, c, now), c, later) == BreakerDecision::Reject,
        c.enabled && after_failure(s, c, now).is_open && now <= later && later - now >= c.reset_timeout_ms
            ==> breaker_decision(after_failure(s, c, now), c, later) == BreakerDecision::Trial,
        !c.enabled ==> breaker_decision(s, c, now) == BreakerDecision::Allow,
        breaker_decision(after_success(s), c, now) == BreakerDecision::Allow,
{
}

} // verus!
