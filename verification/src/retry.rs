//! The retry policy: how long to wait after a failed attempt, and when to
//! give up.
//!
//! The caller makes the attempts and does the waiting. After each failure it
//! asks the policy what to do next.

use crate::config::RetrySettings;
use vstd::prelude::*;

verus! {

/// The unit of the backoff factor: a factor of 1000 leaves the delay as it
/// is.
pub const FACTOR_UNIT: u64 = 1000;

/// What to do after a failed attempt.
#[derive(Debug, Clone, Copy, PartialEq, Eq, Structural)]
pub enum RetryDecision {
    /// Wait for the given number of milliseconds, then try again.
    RetryAfter { delay_ms: u64 },
    /// Report the failure.
    GiveUp,
}

/// How far a run of attempts has come.
#[derive(Debug, Clone, Copy, PartialEq, Eq, Structural)]
pub struct RetryState {
    /// The number of attempts that failed.
    pub failures: u32,
    /// The delay before the next attempt, in milliseconds.
    pub next_delay_ms: u64,
}

/// The smaller of a delay and the longest delay allowed.
pub open spec fn limited(delay: nat, max_delay: nat) -> nat {
    if delay > max_delay {
        max_delay
    } else {
        delay
    }
}

/// The delay after a delay: the delay times the backoff factor, rounded
/// down, and at most the longest delay allowed.
pub open spec fn grown(delay: nat, settings: RetrySettings) -> nat {
    limited(
        (delay * settings.backoff_factor / (FACTOR_UNIT as int)) as nat,
        settings.max_delay_ms as nat,
    )
}

/// The delay before the retry that follows the given number of failures: the
/// initial delay after the first failure, grown once for each further
/// failure, never above the longest delay allowed.
pub open spec fn delay_after(failures: nat, settings: RetrySettings) -> nat
    decreases failures,
{
    if failures <= 1 {
        limited(settings.initial_delay_ms as nat, settings.max_delay_ms as nat)
    } else {
        grown(delay_after((failures - 1) as nat, settings), settings)
    }
}

/// What the policy decides after the given number of failures: to give up
/// once the attempts allowed are used up, else to wait and try again.
pub open spec fn decision_after(failures: nat, settings: RetrySettings) -> RetryDecision {
    if failures >= settings.max_attempts {
        RetryDecision::GiveUp
    } else {
        RetryDecision::RetryAfter { delay_ms: delay_after(failures, settings) as u64 }
    }
}

/// No delay is longer than the longest delay allowed.
pub proof fn lemma_delay_is_limited(failures: nat, settings: RetrySettings)
    ensures
        delay_after(failures, settings) <= settings.max_delay_ms,
    decreases failures,
{
    if failures > 1 {
        lemma_delay_is_limited((failures - 1) as nat, settings);
    }
}

/// With a backoff factor of at least one, delays do not shrink from one
/// retry to the next.
pub proof fn lemma_delays_grow(failures: nat, settings: RetrySettings)
    requires
        settings.backoff_factor >= FACTOR_UNIT,
    ensures
        delay_after(failures, settings) <= delay_after(failures + 1, settings),
    decreases failures,
{
    let delay = delay_after(failures, settings);
    lemma_delay_is_limited(failures, settings);
    if failures >= 1 {
        assert(delay * settings.backoff_factor / (FACTOR_UNIT as int) >= delay)
            by (nonlinear_arith)
            requires
                settings.backoff_factor >= 1000,
                FACTOR_UNIT == 1000,
                delay >= 0,
        ;
    }
}

/// The policy gives up after exactly as many failures as attempts are
/// allowed, and not before.
pub proof fn lemma_gives_up_in_time(failures: nat, settings: RetrySettings)
    ensures
        decision_after(failures, settings) is GiveUp <==> failures >= settings.max_attempts,
{
}

impl RetryState {
    /// The state matches the settings: the delay held is the one that is due
    /// after the next failure.
    pub open spec fn follows(self, settings: RetrySettings) -> bool {
        self.next_delay_ms == delay_after((self.failures + 1) as nat, settings)
    }

    /// The state before the first attempt.
    pub fn start(settings: &RetrySettings) -> (state: RetryState)
        ensures
            state.failures == 0,
            state.follows(*settings),
    {
        let first = if settings.initial_delay_ms > settings.max_delay_ms {
            settings.max_delay_ms
        } else {
            settings.initial_delay_ms
        };
        RetryState { failures: 0, next_delay_ms: first }
    }

    /// Takes note of a failed attempt and decides what to do next.
    pub fn on_failure(&mut self, settings: &RetrySettings) -> (decision: RetryDecision)
        requires
            old(self).follows(*settings),
            old(self).failures < u32::MAX,
        ensures
            final(self).failures == old(self).failures + 1,
            final(self).follows(*settings),
            decision == decision_after(final(self).failures as nat, *settings),
    {
        let delay = self.next_delay_ms;
        proof {
            lemma_delay_is_limited((self.failures + 1) as nat, *settings);
        }
        assert(delay * settings.backoff_factor <= u64::MAX * u32::MAX) by (nonlinear_arith)
            requires
                0 <= delay <= u64::MAX,
                0 <= settings.backoff_factor <= u32::MAX,
        ;
        let scaled: u128 = delay as u128 * settings.backoff_factor as u128 / FACTOR_UNIT as u128;
        let next: u64 = if scaled > settings.max_delay_ms as u128 {
            settings.max_delay_ms
        } else {
            scaled as u64
        };
        self.failures = self.failures + 1;
        self.next_delay_ms = next;
        if self.failures >= settings.max_attempts {
            RetryDecision::GiveUp
        } else {
            RetryDecision::RetryAfter { delay_ms: delay }
        }
    }
}

/// What to do after the given number of failed attempts.
pub fn decide_retry(failures: u32, settings: &RetrySettings) -> (decision: RetryDecision)
    ensures
        decision == decision_after(failures as nat, *settings),
{
    if failures >= settings.max_attempts {
        return RetryDecision::GiveUp;
    }
    let mut state = RetryState::start(settings);
    let mut made: u32 = 1;
    while made < failures
        invariant
            1 <= made,
            made <= failures || (failures == 0 && made == 1),
            state.failures == made - 1,
            state.follows(*settings),
        decreases failures - made,
    {
        let _ = state.on_failure(settings);
        made += 1;
    }
    assert(state.next_delay_ms == delay_after(failures as nat, *settings)) by {
        if failures == 0 {
            assert(delay_after(0, *settings) == delay_after(1, *settings));
        }
    }
    RetryDecision::RetryAfter { delay_ms: state.next_delay_ms }
}

} // verus!
