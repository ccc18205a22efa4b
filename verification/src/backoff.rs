//! The supervisor's reconnect policy: count consecutive failed sessions,
//! wait between attempts with exponentially growing delay, and give up once
//! the configured ceiling is exceeded.
use vstd::prelude::*;
use vstd::arithmetic::power2::{pow2, lemma_pow2_adds, lemma_pow2_pos, lemma_pow2_unfold};
use vstd::arithmetic::mul::{lemma_mul_inequality, lemma_mul_is_associative};
use crate::WsError;

verus! {

/// Initial reconnect delay, in seconds, used when no other base is configured.
pub const RECONNECT_DELAY_BASE: u64 = 1;

/// Default ceiling on consecutive failed sessions before the supervisor gives up.
pub const MAX_RECONNECT_ATTEMPTS: u64 = 5;

/// What the supervisor does after a session ends.
#[derive(Debug, Clone, Copy, PartialEq, Eq)]
pub enum SupervisorDecision {
    /// The session ended cleanly: reconnect at once.
    Reconnect,
    /// The session failed below the ceiling: wait this many seconds, then reconnect.
    Backoff(u64),
    /// The ceiling is exceeded: stop and surface the session's error.
    Fail(WsError),
}

/// The supervisor's retry state. `delay` is the wait that the *next* counted
/// failure will order; it doubles with every counted failure and resets to
/// `base` after a clean session.
pub struct BackoffState {
    /// Consecutive failed sessions since the last clean one.
    pub attempt: u64,
    /// Seconds to wait after the next counted failure.
    pub delay: u64,
    /// Initial delay, in seconds.
    pub base: u64,
    /// Ceiling on consecutive failures; one more failure beyond it is fatal.
    pub max_attempts: u64,
}

impl BackoffState {
    /// The state's invariant: the pending delay is always `base * 2^attempt`,
    /// and even the largest delay the policy can reach fits in a `u64`.
    pub open spec fn wf(self) -> bool {
        &&& 1 <= self.base
        &&& self.attempt <= self.max_attempts
        &&& self.delay == self.base * pow2(self.attempt as nat)
        &&& self.base * pow2(self.max_attempts as nat) <= u64::MAX
    }

    /// The state the supervisor starts from, and returns to after a clean session.
    pub open spec fn fresh(base: u64, max_attempts: u64) -> BackoffState {
        BackoffState { attempt: 0, delay: base, base, max_attempts }
    }

    /// Builds the starting state, or `None` when the configuration is unusable:
    /// a zero base delay, or a ceiling so large that some delay would overflow.
    pub fn new(base: u64, max_attempts: u64) -> (r: Option<BackoffState>)
        ensures
            r is Some <==> (1 <= base && base * pow2(max_attempts as nat) <= u64::MAX),
            r is Some ==> r.unwrap() == Self::fresh(base, max_attempts) && r.unwrap().wf(),
    {
        if base == 0 {
            return None;
        }
        proof {
            assert(pow2(0) == 1) by {
                vstd::arithmetic::power2::lemma2_to64();
            }
        }
        let mut d: u64 = base;
        let mut k: u64 = 0;
        while k < max_attempts
            invariant
                1 <= base,
                k <= max_attempts,
                d == base * pow2(k as nat),
            decreases max_attempts - k,
        {
            if d > u64::MAX / 2 {
                proof {
                    lemma_doubling_overflow(base, k as nat, max_attempts as nat, d);
                }
                return None;
            }
            proof {
                lemma_pow2_unfold((k + 1) as nat);
                lemma_mul_is_associative(base as int, pow2(k as nat) as int, 2);
            }
            d = d * 2;
            k = k + 1;
        }
        proof {
            assert(pow2(0) == 1) by {
                vstd::arithmetic::power2::lemma2_to64();
            }
        }
        Some(BackoffState { attempt: 0, delay: base, base, max_attempts })
    }

    /// Feeds the outcome of one session into the policy.
    ///
    /// A clean end resets the counter and the delay and orders an immediate
    /// reconnect. A failure below the ceiling orders a wait of the pending
    /// delay — `base * 2^(n-1)` seconds on the `n`-th counted failure — and
    /// doubles the stored delay. A failure beyond the ceiling surfaces the
    /// session's error and changes nothing.
    pub fn on_session_end(&mut self, outcome: Result<(), WsError>) -> (r: SupervisorDecision)
        requires
            old(self).wf(),
        ensures
            final(self).wf(),
            final(self).base == old(self).base,
            final(self).max_attempts == old(self).max_attempts,
            outcome is Ok ==> {
                &&& final(self).attempt == 0
                &&& final(self).delay == old(self).base
                &&& r == SupervisorDecision::Reconnect
            },
            outcome is Err && old(self).attempt < old(self).max_attempts ==> {
                &&& final(self).attempt == old(self).attempt + 1
                &&& final(self).delay == 2 * old(self).delay
                &&& r == SupervisorDecision::Backoff(old(self).delay)
                &&& old(self).delay == old(self).base * pow2(old(self).attempt as nat)
            },
            outcome is Err && old(self).attempt == old(self).max_attempts ==> {
                &&& *final(self) == *old(self)
                &&& r == SupervisorDecision::Fail(outcome.unwrap_err())
            },
            outcome matches Err(e) ==> r == spec_decision(*old(self), e),
    {
        match outcome {
            Ok(()) => {
                self.attempt = 0;
                self.delay = self.base;
                proof {
                    assert(pow2(0) == 1) by {
                        vstd::arithmetic::power2::lemma2_to64();
                    }
                }
                SupervisorDecision::Reconnect
            },
            Err(e) => {
                if self.attempt >= self.max_attempts {
                    SupervisorDecision::Fail(e)
                } else {
                    proof {
                        lemma_next_delay_fits(*self);
                    }
                    self.attempt = self.attempt + 1;
                    let waited = self.delay;
                    self.delay = self.delay * 2;
                    SupervisorDecision::Backoff(waited)
                }
            },
        }
    }
}

/// The decision the supervisor takes on a failed session: a wait of the
/// pending delay while the counter is below the ceiling, otherwise the
/// session's error is surfaced unchanged. The decision depends only on the
/// counter — which error ended the session plays no part in it.
pub open spec fn spec_decision(b: BackoffState, e: WsError) -> SupervisorDecision {
    if b.attempt < b.max_attempts {
        SupervisorDecision::Backoff(b.delay)
    } else {
        SupervisorDecision::Fail(e)
    }
}

/// The state after one counted failure: the spec-level mirror of
/// `on_session_end` on a failure below the ceiling.
pub open spec fn spec_fail_step(b: BackoffState) -> BackoffState {
    BackoffState {
        attempt: (b.attempt + 1) as u64,
        delay: (2 * b.delay) as u64,
        base: b.base,
        max_attempts: b.max_attempts,
    }
}

/// The state after `k` consecutive counted failures.
pub open spec fn after_failures(b: BackoffState, k: nat) -> BackoffState
    decreases k,
{
    if k == 0 {
        b
    } else {
        spec_fail_step(after_failures(b, (k - 1) as nat))
    }
}

/// Law: consecutive failures preserve the invariant and advance the counter
/// one by one, as long as they stay within the ceiling.
pub proof fn lemma_after_failures_wf(b: BackoffState, k: nat)
    requires
        b.wf(),
        b.attempt + k <= b.max_attempts,
    ensures
        after_failures(b, k).wf(),
        after_failures(b, k).attempt == b.attempt + k,
        after_failures(b, k).base == b.base,
        after_failures(b, k).max_attempts == b.max_attempts,
    decreases k,
{
    if k > 0 {
        lemma_after_failures_wf(b, (k - 1) as nat);
        let p = after_failures(b, (k - 1) as nat);
        lemma_next_delay_fits(p);
    }
}

/// Law: for every `n` in `[1, max_attempts]`, the delay the supervisor orders
/// before the `n`-th retry — the pending delay after `n - 1` counted failures
/// from a fresh state — equals `base * 2^(n-1)` seconds.
pub proof fn lemma_backoff_delay_law(base: u64, max_attempts: u64, n: nat)
    requires
        1 <= base,
        base * pow2(max_attempts as nat) <= u64::MAX,
        1 <= n <= max_attempts,
    ensures
        after_failures(BackoffState::fresh(base, max_attempts), (n - 1) as nat).delay
            == base * pow2((n - 1) as nat),
        forall|e: WsError|
            #[trigger] spec_decision(
                after_failures(BackoffState::fresh(base, max_attempts), (n - 1) as nat),
                e,
            ) == SupervisorDecision::Backoff((base * pow2((n - 1) as nat)) as u64),
{
    assert(pow2(0) == 1) by {
        vstd::arithmetic::power2::lemma2_to64();
    }
    lemma_after_failures_wf(BackoffState::fresh(base, max_attempts), (n - 1) as nat);
}

/// Law: once `max_attempts` consecutive failures have been counted, the
/// supervisor grants no further retry — the next failure, whatever its error,
/// is surfaced as fatal, and `on_session_end` then leaves the state unchanged,
/// so every later failure is surfaced the same way.
pub proof fn lemma_retry_ceiling(base: u64, max_attempts: u64, e: WsError)
    requires
        1 <= base,
        base * pow2(max_attempts as nat) <= u64::MAX,
    ensures
        after_failures(BackoffState::fresh(base, max_attempts), max_attempts as nat).attempt
            == max_attempts,
        spec_decision(
            after_failures(BackoffState::fresh(base, max_attempts), max_attempts as nat),
            e,
        ) == SupervisorDecision::Fail(e),
{
    assert(pow2(0) == 1) by {
        vstd::arithmetic::power2::lemma2_to64();
    }
    lemma_after_failures_wf(BackoffState::fresh(base, max_attempts), max_attempts as nat);
}

/// When the pending delay already exceeds half of `u64::MAX` with doublings
/// still to go, the configured ceiling would overflow a `u64`.
proof fn lemma_doubling_overflow(base: u64, k: nat, max_attempts: nat, d: u64)
    requires
        1 <= base,
        k < max_attempts,
        d == base * pow2(k),
        d > u64::MAX / 2,
    ensures
        base * pow2(max_attempts) > u64::MAX,
{
    lemma_pow2_adds(k, (max_attempts - k) as nat);
    lemma_mul_is_associative(base as int, pow2(k) as int, pow2((max_attempts - k) as nat) as int);
    lemma_pow2_pos((max_attempts - k) as nat);
    assert(pow2((max_attempts - k) as nat) >= 2) by {
        lemma_pow2_unfold((max_attempts - k) as nat);
        lemma_pow2_pos((max_attempts - k - 1) as nat);
    }
    lemma_mul_inequality(2, pow2((max_attempts - k) as nat) as int, d as int);
    vstd::arithmetic::mul::lemma_mul_is_commutative(
        d as int,
        pow2((max_attempts - k) as nat) as int,
    );
}

/// Below the ceiling, the doubled delay still fits in a `u64`.
proof fn lemma_next_delay_fits(b: BackoffState)
    requires
        b.wf(),
        b.attempt < b.max_attempts,
    ensures
        2 * b.delay == b.base * pow2((b.attempt + 1) as nat),
        2 * b.delay <= u64::MAX,
{
    lemma_pow2_unfold((b.attempt + 1) as nat);
    lemma_mul_is_associative(b.base as int, 2, pow2(b.attempt as nat) as int);
    lemma_mul_is_associative(2, b.base as int, pow2(b.attempt as nat) as int);
    lemma_pow2_adds((b.attempt + 1) as nat, (b.max_attempts - b.attempt - 1) as nat);
    lemma_pow2_pos((b.max_attempts - b.attempt - 1) as nat);
    lemma_mul_is_associative(
        b.base as int,
        pow2((b.attempt + 1) as nat) as int,
        pow2((b.max_attempts - b.attempt - 1) as nat) as int,
    );
    lemma_mul_inequality(
        1,
        pow2((b.max_attempts - b.attempt - 1) as nat) as int,
        (b.base * pow2((b.attempt + 1) as nat)) as int,
    );
    vstd::arithmetic::mul::lemma_mul_is_commutative(
        (b.base * pow2((b.attempt + 1) as nat)) as int,
        pow2((b.max_attempts - b.attempt - 1) as nat) as int,
    );
}

} // verus!
