//! Bounded-retry gas estimation as a state machine. Each attempt signs the
//! request and asks the chain for an estimate; a failed attempt waits the retry
//! interval, and the time waited counts against the maximum duration.
use vstd::prelude::*;

verus! {

/// The limits of the estimation loop.
#[derive(Clone, Copy, Debug, PartialEq, Eq, Structural)]
pub struct RetryPolicy {
    /// Total time, in milliseconds, after which no further attempt is made.
    pub max_duration_ms: u64,
    /// Time, in milliseconds, waited after a failed attempt.
    pub retry_interval_ms: u64,
    /// The largest gas value accepted from an estimate.
    pub gas_ceiling: u64,
}

/// Where the estimation stands.
#[derive(Clone, Copy, Debug, PartialEq, Eq, Structural)]
pub enum Estimation {
    /// Still trying; `elapsed_ms` is the time spent waiting so far.
    Estimating { elapsed_ms: u64 },
    /// An estimate was accepted.
    Succeeded { gas: u64 },
    /// The maximum duration passed without an accepted estimate.
    TimedOut,
}

/// The outcome of one attempt.
#[derive(Clone, Copy, Debug, PartialEq, Eq, Structural)]
pub enum Attempt {
    /// The chain returned this estimate.
    Estimated(u64),
    /// The estimate failed (an RPC error, or the call still reverts).
    Failed,
}

/// The state in which the loop starts.
pub open spec fn initial_spec() -> Estimation {
    Estimation::Estimating { elapsed_ms: 0 }
}

/// The transition taken for one attempt.
pub open spec fn step_spec(p: RetryPolicy, s: Estimation, a: Attempt) -> Estimation {
    match s {
        Estimation::Estimating { elapsed_ms } => {
            if elapsed_ms >= p.max_duration_ms {
                Estimation::TimedOut
            } else {
                match a {
                    Attempt::Estimated(g) => Estimation::Succeeded {
                        gas: if g <= p.gas_ceiling { g } else { p.gas_ceiling },
                    },
                    Attempt::Failed => Estimation::Estimating {
                        elapsed_ms: if elapsed_ms + p.retry_interval_ms <= u64::MAX {
                            (elapsed_ms + p.retry_interval_ms) as u64
                        } else {
                            u64::MAX
                        },
                    },
                }
            }
        },
        _ => s,
    }
}

/// The state in which the loop starts: nothing waited yet.
pub fn initial() -> (r: Estimation)
    ensures
        r == initial_spec(),
{
    Estimation::Estimating { elapsed_ms: 0 }
}

/// Takes the outcome of one attempt into account. An attempt made once the
/// maximum duration has passed counts for nothing: the loop has timed out.
/// An accepted estimate is bounded by the policy's ceiling. A finished state
/// stays as it is.
pub fn step(p: &RetryPolicy, s: Estimation, a: Attempt) -> (r: Estimation)
    ensures
        r == step_spec(*p, s, a),
{
    match s {
        Estimation::Estimating { elapsed_ms } => {
            if elapsed_ms >= p.max_duration_ms {
                Estimation::TimedOut
            } else {
                match a {
                    Attempt::Estimated(g) => Estimation::Succeeded {
                        gas: if g <= p.gas_ceiling { g } else { p.gas_ceiling },
                    },
                    Attempt::Failed => Estimation::Estimating {
                        elapsed_ms: elapsed_ms.saturating_add(p.retry_interval_ms),
                    },
                }
            }
        },
        _ => s,
    }
}

/// Whether the loop is finished, successfully or not.
pub fn is_done(s: Estimation) -> (r: bool)
    ensures
        r == !(s is Estimating),
{
    !matches!(s, Estimation::Estimating { .. })
}

/// The state after `n` failed attempts from the start.
pub open spec fn after_failures(p: RetryPolicy, n: nat) -> Estimation
    decreases n,
{
    if n == 0 {
        initial_spec()
    } else {
        step_spec(p, after_failures(p, (n - 1) as nat), Attempt::Failed)
    }
}

proof fn lemma_after_failures(p: RetryPolicy, n: nat)
    ensures
        (n == 0 || (n - 1) * p.retry_interval_ms < p.max_duration_ms) ==> after_failures(p, n)
            == (Estimation::Estimating {
            elapsed_ms: if n * p.retry_interval_ms <= u64::MAX {
                (n * p.retry_interval_ms) as u64
            } else {
                u64::MAX
            },
        }),
        !(n == 0 || (n - 1) * p.retry_interval_ms < p.max_duration_ms) ==> after_failures(p, n)
            == Estimation::TimedOut,
    decreases n,
{
    let i = p.retry_interval_ms as int;
    let m = p.max_duration_ms as int;
    if n > 0 {
        let k = (n - 1) as nat;
        lemma_after_failures(p, k);
        assert(k * i + i == n * i) by (nonlinear_arith)
            requires
                k + 1 == n,
        ;
        assert(k == 0 || (k - 1) * i <= k * i) by (nonlinear_arith)
            requires
                i >= 0,
        ;
        assert(k * i >= 0) by (nonlinear_arith)
            requires
                i >= 0,
        ;
    }
}

/// With attempts that fail `n` times and then return an estimate, the loop
/// succeeds exactly when the `n` retry intervals together stay under the maximum
/// duration, with the estimate bounded by the ceiling; otherwise it times out.
pub proof fn lemma_fail_then_succeed(p: RetryPolicy, n: nat, gas: u64)
    ensures
        step_spec(p, after_failures(p, n), Attempt::Estimated(gas)) == (if n
            * p.retry_interval_ms < p.max_duration_ms {
            Estimation::Succeeded {
                gas: if gas <= p.gas_ceiling { gas } else { p.gas_ceiling },
            }
        } else {
            Estimation::TimedOut
        }),
{
    let i = p.retry_interval_ms as int;
    lemma_after_failures(p, n);
    if n > 0 {
        assert((n - 1) * i <= n * i) by (nonlinear_arith)
            requires
                i >= 0,
                n > 0,
        ;
    }
}

} // verus!
