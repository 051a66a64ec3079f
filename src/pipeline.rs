//! The decisions of one relay run: resolve the forwarder nonce, estimate gas
//! with bounded retry, submit once to the relay. The caller performs each
//! action and hands back what came of it as an event.
use vstd::prelude::*;
use crate::gas::{initial_spec, step, step_spec, Attempt, Estimation, RetryPolicy};
use crate::typed_data::{decode_nonce, left_pad_word, DecodeError};

verus! {

/// Why a run stopped without a transaction.
#[derive(Clone, Copy, Debug, PartialEq, Eq, Structural)]
pub enum RunError {
    /// A read-only chain query failed.
    ChainQuery,
    /// A chain reply could not be decoded.
    Decode(DecodeError),
    /// No estimate was accepted within the maximum duration.
    EstimationTimeout,
    /// The relay rejected the request or could not be reached.
    Submission,
}

/// Where a run stands.
#[derive(Clone, Copy, Debug)]
pub enum Stage {
    /// Waiting for the forwarder's nonce of the signer.
    ResolvingNonce,
    /// Signing and estimating, for a request with this nonce.
    Estimating { nonce: [u8; 32], estimation: Estimation },
    /// Waiting for the relay's answer to the submitted request.
    Submitting { nonce: [u8; 32], gas: u64 },
    /// The relay accepted the request under this transaction hash.
    Done { tx_hash: [u8; 32] },
    /// The run failed.
    Failed { error: RunError },
}

/// What the caller does next.
#[derive(Clone, Copy, Debug)]
pub enum Action {
    /// Build and sign the request with this nonce and ask the chain for an
    /// estimate, now.
    Attempt { nonce: [u8; 32] },
    /// Wait this many milliseconds, then attempt again.
    WaitThenAttempt { nonce: [u8; 32], wait_ms: u64 },
    /// Submit the signed request, with this gas, to the relay.
    Submit { nonce: [u8; 32], gas: u64 },
    /// Report the transaction hash to the user; the run is over.
    Report { tx_hash: [u8; 32] },
    /// Stop: the run failed, or the event did not belong to the stage.
    Stop,
}

/// What came of the last action.
#[derive(Clone, Debug)]
pub enum Event {
    /// The chain answered the nonce query with these bytes.
    NonceReply { output: Vec<u8> },
    /// The nonce query failed.
    NonceQueryFailed,
    /// One signing and estimation attempt ended so.
    Estimate { attempt: Attempt },
    /// The relay accepted the request.
    Relayed { tx_hash: [u8; 32] },
    /// The relay refused the request or could not be reached.
    RelayFailed,
}

/// The action that follows a state of the estimation.
pub open spec fn after_estimate(nonce: [u8; 32], p: RetryPolicy, e: Estimation) -> (Stage, Action) {
    match e {
        Estimation::Estimating { .. } => (
            Stage::Estimating { nonce, estimation: e },
            Action::WaitThenAttempt { nonce, wait_ms: p.retry_interval_ms },
        ),
        Estimation::Succeeded { gas } => (
            Stage::Submitting { nonce, gas },
            Action::Submit { nonce, gas },
        ),
        Estimation::TimedOut => (
            Stage::Failed { error: RunError::EstimationTimeout },
            Action::Stop,
        ),
    }
}

/// The transition of a run on one event, `r` being the stage and action that
/// follow. A nonce reply of at most one word starts the estimation with the
/// reply read as a word. An event that does not belong to the stage leaves the
/// stage as it is.
pub open spec fn is_next(p: RetryPolicy, s: Stage, ev: Event, r: (Stage, Action)) -> bool {
    match (s, ev) {
        (Stage::ResolvingNonce, Event::NonceReply { output }) => {
            if output@.len() <= 32 {
                match r.1 {
                    Action::Attempt { nonce } => {
                        &&& nonce@ == left_pad_word(output@)
                        &&& r.0 == Stage::Estimating { nonce, estimation: initial_spec() }
                    },
                    _ => false,
                }
            } else {
                r == (Stage::Failed { error: RunError::Decode(DecodeError::TooLong) }, Action::Stop)
            }
        },
        _ => r == next_fixed(p, s, ev),
    }
}

/// The transition on every event but a nonce reply.
pub open spec fn next_fixed(p: RetryPolicy, s: Stage, ev: Event) -> (Stage, Action) {
    match (s, ev) {
        (Stage::ResolvingNonce, Event::NonceQueryFailed) => (
            Stage::Failed { error: RunError::ChainQuery },
            Action::Stop,
        ),
        (Stage::Estimating { nonce, estimation }, Event::Estimate { attempt }) => after_estimate(
            nonce,
            p,
            step_spec(p, estimation, attempt),
        ),
        (Stage::Submitting { .. }, Event::Relayed { tx_hash }) => (
            Stage::Done { tx_hash },
            Action::Report { tx_hash },
        ),
        (Stage::Submitting { .. }, Event::RelayFailed) => (
            Stage::Failed { error: RunError::Submission },
            Action::Stop,
        ),
        _ => (s, Action::Stop),
    }
}

/// Decides what follows `s` on the event `ev`.
pub fn next(p: &RetryPolicy, s: Stage, ev: Event) -> (r: (Stage, Action))
    ensures
        is_next(*p, s, ev, r),
{
    match (s, ev) {
        (Stage::ResolvingNonce, Event::NonceReply { output }) => {
            match decode_nonce(output.as_slice()) {
                Ok(nonce) => (
                    Stage::Estimating { nonce, estimation: crate::gas::initial() },
                    Action::Attempt { nonce },
                ),
                Err(e) => (Stage::Failed { error: RunError::Decode(e) }, Action::Stop),
            }
        },
        (Stage::ResolvingNonce, Event::NonceQueryFailed) => (
            Stage::Failed { error: RunError::ChainQuery },
            Action::Stop,
        ),
        (Stage::Estimating { nonce, estimation }, Event::Estimate { attempt }) => {
            match step(p, estimation, attempt) {
                Estimation::Estimating { elapsed_ms } => (
                    Stage::Estimating {
                        nonce,
                        estimation: Estimation::Estimating { elapsed_ms },
                    },
                    Action::WaitThenAttempt { nonce, wait_ms: p.retry_interval_ms },
                ),
                Estimation::Succeeded { gas } => (
                    Stage::Submitting { nonce, gas },
                    Action::Submit { nonce, gas },
                ),
                Estimation::TimedOut => (
                    Stage::Failed { error: RunError::EstimationTimeout },
                    Action::Stop,
                ),
            }
        },
        (Stage::Submitting { .. }, Event::Relayed { tx_hash }) => (
            Stage::Done { tx_hash },
            Action::Report { tx_hash },
        ),
        (Stage::Submitting { .. }, Event::RelayFailed) => (
            Stage::Failed { error: RunError::Submission },
            Action::Stop,
        ),
        (s, _) => (s, Action::Stop),
    }
}

/// A run that the relay accepts ends with the relay's transaction hash,
/// unchanged, and reports it.
pub proof fn lemma_hash_returned_unmodified(p: RetryPolicy, nonce: [u8; 32], gas: u64, tx_hash: [u8; 32], r: (Stage, Action))
    requires
        is_next(p, Stage::Submitting { nonce, gas }, Event::Relayed { tx_hash }, r),
    ensures
        r.0 == (Stage::Done { tx_hash }),
        r.1 == (Action::Report { tx_hash }),
{
}

/// A relay failure ends the run at once: the run fails with a submission error
/// and nothing is submitted again.
pub proof fn lemma_relay_failure_is_final(p: RetryPolicy, nonce: [u8; 32], gas: u64, r: (Stage, Action), ev: Event)
    requires
        is_next(p, Stage::Submitting { nonce, gas }, Event::RelayFailed, r),
    ensures
        r.0 == (Stage::Failed { error: RunError::Submission }),
        r.1 == Action::Stop,
        forall|r2: (Stage, Action)| #[trigger] is_next(p, r.0, ev, r2) ==> r2.0 == r.0 && r2.1 == Action::Stop,
{
}

} // verus!
