//! Paired execution: a strict 2-of-2 quorum over two backends.
//!
//! One job is handed to two independent backends; the joined outcome is
//! accepted only when both calls succeed, both outputs and both state hashes
//! are identical, and both sides' attestations pass structural validation.
//! Any discrepancy is a typed error carrying no partial result: losing
//! redundancy is always visible to the caller.

use vstd::prelude::*;

use crate::digest::bytes_eq;
use crate::types::{
    ConsensusError, ExecutionPayload, ExecutionResult, PairedExecutionResult, TeeAttestation,
    TeeError,
};
use crate::validation::{spec_attestations_valid, TeeVerifier};

verus! {

/// Capability interface of one trusted-execution backend.
///
/// Implementations live outside the verified core (they do I/O); nothing is
/// assumed of what they return.  The join functions below state what the
/// pair does with every possible pair of outcomes.
pub trait TeeExecutor {
    /// Run a payload and return its result with attestations.
    fn execute(&self, payload: &ExecutionPayload) -> Result<ExecutionResult, TeeError>;

    /// Fetch the backend's current attestations.
    fn get_attestations(&self) -> Result<Vec<TeeAttestation>, TeeError>;

    /// Report whether the backend is healthy.
    fn health_check(&self) -> Result<bool, TeeError>;
}

/// The join decision over the two backends' outcomes: either backend error
/// propagates as `BackendUnavailable`; differing outputs are
/// `ResultMismatch`; differing state hashes are `StateMismatch`; an invalid
/// or missing attestation on either side is `AttestationError`; only full
/// agreement yields both results.
pub open spec fn spec_join(
    primary: Result<ExecutionResult, TeeError>,
    secondary: Result<ExecutionResult, TeeError>,
    now: u64,
) -> Result<PairedExecutionResult, ConsensusError> {
    match primary {
        Err(e) => Err(ConsensusError::BackendUnavailable(e)),
        Ok(p) => match secondary {
            Err(e) => Err(ConsensusError::BackendUnavailable(e)),
            Ok(s) => if p.result@ != s.result@ {
                Err(ConsensusError::ResultMismatch)
            } else if p.state_hash@ != s.state_hash@ {
                Err(ConsensusError::StateMismatch)
            } else if !spec_attestations_valid(p.attestations@, now) || !spec_attestations_valid(
                s.attestations@,
                now,
            ) {
                Err(ConsensusError::AttestationError)
            } else {
                Ok(PairedExecutionResult { primary: p, secondary: s })
            },
        },
    }
}

/// Join the two backends' outcomes into one verified result.
///
/// This is the whole consensus decision as a function of the two outcomes:
/// the contract pins the answer for every pair of values the backends can
/// return.
pub fn join_results(
    primary: Result<ExecutionResult, TeeError>,
    secondary: Result<ExecutionResult, TeeError>,
    verifier: &TeeVerifier,
    now: u64,
) -> (r: Result<PairedExecutionResult, ConsensusError>)
    ensures
        r == spec_join(primary, secondary, now),
{
    let p = match primary {
        Err(e) => {
            return Err(ConsensusError::BackendUnavailable(e));
        },
        Ok(p) => p,
    };
    let s = match secondary {
        Err(e) => {
            return Err(ConsensusError::BackendUnavailable(e));
        },
        Ok(s) => s,
    };
    if !bytes_eq(&p.result, &s.result) {
        return Err(ConsensusError::ResultMismatch);
    }
    if !bytes_eq(&p.state_hash, &s.state_hash) {
        return Err(ConsensusError::StateMismatch);
    }
    if !verifier.attestations_valid(&p, now) {
        return Err(ConsensusError::AttestationError);
    }
    if !verifier.attestations_valid(&s, now) {
        return Err(ConsensusError::AttestationError);
    }
    Ok(PairedExecutionResult { primary: p, secondary: s })
}

/// The quorum law: the join succeeds exactly when both backends succeeded,
/// their output bytes and state hashes are identical, and each side's
/// attestations pass structural validation — and what it returns then is
/// both sides' results, unaltered.
pub proof fn lemma_join_accepts_only_agreement(
    primary: Result<ExecutionResult, TeeError>,
    secondary: Result<ExecutionResult, TeeError>,
    now: u64,
)
    ensures
        (spec_join(primary, secondary, now) is Ok) <==> match (primary, secondary) {
            (Ok(p), Ok(s)) => p.result@ == s.result@ && p.state_hash@ == s.state_hash@
                && spec_attestations_valid(p.attestations@, now) && spec_attestations_valid(
                s.attestations@,
                now,
            ),
            _ => false,
        },
        spec_join(primary, secondary, now) matches Ok(pr) ==> primary == Ok::<
            ExecutionResult,
            TeeError,
        >(pr.primary) && secondary == Ok::<ExecutionResult, TeeError>(pr.secondary),
{
}

/// The join decision over the two backends' attestation fetches: either
/// error propagates, an empty fetch on either side is `MissingAttestation`,
/// and otherwise the first attestation of each side is returned as a pair,
/// without equality or validity checks.
pub open spec fn spec_join_attestations(
    primary: Result<Vec<TeeAttestation>, TeeError>,
    secondary: Result<Vec<TeeAttestation>, TeeError>,
) -> Result<(TeeAttestation, TeeAttestation), ConsensusError> {
    match primary {
        Err(e) => Err(ConsensusError::BackendUnavailable(e)),
        Ok(a) => match secondary {
            Err(e) => Err(ConsensusError::BackendUnavailable(e)),
            Ok(b) => if a@.len() == 0 || b@.len() == 0 {
                Err(ConsensusError::MissingAttestation)
            } else {
                Ok((a@[0], b@[0]))
            },
        },
    }
}

/// Join the two backends' attestation fetches into one pair.
pub fn join_attestations(
    primary: Result<Vec<TeeAttestation>, TeeError>,
    secondary: Result<Vec<TeeAttestation>, TeeError>,
) -> (r: Result<(TeeAttestation, TeeAttestation), ConsensusError>)
    ensures
        r == spec_join_attestations(primary, secondary),
{
    let a = match primary {
        Err(e) => {
            return Err(ConsensusError::BackendUnavailable(e));
        },
        Ok(a) => a,
    };
    let b = match secondary {
        Err(e) => {
            return Err(ConsensusError::BackendUnavailable(e));
        },
        Ok(b) => b,
    };
    if a.len() == 0 || b.len() == 0 {
        return Err(ConsensusError::MissingAttestation);
    }
    let mut a = a;
    let mut b = b;
    let first_a = a.remove(0);
    let first_b = b.remove(0);
    Ok((first_a, first_b))
}

/// The join decision over the two backends' health reports: either side's
/// failure propagates unchanged, the first side's first; otherwise the pair
/// is healthy exactly when both sides reported healthy.
pub open spec fn spec_join_health(
    primary: Result<bool, TeeError>,
    secondary: Result<bool, TeeError>,
) -> Result<bool, TeeError> {
    match primary {
        Err(e) => Err(e),
        Ok(a) => match secondary {
            Err(e) => Err(e),
            Ok(b) => Ok(a && b),
        },
    }
}

/// Join the two backends' health reports into one.
pub fn join_health(primary: Result<bool, TeeError>, secondary: Result<bool, TeeError>) -> (r:
    Result<bool, TeeError>)
    ensures
        r == spec_join_health(primary, secondary),
{
    let a = match primary {
        Err(e) => {
            return Err(e);
        },
        Ok(v) => v,
    };
    let b = match secondary {
        Err(e) => {
            return Err(e);
        },
        Ok(v) => v,
    };
    Ok(a && b)
}

/// Two independent backends executing every job redundantly.
pub struct TeeExecutorPair<A: TeeExecutor, B: TeeExecutor> {
    /// The first backend.
    pub primary: A,
    /// The second backend.
    pub secondary: B,
    /// Validator applied to each side's attestations.
    pub validator: TeeVerifier,
}

impl<A: TeeExecutor, B: TeeExecutor> TeeExecutorPair<A, B> {
    /// Pair two backends, validating attestations with the given verifier.
    pub fn new(primary: A, secondary: B, validator: TeeVerifier) -> (r: Self)
        ensures
            r.validator == validator,
    {
        TeeExecutorPair { primary, secondary, validator }
    }

    /// Run one payload on both backends and accept the result only on full
    /// agreement.
    ///
    /// Both calls are made before anything is compared, so the comparison is
    /// a barrier over both outcomes.  A result comes back only when both
    /// outputs are identical, both state hashes are identical, and each
    /// side's attestations independently pass structural validation; every
    /// failure is a [`ConsensusError`] without any partial result.
    pub fn execute(&self, payload: &ExecutionPayload, now: u64) -> (r: Result<
        PairedExecutionResult,
        ConsensusError,
    >)
        ensures
            r matches Ok(pr) ==> {
                &&& pr.primary.result@ == pr.secondary.result@
                &&& pr.primary.state_hash@ == pr.secondary.state_hash@
                &&& spec_attestations_valid(pr.primary.attestations@, now)
                &&& spec_attestations_valid(pr.secondary.attestations@, now)
            },
    {
        let primary_result = self.primary.execute(payload);
        let secondary_result = self.secondary.execute(payload);
        join_results(primary_result, secondary_result, &self.validator, now)
    }

    /// Fetch both sides' attestations and return them as a pair.
    ///
    /// No equality or validity check is applied here; that is `execute`'s
    /// job.  Either side's failure, or an empty fetch, is an error.
    pub fn get_attestations(&self) -> (r: Result<
        (TeeAttestation, TeeAttestation),
        ConsensusError,
    >) {
        let a = self.primary.get_attestations();
        let b = self.secondary.get_attestations();
        join_attestations(a, b)
    }

    /// Report healthy only when both backends report healthy; either side's
    /// failure propagates at once.  The decision over the two reports is
    /// [`join_health`], whose contract pins it for every pair of outcomes.
    pub fn health_check(&self) -> (r: Result<bool, TeeError>) {
        let a = self.primary.health_check();
        let b = self.secondary.health_check();
        join_health(a, b)
    }
}

} // verus!
