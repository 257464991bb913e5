//! Cross-backend execution verification against the accumulator.
//!
//! Where the paired executor joins two live backend calls, this module
//! compares two already-produced results: output equality, statistics within
//! agreed bounds, attestations checked through the accumulator, and state
//! consistency.

use vstd::prelude::*;

use crate::accumulator::AttestationAccumulator;
use crate::digest::{bytes_eq, copy_bytes};
use crate::types::{
    consensus_err_unit, ConsensusError, ExecutionResult, ExecutionStats, VerificationResult,
    copy_attestation, spec_att_eq,
};

verus! {

/// Parameters of the execution verifier.
#[derive(Debug, Clone, Copy, PartialEq, Eq, Structural)]
pub struct VerifierParams {
    /// Width of the verification window.
    pub window_size: u64,
    /// Minimum number of attestations expected per executor.
    pub min_attestations: u64,
}

/// Largest tolerated difference in execution time, in microseconds.
pub const MAX_TIME_DIFF: u64 = 1000;

/// Largest tolerated difference in memory use, in bytes: one megabyte.
pub const MAX_MEMORY_DIFF: u64 = 1048576;

/// Largest tolerated difference in syscall counts.
pub const MAX_SYSCALL_DIFF: u64 = 1000;

/// Absolute difference of two naturals.
pub open spec fn spec_abs_diff(a: int, b: int) -> int {
    if a >= b {
        a - b
    } else {
        b - a
    }
}

/// The statistics comparison: execution times, memory use and syscall
/// counts of the two sides must each lie within a fixed bound.
pub open spec fn spec_stats_check(a: ExecutionStats, b: ExecutionStats) -> Result<
    (),
    ConsensusError,
> {
    if spec_abs_diff(a.execution_time as int, b.execution_time as int) > MAX_TIME_DIFF {
        Err(ConsensusError::TimingMismatch)
    } else if spec_abs_diff(a.memory_used as int, b.memory_used as int) > MAX_MEMORY_DIFF {
        Err(ConsensusError::ResourceMismatch)
    } else if spec_abs_diff(a.syscall_count as int, b.syscall_count as int) > MAX_SYSCALL_DIFF {
        Err(ConsensusError::ExecutionMismatch)
    } else {
        Ok(())
    }
}

/// Check that two sides' execution statistics are close enough to have come
/// from the same computation.
pub fn verify_execution_stats(a: &ExecutionStats, b: &ExecutionStats) -> (r: Result<
    (),
    ConsensusError,
>)
    ensures
        r == spec_stats_check(*a, *b),
{
    let time_diff = if a.execution_time >= b.execution_time {
        a.execution_time - b.execution_time
    } else {
        b.execution_time - a.execution_time
    };
    if time_diff > MAX_TIME_DIFF {
        return Err(ConsensusError::TimingMismatch);
    }
    let mem_diff = if a.memory_used >= b.memory_used {
        a.memory_used - b.memory_used
    } else {
        b.memory_used - a.memory_used
    };
    if mem_diff > MAX_MEMORY_DIFF {
        return Err(ConsensusError::ResourceMismatch);
    }
    let sys_diff = if a.syscall_count >= b.syscall_count {
        a.syscall_count - b.syscall_count
    } else {
        b.syscall_count - a.syscall_count
    };
    if sys_diff > MAX_SYSCALL_DIFF {
        return Err(ConsensusError::ExecutionMismatch);
    }
    Ok(())
}

/// Check that two sides ended in the same state.
pub fn verify_state_consistency(a: &ExecutionResult, b: &ExecutionResult) -> (r: Result<
    (),
    ConsensusError,
>)
    ensures
        r == (if a.state_hash@ == b.state_hash@ {
            Ok::<(), ConsensusError>(())
        } else {
            Err::<(), ConsensusError>(ConsensusError::StateMismatch)
        }),
{
    if bytes_eq(&a.state_hash, &b.state_hash) {
        Ok(())
    } else {
        Err(ConsensusError::StateMismatch)
    }
}

/// The whole verification decision over two results, without the verified
/// pair itself: output equality, statistics bounds, per-side attestations
/// present, accumulator verification of the two attestations, and state
/// consistency, in that order.
pub open spec fn spec_verify_execution_outcome(
    acc: AttestationAccumulator,
    executor: u64,
    sgx_result: ExecutionResult,
    sev_result: ExecutionResult,
    now: u64,
) -> Result<(), ConsensusError> {
    if sgx_result.result@ != sev_result.result@ {
        Err(ConsensusError::ResultMismatch)
    } else {
        match spec_stats_check(sgx_result.stats, sev_result.stats) {
            Err(e) => Err(e),
            Ok(()) => if sgx_result.attestations@.len() == 0 || sev_result.attestations@.len()
                == 0 {
                Err(ConsensusError::MissingAttestation)
            } else {
                match acc.spec_verify(
                    executor,
                    sgx_result.attestations@[0],
                    sev_result.attestations@[0],
                    now,
                ) {
                    Err(_) => Err(ConsensusError::AttestationError),
                    Ok(valid) => if !valid {
                        Err(ConsensusError::AttestationError)
                    } else if sgx_result.state_hash@ != sev_result.state_hash@ {
                        Err(ConsensusError::StateMismatch)
                    } else {
                        Ok(())
                    },
                }
            },
        }
    }
}

/// Verify that two results agree and that their attestations stand in the
/// accumulator.
///
/// On success the returned value carries the agreed state hash and the two
/// attestations that were checked.
pub fn verify_execution(
    acc: &AttestationAccumulator,
    executor: u64,
    sgx_result: &ExecutionResult,
    sev_result: &ExecutionResult,
    now: u64,
) -> (r: Result<VerificationResult, ConsensusError>)
    requires
        acc.wf(),
    ensures
        r is Ok <==> spec_verify_execution_outcome(*acc, executor, *sgx_result, *sev_result, now)
            is Ok,
        r matches Err(e) ==> spec_verify_execution_outcome(
            *acc,
            executor,
            *sgx_result,
            *sev_result,
            now,
        ) == consensus_err_unit(e),
        r matches Ok(v) ==> {
            &&& v.verified
            &&& v.result_hash@ == sgx_result.state_hash@
            &&& spec_att_eq(v.sgx_attestation, sgx_result.attestations@[0])
            &&& spec_att_eq(v.sev_attestation, sev_result.attestations@[0])
        },
{
    if !bytes_eq(&sgx_result.result, &sev_result.result) {
        return Err(ConsensusError::ResultMismatch);
    }
    if let Err(e) = verify_execution_stats(&sgx_result.stats, &sev_result.stats) {
        return Err(e);
    }
    if sgx_result.attestations.len() == 0 || sev_result.attestations.len() == 0 {
        return Err(ConsensusError::MissingAttestation);
    }
    let sgx_att = &sgx_result.attestations[0];
    let sev_att = &sev_result.attestations[0];
    match acc.verify_attestation(executor, sgx_att, sev_att, now) {
        Err(_) => Err(ConsensusError::AttestationError),
        Ok(valid) => {
            if !valid {
                return Err(ConsensusError::AttestationError);
            }
            if let Err(e) = verify_state_consistency(sgx_result, sev_result) {
                return Err(e);
            }
            Ok(VerificationResult {
                verified: true,
                result_hash: copy_bytes(&sgx_result.state_hash),
                sgx_attestation: copy_attestation(sgx_att),
                sev_attestation: copy_attestation(sev_att),
            })
        },
    }
}

} // verus!
