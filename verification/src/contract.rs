//! Contract-side execution: an append-only state buffer whose hash attests
//! every input it has absorbed.

use vstd::prelude::*;

use crate::digest::{append_slice, hash_to_vec, repeat_byte, sha256, sha256_of};
use crate::types::{
    ContractError, ExecutionResult, ExecutionStats, TeeAttestation, TeeType,
};

verus! {

/// A contract that appends every input to its state and reports the state's
/// digest.
#[derive(Debug, Clone, PartialEq, Eq)]
pub struct TeeContract {
    state: Vec<u8>,
}

impl TeeContract {
    /// The bytes the contract has absorbed so far.
    pub closed spec fn spec_state(self) -> Seq<u8> {
        self.state@
    }

    /// A contract with empty state.
    pub fn new() -> (r: Self)
        ensures
            r.spec_state() == Seq::<u8>::empty(),
    {
        TeeContract { state: Vec::new() }
    }

    /// Absorb one input and return the echoed output with the new state's
    /// digest.
    ///
    /// The returned statistics and attestation are fixed placeholders, as
    /// the execution happens outside any real enclave; the attestation's
    /// timestamp is the caller's clock.
    pub fn execute(&mut self, input: &[u8], now: u64) -> (r: Result<ExecutionResult, ContractError>)
        ensures
            final(self).spec_state() == old(self).spec_state() + input@,
            r is Ok,
            r matches Ok(res) ==> {
                &&& res.result@ == input@
                &&& res.state_hash@ == sha256_of(old(self).spec_state() + input@)
                &&& res.stats.execution_time == 1000
                &&& res.stats.memory_used == final(self).spec_state().len()
                &&& res.stats.syscall_count == 10
                &&& res.attestations@.len() == 1
                &&& res.attestations@[0].enclave_type == TeeType::SGX
                &&& res.attestations@[0].timestamp == now
                &&& res.timestamp == now
            },
    {
        append_slice(&mut self.state, input);
        let digest = sha256(self.state.as_slice());
        let state_hash = hash_to_vec(&digest);
        let stats = ExecutionStats {
            execution_time: 1000,
            memory_used: self.state.len() as u64,
            syscall_count: 10,
        };
        let output = crate::contract::process_input(input);
        let attestation = TeeAttestation {
            enclave_type: TeeType::SGX,
            measurement: repeat_byte(1, 32),
            signature: repeat_byte(3, 64),
            timestamp: now,
        };
        let mut attestations: Vec<TeeAttestation> = Vec::new();
        attestations.push(attestation);
        Ok(ExecutionResult { result: output, state_hash, stats, attestations, timestamp: now })
    }
}

/// Echo an input unchanged: the placeholder contract computation.
pub fn process_input(input: &[u8]) -> (r: Vec<u8>)
    ensures
        r@ == input@,
{
    let mut r: Vec<u8> = Vec::new();
    append_slice(&mut r, input);
    r
}

/// Structurally check an attestation at the contract boundary: its
/// measurement must be present.
pub fn verify_attestation(attestation: &TeeAttestation) -> (r: Result<(), ContractError>)
    ensures
        r == (if attestation.measurement@.len() == 0 {
            Err::<(), ContractError>(ContractError::InvalidAttestation)
        } else {
            Ok::<(), ContractError>(())
        }),
{
    if attestation.measurement.len() == 0 {
        return Err(ContractError::InvalidAttestation);
    }
    Ok(())
}

/// Register an executor: accepted exactly when its attestation passes the
/// contract-boundary check.
pub fn register_executor(attestation: &TeeAttestation) -> (r: Result<(), ContractError>)
    ensures
        r == (if attestation.measurement@.len() == 0 {
            Err::<(), ContractError>(ContractError::InvalidAttestation)
        } else {
            Ok::<(), ContractError>(())
        }),
{
    verify_attestation(attestation)
}

} // verus!
