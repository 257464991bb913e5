//! The module-side execution helpers: measurement, echo execution, and
//! result and parameter verification.
//!
//! The raw-pointer entry points that a wasm host calls live outside the
//! library; they decode a payload, call these functions, and encode what
//! comes back.

use vstd::prelude::*;

use crate::digest::{all_zero, bytes_eq, hash_to_vec, repeat_byte, sha256, sha256_of, slices_eq};
use crate::types::{
    ExecutionParams, ExecutionPayload, ExecutionResult, ExecutionStats, TeeAttestation, TeeError,
    TeeType,
};

verus! {

/// What one in-module execution produced.
#[derive(Debug, Clone, PartialEq, Eq)]
pub struct WasmExecutionResult {
    /// Output bytes.
    pub output: Vec<u8>,
    /// Digest of the input, as proof of what was processed.
    pub proof: Option<Vec<u8>>,
}

/// The measurement of a byte string: its SHA-256 digest.
pub fn compute_measurement(data: &[u8]) -> (r: Vec<u8>)
    ensures
        r@ == sha256_of(data@),
{
    let digest = sha256(data);
    hash_to_vec(&digest)
}

/// Run the placeholder in-module computation: echo the input and prove it
/// with the input's measurement.
pub fn execute_wasm(input: &[u8]) -> (r: Result<WasmExecutionResult, TeeError>)
    ensures
        r is Ok,
        r matches Ok(w) ==> {
            &&& w.output@ == input@
            &&& w.proof matches Some(p) && p@ == sha256_of(input@)
        },
{
    let measurement = compute_measurement(input);
    let output = crate::contract::process_input(input);
    Ok(WasmExecutionResult { output, proof: Some(measurement) })
}

/// Compare a state hash with an expected one; a mismatch is a verification
/// failure.
pub fn verify_state(state_hash: &[u8], expected_hash: &[u8]) -> (r: Result<(), TeeError>)
    ensures
        r == (if state_hash@ == expected_hash@ {
            Ok::<(), TeeError>(())
        } else {
            Err::<(), TeeError>(TeeError::Verification)
        }),
{
    if slices_eq(state_hash, expected_hash) {
        Ok(())
    } else {
        Err(TeeError::Verification)
    }
}

/// Check execution parameters against the module bytes: when an expected
/// hash is given, the module's measurement must equal it.
pub fn verify_execution_params(params: &ExecutionParams, wasm_bytes: &[u8]) -> (r: Result<
    bool,
    TeeError,
>)
    ensures
        r == (if params.expected_hash@.len() == 0 {
            Ok::<bool, TeeError>(true)
        } else if sha256_of(wasm_bytes@) == params.expected_hash@ {
            Ok::<bool, TeeError>(true)
        } else {
            Err::<bool, TeeError>(TeeError::Verification)
        }),
{
    if params.expected_hash.len() == 0 {
        return Ok(true);
    }
    let measurement = compute_measurement(wasm_bytes);
    if bytes_eq(&measurement, &params.expected_hash) {
        Ok(true)
    } else {
        Err(TeeError::Verification)
    }
}

/// Check a result against its own output: the state hash must be the
/// output's measurement.
pub fn verify_result(result: &ExecutionResult) -> (r: Result<bool, TeeError>)
    ensures
        r == (if sha256_of(result.result@) == result.state_hash@ {
            Ok::<bool, TeeError>(true)
        } else {
            Err::<bool, TeeError>(TeeError::Verification)
        }),
{
    let measurement = compute_measurement(result.result.as_slice());
    if bytes_eq(&measurement, &result.state_hash) {
        Ok(true)
    } else {
        Err(TeeError::Verification)
    }
}

/// Run the placeholder contract over a payload: the output echoes the
/// input, with fixed statistics and a placeholder attestation stamped with
/// the caller's clock.
pub fn execute_contract(payload: &ExecutionPayload, now: u64) -> (r: Result<
    ExecutionResult,
    TeeError,
>)
    ensures
        r is Ok,
        r matches Ok(res) ==> {
            &&& res.result@ == payload.input@
            &&& res.state_hash@.len() == 32
            &&& all_zero(res.state_hash@)
            &&& res.stats == (ExecutionStats {
                execution_time: 100,
                memory_used: 1024,
                syscall_count: 5,
            })
            &&& res.attestations@.len() == 1
            &&& res.attestations@[0].enclave_type == TeeType::SGX
            &&& res.attestations@[0].timestamp == now
            &&& res.timestamp == now
        },
{
    let output = crate::contract::process_input(payload.input.as_slice());
    let state_hash = repeat_byte(0, 32);
    let stats = ExecutionStats { execution_time: 100, memory_used: 1024, syscall_count: 5 };
    let attestation = TeeAttestation {
        enclave_type: TeeType::SGX,
        measurement: repeat_byte(1, 32),
        signature: repeat_byte(3, 64),
        timestamp: now,
    };
    let mut attestations: Vec<TeeAttestation> = Vec::new();
    attestations.push(attestation);
    Ok(ExecutionResult { result: output, state_hash, stats, attestations, timestamp: now })
}

/// Wrap what the in-module computation produced as a full execution result:
/// the proof becomes the state hash, statistics are zeroed, and a
/// placeholder attestation is stamped with the caller's clock.
pub fn wasm_result_to_execution(w: WasmExecutionResult, now: u64) -> (r: ExecutionResult)
    ensures
        r.result@ == w.output@,
        w.proof matches Some(p) ==> r.state_hash@ == p@,
        w.proof is None ==> r.state_hash@.len() == 0,
        r.stats == (ExecutionStats { execution_time: 0, memory_used: 0, syscall_count: 0 }),
        r.attestations@.len() == 1,
        r.timestamp == now,
{
    let state_hash = match w.proof {
        Some(p) => p,
        None => Vec::new(),
    };
    let stats = ExecutionStats { execution_time: 0, memory_used: 0, syscall_count: 0 };
    let attestation = TeeAttestation {
        enclave_type: TeeType::SGX,
        measurement: repeat_byte(1, 32),
        signature: repeat_byte(3, 64),
        timestamp: now,
    };
    let mut attestations: Vec<TeeAttestation> = Vec::new();
    attestations.push(attestation);
    ExecutionResult { result: w.output, state_hash, stats, attestations, timestamp: now }
}

} // verus!
