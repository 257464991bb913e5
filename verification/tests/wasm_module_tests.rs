use tee_consensus::types::{
    ExecutionParams, ExecutionPayload, ExecutionResult, ExecutionStats, TeeAttestation, TeeType,
};
use tee_consensus::wasm_module::{
    compute_measurement, execute_contract, execute_wasm, verify_execution_params, verify_result,
    verify_state, wasm_result_to_execution,
};

fn attestation(now: u64) -> TeeAttestation {
    TeeAttestation {
        enclave_type: TeeType::SGX,
        measurement: vec![1; 32],
        signature: vec![3; 64],
        timestamp: now,
    }
}

#[test]
fn test_wasm_execution() {
    let input = b"test input";
    let result = execute_wasm(input).unwrap();
    assert_eq!(result.output, input);
    assert!(result.proof.is_some());
}

#[test]
fn test_execution_params() {
    let wasm_bytes = b"test wasm code".to_vec();
    let measurement = compute_measurement(&wasm_bytes);

    let params = ExecutionParams {
        id_to: "test_contract".to_string(),
        expected_hash: vec![],
        detailed_proof: true,
        function_call: "test".to_string(),
    };
    assert!(verify_execution_params(&params, &wasm_bytes).is_ok());

    let params = ExecutionParams {
        id_to: "test_contract".to_string(),
        expected_hash: vec![0; 32],
        detailed_proof: true,
        function_call: "test".to_string(),
    };
    assert!(verify_execution_params(&params, &wasm_bytes).is_err());

    let params = ExecutionParams {
        id_to: "test_contract".to_string(),
        expected_hash: measurement.clone(),
        detailed_proof: true,
        function_call: "test".to_string(),
    };
    assert!(verify_execution_params(&params, &wasm_bytes).is_ok());
}

#[test]
fn test_verify_result() {
    let output = b"test output".to_vec();
    let state_hash = compute_measurement(&output);

    let stats = ExecutionStats { execution_time: 0, memory_used: 0, syscall_count: 0 };

    let result = ExecutionResult {
        result: output,
        state_hash,
        stats,
        attestations: vec![attestation(123)],
        timestamp: 123,
    };

    assert!(verify_result(&result).is_ok());
}

#[test]
fn verify_result_rejects_a_foreign_state_hash() {
    let result = ExecutionResult {
        result: b"out".to_vec(),
        state_hash: vec![0; 32],
        stats: ExecutionStats { execution_time: 0, memory_used: 0, syscall_count: 0 },
        attestations: vec![],
        timestamp: 0,
    };
    assert!(verify_result(&result).is_err());
}

#[test]
fn verify_state_compares_hashes_exactly() {
    assert!(verify_state(&[1, 2, 3], &[1, 2, 3]).is_ok());
    assert!(verify_state(&[1, 2, 3], &[1, 2, 4]).is_err());
    assert!(verify_state(&[], &[]).is_ok());
}

#[test]
fn execute_contract_echoes_the_payload() {
    let payload = ExecutionPayload { input: b"echo me".to_vec(), ..Default::default() };
    let result = execute_contract(&payload, 77).unwrap();
    assert_eq!(result.result, b"echo me".to_vec());
    assert_eq!(result.state_hash, vec![0; 32]);
    assert_eq!(result.stats.execution_time, 100);
    assert_eq!(result.stats.memory_used, 1024);
    assert_eq!(result.stats.syscall_count, 5);
    assert_eq!(result.attestations.len(), 1);
    assert_eq!(result.timestamp, 77);
}

#[test]
fn wasm_results_become_execution_results_with_their_proof_as_state() {
    let wasm = execute_wasm(b"data").unwrap();
    let result = wasm_result_to_execution(wasm, 55);
    assert_eq!(result.result, b"data".to_vec());
    assert_eq!(result.state_hash, compute_measurement(b"data"));
    assert_eq!(result.timestamp, 55);
    assert_eq!(result.attestations.len(), 1);
}
