use tee_consensus::paired_executor::{join_health, TeeExecutor, TeeExecutorPair};
use tee_consensus::types::{
    ConsensusError, ExecutionParams, ExecutionPayload, ExecutionResult, ExecutionStats,
    TeeAttestation, TeeConfig, TeeError, TeeType,
};
use tee_consensus::validation::TeeVerifier;

const NOW: u64 = 1_000_000;

struct FixedBackend {
    response: Result<ExecutionResult, TeeError>,
    attestations: Result<Vec<TeeAttestation>, TeeError>,
    health: Result<bool, TeeError>,
}

impl TeeExecutor for FixedBackend {
    fn execute(&self, _payload: &ExecutionPayload) -> Result<ExecutionResult, TeeError> {
        self.response.clone()
    }

    fn get_attestations(&self) -> Result<Vec<TeeAttestation>, TeeError> {
        self.attestations.clone()
    }

    fn health_check(&self) -> Result<bool, TeeError> {
        self.health.clone()
    }
}

fn valid_attestation() -> TeeAttestation {
    TeeAttestation {
        enclave_type: TeeType::SGX,
        measurement: vec![1; 32],
        signature: vec![1; 64],
        timestamp: NOW,
    }
}

fn result_with_output(output: &[u8]) -> ExecutionResult {
    ExecutionResult {
        result: output.to_vec(),
        state_hash: vec![5; 32],
        stats: ExecutionStats { execution_time: 10, memory_used: 20, syscall_count: 3 },
        attestations: vec![valid_attestation()],
        timestamp: NOW,
    }
}

fn backend_with(result: Result<ExecutionResult, TeeError>) -> FixedBackend {
    FixedBackend {
        response: result,
        attestations: Ok(vec![valid_attestation()]),
        health: Ok(true),
    }
}

fn payload() -> ExecutionPayload {
    ExecutionPayload { input: b"job".to_vec(), params: ExecutionParams::default() }
}

fn pair(
    a: FixedBackend,
    b: FixedBackend,
) -> TeeExecutorPair<FixedBackend, FixedBackend> {
    TeeExecutorPair::new(a, b, TeeVerifier::new(TeeConfig::default()))
}

#[test]
fn execute_accepts_full_agreement_and_returns_both_sides() {
    let executor = pair(
        backend_with(Ok(result_with_output(b"out"))),
        backend_with(Ok(result_with_output(b"out"))),
    );
    let paired = executor.execute(&payload(), NOW).unwrap();
    assert_eq!(paired.primary.result, b"out".to_vec());
    assert_eq!(paired.secondary.result, b"out".to_vec());
    assert_eq!(paired.primary.state_hash, paired.secondary.state_hash);
}

#[test]
fn execute_rejects_differing_outputs() {
    let executor = pair(
        backend_with(Ok(result_with_output(b"3"))),
        backend_with(Ok(result_with_output(b"4"))),
    );
    assert_eq!(
        executor.execute(&payload(), NOW),
        Err(ConsensusError::ResultMismatch)
    );
}

#[test]
fn execute_rejects_differing_state_hashes() {
    let mut divergent = result_with_output(b"out");
    divergent.state_hash = vec![6; 32];
    let executor = pair(
        backend_with(Ok(result_with_output(b"out"))),
        backend_with(Ok(divergent)),
    );
    assert_eq!(
        executor.execute(&payload(), NOW),
        Err(ConsensusError::StateMismatch)
    );
}

#[test]
fn execute_rejects_matching_outputs_with_a_bad_attestation() {
    let mut bad = result_with_output(b"out");
    bad.attestations[0].timestamp = NOW + 50;
    let executor = pair(
        backend_with(Ok(result_with_output(b"out"))),
        backend_with(Ok(bad)),
    );
    assert_eq!(
        executor.execute(&payload(), NOW),
        Err(ConsensusError::AttestationError)
    );
}

#[test]
fn execute_rejects_matching_outputs_without_attestations() {
    let mut naked = result_with_output(b"out");
    naked.attestations.clear();
    let executor = pair(
        backend_with(Ok(result_with_output(b"out"))),
        backend_with(Ok(naked)),
    );
    assert_eq!(
        executor.execute(&payload(), NOW),
        Err(ConsensusError::AttestationError)
    );
}

#[test]
fn execute_propagates_a_backend_failure_unchanged() {
    let executor = pair(
        backend_with(Err(TeeError::Network)),
        backend_with(Ok(result_with_output(b"out"))),
    );
    assert_eq!(
        executor.execute(&payload(), NOW),
        Err(ConsensusError::BackendUnavailable(TeeError::Network))
    );
}

#[test]
fn get_attestations_returns_the_pair_without_checks() {
    let mut old = valid_attestation();
    old.timestamp = 1;
    let a = FixedBackend {
        response: Err(TeeError::Execution),
        attestations: Ok(vec![valid_attestation()]),
        health: Ok(true),
    };
    let b = FixedBackend {
        response: Err(TeeError::Execution),
        attestations: Ok(vec![old]),
        health: Ok(true),
    };
    let executor = pair(a, b);
    let (first, second) = executor.get_attestations().unwrap();
    assert_eq!(first.timestamp, NOW);
    assert_eq!(second.timestamp, 1);
}

#[test]
fn get_attestations_rejects_an_empty_side() {
    let a = FixedBackend {
        response: Err(TeeError::Execution),
        attestations: Ok(vec![valid_attestation()]),
        health: Ok(true),
    };
    let b = FixedBackend {
        response: Err(TeeError::Execution),
        attestations: Ok(vec![]),
        health: Ok(true),
    };
    let executor = pair(a, b);
    assert_eq!(
        executor.get_attestations(),
        Err(ConsensusError::MissingAttestation)
    );
}

#[test]
fn health_join_propagates_errors_and_needs_both_sides() {
    assert_eq!(join_health(Ok(true), Ok(true)), Ok(true));
    assert_eq!(join_health(Ok(true), Ok(false)), Ok(false));
    assert_eq!(join_health(Ok(false), Ok(true)), Ok(false));
    assert_eq!(join_health(Err(TeeError::Network), Ok(true)), Err(TeeError::Network));
    assert_eq!(join_health(Ok(true), Err(TeeError::Region)), Err(TeeError::Region));
    assert_eq!(
        join_health(Err(TeeError::Execution), Err(TeeError::Region)),
        Err(TeeError::Execution)
    );
}

#[test]
fn health_check_needs_both_backends_healthy() {
    let healthy = || FixedBackend {
        response: Err(TeeError::Execution),
        attestations: Ok(vec![]),
        health: Ok(true),
    };
    let executor = pair(healthy(), healthy());
    assert_eq!(executor.health_check(), Ok(true));

    let sick = FixedBackend {
        response: Err(TeeError::Execution),
        attestations: Ok(vec![]),
        health: Err(TeeError::Region),
    };
    let executor = pair(healthy(), sick);
    assert_eq!(executor.health_check(), Err(TeeError::Region));
}
