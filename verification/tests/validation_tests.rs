// These tests exercise the default verifier, which is structural only and
// not cryptographic: it accepts any signature blob of the right length for
// its platform.  A deployment must inject real signature-chain verification.

use tee_consensus::types::{
    ExecutionResult, ExecutionStats, TeeAttestation, TeeConfig, TeeType, VerifyError,
};
use tee_consensus::validation::{TeeVerifier, MAX_ATTESTATION_AGE};
use tee_consensus::wasm_module::compute_measurement;

const NOW: u64 = 1_000_000;

fn stats() -> ExecutionStats {
    ExecutionStats { execution_time: 0, memory_used: 0, syscall_count: 0 }
}

#[test]
fn test_sgx_attestation() {
    let verifier = TeeVerifier::new(TeeConfig::default());
    let attestation = TeeAttestation {
        enclave_type: TeeType::SGX,
        measurement: vec![1; 32],
        signature: vec![1; 64],
        timestamp: NOW,
    };
    assert!(verifier.verify_attestation(&attestation, NOW).is_ok());
}

#[test]
fn test_sev_attestation() {
    let verifier = TeeVerifier::new(TeeConfig::default());
    let attestation = TeeAttestation {
        enclave_type: TeeType::SEV,
        measurement: vec![1; 48],
        signature: vec![1; 512],
        timestamp: NOW,
    };
    assert!(verifier.verify_attestation(&attestation, NOW).is_ok());
}

#[test]
fn test_mixed_attestations() {
    let verifier = TeeVerifier::new(TeeConfig::default());
    let output = b"test output".to_vec();
    let state_hash = compute_measurement(&output);
    let result = ExecutionResult {
        result: output,
        state_hash,
        stats: ExecutionStats { execution_time: 100, memory_used: 1024, syscall_count: 5 },
        attestations: vec![
            TeeAttestation {
                enclave_type: TeeType::SGX,
                measurement: vec![1; 32],
                signature: vec![1; 64],
                timestamp: NOW,
            },
            TeeAttestation {
                enclave_type: TeeType::SEV,
                measurement: vec![1; 48],
                signature: vec![1; 512],
                timestamp: NOW,
            },
        ],
        timestamp: 123456789,
    };
    assert!(verifier.verify_result(&result, NOW).is_ok());
}

#[test]
fn rejects_malformed_measurements_and_signatures() {
    let verifier = TeeVerifier::new(TeeConfig::default());
    let good = TeeAttestation {
        enclave_type: TeeType::SGX,
        measurement: vec![1; 32],
        signature: vec![1; 64],
        timestamp: NOW,
    };

    let mut empty = good.clone();
    empty.measurement = vec![];
    assert_eq!(
        verifier.verify_attestation(&empty, NOW),
        Err(VerifyError::EmptyMeasurement)
    );

    let mut zero = good.clone();
    zero.measurement = vec![0; 32];
    assert_eq!(
        verifier.verify_attestation(&zero, NOW),
        Err(VerifyError::ZeroMeasurement)
    );

    let mut short = good.clone();
    short.measurement = vec![1; 48];
    assert_eq!(
        verifier.verify_attestation(&short, NOW),
        Err(VerifyError::MeasurementLength)
    );

    let mut bad_sig = good.clone();
    bad_sig.signature = vec![1; 512];
    assert_eq!(
        verifier.verify_attestation(&bad_sig, NOW),
        Err(VerifyError::SignatureLength)
    );
}

#[test]
fn rejects_future_and_expired_timestamps() {
    let verifier = TeeVerifier::new(TeeConfig::default());
    let mut att = TeeAttestation {
        enclave_type: TeeType::SGX,
        measurement: vec![1; 32],
        signature: vec![1; 64],
        timestamp: NOW + 1,
    };
    assert_eq!(
        verifier.verify_attestation(&att, NOW),
        Err(VerifyError::FutureTimestamp)
    );

    att.timestamp = NOW - MAX_ATTESTATION_AGE - 1;
    assert_eq!(verifier.verify_attestation(&att, NOW), Err(VerifyError::Expired));

    att.timestamp = NOW - MAX_ATTESTATION_AGE;
    assert!(verifier.verify_attestation(&att, NOW).is_ok());
}

#[test]
fn verify_result_needs_attestations_and_a_matching_state_hash() {
    let verifier = TeeVerifier::new(TeeConfig::default());
    let output = b"abc".to_vec();
    let bare = ExecutionResult {
        result: output.clone(),
        state_hash: compute_measurement(&output),
        stats: stats(),
        attestations: vec![],
        timestamp: NOW,
    };
    assert_eq!(verifier.verify_result(&bare, NOW), Err(VerifyError::NoAttestations));

    let attested = ExecutionResult {
        attestations: vec![TeeAttestation {
            enclave_type: TeeType::SGX,
            measurement: vec![1; 32],
            signature: vec![1; 64],
            timestamp: NOW,
        }],
        ..bare.clone()
    };
    assert!(verifier.verify_result(&attested, NOW).is_ok());

    let mut tampered = attested.clone();
    tampered.state_hash[0] ^= 1;
    assert_eq!(
        verifier.verify_result(&tampered, NOW),
        Err(VerifyError::StateHashMismatch)
    );
}

#[test]
fn measurement_and_signature_sizes_are_platform_fixed() {
    let verifier = TeeVerifier::new(TeeConfig::default());
    assert!(verifier.verify_measurement(TeeType::SGX, &[1; 32]));
    assert!(!verifier.verify_measurement(TeeType::SGX, &[1; 48]));
    assert!(verifier.verify_measurement(TeeType::SEV, &[1; 48]));
    assert!(!verifier.verify_measurement(TeeType::SEV, &[1; 32]));
    assert!(verifier.verify_signature(TeeType::SGX, &[1; 64], &[1; 32]));
    assert!(!verifier.verify_signature(TeeType::SGX, &[1; 512], &[1; 32]));
    assert!(verifier.verify_signature(TeeType::SEV, &[1; 512], &[1; 48]));
    assert!(!verifier.verify_signature(TeeType::SEV, &[1; 64], &[1; 48]));
}

#[test]
fn sha256_digest_matches_the_published_test_vector() {
    let digest = compute_measurement(b"abc");
    let expected: [u8; 32] = [
        0xba, 0x78, 0x16, 0xbf, 0x8f, 0x01, 0xcf, 0xea, 0x41, 0x41, 0x40, 0xde, 0x5d, 0xae,
        0x22, 0x23, 0xb0, 0x03, 0x61, 0xa3, 0x96, 0x17, 0x7a, 0x9c, 0xb4, 0x10, 0xff, 0x61,
        0xf2, 0x00, 0x15, 0xad,
    ];
    assert_eq!(digest, expected.to_vec());
}
