use tee_consensus::accumulator::{
    compute_initial_witness, AccumulatorElement, AccumulatorParams, AttestationAccumulator,
};
use tee_consensus::types::{AccError, TeeAttestation, TeeType};

const WEEK: u64 = 7 * 24 * 60 * 60;

fn params(max_size: u64) -> AccumulatorParams {
    AccumulatorParams { max_size, max_witness_age: WEEK, min_attestations: 2 }
}

fn sgx_attestation(now: u64) -> TeeAttestation {
    TeeAttestation {
        enclave_type: TeeType::SGX,
        measurement: vec![1; 32],
        signature: vec![1; 64],
        timestamp: now,
    }
}

fn sev_attestation(now: u64) -> TeeAttestation {
    TeeAttestation {
        enclave_type: TeeType::SEV,
        measurement: vec![2; 32],
        signature: vec![2; 512],
        timestamp: now,
    }
}

#[test]
fn test_dual_attestation_verification() {
    let mut acc = AttestationAccumulator::new();
    acc.init(params(1000)).unwrap();
    let now = 1_700_000_000;
    let sgx = sgx_attestation(now);
    let sev = sev_attestation(now);

    acc.register_attestation(1, &sgx).unwrap();
    acc.register_attestation(1, &sev).unwrap();

    assert!(acc.verify_attestation(1, &sgx, &sev, now).unwrap());
}

#[test]
fn test_attestation_flow() {
    let mut acc = AttestationAccumulator::new();
    acc.init(params(1000)).unwrap();
    let now = 42;
    let sgx = sgx_attestation(now);
    let sev = sev_attestation(now);

    acc.register_attestation(7, &sgx).unwrap();
    acc.register_attestation(7, &sev).unwrap();

    let result = acc.verify_attestation(7, &sgx, &sev, now).unwrap();
    assert!(result);
}

#[test]
fn size_grows_by_one_per_registration_and_full_leaves_state_unchanged() {
    let mut acc = AttestationAccumulator::new();
    acc.init(params(2)).unwrap();
    let now = 10;
    assert_eq!(acc.state.as_ref().unwrap().size, 0);

    acc.register_attestation(1, &sgx_attestation(now)).unwrap();
    assert_eq!(acc.state.as_ref().unwrap().size, 1);

    acc.register_attestation(2, &sev_attestation(now)).unwrap();
    assert_eq!(acc.state.as_ref().unwrap().size, 2);

    let value_before = acc.state.as_ref().unwrap().value;
    let r = acc.register_attestation(3, &sgx_attestation(now));
    assert_eq!(r, Err(AccError::Full));
    assert_eq!(acc.state.as_ref().unwrap().size, 2);
    assert_eq!(acc.state.as_ref().unwrap().value, value_before);
}

#[test]
fn witness_recomputation_is_deterministic() {
    let snapshot = [9u8; 32];
    let element = AccumulatorElement {
        executor: 5,
        measurement: vec![1; 32],
        enclave_type: TeeType::SGX,
        timestamp: 77,
    };
    let element_again = AccumulatorElement {
        executor: 5,
        measurement: vec![1; 32],
        enclave_type: TeeType::SGX,
        timestamp: 77,
    };
    let first = compute_initial_witness(&snapshot, &element);
    let second = compute_initial_witness(&snapshot, &element_again);
    assert_eq!(first, second);

    let other_snapshot = [8u8; 32];
    let third = compute_initial_witness(&other_snapshot, &element);
    assert_ne!(first, third);
}

#[test]
fn verify_accepts_registered_measurements_and_rejects_flipped_bytes() {
    let mut acc = AttestationAccumulator::new();
    acc.init(params(1000)).unwrap();
    let now = 500;
    let sgx = sgx_attestation(now);
    let sev = sev_attestation(now);
    acc.register_attestation(1, &sgx).unwrap();
    acc.register_attestation(1, &sev).unwrap();

    assert!(acc.verify_attestation(1, &sgx, &sev, now).unwrap());

    let mut sgx_flipped = sgx.clone();
    sgx_flipped.measurement[0] = 9;
    assert_eq!(
        acc.verify_attestation(1, &sgx_flipped, &sev, now),
        Err(AccError::MeasurementMismatch)
    );

    let mut sev_flipped = sev.clone();
    sev_flipped.measurement[31] = 7;
    assert_eq!(
        acc.verify_attestation(1, &sgx, &sev_flipped, now),
        Err(AccError::MeasurementMismatch)
    );
}

#[test]
fn verify_rejects_unregistered_and_stale_executors() {
    let mut acc = AttestationAccumulator::new();
    acc.init(params(1000)).unwrap();
    let now = 1000;
    let sgx = sgx_attestation(now);
    let sev = sev_attestation(now);

    assert_eq!(
        acc.verify_attestation(99, &sgx, &sev, now),
        Err(AccError::NotRegistered)
    );

    acc.register_attestation(1, &sgx).unwrap();
    acc.register_attestation(1, &sev).unwrap();
    let too_late = now + WEEK + 1;
    assert_eq!(
        acc.verify_attestation(1, &sgx, &sev, too_late),
        Err(AccError::Stale)
    );
}

#[test]
fn init_is_created_exactly_once_and_operations_need_it() {
    let mut acc = AttestationAccumulator::new();
    let sgx = sgx_attestation(3);
    assert_eq!(
        acc.register_attestation(1, &sgx),
        Err(AccError::NotInitialized)
    );

    acc.init(params(10)).unwrap();
    assert_eq!(acc.init(params(10)), Err(AccError::AlreadyInitialized));
}

#[test]
fn verify_reports_missing_and_tampered_witnesses() {
    let mut acc = AttestationAccumulator::new();
    acc.init(params(1000)).unwrap();
    let now = 300;
    let sgx = sgx_attestation(now);
    let sev = sev_attestation(now);
    acc.register_attestation(1, &sgx).unwrap();
    acc.register_attestation(1, &sev).unwrap();

    let mut tampered = acc.clone();
    tampered.witnesses[0].value[0] ^= 1;
    assert_eq!(
        tampered.verify_attestation(1, &sgx, &sev, now),
        Err(AccError::InvalidWitness)
    );

    let mut orphaned = acc.clone();
    orphaned.witnesses.clear();
    assert_eq!(
        orphaned.verify_attestation(1, &sgx, &sev, now),
        Err(AccError::NoWitness)
    );
}

#[test]
fn registration_overwrites_witness_and_counts_attestations() {
    let mut acc = AttestationAccumulator::new();
    acc.init(params(1000)).unwrap();
    let sgx = sgx_attestation(50);
    let sev = sev_attestation(60);

    acc.register_attestation(4, &sgx).unwrap();
    assert_eq!(acc.witnesses.len(), 1);
    let first_witness = acc.witnesses[0].value;

    acc.register_attestation(4, &sev).unwrap();
    assert_eq!(acc.witnesses.len(), 1);
    assert_ne!(acc.witnesses[0].value, first_witness);

    assert_eq!(acc.records.len(), 1);
    assert_eq!(acc.records[0].attestation_count, 2);
    assert_eq!(acc.records[0].last_attestation, 60);
    assert_eq!(acc.records[0].sgx_measurement.as_deref(), Some(&[1u8; 32][..]));
    assert_eq!(acc.records[0].sev_measurement.as_deref(), Some(&[2u8; 32][..]));
}
