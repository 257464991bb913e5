//! Structural, per-platform validation of attestations.
//!
//! Validation is structural only: sizes, emptiness and timestamps.  The
//! default signature check accepts every signature blob of the right length
//! for its platform; it is explicitly not a cryptographic guarantee, and a
//! real deployment must put genuine signature-chain verification in its
//! place.

use vstd::prelude::*;

use crate::digest::{all_zero, bytes_eq, hash_to_vec, is_all_zero, sha256, sha256_of};
use crate::types::{ExecutionResult, TeeAttestation, TeeConfig, TeeType, VerifyError};

verus! {

/// Maximum age of an attestation, in seconds: one hour.
pub const MAX_ATTESTATION_AGE: u64 = 3600;

/// The fixed measurement length of a platform: an SGX measurement is a
/// SHA-256 digest; an SEV measurement carries additional platform data.
pub open spec fn spec_measurement_len(t: TeeType) -> int {
    match t {
        TeeType::SGX => 32,
        TeeType::SEV => 48,
    }
}

/// The fixed signature length of a platform: ECDSA for SGX, RSA-4096 for
/// SEV.
pub open spec fn spec_signature_len(t: TeeType) -> int {
    match t {
        TeeType::SGX => 64,
        TeeType::SEV => 512,
    }
}

/// The structural validation decision for one attestation, checked in
/// order: the measurement must be non-empty, not all zero, and of its
/// platform's fixed length; the signature must be of its platform's fixed
/// length; the timestamp must not lie in the future nor more than
/// [`MAX_ATTESTATION_AGE`] seconds in the past.
pub open spec fn spec_validate(a: TeeAttestation, now: u64) -> Result<(), VerifyError> {
    if a.measurement@.len() == 0 {
        Err(VerifyError::EmptyMeasurement)
    } else if all_zero(a.measurement@) {
        Err(VerifyError::ZeroMeasurement)
    } else if a.measurement@.len() != spec_measurement_len(a.enclave_type) {
        Err(VerifyError::MeasurementLength)
    } else if a.signature@.len() != spec_signature_len(a.enclave_type) {
        Err(VerifyError::SignatureLength)
    } else if a.timestamp > now {
        Err(VerifyError::FutureTimestamp)
    } else if now > a.timestamp + MAX_ATTESTATION_AGE {
        Err(VerifyError::Expired)
    } else {
        Ok(())
    }
}

/// Whether an attestation passes structural validation.
pub open spec fn spec_attestation_valid(a: TeeAttestation, now: u64) -> bool {
    spec_validate(a, now) is Ok
}

/// Whether a result carries at least one attestation and every one of them
/// passes structural validation.
pub open spec fn spec_attestations_valid(atts: Seq<TeeAttestation>, now: u64) -> bool {
    atts.len() > 0 && forall|i: int| 0 <= i < atts.len() ==> spec_attestation_valid(atts[i], now)
}

/// The first validation failure in a sequence of attestations, if any.
pub open spec fn spec_validate_all(atts: Seq<TeeAttestation>, now: u64) -> Result<(), VerifyError>
    decreases atts.len(),
{
    if atts.len() == 0 {
        Ok(())
    } else {
        match spec_validate(atts[0], now) {
            Err(e) => Err(e),
            Ok(()) => spec_validate_all(atts.skip(1), now),
        }
    }
}

/// Scanning for the first failure succeeds exactly when every attestation is
/// valid.
pub proof fn lemma_validate_all_ok(atts: Seq<TeeAttestation>, now: u64)
    ensures
        (spec_validate_all(atts, now) is Ok) <==> (forall|i: int|
            0 <= i < atts.len() ==> spec_attestation_valid(atts[i], now)),
    decreases atts.len(),
{
    if atts.len() == 0 {
    } else {
        lemma_validate_all_ok(atts.skip(1), now);
        assert(forall|j: int| 0 <= j < atts.skip(1).len() ==> atts.skip(1)[j] == atts[j + 1]);
        if spec_validate(atts[0], now) is Ok && (spec_validate_all(atts.skip(1), now) is Ok) {
            assert forall|i: int| 0 <= i < atts.len() implies spec_attestation_valid(
                atts[i],
                now,
            ) by {
                if i > 0 {
                    assert(atts.skip(1)[i - 1] == atts[i]);
                }
            }
        }
    }
}

/// The structural attestation verifier.
///
/// Its signature check is the default, non-cryptographic one: it accepts any
/// well-formed signature blob.  Inject real verification before relying on
/// it in production.
#[derive(Debug, Clone, PartialEq, Eq)]
pub struct TeeVerifier {
    /// Backend configuration the verifier was created with.
    pub config: TeeConfig,
}

impl TeeVerifier {
    /// A verifier over the given configuration.
    pub fn new(config: TeeConfig) -> (r: Self)
        ensures
            r.config == config,
    {
        TeeVerifier { config }
    }

    /// Whether a measurement has its platform's fixed length.
    ///
    /// A real deployment would additionally check the measurement against
    /// known-good values and revocation lists.
    pub fn verify_measurement(&self, tee_type: TeeType, measurement: &[u8]) -> (r: bool)
        ensures
            r == (measurement@.len() == spec_measurement_len(tee_type)),
    {
        let expected: usize = match tee_type {
            TeeType::SGX => 32,
            TeeType::SEV => 48,
        };
        measurement.len() == expected
    }

    /// Whether a signature blob has its platform's fixed length.
    ///
    /// The measurement is taken so that a real implementation can verify the
    /// signature over it; the default structural check does not read it.
    pub fn verify_signature(&self, tee_type: TeeType, signature: &[u8], _measurement: &[u8]) -> (r:
        bool)
        ensures
            r == (signature@.len() == spec_signature_len(tee_type)),
    {
        let expected: usize = match tee_type {
            TeeType::SGX => 64,
            TeeType::SEV => 512,
        };
        signature.len() == expected
    }

    /// Validate one attestation structurally, against the current time.
    pub fn verify_attestation(&self, attestation: &TeeAttestation, now: u64) -> (r: Result<
        (),
        VerifyError,
    >)
        ensures
            r == spec_validate(*attestation, now),
    {
        if attestation.measurement.len() == 0 {
            return Err(VerifyError::EmptyMeasurement);
        }
        if is_all_zero(&attestation.measurement) {
            return Err(VerifyError::ZeroMeasurement);
        }
        if !self.verify_measurement(attestation.enclave_type, attestation.measurement.as_slice()) {
            return Err(VerifyError::MeasurementLength);
        }
        if !self.verify_signature(
            attestation.enclave_type,
            attestation.signature.as_slice(),
            attestation.measurement.as_slice(),
        ) {
            return Err(VerifyError::SignatureLength);
        }
        if attestation.timestamp > now {
            return Err(VerifyError::FutureTimestamp);
        }
        if now > attestation.timestamp && now - attestation.timestamp > MAX_ATTESTATION_AGE {
            return Err(VerifyError::Expired);
        }
        Ok(())
    }

    /// Whether a result carries at least one attestation and all of them
    /// pass structural validation.
    pub fn attestations_valid(&self, result: &ExecutionResult, now: u64) -> (r: bool)
        ensures
            r == spec_attestations_valid(result.attestations@, now),
    {
        let n = result.attestations.len();
        if n == 0 {
            return false;
        }
        let mut i: usize = 0;
        while i < n
            invariant
                i <= n,
                n == result.attestations@.len(),
                forall|j: int|
                    0 <= j < i ==> spec_attestation_valid(result.attestations@[j], now),
            decreases n - i,
        {
            if self.verify_attestation(&result.attestations[i], now).is_err() {
                return false;
            }
            i = i + 1;
        }
        true
    }

    /// Validate a whole result: it must carry at least one attestation, each
    /// attestation must validate, and its state hash must equal the digest
    /// of its output.
    pub fn verify_result(&self, result: &ExecutionResult, now: u64) -> (r: Result<(), VerifyError>)
        ensures
            r == (if result.attestations@.len() == 0 {
                Err::<(), VerifyError>(VerifyError::NoAttestations)
            } else {
                match spec_validate_all(result.attestations@, now) {
                    Err(e) => Err::<(), VerifyError>(e),
                    Ok(()) => if sha256_of(result.result@) == result.state_hash@ {
                        Ok::<(), VerifyError>(())
                    } else {
                        Err::<(), VerifyError>(VerifyError::StateHashMismatch)
                    },
                }
            }),
    {
        let n = result.attestations.len();
        if n == 0 {
            return Err(VerifyError::NoAttestations);
        }
        let mut i: usize = 0;
        proof {
            assert(result.attestations@.skip(0) =~= result.attestations@);
        }
        while i < n
            invariant
                i <= n,
                n == result.attestations@.len(),
                spec_validate_all(result.attestations@.skip(i as int), now) == spec_validate_all(
                    result.attestations@,
                    now,
                ),
            decreases n - i,
        {
            let ghost rest = result.attestations@.skip(i as int);
            proof {
                assert(rest[0] == result.attestations@[i as int]);
            }
            match self.verify_attestation(&result.attestations[i], now) {
                Err(e) => {
                    proof {
                        assert(spec_validate_all(rest, now) == Err::<(), VerifyError>(e));
                    }
                    return Err(e);
                },
                Ok(()) => {
                    proof {
                        assert(rest.skip(1) =~= result.attestations@.skip(i + 1 as int));
                    }
                    i = i + 1;
                },
            }
        }
        proof {
            assert(result.attestations@.skip(n as int) =~= Seq::<TeeAttestation>::empty());
        }
        let digest = sha256(result.result.as_slice());
        let digest_vec = hash_to_vec(&digest);
        if bytes_eq(&digest_vec, &result.state_hash) {
            Ok(())
        } else {
            Err(VerifyError::StateHashMismatch)
        }
    }
}

} // verus!
