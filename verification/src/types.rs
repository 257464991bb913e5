//! Shared data model: platforms, attestations, payloads, results, errors.
//!
//! Timestamps are plain integers (seconds since the epoch); whoever owns a
//! clock passes the current time in.  Byte strings are plain `Vec<u8>`.

use vstd::prelude::*;

verus! {

/// Type of trusted-execution environment.
#[derive(Debug, Clone, Copy, PartialEq, Eq, Structural)]
pub enum TeeType {
    /// Intel SGX.
    SGX,
    /// AMD SEV.
    SEV,
}

impl TeeType {
    /// Short human-readable name of the platform.
    pub fn label(&self) -> (r: &'static str)
        ensures
            *self == TeeType::SGX ==> r@ == "SGX"@,
            *self == TeeType::SEV ==> r@ == "SEV"@,
    {
        match self {
            TeeType::SGX => "SGX",
            TeeType::SEV => "SEV",
        }
    }
}

/// Attestation presented by a trusted-execution backend.
///
/// The measurement and signature lengths are fixed per platform (32/64 bytes
/// for SGX, 48/512 for SEV); the structural verifier rejects every other
/// length.  The accumulator stores measurements as presented and does not
/// itself validate them.
#[derive(Debug, Clone, PartialEq, Eq)]
pub struct TeeAttestation {
    /// Platform that produced the attestation.
    pub enclave_type: TeeType,
    /// Platform measurement (identity hash of the loaded code).
    pub measurement: Vec<u8>,
    /// Signature over the measurement.
    pub signature: Vec<u8>,
    /// When the attestation was produced, in seconds since the epoch.
    pub timestamp: u64,
}

/// Statistics about one execution.
#[derive(Debug, Clone, Copy, PartialEq, Eq, Structural)]
pub struct ExecutionStats {
    /// Execution time in microseconds.
    pub execution_time: u64,
    /// Memory used in bytes.
    pub memory_used: u64,
    /// Number of syscalls made.
    pub syscall_count: u64,
}

/// Parameters for one execution.
#[derive(Debug, Clone, PartialEq, Eq)]
pub struct ExecutionParams {
    /// Identifier of the contract the call is addressed to.
    pub id_to: String,
    /// Function to call in the deployed module.
    pub function_call: String,
    /// Whether to include a detailed proof.
    pub detailed_proof: bool,
    /// Expected result hash when verifying; empty when not.
    pub expected_hash: Vec<u8>,
}

impl Default for ExecutionParams {
    /// An empty addressee and the conventional entry point.
    fn default() -> (r: Self)
        ensures
            r.id_to@ == Seq::<char>::empty(),
            r.function_call@ == "execute"@,
            !r.detailed_proof,
            r.expected_hash@ == Seq::<u8>::empty(),
    {
        ExecutionParams {
            id_to: String::new(),
            function_call: "execute".to_owned(),
            detailed_proof: false,
            expected_hash: Vec::new(),
        }
    }
}

/// Input of one execution.
#[derive(Debug, Clone, PartialEq, Eq)]
pub struct ExecutionPayload {
    /// Input data to be processed.
    pub input: Vec<u8>,
    /// Additional parameters of the call.
    pub params: ExecutionParams,
}

impl Default for ExecutionPayload {
    /// An empty input with default parameters.
    fn default() -> (r: Self)
        ensures
            r.input@ == Seq::<u8>::empty(),
            r.params.function_call@ == "execute"@,
            r.params.expected_hash@ == Seq::<u8>::empty(),
            !r.params.detailed_proof,
    {
        ExecutionPayload { input: Vec::new(), params: ExecutionParams::default() }
    }
}

/// Result of one execution inside a backend.
#[derive(Debug, Clone, PartialEq, Eq)]
pub struct ExecutionResult {
    /// Output data.
    pub result: Vec<u8>,
    /// Hash of the final state.
    pub state_hash: Vec<u8>,
    /// Execution statistics.
    pub stats: ExecutionStats,
    /// Attestations presented with the result.
    pub attestations: Vec<TeeAttestation>,
    /// When the result was produced, in seconds since the epoch.
    pub timestamp: u64,
}

/// Both sides of a successful paired execution.
///
/// A value of this type exists only when both outputs and both state hashes
/// agreed and both sides' attestations passed validation: the paired executor
/// never returns one side alone.
#[derive(Debug, Clone, PartialEq, Eq)]
pub struct PairedExecutionResult {
    /// The first backend's verified result.
    pub primary: ExecutionResult,
    /// The second backend's verified result.
    pub secondary: ExecutionResult,
}

/// Configuration of a trusted-execution backend.
#[derive(Debug, Clone, PartialEq, Eq)]
pub struct TeeConfig {
    /// Region the backend serves.
    pub region_id: String,
    /// Maximum memory in bytes.
    pub max_memory: usize,
    /// Maximum execution time in seconds.
    pub max_execution_time: u64,
}

impl Default for TeeConfig {
    /// No region, one gigabyte of memory, one minute of execution time.
    fn default() -> (r: Self)
        ensures
            r.region_id@ == Seq::<char>::empty(),
            r.max_memory == 0x40000000usize,
            r.max_execution_time == 60,
    {
        TeeConfig { region_id: String::new(), max_memory: 0x40000000, max_execution_time: 60 }
    }
}

/// A group of workers that can run jobs.
#[derive(Debug, Clone, PartialEq, Eq)]
pub struct Region {
    /// Region identifier.
    pub id: String,
    /// Worker identifiers in this region.
    pub worker_ids: Vec<String>,
    /// Maximum number of concurrent tasks.
    pub max_tasks: u32,
}

/// Information about a region, as reported to callers.
#[derive(Debug, Clone, PartialEq, Eq)]
pub struct RegionInfo {
    /// Region identifier.
    pub id: String,
    /// Worker identifiers in this region.
    pub worker_ids: Vec<String>,
    /// Maximum number of concurrent tasks.
    pub max_tasks: u32,
}

/// State of one execution.
#[derive(Debug, Clone, Copy, PartialEq, Eq, Structural)]
pub enum ExecutionState {
    /// Not started yet.
    Initial,
    /// Executing inside the backend.
    Running,
    /// Completed successfully.
    Completed,
    /// Failed.
    Failed,
}

/// Proof of execution produced by a backend.
#[derive(Debug, Clone, PartialEq, Eq)]
pub struct ExecutionProof {
    /// Hash of the input data.
    pub input_hash: [u8; 32],
    /// Hash of the output data.
    pub output_hash: [u8; 32],
    /// Detailed execution trace, when requested.
    pub trace: Option<Vec<u8>>,
}

/// Input handed to a backend for execution.
#[derive(Debug, Clone, PartialEq, Eq)]
pub struct ExecutionInput {
    /// Input data.
    pub data: Vec<u8>,
    /// Expected output hash when verifying.
    pub expected_hash: Option<[u8; 32]>,
    /// Whether to include a detailed proof.
    pub detailed_proof: bool,
}

/// Outcome of comparing two paired execution results.
#[derive(Debug, Clone, PartialEq, Eq)]
pub struct VerificationResult {
    /// Whether the two executions were found to agree.
    pub verified: bool,
    /// The agreed state hash of the verified pair.
    pub result_hash: Vec<u8>,
    /// The SGX side's attestation.
    pub sgx_attestation: TeeAttestation,
    /// The SEV side's attestation.
    pub sev_attestation: TeeAttestation,
}

/// Lifecycle phase of the registration protocol.
#[derive(Debug, Clone, Copy, PartialEq, Eq, Structural)]
pub enum Phase {
    /// Executors may register.
    Registration,
    /// Jobs are being executed.
    Active,
    /// The protocol has finished.
    Completed,
}

/// Standing of a registered executor.
#[derive(Debug, Clone, Copy, PartialEq, Eq, Structural)]
pub enum ExecutorStatus {
    /// In good standing.
    Active,
    /// Temporarily suspended.
    Suspended,
    /// Permanently removed.
    Terminated,
}

/// Metadata kept about one registered executor.
#[derive(Debug, Clone, PartialEq, Eq)]
pub struct ExecutorMetadata {
    /// Stable identifier of the executor.
    pub executor: u64,
    /// Platform the executor runs on.
    pub tee_type: TeeType,
    /// Last measurement the executor presented.
    pub measurement: Vec<u8>,
    /// Current standing.
    pub status: ExecutorStatus,
    /// Time of the last attestation, in seconds since the epoch.
    pub last_attestation: u64,
    /// Number of executions performed.
    pub execution_count: u64,
}

/// Error raised at the backend boundary.
#[derive(Debug, Clone, Copy, PartialEq, Eq, Structural)]
pub enum TeeError {
    /// The backend failed while executing a job.
    Execution,
    /// A region was unknown, unhealthy or incompletely configured.
    Region,
    /// An attestation was rejected.
    Attestation,
    /// A configuration was rejected.
    Config,
    /// A contract-level failure.
    Contract,
    /// A transient network failure; the only error that is ever retried.
    Network,
    /// A verification of a result or proof failed.
    Verification,
}

/// Error raised by the attestation accumulator.
#[derive(Debug, Clone, Copy, PartialEq, Eq, Structural)]
pub enum AccError {
    /// `init` was called on an accumulator that already holds state.
    AlreadyInitialized,
    /// An operation other than `init` was called before `init`.
    NotInitialized,
    /// The accumulator has reached its configured maximum size.
    Full,
    /// No record exists for the executor.
    NotRegistered,
    /// The executor's last attestation is older than the configured window.
    Stale,
    /// A supplied measurement differs from the stored one for its platform.
    MeasurementMismatch,
    /// No witness is stored for the executor.
    NoWitness,
    /// The stored witness fails its self-consistency recomputation.
    InvalidWitness,
}

/// Error raised by structural attestation validation.
#[derive(Debug, Clone, Copy, PartialEq, Eq, Structural)]
pub enum VerifyError {
    /// The measurement is empty.
    EmptyMeasurement,
    /// Every byte of the measurement is zero.
    ZeroMeasurement,
    /// The measurement length does not match the platform's fixed size.
    MeasurementLength,
    /// The signature length does not match the platform's fixed size.
    SignatureLength,
    /// The attestation's timestamp lies strictly in the future.
    FutureTimestamp,
    /// The attestation is older than the allowed age.
    Expired,
    /// A result carried no attestation at all.
    NoAttestations,
    /// A result's state hash does not match the digest of its output.
    StateHashMismatch,
}

/// Error raised by the paired-execution consensus protocol.
///
/// No variant carries a partial result: when the two backends disagree the
/// caller receives the reason alone, never one side's output.
#[derive(Debug, Clone, Copy, PartialEq, Eq, Structural)]
pub enum ConsensusError {
    /// One backend call failed; the failure is propagated unchanged.
    BackendUnavailable(TeeError),
    /// The two backends produced different output bytes.
    ResultMismatch,
    /// The two backends produced different state hashes.
    StateMismatch,
    /// A side's attestation failed structural validation.
    AttestationError,
    /// A side presented no attestation.
    MissingAttestation,
    /// The two sides' execution times diverged beyond the allowed bound.
    TimingMismatch,
    /// The two sides' memory usage diverged beyond the allowed bound.
    ResourceMismatch,
    /// The two sides' syscall counts diverged beyond the allowed bound.
    ExecutionMismatch,
}

/// Error raised when a retrying-client configuration is rejected.
#[derive(Debug, Clone, Copy, PartialEq, Eq, Structural)]
pub enum ConfigError {
    /// `max_retries` was zero.
    ZeroRetries,
    /// `max_retries` exceeded its ceiling.
    TooManyRetries,
    /// `initial_retry_delay` exceeded `max_retry_delay`.
    RetryDelayOrder,
    /// `max_retry_delay` exceeded its ceiling.
    RetryDelayTooLarge,
    /// `connect_timeout` exceeded `request_timeout`.
    TimeoutOrder,
    /// `request_timeout` exceeded its ceiling.
    RequestTimeoutTooLarge,
}

/// Error raised by contract-level execution.
#[derive(Debug, Clone, Copy, PartialEq, Eq, Structural)]
pub enum ContractError {
    /// Execution failed inside the contract.
    ExecutionFailed,
    /// The input was rejected.
    InvalidInput,
    /// The stored state was inconsistent.
    StateError,
    /// An attestation was rejected.
    InvalidAttestation,
}

/// The unit-result form of a consensus error, for stating contracts.
pub open spec fn consensus_err_unit(e: ConsensusError) -> Result<(), ConsensusError> {
    Err(e)
}

/// Whether two attestations agree in every observable field.
pub open spec fn spec_att_eq(a: TeeAttestation, b: TeeAttestation) -> bool {
    &&& a.enclave_type == b.enclave_type
    &&& a.measurement@ == b.measurement@
    &&& a.signature@ == b.signature@
    &&& a.timestamp == b.timestamp
}

/// An owned copy of an attestation, equal to its source in every field.
pub fn copy_attestation(a: &TeeAttestation) -> (r: TeeAttestation)
    ensures
        spec_att_eq(r, *a),
{
    TeeAttestation {
        enclave_type: a.enclave_type,
        measurement: crate::digest::copy_bytes(&a.measurement),
        signature: crate::digest::copy_bytes(&a.signature),
        timestamp: a.timestamp,
    }
}

} // verus!
