//! Dual-backend trusted-execution consensus core.
//!
//! The library runs one job on two independently-rooted trusted-execution
//! backends and accepts the result only when both outputs, both state hashes
//! and both attestations agree.  It holds:
//!
//! * an append-only cryptographic accumulator over registered executor
//!   attestations, with per-executor membership witnesses;
//! * structural per-platform attestation validation;
//! * the paired-execution join that enforces the 2-of-2 quorum;
//! * a retrying client configuration with bounded exponential backoff and
//!   fail-fast region health checks.

pub mod accumulator;
pub mod computation;
pub mod contract;
pub mod digest;
pub mod paired_executor;
pub mod retry;
pub mod runtime;
pub mod types;
pub mod validation;
pub mod verification;
pub mod wasm_module;
