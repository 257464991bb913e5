//! The computation that runs inside the enclave: a byte-sum placeholder
//! whose state hash tracks the last input.

use vstd::prelude::*;

use crate::digest::{sha256, sha256_of};
use crate::types::{ContractError, ExecutionPayload};

verus! {

/// The sum of a byte sequence, reduced modulo 256 at every step.
pub open spec fn spec_byte_sum(s: Seq<u8>) -> int
    decreases s.len(),
{
    if s.len() == 0 {
        0
    } else {
        (spec_byte_sum(s.drop_last()) + s.last()) % 256
    }
}

/// Internal engine state.
struct ComputationState {
    total_executions: u64,
    current_hash: [u8; 32],
}

/// Computation engine that runs inside the trusted environment.
pub struct ComputationEngine {
    state: ComputationState,
}

impl ComputationEngine {
    /// How many executions the engine has performed.
    pub closed spec fn spec_count(self) -> u64 {
        self.state.total_executions
    }

    /// The digest of the last input, or all zeroes before the first run.
    pub closed spec fn spec_hash(self) -> Seq<u8> {
        self.state.current_hash@
    }

    /// A fresh engine: no executions, all-zero state hash.
    pub fn new() -> (r: Self)
        ensures
            r.spec_count() == 0,
            r.spec_hash() == Seq::new(32, |i: int| 0u8),
    {
        let current_hash: [u8; 32] = [0; 32];
        proof {
            assert(current_hash@ =~= Seq::new(32, |i: int| 0u8));
        }
        ComputationEngine { state: ComputationState { total_executions: 0, current_hash } }
    }

    /// Execute one payload: the output is the single byte holding the sum of
    /// the input bytes modulo 256; the state hash becomes the input's
    /// digest and the execution count grows by one.
    pub fn execute(&mut self, payload: ExecutionPayload) -> (r: Result<Vec<u8>, ContractError>)
        requires
            old(self).spec_count() < u64::MAX,
        ensures
            r is Ok,
            r matches Ok(v) ==> v@ == seq![spec_byte_sum(payload.input@) as u8],
            final(self).spec_count() == old(self).spec_count() + 1,
            final(self).spec_hash() == sha256_of(payload.input@),
    {
        let n = payload.input.len();
        let mut sum: u64 = 0;
        let mut i: usize = 0;
        while i < n
            invariant
                i <= n,
                n == payload.input@.len(),
                sum < 256,
                sum == spec_byte_sum(payload.input@.subrange(0, i as int)),
            decreases n - i,
        {
            proof {
                assert(payload.input@.subrange(0, (i + 1) as int).drop_last() =~= payload.input@
                    .subrange(0, i as int));
                assert(payload.input@.subrange(0, (i + 1) as int).last() == payload.input@[
                    i as int]);
            }
            sum = (sum + payload.input[i] as u64) % 256;
            i = i + 1;
        }
        proof {
            assert(payload.input@.subrange(0, n as int) =~= payload.input@);
        }
        self.state.total_executions = self.state.total_executions + 1;
        self.state.current_hash = sha256(payload.input.as_slice());
        let mut out: Vec<u8> = Vec::new();
        out.push(sum as u8);
        proof {
            assert(out@ =~= seq![spec_byte_sum(payload.input@) as u8]);
        }
        Ok(out)
    }

    /// The current state hash.
    pub fn get_state_hash(&self) -> (r: [u8; 32])
        ensures
            r@ == self.spec_hash(),
    {
        self.state.current_hash
    }

    /// The number of executions performed so far.
    pub fn get_execution_count(&self) -> (r: u64)
        ensures
            r == self.spec_count(),
    {
        self.state.total_executions
    }
}

} // verus!
