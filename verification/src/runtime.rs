//! Runtime-facing pieces: the state-store port, its in-memory
//! implementation, and the executor that frames wasm calls into payloads.

use vstd::prelude::*;
use vstd::string::StringSliceAdditionalSpecFns;

use crate::digest::{append_slice, copy_bytes};
use crate::paired_executor::TeeExecutor;
use crate::types::{ExecutionParams, ExecutionPayload, ExecutionResult, TeeError};

verus! {

/// Configuration of a contract runtime.
#[derive(Debug, Clone, Copy, PartialEq, Eq, Structural)]
pub struct RuntimeConfig {
    /// Maximum memory in bytes.
    pub max_memory: usize,
}

impl Default for RuntimeConfig {
    /// One gigabyte of memory.
    fn default() -> (r: Self)
        ensures
            r.max_memory == 0x40000000usize,
    {
        RuntimeConfig { max_memory: 0x40000000 }
    }
}

/// Port to a per-contract state store; implementations live with whoever
/// owns the storage.
pub trait StateManager {
    /// The stored state of a contract; empty when none was stored.
    fn get_state(&self, contract_id: &[u8; 32]) -> Result<Vec<u8>, TeeError>;

    /// Replace the stored state of a contract.
    fn set_state(&mut self, contract_id: &[u8; 32], state: Vec<u8>) -> Result<(), TeeError>;
}

/// In-memory state store keyed by contract identifier.
#[derive(Debug, Clone, PartialEq, Eq)]
pub struct MockStateManager {
    /// Stored states, one entry per contract; ids are unique.
    entries: Vec<([u8; 32], Vec<u8>)>,
}

/// First stored state for a contract id, scanning left to right.
pub open spec fn find_state(s: Seq<([u8; 32], Vec<u8>)>, id: Seq<u8>) -> Option<Seq<u8>>
    decreases s.len(),
{
    if s.len() == 0 {
        None
    } else if s[0].0@ == id {
        Some(s[0].1@)
    } else {
        find_state(s.skip(1), id)
    }
}

/// An entry at index `i`, with no earlier entry for the same id, is what
/// the scan finds.
proof fn lemma_find_state_present(s: Seq<([u8; 32], Vec<u8>)>, id: Seq<u8>, i: int)
    requires
        0 <= i < s.len(),
        s[i].0@ == id,
        forall|j: int| 0 <= j < i ==> s[j].0@ != id,
    ensures
        find_state(s, id) == Some(s[i].1@),
    decreases i,
{
    if i == 0 {
    } else {
        assert(forall|j: int| 0 <= j < i - 1 ==> s.skip(1)[j] == s[j + 1]);
        lemma_find_state_present(s.skip(1), id, i - 1);
    }
}

/// With no entry anywhere for an id, the scan finds nothing.
proof fn lemma_find_state_absent(s: Seq<([u8; 32], Vec<u8>)>, id: Seq<u8>)
    requires
        forall|j: int| 0 <= j < s.len() ==> s[j].0@ != id,
    ensures
        find_state(s, id) is None,
    decreases s.len(),
{
    if s.len() == 0 {
    } else {
        lemma_find_state_absent(s.skip(1), id);
    }
}

/// Appending an entry for one id leaves every other lookup unchanged.
proof fn lemma_find_state_push_other(s: Seq<([u8; 32], Vec<u8>)>, e: ([u8; 32], Vec<u8>), id: Seq<
    u8,
>)
    requires
        e.0@ != id,
    ensures
        find_state(s.push(e), id) == find_state(s, id),
    decreases s.len(),
{
    if s.len() == 0 {
        assert(s.push(e).skip(1) =~= Seq::<([u8; 32], Vec<u8>)>::empty());
        assert(find_state(Seq::<([u8; 32], Vec<u8>)>::empty(), id) is None);
    } else {
        assert(s.push(e).skip(1) =~= s.skip(1).push(e));
        lemma_find_state_push_other(s.skip(1), e, id);
    }
}

/// Replacing the entry at one id's index leaves every other lookup
/// unchanged.
proof fn lemma_find_state_update_other(
    s: Seq<([u8; 32], Vec<u8>)>,
    i: int,
    e: ([u8; 32], Vec<u8>),
    id: Seq<u8>,
)
    requires
        0 <= i < s.len(),
        s[i].0@ != id,
        e.0@ != id,
    ensures
        find_state(s.update(i, e), id) == find_state(s, id),
    decreases s.len(),
{
    if s.len() == 0 {
    } else if i == 0 {
        assert(s.update(0, e).skip(1) =~= s.skip(1));
    } else {
        assert(s.update(i, e).skip(1) =~= s.skip(1).update(i - 1, e));
        lemma_find_state_update_other(s.skip(1), i - 1, e, id);
    }
}

impl MockStateManager {
    /// The stored state for a contract id.
    pub closed spec fn spec_state_of(self, id: Seq<u8>) -> Option<Seq<u8>> {
        find_state(self.entries@, id)
    }

    /// An empty store.
    pub fn new() -> (r: Self)
        ensures
            forall|id: Seq<u8>| r.spec_state_of(id) is None,
    {
        MockStateManager { entries: Vec::new() }
    }

    /// Index of the entry for a contract id.
    fn find_index(&self, contract_id: &[u8; 32]) -> (r: Option<usize>)
        ensures
            match r {
                Some(i) => i < self.entries@.len() && self.entries@[i as int].0@ == contract_id@
                    && forall|j: int| 0 <= j < i ==> self.entries@[j].0@ != contract_id@,
                None => forall|j: int|
                    0 <= j < self.entries@.len() ==> self.entries@[j].0@ != contract_id@,
            },
    {
        let n = self.entries.len();
        let mut i: usize = 0;
        while i < n
            invariant
                i <= n,
                n == self.entries@.len(),
                forall|j: int| 0 <= j < i ==> self.entries@[j].0@ != contract_id@,
            decreases n - i,
        {
            if crate::digest::hash_eq(&self.entries[i].0, contract_id) {
                return Some(i);
            }
            i = i + 1;
        }
        None
    }

    /// The stored state of a contract, or empty when none was stored.
    pub fn lookup(&self, contract_id: &[u8; 32]) -> (r: Vec<u8>)
        ensures
            r@ == (match self.spec_state_of(contract_id@) {
                Some(s) => s,
                None => Seq::<u8>::empty(),
            }),
    {
        match self.find_index(contract_id) {
            Some(i) => {
                proof {
                    lemma_find_state_present(self.entries@, contract_id@, i as int);
                }
                copy_bytes(&self.entries[i].1)
            },
            None => {
                proof {
                    lemma_find_state_absent(self.entries@, contract_id@);
                }
                Vec::new()
            },
        }
    }

    /// Replace the stored state of a contract, leaving every other
    /// contract's state untouched.
    pub fn store(&mut self, contract_id: &[u8; 32], state: Vec<u8>)
        ensures
            final(self).spec_state_of(contract_id@) == Some(state@),
            forall|id: Seq<u8>|
                id != contract_id@ ==> final(self).spec_state_of(id) == old(self).spec_state_of(
                    id,
                ),
    {
        let ghost old_entries = self.entries@;
        match self.find_index(contract_id) {
            Some(i) => {
                let id: [u8; 32] = *contract_id;
                self.entries.set(i, (id, state));
                proof {
                    lemma_find_state_present(self.entries@, contract_id@, i as int);
                    assert forall|y: Seq<u8>| y != contract_id@ implies find_state(
                        self.entries@,
                        y,
                    ) == find_state(old_entries, y) by {
                        lemma_find_state_update_other(
                            old_entries,
                            i as int,
                            self.entries@[i as int],
                            y,
                        );
                    }
                }
            },
            None => {
                let id: [u8; 32] = *contract_id;
                self.entries.push((id, state));
                proof {
                    lemma_find_state_present(
                        self.entries@,
                        contract_id@,
                        self.entries@.len() - 1,
                    );
                    assert forall|y: Seq<u8>| y != contract_id@ implies find_state(
                        self.entries@,
                        y,
                    ) == find_state(old_entries, y) by {
                        lemma_find_state_push_other(
                            old_entries,
                            self.entries@[self.entries@.len() - 1],
                            y,
                        );
                    }
                }
            },
        }
    }
}

impl StateManager for MockStateManager {
    fn get_state(&self, contract_id: &[u8; 32]) -> Result<Vec<u8>, TeeError> {
        Ok(self.lookup(contract_id))
    }

    fn set_state(&mut self, contract_id: &[u8; 32], state: Vec<u8>) -> Result<(), TeeError> {
        self.store(contract_id, state);
        Ok(())
    }
}

/// Frame a wasm call into one execution payload: the input is the module
/// bytes, the function name's bytes, the arguments and the transaction id,
/// concatenated in that order, with a detailed proof requested.
pub fn build_wasm_payload(wasm_bytes: &[u8], function: &str, args: &[u8], tx_id: &[u8]) -> (r:
    ExecutionPayload)
    ensures
        r.input@ == wasm_bytes@ + function.spec_bytes() + args@ + tx_id@,
        r.params.detailed_proof,
        r.params.expected_hash@.len() == 0,
{
    let mut input: Vec<u8> = Vec::new();
    append_slice(&mut input, wasm_bytes);
    append_slice(&mut input, function.as_bytes());
    append_slice(&mut input, args);
    append_slice(&mut input, tx_id);
    let mut params = ExecutionParams::default();
    params.detailed_proof = true;
    ExecutionPayload { input, params }
}

/// Executor that frames wasm calls and hands them to a backend.
pub struct HyperExecutor<C: TeeExecutor> {
    /// The backend the calls go to.
    pub controller: C,
}

impl<C: TeeExecutor> HyperExecutor<C> {
    /// An executor over the given backend.
    pub fn new(controller: C) -> Self {
        HyperExecutor { controller }
    }

    /// Frame one wasm call and execute it on the backend.
    pub fn execute_wasm(
        &self,
        wasm_bytes: &[u8],
        function: &str,
        args: &[u8],
        tx_id: &[u8],
    ) -> Result<ExecutionResult, TeeError> {
        let payload = build_wasm_payload(wasm_bytes, function, args, tx_id);
        self.controller.execute(&payload)
    }
}

} // verus!
