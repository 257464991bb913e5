//! Append-only cryptographic accumulator over executor attestations.
//!
//! The accumulator commits every registered attestation into one rolling
//! SHA-256 hash chain and keeps, per executor, a record of the measurements
//! seen and a membership witness derived from the chain.  All state is owned
//! by [`AttestationAccumulator`] and mutated only through
//! [`AttestationAccumulator::register_attestation`]; verification reads it.

use vstd::prelude::*;

use crate::digest::{
    all_zero, append_bytes, bytes_eq, copy_bytes, hash_eq, hash_to_vec, sha256, sha256_of,
};
use crate::types::{AccError, TeeAttestation, TeeType};

verus! {

/// Parameters the accumulator is created with.
#[derive(Debug, Clone, Copy, PartialEq, Eq, Structural)]
pub struct AccumulatorParams {
    /// Maximum number of registrations the chain will accept.
    pub max_size: u64,
    /// Maximum age, in seconds, of an executor's last attestation before
    /// verification reports it stale.
    pub max_witness_age: u64,
    /// Minimum number of attestations expected of an executor.
    pub min_attestations: u64,
}

/// One committed registration: what the chain element is hashed over.
#[derive(Debug, Clone, PartialEq, Eq)]
pub struct AccumulatorElement {
    /// Stable identifier of the registering executor.
    pub executor: u64,
    /// Measurement presented in the attestation.
    pub measurement: Vec<u8>,
    /// Platform the attestation came from.
    pub enclave_type: TeeType,
    /// Timestamp of the attestation.
    pub timestamp: u64,
}

/// Per-executor membership witness; overwritten on every registration.
#[derive(Debug, Clone, PartialEq, Eq)]
pub struct AccumulatorWitness {
    /// The witness value.
    pub value: [u8; 32],
    /// Snapshot of the accumulator value right after the registration that
    /// produced this witness.
    pub last_accumulator: [u8; 32],
    /// The element the witness was computed over.
    pub element: AccumulatorElement,
    /// Timestamp of the registration that produced this witness.
    pub last_update: u64,
}

/// Per-executor registration record.
#[derive(Debug, Clone, PartialEq, Eq)]
pub struct AttestationRecord {
    /// Stable identifier of the executor.
    pub executor: u64,
    /// Timestamp of the executor's most recent registration.
    pub last_attestation: u64,
    /// How many registrations the executor has made.
    pub attestation_count: u64,
    /// Last SGX measurement seen, when one was registered.
    pub sgx_measurement: Option<Vec<u8>>,
    /// Last SEV measurement seen, when one was registered.
    pub sev_measurement: Option<Vec<u8>>,
}

/// The chain value, its size and the creation parameters.
#[derive(Debug, Clone, Copy, PartialEq, Eq)]
pub struct AccumulatorState {
    /// Current accumulator value: the head of the hash chain.
    pub value: [u8; 32],
    /// Number of registrations committed so far.
    pub size: u64,
    /// Parameters the accumulator was created with.
    pub params: AccumulatorParams,
}

/// The accumulator component: chain state plus per-executor maps.
#[derive(Debug, Clone, PartialEq, Eq)]
pub struct AttestationAccumulator {
    /// Chain state; `None` until `init` has been called.
    pub state: Option<AccumulatorState>,
    /// Per-executor registration records; executors are unique.
    pub records: Vec<AttestationRecord>,
    /// Per-executor witnesses; executors are unique.
    pub witnesses: Vec<AccumulatorWitness>,
}

/// Tag byte that the element encoding uses for a platform.
pub open spec fn spec_tag_byte(t: TeeType) -> u8 {
    match t {
        TeeType::SGX => 0u8,
        TeeType::SEV => 1u8,
    }
}

/// The deterministic binary encoding of a chain element: executor id,
/// length-prefixed measurement, platform tag, timestamp.
pub open spec fn spec_encode_element(x: u64, m: Seq<u8>, t: TeeType, ts: u64) -> Seq<u8> {
    vstd::bytes::spec_u64_to_le_bytes(x) + vstd::bytes::spec_u64_to_le_bytes(m.len() as u64) + m
        + seq![spec_tag_byte(t)] + vstd::bytes::spec_u64_to_le_bytes(ts)
}

/// The domain-separation tag that witness hashing inserts between the
/// accumulator value and the element encoding: the ASCII bytes of "witness".
pub open spec fn spec_witness_tag() -> Seq<u8> {
    seq![119u8, 105u8, 116u8, 110u8, 101u8, 115u8, 115u8]
}

/// The accumulator value after appending an element to the chain.
pub open spec fn spec_update_value(current: Seq<u8>, x: u64, m: Seq<u8>, t: TeeType, ts: u64) -> Seq<
    u8,
> {
    sha256_of(current + spec_encode_element(x, m, t, ts))
}

/// The witness value derived from an accumulator snapshot and an element.
pub open spec fn spec_witness_value(acc: Seq<u8>, x: u64, m: Seq<u8>, t: TeeType, ts: u64) -> Seq<
    u8,
> {
    sha256_of(acc + spec_witness_tag() + spec_encode_element(x, m, t, ts))
}

/// The view of an optional measurement slot.
pub open spec fn opt_bytes_view(o: Option<Vec<u8>>) -> Option<Seq<u8>> {
    match o {
        Some(v) => Some(v@),
        None => None,
    }
}

/// First record for an executor, scanning left to right.
pub open spec fn find_record(s: Seq<AttestationRecord>, x: u64) -> Option<AttestationRecord>
    decreases s.len(),
{
    if s.len() == 0 {
        None
    } else if s[0].executor == x {
        Some(s[0])
    } else {
        find_record(s.skip(1), x)
    }
}

/// First witness for an executor, scanning left to right.
pub open spec fn find_witness(s: Seq<AccumulatorWitness>, x: u64) -> Option<AccumulatorWitness>
    decreases s.len(),
{
    if s.len() == 0 {
        None
    } else if s[0].element.executor == x {
        Some(s[0])
    } else {
        find_witness(s.skip(1), x)
    }
}

/// A match at index `i`, with no earlier match, is what the scan finds.
pub proof fn lemma_find_record_present(s: Seq<AttestationRecord>, x: u64, i: int)
    requires
        0 <= i < s.len(),
        s[i].executor == x,
        forall|j: int| 0 <= j < i ==> s[j].executor != x,
    ensures
        find_record(s, x) == Some(s[i]),
    decreases i,
{
    if i == 0 {
    } else {
        assert(forall|j: int| 0 <= j < i - 1 ==> s.skip(1)[j] == s[j + 1]);
        lemma_find_record_present(s.skip(1), x, i - 1);
    }
}

/// With no match anywhere, the scan finds nothing.
pub proof fn lemma_find_record_absent(s: Seq<AttestationRecord>, x: u64)
    requires
        forall|j: int| 0 <= j < s.len() ==> s[j].executor != x,
    ensures
        find_record(s, x) is None,
    decreases s.len(),
{
    if s.len() == 0 {
    } else {
        lemma_find_record_absent(s.skip(1), x);
    }
}

/// Appending a record for one executor leaves every other lookup unchanged.
pub proof fn lemma_find_record_push_other(s: Seq<AttestationRecord>, r: AttestationRecord, y: u64)
    requires
        r.executor != y,
    ensures
        find_record(s.push(r), y) == find_record(s, y),
    decreases s.len(),
{
    if s.len() == 0 {
        assert(s.push(r).skip(1) =~= Seq::<AttestationRecord>::empty());
        assert(find_record(Seq::<AttestationRecord>::empty(), y) is None);
    } else {
        assert(s.push(r).skip(1) =~= s.skip(1).push(r));
        lemma_find_record_push_other(s.skip(1), r, y);
    }
}

/// Replacing the record at one executor's index leaves every other lookup
/// unchanged.
pub proof fn lemma_find_record_update_other(
    s: Seq<AttestationRecord>,
    i: int,
    r: AttestationRecord,
    y: u64,
)
    requires
        0 <= i < s.len(),
        s[i].executor != y,
        r.executor != y,
    ensures
        find_record(s.update(i, r), y) == find_record(s, y),
    decreases s.len(),
{
    if s.len() == 0 {
    } else if i == 0 {
        assert(s.update(0, r).skip(1) =~= s.skip(1));
    } else {
        assert(s.update(i, r).skip(1) =~= s.skip(1).update(i - 1, r));
        lemma_find_record_update_other(s.skip(1), i - 1, r, y);
    }
}

/// A witness match at index `i`, with no earlier match, is what the scan
/// finds.
pub proof fn lemma_find_witness_present(s: Seq<AccumulatorWitness>, x: u64, i: int)
    requires
        0 <= i < s.len(),
        s[i].element.executor == x,
        forall|j: int| 0 <= j < i ==> s[j].element.executor != x,
    ensures
        find_witness(s, x) == Some(s[i]),
    decreases i,
{
    if i == 0 {
    } else {
        assert(forall|j: int| 0 <= j < i - 1 ==> s.skip(1)[j] == s[j + 1]);
        lemma_find_witness_present(s.skip(1), x, i - 1);
    }
}

/// With no witness match anywhere, the scan finds nothing.
pub proof fn lemma_find_witness_absent(s: Seq<AccumulatorWitness>, x: u64)
    requires
        forall|j: int| 0 <= j < s.len() ==> s[j].element.executor != x,
    ensures
        find_witness(s, x) is None,
    decreases s.len(),
{
    if s.len() == 0 {
    } else {
        lemma_find_witness_absent(s.skip(1), x);
    }
}

/// Appending a witness for one executor leaves every other lookup unchanged.
pub proof fn lemma_find_witness_push_other(s: Seq<AccumulatorWitness>, w: AccumulatorWitness, y: u64)
    requires
        w.element.executor != y,
    ensures
        find_witness(s.push(w), y) == find_witness(s, y),
    decreases s.len(),
{
    if s.len() == 0 {
        assert(s.push(w).skip(1) =~= Seq::<AccumulatorWitness>::empty());
        assert(find_witness(Seq::<AccumulatorWitness>::empty(), y) is None);
    } else {
        assert(s.push(w).skip(1) =~= s.skip(1).push(w));
        lemma_find_witness_push_other(s.skip(1), w, y);
    }
}

/// Replacing the witness at one executor's index leaves every other lookup
/// unchanged.
pub proof fn lemma_find_witness_update_other(
    s: Seq<AccumulatorWitness>,
    i: int,
    w: AccumulatorWitness,
    y: u64,
)
    requires
        0 <= i < s.len(),
        s[i].element.executor != y,
        w.element.executor != y,
    ensures
        find_witness(s.update(i, w), y) == find_witness(s, y),
    decreases s.len(),
{
    if s.len() == 0 {
    } else if i == 0 {
        assert(s.update(0, w).skip(1) =~= s.skip(1));
    } else {
        assert(s.update(i, w).skip(1) =~= s.skip(1).update(i - 1, w));
        lemma_find_witness_update_other(s.skip(1), i - 1, w, y);
    }
}

/// Deterministic encoding of a chain element.
pub fn encode_element(e: &AccumulatorElement) -> (r: Vec<u8>)
    ensures
        r@ == spec_encode_element(e.executor, e.measurement@, e.enclave_type, e.timestamp),
{
    let mut buf = vstd::bytes::u64_to_le_bytes(e.executor);
    let len_bytes = vstd::bytes::u64_to_le_bytes(e.measurement.len() as u64);
    append_bytes(&mut buf, &len_bytes);
    append_bytes(&mut buf, &e.measurement);
    let tag: u8 = match e.enclave_type {
        TeeType::SGX => 0,
        TeeType::SEV => 1,
    };
    buf.push(tag);
    let ts_bytes = vstd::bytes::u64_to_le_bytes(e.timestamp);
    append_bytes(&mut buf, &ts_bytes);
    proof {
        assert(buf@ =~= spec_encode_element(
            e.executor,
            e.measurement@,
            e.enclave_type,
            e.timestamp,
        ));
    }
    buf
}

/// The ASCII bytes of the witness domain-separation tag.
fn witness_tag_bytes() -> (r: Vec<u8>)
    ensures
        r@ == spec_witness_tag(),
{
    let mut v: Vec<u8> = Vec::new();
    v.push(119);
    v.push(105);
    v.push(116);
    v.push(110);
    v.push(101);
    v.push(115);
    v.push(115);
    proof {
        assert(v@ =~= spec_witness_tag());
    }
    v
}

/// Append an element to the chain: the new value is the digest of the old
/// value followed by the element's encoding.
pub fn update_accumulator(current: &[u8; 32], element: &AccumulatorElement) -> (r: [u8; 32])
    ensures
        r@ == spec_update_value(
            current@,
            element.executor,
            element.measurement@,
            element.enclave_type,
            element.timestamp,
        ),
{
    let mut buf = hash_to_vec(current);
    let enc = encode_element(element);
    append_bytes(&mut buf, &enc);
    sha256(buf.as_slice())
}

/// The witness for an element, derived from an accumulator snapshot.
///
/// The computation is a digest of its two arguments alone, so identical
/// `(accumulator value, element)` inputs give the identical witness on every
/// invocation.
pub fn compute_initial_witness(acc_value: &[u8; 32], element: &AccumulatorElement) -> (r: [u8; 32])
    ensures
        r@ == spec_witness_value(
            acc_value@,
            element.executor,
            element.measurement@,
            element.enclave_type,
            element.timestamp,
        ),
{
    let mut buf = hash_to_vec(acc_value);
    let tag = witness_tag_bytes();
    append_bytes(&mut buf, &tag);
    let enc = encode_element(element);
    append_bytes(&mut buf, &enc);
    sha256(buf.as_slice())
}

/// Whether a stored witness is self-consistent: recomputing the witness from
/// its stored accumulator snapshot and element reproduces its value.
pub open spec fn spec_witness_consistent(w: AccumulatorWitness) -> bool {
    w.value@ == spec_witness_value(
        w.last_accumulator@,
        w.element.executor,
        w.element.measurement@,
        w.element.enclave_type,
        w.element.timestamp,
    )
}

/// Recompute a stored witness and compare it with its recorded value.
pub fn verify_witness(witness: &AccumulatorWitness) -> (r: bool)
    ensures
        r == spec_witness_consistent(*witness),
{
    let recomputed = compute_initial_witness(&witness.last_accumulator, &witness.element);
    hash_eq(&recomputed, &witness.value)
}

/// Witness recomputation is deterministic: identical accumulator-snapshot and
/// element inputs always hash to the same witness value, on every invocation.
pub proof fn lemma_witness_recomputation_deterministic(
    acc_a: Seq<u8>,
    x_a: u64,
    m_a: Seq<u8>,
    t_a: TeeType,
    ts_a: u64,
    acc_b: Seq<u8>,
    x_b: u64,
    m_b: Seq<u8>,
    t_b: TeeType,
    ts_b: u64,
)
    requires
        acc_a == acc_b,
        x_a == x_b,
        m_a == m_b,
        t_a == t_b,
        ts_a == ts_b,
    ensures
        spec_witness_value(acc_a, x_a, m_a, t_a, ts_a) == spec_witness_value(
            acc_b,
            x_b,
            m_b,
            t_b,
            ts_b,
        ),
{
}

/// Index of the first record for an executor.
fn find_record_index(records: &Vec<AttestationRecord>, x: u64) -> (r: Option<usize>)
    ensures
        match r {
            Some(i) => i < records@.len() && records@[i as int].executor == x && forall|j: int|
                0 <= j < i ==> records@[j].executor != x,
            None => forall|j: int| 0 <= j < records@.len() ==> records@[j].executor != x,
        },
{
    let n = records.len();
    let mut i: usize = 0;
    while i < n
        invariant
            i <= n,
            n == records@.len(),
            forall|j: int| 0 <= j < i ==> records@[j].executor != x,
        decreases n - i,
    {
        if records[i].executor == x {
            return Some(i);
        }
        i = i + 1;
    }
    None
}

/// Index of the first witness for an executor.
fn find_witness_index(witnesses: &Vec<AccumulatorWitness>, x: u64) -> (r: Option<usize>)
    ensures
        match r {
            Some(i) => i < witnesses@.len() && witnesses@[i as int].element.executor == x
                && forall|j: int| 0 <= j < i ==> witnesses@[j].element.executor != x,
            None => forall|j: int| 0 <= j < witnesses@.len() ==> witnesses@[j].element.executor != x,
        },
{
    let n = witnesses.len();
    let mut i: usize = 0;
    while i < n
        invariant
            i <= n,
            n == witnesses@.len(),
            forall|j: int| 0 <= j < i ==> witnesses@[j].element.executor != x,
        decreases n - i,
    {
        if witnesses[i].element.executor == x {
            return Some(i);
        }
        i = i + 1;
    }
    None
}

/// An owned copy of an optional measurement slot.
fn copy_opt_bytes(o: &Option<Vec<u8>>) -> (r: Option<Vec<u8>>)
    ensures
        opt_bytes_view(r) == opt_bytes_view(*o),
{
    match o {
        Some(v) => Some(copy_bytes(v)),
        None => None,
    }
}

/// Whether a supplied measurement agrees with the stored slot for its
/// platform; an unfilled slot constrains nothing.
pub open spec fn spec_measurement_matches(rec: AttestationRecord, t: TeeType, m: Seq<u8>) -> bool {
    match t {
        TeeType::SGX => match opt_bytes_view(rec.sgx_measurement) {
            Some(s) => s == m,
            None => true,
        },
        TeeType::SEV => match opt_bytes_view(rec.sev_measurement) {
            Some(s) => s == m,
            None => true,
        },
    }
}

/// Whether a last-attestation time is older than the allowed age.
pub open spec fn spec_stale(now: u64, last: u64, age: u64) -> bool {
    now > last + age
}

/// Compare a supplied attestation's measurement with the stored slot for its
/// platform.
fn measurement_matches(rec: &AttestationRecord, att: &TeeAttestation) -> (r: bool)
    ensures
        r == spec_measurement_matches(*rec, att.enclave_type, att.measurement@),
{
    match att.enclave_type {
        TeeType::SGX => match &rec.sgx_measurement {
            Some(m) => bytes_eq(m, &att.measurement),
            None => true,
        },
        TeeType::SEV => match &rec.sev_measurement {
            Some(m) => bytes_eq(m, &att.measurement),
            None => true,
        },
    }
}

impl AttestationAccumulator {
    /// Well-formedness: size within bounds, registration counts within the
    /// size, one record and at most one witness per executor, and no entries
    /// at all before `init`.
    pub open spec fn wf(self) -> bool {
        &&& match self.state {
            Some(st) => {
                &&& st.size <= st.params.max_size
                &&& forall|i: int|
                    0 <= i < self.records@.len() ==> self.records@[i].attestation_count <= st.size
            },
            None => self.records@.len() == 0 && self.witnesses@.len() == 0,
        }
        &&& forall|i: int, j: int|
            0 <= i < j < self.records@.len() ==> self.records@[i].executor
                != self.records@[j].executor
        &&& forall|i: int, j: int|
            0 <= i < j < self.witnesses@.len() ==> self.witnesses@[i].element.executor
                != self.witnesses@[j].element.executor
    }

    /// Whether `init` has been called.
    pub open spec fn initialized(self) -> bool {
        self.state is Some
    }

    /// The current accumulator value.
    pub open spec fn spec_value(self) -> Seq<u8>
        recommends
            self.initialized(),
    {
        self.state.unwrap().value@
    }

    /// The number of registrations committed so far.
    pub open spec fn spec_size(self) -> u64
        recommends
            self.initialized(),
    {
        self.state.unwrap().size
    }

    /// The parameters the accumulator was created with.
    pub open spec fn spec_params(self) -> AccumulatorParams
        recommends
            self.initialized(),
    {
        self.state.unwrap().params
    }

    /// An accumulator with no state: `init` must be called before use.
    pub fn new() -> (r: Self)
        ensures
            r.wf(),
            !r.initialized(),
    {
        AttestationAccumulator { state: None, records: Vec::new(), witnesses: Vec::new() }
    }

    /// Create the chain state exactly once: an all-zero value, size zero and
    /// the given parameters.  A second call fails and changes nothing.
    pub fn init(&mut self, params: AccumulatorParams) -> (r: Result<(), AccError>)
        requires
            old(self).wf(),
        ensures
            final(self).wf(),
            r is Ok <==> !old(self).initialized(),
            old(self).initialized() ==> r == Err::<(), AccError>(AccError::AlreadyInitialized)
                && *final(self) == *old(self),
            r is Ok ==> {
                &&& final(self).initialized()
                &&& final(self).spec_size() == 0
                &&& all_zero(final(self).spec_value())
                &&& final(self).spec_value().len() == 32
                &&& final(self).spec_params() == params
                &&& final(self).records@ == old(self).records@
                &&& final(self).witnesses@ == old(self).witnesses@
            },
    {
        if self.state.is_some() {
            return Err(AccError::AlreadyInitialized);
        }
        let value: [u8; 32] = [0; 32];
        self.state = Some(AccumulatorState { value, size: 0, params });
        Ok(())
    }

    /// The record stored for an executor.
    pub open spec fn spec_record(self, x: u64) -> Option<AttestationRecord> {
        find_record(self.records@, x)
    }

    /// The witness stored for an executor.
    pub open spec fn spec_witness_for(self, x: u64) -> Option<AccumulatorWitness> {
        find_witness(self.witnesses@, x)
    }

    /// Append one attestation to the chain.
    ///
    /// Fails `NotInitialized` before `init` and `Full` once the configured
    /// maximum size is reached, in both cases leaving the state unchanged.
    /// Otherwise the chain value absorbs the new element, the size grows by
    /// exactly one — and by no other operation ever — the executor's witness
    /// is overwritten with one derived from the new chain value, and the
    /// executor's record gains the measurement in its platform's slot; every
    /// other executor's record and witness are untouched.
    pub fn register_attestation(&mut self, executor: u64, attestation: &TeeAttestation) -> (r:
        Result<(), AccError>)
        requires
            old(self).wf(),
        ensures
            final(self).wf(),
            r is Ok <==> (old(self).initialized() && old(self).spec_size() < old(self)
                .spec_params().max_size),
            !old(self).initialized() ==> r == Err::<(), AccError>(AccError::NotInitialized),
            old(self).initialized() && old(self).spec_size() >= old(self).spec_params().max_size
                ==> r == Err::<(), AccError>(AccError::Full),
            r is Err ==> *final(self) == *old(self),
            r is Ok ==> {
                &&& final(self).initialized()
                &&& final(self).spec_params() == old(self).spec_params()
                &&& final(self).spec_size() == old(self).spec_size() + 1
                &&& final(self).spec_value() == spec_update_value(
                    old(self).spec_value(),
                    executor,
                    attestation.measurement@,
                    attestation.enclave_type,
                    attestation.timestamp,
                )
            },
            r is Ok ==> match final(self).spec_record(executor) {
                Some(rec) => {
                    &&& rec.executor == executor
                    &&& rec.last_attestation == attestation.timestamp
                    &&& rec.attestation_count == (match old(self).spec_record(executor) {
                        Some(o) => o.attestation_count + 1,
                        None => 1int,
                    })
                    &&& (attestation.enclave_type == TeeType::SGX ==> opt_bytes_view(
                        rec.sgx_measurement,
                    ) == Some(attestation.measurement@) && opt_bytes_view(rec.sev_measurement) == (
                    match old(self).spec_record(executor) {
                        Some(o) => opt_bytes_view(o.sev_measurement),
                        None => None::<Seq<u8>>,
                    }))
                    &&& (attestation.enclave_type == TeeType::SEV ==> opt_bytes_view(
                        rec.sev_measurement,
                    ) == Some(attestation.measurement@) && opt_bytes_view(rec.sgx_measurement) == (
                    match old(self).spec_record(executor) {
                        Some(o) => opt_bytes_view(o.sgx_measurement),
                        None => None::<Seq<u8>>,
                    }))
                },
                None => false,
            },
            r is Ok ==> match final(self).spec_witness_for(executor) {
                Some(w) => {
                    &&& w.value@ == spec_witness_value(
                        final(self).spec_value(),
                        executor,
                        attestation.measurement@,
                        attestation.enclave_type,
                        attestation.timestamp,
                    )
                    &&& w.last_accumulator@ == final(self).spec_value()
                    &&& w.element.executor == executor
                    &&& w.element.measurement@ == attestation.measurement@
                    &&& w.element.enclave_type == attestation.enclave_type
                    &&& w.element.timestamp == attestation.timestamp
                    &&& w.last_update == attestation.timestamp
                    &&& spec_witness_consistent(w)
                },
                None => false,
            },
            r is Ok ==> forall|y: u64|
                y != executor ==> final(self).spec_record(y) == old(self).spec_record(y)
                    && final(self).spec_witness_for(y) == old(self).spec_witness_for(y),
    {
        let (value, size, params) = match &self.state {
            None => {
                return Err(AccError::NotInitialized);
            },
            Some(st) => (st.value, st.size, st.params),
        };
        if size >= params.max_size {
            return Err(AccError::Full);
        }
        let element = AccumulatorElement {
            executor,
            measurement: copy_bytes(&attestation.measurement),
            enclave_type: attestation.enclave_type,
            timestamp: attestation.timestamp,
        };
        let new_value = update_accumulator(&value, &element);
        let new_witness_value = compute_initial_witness(&new_value, &element);

        let ghost old_records = self.records@;
        let rec_idx = find_record_index(&self.records, executor);
        match rec_idx {
            Some(i) => {
                let old_count = self.records[i].attestation_count;
                let new_rec = match attestation.enclave_type {
                    TeeType::SGX => AttestationRecord {
                        executor,
                        last_attestation: attestation.timestamp,
                        attestation_count: old_count + 1,
                        sgx_measurement: Some(copy_bytes(&attestation.measurement)),
                        sev_measurement: copy_opt_bytes(&self.records[i].sev_measurement),
                    },
                    TeeType::SEV => AttestationRecord {
                        executor,
                        last_attestation: attestation.timestamp,
                        attestation_count: old_count + 1,
                        sgx_measurement: copy_opt_bytes(&self.records[i].sgx_measurement),
                        sev_measurement: Some(copy_bytes(&attestation.measurement)),
                    },
                };
                self.records.set(i, new_rec);
                proof {
                    lemma_find_record_present(old_records, executor, i as int);
                    lemma_find_record_present(self.records@, executor, i as int);
                    assert forall|y: u64| y != executor implies find_record(self.records@, y)
                        == find_record(old_records, y) by {
                        lemma_find_record_update_other(
                            old_records,
                            i as int,
                            self.records@[i as int],
                            y,
                        );
                    }
                }
            },
            None => {
                let new_rec = match attestation.enclave_type {
                    TeeType::SGX => AttestationRecord {
                        executor,
                        last_attestation: attestation.timestamp,
                        attestation_count: 1,
                        sgx_measurement: Some(copy_bytes(&attestation.measurement)),
                        sev_measurement: None,
                    },
                    TeeType::SEV => AttestationRecord {
                        executor,
                        last_attestation: attestation.timestamp,
                        attestation_count: 1,
                        sgx_measurement: None,
                        sev_measurement: Some(copy_bytes(&attestation.measurement)),
                    },
                };
                self.records.push(new_rec);
                proof {
                    lemma_find_record_absent(old_records, executor);
                    lemma_find_record_present(
                        self.records@,
                        executor,
                        self.records@.len() - 1,
                    );
                    assert forall|y: u64| y != executor implies find_record(self.records@, y)
                        == find_record(old_records, y) by {
                        lemma_find_record_push_other(
                            old_records,
                            self.records@[self.records@.len() - 1],
                            y,
                        );
                    }
                }
            },
        }

        let ghost old_witnesses = self.witnesses@;
        let wit_idx = find_witness_index(&self.witnesses, executor);
        let new_w = AccumulatorWitness {
            value: new_witness_value,
            last_accumulator: new_value,
            element,
            last_update: attestation.timestamp,
        };
        match wit_idx {
            Some(j) => {
                self.witnesses.set(j, new_w);
                proof {
                    lemma_find_witness_present(self.witnesses@, executor, j as int);
                    assert forall|y: u64| y != executor implies find_witness(self.witnesses@, y)
                        == find_witness(old_witnesses, y) by {
                        lemma_find_witness_update_other(
                            old_witnesses,
                            j as int,
                            self.witnesses@[j as int],
                            y,
                        );
                    }
                }
            },
            None => {
                self.witnesses.push(new_w);
                proof {
                    lemma_find_witness_present(
                        self.witnesses@,
                        executor,
                        self.witnesses@.len() - 1,
                    );
                    assert forall|y: u64| y != executor implies find_witness(self.witnesses@, y)
                        == find_witness(old_witnesses, y) by {
                        lemma_find_witness_push_other(
                            old_witnesses,
                            self.witnesses@[self.witnesses@.len() - 1],
                            y,
                        );
                    }
                }
            },
        }

        self.state = Some(AccumulatorState { value: new_value, size: size + 1, params });
        Ok(())
    }

    /// The verification decision, as a function of the stored state, the two
    /// supplied attestations and the current time.
    ///
    /// Checked in order: the executor must be registered; its last
    /// registration must not be older than `max_witness_age`; each supplied
    /// attestation's measurement must agree with the stored slot for its
    /// platform; a witness must be stored; and the witness must reproduce its
    /// own value when recomputed from its accumulator snapshot and element.
    pub open spec fn spec_verify(
        self,
        executor: u64,
        a: TeeAttestation,
        b: TeeAttestation,
        now: u64,
    ) -> Result<bool, AccError>
        recommends
            self.wf(),
    {
        match find_record(self.records@, executor) {
            None => Err(AccError::NotRegistered),
            Some(rec) => if spec_stale(
                now,
                rec.last_attestation,
                self.spec_params().max_witness_age,
            ) {
                Err(AccError::Stale)
            } else if !spec_measurement_matches(rec, a.enclave_type, a.measurement@)
                || !spec_measurement_matches(rec, b.enclave_type, b.measurement@) {
                Err(AccError::MeasurementMismatch)
            } else {
                match find_witness(self.witnesses@, executor) {
                    None => Err(AccError::NoWitness),
                    Some(w) => if spec_witness_consistent(w) {
                        Ok(true)
                    } else {
                        Err(AccError::InvalidWitness)
                    },
                }
            },
        }
    }

    /// Check an executor's standing against two supplied attestations.
    ///
    /// Returns `Ok(true)` exactly when every check of [`Self::spec_verify`]
    /// passes; each failure is reported as the error of the first check that
    /// failed.  Reading state only, it can run concurrently with
    /// registrations for other executors.
    pub fn verify_attestation(
        &self,
        executor: u64,
        attestation_a: &TeeAttestation,
        attestation_b: &TeeAttestation,
        now: u64,
    ) -> (r: Result<bool, AccError>)
        requires
            self.wf(),
        ensures
            r == self.spec_verify(executor, *attestation_a, *attestation_b, now),
    {
        let idx = match find_record_index(&self.records, executor) {
            None => {
                proof {
                    lemma_find_record_absent(self.records@, executor);
                }
                return Err(AccError::NotRegistered);
            },
            Some(i) => i,
        };
        proof {
            lemma_find_record_present(self.records@, executor, idx as int);
        }
        let params = match &self.state {
            Some(st) => st.params,
            None => {
                proof {
                    assert(false);
                }
                return Err(AccError::NotRegistered);
            },
        };
        let last = self.records[idx].last_attestation;
        if now > last && now - last > params.max_witness_age {
            return Err(AccError::Stale);
        }
        if !measurement_matches(&self.records[idx], attestation_a) {
            return Err(AccError::MeasurementMismatch);
        }
        if !measurement_matches(&self.records[idx], attestation_b) {
            return Err(AccError::MeasurementMismatch);
        }
        let widx = match find_witness_index(&self.witnesses, executor) {
            None => {
                proof {
                    lemma_find_witness_absent(self.witnesses@, executor);
                }
                return Err(AccError::NoWitness);
            },
            Some(j) => j,
        };
        proof {
            lemma_find_witness_present(self.witnesses@, executor, widx as int);
        }
        if verify_witness(&self.witnesses[widx]) {
            Ok(true)
        } else {
            Err(AccError::InvalidWitness)
        }
    }
}

} // verus!
