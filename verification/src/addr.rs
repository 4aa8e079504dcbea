//! Deterministically derived account addresses.
//!
//! Every address a handler receives is re-derived from its seed scheme and
//! compared, never trusted. The derivation itself belongs to the ledger
//! runtime; the library names its result (`pda_of`) and states every
//! validation contract over that name, through one trusted call.

use vstd::prelude::*;

verus! {

/// A 32-byte account address on the base ledger.
#[derive(Clone, Debug)]
pub struct Address {
    pub bytes: Vec<u8>,
}

impl View for Address {
    type V = Seq<u8>;

    open spec fn view(&self) -> Seq<u8> {
        self.bytes@
    }
}

impl Address {
    /// A well-formed address holds exactly 32 bytes.
    pub open spec fn wf(&self) -> bool {
        self.bytes@.len() == 32
    }

    /// A fresh address holding the same bytes.
    pub fn dup(&self) -> (r: Address)
        ensures
            r@ == self@,
    {
        Address { bytes: copy_bytes(&self.bytes) }
    }
}

/// Byte-for-byte comparison of two addresses.
pub fn address_eq(a: &Address, b: &Address) -> (r: bool)
    ensures
        r == (a@ == b@),
{
    if a.bytes.len() != b.bytes.len() {
        return false;
    }
    let mut i: usize = 0;
    while i < a.bytes.len()
        invariant
            i <= a@.len(),
            a@.len() == b@.len(),
            forall|k: int| 0 <= k < i ==> a@[k] == b@[k],
        decreases a@.len() - i,
    {
        if a.bytes[i] != b.bytes[i] {
            return false;
        }
        i += 1;
    }
    assert(a@ =~= b@);
    true
}

/// A fresh copy of a byte vector.
fn copy_bytes(v: &Vec<u8>) -> (r: Vec<u8>)
    ensures
        r@ == v@,
{
    let mut r: Vec<u8> = Vec::new();
    let mut i: usize = 0;
    while i < v.len()
        invariant
            i <= v@.len(),
            r@.len() == i,
            forall|k: int| 0 <= k < i ==> r@[k] == v@[k],
        decreases v@.len() - i,
    {
        r.push(v[i]);
        i += 1;
    }
    assert(r@ =~= v@);
    r
}

/// The fixed seed of the counter record: the bytes of `"test-pda"`.
pub open spec fn counter_seed() -> Seq<u8> {
    seq![116u8, 101, 115, 116, 45, 112, 100, 97]
}

/// The registry's tag for the delegation buffer: the bytes of `"buffer"`.
pub open spec fn buffer_seed() -> Seq<u8> {
    seq![98u8, 117, 102, 102, 101, 114]
}

/// The registry's tag for the delegation record: the bytes of `"delegation"`.
pub open spec fn delegation_record_seed() -> Seq<u8> {
    seq![100u8, 101, 108, 101, 103, 97, 116, 105, 111, 110]
}

/// The registry's tag for the delegation metadata: the bytes of
/// `"delegation-metadata"`.
pub open spec fn delegation_metadata_seed() -> Seq<u8> {
    seq![
        100u8, 101, 108, 101, 103, 97, 116, 105, 111, 110, 45, 109, 101, 116, 97, 100, 97, 116, 97,
    ]
}

/// The counter record's seed: the fixed literal alone.
pub fn counter_seed_bytes() -> (v: Vec<u8>)
    ensures
        v@ == counter_seed(),
{
    let mut v: Vec<u8> = Vec::new();
    v.push(116);
    v.push(101);
    v.push(115);
    v.push(116);
    v.push(45);
    v.push(112);
    v.push(100);
    v.push(97);
    assert(v@ =~= counter_seed());
    v
}

/// The registry's buffer tag as bytes.
pub fn buffer_seed_bytes() -> (v: Vec<u8>)
    ensures
        v@ == buffer_seed(),
{
    let mut v: Vec<u8> = Vec::new();
    v.push(98);
    v.push(117);
    v.push(102);
    v.push(102);
    v.push(101);
    v.push(114);
    assert(v@ =~= buffer_seed());
    v
}

/// The registry's delegation-record tag as bytes.
pub fn delegation_record_seed_bytes() -> (v: Vec<u8>)
    ensures
        v@ == delegation_record_seed(),
{
    let mut v: Vec<u8> = Vec::new();
    v.push(100);
    v.push(101);
    v.push(108);
    v.push(101);
    v.push(103);
    v.push(97);
    v.push(116);
    v.push(105);
    v.push(111);
    v.push(110);
    assert(v@ =~= delegation_record_seed());
    v
}

/// The registry's delegation-metadata tag as bytes.
pub fn delegation_metadata_seed_bytes() -> (v: Vec<u8>)
    ensures
        v@ == delegation_metadata_seed(),
{
    let mut v: Vec<u8> = delegation_record_seed_bytes();
    v.push(45);
    v.push(109);
    v.push(101);
    v.push(116);
    v.push(97);
    v.push(100);
    v.push(97);
    v.push(116);
    v.push(97);
    assert(v@ =~= delegation_metadata_seed());
    v
}

/// The canonical program-derived address of a seed list under a program
/// identity, if some bump seed yields one off the curve.
pub uninterp spec fn pda_of(seeds: Seq<Seq<u8>>, program_id: Seq<u8>) -> Option<Seq<u8>>;

/// The given address is exactly the canonical derivation.
pub open spec fn derives_to(seeds: Seq<Seq<u8>>, program_id: Seq<u8>, given: Seq<u8>) -> bool {
    pda_of(seeds, program_id) matches Some(a) && a == given
}

/// Relies on `Pubkey::try_find_program_address` (anchor_lang's re-export of
/// the ledger runtime's address derivation): the canonical derived address
/// is a function of the seeds and the program identity alone, 32 bytes
/// long, and `None` exactly when no bump seed yields an off-curve address.
/// The result is named `pda_of`.
#[verifier::external_body]
fn try_find_pda(seeds: &Vec<Vec<u8>>, program_id: &Address) -> (r: Option<Address>)
    requires
        program_id.wf(),
    ensures
        r is Some <==> pda_of(seeds@.map_values(|s: Vec<u8>| s@), program_id@) is Some,
        (r matches Some(a) ==> pda_of(seeds@.map_values(|s: Vec<u8>| s@), program_id@)
            matches Some(d) && a@ == d && a.wf()),
{
    let mut key = [0u8; 32];
    key.copy_from_slice(&program_id.bytes);
    let pid = anchor_lang::prelude::Pubkey::new_from_array(key);
    let seed_slices: Vec<&[u8]> = seeds.iter().map(|s| s.as_slice()).collect();
    anchor_lang::prelude::Pubkey::try_find_program_address(&seed_slices, &pid)
        .map(|(address, _bump)| Address { bytes: address.to_bytes().to_vec() })
}

/// The counter record's seed list.
pub open spec fn counter_seeds() -> Seq<Seq<u8>> {
    seq![counter_seed()]
}

/// The registry's buffer seed list for a target address.
pub open spec fn buffer_seeds(pda: Seq<u8>) -> Seq<Seq<u8>> {
    seq![buffer_seed(), pda]
}

/// The registry's delegation-record seed list for a target address.
pub open spec fn delegation_record_seeds(pda: Seq<u8>) -> Seq<Seq<u8>> {
    seq![delegation_record_seed(), pda]
}

/// The registry's delegation-metadata seed list for a target address.
pub open spec fn delegation_metadata_seeds(pda: Seq<u8>) -> Seq<Seq<u8>> {
    seq![delegation_metadata_seed(), pda]
}

/// Derive the counter record's address under the owning program.
pub fn derive_counter_address(program_id: &Address) -> (r: Option<Address>)
    requires
        program_id.wf(),
    ensures
        r is Some <==> pda_of(counter_seeds(), program_id@) is Some,
        (r matches Some(a) ==> derives_to(counter_seeds(), program_id@, a@) && a.wf()),
{
    let mut seeds: Vec<Vec<u8>> = Vec::new();
    seeds.push(counter_seed_bytes());
    proof {
        assert(seeds@.map_values(|s: Vec<u8>| s@) =~~= counter_seeds());
    }
    try_find_pda(&seeds, program_id)
}

/// Derive the delegation buffer's address: registry buffer tag plus the
/// target address, under the owning program.
pub fn derive_buffer_address(pda: &Address, owner_program: &Address) -> (r: Option<Address>)
    requires
        owner_program.wf(),
    ensures
        r is Some <==> pda_of(buffer_seeds(pda@), owner_program@) is Some,
        (r matches Some(a) ==> derives_to(buffer_seeds(pda@), owner_program@, a@) && a.wf()),
{
    let mut seeds: Vec<Vec<u8>> = Vec::new();
    seeds.push(buffer_seed_bytes());
    seeds.push(copy_bytes(&pda.bytes));
    proof {
        assert(seeds@.map_values(|s: Vec<u8>| s@) =~~= buffer_seeds(pda@));
    }
    try_find_pda(&seeds, owner_program)
}

/// Derive the delegation record's address: registry record tag plus the
/// target address, under the registry program.
pub fn derive_delegation_record_address(pda: &Address, registry: &Address) -> (r: Option<Address>)
    requires
        registry.wf(),
    ensures
        r is Some <==> pda_of(delegation_record_seeds(pda@), registry@) is Some,
        (r matches Some(a) ==> derives_to(delegation_record_seeds(pda@), registry@, a@) && a.wf()),
{
    let mut seeds: Vec<Vec<u8>> = Vec::new();
    seeds.push(delegation_record_seed_bytes());
    seeds.push(copy_bytes(&pda.bytes));
    proof {
        assert(seeds@.map_values(|s: Vec<u8>| s@) =~~= delegation_record_seeds(pda@));
    }
    try_find_pda(&seeds, registry)
}

/// Derive the delegation metadata's address: registry metadata tag plus the
/// target address, under the registry program.
pub fn derive_delegation_metadata_address(pda: &Address, registry: &Address) -> (r: Option<Address>)
    requires
        registry.wf(),
    ensures
        r is Some <==> pda_of(delegation_metadata_seeds(pda@), registry@) is Some,
        (r matches Some(a) ==> derives_to(delegation_metadata_seeds(pda@), registry@, a@)
            && a.wf()),
{
    let mut seeds: Vec<Vec<u8>> = Vec::new();
    seeds.push(delegation_metadata_seed_bytes());
    seeds.push(copy_bytes(&pda.bytes));
    proof {
        assert(seeds@.map_values(|s: Vec<u8>| s@) =~~= delegation_metadata_seeds(pda@));
    }
    try_find_pda(&seeds, registry)
}

/// Whether `given` equals a canonical derivation (`None`: none exists).
pub fn matches_derivation(derived: &Option<Address>, given: &Address) -> (r: bool)
    ensures
        r == (derived matches Some(a) && a@ == given@),
{
    match derived {
        Some(a) => address_eq(a, given),
        None => false,
    }
}

} // verus!
