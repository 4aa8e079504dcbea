//! The custody state machine's data model.
//!
//! One counter record lives at a derived address. Its storage is owned by
//! exactly one of two execution contexts at any instant; a live delegation
//! record in the external registry marks rollup custody; `committed` is the
//! count held by the last durable checkpoint on the base ledger.

use vstd::prelude::*;

use crate::addr::Address;

verus! {

/// The counter record: the payload the custody protocol protects.
#[derive(Clone, Copy, Debug, PartialEq, Eq, Structural)]
pub struct Counter {
    pub count: u64,
}

/// Which execution context owns the record's storage.
#[derive(Clone, Copy, Debug, PartialEq, Eq, Structural)]
pub enum AccountOwner {
    /// The durable base-ledger program.
    BaseLedger,
    /// The ephemeral rollup execution context.
    Rollup,
}

/// The ledger slot at the record's derived address: the deserialized
/// working copy, and the count held by the serialized account bytes.
/// Checkpoints package the serialized bytes, so a handler flushes the
/// working copy before every emission.
#[derive(Clone, Copy, Debug, PartialEq, Eq, Structural)]
pub struct Slot {
    /// The in-memory working copy of the record.
    pub record: Counter,
    /// The count held by the serialized account bytes.
    pub stored: u64,
}

impl Slot {
    /// Serialize the working copy into the account bytes, so that the next
    /// checkpoint packages exactly the value just written.
    pub fn flush(&mut self)
        ensures
            final(self).record == old(self).record,
            final(self).stored == old(self).record.count,
    {
        self.stored = self.record.count;
    }
}

/// A live delegation record in the external registry, binding the
/// delegated account to its delegating program.
#[derive(Clone, Debug)]
pub struct DelegationRecord {
    /// The delegated account's address.
    pub account: Address,
    /// The delegating program's identity.
    pub owner_program: Address,
    /// Expiry of the delegation; `0` means no limit.
    pub time_limit: u64,
    /// Advisory base-layer checkpoint interval, in milliseconds.
    pub update_frequency_ms: u64,
}

/// Everything the custody protocol can observe or change: the record's
/// slot, its storage owner, the registry's delegation record, and the
/// count held by the last durable checkpoint.
pub struct Ledger {
    /// The record at the derived address; `None` before initialization.
    pub slot: Option<Slot>,
    /// The storage owner of the record.
    pub owner: AccountOwner,
    /// The live delegation record, if any.
    pub delegation: Option<DelegationRecord>,
    /// The count held by the last durable checkpoint, if any.
    pub committed: Option<u64>,
}

impl Ledger {
    /// Custody: the rollup owns the record exactly while a delegation
    /// record is live, and only an existing record can be delegated.
    pub open spec fn custody_ok(self) -> bool {
        &&& self.owner is Rollup <==> self.delegation is Some
        &&& self.delegation is Some ==> self.slot is Some
    }

    /// Between invocations the account bytes hold the working copy.
    pub open spec fn flushed(self) -> bool {
        self.slot matches Some(s) ==> s.stored == s.record.count
    }

    /// Well-formed between handler invocations.
    pub open spec fn wf(self) -> bool {
        self.custody_ok() && self.flushed()
    }

    /// The current in-memory count.
    pub open spec fn count(self) -> u64
        recommends
            self.slot is Some,
    {
        self.slot->Some_0.record.count
    }

    /// A ledger with no record yet: base-ledger custody, nothing
    /// delegated, nothing checkpointed.
    pub fn empty() -> (l: Ledger)
        ensures
            l == (Ledger {
                slot: None::<Slot>,
                owner: AccountOwner::BaseLedger,
                delegation: None::<DelegationRecord>,
                committed: None::<u64>,
            }),
            l.wf(),
    {
        Ledger { slot: None, owner: AccountOwner::BaseLedger, delegation: None, committed: None }
    }
}

} // verus!
