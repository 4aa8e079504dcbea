//! The delegation / commit / undelegate custody protocol.
//!
//! Each handler is specified by a step function from the old ledger to the
//! new ledger and the caller-visible result; the executable handler is
//! proved to agree with its step exactly. Every failure leaves the ledger
//! unchanged: an invocation is all-or-nothing.

use vstd::prelude::*;

use crate::addr::{
    buffer_seeds, counter_seeds, delegation_metadata_seeds, delegation_record_seeds,
    derive_buffer_address, derive_counter_address, derive_delegation_metadata_address,
    derive_delegation_record_address, derives_to, matches_derivation, address_eq, Address,
};
use crate::state::{AccountOwner, Counter, DelegationRecord, Ledger, Slot};
use crate::CounterError;

verus! {

/// Account inputs of `initialize`: the record's address and the funding
/// signer.
pub struct Initialize {
    pub counter: Address,
    pub user: Address,
}

/// Account inputs of `increment`: the record's address.
pub struct Increment {
    pub counter: Address,
}

/// Account inputs of `delegate`: the payer, the record to delegate, the
/// owning program, and the registry's buffer / record / metadata accounts
/// under the registry program's identity.
pub struct DelegateInput {
    pub payer: Address,
    pub pda: Address,
    pub owner_program: Address,
    pub buffer: Address,
    pub delegation_record: Address,
    pub delegation_metadata: Address,
    pub delegation_program: Address,
}

/// Account inputs of `increment_and_commit`, `undelegate` and
/// `increment_and_undelegate`: the fee payer and the record's address.
pub struct IncrementAndCommit {
    pub payer: Address,
    pub counter: Address,
}

/// The default delegation time limit: no expiry.
pub const DEFAULT_TIME_LIMIT: u64 = 0;

/// The default base-layer update-frequency hint, in milliseconds.
pub const DEFAULT_UPDATE_FREQUENCY_MS: u64 = 30000;

/// The supplied counter address re-derives from the fixed seed under the
/// owning program.
pub open spec fn counter_account_ok(given: Address, program_id: Address) -> bool {
    derives_to(counter_seeds(), program_id@, given@)
}

/// Buffer, record and metadata all re-derive from the registry's seed
/// scheme combined with the target address.
pub open spec fn delegation_accounts_ok(a: DelegateInput) -> bool {
    &&& derives_to(buffer_seeds(a.pda@), a.owner_program@, a.buffer@)
    &&& derives_to(delegation_record_seeds(a.pda@), a.delegation_program@, a.delegation_record@)
    &&& derives_to(
        delegation_metadata_seeds(a.pda@),
        a.delegation_program@,
        a.delegation_metadata@,
    )
}

/// `initialize`: allocate the record with count 0 under base-ledger
/// custody; fail if one already exists.
pub open spec fn initialize_step(l: Ledger, a: Initialize, program_id: Address) -> (Ledger, Result<
    (),
    CounterError,
>) {
    if !counter_account_ok(a.counter, program_id) {
        (l, Err(CounterError::AddressMismatch))
    } else if l.slot is Some {
        (l, Err(CounterError::AlreadyInitialized))
    } else {
        (
            Ledger { slot: Some(Slot { record: Counter { count: 0 }, stored: 0 }), ..l },
            Ok(()),
        )
    }
}

/// `increment`: add one to the count, whichever context owns the record;
/// refuse to wrap at the largest value.
pub open spec fn increment_step(l: Ledger, a: Increment, program_id: Address) -> (Ledger, Result<
    (),
    CounterError,
>)
    recommends
        l.slot is Some,
{
    if !counter_account_ok(a.counter, program_id) {
        (l, Err(CounterError::AddressMismatch))
    } else if l.count() == u64::MAX {
        (l, Err(CounterError::Overflow))
    } else {
        (
            Ledger {
                slot: Some(
                    Slot {
                        record: Counter { count: (l.count() + 1) as u64 },
                        stored: (l.count() + 1) as u64,
                    },
                ),
                ..l
            },
            Ok(()),
        )
    }
}

/// The Delegation Coordinator's step: validate the registry account set,
/// then atomically create the delegation record and move custody to the
/// rollup; a live record makes the request fail instead.
pub open spec fn coordinate_step(l: Ledger, a: DelegateInput) -> (Ledger, Result<
    (),
    CounterError,
>) {
    if !delegation_accounts_ok(a) {
        (l, Err(CounterError::InvalidDelegationAccounts))
    } else if l.delegation is Some {
        (l, Err(CounterError::DelegationConflict))
    } else {
        (
            Ledger {
                owner: AccountOwner::Rollup,
                delegation: Some(
                    DelegationRecord {
                        account: a.pda,
                        owner_program: a.owner_program,
                        time_limit: DEFAULT_TIME_LIMIT,
                        update_frequency_ms: DEFAULT_UPDATE_FREQUENCY_MS,
                    },
                ),
                ..l
            },
            Ok(()),
        )
    }
}

/// `delegate`: check the owning program and the record's address, then run
/// the Delegation Coordinator.
pub open spec fn delegate_step(l: Ledger, a: DelegateInput, program_id: Address) -> (Ledger, Result<
    (),
    CounterError,
>) {
    if a.owner_program@ != program_id@ || !counter_account_ok(a.pda, program_id) {
        (l, Err(CounterError::AddressMismatch))
    } else {
        coordinate_step(l, a)
    }
}

/// The Commit Emitter's step: checkpoint the serialized bytes without
/// relinquishing rollup custody; absent a delegation the request is
/// rejected.
pub open spec fn commit_step(l: Ledger) -> (Ledger, Result<(), CounterError>)
    recommends
        l.slot is Some,
{
    if l.delegation is None {
        (l, Err(CounterError::NotDelegated))
    } else {
        (Ledger { committed: Some(l.slot->Some_0.stored), ..l }, Ok(()))
    }
}

/// The Undelegation Emitter's step: checkpoint the serialized bytes, close
/// the delegation record, and return custody to the base ledger.
pub open spec fn commit_and_undelegate_step(l: Ledger) -> (Ledger, Result<(), CounterError>)
    recommends
        l.slot is Some,
{
    if l.delegation is None {
        (l, Err(CounterError::NotDelegated))
    } else {
        (
            Ledger {
                committed: Some(l.slot->Some_0.stored),
                delegation: None,
                owner: AccountOwner::BaseLedger,
                ..l
            },
            Ok(()),
        )
    }
}

/// `increment_and_commit`: increment, flush, and checkpoint, all while the
/// rollup keeps custody; while not delegated nothing changes.
pub open spec fn increment_and_commit_step(
    l: Ledger,
    a: IncrementAndCommit,
    program_id: Address,
) -> (Ledger, Result<(), CounterError>)
    recommends
        l.slot is Some,
{
    if !counter_account_ok(a.counter, program_id) {
        (l, Err(CounterError::AddressMismatch))
    } else if l.delegation is None {
        (l, Err(CounterError::NotDelegated))
    } else if l.count() == u64::MAX {
        (l, Err(CounterError::Overflow))
    } else {
        commit_step(
            Ledger {
                slot: Some(
                    Slot {
                        record: Counter { count: (l.count() + 1) as u64 },
                        stored: (l.count() + 1) as u64,
                    },
                ),
                ..l
            },
        )
    }
}

/// `undelegate`: checkpoint the state visible at call time and end the
/// delegation; no increment.
pub open spec fn undelegate_step(l: Ledger, a: IncrementAndCommit, program_id: Address) -> (
    Ledger,
    Result<(), CounterError>,
)
    recommends
        l.slot is Some,
{
    if !counter_account_ok(a.counter, program_id) {
        (l, Err(CounterError::AddressMismatch))
    } else {
        commit_and_undelegate_step(l)
    }
}

/// `increment_and_undelegate`: increment, flush, then checkpoint and end
/// the delegation, so the final snapshot reflects the increment.
pub open spec fn increment_and_undelegate_step(
    l: Ledger,
    a: IncrementAndCommit,
    program_id: Address,
) -> (Ledger, Result<(), CounterError>)
    recommends
        l.slot is Some,
{
    if !counter_account_ok(a.counter, program_id) {
        (l, Err(CounterError::AddressMismatch))
    } else if l.delegation is None {
        (l, Err(CounterError::NotDelegated))
    } else if l.count() == u64::MAX {
        (l, Err(CounterError::Overflow))
    } else {
        commit_and_undelegate_step(
            Ledger {
                slot: Some(
                    Slot {
                        record: Counter { count: (l.count() + 1) as u64 },
                        stored: (l.count() + 1) as u64,
                    },
                ),
                ..l
            },
        )
    }
}

/// Commit Emitter: submit a durable checkpoint of the record's serialized
/// bytes; rollup custody is retained, so further operations keep working.
pub fn emit_commit(l: &mut Ledger) -> (r: Result<(), CounterError>)
    requires
        old(l).custody_ok(),
        old(l).slot is Some,
    ensures
        r == commit_step(*old(l)).1,
        *final(l) == commit_step(*old(l)).0,
        final(l).custody_ok(),
{
    if l.delegation.is_none() {
        return Err(CounterError::NotDelegated);
    }
    let s = l.slot.unwrap();
    l.committed = Some(s.stored);
    Ok(())
}

/// Undelegation Emitter: submit a final checkpoint of the serialized bytes
/// and close the delegation record, returning custody to the base ledger.
/// This is the only path that returns custody.
pub fn emit_commit_and_undelegate(l: &mut Ledger) -> (r: Result<(), CounterError>)
    requires
        old(l).custody_ok(),
        old(l).slot is Some,
    ensures
        r == commit_and_undelegate_step(*old(l)).1,
        *final(l) == commit_and_undelegate_step(*old(l)).0,
        final(l).custody_ok(),
{
    if l.delegation.is_none() {
        return Err(CounterError::NotDelegated);
    }
    let s = l.slot.unwrap();
    l.committed = Some(s.stored);
    l.delegation = None;
    l.owner = AccountOwner::BaseLedger;
    Ok(())
}

/// Delegation Coordinator: re-derive and compare the buffer / record /
/// metadata addresses, then atomically create the delegation record and
/// hand custody to the rollup; either everything applies or nothing does.
pub fn coordinate_delegation(a: DelegateInput, l: &mut Ledger) -> (r: Result<(), CounterError>)
    requires
        old(l).wf(),
        old(l).slot is Some,
        a.owner_program.wf(),
        a.delegation_program.wf(),
    ensures
        r == coordinate_step(*old(l), a).1,
        *final(l) == coordinate_step(*old(l), a).0,
        final(l).wf(),
{
    let buffer_ok = matches_derivation(&derive_buffer_address(&a.pda, &a.owner_program), &a.buffer);
    let record_ok = matches_derivation(
        &derive_delegation_record_address(&a.pda, &a.delegation_program),
        &a.delegation_record,
    );
    let metadata_ok = matches_derivation(
        &derive_delegation_metadata_address(&a.pda, &a.delegation_program),
        &a.delegation_metadata,
    );
    if !(buffer_ok && record_ok && metadata_ok) {
        return Err(CounterError::InvalidDelegationAccounts);
    }
    if l.delegation.is_some() {
        return Err(CounterError::DelegationConflict);
    }
    l.owner = AccountOwner::Rollup;
    l.delegation = Some(
        DelegationRecord {
            account: a.pda,
            owner_program: a.owner_program,
            time_limit: DEFAULT_TIME_LIMIT,
            update_frequency_ms: DEFAULT_UPDATE_FREQUENCY_MS,
        },
    );
    Ok(())
}

/// `initialize`: allocate the counter record at its derived address with
/// count 0; a second call fails with `AlreadyInitialized` and changes
/// nothing.
pub fn initialize(a: Initialize, program_id: &Address, l: &mut Ledger) -> (r: Result<
    (),
    CounterError,
>)
    requires
        old(l).wf(),
        program_id.wf(),
    ensures
        r == initialize_step(*old(l), a, *program_id).1,
        *final(l) == initialize_step(*old(l), a, *program_id).0,
        final(l).wf(),
{
    let ok = matches_derivation(&derive_counter_address(program_id), &a.counter);
    if !ok {
        return Err(CounterError::AddressMismatch);
    }
    if l.slot.is_some() {
        return Err(CounterError::AlreadyInitialized);
    }
    l.slot = Some(Slot { record: Counter { count: 0 }, stored: 0 });
    Ok(())
}

/// `increment`: add one to the counter, under either custody; at the
/// largest value fail with `Overflow` rather than wrap.
pub fn increment(a: Increment, program_id: &Address, l: &mut Ledger) -> (r: Result<
    (),
    CounterError,
>)
    requires
        old(l).wf(),
        old(l).slot is Some,
        program_id.wf(),
    ensures
        r == increment_step(*old(l), a, *program_id).1,
        *final(l) == increment_step(*old(l), a, *program_id).0,
        final(l).wf(),
{
    let ok = matches_derivation(&derive_counter_address(program_id), &a.counter);
    if !ok {
        return Err(CounterError::AddressMismatch);
    }
    let mut s = l.slot.unwrap();
    if s.record.count == u64::MAX {
        return Err(CounterError::Overflow);
    }
    s.record.count = s.record.count + 1;
    s.flush();
    l.slot = Some(s);
    Ok(())
}

/// `delegate`: hand custody of the counter record to the rollup context,
/// with no expiry and the default checkpoint-frequency hint.
pub fn delegate(a: DelegateInput, program_id: &Address, l: &mut Ledger) -> (r: Result<
    (),
    CounterError,
>)
    requires
        old(l).wf(),
        old(l).slot is Some,
        program_id.wf(),
        a.owner_program.wf(),
        a.delegation_program.wf(),
    ensures
        r == delegate_step(*old(l), a, *program_id).1,
        *final(l) == delegate_step(*old(l), a, *program_id).0,
        final(l).wf(),
{
    let owner_ok = address_eq(&a.owner_program, program_id);
    let pda_ok = matches_derivation(&derive_counter_address(program_id), &a.pda);
    if !(owner_ok && pda_ok) {
        return Err(CounterError::AddressMismatch);
    }
    coordinate_delegation(a, l)
}

/// `increment_and_commit`: increment, flush, and submit a checkpoint
/// showing the new count; the rollup keeps custody. While not delegated it
/// fails with `NotDelegated` and leaves the count unchanged.
pub fn increment_and_commit(a: IncrementAndCommit, program_id: &Address, l: &mut Ledger) -> (r:
    Result<(), CounterError>)
    requires
        old(l).wf(),
        old(l).slot is Some,
        program_id.wf(),
    ensures
        r == increment_and_commit_step(*old(l), a, *program_id).1,
        *final(l) == increment_and_commit_step(*old(l), a, *program_id).0,
        final(l).wf(),
{
    let ok = matches_derivation(&derive_counter_address(program_id), &a.counter);
    if !ok {
        return Err(CounterError::AddressMismatch);
    }
    if l.delegation.is_none() {
        return Err(CounterError::NotDelegated);
    }
    let mut s = l.slot.unwrap();
    if s.record.count == u64::MAX {
        return Err(CounterError::Overflow);
    }
    s.record.count = s.record.count + 1;
    s.flush();
    l.slot = Some(s);
    emit_commit(l)
}

/// `undelegate`: submit a final checkpoint of the state visible at call
/// time and end the delegation; does not itself increment.
pub fn undelegate(a: IncrementAndCommit, program_id: &Address, l: &mut Ledger) -> (r: Result<
    (),
    CounterError,
>)
    requires
        old(l).wf(),
        old(l).slot is Some,
        program_id.wf(),
    ensures
        r == undelegate_step(*old(l), a, *program_id).1,
        *final(l) == undelegate_step(*old(l), a, *program_id).0,
        final(l).wf(),
{
    let ok = matches_derivation(&derive_counter_address(program_id), &a.counter);
    if !ok {
        return Err(CounterError::AddressMismatch);
    }
    emit_commit_and_undelegate(l)
}

/// `increment_and_undelegate`: increment, flush so the final snapshot
/// reflects the increment, then checkpoint and end the delegation.
pub fn increment_and_undelegate(a: IncrementAndCommit, program_id: &Address, l: &mut Ledger) -> (r:
    Result<(), CounterError>)
    requires
        old(l).wf(),
        old(l).slot is Some,
        program_id.wf(),
    ensures
        r == increment_and_undelegate_step(*old(l), a, *program_id).1,
        *final(l) == increment_and_undelegate_step(*old(l), a, *program_id).0,
        final(l).wf(),
{
    let ok = matches_derivation(&derive_counter_address(program_id), &a.counter);
    if !ok {
        return Err(CounterError::AddressMismatch);
    }
    if l.delegation.is_none() {
        return Err(CounterError::NotDelegated);
    }
    let mut s = l.slot.unwrap();
    if s.record.count == u64::MAX {
        return Err(CounterError::Overflow);
    }
    s.record.count = s.record.count + 1;
    s.flush();
    l.slot = Some(s);
    emit_commit_and_undelegate(l)
}

} // verus!
