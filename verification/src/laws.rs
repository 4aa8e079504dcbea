//! Protocol-wide laws, proved over the handlers' step functions.

use vstd::prelude::*;

use crate::protocol::{
    counter_account_ok, delegate_step, delegation_accounts_ok, increment_and_commit_step,
    increment_step, initialize_step, undelegate_step, DelegateInput, Increment, IncrementAndCommit,
    Initialize,
};
use crate::state::Ledger;
use crate::addr::Address;
use crate::CounterError;

verus! {

/// The ledger after `n` further increments of the same record.
pub open spec fn apply_increments(l: Ledger, a: Increment, program_id: Address, n: nat) -> Ledger
    decreases n,
{
    if n == 0 {
        l
    } else {
        increment_step(apply_increments(l, a, program_id, (n - 1) as nat), a, program_id).0
    }
}

/// Law: on an existing record, any run of increments that stays within the
/// 64-bit range succeeds step by step and raises the count by exactly its
/// length, touching neither custody, delegation nor checkpoint. There are
/// no gaps and no double counts.
pub proof fn lemma_increments_add_up(l: Ledger, a: Increment, program_id: Address, n: nat)
    requires
        l.wf(),
        l.slot is Some,
        counter_account_ok(a.counter, program_id),
        l.count() + n <= u64::MAX,
    ensures
        ({
            let ln = apply_increments(l, a, program_id, n);
            &&& ln.wf()
            &&& ln.slot is Some
            &&& ln.count() == l.count() + n
            &&& ln.owner == l.owner
            &&& ln.delegation == l.delegation
            &&& ln.committed == l.committed
            &&& n > 0 ==> increment_step(
                apply_increments(l, a, program_id, (n - 1) as nat),
                a,
                program_id,
            ).1 == Ok::<(), CounterError>(())
        }),
    decreases n,
{
    if n > 0 {
        lemma_increments_add_up(l, a, program_id, (n - 1) as nat);
    }
}

/// Law: one increment step either fails and leaves the ledger unchanged,
/// or succeeds and raises the count by exactly one: never a gap, never a
/// double count, never a decrease.
pub proof fn lemma_increment_never_skips(l: Ledger, a: Increment, program_id: Address)
    requires
        l.wf(),
        l.slot is Some,
    ensures
        ({
            let (l1, r) = increment_step(l, a, program_id);
            &&& r is Ok ==> l1.count() == l.count() + 1
            &&& r is Err ==> l1 == l
        }),
{
}

/// Law: after initialization, the count equals exactly the number of
/// successful increments performed since.
pub proof fn lemma_count_is_number_of_increments(
    l0: Ledger,
    init: Initialize,
    a: Increment,
    program_id: Address,
    n: nat,
)
    requires
        l0.wf(),
        l0.slot is None,
        counter_account_ok(init.counter, program_id),
        counter_account_ok(a.counter, program_id),
        n <= u64::MAX,
    ensures
        initialize_step(l0, init, program_id).1 == Ok::<(), CounterError>(()),
        ({
            let l1 = initialize_step(l0, init, program_id).0;
            &&& l1.count() == 0
            &&& apply_increments(l1, a, program_id, n).count() == n
        }),
{
    let l1 = initialize_step(l0, init, program_id).0;
    lemma_increments_add_up(l1, a, program_id, n);
}

/// Law: `initialize` succeeds in effect only once. After a successful
/// call, a second one always fails with `AlreadyInitialized`, and the
/// failed call changes nothing.
pub proof fn lemma_initialize_only_once(
    l: Ledger,
    first: Initialize,
    second: Initialize,
    program_id: Address,
)
    requires
        l.wf(),
        counter_account_ok(second.counter, program_id),
        initialize_step(l, first, program_id).1 == Ok::<(), CounterError>(()),
    ensures
        ({
            let l1 = initialize_step(l, first, program_id).0;
            initialize_step(l1, second, program_id) == (
                l1,
                Err::<(), CounterError>(CounterError::AlreadyInitialized),
            )
        }),
{
}

/// Law: `increment_and_commit` while not delegated fails with
/// `NotDelegated` and leaves the ledger — the count included — unchanged.
pub proof fn lemma_commit_needs_delegation(l: Ledger, a: IncrementAndCommit, program_id: Address)
    requires
        l.wf(),
        l.slot is Some,
        l.delegation is None,
        counter_account_ok(a.counter, program_id),
    ensures
        increment_and_commit_step(l, a, program_id) == (
            l,
            Err::<(), CounterError>(CounterError::NotDelegated),
        ),
{
}

/// Law: a successful `delegate` leaves exactly one live delegation record,
/// bound to the delegated address, and the rollup owns the record. A
/// second `delegate` for the same address then fails with
/// `DelegationConflict` and changes nothing.
pub proof fn lemma_delegate_excludes_second(
    l: Ledger,
    first: DelegateInput,
    second: DelegateInput,
    program_id: Address,
)
    requires
        l.wf(),
        l.slot is Some,
        delegate_step(l, first, program_id).1 == Ok::<(), CounterError>(()),
        second.owner_program@ == program_id@,
        counter_account_ok(second.pda, program_id),
        delegation_accounts_ok(second),
    ensures
        ({
            let l1 = delegate_step(l, first, program_id).0;
            &&& l1.delegation matches Some(d) && d.account == first.pda
            &&& l1.owner is Rollup
            &&& delegate_step(l1, second, program_id) == (
                l1,
                Err::<(), CounterError>(CounterError::DelegationConflict),
            )
        }),
{
}

/// Law: a successful `undelegate` checkpoints exactly the count visible at
/// call time, closes the delegation record and returns custody to the base
/// ledger; a subsequent `increment_and_commit` fails with `NotDelegated`.
pub proof fn lemma_undelegate_checkpoints_and_blocks_commit(
    l: Ledger,
    a: IncrementAndCommit,
    b: IncrementAndCommit,
    program_id: Address,
)
    requires
        l.wf(),
        l.slot is Some,
        l.delegation is Some,
        counter_account_ok(a.counter, program_id),
        counter_account_ok(b.counter, program_id),
    ensures
        ({
            let (l1, r1) = undelegate_step(l, a, program_id);
            &&& r1 == Ok::<(), CounterError>(())
            &&& l1.committed == Some(l.count())
            &&& l1.owner is BaseLedger
            &&& l1.delegation is None
            &&& l1.slot == l.slot
            &&& increment_and_commit_step(l1, b, program_id).1 == Err::<(), CounterError>(
                CounterError::NotDelegated,
            )
        }),
{
}

} // verus!
