use anchor_counter::addr::{
    derive_buffer_address, derive_counter_address, derive_delegation_metadata_address,
    derive_delegation_record_address, Address,
};
use anchor_counter::protocol::{
    delegate, increment, increment_and_commit, increment_and_undelegate, initialize, undelegate,
    DelegateInput, Increment, IncrementAndCommit, Initialize,
};
use anchor_counter::state::{AccountOwner, Counter, DelegationRecord, Ledger, Slot};
use anchor_counter::CounterError;

fn pid() -> Address {
    Address { bytes: vec![7u8; 32] }
}

fn payer() -> Address {
    Address { bytes: vec![9u8; 32] }
}

fn registry() -> Address {
    Address { bytes: ephemeral_rollups_sdk::id().to_bytes().to_vec() }
}

fn counter_address() -> Address {
    derive_counter_address(&pid()).unwrap()
}

fn delegate_input() -> DelegateInput {
    let pda = counter_address();
    let owner = pid();
    let reg = registry();
    DelegateInput {
        payer: payer(),
        buffer: derive_buffer_address(&pda, &owner).unwrap(),
        delegation_record: derive_delegation_record_address(&pda, &reg).unwrap(),
        delegation_metadata: derive_delegation_metadata_address(&pda, &reg).unwrap(),
        pda,
        owner_program: owner,
        delegation_program: reg,
    }
}

fn initialized_ledger() -> Ledger {
    let program = pid();
    let mut l = Ledger::empty();
    let r = initialize(Initialize { counter: counter_address(), user: payer() }, &program, &mut l);
    assert_eq!(r, Ok(()));
    l
}

#[test]
fn full_session_scenario() {
    let program = pid();
    let mut l = Ledger::empty();

    // initialize: count = 0, base-ledger custody.
    let r = initialize(Initialize { counter: counter_address(), user: payer() }, &program, &mut l);
    assert_eq!(r, Ok(()));
    assert_eq!(l.slot, Some(Slot { record: Counter { count: 0 }, stored: 0 }));
    assert_eq!(l.owner, AccountOwner::BaseLedger);

    // increment x3: count = 3.
    for _ in 0..3 {
        let r = increment(Increment { counter: counter_address() }, &program, &mut l);
        assert_eq!(r, Ok(()));
    }
    assert_eq!(l.slot.unwrap().record.count, 3);

    // delegate: rollup custody, one live delegation record.
    let r = delegate(delegate_input(), &program, &mut l);
    assert_eq!(r, Ok(()));
    assert_eq!(l.owner, AccountOwner::Rollup);
    assert!(l.delegation.is_some());

    // increment_and_commit: count = 4, checkpoint shows 4, custody kept.
    let r = increment_and_commit(
        IncrementAndCommit { payer: payer(), counter: counter_address() },
        &program,
        &mut l,
    );
    assert_eq!(r, Ok(()));
    assert_eq!(l.slot.unwrap().record.count, 4);
    assert_eq!(l.committed, Some(4));
    assert_eq!(l.owner, AccountOwner::Rollup);

    // increment_and_undelegate: count = 5, final checkpoint shows 5,
    // custody returned, delegation record closed.
    let r = increment_and_undelegate(
        IncrementAndCommit { payer: payer(), counter: counter_address() },
        &program,
        &mut l,
    );
    assert_eq!(r, Ok(()));
    assert_eq!(l.slot.unwrap().record.count, 5);
    assert_eq!(l.committed, Some(5));
    assert_eq!(l.owner, AccountOwner::BaseLedger);
    assert!(l.delegation.is_none());
}

#[test]
fn second_initialize_fails_and_changes_nothing() {
    let program = pid();
    let mut l = initialized_ledger();
    let r = increment(Increment { counter: counter_address() }, &program, &mut l);
    assert_eq!(r, Ok(()));

    let r = initialize(Initialize { counter: counter_address(), user: payer() }, &program, &mut l);
    assert_eq!(r, Err(CounterError::AlreadyInitialized));
    assert_eq!(l.slot, Some(Slot { record: Counter { count: 1 }, stored: 1 }));
    assert_eq!(l.owner, AccountOwner::BaseLedger);
}

#[test]
fn commit_without_delegation_fails_and_keeps_count() {
    let program = pid();
    let mut l = initialized_ledger();
    let r = increment(Increment { counter: counter_address() }, &program, &mut l);
    assert_eq!(r, Ok(()));

    let r = increment_and_commit(
        IncrementAndCommit { payer: payer(), counter: counter_address() },
        &program,
        &mut l,
    );
    assert_eq!(r, Err(CounterError::NotDelegated));
    assert_eq!(l.slot.unwrap().record.count, 1);
    assert_eq!(l.committed, None);
}

#[test]
fn undelegate_without_delegation_fails() {
    let program = pid();
    let mut l = initialized_ledger();
    let r = undelegate(
        IncrementAndCommit { payer: payer(), counter: counter_address() },
        &program,
        &mut l,
    );
    assert_eq!(r, Err(CounterError::NotDelegated));
    assert_eq!(l.committed, None);
    assert_eq!(l.owner, AccountOwner::BaseLedger);
}

#[test]
fn second_delegate_conflicts() {
    let program = pid();
    let mut l = initialized_ledger();
    let r = delegate(delegate_input(), &program, &mut l);
    assert_eq!(r, Ok(()));

    let record = l.delegation.as_ref().unwrap();
    assert_eq!(record.account.bytes, counter_address().bytes);
    assert_eq!(record.owner_program.bytes, pid().bytes);
    assert_eq!(record.time_limit, 0);
    assert_eq!(record.update_frequency_ms, 30000);

    let r = delegate(delegate_input(), &program, &mut l);
    assert_eq!(r, Err(CounterError::DelegationConflict));
    assert_eq!(l.owner, AccountOwner::Rollup);
    assert!(l.delegation.is_some());
}

#[test]
fn undelegate_checkpoints_count_at_call_time() {
    let program = pid();
    let mut l = initialized_ledger();
    for _ in 0..2 {
        let r = increment(Increment { counter: counter_address() }, &program, &mut l);
        assert_eq!(r, Ok(()));
    }
    let r = delegate(delegate_input(), &program, &mut l);
    assert_eq!(r, Ok(()));

    let r = undelegate(
        IncrementAndCommit { payer: payer(), counter: counter_address() },
        &program,
        &mut l,
    );
    assert_eq!(r, Ok(()));
    assert_eq!(l.committed, Some(2));
    assert_eq!(l.slot.unwrap().record.count, 2);
    assert_eq!(l.owner, AccountOwner::BaseLedger);

    let r = increment_and_commit(
        IncrementAndCommit { payer: payer(), counter: counter_address() },
        &program,
        &mut l,
    );
    assert_eq!(r, Err(CounterError::NotDelegated));
    assert_eq!(l.committed, Some(2));
}

#[test]
fn wrong_counter_address_is_rejected() {
    let program = pid();
    let mut l = Ledger::empty();
    let r = initialize(Initialize { counter: pid(), user: payer() }, &program, &mut l);
    assert_eq!(r, Err(CounterError::AddressMismatch));
    assert!(l.slot.is_none());

    let mut l = initialized_ledger();
    let r = increment(Increment { counter: payer() }, &program, &mut l);
    assert_eq!(r, Err(CounterError::AddressMismatch));
    assert_eq!(l.slot.unwrap().record.count, 0);
}

#[test]
fn wrong_owner_program_is_rejected() {
    let program = pid();
    let mut l = initialized_ledger();
    let mut input = delegate_input();
    input.owner_program = payer();
    let r = delegate(input, &program, &mut l);
    assert_eq!(r, Err(CounterError::AddressMismatch));
    assert!(l.delegation.is_none());
}

#[test]
fn wrong_delegation_accounts_are_rejected() {
    let program = pid();
    let mut l = initialized_ledger();
    let mut input = delegate_input();
    input.buffer = Address { bytes: vec![1u8; 32] };
    let r = delegate(input, &program, &mut l);
    assert_eq!(r, Err(CounterError::InvalidDelegationAccounts));
    assert_eq!(l.owner, AccountOwner::BaseLedger);
    assert!(l.delegation.is_none());

    let mut input = delegate_input();
    input.delegation_record = Address { bytes: vec![2u8; 32] };
    let r = delegate(input, &program, &mut l);
    assert_eq!(r, Err(CounterError::InvalidDelegationAccounts));

    let mut input = delegate_input();
    input.delegation_metadata = Address { bytes: vec![3u8; 32] };
    let r = delegate(input, &program, &mut l);
    assert_eq!(r, Err(CounterError::InvalidDelegationAccounts));
}

#[test]
fn increment_overflow_fails_instead_of_wrapping() {
    let program = pid();
    let mut l = Ledger {
        slot: Some(Slot { record: Counter { count: u64::MAX }, stored: u64::MAX }),
        owner: AccountOwner::BaseLedger,
        delegation: None,
        committed: None,
    };
    let r = increment(Increment { counter: counter_address() }, &program, &mut l);
    assert_eq!(r, Err(CounterError::Overflow));
    assert_eq!(l.slot.unwrap().record.count, u64::MAX);
}

#[test]
fn commit_overflow_fails_without_partial_effect() {
    let program = pid();
    let mut l = Ledger {
        slot: Some(Slot { record: Counter { count: u64::MAX }, stored: u64::MAX }),
        owner: AccountOwner::Rollup,
        delegation: Some(DelegationRecord {
            account: counter_address(),
            owner_program: pid(),
            time_limit: 0,
            update_frequency_ms: 30000,
        }),
        committed: None,
    };
    let r = increment_and_commit(
        IncrementAndCommit { payer: payer(), counter: counter_address() },
        &program,
        &mut l,
    );
    assert_eq!(r, Err(CounterError::Overflow));
    assert_eq!(l.slot.unwrap().record.count, u64::MAX);
    assert_eq!(l.committed, None);
    assert_eq!(l.owner, AccountOwner::Rollup);

    let r = increment_and_undelegate(
        IncrementAndCommit { payer: payer(), counter: counter_address() },
        &program,
        &mut l,
    );
    assert_eq!(r, Err(CounterError::Overflow));
    assert!(l.delegation.is_some());
}
