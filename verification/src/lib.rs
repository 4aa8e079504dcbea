//! A counter whose storage can be delegated from a base ledger to an
//! ephemeral rollup execution context and returned by an undelegation
//! checkpoint. The delegation / commit / undelegate custody protocol is
//! the heart of the library: every handler states exactly which inputs
//! succeed, which fail, and with which error.

use vstd::prelude::*;

pub mod addr;
pub mod laws;
pub mod protocol;
pub mod state;

verus! {

/// The typed failure reasons a caller can observe. Every failure aborts
/// the whole invocation with no partial effect on the ledger model.
#[derive(Clone, Copy, Debug, PartialEq, Eq, Structural)]
pub enum CounterError {
    /// A record already exists at the derived address.
    AlreadyInitialized,
    /// The counter sits at the largest unsigned 64-bit value; incrementing
    /// again would wrap, which the monotonicity invariant forbids.
    Overflow,
    /// A live delegation record already exists for the address.
    DelegationConflict,
    /// A buffer / record / metadata address does not re-derive from the
    /// registry's seed scheme.
    InvalidDelegationAccounts,
    /// A commit or undelegate was requested while the account is not
    /// delegated to the rollup.
    NotDelegated,
    /// A supplied address does not match its re-derivation.
    AddressMismatch,
}

} // verus!
