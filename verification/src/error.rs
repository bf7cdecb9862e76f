//! The errors of the three layers: the ledger, the slot manager and the
//! registry controller.

use vstd::prelude::*;

verus! {

/// A failure reported by the ledger itself.
#[derive(Clone, Copy, Debug, PartialEq, Eq, Structural)]
pub enum StoreError {
    /// The ledger could not allocate a record at the address.
    AllocationError,
    /// No record is allocated at the address.
    NotFoundError,
}

/// A failure of the slot manager.
#[derive(Clone, Copy, Debug, PartialEq, Eq, Structural)]
pub enum SlotError {
    /// A record is already allocated at the slot's address.
    AlreadyExists,
    /// No record is allocated at the slot's address.
    NotFound,
}

/// A failure of a registry operation. Every failure leaves the registry and
/// the ledger as they were.
#[derive(Clone, Copy, Debug, PartialEq, Eq, Structural)]
pub enum WhitelistError {
    /// The caller is not the registry's current authority.
    Unauthorized,
    /// The identity is already a member of the registry.
    AlreadyMember,
    /// The identity is not a member of the registry.
    NotMember,
    /// The registry's counter is at its maximum and cannot count one more.
    CounterOverflow,
    /// The registry's counter is zero and cannot count one less.
    CounterUnderflow,
    /// The ledger could not allocate the registry's record.
    AllocationError,
    /// No slot address can be derived for the registry and the identity.
    InvalidReference,
}

} // verus!
