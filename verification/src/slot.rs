//! The membership slot manager: creates, checks and destroys the record whose
//! presence at a derived address means that an identity is a member.

use vstd::prelude::*;
use crate::error::SlotError;
use crate::identity::{Address, Identity};
use crate::store::Ledger;

verus! {

/// The record of a membership slot. It carries no payload: only its presence
/// at its address means anything.
#[derive(Clone, Copy, Debug, PartialEq, Eq, Structural)]
pub struct Wallet {}

impl Wallet {
    /// The bytes allocated for a slot: its record tag and no payload.
    pub const LEN: usize = 8;
}

/// Creates the slot at `address`, paid for by `funder`. A slot that is
/// already there is rejected with `AlreadyExists`.
pub fn create(ledger: &mut Ledger, address: &Address, funder: &Identity) -> (done: Result<
    (),
    SlotError,
>)
    ensures
        old(ledger)@.occupied(address@) ==> done == Err::<(), SlotError>(SlotError::AlreadyExists)
            && final(ledger)@ == old(ledger)@,
        !old(ledger)@.occupied(address@) ==> done == Ok::<(), SlotError>(()) && final(ledger)@
            == old(ledger)@.allocate(address@, Wallet::LEN as nat, funder@),
{
    match ledger.allocate(address, Wallet::LEN, funder) {
        Ok(()) => Ok(()),
        Err(_) => Err(SlotError::AlreadyExists),
    }
}

/// Whether the slot at `address` is there.
pub fn present(ledger: &Ledger, address: &Address) -> (there: bool)
    ensures
        there == ledger@.occupied(address@),
{
    ledger.read(address).is_some()
}

/// Destroys the slot at `address` and releases its deposit to `refund_to`. A
/// slot that is not there is rejected with `NotFound`.
pub fn destroy(ledger: &mut Ledger, address: &Address, refund_to: &Identity) -> (done: Result<
    (),
    SlotError,
>)
    ensures
        !old(ledger)@.occupied(address@) ==> done == Err::<(), SlotError>(SlotError::NotFound)
            && final(ledger)@ == old(ledger)@,
        old(ledger)@.occupied(address@) ==> done == Ok::<(), SlotError>(()) && final(ledger)@
            == old(ledger)@.free(address@, refund_to@),
{
    match ledger.free(address, refund_to) {
        Ok(()) => Ok(()),
        Err(_) => Err(SlotError::NotFound),
    }
}

} // verus!
