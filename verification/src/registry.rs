//! The registry controller: the record of one registry, and the operations
//! that create it, hand its authority on, and add, remove and check members.
//!
//! Every operation is one transaction. It either makes all of its changes to
//! the registry and the ledger or fails and makes none.

use vstd::prelude::*;
use crate::derive::{address_view, derive_address, slot_address, PROGRAM_ID};
use crate::error::WhitelistError;
use crate::identity::{Address, Identity};
use crate::slot::{create, destroy, present, Wallet};
use crate::store::{Ledger, LedgerView};

verus! {

/// The record of a registry.
#[derive(Clone, Copy, Debug)]
pub struct WhitelistConfig {
    /// The identity allowed to change the membership and to hand the
    /// authority on.
    pub authority: Identity,
    /// Members added minus members removed.
    pub counter: u64,
}

/// The model of a registry.
pub struct ConfigView {
    pub authority: Seq<u8>,
    pub counter: nat,
}

impl View for WhitelistConfig {
    type V = ConfigView;

    open spec fn view(&self) -> ConfigView {
        ConfigView { authority: self.authority@, counter: self.counter as nat }
    }
}

impl ConfigView {
    /// A registry under `authority` that has no member yet.
    pub open spec fn fresh(authority: Seq<u8>) -> ConfigView {
        ConfigView { authority, counter: 0 }
    }

    /// The registry with `authority` in charge.
    pub open spec fn under(self, authority: Seq<u8>) -> ConfigView {
        ConfigView { authority, counter: self.counter }
    }

    /// The registry with one member more.
    pub open spec fn grown(self) -> ConfigView {
        ConfigView { authority: self.authority, counter: self.counter + 1 }
    }

    /// The registry with one member less.
    pub open spec fn shrunk(self) -> ConfigView {
        ConfigView { authority: self.authority, counter: (self.counter - 1) as nat }
    }
}

/// The accounts of `create_whitelist`.
#[derive(Clone, Copy, Debug)]
pub struct CreateWhitelist {
    /// The first authority of the registry, who also pays for its record.
    pub authority: Identity,
    /// Where the registry's record is to be allocated.
    pub whitelist_config: Address,
}

/// The accounts of `add_wallet`.
#[derive(Clone, Copy, Debug)]
pub struct AddWallet {
    /// Where the registry's record is allocated.
    pub whitelist_config: Address,
    /// The caller, who must be the registry's authority.
    pub authority: Identity,
    /// Who pays for the new slot.
    pub fee_payer: Identity,
}

/// The accounts of `check_wallet`.
#[derive(Clone, Copy, Debug)]
pub struct CheckWallet {
    /// Where the registry's record is allocated.
    pub whitelist_config: Address,
    /// The caller, who must be the registry's authority.
    pub authority: Identity,
}

/// The accounts of `remove_wallet`.
#[derive(Clone, Copy, Debug)]
pub struct RemoveWallet {
    /// Where the registry's record is allocated.
    pub whitelist_config: Address,
    /// The caller, who must be the registry's authority.
    pub authority: Identity,
    /// Who receives the deposit of the destroyed slot.
    pub refund_wallet: Identity,
}

/// The accounts of `set_authority`.
#[derive(Clone, Copy, Debug)]
pub struct SetAuthority {
    /// The caller, who must be the registry's authority.
    pub current_authority: Identity,
}

/// What an operation returns and what it leaves behind.
pub struct Outcome<T> {
    pub result: Result<T, WhitelistError>,
    pub config: ConfigView,
    pub ledger: LedgerView,
}

/// The outcome of a failed operation: nothing has changed.
pub open spec fn rejected<T>(config: ConfigView, ledger: LedgerView, error: WhitelistError)
    -> Outcome<T> {
    Outcome { result: Err(error), config, ledger }
}

/// The address of the membership slot of `identity` in the registry whose
/// record is allocated at `registry_id`.
pub open spec fn slot_of(registry_id: Seq<u8>, identity: Seq<u8>) -> Option<Seq<u8>> {
    slot_address(PROGRAM_ID@, registry_id, identity)
}

/// What `create_whitelist` does: it allocates the registry's record, paid
/// for by the first authority, and starts the counter at zero. The pair is
/// the result and the ledger afterwards.
pub open spec fn create_whitelist_outcome(
    ledger: LedgerView,
    authority: Seq<u8>,
    registry_id: Seq<u8>,
) -> (Result<ConfigView, WhitelistError>, LedgerView) {
    if ledger.occupied(registry_id) {
        (Err(WhitelistError::AllocationError), ledger)
    } else {
        (
            Ok(ConfigView::fresh(authority)),
            ledger.allocate(registry_id, WhitelistConfig::LEN as nat, authority),
        )
    }
}

/// What `set_authority` does. The pair is the result and the registry
/// afterwards.
pub open spec fn set_authority_outcome(
    config: ConfigView,
    caller: Seq<u8>,
    new_authority: Seq<u8>,
) -> (Result<(), WhitelistError>, ConfigView) {
    if caller != config.authority {
        (Err(WhitelistError::Unauthorized), config)
    } else {
        (Ok(()), config.under(new_authority))
    }
}

/// What `add_wallet` does, given the slot address derived for the identity.
pub open spec fn add_wallet_outcome(
    config: ConfigView,
    ledger: LedgerView,
    caller: Seq<u8>,
    slot: Option<Seq<u8>>,
    fee_payer: Seq<u8>,
) -> Outcome<()> {
    if caller != config.authority {
        rejected(config, ledger, WhitelistError::Unauthorized)
    } else if slot is None {
        rejected(config, ledger, WhitelistError::InvalidReference)
    } else if ledger.occupied(slot->0) {
        rejected(config, ledger, WhitelistError::AlreadyMember)
    } else if config.counter >= u64::MAX {
        rejected(config, ledger, WhitelistError::CounterOverflow)
    } else {
        Outcome {
            result: Ok(()),
            config: config.grown(),
            ledger: ledger.allocate(slot->0, Wallet::LEN as nat, fee_payer),
        }
    }
}

/// What `remove_wallet` does, given the slot address derived for the
/// identity.
pub open spec fn remove_wallet_outcome(
    config: ConfigView,
    ledger: LedgerView,
    caller: Seq<u8>,
    slot: Option<Seq<u8>>,
    refund_to: Seq<u8>,
) -> Outcome<()> {
    if caller != config.authority {
        rejected(config, ledger, WhitelistError::Unauthorized)
    } else if slot is None {
        rejected(config, ledger, WhitelistError::InvalidReference)
    } else if !ledger.occupied(slot->0) {
        rejected(config, ledger, WhitelistError::NotMember)
    } else if config.counter == 0 {
        rejected(config, ledger, WhitelistError::CounterUnderflow)
    } else {
        Outcome {
            result: Ok(()),
            config: config.shrunk(),
            ledger: ledger.free(slot->0, refund_to),
        }
    }
}

/// What `check_wallet` does, given the slot address derived for the
/// identity. It changes nothing.
pub open spec fn check_wallet_outcome(
    config: ConfigView,
    ledger: LedgerView,
    caller: Seq<u8>,
    slot: Option<Seq<u8>>,
) -> Outcome<bool> {
    if caller != config.authority {
        rejected(config, ledger, WhitelistError::Unauthorized)
    } else if slot is None {
        rejected(config, ledger, WhitelistError::InvalidReference)
    } else {
        Outcome { result: Ok(ledger.occupied(slot->0)), config, ledger }
    }
}

impl WhitelistConfig {
    /// The bytes allocated for a registry's record: its record tag, the
    /// authority and the counter.
    pub const LEN: usize = 8 + 32 + 8;

    /// A registry under `authority` that has no member yet.
    pub fn new(authority: Identity) -> (registry: WhitelistConfig)
        ensures
            registry@ == ConfigView::fresh(authority@),
    {
        WhitelistConfig { authority, counter: 0 }
    }

    /// The guard of every operation on an existing registry: only the
    /// current authority passes.
    pub fn authorize(&self, caller: &Identity) -> (passed: Result<(), WhitelistError>)
        ensures
            passed == if caller@ == self@.authority {
                Ok::<(), WhitelistError>(())
            } else {
                Err::<(), WhitelistError>(WhitelistError::Unauthorized)
            },
    {
        if self.authority.same(caller) {
            Ok(())
        } else {
            Err(WhitelistError::Unauthorized)
        }
    }

    /// Counts one member more. At the maximum the counter stays as it is and
    /// the call fails with `CounterOverflow`.
    pub fn record_added(&mut self) -> (counted: Result<(), WhitelistError>)
        ensures
            old(self)@.counter >= u64::MAX ==> counted == Err::<(), WhitelistError>(
                WhitelistError::CounterOverflow,
            ) && final(self)@ == old(self)@,
            old(self)@.counter < u64::MAX ==> counted == Ok::<(), WhitelistError>(())
                && final(self)@ == old(self)@.grown(),
    {
        match self.counter.checked_add(1) {
            Some(next) => {
                self.counter = next;
                Ok(())
            },
            None => Err(WhitelistError::CounterOverflow),
        }
    }

    /// Counts one member less. At zero the counter stays as it is and the
    /// call fails with `CounterUnderflow`.
    pub fn record_removed(&mut self) -> (counted: Result<(), WhitelistError>)
        ensures
            old(self)@.counter == 0 ==> counted == Err::<(), WhitelistError>(
                WhitelistError::CounterUnderflow,
            ) && final(self)@ == old(self)@,
            old(self)@.counter > 0 ==> counted == Ok::<(), WhitelistError>(()) && final(self)@
                == old(self)@.shrunk(),
    {
        match self.counter.checked_sub(1) {
            Some(next) => {
                self.counter = next;
                Ok(())
            },
            None => Err(WhitelistError::CounterUnderflow),
        }
    }
}

/// Creates a registry: allocates its record at `accounts.whitelist_config`,
/// paid for by `accounts.authority`, and returns it with that authority and
/// no member. Where the ledger cannot allocate the record the call fails with
/// `AllocationError` and the ledger stays as it was.
pub fn create_whitelist(ledger: &mut Ledger, accounts: &CreateWhitelist) -> (created: Result<
    WhitelistConfig,
    WhitelistError,
>)
    ensures
        ({
            let outcome = create_whitelist_outcome(
                old(ledger)@,
                accounts.authority@,
                accounts.whitelist_config@,
            );
            &&& final(ledger)@ == outcome.1
            &&& match created {
                Ok(registry) => outcome.0 == Ok::<ConfigView, WhitelistError>(registry@),
                Err(error) => outcome.0 == Err::<ConfigView, WhitelistError>(error),
            }
        }),
{
    match ledger.allocate(&accounts.whitelist_config, WhitelistConfig::LEN, &accounts.authority) {
        Ok(()) => Ok(WhitelistConfig::new(accounts.authority)),
        Err(_) => Err(WhitelistError::AllocationError),
    }
}

/// Hands the authority of the registry on to `new_authority`. Only the
/// current authority may do so; the counter stays as it is.
pub fn set_authority(
    registry: &mut WhitelistConfig,
    accounts: &SetAuthority,
    new_authority: Identity,
) -> (done: Result<(), WhitelistError>)
    ensures
        (done, final(registry)@) == set_authority_outcome(
            old(registry)@,
            accounts.current_authority@,
            new_authority@,
        ),
{
    match registry.authorize(&accounts.current_authority) {
        Ok(()) => {
            registry.authority = new_authority;
            Ok(())
        },
        Err(error) => Err(error),
    }
}

/// Adds the member whose slot address is `slot`: creates the slot, paid for
/// by `accounts.fee_payer`, and counts it.
pub fn add_slot(
    registry: &mut WhitelistConfig,
    ledger: &mut Ledger,
    accounts: &AddWallet,
    slot: Option<Address>,
) -> (done: Result<(), WhitelistError>)
    ensures
        ({
            let outcome = add_wallet_outcome(
                old(registry)@,
                old(ledger)@,
                accounts.authority@,
                address_view(slot),
                accounts.fee_payer@,
            );
            done == outcome.result && final(registry)@ == outcome.config && final(ledger)@
                == outcome.ledger
        }),
{
    if registry.authorize(&accounts.authority).is_err() {
        return Err(WhitelistError::Unauthorized);
    }
    let address = match slot {
        Some(address) => address,
        None => {
            return Err(WhitelistError::InvalidReference);
        },
    };
    if registry.counter == u64::MAX {
        return if present(ledger, &address) {
            Err(WhitelistError::AlreadyMember)
        } else {
            Err(WhitelistError::CounterOverflow)
        };
    }
    match create(ledger, &address, &accounts.fee_payer) {
        Ok(()) => registry.record_added(),
        Err(_) => Err(WhitelistError::AlreadyMember),
    }
}

/// Removes the member whose slot address is `slot`: destroys the slot,
/// releasing its deposit to `accounts.refund_wallet`, and counts it off.
pub fn remove_slot(
    registry: &mut WhitelistConfig,
    ledger: &mut Ledger,
    accounts: &RemoveWallet,
    slot: Option<Address>,
) -> (done: Result<(), WhitelistError>)
    ensures
        ({
            let outcome = remove_wallet_outcome(
                old(registry)@,
                old(ledger)@,
                accounts.authority@,
                address_view(slot),
                accounts.refund_wallet@,
            );
            done == outcome.result && final(registry)@ == outcome.config && final(ledger)@
                == outcome.ledger
        }),
{
    if registry.authorize(&accounts.authority).is_err() {
        return Err(WhitelistError::Unauthorized);
    }
    let address = match slot {
        Some(address) => address,
        None => {
            return Err(WhitelistError::InvalidReference);
        },
    };
    if registry.counter == 0 {
        return if present(ledger, &address) {
            Err(WhitelistError::CounterUnderflow)
        } else {
            Err(WhitelistError::NotMember)
        };
    }
    match destroy(ledger, &address, &accounts.refund_wallet) {
        Ok(()) => registry.record_removed(),
        Err(_) => Err(WhitelistError::NotMember),
    }
}

/// Whether the identity whose slot address is `slot` is a member.
pub fn check_slot(
    registry: &WhitelistConfig,
    ledger: &Ledger,
    accounts: &CheckWallet,
    slot: Option<Address>,
) -> (checked: Result<bool, WhitelistError>)
    ensures
        checked == check_wallet_outcome(
            registry@,
            ledger@,
            accounts.authority@,
            address_view(slot),
        ).result,
{
    if registry.authorize(&accounts.authority).is_err() {
        return Err(WhitelistError::Unauthorized);
    }
    match slot {
        Some(address) => Ok(present(ledger, &address)),
        None => Err(WhitelistError::InvalidReference),
    }
}

/// Makes `wallet_address` a member of the registry. Only the authority may
/// do so. An identity that is already a member is rejected with
/// `AlreadyMember`, and a registry whose counter is at its maximum takes no
/// further member.
pub fn add_wallet(
    registry: &mut WhitelistConfig,
    ledger: &mut Ledger,
    accounts: &AddWallet,
    wallet_address: &Identity,
) -> (done: Result<(), WhitelistError>)
    ensures
        ({
            let outcome = add_wallet_outcome(
                old(registry)@,
                old(ledger)@,
                accounts.authority@,
                slot_of(accounts.whitelist_config@, wallet_address@),
                accounts.fee_payer@,
            );
            done == outcome.result && final(registry)@ == outcome.config && final(ledger)@
                == outcome.ledger
        }),
{
    let slot = derive_address(&accounts.whitelist_config, wallet_address);
    add_slot(registry, ledger, accounts, slot)
}

/// Ends the membership of `wallet_address` in the registry and releases the
/// slot's deposit to `accounts.refund_wallet`. Only the authority may do so.
/// An identity that is not a member is rejected with `NotMember`.
pub fn remove_wallet(
    registry: &mut WhitelistConfig,
    ledger: &mut Ledger,
    accounts: &RemoveWallet,
    wallet_address: &Identity,
) -> (done: Result<(), WhitelistError>)
    ensures
        ({
            let outcome = remove_wallet_outcome(
                old(registry)@,
                old(ledger)@,
                accounts.authority@,
                slot_of(accounts.whitelist_config@, wallet_address@),
                accounts.refund_wallet@,
            );
            done == outcome.result && final(registry)@ == outcome.config && final(ledger)@
                == outcome.ledger
        }),
{
    let slot = derive_address(&accounts.whitelist_config, wallet_address);
    remove_slot(registry, ledger, accounts, slot)
}

/// Whether `wallet_address` is a member of the registry. The caller names the
/// registry's authority, which binds the question to this registry. Nothing
/// is changed.
pub fn check_wallet(
    registry: &WhitelistConfig,
    ledger: &Ledger,
    accounts: &CheckWallet,
    wallet_address: &Identity,
) -> (checked: Result<bool, WhitelistError>)
    ensures
        checked == check_wallet_outcome(
            registry@,
            ledger@,
            accounts.authority@,
            slot_of(accounts.whitelist_config@, wallet_address@),
        ).result,
{
    let slot = derive_address(&accounts.whitelist_config, wallet_address);
    check_slot(registry, ledger, accounts, slot)
}

} // verus!
