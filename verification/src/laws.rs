//! What holds of the registry operations taken together. Each law is stated
//! over the outcomes that the operations' own contracts promise.

use vstd::prelude::*;
use crate::error::WhitelistError;
use crate::registry::{
    add_wallet_outcome, check_wallet_outcome, create_whitelist_outcome, remove_wallet_outcome,
    set_authority_outcome, slot_of, ConfigView,
};
use crate::store::LedgerView;
use vstd::set_lib::lemma_set_subset_finite;

verus! {

/// After `add_wallet` has succeeded for an identity, `check_wallet` for the
/// same registry and identity answers `true`, and the counter is larger by
/// exactly one.
pub proof fn law_added_wallet_is_member(
    config: ConfigView,
    ledger: LedgerView,
    registry_id: Seq<u8>,
    caller: Seq<u8>,
    identity: Seq<u8>,
    fee_payer: Seq<u8>,
)
    requires
        add_wallet_outcome(config, ledger, caller, slot_of(registry_id, identity), fee_payer).result
            is Ok,
    ensures
        ({
            let slot = slot_of(registry_id, identity);
            let added = add_wallet_outcome(config, ledger, caller, slot, fee_payer);
            &&& check_wallet_outcome(added.config, added.ledger, caller, slot).result == Ok::<
                bool,
                WhitelistError,
            >(true)
            &&& added.config.counter == config.counter + 1
        }),
{
}

/// `add_wallet` for an identity of which `check_wallet` says that it is a
/// member fails with `AlreadyMember` and changes neither the counter nor
/// anything else.
pub proof fn law_add_rejects_member(
    config: ConfigView,
    ledger: LedgerView,
    registry_id: Seq<u8>,
    caller: Seq<u8>,
    identity: Seq<u8>,
    fee_payer: Seq<u8>,
)
    requires
        check_wallet_outcome(config, ledger, caller, slot_of(registry_id, identity)).result == Ok::<
            bool,
            WhitelistError,
        >(true),
    ensures
        ({
            let added = add_wallet_outcome(
                config,
                ledger,
                caller,
                slot_of(registry_id, identity),
                fee_payer,
            );
            &&& added.result == Err::<(), WhitelistError>(WhitelistError::AlreadyMember)
            &&& added.config == config
            &&& added.ledger == ledger
        }),
{
}

/// `remove_wallet` for an identity of which `check_wallet` says that it is
/// no member fails with `NotMember` and changes neither the counter nor
/// anything else.
pub proof fn law_remove_rejects_stranger(
    config: ConfigView,
    ledger: LedgerView,
    registry_id: Seq<u8>,
    caller: Seq<u8>,
    identity: Seq<u8>,
    refund_to: Seq<u8>,
)
    requires
        check_wallet_outcome(config, ledger, caller, slot_of(registry_id, identity)).result == Ok::<
            bool,
            WhitelistError,
        >(false),
    ensures
        ({
            let removed = remove_wallet_outcome(
                config,
                ledger,
                caller,
                slot_of(registry_id, identity),
                refund_to,
            );
            &&& removed.result == Err::<(), WhitelistError>(WhitelistError::NotMember)
            &&& removed.config == config
            &&& removed.ledger == ledger
        }),
{
}

/// `remove_wallet` for an identity of which `check_wallet` says that it is a
/// member, in a registry that counts at least one member, succeeds.
/// Afterwards `check_wallet` for the same registry and identity answers
/// `false`, and the counter is smaller by exactly one.
pub proof fn law_removed_wallet_is_no_member(
    config: ConfigView,
    ledger: LedgerView,
    registry_id: Seq<u8>,
    caller: Seq<u8>,
    identity: Seq<u8>,
    refund_to: Seq<u8>,
)
    requires
        config.counter > 0,
        check_wallet_outcome(config, ledger, caller, slot_of(registry_id, identity)).result == Ok::<
            bool,
            WhitelistError,
        >(true),
    ensures
        ({
            let slot = slot_of(registry_id, identity);
            let removed = remove_wallet_outcome(config, ledger, caller, slot, refund_to);
            &&& removed.result is Ok
            &&& check_wallet_outcome(removed.config, removed.ledger, caller, slot).result == Ok::<
                bool,
                WhitelistError,
            >(false)
            &&& removed.config.counter == config.counter - 1
        }),
{
}

/// Round trip: where `add_wallet` succeeds, a `remove_wallet` for the same
/// identity succeeds after it, and so does a second `add_wallet` after that.
/// The counter is then larger by exactly one than before the three calls.
pub proof fn law_add_remove_add(
    config: ConfigView,
    ledger: LedgerView,
    registry_id: Seq<u8>,
    caller: Seq<u8>,
    identity: Seq<u8>,
    fee_payer: Seq<u8>,
    refund_to: Seq<u8>,
)
    requires
        add_wallet_outcome(config, ledger, caller, slot_of(registry_id, identity), fee_payer).result
            is Ok,
    ensures
        ({
            let slot = slot_of(registry_id, identity);
            let first = add_wallet_outcome(config, ledger, caller, slot, fee_payer);
            let second = remove_wallet_outcome(
                first.config,
                first.ledger,
                caller,
                slot,
                refund_to,
            );
            let third = add_wallet_outcome(second.config, second.ledger, caller, slot, fee_payer);
            &&& second.result is Ok
            &&& third.result is Ok
            &&& third.config.counter == config.counter + 1
            &&& third.config == first.config
            &&& third.ledger.records == first.ledger.records
        }),
{
    let slot = slot_of(registry_id, identity);
    let first = add_wallet_outcome(config, ledger, caller, slot, fee_payer);
    let second = remove_wallet_outcome(first.config, first.ledger, caller, slot, refund_to);
    let third = add_wallet_outcome(second.config, second.ledger, caller, slot, fee_payer);
    assert(third.ledger.records =~= first.ledger.records);
}

/// Authority gating: `add_wallet`, `remove_wallet` and `set_authority` by a
/// caller who is not the registry's authority fail with `Unauthorized` and
/// change nothing.
pub proof fn law_strangers_change_nothing(
    config: ConfigView,
    ledger: LedgerView,
    registry_id: Seq<u8>,
    caller: Seq<u8>,
    identity: Seq<u8>,
    other: Seq<u8>,
)
    requires
        caller != config.authority,
    ensures
        ({
            let slot = slot_of(registry_id, identity);
            let added = add_wallet_outcome(config, ledger, caller, slot, other);
            let removed = remove_wallet_outcome(config, ledger, caller, slot, other);
            let handed = set_authority_outcome(config, caller, other);
            &&& added.result == Err::<(), WhitelistError>(WhitelistError::Unauthorized)
            &&& added.config == config
            &&& added.ledger == ledger
            &&& removed.result == Err::<(), WhitelistError>(WhitelistError::Unauthorized)
            &&& removed.config == config
            &&& removed.ledger == ledger
            &&& handed.0 == Err::<(), WhitelistError>(WhitelistError::Unauthorized)
            &&& handed.1 == config
        }),
{
}

/// After `set_authority` from `old_authority` to `new_authority` has
/// succeeded, an `add_wallet` that the old authority could have made
/// succeeds for the new authority, and the same call by the old authority,
/// where the two differ, fails with `Unauthorized`.
pub proof fn law_authority_moves(
    config: ConfigView,
    ledger: LedgerView,
    registry_id: Seq<u8>,
    old_authority: Seq<u8>,
    new_authority: Seq<u8>,
    identity: Seq<u8>,
    fee_payer: Seq<u8>,
)
    requires
        set_authority_outcome(config, old_authority, new_authority).0 is Ok,
        add_wallet_outcome(
            config,
            ledger,
            old_authority,
            slot_of(registry_id, identity),
            fee_payer,
        ).result is Ok,
    ensures
        ({
            let slot = slot_of(registry_id, identity);
            let handed = set_authority_outcome(config, old_authority, new_authority).1;
            &&& add_wallet_outcome(handed, ledger, new_authority, slot, fee_payer).result is Ok
            &&& old_authority != new_authority ==> add_wallet_outcome(
                handed,
                ledger,
                old_authority,
                slot,
                fee_payer,
            ).result == Err::<(), WhitelistError>(WhitelistError::Unauthorized)
        }),
{
}

/// A failed operation changes nothing: where `create_whitelist`,
/// `set_authority`, `add_wallet` or `remove_wallet` returns an error, the
/// registry and the ledger are as they were.
pub proof fn law_failures_change_nothing(
    config: ConfigView,
    ledger: LedgerView,
    registry_id: Seq<u8>,
    caller: Seq<u8>,
    identity: Seq<u8>,
    other: Seq<u8>,
)
    ensures
        ({
            let slot = slot_of(registry_id, identity);
            let created = create_whitelist_outcome(ledger, caller, registry_id);
            let handed = set_authority_outcome(config, caller, other);
            let added = add_wallet_outcome(config, ledger, caller, slot, other);
            let removed = remove_wallet_outcome(config, ledger, caller, slot, other);
            &&& created.0 is Err ==> created.1 == ledger
            &&& handed.0 is Err ==> handed.1 == config
            &&& added.result is Err ==> added.config == config && added.ledger == ledger
            &&& removed.result is Err ==> removed.config == config && removed.ledger == ledger
        }),
{
}

/// Whether `address` is the slot address of some identity in the registry
/// whose record is allocated at `registry_id`.
pub open spec fn is_slot_of(registry_id: Seq<u8>, address: Seq<u8>) -> bool {
    exists|identity: Seq<u8>| slot_of(registry_id, identity) == Some(address)
}

/// The membership slots of the registry at `registry_id` that are there.
pub open spec fn slots_of(ledger: LedgerView, registry_id: Seq<u8>) -> Set<Seq<u8>> {
    Set::new(|address: Seq<u8>| ledger.occupied(address) && is_slot_of(registry_id, address))
}

/// The registry counts its members right: the ledger holds finitely many
/// records, and the counter is the number of the registry's slots among
/// them.
pub open spec fn counts_right(config: ConfigView, ledger: LedgerView, registry_id: Seq<u8>)
    -> bool {
    ledger.records.dom().finite() && config.counter == slots_of(ledger, registry_id).len()
}

proof fn lemma_slots_are_finite(ledger: LedgerView, registry_id: Seq<u8>)
    requires
        ledger.records.dom().finite(),
    ensures
        slots_of(ledger, registry_id).finite(),
{
    lemma_set_subset_finite(ledger.records.dom(), slots_of(ledger, registry_id));
}

/// A new registry counts right, provided that none of its slot addresses
/// holds a record yet and that its own record is not at one of them.
pub proof fn law_new_registry_counts_right(
    ledger: LedgerView,
    authority: Seq<u8>,
    registry_id: Seq<u8>,
)
    requires
        ledger.records.dom().finite(),
        forall|address: Seq<u8>| ledger.occupied(address) ==> !is_slot_of(registry_id, address),
        !is_slot_of(registry_id, registry_id),
        create_whitelist_outcome(ledger, authority, registry_id).0 is Ok,
    ensures
        ({
            let created = create_whitelist_outcome(ledger, authority, registry_id);
            counts_right(created.0->Ok_0, created.1, registry_id)
        }),
{
    let created = create_whitelist_outcome(ledger, authority, registry_id);
    assert(slots_of(created.1, registry_id) =~= Set::<Seq<u8>>::empty());
}

/// `add_wallet` keeps the count right, whether it succeeds or fails.
pub proof fn law_add_keeps_the_count(
    config: ConfigView,
    ledger: LedgerView,
    registry_id: Seq<u8>,
    caller: Seq<u8>,
    identity: Seq<u8>,
    fee_payer: Seq<u8>,
)
    requires
        counts_right(config, ledger, registry_id),
    ensures
        ({
            let added = add_wallet_outcome(
                config,
                ledger,
                caller,
                slot_of(registry_id, identity),
                fee_payer,
            );
            counts_right(added.config, added.ledger, registry_id)
        }),
{
    let slot = slot_of(registry_id, identity);
    let added = add_wallet_outcome(config, ledger, caller, slot, fee_payer);
    if added.result is Ok {
        let address = slot->0;
        assert(is_slot_of(registry_id, address));
        lemma_slots_are_finite(ledger, registry_id);
        assert(slots_of(added.ledger, registry_id) =~= slots_of(ledger, registry_id).insert(
            address,
        ));
    }
}

/// `remove_wallet` keeps the count right, whether it succeeds or fails.
pub proof fn law_remove_keeps_the_count(
    config: ConfigView,
    ledger: LedgerView,
    registry_id: Seq<u8>,
    caller: Seq<u8>,
    identity: Seq<u8>,
    refund_to: Seq<u8>,
)
    requires
        counts_right(config, ledger, registry_id),
    ensures
        ({
            let removed = remove_wallet_outcome(
                config,
                ledger,
                caller,
                slot_of(registry_id, identity),
                refund_to,
            );
            counts_right(removed.config, removed.ledger, registry_id)
        }),
{
    let slot = slot_of(registry_id, identity);
    let removed = remove_wallet_outcome(config, ledger, caller, slot, refund_to);
    if removed.result is Ok {
        let address = slot->0;
        assert(is_slot_of(registry_id, address));
        lemma_slots_are_finite(ledger, registry_id);
        assert(slots_of(removed.ledger, registry_id) =~= slots_of(ledger, registry_id).remove(
            address,
        ));
    }
}

/// In a registry that counts right, `remove_wallet` by the authority never
/// fails with `CounterUnderflow`: a member that is there has been counted.
pub proof fn law_counted_member_can_leave(
    config: ConfigView,
    ledger: LedgerView,
    registry_id: Seq<u8>,
    caller: Seq<u8>,
    identity: Seq<u8>,
    refund_to: Seq<u8>,
)
    requires
        counts_right(config, ledger, registry_id),
    ensures
        remove_wallet_outcome(
            config,
            ledger,
            caller,
            slot_of(registry_id, identity),
            refund_to,
        ).result != Err::<(), WhitelistError>(WhitelistError::CounterUnderflow),
{
    let slot = slot_of(registry_id, identity);
    if slot is Some && ledger.occupied(slot->0) {
        assert(is_slot_of(registry_id, slot->0));
        lemma_slots_are_finite(ledger, registry_id);
        assert(slots_of(ledger, registry_id).contains(slot->0));
    }
}

} // verus!
