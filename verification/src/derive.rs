//! Slot addressing: the storage address that stands for the membership of one
//! identity in one registry.

use vstd::prelude::*;
use crate::identity::{Address, Identity};

verus! {

/// The id of the program that owns every registry and every membership slot.
/// Slot addresses are derived under it, so no other program can claim them.
pub const PROGRAM_ID: [u8; 32] = [
    147, 178, 92, 81, 236, 221, 116, 144, 161, 103, 149, 110, 145, 251, 141, 118,
    121, 149, 113, 164, 165, 96, 70, 118, 203, 241, 184, 96, 79, 207, 217, 20,
];

/// The program-derived address for the seeds `registry_id`, `identity` under
/// `program_id`, or `None` where the derivation finds no address. It is a
/// function of the three byte strings alone.
pub uninterp spec fn slot_address(
    program_id: Seq<u8>,
    registry_id: Seq<u8>,
    identity: Seq<u8>,
) -> Option<Seq<u8>>;

/// Calls `Pubkey::try_find_program_address` of `anchor_lang` (the address
/// type of `solana_address`, which `anchor_lang` hands on under that name)
/// with the two seeds `registry_id` and `identity`, in that order, under
/// `program_id`, and drops the bump seed that comes with the address.
///
/// Trusted, not proved: the call hashes its inputs and nothing else, so what
/// it returns is the value that `slot_address` names for them, `None`
/// included, and it returns for every input of these lengths.
#[verifier::external_body]
fn find_slot_address(
    program_id: &[u8; 32],
    registry_id: &[u8; 32],
    identity: &[u8; 32],
) -> (found: Option<[u8; 32]>)
    ensures
        match found {
            Some(address) => slot_address(program_id@, registry_id@, identity@) == Some(address@),
            None => slot_address(program_id@, registry_id@, identity@) is None,
        },
{
    let program = anchor_lang::prelude::Pubkey::new_from_array(*program_id);
    let seeds: [&[u8]; 2] = [&registry_id[..], &identity[..]];
    match anchor_lang::prelude::Pubkey::try_find_program_address(&seeds, &program) {
        Some((address, _)) => Some(address.to_bytes()),
        None => None,
    }
}

/// The view of an optional address.
pub open spec fn address_view(slot: Option<Address>) -> Option<Seq<u8>> {
    match slot {
        Some(address) => Some(address@),
        None => None,
    }
}

/// Derives the address of the membership slot of `identity` in the registry
/// stored at `registry_id`. The same two inputs always give the same address.
pub fn derive_address(registry_id: &Address, identity: &Identity) -> (slot: Option<Address>)
    ensures
        address_view(slot) == slot_address(PROGRAM_ID@, registry_id@, identity@),
{
    match find_slot_address(&PROGRAM_ID, &registry_id.bytes, &identity.bytes) {
        Some(bytes) => Some(Identity { bytes }),
        None => None,
    }
}

} // verus!
