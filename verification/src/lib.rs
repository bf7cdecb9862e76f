//! An authority-controlled membership registry.
//!
//! Membership of an identity is not kept in a list. Every pair of a registry
//! and an identity has one storage address, derived from the two, and the
//! identity is a member exactly while a record is allocated at that address.
//! The registry itself holds its authority and a counter of its members.

pub mod derive;
pub mod error;
pub mod identity;
pub mod laws;
pub mod layout;
pub mod registry;
pub mod slot;
pub mod store;

pub use crate::derive::derive_address;
pub use crate::error::WhitelistError;
pub use crate::identity::{Address, Identity};
pub use crate::registry::{
    add_wallet, check_wallet, create_whitelist, remove_wallet, set_authority, AddWallet,
    CheckWallet, CreateWhitelist, RemoveWallet, SetAuthority, WhitelistConfig,
};
pub use crate::slot::Wallet;
pub use crate::store::Ledger;
