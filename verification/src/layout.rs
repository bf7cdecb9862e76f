//! The persisted layout of the records.
//!
//! A record starts with the eight bytes of its tag, which tells the kind of
//! record. A registry's record continues with the 32 bytes of the authority
//! and the counter as eight bytes, least significant first. A membership
//! slot's record is its tag and nothing else.

use vstd::prelude::*;
use crate::identity::Identity;
use crate::registry::{ConfigView, WhitelistConfig};
use crate::slot::Wallet;

verus! {

/// The tag of a registry's record.
pub const CONFIG_TAG: [u8; 8] = [58, 51, 12, 166, 38, 109, 18, 255];

/// The tag of a membership slot's record.
pub const WALLET_TAG: [u8; 8] = [24, 89, 59, 139, 81, 154, 232, 95];

/// The eight bytes that hold `value`, least significant first.
pub open spec fn le_bytes(value: nat) -> Seq<u8> {
    seq![
        (value % 256) as u8,
        (value / 0x100 % 256) as u8,
        (value / 0x1_0000 % 256) as u8,
        (value / 0x100_0000 % 256) as u8,
        (value / 0x1_0000_0000 % 256) as u8,
        (value / 0x100_0000_0000 % 256) as u8,
        (value / 0x1_0000_0000_0000 % 256) as u8,
        (value / 0x100_0000_0000_0000 % 256) as u8,
    ]
}

/// The value that the first eight of `bytes` hold, least significant first.
pub open spec fn le_value(bytes: Seq<u8>) -> nat {
    (bytes[0] + 0x100 * bytes[1] + 0x1_0000 * bytes[2] + 0x100_0000 * bytes[3] + 0x1_0000_0000
        * bytes[4] + 0x100_0000_0000 * bytes[5] + 0x1_0000_0000_0000 * bytes[6]
        + 0x100_0000_0000_0000 * bytes[7]) as nat
}

/// The bytes of a registry's record.
pub open spec fn config_bytes(config: ConfigView) -> Seq<u8> {
    CONFIG_TAG@ + config.authority + le_bytes(config.counter)
}

/// The registry that `bytes` hold: `None` where they are too few or do not
/// start with the tag of a registry's record. What follows the record is
/// ignored.
pub open spec fn config_of(bytes: Seq<u8>) -> Option<ConfigView> {
    if bytes.len() >= 48 && bytes.subrange(0, 8) == CONFIG_TAG@ {
        Some(
            ConfigView {
                authority: bytes.subrange(8, 40),
                counter: le_value(bytes.subrange(40, 48)),
            },
        )
    } else {
        None
    }
}

/// Whether `bytes` hold the record of a membership slot: they start with its
/// tag.
pub open spec fn holds_wallet(bytes: Seq<u8>) -> bool {
    bytes.len() >= 8 && bytes.subrange(0, 8) == WALLET_TAG@
}

/// Whether `data` starts with the eight bytes of `tag`.
fn starts_with(data: &[u8], tag: &[u8; 8]) -> (tagged: bool)
    ensures
        tagged == (data@.len() >= 8 && data@.subrange(0, 8) == tag@),
{
    if data.len() < 8 {
        return false;
    }
    let mut i: usize = 0;
    while i < 8
        invariant
            i <= 8,
            data@.len() >= 8,
            forall|k: int| 0 <= k < i ==> data@[k] == tag@[k],
        decreases 8 - i,
    {
        if data[i] != tag[i] {
            assert(data@.subrange(0, 8)[i as int] != tag@[i as int]);
            return false;
        }
        i += 1;
    }
    assert(data@.subrange(0, 8) =~= tag@);
    true
}

impl WhitelistConfig {
    /// The record as it is persisted.
    pub fn pack(&self) -> (bytes: [u8; 48])
        ensures
            bytes@ == config_bytes(self@),
    {
        let mut bytes = [0u8; 48];
        let mut i: usize = 0;
        while i < 8
            invariant
                i <= 8,
                forall|k: int| 0 <= k < i ==> bytes@[k] == CONFIG_TAG@[k],
            decreases 8 - i,
        {
            bytes[i] = CONFIG_TAG[i];
            i += 1;
        }
        let mut j: usize = 0;
        while j < 32
            invariant
                j <= 32,
                forall|k: int| 0 <= k < 8 ==> bytes@[k] == CONFIG_TAG@[k],
                forall|k: int| 0 <= k < j ==> bytes@[8 + k] == self.authority@[k],
            decreases 32 - j,
        {
            bytes[8 + j] = self.authority.bytes[j];
            j += 1;
        }
        let counter = self.counter;
        bytes[40] = (counter % 256) as u8;
        bytes[41] = (counter / 0x100 % 256) as u8;
        bytes[42] = (counter / 0x1_0000 % 256) as u8;
        bytes[43] = (counter / 0x100_0000 % 256) as u8;
        bytes[44] = (counter / 0x1_0000_0000 % 256) as u8;
        bytes[45] = (counter / 0x100_0000_0000 % 256) as u8;
        bytes[46] = (counter / 0x1_0000_0000_0000 % 256) as u8;
        bytes[47] = (counter / 0x100_0000_0000_0000 % 256) as u8;
        assert(bytes@ =~= config_bytes(self@));
        bytes
    }

    /// Reads a registry's record: `None` where `data` is too short for one
    /// or does not start with its tag.
    pub fn unpack(data: &[u8]) -> (read: Option<WhitelistConfig>)
        ensures
            match read {
                Some(registry) => config_of(data@) == Some(registry@),
                None => config_of(data@) is None,
            },
    {
        if data.len() < 48 || !starts_with(data, &CONFIG_TAG) {
            return None;
        }
        let mut authority = [0u8; 32];
        let mut j: usize = 0;
        while j < 32
            invariant
                j <= 32,
                data@.len() >= 48,
                forall|k: int| 0 <= k < j ==> authority@[k] == data@[8 + k],
            decreases 32 - j,
        {
            authority[j] = data[8 + j];
            j += 1;
        }
        let counter: u64 = data[40] as u64 + 0x100 * (data[41] as u64) + 0x1_0000 * (
        data[42] as u64) + 0x100_0000 * (data[43] as u64) + 0x1_0000_0000 * (data[44] as u64)
            + 0x100_0000_0000 * (data[45] as u64) + 0x1_0000_0000_0000 * (data[46] as u64)
            + 0x100_0000_0000_0000 * (data[47] as u64);
        assert(authority@ =~= data@.subrange(8, 40));
        Some(WhitelistConfig { authority: Identity { bytes: authority }, counter })
    }
}

impl Wallet {
    /// The record as it is persisted.
    pub fn pack(&self) -> (bytes: [u8; 8])
        ensures
            bytes@ == WALLET_TAG@,
    {
        WALLET_TAG
    }

    /// Reads a membership slot's record: `None` where `data` does not start
    /// with its tag.
    pub fn unpack(data: &[u8]) -> (read: Option<Wallet>)
        ensures
            read is Some == holds_wallet(data@),
    {
        if starts_with(data, &WALLET_TAG) {
            Some(Wallet {  })
        } else {
            None
        }
    }
}

/// Eight bytes hold every value up to the largest counter: the value read
/// from the bytes written for it is the value itself.
pub proof fn lemma_le_round_trip(value: nat)
    requires
        value <= u64::MAX,
    ensures
        le_bytes(value).len() == 8,
        le_value(le_bytes(value)) == value,
{
    let d1 = value / 256;
    let d2 = d1 / 256;
    let d3 = d2 / 256;
    let d4 = d3 / 256;
    let d5 = d4 / 256;
    let d6 = d5 / 256;
    let d7 = d6 / 256;
    assert(d1 == value / 0x100);
    assert(d2 == value / 0x1_0000);
    assert(d3 == value / 0x100_0000);
    assert(d4 == value / 0x1_0000_0000);
    assert(d5 == value / 0x100_0000_0000);
    assert(d6 == value / 0x1_0000_0000_0000);
    assert(d7 == value / 0x100_0000_0000_0000);
    assert(d7 < 256);
    let bytes = le_bytes(value);
    assert(bytes[0] == value % 256);
    assert(bytes[1] == d1 % 256);
    assert(bytes[2] == d2 % 256);
    assert(bytes[3] == d3 % 256);
    assert(bytes[4] == d4 % 256);
    assert(bytes[5] == d5 % 256);
    assert(bytes[6] == d6 % 256);
    assert(bytes[7] == d7);
    assert(d6 == 256 * d7 + bytes[6]);
    assert(d5 == 256 * d6 + bytes[5]);
    assert(d4 == 256 * d5 + bytes[4]);
    assert(d3 == 256 * d4 + bytes[3]);
    assert(d2 == 256 * d3 + bytes[2]);
    assert(d1 == 256 * d2 + bytes[1]);
    assert(value == 256 * d1 + bytes[0]);
}

/// A registry's record reads back as the registry that was packed, whatever
/// follows it.
pub proof fn law_record_round_trip(config: ConfigView, rest: Seq<u8>)
    requires
        config.authority.len() == 32,
        config.counter <= u64::MAX,
    ensures
        config_bytes(config).len() == 48,
        config_of(config_bytes(config) + rest) == Some(config),
{
    lemma_le_round_trip(config.counter);
    let bytes = config_bytes(config) + rest;
    assert(bytes.subrange(0, 8) =~= CONFIG_TAG@);
    assert(bytes.subrange(8, 40) =~= config.authority);
    assert(bytes.subrange(40, 48) =~= le_bytes(config.counter));
}

} // verus!
