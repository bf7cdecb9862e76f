use anchor_lang::prelude::borsh;
use sha2::{Digest, Sha256};
use whitelist::identity::Identity;
use whitelist::layout::{CONFIG_TAG, WALLET_TAG};
use whitelist::registry::WhitelistConfig;
use whitelist::slot::Wallet;

fn key(byte: u8) -> Identity {
    Identity { bytes: [byte; 32] }
}

fn tag_of(name: &str) -> Vec<u8> {
    Sha256::digest(name.as_bytes())[..8].to_vec()
}

#[test]
fn tags_are_the_hashed_record_names() {
    assert_eq!(CONFIG_TAG.to_vec(), tag_of("account:WhitelistConfig"));
    assert_eq!(WALLET_TAG.to_vec(), tag_of("account:Wallet"));
}

#[test]
fn pack_writes_tag_authority_and_counter() {
    let registry = WhitelistConfig { authority: key(7), counter: 0x0102_0304_0506_0708 };
    let bytes = registry.pack();
    assert_eq!(bytes.len(), WhitelistConfig::LEN);
    assert_eq!(bytes[..8], [58, 51, 12, 166, 38, 109, 18, 255]);
    assert_eq!(bytes[8..40], [7u8; 32]);
    assert_eq!(bytes[40..], [8, 7, 6, 5, 4, 3, 2, 1]);
}

#[test]
fn pack_agrees_with_borsh_after_the_tag() {
    let mut authority = [0u8; 32];
    for (i, byte) in authority.iter_mut().enumerate() {
        *byte = (3 * i + 1) as u8;
    }
    for counter in [0u64, 1, 255, 256, 65_535, 65_536, 1 << 40, u64::MAX - 1, u64::MAX] {
        let registry = WhitelistConfig { authority: Identity { bytes: authority }, counter };
        let payload = borsh::to_vec(&(authority, counter)).unwrap();
        assert_eq!(registry.pack()[8..].to_vec(), payload);
    }
}

#[test]
fn unpack_reads_what_pack_wrote() {
    for counter in [0u64, 1, 255, 256, 0x0102_0304_0506_0708, u64::MAX] {
        let registry = WhitelistConfig { authority: key(9), counter };
        let read = WhitelistConfig::unpack(&registry.pack()).unwrap();
        assert_eq!(read.authority, key(9));
        assert_eq!(read.counter, counter);
    }
}

#[test]
fn unpack_ignores_what_follows_the_record() {
    let registry = WhitelistConfig { authority: key(9), counter: 77 };
    let mut data = registry.pack().to_vec();
    data.extend_from_slice(&[1, 2, 3]);
    let read = WhitelistConfig::unpack(&data).unwrap();
    assert_eq!(read.authority, key(9));
    assert_eq!(read.counter, 77);
}

#[test]
fn unpack_rejects_short_data() {
    let registry = WhitelistConfig { authority: key(9), counter: 77 };
    let bytes = registry.pack();
    assert!(WhitelistConfig::unpack(&bytes[..47]).is_none());
    assert!(WhitelistConfig::unpack(&bytes[..8]).is_none());
    assert!(WhitelistConfig::unpack(&[]).is_none());
}

#[test]
fn unpack_rejects_another_tag() {
    let registry = WhitelistConfig { authority: key(9), counter: 77 };
    for at in 0..8 {
        let mut bytes = registry.pack();
        bytes[at] ^= 1;
        assert!(WhitelistConfig::unpack(&bytes).is_none());
    }
    let mut as_wallet = registry.pack();
    as_wallet[..8].copy_from_slice(&WALLET_TAG);
    assert!(WhitelistConfig::unpack(&as_wallet).is_none());
    assert!(WhitelistConfig::unpack(&[0u8; 48]).is_none());
}

#[test]
fn wallet_record_is_its_tag() {
    let bytes = Wallet {}.pack();
    assert_eq!(bytes.len(), Wallet::LEN);
    assert_eq!(bytes, [24, 89, 59, 139, 81, 154, 232, 95]);
    assert!(Wallet::unpack(&bytes).is_some());
    let mut longer = bytes.to_vec();
    longer.push(0);
    assert!(Wallet::unpack(&longer).is_some());
    assert!(Wallet::unpack(&bytes[..7]).is_none());
    assert!(Wallet::unpack(&[0u8; 8]).is_none());
    assert!(Wallet::unpack(&CONFIG_TAG).is_none());
}
