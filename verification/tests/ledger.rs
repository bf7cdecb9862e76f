use whitelist::error::{SlotError, StoreError};
use whitelist::identity::Identity;
use whitelist::slot::{create, destroy, present};
use whitelist::store::Ledger;

fn key(byte: u8) -> Identity {
    Identity { bytes: [byte; 32] }
}

#[test]
fn identities_compare_by_bytes() {
    assert!(key(3).same(&key(3)));
    assert!(!key(3).same(&key(4)));
    let mut bytes = [3u8; 32];
    bytes[0] = 9;
    assert!(!key(3).same(&Identity { bytes }));
    bytes[0] = 3;
    bytes[31] = 9;
    assert!(!key(3).same(&Identity { bytes }));
    bytes[31] = 3;
    assert!(key(3).same(&Identity { bytes }));
    assert!(key(3) == Identity { bytes });
    assert!(key(3) != key(4));
}

#[test]
fn new_ledger_is_empty() {
    let ledger = Ledger::new();
    assert!(ledger.read(&key(1)).is_none());
    assert_eq!(ledger.refunds().len(), 0);
}

#[test]
fn allocate_then_read() {
    let mut ledger = Ledger::new();
    assert_eq!(ledger.allocate(&key(1), 48, &key(9)), Ok(()));
    assert_eq!(ledger.allocate(&key(2), 8, &key(10)), Ok(()));
    let first = ledger.read(&key(1)).unwrap();
    assert_eq!(first.address, key(1));
    assert_eq!(first.size, 48);
    assert_eq!(first.funder, key(9));
    let second = ledger.read(&key(2)).unwrap();
    assert_eq!(second.address, key(2));
    assert_eq!(second.size, 8);
    assert_eq!(second.funder, key(10));
    assert!(ledger.read(&key(3)).is_none());
}

#[test]
fn allocate_rejects_occupied_address() {
    let mut ledger = Ledger::new();
    ledger.allocate(&key(1), 48, &key(9)).unwrap();
    assert_eq!(ledger.allocate(&key(1), 8, &key(10)), Err(StoreError::AllocationError));
    let kept = ledger.read(&key(1)).unwrap();
    assert_eq!(kept.size, 48);
    assert_eq!(kept.funder, key(9));
}

#[test]
fn free_releases_and_records_the_refund() {
    let mut ledger = Ledger::new();
    ledger.allocate(&key(1), 8, &key(9)).unwrap();
    ledger.allocate(&key(2), 8, &key(9)).unwrap();
    ledger.allocate(&key(3), 8, &key(9)).unwrap();
    assert_eq!(ledger.free(&key(2), &key(20)), Ok(()));
    assert!(ledger.read(&key(2)).is_none());
    assert!(ledger.read(&key(1)).is_some());
    assert!(ledger.read(&key(3)).is_some());
    assert_eq!(ledger.free(&key(1), &key(21)), Ok(()));
    let refunds = ledger.refunds();
    assert_eq!(refunds.len(), 2);
    assert_eq!(refunds[0].address, key(2));
    assert_eq!(refunds[0].beneficiary, key(20));
    assert_eq!(refunds[1].address, key(1));
    assert_eq!(refunds[1].beneficiary, key(21));
}

#[test]
fn free_rejects_empty_address() {
    let mut ledger = Ledger::new();
    ledger.allocate(&key(1), 8, &key(9)).unwrap();
    assert_eq!(ledger.free(&key(2), &key(20)), Err(StoreError::NotFoundError));
    assert!(ledger.read(&key(1)).is_some());
    assert_eq!(ledger.refunds().len(), 0);
}

#[test]
fn freed_address_can_be_allocated_again() {
    let mut ledger = Ledger::new();
    ledger.allocate(&key(1), 8, &key(9)).unwrap();
    ledger.free(&key(1), &key(20)).unwrap();
    assert_eq!(ledger.allocate(&key(1), 8, &key(10)), Ok(()));
    assert_eq!(ledger.read(&key(1)).unwrap().funder, key(10));
}

#[test]
fn slot_create_present_destroy() {
    let mut ledger = Ledger::new();
    assert!(!present(&ledger, &key(1)));
    assert_eq!(create(&mut ledger, &key(1), &key(9)), Ok(()));
    assert!(present(&ledger, &key(1)));
    let record = ledger.read(&key(1)).unwrap();
    assert_eq!(record.size, 8);
    assert_eq!(record.funder, key(9));
    assert_eq!(create(&mut ledger, &key(1), &key(10)), Err(SlotError::AlreadyExists));
    assert_eq!(ledger.read(&key(1)).unwrap().funder, key(9));
    assert_eq!(destroy(&mut ledger, &key(1), &key(20)), Ok(()));
    assert!(!present(&ledger, &key(1)));
    assert_eq!(ledger.refunds().len(), 1);
    assert_eq!(ledger.refunds()[0].beneficiary, key(20));
    assert_eq!(destroy(&mut ledger, &key(1), &key(20)), Err(SlotError::NotFound));
    assert_eq!(ledger.refunds().len(), 1);
}
