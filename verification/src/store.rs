//! The ledger: the key-value store that owns the allocation of records.
//!
//! A record is allocated at an address by a funder and stays there until it
//! is freed, at which point its deposit is released to a beneficiary that the
//! caller names. The ledger never holds two records at one address.

use vstd::prelude::*;
use crate::error::StoreError;
use crate::identity::{Address, Identity};

verus! {

/// A record allocated in the ledger.
#[derive(Clone, Copy, Debug)]
pub struct Record {
    /// Where the record is allocated.
    pub address: Address,
    /// The number of bytes allocated for it.
    pub size: usize,
    /// Who paid the deposit for it.
    pub funder: Identity,
}

/// The release of the deposit of a freed record.
#[derive(Clone, Copy, Debug)]
pub struct Refund {
    /// Where the freed record was allocated.
    pub address: Address,
    /// Who received the deposit.
    pub beneficiary: Identity,
}

/// What the ledger knows of the record at one address.
pub struct RecordView {
    pub size: nat,
    pub funder: Seq<u8>,
}

/// The model of a refund.
pub struct RefundView {
    pub address: Seq<u8>,
    pub beneficiary: Seq<u8>,
}

/// The model of a ledger: the records by address, and the refunds made so
/// far, oldest first.
pub struct LedgerView {
    pub records: Map<Seq<u8>, RecordView>,
    pub refunds: Seq<RefundView>,
}

impl View for Record {
    type V = RecordView;

    open spec fn view(&self) -> RecordView {
        RecordView { size: self.size as nat, funder: self.funder@ }
    }
}

impl View for Refund {
    type V = RefundView;

    open spec fn view(&self) -> RefundView {
        RefundView { address: self.address@, beneficiary: self.beneficiary@ }
    }
}

impl LedgerView {
    /// The ledger that holds nothing.
    pub open spec fn empty() -> LedgerView {
        LedgerView { records: Map::empty(), refunds: Seq::empty() }
    }

    /// Whether a record is allocated at `address`.
    pub open spec fn occupied(self, address: Seq<u8>) -> bool {
        self.records.contains_key(address)
    }

    /// The ledger after a record of `size` bytes, paid for by `funder`, is
    /// allocated at `address`.
    pub open spec fn allocate(self, address: Seq<u8>, size: nat, funder: Seq<u8>) -> LedgerView {
        LedgerView {
            records: self.records.insert(address, RecordView { size, funder }),
            refunds: self.refunds,
        }
    }

    /// The ledger after the record at `address` is freed and its deposit is
    /// released to `beneficiary`.
    pub open spec fn free(self, address: Seq<u8>, beneficiary: Seq<u8>) -> LedgerView {
        LedgerView {
            records: self.records.remove(address),
            refunds: self.refunds.push(RefundView { address, beneficiary }),
        }
    }
}

/// Whether position `i` of `records` holds the record allocated at `address`.
spec fn holds_at(records: Seq<Record>, address: Seq<u8>, i: int) -> bool {
    0 <= i < records.len() && records[i].address@ == address
}

/// No two records share an address.
spec fn distinct(records: Seq<Record>) -> bool {
    forall|i: int, j: int|
        0 <= i < records.len() && 0 <= j < records.len() && i != j
            ==> #[trigger] records[i].address@ != #[trigger] records[j].address@
}

/// The records by address.
spec fn record_map(records: Seq<Record>) -> Map<Seq<u8>, RecordView> {
    Map::new(
        |address: Seq<u8>| exists|i: int| holds_at(records, address, i),
        |address: Seq<u8>| records[choose|i: int| holds_at(records, address, i)]@,
    )
}

/// The refunds, as a sequence of models.
spec fn refund_seq(refunds: Seq<Refund>) -> Seq<RefundView> {
    refunds.map_values(|refund: Refund| refund@)
}

proof fn lemma_lookup(records: Seq<Record>, address: Seq<u8>, i: int)
    requires
        distinct(records),
        holds_at(records, address, i),
    ensures
        record_map(records).contains_key(address),
        record_map(records)[address] == records[i]@,
{
    let j = choose|j: int| holds_at(records, address, j);
    assert(j == i);
}

proof fn lemma_push(records: Seq<Record>, record: Record)
    requires
        distinct(records),
        !record_map(records).contains_key(record.address@),
    ensures
        distinct(records.push(record)),
        record_map(records.push(record)) == record_map(records).insert(
            record.address@,
            record@,
        ),
{
    let grown = records.push(record);
    let last = records.len() as int;
    assert forall|i: int, j: int|
        0 <= i < grown.len() && 0 <= j < grown.len() && i != j implies #[trigger] grown[i].address@
        != #[trigger] grown[j].address@ by {
        if i < last && j < last {
            assert(records[i].address@ != records[j].address@);
        } else if i < last {
            assert(holds_at(records, records[i].address@, i));
        } else {
            assert(holds_at(records, records[j].address@, j));
        }
    }
    let expected = record_map(records).insert(record.address@, record@);
    assert forall|address: Seq<u8>| #[trigger]
        record_map(grown).contains_key(address) == expected.contains_key(address) by {
        if expected.contains_key(address) {
            if address == record.address@ {
                assert(holds_at(grown, address, last));
            } else {
                let i = choose|i: int| holds_at(records, address, i);
                assert(holds_at(grown, address, i));
            }
        }
        if record_map(grown).contains_key(address) {
            let i = choose|i: int| holds_at(grown, address, i);
            if i < last {
                assert(holds_at(records, address, i));
            }
        }
    }
    assert forall|address: Seq<u8>| #[trigger]
        expected.contains_key(address) implies record_map(grown)[address]
        == expected[address] by {
        if address == record.address@ {
            lemma_lookup(grown, address, last);
        } else {
            let i = choose|i: int| holds_at(records, address, i);
            lemma_lookup(records, address, i);
            assert(holds_at(grown, address, i));
            lemma_lookup(grown, address, i);
        }
    }
    assert(record_map(grown) =~= expected);
}

proof fn lemma_remove(records: Seq<Record>, at: int)
    requires
        distinct(records),
        0 <= at < records.len(),
    ensures
        distinct(records.remove(at)),
        record_map(records.remove(at)) == record_map(records).remove(records[at].address@),
{
    let rest = records.remove(at);
    let gone = records[at].address@;
    assert forall|i: int, j: int|
        0 <= i < rest.len() && 0 <= j < rest.len() && i != j implies #[trigger] rest[i].address@
        != #[trigger] rest[j].address@ by {
        let i0 = if i < at { i } else { i + 1 };
        let j0 = if j < at { j } else { j + 1 };
        assert(records[i0].address@ != records[j0].address@);
    }
    let expected = record_map(records).remove(gone);
    assert forall|address: Seq<u8>| #[trigger]
        record_map(rest).contains_key(address) == expected.contains_key(address) by {
        if expected.contains_key(address) {
            let i = choose|i: int| holds_at(records, address, i);
            assert(i != at);
            let moved = if i < at { i } else { i - 1 };
            assert(holds_at(rest, address, moved));
        }
        if record_map(rest).contains_key(address) {
            let i = choose|i: int| holds_at(rest, address, i);
            let i0 = if i < at { i } else { i + 1 };
            assert(holds_at(records, address, i0));
            assert(records[i0].address@ != records[at].address@);
        }
    }
    assert forall|address: Seq<u8>| #[trigger]
        expected.contains_key(address) implies record_map(rest)[address] == expected[address] by {
        let i = choose|i: int| holds_at(records, address, i);
        lemma_lookup(records, address, i);
        let moved = if i < at { i } else { i - 1 };
        assert(holds_at(rest, address, moved));
        lemma_lookup(rest, address, moved);
    }
    assert(record_map(rest) =~= expected);
}

/// An in-memory ledger.
pub struct Ledger {
    records: Vec<Record>,
    refunds: Vec<Refund>,
}

impl View for Ledger {
    type V = LedgerView;

    closed spec fn view(&self) -> LedgerView {
        LedgerView { records: record_map(self.records@), refunds: refund_seq(self.refunds@) }
    }
}

impl Ledger {
    #[verifier::type_invariant]
    spec fn well_formed(self) -> bool {
        distinct(self.records@)
    }

    /// A ledger that holds no record and has made no refund.
    pub fn new() -> (ledger: Ledger)
        ensures
            ledger@ == LedgerView::empty(),
    {
        let ledger = Ledger { records: Vec::new(), refunds: Vec::new() };
        assert(ledger@.records =~= Map::empty());
        assert(ledger@.refunds =~= Seq::empty());
        ledger
    }

    /// The position of the record allocated at `address`, if there is one.
    fn position(&self, address: &Address) -> (found: Option<usize>)
        ensures
            match found {
                Some(i) => holds_at(self.records@, address@, i as int),
                None => !record_map(self.records@).contains_key(address@),
            },
    {
        let mut i: usize = 0;
        while i < self.records.len()
            invariant
                i <= self.records.len(),
                forall|k: int| 0 <= k < i ==> !holds_at(self.records@, address@, k),
            decreases self.records.len() - i,
        {
            if self.records[i].address.same(address) {
                return Some(i);
            }
            i += 1;
        }
        None
    }

    /// Reads the record allocated at `address`: `None` where there is none.
    pub fn read(&self, address: &Address) -> (found: Option<Record>)
        ensures
            match found {
                Some(record) => self@.occupied(address@) && record.address@ == address@
                    && record@ == self@.records[address@],
                None => !self@.occupied(address@),
            },
    {
        proof {
            use_type_invariant(self);
        }
        match self.position(address) {
            Some(i) => {
                proof {
                    lemma_lookup(self.records@, address@, i as int);
                }
                Some(self.records[i])
            },
            None => None,
        }
    }

    /// Allocates a record of `size` bytes at `address`, paid for by `funder`.
    /// An address that already holds a record is rejected with
    /// `AllocationError`, and the ledger stays as it was.
    pub fn allocate(&mut self, address: &Address, size: usize, funder: &Identity) -> (done: Result<
        (),
        StoreError,
    >)
        ensures
            old(self)@.occupied(address@) ==> done == Err::<(), StoreError>(
                StoreError::AllocationError,
            ) && final(self)@ == old(self)@,
            !old(self)@.occupied(address@) ==> done == Ok::<(), StoreError>(()) && final(self)@
                == old(self)@.allocate(address@, size as nat, funder@),
    {
        proof {
            use_type_invariant(&*self);
        }
        match self.position(address) {
            Some(i) => {
                proof {
                    lemma_lookup(self.records@, address@, i as int);
                }
                Err(StoreError::AllocationError)
            },
            None => {
                let record = Record { address: *address, size, funder: *funder };
                let mut records = Vec::new();
                std::mem::swap(&mut records, &mut self.records);
                proof {
                    lemma_push(records@, record);
                }
                records.push(record);
                self.records = records;
                Ok(())
            },
        }
    }

    /// Frees the record at `address` and releases its deposit to `refund_to`.
    /// An address that holds no record is rejected with `NotFoundError`, and
    /// the ledger stays as it was.
    pub fn free(&mut self, address: &Address, refund_to: &Identity) -> (done: Result<
        (),
        StoreError,
    >)
        ensures
            !old(self)@.occupied(address@) ==> done == Err::<(), StoreError>(
                StoreError::NotFoundError,
            ) && final(self)@ == old(self)@,
            old(self)@.occupied(address@) ==> done == Ok::<(), StoreError>(()) && final(self)@
                == old(self)@.free(address@, refund_to@),
    {
        proof {
            use_type_invariant(&*self);
        }
        match self.position(address) {
            None => Err(StoreError::NotFoundError),
            Some(i) => {
                proof {
                    lemma_lookup(self.records@, address@, i as int);
                    lemma_remove(self.records@, i as int);
                }
                let refund = Refund { address: *address, beneficiary: *refund_to };
                let mut records = Vec::new();
                std::mem::swap(&mut records, &mut self.records);
                records.remove(i);
                self.records = records;
                let mut refunds = Vec::new();
                std::mem::swap(&mut refunds, &mut self.refunds);
                assert(refund_seq(refunds@.push(refund)) =~= refund_seq(refunds@).push(refund@));
                refunds.push(refund);
                self.refunds = refunds;
                Ok(())
            },
        }
    }

    /// The refunds made so far, oldest first.
    pub fn refunds(&self) -> (refunds: &Vec<Refund>)
        ensures
            refunds@.len() == self@.refunds.len(),
            forall|i: int| 0 <= i < refunds@.len() ==> #[trigger] refunds@[i]@ == self@.refunds[i],
    {
        &self.refunds
    }
}

} // verus!
