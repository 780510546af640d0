//! The store of fund records, keyed by address.
//!
//! Every change to a record is one step: a caller sees the record before the
//! change or after it, never in between, and a refused change leaves the
//! store as it was.

use vstd::prelude::*;
use crate::address::Address;
use crate::fund::{Error, Fund, FundView};

verus! {

struct Entry {
    address: Address,
    fund: Fund,
}

/// Fund records under their addresses, together with the least balance that
/// a record must keep while it stays open.
pub struct Ledger {
    entries: Vec<Entry>,
    reserved_minimum: u64,
}

/// Whether the entry at `i` is stored under `address`.
spec fn stored_at(entries: Seq<Entry>, address: Seq<u8>, i: int) -> bool {
    0 <= i < entries.len() && entries[i].address@ == address
}

impl View for Ledger {
    type V = Map<Seq<u8>, FundView>;

    /// The records of the store, by address.
    closed spec fn view(&self) -> Map<Seq<u8>, FundView> {
        Map::new(
            |address: Seq<u8>| exists|i: int| stored_at(self.entries@, address, i),
            |address: Seq<u8>| self.entries@[choose|i: int| stored_at(self.entries@, address, i)].fund@,
        )
    }
}

impl Ledger {
    /// No address is stored twice and every record is well formed. Every
    /// store that this module hands out satisfies this, and every operation
    /// keeps it.
    pub closed spec fn well_formed(&self) -> bool {
        &&& forall|i: int, j: int|
            0 <= i < j < self.entries@.len() ==> self.entries@[i].address@
                != self.entries@[j].address@
        &&& forall|i: int|
            0 <= i < self.entries@.len() ==> (#[trigger] self.entries@[i]).fund@.well_formed()
    }

    /// The least balance that an open record must keep.
    pub closed spec fn reserve(&self) -> nat {
        self.reserved_minimum as nat
    }

    /// The entry at `i` is what the view holds under its address.
    /// Every record of a well-formed store is well formed.
    pub proof fn lemma_records_well_formed(self)
        requires
            self.well_formed(),
        ensures
            forall|address: Seq<u8>| #[trigger]
                self@.contains_key(address) ==> self@[address].well_formed(),
    {
        assert forall|address: Seq<u8>| #[trigger] self@.contains_key(address) implies self@[address].well_formed() by {
            let i = choose|i: int| stored_at(self.entries@, address, i);
            assert(stored_at(self.entries@, address, i));
        }
    }

    proof fn lemma_entry_is_viewed(self, i: int)
        requires
            self.well_formed(),
            0 <= i < self.entries@.len(),
        ensures
            self@.contains_key(self.entries@[i].address@),
            self@[self.entries@[i].address@] == self.entries@[i].fund@,
    {
        let address = self.entries@[i].address@;
        assert(stored_at(self.entries@, address, i));
        let k = choose|k: int| stored_at(self.entries@, address, k);
        assert(k == i);
    }

    /// An empty store whose records must keep `reserved_minimum`.
    pub fn new(reserved_minimum: u64) -> (ledger: Ledger)
        ensures
            ledger.well_formed(),
            ledger@ == Map::<Seq<u8>, FundView>::empty(),
            ledger.reserve() == reserved_minimum,
    {
        let ledger = Ledger { entries: Vec::new(), reserved_minimum };
        assert(ledger@ =~= Map::<Seq<u8>, FundView>::empty());
        ledger
    }

    /// The least balance that an open record must keep.
    pub fn reserved_minimum(&self) -> (amount: u64)
        ensures
            amount == self.reserve(),
    {
        self.reserved_minimum
    }

    /// Stores `initial_record` under `address`, which must be free. A record
    /// that is not well formed is refused.
    pub fn create(&mut self, address: Address, initial_record: Fund) -> (outcome: Result<(), Error>)
        requires
            old(self).well_formed(),
        ensures
            final(self).well_formed(),
            final(self).reserve() == old(self).reserve(),
            match outcome {
                Ok(()) => {
                    &&& !old(self)@.contains_key(address@)
                    &&& initial_record@.well_formed()
                    &&& final(self)@ == old(self)@.insert(address@, initial_record@)
                },
                Err(e) => {
                    &&& final(self)@ == old(self)@
                    &&& e == if old(self)@.contains_key(address@) {
                        Error::AlreadyExists
                    } else {
                        Error::InvariantViolated
                    }
                    &&& old(self)@.contains_key(address@) || !initial_record@.well_formed()
                },
            },
    {
        if self.position(&address).is_some() {
            return Err(Error::AlreadyExists);
        }
        if !initial_record.is_well_formed() {
            return Err(Error::InvariantViolated);
        }
        let ghost before = *self;
        self.entries.push(Entry { address, fund: initial_record });
        proof {
            let n = before.entries@.len() as int;
            assert forall|i: int| 0 <= i < n implies before.entries@[i].address@ != address@ by {
                assert(!stored_at(before.entries@, address@, i));
            }
            assert forall|a: Seq<u8>| #[trigger]
                self@.contains_key(a) <==> before@.insert(address@, initial_record@).contains_key(
                    a,
                ) by {
                if a == address@ {
                    assert(stored_at(self.entries@, a, n));
                } else {
                    if before@.contains_key(a) {
                        let i = choose|i: int| stored_at(before.entries@, a, i);
                        assert(stored_at(self.entries@, a, i));
                    }
                    if self@.contains_key(a) {
                        let i = choose|i: int| stored_at(self.entries@, a, i);
                        assert(stored_at(before.entries@, a, i));
                    }
                }
            }
            assert forall|a: Seq<u8>| #[trigger] self@.contains_key(a) implies self@[a]
                == before@.insert(address@, initial_record@)[a] by {
                let i = choose|i: int| stored_at(self.entries@, a, i);
                self.lemma_entry_is_viewed(i);
                if i < n {
                    before.lemma_entry_is_viewed(i);
                }
            }
            assert(self@ =~= before@.insert(address@, initial_record@));
        }
        Ok(())
    }

    /// A copy of the record under `address`.
    pub fn read(&self, address: &Address) -> (outcome: Result<Fund, Error>)
        requires
            self.well_formed(),
        ensures
            match outcome {
                Ok(fund) => {
                    &&& self@.contains_key(address@)
                    &&& fund@ == self@[address@]
                    &&& fund@.well_formed()
                },
                Err(e) => e == Error::NotFound && !self@.contains_key(address@),
            },
    {
        match self.position(address) {
            Some(i) => {
                proof {
                    self.lemma_entry_is_viewed(i as int);
                }
                Ok(self.entries[i].fund.clone())
            },
            None => Err(Error::NotFound),
        }
    }

    /// Replaces the record under `address` by what `mutation` makes of it,
    /// in one step, and returns the new record. The replacement is refused,
    /// and the store left as it was, unless the old record may become the
    /// new one: see [`FundView::may_become`].
    pub fn apply<F: FnOnce(&Fund) -> Fund>(&mut self, address: &Address, mutation: F) -> (outcome:
        Result<Fund, Error>)
        requires
            old(self).well_formed(),
            old(self)@.contains_key(address@) ==> forall|record: &Fund|
                record@ == old(self)@[address@] ==> #[trigger] mutation.requires((record,)),
        ensures
            final(self).well_formed(),
            final(self).reserve() == old(self).reserve(),
            match outcome {
                Ok(next) => {
                    &&& old(self)@.contains_key(address@)
                    &&& old(self)@[address@].may_become(next@)
                    &&& exists|record: &Fund, made: Fund|
                        record@ == old(self)@[address@] && #[trigger] mutation.ensures(
                            (record,),
                            made,
                        ) && made@ == next@
                    &&& final(self)@ == old(self)@.insert(address@, next@)
                },
                Err(e) => {
                    &&& final(self)@ == old(self)@
                    &&& if old(self)@.contains_key(address@) {
                        &&& e == Error::InvariantViolated
                        &&& exists|record: &Fund, made: Fund|
                            record@ == old(self)@[address@] && #[trigger] mutation.ensures(
                                (record,),
                                made,
                            ) && !old(self)@[address@].may_become(made@)
                    } else {
                        e == Error::NotFound
                    }
                },
            },
    {
        let i = match self.position(address) {
            Some(i) => i,
            None => {
                return Err(Error::NotFound);
            },
        };
        proof {
            self.lemma_entry_is_viewed(i as int);
        }
        let made = mutation(&self.entries[i].fund);
        if !self.entries[i].fund.may_become(&made) {
            return Err(Error::InvariantViolated);
        }
        let next = made.clone();
        let stored = self.entries[i].address;
        let ghost before = *self;
        self.entries.set(i, Entry { address: stored, fund: made });
        proof {
            assert forall|a: Seq<u8>| #[trigger]
                self@.contains_key(a) <==> before@.insert(address@, next@).contains_key(a) by {
                if before@.contains_key(a) {
                    let k = choose|k: int| stored_at(before.entries@, a, k);
                    assert(stored_at(self.entries@, a, k));
                }
                if self@.contains_key(a) {
                    let k = choose|k: int| stored_at(self.entries@, a, k);
                    assert(stored_at(before.entries@, a, k));
                }
            }
            assert forall|a: Seq<u8>| #[trigger] self@.contains_key(a) implies self@[a]
                == before@.insert(address@, next@)[a] by {
                let k = choose|k: int| stored_at(self.entries@, a, k);
                self.lemma_entry_is_viewed(k);
                before.lemma_entry_is_viewed(k);
            }
            assert(self@ =~= before@.insert(address@, next@));
        }
        Ok(next)
    }

    /// The place of the record under `address`, if there is one.
    fn position(&self, address: &Address) -> (place: Option<usize>)
        requires
            self.well_formed(),
        ensures
            match place {
                Some(i) => stored_at(self.entries@, address@, i as int),
                None => !self@.contains_key(address@),
            },
    {
        let mut i: usize = 0;
        while i < self.entries.len()
            invariant
                i <= self.entries@.len(),
                forall|j: int| 0 <= j < i ==> !stored_at(self.entries@, address@, j),
            decreases self.entries@.len() - i,
        {
            if self.entries[i].address.same_as(address) {
                return Some(i);
            }
            i = i + 1;
        }
        None
    }
}

} // verus!
