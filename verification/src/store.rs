//! The keyed store of subscription records: one record per identifier.

use vstd::prelude::*;
use crate::error::SubscriptionError;
use crate::subscription::{Subscription, SubscriptionView};

verus! {

/// No identifier occurs twice among `records`.
spec fn distinct_ids(records: Seq<Subscription>) -> bool {
    forall|i: int, j: int|
        0 <= i < j < records.len() ==> (#[trigger] records[i]).id@ != (#[trigger] records[j]).id@
}

/// Some record among `records` has the identifier `id`.
spec fn holds(records: Seq<Subscription>, id: Seq<char>) -> bool {
    exists|i: int| 0 <= i < records.len() && (#[trigger] records[i]).id@ == id
}

/// The place of the record with the identifier `id`, where there is one.
spec fn place_of(records: Seq<Subscription>, id: Seq<char>) -> int {
    choose|i: int| 0 <= i < records.len() && (#[trigger] records[i]).id@ == id
}

/// The records as a map from identifier to record.
spec fn keyed(records: Seq<Subscription>) -> Map<Seq<char>, SubscriptionView> {
    Map::new(|id: Seq<char>| holds(records, id), |id: Seq<char>| records[place_of(records, id)]@)
}

/// Every record of a map stands under its own identifier.
pub open spec fn keyed_by_id(records: Map<Seq<char>, SubscriptionView>) -> bool {
    forall|id: Seq<char>| #[trigger] records.contains_key(id) ==> records[id].id == id
}

/// Where identifiers are distinct, the map holds each record under its
/// identifier.
proof fn keyed_at(records: Seq<Subscription>, i: int)
    requires
        distinct_ids(records),
        0 <= i < records.len(),
    ensures
        keyed(records).contains_key(records[i].id@),
        keyed(records)[records[i].id@] == records[i]@,
{
    // The place `i` has this identifier, so the chosen place has it too, and
    // as no identifier occurs twice, the chosen place is `i`.
    let chosen = place_of(records, records[i].id@);
    assert(records[chosen].id@ == records[i].id@);
    assert(chosen == i);
}

/// Where identifiers are distinct, every record of the map stands under its
/// own identifier.
proof fn keyed_stands_by_id(records: Seq<Subscription>)
    requires
        distinct_ids(records),
    ensures
        keyed_by_id(keyed(records)),
{
    assert forall|id: Seq<char>| #[trigger] keyed(records).contains_key(id) implies keyed(
        records,
    )[id].id == id by {
        keyed_at(records, place_of(records, id));
    }
}

/// Appending a record with a fresh identifier inserts it into the map.
proof fn keyed_push(records: Seq<Subscription>, record: Subscription)
    requires
        distinct_ids(records),
        !holds(records, record.id@),
    ensures
        distinct_ids(records.push(record)),
        keyed(records.push(record)) == keyed(records).insert(record.id@, record@),
{
    let longer = records.push(record);
    let last = records.len() as int;
    let expected = keyed(records).insert(record.id@, record@);
    assert(distinct_ids(longer));
    assert forall|id: Seq<char>| #[trigger] keyed(longer).contains_key(id) implies expected.contains_key(
        id,
    ) by {
        let i = place_of(longer, id);
        if i < last {
            assert(records[i].id@ == id);
        }
    }
    assert forall|id: Seq<char>| #[trigger] expected.contains_key(id) implies keyed(
        longer,
    ).contains_key(id) && keyed(longer)[id] == expected[id] by {
        if id == record.id@ {
            keyed_at(longer, last);
        } else {
            let i = place_of(records, id);
            keyed_at(records, i);
            keyed_at(longer, i);
        }
    }
    assert(keyed(longer) =~= expected);
}

/// Replacing a record by one with the same identifier overwrites it in the
/// map.
proof fn keyed_update(records: Seq<Subscription>, i: int, record: Subscription)
    requires
        distinct_ids(records),
        0 <= i < records.len(),
        records[i].id@ == record.id@,
    ensures
        distinct_ids(records.update(i, record)),
        keyed(records.update(i, record)) == keyed(records).insert(record.id@, record@),
{
    let changed = records.update(i, record);
    let expected = keyed(records).insert(record.id@, record@);
    assert forall|j: int| 0 <= j < changed.len() implies (#[trigger] changed[j]).id@
        == records[j].id@ by {}
    assert(distinct_ids(changed));
    assert forall|id: Seq<char>| #[trigger] keyed(changed).contains_key(id) implies expected.contains_key(
        id,
    ) by {
        let j = place_of(changed, id);
        assert(records[j].id@ == id);
    }
    assert forall|id: Seq<char>| #[trigger] expected.contains_key(id) implies keyed(
        changed,
    ).contains_key(id) && keyed(changed)[id] == expected[id] by {
        if id == record.id@ {
            keyed_at(changed, i);
        } else {
            let j = place_of(records, id);
            keyed_at(records, j);
            keyed_at(changed, j);
        }
    }
    assert(keyed(changed) =~= expected);
}

/// Holds one record per identifier. It checks no transition: it only keeps
/// what it is given.
pub struct SubscriptionStore {
    records: Vec<Subscription>,
}

impl View for SubscriptionStore {
    type V = Map<Seq<char>, SubscriptionView>;

    closed spec fn view(&self) -> Map<Seq<char>, SubscriptionView> {
        keyed(self.records@)
    }
}

impl SubscriptionStore {
    #[verifier::type_invariant]
    spec fn one_record_per_id(self) -> bool {
        distinct_ids(self.records@)
    }

    /// A store without records.
    pub fn new() -> (store: Self)
        ensures
            store@ == Map::<Seq<char>, SubscriptionView>::empty(),
            keyed_by_id(store@),
    {
        let store = SubscriptionStore { records: Vec::new() };
        assert(store@ =~= Map::<Seq<char>, SubscriptionView>::empty());
        store
    }

    /// Takes the records out of the store, which is empty until they are put
    /// back.
    fn take_records(&mut self) -> (records: Vec<Subscription>)
        ensures
            records@ == old(self).records@,
            final(self).records@ == Seq::<Subscription>::empty(),
    {
        let mut records: Vec<Subscription> = Vec::new();
        std::mem::swap(&mut records, &mut self.records);
        records
    }

    /// The place of the record with the identifier `id`, if there is one.
    fn find(&self, id: &String) -> (place: Option<usize>)
        ensures
            match place {
                Some(i) => i < self.records@.len() && self.records@[i as int].id@ == id@,
                None => !holds(self.records@, id@),
            },
    {
        let mut i: usize = 0;
        while i < self.records.len()
            invariant
                i <= self.records@.len(),
                forall|j: int| 0 <= j < i ==> (#[trigger] self.records@[j]).id@ != id@,
            decreases self.records@.len() - i,
        {
            if self.records[i].id == *id {
                return Some(i);
            }
            i += 1;
        }
        None
    }

    /// Tells whether a record is stored under `id`.
    pub fn has(&self, id: &String) -> (present: bool)
        ensures
            keyed_by_id(self@),
            present == self@.contains_key(id@),
    {
        proof {
            use_type_invariant(self);
            keyed_stands_by_id(self.records@);
        }
        self.find(id).is_some()
    }

    /// The record stored under `id`, if there is one. Nothing changes.
    pub fn get(&self, id: &String) -> (found: Option<Subscription>)
        ensures
            keyed_by_id(self@),
            match found {
                Some(record) => self@.contains_key(id@) && record@ == self@[id@],
                None => !self@.contains_key(id@),
            },
    {
        proof {
            use_type_invariant(self);
            keyed_stands_by_id(self.records@);
        }
        match self.find(id) {
            Some(i) => {
                proof {
                    keyed_at(self.records@, i as int);
                }
                Some(self.records[i].clone())
            },
            None => None,
        }
    }

    /// Stores `record` under its identifier, unless a record is already stored
    /// there: then nothing changes and the answer is `AlreadyExists`.
    pub fn create(&mut self, record: Subscription) -> (done: Result<(), SubscriptionError>)
        ensures
            keyed_by_id(final(self)@),
            match done {
                Ok(_) => !old(self)@.contains_key(record.id@) && final(self)@ == old(self)@.insert(
                    record.id@,
                    record@,
                ),
                Err(refusal) => refusal == SubscriptionError::AlreadyExists && old(
                    self,
                )@.contains_key(record.id@) && final(self)@ == old(self)@,
            },
    {
        proof {
            use_type_invariant(&*self);
            keyed_stands_by_id(self.records@);
        }
        match self.find(&record.id) {
            Some(_) => Err(SubscriptionError::AlreadyExists),
            None => {
                proof {
                    keyed_push(self.records@, record);
                    keyed_stands_by_id(self.records@.push(record));
                }
                let mut records = self.take_records();
                records.push(record);
                self.records = records;
                Ok(())
            },
        }
    }

    /// Stores `record` under its identifier, in place of the record that was
    /// there if there was one.
    pub fn put(&mut self, record: Subscription)
        ensures
            keyed_by_id(final(self)@),
            final(self)@ == old(self)@.insert(record.id@, record@),
    {
        proof {
            use_type_invariant(&*self);
            keyed_stands_by_id(self.records@);
        }
        match self.find(&record.id) {
            Some(i) => {
                proof {
                    keyed_update(self.records@, i as int, record);
                    keyed_stands_by_id(self.records@.update(i as int, record));
                }
                let mut records = self.take_records();
                records.set(i, record);
                self.records = records;
            },
            None => {
                proof {
                    keyed_push(self.records@, record);
                    keyed_stands_by_id(self.records@.push(record));
                }
                let mut records = self.take_records();
                records.push(record);
                self.records = records;
            },
        }
    }
}

} // verus!
