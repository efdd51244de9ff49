//! The records of a ledger, keyed by identifier.

use crate::types::{Timestamp, Transaction, TransactionView};
use std::collections::HashMap;
use vstd::prelude::*;
use vstd::std_specs::iter::IteratorSpec;

verus! {

broadcast use vstd::std_specs::hash::group_hash_axioms;

/// What a store holds: each identifier with the record filed under it.
pub type Records = Map<u128, TransactionView>;

/// Every record is filed under its own identifier, and there are finitely
/// many records.
pub open spec fn consistent(records: Records) -> bool {
    &&& records.dom().finite()
    &&& forall|id: u128| #[trigger] records.contains_key(id) ==> records[id].id == id
}

/// `latest` names a record of `records` that none is later than, or is `None`
/// when there is no record. Where several records share the latest instant,
/// any of them may be named.
pub open spec fn is_latest(records: Records, latest: Option<u128>) -> bool {
    match latest {
        None => forall|id: u128| !records.contains_key(id),
        Some(top) => {
            &&& records.contains_key(top)
            &&& forall|id: u128| #[trigger]
                records.contains_key(id) ==> records[top].timestamp.at_or_after(
                    records[id].timestamp,
                )
        },
    }
}

/// `listing` holds the records of `records` that are at or after `cutoff`:
/// each of them once, in any order, and nothing else.
pub open spec fn lists_since(
    records: Records,
    cutoff: Timestamp,
    listing: Seq<TransactionView>,
) -> bool {
    &&& forall|i: int|
        0 <= i < listing.len() ==> {
            &&& records.contains_key(#[trigger] listing[i].id)
            &&& records[listing[i].id] == listing[i]
            &&& listing[i].timestamp.at_or_after(cutoff)
        }
    &&& forall|i: int, j: int|
        0 <= i < j < listing.len() ==> #[trigger] listing[i].id != #[trigger] listing[j].id
    &&& forall|id: u128| #[trigger]
        records.contains_key(id) && records[id].timestamp.at_or_after(cutoff) ==> exists|i: int|
            0 <= i < listing.len() && #[trigger] listing[i].id == id
}

/// `listing` holds every record of `records`: each of them once, in any
/// order, and nothing else.
pub open spec fn lists_all(records: Records, listing: Seq<TransactionView>) -> bool {
    &&& listing.len() == records.len()
    &&& forall|i: int|
        0 <= i < listing.len() ==> {
            &&& records.contains_key(#[trigger] listing[i].id)
            &&& records[listing[i].id] == listing[i]
        }
    &&& forall|i: int, j: int|
        0 <= i < j < listing.len() ==> #[trigger] listing[i].id != #[trigger] listing[j].id
    &&& forall|id: u128| #[trigger]
        records.contains_key(id) ==> exists|i: int|
            0 <= i < listing.len() && #[trigger] listing[i].id == id
}

/// The views of the records that `listing` refers to, in its order.
pub open spec fn views_of(listing: Seq<&Transaction>) -> Seq<TransactionView> {
    listing.map_values(|t: &Transaction| t@)
}

/// The records of a ledger. Iteration order is that of the hash map below and
/// means nothing.
#[derive(Clone, Debug)]
pub struct TransactionStore {
    records: HashMap<u128, Transaction>,
}

impl View for TransactionStore {
    type V = Records;

    closed spec fn view(&self) -> Records {
        self.records@.map_values(|t: Transaction| t@)
    }
}

impl TransactionStore {
    /// The store's invariant: see [`consistent`].
    pub open spec fn wf(&self) -> bool {
        consistent(self@)
    }

    /// A store without records.
    pub fn new() -> (store: TransactionStore)
        ensures
            store@ == Records::empty(),
            store.wf(),
    {
        let store = TransactionStore { records: HashMap::new() };
        assert(store@ =~= Records::empty());
        store
    }

    /// The number of records.
    pub fn len(&self) -> (n: usize)
        ensures
            n == self@.len(),
    {
        assert(self@.dom() =~= self.records@.dom());
        self.records.len()
    }

    /// Files `record` under its identifier. A record that was filed under the
    /// same identifier before is replaced.
    pub fn insert(&mut self, record: Transaction)
        requires
            old(self).wf(),
        ensures
            final(self)@ == old(self)@.insert(record.id, record@),
            final(self).wf(),
    {
        let ghost shown = record@;
        let id = record.id;
        self.records.insert(id, record);
        assert(self@ =~= old(self)@.insert(id, shown));
    }

    /// The record filed under `id`, if there is one.
    pub fn get(&self, id: &u128) -> (found: Option<&Transaction>)
        ensures
            match found {
                Some(record) => self@.contains_key(*id) && self@[*id] == record@,
                None => !self@.contains_key(*id),
            },
    {
        self.records.get(id)
    }

    /// A walk over the map that repeats nothing meets every record once.
    proof fn lemma_walk(&self, pairs: Seq<(&u128, &Transaction)>)
        requires
            self.wf(),
            pairs.no_duplicates(),
            pairs.len() == self.records@.dom().len(),
            forall|i: int|
                #![trigger self.records@.contains_key(*pairs[i].0)]
                0 <= i < pairs.len() ==> self.records@.contains_key(*pairs[i].0)
                    && self.records@[*pairs[i].0] == *pairs[i].1,
            forall|id: u128| #[trigger]
                self.records@.contains_key(id) ==> pairs.contains((&id, &self.records@[id])),
        ensures
            pairs.len() == self@.len(),
            forall|i: int|
                0 <= i < pairs.len() ==> {
                    &&& self@.contains_key((#[trigger] pairs[i]).1.id)
                    &&& self@[pairs[i].1.id] == pairs[i].1@
                },
            forall|i: int, j: int|
                0 <= i < j < pairs.len() ==> (#[trigger] pairs[i]).1.id != (#[trigger] pairs[j]).1.id,
            forall|id: u128| #[trigger]
                self@.contains_key(id) ==> exists|i: int|
                    0 <= i < pairs.len() && (#[trigger] pairs[i]).1.id == id,
    {
        assert(self@.dom() =~= self.records@.dom());
        assert forall|i: int| 0 <= i < pairs.len() implies {
            &&& self@.contains_key((#[trigger] pairs[i]).1.id)
            &&& self@[pairs[i].1.id] == pairs[i].1@
            &&& pairs[i].1.id == *pairs[i].0
        } by {
            assert(self.records@.contains_key(*pairs[i].0));
        }
        assert forall|id: u128| #[trigger] self@.contains_key(id) implies exists|i: int|
            0 <= i < pairs.len() && (#[trigger] pairs[i]).1.id == id by {
            assert(pairs.contains((&id, &self.records@[id])));
        }
    }

    /// Every record, in no particular order.
    pub fn all(&self) -> (listing: Vec<&Transaction>)
        requires
            self.wf(),
        ensures
            lists_all(self@, views_of(listing@)),
    {
        let mut listing: Vec<&Transaction> = Vec::new();
        let ghost pairs = self.records.iter().remaining();
        for pair in steps: self.records.iter()
            invariant
                steps.seq() == pairs,
                pairs.no_duplicates(),
                listing@.len() == steps.index(),
                forall|i: int| 0 <= i < listing@.len() ==> listing@[i] == pairs[i].1,
        {
            listing.push(pair.1);
        }
        proof {
            self.lemma_walk(pairs);
            let shown = views_of(listing@);
            assert forall|id: u128| #[trigger] self@.contains_key(id) implies exists|i: int|
                0 <= i < shown.len() && #[trigger] shown[i].id == id by {
                let i = choose|i: int| 0 <= i < pairs.len() && pairs[i].1.id == id;
                assert(shown[i].id == id);
            }
        }
        listing
    }

    /// The records created at `cutoff` or later, in no particular order.
    pub fn since(&self, cutoff: Timestamp) -> (listing: Vec<&Transaction>)
        requires
            self.wf(),
        ensures
            lists_since(self@, cutoff, views_of(listing@)),
    {
        let mut listing: Vec<&Transaction> = Vec::new();
        let ghost mut origin: Seq<int> = Seq::empty();
        let ghost pairs = self.records.iter().remaining();
        for pair in steps: self.records.iter()
            invariant
                steps.seq() == pairs,
                pairs.no_duplicates(),
                origin.len() == listing@.len(),
                forall|j: int|
                    0 <= j < origin.len() ==> {
                        &&& 0 <= #[trigger] origin[j] < steps.index()
                        &&& listing@[j] == pairs[origin[j]].1
                        &&& listing@[j].timestamp.at_or_after(cutoff)
                    },
                forall|j: int, k: int|
                    0 <= j < k < origin.len() ==> #[trigger] origin[j] < #[trigger] origin[k],
                forall|i: int|
                    0 <= i < steps.index() && (#[trigger] pairs[i]).1.timestamp.at_or_after(
                        cutoff,
                    ) ==> exists|j: int| 0 <= j < origin.len() && #[trigger] origin[j] == i,
        {
            let record = pair.1;
            if record.timestamp.is_at_or_after(&cutoff) {
                listing.push(record);
                proof {
                    let ghost earlier = origin;
                    origin = origin.push(steps.index());
                    assert forall|i: int|
                        0 <= i <= steps.index() && (#[trigger] pairs[i]).1.timestamp.at_or_after(
                            cutoff,
                        ) implies exists|j: int| 0 <= j < origin.len() && #[trigger] origin[j]
                        == i by {
                        if i < steps.index() {
                            let j = choose|j: int| 0 <= j < earlier.len() && earlier[j] == i;
                            assert(origin[j] == i);
                        } else {
                            assert(origin[origin.len() - 1] == i);
                        }
                    }
                }
            }
        }
        proof {
            self.lemma_walk(pairs);
            let shown = views_of(listing@);
            assert forall|i: int| 0 <= i < shown.len() implies {
                &&& self@.contains_key(#[trigger] shown[i].id)
                &&& self@[shown[i].id] == shown[i]
                &&& shown[i].timestamp.at_or_after(cutoff)
            } by {
                assert(shown[i] == pairs[origin[i]].1@);
            }
            assert forall|i: int, j: int| 0 <= i < j < shown.len() implies #[trigger] shown[i].id
                != #[trigger] shown[j].id by {
                assert(shown[i] == pairs[origin[i]].1@);
                assert(shown[j] == pairs[origin[j]].1@);
            }
            assert forall|id: u128| #[trigger]
                self@.contains_key(id) && self@[id].timestamp.at_or_after(cutoff) implies exists|
                i: int,
            | 0 <= i < shown.len() && #[trigger] shown[i].id == id by {
                let w = choose|w: int| 0 <= w < pairs.len() && pairs[w].1.id == id;
                let j = choose|j: int| 0 <= j < origin.len() && origin[j] == w;
                assert(shown[j].id == id);
            }
        }
        listing
    }

    /// The identifier of a record that none is later than, or `None` when the
    /// store is empty. Among records that share the latest instant, the one
    /// that the walk over the map meets last is named.
    pub fn latest_id(&self) -> (latest: Option<u128>)
        requires
            self.wf(),
        ensures
            is_latest(self@, latest),
    {
        let mut best: Option<&Transaction> = None;
        let ghost mut at: int = 0;
        let ghost pairs = self.records.iter().remaining();
        for pair in steps: self.records.iter()
            invariant
                steps.seq() == pairs,
                pairs.no_duplicates(),
                best is None <==> steps.index() == 0,
                best matches Some(top) ==> {
                    &&& 0 <= at < steps.index()
                    &&& top == pairs[at].1
                    &&& forall|i: int|
                        0 <= i < steps.index() ==> top.timestamp.at_or_after(
                            (#[trigger] pairs[i]).1.timestamp,
                        )
                },
        {
            let record = pair.1;
            let takes_over = match best {
                None => true,
                Some(top) => record.timestamp.is_at_or_after(&top.timestamp),
            };
            if takes_over {
                best = Some(record);
                proof {
                    at = steps.index();
                }
            }
        }
        proof {
            self.lemma_walk(pairs);
        }
        match best {
            None => None,
            Some(top) => Some(top.id),
        }
    }
}

} // verus!
