//! What holds of a chain across calls, proved from the contracts of its
//! operations.
//!
//! The laws speak of views: a [`ChainView`] for a chain at one moment, and
//! [`ChainView::extended_by`] for what one successful `add_transaction` does.

use crate::attestation::{lemma_issuing_device_is_recognized, recognized_device};
use crate::chain::ChainView;
use crate::error::ErrorKind;
use crate::signature::{dilithium2_accepts, readable};
use crate::store::{consistent, lists_all, lists_since, Records};
use crate::types::{AttestationView, Timestamp, TransactionView};
use vstd::prelude::*;

verus! {

/// `states` are the moments of a chain through a run of successful
/// additions: addition `i` takes the chain from `states[i]` to
/// `states[i + 1]`, with the payload `payloads[i]` and under the identifier
/// `ids[i]`.
pub open spec fn additions(
    states: Seq<ChainView>,
    payloads: Seq<Seq<u8>>,
    ids: Seq<u128>,
) -> bool {
    &&& states.len() == ids.len() + 1
    &&& payloads.len() == ids.len()
    &&& forall|i: int|
        0 <= i < ids.len() ==> (#[trigger] states[i]).extended_by(
            payloads[i],
            states[i + 1],
            ids[i],
        )
}

/// The records of `records` that are at or after `cutoff`.
pub open spec fn records_since(records: Records, cutoff: Timestamp) -> Set<TransactionView> {
    Set::new(
        |record: TransactionView|
            records.contains_key(record.id) && records[record.id] == record
                && record.timestamp.at_or_after(cutoff),
    )
}

/// After `add_transaction`, `get_transaction` finds the new record under the
/// identifier that was returned, and the record holds the payload that was
/// added.
pub proof fn law_added_record_is_found(
    before: ChainView,
    data: Seq<u8>,
    after: ChainView,
    id: u128,
)
    requires
        before.extended_by(data, after, id),
    ensures
        after.lookup(id) matches Some(record) && record.id == id && record.data == data,
{
}

/// A record that `add_transaction` produced verifies as genuine on every
/// later moment of the same chain, that is, wherever the keypair is the one
/// that signed it.
pub proof fn law_added_record_verifies(
    before: ChainView,
    data: Seq<u8>,
    after: ChainView,
    id: u128,
    later: ChainView,
)
    requires
        before.wf(),
        before.extended_by(data, after, id),
        later.keys == before.keys,
    ensures
        later.verification(after.transactions[id]) == Ok::<bool, ErrorKind>(true),
{
    lemma_issuing_device_is_recognized();
}

/// Of two additions in a row to a chain without records, the second record
/// links to the first.
pub proof fn law_second_record_links_to_first(
    fresh: ChainView,
    a: Seq<u8>,
    first: ChainView,
    id_a: u128,
    b: Seq<u8>,
    second: ChainView,
    id_b: u128,
)
    requires
        fresh.transactions == Records::empty(),
        fresh.extended_by(a, first, id_a),
        first.extended_by(b, second, id_b),
    ensures
        second.transactions[id_b].previous_transaction == Some(id_a),
{
}

/// After a run of additions to a chain without records, the identifiers
/// under which records are filed are those that the additions returned.
pub proof fn lemma_identifiers_after_additions(
    states: Seq<ChainView>,
    payloads: Seq<Seq<u8>>,
    ids: Seq<u128>,
)
    requires
        additions(states, payloads, ids),
        states[0].transactions == Records::empty(),
    ensures
        states.last().transactions.dom() == ids.to_set(),
    decreases ids.len(),
{
    if ids.len() > 0 {
        let last = ids.len() - 1;
        lemma_identifiers_after_additions(
            states.drop_last(),
            payloads.drop_last(),
            ids.drop_last(),
        );
        assert(states[last].extended_by(payloads[last], states[last + 1], ids[last]));
        ids.drop_last().lemma_push_to_set_commute(ids[last]);
        assert(ids =~= ids.drop_last().push(ids[last]));
    }
}

/// After `ids.len()` additions to a chain without records,
/// `get_all_transactions` returns that many records, no two of them with the
/// same identifier, provided that no two additions drew the same identifier.
/// (Where two did, the later record replaced the earlier one.)
pub proof fn law_all_records_are_listed_once(
    states: Seq<ChainView>,
    payloads: Seq<Seq<u8>>,
    ids: Seq<u128>,
    listing: Seq<TransactionView>,
)
    requires
        additions(states, payloads, ids),
        states[0].transactions == Records::empty(),
        ids.no_duplicates(),
        lists_all(states.last().transactions, listing),
    ensures
        listing.len() == ids.len(),
        forall|i: int, j: int|
            0 <= i < j < listing.len() ==> #[trigger] listing[i].id != #[trigger] listing[j].id,
        forall|i: int| 0 <= i < listing.len() ==> ids.contains(#[trigger] listing[i].id),
{
    lemma_identifiers_after_additions(states, payloads, ids);
    ids.unique_seq_to_set();
}

/// What `get_transactions_since` returns holds the records at or after the
/// cutoff, each of them once, and nothing else.
pub proof fn law_selection_is_the_subset(
    records: Records,
    cutoff: Timestamp,
    listing: Seq<TransactionView>,
)
    requires
        consistent(records),
        lists_since(records, cutoff, listing),
    ensures
        listing.no_duplicates(),
        listing.to_set() == records_since(records, cutoff),
{
    assert forall|i: int, j: int| 0 <= i < listing.len() && 0 <= j < listing.len() && i
        != j implies listing[i] != listing[j] by {
        if i < j {
            assert(listing[i].id != listing[j].id);
        } else {
            assert(listing[j].id != listing[i].id);
        }
    }
    assert forall|record: TransactionView|
        records_since(records, cutoff).contains(record) implies listing.to_set().contains(
        record,
    ) by {
        let i = choose|i: int| 0 <= i < listing.len() && listing[i].id == record.id;
        assert(listing[i] == record);
    }
    assert(listing.to_set() =~= records_since(records, cutoff));
}

/// With a cutoff later than every record, `get_transactions_since` returns
/// nothing.
pub proof fn law_cutoff_after_every_record(
    records: Records,
    cutoff: Timestamp,
    listing: Seq<TransactionView>,
)
    requires
        lists_since(records, cutoff, listing),
        forall|id: u128| #[trigger]
            records.contains_key(id) ==> records[id].timestamp.before(cutoff),
    ensures
        listing.len() == 0,
{
    if listing.len() > 0 {
        assert(records.contains_key(listing[0].id));
    }
}

/// A record that `add_transaction` produced carries a token with evidence in
/// it, from a device that the attestation check recognizes.
pub proof fn law_added_record_is_attested(
    before: ChainView,
    data: Seq<u8>,
    after: ChainView,
    id: u128,
)
    requires
        before.extended_by(data, after, id),
    ensures
        after.transactions[id].hardware_attestation matches Some(token) && token.attestation_data.len()
            > 0 && recognized_device(token.device_id),
{
    lemma_issuing_device_is_recognized();
}

/// Where a record verifies as genuine, the same record with its token's
/// device renamed to one that is not recognized fails to verify, with a
/// failure of the hardware family; the scheme still accepts its signature.
pub proof fn law_unrecognized_device_is_refused(
    chain: ChainView,
    record: TransactionView,
    token: AttestationView,
    device_id: Seq<char>,
)
    requires
        chain.verification(record) == Ok::<bool, ErrorKind>(true),
        record.hardware_attestation == Some(token),
        !recognized_device(device_id),
    ensures
        ({
            let renamed = AttestationView { device_id, ..token };
            let tampered = TransactionView { hardware_attestation: Some(renamed), ..record };
            &&& chain.verification(tampered) == Err::<bool, ErrorKind>(ErrorKind::Hardware)
            &&& chain.keys matches Some(keys)
            &&& readable(keys.public_key, tampered.signature)
            &&& dilithium2_accepts(tampered.signature, tampered.data, keys.public_key)
        }),
{
}

/// Two calls of `get_transaction` with the same identifier, on a chain that
/// was not changed between them, find the same.
pub proof fn law_lookup_is_repeatable(
    chain: ChainView,
    id: u128,
    first: Option<TransactionView>,
    second: Option<TransactionView>,
)
    requires
        first == chain.lookup(id),
        second == chain.lookup(id),
    ensures
        first == second,
{
}

} // verus!
