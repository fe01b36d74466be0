//! Proofs that the state of a new store is valid and that every operation
//! keeps a valid state valid.

use vstd::prelude::*;
use candid::Principal;
use crate::model::{
    added_label, additions, bought_label, described_among, describes, is_addition, latest_actor,
    StoreState,
};
use crate::records::TransactionView;

verus! {

/// The two action labels are different texts.
pub proof fn lemma_labels_differ()
    ensures
        added_label() != bought_label(),
{
    reveal_strlit("added");
    reveal_strlit("bought");
    assert(bought_label().len() == 6);
}

/// Appending an entry to a log appends it to the log's listing entries if it
/// records a listing, and leaves them as they are if it does not.
pub proof fn lemma_additions_push(log: Seq<TransactionView>, entry: TransactionView)
    ensures
        additions(log.push(entry)) == if is_addition(entry) {
            additions(log).push(entry)
        } else {
            additions(log)
        },
{
    reveal(Seq::filter);
    assert(log.push(entry).drop_last() =~= log);
}

/// The latest actor about a property, after one more entry: the entry's actor
/// if the entry is about that property, and the one before if it is not.
pub proof fn lemma_latest_actor_push(log: Seq<TransactionView>, entry: TransactionView, id: nat)
    ensures
        latest_actor(log.push(entry), id) == if entry.property_id == id {
            Some(entry.actor)
        } else {
            latest_actor(log, id)
        },
{
    assert(log.push(entry).drop_last() =~= log);
}

/// The first position of an identifier is the position that `position`
/// answers with.
pub proof fn lemma_position_found(state: StoreState, id: nat, i: int)
    requires
        state.is_position(id, i),
    ensures
        state.position(id) == Some(i),
{
}

/// An identifier that no property has is at no position.
pub proof fn lemma_position_absent(state: StoreState, id: nat)
    requires
        forall|i: int| 0 <= i < state.properties.len() ==> (#[trigger] state.properties[i]).id != id,
    ensures
        state.position(id) is None,
{
}

/// Where identifiers ascend, the property with a given identifier is at the
/// position that `position` answers with.
pub proof fn lemma_position_of_id(state: StoreState, i: int)
    requires
        state.ids_ascend(),
        0 <= i < state.properties.len(),
    ensures
        state.position(state.properties[i].id) == Some(i),
{
    lemma_position_found(state, state.properties[i].id, i);
}

/// The state of a new store is valid.
pub proof fn lemma_empty_valid()
    ensures
        StoreState::empty().valid(),
{
    reveal(Seq::filter);
}

/// Taking an identifier from the counter keeps the state valid.
pub proof fn lemma_allocated_valid(state: StoreState)
    requires
        state.valid(),
    ensures
        state.allocated().valid(),
{
}

/// Listing a property keeps the state valid.
pub proof fn lemma_listed_valid(
    state: StoreState,
    caller: Principal,
    timestamp: u64,
    name: Seq<char>,
    price: u64,
)
    requires
        state.valid(),
    ensures
        state.listed(caller, timestamp, name, price).valid(),
{
    let after = state.listed(caller, timestamp, name, price);
    let entry = after.transactions.last();
    lemma_additions_push(state.transactions, entry);
    let last = state.properties.len() as int;
    assert forall|k: int| 0 <= k < after.transactions.len() implies described_among(
        #[trigger] after.transactions[k],
        after.properties,
    ) by {
        if k < state.transactions.len() {
            let i = choose|i: int|
                0 <= i < state.properties.len() && #[trigger] describes(
                    state.transactions[k],
                    state.properties[i],
                );
            assert(describes(after.transactions[k], after.properties[i]));
        } else {
            assert(describes(after.transactions[k], after.properties[last]));
        }
    }
    assert forall|i: int| 0 <= i < after.properties.len() implies latest_actor(
        after.transactions,
        (#[trigger] after.properties[i]).id,
    ) == Some(after.properties[i].owner) by {
        lemma_latest_actor_push(state.transactions, entry, after.properties[i].id);
    }
}

/// Handing the property at a position to a buyer keeps the state valid.
pub proof fn lemma_transferred_valid(state: StoreState, i: int, buyer: Principal, timestamp: u64)
    requires
        state.valid(),
        0 <= i < state.properties.len(),
    ensures
        state.transferred(i, buyer, timestamp).valid(),
{
    let after = state.transferred(i, buyer, timestamp);
    let entry = after.transactions.last();
    lemma_labels_differ();
    lemma_additions_push(state.transactions, entry);
    assert forall|k: int| 0 <= k < after.transactions.len() implies described_among(
        #[trigger] after.transactions[k],
        after.properties,
    ) by {
        if k < state.transactions.len() {
            let j = choose|j: int|
                0 <= j < state.properties.len() && #[trigger] describes(
                    state.transactions[k],
                    state.properties[j],
                );
            assert(describes(after.transactions[k], after.properties[j]));
        } else {
            assert(describes(after.transactions[k], after.properties[i]));
        }
    }
    assert forall|j: int| 0 <= j < after.properties.len() implies latest_actor(
        after.transactions,
        (#[trigger] after.properties[j]).id,
    ) == Some(after.properties[j].owner) by {
        lemma_latest_actor_push(state.transactions, entry, after.properties[j].id);
    }
}

/// A request to buy keeps the state valid, whatever its verdict.
pub proof fn lemma_bought_valid(state: StoreState, caller: Principal, timestamp: u64, id: nat)
    requires
        state.valid(),
    ensures
        state.bought(caller, timestamp, id).valid(),
{
    if let Ok(i) = state.verdict(caller, id) {
        lemma_transferred_valid(state, i, caller, timestamp);
    }
}

/// Sending an inquiry keeps the state valid.
pub proof fn lemma_inquired_valid(
    state: StoreState,
    sender: Principal,
    timestamp: u64,
    property_id: nat,
    message: Seq<char>,
)
    requires
        state.valid(),
    ensures
        state.inquired(sender, timestamp, property_id, message).valid(),
{
}

} // verus!
