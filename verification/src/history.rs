//! Histories: sequences of calls, and what holds of the state that a history
//! leads to.

use vstd::prelude::*;
use candid::Principal;
use crate::model::{additions, StoreState};
use crate::records::PropertyView;
use crate::validity::{
    lemma_additions_push, lemma_allocated_valid, lemma_bought_valid, lemma_empty_valid,
    lemma_inquired_valid, lemma_labels_differ, lemma_listed_valid,
};

verus! {

/// One call of an operation that changes the store, with its arguments.
pub enum Call {
    NextId,
    AddProperty { caller: Principal, timestamp: u64, name: Seq<char>, price: u64 },
    BuyProperty { caller: Principal, timestamp: u64, id: nat },
    SendInquiry { sender: Principal, timestamp: u64, property_id: nat, message: Seq<char> },
}

impl StoreState {
    /// The state after one call.
    pub open spec fn after(self, call: Call) -> StoreState {
        match call {
            Call::NextId => self.allocated(),
            Call::AddProperty { caller, timestamp, name, price } => self.listed(
                caller,
                timestamp,
                name,
                price,
            ),
            Call::BuyProperty { caller, timestamp, id } => self.bought(caller, timestamp, id),
            Call::SendInquiry { sender, timestamp, property_id, message } => self.inquired(
                sender,
                timestamp,
                property_id,
                message,
            ),
        }
    }

    /// The state after a history: the calls applied one after the other,
    /// first call first.
    pub open spec fn after_all(self, calls: Seq<Call>) -> StoreState
        decreases calls.len(),
    {
        if calls.len() == 0 {
            self
        } else {
            self.after_all(calls.drop_last()).after(calls.last())
        }
    }
}

/// How many calls of a history list a property.
pub open spec fn listings_among(calls: Seq<Call>) -> nat
    decreases calls.len(),
{
    if calls.len() == 0 {
        0
    } else if calls.last() is AddProperty {
        listings_among(calls.drop_last()) + 1
    } else {
        listings_among(calls.drop_last())
    }
}

/// Whether two properties differ in nothing but, perhaps, the owner.
pub open spec fn same_but_owner(before: PropertyView, after: PropertyView) -> bool {
    after == (PropertyView { owner: after.owner, ..before })
}

/// Whether a later state keeps every record of an earlier one: the log and
/// the inquiries only grew at the end, every property is still at its
/// position, changed in nothing but, perhaps, its owner, and the counter did
/// not go back.
pub open spec fn keeps_records(before: StoreState, after: StoreState) -> bool {
    &&& before.transactions.is_prefix_of(after.transactions)
    &&& before.inquiries.is_prefix_of(after.inquiries)
    &&& before.properties.len() <= after.properties.len()
    &&& forall|i: int|
        0 <= i < before.properties.len() ==> same_but_owner(
            #[trigger] before.properties[i],
            after.properties[i],
        )
    &&& before.next_id <= after.next_id
}

/// Every call keeps a valid state valid.
pub proof fn law_call_keeps_valid(state: StoreState, call: Call)
    requires
        state.valid(),
    ensures
        state.after(call).valid(),
{
    match call {
        Call::NextId => lemma_allocated_valid(state),
        Call::AddProperty { caller, timestamp, name, price } => lemma_listed_valid(
            state,
            caller,
            timestamp,
            name,
            price,
        ),
        Call::BuyProperty { caller, timestamp, id } => lemma_bought_valid(
            state,
            caller,
            timestamp,
            id,
        ),
        Call::SendInquiry { sender, timestamp, property_id, message } => lemma_inquired_valid(
            state,
            sender,
            timestamp,
            property_id,
            message,
        ),
    }
}

/// Every history keeps a valid state valid.
pub proof fn law_history_keeps_valid(state: StoreState, calls: Seq<Call>)
    requires
        state.valid(),
    ensures
        state.after_all(calls).valid(),
    decreases calls.len(),
{
    if calls.len() > 0 {
        law_history_keeps_valid(state, calls.drop_last());
        law_call_keeps_valid(state.after_all(calls.drop_last()), calls.last());
    }
}

/// No call deletes or rewrites a record: after it the state keeps every
/// record that it held before.
pub proof fn law_call_keeps_records(state: StoreState, call: Call)
    ensures
        keeps_records(state, state.after(call)),
{
}

/// No history deletes or rewrites a record.
pub proof fn law_history_keeps_records(state: StoreState, calls: Seq<Call>)
    ensures
        keeps_records(state, state.after_all(calls)),
    decreases calls.len(),
{
    if calls.len() > 0 {
        let middle = state.after_all(calls.drop_last());
        law_history_keeps_records(state, calls.drop_last());
        law_call_keeps_records(middle, calls.last());
    }
}

/// Whatever was called on a new store, in whatever order, the identifiers of
/// its properties grow strictly in the order of creation, and no two
/// properties share one.
pub proof fn law_identifiers_ascend(calls: Seq<Call>)
    ensures
        ({
            let properties = StoreState::empty().after_all(calls).properties;
            &&& forall|i: int, j: int|
                #![trigger properties[i], properties[j]]
                0 <= i < j < properties.len() ==> properties[i].id < properties[j].id
            &&& forall|i: int, j: int|
                #![trigger properties[i], properties[j]]
                0 <= i < properties.len() && 0 <= j < properties.len() && i != j
                    ==> properties[i].id != properties[j].id
        }),
{
    lemma_empty_valid();
    law_history_keeps_valid(StoreState::empty(), calls);
}

/// A call changes the number of listing entries in the log, and the number
/// of properties, by one if it lists a property and not at all if it does
/// anything else.
pub proof fn law_call_counts(state: StoreState, call: Call)
    ensures
        ({
            let after = state.after(call);
            let listed: nat = if call is AddProperty {
                1
            } else {
                0
            };
            &&& additions(after.transactions).len() == additions(state.transactions).len()
                + listed
            &&& after.properties.len() == state.properties.len() + listed
        }),
{
    let after = state.after(call);
    match call {
        Call::AddProperty { .. } => {
            lemma_additions_push(state.transactions, after.transactions.last());
        },
        Call::BuyProperty { caller, id, .. } => {
            if state.verdict(caller, id) is Ok {
                lemma_labels_differ();
                lemma_additions_push(state.transactions, after.transactions.last());
            }
        },
        _ => {},
    }
}

/// After any history on a new store, the log holds exactly as many listing
/// entries as the history has calls that list a property, and the store
/// holds as many properties.
pub proof fn law_listings_counted(calls: Seq<Call>)
    ensures
        additions(StoreState::empty().after_all(calls).transactions).len() == listings_among(
            calls,
        ),
        StoreState::empty().after_all(calls).properties.len() == listings_among(calls),
    decreases calls.len(),
{
    if calls.len() == 0 {
        reveal(Seq::filter);
    } else {
        law_listings_counted(calls.drop_last());
        law_call_counts(StoreState::empty().after_all(calls.drop_last()), calls.last());
    }
}

} // verus!
