//! What a request to buy and an inquiry do to a state, case by case.

use vstd::prelude::*;
use candid::Principal;
use crate::error::BuyError;
use crate::model::{bought_label, StoreState};
use crate::records::{InquiryView, PropertyView, TransactionView};
use crate::validity::{lemma_position_absent, lemma_position_of_id};

verus! {

/// A request to buy an identifier that no property has is refused as not
/// found, and leaves the state as it was.
pub proof fn law_unknown_id_refused(state: StoreState, caller: Principal, timestamp: u64, id: nat)
    requires
        forall|i: int| 0 <= i < state.properties.len() ==> (#[trigger] state.properties[i]).id != id,
    ensures
        state.verdict(caller, id) == Err::<int, BuyError>(BuyError::NotFound),
        state.bought(caller, timestamp, id) == state,
{
    lemma_position_absent(state, id);
}

/// A request by the owner to buy their own property is refused as already
/// owned, and leaves the state as it was: the log gains no entry.
pub proof fn law_owner_refused(
    state: StoreState,
    caller: Principal,
    timestamp: u64,
    id: nat,
    i: int,
)
    requires
        state.valid(),
        0 <= i < state.properties.len(),
        state.properties[i].id == id,
        state.properties[i].owner == caller,
    ensures
        state.verdict(caller, id) == Err::<int, BuyError>(BuyError::AlreadyOwner),
        state.bought(caller, timestamp, id) == state,
{
    lemma_position_of_id(state, i);
}

/// A request to buy a property that another identity owns goes through: the
/// property's owner becomes the caller, nothing else about any property
/// changes, and the log gains exactly one entry, at the end, labelled as a
/// purchase, with the property's identifier, name and price, the caller and
/// the time.
pub proof fn law_purchase_transfers(
    state: StoreState,
    caller: Principal,
    timestamp: u64,
    id: nat,
    i: int,
)
    requires
        state.valid(),
        0 <= i < state.properties.len(),
        state.properties[i].id == id,
        state.properties[i].owner != caller,
    ensures
        state.verdict(caller, id) == Ok::<int, BuyError>(i),
        ({
            let property = state.properties[i];
            let after = state.bought(caller, timestamp, id);
            &&& after.properties == state.properties.update(
                i,
                PropertyView { owner: caller, ..property },
            )
            &&& after.transactions == state.transactions.push(
                TransactionView {
                    property_id: id,
                    property_name: property.name,
                    price: property.price,
                    action: bought_label(),
                    actor: caller,
                    timestamp,
                },
            )
            &&& after.inquiries == state.inquiries
            &&& after.next_id == state.next_id
        }),
{
    lemma_position_of_id(state, i);
}

/// An inquiry is recorded whatever its identifier refers to: the inquiries
/// gain exactly one entry, at the end, with the message as it was sent, and
/// nothing else in the state changes.
pub proof fn law_inquiry_appended(
    state: StoreState,
    sender: Principal,
    timestamp: u64,
    property_id: nat,
    message: Seq<char>,
)
    ensures
        ({
            let after = state.inquired(sender, timestamp, property_id, message);
            &&& after.inquiries.len() == state.inquiries.len() + 1
            &&& after.inquiries.last() == (InquiryView {
                property_id,
                from: sender,
                message,
                timestamp,
            })
            &&& after.inquiries.drop_last() == state.inquiries
            &&& after.properties == state.properties
            &&& after.transactions == state.transactions
            &&& after.next_id == state.next_id
        }),
{
}

} // verus!
