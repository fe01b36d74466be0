//! The mathematical model of the store: its state as sequences, the condition
//! that every reachable state meets, and each operation as a function from
//! state to state.

use vstd::prelude::*;
use candid::Principal;
use crate::error::BuyError;
use crate::records::{InquiryView, PropertyView, TransactionView};

verus! {

/// The action label of a log entry that records a new listing.
pub open spec fn added_label() -> Seq<char> {
    "added"@
}

/// The action label of a log entry that records a purchase.
pub open spec fn bought_label() -> Seq<char> {
    "bought"@
}

/// The text that a successful purchase answers with.
pub open spec fn purchase_text() -> Seq<char> {
    "Purchase successful!"@
}

/// Whether a log entry records a new listing.
pub open spec fn is_addition(entry: TransactionView) -> bool {
    entry.action == added_label()
}

/// The entries of a log that record new listings, in the order of the log.
pub open spec fn additions(log: Seq<TransactionView>) -> Seq<TransactionView> {
    log.filter(|entry: TransactionView| is_addition(entry))
}

/// Whether a log entry carries the identifier, name and price of a property.
pub open spec fn describes(entry: TransactionView, property: PropertyView) -> bool {
    &&& entry.property_id == property.id
    &&& entry.property_name == property.name
    &&& entry.price == property.price
}

/// Whether a log entry carries the identifier, name and price of one of the
/// properties.
pub open spec fn described_among(entry: TransactionView, properties: Seq<PropertyView>) -> bool {
    exists|i: int| 0 <= i < properties.len() && #[trigger] describes(entry, properties[i])
}

/// The actor of the latest entry of a log about the property `id`, if the log
/// has an entry about it.
pub open spec fn latest_actor(log: Seq<TransactionView>, id: nat) -> Option<Principal>
    decreases log.len(),
{
    if log.len() == 0 {
        None
    } else if log.last().property_id == id {
        Some(log.last().actor)
    } else {
        latest_actor(log.drop_last(), id)
    }
}

/// The state of a store: its three sequences and the identifier counter.
pub struct StoreState {
    /// The properties, in the order of their creation.
    pub properties: Seq<PropertyView>,
    /// The audit log, oldest entry first.
    pub transactions: Seq<TransactionView>,
    /// The inquiries, oldest first.
    pub inquiries: Seq<InquiryView>,
    /// The identifier that the next new property gets.
    pub next_id: nat,
}

impl StoreState {
    /// The state of a new store: nothing recorded, the counter at 1.
    pub open spec fn empty() -> StoreState {
        StoreState {
            properties: Seq::empty(),
            transactions: Seq::empty(),
            inquiries: Seq::empty(),
            next_id: 1,
        }
    }

    /// Every identifier in use is at least 1 and below the counter.
    pub open spec fn ids_allocated(self) -> bool {
        &&& self.next_id >= 1
        &&& forall|i: int|
            0 <= i < self.properties.len() ==> 1 <= (#[trigger] self.properties[i]).id
                < self.next_id
    }

    /// Identifiers grow strictly in the order of creation.
    pub open spec fn ids_ascend(self) -> bool {
        forall|i: int, j: int|
            #![trigger self.properties[i], self.properties[j]]
            0 <= i < j < self.properties.len() ==> self.properties[i].id < self.properties[j].id
    }

    /// No property is leased.
    pub open spec fn none_leased(self) -> bool {
        forall|i: int|
            0 <= i < self.properties.len() ==> !(#[trigger] self.properties[i]).is_leased
    }

    /// Every log entry is labelled as a listing or as a purchase.
    pub open spec fn labels_known(self) -> bool {
        forall|k: int|
            0 <= k < self.transactions.len() ==> {
                let action = (#[trigger] self.transactions[k]).action;
                action == added_label() || action == bought_label()
            }
    }

    /// The listing entries of the log are, one for one and in order, the
    /// properties: same identifier, name and price, stamped with the time of
    /// creation.
    pub open spec fn listings_logged(self) -> bool {
        &&& additions(self.transactions).len() == self.properties.len()
        &&& forall|i: int|
            0 <= i < self.properties.len() ==> {
                let entry = additions(self.transactions)[i];
                let property = #[trigger] self.properties[i];
                describes(entry, property) && entry.timestamp == property.created_at
            }
    }

    /// Every log entry carries the identifier, name and price of a property
    /// of the store.
    pub open spec fn entries_described(self) -> bool {
        forall|k: int|
            0 <= k < self.transactions.len() ==> described_among(
                #[trigger] self.transactions[k],
                self.properties,
            )
    }

    /// The owner of every property is the actor of the latest log entry
    /// about it.
    pub open spec fn owners_logged(self) -> bool {
        forall|i: int|
            0 <= i < self.properties.len() ==> latest_actor(
                self.transactions,
                (#[trigger] self.properties[i]).id,
            ) == Some(self.properties[i].owner)
    }

    /// The condition that every state of a store meets.
    pub open spec fn valid(self) -> bool {
        &&& self.ids_allocated()
        &&& self.ids_ascend()
        &&& self.none_leased()
        &&& self.labels_known()
        &&& self.listings_logged()
        &&& self.entries_described()
        &&& self.owners_logged()
    }

    /// Whether `i` is the first position that holds a property with
    /// identifier `id`.
    pub open spec fn is_position(self, id: nat, i: int) -> bool {
        &&& 0 <= i < self.properties.len()
        &&& self.properties[i].id == id
        &&& forall|j: int| 0 <= j < i ==> (#[trigger] self.properties[j]).id != id
    }

    /// The first position that holds a property with identifier `id`, if
    /// there is one.
    pub open spec fn position(self, id: nat) -> Option<int> {
        if exists|i: int| self.is_position(id, i) {
            Some(choose|i: int| self.is_position(id, i))
        } else {
            None
        }
    }

    /// The state after one identifier was taken from the counter.
    pub open spec fn allocated(self) -> StoreState {
        StoreState { next_id: self.next_id + 1, ..self }
    }

    /// The state after `caller` listed a property: the property is appended
    /// under the counter's identifier, unleased and owned by `caller`, the
    /// log gains the matching listing entry, and the counter moves on.
    pub open spec fn listed(
        self,
        caller: Principal,
        timestamp: u64,
        name: Seq<char>,
        price: u64,
    ) -> StoreState {
        StoreState {
            properties: self.properties.push(
                PropertyView {
                    id: self.next_id,
                    name,
                    owner: caller,
                    price,
                    is_leased: false,
                    created_at: timestamp,
                },
            ),
            transactions: self.transactions.push(
                TransactionView {
                    property_id: self.next_id,
                    property_name: name,
                    price,
                    action: added_label(),
                    actor: caller,
                    timestamp,
                },
            ),
            inquiries: self.inquiries,
            next_id: self.next_id + 1,
        }
    }

    /// What a purchase of `id` by `caller` comes to: the position of the
    /// property that changes hands, or the reason for the refusal.
    pub open spec fn verdict(self, caller: Principal, id: nat) -> Result<int, BuyError> {
        match self.position(id) {
            None => Err(BuyError::NotFound),
            Some(i) => if self.properties[i].owner == caller {
                Err(BuyError::AlreadyOwner)
            } else {
                Ok(i)
            },
        }
    }

    /// The state after the property at position `i` went to `buyer`: only
    /// its owner changes, and the log gains the matching purchase entry.
    pub open spec fn transferred(self, i: int, buyer: Principal, timestamp: u64) -> StoreState {
        let property = self.properties[i];
        StoreState {
            properties: self.properties.update(i, PropertyView { owner: buyer, ..property }),
            transactions: self.transactions.push(
                TransactionView {
                    property_id: property.id,
                    property_name: property.name,
                    price: property.price,
                    action: bought_label(),
                    actor: buyer,
                    timestamp,
                },
            ),
            inquiries: self.inquiries,
            next_id: self.next_id,
        }
    }

    /// The state after `caller` asked to buy `id`: the transfer where the
    /// verdict allows it, and the same state where it does not.
    pub open spec fn bought(self, caller: Principal, timestamp: u64, id: nat) -> StoreState {
        match self.verdict(caller, id) {
            Ok(i) => self.transferred(i, caller, timestamp),
            Err(_) => self,
        }
    }

    /// The state after `sender` sent a message about `property_id`: the
    /// inquiry is appended, whatever the identifier refers to.
    pub open spec fn inquired(
        self,
        sender: Principal,
        timestamp: u64,
        property_id: nat,
        message: Seq<char>,
    ) -> StoreState {
        StoreState {
            inquiries: self.inquiries.push(
                InquiryView { property_id, from: sender, message, timestamp },
            ),
            ..self
        }
    }
}

} // verus!
