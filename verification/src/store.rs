//! The listing store and its operations.
//!
//! The store owns the three sequences and the identifier counter. The host
//! supplies the caller's identity and the time with every call, so each
//! operation takes them as arguments and is a function of its arguments and
//! the store alone.

use vstd::prelude::*;
use candid::Principal;
use crate::error::BuyError;
use crate::identity::same_principal;
use crate::model::{purchase_text, StoreState};
use crate::records::{
    inquiry_views, property_views, transaction_views, Inquiry, Property, Transaction,
};
use crate::validity::{
    lemma_allocated_valid, lemma_bought_valid, lemma_empty_valid, lemma_inquired_valid,
    lemma_listed_valid, lemma_position_absent, lemma_position_found,
};

verus! {

/// The listing store: properties, audit log, inquiries and the counter from
/// which identifiers are handed out.
pub struct ListingStore {
    properties: Vec<Property>,
    transactions: Vec<Transaction>,
    inquiries: Vec<Inquiry>,
    next_id: u64,
}

impl View for ListingStore {
    type V = StoreState;

    closed spec fn view(&self) -> StoreState {
        StoreState {
            properties: property_views(self.properties@),
            transactions: transaction_views(self.transactions@),
            inquiries: inquiry_views(self.inquiries@),
            next_id: self.next_id as nat,
        }
    }
}

impl ListingStore {
    /// Whether the store is in a valid state. A new store is, and every
    /// operation keeps it so.
    pub open spec fn wf(&self) -> bool {
        self@.valid()
    }

    /// A store with nothing recorded, whose first property will get the
    /// identifier 1.
    pub fn new() -> (store: ListingStore)
        ensures
            store@ == StoreState::empty(),
            store.wf(),
    {
        let store = ListingStore {
            properties: Vec::new(),
            transactions: Vec::new(),
            inquiries: Vec::new(),
            next_id: 1,
        };
        proof {
            assert(store@.properties =~= Seq::empty());
            assert(store@.transactions =~= Seq::empty());
            assert(store@.inquiries =~= Seq::empty());
            lemma_empty_valid();
        }
        store
    }
}

/// Whether the counter can still hand out an identifier.
pub fn can_allocate(store: &ListingStore) -> (spare: bool)
    ensures
        spare == (store@.next_id < u64::MAX),
{
    store.next_id < u64::MAX
}

/// Takes the next identifier from the counter.
pub fn next_id(store: &mut ListingStore) -> (id: u64)
    requires
        old(store).wf(),
        old(store)@.next_id < u64::MAX,
    ensures
        id == old(store)@.next_id,
        final(store)@ == old(store)@.allocated(),
        final(store).wf(),
{
    let id: u64 = store.next_id;
    store.next_id = id + 1;
    proof {
        lemma_allocated_valid(old(store)@);
    }
    id
}

/// A copy of all properties, in the order of their creation.
pub fn get_properties(store: &ListingStore) -> (snapshot: Vec<Property>)
    ensures
        property_views(snapshot@) == store@.properties,
{
    store.properties.clone()
}

/// A copy of the audit log, oldest entry first.
pub fn get_transactions(store: &ListingStore) -> (snapshot: Vec<Transaction>)
    ensures
        transaction_views(snapshot@) == store@.transactions,
{
    store.transactions.clone()
}

/// A copy of all inquiries, oldest first.
pub fn get_inquiries(store: &ListingStore) -> (snapshot: Vec<Inquiry>)
    ensures
        inquiry_views(snapshot@) == store@.inquiries,
{
    store.inquiries.clone()
}

/// Lists a new property for `caller`, under the next identifier, and logs
/// the listing. Any name and any price are accepted.
pub fn add_property(
    store: &mut ListingStore,
    caller: Principal,
    timestamp: u64,
    name: String,
    price: u64,
)
    requires
        old(store).wf(),
        old(store)@.next_id < u64::MAX,
    ensures
        final(store)@ == old(store)@.listed(caller, timestamp, name@, price),
        final(store).wf(),
{
    let id: u64 = next_id(store);
    let new_property = Property {
        id,
        name: name.clone(),
        owner: caller,
        price,
        is_leased: false,
        created_at: timestamp,
    };
    let entry = Transaction {
        property_id: id,
        property_name: name,
        price,
        action: "added".to_string(),
        actor: caller,
        timestamp,
    };
    store.properties.push(new_property);
    store.transactions.push(entry);
    proof {
        let after = old(store)@.listed(caller, timestamp, name@, price);
        assert(store@.properties =~= after.properties);
        assert(store@.transactions =~= after.transactions);
        lemma_listed_valid(old(store)@, caller, timestamp, name@, price);
    }
}

/// The first position in `properties` whose property has identifier `id`.
fn find_property(properties: &Vec<Property>, id: u64) -> (found: Option<usize>)
    ensures
        match found {
            Some(i) => {
                &&& i < properties.len()
                &&& properties[i as int].id == id
                &&& forall|j: int| 0 <= j < i ==> (#[trigger] properties[j]).id != id
            },
            None => forall|j: int|
                0 <= j < properties.len() ==> (#[trigger] properties[j]).id != id,
        },
{
    let mut i: usize = 0;
    while i < properties.len()
        invariant
            i <= properties.len(),
            forall|j: int| 0 <= j < i ==> (#[trigger] properties[j]).id != id,
        decreases properties.len() - i,
    {
        if properties[i].id == id {
            return Some(i);
        }
        i += 1;
    }
    None
}

/// Hands the property `id` to `caller` and logs the purchase, unless no
/// property has that identifier or `caller` owns it already: then the store
/// stays as it is and the error says which.
pub fn purchase(
    store: &mut ListingStore,
    caller: Principal,
    timestamp: u64,
    id: u64,
) -> (outcome: Result<(), BuyError>)
    requires
        old(store).wf(),
    ensures
        final(store)@ == old(store)@.bought(caller, timestamp, id as nat),
        final(store).wf(),
        outcome == (match old(store)@.verdict(caller, id as nat) {
            Ok(_) => Ok(()),
            Err(error) => Err(error),
        }),
{
    proof {
        lemma_bought_valid(old(store)@, caller, timestamp, id as nat);
    }
    match find_property(&store.properties, id) {
        None => {
            proof {
                lemma_position_absent(store@, id as nat);
            }
            Err(BuyError::NotFound)
        },
        Some(i) => {
            proof {
                lemma_position_found(store@, id as nat, i as int);
            }
            if same_principal(&store.properties[i].owner, &caller) {
                return Err(BuyError::AlreadyOwner);
            }
            store.properties[i].owner = caller;
            let entry = Transaction {
                property_id: store.properties[i].id,
                property_name: store.properties[i].name.clone(),
                price: store.properties[i].price,
                action: "bought".to_string(),
                actor: caller,
                timestamp,
            };
            store.transactions.push(entry);
            proof {
                let after = old(store)@.transferred(i as int, caller, timestamp);
                assert(store@.properties =~= after.properties);
                assert(store@.transactions =~= after.transactions);
            }
            Ok(())
        },
    }
}

/// Buys the property `id` for `caller` and answers in text: the success
/// message, or the text of the error.
pub fn buy_property(
    store: &mut ListingStore,
    caller: Principal,
    timestamp: u64,
    id: u64,
) -> (answer: Result<String, String>)
    requires
        old(store).wf(),
    ensures
        final(store)@ == old(store)@.bought(caller, timestamp, id as nat),
        final(store).wf(),
        match old(store)@.verdict(caller, id as nat) {
            Ok(_) => answer matches Ok(text) && text@ == purchase_text(),
            Err(error) => answer matches Err(text) && text@ == error.text(),
        },
{
    match purchase(store, caller, timestamp, id) {
        Ok(_) => Ok("Purchase successful!".to_string()),
        Err(error) => Err(error.message()),
    }
}

/// Records a message from `sender` about `property_id`. The identifier is
/// not looked up and the message may be empty.
pub fn send_inquiry(
    store: &mut ListingStore,
    sender: Principal,
    timestamp: u64,
    property_id: u64,
    message: String,
)
    requires
        old(store).wf(),
    ensures
        final(store)@ == old(store)@.inquired(sender, timestamp, property_id as nat, message@),
        final(store).wf(),
{
    let inquiry = Inquiry { property_id, from: sender, message, timestamp };
    store.inquiries.push(inquiry);
    proof {
        let after = old(store)@.inquired(sender, timestamp, property_id as nat, message@);
        assert(store@.inquiries =~= after.inquiries);
        lemma_inquired_valid(old(store)@, sender, timestamp, property_id as nat, message@);
    }
}

} // verus!
