//! The three kinds of record that the store keeps, each with its view: the
//! mathematical value that contracts speak of.

use vstd::prelude::*;
use candid::Principal;

verus! {

/// A listed property with its single current owner.
#[derive(Debug)]
pub struct Property {
    pub id: u64,
    pub name: String,
    pub owner: Principal,
    pub price: u64,
    /// Reserved for leasing; `false` on every property the store creates.
    pub is_leased: bool,
    /// Nanoseconds since the epoch, as the host clock gave them.
    pub created_at: u64,
}

/// An entry of the audit log: what happened to a property, by whom and when.
#[derive(Debug)]
pub struct Transaction {
    pub property_id: u64,
    pub property_name: String,
    pub price: u64,
    /// `"added"` or `"bought"`.
    pub action: String,
    pub actor: Principal,
    pub timestamp: u64,
}

/// A message from a prospective buyer about a property.
#[derive(Debug)]
pub struct Inquiry {
    pub property_id: u64,
    pub from: Principal,
    pub message: String,
    pub timestamp: u64,
}

/// What a [`Property`] is, with its text as a sequence of characters.
pub struct PropertyView {
    pub id: nat,
    pub name: Seq<char>,
    pub owner: Principal,
    pub price: u64,
    pub is_leased: bool,
    pub created_at: u64,
}

/// What a [`Transaction`] is.
pub struct TransactionView {
    pub property_id: nat,
    pub property_name: Seq<char>,
    pub price: u64,
    pub action: Seq<char>,
    pub actor: Principal,
    pub timestamp: u64,
}

/// What an [`Inquiry`] is.
pub struct InquiryView {
    pub property_id: nat,
    pub from: Principal,
    pub message: Seq<char>,
    pub timestamp: u64,
}

impl View for Property {
    type V = PropertyView;

    open spec fn view(&self) -> PropertyView {
        PropertyView {
            id: self.id as nat,
            name: self.name@,
            owner: self.owner,
            price: self.price,
            is_leased: self.is_leased,
            created_at: self.created_at,
        }
    }
}

impl View for Transaction {
    type V = TransactionView;

    open spec fn view(&self) -> TransactionView {
        TransactionView {
            property_id: self.property_id as nat,
            property_name: self.property_name@,
            price: self.price,
            action: self.action@,
            actor: self.actor,
            timestamp: self.timestamp,
        }
    }
}

impl View for Inquiry {
    type V = InquiryView;

    open spec fn view(&self) -> InquiryView {
        InquiryView {
            property_id: self.property_id as nat,
            from: self.from,
            message: self.message@,
            timestamp: self.timestamp,
        }
    }
}

impl Clone for Property {
    fn clone(&self) -> (copy: Self)
        ensures
            copy == *self,
    {
        Property {
            id: self.id,
            name: self.name.clone(),
            owner: self.owner,
            price: self.price,
            is_leased: self.is_leased,
            created_at: self.created_at,
        }
    }
}

impl Clone for Transaction {
    fn clone(&self) -> (copy: Self)
        ensures
            copy == *self,
    {
        Transaction {
            property_id: self.property_id,
            property_name: self.property_name.clone(),
            price: self.price,
            action: self.action.clone(),
            actor: self.actor,
            timestamp: self.timestamp,
        }
    }
}

impl Clone for Inquiry {
    fn clone(&self) -> (copy: Self)
        ensures
            copy == *self,
    {
        Inquiry {
            property_id: self.property_id,
            from: self.from,
            message: self.message.clone(),
            timestamp: self.timestamp,
        }
    }
}

/// The views of a sequence of properties, in order.
pub open spec fn property_views(records: Seq<Property>) -> Seq<PropertyView> {
    records.map_values(|p: Property| p@)
}

/// The views of a sequence of transactions, in order.
pub open spec fn transaction_views(records: Seq<Transaction>) -> Seq<TransactionView> {
    records.map_values(|t: Transaction| t@)
}

/// The views of a sequence of inquiries, in order.
pub open spec fn inquiry_views(records: Seq<Inquiry>) -> Seq<InquiryView> {
    records.map_values(|q: Inquiry| q@)
}

} // verus!
