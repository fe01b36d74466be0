//! A record-keeping store for property listings, ownership transfers and
//! buyer inquiries, with every operation proved against a mathematical model
//! of the store.
//!
//! - [`store`]: the store and its operations;
//! - [`records`]: the records it keeps, and their views;
//! - [`error`]: why a purchase can be refused;
//! - [`identity`]: the identity of a caller;
//! - [`model`]: the states and the steps that the contracts speak of;
//! - [`validity`]: the proofs that every step keeps a state valid;
//! - [`laws`] and [`history`]: what follows for single calls and for
//!   sequences of calls.

pub mod error;
pub mod history;
pub mod identity;
pub mod laws;
pub mod model;
pub mod records;
pub mod store;
pub mod validity;

pub use error::BuyError;
pub use records::{Inquiry, Property, Transaction};
pub use store::{
    add_property, buy_property, can_allocate, get_inquiries, get_properties, get_transactions,
    next_id, purchase, send_inquiry, ListingStore,
};
