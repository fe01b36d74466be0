//! Why a purchase can be refused, and the text that says so.

use vstd::prelude::*;

verus! {

/// Why a purchase was refused.
#[derive(Debug, Clone, Copy, PartialEq, Eq, Structural)]
pub enum BuyError {
    /// No property has the identifier asked for.
    NotFound,
    /// The caller is the property's current owner.
    AlreadyOwner,
}

impl BuyError {
    /// The text that describes the error to a caller.
    pub open spec fn text(self) -> Seq<char> {
        match self {
            BuyError::NotFound => "Property not found."@,
            BuyError::AlreadyOwner => "You already own this property."@,
        }
    }

    /// The text that describes the error to a caller.
    pub fn message(&self) -> (text: String)
        ensures
            text@ == self.text(),
    {
        match self {
            BuyError::NotFound => "Property not found.".to_string(),
            BuyError::AlreadyOwner => "You already own this property.".to_string(),
        }
    }
}

} // verus!
