//! Failures of the record operations.

use vstd::prelude::*;

verus! {

/// Why a record operation failed.
#[derive(Clone, Copy, Debug, PartialEq, Eq, Structural)]
pub enum Error {
    /// No record exists for the requested key.
    NotFound,
    /// A record exists but lacks the requested attribute.
    AttributeError,
}

impl Error {
    /// A short description of the failure.
    pub fn message(&self) -> (r: &'static str)
        ensures
            match self {
                Error::NotFound => r@ == "Item not found"@,
                Error::AttributeError => r@
                    == "Some item(s) were found but there was an error retrieving attributes"@,
            },
    {
        match self {
            Error::NotFound => "Item not found",
            Error::AttributeError => "Some item(s) were found but there was an error retrieving attributes",
        }
    }
}

} // verus!
