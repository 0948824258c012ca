//! The error taxonomy of the refresh pipeline.

use vstd::prelude::*;

verus! {

/// What can go wrong while refreshing the token inventory.
///
/// Every variant carries a human-readable detail string that ends up in the
/// published error state.
#[derive(Debug)]
pub enum Error {
    /// A page request failed or came back with a non-success status; the
    /// string holds the response body for diagnostics.
    Network(String),
    /// A response body could not be decoded into the expected records.
    Decode(String),
}

impl Error {
    /// The detail string carried by this error.
    pub fn message(&self) -> (r: &String)
        ensures
            r@ == self.spec_message(),
    {
        match self {
            Error::Network(s) => s,
            Error::Decode(s) => s,
        }
    }

    /// The detail string, at the specification level.
    pub open spec fn spec_message(&self) -> Seq<char> {
        match self {
            Error::Network(s) => s@,
            Error::Decode(s) => s@,
        }
    }
}

impl Clone for Error {
    /// An exact copy: the variant and its detail string are preserved.
    fn clone(&self) -> (r: Self)
        ensures
            r == *self,
    {
        match self {
            Error::Network(s) => Error::Network(s.clone()),
            Error::Decode(s) => Error::Decode(s.clone()),
        }
    }
}

} // verus!
