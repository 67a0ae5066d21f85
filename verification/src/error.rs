//! The ways in which generation can be refused.

use vstd::prelude::*;

verus! {

/// Why no instance, or no batch, was generated.
#[derive(Clone, Copy, Debug, PartialEq, Eq, Structural)]
pub enum GenError {
    /// A selection was required from a pool that the catalog leaves empty
    /// for the requested generation.
    CatalogExhausted,
    /// More instances were requested at once than the batch ceiling allows.
    BatchTooLarge,
}

impl GenError {
    /// The text that describes the error to a client.
    pub open spec fn spec_message(self) -> Seq<char> {
        match self {
            GenError::CatalogExhausted => "catalog has no entry for the requested generation"@,
            GenError::BatchTooLarge => "requested too many eggs to be generated"@,
        }
    }

    /// The text that describes the error to a client.
    pub fn message(&self) -> (text: String)
        ensures
            text@ == self.spec_message(),
    {
        match self {
            GenError::CatalogExhausted => "catalog has no entry for the requested generation".to_string(),
            GenError::BatchTooLarge => "requested too many eggs to be generated".to_string(),
        }
    }
}

} // verus!
