use vstd::prelude::*;

verus! {

/// What can go wrong in the counter and store operations.
#[derive(Debug, Clone, PartialEq, Eq)]
pub enum Error {
    /// The requested id is absent from the store.
    NotFound,
    /// The underlying storage failed; carries a description of the cause.
    Store(String),
    /// Counter or encounter arithmetic would leave the representable range.
    Overflow,
}

} // verus!
