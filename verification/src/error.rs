use vstd::prelude::*;

verus! {

/// Why an operation on the record was turned down.
#[derive(Debug, Clone, Copy, PartialEq, Eq, Structural)]
pub enum ContractError {
    /// The record was read before it was ever created.
    NotFound,
    /// An owner-only write came from somebody other than the owner.
    Unauthorized,
}

} // verus!
