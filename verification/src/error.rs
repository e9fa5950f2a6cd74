//! The error taxonomy. Every error aborts the whole invocation; the host
//! applies no state change for a failed call, and the handlers themselves
//! leave the store untouched on every error path.

use vstd::prelude::*;

verus! {

/// Why an invocation was rejected.
#[derive(Clone, Copy, Debug, PartialEq, Eq, Structural)]
pub enum ContractError {
    /// The attached funds are not exactly one coin of the accepted
    /// denomination and the required deposit amount.
    InvalidDeposit {},
    /// The callback came from an identity other than the configured
    /// randomness provider, or echoed an original requester other than this
    /// system's own address.
    Unauthorized {},
    /// No game record exists for the requested identifier.
    NotFound {},
    /// The opaque callback payload did not decode to a game identifier and
    /// an original sender.
    DeserializationError {},
    /// The delivered entropy held fewer than the three bytes a resolution
    /// needs; a defensive bound check, not an expected path.
    InsufficientEntropy {},
}

} // verus!
