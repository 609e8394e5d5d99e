//! Error kinds reported by the bounty-board transition logic.
//!
//! Every error is detected before any state is written, so a failing
//! operation leaves the store untouched.

use vstd::prelude::*;

verus! {

/// The reasons an operation can be rejected.
#[derive(Clone, Copy, Debug, PartialEq, Eq, Structural)]
pub enum BountyBoardError {
    /// The requested role name is absent from the board's catalog
    /// (governance-initiated registration only).
    InvalidRole,
    /// The board's catalog is empty, so no default role exists for
    /// self-service registration.
    NoDefaultRole,
    /// A record already exists at the derived address.
    DuplicateRecord,
    /// A required signer is missing.
    AuthorizationFailure,
    /// The paying signer cannot cover the allocation cost of the new
    /// records.
    InsufficientResources,
    /// No viable derived address exists for the given seeds.  This is
    /// statistically improbable; it is reported rather than retried.
    AddressUnresolvable,
}

} // verus!
