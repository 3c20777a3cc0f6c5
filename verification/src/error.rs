//! Failure cases of the registry operations.

use vstd::prelude::*;

verus! {

/// Why an operation was refused.
///
/// Every operation either completes and returns its event, or fails with
/// one of these and leaves all state unchanged.
#[derive(Debug, PartialEq, Eq, Structural, Clone, Copy)]
pub enum Error {
    /// The miner index counter is exhausted.
    Overflow,
    /// The power registry refused to register the new miner's claim.
    ClaimsNotSet,
    /// No miner record exists under the given identity.
    NoSuchMiner,
    /// The signer is not authorized for the operation.
    InvalidSigner,
    /// A confirmation was attempted with nothing pending.
    NoRequest,
    /// A confirmation was attempted before its effective time, or a
    /// request that would change nothing was made.
    IneffectiveRequest,
    /// No claim exists under the given identity.
    NoSuchClaim,
}

} // verus!
