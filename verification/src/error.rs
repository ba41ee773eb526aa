//! The error taxonomy of the store, split in two layers: the detailed
//! permit-verification failures, and the coarse errors that cross the call
//! boundary. The detailed failures are deliberately collapsed into a single
//! `PermitInvalid` at the boundary, so a caller probing the query gate cannot
//! learn which verification step rejected its permit.

use vstd::prelude::*;

verus! {

/// A permit verification failure, in the order the checks run: the deployment
/// instance is not among the permit's allowed instances, the permit has been
/// revoked, or its signature does not verify.
#[derive(Clone, Copy, Debug, PartialEq, Eq, Structural)]
pub enum PermitError {
    InstanceMismatch,
    Revoked,
    SignatureInvalid,
}

/// The failure outcomes reported at the call boundary.
///
/// `AlreadyInitialized` records this implementation's choice for the
/// otherwise-open double-initialization case: a second `instantiate` is
/// explicitly rejected and leaves the state unchanged.
#[derive(Clone, Copy, Debug, PartialEq, Eq, Structural)]
pub enum ContractError {
    /// An operation ran before `instantiate`.
    NotInitialized,
    /// A second `instantiate` on an initialized deployment.
    AlreadyInitialized,
    /// An owner check failed, on a write or on the privileged read.
    Forbidden,
    /// Permit verification failed, for any of the detailed reasons.
    PermitInvalid,
    /// A read of an empty record slot.
    NotFound,
}

/// Collapses a detailed permit failure into the uniform boundary error.
pub fn collapse_permit_error(e: PermitError) -> (r: ContractError)
    ensures
        r == ContractError::PermitInvalid,
{
    match e {
        PermitError::InstanceMismatch => ContractError::PermitInvalid,
        PermitError::Revoked => ContractError::PermitInvalid,
        PermitError::SignatureInvalid => ContractError::PermitInvalid,
    }
}

} // verus!
