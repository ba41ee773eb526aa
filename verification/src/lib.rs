//! An owner-gated invoice store with permit-based read authorization.
//!
//! The crate models the persistent state of one deployment explicitly (see
//! [`state::Storage`]) and verifies the full authorization state machine:
//! ownership is fixed at initialization, every mutation re-checks the sender
//! against the stored owner, and the privileged query is gated by a signed,
//! revocable permit bound to a deployment instance. The cryptographic
//! primitives behind permit verification are supplied by outside crates
//! through a small set of trusted wrappers in [`permit`].

pub mod contract;
pub mod error;
pub mod msg;
pub mod permit;
pub mod state;
