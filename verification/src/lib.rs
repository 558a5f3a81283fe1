//! Identity and credential-issuance core of a multi-device, multi-persona
//! secure-messaging client.
//!
//! A single user owns one root signing identity that is fanned out across
//! devices, each with its own independent keypair. The core maintains the
//! identity graph (user, devices, personas, delivery addresses), bridges a
//! signing key into the capability shape required by the external MLS-style
//! credential and key-package issuance machinery, and assembles signed,
//! policy-bounded information packages for out-of-band trust bootstrap.
use vstd::prelude::*;

pub mod crypto;
pub mod signer;
pub mod persona;
pub mod device;
pub mod user;
pub mod package;

verus! {

/// Error taxonomy of the core. Every failure is a value returned to the
/// caller; no operation aborts the process.
#[derive(Debug, Clone, Copy, PartialEq, Eq, Structural)]
pub enum Error {
    /// The underlying signing or issuance primitive failed.
    SigningError,
    /// All 65 535 non-zero persona slots are occupied.
    PersonasFull,
    /// Removal of a persona slot that is not occupied.
    PersonaNotFound,
}

pub fn add(left: u64, right: u64) -> (sum: u64)
    requires
        left + right <= u64::MAX,
    ensures
        sum == left + right,
{
    left + right
}

} // verus!
