//! Adapter from an Ed25519 keypair to the generic "sign arbitrary bytes with
//! a declared signature scheme" capability required by the external
//! credential and key-package issuer.
//!
//! The adapter borrows the key material, so one device keypair can back
//! several concurrent issuance calls; it exposes only the fallible signing
//! entry point, and its scheme identifier is a fixed constant for its whole
//! life.
use vstd::prelude::*;

use crate::Error;
use crate::crypto;
use crate::crypto::ED25519_SCHEME_ID;
use crate::crypto::ed25519_sig_of;

verus! {

/// Borrowing adapter around an Ed25519 secret seed.
pub struct SignerAdapter<'a> {
    secret_key: &'a Vec<u8>,
}

impl<'a> SignerAdapter<'a> {
    /// The secret seed this adapter signs with.
    pub closed spec fn secret_view(self) -> Seq<u8> {
        self.secret_key@
    }

    /// Adapt a borrowed secret seed without taking ownership of it.
    pub fn new(secret_key: &'a Vec<u8>) -> (adapter: SignerAdapter<'a>)
        ensures
            adapter.secret_view() == secret_key@,
    {
        SignerAdapter { secret_key }
    }

    /// Sign arbitrary bytes. This is the only sanctioned signing entry
    /// point: it never panics, with a 32-byte Ed25519 seed underneath it
    /// always succeeds, and the signature is the deterministic 64-byte
    /// Ed25519 signature of the payload under that seed.
    pub fn try_sign(&self, payload: &[u8]) -> (result: Result<Vec<u8>, Error>)
        ensures
            self.secret_view().len() == 32 ==> result is Ok,
            result matches Ok(sig) ==> sig@ == ed25519_sig_of(self.secret_view(), payload@)
                && sig@.len() == 64,
            result matches Err(e) ==> e == Error::SigningError,
    {
        crypto::ed25519_sign(self.secret_key, payload)
    }

    /// The signature scheme of this adapter: always Ed25519, fixed for the
    /// life of the adapter.
    pub fn signature_scheme(&self) -> (scheme: u16)
        ensures
            scheme == ED25519_SCHEME_ID,
    {
        ED25519_SCHEME_ID
    }
}

} // verus!
