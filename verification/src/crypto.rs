//! Trusted boundary around the cryptographic and issuance leaf dependencies.
//!
//! Everything the core needs from the outside crates — secure randomness,
//! Ed25519 keys and signatures, SHA-256, hex encoding, the clock, and the
//! MLS credential / key-package issuance calls — passes through the wrappers
//! in this module. Each wrapper's contract states only what the outside
//! crate's source or documentation shows.
use vstd::prelude::*;

use crate::Error;
use ed25519_dalek::SigningKey;
use ed25519_dalek::Signer;
use openmls::prelude::BasicCredential;
use openmls::prelude::Ciphersuite;
use openmls::prelude::CredentialWithKey;
use openmls::prelude::KeyPackage;
use openmls::prelude::KeyPackageBundle;
use openmls_basic_credential::SignatureKeyPair;
use openmls_rust_crypto::OpenMlsRustCrypto;
use openmls_traits::types::SignatureScheme;
use rand::RngCore;
use rand::rngs::OsRng;
use sha2::Digest;
use sha2::Sha256;

verus! {

/// The external protocol's binding of a public key to an identity claim.
#[verifier::external_type_specification]
#[verifier::external_body]
pub struct ExCredentialWithKey(CredentialWithKey);

/// A minted key package: public half uploadable, private half kept local.
#[verifier::external_type_specification]
#[verifier::external_body]
pub struct ExKeyPackageBundle(KeyPackageBundle);

/// The TLS signature-scheme identifier for Ed25519, the fixed scheme of this
/// core.
pub const ED25519_SCHEME_ID: u16 = 0x0807;

/// The 32-byte SHA-256 digest of a byte sequence, as a function of its input
/// alone.
pub uninterp spec fn sha256_of(data: Seq<u8>) -> Seq<u8>;

/// The 64-byte Ed25519 signature over a message under a 32-byte secret seed.
/// Ed25519 signing is deterministic: the signature is a function of the seed
/// and the message alone, on every machine.
pub uninterp spec fn ed25519_sig_of(secret: Seq<u8>, msg: Seq<u8>) -> Seq<u8>;

/// The lowercase hexadecimal digit for a value below 16.
pub open spec fn hex_digit(n: u8) -> char
    recommends
        n < 16,
{
    if n == 0 {
        '0'
    } else if n == 1 {
        '1'
    } else if n == 2 {
        '2'
    } else if n == 3 {
        '3'
    } else if n == 4 {
        '4'
    } else if n == 5 {
        '5'
    } else if n == 6 {
        '6'
    } else if n == 7 {
        '7'
    } else if n == 8 {
        '8'
    } else if n == 9 {
        '9'
    } else if n == 10 {
        'a'
    } else if n == 11 {
        'b'
    } else if n == 12 {
        'c'
    } else if n == 13 {
        'd'
    } else if n == 14 {
        'e'
    } else {
        'f'
    }
}

/// Lowercase hexadecimal encoding: two digits for each byte, in order.
pub open spec fn hex_of(data: Seq<u8>) -> Seq<char>
    decreases data.len(),
{
    if data.len() == 0 {
        Seq::empty()
    } else {
        seq![hex_digit(data[0] / 16), hex_digit(data[0] % 16)] + hex_of(data.skip(1))
    }
}

/// The hexadecimal encoding of a sequence has two characters per byte.
pub proof fn lemma_hex_of_len(data: Seq<u8>)
    ensures
        hex_of(data).len() == 2 * data.len(),
    decreases data.len(),
{
    if data.len() > 0 {
        lemma_hex_of_len(data.skip(1));
    }
}

/// Relies on rand's OsRng::fill_bytes: fills the buffer with operating-system
/// randomness. Nothing is promised of the bytes themselves.
#[verifier::external_body]
pub(crate) fn secure_random_bytes(len: usize) -> (bytes: Vec<u8>)
    ensures
        bytes@.len() == len,
{
    let mut bytes = vec![0u8; len];
    OsRng.fill_bytes(&mut bytes);
    bytes
}

/// Relies on ed25519_dalek's SigningKey::generate, to_bytes and
/// verifying_key: a fresh keypair from the secure random source, returned as
/// its 32-byte secret seed and its 32-byte public key. Nothing is promised
/// of the key material itself.
#[verifier::external_body]
pub(crate) fn generate_signing_key() -> (r: (Vec<u8>, Vec<u8>))
    ensures
        r.0@.len() == 32,
        r.1@.len() == 32,
{
    let key = SigningKey::generate(&mut OsRng);
    let secret = key.to_bytes().to_vec();
    let public = key.verifying_key().as_bytes().to_vec();
    (secret, public)
}

/// Relies on ed25519_dalek's SigningKey::from_bytes and Signer::try_sign:
/// for a 32-byte seed, try_sign's source returns Ok unconditionally, and the
/// 64-byte signature is Ed25519's deterministic function of the seed and the
/// message — `ed25519_sig_of`. A seed of any other length is rejected here.
#[verifier::external_body]
pub(crate) fn ed25519_sign(secret: &Vec<u8>, data: &[u8]) -> (r: Result<Vec<u8>, Error>)
    ensures
        secret@.len() == 32 ==> r is Ok,
        r matches Ok(sig) ==> sig@ == ed25519_sig_of(secret@, data@) && sig@.len() == 64,
        r matches Err(e) ==> e == Error::SigningError,
{
    let seed: [u8; 32] = match secret.as_slice().try_into() {
        Ok(seed) => seed,
        Err(_) => return Err(Error::SigningError),
    };
    match SigningKey::from_bytes(&seed).try_sign(data) {
        Ok(sig) => Ok(sig.to_bytes().to_vec()),
        Err(_) => Err(Error::SigningError),
    }
}

/// Relies on sha2's Sha256::digest: the 32-byte digest, a function of the
/// input bytes alone.
#[verifier::external_body]
pub(crate) fn sha256(data: &[u8]) -> (digest: Vec<u8>)
    ensures
        digest@ == sha256_of(data@),
        digest@.len() == 32,
{
    Sha256::digest(data).to_vec()
}

/// Relies on hex::encode: lowercase hexadecimal, two digits per byte.
#[verifier::external_body]
pub(crate) fn hex_encode(data: &[u8]) -> (encoded: String)
    ensures
        encoded@ == hex_of(data@),
{
    hex::encode(data)
}

/// Relies on time's UtcDateTime::now: the current Unix timestamp in seconds.
/// The clock is outside the model, so nothing is promised of the value.
#[verifier::external_body]
pub(crate) fn now_unix() -> u64 {
    time::UtcDateTime::now().unix_timestamp() as u64
}

/// Relies on openmls's BasicCredential::new and CredentialWithKey: binds the
/// given identity label and Ed25519 public key into the external protocol's
/// credential shape. The value is opaque to the core.
#[verifier::external_body]
pub(crate) fn make_credential_with_key(identity: &[u8], public_key: &[u8]) -> CredentialWithKey {
    CredentialWithKey {
        credential: BasicCredential::new(identity.to_vec()).into(),
        signature_key: public_key.to_vec().into(),
    }
}

/// Relies on openmls's KeyPackage::builder().build with the fixed ciphersuite
/// MLS_128_DHKEMX25519_CHACHA20POLY1305_SHA256_Ed25519. The builder demands
/// an implementation of openmls_traits' Signer, which this library cannot
/// provide itself, so the device's secret seed is handed to
/// openmls_basic_credential's SignatureKeyPair — the upstream OpenMLS signer
/// — and issuance signing happens inside this trusted call rather than
/// through the library's own adapter. Each call mints one independently
/// signed package with fresh ephemeral key material, so nothing is promised
/// of the value; a failure comes back as the library's signing error.
#[verifier::external_body]
pub(crate) fn build_key_package(
    secret: &Vec<u8>,
    public_key: &[u8],
    credential: CredentialWithKey,
) -> (r: Result<KeyPackageBundle, Error>)
    ensures
        r matches Err(e) ==> e == Error::SigningError,
{
    let signer = SignatureKeyPair::from_raw(
        SignatureScheme::ED25519,
        secret.clone(),
        public_key.to_vec(),
    );
    KeyPackage::builder()
        .build(
            Ciphersuite::MLS_128_DHKEMX25519_CHACHA20POLY1305_SHA256_Ed25519,
            &OpenMlsRustCrypto::default(),
            &signer,
            credential,
        )
        .map_err(|_| Error::SigningError)
}

/// Copy a byte vector, preserving its value.
pub fn clone_bytes(v: &Vec<u8>) -> (copy: Vec<u8>)
    ensures
        copy@ == v@,
{
    let copy = v.clone();
    proof {
        assert(copy@ =~= v@);
    }
    copy
}

/// Compare two byte sequences for equality.
pub fn bytes_eq(a: &[u8], b: &[u8]) -> (r: bool)
    ensures
        r == (a@ == b@),
{
    if a.len() != b.len() {
        assert(a@.len() != b@.len());
        return false;
    }
    let mut i: usize = 0;
    while i < a.len()
        invariant
            i <= a@.len(),
            a@.len() == b@.len(),
            forall|j: int| 0 <= j < i ==> a@[j] == b@[j],
        decreases a@.len() - i,
    {
        if a[i] != b[i] {
            return false;
        }
        i = i + 1;
    }
    proof {
        assert(a@ =~= b@);
    }
    true
}

} // verus!
