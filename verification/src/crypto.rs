//! Ed25519 signing and verification, and the secure random source.
//!
//! The cryptography itself is done by ring. A holder's key pair is carried as
//! the bytes of its PKCS#8 v2 document, so the key material stays a plain
//! value; the spec functions below name what ring computes from those bytes
//! without restating the algorithms.

use vstd::prelude::*;

use ring::rand::SecureRandom;
use ring::signature::KeyPair;

verus! {

/// Whether `bytes` is a PKCS#8 v2 document that ring's
/// `Ed25519KeyPair::from_pkcs8` accepts. Parsing is a function of the bytes
/// alone.
pub uninterp spec fn ed25519_doc_ok(bytes: Seq<u8>) -> bool;

/// The public key held in an accepted PKCS#8 document: what ring's
/// `Ed25519KeyPair::public_key` returns for the key pair parsed from `bytes`.
pub uninterp spec fn ed25519_public_of(bytes: Seq<u8>) -> Seq<u8>;

/// The Ed25519 signature over `msg` by the key pair parsed from `bytes`:
/// what ring's `Ed25519KeyPair::sign` returns. RFC 8032 signing is
/// deterministic, so this is a function of the document and message alone.
pub uninterp spec fn ed25519_sig_of(bytes: Seq<u8>, msg: Seq<u8>) -> Seq<u8>;

/// Whether `sig` is a valid Ed25519 signature over `msg` under the 32-byte
/// public key `pk`: what ring's `UnparsedPublicKey::verify` with `ED25519`
/// decides. Verification is a function of the three byte strings alone.
pub uninterp spec fn ed25519_verifies(pk: Seq<u8>, msg: Seq<u8>, sig: Seq<u8>) -> bool;

/// Relies on ring's `Ed25519KeyPair::generate_pkcs8`: it returns a PKCS#8 v2
/// document holding a fresh random key pair, which `from_pkcs8` accepts, and
/// an Ed25519 public key is 32 bytes. The key material is random, so nothing
/// more is promised of the bytes. A failure of the system random source is
/// fatal and aborts here, as the surrounding design requires.
#[verifier::external_body]
pub(crate) fn generate_signing_doc() -> (r: Vec<u8>)
    ensures
        ed25519_doc_ok(r@),
        ed25519_public_of(r@).len() == 32,
{
    let rng = ring::rand::SystemRandom::new();
    let doc = ring::signature::Ed25519KeyPair::generate_pkcs8(&rng)
        .expect("Failed to generate key pair");
    doc.as_ref().to_vec()
}

/// Relies on ring's `Ed25519KeyPair::{from_pkcs8, public_key}`: parsing an
/// accepted document cannot fail, and the returned public key is the
/// document's own 32-byte public half.
#[verifier::external_body]
pub(crate) fn public_key_of_doc(doc: &Vec<u8>) -> (r: [u8; 32])
    requires
        ed25519_doc_ok(doc@),
    ensures
        r@ == ed25519_public_of(doc@),
{
    let key_pair = ring::signature::Ed25519KeyPair::from_pkcs8(doc.as_slice())
        .expect("This should never fail, because the document was accepted before.");
    key_pair.public_key().as_ref().try_into()
        .expect("This should never fail, because ring::signature::PublicKey is always 32 bytes.")
}

/// Relies on ring's `Ed25519KeyPair::{from_pkcs8, sign}`: parsing an accepted
/// document cannot fail; RFC 8032 signing is deterministic and yields a
/// 64-byte signature that verifies under the document's own public key.
#[verifier::external_body]
pub(crate) fn sign_with_doc(doc: &Vec<u8>, msg: &[u8; 32]) -> (r: [u8; 64])
    requires
        ed25519_doc_ok(doc@),
    ensures
        r@ == ed25519_sig_of(doc@, msg@),
        ed25519_verifies(ed25519_public_of(doc@), msg@, r@),
{
    let key_pair = ring::signature::Ed25519KeyPair::from_pkcs8(doc.as_slice())
        .expect("This should never fail, because the document was accepted before.");
    key_pair.sign(msg).as_ref().try_into()
        .expect("This should never fail, because ring::signature::Signature is always 64 bytes.")
}

/// Relies on ring's `UnparsedPublicKey::verify` with the `ED25519` algorithm:
/// it decides, from the key, message and signature bytes alone, whether the
/// signature is valid.
#[verifier::external_body]
pub(crate) fn ed25519_verify(pk: &[u8; 32], msg: &[u8; 32], sig: &[u8; 64]) -> (r: bool)
    ensures
        r == ed25519_verifies(pk@, msg@, sig@),
{
    let public_key = ring::signature::UnparsedPublicKey::new(&ring::signature::ED25519, pk);
    public_key.verify(msg, sig).is_ok()
}

#[verifier::external_type_specification]
#[verifier::external_body]
pub struct ExSystemRandom(ring::rand::SystemRandom);

#[verifier::external_type_specification]
#[verifier::external_body]
pub struct ExUnspecified(ring::error::Unspecified);

/// Relies on ring's `SystemRandom::new`: it builds a handle to the system's
/// secure random source.
#[verifier::external_body]
pub(crate) fn new_system_random() -> ring::rand::SystemRandom {
    ring::rand::SystemRandom::new()
}

/// Relies on ring's `SecureRandom::fill` for `SystemRandom`: on success the
/// buffer is filled with fresh cryptographically secure random bytes, of
/// which nothing can be promised; on failure nothing usable was drawn.
#[verifier::external_body]
pub(crate) fn random_nonce(
    rng: &ring::rand::SystemRandom,
) -> Result<[u8; 32], ring::error::Unspecified> {
    let mut nonce = [0u8; 32];
    rng.fill(&mut nonce)?;
    Ok(nonce)
}

} // verus!
