//! A proof-of-possession challenge–response authentication protocol.
//!
//! A holder registers an Ed25519 public key with a verifier and receives an
//! opaque identifier. It later proves possession of the matching private key
//! by signing a server-issued one-time nonce: the verifier issues a fresh
//! random nonce on request, remembers when it was issued, and accepts a
//! verify request only if the nonce is still outstanding, unexpired, and the
//! signature over its bytes checks out under the registered public key.
//! Every nonce is consumed by its first verification attempt, so it can
//! never be replayed.

use vstd::prelude::*;

pub mod crypto;
pub mod errors;
pub mod holder;
pub mod messages;
pub mod user;
pub mod verifier_service;

pub use errors::{HolderError, VerifierError};
pub use holder::Holder;
pub use messages::{
    HolderChallengeRequest, HolderRegisterRequest, HolderVerifyRequest, Nonce, PublicKey,
    Signature, ToBase64, UserId, VerifierChallengeResponse, VerifierRegisterResponse,
    VerifierVerifyResponse,
};
pub use verifier_service::Verifier;

verus! {

/// How long an issued nonce stays valid, in seconds: a nonce issued at time
/// `t` may be consumed up to and including time `t + NONCE_EXPIRATION_SECS`.
pub const NONCE_EXPIRATION_SECS: u64 = 300;

} // verus!
