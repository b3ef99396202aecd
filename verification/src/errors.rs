//! Error types for the two protocol parties.
//!
//! Structural failures (an unknown identifier, a missing or stale nonce, a
//! random-source fault) are reported through these enums; a signature that
//! fails the cryptographic check is a normal protocol outcome and is carried
//! as `success == false` in a response, never as an error.

use vstd::prelude::*;

verus! {

/// What can go wrong on the holder's side of the protocol.
#[derive(Clone, Copy, PartialEq, Eq, Structural, Debug)]
pub enum HolderError {
    /// An operation needed an identifier, but registration has not completed.
    RegistrationIncomplete,
    /// The verifier reported that the proof of possession was rejected.
    VerificationFailed,
}

impl HolderError {
    /// A human-readable description of the error.
    pub fn message(&self) -> (r: &'static str)
        ensures
            self is RegistrationIncomplete ==> r@ == "Registration incomplete."@,
            self is VerificationFailed ==> r@ == "Verification failed."@,
    {
        match self {
            HolderError::RegistrationIncomplete => "Registration incomplete.",
            HolderError::VerificationFailed => "Verification failed.",
        }
    }
}

/// What can go wrong on the verifier's side of the protocol.
#[derive(Clone, Copy, PartialEq, Eq, Structural, Debug)]
pub enum VerifierError {
    /// The identifier in a request was never assigned by this verifier.
    UserNotFound,
    /// The secure random source failed while drawing a nonce.
    NonceGenerationFailed,
    /// A nonce was structurally unacceptable.
    InvalidNonce,
    /// Signature verification could not be carried out.
    VerificationFailed,
    /// The presented nonce is not outstanding for this identity: it was never
    /// issued, has already been consumed, or has expired.
    UserNonceNoMatch,
}

impl VerifierError {
    /// A human-readable description of the error.
    pub fn message(&self) -> (r: &'static str)
        ensures
            self is UserNotFound ==> r@ == "User not found"@,
            self is NonceGenerationFailed ==> r@ == "Failed to generate nonce"@,
            self is InvalidNonce ==> r@ == "Invalid nonce"@,
            self is VerificationFailed ==> r@ == "Signature verification failed"@,
            self is UserNonceNoMatch ==> r@
                == "User has no matching nonce. It could have expired or been used already"@,
    {
        match self {
            VerifierError::UserNotFound => "User not found",
            VerifierError::NonceGenerationFailed => "Failed to generate nonce",
            VerifierError::InvalidNonce => "Invalid nonce",
            VerifierError::VerificationFailed => "Signature verification failed",
            VerifierError::UserNonceNoMatch => {
                "User has no matching nonce. It could have expired or been used already"
            },
        }
    }
}

} // verus!
