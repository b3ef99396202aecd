//! The protocol's data carriers and the values they are built from.
//!
//! Three request/response pairs cross the wire: register, challenge and
//! verify. All fields are fixed-length binary values; the types here carry
//! them without any behaviour of their own.

use vstd::prelude::*;

use base64::Engine;

verus! {

/// A single-use 32-byte random challenge value.
pub type Nonce = [u8; 32];

/// A 32-byte Ed25519 public key.
pub type PublicKey = [u8; 32];

/// A 64-byte Ed25519 signature over exactly a nonce's raw bytes.
pub type Signature = [u8; 64];

/// Relies on uuid's `Uuid::new_v4`: a freshly drawn version-4 UUID as a
/// 128-bit value. Six of its bits are the fixed version and variant, leaving
/// 122 bits of randomness; nothing can be promised of the value itself.
#[verifier::external_body]
fn random_u128() -> u128 {
    uuid::Uuid::new_v4().as_u128()
}

/// The opaque handle a verifier assigns to one registration: a random
/// version-4 UUID (122 random bits), unique with overwhelming probability,
/// used as the ledger key.
#[derive(Copy, Clone, Eq, PartialEq, Structural, Hash, Ord, PartialOrd, Debug)]
pub struct UserId {
    uuid: u128,
}

impl UserId {
    /// Draws a fresh random identifier. The value is random: no two calls are
    /// related, and nothing is promised of the result.
    pub fn new_random() -> Self {
        Self { uuid: random_u128() }
    }
}

// HolderRegisterRequest

/// Carries the holder's public key to the verifier.
pub struct HolderRegisterRequest {
    public_key: PublicKey,
}

impl HolderRegisterRequest {
    pub closed spec fn spec_public_key(&self) -> PublicKey {
        self.public_key
    }

    pub fn new(public_key: PublicKey) -> (r: Self)
        ensures
            r.spec_public_key() == public_key,
    {
        Self { public_key }
    }

    pub fn public_key(&self) -> (r: &PublicKey)
        ensures
            *r == self.spec_public_key(),
    {
        &self.public_key
    }
}

// VerifierRegisterResponse

/// Carries the freshly assigned identifier back to the holder.
pub struct VerifierRegisterResponse {
    user_id: UserId,
}

impl VerifierRegisterResponse {
    pub closed spec fn spec_user_id(&self) -> UserId {
        self.user_id
    }

    pub fn new(user_id: UserId) -> (r: Self)
        ensures
            r.spec_user_id() == user_id,
    {
        Self { user_id }
    }

    #[verifier::when_used_as_spec(spec_user_id)]
    pub fn user_id(&self) -> (r: UserId)
        ensures
            r == self.spec_user_id(),
    {
        self.user_id
    }
}

// HolderChallengeRequest

/// Asks the verifier for a fresh nonce for one registered identity.
#[derive(Copy, Clone)]
pub struct HolderChallengeRequest {
    user_id: UserId,
}

impl HolderChallengeRequest {
    pub closed spec fn spec_user_id(&self) -> UserId {
        self.user_id
    }

    pub fn new(user_id: UserId) -> (r: Self)
        ensures
            r.spec_user_id() == user_id,
    {
        Self { user_id }
    }

    #[verifier::when_used_as_spec(spec_user_id)]
    pub fn user_id(&self) -> (r: UserId)
        ensures
            r == self.spec_user_id(),
    {
        self.user_id
    }
}

// VerifierChallengeResponse

/// Carries a freshly issued nonce back to the holder.
pub struct VerifierChallengeResponse {
    nonce: Nonce,
}

impl VerifierChallengeResponse {
    pub closed spec fn spec_nonce(&self) -> Nonce {
        self.nonce
    }

    pub fn new(nonce: Nonce) -> (r: Self)
        ensures
            r.spec_nonce() == nonce,
    {
        Self { nonce }
    }

    pub fn nonce(&self) -> (r: &Nonce)
        ensures
            *r == self.spec_nonce(),
    {
        &self.nonce
    }
}

// HolderVerifyRequest

/// The holder's proof of possession: the identifier, the nonce it was
/// challenged with, and its signature over exactly that nonce's bytes.
pub struct HolderVerifyRequest {
    user_id: UserId,
    nonce: Nonce,
    signature: Signature,
}

impl HolderVerifyRequest {
    pub closed spec fn spec_user_id(&self) -> UserId {
        self.user_id
    }

    pub closed spec fn spec_nonce(&self) -> Nonce {
        self.nonce
    }

    pub closed spec fn spec_signature(&self) -> Signature {
        self.signature
    }

    pub fn new(user_id: UserId, nonce: Nonce, signature: Signature) -> (r: Self)
        ensures
            r.spec_user_id() == user_id,
            r.spec_nonce() == nonce,
            r.spec_signature() == signature,
    {
        Self { user_id, nonce, signature }
    }

    #[verifier::when_used_as_spec(spec_user_id)]
    pub fn user_id(&self) -> (r: UserId)
        ensures
            r == self.spec_user_id(),
    {
        self.user_id
    }

    #[verifier::when_used_as_spec(spec_nonce)]
    pub fn nonce(&self) -> (r: Nonce)
        ensures
            r == self.spec_nonce(),
    {
        self.nonce
    }

    pub fn signature(&self) -> (r: &Signature)
        ensures
            *r == self.spec_signature(),
    {
        &self.signature
    }
}

// VerifierVerifyResponse

/// The verifier's judgement of one proof attempt. `success == false` means
/// the signature did not check out under the registered key: a normal
/// protocol outcome, distinct from the structural errors.
pub struct VerifierVerifyResponse {
    success: bool,
}

impl VerifierVerifyResponse {
    pub closed spec fn spec_is_success(&self) -> bool {
        self.success
    }

    pub fn new(success: bool) -> (r: Self)
        ensures
            r.spec_is_success() == success,
    {
        Self { success }
    }

    #[verifier::when_used_as_spec(spec_is_success)]
    pub fn is_success(&self) -> (r: bool)
        ensures
            r == self.spec_is_success(),
    {
        self.success
    }
}

// ToBase64

/// What base64's standard padded engine makes of a byte string. The encoding
/// is a function of the input bytes alone; its exact text is not restated
/// here.
pub uninterp spec fn base64_of(bytes: Seq<u8>) -> Seq<char>;

/// Relies on base64's `Engine::encode` with the standard padded alphabet:
/// the output is a deterministic function of the input bytes, four output
/// characters for every three input bytes, padded.
#[verifier::external_body]
fn encode_base64(bytes: &[u8]) -> (r: String)
    ensures
        r@ == base64_of(bytes@),
        r@.len() == 4 * ((bytes@.len() + 2) / 3),
{
    base64::engine::general_purpose::STANDARD.encode(bytes)
}

/// A presentation helper: the standard padded base64 text of a value's bytes.
pub trait ToBase64 {
    /// The bytes the base64 text is computed over.
    spec fn bytes_view(&self) -> Seq<u8>;

    /// The standard padded base64 encoding of `bytes_view`.
    fn to_base64(&self) -> (r: String)
        ensures
            r@ == base64_of(self.bytes_view()),
            r@.len() == 4 * ((self.bytes_view().len() + 2) / 3),
    ;
}

impl ToBase64 for Nonce {
    open spec fn bytes_view(&self) -> Seq<u8> {
        self@
    }

    fn to_base64(&self) -> (r: String) {
        encode_base64(self.as_slice())
    }
}

impl ToBase64 for Signature {
    open spec fn bytes_view(&self) -> Seq<u8> {
        self@
    }

    fn to_base64(&self) -> (r: String) {
        encode_base64(self.as_slice())
    }
}

} // verus!
