//! The holder: the private signing key and the protocol's client side.
//!
//! A holder owns an Ed25519 key pair, carried as its PKCS#8 v2 document, and
//! optionally the identifier a verifier assigned to it. The private key never
//! leaves the holder: only the public key and signatures cross the boundary.
//! The holder builds the three requests and consumes the three responses,
//! signing a challenge's nonce bytes with the private key.

use vstd::prelude::*;

use crate::crypto::{
    ed25519_public_of, ed25519_sig_of, ed25519_verifies, generate_signing_doc, public_key_of_doc,
    sign_with_doc,
};
use crate::errors::HolderError;
use crate::messages::{
    HolderChallengeRequest, HolderRegisterRequest, HolderVerifyRequest, UserId,
    VerifierChallengeResponse, VerifierRegisterResponse, VerifierVerifyResponse,
};

verus! {

/// The credential-holding client: a freshly generated Ed25519 key pair and,
/// once registered, the identifier the verifier assigned.
pub struct Holder {
    user_id: Option<UserId>,
    key_doc: Vec<u8>,
}

impl Holder {
    #[verifier::type_invariant]
    spec fn wf(self) -> bool {
        crate::crypto::ed25519_doc_ok(self.key_doc@) && ed25519_public_of(self.key_doc@).len()
            == 32
    }

    /// The identifier assigned at registration, if any yet.
    pub closed spec fn spec_user_id(&self) -> Option<UserId> {
        self.user_id
    }

    /// The public half of the holder's key pair.
    pub closed spec fn spec_public_key(&self) -> Seq<u8> {
        ed25519_public_of(self.key_doc@)
    }

    /// The holder's deterministic Ed25519 signature over `msg`.
    pub closed spec fn spec_sign(&self, msg: Seq<u8>) -> Seq<u8> {
        ed25519_sig_of(self.key_doc@, msg)
    }

    /// A holder with a freshly generated random key pair and no identifier.
    /// A failure of the system random source is fatal and aborts.
    pub fn new() -> (r: Self)
        ensures
            r.spec_user_id() is None,
    {
        let key_doc = generate_signing_doc();
        Self { user_id: None, key_doc }
    }

    /// Builds the registration request: it exposes only the public key.
    pub fn create_register_request(&self) -> (r: HolderRegisterRequest)
        ensures
            r.spec_public_key()@ == self.spec_public_key(),
    {
        proof {
            use_type_invariant(&*self);
        }
        let public_key = public_key_of_doc(&self.key_doc);
        HolderRegisterRequest::new(public_key)
    }

    /// Stores the identifier the verifier assigned, overwriting any prior
    /// one; the key pair is untouched.
    pub fn recv_register_response(&mut self, response: VerifierRegisterResponse) -> (r: Result<
        (),
        HolderError,
    >)
        ensures
            r is Ok,
            final(self).spec_user_id() == Some(response.spec_user_id()),
            final(self).spec_public_key() == old(self).spec_public_key(),
            forall|msg: Seq<u8>| final(self).spec_sign(msg) == old(self).spec_sign(msg),
    {
        proof {
            use_type_invariant(&*self);
        }
        let user_id = response.user_id();
        self.user_id = Some(user_id);
        Ok(())
    }

    /// Builds a challenge request carrying the assigned identifier; without
    /// one the holder is not registered and the request cannot be built.
    pub fn create_challenge_request(&self) -> (r: Result<HolderChallengeRequest, HolderError>)
        ensures
            (self.spec_user_id() is None) <==> r == Err::<HolderChallengeRequest, HolderError>(
                HolderError::RegistrationIncomplete,
            ),
            self.spec_user_id() matches Some(user_id) ==> r matches Ok(req) && req.spec_user_id()
                == user_id,
    {
        match self.user_id {
            Some(user_id) => Ok(HolderChallengeRequest::new(user_id)),
            None => Err(HolderError::RegistrationIncomplete),
        }
    }

    /// Answers a challenge: signs exactly the nonce's bytes with the private
    /// key and builds the verify request from the identifier, the nonce and
    /// that signature. The signature is the holder's deterministic Ed25519
    /// signature, and it verifies under the holder's public key.
    pub fn recv_challenge_response(&self, response: VerifierChallengeResponse) -> (r: Result<
        HolderVerifyRequest,
        HolderError,
    >)
        ensures
            (self.spec_user_id() is None) <==> r == Err::<HolderVerifyRequest, HolderError>(
                HolderError::RegistrationIncomplete,
            ),
            (self.spec_user_id() is Some) ==> r is Ok,
            r matches Ok(req) ==> {
                &&& Some(req.spec_user_id()) == self.spec_user_id()
                &&& req.spec_nonce() == response.spec_nonce()
                &&& req.spec_signature()@ == self.spec_sign(response.spec_nonce()@)
                &&& ed25519_verifies(
                    self.spec_public_key(),
                    response.spec_nonce()@,
                    req.spec_signature()@,
                )
            },
    {
        proof {
            use_type_invariant(&*self);
        }
        let nonce = *response.nonce();
        let user_id = match self.user_id {
            Some(user_id) => user_id,
            None => {
                return Err(HolderError::RegistrationIncomplete);
            },
        };
        let signature = sign_with_doc(&self.key_doc, &nonce);
        Ok(HolderVerifyRequest::new(user_id, nonce, signature))
    }

    /// Consumes the verifier's judgement: a reported success is fine, a
    /// reported failure becomes the holder-side error.
    pub fn recv_verify_response(&self, response: VerifierVerifyResponse) -> (r: Result<
        (),
        HolderError,
    >)
        ensures
            response.spec_is_success() <==> r is Ok,
            !response.spec_is_success() ==> r == Err::<(), HolderError>(
                HolderError::VerificationFailed,
            ),
    {
        if response.is_success() {
            Ok(())
        } else {
            Err(HolderError::VerificationFailed)
        }
    }
}

} // verus!
