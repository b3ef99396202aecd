use pop_auth::{
    Holder, HolderChallengeRequest, HolderError, HolderRegisterRequest, HolderVerifyRequest,
    ToBase64, UserId, Verifier, VerifierChallengeResponse, VerifierError, VerifierVerifyResponse,
};

fn register(holder: &mut Holder, verifier: &mut Verifier) -> UserId {
    let request = holder.create_register_request();
    let response = verifier
        .recv_register_request(request)
        .expect("registration always succeeds");
    let user_id = response.user_id();
    holder
        .recv_register_response(response)
        .expect("storing the identifier always succeeds");
    user_id
}

#[test]
fn happy_path_reports_success() {
    let mut verifier = Verifier::new();
    let mut holder = Holder::new();
    register(&mut holder, &mut verifier);

    let challenge_request = holder.create_challenge_request().expect("registered");
    let challenge_response = verifier
        .recv_challenge_request(challenge_request)
        .expect("known identifier");
    let verify_request = holder
        .recv_challenge_response(challenge_response)
        .expect("registered");
    let verify_response = verifier
        .recv_verify_request(verify_request)
        .expect("outstanding nonce");
    assert!(verify_response.is_success());
    assert!(holder.recv_verify_response(verify_response).is_ok());
}

#[test]
fn replay_second_attempt_rejected() {
    let mut verifier = Verifier::new();
    let mut holder = Holder::new();
    let user_id = register(&mut holder, &mut verifier);

    let challenge_request = holder.create_challenge_request().expect("registered");
    let challenge_response = verifier
        .recv_challenge_request(challenge_request)
        .expect("known identifier");
    let verify_request = holder
        .recv_challenge_response(challenge_response)
        .expect("registered");
    let nonce = verify_request.nonce();
    let signature = *verify_request.signature();

    let first = verifier
        .recv_verify_request(verify_request)
        .expect("outstanding nonce");
    assert!(first.is_success());

    let replay = HolderVerifyRequest::new(user_id, nonce, signature);
    let second = verifier.recv_verify_request(replay);
    assert!(matches!(second, Err(VerifierError::UserNonceNoMatch)));
}

#[test]
fn expired_nonce_rejected() {
    let mut verifier = Verifier::new();
    let mut holder = Holder::new();
    let user_id = register(&mut holder, &mut verifier);

    let issued_at: u64 = 1_000;
    let nonce = [7u8; 32];
    verifier
        .challenge_at(HolderChallengeRequest::new(user_id), nonce, issued_at)
        .expect("known identifier");
    let verify_request = holder
        .recv_challenge_response(VerifierChallengeResponse::new(nonce))
        .expect("registered");

    // One second past the end of the validity window: rejected although the
    // nonce was never used, and consumed all the same.
    let too_late = issued_at + 300 + 1;
    let rejected = verifier.verify_at(verify_request, too_late);
    assert!(matches!(rejected, Err(VerifierError::UserNonceNoMatch)));

    let again = HolderVerifyRequest::new(
        user_id,
        nonce,
        *holder
            .recv_challenge_response(VerifierChallengeResponse::new(nonce))
            .expect("registered")
            .signature(),
    );
    let still_rejected = verifier.verify_at(again, issued_at);
    assert!(matches!(still_rejected, Err(VerifierError::UserNonceNoMatch)));
}

#[test]
fn nonce_accepted_at_window_end() {
    let mut verifier = Verifier::new();
    let mut holder = Holder::new();
    let user_id = register(&mut holder, &mut verifier);

    let issued_at: u64 = 1_000;
    let nonce = [8u8; 32];
    verifier
        .challenge_at(HolderChallengeRequest::new(user_id), nonce, issued_at)
        .expect("known identifier");
    let verify_request = holder
        .recv_challenge_response(VerifierChallengeResponse::new(nonce))
        .expect("registered");

    // The last second of the validity window is still acceptable.
    let last_moment = issued_at + 300;
    let accepted = verifier
        .verify_at(verify_request, last_moment)
        .expect("still fresh");
    assert!(accepted.is_success());
}

#[test]
fn wrong_key_rejected_as_failure_not_error() {
    let mut verifier = Verifier::new();
    let mut holder = Holder::new();
    let mut other_holder = Holder::new();
    let user_id = register(&mut holder, &mut verifier);
    register(&mut other_holder, &mut verifier);

    let challenge_request = holder.create_challenge_request().expect("registered");
    let challenge_response = verifier
        .recv_challenge_request(challenge_request)
        .expect("known identifier");
    let nonce = *challenge_response.nonce();

    // The other holder signs the same nonce with its own private key.
    let forged = other_holder
        .recv_challenge_response(VerifierChallengeResponse::new(nonce))
        .expect("registered");
    let forged_request = HolderVerifyRequest::new(user_id, nonce, *forged.signature());

    let response = verifier
        .recv_verify_request(forged_request)
        .expect("a failed check is an ordinary response");
    assert!(!response.is_success());
}

#[test]
fn unknown_identifier_rejected() {
    let mut verifier = Verifier::new();
    let mut holder = Holder::new();
    register(&mut holder, &mut verifier);

    let stranger = UserId::new_random();
    let challenge = verifier.recv_challenge_request(HolderChallengeRequest::new(stranger));
    assert!(matches!(challenge, Err(VerifierError::UserNotFound)));

    let verify = verifier.recv_verify_request(HolderVerifyRequest::new(
        stranger,
        [0u8; 32],
        [0u8; 64],
    ));
    assert!(matches!(verify, Err(VerifierError::UserNotFound)));
}

#[test]
fn concurrent_challenges_stay_independent() {
    let mut verifier = Verifier::new();
    let mut holder = Holder::new();
    register(&mut holder, &mut verifier);

    let challenge_request = holder.create_challenge_request().expect("registered");
    let first_response = verifier
        .recv_challenge_request(challenge_request)
        .expect("known identifier");
    let second_response = verifier
        .recv_challenge_request(challenge_request)
        .expect("known identifier");

    let first_nonce = *first_response.nonce();
    let second_nonce = *second_response.nonce();
    assert_ne!(first_nonce, second_nonce);

    let first_request = holder
        .recv_challenge_response(first_response)
        .expect("registered");
    let second_request = holder
        .recv_challenge_response(second_response)
        .expect("registered");

    // Consuming the first nonce leaves the second fully valid.
    let first_verdict = verifier
        .recv_verify_request(first_request)
        .expect("outstanding nonce");
    assert!(first_verdict.is_success());
    let second_verdict = verifier
        .recv_verify_request(second_request)
        .expect("still outstanding");
    assert!(second_verdict.is_success());
}

#[test]
fn holder_requires_registration() {
    let holder = Holder::new();
    assert!(matches!(
        holder.create_challenge_request(),
        Err(HolderError::RegistrationIncomplete)
    ));
    assert!(matches!(
        holder.recv_challenge_response(VerifierChallengeResponse::new([1u8; 32])),
        Err(HolderError::RegistrationIncomplete)
    ));
}

#[test]
fn holder_judges_verify_response() {
    let holder = Holder::new();
    assert!(holder
        .recv_verify_response(VerifierVerifyResponse::new(true))
        .is_ok());
    assert!(matches!(
        holder.recv_verify_response(VerifierVerifyResponse::new(false)),
        Err(HolderError::VerificationFailed)
    ));
}

#[test]
fn message_carriers_round_trip() {
    let register_request = HolderRegisterRequest::new([5u8; 32]);
    assert_eq!(*register_request.public_key(), [5u8; 32]);

    let user_id = UserId::new_random();
    let challenge_request = HolderChallengeRequest::new(user_id);
    assert_eq!(challenge_request.user_id(), user_id);

    let challenge_response = VerifierChallengeResponse::new([9u8; 32]);
    assert_eq!(*challenge_response.nonce(), [9u8; 32]);

    let verify_request = HolderVerifyRequest::new(user_id, [9u8; 32], [3u8; 64]);
    assert_eq!(verify_request.user_id(), user_id);
    assert_eq!(verify_request.nonce(), [9u8; 32]);
    assert_eq!(*verify_request.signature(), [3u8; 64]);

    assert!(VerifierVerifyResponse::new(true).is_success());
    assert!(!VerifierVerifyResponse::new(false).is_success());
}

#[test]
fn user_ids_are_distinct() {
    let a = UserId::new_random();
    let b = UserId::new_random();
    assert_ne!(a, b);
}

#[test]
fn base64_of_known_bytes() {
    let zero_nonce: [u8; 32] = [0u8; 32];
    let mut expected_zero = "A".repeat(43);
    expected_zero.push('=');
    assert_eq!(zero_nonce.to_base64(), expected_zero);

    let full_nonce: [u8; 32] = [255u8; 32];
    let mut expected_full = "/".repeat(42);
    expected_full.push_str("8=");
    assert_eq!(full_nonce.to_base64(), expected_full);

    let zero_signature: [u8; 64] = [0u8; 64];
    let mut expected_signature = "A".repeat(86);
    expected_signature.push_str("==");
    assert_eq!(zero_signature.to_base64(), expected_signature);
}

#[test]
fn error_messages_match() {
    assert_eq!(
        HolderError::RegistrationIncomplete.message(),
        "Registration incomplete."
    );
    assert_eq!(HolderError::VerificationFailed.message(), "Verification failed.");
    assert_eq!(VerifierError::UserNotFound.message(), "User not found");
    assert_eq!(
        VerifierError::NonceGenerationFailed.message(),
        "Failed to generate nonce"
    );
    assert_eq!(
        VerifierError::UserNonceNoMatch.message(),
        "User has no matching nonce. It could have expired or been used already"
    );
}
