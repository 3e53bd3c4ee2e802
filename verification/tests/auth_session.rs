//! Credential hashing, token issue/verify, and the middleware gates,
//! exercised with the real hashing and encryption underneath.

use josekit::jwk::alg::ec::EcCurve;
use josekit::jwk::KeyPair;
use nri_core::claims::UserId;
use nri_core::codec::{SessionKeys, SESSION_LIFETIME};
use nri_core::errors::{AppError, EScenarioStatus};
use nri_core::flows::{sign_in_email_core, UserForSignIn};
use nri_core::guard::timing_guard_delay_millis;
use nri_core::hasher::{hash_password, verify_password};
use nri_core::middleware::{
    optional_auth, required_auth, required_verified_auth, AuthDecision, OptionalAuthDecision,
};

fn test_keys() -> SessionKeys {
    let pair = josekit::jwe::ECDH_ES
        .generate_ec_key_pair(EcCurve::P256)
        .expect("EC key pair generation");
    SessionKeys::load(pair.to_pem_private_key(), pair.to_pem_public_key())
        .expect("generated PEM pair loads")
}

#[test]
fn password_hash_then_verify_succeeds() {
    let suffix = hash_password("correct horse battery staple").expect("hashing works");
    assert_eq!(suffix.chars().count(), 66);
    assert!(!suffix.starts_with("$argon2id$"));
    assert!(verify_password("correct horse battery staple", suffix).is_ok());
}

#[test]
fn password_verify_rejects_other_password() {
    let suffix = hash_password("first password").expect("hashing works");
    match verify_password("second password", suffix) {
        Err(AppError::Unauthorized(m)) => assert_eq!(m, "Wrong password"),
        other => panic!("expected an unauthorized outcome, got {:?}", other),
    }
}

#[test]
fn password_verify_flags_malformed_stored_hash() {
    match verify_password("whatever", "!!!".to_string()) {
        Err(AppError::SystemError(m)) => assert_eq!(m, "Stored credential is malformed"),
        other => panic!("expected a system error, got {:?}", other),
    }
}

#[test]
fn issue_then_verify_round_trips_subject_and_flag() {
    let keys = test_keys();
    let sub = UserId(0x00112233445566778899aabbccddeeffu128);
    let now: u64 = 1_700_000_000;
    for verified in [false, true] {
        let token = keys.issue(sub, verified, now).expect("issuing works");
        let claims = keys.verify(&token).expect("the fresh token verifies");
        assert_eq!(claims.sub, sub);
        assert_eq!(claims.verified, verified);
        assert_eq!(claims.exp, now + SESSION_LIFETIME);
    }
}

#[test]
fn verify_rejects_tampered_token() {
    let keys = test_keys();
    let token = keys
        .issue(UserId(7), true, 1_700_000_000)
        .expect("issuing works");
    // flip one ciphertext character (the last segment of the compact form)
    let mut tampered: Vec<char> = token.chars().collect();
    let last = tampered.len() - 1;
    tampered[last] = if tampered[last] == 'A' { 'B' } else { 'A' };
    let tampered: String = tampered.into_iter().collect();
    assert!(keys.verify(&tampered).is_none());
    assert!(keys.verify("not a token at all").is_none());
    assert!(keys.verify("").is_none());
}

#[test]
fn verify_rejects_token_of_another_key() {
    let keys_a = test_keys();
    let keys_b = test_keys();
    let token = keys_a
        .issue(UserId(7), true, 1_700_000_000)
        .expect("issuing works");
    assert!(keys_b.verify(&token).is_none());
    assert!(keys_a.verify(&token).is_some());
}

#[test]
fn expired_token_still_decrypts_but_gate_says_session_expired() {
    let keys = test_keys();
    let now: u64 = 1_700_000_000;
    let token = keys.issue(UserId(9), true, now).expect("issuing works");
    // decryption itself still succeeds after the expiry
    assert!(keys.verify(&token).is_some());
    let later = now + SESSION_LIFETIME + 1;
    match required_auth(&keys, Some(token.as_str()), Some(later)) {
        AuthDecision::Deny(AppError::SessionExpired) => {}
        other => panic!("expected a session-expired denial, got {:?}", decision_name(&other)),
    }
    // the wire status of that denial is its own code, distinct from 401
    assert_eq!(AppError::SessionExpired.status(), EScenarioStatus::SESSION_EXPIRED);
    assert_eq!(EScenarioStatus::SESSION_EXPIRED.status_code(), 419);
}

fn decision_name(d: &AuthDecision) -> &'static str {
    match d {
        AuthDecision::Proceed(_) => "proceed",
        AuthDecision::Deny(AppError::ScenarioError(_, _)) => "scenario error",
        AuthDecision::Deny(AppError::Unauthorized(_)) => "unauthorized",
        AuthDecision::Deny(AppError::SessionExpired) => "session expired",
        AuthDecision::Deny(AppError::SystemError(_)) => "system error",
    }
}

#[test]
fn required_gate_refuses_missing_and_garbage_cookies() {
    let keys = test_keys();
    let now: u64 = 1_700_000_000;
    match required_auth(&keys, None, Some(now)) {
        AuthDecision::Deny(AppError::Unauthorized(m)) => assert_eq!(m, "Authorization required"),
        other => panic!("expected unauthorized, got {:?}", decision_name(&other)),
    }
    match required_auth(&keys, Some("garbage"), Some(now)) {
        AuthDecision::Deny(AppError::Unauthorized(m)) => assert_eq!(m, "Wrong password"),
        other => panic!("expected unauthorized, got {:?}", decision_name(&other)),
    }
}

#[test]
fn optional_gate_scrubs_broken_cookie_where_required_gate_denies() {
    let keys = test_keys();
    let now: u64 = 1_700_000_000;
    // an undecodable cookie
    match optional_auth(&keys, Some("garbage"), Some(now)) {
        OptionalAuthDecision::Proceed { identity, scrub_cookie } => {
            assert!(identity.is_none());
            assert!(scrub_cookie);
        }
        OptionalAuthDecision::Deny(e) => panic!("unexpected denial: {:?}", e),
    }
    assert!(matches!(
        required_auth(&keys, Some("garbage"), Some(now)),
        AuthDecision::Deny(AppError::Unauthorized(_))
    ));
    // an expired cookie
    let token = keys.issue(UserId(5), true, now).expect("issuing works");
    let later = now + SESSION_LIFETIME + 10;
    match optional_auth(&keys, Some(token.as_str()), Some(later)) {
        OptionalAuthDecision::Proceed { identity, scrub_cookie } => {
            assert!(identity.is_none());
            assert!(scrub_cookie);
        }
        OptionalAuthDecision::Deny(e) => panic!("unexpected denial: {:?}", e),
    }
    assert!(matches!(
        required_auth(&keys, Some(token.as_str()), Some(later)),
        AuthDecision::Deny(AppError::SessionExpired)
    ));
    // no cookie at all: anonymous, nothing to scrub
    match optional_auth(&keys, None, Some(now)) {
        OptionalAuthDecision::Proceed { identity, scrub_cookie } => {
            assert!(identity.is_none());
            assert!(!scrub_cookie);
        }
        OptionalAuthDecision::Deny(e) => panic!("unexpected denial: {:?}", e),
    }
    // a live cookie
    match optional_auth(&keys, Some(token.as_str()), Some(now + 10)) {
        OptionalAuthDecision::Proceed { identity, scrub_cookie } => {
            assert_eq!(identity, Some(UserId(5)));
            assert!(!scrub_cookie);
        }
        OptionalAuthDecision::Deny(e) => panic!("unexpected denial: {:?}", e),
    }
}

#[test]
fn gates_treat_clock_failure_as_system_fault() {
    let keys = test_keys();
    let token = keys.issue(UserId(5), true, 1_700_000_000).expect("issuing works");
    assert!(matches!(
        required_auth(&keys, Some(token.as_str()), None),
        AuthDecision::Deny(AppError::SystemError(_))
    ));
    assert!(matches!(
        required_verified_auth(&keys, Some(token.as_str()), None),
        AuthDecision::Deny(AppError::SystemError(_))
    ));
    assert!(matches!(
        optional_auth(&keys, Some(token.as_str()), None),
        OptionalAuthDecision::Deny(AppError::SystemError(_))
    ));
}

#[test]
fn registration_then_verified_only_route_scenario() {
    let keys = test_keys();
    let now: u64 = 1_700_000_000;
    // register: validation passes and the password is stored hashed
    let reg = nri_core::dto::validate_registration(
        "player one".to_string(),
        "player@example.com".to_string(),
        "open sesame".to_string(),
        Some(3),
    )
    .expect("a well-formed registration passes");
    let stored = hash_password(&reg.password).expect("hashing works");
    let user_id = UserId(42);
    // sign in while the email is still unconfirmed
    let user = UserForSignIn { id: user_id, pw_hash: Some(stored.clone()), verified: false };
    let token = sign_in_email_core(&keys, Some(user), "open sesame", now)
        .expect("correct password signs in");
    // a verified-only route refuses that session with its own message
    match required_verified_auth(&keys, Some(token.as_str()), Some(now + 1)) {
        AuthDecision::Deny(AppError::Unauthorized(m)) => {
            assert_eq!(m, "Contact info not verified")
        }
        other => panic!("expected unauthorized, got {:?}", decision_name(&other)),
    }
    // the plain required gate lets the same session through
    assert!(matches!(
        required_auth(&keys, Some(token.as_str()), Some(now + 1)),
        AuthDecision::Proceed(id) if id == user_id
    ));
    // the confirmation code arrives and is accepted
    nri_core::flows::email_verification_outcome(Some((false, true)))
        .expect("a fresh confirmation succeeds");
    // signing in again now carries the verified flag, and the route opens
    let user = UserForSignIn { id: user_id, pw_hash: Some(stored), verified: true };
    let token = sign_in_email_core(&keys, Some(user), "open sesame", now)
        .expect("correct password signs in");
    assert!(matches!(
        required_verified_auth(&keys, Some(token.as_str()), Some(now + 1)),
        AuthDecision::Proceed(id) if id == user_id
    ));
}

#[test]
fn sign_in_core_refuses_unknown_user_and_passwordless_account() {
    let keys = test_keys();
    let now: u64 = 1_700_000_000;
    match sign_in_email_core(&keys, None, "anything", now) {
        Err(AppError::Unauthorized(m)) => assert_eq!(m, "Wrong password"),
        other => panic!("expected unauthorized, got {:?}", other),
    }
    let tg_only = UserForSignIn { id: UserId(1), pw_hash: None, verified: true };
    match sign_in_email_core(&keys, Some(tg_only), "anything", now) {
        Err(AppError::Unauthorized(m)) => assert_eq!(m, "Wrong password"),
        other => panic!("expected unauthorized, got {:?}", other),
    }
}

#[test]
fn keys_load_rejects_bad_pems() {
    assert!(SessionKeys::load(b"not a pem".to_vec(), b"not a pem".to_vec()).is_err());
    let pair = josekit::jwe::ECDH_ES
        .generate_ec_key_pair(EcCurve::P256)
        .expect("EC key pair generation");
    assert!(SessionKeys::load(pair.to_pem_private_key(), pair.to_pem_public_key()).is_ok());
}

#[test]
fn issue_refuses_overflowing_clock() {
    let keys = test_keys();
    assert!(keys.issue(UserId(1), true, u64::MAX - 100).is_err());
}

#[test]
fn timing_guard_stays_within_bounds() {
    for _ in 0..200 {
        let d = timing_guard_delay_millis();
        assert!((1..=50).contains(&d));
    }
}
