//! Token issuance and validation against the real signing crate.

use auth_core::config::Config;
use auth_core::jwt::{create_jwt, decode_jwt, issue, validate};
use auth_core::jwt::classify;
use auth_core::{AuthError, VerifyFailure};

fn test_config(secret: &str, ttl: u64) -> Config {
    Config {
        jwt_secret: secret.to_owned(),
        jwt_expiration: ttl,
        db_url: "mongodb://localhost:27017".to_owned(),
        db_name: "app".to_owned(),
    }
}

#[test]
fn issue_then_validate_recovers_claims() {
    let cfg = test_config("a process secret", 86400);
    let now: u64 = 1_700_000_000;
    let token = issue(&cfg, "u1", "USER", now).expect("issuance succeeds");
    let claims = validate(&cfg, &token, now).expect("validation succeeds");
    assert_eq!(claims.sub, "u1");
    assert_eq!(claims.role, "USER");
    assert_eq!(claims.exp, now + 86400);
    assert!(claims.exp > now);
}

#[test]
fn free_form_subjects_and_roles_round_trip() {
    let cfg = test_config("a process secret", 60);
    let now: u64 = 5_000;
    for (sub, role) in [
        ("", ""),
        ("user with spaces", "r\"quoted\""),
        ("snowman \u{2603}", "back\\slash"),
    ] {
        let token = issue(&cfg, sub, role, now).expect("issuance succeeds");
        let claims = validate(&cfg, &token, now).expect("validation succeeds");
        assert_eq!(claims.sub, sub);
        assert_eq!(claims.role, role);
    }
}

#[test]
fn one_day_token_expires_after_25_hours() {
    let cfg = test_config("a process secret", 86400);
    let issued_at: u64 = 1_700_000_000;
    let token = issue(&cfg, "u1", "USER", issued_at).expect("issuance succeeds");

    let claims = validate(&cfg, &token, issued_at).expect("fresh token validates");
    assert_eq!(claims.sub, "u1");
    assert_eq!(claims.role, "USER");

    let after_25_hours = issued_at + 25 * 3600;
    assert_eq!(validate(&cfg, &token, after_25_hours).unwrap_err(), AuthError::Expired);
}

#[test]
fn expiry_boundary_is_strict() {
    let cfg = test_config("a process secret", 100);
    let now: u64 = 10_000;
    let token = issue(&cfg, "u1", "USER", now).expect("issuance succeeds");
    let exp = now + 100;
    assert!(validate(&cfg, &token, exp - 1).is_ok());
    assert_eq!(validate(&cfg, &token, exp).unwrap_err(), AuthError::Expired);
    assert_eq!(validate(&cfg, &token, exp + 1).unwrap_err(), AuthError::Expired);
}

#[test]
fn different_secret_gives_signature_invalid() {
    let signer = test_config("the signing secret", 86400);
    let verifier = test_config("another secret", 86400);
    let now: u64 = 1_700_000_000;
    let token = issue(&signer, "u1", "USER", now).expect("issuance succeeds");
    assert_eq!(validate(&verifier, &token, now).unwrap_err(), AuthError::SignatureInvalid);
}

#[test]
fn truncated_or_non_token_strings_are_malformed() {
    let cfg = test_config("a process secret", 86400);
    let now: u64 = 1_700_000_000;
    let token = issue(&cfg, "u1", "USER", now).expect("issuance succeeds");

    // Cut the token down to its first segment: no longer token-shaped.
    let first_segment = token.split('.').next().unwrap();
    assert_eq!(validate(&cfg, first_segment, now).unwrap_err(), AuthError::Malformed);

    // Drop the signature segment entirely.
    let without_signature = &token[..token.rfind('.').unwrap()];
    assert_eq!(validate(&cfg, without_signature, now).unwrap_err(), AuthError::Malformed);

    for garbage in ["", "not a token", "a.b", "!!.!!.!!"] {
        assert_eq!(validate(&cfg, garbage, now).unwrap_err(), AuthError::Malformed);
    }
}

#[test]
fn tampered_signature_gives_signature_invalid() {
    let cfg = test_config("a process secret", 86400);
    let now: u64 = 1_700_000_000;
    let token = issue(&cfg, "u1", "USER", now).expect("issuance succeeds");

    let dot = token.rfind('.').unwrap();
    let (head, signature) = token.split_at(dot + 1);
    // Flip one character of the signature to a different one from the
    // base64url alphabet, keeping the segment well-formed.
    let first = signature.chars().next().unwrap();
    let replacement = if first == 'A' { 'B' } else { 'A' };
    let mut tampered = String::from(head);
    tampered.push(replacement);
    tampered.push_str(&signature[1..]);
    assert_ne!(tampered, token);
    assert_eq!(validate(&cfg, &tampered, now).unwrap_err(), AuthError::SignatureInvalid);
}

#[test]
fn tampered_payload_gives_signature_invalid() {
    let cfg = test_config("a process secret", 86400);
    let now: u64 = 1_700_000_000;
    let token = issue(&cfg, "u1", "USER", now).expect("issuance succeeds");

    let parts: Vec<&str> = token.split('.').collect();
    let payload = parts[1];
    let first = payload.chars().next().unwrap();
    let replacement = if first == 'A' { 'B' } else { 'A' };
    let mut flipped = String::from(replacement);
    flipped.push_str(&payload[1..]);
    let tampered = format!("{}.{}.{}", parts[0], flipped, parts[2]);
    assert_eq!(validate(&cfg, &tampered, now).unwrap_err(), AuthError::SignatureInvalid);
}

#[test]
fn clock_reading_issue_and_decode_round_trip() {
    let cfg = test_config("a process secret", 86400);
    let token = create_jwt(&cfg, "u7", "ADMIN").expect("issuance succeeds");
    let claims = decode_jwt(&cfg, &token).expect("fresh token validates");
    assert_eq!(claims.sub, "u7");
    assert_eq!(claims.role, "ADMIN");
}

#[test]
fn classification_is_exact_per_verdict() {
    let ok = classify(Ok(("u1".to_owned(), "USER".to_owned(), 100)), 99).unwrap();
    assert_eq!(ok.sub, "u1");
    assert_eq!(ok.role, "USER");
    assert_eq!(ok.exp, 100);
    assert_eq!(
        classify(Ok(("u1".to_owned(), "USER".to_owned(), 100)), 100).unwrap_err(),
        AuthError::Expired
    );
    assert_eq!(
        classify(Err(VerifyFailure::BadStructure), 0).unwrap_err(),
        AuthError::Malformed
    );
    assert_eq!(
        classify(Err(VerifyFailure::BadSignature), 0).unwrap_err(),
        AuthError::SignatureInvalid
    );
}

#[test]
fn unrepresentable_expiry_is_a_signing_failure() {
    let cfg = test_config("a process secret", 86400);
    assert!(issue(&cfg, "u1", "USER", u64::MAX).is_err());
}

#[test]
fn issuance_and_validation_are_deterministic() {
    let cfg = test_config("a process secret", 86400);
    let now: u64 = 1_700_000_000;
    let t1 = issue(&cfg, "u1", "USER", now).expect("issuance succeeds");
    let t2 = issue(&cfg, "u1", "USER", now).expect("issuance succeeds");
    assert_eq!(t1, t2);
    let c1 = validate(&cfg, &t1, now).expect("validation succeeds");
    let c2 = validate(&cfg, &t1, now).expect("validation succeeds");
    assert_eq!(c1.sub, c2.sub);
    assert_eq!(c1.role, c2.role);
    assert_eq!(c1.exp, c2.exp);
    // No revocation: still accepted at any later clock value before expiry.
    assert!(validate(&cfg, &t1, now + 86399).is_ok());
}
