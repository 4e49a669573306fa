use chronicle_auth::auth::{
    distinct_instants_distinct_tokens, expired_token_is_rejected, issued_token_verifies, sign,
    tampered_signature_never_verifies, verify, Claims, RECOGNIZED_SUBJECT, VALIDITY_SECONDS,
};
use chronicle_auth::error::{message_of, status_of, Error};
use chronicle_auth::gate::{auth_gate, extract_bearer};

const KEY: &str = "SECRET";
const NOW: i64 = 1_700_000_000;

#[test]
fn round_trip_returns_subject() {
    let token = sign(1, NOW, KEY);
    let claims = verify(&token, KEY, NOW).unwrap();
    assert_eq!(claims.sub, 1);
    assert_eq!(claims.iat, NOW);
    assert_eq!(claims.exp, NOW + VALIDITY_SECONDS);
}

#[test]
fn round_trip_holds_for_other_subjects() {
    let token = sign(42, NOW, KEY);
    let claims = verify(&token, KEY, NOW + VALIDITY_SECONDS - 1).unwrap();
    assert_eq!(claims.sub, 42);
}

#[test]
fn verify_at_expiry_instant_fails_expired() {
    let token = sign(1, NOW, KEY);
    let r = verify(&token, KEY, NOW + VALIDITY_SECONDS);
    assert_eq!(r, Err(Error::TokenExpired));
}

#[test]
fn verify_after_expiry_fails_expired() {
    let token = sign(1, NOW, KEY);
    let r = verify(&token, KEY, NOW + VALIDITY_SECONDS + 12345);
    assert_eq!(r, Err(Error::TokenExpired));
}

#[test]
fn tampered_signature_is_rejected() {
    let token = sign(1, NOW, KEY);
    let dot = token.rfind('.').unwrap();
    let mut bytes = token.into_bytes();
    let pos = dot + 6;
    bytes[pos] = if bytes[pos] == b'A' { b'B' } else { b'A' };
    let tampered = String::from_utf8(bytes).unwrap();
    let r = verify(&tampered, KEY, NOW);
    assert_eq!(r, Err(Error::TokenSignatureMismatch));
}

#[test]
fn every_tampered_signature_byte_is_rejected() {
    let token = sign(1, NOW, KEY);
    let dot = token.rfind('.').unwrap();
    for pos in dot + 1..token.len() {
        let mut bytes = token.clone().into_bytes();
        bytes[pos] = if bytes[pos] == b'A' { b'B' } else { b'A' };
        let tampered = String::from_utf8(bytes).unwrap();
        let r = verify(&tampered, KEY, NOW);
        assert!(r.is_err(), "tampering byte {} was accepted", pos);
    }
}

#[test]
fn replacing_each_signature_character_is_rejected() {
    let token = sign(1, NOW, KEY);
    let dot = token.rfind('.').unwrap();
    for pos in dot + 1..token.len() {
        let r = tampered_signature_never_verifies(1, NOW, NOW, KEY, pos);
        assert!(matches!(r, Some(Err(_))), "tampering position {} was accepted", pos);
    }
    assert!(tampered_signature_never_verifies(1, NOW, NOW, KEY, 0).is_none());
}

#[test]
fn round_trip_holds_for_negative_instants() {
    let token = sign(1, -200_000, KEY);
    let claims = verify(&token, KEY, -150_000).unwrap();
    assert_eq!(claims.sub, 1);
    assert_eq!(claims.iat, -200_000);
    assert_eq!(claims.exp, -200_000 + VALIDITY_SECONDS);
    assert_eq!(verify(&token, KEY, 0), Err(Error::TokenExpired));
}

#[test]
fn dot_written_into_signature_is_rejected() {
    let token = sign(1, NOW, KEY);
    let dot = token.rfind('.').unwrap();
    let mut bytes = token.clone().into_bytes();
    bytes[dot + 3] = b'.';
    let tampered = String::from_utf8(bytes).unwrap();
    assert!(verify(&tampered, KEY, NOW).is_err());
}

#[test]
fn truncated_signature_is_rejected() {
    let token = sign(1, NOW, KEY);
    let shortened = &token[..token.len() - 1];
    assert!(verify(shortened, KEY, NOW).is_err());
    let dot = token.rfind('.').unwrap();
    let emptied = &token[..dot + 1];
    assert!(verify(emptied, KEY, NOW).is_err());
}

#[test]
fn foreign_key_is_rejected() {
    let token = sign(1, NOW, "OTHER-KEY");
    let r = verify(&token, KEY, NOW);
    assert_eq!(r, Err(Error::TokenSignatureMismatch));
}

#[test]
fn garbage_token_is_malformed() {
    let r = verify("not-a-token", KEY, NOW);
    assert_eq!(r, Err(Error::TokenMalformed));
}

#[test]
fn gate_admits_recognized_subject() {
    let token = sign(RECOGNIZED_SUBJECT, NOW, KEY);
    let header = format!("Bearer {}", token);
    assert_eq!(auth_gate(Some(&header), KEY, NOW), Ok(()));
}

#[test]
fn gate_rejects_other_subject_even_with_valid_signature() {
    let token = sign(2, NOW, KEY);
    let header = format!("Bearer {}", token);
    assert_eq!(auth_gate(Some(&header), KEY, NOW), Err(Error::WrongCredentials));
}

#[test]
fn gate_rejects_missing_header() {
    assert_eq!(auth_gate(None, KEY, NOW), Err(Error::MissingAuthHeader));
}

#[test]
fn gate_rejects_non_bearer_scheme() {
    assert_eq!(
        auth_gate(Some("Basic QWxhZGRpbg=="), KEY, NOW),
        Err(Error::MissingAuthHeader)
    );
    let token = sign(RECOGNIZED_SUBJECT, NOW, KEY);
    let lowercase = format!("bearer {}", token);
    assert_eq!(auth_gate(Some(&lowercase), KEY, NOW), Err(Error::MissingAuthHeader));
}

#[test]
fn bearer_extraction() {
    assert_eq!(extract_bearer("Bearer abc.def.ghi"), Some("abc.def.ghi"));
    assert_eq!(extract_bearer("Bearer "), Some(""));
    assert_eq!(extract_bearer("Bearer"), None);
    assert_eq!(extract_bearer("bearer abc"), None);
    assert_eq!(extract_bearer("Basic abc"), None);
    assert_eq!(extract_bearer(""), None);
}

#[test]
fn gate_rejects_expired_token() {
    let token = sign(RECOGNIZED_SUBJECT, NOW, KEY);
    let header = format!("Bearer {}", token);
    assert_eq!(
        auth_gate(Some(&header), KEY, NOW + VALIDITY_SECONDS),
        Err(Error::TokenExpired)
    );
}

#[test]
fn gate_rejects_tampered_token() {
    let token = sign(RECOGNIZED_SUBJECT, NOW, KEY);
    let header = format!("Bearer {}x", token);
    assert!(auth_gate(Some(&header), KEY, NOW).is_err());
}

#[test]
fn issuance_at_distinct_instants_differs() {
    let token1 = sign(1, NOW, KEY);
    let token2 = sign(1, NOW + 1, KEY);
    assert_ne!(token1, token2);
    let (t1, t2) = distinct_instants_distinct_tokens(1, NOW, NOW + 7, KEY);
    assert_ne!(t1, t2);
}

#[test]
fn law_functions_run() {
    let claims: Claims = issued_token_verifies(1, NOW, NOW + 100, KEY);
    assert_eq!(claims.sub, 1);
    let r = expired_token_is_rejected(1, NOW, NOW + VALIDITY_SECONDS, KEY);
    assert_eq!(r, Err(Error::TokenExpired));
}

#[test]
fn claims_new_builds_window() {
    let claims = Claims::new(5, NOW);
    assert_eq!(claims.sub, 5);
    assert_eq!(claims.iat, NOW);
    assert_eq!(claims.exp, NOW + 86400);
}

#[test]
fn status_mapping() {
    assert_eq!(status_of(&Error::WrongCredentials), 401);
    assert_eq!(status_of(&Error::TokenExpired), 500);
    assert_eq!(status_of(&Error::SignatureInvalid), 500);
    assert_eq!(status_of(&Error::TokenMalformed), 500);
    assert_eq!(status_of(&Error::TokenSignatureMismatch), 500);
    assert_eq!(status_of(&Error::MissingAuthHeader), 500);
}

#[test]
fn error_messages() {
    assert_eq!(message_of(&Error::WrongCredentials), "wrong credentials");
    assert_eq!(message_of(&Error::TokenExpired), "token expired");
}
