use notor::auth::{
    JWT_EXP_MIN, SigningKey, TOKEN_TTL_SECONDS, issued_token_round_trips, jwt_gen, jwt_verify,
};
use notor::gate::authorize_token;
use notor::models::UserRole;
use notor::rejections::RejectError;
use notor::store::CredentialStore;

fn test_key() -> SigningKey {
    SigningKey::new(b"0123456789abcdef0123456789abcdef".to_vec())
}

#[test]
fn ttl_is_two_minutes() {
    assert_eq!(JWT_EXP_MIN, 2);
    assert_eq!(TOKEN_TTL_SECONDS, 120);
}

#[test]
fn issue_sets_expiry_to_now_plus_ttl() {
    let key = test_key();
    let (claims, _token) = jwt_gen("carol".to_string(), &UserRole::Admin, &key, 1000)
        .expect("issuance should succeed");
    assert_eq!(claims.sub, "carol");
    assert_eq!(claims.role, "admin");
    assert_eq!(claims.exp, 1120);
}

#[test]
fn issue_overflow_is_invalid_timestamp() {
    let key = test_key();
    let res = jwt_gen("carol".to_string(), &UserRole::User, &key, i64::MAX - 1);
    assert!(matches!(res, Err(RejectError::InvalidTimestamp)));
}

#[test]
fn verify_returns_issued_claims() {
    let key = test_key();
    let now: i64 = 1_700_000_000;
    let (claims, token) = jwt_gen("carol".to_string(), &UserRole::User, &key, now)
        .expect("issuance should succeed");
    let verified = jwt_verify(&token, &key).expect("a fresh token verifies");
    assert_eq!(verified.sub, claims.sub);
    assert_eq!(verified.role, claims.role);
    assert_eq!(verified.exp, claims.exp);
}

#[test]
fn round_trip_helper_agrees() {
    let key = test_key();
    let res = issued_token_round_trips("dave".to_string(), &UserRole::User, &key, 500);
    let (issued, verified) = res.expect("the round trip always closes");
    assert_eq!(issued.sub, verified.sub);
    assert_eq!(issued.role, verified.role);
    assert_eq!(issued.exp, verified.exp);
    assert_eq!(issued.exp, 620);
}

#[test]
fn token_has_three_segments() {
    let key = test_key();
    let (_claims, token) = jwt_gen("carol".to_string(), &UserRole::User, &key, 1000)
        .expect("issuance should succeed");
    assert_eq!(token.split('.').count(), 3);
}

#[test]
fn flipping_any_signature_byte_breaks_verification() {
    let key = test_key();
    let (_claims, token) = jwt_gen("carol".to_string(), &UserRole::User, &key, 1000)
        .expect("issuance should succeed");
    let sig_start = token.rfind('.').expect("a token has a signature segment") + 1;
    let bytes = token.as_bytes();
    for i in sig_start..bytes.len() {
        let mut tampered = bytes.to_vec();
        tampered[i] = if tampered[i] == b'A' { b'B' } else { b'A' };
        let tampered = String::from_utf8(tampered).expect("still ascii");
        if tampered == token {
            continue;
        }
        let res = jwt_verify(&tampered, &key);
        assert!(
            matches!(res, Err(RejectError::TokenVerificationError)),
            "tampered signature byte {} must not verify",
            i
        );
    }
}

#[test]
fn negative_expiry_token_fails_verification() {
    // the decoder parses `exp` as an unsigned integer, so a token whose
    // expiry lies before the epoch never verifies ...
    let key = test_key();
    let (claims, token) = jwt_gen("carol".to_string(), &UserRole::User, &key, -1000)
        .expect("issuance itself succeeds");
    assert_eq!(claims.exp, -880);
    let res = jwt_verify(&token, &key);
    assert!(matches!(res, Err(RejectError::TokenVerificationError)));

    // ... while an expiry of exactly zero still does
    let (claims, token) = jwt_gen("carol".to_string(), &UserRole::User, &key, -120)
        .expect("issuance succeeds");
    assert_eq!(claims.exp, 0);
    let verified = jwt_verify(&token, &key).expect("a zero expiry is representable");
    assert_eq!(verified.exp, 0);
}

#[test]
fn garbage_token_rejected() {
    let key = test_key();
    let res = jwt_verify(&"not-a-token".to_string(), &key);
    assert!(matches!(res, Err(RejectError::TokenVerificationError)));
}

#[test]
fn wrong_algorithm_rejected() {
    let key_bytes = b"0123456789abcdef0123456789abcdef".to_vec();
    let key = SigningKey::new(key_bytes.clone());

    let mut payload = serde_json::Map::new();
    payload.insert("sub".to_string(), serde_json::Value::String("carol".to_string()));
    payload.insert("role".to_string(), serde_json::Value::String("user".to_string()));
    payload.insert(
        "exp".to_string(),
        serde_json::Value::Number(serde_json::Number::from(2_000_000_000_i64)),
    );
    let header = jsonwebtoken::Header::new(jsonwebtoken::Algorithm::HS256);
    let token = jsonwebtoken::encode(
        &header,
        &serde_json::Value::Object(payload),
        &jsonwebtoken::EncodingKey::from_secret(&key_bytes),
    )
    .expect("signing succeeds");

    let res = jwt_verify(&token, &key);
    assert!(matches!(res, Err(RejectError::TokenVerificationError)));
}

#[test]
fn unknown_role_string_in_token_is_invalid_role() {
    let key_bytes = b"0123456789abcdef0123456789abcdef".to_vec();
    let key = SigningKey::new(key_bytes.clone());
    let store = CredentialStore::new();

    let mut payload = serde_json::Map::new();
    payload.insert("sub".to_string(), serde_json::Value::String("carol".to_string()));
    payload.insert("role".to_string(), serde_json::Value::String("root".to_string()));
    payload.insert(
        "exp".to_string(),
        serde_json::Value::Number(serde_json::Number::from(2_000_000_000_i64)),
    );
    let header = jsonwebtoken::Header::new(jsonwebtoken::Algorithm::HS512);
    let token = jsonwebtoken::encode(
        &header,
        &serde_json::Value::Object(payload),
        &jsonwebtoken::EncodingKey::from_secret(&key_bytes),
    )
    .expect("signing succeeds");

    let res = authorize_token(UserRole::User, &store, &token, &key, 1000);
    match res {
        Err(RejectError::InvalidRole(bad)) => assert_eq!(bad, "root"),
        other => panic!("expected InvalidRole, got {:?}", other),
    }
}
