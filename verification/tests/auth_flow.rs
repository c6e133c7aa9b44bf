use notor::auth::{Headers, SigningKey, TOKEN_TTL_SECONDS, jwt_from_headers};
use notor::gate::{authorize, authorize_token, handle_login, relogin_revokes_earlier_token};
use notor::models::{JsonAuth, User, UserRole};
use notor::rejections::RejectError;
use notor::store::{CredentialStore, UserStore};

fn test_key() -> SigningKey {
    SigningKey::new(b"0123456789abcdef0123456789abcdef".to_vec())
}

fn alice() -> User {
    User {
        username: "alice".to_string(),
        email: "alice@example.com".to_string(),
        pass: "correct-pw".to_string(),
        role: UserRole::User,
    }
}

fn users_with_alice() -> UserStore {
    let mut users = UserStore::new();
    users.add_user(alice());
    users
}

fn auth(username: &str, pass: &str) -> JsonAuth {
    JsonAuth { username: username.to_string(), pass: pass.to_string() }
}

fn bearer_headers(token: &str) -> Headers {
    let mut headers = Headers::new();
    headers.add("authorization".to_string(), format!("Bearer {}", token));
    headers
}

#[test]
fn login_then_authorize_yields_subject() {
    let key = test_key();
    let users = users_with_alice();
    let mut store = CredentialStore::new();
    let now: i64 = 1_700_000_000;

    let token = handle_login(&auth("alice", "correct-pw"), &users, &mut store, &key, now)
        .expect("login should succeed");
    let subject = authorize(UserRole::User, &store, &bearer_headers(&token), &key, now + 1)
        .expect("authorization should succeed");
    assert_eq!(subject, "alice");
}

#[test]
fn bad_password_rejected_and_no_session_written() {
    let key = test_key();
    let users = users_with_alice();
    let mut store = CredentialStore::new();

    let res = handle_login(&auth("alice", "wrong-pw"), &users, &mut store, &key, 1000);
    assert!(matches!(res, Err(RejectError::InvalidPassword)));
    assert!(store.get_if_exists(&"alice".to_string()).is_none());
}

#[test]
fn bad_password_leaves_existing_session_untouched() {
    let key = test_key();
    let users = users_with_alice();
    let mut store = CredentialStore::new();

    let token = handle_login(&auth("alice", "correct-pw"), &users, &mut store, &key, 1000)
        .expect("login should succeed");
    let res = handle_login(&auth("alice", "wrong-pw"), &users, &mut store, &key, 2000);
    assert!(matches!(res, Err(RejectError::InvalidPassword)));
    // the first session still authorizes
    let subject = authorize_token(UserRole::User, &store, &token, &key, 1001)
        .expect("first session should still be valid");
    assert_eq!(subject, "alice");
}

#[test]
fn unknown_user_rejected() {
    let key = test_key();
    let users = users_with_alice();
    let mut store = CredentialStore::new();

    let res = handle_login(&auth("mallory", "whatever"), &users, &mut store, &key, 1000);
    assert!(matches!(res, Err(RejectError::NotFound)));
}

#[test]
fn missing_header_rejected() {
    let key = test_key();
    let store = CredentialStore::new();
    let headers = Headers::new();

    let res = authorize(UserRole::User, &store, &headers, &key, 1000);
    assert!(matches!(res, Err(RejectError::AuthHeaderMissing)));
}

#[test]
fn non_bearer_header_rejected() {
    let key = test_key();
    let store = CredentialStore::new();
    let mut headers = Headers::new();
    headers.add("authorization".to_string(), "Basic dXNlcjpwdw==".to_string());

    let res = authorize(UserRole::User, &store, &headers, &key, 1000);
    assert!(matches!(res, Err(RejectError::InvalidAuthHeader)));
}

#[test]
fn bearer_prefix_is_stripped() {
    let mut headers = Headers::new();
    headers.add("authorization".to_string(), "Bearer abc.def.ghi".to_string());
    let token = jwt_from_headers(&headers).expect("extraction should succeed");
    assert_eq!(token, "abc.def.ghi");
}

#[test]
fn expired_token_rejected() {
    let key = test_key();
    let users = users_with_alice();
    let mut store = CredentialStore::new();
    let t0: i64 = 1_700_000_000;

    let token = handle_login(&auth("alice", "correct-pw"), &users, &mut store, &key, t0)
        .expect("login should succeed");
    let res = authorize_token(
        UserRole::User,
        &store,
        &token,
        &key,
        t0 + TOKEN_TTL_SECONDS + 1,
    );
    assert!(matches!(res, Err(RejectError::AuthTokenExpired)));
}

#[test]
fn token_still_valid_at_exact_expiry() {
    let key = test_key();
    let users = users_with_alice();
    let mut store = CredentialStore::new();
    let t0: i64 = 1_700_000_000;

    let token = handle_login(&auth("alice", "correct-pw"), &users, &mut store, &key, t0)
        .expect("login should succeed");
    let subject = authorize_token(UserRole::User, &store, &token, &key, t0 + TOKEN_TTL_SECONDS)
        .expect("a token at its exact expiry second is still valid");
    assert_eq!(subject, "alice");
}

#[test]
fn user_role_rejected_where_admin_required() {
    let key = test_key();
    let users = users_with_alice();
    let mut store = CredentialStore::new();

    let token = handle_login(&auth("alice", "correct-pw"), &users, &mut store, &key, 1000)
        .expect("login should succeed");
    let res = authorize_token(UserRole::Admin, &store, &token, &key, 1001);
    assert!(matches!(res, Err(RejectError::UnauthorizedAccess)));
}

#[test]
fn second_login_revokes_first_token() {
    let key = test_key();
    let users = users_with_alice();
    let mut store = CredentialStore::new();

    let token1 = handle_login(&auth("alice", "correct-pw"), &users, &mut store, &key, 1000)
        .expect("first login should succeed");
    let token2 = handle_login(&auth("alice", "correct-pw"), &users, &mut store, &key, 2000)
        .expect("second login should succeed");

    let res1 = authorize_token(UserRole::User, &store, &token1, &key, 2001);
    assert!(matches!(res1, Err(RejectError::InvalidAuthToken)));
    let subject = authorize_token(UserRole::User, &store, &token2, &key, 2001)
        .expect("the latest session should authorize");
    assert_eq!(subject, "alice");
}

#[test]
fn revocation_law_on_concrete_values() {
    let key = test_key();
    let users = users_with_alice();
    let mut store = CredentialStore::new();

    let res = relogin_revokes_earlier_token(
        &auth("alice", "correct-pw"),
        &users,
        &mut store,
        &key,
        5000,
        6000,
        6001,
    );
    assert!(matches!(res, Some(Err(RejectError::InvalidAuthToken))));
}

#[test]
fn deleted_session_means_not_found() {
    let key = test_key();
    let users = users_with_alice();
    let mut store = CredentialStore::new();

    let token = handle_login(&auth("alice", "correct-pw"), &users, &mut store, &key, 1000)
        .expect("login should succeed");
    store.delete(&"alice".to_string());
    let res = authorize_token(UserRole::User, &store, &token, &key, 1001);
    assert!(matches!(res, Err(RejectError::NotFound)));
}

#[test]
fn wrong_key_rejects_token() {
    let key = test_key();
    let other_key = SigningKey::new(b"another-secret-another-secret-00".to_vec());
    let users = users_with_alice();
    let mut store = CredentialStore::new();

    let token = handle_login(&auth("alice", "correct-pw"), &users, &mut store, &key, 1000)
        .expect("login should succeed");
    let res = authorize_token(UserRole::User, &store, &token, &other_key, 1001);
    assert!(matches!(res, Err(RejectError::TokenVerificationError)));
}

#[test]
fn credential_store_basic_operations() {
    let mut store = CredentialStore::new();
    let sub = "bob".to_string();
    assert!(store.get_if_exists(&sub).is_none());
    assert!(matches!(store.get(&sub), Err(RejectError::NotFound)));

    store.put(notor::models::Claims {
        sub: "bob".to_string(),
        role: "user".to_string(),
        exp: 42,
    });
    let got = store.get(&sub).expect("record was just written");
    assert_eq!(got.sub, "bob");
    assert_eq!(got.role, "user");
    assert_eq!(got.exp, 42);

    store.delete(&sub);
    assert!(store.get_if_exists(&sub).is_none());
    // deleting again is not an error
    store.delete(&sub);
}

#[test]
fn user_store_lookup() {
    let users = users_with_alice();
    let u = users.load_user(&"alice".to_string()).expect("alice is registered");
    assert_eq!(u.username, "alice");
    assert_eq!(u.role, UserRole::User);
    assert!(matches!(
        users.load_user(&"nobody".to_string()),
        Err(RejectError::NotFound)
    ));
}
