//! The session issuer and the authorization gate.
//!
//! `handle_login` validates a user's credentials, purges any earlier
//! session for that user, and issues a fresh signed token together with
//! a matching server-side record — at most one live session per user.
//!
//! `authorize` runs once per protected request: extract the bearer
//! credential, verify the token, check the role against the one the
//! route requires, cross-check the claims against the stored session
//! record, and check the expiry. Every failure is terminal for the
//! request, with its own typed rejection; on success the authenticated
//! subject is handed to the downstream handler.

use vstd::prelude::*;

use crate::auth::{
    Headers, SigningKey, TOKEN_TTL_SECONDS, auth_header_value, bearer_token, decoded_claims,
    hs512_token, jwt_from_headers, jwt_gen, jwt_verify,
};
use crate::models::{ClaimsView, JsonAuth, UserRole, lemma_role_str_parses, parse_role, role_str};
use crate::rejections::RejectError;
use crate::store::{CredentialStore, UserStore};

verus! {

/// The decision for a request whose token decoded to the
/// claims `c`, checked in order: role parses, role matches the route's
/// requirement, a session record exists for the subject, the record
/// equals the claims exactly (the revocation mechanism), and the expiry
/// is not in the past.
pub open spec fn gate_decision(
    r: Result<String, RejectError>,
    required: UserRole,
    store: Map<Seq<char>, ClaimsView>,
    c: ClaimsView,
    now: i64,
) -> bool {
    if parse_role(c.role) is None {
        r matches Err(RejectError::InvalidRole(bad)) && bad@ == c.role
    } else if parse_role(c.role) != Some(required) {
        r == Err::<String, RejectError>(RejectError::UnauthorizedAccess)
    } else if !store.contains_key(c.sub) {
        r == Err::<String, RejectError>(RejectError::NotFound)
    } else if store[c.sub] != c {
        r == Err::<String, RejectError>(RejectError::InvalidAuthToken)
    } else if c.exp < now {
        r == Err::<String, RejectError>(RejectError::AuthTokenExpired)
    } else {
        r matches Ok(sub) && sub@ == c.sub
    }
}

/// Authorize a request that presented `token` directly (the cookie-based
/// entry point hands the token over as a string).
pub fn authorize_token(
    required: UserRole,
    store: &CredentialStore,
    token: &String,
    key: &SigningKey,
    now: i64,
) -> (r: Result<String, RejectError>)
    requires
        store.wf(),
    ensures
        match decoded_claims(key@, token@) {
            None => r == Err::<String, RejectError>(RejectError::TokenVerificationError),
            Some(c) => gate_decision(r, required, store@, c, now),
        },
{
    let decoded = match jwt_verify(token, key) {
        Ok(c) => c,
        Err(e) => {
            return Err(e);
        },
    };
    let parsed = match UserRole::from_str(&decoded.role) {
        Ok(p) => p,
        Err(e) => {
            return Err(e);
        },
    };
    if parsed != required {
        return Err(RejectError::UnauthorizedAccess);
    }
    let stored = match store.get(&decoded.sub) {
        Ok(c) => c,
        Err(e) => {
            return Err(e);
        },
    };
    if !stored.equals(&decoded) {
        return Err(RejectError::InvalidAuthToken);
    }
    if decoded.is_expired(now) {
        return Err(RejectError::AuthTokenExpired);
    }
    Ok(decoded.sub)
}

/// Authorize a request from its headers: extract the bearer credential,
/// then check the token as `authorize_token` does. A missing header and
/// a malformed one are rejected before any cryptography runs.
pub fn authorize(
    required: UserRole,
    store: &CredentialStore,
    headers: &Headers,
    key: &SigningKey,
    now: i64,
) -> (r: Result<String, RejectError>)
    requires
        store.wf(),
    ensures
        match auth_header_value(headers@) {
            None => r == Err::<String, RejectError>(RejectError::AuthHeaderMissing),
            Some(v) => match bearer_token(v) {
                None => r == Err::<String, RejectError>(RejectError::InvalidAuthHeader),
                Some(t) => match decoded_claims(key@, t) {
                    None => r == Err::<String, RejectError>(RejectError::TokenVerificationError),
                    Some(c) => gate_decision(r, required, store@, c, now),
                },
            },
        },
{
    let token = match jwt_from_headers(headers) {
        Ok(t) => t,
        Err(e) => {
            return Err(e);
        },
    };
    authorize_token(required, store, &token, key, now)
}

/// Log a user in: resolve the username, compare the password, purge any
/// earlier session for that user, issue a fresh token and persist its
/// claims. Any failure aborts the whole flow with no new session; an
/// earlier session is removed only once a new one is about to replace it.
pub fn handle_login(
    auth: &JsonAuth,
    users: &UserStore,
    store: &mut CredentialStore,
    key: &SigningKey,
    now: i64,
) -> (r: Result<String, RejectError>)
    requires
        users.wf(),
        old(store).wf(),
    ensures
        final(store).wf(),
        !users@.contains_key(auth.username@) ==> r == Err::<String, RejectError>(
            RejectError::NotFound,
        ) && final(store)@ == old(store)@,
        users@.contains_key(auth.username@) && users@[auth.username@].pass != auth.pass@ ==> r
            == Err::<String, RejectError>(RejectError::InvalidPassword) && final(store)@ == old(
            store,
        )@,
        users@.contains_key(auth.username@) && users@[auth.username@].pass == auth.pass@ && now
            > i64::MAX - TOKEN_TTL_SECONDS ==> r == Err::<String, RejectError>(
            RejectError::InvalidTimestamp,
        ) && final(store)@ == old(store)@.remove(auth.username@),
        users@.contains_key(auth.username@) && users@[auth.username@].pass == auth.pass@ && now
            <= i64::MAX - TOKEN_TTL_SECONDS ==> (r matches Ok(token) && ({
            let role = users@[auth.username@].role;
            &&& token@ == hs512_token(
                key@,
                auth.username@,
                role_str(role),
                (now + TOKEN_TTL_SECONDS) as i64,
            )
            &&& final(store)@ == old(store)@.insert(
                auth.username@,
                (ClaimsView {
                    sub: auth.username@,
                    role: role_str(role),
                    exp: now + TOKEN_TTL_SECONDS,
                }),
            )
            &&& 0 <= now ==> decoded_claims(key@, token@) == Some(
                (ClaimsView {
                    sub: auth.username@,
                    role: role_str(role),
                    exp: now + TOKEN_TTL_SECONDS,
                }),
            )
        })),
{
    let user = match users.load_user(&auth.username) {
        Ok(u) => u,
        Err(e) => {
            return Err(e);
        },
    };
    if user.pass != auth.pass {
        return Err(RejectError::InvalidPassword);
    }
    let had_session = match store.get_if_exists(&user.username) {
        Some(_) => true,
        None => false,
    };
    if had_session {
        store.delete(&user.username);
    } else {
        proof {
            assert(store@.remove(auth.username@) =~= store@);
        }
    }
    let role = user.role;
    let (claim, token) = match jwt_gen(user.username, &role, key, now) {
        Ok(p) => p,
        Err(e) => {
            return Err(e);
        },
    };
    store.put(claim);
    proof {
        assert(old(store)@.remove(auth.username@).insert(
            auth.username@,
            (ClaimsView {
                sub: auth.username@,
                role: role_str(role),
                exp: now + TOKEN_TTL_SECONDS,
            }),
        ) =~= old(store)@.insert(
            auth.username@,
            (ClaimsView {
                sub: auth.username@,
                role: role_str(role),
                exp: now + TOKEN_TTL_SECONDS,
            }),
        ));
    }
    Ok(token)
}

/// Revocation: once a second login for the same user has replaced the
/// stored session record, a token from the earlier login is rejected as
/// invalid — it still carries a valid signature, but its claims no
/// longer match the store. The two logins must happen at different
/// times, so that the issued expiries differ.
pub fn relogin_revokes_earlier_token(
    auth: &JsonAuth,
    users: &UserStore,
    store: &mut CredentialStore,
    key: &SigningKey,
    now1: i64,
    now2: i64,
    now3: i64,
) -> (r: Option<Result<String, RejectError>>)
    requires
        users.wf(),
        old(store).wf(),
        users@.contains_key(auth.username@),
        users@[auth.username@].pass == auth.pass@,
        0 <= now1,
        now1 <= i64::MAX - TOKEN_TTL_SECONDS,
        0 <= now2,
        now2 <= i64::MAX - TOKEN_TTL_SECONDS,
        now1 != now2,
    ensures
        r matches Some(res) && res == Err::<String, RejectError>(RejectError::InvalidAuthToken),
{
    let token1 = match handle_login(auth, users, store, key, now1) {
        Ok(t) => t,
        Err(_) => {
            return None;
        },
    };
    match handle_login(auth, users, store, key, now2) {
        Ok(_) => (),
        Err(_) => {
            return None;
        },
    };
    let user = match users.load_user(&auth.username) {
        Ok(u) => u,
        Err(_) => {
            return None;
        },
    };
    proof {
        lemma_role_str_parses(user.role);
    }
    Some(authorize_token(user.role, store, &token1, key, now3))
}

} // verus!
