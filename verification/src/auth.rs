//! The token codec: issuing and verifying signed claims, and extracting
//! the bearer credential from request headers.
//!
//! Tokens are compact signed tokens (three base64url segments) carrying
//! the payload `{"sub", "role", "exp"}`, signed with HMAC-SHA-512 under a
//! symmetric key. The key is injected configuration, not a compiled-in
//! constant. Signature verification is separate from expiry checking:
//! the codec rejects forged or malformed tokens outright, while "stale
//! but well-formed" is left to the authorization gate so it can surface
//! a distinct, recoverable error.

use vstd::prelude::*;

use crate::models::{Claims, ClaimsView, UserRole, role_str};
use crate::rejections::RejectError;

verus! {

/// The cookie that carries the session token in the HTML-facing routes.
pub const BEARER_COOKIE: &'static str = "Bearer";

/// A signed token on the wire.
pub type Token = String;

/// Token lifetime from issuance, in minutes.
pub const JWT_EXP_MIN: i64 = 2;

/// Token lifetime from issuance, in seconds.
pub const TOKEN_TTL_SECONDS: i64 = JWT_EXP_MIN * 60;

/// The symmetric signing secret, injected at construction so it can be
/// rotated or sourced from a secret store without code change.
pub struct SigningKey {
    bytes: Vec<u8>,
}

impl View for SigningKey {
    type V = Seq<u8>;

    closed spec fn view(&self) -> Seq<u8> {
        self.bytes@
    }
}

impl SigningKey {
    pub fn new(bytes: Vec<u8>) -> (r: SigningKey)
        ensures
            r@ == bytes@,
    {
        SigningKey { bytes }
    }
}

/// The compact HMAC-SHA-512 token that signing the payload
/// `{sub, role, exp}` under `key` produces. Signing is deterministic:
/// the same key and claims always give the same token.
pub uninterp spec fn hs512_token(key: Seq<u8>, sub: Seq<char>, role: Seq<char>, exp: i64) -> Seq<char>;

/// What decoding a token under `key` yields: the three claims if the
/// token's signature, structure and algorithm all check out, `None`
/// otherwise. Decoding validates the signature only, never the clock,
/// so the outcome is a function of the key and the token alone.
pub uninterp spec fn decoded_claims(key: Seq<u8>, token: Seq<char>) -> Option<ClaimsView>;

/// Relies on `jsonwebtoken::encode` with algorithm HS512 and a plain
/// secret key. For an HMAC key the crate's signing path is infallible
/// and deterministic, and `jsonwebtoken::decode` under the same key
/// accepts the produced token and hands back the same three claims —
/// provided `exp` is nonnegative, since the decoder's claim validation
/// parses `exp` as an unsigned integer and rejects the token otherwise.
#[verifier::external_body]
fn jwt_encode(key: &SigningKey, sub: &String, role: &String, exp: i64) -> (r: Result<
    String,
    RejectError,
>)
    ensures
        r is Ok,
        r matches Ok(t) ==> t@ == hs512_token(key@, sub@, role@, exp),
        r matches Ok(t) ==> 0 <= exp ==> decoded_claims(key@, t@) == Some(
            ClaimsView { sub: sub@, role: role@, exp: exp as int },
        ),
{
    let mut payload = serde_json::Map::new();
    payload.insert("sub".to_string(), serde_json::Value::String(sub.clone()));
    payload.insert("role".to_string(), serde_json::Value::String(role.clone()));
    payload.insert("exp".to_string(), serde_json::Value::Number(serde_json::Number::from(exp)));
    let header = jsonwebtoken::Header::new(jsonwebtoken::Algorithm::HS512);
    let enc_key = jsonwebtoken::EncodingKey::from_secret(key.bytes.as_slice());
    jsonwebtoken::encode(&header, &serde_json::Value::Object(payload), &enc_key)
        .map_err(|_| RejectError::TokenCreationError)
}

/// Relies on `jsonwebtoken::decode` with algorithm HS512, with claim
/// validation restricted to signature, structure and algorithm checks
/// (`validate_exp` switched off): its outcome is a function of the key
/// and the token alone, named `decoded_claims`. The decoder requires an
/// `exp` claim that parses as an unsigned integer, so a success always
/// carries a nonnegative expiry.
#[verifier::external_body]
fn jwt_decode(key: &SigningKey, token: &String) -> (r: Result<Claims, RejectError>)
    ensures
        match r {
            Ok(c) => decoded_claims(key@, token@) == Some(c@) && 0 <= c.exp,
            Err(e) => decoded_claims(key@, token@) is None
                && e == RejectError::TokenVerificationError,
        },
{
    let mut validation = jsonwebtoken::Validation::new(jsonwebtoken::Algorithm::HS512);
    validation.validate_exp = false;
    let dec_key = jsonwebtoken::DecodingKey::from_secret(key.bytes.as_slice());
    let data = jsonwebtoken::decode::<serde_json::Value>(token.as_str(), &dec_key, &validation)
        .map_err(|_| RejectError::TokenVerificationError)?;
    let sub = data.claims.get("sub").and_then(|v| v.as_str()).ok_or(
        RejectError::TokenVerificationError,
    )?;
    let role = data.claims.get("role").and_then(|v| v.as_str()).ok_or(
        RejectError::TokenVerificationError,
    )?;
    let exp = data.claims.get("exp").and_then(|v| v.as_i64()).ok_or(
        RejectError::TokenVerificationError,
    )?;
    Ok(Claims { sub: sub.to_string(), role: role.to_string(), exp })
}

/// Issue a signed token for `username` with the given role: the expiry is
/// `now` plus the fixed lifetime, and issuance fails only when that
/// addition overflows the timestamp representation.
pub fn jwt_gen(username: String, role: &UserRole, key: &SigningKey, now: i64) -> (r: Result<
    (Claims, Token),
    RejectError,
>)
    ensures
        now > i64::MAX - TOKEN_TTL_SECONDS ==> r == Err::<(Claims, String), RejectError>(
            RejectError::InvalidTimestamp,
        ),
        now <= i64::MAX - TOKEN_TTL_SECONDS ==> (r matches Ok(p) && ({
            &&& p.0.sub@ == username@
            &&& p.0.role@ == role_str(*role)
            &&& p.0.exp == now + TOKEN_TTL_SECONDS
            &&& p.1@ == hs512_token(key@, username@, role_str(*role), (now + TOKEN_TTL_SECONDS) as i64)
            &&& 0 <= now + TOKEN_TTL_SECONDS ==> decoded_claims(key@, p.1@) == Some(p.0@)
        })),
{
    if now > i64::MAX - TOKEN_TTL_SECONDS {
        return Err(RejectError::InvalidTimestamp);
    }
    let exp = now + TOKEN_TTL_SECONDS;
    let claims = Claims { sub: username, role: role.as_str().to_owned(), exp };
    match jwt_encode(key, &claims.sub, &claims.role, exp) {
        Ok(token) => Ok((claims, token)),
        Err(e) => Err(e),
    }
}

/// Verify a token's signature, structure and algorithm under `key` and
/// return its claims. This does not compare the expiry against the
/// clock: expiry is checked by the authorization gate, which gives that
/// condition its own, recoverable error kind.
pub fn jwt_verify(token: &String, key: &SigningKey) -> (r: Result<Claims, RejectError>)
    ensures
        match decoded_claims(key@, token@) {
            Some(c) => r matches Ok(cl) && cl@ == c,
            None => r == Err::<Claims, RejectError>(RejectError::TokenVerificationError),
        },
{
    jwt_decode(key, token)
}

/// One header of a request: a (lowercase) name and its value.
pub struct HeaderEntry {
    pub name: String,
    pub value: String,
}

/// The transport-level credential source: the request's headers, looked
/// up by name. Names are expected in lowercase, as HTTP header maps
/// normalize them.
pub struct Headers {
    entries: Vec<HeaderEntry>,
}

impl View for Headers {
    type V = Seq<HeaderEntry>;

    closed spec fn view(&self) -> Seq<HeaderEntry> {
        self.entries@
    }
}

/// The value of the first `authorization` header, if any.
pub open spec fn auth_header_value(entries: Seq<HeaderEntry>) -> Option<Seq<char>>
    decreases entries.len(),
{
    if entries.len() == 0 {
        None
    } else if entries[0].name@ == "authorization"@ {
        Some(entries[0].value@)
    } else {
        auth_header_value(entries.drop_first())
    }
}

/// The token a header value carries, if the value is a bearer credential:
/// the text after the `"Bearer "` prefix.
pub open spec fn bearer_token(value: Seq<char>) -> Option<Seq<char>> {
    if value.len() >= 7 && value.subrange(0, 7) == "Bearer "@ {
        Some(value.subrange(7, value.len() as int))
    } else {
        None
    }
}

impl Headers {
    /// No headers at all.
    pub fn new() -> (r: Headers)
        ensures
            r@ == Seq::<HeaderEntry>::empty(),
    {
        Headers { entries: Vec::new() }
    }

    /// Append a header.
    pub fn add(&mut self, name: String, value: String)
        ensures
            final(self)@ == old(self)@.push(HeaderEntry { name, value }),
    {
        self.entries.push(HeaderEntry { name, value });
    }

    /// The value of the first `authorization` header, if any.
    fn authorization(&self) -> (r: Option<String>)
        ensures
            match r {
                Some(v) => auth_header_value(self@) == Some(v@),
                None => auth_header_value(self@) is None,
            },
    {
        let needle = String::from_str("authorization");
        let n = self.entries.len();
        proof {
            assert(self.entries@.skip(0) =~= self.entries@);
        }
        for i in 0..n
            invariant
                n == self.entries@.len(),
                needle@ == "authorization"@,
                auth_header_value(self.entries@) == auth_header_value(self.entries@.skip(i as int)),
        {
            proof {
                assert(self.entries@.skip(i as int)[0] == self.entries@[i as int]);
            }
            if self.entries[i].name == needle {
                return Some(self.entries[i].value.clone());
            }
            proof {
                assert(self.entries@.skip(i as int).drop_first() =~= self.entries@.skip(
                    i as int + 1,
                ));
            }
        }
        None
    }
}

/// Extract the bearer token from the request headers: the value of the
/// `authorization` header, stripped of its `"Bearer "` prefix. A missing
/// header and a malformed one are distinct errors.
pub fn jwt_from_headers(headers: &Headers) -> (r: Result<String, RejectError>)
    ensures
        match auth_header_value(headers@) {
            None => r == Err::<String, RejectError>(RejectError::AuthHeaderMissing),
            Some(v) => match bearer_token(v) {
                None => r == Err::<String, RejectError>(RejectError::InvalidAuthHeader),
                Some(t) => r matches Ok(tok) && tok@ == t,
            },
        },
{
    let value = match headers.authorization() {
        Some(v) => v,
        None => {
            return Err(RejectError::AuthHeaderMissing);
        },
    };
    let len = value.as_str().unicode_len();
    if len < 7 {
        return Err(RejectError::InvalidAuthHeader);
    }
    let prefix = value.as_str().substring_char(0, 7);
    if String::from_str(prefix) != String::from_str("Bearer ") {
        return Err(RejectError::InvalidAuthHeader);
    }
    Ok(value.as_str().substring_char(7, len).to_owned())
}

/// Round trip: verifying a token straight from `jwt_gen`, under the same
/// key, succeeds and returns claims equal to the issued claims — for any
/// subject, role and (nonnegative, non-overflowing) issuance time.
pub fn issued_token_round_trips(username: String, role: &UserRole, key: &SigningKey, now: i64) -> (r:
    Option<(Claims, Claims)>)
    requires
        0 <= now,
        now <= i64::MAX - TOKEN_TTL_SECONDS,
    ensures
        r is Some,
        r matches Some(p) ==> p.0@ == p.1@ && p.0.sub@ == username@ && p.0.role@ == role_str(*role)
            && p.0.exp == now + TOKEN_TTL_SECONDS,
{
    match jwt_gen(username, role, key, now) {
        Ok((claims, token)) => match jwt_verify(&token, key) {
            Ok(verified) => Some((claims, verified)),
            Err(_) => None,
        },
        Err(_) => None,
    }
}

} // verus!
