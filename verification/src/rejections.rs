//! The typed rejections the authorization gate and the session issuer
//! produce. Every failure is terminal for the current request; the HTTP
//! layer maps each variant to a fixed status code.

use vstd::prelude::*;

verus! {

/// Why a request was rejected.
#[derive(Debug)]
pub enum RejectError {
    /// A required record (user or session) does not exist.
    NotFound,
    /// A role string on the wire did not name a known role.
    InvalidRole(String),
    /// Computing the token expiry overflowed the timestamp representation.
    InvalidTimestamp,
    /// Authenticated, but the token's role does not match the one the
    /// route requires.
    UnauthorizedAccess,
    /// The token's signature, structure or algorithm was invalid; the
    /// token is unsalvageable and the client must log in again.
    TokenVerificationError,
    /// No authentication header was provided.
    AuthHeaderMissing,
    /// An authentication header was provided but was not a bearer credential.
    InvalidAuthHeader,
    /// A well-signed token that no longer matches the stored session
    /// record: it has been revoked by a later login.
    InvalidAuthToken,
    /// A well-signed, matching token past its expiry.
    AuthTokenExpired,
    /// The provided password did not match the stored one.
    InvalidPassword,
    /// Signing a freshly issued token failed.
    TokenCreationError,
}

} // verus!
