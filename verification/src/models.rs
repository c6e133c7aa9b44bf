//! Core data model: user roles, token claims, users, notes and tags.

use vstd::prelude::*;

verus! {

/// The two roles a user can hold. Roles travel on the wire as lowercase
/// strings; parsing an unknown string is a hard error, never a default.
#[derive(Clone, Copy, Debug, PartialEq, Eq, Structural)]
pub enum UserRole {
    User,
    Admin,
}

/// The lowercase wire form of a role.
pub open spec fn role_str(role: UserRole) -> Seq<char> {
    match role {
        UserRole::User => "user"@,
        UserRole::Admin => "admin"@,
    }
}

/// The role denoted by a lowercase string, if any.
pub open spec fn parse_role(s: Seq<char>) -> Option<UserRole> {
    if s == "user"@ {
        Some(UserRole::User)
    } else if s == "admin"@ {
        Some(UserRole::Admin)
    } else {
        None
    }
}

impl UserRole {
    /// The lowercase string form of the role, as stored and sent.
    pub fn as_str(&self) -> (r: &'static str)
        ensures
            r@ == role_str(*self),
    {
        match self {
            UserRole::User => "user",
            UserRole::Admin => "admin",
        }
    }

    /// Parse a lowercase role string; unknown strings are rejected with
    /// `InvalidRole` carrying the offending text.
    pub fn from_str(s: &String) -> (r: Result<UserRole, crate::rejections::RejectError>)
        ensures
            match parse_role(s@) {
                Some(role) => r == Ok::<UserRole, crate::rejections::RejectError>(role),
                None => (r matches Err(crate::rejections::RejectError::InvalidRole(bad))
                    && bad@ == s@),
            },
    {
        let user_str = String::from_str("user");
        let admin_str = String::from_str("admin");
        if *s == user_str {
            Ok(UserRole::User)
        } else if *s == admin_str {
            Ok(UserRole::Admin)
        } else {
            Err(crate::rejections::RejectError::InvalidRole(s.clone()))
        }
    }
}

/// A role string round-trips: its wire form parses back to the same role.
pub proof fn lemma_role_str_parses(role: UserRole)
    ensures
        parse_role(role_str(role)) == Some(role),
{
    reveal_strlit("user");
    reveal_strlit("admin");
    assert("user"@.len() == 4);
    assert("admin"@.len() == 5);
}

/// Mathematical model of a `Claims` value.
pub ghost struct ClaimsView {
    pub sub: Seq<char>,
    pub role: Seq<char>,
    pub exp: int,
}

/// The signed token payload, and the mirrored server-side session record:
/// the subject (username), the role as its lowercase string, and the
/// absolute expiry timestamp in seconds since the epoch.
#[derive(Debug)]
pub struct Claims {
    pub sub: String,
    pub role: String,
    pub exp: i64,
}

impl View for Claims {
    type V = ClaimsView;

    open spec fn view(&self) -> ClaimsView {
        ClaimsView { sub: self.sub@, role: self.role@, exp: self.exp as int }
    }
}

impl Clone for Claims {
    fn clone(&self) -> (r: Self)
        ensures
            r@ == self@,
    {
        Claims { sub: self.sub.clone(), role: self.role.clone(), exp: self.exp }
    }
}

impl Claims {
    /// A token is expired once its expiry lies strictly before the given time.
    pub fn is_expired(&self, now: i64) -> (r: bool)
        ensures
            r == (self.exp < now),
    {
        self.exp < now
    }

    /// Exact structural equality of claims: subject, role string and expiry
    /// must all match. This comparison is what makes server-side revocation
    /// effective: a stored record that differs in any field invalidates an
    /// otherwise well-signed token.
    pub fn equals(&self, other: &Claims) -> (r: bool)
        ensures
            r == (self@ == other@),
    {
        self.sub == other.sub && self.role == other.role && self.exp == other.exp
    }
}

/// Mathematical model of a `User` record.
pub ghost struct UserView {
    pub username: Seq<char>,
    pub email: Seq<char>,
    pub pass: Seq<char>,
    pub role: UserRole,
}

/// A registered user as the user store holds it.
#[derive(Debug)]
pub struct User {
    pub username: String,
    pub email: String,
    pub pass: String,
    pub role: UserRole,
}

impl View for User {
    type V = UserView;

    open spec fn view(&self) -> UserView {
        UserView {
            username: self.username@,
            email: self.email@,
            pass: self.pass@,
            role: self.role,
        }
    }
}

impl Clone for User {
    fn clone(&self) -> (r: Self)
        ensures
            r@ == self@,
    {
        User {
            username: self.username.clone(),
            email: self.email.clone(),
            pass: self.pass.clone(),
            role: self.role,
        }
    }
}

/// A user record as submitted for registration.
#[derive(Debug)]
pub struct NewUser {
    pub username: String,
    pub email: String,
    pub pass: String,
    pub role: UserRole,
}

impl NewUser {
    pub fn new(username: String, email: String, pass: String, role: UserRole) -> (r: NewUser)
        ensures
            r.username@ == username@,
            r.email@ == email@,
            r.pass@ == pass@,
            r.role == role,
    {
        NewUser { username, email, pass, role }
    }
}

/// The credentials a login request carries.
#[derive(Debug)]
pub struct JsonAuth {
    pub username: String,
    pub pass: String,
}

/// The body of an error response.
#[derive(Debug)]
pub struct ErrReply {
    pub message: String,
}

impl ErrReply {
    pub fn new(message: &str) -> (r: ErrReply)
        ensures
            r.message@ == message@,
    {
        ErrReply { message: message.to_owned() }
    }
}

/// A note as submitted for creation.
#[derive(Debug)]
pub struct NewNote {
    pub username: String,
    pub title: String,
    pub content: Option<String>,
}

/// A tag a user attaches to notes.
#[derive(Debug)]
pub struct Tag {
    pub id: i32,
    pub user_id: i32,
    pub name: String,
}

/// A tag as submitted for creation.
#[derive(Debug)]
pub struct NewTag {
    pub name: String,
    pub username: String,
}

} // verus!
