//! Users, credentials presented at login, and the claims of an access token.

use vstd::prelude::*;

verus! {

/// A row of the user directory.
#[derive(Debug, Clone)]
pub struct User {
    pub id: String,
    pub username: String,
    /// The bcrypt hash of the password, never the password itself.
    pub password: String,
    /// One of "user", "admin", "superuser".
    pub role: String,
    pub created_at: Option<String>,
}

/// The mathematical content of a [`User`], but for the creation date.
pub struct UserView {
    pub id: Seq<char>,
    pub username: Seq<char>,
    pub password: Seq<char>,
    pub role: Seq<char>,
}

impl View for User {
    type V = UserView;

    open spec fn view(&self) -> UserView {
        UserView {
            id: self.id@,
            username: self.username@,
            password: self.password@,
            role: self.role@,
        }
    }
}

#[derive(Debug, Clone)]
pub struct LoginRequest {
    pub username: String,
    pub password: String,
}

#[derive(Debug, Clone)]
pub struct RegisterRequest {
    pub username: String,
    pub password: String,
}

/// What an access token asserts: who, in which role, until when.
#[derive(Debug, Clone, PartialEq, Eq)]
pub struct TokenClaims {
    /// Subject: the user's id.
    pub sub: String,
    pub role: String,
    /// Expiry, in seconds since the Unix epoch.
    pub exp: usize,
}

/// The mathematical content of [`TokenClaims`].
pub struct ClaimsView {
    pub sub: Seq<char>,
    pub role: Seq<char>,
    pub exp: nat,
}

impl View for TokenClaims {
    type V = ClaimsView;

    open spec fn view(&self) -> ClaimsView {
        ClaimsView { sub: self.sub@, role: self.role@, exp: self.exp as nat }
    }
}

} // verus!
