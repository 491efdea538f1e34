//! Refresh sessions in the shared store: one slot per user, holding the
//! refresh token that is currently valid, with a time to live.
//!
//! The core does not talk to the store. It says what the store is to do, as
//! a [`SessionCommand`], and is told what came back, as a [`Fetched`]. How a
//! store that obeys behaves is written down in [`after`] and [`fetched`].

use crate::middleware::limiter::StoreUnavailable;
use crate::text::{join2, str_eq};
use vstd::prelude::*;
use vstd::string::*;

verus! {

/// How long a refresh session lives after it was stored: 7 days.
pub const REFRESH_TTL_SECONDS: u64 = 604_800;

/// One request to the store about a session slot.
#[derive(Debug, Clone, PartialEq, Eq)]
pub enum SessionCommand {
    /// Put `token` under `key`, replacing what is there, to expire in
    /// `ttl_seconds`.
    Store { key: String, token: String, ttl_seconds: u64 },
    /// Read what is under `key`.
    Fetch { key: String },
    /// Delete what is under `key`, if anything.
    Revoke { key: String },
}

pub enum SessionCommandView {
    Store { key: Seq<char>, token: Seq<char>, ttl_seconds: u64 },
    Fetch { key: Seq<char> },
    Revoke { key: Seq<char> },
}

impl View for SessionCommand {
    type V = SessionCommandView;

    open spec fn view(&self) -> SessionCommandView {
        match self {
            SessionCommand::Store { key, token, ttl_seconds } => SessionCommandView::Store {
                key: key@,
                token: token@,
                ttl_seconds: *ttl_seconds,
            },
            SessionCommand::Fetch { key } => SessionCommandView::Fetch { key: key@ },
            SessionCommand::Revoke { key } => SessionCommandView::Revoke { key: key@ },
        }
    }
}

/// What a fetch came to.
#[derive(Debug, Clone, PartialEq, Eq)]
pub enum Fetched {
    Found(String),
    /// Nothing under the key: never stored, revoked, or expired.
    Missing,
    /// The store did not answer.
    Unavailable,
}

pub enum FetchedView {
    Found(Seq<char>),
    Missing,
    Unavailable,
}

impl View for Fetched {
    type V = FetchedView;

    open spec fn view(&self) -> FetchedView {
        match self {
            Fetched::Found(token) => FetchedView::Found(token@),
            Fetched::Missing => FetchedView::Missing,
            Fetched::Unavailable => FetchedView::Unavailable,
        }
    }
}

/// Why a presented refresh token was not accepted. Callers answer both alike.
#[derive(Debug, Clone, Copy, PartialEq, Eq, Structural)]
pub enum SessionError {
    /// No session could be read for the user.
    NotFound,
    /// The session holds another token.
    Mismatch,
}

/// The store key of a user's session slot.
pub open spec fn session_key(user_id: Seq<char>) -> Seq<char> {
    "refresh:"@ + user_id
}

/// A presented token is good if and only if it is the one that was found.
pub open spec fn session_check(stored: FetchedView, presented: Seq<char>) -> Result<
    (),
    SessionError,
> {
    match stored {
        FetchedView::Found(token) => if token == presented {
            Ok(())
        } else {
            Err(SessionError::Mismatch)
        },
        FetchedView::Missing => Err(SessionError::NotFound),
        FetchedView::Unavailable => Err(SessionError::NotFound),
    }
}

/// A session slot as the store holds it.
pub struct Slot {
    pub token: Seq<char>,
    pub expires_at: int,
}

/// What a store that answers returns for a fetch of `key` at `now`.
pub open spec fn fetched(sessions: Map<Seq<char>, Slot>, key: Seq<char>, now: int) -> FetchedView {
    if sessions.dom().contains(key) && now < sessions[key].expires_at {
        FetchedView::Found(sessions[key].token)
    } else {
        FetchedView::Missing
    }
}

/// The store after it carried out `command` at `now`.
pub open spec fn after(sessions: Map<Seq<char>, Slot>, command: SessionCommandView, now: int) -> Map<
    Seq<char>,
    Slot,
> {
    match command {
        SessionCommandView::Store { key, token, ttl_seconds } => sessions.insert(
            key,
            Slot { token, expires_at: now + ttl_seconds },
        ),
        SessionCommandView::Fetch { key } => sessions,
        SessionCommandView::Revoke { key } => sessions.remove(key),
    }
}

/// `uuid::Uuid::new_v4().to_string()`: a random identifier in text form.
/// Nothing is assumed of the value.
#[verifier::external_body]
pub(crate) fn fresh_uuid() -> String {
    uuid::Uuid::new_v4().to_string()
}

/// The store key of the session slot of `user_id`.
pub fn refresh_key(user_id: &str) -> (key: String)
    ensures
        key@ == session_key(user_id@),
{
    join2("refresh:", user_id)
}

/// The command that stores `token` as the session of `user_id`.
pub fn store_refresh_token(user_id: &str, token: &str, ttl_seconds: usize) -> (command:
    SessionCommand)
    ensures
        command@ == (SessionCommandView::Store {
            key: session_key(user_id@),
            token: token@,
            ttl_seconds: ttl_seconds as u64,
        }),
{
    SessionCommand::Store {
        key: refresh_key(user_id),
        token: String::from_str(token),
        ttl_seconds: ttl_seconds as u64,
    }
}

/// The command that reads the session of `user_id`.
pub fn get_refresh_token(user_id: &str) -> (command: SessionCommand)
    ensures
        command@ == (SessionCommandView::Fetch { key: session_key(user_id@) }),
{
    SessionCommand::Fetch { key: refresh_key(user_id) }
}

/// The command that ends the session of `user_id`.
pub fn revoke_token(user_id: &str) -> (command: SessionCommand)
    ensures
        command@ == (SessionCommandView::Revoke { key: session_key(user_id@) }),
{
    SessionCommand::Revoke { key: refresh_key(user_id) }
}

/// Holds a presented refresh token against what the store returned.
pub fn check_refresh(stored: &Fetched, presented: &str) -> (r: Result<(), SessionError>)
    ensures
        r == session_check(stored@, presented@),
{
    match stored {
        Fetched::Found(token) => {
            if str_eq(token.as_str(), presented) {
                Ok(())
            } else {
                Err(SessionError::Mismatch)
            }
        },
        Fetched::Missing => Err(SessionError::NotFound),
        Fetched::Unavailable => Err(SessionError::NotFound),
    }
}

/// Passes `reply` on only if the store carried out the command that
/// belongs to it: a session that was not written is a call that failed.
pub fn settle<T>(reply: T, written: Result<(), StoreUnavailable>) -> (r: Result<T, StoreUnavailable>)
    ensures
        written is Ok ==> (r matches Ok(passed) && passed == reply),
        written is Err ==> r is Err,
{
    match written {
        Ok(_) => Ok(reply),
        Err(e) => Err(e),
    }
}

} // verus!
