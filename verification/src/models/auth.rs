//! Refresh sessions and the request that redeems one.

use vstd::prelude::*;

verus! {

/// A refresh session: the opaque token currently valid for one user.
#[derive(Debug, Clone, PartialEq, Eq)]
pub struct RefreshToken {
    pub token: String,
    pub user_id: String,
}

/// Body of a refresh call. The user id travels with the token so that the
/// session can be looked up by subject.
#[derive(Debug, Clone)]
pub struct RefreshRequest {
    pub refresh_token: String,
    pub user_id: String,
}

} // verus!
