//! What stands between a request and its handler: the rate limiter outside,
//! the authentication gate inside.

pub mod auth;
pub mod limiter;
pub mod pipeline;
