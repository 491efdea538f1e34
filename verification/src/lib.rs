//! Verified core of a content API's access control: signed access tokens,
//! the refresh-session rotation protocol, the request gate that separates
//! public from protected routes, and the fixed-window rate limiter.
//!
//! Everything here is a decision on plain values. The surrounding
//! application performs the I/O (HTTP, the key-value store, the user
//! directory) and feeds the outcomes back in.

pub mod auth;
pub mod db;
pub mod handlers;
pub mod middleware;
pub mod models;
pub mod services;
pub mod text;
