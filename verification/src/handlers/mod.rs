//! The decisions of the endpoints, apart from their I/O.

pub mod auth;
