//! Plain data carried between the application and the verified core.

pub mod auth;
pub mod user;

pub use auth::{RefreshRequest, RefreshToken};
pub use user::{ClaimsView, LoginRequest, RegisterRequest, TokenClaims, User, UserView};
