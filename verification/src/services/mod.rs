//! What the application keeps outside itself, seen from the core.

pub mod session;
pub mod video;
