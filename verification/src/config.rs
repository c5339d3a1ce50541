//! What the user asks for: the package definition and its parts.

pub mod app;
pub mod codec;
pub mod package;
