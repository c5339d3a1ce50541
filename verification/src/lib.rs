//! Package definitions for a local release picker: the schema of one
//! package, how it is built step by step from answers, how it is shown,
//! stored and looked up, and the decisions taken while an artifact is
//! fetched, unpacked and installed.

pub mod builder;
pub mod cli;
pub mod config;
pub mod document;
pub mod extract;
pub mod fetch;
pub mod install;
pub mod menu;
pub mod model;
pub mod pattern;
pub mod record;
pub mod registry;
pub mod session;
pub mod summary;
pub mod text;
pub mod version;
