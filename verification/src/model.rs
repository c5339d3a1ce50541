//! What comes back from outside: payloads of the services that packages
//! are fetched from.

pub mod ghapi;
