//! The commands, as far as they decide: each takes its arguments and
//! the registry as it was read, and answers what is to be done.

pub mod args;
pub mod pick;
pub mod run;

pub use pick::{pick, PickError};
pub use run::{drop, edit, fetch, list, DropError, EditError, FetchError, ListError};
