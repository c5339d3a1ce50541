//! The arguments of the commands, as plain values.

use std::path::PathBuf;

use vstd::prelude::*;

verus! {

/// A command with its arguments.
#[derive(Debug, PartialEq, Eq)]
pub enum ReliefArgs {
    Pick(PickArgs),
    Fetch(FetchArgs),
    Drop(DropArgs),
    List(ListArgs),
    Edit(EditArgs),
}

/// Pick a package: by answering questions, under `identifier` if it is
/// given, or from the definition in `config_file`. Not both.
#[derive(Debug, PartialEq, Eq)]
pub struct PickArgs {
    pub identifier: Option<String>,
    pub config_file: Option<PathBuf>,
}

/// Fetch the package stored under `identifier`.
#[derive(Debug, Clone, PartialEq, Eq)]
pub struct FetchArgs {
    pub identifier: String,
}

/// Drop the package stored under `identifier`.
#[derive(Debug, Clone, PartialEq, Eq)]
pub struct DropArgs {
    pub identifier: String,
}

/// List the stored packages.
#[derive(Debug, Clone, PartialEq, Eq)]
pub struct ListArgs {}

/// Edit the package stored under `identifier`.
#[derive(Debug, Clone, PartialEq, Eq)]
pub struct EditArgs {
    pub identifier: String,
}

} // verus!
