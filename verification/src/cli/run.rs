//! The commands on stored packages: fetch, list, edit and drop.

use vstd::prelude::*;
use crate::builder::{Builder, BuilderModel, Step};
use crate::cli::args::{DropArgs, EditArgs, FetchArgs, ListArgs};
use crate::config::codec::ConfigError;
use crate::config::package::{text_option_model, PackageConfig, PackageConfigModel};
use crate::registry::{
    file_name, file_name_of, is_listing, load_outcome, EntryModel, Registry, RegistryError,
};
use crate::install::{base_name, base_name_of, destination, destination_of};
use crate::text::{names_set, same_text};
use crate::version::{bad_pattern, bad_pattern_in};

pub use crate::fetch::FetchError;

verus! {

//~ Fetch

/// A package to fetch: its definition, and whether its binary may take
/// the place of a file in the target directory.
#[derive(Debug, Clone, PartialEq, Eq)]
pub struct FetchJob {
    pub config: PackageConfig,
    /// The binary was installed before under the name that it is to be
    /// installed under now: the file of that name is this package's own
    /// and may be replaced.
    pub overwrite: bool,
}

/// Whether a package with this entry and definition is fetched anew:
/// an install is recorded for it, under the name that the definition
/// installs the binary under.
pub open spec fn fetched_before(entry: EntryModel, config: PackageConfigModel) -> bool {
    match (entry.installed, config.install.binary) {
        (Some(state), Some(binary)) => base_name(state.path) == destination_of(binary),
        _ => false,
    }
}

/// What `fetch` answers.
pub open spec fn fetch_outcome(table: Map<Seq<char>, EntryModel>, identifier: Seq<char>) -> Result<
    (PackageConfigModel, bool),
    RegistryError,
> {
    match load_outcome(table, identifier) {
        Ok(config) => match bad_pattern_in(config) {
            Some(field) => Err(
                RegistryError::CorruptDefinition(ConfigError::InvalidRegex(field)),
            ),
            None => Ok((config, fetched_before(table[identifier], config))),
        },
        Err(error) => Err(error),
    }
}

/// Takes up the fetch of a stored package: reads its definition, and
/// says whether this is a fetch anew. A definition with a pattern that
/// is none is refused before anything is fetched.
pub fn fetch(args: &FetchArgs, registry: &Registry) -> (r: Result<FetchJob, FetchError>)
    ensures
        match fetch_outcome(registry@, args.identifier@) {
            Ok((config, overwrite)) => r matches Ok(job) && job.config@ == config && job.overwrite
                == overwrite,
            Err(error) => r matches Err(FetchError::Definition(e)) && e == error,
        },
{
    match registry.load(args.identifier.as_str()) {
        Ok(config) => {
            if let Some(field) = bad_pattern(&config) {
                return Err(
                    FetchError::Definition(
                        RegistryError::CorruptDefinition(ConfigError::InvalidRegex(field)),
                    ),
                );
            }
            let installed = match registry.get(args.identifier.as_str()) {
                Some(entry) => entry.installed,
                None => None,
            };
            let overwrite = match (&installed, &config.install.binary) {
                (Some(state), Some(binary)) => same_text(
                    base_name_of(state.path.as_str()).as_str(),
                    destination(binary).as_str(),
                ),
                _ => false,
            };
            Ok(FetchJob { config, overwrite })
        },
        Err(error) => Err(FetchError::Definition(error)),
    }
}

//~ List

/// Why the packages cannot be listed. With a registry at hand `list`
/// always answers; this is for whoever could not read one.
#[derive(Debug, Clone, Copy, PartialEq, Eq, Structural)]
pub enum ListError {
    /// The stored definitions could not be read.
    Unreadable,
}

/// The identifiers of the stored packages, in ascending order.
pub fn list(args: &ListArgs, registry: &Registry) -> (r: Result<Vec<String>, ListError>)
    ensures
        r matches Ok(names) && is_listing(names@, registry@.dom()),
{
    Ok(registry.list())
}

//~ Edit

/// Why a package cannot be edited.
#[derive(Debug, Clone, Copy, PartialEq, Eq, Structural)]
pub enum EditError {
    /// No package of this identifier is stored.
    NotFound,
    /// What is stored is no definition.
    Corrupt(ConfigError),
}

/// What `edit` answers.
pub open spec fn edit_outcome(table: Map<Seq<char>, EntryModel>, identifier: Seq<char>) -> Result<
    BuilderModel,
    EditError,
> {
    if !table.contains_key(identifier) {
        Err(EditError::NotFound)
    } else {
        match load_outcome(table, identifier) {
            Ok(config) => Ok(BuilderModel::seeded(table.dom(), config)),
            Err(RegistryError::CorruptDefinition(error)) => Err(EditError::Corrupt(error)),
            Err(_) => Err(EditError::NotFound),
        }
    }
}

/// The builder of an edit holds the identifier that was asked for and
/// does not ask for it again: what it makes is stored in the place of
/// the definition that was edited, and of no other.
pub proof fn lemma_edit_keeps_identifier(table: Map<Seq<char>, EntryModel>, identifier: Seq<char>)
    ensures
        edit_outcome(table, identifier) matches Ok(builder) ==> builder.identifier == identifier
            && builder.step == Step::Source && table.contains_key(identifier),
{
}

/// Takes up the edit of a stored package: a builder that starts from
/// its definition. What the builder makes goes back with `revise`.
pub fn edit(args: &EditArgs, registry: &Registry) -> (r: Result<Builder, EditError>)
    ensures
        match edit_outcome(registry@, args.identifier@) {
            Ok(builder) => r matches Ok(found) && found@ == builder,
            Err(error) => r matches Err(e) && e == error,
        },
{
    match registry.load(args.identifier.as_str()) {
        Ok(config) => {
            let taken = registry.list();
            assert(names_set(taken@) =~= registry@.dom());
            Ok(Builder::seeded(taken, config))
        },
        Err(RegistryError::CorruptDefinition(error)) => Err(EditError::Corrupt(error)),
        Err(_) => Err(EditError::NotFound),
    }
}

//~ Drop

/// Why a package cannot be dropped.
#[derive(Debug, Clone, Copy, PartialEq, Eq, Structural)]
pub enum DropError {
    /// No package of this identifier is stored.
    NotFound,
}

/// What is to be removed for a dropped package, in this order: first
/// the file of the definition, then the installed binary if there is
/// one. Each removal is a step of its own.
#[derive(Debug, Clone, PartialEq, Eq)]
pub struct DropPlan {
    pub definition_file: String,
    pub artifact: Option<String>,
}

/// `DropPlan`, each text as the sequence of its characters.
pub struct DropPlanModel {
    pub definition_file: Seq<char>,
    pub artifact: Option<Seq<char>>,
}

impl View for DropPlan {
    type V = DropPlanModel;

    open spec fn view(&self) -> DropPlanModel {
        DropPlanModel {
            definition_file: self.definition_file@,
            artifact: text_option_model(self.artifact),
        }
    }
}

/// What `drop` leaves in the registry and answers.
pub open spec fn drop_outcome(before: Map<Seq<char>, EntryModel>, identifier: Seq<char>) -> (
    Map<Seq<char>, EntryModel>,
    Result<DropPlanModel, DropError>,
) {
    if before.contains_key(identifier) {
        (
            before.remove(identifier),
            Ok(
                DropPlanModel {
                    definition_file: file_name_of(identifier),
                    artifact: match before[identifier].installed {
                        Some(state) => Some(state.path),
                        None => None,
                    },
                },
            ),
        )
    } else {
        (before, Err(DropError::NotFound))
    }
}

/// Takes a package out of the registry and says what is to be removed
/// for it.
pub fn drop(args: &DropArgs, registry: &mut Registry) -> (r: Result<DropPlan, DropError>)
    ensures
        match drop_outcome(old(registry)@, args.identifier@) {
            (after, Ok(plan)) => r matches Ok(found) && found@ == plan && final(registry)@ == after,
            (after, Err(error)) => r matches Err(e) && e == error && final(registry)@ == after,
        },
{
    match registry.delete(args.identifier.as_str()) {
        Ok(entry) => Ok(
            DropPlan {
                definition_file: file_name(args.identifier.as_str()),
                artifact: match entry.installed {
                    Some(state) => Some(state.path),
                    None => None,
                },
            },
        ),
        Err(_) => Err(DropError::NotFound),
    }
}

/// How a drop ended.
#[derive(Debug, Clone, Copy, PartialEq, Eq, Structural)]
pub enum DropReport {
    /// All that was to be removed is removed.
    Complete,
    /// The definition is removed, the installed binary is left behind.
    ArtifactLeft,
    /// The installed binary is removed, the definition is left behind.
    DefinitionLeft,
    /// Nothing was removed.
    NothingRemoved,
}

/// How a drop ended, given which removals went through.
pub open spec fn report_of(
    artifact: Option<Seq<char>>,
    definition_removed: bool,
    artifact_removed: bool,
) -> DropReport {
    let artifact_gone = artifact is None || artifact_removed;
    if definition_removed && artifact_gone {
        DropReport::Complete
    } else if definition_removed {
        DropReport::ArtifactLeft
    } else if artifact is Some && artifact_removed {
        DropReport::DefinitionLeft
    } else {
        DropReport::NothingRemoved
    }
}

/// How a drop ended, given which removals went through, so that a
/// drop that stopped halfway is told apart from one that went through.
pub fn drop_report(plan: &DropPlan, definition_removed: bool, artifact_removed: bool) -> (r:
    DropReport)
    ensures
        r == report_of(plan@.artifact, definition_removed, artifact_removed),
{
    let artifact_gone = plan.artifact.is_none() || artifact_removed;
    if definition_removed && artifact_gone {
        DropReport::Complete
    } else if definition_removed {
        DropReport::ArtifactLeft
    } else if plan.artifact.is_some() && artifact_removed {
        DropReport::DefinitionLeft
    } else {
        DropReport::NothingRemoved
    }
}

} // verus!
