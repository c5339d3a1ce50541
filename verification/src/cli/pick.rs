//! Picking a package: from a file or from answers, a definition is
//! made, held against the rules, and put into the registry.

use std::path::PathBuf;

use vstd::prelude::*;
use crate::builder::{BuildError, Builder, BuilderModel, AnswerModel};
use crate::cli::args::PickArgs;
use crate::config::codec::{parse, parse_outcome, ConfigError, Field};
use crate::config::package::{text_option_model, PackageConfig, PackageConfigModel};
use crate::registry::{
    create_outcome, file_name, file_name_of, save_outcome, EntryModel, Registry,
    RegistryError,
};
use crate::summary::{lines_model, summarize, summary_of, Line, SpanModel};
use crate::text::names_set;
use crate::version::{bad_pattern, bad_pattern_in};

verus! {

/// Why no package was picked.
#[derive(Debug, Clone, Copy, PartialEq, Eq, Structural)]
pub enum PickError {
    /// Both an identifier and a file were given.
    Conflict,
    /// The file holds no definition.
    Config(ConfigError),
    /// The pattern at this place is none.
    Pattern(Field),
    /// The answers make no definition.
    Build(BuildError),
    /// The registry refused the definition.
    Registry(RegistryError),
}

/// The way in which a package is picked.
#[derive(Debug, PartialEq, Eq)]
pub enum PickMethod {
    /// From the definition in the file at this path.
    File(PathBuf),
    /// From answers, with the identifier if it is known already.
    Interactive(Option<String>),
}

/// `PickMethod`, each text as the sequence of its characters.
pub enum PickMethodModel {
    File(PathBuf),
    Interactive(Option<Seq<char>>),
}

impl View for PickMethod {
    type V = PickMethodModel;

    open spec fn view(&self) -> PickMethodModel {
        match self {
            PickMethod::File(path) => PickMethodModel::File(*path),
            PickMethod::Interactive(identifier) => PickMethodModel::Interactive(
                text_option_model(*identifier),
            ),
        }
    }
}

/// The way that the arguments ask for.
pub open spec fn method_of(identifier: Option<Seq<char>>, config_file: Option<PathBuf>) -> Result<
    PickMethodModel,
    PickError,
> {
    match config_file {
        Some(path) => if identifier is Some {
            Err(PickError::Conflict)
        } else {
            Ok(PickMethodModel::File(path))
        },
        None => Ok(PickMethodModel::Interactive(identifier)),
    }
}

/// The way that the arguments ask for: a file and an identifier
/// together are refused.
pub fn pick_method(args: PickArgs) -> (r: Result<PickMethod, PickError>)
    ensures
        match method_of(text_option_model(args.identifier), args.config_file) {
            Ok(method) => r matches Ok(found) && found@ == method,
            Err(error) => r matches Err(e) && e == error,
        },
{
    match args.config_file {
        Some(path) => if args.identifier.is_some() {
            Err(PickError::Conflict)
        } else {
            Ok(PickMethod::File(path))
        },
        None => Ok(PickMethod::Interactive(args.identifier)),
    }
}

/// A definition that was put into the registry, with what is to be
/// written and shown.
#[derive(Debug, Clone, PartialEq, Eq)]
pub struct Picked {
    pub config: PackageConfig,
    /// The name of the file that holds the definition.
    pub file_name: String,
    /// What the file is to hold.
    pub payload: String,
    /// The definition laid out to be shown.
    pub summary: Vec<Line>,
}

/// `Picked`, each text as the sequence of its characters.
pub struct PickedModel {
    pub config: PackageConfigModel,
    pub file_name: Seq<char>,
    pub payload: Seq<char>,
    pub summary: Seq<Seq<SpanModel>>,
}

impl View for Picked {
    type V = PickedModel;

    open spec fn view(&self) -> PickedModel {
        PickedModel {
            config: self.config@,
            file_name: self.file_name@,
            payload: self.payload@,
            summary: lines_model(self.summary@),
        }
    }
}

/// What to write and show of a definition that stands in the registry.
pub open spec fn picked_of(table: Map<Seq<char>, EntryModel>, config: PackageConfigModel) -> PickedModel {
    PickedModel {
        config,
        file_name: file_name_of(config.meta.identifier),
        payload: table[config.meta.identifier].payload,
        summary: summary_of(config),
    }
}

/// What `pick` leaves in the registry and answers: a taken identifier
/// is refused first, then a pattern that is none, then what cannot be
/// stored.
pub open spec fn pick_outcome(before: Map<Seq<char>, EntryModel>, config: PackageConfigModel) -> (
    Map<Seq<char>, EntryModel>,
    Result<PickedModel, PickError>,
) {
    if before.contains_key(config.meta.identifier) {
        (before, Err(PickError::Registry(RegistryError::IdentifierCollision)))
    } else {
        match bad_pattern_in(config) {
            Some(field) => (before, Err(PickError::Pattern(field))),
            None => match create_outcome(before, config) {
                (after, Ok(_)) => (after, Ok(picked_of(after, config))),
                (after, Err(error)) => (after, Err(PickError::Registry(error))),
            },
        }
    }
}

/// What `revise` leaves in the registry and answers.
pub open spec fn revise_outcome(before: Map<Seq<char>, EntryModel>, config: PackageConfigModel) -> (
    Map<Seq<char>, EntryModel>,
    Result<PickedModel, PickError>,
) {
    if !before.contains_key(config.meta.identifier) {
        (before, Err(PickError::Registry(RegistryError::NotFound)))
    } else {
        match bad_pattern_in(config) {
            Some(field) => (before, Err(PickError::Pattern(field))),
            None => match save_outcome(before, config) {
                (after, Ok(_)) => (after, Ok(picked_of(after, config))),
                (after, Err(error)) => (after, Err(PickError::Registry(error))),
            },
        }
    }
}

fn picked(registry: &Registry, config: PackageConfig) -> (r: Picked)
    requires
        registry@.contains_key(config@.meta.identifier),
    ensures
        r@ == picked_of(registry@, config@),
{
    let name = file_name(config.meta.identifier.as_str());
    let payload = match registry.get(config.meta.identifier.as_str()) {
        Some(entry) => entry.payload,
        None => String::new(),
    };
    let summary = summarize(&config);
    Picked { config, file_name: name, payload, summary }
}

/// Puts a new definition into the registry.
pub fn pick(registry: &mut Registry, config: PackageConfig) -> (r: Result<Picked, PickError>)
    ensures
        match pick_outcome(old(registry)@, config@) {
            (after, Ok(picked)) => r matches Ok(found) && found@ == picked && final(registry)@
                == after,
            (after, Err(error)) => r matches Err(e) && e == error && final(registry)@ == after,
        },
{
    if registry.contains(config.meta.identifier.as_str()) {
        return Err(PickError::Registry(RegistryError::IdentifierCollision));
    }
    if let Some(field) = bad_pattern(&config) {
        return Err(PickError::Pattern(field));
    }
    match registry.create(&config) {
        Ok(()) => Ok(picked(registry, config)),
        Err(error) => Err(PickError::Registry(error)),
    }
}

/// Puts a definition into the registry in the place of the one that has
/// its identifier.
pub fn revise(registry: &mut Registry, config: PackageConfig) -> (r: Result<Picked, PickError>)
    ensures
        match revise_outcome(old(registry)@, config@) {
            (after, Ok(picked)) => r matches Ok(found) && found@ == picked && final(registry)@
                == after,
            (after, Err(error)) => r matches Err(e) && e == error && final(registry)@ == after,
        },
{
    if !registry.contains(config.meta.identifier.as_str()) {
        return Err(PickError::Registry(RegistryError::NotFound));
    }
    if let Some(field) = bad_pattern(&config) {
        return Err(PickError::Pattern(field));
    }
    match registry.save(&config) {
        Ok(()) => Ok(picked(registry, config)),
        Err(error) => Err(PickError::Registry(error)),
    }
}

/// What `pick_file` leaves in the registry and answers.
pub open spec fn pick_file_outcome(before: Map<Seq<char>, EntryModel>, text: Seq<char>) -> (
    Map<Seq<char>, EntryModel>,
    Result<PickedModel, PickError>,
) {
    match parse_outcome(text) {
        Ok(config) => pick_outcome(before, config),
        Err(error) => (before, Err(PickError::Config(error))),
    }
}

/// Picks the package whose definition is `text`, the content of a file.
pub fn pick_file(registry: &mut Registry, text: &str) -> (r: Result<Picked, PickError>)
    ensures
        match pick_file_outcome(old(registry)@, text@) {
            (after, Ok(picked)) => r matches Ok(found) && found@ == picked && final(registry)@
                == after,
            (after, Err(error)) => r matches Err(e) && e == error && final(registry)@ == after,
        },
{
    match parse(text) {
        Ok(config) => pick(registry, config),
        Err(error) => Err(PickError::Config(error)),
    }
}

/// The builder that a pick by answers starts with.
pub open spec fn interactive_outcome(
    table: Map<Seq<char>, EntryModel>,
    identifier: Option<Seq<char>>,
) -> Result<BuilderModel, PickError> {
    let blank = BuilderModel::blank(table.dom());
    match identifier {
        None => Ok(blank),
        Some(text) => match blank.advance(AnswerModel::Text(text)) {
            Ok(next) => Ok(next),
            Err(error) => Err(PickError::Build(error)),
        },
    }
}

/// Starts a pick by answers. An identifier that is known already is
/// held against the registry at once: if it is taken, no question is
/// asked.
pub fn pick_interactive(registry: &Registry, identifier: Option<String>) -> (r: Result<
    Builder,
    PickError,
>)
    ensures
        match interactive_outcome(registry@, text_option_model(identifier)) {
            Ok(builder) => r matches Ok(found) && found@ == builder,
            Err(error) => r matches Err(e) && e == error,
        },
{
    let taken = registry.list();
    assert(names_set(taken@) =~= registry@.dom());
    match identifier {
        None => Ok(Builder::new(taken)),
        Some(text) => match Builder::with_identifier(taken, text) {
            Ok(builder) => Ok(builder),
            Err(error) => Err(PickError::Build(error)),
        },
    }
}

} // verus!
