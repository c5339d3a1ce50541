//! Versions read out of text: a pattern is applied to the text of a
//! release payload, or to what an installed binary printed, and what it
//! matches is the version.
//!
//! Patterns are those of the `regex` crate, which does the matching.

use vstd::prelude::*;
use crate::config::codec::Field;
use crate::config::package::{
    BinaryVersion, BinaryVersionModel, GhVerMember, GithubVersion, GithubVersionModel,
    text_option_model, PackageConfig, PackageConfigModel, PackageSource, PackageSourceModel,
};

verus! {

/// Where the text comes from that holds a version.
#[derive(Debug, Clone, PartialEq, Eq)]
pub enum VersionSource {
    /// A member of the release payload.
    ReleaseApiField(GhVerMember),
    /// What the installed binary prints when run with this argument.
    CommandOutput(String),
}

/// `VersionSource`, each text as the sequence of its characters.
pub enum VersionSourceModel {
    ReleaseApiField(GhVerMember),
    CommandOutput(Seq<char>),
}

impl View for VersionSource {
    type V = VersionSourceModel;

    open spec fn view(&self) -> VersionSourceModel {
        match self {
            VersionSource::ReleaseApiField(member) => VersionSourceModel::ReleaseApiField(*member),
            VersionSource::CommandOutput(arg) => VersionSourceModel::CommandOutput(arg@),
        }
    }
}

/// How a version is found: where its text comes from, and the pattern
/// that picks it out.
#[derive(Debug, Clone, PartialEq, Eq)]
pub struct VersionSpec {
    pub source: VersionSource,
    pub regex: String,
}

/// `VersionSpec`, each text as the sequence of its characters.
pub struct VersionSpecModel {
    pub source: VersionSourceModel,
    pub regex: Seq<char>,
}

impl View for VersionSpec {
    type V = VersionSpecModel;

    open spec fn view(&self) -> VersionSpecModel {
        VersionSpecModel { source: self.source@, regex: self.regex@ }
    }
}

impl GithubVersionModel {
    /// How the version is found.
    pub open spec fn as_spec(self) -> VersionSpecModel {
        VersionSpecModel {
            source: VersionSourceModel::ReleaseApiField(self.member),
            regex: self.regex,
        }
    }
}

impl BinaryVersionModel {
    /// How the version is found.
    pub open spec fn as_spec(self) -> VersionSpecModel {
        VersionSpecModel { source: VersionSourceModel::CommandOutput(self.arg), regex: self.regex }
    }
}

impl GithubVersion {
    /// How the version of a release is found.
    pub fn to_spec(&self) -> (r: VersionSpec)
        ensures
            r@ == self@.as_spec(),
    {
        VersionSpec {
            source: VersionSource::ReleaseApiField(self.member),
            regex: self.regex.clone(),
        }
    }
}

impl BinaryVersion {
    /// How the version of an installed binary is found.
    pub fn to_spec(&self) -> (r: VersionSpec)
        ensures
            r@ == self@.as_spec(),
    {
        VersionSpec {
            source: VersionSource::CommandOutput(self.arg.clone()),
            regex: self.regex.clone(),
        }
    }
}

/// Why no version was found.
#[derive(Debug, Clone, Copy, PartialEq, Eq, Structural)]
pub enum VersionError {
    /// The pattern matches nowhere in the text. The text is the
    /// caller's to show.
    NoMatch,
    /// The pattern is none.
    InvalidRegex,
}

/// What a search in a text came to.
#[derive(Debug, Clone, PartialEq, Eq)]
pub enum Search {
    /// The pattern is none.
    Invalid,
    /// The pattern matches nowhere.
    Nothing,
    /// The leftmost match: all of it, and what its first capturing group
    /// matched, where the pattern has one and it took part.
    Found { whole: String, group: Option<String> },
}

/// `Search`, each text as the sequence of its characters.
pub enum SearchModel {
    Invalid,
    Nothing,
    Found { whole: Seq<char>, group: Option<Seq<char>> },
}

impl View for Search {
    type V = SearchModel;

    open spec fn view(&self) -> SearchModel {
        match self {
            Search::Invalid => SearchModel::Invalid,
            Search::Nothing => SearchModel::Nothing,
            Search::Found { whole, group } => SearchModel::Found {
                whole: whole@,
                group: text_option_model(*group),
            },
        }
    }
}

/// Whether `regex::Regex::new` accepts the pattern.
pub uninterp spec fn regex_valid(pattern: Seq<char>) -> bool;

/// What `regex::Regex::captures` finds in `text` for an accepted
/// pattern: nothing, or the whole leftmost match and the match of the
/// first capturing group, if that group took part.
pub uninterp spec fn regex_captures(pattern: Seq<char>, text: Seq<char>) -> Option<
    (Seq<char>, Option<Seq<char>>),
>;

/// What a search comes to, by the two names above.
pub open spec fn search_of(pattern: Seq<char>, text: Seq<char>) -> SearchModel {
    if !regex_valid(pattern) {
        SearchModel::Invalid
    } else {
        match regex_captures(pattern, text) {
            None => SearchModel::Nothing,
            Some((whole, group)) => SearchModel::Found { whole, group },
        }
    }
}

/// Compiles the pattern with `regex::Regex::new` and calls
/// `Regex::captures` on the text; of a match it hands out group 0 and,
/// through `Captures::get`, group 1. Whether the pattern compiles
/// depends on the pattern alone, and what is found on the pattern and
/// the text alone.
#[verifier::external_body]
fn search(pattern: &str, text: &str) -> (r: Search)
    ensures
        match r {
            Search::Invalid => !regex_valid(pattern@),
            Search::Nothing => regex_valid(pattern@) && regex_captures(pattern@, text@) is None,
            Search::Found { whole, group } => regex_valid(pattern@) && regex_captures(
                pattern@,
                text@,
            ) == Some((whole@, text_option_model(group))),
        },
{
    match regex::Regex::new(pattern) {
        Err(_) => Search::Invalid,
        Ok(regex) => match regex.captures(text) {
            None => Search::Nothing,
            Some(found) => Search::Found {
                whole: found[0].to_owned(),
                group: found.get(1).map(|group| group.as_str().to_owned()),
            },
        },
    }
}

/// The version that a search gives: what the first capturing group
/// matched, or the whole match where no such group took part.
pub open spec fn version_in(found: SearchModel) -> Result<Seq<char>, VersionError> {
    match found {
        SearchModel::Invalid => Err(VersionError::InvalidRegex),
        SearchModel::Nothing => Err(VersionError::NoMatch),
        SearchModel::Found { whole, group } => match group {
            Some(text) => Ok(text),
            None => Ok(whole),
        },
    }
}

/// The version that a search gives.
pub fn version_from(found: Search) -> (r: Result<String, VersionError>)
    ensures
        match version_in(found@) {
            Ok(version) => r matches Ok(text) && text@ == version,
            Err(error) => r matches Err(e) && e == error,
        },
{
    match found {
        Search::Invalid => Err(VersionError::InvalidRegex),
        Search::Nothing => Err(VersionError::NoMatch),
        Search::Found { whole, group } => match group {
            Some(text) => Ok(text),
            None => Ok(whole),
        },
    }
}

/// Finds the version in `probe`. The answer depends on the pattern and
/// the text alone.
pub fn resolve(spec: &VersionSpec, probe: &str) -> (r: Result<String, VersionError>)
    ensures
        match version_in(search_of(spec@.regex, probe@)) {
            Ok(version) => r matches Ok(text) && text@ == version,
            Err(error) => r matches Err(e) && e == error,
        },
{
    version_from(search(spec.regex.as_str(), probe))
}

/// Whether `pattern` is one: whether a search with it can be made at
/// all, whatever the text.
pub fn is_pattern(pattern: &str) -> (r: bool)
    ensures
        r == regex_valid(pattern@),
{
    match search(pattern, "") {
        Search::Invalid => false,
        _ => true,
    }
}

/// The first place of a definition whose pattern is none.
pub open spec fn bad_pattern_in(config: PackageConfigModel) -> Option<Field> {
    let PackageSourceModel::Github(github) = config.source;
    if !regex_valid(github.version.regex) {
        Some(Field::SourceRegex)
    } else {
        match config.install.binary {
            Some(binary) => if !regex_valid(binary.version.regex) {
                Some(Field::BinaryRegex)
            } else {
                None
            },
            None => None,
        }
    }
}

/// The first place of a definition whose pattern is none, so that a
/// pattern that cannot work is found before it is used.
pub fn bad_pattern(config: &PackageConfig) -> (r: Option<Field>)
    ensures
        r == bad_pattern_in(config@),
{
    match &config.source {
        PackageSource::Github(github) => {
            if !is_pattern(github.version.regex.as_str()) {
                return Some(Field::SourceRegex);
            }
        },
    }
    match &config.install.binary {
        Some(binary) => if !is_pattern(binary.version.regex.as_str()) {
            Some(Field::BinaryRegex)
        } else {
            None
        },
        None => None,
    }
}

} // verus!
