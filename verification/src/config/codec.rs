//! Definitions as TOML documents: reading one from a table, writing one
//! to a table, and the two as text.
//!
//! A definition is written as
//!
//! ```toml
//! [meta]
//! edition = 0
//! identifier = "tool"
//!
//! [source.github]
//! owner = "acme"
//! repo = "tool"
//! asset = "tool-{version}.tar.gz"
//! extract = "tar"
//!
//! [source.github.version]
//! member = "tag_name"
//! regex = "[0-9]+"
//!
//! [install.binary]
//! target = "tool"
//! rename = "acme-tool"
//!
//! [install.binary.version]
//! arg = "--version"
//! regex = "[0-9]+"
//! ```
//!
//! `edition`, `extract`, `rename`, the two `version` tables and each of
//! their keys may be left out, and so may `install.binary`. What is left
//! out is read as its default; what is written carries every default.

use vstd::prelude::*;
use crate::config::package::{
    default_version_arg, default_version_regex, text_option_model, BinaryInstall,
    BinaryInstallModel, BinaryVersion, BinaryVersionModel, ExtractType, GhVerMember, Github,
    GithubModel, GithubVersion, GithubVersionModel, PackageConfig, PackageConfigModel,
    PackageInstall, PackageInstallModel, PackageMeta, PackageMetaModel, PackageSource,
    PackageSourceModel, DEFAULT_VERSION_ARG, DEFAULT_VERSION_REGEX, NEWEST_EDITION,
};
use crate::document::{
    empty_table, insert_integer, insert_table, insert_text, lookup, no_nodes, read_error_text,
    read_table, table_len, table_nodes, toml_document, toml_text, write_table, Found, Node,
};

verus! {

/// The places of a definition's document.
#[derive(Debug, Clone, Copy, PartialEq, Eq, Structural)]
pub enum Field {
    Meta,
    Edition,
    Identifier,
    Source,
    Github,
    Owner,
    Repo,
    Asset,
    Extract,
    SourceVersion,
    Member,
    SourceRegex,
    Install,
    Binary,
    Target,
    Rename,
    BinaryVersion,
    Arg,
    BinaryRegex,
    /// The places of the record of an install.
    InstalledVersion,
    InstalledPath,
    InstalledAt,
}

/// What is wrong with a document, or with a definition to be written.
#[derive(Debug, Clone, Copy, PartialEq, Eq, Structural)]
pub enum Fault {
    /// A place that must be filled is not.
    Missing(Field),
    /// A place holds a value of the wrong kind.
    Mistyped(Field),
    /// A place holds a word that is none of its choices.
    Unknown(Field),
    /// `source` does not hold exactly one source.
    NotOneSource,
    /// The identifier is empty.
    EmptyIdentifier,
    /// The edition is negative or too large.
    EditionRange,
    /// The time of an install is negative or too large.
    TimeRange,
    /// The definition names another identifier than the one that it is
    /// stored under.
    Misfiled,
}

/// Why a definition could not be read or written.
#[derive(Debug, Clone, Copy, PartialEq, Eq, Structural)]
pub enum ConfigError {
    /// The text is no TOML document. `syntax_report` says why.
    Syntax,
    /// The document is no definition, or the definition cannot be stored.
    Malformed(Fault),
    /// The document could not be written as text.
    Unrenderable,
    /// The pattern at this place of the definition is none.
    InvalidRegex(Field),
}

impl Field {
    /// The place in the document, keys joined by dots.
    pub open spec fn path_text(self) -> Seq<char> {
        match self {
            Field::Meta => "meta"@,
            Field::Edition => "meta.edition"@,
            Field::Identifier => "meta.identifier"@,
            Field::Source => "source"@,
            Field::Github => "source.github"@,
            Field::Owner => "source.github.owner"@,
            Field::Repo => "source.github.repo"@,
            Field::Asset => "source.github.asset"@,
            Field::Extract => "source.github.extract"@,
            Field::SourceVersion => "source.github.version"@,
            Field::Member => "source.github.version.member"@,
            Field::SourceRegex => "source.github.version.regex"@,
            Field::Install => "install"@,
            Field::Binary => "install.binary"@,
            Field::Target => "install.binary.target"@,
            Field::Rename => "install.binary.rename"@,
            Field::BinaryVersion => "install.binary.version"@,
            Field::Arg => "install.binary.version.arg"@,
            Field::BinaryRegex => "install.binary.version.regex"@,
            Field::InstalledVersion => "version"@,
            Field::InstalledPath => "path"@,
            Field::InstalledAt => "installed_at"@,
        }
    }

    /// Where the place is in the document, keys joined by dots.
    pub fn path(&self) -> (r: String)
        ensures
            r@ == self.path_text(),
    {
        match self {
            Field::Meta => "meta".to_owned(),
            Field::Edition => "meta.edition".to_owned(),
            Field::Identifier => "meta.identifier".to_owned(),
            Field::Source => "source".to_owned(),
            Field::Github => "source.github".to_owned(),
            Field::Owner => "source.github.owner".to_owned(),
            Field::Repo => "source.github.repo".to_owned(),
            Field::Asset => "source.github.asset".to_owned(),
            Field::Extract => "source.github.extract".to_owned(),
            Field::SourceVersion => "source.github.version".to_owned(),
            Field::Member => "source.github.version.member".to_owned(),
            Field::SourceRegex => "source.github.version.regex".to_owned(),
            Field::Install => "install".to_owned(),
            Field::Binary => "install.binary".to_owned(),
            Field::Target => "install.binary.target".to_owned(),
            Field::Rename => "install.binary.rename".to_owned(),
            Field::BinaryVersion => "install.binary.version".to_owned(),
            Field::Arg => "install.binary.version.arg".to_owned(),
            Field::BinaryRegex => "install.binary.version.regex".to_owned(),
            Field::InstalledVersion => "version".to_owned(),
            Field::InstalledPath => "path".to_owned(),
            Field::InstalledAt => "installed_at".to_owned(),
        }
    }
}

impl Fault {
    /// The words, as text.
    pub open spec fn message_text(self) -> Seq<char> {
        match self {
            Fault::Missing(field) => "missing field `"@ + field.path_text() + "`"@,
            Fault::Mistyped(field) => "wrong kind of value in `"@ + field.path_text() + "`"@,
            Fault::Unknown(field) => "unknown variant in `"@ + field.path_text() + "`"@,
            Fault::NotOneSource => "`source` must hold exactly one source"@,
            Fault::EmptyIdentifier => "`meta.identifier` must not be empty"@,
            Fault::EditionRange => "`meta.edition` is out of range"@,
            Fault::TimeRange => "`installed_at` is out of range"@,
            Fault::Misfiled => "`meta.identifier` is not the identifier that the definition is stored under"@,
        }
    }

    /// The fault in words, naming the place.
    pub fn message(&self) -> (r: String)
        ensures
            r@ == self.message_text(),
    {
        match self {
            Fault::Missing(field) => {
                let mut text = "missing field `".to_owned();
                text.append(field.path().as_str());
                text.append("`");
                text
            },
            Fault::Mistyped(field) => {
                let mut text = "wrong kind of value in `".to_owned();
                text.append(field.path().as_str());
                text.append("`");
                text
            },
            Fault::Unknown(field) => {
                let mut text = "unknown variant in `".to_owned();
                text.append(field.path().as_str());
                text.append("`");
                text
            },
            Fault::NotOneSource => "`source` must hold exactly one source".to_owned(),
            Fault::EmptyIdentifier => "`meta.identifier` must not be empty".to_owned(),
            Fault::EditionRange => "`meta.edition` is out of range".to_owned(),
            Fault::TimeRange => "`installed_at` is out of range".to_owned(),
            Fault::Misfiled => "`meta.identifier` is not the identifier that the definition is stored under".to_owned(),
        }
    }
}

impl ConfigError {
    /// The words, as text.
    pub open spec fn message_text(self) -> Seq<char> {
        match self {
            ConfigError::Syntax => "not a TOML document"@,
            ConfigError::Malformed(fault) => fault.message_text(),
            ConfigError::Unrenderable => "the definition cannot be written as TOML"@,
            ConfigError::InvalidRegex(field) => "the pattern in `"@ + field.path_text()
                + "` is no regular expression"@,
        }
    }

    /// The error in words.
    pub fn message(&self) -> (r: String)
        ensures
            r@ == self.message_text(),
    {
        match self {
            ConfigError::Syntax => "not a TOML document".to_owned(),
            ConfigError::Malformed(fault) => fault.message(),
            ConfigError::Unrenderable => "the definition cannot be written as TOML".to_owned(),
            ConfigError::InvalidRegex(field) => {
                let mut text = "the pattern in `".to_owned();
                text.append(field.path().as_str());
                text.append("` is no regular expression");
                text
            },
        }
    }
}

/// The text under `key`, if the key is there.
pub open spec fn text_at(nodes: Map<Seq<char>, Node>, key: Seq<char>, field: Field) -> Result<
    Option<Seq<char>>,
    Fault,
> {
    if nodes.contains_key(key) {
        match nodes[key] {
            Node::Text(text) => Ok(Some(text)),
            _ => Err(Fault::Mistyped(field)),
        }
    } else {
        Ok(None)
    }
}

/// The table under `key`, if the key is there.
pub open spec fn table_at(nodes: Map<Seq<char>, Node>, key: Seq<char>, field: Field) -> Result<
    Option<Map<Seq<char>, Node>>,
    Fault,
> {
    if nodes.contains_key(key) {
        match nodes[key] {
            Node::Table(inner) => Ok(Some(inner)),
            _ => Err(Fault::Mistyped(field)),
        }
    } else {
        Ok(None)
    }
}

/// The text under a key that must be there.
pub open spec fn need_text(nodes: Map<Seq<char>, Node>, key: Seq<char>, field: Field) -> Result<
    Seq<char>,
    Fault,
> {
    match text_at(nodes, key, field) {
        Ok(Some(text)) => Ok(text),
        Ok(None) => Err(Fault::Missing(field)),
        Err(fault) => Err(fault),
    }
}

/// The text under a key, or `default` where the key is not there.
pub open spec fn text_or(
    nodes: Map<Seq<char>, Node>,
    key: Seq<char>,
    field: Field,
    default: Seq<char>,
) -> Result<Seq<char>, Fault> {
    match text_at(nodes, key, field) {
        Ok(Some(text)) => Ok(text),
        Ok(None) => Ok(default),
        Err(fault) => Err(fault),
    }
}

/// The table under a key that must be there.
pub open spec fn need_table(nodes: Map<Seq<char>, Node>, key: Seq<char>, field: Field) -> Result<
    Map<Seq<char>, Node>,
    Fault,
> {
    match table_at(nodes, key, field) {
        Ok(Some(inner)) => Ok(inner),
        Ok(None) => Err(Fault::Missing(field)),
        Err(fault) => Err(fault),
    }
}

/// The word that stands for a member of the release payload.
pub open spec fn member_word(member: GhVerMember) -> Seq<char> {
    match member {
        GhVerMember::TagName => "tag_name"@,
        GhVerMember::Name => "name"@,
    }
}

//~ Reading

/// The identity that the table `meta` holds.
pub open spec fn decode_meta(nodes: Map<Seq<char>, Node>) -> Result<PackageMetaModel, Fault> {
    let edition = if nodes.contains_key("edition"@) {
        match nodes["edition"@] {
            Node::Integer(number) => if 0 <= number <= usize::MAX {
                Ok(number)
            } else {
                Err(Fault::EditionRange)
            },
            _ => Err(Fault::Mistyped(Field::Edition)),
        }
    } else {
        Ok(NEWEST_EDITION as int)
    };
    match edition {
        Err(fault) => Err(fault),
        Ok(edition) => match need_text(nodes, "identifier"@, Field::Identifier) {
            Err(fault) => Err(fault),
            Ok(identifier) => if identifier.len() == 0 {
                Err(Fault::EmptyIdentifier)
            } else {
                Ok(PackageMetaModel { edition, identifier })
            },
        },
    }
}

/// The member that a table `version` of a source names, `tag_name` by default.
pub open spec fn decode_member(nodes: Map<Seq<char>, Node>) -> Result<GhVerMember, Fault> {
    match text_at(nodes, "member"@, Field::Member) {
        Err(fault) => Err(fault),
        Ok(None) => Ok(GhVerMember::TagName),
        Ok(Some(word)) => if word == "tag_name"@ {
            Ok(GhVerMember::TagName)
        } else if word == "name"@ {
            Ok(GhVerMember::Name)
        } else {
            Err(Fault::Unknown(Field::Member))
        },
    }
}

/// What a table `version` of a source holds.
pub open spec fn decode_source_version(nodes: Map<Seq<char>, Node>) -> Result<
    GithubVersionModel,
    Fault,
> {
    match decode_member(nodes) {
        Err(fault) => Err(fault),
        Ok(member) => match text_or(
            nodes,
            "regex"@,
            Field::SourceRegex,
            DEFAULT_VERSION_REGEX@,
        ) {
            Err(fault) => Err(fault),
            Ok(regex) => Ok(GithubVersionModel { member, regex }),
        },
    }
}

/// The way of unpacking that a source names, if it names one.
pub open spec fn decode_extract(nodes: Map<Seq<char>, Node>) -> Result<
    Option<ExtractType>,
    Fault,
> {
    match text_at(nodes, "extract"@, Field::Extract) {
        Err(fault) => Err(fault),
        Ok(None) => Ok(None),
        Ok(Some(word)) => if word == "tar"@ {
            Ok(Some(ExtractType::Tar))
        } else {
            Err(Fault::Unknown(Field::Extract))
        },
    }
}

/// The source that the table `source.github` holds.
pub open spec fn decode_github(nodes: Map<Seq<char>, Node>) -> Result<GithubModel, Fault> {
    match need_text(nodes, "owner"@, Field::Owner) {
        Err(fault) => Err(fault),
        Ok(owner) => match need_text(nodes, "repo"@, Field::Repo) {
            Err(fault) => Err(fault),
            Ok(repo) => match need_text(nodes, "asset"@, Field::Asset) {
                Err(fault) => Err(fault),
                Ok(asset) => match decode_extract(nodes) {
                    Err(fault) => Err(fault),
                    Ok(extract) => match table_at(nodes, "version"@, Field::SourceVersion) {
                        Err(fault) => Err(fault),
                        Ok(None) => Ok(
                            GithubModel {
                                owner,
                                repo,
                                asset,
                                extract,
                                version: GithubVersionModel::standard(),
                            },
                        ),
                        Ok(Some(inner)) => match decode_source_version(inner) {
                            Err(fault) => Err(fault),
                            Ok(version) => Ok(
                                GithubModel { owner, repo, asset, extract, version },
                            ),
                        },
                    },
                },
            },
        },
    }
}

/// The source that the table `source` holds: exactly one, of a known kind.
pub open spec fn decode_source(nodes: Map<Seq<char>, Node>) -> Result<PackageSourceModel, Fault> {
    if nodes.len() != 1 {
        Err(Fault::NotOneSource)
    } else {
        match table_at(nodes, "github"@, Field::Github) {
            Err(fault) => Err(fault),
            Ok(None) => Err(Fault::Unknown(Field::Source)),
            Ok(Some(inner)) => match decode_github(inner) {
                Err(fault) => Err(fault),
                Ok(github) => Ok(PackageSourceModel::Github(github)),
            },
        }
    }
}

/// What a table `version` of a binary holds.
pub open spec fn decode_binary_version(nodes: Map<Seq<char>, Node>) -> Result<
    BinaryVersionModel,
    Fault,
> {
    match text_or(nodes, "arg"@, Field::Arg, DEFAULT_VERSION_ARG@) {
        Err(fault) => Err(fault),
        Ok(arg) => match text_or(nodes, "regex"@, Field::BinaryRegex, DEFAULT_VERSION_REGEX@) {
            Err(fault) => Err(fault),
            Ok(regex) => Ok(BinaryVersionModel { arg, regex }),
        },
    }
}

/// The install that the table `install.binary` holds.
pub open spec fn decode_binary(nodes: Map<Seq<char>, Node>) -> Result<BinaryInstallModel, Fault> {
    match need_text(nodes, "target"@, Field::Target) {
        Err(fault) => Err(fault),
        Ok(target) => match text_at(nodes, "rename"@, Field::Rename) {
            Err(fault) => Err(fault),
            Ok(rename) => match table_at(nodes, "version"@, Field::BinaryVersion) {
                Err(fault) => Err(fault),
                Ok(None) => Ok(
                    BinaryInstallModel { target, rename, version: BinaryVersionModel::standard() },
                ),
                Ok(Some(inner)) => match decode_binary_version(inner) {
                    Err(fault) => Err(fault),
                    Ok(version) => Ok(BinaryInstallModel { target, rename, version }),
                },
            },
        },
    }
}

/// What the table `install` holds.
pub open spec fn decode_install(nodes: Map<Seq<char>, Node>) -> Result<
    PackageInstallModel,
    Fault,
> {
    match table_at(nodes, "binary"@, Field::Binary) {
        Err(fault) => Err(fault),
        Ok(None) => Ok(PackageInstallModel { binary: None }),
        Ok(Some(inner)) => match decode_binary(inner) {
            Err(fault) => Err(fault),
            Ok(binary) => Ok(PackageInstallModel { binary: Some(binary) }),
        },
    }
}

/// The definition that a document is, or what is wrong with it: the
/// first fault met on the way through `meta`, `source` and `install`.
pub open spec fn decode_nodes(nodes: Map<Seq<char>, Node>) -> Result<PackageConfigModel, Fault> {
    match need_table(nodes, "meta"@, Field::Meta) {
        Err(fault) => Err(fault),
        Ok(meta_nodes) => match decode_meta(meta_nodes) {
            Err(fault) => Err(fault),
            Ok(meta) => match need_table(nodes, "source"@, Field::Source) {
                Err(fault) => Err(fault),
                Ok(source_nodes) => match decode_source(source_nodes) {
                    Err(fault) => Err(fault),
                    Ok(source) => match need_table(nodes, "install"@, Field::Install) {
                        Err(fault) => Err(fault),
                        Ok(install_nodes) => match decode_install(install_nodes) {
                            Err(fault) => Err(fault),
                            Ok(install) => Ok(PackageConfigModel { meta, source, install }),
                        },
                    },
                },
            },
        },
    }
}

fn text_in(table: &toml::Table, key: &str, field: Field) -> (r: Result<Option<String>, Fault>)
    ensures
        match text_at(table_nodes(*table), key@, field) {
            Ok(text) => r matches Ok(found) && text_option_model(found) == text,
            Err(fault) => r matches Err(e) && e == fault,
        },
{
    match lookup(table, key) {
        Found::Missing => Ok(None),
        Found::Text(text) => Ok(Some(text)),
        _ => Err(Fault::Mistyped(field)),
    }
}

fn table_in<'a>(table: &'a toml::Table, key: &str, field: Field) -> (r: Result<
    Option<&'a toml::Table>,
    Fault,
>)
    ensures
        match table_at(table_nodes(*table), key@, field) {
            Ok(Some(nodes)) => r matches Ok(Some(inner)) && table_nodes(*inner) == nodes,
            Ok(None) => r matches Ok(None),
            Err(fault) => r matches Err(e) && e == fault,
        },
{
    match lookup(table, key) {
        Found::Missing => Ok(None),
        Found::Table(inner) => Ok(Some(inner)),
        _ => Err(Fault::Mistyped(field)),
    }
}

pub(crate) fn text_needed(table: &toml::Table, key: &str, field: Field) -> (r: Result<
    String,
    Fault,
>)
    ensures
        match need_text(table_nodes(*table), key@, field) {
            Ok(text) => r matches Ok(found) && found@ == text,
            Err(fault) => r matches Err(e) && e == fault,
        },
{
    match text_in(table, key, field)? {
        Some(text) => Ok(text),
        None => Err(Fault::Missing(field)),
    }
}

fn table_needed<'a>(table: &'a toml::Table, key: &str, field: Field) -> (r: Result<
    &'a toml::Table,
    Fault,
>)
    ensures
        match need_table(table_nodes(*table), key@, field) {
            Ok(nodes) => r matches Ok(inner) && table_nodes(*inner) == nodes,
            Err(fault) => r matches Err(e) && e == fault,
        },
{
    match table_in(table, key, field)? {
        Some(inner) => Ok(inner),
        None => Err(Fault::Missing(field)),
    }
}

fn read_meta(table: &toml::Table) -> (r: Result<PackageMeta, Fault>)
    ensures
        match decode_meta(table_nodes(*table)) {
            Ok(meta) => r matches Ok(found) && found@ == meta,
            Err(fault) => r matches Err(e) && e == fault,
        },
{
    let edition: usize = match lookup(table, "edition") {
        Found::Missing => NEWEST_EDITION,
        Found::Integer(number) => {
            if number < 0 || number as u64 > usize::MAX as u64 {
                return Err(Fault::EditionRange);
            }
            number as usize
        },
        _ => {
            return Err(Fault::Mistyped(Field::Edition));
        },
    };
    let identifier = text_needed(table, "identifier", Field::Identifier)?;
    if identifier.as_str().is_empty() {
        return Err(Fault::EmptyIdentifier);
    }
    Ok(PackageMeta { edition, identifier })
}

fn read_member(table: &toml::Table) -> (r: Result<GhVerMember, Fault>)
    ensures
        match decode_member(table_nodes(*table)) {
            Ok(member) => r matches Ok(found) && found == member,
            Err(fault) => r matches Err(e) && e == fault,
        },
{
    match text_in(table, "member", Field::Member)? {
        None => Ok(GhVerMember::TagName),
        Some(word) => if crate::text::same_text(word.as_str(), "tag_name") {
            Ok(GhVerMember::TagName)
        } else if crate::text::same_text(word.as_str(), "name") {
            Ok(GhVerMember::Name)
        } else {
            Err(Fault::Unknown(Field::Member))
        },
    }
}

fn read_source_version(table: &toml::Table) -> (r: Result<GithubVersion, Fault>)
    ensures
        match decode_source_version(table_nodes(*table)) {
            Ok(version) => r matches Ok(found) && found@ == version,
            Err(fault) => r matches Err(e) && e == fault,
        },
{
    let member = read_member(table)?;
    let regex = match text_in(table, "regex", Field::SourceRegex)? {
        Some(text) => text,
        None => default_version_regex(),
    };
    Ok(GithubVersion { member, regex })
}

fn read_extract(table: &toml::Table) -> (r: Result<Option<ExtractType>, Fault>)
    ensures
        match decode_extract(table_nodes(*table)) {
            Ok(extract) => r matches Ok(found) && found == extract,
            Err(fault) => r matches Err(e) && e == fault,
        },
{
    match text_in(table, "extract", Field::Extract)? {
        None => Ok(None),
        Some(word) => if crate::text::same_text(word.as_str(), "tar") {
            Ok(Some(ExtractType::Tar))
        } else {
            Err(Fault::Unknown(Field::Extract))
        },
    }
}

fn read_github(table: &toml::Table) -> (r: Result<Github, Fault>)
    ensures
        match decode_github(table_nodes(*table)) {
            Ok(github) => r matches Ok(found) && found@ == github,
            Err(fault) => r matches Err(e) && e == fault,
        },
{
    let owner = text_needed(table, "owner", Field::Owner)?;
    let repo = text_needed(table, "repo", Field::Repo)?;
    let asset = text_needed(table, "asset", Field::Asset)?;
    let extract = read_extract(table)?;
    let version = match table_in(table, "version", Field::SourceVersion)? {
        None => GithubVersion { member: GhVerMember::TagName, regex: default_version_regex() },
        Some(inner) => read_source_version(inner)?,
    };
    Ok(Github { owner, repo, asset, extract, version })
}

fn read_source(table: &toml::Table) -> (r: Result<PackageSource, Fault>)
    ensures
        match decode_source(table_nodes(*table)) {
            Ok(source) => r matches Ok(found) && found@ == source,
            Err(fault) => r matches Err(e) && e == fault,
        },
{
    if table_len(table) != 1 {
        return Err(Fault::NotOneSource);
    }
    match table_in(table, "github", Field::Github)? {
        None => Err(Fault::Unknown(Field::Source)),
        Some(inner) => Ok(PackageSource::Github(read_github(inner)?)),
    }
}

fn read_binary_version(table: &toml::Table) -> (r: Result<BinaryVersion, Fault>)
    ensures
        match decode_binary_version(table_nodes(*table)) {
            Ok(version) => r matches Ok(found) && found@ == version,
            Err(fault) => r matches Err(e) && e == fault,
        },
{
    let arg = match text_in(table, "arg", Field::Arg)? {
        Some(text) => text,
        None => default_version_arg(),
    };
    let regex = match text_in(table, "regex", Field::BinaryRegex)? {
        Some(text) => text,
        None => default_version_regex(),
    };
    Ok(BinaryVersion { arg, regex })
}

fn read_binary(table: &toml::Table) -> (r: Result<BinaryInstall, Fault>)
    ensures
        match decode_binary(table_nodes(*table)) {
            Ok(binary) => r matches Ok(found) && found@ == binary,
            Err(fault) => r matches Err(e) && e == fault,
        },
{
    let target = text_needed(table, "target", Field::Target)?;
    let rename = text_in(table, "rename", Field::Rename)?;
    let version = match table_in(table, "version", Field::BinaryVersion)? {
        None => BinaryVersion { arg: default_version_arg(), regex: default_version_regex() },
        Some(inner) => read_binary_version(inner)?,
    };
    Ok(BinaryInstall { target, rename, version })
}

fn read_install(table: &toml::Table) -> (r: Result<PackageInstall, Fault>)
    ensures
        match decode_install(table_nodes(*table)) {
            Ok(install) => r matches Ok(found) && found@ == install,
            Err(fault) => r matches Err(e) && e == fault,
        },
{
    match table_in(table, "binary", Field::Binary)? {
        None => Ok(PackageInstall { binary: None }),
        Some(inner) => Ok(PackageInstall { binary: Some(read_binary(inner)?) }),
    }
}

/// Reads a definition from the table of a document.
pub fn decode(table: &toml::Table) -> (r: Result<PackageConfig, Fault>)
    ensures
        match decode_nodes(table_nodes(*table)) {
            Ok(config) => r matches Ok(found) && found@ == config,
            Err(fault) => r matches Err(e) && e == fault,
        },
{
    let meta = read_meta(table_needed(table, "meta", Field::Meta)?)?;
    let source = read_source(table_needed(table, "source", Field::Source)?)?;
    let install = read_install(table_needed(table, "install", Field::Install)?)?;
    Ok(PackageConfig { meta, source, install })
}

/// The definition that a text is, given the document that the `toml`
/// crate reads from it.
pub open spec fn parse_outcome(text: Seq<char>) -> Result<PackageConfigModel, ConfigError> {
    match toml_document(text) {
        None => Err(ConfigError::Syntax),
        Some(nodes) => match decode_nodes(nodes) {
            Ok(config) => Ok(config),
            Err(fault) => Err(ConfigError::Malformed(fault)),
        },
    }
}

/// Reads a definition from the text of a document.
pub fn parse(text: &str) -> (r: Result<PackageConfig, ConfigError>)
    ensures
        match parse_outcome(text@) {
            Ok(config) => r matches Ok(found) && found@ == config,
            Err(error) => r matches Err(e) && e == error,
        },
{
    match read_table(text) {
        Err(_) => Err(ConfigError::Syntax),
        Ok(table) => match decode(&table) {
            Ok(config) => Ok(config),
            Err(fault) => Err(ConfigError::Malformed(fault)),
        },
    }
}

/// Why a text is no TOML document, in the words of the `toml` crate:
/// there are such words exactly where `parse` answers `Syntax`.
pub fn syntax_report(text: &str) -> (r: Option<String>)
    ensures
        r is Some <==> toml_document(text@) is None,
{
    match read_table(text) {
        Err(error) => Some(read_error_text(&error)),
        Ok(_) => None,
    }
}

//~ Writing

/// The table `meta` of an identity.
pub open spec fn meta_nodes(meta: PackageMetaModel) -> Map<Seq<char>, Node> {
    no_nodes().insert("edition"@, Node::Integer(meta.edition)).insert(
        "identifier"@,
        Node::Text(meta.identifier),
    )
}

/// The table `version` of a source.
pub open spec fn source_version_nodes(version: GithubVersionModel) -> Map<Seq<char>, Node> {
    no_nodes().insert("member"@, Node::Text(member_word(version.member))).insert(
        "regex"@,
        Node::Text(version.regex),
    )
}

/// The table `source.github` of a source. `extract` is written only where there is a way of unpacking.
pub open spec fn github_nodes(github: GithubModel) -> Map<Seq<char>, Node> {
    let always = no_nodes().insert("owner"@, Node::Text(github.owner)).insert(
        "repo"@,
        Node::Text(github.repo),
    ).insert("asset"@, Node::Text(github.asset)).insert(
        "version"@,
        Node::Table(source_version_nodes(github.version)),
    );
    match github.extract {
        Some(ExtractType::Tar) => always.insert("extract"@, Node::Text("tar"@)),
        None => always,
    }
}

/// The table `source` of a source.
pub open spec fn source_nodes(source: PackageSourceModel) -> Map<Seq<char>, Node> {
    match source {
        PackageSourceModel::Github(github) => no_nodes().insert(
            "github"@,
            Node::Table(github_nodes(github)),
        ),
    }
}

/// The table `version` of a binary.
pub open spec fn binary_version_nodes(version: BinaryVersionModel) -> Map<Seq<char>, Node> {
    no_nodes().insert("arg"@, Node::Text(version.arg)).insert("regex"@, Node::Text(version.regex))
}

/// The table `install.binary` of an install. `rename` is written only where there is a new name.
pub open spec fn binary_nodes(binary: BinaryInstallModel) -> Map<Seq<char>, Node> {
    let always = no_nodes().insert("target"@, Node::Text(binary.target)).insert(
        "version"@,
        Node::Table(binary_version_nodes(binary.version)),
    );
    match binary.rename {
        Some(rename) => always.insert("rename"@, Node::Text(rename)),
        None => always,
    }
}

/// The table `install`.
pub open spec fn install_nodes(install: PackageInstallModel) -> Map<Seq<char>, Node> {
    match install.binary {
        Some(binary) => no_nodes().insert("binary"@, Node::Table(binary_nodes(binary))),
        None => no_nodes(),
    }
}

/// The document of a definition, with every default written out, or why
/// the definition cannot be stored.
pub open spec fn encode_nodes(config: PackageConfigModel) -> Result<Map<Seq<char>, Node>, Fault> {
    if config.meta.identifier.len() == 0 {
        Err(Fault::EmptyIdentifier)
    } else if !(0 <= config.meta.edition <= i64::MAX) {
        Err(Fault::EditionRange)
    } else {
        Ok(
            no_nodes().insert("meta"@, Node::Table(meta_nodes(config.meta))).insert(
                "source"@,
                Node::Table(source_nodes(config.source)),
            ).insert("install"@, Node::Table(install_nodes(config.install))),
        )
    }
}

fn member_name(member: GhVerMember) -> (r: String)
    ensures
        r@ == member_word(member),
{
    match member {
        GhVerMember::TagName => "tag_name".to_owned(),
        GhVerMember::Name => "name".to_owned(),
    }
}

fn write_github(github: &Github) -> (r: toml::Table)
    ensures
        table_nodes(r) == github_nodes(github@),
{
    let mut version = empty_table();
    insert_text(&mut version, "member", member_name(github.version.member));
    insert_text(&mut version, "regex", github.version.regex.clone());
    let mut table = empty_table();
    insert_text(&mut table, "owner", github.owner.clone());
    insert_text(&mut table, "repo", github.repo.clone());
    insert_text(&mut table, "asset", github.asset.clone());
    insert_table(&mut table, "version", version);
    match github.extract {
        Some(ExtractType::Tar) => {
            insert_text(&mut table, "extract", "tar".to_owned());
        },
        None => {},
    }
    table
}

fn write_binary(binary: &BinaryInstall) -> (r: toml::Table)
    ensures
        table_nodes(r) == binary_nodes(binary@),
{
    let mut version = empty_table();
    insert_text(&mut version, "arg", binary.version.arg.clone());
    insert_text(&mut version, "regex", binary.version.regex.clone());
    let mut table = empty_table();
    insert_text(&mut table, "target", binary.target.clone());
    insert_table(&mut table, "version", version);
    match &binary.rename {
        Some(rename) => {
            insert_text(&mut table, "rename", rename.clone());
        },
        None => {},
    }
    table
}

/// Writes a definition to the table of a document.
pub fn encode(config: &PackageConfig) -> (r: Result<toml::Table, Fault>)
    ensures
        match encode_nodes(config@) {
            Ok(nodes) => r matches Ok(table) && table_nodes(table) == nodes,
            Err(fault) => r matches Err(e) && e == fault,
        },
{
    if config.meta.identifier.as_str().is_empty() {
        return Err(Fault::EmptyIdentifier);
    }
    if config.meta.edition as u64 > i64::MAX as u64 {
        return Err(Fault::EditionRange);
    }
    let mut meta = empty_table();
    insert_integer(&mut meta, "edition", config.meta.edition as i64);
    insert_text(&mut meta, "identifier", config.meta.identifier.clone());
    let mut source = empty_table();
    match &config.source {
        PackageSource::Github(github) => {
            insert_table(&mut source, "github", write_github(github));
        },
    }
    let mut install = empty_table();
    match &config.install.binary {
        Some(binary) => {
            insert_table(&mut install, "binary", write_binary(binary));
        },
        None => {},
    }
    let mut table = empty_table();
    insert_table(&mut table, "meta", meta);
    insert_table(&mut table, "source", source);
    insert_table(&mut table, "install", install);
    Ok(table)
}

/// What `serialize` answers, given what the `toml` crate writes.
pub open spec fn serialize_outcome(config: PackageConfigModel) -> Result<Seq<char>, ConfigError> {
    match encode_nodes(config) {
        Err(fault) => Err(ConfigError::Malformed(fault)),
        Ok(nodes) => match toml_text(nodes) {
            Some(text) => Ok(text),
            None => Err(ConfigError::Unrenderable),
        },
    }
}

/// Writes a definition as the text of a document.
pub fn serialize(config: &PackageConfig) -> (r: Result<String, ConfigError>)
    ensures
        match serialize_outcome(config@) {
            Ok(text) => r matches Ok(written) && written@ == text,
            Err(error) => r matches Err(e) && e == error,
        },
{
    match encode(config) {
        Err(fault) => Err(ConfigError::Malformed(fault)),
        Ok(table) => match write_table(&table) {
            Ok(text) => Ok(text),
            Err(_) => Err(ConfigError::Unrenderable),
        },
    }
}

//~ Reading back what was written

/// The keys that stand side by side in a table differ, and so do the
/// words that a place can hold.
proof fn lemma_keys_differ()
    ensures
        "meta"@ != "source"@,
        "meta"@ != "install"@,
        "source"@ != "install"@,
        "edition"@ != "identifier"@,
        "owner"@ != "repo"@,
        "owner"@ != "asset"@,
        "owner"@ != "version"@,
        "owner"@ != "extract"@,
        "repo"@ != "asset"@,
        "repo"@ != "version"@,
        "repo"@ != "extract"@,
        "asset"@ != "version"@,
        "asset"@ != "extract"@,
        "version"@ != "extract"@,
        "member"@ != "regex"@,
        "target"@ != "version"@,
        "target"@ != "rename"@,
        "version"@ != "rename"@,
        "arg"@ != "regex"@,
        "tag_name"@ != "name"@,
{
    reveal_strlit("meta");
    reveal_strlit("source");
    reveal_strlit("install");
    reveal_strlit("edition");
    reveal_strlit("identifier");
    reveal_strlit("owner");
    reveal_strlit("repo");
    reveal_strlit("asset");
    reveal_strlit("version");
    reveal_strlit("extract");
    reveal_strlit("member");
    reveal_strlit("regex");
    reveal_strlit("target");
    reveal_strlit("rename");
    reveal_strlit("arg");
    reveal_strlit("tag_name");
    reveal_strlit("name");
    assert("meta"@.len() == 4 && "source"@.len() == 6 && "install"@.len() == 7);
    assert("edition"@.len() == 7 && "identifier"@.len() == 10);
    assert("owner"@.len() == 5 && "repo"@.len() == 4 && "asset"@.len() == 5);
    assert("version"@.len() == 7 && "extract"@.len() == 7);
    assert("member"@.len() == 6 && "regex"@.len() == 5);
    assert("target"@.len() == 6 && "rename"@.len() == 6 && "arg"@.len() == 3);
    assert("tag_name"@.len() == 8 && "name"@.len() == 4);
    assert("owner"@[0] != "asset"@[0]);
    assert("version"@[0] != "extract"@[0]);
    assert("target"@[0] != "rename"@[0]);
}

proof fn lemma_source_version_read_back(version: GithubVersionModel)
    ensures
        decode_source_version(source_version_nodes(version)) == Ok::<GithubVersionModel, Fault>(
            version,
        ),
{
    lemma_keys_differ();
}

proof fn lemma_github_read_back(github: GithubModel)
    ensures
        decode_github(github_nodes(github)) == Ok::<GithubModel, Fault>(github),
{
    lemma_keys_differ();
    lemma_source_version_read_back(github.version);
    if let Some(extract) = github.extract {
        assert(extract == ExtractType::Tar);
    }
}

proof fn lemma_binary_read_back(binary: BinaryInstallModel)
    ensures
        decode_binary(binary_nodes(binary)) == Ok::<BinaryInstallModel, Fault>(binary),
{
    lemma_keys_differ();
}

proof fn lemma_source_read_back(source: PackageSourceModel)
    ensures
        decode_source(source_nodes(source)) == Ok::<PackageSourceModel, Fault>(source),
{
    let PackageSourceModel::Github(github) = source;
    lemma_github_read_back(github);
    let nodes = source_nodes(source);
    assert(nodes.dom() =~= set!["github"@]);
}

/// Reading back what was written gives the definition again: for every
/// valid definition, field for field, the defaults written out included.
pub proof fn lemma_round_trip(config: PackageConfigModel)
    requires
        config.valid(),
    ensures
        encode_nodes(config) matches Ok(nodes) && decode_nodes(nodes) == Ok::<
            PackageConfigModel,
            Fault,
        >(config),
{
    lemma_keys_differ();
    lemma_source_read_back(config.source);
    if let Some(binary) = config.install.binary {
        lemma_binary_read_back(binary);
    }
}

} // verus!
