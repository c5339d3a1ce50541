//! The schema of one package definition: identity, source and install.
//!
//! Every type that owns text has a model, reached with `@`, in which each
//! `String` is the sequence of its characters. Contracts speak of models.

use vstd::prelude::*;

verus! {

/// The schema edition written into new definitions.
pub const NEWEST_EDITION: usize = 0;

/// The version pattern used where a definition names none.
pub const DEFAULT_VERSION_REGEX: &'static str = "\\d+\\.\\d+\\.\\d+(-[A-Za-z0-9]+)?";

/// The argument that asks an installed binary for its version, by default.
pub const DEFAULT_VERSION_ARG: &'static str = "--version";

/// The schema edition written into new definitions.
pub fn newest_edition() -> (r: usize)
    ensures
        r == NEWEST_EDITION,
{
    NEWEST_EDITION
}

/// The version pattern used where a definition names none.
pub fn default_version_regex() -> (r: String)
    ensures
        r@ == DEFAULT_VERSION_REGEX@,
{
    DEFAULT_VERSION_REGEX.to_owned()
}

/// The argument that asks a binary for its version, by default.
pub fn default_version_arg() -> (r: String)
    ensures
        r@ == DEFAULT_VERSION_ARG@,
{
    DEFAULT_VERSION_ARG.to_owned()
}

/// The model of an optional text.
pub open spec fn text_option_model(text: Option<String>) -> Option<Seq<char>> {
    match text {
        Some(s) => Some(s@),
        None => None,
    }
}

//~ Package Config

/// One package: who it is, where it comes from, how it is installed.
#[derive(Debug, Clone, PartialEq, Eq)]
pub struct PackageConfig {
    pub meta: PackageMeta,
    pub source: PackageSource,
    pub install: PackageInstall,
}

/// `PackageConfig`, each text as the sequence of its characters.
pub struct PackageConfigModel {
    pub meta: PackageMetaModel,
    pub source: PackageSourceModel,
    pub install: PackageInstallModel,
}

impl View for PackageConfig {
    type V = PackageConfigModel;

    open spec fn view(&self) -> PackageConfigModel {
        PackageConfigModel { meta: self.meta@, source: self.source@, install: self.install@ }
    }
}

impl PackageConfigModel {
    /// A definition can be stored when it has a name and its edition can
    /// be written as a signed 64-bit integer and read back.
    pub open spec fn valid(self) -> bool {
        self.meta.identifier.len() > 0 && 0 <= self.meta.edition <= i64::MAX
            && self.meta.edition <= usize::MAX
    }
}

impl PackageConfig {
    /// Whether the definition can be stored.
    pub fn is_valid(&self) -> (r: bool)
        ensures
            r == self@.valid(),
    {
        !self.meta.identifier.as_str().is_empty() && self.meta.edition as u64 <= i64::MAX as u64
    }
}

//~ Package Meta

/// Who a package is.
#[derive(Debug, Clone, PartialEq, Eq)]
pub struct PackageMeta {
    pub edition: usize,
    pub identifier: String,
}

/// `PackageMeta`, each text as the sequence of its characters.
pub struct PackageMetaModel {
    pub edition: int,
    pub identifier: Seq<char>,
}

impl View for PackageMeta {
    type V = PackageMetaModel;

    open spec fn view(&self) -> PackageMetaModel {
        PackageMetaModel { edition: self.edition as int, identifier: self.identifier@ }
    }
}

//~ Package Source

/// Where a package comes from. The set of sources is closed.
#[derive(Debug, Clone, PartialEq, Eq)]
pub enum PackageSource {
    Github(Github),
}

/// `PackageSource`, each text as the sequence of its characters.
pub enum PackageSourceModel {
    Github(GithubModel),
}

impl View for PackageSource {
    type V = PackageSourceModel;

    open spec fn view(&self) -> PackageSourceModel {
        match self {
            PackageSource::Github(github) => PackageSourceModel::Github(github@),
        }
    }
}

/// The kinds of source, as offered in a menu.
#[derive(Debug, Clone, Copy, PartialEq, Eq, Structural)]
pub enum PackageSourceTag {
    Github,
}

impl PackageSourceTag {
    /// The text shown for it.
    pub open spec fn label_text(self) -> Seq<char> {
        match self {
            PackageSourceTag::Github => "GitHub Release"@,
        }
    }

    /// The text shown for this kind of source.
    pub fn label(&self) -> (r: String)
        ensures
            r@ == self.label_text(),
    {
        match self {
            PackageSourceTag::Github => "GitHub Release".to_owned(),
        }
    }
}

impl PackageSource {
    /// The kind of a source.
    pub open spec fn tag_of(source: PackageSourceModel) -> PackageSourceTag {
        match source {
            PackageSourceModel::Github(_) => PackageSourceTag::Github,
        }
    }

    /// The kind of this source.
    pub fn tag(&self) -> (r: PackageSourceTag)
        ensures
            r == Self::tag_of(self@),
    {
        match self {
            PackageSource::Github(_) => PackageSourceTag::Github,
        }
    }
}

/// The kinds of source to choose from.
pub fn all_package_sources() -> (r: Vec<PackageSourceTag>)
    ensures
        r@ == seq![PackageSourceTag::Github],
{
    vec![PackageSourceTag::Github]
}

//~ Package Install

/// What is done with the fetched files. With no action the package is
/// fetched and unpacked, and nothing is installed.
#[derive(Debug, Clone, PartialEq, Eq)]
pub struct PackageInstall {
    pub binary: Option<BinaryInstall>,
}

/// `PackageInstall`, each text as the sequence of its characters.
pub struct PackageInstallModel {
    pub binary: Option<BinaryInstallModel>,
}

impl View for PackageInstall {
    type V = PackageInstallModel;

    open spec fn view(&self) -> PackageInstallModel {
        PackageInstallModel {
            binary: match self.binary {
                Some(binary) => Some(binary@),
                None => None,
            },
        }
    }
}

impl Default for PackageInstall {
    fn default() -> (r: Self)
        ensures
            r@ == (PackageInstallModel { binary: None }),
    {
        PackageInstall { binary: None }
    }
}

/// The install actions, as offered in a menu. `NoOp` ends the menu.
#[derive(Debug, Clone, Copy, PartialEq, Eq, Structural)]
pub enum PackageInstallOption {
    NoOp,
    Binary,
}

impl PackageInstallOption {
    /// The text shown for it.
    pub open spec fn label_text(self) -> Seq<char> {
        match self {
            PackageInstallOption::NoOp => "No other install action"@,
            PackageInstallOption::Binary => "Install as binary executable"@,
        }
    }

    /// The text shown for this action.
    pub fn label(&self) -> (r: String)
        ensures
            r@ == self.label_text(),
    {
        match self {
            PackageInstallOption::NoOp => "No other install action".to_owned(),
            PackageInstallOption::Binary => "Install as binary executable".to_owned(),
        }
    }
}

/// The install actions to choose from. The choice to stop is not among them.
pub fn all_install_options_besides_noop() -> (r: Vec<PackageInstallOption>)
    ensures
        r@ == seq![PackageInstallOption::Binary],
{
    vec![PackageInstallOption::Binary]
}

//~ Github Release Config

/// A release asset of a GitHub repository. In `asset`, `{version}`
/// stands for the version of the release.
#[derive(Debug, Clone, PartialEq, Eq)]
pub struct Github {
    pub owner: String,
    pub repo: String,
    pub asset: String,
    pub extract: Option<ExtractType>,
    pub version: GithubVersion,
}

/// `Github`, each text as the sequence of its characters.
pub struct GithubModel {
    pub owner: Seq<char>,
    pub repo: Seq<char>,
    pub asset: Seq<char>,
    pub extract: Option<ExtractType>,
    pub version: GithubVersionModel,
}

impl View for Github {
    type V = GithubModel;

    open spec fn view(&self) -> GithubModel {
        GithubModel {
            owner: self.owner@,
            repo: self.repo@,
            asset: self.asset@,
            extract: self.extract,
            version: self.version@,
        }
    }
}

/// How the version of a release is read from the release payload.
#[derive(Debug, Clone, PartialEq, Eq)]
pub struct GithubVersion {
    pub member: GhVerMember,
    pub regex: String,
}

/// `GithubVersion`, each text as the sequence of its characters.
pub struct GithubVersionModel {
    pub member: GhVerMember,
    pub regex: Seq<char>,
}

impl View for GithubVersion {
    type V = GithubVersionModel;

    open spec fn view(&self) -> GithubVersionModel {
        GithubVersionModel { member: self.member, regex: self.regex@ }
    }
}

impl GithubVersionModel {
    /// The tag name, read with the default pattern.
    pub open spec fn standard() -> GithubVersionModel {
        GithubVersionModel { member: GhVerMember::TagName, regex: DEFAULT_VERSION_REGEX@ }
    }
}

impl Default for GithubVersion {
    fn default() -> (r: Self)
        ensures
            r@ == GithubVersionModel::standard(),
    {
        GithubVersion { regex: default_version_regex(), member: default_gh_ver_member() }
    }
}

//~ Github API JSON Member

/// The member of a release payload that carries the version text.
#[derive(Debug, Clone, Copy, PartialEq, Eq, Structural)]
pub enum GhVerMember {
    TagName,
    Name,
}

impl GhVerMember {
    /// The text shown for it.
    pub open spec fn label_text(self) -> Seq<char> {
        match self {
            GhVerMember::TagName => "`.tag_name`"@,
            GhVerMember::Name => "`.name`"@,
        }
    }

    /// The text shown for this member.
    pub fn label(&self) -> (r: String)
        ensures
            r@ == self.label_text(),
    {
        match self {
            GhVerMember::TagName => "`.tag_name`".to_owned(),
            GhVerMember::Name => "`.name`".to_owned(),
        }
    }
}

impl Default for GhVerMember {
    fn default() -> (r: Self)
        ensures
            r == GhVerMember::TagName,
    {
        GhVerMember::TagName
    }
}

/// The members of a release payload to choose from.
pub fn all_gh_ver_members() -> (r: Vec<GhVerMember>)
    ensures
        r@ == seq![GhVerMember::TagName, GhVerMember::Name],
{
    vec![GhVerMember::TagName, GhVerMember::Name]
}

/// The member that holds the version where a definition names none.
pub fn default_gh_ver_member() -> (r: GhVerMember)
    ensures
        r == GhVerMember::TagName,
{
    GhVerMember::TagName
}

//~ Binary Install

/// Install one of the fetched files as a runnable binary.
#[derive(Debug, Clone, PartialEq, Eq)]
pub struct BinaryInstall {
    /// The file, among those fetched, that becomes the binary.
    pub target: String,
    /// The file name to install it under, where it differs.
    pub rename: Option<String>,
    pub version: BinaryVersion,
}

/// `BinaryInstall`, each text as the sequence of its characters.
pub struct BinaryInstallModel {
    pub target: Seq<char>,
    pub rename: Option<Seq<char>>,
    pub version: BinaryVersionModel,
}

impl View for BinaryInstall {
    type V = BinaryInstallModel;

    open spec fn view(&self) -> BinaryInstallModel {
        BinaryInstallModel {
            target: self.target@,
            rename: text_option_model(self.rename),
            version: self.version@,
        }
    }
}

/// How the version of an installed binary is read from what it prints.
#[derive(Debug, Clone, PartialEq, Eq)]
pub struct BinaryVersion {
    pub arg: String,
    pub regex: String,
}

/// `BinaryVersion`, each text as the sequence of its characters.
pub struct BinaryVersionModel {
    pub arg: Seq<char>,
    pub regex: Seq<char>,
}

impl View for BinaryVersion {
    type V = BinaryVersionModel;

    open spec fn view(&self) -> BinaryVersionModel {
        BinaryVersionModel { arg: self.arg@, regex: self.regex@ }
    }
}

impl BinaryVersionModel {
    /// The default argument, read with the default pattern.
    pub open spec fn standard() -> BinaryVersionModel {
        BinaryVersionModel { arg: DEFAULT_VERSION_ARG@, regex: DEFAULT_VERSION_REGEX@ }
    }
}

impl Default for BinaryVersion {
    fn default() -> (r: Self)
        ensures
            r@ == BinaryVersionModel::standard(),
    {
        BinaryVersion { arg: default_version_arg(), regex: default_version_regex() }
    }
}

//~ Extract Type

/// How a fetched artifact is unpacked, where it is.
#[derive(Debug, Clone, Copy, PartialEq, Eq, Structural)]
pub enum ExtractType {
    Tar,
}

impl ExtractType {
    /// The text shown for it.
    pub open spec fn label_text(self) -> Seq<char> {
        match self {
            ExtractType::Tar => "Tar"@,
        }
    }

    /// The text shown for this way of unpacking.
    pub fn label(&self) -> (r: String)
        ensures
            r@ == self.label_text(),
    {
        match self {
            ExtractType::Tar => "Tar".to_owned(),
        }
    }
}

/// The ways of unpacking, as offered in a menu: not at all, or one of
/// `ExtractType`.
#[derive(Debug, Clone, Copy, PartialEq, Eq, Structural)]
pub enum ExtractOption {
    AsIs,
    Tar,
}

impl ExtractOption {
    /// The text shown for it.
    pub open spec fn label_text(self) -> Seq<char> {
        match self {
            ExtractOption::AsIs => "Don't extract"@,
            ExtractOption::Tar => "Tar"@,
        }
    }

    /// The text shown for this choice.
    pub fn label(&self) -> (r: String)
        ensures
            r@ == self.label_text(),
    {
        match self {
            ExtractOption::AsIs => "Don't extract".to_owned(),
            ExtractOption::Tar => "Tar".to_owned(),
        }
    }

    /// The stored form of a choice.
    pub open spec fn to_extract(self) -> Option<ExtractType> {
        match self {
            ExtractOption::AsIs => None,
            ExtractOption::Tar => Some(ExtractType::Tar),
        }
    }

    /// The choice that a stored form stands for.
    pub open spec fn of_extract(extract: Option<ExtractType>) -> ExtractOption {
        match extract {
            None => ExtractOption::AsIs,
            Some(ExtractType::Tar) => ExtractOption::Tar,
        }
    }

    /// Going to the stored form and back changes nothing, either way round.
    pub proof fn lemma_extract_round_trip(choice: ExtractOption, extract: Option<ExtractType>)
        ensures
            Self::of_extract(choice.to_extract()) == choice,
            Self::of_extract(extract).to_extract() == extract,
    {
    }
}

impl From<ExtractOption> for Option<ExtractType> {
    fn from(value: ExtractOption) -> (r: Self) {
        match value {
            ExtractOption::AsIs => None,
            ExtractOption::Tar => Some(ExtractType::Tar),
        }
    }
}

impl vstd::std_specs::convert::FromSpecImpl<ExtractOption> for Option<ExtractType> {
    open spec fn obeys_from_spec() -> bool {
        true
    }

    open spec fn from_spec(value: ExtractOption) -> Self {
        value.to_extract()
    }
}

impl From<Option<ExtractType>> for ExtractOption {
    fn from(value: Option<ExtractType>) -> (r: Self) {
        match value {
            None => ExtractOption::AsIs,
            Some(ExtractType::Tar) => ExtractOption::Tar,
        }
    }
}

impl vstd::std_specs::convert::FromSpecImpl<Option<ExtractType>> for ExtractOption {
    open spec fn obeys_from_spec() -> bool {
        true
    }

    open spec fn from_spec(value: Option<ExtractType>) -> Self {
        ExtractOption::of_extract(value)
    }
}

/// The ways of unpacking to choose from.
pub fn all_extract_option() -> (r: Vec<ExtractOption>)
    ensures
        r@ == seq![ExtractOption::AsIs, ExtractOption::Tar],
{
    vec![ExtractOption::AsIs, ExtractOption::Tar]
}

} // verus!
