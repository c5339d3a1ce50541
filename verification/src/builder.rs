//! Building a definition from answers, one question at a time.
//!
//! The builder decides what is asked next and what an answer does; whoever
//! talks to the user asks the question and hands the answer back.

use vstd::prelude::*;
use crate::config::package::{
    default_version_arg, default_version_regex, BinaryInstall, BinaryInstallModel, BinaryVersion,
    BinaryVersionModel, ExtractOption, GhVerMember, Github, GithubModel,
    GithubVersion, GithubVersionModel, PackageConfig, PackageConfigModel, PackageInstall,
    PackageInstallModel, PackageInstallOption, PackageMeta, PackageMetaModel, PackageSource,
    PackageSourceModel, PackageSourceTag, text_option_model, DEFAULT_VERSION_REGEX,
    NEWEST_EDITION,
};
use crate::menu::{lemma_without, InstallMenu, MenuState};
use crate::text::{is_listed, names_set};

verus! {

/// The questions, in the order in which they can come.
#[derive(Debug, Clone, Copy, PartialEq, Eq, Structural)]
pub enum Step {
    Identifier,
    Source,
    Owner,
    Repo,
    Asset,
    Extract,
    SourceVersion,
    Member,
    SourceRegex,
    Install,
    Target,
    Rename,
    BinaryVersion,
    VersionArg,
    BinaryRegex,
    Done,
}

/// The part of the definition that a question belongs to.
#[derive(Debug, Clone, Copy, PartialEq, Eq, Structural)]
pub enum Section {
    General,
    Github,
    Binary,
}

impl Step {
    /// The part of the definition that this question belongs to.
    pub open spec fn section_of(self) -> Section {
        match self {
            Step::Owner | Step::Repo | Step::Asset | Step::Extract | Step::SourceVersion
            | Step::Member | Step::SourceRegex => Section::Github,
            Step::Target | Step::Rename | Step::BinaryVersion | Step::VersionArg
            | Step::BinaryRegex => Section::Binary,
            _ => Section::General,
        }
    }

    /// The part of the definition that this question belongs to.
    pub fn section(&self) -> (r: Section)
        ensures
            r == self.section_of(),
    {
        match self {
            Step::Owner | Step::Repo | Step::Asset | Step::Extract | Step::SourceVersion
            | Step::Member | Step::SourceRegex => Section::Github,
            Step::Target | Step::Rename | Step::BinaryVersion | Step::VersionArg
            | Step::BinaryRegex => Section::Binary,
            _ => Section::General,
        }
    }

    /// The words, as text.
    pub open spec fn message_text(self) -> Seq<char> {
        match self {
            Step::Identifier => "Package identifier:"@,
            Step::Source => "Package source:"@,
            Step::Owner => "Repo owner:"@,
            Step::Repo => "Repo name:"@,
            Step::Asset => "Release asset name:"@,
            Step::Extract => "Extract type:"@,
            Step::SourceVersion => "Customize version config?"@,
            Step::Member => "Release API JSON member:"@,
            Step::SourceRegex => "Content version regex matcher:"@,
            Step::Install => "Install option"@,
            Step::Target => "Target name:"@,
            Step::Rename => "Rename binary target:"@,
            Step::BinaryVersion => "Customize version config?"@,
            Step::VersionArg => "Version arg:"@,
            Step::BinaryRegex => "Output version regex matcher:"@,
            Step::Done => ""@,
        }
    }

    /// The words of the question.
    pub fn message(&self) -> (r: String)
        ensures
            r@ == self.message_text(),
    {
        match self {
            Step::Identifier => "Package identifier:".to_owned(),
            Step::Source => "Package source:".to_owned(),
            Step::Owner => "Repo owner:".to_owned(),
            Step::Repo => "Repo name:".to_owned(),
            Step::Asset => "Release asset name:".to_owned(),
            Step::Extract => "Extract type:".to_owned(),
            Step::SourceVersion => "Customize version config?".to_owned(),
            Step::Member => "Release API JSON member:".to_owned(),
            Step::SourceRegex => "Content version regex matcher:".to_owned(),
            Step::Install => "Install option".to_owned(),
            Step::Target => "Target name:".to_owned(),
            Step::Rename => "Rename binary target:".to_owned(),
            Step::BinaryVersion => "Customize version config?".to_owned(),
            Step::VersionArg => "Version arg:".to_owned(),
            Step::BinaryRegex => "Output version regex matcher:".to_owned(),
            Step::Done => "".to_owned(),
        }
    }

    /// The hint, as text, where there is one.
    pub open spec fn help_text(self) -> Option<Seq<char>> {
        match self {
            Step::Asset => Some("Use \"{version}\" to represent version numbers"@),
            Step::Rename => Some("leave it empty or press <ESC> for not renaming"@),
            _ => None,
        }
    }

    /// A hint to show beneath the question, where there is one.
    pub fn help(&self) -> (r: Option<String>)
        ensures
            text_option_model(r) == self.help_text(),
    {
        match self {
            Step::Asset => Some("Use \"{version}\" to represent version numbers".to_owned()),
            Step::Rename => Some("leave it empty or press <ESC> for not renaming".to_owned()),
            _ => None,
        }
    }
}

/// What the user answered.
#[derive(Debug, Clone, PartialEq, Eq)]
pub enum Answer {
    Text(String),
    /// The question was passed over.
    Skipped,
    Confirm(bool),
    Source(PackageSourceTag),
    Extract(ExtractOption),
    Member(GhVerMember),
    Install(PackageInstallOption),
    /// The user broke off.
    Cancelled,
}

/// `Answer`, each text as the sequence of its characters.
pub enum AnswerModel {
    Text(Seq<char>),
    Skipped,
    Confirm(bool),
    Source(PackageSourceTag),
    Extract(ExtractOption),
    Member(GhVerMember),
    Install(PackageInstallOption),
    Cancelled,
}

impl View for Answer {
    type V = AnswerModel;

    open spec fn view(&self) -> AnswerModel {
        match self {
            Answer::Text(text) => AnswerModel::Text(text@),
            Answer::Skipped => AnswerModel::Skipped,
            Answer::Confirm(yes) => AnswerModel::Confirm(*yes),
            Answer::Source(tag) => AnswerModel::Source(*tag),
            Answer::Extract(choice) => AnswerModel::Extract(*choice),
            Answer::Member(member) => AnswerModel::Member(*member),
            Answer::Install(option) => AnswerModel::Install(*option),
            Answer::Cancelled => AnswerModel::Cancelled,
        }
    }
}

/// Why an answer was refused. The builder is then as it was.
#[derive(Debug, Clone, Copy, PartialEq, Eq, Structural)]
pub enum BuildError {
    /// The user broke off: no definition comes of this.
    Cancelled,
    /// A definition with this identifier is stored already.
    Collision,
    /// The question needs an answer that is not empty.
    Required,
    /// The answer is of another kind than the question.
    Unexpected,
    /// The option chosen was not offered.
    NotOffered,
    /// Nothing is asked any more.
    Finished,
}

/// All that a builder holds.
pub struct BuilderModel {
    /// The identifiers that stored definitions have.
    pub taken: Set<Seq<char>>,
    pub step: Step,
    pub identifier: Seq<char>,
    pub owner: Seq<char>,
    pub repo: Seq<char>,
    pub asset: Seq<char>,
    pub extract: ExtractOption,
    pub version: GithubVersionModel,
    pub menu: MenuState,
    pub target: Seq<char>,
    pub rename: Option<Seq<char>>,
    /// How the binary's version is read, as far as it was answered.
    pub probe: BinaryVersionModel,
    pub binary: Option<BinaryInstallModel>,
}

/// The text of an answer to a question that needs one.
pub open spec fn required_text(answer: AnswerModel) -> Result<Seq<char>, BuildError> {
    match answer {
        AnswerModel::Text(text) => if text.len() > 0 {
            Ok(text)
        } else {
            Err(BuildError::Required)
        },
        _ => Err(BuildError::Unexpected),
    }
}

/// The pattern that an answer gives: its text, or the default pattern
/// where the text is empty.
pub open spec fn pattern_text(answer: AnswerModel) -> Result<Seq<char>, BuildError> {
    match answer {
        AnswerModel::Text(text) => if text.len() > 0 {
            Ok(text)
        } else {
            Ok(DEFAULT_VERSION_REGEX@)
        },
        _ => Err(BuildError::Unexpected),
    }
}

/// The new name that an answer gives, if any: a question passed over and
/// an empty text both mean that the file keeps its name.
pub open spec fn rename_text(answer: AnswerModel) -> Result<Option<Seq<char>>, BuildError> {
    match answer {
        AnswerModel::Text(text) => if text.len() > 0 {
            Ok(Some(text))
        } else {
            Ok(None)
        },
        AnswerModel::Skipped => Ok(None),
        _ => Err(BuildError::Unexpected),
    }
}

/// A text, unless it is empty.
pub open spec fn filled(text: Seq<char>) -> Option<Seq<char>> {
    if text.len() > 0 {
        Some(text)
    } else {
        None
    }
}

impl BuilderModel {
    /// A builder that has asked nothing yet.
    pub open spec fn blank(taken: Set<Seq<char>>) -> BuilderModel {
        BuilderModel {
            taken,
            step: Step::Identifier,
            identifier: Seq::empty(),
            owner: Seq::empty(),
            repo: Seq::empty(),
            asset: Seq::empty(),
            extract: ExtractOption::AsIs,
            version: GithubVersionModel::standard(),
            menu: MenuState::start(),
            target: Seq::empty(),
            rename: None,
            probe: BinaryVersionModel { arg: Seq::empty(), regex: DEFAULT_VERSION_REGEX@ },
            binary: None,
        }
    }

    /// The builder after `answer`, or why the answer is refused.
    pub open spec fn advance(self, answer: AnswerModel) -> Result<BuilderModel, BuildError> {
        if answer is Cancelled {
            Err(BuildError::Cancelled)
        } else {
            match self.step {
                Step::Identifier => match required_text(answer) {
                    Ok(text) => if self.taken.contains(text) {
                        Err(BuildError::Collision)
                    } else {
                        Ok(BuilderModel { identifier: text, step: Step::Source, ..self })
                    },
                    Err(e) => Err(e),
                },
                Step::Source => match answer {
                    AnswerModel::Source(PackageSourceTag::Github) => Ok(
                        BuilderModel { step: Step::Owner, ..self },
                    ),
                    _ => Err(BuildError::Unexpected),
                },
                Step::Owner => match required_text(answer) {
                    Ok(text) => Ok(BuilderModel { owner: text, step: Step::Repo, ..self }),
                    Err(e) => Err(e),
                },
                Step::Repo => match required_text(answer) {
                    Ok(text) => Ok(BuilderModel { repo: text, step: Step::Asset, ..self }),
                    Err(e) => Err(e),
                },
                Step::Asset => match required_text(answer) {
                    Ok(text) => Ok(BuilderModel { asset: text, step: Step::Extract, ..self }),
                    Err(e) => Err(e),
                },
                Step::Extract => match answer {
                    AnswerModel::Extract(choice) => Ok(
                        BuilderModel { extract: choice, step: Step::SourceVersion, ..self },
                    ),
                    _ => Err(BuildError::Unexpected),
                },
                Step::SourceVersion => match answer {
                    AnswerModel::Confirm(yes) => if yes {
                        Ok(BuilderModel { step: Step::Member, ..self })
                    } else {
                        Ok(
                            BuilderModel {
                                version: GithubVersionModel::standard(),
                                step: Step::Install,
                                ..self
                            },
                        )
                    },
                    _ => Err(BuildError::Unexpected),
                },
                Step::Member => match answer {
                    AnswerModel::Member(member) => Ok(
                        BuilderModel {
                            version: GithubVersionModel { member, regex: self.version.regex },
                            step: Step::SourceRegex,
                            ..self
                        },
                    ),
                    _ => Err(BuildError::Unexpected),
                },
                Step::SourceRegex => match pattern_text(answer) {
                    Ok(regex) => Ok(
                        BuilderModel {
                            version: GithubVersionModel { member: self.version.member, regex },
                            step: Step::Install,
                            ..self
                        },
                    ),
                    Err(e) => Err(e),
                },
                Step::Install => match answer {
                    AnswerModel::Install(option) => match self.menu.select(option) {
                        Ok(menu) => Ok(
                            BuilderModel {
                                menu,
                                step: match option {
                                    PackageInstallOption::NoOp => Step::Done,
                                    PackageInstallOption::Binary => Step::Target,
                                },
                                ..self
                            },
                        ),
                        Err(_) => Err(BuildError::NotOffered),
                    },
                    _ => Err(BuildError::Unexpected),
                },
                Step::Target => match required_text(answer) {
                    Ok(text) => Ok(BuilderModel { target: text, step: Step::Rename, ..self }),
                    Err(e) => Err(e),
                },
                Step::Rename => match rename_text(answer) {
                    Ok(rename) => Ok(BuilderModel { rename, step: Step::BinaryVersion, ..self }),
                    Err(e) => Err(e),
                },
                Step::BinaryVersion => match answer {
                    AnswerModel::Confirm(yes) => if yes {
                        Ok(BuilderModel { step: Step::VersionArg, ..self })
                    } else {
                        Ok(
                            BuilderModel {
                                binary: Some(
                                    BinaryInstallModel {
                                        target: self.target,
                                        rename: self.rename,
                                        version: BinaryVersionModel::standard(),
                                    },
                                ),
                                step: Step::Install,
                                ..self
                            },
                        )
                    },
                    _ => Err(BuildError::Unexpected),
                },
                Step::VersionArg => match required_text(answer) {
                    Ok(text) => Ok(
                        BuilderModel {
                            probe: BinaryVersionModel { arg: text, regex: self.probe.regex },
                            step: Step::BinaryRegex,
                            ..self
                        },
                    ),
                    Err(e) => Err(e),
                },
                Step::BinaryRegex => match pattern_text(answer) {
                    Ok(regex) => Ok(
                        BuilderModel {
                            probe: BinaryVersionModel { arg: self.probe.arg, regex },
                            binary: Some(
                                BinaryInstallModel {
                                    target: self.target,
                                    rename: self.rename,
                                    version: BinaryVersionModel { arg: self.probe.arg, regex },
                                },
                            ),
                            step: Step::Install,
                            ..self
                        },
                    ),
                    Err(e) => Err(e),
                },
                Step::Done => Err(BuildError::Finished),
            }
        }
    }

    /// A builder that starts from a stored definition: the identifier
    /// stays, and every other question is asked again with the stored
    /// answer at hand.
    pub open spec fn seeded(taken: Set<Seq<char>>, existing: PackageConfigModel) -> BuilderModel {
        let PackageSourceModel::Github(github) = existing.source;
        let blank = Self::blank(taken);
        BuilderModel {
            taken,
            step: Step::Source,
            identifier: existing.meta.identifier,
            owner: github.owner,
            repo: github.repo,
            asset: github.asset,
            extract: ExtractOption::of_extract(github.extract),
            version: github.version,
            menu: MenuState::start(),
            target: match existing.install.binary {
                Some(binary) => binary.target,
                None => blank.target,
            },
            rename: match existing.install.binary {
                Some(binary) => binary.rename,
                None => blank.rename,
            },
            probe: match existing.install.binary {
                Some(binary) => binary.version,
                None => blank.probe,
            },
            binary: None,
        }
    }

    /// The answer to put before the user as the likely one, if any.
    pub open spec fn suggestion(self) -> Option<Seq<char>> {
        match self.step {
            Step::Owner => filled(self.owner),
            Step::Repo => filled(self.repo),
            Step::Asset => filled(self.asset),
            Step::SourceRegex => filled(self.version.regex),
            Step::Target => filled(self.target),
            Step::Rename => self.rename,
            Step::VersionArg => filled(self.probe.arg),
            Step::BinaryRegex => filled(self.probe.regex),
            _ => None,
        }
    }

    /// The definition that the answers so far make up.
    pub open spec fn assembled(self) -> PackageConfigModel {
        PackageConfigModel {
            meta: PackageMetaModel { edition: NEWEST_EDITION as int, identifier: self.identifier },
            source: PackageSourceModel::Github(
                GithubModel {
                    owner: self.owner,
                    repo: self.repo,
                    asset: self.asset,
                    extract: self.extract.to_extract(),
                    version: self.version,
                },
            ),
            install: PackageInstallModel { binary: self.binary },
        }
    }

    /// How many answers the builder can still take, at most.
    pub open spec fn answers_left(self) -> nat {
        let menu: nat = match self.menu {
            MenuState::Offering { remaining, .. } => 6 * remaining.len() + 1,
            MenuState::Done => 0,
        };
        match self.step {
            Step::Identifier => 9 + menu,
            Step::Source => 8 + menu,
            Step::Owner => 7 + menu,
            Step::Repo => 6 + menu,
            Step::Asset => 5 + menu,
            Step::Extract => 4 + menu,
            Step::SourceVersion => 3 + menu,
            Step::Member => 2 + menu,
            Step::SourceRegex => 1 + menu,
            Step::Install => menu,
            Step::Target => 5 + menu,
            Step::Rename => 4 + menu,
            Step::BinaryVersion => 3 + menu,
            Step::VersionArg => 2 + menu,
            Step::BinaryRegex => 1 + menu,
            Step::Done => 0,
        }
    }
}

impl BuilderModel {
    /// Past the first question the definition has a name.
    pub open spec fn named(self) -> bool {
        self.step != Step::Identifier ==> self.identifier.len() > 0
    }
}

/// A definition that is built from nothing has a name and can be
/// stored: the builder that asks for everything starts named, every
/// answer keeps it named, and where a named builder is done what it has
/// assembled is valid.
pub proof fn lemma_built_is_valid(state: BuilderModel, answer: AnswerModel)
    ensures
        BuilderModel::blank(state.taken).named(),
        state.named() && state.advance(answer) is Ok ==> state.advance(answer)->Ok_0.named(),
        state.named() && state.step == Step::Done ==> state.assembled().valid(),
{
}

impl BuilderModel {
    /// What was chosen is answered: before the menu of install actions
    /// is reached no action is chosen, and whenever the menu is asked
    /// with an action chosen, and when the builder is done, the install
    /// of the binary is there.
    pub open spec fn settled(self) -> bool {
        match self.step {
            Step::Identifier | Step::Source | Step::Owner | Step::Repo | Step::Asset
            | Step::Extract | Step::SourceVersion | Step::Member | Step::SourceRegex => {
                self.menu matches MenuState::Offering { any_chosen, .. } && !any_chosen
            },
            Step::Install => {
                self.menu matches MenuState::Offering { any_chosen, .. } && any_chosen
                    ==> self.binary is Some
            },
            Step::Done => self.binary is Some,
            _ => true,
        }
    }
}

/// A finished definition holds an install action: every builder
/// starts settled, every answer keeps it settled, and a settled builder
/// that is done has assembled a definition with the install of a
/// binary.
pub proof fn lemma_built_holds_action(
    state: BuilderModel,
    answer: AnswerModel,
    existing: PackageConfigModel,
)
    ensures
        BuilderModel::blank(state.taken).settled(),
        BuilderModel::seeded(state.taken, existing).settled(),
        state.settled() && state.advance(answer) is Ok ==> state.advance(answer)->Ok_0.settled(),
        state.settled() && state.step == Step::Done ==> state.assembled().install.binary is Some,
{
}

/// Once the definition has its identifier no answer changes it.
pub proof fn lemma_identifier_stays(state: BuilderModel, answer: AnswerModel)
    requires
        state.step != Step::Identifier,
        state.advance(answer) is Ok,
    ensures
        state.advance(answer)->Ok_0.identifier == state.identifier,
        state.advance(answer)->Ok_0.step != Step::Identifier,
{
}

/// Every answer taken brings the end nearer: a run of the builder takes
/// no more answers than `answers_left` says at its start.
pub proof fn lemma_answer_brings_end_nearer(state: BuilderModel, answer: AnswerModel)
    requires
        state.advance(answer) is Ok,
    ensures
        state.advance(answer)->Ok_0.answers_left() < state.answers_left(),
{
    if state.step == Step::Install {
        if let AnswerModel::Install(option) = answer {
            if let MenuState::Offering { remaining, .. } = state.menu {
                lemma_without(remaining, option);
            }
        }
    }
}

/// While no install action has been chosen the builder does not take
/// the choice to stop, and it is done only by that choice.
pub proof fn lemma_done_by_stopping(state: BuilderModel, answer: AnswerModel)
    requires
        state.step != Step::Done,
        state.advance(answer) matches Ok(next) && next.step == Step::Done,
    ensures
        state.step == Step::Install,
        answer == AnswerModel::Install(PackageInstallOption::NoOp),
        state.menu matches MenuState::Offering { any_chosen, .. } && any_chosen,
{
}

fn take_required(answer: Answer) -> (r: Result<String, BuildError>)
    ensures
        match required_text(answer@) {
            Ok(text) => r matches Ok(s) && s@ == text,
            Err(e) => r matches Err(f) && f == e,
        },
{
    match answer {
        Answer::Text(text) => if text.as_str().is_empty() {
            Err(BuildError::Required)
        } else {
            Ok(text)
        },
        _ => Err(BuildError::Unexpected),
    }
}

fn take_pattern(answer: Answer) -> (r: Result<String, BuildError>)
    ensures
        match pattern_text(answer@) {
            Ok(text) => r matches Ok(s) && s@ == text,
            Err(e) => r matches Err(f) && f == e,
        },
{
    match answer {
        Answer::Text(text) => if text.as_str().is_empty() {
            Ok(default_version_regex())
        } else {
            Ok(text)
        },
        _ => Err(BuildError::Unexpected),
    }
}

fn take_rename(answer: Answer) -> (r: Result<Option<String>, BuildError>)
    ensures
        match rename_text(answer@) {
            Ok(rename) => r matches Ok(s) && text_option_model(s) == rename,
            Err(e) => r matches Err(f) && f == e,
        },
{
    match answer {
        Answer::Text(text) => if text.as_str().is_empty() {
            Ok(None)
        } else {
            Ok(Some(text))
        },
        Answer::Skipped => Ok(None),
        _ => Err(BuildError::Unexpected),
    }
}

fn copy_of(text: &Option<String>) -> (r: Option<String>)
    ensures
        text_option_model(r) == text_option_model(*text),
{
    match text {
        Some(s) => Some(s.clone()),
        None => None,
    }
}

fn unless_empty(text: &String) -> (r: Option<String>)
    ensures
        text_option_model(r) == filled(text@),
{
    if text.as_str().is_empty() {
        None
    } else {
        Some(text.clone())
    }
}

/// A definition in the making.
#[derive(Debug, PartialEq, Eq)]
pub struct Builder {
    taken: Vec<String>,
    step: Step,
    identifier: String,
    owner: String,
    repo: String,
    asset: String,
    extract: ExtractOption,
    version: GithubVersion,
    menu: InstallMenu,
    target: String,
    rename: Option<String>,
    probe: BinaryVersion,
    binary: Option<BinaryInstall>,
}

impl View for Builder {
    type V = BuilderModel;

    closed spec fn view(&self) -> BuilderModel {
        BuilderModel {
            taken: names_set(self.taken@),
            step: self.step,
            identifier: self.identifier@,
            owner: self.owner@,
            repo: self.repo@,
            asset: self.asset@,
            extract: self.extract,
            version: self.version@,
            menu: self.menu@,
            target: self.target@,
            rename: text_option_model(self.rename),
            probe: self.probe@,
            binary: match self.binary {
                Some(binary) => Some(binary@),
                None => None,
            },
        }
    }
}

impl Builder {
    #[verifier::type_invariant]
    spec fn kept_settled(self) -> bool {
        self@.settled()
    }

    /// A builder that asks for everything. `taken` are the identifiers
    /// of the stored definitions.
    pub fn new(taken: Vec<String>) -> (r: Builder)
        ensures
            r@ == BuilderModel::blank(names_set(taken@)),
    {
        Builder {
            taken,
            step: Step::Identifier,
            identifier: String::new(),
            owner: String::new(),
            repo: String::new(),
            asset: String::new(),
            extract: ExtractOption::AsIs,
            version: GithubVersion {
                member: GhVerMember::TagName,
                regex: default_version_regex(),
            },
            menu: InstallMenu::start(),
            target: String::new(),
            rename: None,
            probe: BinaryVersion { arg: String::new(), regex: default_version_regex() },
            binary: None,
        }
    }

    /// A builder for a definition whose identifier is known beforehand:
    /// the identifier is held to the same rules as an answer, at once.
    pub fn with_identifier(taken: Vec<String>, identifier: String) -> (r: Result<
        Builder,
        BuildError,
    >)
        ensures
            match BuilderModel::blank(names_set(taken@)).advance(AnswerModel::Text(identifier@)) {
                Ok(next) => r matches Ok(builder) && builder@ == next,
                Err(e) => r matches Err(f) && f == e,
            },
    {
        let mut builder = Builder::new(taken);
        match builder.answer(Answer::Text(identifier)) {
            Ok(()) => Ok(builder),
            Err(e) => Err(e),
        }
    }

    /// A builder that starts from `existing`.
    pub fn seeded(taken: Vec<String>, existing: PackageConfig) -> (r: Builder)
        ensures
            r@ == BuilderModel::seeded(names_set(taken@), existing@),
    {
        let PackageConfig { meta, source, install } = existing;
        let PackageSource::Github(github) = source;
        let (target, rename, probe) = match install.binary {
            Some(binary) => (binary.target, binary.rename, binary.version),
            None => (
                String::new(),
                None,
                BinaryVersion { arg: String::new(), regex: default_version_regex() },
            ),
        };
        Builder {
            taken,
            step: Step::Source,
            identifier: meta.identifier,
            owner: github.owner,
            repo: github.repo,
            asset: github.asset,
            extract: ExtractOption::from(github.extract),
            version: github.version,
            menu: InstallMenu::start(),
            target,
            rename,
            probe,
            binary: None,
        }
    }

    /// The question to ask now.
    pub fn step(&self) -> (r: Step)
        ensures
            r == self@.step,
    {
        self.step
    }

    /// The install actions to offer now.
    pub fn install_options(&self) -> (r: Vec<PackageInstallOption>)
        ensures
            r@ == self@.menu.offered(),
    {
        self.menu.offered()
    }

    /// The answer to put before the user as the likely one, if any.
    pub fn suggestion(&self) -> (r: Option<String>)
        ensures
            text_option_model(r) == self@.suggestion(),
    {
        match self.step {
            Step::Owner => unless_empty(&self.owner),
            Step::Repo => unless_empty(&self.repo),
            Step::Asset => unless_empty(&self.asset),
            Step::SourceRegex => unless_empty(&self.version.regex),
            Step::Target => unless_empty(&self.target),
            Step::Rename => copy_of(&self.rename),
            Step::VersionArg => unless_empty(&self.probe.arg),
            Step::BinaryRegex => unless_empty(&self.probe.regex),
            _ => None,
        }
    }

    /// Takes an answer to the question of `step`. A refused answer
    /// changes nothing, and the same question stands.
    pub fn answer(&mut self, answer: Answer) -> (r: Result<(), BuildError>)
        ensures
            match old(self)@.advance(answer@) {
                Ok(next) => r is Ok && final(self)@ == next,
                Err(e) => r == Err::<(), BuildError>(e) && final(self)@ == old(self)@,
            },
    {
        proof {
            use_type_invariant(&*self);
        }
        if let Answer::Cancelled = answer {
            return Err(BuildError::Cancelled);
        }
        match self.step {
            Step::Identifier => {
                let text = take_required(answer)?;
                if is_listed(&self.taken, text.as_str()) {
                    return Err(BuildError::Collision);
                }
                self.identifier = text;
                self.step = Step::Source;
            },
            Step::Source => match answer {
                Answer::Source(PackageSourceTag::Github) => {
                    self.step = Step::Owner;
                },
                _ => {
                    return Err(BuildError::Unexpected);
                },
            },
            Step::Owner => {
                self.owner = take_required(answer)?;
                self.step = Step::Repo;
            },
            Step::Repo => {
                self.repo = take_required(answer)?;
                self.step = Step::Asset;
            },
            Step::Asset => {
                self.asset = take_required(answer)?;
                self.step = Step::Extract;
            },
            Step::Extract => match answer {
                Answer::Extract(choice) => {
                    self.extract = choice;
                    self.step = Step::SourceVersion;
                },
                _ => {
                    return Err(BuildError::Unexpected);
                },
            },
            Step::SourceVersion => match answer {
                Answer::Confirm(yes) => {
                    if yes {
                        self.step = Step::Member;
                    } else {
                        self.version = GithubVersion {
                            member: GhVerMember::TagName,
                            regex: default_version_regex(),
                        };
                        self.step = Step::Install;
                    }
                },
                _ => {
                    return Err(BuildError::Unexpected);
                },
            },
            Step::Member => match answer {
                Answer::Member(member) => {
                    self.version.member = member;
                    self.step = Step::SourceRegex;
                },
                _ => {
                    return Err(BuildError::Unexpected);
                },
            },
            Step::SourceRegex => {
                self.version.regex = take_pattern(answer)?;
                self.step = Step::Install;
            },
            Step::Install => match answer {
                Answer::Install(option) => {
                    let mut menu = InstallMenu::start();
                    core::mem::swap(&mut self.menu, &mut menu);
                    let chosen = menu.select(option);
                    if chosen.is_err() {
                        self.menu = menu;
                        return Err(BuildError::NotOffered);
                    }
                    self.step = match option {
                        PackageInstallOption::NoOp => Step::Done,
                        PackageInstallOption::Binary => Step::Target,
                    };
                    self.menu = menu;
                },
                _ => {
                    return Err(BuildError::Unexpected);
                },
            },
            Step::Target => {
                self.target = take_required(answer)?;
                self.step = Step::Rename;
            },
            Step::Rename => {
                self.rename = take_rename(answer)?;
                self.step = Step::BinaryVersion;
            },
            Step::BinaryVersion => match answer {
                Answer::Confirm(yes) => {
                    if yes {
                        self.step = Step::VersionArg;
                    } else {
                        self.binary = Some(
                            BinaryInstall {
                                target: self.target.clone(),
                                rename: copy_of(&self.rename),
                                version: BinaryVersion {
                                    arg: default_version_arg(),
                                    regex: default_version_regex(),
                                },
                            },
                        );
                        self.step = Step::Install;
                    }
                },
                _ => {
                    return Err(BuildError::Unexpected);
                },
            },
            Step::VersionArg => {
                self.probe.arg = take_required(answer)?;
                self.step = Step::BinaryRegex;
            },
            Step::BinaryRegex => {
                let regex = take_pattern(answer)?;
                self.binary = Some(
                    BinaryInstall {
                        target: self.target.clone(),
                        rename: copy_of(&self.rename),
                        version: BinaryVersion { arg: self.probe.arg.clone(), regex: regex.clone() },
                    },
                );
                self.probe.regex = regex;
                self.step = Step::Install;
            },
            Step::Done => {
                return Err(BuildError::Finished);
            },
        }
        Ok(())
    }

    /// The definition, once nothing is asked any more. It is handed
    /// out, not stored.
    pub fn finish(self) -> (r: Option<PackageConfig>)
        ensures
            match r {
                Some(config) => self@.step == Step::Done && config@ == self@.assembled()
                    && config@.install.binary is Some,
                None => self@.step != Step::Done,
            },
    {
        proof {
            use_type_invariant(&self);
        }
        if self.step != Step::Done {
            return None;
        }
        Some(
            PackageConfig {
                meta: PackageMeta { edition: NEWEST_EDITION, identifier: self.identifier },
                source: PackageSource::Github(
                    Github {
                        owner: self.owner,
                        repo: self.repo,
                        asset: self.asset,
                        extract: self.extract.into(),
                        version: self.version,
                    },
                ),
                install: PackageInstall { binary: self.binary },
            },
        )
    }
}

} // verus!
