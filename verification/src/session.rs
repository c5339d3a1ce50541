//! One fetch from beginning to end: the release is asked for, the
//! artifact downloaded and unpacked, the binary installed and asked for
//! its version.
//!
//! The session decides each step. Whoever runs it does what the session
//! asks for and hands back what came of it; the session then asks for
//! the next thing, until it finishes or fails. It never asks for a write
//! that it has not found safe.

use vstd::prelude::*;
use crate::cli::run::FetchJob;
use crate::config::package::{
    ExtractType, PackageConfig, PackageConfigModel, PackageSource, PackageSourceModel,
};
use crate::extract::{
    all_safe, extract, extract_outcome, lemma_unsafe_member_refused, listing_texts, ExtractError,
    ExtractedSet, FetchedArtifact, FetchedArtifactModel,
};
use crate::fetch::{
    artifact_outcome, find_artifact, release_url, release_url_of, FetchError, FetchErrorModel,
};
use crate::install::{
    destination_of, install, install_outcome, installed_state, state_outcome, InstallError,
    InstallPlan, InstallPlanModel,
};
use crate::model::ghapi::{ReleaseLatest, ReleaseModel};
use crate::registry::{InstalledState, InstalledStateModel};
use crate::text::names_set;
use crate::version::VersionError;

verus! {

/// What came of the thing that the session asked for.
#[derive(Debug, Clone, PartialEq, Eq)]
pub enum FetchEvent {
    /// The service gave the release.
    Release(ReleaseLatest),
    /// The service gave nothing: the request or the download failed.
    Failed(FetchError),
    /// The service gave something that is no release.
    Unreadable,
    /// The artifact is downloaded.
    Downloaded,
    /// What the archive lists, or nothing where it cannot be read.
    Listing(Option<Vec<String>>),
    /// The files are in the scratch directory.
    Unpacked,
    /// The names of the files in the target directory.
    Present(Vec<String>),
    /// The binary is in its place, at this path.
    Copied(String),
    /// What the binary printed when asked for its version, and the time.
    Output { text: String, now: u64 },
}

/// `FetchEvent`, each text as the sequence of its characters.
pub enum FetchEventModel {
    Release(ReleaseModel),
    Failed(FetchErrorModel),
    Unreadable,
    Downloaded,
    Listing(Option<Seq<Seq<char>>>),
    Unpacked,
    Present(Set<Seq<char>>),
    Copied(Seq<char>),
    Output { text: Seq<char>, now: u64 },
}

impl View for FetchEvent {
    type V = FetchEventModel;

    open spec fn view(&self) -> FetchEventModel {
        match self {
            FetchEvent::Release(release) => FetchEventModel::Release(release@),
            FetchEvent::Failed(error) => FetchEventModel::Failed(error@),
            FetchEvent::Unreadable => FetchEventModel::Unreadable,
            FetchEvent::Downloaded => FetchEventModel::Downloaded,
            FetchEvent::Listing(listing) => FetchEventModel::Listing(listing_texts(*listing)),
            FetchEvent::Unpacked => FetchEventModel::Unpacked,
            FetchEvent::Present(names) => FetchEventModel::Present(names_set(names@)),
            FetchEvent::Copied(path) => FetchEventModel::Copied(path@),
            FetchEvent::Output { text, now } => FetchEventModel::Output { text: text@, now: *now },
        }
    }
}

/// How a fetch ended well.
#[derive(Debug, Clone, PartialEq, Eq)]
pub enum FetchOutcome {
    /// The files are fetched; the definition asks for no install.
    Fetched,
    /// The binary is installed, and this is to be recorded.
    Installed(InstalledState),
    /// The binary is installed at `path`, but what it printed holds no
    /// version: `output` is to be shown, so that the pattern can be
    /// mended.
    Unversioned { path: String, output: String, error: VersionError },
}

/// `FetchOutcome`, each text as the sequence of its characters.
pub enum FetchOutcomeModel {
    Fetched,
    Installed(InstalledStateModel),
    Unversioned { path: Seq<char>, output: Seq<char>, error: VersionError },
}

impl View for FetchOutcome {
    type V = FetchOutcomeModel;

    open spec fn view(&self) -> FetchOutcomeModel {
        match self {
            FetchOutcome::Fetched => FetchOutcomeModel::Fetched,
            FetchOutcome::Installed(state) => FetchOutcomeModel::Installed(state@),
            FetchOutcome::Unversioned { path, output, error } => FetchOutcomeModel::Unversioned {
                path: path@,
                output: output@,
                error: *error,
            },
        }
    }
}

/// Why a fetch ended badly.
#[derive(Debug, Clone, PartialEq, Eq)]
pub enum FetchFailure {
    Fetch(FetchError),
    Extract(ExtractError),
    Install(InstallError),
}

/// `FetchFailure`, each text as the sequence of its characters.
pub enum FetchFailureModel {
    Fetch(FetchErrorModel),
    Extract(ExtractError),
    Install(InstallError),
}

impl View for FetchFailure {
    type V = FetchFailureModel;

    open spec fn view(&self) -> FetchFailureModel {
        match self {
            FetchFailure::Fetch(error) => FetchFailureModel::Fetch(error@),
            FetchFailure::Extract(error) => FetchFailureModel::Extract(*error),
            FetchFailure::Install(error) => FetchFailureModel::Install(*error),
        }
    }
}

/// What the session asks for.
#[derive(Debug, Clone, PartialEq, Eq)]
pub enum FetchAction {
    /// Ask the service at this address for the release. One attempt.
    GetRelease(String),
    /// Download this artifact from its address. One attempt. Where the
    /// artifact comes without a version, the text that was searched for
    /// one is to be shown.
    Download(FetchedArtifact),
    /// Read what the downloaded archive lists as its members.
    ListArchive,
    /// Unpack the archive into the scratch directory.
    Unpack,
    /// Put the download into the scratch directory under this name.
    Keep(String),
    /// Read the names of the files in the target directory.
    ListTarget,
    /// Copy the unpacked member to its name in the target directory.
    Copy(InstallPlan),
    /// Run the binary at `path` with `arg` and take what it prints.
    Probe { path: String, arg: String },
    /// Nothing more: the fetch ended well.
    Finish(FetchOutcome),
    /// Nothing more: the fetch ended badly.
    Fail(FetchFailure),
    /// The event is not what was asked for. The session stands as it
    /// stood.
    Misplaced,
}

/// `FetchAction`, each text as the sequence of its characters.
pub enum FetchActionModel {
    GetRelease(Seq<char>),
    Download(FetchedArtifactModel),
    ListArchive,
    Unpack,
    Keep(Seq<char>),
    ListTarget,
    Copy(InstallPlanModel),
    Probe { path: Seq<char>, arg: Seq<char> },
    Finish(FetchOutcomeModel),
    Fail(FetchFailureModel),
    Misplaced,
}

impl View for FetchAction {
    type V = FetchActionModel;

    open spec fn view(&self) -> FetchActionModel {
        match self {
            FetchAction::GetRelease(url) => FetchActionModel::GetRelease(url@),
            FetchAction::Download(artifact) => FetchActionModel::Download(artifact@),
            FetchAction::ListArchive => FetchActionModel::ListArchive,
            FetchAction::Unpack => FetchActionModel::Unpack,
            FetchAction::Keep(name) => FetchActionModel::Keep(name@),
            FetchAction::ListTarget => FetchActionModel::ListTarget,
            FetchAction::Copy(plan) => FetchActionModel::Copy(plan@),
            FetchAction::Probe { path, arg } => FetchActionModel::Probe { path: path@, arg: arg@ },
            FetchAction::Finish(outcome) => FetchActionModel::Finish(outcome@),
            FetchAction::Fail(failure) => FetchActionModel::Fail(failure@),
            FetchAction::Misplaced => FetchActionModel::Misplaced,
        }
    }
}

/// What a session waits for.
pub enum StageModel {
    /// The release.
    Release,
    /// The download of this artifact.
    Download(FetchedArtifactModel),
    /// The listing of the archive that this artifact is.
    Listing(FetchedArtifactModel),
    /// The unpacking of these members.
    Unpack(Seq<Seq<char>>),
    /// The names in the target directory, to install one of these
    /// members.
    Target(Seq<Seq<char>>),
    /// The copy that this plan asks for.
    Copy(InstallPlanModel),
    /// What the binary at this path prints.
    Probe(Seq<char>),
    /// Nothing.
    Done,
}

/// All that a session holds.
pub struct SessionModel {
    pub config: PackageConfigModel,
    pub overwrite: bool,
    pub stage: StageModel,
}

impl StageModel {
    /// How many events the session can still take, at most.
    pub open spec fn events_left(self) -> nat {
        match self {
            StageModel::Release => 7,
            StageModel::Download(_) => 6,
            StageModel::Listing(_) => 5,
            StageModel::Unpack(_) => 4,
            StageModel::Target(_) => 3,
            StageModel::Copy(_) => 2,
            StageModel::Probe(_) => 1,
            StageModel::Done => 0,
        }
    }
}

impl SessionModel {
    /// The session at its start, and what it asks for first.
    pub open spec fn start(config: PackageConfigModel, overwrite: bool) -> (
        SessionModel,
        FetchActionModel,
    ) {
        let PackageSourceModel::Github(github) = config.source;
        (
            SessionModel { config, overwrite, stage: StageModel::Release },
            FetchActionModel::GetRelease(release_url_of(github)),
        )
    }

    /// The session that has ended.
    pub open spec fn ended(self) -> SessionModel {
        SessionModel { stage: StageModel::Done, ..self }
    }

    /// The session that waits for `stage`.
    pub open spec fn at(self, stage: StageModel) -> SessionModel {
        SessionModel { stage, ..self }
    }

    /// What the session is after an event, and what it asks for next.
    pub open spec fn advance(self, event: FetchEventModel) -> (SessionModel, FetchActionModel) {
        let PackageSourceModel::Github(github) = self.config.source;
        match (self.stage, event) {
            (StageModel::Release, FetchEventModel::Failed(error)) => (
                self.ended(),
                FetchActionModel::Fail(FetchFailureModel::Fetch(error)),
            ),
            (StageModel::Download(_), FetchEventModel::Failed(error)) => (
                self.ended(),
                FetchActionModel::Fail(FetchFailureModel::Fetch(error)),
            ),
            (StageModel::Release, FetchEventModel::Unreadable) => (
                self.ended(),
                FetchActionModel::Fail(FetchFailureModel::Fetch(FetchErrorModel::NetworkError)),
            ),
            (StageModel::Release, FetchEventModel::Release(release)) => match artifact_outcome(
                github,
                release,
            ) {
                Ok(artifact) => (
                    self.at(StageModel::Download(artifact)),
                    FetchActionModel::Download(artifact),
                ),
                Err(error) => (
                    self.ended(),
                    FetchActionModel::Fail(FetchFailureModel::Fetch(error)),
                ),
            },
            (StageModel::Download(artifact), FetchEventModel::Downloaded) => match github.extract {
                Some(ExtractType::Tar) => (
                    self.at(StageModel::Listing(artifact)),
                    FetchActionModel::ListArchive,
                ),
                None => match extract_outcome(artifact.file_name, None, None) {
                    Ok(members) => (
                        self.at(StageModel::Unpack(members)),
                        FetchActionModel::Keep(artifact.file_name),
                    ),
                    Err(error) => (
                        self.ended(),
                        FetchActionModel::Fail(FetchFailureModel::Extract(error)),
                    ),
                },
            },
            (StageModel::Listing(artifact), FetchEventModel::Listing(listing)) => {
                match extract_outcome(artifact.file_name, Some(ExtractType::Tar), listing) {
                    Ok(members) => (self.at(StageModel::Unpack(members)), FetchActionModel::Unpack),
                    Err(error) => (
                        self.ended(),
                        FetchActionModel::Fail(FetchFailureModel::Extract(error)),
                    ),
                }
            },
            (StageModel::Unpack(members), FetchEventModel::Unpacked) => {
                match self.config.install.binary {
                    Some(_) => (self.at(StageModel::Target(members)), FetchActionModel::ListTarget),
                    None => (self.ended(), FetchActionModel::Finish(FetchOutcomeModel::Fetched)),
                }
            },
            (StageModel::Target(members), FetchEventModel::Present(present)) => {
                match self.config.install.binary {
                    Some(binary) => match install_outcome(
                        members,
                        binary,
                        present,
                        self.overwrite,
                    ) {
                        Ok(plan) => (self.at(StageModel::Copy(plan)), FetchActionModel::Copy(plan)),
                        Err(error) => (
                            self.ended(),
                            FetchActionModel::Fail(FetchFailureModel::Install(error)),
                        ),
                    },
                    None => (self, FetchActionModel::Misplaced),
                }
            },
            (StageModel::Copy(plan), FetchEventModel::Copied(path)) => (
                self.at(StageModel::Probe(path)),
                FetchActionModel::Probe { path, arg: plan.probe_arg },
            ),
            (StageModel::Probe(path), FetchEventModel::Output { text, now }) => {
                match self.config.install.binary {
                    Some(binary) => match state_outcome(binary, path, text, now) {
                        Ok(state) => (
                            self.ended(),
                            FetchActionModel::Finish(FetchOutcomeModel::Installed(state)),
                        ),
                        Err(error) => (
                            self.ended(),
                            FetchActionModel::Finish(
                                FetchOutcomeModel::Unversioned { path, output: text, error },
                            ),
                        ),
                    },
                    None => (self, FetchActionModel::Misplaced),
                }
            },
            _ => (self, FetchActionModel::Misplaced),
        }
    }
}

/// Every event taken brings the end nearer, and an event that is not
/// taken changes nothing.
pub proof fn lemma_event_brings_end_nearer(session: SessionModel, event: FetchEventModel)
    ensures
        session.advance(event).1 is Misplaced ==> session.advance(event).0 == session,
        !(session.advance(event).1 is Misplaced) ==> session.advance(event).0.stage.events_left()
            < session.stage.events_left(),
        session.advance(event).0.config == session.config,
        session.advance(event).0.overwrite == session.overwrite,
{
}

/// The session asks for files to be put into the scratch directory only
/// when every one of them stays below it.
pub proof fn lemma_unpacks_only_safe_members(session: SessionModel, event: FetchEventModel)
    requires
        session.advance(event).1 is Unpack || session.advance(event).1 is Keep,
    ensures
        session.advance(event).0.stage matches StageModel::Unpack(members) && all_safe(members),
        session.advance(event).1 matches FetchActionModel::Keep(name) ==> session.advance(
            event,
        ).0.stage == StageModel::Unpack(seq![name]),
{
    if let StageModel::Unpack(members) = session.advance(event).0.stage {
        lemma_unsafe_member_refused(members);
        match (session.stage, event) {
            (StageModel::Download(artifact), FetchEventModel::Downloaded) => {
                lemma_unsafe_member_refused(seq![artifact.file_name]);
            },
            (StageModel::Listing(_), FetchEventModel::Listing(Some(names))) => {
                lemma_unsafe_member_refused(names);
            },
            _ => {},
        }
    }
}

/// The session asks for a copy only onto a name that is free in the
/// target directory, unless replacing was allowed: a file that is there
/// is otherwise never touched.
pub proof fn lemma_copies_only_onto_free_names(session: SessionModel, event: FetchEventModel)
    requires
        session.advance(event).1 is Copy,
    ensures
        session.stage is Target,
        event matches FetchEventModel::Present(present) && session.advance(
            event,
        ).1 matches FetchActionModel::Copy(plan) && (present.contains(plan.file_name)
            ==> session.overwrite),
{
}

/// A fetch into a target directory that holds a file under the name
/// of the binary, with no leave to replace it, fails there: no copy is
/// asked for, and the session has ended. Where the file to install is
/// among those unpacked, the failure is `DestinationExists`.
pub proof fn lemma_fetch_keeps_destination(
    session: SessionModel,
    members: Seq<Seq<char>>,
    present: Set<Seq<char>>,
)
    requires
        session.stage == StageModel::Target(members),
        session.config.install.binary matches Some(binary) && present.contains(
            destination_of(binary),
        ),
        !session.overwrite,
    ensures
        session.advance(FetchEventModel::Present(present)).0 == session.ended(),
        session.advance(FetchEventModel::Present(present)).1 matches FetchActionModel::Fail(
            FetchFailureModel::Install(error),
        ) && (members.contains(session.config.install.binary->Some_0.target) ==> error
            == InstallError::DestinationExists),
{
}

/// A fetch that meets no obstacle goes all its way. Given a definition
/// that unpacks a tar archive and installs a binary, a release in which
/// the artifact is found, a listing of safe members with the binary
/// among them, a target directory where its name is free or may be
/// replaced, and an output in which the version is found: the session
/// asks in turn for the release, the download, the listing, the
/// unpacking, the names in the target directory, the copy and the
/// version, and finishes with the record of the install. The definition
/// is the same at the end as at the start.
pub proof fn lemma_whole_fetch(
    config: PackageConfigModel,
    overwrite: bool,
    release: ReleaseModel,
    names: Seq<Seq<char>>,
    present: Set<Seq<char>>,
    path: Seq<char>,
    output: Seq<char>,
    now: u64,
)
    requires
        config.source matches PackageSourceModel::Github(github) && github.extract == Some(
            ExtractType::Tar,
        ) && artifact_outcome(github, release) is Ok,
        all_safe(names),
        config.install.binary matches Some(binary) && names.contains(binary.target) && (
        !present.contains(destination_of(binary)) || overwrite) && state_outcome(
            binary,
            path,
            output,
            now,
        ) is Ok,
    ensures
        ({
            let PackageSourceModel::Github(github) = config.source;
            let binary = config.install.binary->Some_0;
            let artifact = artifact_outcome(github, release)->Ok_0;
            let (begun, first) = SessionModel::start(config, overwrite);
            let (found, second) = begun.advance(FetchEventModel::Release(release));
            let (loaded, third) = found.advance(FetchEventModel::Downloaded);
            let (listed, fourth) = loaded.advance(FetchEventModel::Listing(Some(names)));
            let (unpacked, fifth) = listed.advance(FetchEventModel::Unpacked);
            let (planned, sixth) = unpacked.advance(FetchEventModel::Present(present));
            let (placed, seventh) = planned.advance(FetchEventModel::Copied(path));
            let (ended, last) = placed.advance(FetchEventModel::Output { text: output, now });
            &&& first == FetchActionModel::GetRelease(release_url_of(github))
            &&& second == FetchActionModel::Download(artifact)
            &&& third == FetchActionModel::ListArchive
            &&& fourth == FetchActionModel::Unpack
            &&& fifth == FetchActionModel::ListTarget
            &&& sixth == FetchActionModel::Copy(
                InstallPlanModel {
                    member: binary.target,
                    file_name: destination_of(binary),
                    replaces: present.contains(destination_of(binary)),
                    probe_arg: binary.version.arg,
                },
            )
            &&& seventh == FetchActionModel::Probe { path, arg: binary.version.arg }
            &&& last == FetchActionModel::Finish(
                FetchOutcomeModel::Installed(state_outcome(binary, path, output, now)->Ok_0),
            )
            &&& state_outcome(binary, path, output, now)->Ok_0.path == path
            &&& ended.stage is Done
            &&& ended.config == config
        }),
{
    lemma_unsafe_member_refused(names);
}

#[derive(Debug, PartialEq, Eq)]
enum Stage {
    Release,
    Download(FetchedArtifact),
    Listing(FetchedArtifact),
    Unpack(ExtractedSet),
    Target(ExtractedSet),
    Copy(InstallPlan),
    Probe(String),
    Done,
}

impl View for Stage {
    type V = StageModel;

    closed spec fn view(&self) -> StageModel {
        match self {
            Stage::Release => StageModel::Release,
            Stage::Download(artifact) => StageModel::Download(artifact@),
            Stage::Listing(artifact) => StageModel::Listing(artifact@),
            Stage::Unpack(set) => StageModel::Unpack(set@),
            Stage::Target(set) => StageModel::Target(set@),
            Stage::Copy(plan) => StageModel::Copy(plan@),
            Stage::Probe(path) => StageModel::Probe(path@),
            Stage::Done => StageModel::Done,
        }
    }
}

/// A fetch that is under way.
#[derive(Debug, PartialEq, Eq)]
pub struct FetchSession {
    config: PackageConfig,
    overwrite: bool,
    stage: Stage,
}

impl View for FetchSession {
    type V = SessionModel;

    closed spec fn view(&self) -> SessionModel {
        SessionModel { config: self.config@, overwrite: self.overwrite, stage: self.stage@ }
    }
}

impl FetchSession {
    /// Begins the fetch of a package, and says what is to be done first.
    pub fn start(job: FetchJob) -> (r: (FetchSession, FetchAction))
        ensures
            (r.0@, r.1@) == SessionModel::start(job.config@, job.overwrite),
    {
        let url = match &job.config.source {
            PackageSource::Github(github) => release_url(github),
        };
        (
            FetchSession { config: job.config, overwrite: job.overwrite, stage: Stage::Release },
            FetchAction::GetRelease(url),
        )
    }

    /// Whether the fetch has ended.
    pub fn is_done(&self) -> (r: bool)
        ensures
            r == (self@.stage is Done),
    {
        match &self.stage {
            Stage::Done => true,
            _ => false,
        }
    }

    /// Takes what came of the last action, and says what is to be done
    /// next.
    pub fn step(&mut self, event: FetchEvent) -> (r: FetchAction)
        ensures
            (final(self)@, r@) == old(self)@.advance(event@),
    {
        let mut stage = Stage::Done;
        core::mem::swap(&mut self.stage, &mut stage);
        match (stage, event) {
            (Stage::Release, FetchEvent::Failed(error)) => FetchAction::Fail(
                FetchFailure::Fetch(error),
            ),
            (Stage::Download(_), FetchEvent::Failed(error)) => FetchAction::Fail(
                FetchFailure::Fetch(error),
            ),
            (Stage::Release, FetchEvent::Unreadable) => FetchAction::Fail(
                FetchFailure::Fetch(FetchError::NetworkError),
            ),
            (Stage::Release, FetchEvent::Release(release)) => match &self.config.source {
                PackageSource::Github(github) => match find_artifact(github, &release) {
                    Ok(artifact) => {
                        let wanted = artifact.duplicate();
                        self.stage = Stage::Download(artifact);
                        FetchAction::Download(wanted)
                    },
                    Err(error) => FetchAction::Fail(FetchFailure::Fetch(error)),
                },
            },
            (Stage::Download(artifact), FetchEvent::Downloaded) => match &self.config.source {
                PackageSource::Github(github) => match github.extract {
                    Some(ExtractType::Tar) => {
                        self.stage = Stage::Listing(artifact);
                        FetchAction::ListArchive
                    },
                    None => match extract(&artifact, None, None) {
                        Ok(set) => {
                            self.stage = Stage::Unpack(set);
                            FetchAction::Keep(artifact.file_name)
                        },
                        Err(error) => FetchAction::Fail(FetchFailure::Extract(error)),
                    },
                },
            },
            (Stage::Listing(artifact), FetchEvent::Listing(listing)) => match extract(
                &artifact,
                Some(ExtractType::Tar),
                listing,
            ) {
                Ok(set) => {
                    self.stage = Stage::Unpack(set);
                    FetchAction::Unpack
                },
                Err(error) => FetchAction::Fail(FetchFailure::Extract(error)),
            },
            (Stage::Unpack(set), FetchEvent::Unpacked) => match &self.config.install.binary {
                Some(_) => {
                    self.stage = Stage::Target(set);
                    FetchAction::ListTarget
                },
                None => FetchAction::Finish(FetchOutcome::Fetched),
            },
            (Stage::Target(set), FetchEvent::Present(present)) => {
                match &self.config.install.binary {
                    Some(binary) => match install(&set, binary, &present, self.overwrite) {
                        Ok(plan) => {
                            let copy = InstallPlan {
                                member: plan.member.clone(),
                                file_name: plan.file_name.clone(),
                                replaces: plan.replaces,
                                probe_arg: plan.probe_arg.clone(),
                            };
                            self.stage = Stage::Copy(plan);
                            FetchAction::Copy(copy)
                        },
                        Err(error) => FetchAction::Fail(FetchFailure::Install(error)),
                    },
                    None => {
                        self.stage = Stage::Target(set);
                        FetchAction::Misplaced
                    },
                }
            },
            (Stage::Copy(plan), FetchEvent::Copied(path)) => {
                self.stage = Stage::Probe(path.clone());
                FetchAction::Probe { path, arg: plan.probe_arg }
            },
            (Stage::Probe(path), FetchEvent::Output { text, now }) => {
                match &self.config.install.binary {
                    Some(binary) => match installed_state(binary, path.clone(), text.as_str(), now) {
                        Ok(state) => FetchAction::Finish(FetchOutcome::Installed(state)),
                        Err(error) => FetchAction::Finish(
                            FetchOutcome::Unversioned { path, output: text, error },
                        ),
                    },
                    None => {
                        self.stage = Stage::Probe(path);
                        FetchAction::Misplaced
                    },
                }
            },
            (stage, _) => {
                self.stage = stage;
                FetchAction::Misplaced
            },
        }
    }
}

} // verus!
