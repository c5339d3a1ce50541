//! Finding the artifact of a package in a release: which asset it is,
//! where it is downloaded from, and which version the release has.
//!
//! Asking the service and downloading is the caller's, who makes one
//! attempt and reports `RateLimited` or `NetworkError` where it fails.

use vstd::prelude::*;
use crate::config::package::{text_option_model, Github, GithubModel, GithubVersionModel};
use crate::extract::{FetchedArtifact, FetchedArtifactModel};
use crate::model::ghapi::{Asset, AssetModel, ReleaseLatest, ReleaseModel};
use crate::pattern::{fill, fits, pattern_fits, substitute};
use crate::registry::RegistryError;
use crate::text::same_text;
use crate::config::codec::{ConfigError, Field};
use crate::version::{resolve, search_of, version_in, VersionError};

verus! {

/// Why no artifact was fetched.
#[derive(Debug, Clone, PartialEq, Eq)]
pub enum FetchError {
    /// The repository, the release or the asset is not there.
    NotFound,
    /// The service turned the request away for now.
    RateLimited,
    /// The service could not be reached.
    NetworkError,
    /// More than one asset has a name that fits; their names.
    AssetAmbiguous(Vec<String>),
    /// The definition of the package could not be read.
    Definition(RegistryError),
}

/// `FetchError`, each text as the sequence of its characters.
pub enum FetchErrorModel {
    NotFound,
    RateLimited,
    NetworkError,
    AssetAmbiguous(Seq<Seq<char>>),
    Definition(RegistryError),
}

impl View for FetchError {
    type V = FetchErrorModel;

    open spec fn view(&self) -> FetchErrorModel {
        match self {
            FetchError::NotFound => FetchErrorModel::NotFound,
            FetchError::RateLimited => FetchErrorModel::RateLimited,
            FetchError::NetworkError => FetchErrorModel::NetworkError,
            FetchError::AssetAmbiguous(names) => FetchErrorModel::AssetAmbiguous(
                Seq::new(names@.len(), |i: int| names@[i]@),
            ),
            FetchError::Definition(error) => FetchErrorModel::Definition(*error),
        }
    }
}

impl FetchErrorModel {
    /// A failure that may pass: the same request may succeed later.
    pub open spec fn transient(self) -> bool {
        self is RateLimited || self is NetworkError
    }
}

impl FetchError {
    /// Whether the failure may pass, so that the fetch is worth another
    /// try. The library tries nothing again by itself.
    pub fn is_transient(&self) -> (r: bool)
        ensures
            r == self@.transient(),
    {
        match self {
            FetchError::RateLimited | FetchError::NetworkError => true,
            _ => false,
        }
    }
}

/// What an answer of the service with this HTTP status means.
pub open spec fn status_meaning(status: u16) -> Result<(), FetchErrorModel> {
    if status == 200 {
        Ok(())
    } else if status == 404 || status == 410 {
        Err(FetchErrorModel::NotFound)
    } else if status == 403 || status == 429 {
        Err(FetchErrorModel::RateLimited)
    } else {
        Err(FetchErrorModel::NetworkError)
    }
}

/// What an answer of the service with this HTTP status means: the
/// payload is there, or the request failed in one of three ways.
pub fn status_outcome(status: u16) -> (r: Result<(), FetchError>)
    ensures
        match status_meaning(status) {
            Ok(_) => r is Ok,
            Err(error) => r matches Err(e) && e@ == error,
        },
{
    if status == 200 {
        Ok(())
    } else if status == 404 || status == 410 {
        Err(FetchError::NotFound)
    } else if status == 403 || status == 429 {
        Err(FetchError::RateLimited)
    } else {
        Err(FetchError::NetworkError)
    }
}

/// The address that gives the latest release of a repository.
pub open spec fn release_url_of(github: GithubModel) -> Seq<char> {
    "https://api.github.com/repos/"@ + github.owner + "/"@ + github.repo + "/releases/latest"@
}

/// The address that gives the latest release of a repository.
pub fn release_url(github: &Github) -> (r: String)
    ensures
        r@ == release_url_of(github@),
{
    let mut url = "https://api.github.com/repos/".to_owned();
    url.append(github.owner.as_str());
    url.append("/");
    url.append(github.repo.as_str());
    url.append("/releases/latest");
    url
}

/// Whether an asset of this name is the one that the pattern means:
/// with the version known the name is the pattern filled with it, and
/// else the pattern filled with any version.
pub open spec fn asset_fits(pattern: Seq<char>, version: Option<Seq<char>>, name: Seq<char>) -> bool {
    match version {
        Some(version) => substitute(pattern, version) == name,
        None => fits(pattern, name),
    }
}

/// The assets whose names fit, in their order.
pub open spec fn candidates(
    assets: Seq<AssetModel>,
    pattern: Seq<char>,
    version: Option<Seq<char>>,
) -> Seq<AssetModel> {
    assets.filter(|asset: AssetModel| asset_fits(pattern, version, asset.name))
}

/// The one asset that fits, or why there is none to take.
pub open spec fn select_outcome(
    assets: Seq<AssetModel>,
    pattern: Seq<char>,
    version: Option<Seq<char>>,
) -> Result<AssetModel, FetchErrorModel> {
    let found = candidates(assets, pattern, version);
    if found.len() == 0 {
        Err(FetchErrorModel::NotFound)
    } else if found.len() == 1 {
        Ok(found[0])
    } else {
        Err(FetchErrorModel::AssetAmbiguous(Seq::new(found.len(), |i: int| found[i].name)))
    }
}

/// The models of `assets`.
pub open spec fn asset_models(assets: Seq<Asset>) -> Seq<AssetModel> {
    Seq::new(assets.len(), |i: int| assets[i]@)
}

fn asset_is_meant(pattern: &str, version: &Option<String>, name: &str) -> (r: bool)
    ensures
        r == asset_fits(pattern@, text_option_model(*version), name@),
{
    match version {
        Some(version) => same_text(fill(pattern, version.as_str()).as_str(), name),
        None => pattern_fits(pattern, name),
    }
}

/// Picks the asset that the pattern means. Where several fit none is
/// taken, and their names are handed back.
pub fn select_asset<'a>(assets: &'a Vec<Asset>, pattern: &str, version: &Option<String>) -> (r:
    Result<&'a Asset, FetchError>)
    ensures
        match select_outcome(
            asset_models(assets@),
            pattern@,
            text_option_model(*version),
        ) {
            Ok(asset) => r matches Ok(found) && found@ == asset,
            Err(error) => r matches Err(e) && e@ == error,
        },
{
    let ghost models = asset_models(assets@);
    let ghost wanted = |asset: AssetModel|
        asset_fits(pattern@, text_option_model(*version), asset.name);
    let mut found: Vec<usize> = Vec::new();
    let mut i: usize = 0;
    proof {
        reveal(Seq::filter);
        assert(models.take(0) =~= Seq::<AssetModel>::empty());
    }
    while i < assets.len()
        invariant
            i <= assets@.len(),
            models == asset_models(assets@),
            wanted == |asset: AssetModel|
                asset_fits(
                    pattern@,
                    text_option_model(*version),
                    asset.name,
                ),
            found@.len() == models.take(i as int).filter(wanted).len(),
            forall|k: int|
                0 <= k < found@.len() ==> 0 <= #[trigger] found@[k] < i && models[found@[k] as int]
                    == models.take(i as int).filter(wanted)[k],
        decreases assets@.len() - i,
    {
        let fitting = asset_is_meant(pattern, version, assets[i].name.as_str());
        proof {
            reveal(Seq::filter);
            assert(models.take(i + 1).drop_last() =~= models.take(i as int));
            assert(models.take(i + 1).last() == models[i as int]);
        }
        if fitting {
            found.push(i);
        }
        i += 1;
    }
    proof {
        assert(models.take(i as int) =~= models);
    }
    if found.len() == 0 {
        Err(FetchError::NotFound)
    } else if found.len() == 1 {
        Ok(&assets[found[0]])
    } else {
        let ghost fitting = candidates(
            models,
            pattern@,
            text_option_model(*version),
        );
        let mut names: Vec<String> = Vec::new();
        let mut k: usize = 0;
        while k < found.len()
            invariant
                k <= found@.len(),
                found@.len() == fitting.len(),
                models == asset_models(assets@),
                names@.len() == k,
                forall|j: int|
                    0 <= j < found@.len() ==> 0 <= #[trigger] found@[j] < assets@.len()
                        && models[found@[j] as int] == fitting[j],
                forall|j: int| 0 <= j < k ==> (#[trigger] names@[j])@ == fitting[j].name,
            decreases found@.len() - k,
        {
            names.push(assets[found[k]].name.clone());
            k += 1;
        }
        let error = FetchError::AssetAmbiguous(names);
        proof {
            assert(error@ =~= FetchErrorModel::AssetAmbiguous(
                Seq::new(fitting.len(), |i: int| fitting[i].name),
            )) by {
                assert(Seq::new(names@.len(), |i: int| names@[i]@) =~= Seq::new(
                    fitting.len(),
                    |i: int| fitting[i].name,
                ));
            }
        }
        Err(error)
    }
}

/// The version of a release: the one that the pattern finds in the
/// member that holds it, or none where it finds none. A pattern that
/// is none is an error of the definition.
pub open spec fn release_version(release: ReleaseModel, version: GithubVersionModel) -> Result<
    Option<Seq<char>>,
    FetchErrorModel,
> {
    match version_in(search_of(version.regex, release.member_text(version.member))) {
        Ok(found) => Ok(Some(found)),
        Err(VersionError::NoMatch) => Ok(None),
        Err(VersionError::InvalidRegex) => Err(
            FetchErrorModel::Definition(
                RegistryError::CorruptDefinition(ConfigError::InvalidRegex(Field::SourceRegex)),
            ),
        ),
    }
}

/// The artifact of a package in a release, or why there is none.
pub open spec fn artifact_outcome(github: GithubModel, release: ReleaseModel) -> Result<
    FetchedArtifactModel,
    FetchErrorModel,
> {
    match release_version(release, github.version) {
        Err(error) => Err(error),
        Ok(version) => match select_outcome(release.assets, github.asset, version) {
            Ok(asset) => Ok(
                FetchedArtifactModel {
                    file_name: asset.name,
                    url: asset.browser_download_url,
                    version,
                    probe: release.member_text(github.version.member),
                },
            ),
            Err(error) => Err(error),
        },
    }
}

/// Finds the artifact of a package in a release.
///
/// The version is read first. A release in which the pattern finds no
/// version is not given up: its asset is then looked for with any
/// version in the place for it, and the artifact comes without a
/// version but with the text that was searched, to be shown. A pattern
/// that is none ends the fetch: it is never passed over.
pub fn find_artifact(github: &Github, release: &ReleaseLatest) -> (r: Result<
    FetchedArtifact,
    FetchError,
>)
    ensures
        match artifact_outcome(github@, release@) {
            Ok(artifact) => r matches Ok(found) && found@ == artifact,
            Err(error) => r matches Err(e) && e@ == error,
        },
{
    let probe = release.member_text(github.version.member);
    let version = match resolve(&github.version.to_spec(), probe) {
        Ok(found) => Some(found),
        Err(VersionError::NoMatch) => None,
        Err(VersionError::InvalidRegex) => {
            return Err(
                FetchError::Definition(
                    RegistryError::CorruptDefinition(ConfigError::InvalidRegex(Field::SourceRegex)),
                ),
            );
        },
    };
    assert(asset_models(release.assets@) =~= release@.assets);
    match select_asset(&release.assets, github.asset.as_str(), &version) {
        Ok(asset) => Ok(
            FetchedArtifact {
                file_name: asset.name.clone(),
                url: asset.browser_download_url.clone(),
                version,
                probe: probe.to_owned(),
            },
        ),
        Err(error) => Err(error),
    }
}

} // verus!
