use relief::cli::run::FetchJob;
use relief::config::codec::parse;
use relief::config::codec::{ConfigError, Field};
use relief::extract::{ExtractError, FetchedArtifact};
use relief::registry::RegistryError;
use relief::fetch::FetchError;
use relief::install::{InstallError, InstallPlan};
use relief::model::ghapi::{Asset, Reaction, ReleaseLatest, User};
use relief::registry::InstalledState;
use relief::session::{FetchAction, FetchEvent, FetchFailure, FetchOutcome, FetchSession};
use relief::version::VersionError;

const TAR: &str = r#"
[meta]
identifier = "mytool"
[source.github]
owner = "acme"
repo = "tool"
asset = "tool-{version}.tar.gz"
extract = "tar"
[install.binary]
target = "tool"
"#;

const BARE: &str = r#"
[meta]
identifier = "bare"
[source.github]
owner = "acme"
repo = "bare"
asset = "bare"
[install]
"#;

fn job(text: &str, overwrite: bool) -> FetchJob {
    FetchJob { config: parse(text).unwrap(), overwrite }
}

fn release(tag_name: &str, assets: &[&str]) -> ReleaseLatest {
    ReleaseLatest {
        url: String::new(),
        assets_url: String::new(),
        upload_url: String::new(),
        html_url: String::new(),
        id: 1,
        author: User {
            login: String::new(),
            id: 1,
            node_id: String::new(),
            avatar_url: String::new(),
            gravatar_id: String::new(),
            url: String::new(),
            html_url: String::new(),
            followers_url: String::new(),
            following_url: String::new(),
            gists_url: String::new(),
            starred_url: String::new(),
            subscriptions_url: String::new(),
            organizations_url: String::new(),
            repos_url: String::new(),
            events_url: String::new(),
            received_events_url: String::new(),
            ty: String::new(),
            site_admin: false,
        },
        node_id: String::new(),
        tag_name: tag_name.to_string(),
        target_commitish: String::new(),
        name: String::new(),
        draft: false,
        prerelease: false,
        created_at: String::new(),
        published_at: String::new(),
        assets: assets
            .iter()
            .map(|name| Asset {
                url: String::new(),
                id: 1,
                node_id: String::new(),
                name: name.to_string(),
                label: String::new(),
                uploader: String::new(),
                content_type: String::new(),
                state: String::new(),
                size: 0,
                download_count: 0,
                created_at: String::new(),
                updated_at: String::new(),
                browser_download_url: format!("https://example.com/{name}"),
            })
            .collect(),
        tarball_url: String::new(),
        zipball_url: String::new(),
        body: String::new(),
        reactions: Reaction {
            url: String::new(),
            total_count: 0,
            plus_one: 0,
            minus_one: 0,
            laugh: 0,
            hooray: 0,
            confused: 0,
            heart: 0,
            rocket: 0,
            eyes: 0,
        },
    }
}

fn names(list: &[&str]) -> Vec<String> {
    list.iter().map(|name| name.to_string()).collect()
}

fn unpacked_tar(overwrite: bool) -> FetchSession {
    let (mut session, _) = FetchSession::start(job(TAR, overwrite));
    session.step(FetchEvent::Release(release("v1.4.2", &["tool-1.4.2.tar.gz"])));
    session.step(FetchEvent::Downloaded);
    assert_eq!(
        session.step(FetchEvent::Listing(Some(names(&["tool", "LICENSE"])))),
        FetchAction::Unpack
    );
    assert_eq!(session.step(FetchEvent::Unpacked), FetchAction::ListTarget);
    session
}

#[test]
fn session_asks_for_the_release_first() {
    let (session, action) = FetchSession::start(job(TAR, false));
    assert_eq!(
        action,
        FetchAction::GetRelease("https://api.github.com/repos/acme/tool/releases/latest".to_string())
    );
    assert!(!session.is_done());
}

#[test]
fn session_runs_a_whole_fetch() {
    let (mut session, _) = FetchSession::start(job(TAR, false));
    assert_eq!(
        session.step(FetchEvent::Release(release(
            "v1.4.2",
            &["tool-1.4.2.tar.gz", "tool-1.4.2.zip"]
        ))),
        FetchAction::Download(FetchedArtifact {
            file_name: "tool-1.4.2.tar.gz".to_string(),
            url: "https://example.com/tool-1.4.2.tar.gz".to_string(),
            version: Some("1.4.2".to_string()),
            probe: "v1.4.2".to_string(),
        })
    );
    assert_eq!(session.step(FetchEvent::Downloaded), FetchAction::ListArchive);
    assert_eq!(
        session.step(FetchEvent::Listing(Some(names(&["tool", "LICENSE"])))),
        FetchAction::Unpack
    );
    assert_eq!(session.step(FetchEvent::Unpacked), FetchAction::ListTarget);
    assert_eq!(
        session.step(FetchEvent::Present(names(&["other"]))),
        FetchAction::Copy(InstallPlan {
            member: "tool".to_string(),
            file_name: "tool".to_string(),
            replaces: false,
            probe_arg: "--version".to_string(),
        })
    );
    assert_eq!(
        session.step(FetchEvent::Copied("/data/bin/tool".to_string())),
        FetchAction::Probe { path: "/data/bin/tool".to_string(), arg: "--version".to_string() }
    );
    assert!(!session.is_done());
    assert_eq!(
        session.step(FetchEvent::Output { text: "tool 1.4.2\n".to_string(), now: 99 }),
        FetchAction::Finish(FetchOutcome::Installed(InstalledState {
            version: "1.4.2".to_string(),
            path: "/data/bin/tool".to_string(),
            installed_at: 99,
        }))
    );
    assert!(session.is_done());
    assert_eq!(session.step(FetchEvent::Unpacked), FetchAction::Misplaced);
}

#[test]
fn session_without_extraction_keeps_the_download() {
    let (mut session, action) = FetchSession::start(job(BARE, false));
    assert_eq!(
        action,
        FetchAction::GetRelease("https://api.github.com/repos/acme/bare/releases/latest".to_string())
    );
    assert_eq!(
        session.step(FetchEvent::Release(release("v1", &["bare", "notes"]))),
        FetchAction::Download(FetchedArtifact {
            file_name: "bare".to_string(),
            url: "https://example.com/bare".to_string(),
            version: None,
            probe: "v1".to_string(),
        })
    );
    assert_eq!(session.step(FetchEvent::Downloaded), FetchAction::Keep("bare".to_string()));
    assert_eq!(session.step(FetchEvent::Unpacked), FetchAction::Finish(FetchOutcome::Fetched));
    assert!(session.is_done());
}

#[test]
fn session_never_unpacks_a_climbing_archive() {
    let (mut session, _) = FetchSession::start(job(TAR, false));
    session.step(FetchEvent::Release(release("v1.4.2", &["tool-1.4.2.tar.gz"])));
    session.step(FetchEvent::Downloaded);
    assert_eq!(
        session.step(FetchEvent::Listing(Some(names(&["tool", "../../etc/passwd"])))),
        FetchAction::Fail(FetchFailure::Extract(ExtractError::UnsafePath(1)))
    );
    assert!(session.is_done());
    assert_eq!(session.step(FetchEvent::Unpacked), FetchAction::Misplaced);
}

#[test]
fn session_gives_up_on_an_archive_it_cannot_read() {
    let (mut session, _) = FetchSession::start(job(TAR, false));
    session.step(FetchEvent::Release(release("v1.4.2", &["tool-1.4.2.tar.gz"])));
    session.step(FetchEvent::Downloaded);
    assert_eq!(
        session.step(FetchEvent::Listing(None)),
        FetchAction::Fail(FetchFailure::Extract(ExtractError::CorruptArchive))
    );
}

#[test]
fn session_never_copies_onto_a_file_that_is_there() {
    let mut session = unpacked_tar(false);
    assert_eq!(
        session.step(FetchEvent::Present(names(&["tool"]))),
        FetchAction::Fail(FetchFailure::Install(InstallError::DestinationExists))
    );
    assert!(session.is_done());
    assert_eq!(
        session.step(FetchEvent::Copied("/data/bin/tool".to_string())),
        FetchAction::Misplaced
    );
}

#[test]
fn session_replaces_on_a_fetch_anew() {
    let mut session = unpacked_tar(true);
    assert_eq!(
        session.step(FetchEvent::Present(names(&["tool"]))),
        FetchAction::Copy(InstallPlan {
            member: "tool".to_string(),
            file_name: "tool".to_string(),
            replaces: true,
            probe_arg: "--version".to_string(),
        })
    );
}

#[test]
fn session_misses_the_member() {
    let (mut session, _) = FetchSession::start(job(TAR, false));
    session.step(FetchEvent::Release(release("v1.4.2", &["tool-1.4.2.tar.gz"])));
    session.step(FetchEvent::Downloaded);
    session.step(FetchEvent::Listing(Some(names(&["bin/tool"]))));
    session.step(FetchEvent::Unpacked);
    assert_eq!(
        session.step(FetchEvent::Present(Vec::new())),
        FetchAction::Fail(FetchFailure::Install(InstallError::MemberNotFound))
    );
}

#[test]
fn session_hands_failures_through() {
    let (mut session, _) = FetchSession::start(job(TAR, false));
    assert_eq!(
        session.step(FetchEvent::Failed(FetchError::RateLimited)),
        FetchAction::Fail(FetchFailure::Fetch(FetchError::RateLimited))
    );
    assert!(session.is_done());

    let (mut session, _) = FetchSession::start(job(TAR, false));
    session.step(FetchEvent::Release(release("v1.4.2", &["tool-1.4.2.tar.gz"])));
    assert_eq!(
        session.step(FetchEvent::Failed(FetchError::NetworkError)),
        FetchAction::Fail(FetchFailure::Fetch(FetchError::NetworkError))
    );
}

#[test]
fn session_fails_where_no_asset_fits() {
    let (mut session, _) = FetchSession::start(job(TAR, false));
    assert_eq!(
        session.step(FetchEvent::Release(release("v1.4.2", &["tool-1.4.1.tar.gz"]))),
        FetchAction::Fail(FetchFailure::Fetch(FetchError::NotFound))
    );
    let (mut session, _) = FetchSession::start(job(TAR, false));
    assert_eq!(
        session.step(FetchEvent::Release(release("nightly", &["tool-a.tar.gz", "tool-b.tar.gz"]))),
        FetchAction::Fail(FetchFailure::Fetch(FetchError::AssetAmbiguous(names(&[
            "tool-a.tar.gz",
            "tool-b.tar.gz"
        ]))))
    );
}

#[test]
fn session_shows_what_was_printed_where_no_version_is_found() {
    let mut session = unpacked_tar(false);
    session.step(FetchEvent::Present(Vec::new()));
    session.step(FetchEvent::Copied("/data/bin/tool".to_string()));
    assert_eq!(
        session.step(FetchEvent::Output { text: "usage: tool".to_string(), now: 1 }),
        FetchAction::Finish(FetchOutcome::Unversioned {
            path: "/data/bin/tool".to_string(),
            output: "usage: tool".to_string(),
            error: VersionError::NoMatch,
        })
    );
    assert!(session.is_done());
}

#[test]
fn session_leaves_misplaced_events_aside() {
    let (mut session, _) = FetchSession::start(job(TAR, false));
    assert_eq!(session.step(FetchEvent::Downloaded), FetchAction::Misplaced);
    assert_eq!(session.step(FetchEvent::Unpacked), FetchAction::Misplaced);
    assert_eq!(session.step(FetchEvent::Present(Vec::new())), FetchAction::Misplaced);
    assert_eq!(
        session.step(FetchEvent::Release(release("v1.4.2", &["tool-1.4.2.tar.gz"]))),
        FetchAction::Download(FetchedArtifact {
            file_name: "tool-1.4.2.tar.gz".to_string(),
            url: "https://example.com/tool-1.4.2.tar.gz".to_string(),
            version: Some("1.4.2".to_string()),
            probe: "v1.4.2".to_string(),
        })
    );
    assert_eq!(session.step(FetchEvent::Listing(None)), FetchAction::Misplaced);
    assert_eq!(session.step(FetchEvent::Downloaded), FetchAction::ListArchive);
}

#[test]
fn session_fails_on_an_answer_that_is_no_release() {
    let (mut session, _) = FetchSession::start(job(TAR, false));
    assert_eq!(
        session.step(FetchEvent::Unreadable),
        FetchAction::Fail(FetchFailure::Fetch(FetchError::NetworkError))
    );
    assert!(session.is_done());
    let (mut session, _) = FetchSession::start(job(TAR, false));
    session.step(FetchEvent::Release(release("v1.4.2", &["tool-1.4.2.tar.gz"])));
    assert_eq!(session.step(FetchEvent::Unreadable), FetchAction::Misplaced);
}

#[test]
fn session_shows_where_no_version_of_the_release_was_found() {
    let (mut session, _) = FetchSession::start(job(TAR, false));
    assert_eq!(
        session.step(FetchEvent::Release(release("nightly", &["tool-nightly.tar.gz"]))),
        FetchAction::Download(FetchedArtifact {
            file_name: "tool-nightly.tar.gz".to_string(),
            url: "https://example.com/tool-nightly.tar.gz".to_string(),
            version: None,
            probe: "nightly".to_string(),
        })
    );
}

#[test]
fn session_fails_on_a_pattern_that_is_none() {
    let mut broken = job(TAR, false);
    let relief::config::package::PackageSource::Github(github) = &mut broken.config.source;
    github.version.regex = "(".to_string();
    let (mut session, _) = FetchSession::start(broken);
    assert_eq!(
        session.step(FetchEvent::Release(release("v1.4.2", &["tool-1.4.2.tar.gz"]))),
        FetchAction::Fail(FetchFailure::Fetch(FetchError::Definition(
            RegistryError::CorruptDefinition(ConfigError::InvalidRegex(Field::SourceRegex))
        )))
    );
}
