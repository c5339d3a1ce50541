use relief::config::codec::Field;
use relief::config::package::{
    BinaryInstall, BinaryVersion, GhVerMember, Github, GithubVersion, PackageConfig,
    PackageInstall, PackageMeta, PackageSource, DEFAULT_VERSION_REGEX,
};
use relief::version::{
    bad_pattern, is_pattern, resolve, version_from, Search, VersionError, VersionSource,
    VersionSpec,
};

fn spec(regex: &str) -> VersionSpec {
    VersionSpec {
        source: VersionSource::ReleaseApiField(GhVerMember::TagName),
        regex: regex.to_string(),
    }
}

fn config(source_regex: &str, binary_regex: Option<&str>) -> PackageConfig {
    PackageConfig {
        meta: PackageMeta { edition: 0, identifier: "x".to_string() },
        source: PackageSource::Github(Github {
            owner: "o".to_string(),
            repo: "r".to_string(),
            asset: "a".to_string(),
            extract: None,
            version: GithubVersion { member: GhVerMember::TagName, regex: source_regex.to_string() },
        }),
        install: PackageInstall {
            binary: binary_regex.map(|regex| BinaryInstall {
                target: "t".to_string(),
                rename: None,
                version: BinaryVersion { arg: "--version".to_string(), regex: regex.to_string() },
            }),
        },
    }
}

#[test]
fn resolve_takes_whole_match_without_group() {
    let found = resolve(&spec(r"\d+\.\d+\.\d+"), "Release v1.2.3 (stable)");
    assert_eq!(found, Ok("1.2.3".to_string()));
}

#[test]
fn resolve_reports_no_match() {
    let found = resolve(&spec(r"^v(\d+)$"), "nightly-build");
    assert_eq!(found, Err(VersionError::NoMatch));
}

#[test]
fn resolve_takes_the_first_group() {
    assert_eq!(resolve(&spec(r"^v(\d+)$"), "v42"), Ok("42".to_string()));
    assert_eq!(resolve(&spec(r"(\d+)\.(\d+)"), "tool 7.9"), Ok("7".to_string()));
}

#[test]
fn resolve_takes_whole_match_where_group_took_no_part() {
    assert_eq!(resolve(&spec(DEFAULT_VERSION_REGEX), "tool 1.2.3"), Ok("1.2.3".to_string()));
    assert_eq!(resolve(&spec(r"a(b)?"), "xa"), Ok("a".to_string()));
}

#[test]
fn resolve_takes_the_group_of_the_default_pattern_where_it_took_part() {
    assert_eq!(resolve(&spec(DEFAULT_VERSION_REGEX), "tool 1.2.3-rc1"), Ok("-rc1".to_string()));
}

#[test]
fn resolve_takes_the_leftmost_match() {
    assert_eq!(resolve(&spec(r"\d+"), "a 12 b 34"), Ok("12".to_string()));
}

#[test]
fn resolve_reports_invalid_regex() {
    assert_eq!(resolve(&spec(r"(unclosed"), "anything"), Err(VersionError::InvalidRegex));
}

#[test]
fn resolve_gives_the_same_answer_each_time() {
    let first = resolve(&spec(r"\d+\.\d+\.\d+"), "Release v1.2.3 (stable)");
    for _ in 0..5 {
        assert_eq!(resolve(&spec(r"\d+\.\d+\.\d+"), "Release v1.2.3 (stable)"), first);
    }
}

#[test]
fn version_from_each_search() {
    assert_eq!(version_from(Search::Invalid), Err(VersionError::InvalidRegex));
    assert_eq!(version_from(Search::Nothing), Err(VersionError::NoMatch));
    assert_eq!(
        version_from(Search::Found { whole: "v1".to_string(), group: Some("1".to_string()) }),
        Ok("1".to_string())
    );
    assert_eq!(
        version_from(Search::Found { whole: "v1".to_string(), group: None }),
        Ok("v1".to_string())
    );
}

#[test]
fn is_pattern_tells_patterns_apart() {
    assert!(is_pattern(DEFAULT_VERSION_REGEX));
    assert!(is_pattern(""));
    assert!(!is_pattern("(unclosed"));
    assert!(!is_pattern("[a-"));
}

#[test]
fn bad_pattern_names_the_first_place() {
    assert_eq!(bad_pattern(&config("[0-9]+", None)), None);
    assert_eq!(bad_pattern(&config("[0-9]+", Some("[0-9]+"))), None);
    assert_eq!(bad_pattern(&config("(", None)), Some(Field::SourceRegex));
    assert_eq!(bad_pattern(&config("(", Some("("))), Some(Field::SourceRegex));
    assert_eq!(bad_pattern(&config("[0-9]+", Some("("))), Some(Field::BinaryRegex));
}

#[test]
fn version_specs_of_both_kinds() {
    let github = GithubVersion { member: GhVerMember::Name, regex: "x".to_string() };
    assert_eq!(
        github.to_spec(),
        VersionSpec { source: VersionSource::ReleaseApiField(GhVerMember::Name), regex: "x".to_string() }
    );
    let binary = BinaryVersion { arg: "-V".to_string(), regex: "y".to_string() };
    assert_eq!(
        binary.to_spec(),
        VersionSpec { source: VersionSource::CommandOutput("-V".to_string()), regex: "y".to_string() }
    );
}
