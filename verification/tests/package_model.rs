use relief::config::app::{
    binary_dir_name, project_names, AppConfig, AppConfigError, APPLICATION, BINARY_DIR,
    ORGANIZATION, QUALIFIER,
};
use relief::version::{is_pattern, resolve, VersionError, VersionSource, VersionSpec};
use relief::config::package::{
    all_extract_option, all_gh_ver_members, all_install_options_besides_noop,
    all_package_sources, default_gh_ver_member, default_version_arg, default_version_regex,
    newest_edition, BinaryVersion, ExtractOption, ExtractType, GhVerMember, Github,
    GithubVersion, PackageConfig, PackageInstall, PackageInstallOption, PackageMeta,
    PackageSource, PackageSourceTag, DEFAULT_VERSION_ARG, DEFAULT_VERSION_REGEX, NEWEST_EDITION,
};

fn sample(identifier: &str, edition: usize) -> PackageConfig {
    PackageConfig {
        meta: PackageMeta { edition, identifier: identifier.to_string() },
        source: PackageSource::Github(Github {
            owner: "acme".to_string(),
            repo: "tool".to_string(),
            asset: "tool".to_string(),
            extract: None,
            version: GithubVersion::default(),
        }),
        install: PackageInstall::default(),
    }
}

#[test]
fn newest_edition_is_zero() {
    assert_eq!(NEWEST_EDITION, 0);
    assert_eq!(newest_edition(), 0);
}

#[test]
fn default_regex_is_the_semantic_version_pattern() {
    assert_eq!(DEFAULT_VERSION_REGEX, r"\d+\.\d+\.\d+(-[A-Za-z0-9]+)?");
    assert_eq!(default_version_regex(), DEFAULT_VERSION_REGEX);
}

#[test]
fn default_arg_asks_for_the_version() {
    assert_eq!(DEFAULT_VERSION_ARG, "--version");
    assert_eq!(default_version_arg(), "--version");
}

#[test]
fn package_sources_offer_github_only() {
    assert_eq!(all_package_sources(), vec![PackageSourceTag::Github]);
}

#[test]
fn install_options_offer_binary_only() {
    assert_eq!(all_install_options_besides_noop(), vec![PackageInstallOption::Binary]);
}

#[test]
fn release_members_in_order() {
    assert_eq!(all_gh_ver_members(), vec![GhVerMember::TagName, GhVerMember::Name]);
    assert_eq!(default_gh_ver_member(), GhVerMember::TagName);
    assert_eq!(GhVerMember::default(), GhVerMember::TagName);
}

#[test]
fn extract_options_in_order() {
    assert_eq!(all_extract_option(), vec![ExtractOption::AsIs, ExtractOption::Tar]);
}

#[test]
fn github_version_default_reads_tag_name() {
    let version = GithubVersion::default();
    assert_eq!(version.member, GhVerMember::TagName);
    assert_eq!(version.regex, DEFAULT_VERSION_REGEX);
}

#[test]
fn binary_version_default_runs_version_flag() {
    let version = BinaryVersion::default();
    assert_eq!(version.arg, "--version");
    assert_eq!(version.regex, DEFAULT_VERSION_REGEX);
}

#[test]
fn package_install_default_installs_nothing() {
    assert_eq!(PackageInstall::default(), PackageInstall { binary: None });
}

#[test]
fn extract_option_converts_to_stored_form() {
    let none: Option<ExtractType> = ExtractOption::AsIs.into();
    let tar: Option<ExtractType> = ExtractOption::Tar.into();
    assert_eq!(none, None);
    assert_eq!(tar, Some(ExtractType::Tar));
}

#[test]
fn stored_form_converts_to_extract_option() {
    assert_eq!(ExtractOption::from(None), ExtractOption::AsIs);
    assert_eq!(ExtractOption::from(Some(ExtractType::Tar)), ExtractOption::Tar);
}

#[test]
fn extract_conversion_round_trips() {
    for choice in all_extract_option() {
        let stored: Option<ExtractType> = choice.into();
        assert_eq!(ExtractOption::from(stored), choice);
    }
}

#[test]
fn labels_are_the_menu_texts() {
    assert_eq!(PackageSourceTag::Github.label(), "GitHub Release");
    assert_eq!(PackageInstallOption::NoOp.label(), "No other install action");
    assert_eq!(PackageInstallOption::Binary.label(), "Install as binary executable");
    assert_eq!(GhVerMember::TagName.label(), "`.tag_name`");
    assert_eq!(GhVerMember::Name.label(), "`.name`");
    assert_eq!(ExtractType::Tar.label(), "Tar");
    assert_eq!(ExtractOption::AsIs.label(), "Don't extract");
    assert_eq!(ExtractOption::Tar.label(), "Tar");
}

#[test]
fn source_tag_of_github_source() {
    assert_eq!(sample("tool", 0).source.tag(), PackageSourceTag::Github);
}

#[test]
fn definition_with_name_is_valid() {
    assert!(sample("tool", 0).is_valid());
    assert!(sample("tool", 7).is_valid());
}

#[test]
fn definition_without_name_is_not_valid() {
    assert!(!sample("", 0).is_valid());
}

#[test]
fn definition_with_huge_edition_is_not_valid() {
    assert!(!sample("tool", usize::MAX).is_valid());
    assert!(sample("tool", i64::MAX as usize).is_valid());
}

#[test]
fn app_config_error_message() {
    assert_eq!(AppConfigError::GetDirFail.message(), "failed to calculate app directories");
}

#[test]
fn app_directories_lie_in_the_data_directory() {
    match AppConfig::new() {
        Ok(app) => {
            assert_eq!(app.package_dir("mytool"), app.dirs.data_dir().join("mytool"));
            assert_eq!(app.binary_dir(), app.dirs.data_dir().join("bin"));
            assert_ne!(app.package_dir("mytool"), app.binary_dir());
        }
        Err(error) => assert_eq!(error, AppConfigError::GetDirFail),
    }
}

#[test]
fn app_config_without_directories_fails() {
    assert!(matches!(AppConfig::with_dirs(None), Err(AppConfigError::GetDirFail)));
    if let Ok(app) = AppConfig::new() {
        let again = AppConfig::with_dirs(Some(app.dirs.clone())).unwrap();
        assert_eq!(again.dirs.data_dir(), app.dirs.data_dir());
    }
}

#[test]
fn application_is_filed_under_its_names() {
    assert_eq!(
        project_names(),
        ("lyn".to_string(), "saplyn".to_string(), "relief".to_string())
    );
    assert_eq!((QUALIFIER, ORGANIZATION, APPLICATION), ("lyn", "saplyn", "relief"));
    assert_eq!(binary_dir_name(), "bin");
    assert_eq!(BINARY_DIR, "bin");
    if let Ok(app) = AppConfig::new() {
        assert_eq!(app.binary_dir(), app.package_dir(&binary_dir_name()));
    }
}

#[test]
fn default_pattern_finds_versions() {
    let spec = VersionSpec {
        source: VersionSource::ReleaseApiField(GhVerMember::TagName),
        regex: default_version_regex(),
    };
    assert!(is_pattern(DEFAULT_VERSION_REGEX));
    assert_eq!(resolve(&spec, "Release v1.2.3 (stable)"), Ok("1.2.3".to_string()));
    assert_eq!(resolve(&spec, "nightly-build"), Err(VersionError::NoMatch));
    assert_eq!(resolve(&spec, "1.2"), Err(VersionError::NoMatch));
}
