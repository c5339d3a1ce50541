use relief::builder::{Answer, BuildError, Builder, Section, Step};
use relief::config::package::{
    BinaryInstall, BinaryVersion, ExtractOption, ExtractType, GhVerMember, Github,
    GithubVersion, PackageConfig, PackageInstall, PackageInstallOption, PackageMeta,
    PackageSource, PackageSourceTag, DEFAULT_VERSION_REGEX,
};
use relief::menu::{InstallMenu, MenuError};

fn text(s: &str) -> Answer {
    Answer::Text(s.to_string())
}

fn at_install_menu() -> Builder {
    let mut builder = Builder::new(Vec::new());
    for answer in [
        text("mytool"),
        Answer::Source(PackageSourceTag::Github),
        text("acme"),
        text("tool"),
        text("tool-{version}.tar.gz"),
        Answer::Extract(ExtractOption::Tar),
        Answer::Confirm(false),
    ] {
        assert_eq!(builder.answer(answer), Ok(()));
    }
    assert_eq!(builder.step(), Step::Install);
    builder
}

#[test]
fn menu_offers_only_the_action_at_first() {
    let menu = InstallMenu::start();
    assert_eq!(menu.offered(), vec![PackageInstallOption::Binary]);
    assert!(!menu.is_done());
    assert!(!menu.any_chosen());
}

#[test]
fn menu_refuses_to_stop_before_any_action() {
    let mut menu = InstallMenu::start();
    assert_eq!(menu.select(PackageInstallOption::NoOp), Err(MenuError::NotOffered));
    assert_eq!(menu.offered(), vec![PackageInstallOption::Binary]);
    assert!(!menu.is_done());
}

#[test]
fn menu_ends_after_two_selections() {
    let mut menu = InstallMenu::start();
    assert_eq!(menu.select(PackageInstallOption::Binary), Ok(()));
    assert!(menu.any_chosen());
    assert_eq!(menu.offered(), vec![PackageInstallOption::NoOp]);
    assert_eq!(menu.select(PackageInstallOption::NoOp), Ok(()));
    assert!(menu.is_done());
    assert_eq!(menu.offered(), Vec::new());
}

#[test]
fn menu_takes_each_action_once() {
    let mut menu = InstallMenu::start();
    assert_eq!(menu.select(PackageInstallOption::Binary), Ok(()));
    assert_eq!(menu.select(PackageInstallOption::Binary), Err(MenuError::NotOffered));
    assert_eq!(menu.offered(), vec![PackageInstallOption::NoOp]);
}

#[test]
fn menu_takes_nothing_once_done() {
    let mut menu = InstallMenu::start();
    menu.select(PackageInstallOption::Binary).unwrap();
    menu.select(PackageInstallOption::NoOp).unwrap();
    assert_eq!(menu.select(PackageInstallOption::NoOp), Err(MenuError::NotOffered));
    assert_eq!(menu.select(PackageInstallOption::Binary), Err(MenuError::NotOffered));
    assert!(menu.is_done());
}

#[test]
fn builder_asks_for_the_identifier_first() {
    let builder = Builder::new(Vec::new());
    assert_eq!(builder.step(), Step::Identifier);
    assert_eq!(builder.suggestion(), None);
}

#[test]
fn builder_walks_the_short_way() {
    let mut builder = at_install_menu();
    assert_eq!(builder.install_options(), vec![PackageInstallOption::Binary]);
    assert_eq!(builder.answer(Answer::Install(PackageInstallOption::Binary)), Ok(()));
    assert_eq!(builder.step(), Step::Target);
    assert_eq!(builder.answer(text("tool")), Ok(()));
    assert_eq!(builder.step(), Step::Rename);
    assert_eq!(builder.answer(Answer::Skipped), Ok(()));
    assert_eq!(builder.step(), Step::BinaryVersion);
    assert_eq!(builder.answer(Answer::Confirm(false)), Ok(()));
    assert_eq!(builder.step(), Step::Install);
    assert_eq!(builder.install_options(), vec![PackageInstallOption::NoOp]);
    assert_eq!(builder.answer(Answer::Install(PackageInstallOption::NoOp)), Ok(()));
    assert_eq!(builder.step(), Step::Done);
    let config = builder.finish().unwrap();
    assert_eq!(
        config,
        PackageConfig {
            meta: PackageMeta { edition: 0, identifier: "mytool".to_string() },
            source: PackageSource::Github(Github {
                owner: "acme".to_string(),
                repo: "tool".to_string(),
                asset: "tool-{version}.tar.gz".to_string(),
                extract: Some(ExtractType::Tar),
                version: GithubVersion::default(),
            }),
            install: PackageInstall {
                binary: Some(BinaryInstall {
                    target: "tool".to_string(),
                    rename: None,
                    version: BinaryVersion::default(),
                }),
            },
        }
    );
}

#[test]
fn builder_walks_the_long_way() {
    let mut builder = Builder::new(vec!["other".to_string()]);
    let answers = [
        text("mytool"),
        Answer::Source(PackageSourceTag::Github),
        text("acme"),
        text("tool"),
        text("tool"),
        Answer::Extract(ExtractOption::AsIs),
        Answer::Confirm(true),
        Answer::Member(GhVerMember::Name),
        text("v([0-9]+)"),
        Answer::Install(PackageInstallOption::Binary),
        text("tool"),
        text("acme-tool"),
        Answer::Confirm(true),
        text("-V"),
        text(""),
        Answer::Install(PackageInstallOption::NoOp),
    ];
    let steps = [
        Step::Identifier,
        Step::Source,
        Step::Owner,
        Step::Repo,
        Step::Asset,
        Step::Extract,
        Step::SourceVersion,
        Step::Member,
        Step::SourceRegex,
        Step::Install,
        Step::Target,
        Step::Rename,
        Step::BinaryVersion,
        Step::VersionArg,
        Step::BinaryRegex,
        Step::Install,
    ];
    for (answer, step) in answers.into_iter().zip(steps) {
        assert_eq!(builder.step(), step);
        assert_eq!(builder.answer(answer), Ok(()));
    }
    assert_eq!(builder.step(), Step::Done);
    let config = builder.finish().unwrap();
    let PackageSource::Github(github) = config.source;
    assert_eq!(github.extract, None);
    assert_eq!(github.version, GithubVersion { member: GhVerMember::Name, regex: "v([0-9]+)".to_string() });
    assert_eq!(
        config.install.binary,
        Some(BinaryInstall {
            target: "tool".to_string(),
            rename: Some("acme-tool".to_string()),
            version: BinaryVersion { arg: "-V".to_string(), regex: DEFAULT_VERSION_REGEX.to_string() },
        })
    );
}

#[test]
fn builder_never_takes_stop_before_an_action() {
    let mut builder = at_install_menu();
    assert_eq!(
        builder.answer(Answer::Install(PackageInstallOption::NoOp)),
        Err(BuildError::NotOffered)
    );
    assert_eq!(builder.step(), Step::Install);
    assert_eq!(builder.install_options(), vec![PackageInstallOption::Binary]);
}

#[test]
fn builder_refuses_a_taken_identifier() {
    let mut builder = Builder::new(vec!["mytool".to_string()]);
    assert_eq!(builder.answer(text("mytool")), Err(BuildError::Collision));
    assert_eq!(builder.step(), Step::Identifier);
    assert_eq!(builder.answer(text("mytool2")), Ok(()));
    assert_eq!(builder.step(), Step::Source);
}

#[test]
fn builder_with_identifier_checks_at_once() {
    assert_eq!(
        Builder::with_identifier(vec!["mytool".to_string()], "mytool".to_string()),
        Err(BuildError::Collision)
    );
    assert_eq!(
        Builder::with_identifier(Vec::new(), String::new()),
        Err(BuildError::Required)
    );
    let builder = Builder::with_identifier(vec!["other".to_string()], "mytool".to_string()).unwrap();
    assert_eq!(builder.step(), Step::Source);
}

#[test]
fn builder_wants_required_answers() {
    let mut builder = Builder::new(Vec::new());
    assert_eq!(builder.answer(text("")), Err(BuildError::Required));
    assert_eq!(builder.answer(Answer::Skipped), Err(BuildError::Unexpected));
    assert_eq!(builder.answer(Answer::Confirm(true)), Err(BuildError::Unexpected));
    assert_eq!(builder.step(), Step::Identifier);
}

#[test]
fn builder_stops_when_cancelled() {
    let mut builder = at_install_menu();
    assert_eq!(builder.answer(Answer::Cancelled), Err(BuildError::Cancelled));
    assert_eq!(builder.step(), Step::Install);
    assert_eq!(builder.finish(), None);
}

#[test]
fn builder_takes_nothing_once_done() {
    let mut builder = at_install_menu();
    builder.answer(Answer::Install(PackageInstallOption::Binary)).unwrap();
    builder.answer(text("tool")).unwrap();
    builder.answer(text("")).unwrap();
    builder.answer(Answer::Confirm(false)).unwrap();
    builder.answer(Answer::Install(PackageInstallOption::NoOp)).unwrap();
    assert_eq!(builder.answer(text("more")), Err(BuildError::Finished));
    assert_eq!(builder.answer(Answer::Cancelled), Err(BuildError::Cancelled));
    assert_eq!(builder.finish().unwrap().install.binary.unwrap().rename, None);
}

#[test]
fn builder_suggests_the_default_pattern() {
    let mut builder = Builder::new(Vec::new());
    for answer in [
        text("mytool"),
        Answer::Source(PackageSourceTag::Github),
        text("acme"),
        text("tool"),
        text("tool"),
        Answer::Extract(ExtractOption::AsIs),
        Answer::Confirm(true),
        Answer::Member(GhVerMember::TagName),
    ] {
        builder.answer(answer).unwrap();
    }
    assert_eq!(builder.step(), Step::SourceRegex);
    assert_eq!(builder.suggestion(), Some(DEFAULT_VERSION_REGEX.to_string()));
}

#[test]
fn seeded_builder_starts_from_the_stored_answers() {
    let existing = PackageConfig {
        meta: PackageMeta { edition: 0, identifier: "mytool".to_string() },
        source: PackageSource::Github(Github {
            owner: "acme".to_string(),
            repo: "tool".to_string(),
            asset: "tool.tar".to_string(),
            extract: Some(ExtractType::Tar),
            version: GithubVersion { member: GhVerMember::Name, regex: "x".to_string() },
        }),
        install: PackageInstall {
            binary: Some(BinaryInstall {
                target: "tool".to_string(),
                rename: Some("t".to_string()),
                version: BinaryVersion { arg: "-V".to_string(), regex: "y".to_string() },
            }),
        },
    };
    let mut builder = Builder::seeded(vec!["mytool".to_string()], existing.clone());
    assert_eq!(builder.step(), Step::Source);
    builder.answer(Answer::Source(PackageSourceTag::Github)).unwrap();
    assert_eq!(builder.suggestion(), Some("acme".to_string()));
    builder.answer(text("acme")).unwrap();
    assert_eq!(builder.suggestion(), Some("tool".to_string()));
    builder.answer(text("tool")).unwrap();
    assert_eq!(builder.suggestion(), Some("tool.tar".to_string()));
    builder.answer(text("tool.tar")).unwrap();
    builder.answer(Answer::Extract(ExtractOption::Tar)).unwrap();
    builder.answer(Answer::Confirm(true)).unwrap();
    builder.answer(Answer::Member(GhVerMember::Name)).unwrap();
    assert_eq!(builder.suggestion(), Some("x".to_string()));
    builder.answer(text("x")).unwrap();
    builder.answer(Answer::Install(PackageInstallOption::Binary)).unwrap();
    assert_eq!(builder.suggestion(), Some("tool".to_string()));
    builder.answer(text("tool")).unwrap();
    assert_eq!(builder.suggestion(), Some("t".to_string()));
    builder.answer(text("t")).unwrap();
    builder.answer(Answer::Confirm(true)).unwrap();
    assert_eq!(builder.suggestion(), Some("-V".to_string()));
    builder.answer(text("-V")).unwrap();
    assert_eq!(builder.suggestion(), Some("y".to_string()));
    builder.answer(text("y")).unwrap();
    builder.answer(Answer::Install(PackageInstallOption::NoOp)).unwrap();
    assert_eq!(builder.finish(), Some(existing));
}

#[test]
fn steps_carry_their_questions() {
    assert_eq!(Step::Identifier.message(), "Package identifier:");
    assert_eq!(Step::Source.message(), "Package source:");
    assert_eq!(Step::Owner.message(), "Repo owner:");
    assert_eq!(Step::Repo.message(), "Repo name:");
    assert_eq!(Step::Asset.message(), "Release asset name:");
    assert_eq!(Step::Extract.message(), "Extract type:");
    assert_eq!(Step::SourceVersion.message(), "Customize version config?");
    assert_eq!(Step::Member.message(), "Release API JSON member:");
    assert_eq!(Step::SourceRegex.message(), "Content version regex matcher:");
    assert_eq!(Step::Install.message(), "Install option");
    assert_eq!(Step::Target.message(), "Target name:");
    assert_eq!(Step::Rename.message(), "Rename binary target:");
    assert_eq!(Step::BinaryVersion.message(), "Customize version config?");
    assert_eq!(Step::VersionArg.message(), "Version arg:");
    assert_eq!(Step::BinaryRegex.message(), "Output version regex matcher:");
    assert_eq!(Step::Done.message(), "");
    assert_eq!(
        Step::Asset.help(),
        Some("Use \"{version}\" to represent version numbers".to_string())
    );
    assert_eq!(
        Step::Rename.help(),
        Some("leave it empty or press <ESC> for not renaming".to_string())
    );
    assert_eq!(Step::Owner.help(), None);
    assert_eq!(Step::Identifier.section(), Section::General);
    assert_eq!(Step::Install.section(), Section::General);
    assert_eq!(Step::Owner.section(), Section::Github);
    assert_eq!(Step::SourceRegex.section(), Section::Github);
    assert_eq!(Step::Target.section(), Section::Binary);
    assert_eq!(Step::BinaryRegex.section(), Section::Binary);
}

#[test]
fn built_definition_can_be_stored() {
    let mut builder = at_install_menu();
    builder.answer(Answer::Install(PackageInstallOption::Binary)).unwrap();
    builder.answer(text("tool")).unwrap();
    builder.answer(Answer::Skipped).unwrap();
    builder.answer(Answer::Confirm(false)).unwrap();
    builder.answer(Answer::Install(PackageInstallOption::NoOp)).unwrap();
    let config = builder.finish().unwrap();
    assert!(config.is_valid());
    assert!(config.install.binary.is_some());
    let text = relief::config::codec::serialize(&config).unwrap();
    assert_eq!(relief::config::codec::parse(&text), Ok(config));
}
