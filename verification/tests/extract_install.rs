use relief::config::package::{BinaryInstall, BinaryVersion, ExtractType};
use relief::extract::{
    extract, is_safe_path, listed_members, ExtractError, ExtractedSet, FetchedArtifact,
};
use relief::install::{
    base_name_of, destination, install, installed_state, InstallError, InstallPlan,
};
use relief::registry::InstalledState;
use relief::version::VersionError;

fn artifact(file_name: &str) -> FetchedArtifact {
    FetchedArtifact {
        file_name: file_name.to_string(),
        url: "https://example.com/a".to_string(),
        version: Some("1.2.3".to_string()),
        probe: "v1.2.3".to_string(),
    }
}

fn names(list: &[&str]) -> Vec<String> {
    list.iter().map(|name| name.to_string()).collect()
}

fn binary(target: &str, rename: Option<&str>) -> BinaryInstall {
    BinaryInstall {
        target: target.to_string(),
        rename: rename.map(|name| name.to_string()),
        version: BinaryVersion { arg: "--version".to_string(), regex: r"\d+\.\d+\.\d+".to_string() },
    }
}

fn set(list: &[&str]) -> ExtractedSet {
    ExtractedSet::of_members(names(list)).unwrap()
}

#[test]
fn safe_paths_stay_below() {
    for path in ["tool", "bin/tool", "a/b/c.txt", "..tool", "tool..", "a/..b/c", "a/b../c", "...", "a/.../b", ".", "./tool", "a..b", "ab:c", "1:x", "a/C:x", "c"] {
        assert!(is_safe_path(path), "{path}");
    }
}

#[test]
fn unsafe_paths_leave() {
    for path in ["", "/", "/etc/passwd", "\\windows", "..", "../x", "a/..", "a/../b", "../../etc/passwd", "a\\..\\b", "a/..\\b", "x/../../y", "C:\\x", "C:/x", "c:x", "C:", "z:tool"] {
        assert!(!is_safe_path(path), "{path}");
    }
}

#[test]
fn tar_member_that_climbs_is_refused() {
    let listing = names(&["../../etc/passwd"]);
    assert_eq!(
        extract(&artifact("tool.tar"), Some(ExtractType::Tar), Some(listing)),
        Err(ExtractError::UnsafePath(0))
    );
}

#[test]
fn tar_names_the_first_unsafe_member() {
    let listing = names(&["tool", "docs/readme", "docs/../../x", "/abs"]);
    assert_eq!(
        extract(&artifact("tool.tar"), Some(ExtractType::Tar), Some(listing)),
        Err(ExtractError::UnsafePath(2))
    );
}

#[test]
fn tar_gives_its_members() {
    let listing = names(&["tool", "docs/readme"]);
    let set = extract(&artifact("tool.tar"), Some(ExtractType::Tar), Some(listing.clone())).unwrap();
    assert_eq!(set.members(), &listing);
}

#[test]
fn tar_without_members_gives_an_empty_set() {
    let set = extract(&artifact("tool.tar"), Some(ExtractType::Tar), Some(Vec::new())).unwrap();
    assert!(set.members().is_empty());
}

#[test]
fn tar_that_cannot_be_read_is_corrupt() {
    assert_eq!(
        extract(&artifact("tool.tar"), Some(ExtractType::Tar), None),
        Err(ExtractError::CorruptArchive)
    );
}

#[test]
fn without_extraction_the_artifact_is_the_member() {
    let set = extract(&artifact("tool"), None, None).unwrap();
    assert_eq!(set.members(), &names(&["tool"]));
    let set = extract(&artifact("tool"), None, Some(names(&["ignored"]))).unwrap();
    assert_eq!(set.members(), &names(&["tool"]));
}

#[test]
fn without_extraction_an_unsafe_name_is_refused() {
    assert_eq!(extract(&artifact("../tool"), None, None), Err(ExtractError::UnsafePath(0)));
}

#[test]
fn of_members_checks_every_path() {
    assert_eq!(
        ExtractedSet::of_members(names(&["a", "b", ".."])),
        Err(ExtractError::UnsafePath(2))
    );
    assert!(ExtractedSet::of_members(names(&["a", "b"])).is_ok());
}

#[test]
fn file_name_is_what_follows_the_last_separator() {
    assert_eq!(base_name_of("tool"), "tool");
    assert_eq!(base_name_of("bin/tool"), "tool");
    assert_eq!(base_name_of("a/b/c.txt"), "c.txt");
    assert_eq!(base_name_of("a\\b"), "b");
    assert_eq!(base_name_of("dir/"), "");
    assert_eq!(base_name_of(""), "");
}

#[test]
fn destination_is_the_new_name_or_the_file_name() {
    assert_eq!(destination(&binary("bin/tool", None)), "tool");
    assert_eq!(destination(&binary("bin/tool", Some("acme-tool"))), "acme-tool");
}

#[test]
fn install_plans_the_copy() {
    let plan = install(&set(&["readme", "bin/tool"]), &binary("bin/tool", None), &names(&["other"]), false);
    assert_eq!(
        plan,
        Ok(InstallPlan {
            member: "bin/tool".to_string(),
            file_name: "tool".to_string(),
            replaces: false,
            probe_arg: "--version".to_string(),
        })
    );
}

#[test]
fn install_uses_the_new_name() {
    let plan = install(&set(&["tool"]), &binary("tool", Some("acme-tool")), &names(&["tool"]), false)
        .unwrap();
    assert_eq!(plan.file_name, "acme-tool");
    assert_eq!(plan.member, "tool");
    assert!(!plan.replaces);
}

#[test]
fn install_misses_a_member_that_is_not_there() {
    assert_eq!(
        install(&set(&["readme"]), &binary("tool", None), &Vec::new(), true),
        Err(InstallError::MemberNotFound)
    );
    assert_eq!(
        install(&set(&["bin/tool"]), &binary("tool", None), &Vec::new(), false),
        Err(InstallError::MemberNotFound)
    );
}

#[test]
fn install_keeps_a_file_that_is_there() {
    assert_eq!(
        install(&set(&["tool"]), &binary("tool", None), &names(&["a", "tool"]), false),
        Err(InstallError::DestinationExists)
    );
    assert_eq!(
        install(&set(&["tool"]), &binary("tool", Some("a")), &names(&["a", "tool"]), false),
        Err(InstallError::DestinationExists)
    );
}

#[test]
fn install_replaces_only_when_asked() {
    let plan = install(&set(&["tool"]), &binary("tool", None), &names(&["tool"]), true).unwrap();
    assert!(plan.replaces);
    assert_eq!(plan.file_name, "tool");
    let plan = install(&set(&["tool"]), &binary("tool", None), &Vec::new(), true).unwrap();
    assert!(!plan.replaces);
}

#[test]
fn installed_state_reads_the_version() {
    let spec = binary("tool", None);
    assert_eq!(
        installed_state(&spec, "/data/bin/tool".to_string(), "tool 1.2.3 (build 7)\n", 42),
        Ok(InstalledState {
            version: "1.2.3".to_string(),
            path: "/data/bin/tool".to_string(),
            installed_at: 42,
        })
    );
    assert_eq!(
        installed_state(&spec, "/data/bin/tool".to_string(), "usage: tool", 42),
        Err(VersionError::NoMatch)
    );
    let mut broken = binary("tool", None);
    broken.version.regex = "(".to_string();
    assert_eq!(
        installed_state(&broken, "/data/bin/tool".to_string(), "1.2.3", 42),
        Err(VersionError::InvalidRegex)
    );
}

#[test]
fn listed_members_are_the_lines_that_are_not_empty() {
    assert_eq!(listed_members("tool\ndocs/readme\n"), names(&["tool", "docs/readme"]));
    assert_eq!(listed_members("tool\ndocs/readme"), names(&["tool", "docs/readme"]));
    assert_eq!(listed_members("\n\ntool\n\nb\n\n"), names(&["tool", "b"]));
    assert_eq!(listed_members(""), Vec::<String>::new());
    assert_eq!(listed_members("\n"), Vec::<String>::new());
    assert_eq!(listed_members("a b\n c "), names(&["a b", " c "]));
}

#[test]
fn listing_with_a_climbing_member_is_refused_whole() {
    let listing = listed_members("tool\n../../etc/passwd\nreadme\n");
    assert_eq!(
        extract(&artifact("tool.tar"), Some(ExtractType::Tar), Some(listing)),
        Err(ExtractError::UnsafePath(1))
    );
}

#[test]
fn member_on_a_drive_is_refused() {
    let listing = names(&["tool", "C:\\Windows\\tool.exe"]);
    assert_eq!(
        extract(&artifact("tool.tar"), Some(ExtractType::Tar), Some(listing)),
        Err(ExtractError::UnsafePath(1))
    );
    assert_eq!(extract(&artifact("C:/tool"), None, None), Err(ExtractError::UnsafePath(0)));
}

#[test]
fn artifact_duplicate_is_equal() {
    assert_eq!(artifact("tool").duplicate(), artifact("tool"));
}
