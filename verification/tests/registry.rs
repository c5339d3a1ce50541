use relief::config::codec::{parse, ConfigError, Fault, Field};
use relief::config::package::{
    GhVerMember, Github, GithubVersion, PackageConfig, PackageInstall, PackageMeta, PackageSource,
};
use relief::registry::{
    file_name, identifier_of_file, Entry, InstalledState, Registry, RegistryError,
};

fn definition(identifier: &str, owner: &str) -> PackageConfig {
    PackageConfig {
        meta: PackageMeta { edition: 0, identifier: identifier.to_string() },
        source: PackageSource::Github(Github {
            owner: owner.to_string(),
            repo: "tool".to_string(),
            asset: "tool".to_string(),
            extract: None,
            version: GithubVersion { member: GhVerMember::TagName, regex: "[0-9]+".to_string() },
        }),
        install: PackageInstall { binary: None },
    }
}

fn state(version: &str, path: &str) -> InstalledState {
    InstalledState { version: version.to_string(), path: path.to_string(), installed_at: 1_700_000_000 }
}

#[test]
fn new_registry_is_empty() {
    let registry = Registry::new();
    assert_eq!(registry.len(), 0);
    assert_eq!(registry.list(), Vec::<String>::new());
    assert!(!registry.contains("tool"));
    assert_eq!(registry.get("tool"), None);
}

#[test]
fn create_stores_the_definition() {
    let mut registry = Registry::new();
    assert_eq!(registry.create(&definition("tool", "acme")), Ok(()));
    assert!(registry.contains("tool"));
    assert_eq!(registry.len(), 1);
    assert_eq!(registry.load("tool"), Ok(definition("tool", "acme")));
}

#[test]
fn second_create_with_same_identifier_collides() {
    let mut registry = Registry::new();
    assert_eq!(registry.create(&definition("tool", "acme")), Ok(()));
    assert_eq!(
        registry.create(&definition("tool", "someone-else")),
        Err(RegistryError::IdentifierCollision)
    );
    assert_eq!(registry.create(&definition("tool", "acme")), Err(RegistryError::IdentifierCollision));
    assert_eq!(registry.len(), 1);
    assert_eq!(registry.load("tool"), Ok(definition("tool", "acme")));
}

#[test]
fn create_refuses_what_cannot_be_stored() {
    let mut registry = Registry::new();
    assert_eq!(
        registry.create(&definition("", "acme")),
        Err(RegistryError::Unstorable(ConfigError::Malformed(Fault::EmptyIdentifier)))
    );
    assert_eq!(registry.len(), 0);
}

#[test]
fn list_is_in_ascending_order() {
    let mut registry = Registry::new();
    for name in ["pear", "apple", "zebra", "app", "Apple", "mango"] {
        assert_eq!(registry.create(&definition(name, "acme")), Ok(()));
    }
    assert_eq!(registry.list(), vec!["Apple", "app", "apple", "mango", "pear", "zebra"]);
    assert_eq!(registry.len(), 6);
}

#[test]
fn load_of_unknown_identifier_is_not_found() {
    let registry = Registry::new();
    assert_eq!(registry.load("tool"), Err(RegistryError::NotFound));
}

#[test]
fn load_of_broken_payload_is_corrupt() {
    let mut registry = Registry::new();
    assert_eq!(registry.register("broken".to_string(), "[meta".to_string()), Ok(()));
    assert_eq!(registry.register("partial".to_string(), "[meta]\n".to_string()), Ok(()));
    assert_eq!(
        registry.load("broken"),
        Err(RegistryError::CorruptDefinition(ConfigError::Syntax))
    );
    assert_eq!(
        registry.load("partial"),
        Err(RegistryError::CorruptDefinition(ConfigError::Malformed(Fault::Missing(
            Field::Identifier
        ))))
    );
}

#[test]
fn register_keeps_the_payload_as_given() {
    let mut registry = Registry::new();
    assert_eq!(registry.register("b".to_string(), "second".to_string()), Ok(()));
    assert_eq!(registry.register("a".to_string(), "first".to_string()), Ok(()));
    assert_eq!(
        registry.register("a".to_string(), "other".to_string()),
        Err(RegistryError::IdentifierCollision)
    );
    assert_eq!(
        registry.get("a"),
        Some(Entry { identifier: "a".to_string(), payload: "first".to_string(), installed: None })
    );
    assert_eq!(registry.get("b").unwrap().payload, "second");
}

#[test]
fn save_replaces_the_definition_and_nothing_else() {
    let mut registry = Registry::new();
    registry.create(&definition("one", "acme")).unwrap();
    registry.create(&definition("two", "acme")).unwrap();
    registry.record_install("one", state("1.0.0", "/bin/one")).unwrap();
    assert_eq!(registry.save(&definition("one", "newer")), Ok(()));
    assert_eq!(registry.load("one"), Ok(definition("one", "newer")));
    assert_eq!(registry.load("two"), Ok(definition("two", "acme")));
    assert_eq!(registry.list(), vec!["one", "two"]);
    assert_eq!(registry.get("one").unwrap().installed, Some(state("1.0.0", "/bin/one")));
}

#[test]
fn save_of_unknown_identifier_is_not_found() {
    let mut registry = Registry::new();
    registry.create(&definition("one", "acme")).unwrap();
    assert_eq!(registry.save(&definition("other", "acme")), Err(RegistryError::NotFound));
    assert_eq!(registry.list(), vec!["one"]);
}

#[test]
fn replace_of_unknown_identifier_is_not_found() {
    let mut registry = Registry::new();
    assert_eq!(registry.replace("x", "text".to_string()), Err(RegistryError::NotFound));
}

#[test]
fn record_install_attaches_state() {
    let mut registry = Registry::new();
    registry.create(&definition("one", "acme")).unwrap();
    let payload = registry.get("one").unwrap().payload;
    assert_eq!(registry.record_install("one", state("1.2.3", "/bin/one")), Ok(()));
    let entry = registry.get("one").unwrap();
    assert_eq!(entry.installed, Some(state("1.2.3", "/bin/one")));
    assert_eq!(entry.payload, payload);
    assert_eq!(
        registry.record_install("none", state("1", "/x")),
        Err(RegistryError::NotFound)
    );
}

#[test]
fn delete_hands_the_entry_back() {
    let mut registry = Registry::new();
    registry.create(&definition("one", "acme")).unwrap();
    registry.create(&definition("two", "acme")).unwrap();
    registry.record_install("one", state("1.2.3", "/bin/one")).unwrap();
    let entry = registry.delete("one").unwrap();
    assert_eq!(entry.identifier, "one");
    assert_eq!(entry.installed, Some(state("1.2.3", "/bin/one")));
    assert_eq!(parse(&entry.payload), Ok(definition("one", "acme")));
    assert_eq!(registry.list(), vec!["two"]);
    assert_eq!(registry.delete("one"), Err(RegistryError::NotFound));
    assert_eq!(registry.create(&definition("one", "again")), Ok(()));
}

#[test]
fn file_names_carry_the_identifier() {
    assert_eq!(file_name("mytool"), "mytool.toml");
    assert_eq!(identifier_of_file("mytool.toml"), Some("mytool".to_string()));
    assert_eq!(identifier_of_file("a.b.toml"), Some("a.b".to_string()));
    assert_eq!(identifier_of_file(".toml"), None);
    assert_eq!(identifier_of_file("mytool.json"), None);
    assert_eq!(identifier_of_file("toml"), None);
    assert_eq!(identifier_of_file("bin"), None);
    assert_eq!(identifier_of_file(&file_name("naïve")), Some("naïve".to_string()));
}

#[test]
fn duplicates_are_equal() {
    let entry = Entry {
        identifier: "a".to_string(),
        payload: "p".to_string(),
        installed: Some(state("1", "/a")),
    };
    assert_eq!(entry.duplicate(), entry);
    assert_eq!(state("1", "/a").duplicate(), state("1", "/a"));
}
