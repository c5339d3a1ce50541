use relief::config::codec::{ConfigError, Fault, Field};
use relief::record::{read_state, write_state};
use relief::registry::InstalledState;

fn state(installed_at: u64) -> InstalledState {
    InstalledState {
        version: "1.2.3".to_string(),
        path: "/data/bin/tool".to_string(),
        installed_at,
    }
}

#[test]
fn record_is_read_from_its_document() {
    let text = "version = \"1.2.3\"\npath = \"/data/bin/tool\"\ninstalled_at = 1700000000\n";
    assert_eq!(read_state(text), Ok(state(1_700_000_000)));
}

#[test]
fn record_is_read_back_as_written() {
    for at in [0, 1, 1_700_000_000, i64::MAX as u64] {
        let text = write_state(&state(at)).unwrap();
        assert_eq!(read_state(&text), Ok(state(at)));
    }
}

#[test]
fn record_document_names_every_value() {
    let text = write_state(&state(42)).unwrap();
    let table: toml::Table = text.parse().unwrap();
    assert_eq!(table["version"].as_str(), Some("1.2.3"));
    assert_eq!(table["path"].as_str(), Some("/data/bin/tool"));
    assert_eq!(table["installed_at"].as_integer(), Some(42));
    assert_eq!(table.len(), 3);
}

#[test]
fn record_with_a_time_too_large_is_not_written() {
    assert_eq!(
        write_state(&state(i64::MAX as u64 + 1)),
        Err(ConfigError::Malformed(Fault::TimeRange))
    );
}

#[test]
fn record_faults_name_their_place() {
    assert_eq!(read_state("version = "), Err(ConfigError::Syntax));
    assert_eq!(
        read_state("path = \"/x\"\ninstalled_at = 1\n"),
        Err(ConfigError::Malformed(Fault::Missing(Field::InstalledVersion)))
    );
    assert_eq!(
        read_state("version = \"1\"\ninstalled_at = 1\n"),
        Err(ConfigError::Malformed(Fault::Missing(Field::InstalledPath)))
    );
    assert_eq!(
        read_state("version = \"1\"\npath = \"/x\"\n"),
        Err(ConfigError::Malformed(Fault::Missing(Field::InstalledAt)))
    );
    assert_eq!(
        read_state("version = 1\npath = \"/x\"\ninstalled_at = 1\n"),
        Err(ConfigError::Malformed(Fault::Mistyped(Field::InstalledVersion)))
    );
    assert_eq!(
        read_state("version = \"1\"\npath = \"/x\"\ninstalled_at = \"now\"\n"),
        Err(ConfigError::Malformed(Fault::Mistyped(Field::InstalledAt)))
    );
    assert_eq!(
        read_state("version = \"1\"\npath = \"/x\"\ninstalled_at = -5\n"),
        Err(ConfigError::Malformed(Fault::TimeRange))
    );
    assert_eq!(Fault::TimeRange.message(), "`installed_at` is out of range");
    assert_eq!(Fault::Missing(Field::InstalledAt).message(), "missing field `installed_at`");
}
