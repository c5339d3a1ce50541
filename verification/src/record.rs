//! The record of an install as a TOML document of its own, kept beside
//! the definition and never inside it:
//!
//! ```toml
//! version = "1.2.3"
//! path = "/home/me/.local/share/relief/bin/tool"
//! installed_at = 1700000000
//! ```

use vstd::prelude::*;
use crate::config::codec::{need_text, text_needed, ConfigError, Fault, Field};
use crate::document::{
    empty_table, insert_integer, insert_text, lookup, no_nodes, read_table, table_nodes,
    toml_document, toml_text, write_table, Found, Node,
};
use crate::registry::{InstalledState, InstalledStateModel};

verus! {

/// The record that a document is, or what is wrong with it.
pub open spec fn decode_state(nodes: Map<Seq<char>, Node>) -> Result<InstalledStateModel, Fault> {
    match need_text(nodes, "version"@, Field::InstalledVersion) {
        Err(fault) => Err(fault),
        Ok(version) => match need_text(nodes, "path"@, Field::InstalledPath) {
            Err(fault) => Err(fault),
            Ok(path) => if !nodes.contains_key("installed_at"@) {
                Err(Fault::Missing(Field::InstalledAt))
            } else {
                match nodes["installed_at"@] {
                    Node::Integer(number) => if 0 <= number <= u64::MAX {
                        Ok(InstalledStateModel { version, path, installed_at: number as u64 })
                    } else {
                        Err(Fault::TimeRange)
                    },
                    _ => Err(Fault::Mistyped(Field::InstalledAt)),
                }
            },
        },
    }
}

/// The document of a record, or why it cannot be written: a TOML
/// integer holds no more than 64 bits with a sign.
pub open spec fn encode_state(state: InstalledStateModel) -> Result<Map<Seq<char>, Node>, Fault> {
    if state.installed_at > i64::MAX {
        Err(Fault::TimeRange)
    } else {
        Ok(
            no_nodes().insert("version"@, Node::Text(state.version)).insert(
                "path"@,
                Node::Text(state.path),
            ).insert("installed_at"@, Node::Integer(state.installed_at as int)),
        )
    }
}

/// The record that a text is, given the document that the `toml` crate
/// reads from it.
pub open spec fn read_state_outcome(text: Seq<char>) -> Result<InstalledStateModel, ConfigError> {
    match toml_document(text) {
        None => Err(ConfigError::Syntax),
        Some(nodes) => match decode_state(nodes) {
            Ok(state) => Ok(state),
            Err(fault) => Err(ConfigError::Malformed(fault)),
        },
    }
}

/// The text of a record, given what the `toml` crate writes.
pub open spec fn write_state_outcome(state: InstalledStateModel) -> Result<Seq<char>, ConfigError> {
    match encode_state(state) {
        Err(fault) => Err(ConfigError::Malformed(fault)),
        Ok(nodes) => match toml_text(nodes) {
            Some(text) => Ok(text),
            None => Err(ConfigError::Unrenderable),
        },
    }
}

fn state_of(table: &toml::Table) -> (r: Result<InstalledState, Fault>)
    ensures
        match decode_state(table_nodes(*table)) {
            Ok(state) => r matches Ok(found) && found@ == state,
            Err(fault) => r matches Err(e) && e == fault,
        },
{
    let version = text_needed(table, "version", Field::InstalledVersion)?;
    let path = text_needed(table, "path", Field::InstalledPath)?;
    match lookup(table, "installed_at") {
        Found::Missing => Err(Fault::Missing(Field::InstalledAt)),
        Found::Integer(number) => if number < 0 {
            Err(Fault::TimeRange)
        } else {
            Ok(InstalledState { version, path, installed_at: number as u64 })
        },
        _ => Err(Fault::Mistyped(Field::InstalledAt)),
    }
}

/// Reads the record of an install from the text of its document.
pub fn read_state(text: &str) -> (r: Result<InstalledState, ConfigError>)
    ensures
        match read_state_outcome(text@) {
            Ok(state) => r matches Ok(found) && found@ == state,
            Err(error) => r matches Err(e) && e == error,
        },
{
    match read_table(text) {
        Err(_) => Err(ConfigError::Syntax),
        Ok(table) => match state_of(&table) {
            Ok(state) => Ok(state),
            Err(fault) => Err(ConfigError::Malformed(fault)),
        },
    }
}

/// Writes the record of an install as the text of its document.
pub fn write_state(state: &InstalledState) -> (r: Result<String, ConfigError>)
    ensures
        match write_state_outcome(state@) {
            Ok(text) => r matches Ok(written) && written@ == text,
            Err(error) => r matches Err(e) && e == error,
        },
{
    if state.installed_at > i64::MAX as u64 {
        return Err(ConfigError::Malformed(Fault::TimeRange));
    }
    let mut table = empty_table();
    insert_text(&mut table, "version", state.version.clone());
    insert_text(&mut table, "path", state.path.clone());
    insert_integer(&mut table, "installed_at", state.installed_at as i64);
    match write_table(&table) {
        Ok(text) => Ok(text),
        Err(_) => Err(ConfigError::Unrenderable),
    }
}

/// Reading back the document of a record gives the record again.
pub proof fn lemma_state_round_trip(state: InstalledStateModel)
    requires
        state.installed_at <= i64::MAX,
    ensures
        encode_state(state) matches Ok(nodes) && decode_state(nodes) == Ok::<
            InstalledStateModel,
            Fault,
        >(state),
{
    reveal_strlit("version");
    reveal_strlit("path");
    reveal_strlit("installed_at");
    assert("version"@.len() == 7 && "path"@.len() == 4 && "installed_at"@.len() == 12);
}

} // verus!
