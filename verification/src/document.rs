//! TOML documents, as the `toml` crate reads and writes them.
//!
//! A table of that crate is kept as it is. What it holds is named by
//! `table_nodes`, and the functions here say over that name what the
//! crate's own functions do. Their contracts are taken on trust.

use vstd::prelude::*;

verus! {

/// What a TOML value holds.
pub enum Node {
    Text(Seq<char>),
    Integer(int),
    /// A float, by its bits.
    Float(int),
    Boolean(bool),
    /// A date or time, as it is written.
    Datetime(Seq<char>),
    Array(Seq<Node>),
    Table(Map<Seq<char>, Node>),
}

/// `toml::map::Map`: with string keys and `toml::Value` values it is a
/// TOML table, `toml::Table`.
#[verifier::external_type_specification]
#[verifier::external_body]
#[verifier::reject_recursive_types(K)]
#[verifier::reject_recursive_types(V)]
pub struct ExTomlTable<K, V>(toml::map::Map<K, V>);

/// `toml::Value`, the values of a table.
#[verifier::external_type_specification]
#[verifier::external_body]
pub struct ExTomlValue(toml::Value);

/// `toml::de::Error`, why a text is no TOML document.
#[verifier::external_type_specification]
#[verifier::external_body]
pub struct ExTomlReadError(toml::de::Error);

/// `toml::ser::Error`, why a table cannot be written.
#[verifier::external_type_specification]
#[verifier::external_body]
pub struct ExTomlWriteError(toml::ser::Error);

/// The entries of a table: for each key what its value holds.
pub uninterp spec fn table_nodes(table: toml::Table) -> Map<Seq<char>, Node>;

/// The table that `text` is as a TOML document, if it is one.
pub uninterp spec fn toml_document(text: Seq<char>) -> Option<Map<Seq<char>, Node>>;

/// The text that the crate writes for a table with these entries, if it
/// writes one.
pub uninterp spec fn toml_text(nodes: Map<Seq<char>, Node>) -> Option<Seq<char>>;

/// The entries of a table that has none.
pub open spec fn no_nodes() -> Map<Seq<char>, Node> {
    Map::empty()
}

/// What stands under a key of a table.
pub(crate) enum Found<'a> {
    Missing,
    Text(String),
    Integer(i64),
    Table(&'a toml::Table),
    /// A value of a kind that no definition uses.
    Other,
}

/// Calls `toml::from_str` for a `toml::Table`: the text is read as a TOML
/// document. The result is a function of the text alone: the table of
/// the document, or an error where the text is none.
#[verifier::external_body]
pub(crate) fn read_table(text: &str) -> (r: Result<toml::Table, toml::de::Error>)
    ensures
        match r {
            Ok(table) => toml_document(text@) == Some(table_nodes(table)),
            Err(_) => toml_document(text@) is None,
        },
{
    toml::from_str::<toml::Table>(text)
}

/// Formats a `toml::de::Error` by its `Display`. Nothing is claimed of
/// the text.
#[verifier::external_body]
pub(crate) fn read_error_text(error: &toml::de::Error) -> String {
    error.to_string()
}

/// Calls `toml::to_string` on a table. The result is a function of what
/// the table holds: the text, or an error.
#[verifier::external_body]
pub(crate) fn write_table(table: &toml::Table) -> (r: Result<String, toml::ser::Error>)
    ensures
        match r {
            Ok(text) => toml_text(table_nodes(*table)) == Some(text@),
            Err(_) => toml_text(table_nodes(*table)) is None,
        },
{
    toml::to_string(table)
}

/// Calls `Map::new`: a table without entries.
#[verifier::external_body]
pub(crate) fn empty_table() -> (r: toml::Table)
    ensures
        table_nodes(r) == no_nodes(),
{
    toml::Table::new()
}

/// Calls `Map::len`: the number of entries.
#[verifier::external_body]
pub(crate) fn table_len(table: &toml::Table) -> (r: usize)
    ensures
        r == table_nodes(*table).len(),
{
    table.len()
}

/// Calls `Map::get` and tells the variants of `toml::Value` apart: the
/// value under `key`, where there is one, with what it holds.
#[verifier::external_body]
pub(crate) fn lookup<'a>(table: &'a toml::Table, key: &str) -> (r: Found<'a>)
    ensures
        match r {
            Found::Missing => !table_nodes(*table).contains_key(key@),
            Found::Text(text) => table_nodes(*table).contains_key(key@) && table_nodes(
                *table,
            )[key@] == Node::Text(text@),
            Found::Integer(number) => table_nodes(*table).contains_key(key@) && table_nodes(
                *table,
            )[key@] == Node::Integer(number as int),
            Found::Table(inner) => table_nodes(*table).contains_key(key@) && table_nodes(
                *table,
            )[key@] == Node::Table(table_nodes(*inner)),
            Found::Other => table_nodes(*table).contains_key(key@) && !(table_nodes(
                *table,
            )[key@] is Text) && !(table_nodes(*table)[key@] is Integer) && !(table_nodes(
                *table,
            )[key@] is Table),
        },
{
    match table.get(key) {
        None => Found::Missing,
        Some(toml::Value::String(text)) => Found::Text(text.clone()),
        Some(toml::Value::Integer(number)) => Found::Integer(*number),
        Some(toml::Value::Table(inner)) => Found::Table(inner),
        Some(toml::Value::Float(_)) => Found::Other,
        Some(toml::Value::Boolean(_)) => Found::Other,
        Some(toml::Value::Datetime(_)) => Found::Other,
        Some(toml::Value::Array(_)) => Found::Other,
    }
}

/// Calls `Map::insert` with a `Value::String`: afterwards `key` holds the
/// text, and every other key what it held.
#[verifier::external_body]
pub(crate) fn insert_text(table: &mut toml::Table, key: &str, text: String)
    ensures
        table_nodes(*final(table)) == table_nodes(*old(table)).insert(key@, Node::Text(text@)),
{
    table.insert(key.to_owned(), toml::Value::String(text));
}

/// Calls `Map::insert` with a `Value::Integer`.
#[verifier::external_body]
pub(crate) fn insert_integer(table: &mut toml::Table, key: &str, number: i64)
    ensures
        table_nodes(*final(table)) == table_nodes(*old(table)).insert(
            key@,
            Node::Integer(number as int),
        ),
{
    table.insert(key.to_owned(), toml::Value::Integer(number));
}

/// Calls `Map::insert` with a `Value::Table`.
#[verifier::external_body]
pub(crate) fn insert_table(table: &mut toml::Table, key: &str, inner: toml::Table)
    ensures
        table_nodes(*final(table)) == table_nodes(*old(table)).insert(
            key@,
            Node::Table(table_nodes(inner)),
        ),
{
    table.insert(key.to_owned(), toml::Value::Table(inner));
}

} // verus!
