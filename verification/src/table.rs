//! The TOML table a record is stored in, seen through what it holds.

use toml::map::Map as TomlMap;
use toml::Table;
use toml::Value;
use vstd::prelude::*;

verus! {

/// `toml::Value`, one value of a TOML document.
#[verifier::external_type_specification]
#[verifier::external_body]
pub struct ExValue(Value);

/// `toml::map::Map`, the table type of the `toml` crate (`toml::Table` is
/// this map from `String` to `toml::Value`).
#[verifier::external_type_specification]
#[verifier::external_body]
#[verifier::reject_recursive_types(K)]
#[verifier::reject_recursive_types(V)]
pub struct ExTomlMap<K, V>(TomlMap<K, V>);

/// What a table holds under one key, as far as records care.
pub enum Stored {
    /// An integer.
    Integer(int),
    /// A string.
    Text(Seq<char>),
    /// Anything else: a float, a boolean, a date, an array, a table.
    Other,
}

/// What a record puts under one key.
pub enum Field {
    /// An integer.
    Integer(i64),
    /// A string.
    Text(String),
}

impl Field {
    /// The field as the table holds it.
    pub open spec fn stored(self) -> Stored {
        match self {
            Field::Integer(i) => Stored::Integer(i as int),
            Field::Text(s) => Stored::Text(s@),
        }
    }
}

/// What a lookup in a table found.
pub enum Found {
    /// The table has no such key.
    Absent,
    /// The key holds this integer.
    Integer(i64),
    /// The key holds this string.
    Text(String),
    /// The key holds a value of another kind.
    Other,
}

/// The keys of `table`, each with what it holds.
pub uninterp spec fn table_entries(table: Table) -> Map<Seq<char>, Stored>;

/// What an empty table holds.
pub open spec fn no_entries() -> Map<Seq<char>, Stored> {
    Map::empty()
}

/// `toml::map::Map::new`: a table with no key.
#[verifier::external_body]
pub(crate) fn table_new() -> (fresh: Table)
    ensures
        table_entries(fresh) == no_entries(),
{
    Table::new()
}

/// `toml::map::Map::insert` with the value as a `toml::Value::Integer` or a
/// `toml::Value::String`: afterwards the key holds that value, whatever it
/// held before, and every other key is as it was.
#[verifier::external_body]
pub(crate) fn table_insert(table: &mut Table, key: &str, value: Field)
    ensures
        table_entries(*final(table)) == table_entries(*old(table)).insert(key@, value.stored()),
{
    let value = match value {
        Field::Integer(i) => Value::Integer(i),
        Field::Text(s) => Value::String(s),
    };
    table.insert(key.to_string(), value);
}

/// `toml::map::Map::get`: what the table holds under `key`, with an integer
/// or a string copied out.
#[verifier::external_body]
pub(crate) fn table_get(table: &Table, key: &str) -> (found: Found)
    ensures
        match found {
            Found::Absent => !table_entries(*table).contains_key(key@),
            Found::Integer(i) => table_entries(*table).contains_key(key@) && table_entries(
                *table,
            )[key@] == Stored::Integer(i as int),
            Found::Text(s) => table_entries(*table).contains_key(key@) && table_entries(
                *table,
            )[key@] == Stored::Text(s@),
            Found::Other => table_entries(*table).contains_key(key@) && table_entries(
                *table,
            )[key@] == Stored::Other,
        },
{
    match table.get(key) {
        None => Found::Absent,
        Some(Value::Integer(i)) => Found::Integer(*i),
        Some(Value::String(s)) => Found::Text(s.clone()),
        Some(_) => Found::Other,
    }
}

/// The TOML text that `toml::to_string` makes of a table holding `entries`,
/// none of them of another kind than integer or string; `None` where it
/// reports an error.
pub uninterp spec fn toml_text(entries: Map<Seq<char>, Stored>) -> Option<Seq<char>>;

/// What the table holds that `toml::from_str` reads from `text`; `None`
/// where it reports an error.
pub uninterp spec fn toml_parsed(text: Seq<char>) -> Option<Map<Seq<char>, Stored>>;

/// Every entry is an integer or a string.
pub open spec fn plain_entries(entries: Map<Seq<char>, Stored>) -> bool {
    forall|k: Seq<char>| entries.contains_key(k) ==> !(#[trigger] entries[k] is Other)
}

/// `toml::to_string` on a table: the TOML text of it, or nothing where the
/// crate reports an error. The crate writes the entries in the order of
/// their keys and looks at nothing else in the table, so for a table of
/// integers and strings the text is named after the entries.
#[verifier::external_body]
pub(crate) fn table_to_text(table: &Table) -> (text: Option<String>)
    requires
        plain_entries(table_entries(*table)),
    ensures
        text matches Some(t) ==> toml_text(table_entries(*table)) == Some(t@),
        text is None ==> toml_text(table_entries(*table)) is None,
{
    toml::to_string(table).ok()
}

/// `toml::from_str` into a table: the table that the text denotes, or nothing
/// where the crate reports an error. The table depends on the text alone, so
/// what it holds is named after the text.
#[verifier::external_body]
pub(crate) fn table_from_text(text: &str) -> (parsed: Option<Table>)
    ensures
        parsed matches Some(t) ==> toml_parsed(text@) == Some(table_entries(t)),
        parsed is None ==> toml_parsed(text@) is None,
{
    toml::from_str(text).ok()
}

} // verus!
