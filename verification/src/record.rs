//! How a record is stored: a TOML table of integers, with the key as a
//! string, optional fields left out when absent.

use crate::paste_id::{is_valid_id, PasteID};
use crate::paste_info::PasteInfo;
use crate::store::Error;
use crate::table::{
    no_entries, plain_entries, table_entries, table_from_text, table_get, table_insert, table_new,
    table_to_text, toml_parsed, toml_text, Field, Found, Stored,
};
use toml::Table;
use vstd::prelude::*;

verus! {

/// A record as plain values.
pub struct Record {
    pub key: Option<Seq<char>>,
    pub delete_after: Option<u64>,
    pub delete_after_num_views: Option<u32>,
    pub delete_if_not_viewed_in_last_seconds: Option<u64>,
    pub last_viewed: Option<u64>,
    pub num_views: u32,
}

impl View for PasteInfo {
    type V = Record;

    open spec fn view(&self) -> Record {
        Record {
            key: match self.key {
                Some(id) => Some(id@),
                None => None,
            },
            delete_after: self.delete_after,
            delete_after_num_views: self.delete_after_num_views,
            delete_if_not_viewed_in_last_seconds: self.delete_if_not_viewed_in_last_seconds,
            last_viewed: self.last_viewed,
            num_views: self.num_views,
        }
    }
}

/// `entries` with `name` set to `value`, or untouched where there is no value.
pub open spec fn with_number(
    entries: Map<Seq<char>, Stored>,
    name: Seq<char>,
    value: Option<int>,
) -> Map<Seq<char>, Stored> {
    match value {
        Some(v) => entries.insert(name, Stored::Integer(v)),
        None => entries,
    }
}

/// `entries` with `name` set to `value`, or untouched where there is no value.
pub open spec fn with_text(
    entries: Map<Seq<char>, Stored>,
    name: Seq<char>,
    value: Option<Seq<char>>,
) -> Map<Seq<char>, Stored> {
    match value {
        Some(v) => entries.insert(name, Stored::Text(v)),
        None => entries,
    }
}

/// The same number, if any, as an integer without bound.
pub open spec fn widen64(v: Option<u64>) -> Option<int> {
    match v {
        Some(n) => Some(n as int),
        None => None,
    }
}

/// The same number, if any, as an integer without bound.
pub open spec fn widen32(v: Option<u32>) -> Option<int> {
    match v {
        Some(n) => Some(n as int),
        None => None,
    }
}

impl Record {
    /// The record's invariant: a last-viewed time is kept exactly when the
    /// inactivity rule is configured.
    pub open spec fn wf(self) -> bool {
        self.last_viewed is Some <==> self.delete_if_not_viewed_in_last_seconds is Some
    }

    /// Every time and window fits a TOML integer, which is signed.
    pub open spec fn storable(self) -> bool {
        &&& self.delete_after matches Some(t) ==> t <= i64::MAX
        &&& self.delete_if_not_viewed_in_last_seconds matches Some(w) ==> w <= i64::MAX
        &&& self.last_viewed matches Some(l) ==> l <= i64::MAX
    }

    /// The table that stores the record: one entry for each field that is
    /// present, and the view counter always.
    pub open spec fn stored(self) -> Map<Seq<char>, Stored> {
        let e0 = with_text(no_entries(), "key"@, self.key);
        let e1 = with_number(e0, "delete_after"@, widen64(self.delete_after));
        let e2 = with_number(e1, "delete_after_num_views"@, widen32(self.delete_after_num_views));
        let e3 = with_number(
            e2,
            "delete_if_not_viewed_in_last_seconds"@,
            widen64(self.delete_if_not_viewed_in_last_seconds),
        );
        let e4 = with_number(e3, "last_viewed"@, widen64(self.last_viewed));
        e4.insert("num_views"@, Stored::Integer(self.num_views as int))
    }
}

/// The number stored under `name`: `Some(None)` where the key is absent,
/// `None` where it holds something that is no number from 0 to `max`.
pub open spec fn number_in(entries: Map<Seq<char>, Stored>, name: Seq<char>, max: int) -> Option<
    Option<int>,
> {
    if !entries.contains_key(name) {
        Some(None)
    } else {
        match entries[name] {
            Stored::Integer(v) => if 0 <= v <= max {
                Some(Some(v))
            } else {
                None
            },
            _ => None,
        }
    }
}

/// The identifier stored under `name`: `Some(None)` where the key is absent,
/// `None` where it holds something that is no valid identifier.
pub open spec fn id_in(entries: Map<Seq<char>, Stored>, name: Seq<char>) -> Option<
    Option<Seq<char>>,
> {
    if !entries.contains_key(name) {
        Some(None)
    } else {
        match entries[name] {
            Stored::Text(s) => if is_valid_id(s) {
                Some(Some(s))
            } else {
                None
            },
            _ => None,
        }
    }
}

/// The same number, if any, as a `u64`; meant for numbers in its range.
pub open spec fn narrow64(v: Option<int>) -> Option<u64> {
    match v {
        Some(n) => Some(n as u64),
        None => None,
    }
}

/// The same number, if any, as a `u32`; meant for numbers in its range.
pub open spec fn narrow32(v: Option<int>) -> Option<u32> {
    match v {
        Some(n) => Some(n as u32),
        None => None,
    }
}

/// The record that a table stores, or `None` where the table is no record:
/// a field of the wrong kind or out of range, no view counter, or the
/// invariant broken. Keys that no field goes by are ignored.
pub open spec fn record_in(entries: Map<Seq<char>, Stored>) -> Option<Record> {
    let key = id_in(entries, "key"@);
    let after = number_in(entries, "delete_after"@, u64::MAX as int);
    let views = number_in(entries, "delete_after_num_views"@, u32::MAX as int);
    let window = number_in(entries, "delete_if_not_viewed_in_last_seconds"@, u64::MAX as int);
    let last = number_in(entries, "last_viewed"@, u64::MAX as int);
    let count = number_in(entries, "num_views"@, u32::MAX as int);
    if key is Some && after is Some && views is Some && window is Some && last is Some
        && count is Some && count.unwrap() is Some {
        let r = Record {
            key: key.unwrap(),
            delete_after: narrow64(after.unwrap()),
            delete_after_num_views: narrow32(views.unwrap()),
            delete_if_not_viewed_in_last_seconds: narrow64(window.unwrap()),
            last_viewed: narrow64(last.unwrap()),
            num_views: count.unwrap().unwrap() as u32,
        };
        if r.wf() {
            Some(r)
        } else {
            None
        }
    } else {
        None
    }
}

fn put_u64(table: &mut Table, name: &str, value: Option<u64>) -> (ok: bool)
    ensures
        ok == (value matches Some(v) ==> v <= i64::MAX),
        ok ==> table_entries(*final(table)) == with_number(
            table_entries(*old(table)),
            name@,
            widen64(value),
        ),
{
    match value {
        None => true,
        Some(v) => {
            if v > i64::MAX as u64 {
                false
            } else {
                table_insert(table, name, Field::Integer(v as i64));
                true
            }
        },
    }
}

fn get_number(table: &Table, name: &str, max: u64) -> (r: Option<Option<u64>>)
    ensures
        r is Some == number_in(table_entries(*table), name@, max as int) is Some,
        r matches Some(v) ==> number_in(table_entries(*table), name@, max as int).unwrap()
            == widen64(v),
{
    match table_get(table, name) {
        Found::Absent => Some(None),
        Found::Integer(i) => {
            if i < 0 || i as u64 > max {
                None
            } else {
                Some(Some(i as u64))
            }
        },
        Found::Text(_) => None,
        Found::Other => None,
    }
}

fn get_id(table: &Table, name: &str) -> (r: Option<Option<PasteID>>)
    ensures
        r is Some == id_in(table_entries(*table), name@) is Some,
        r matches Some(v) ==> id_in(table_entries(*table), name@).unwrap() == (match v {
            Some(id) => Some(id@),
            None => None,
        }),
{
    match table_get(table, name) {
        Found::Absent => Some(None),
        Found::Text(s) => match PasteID::from_param(s.as_str()) {
            Ok(id) => Some(Some(id)),
            Err(_) => None,
        },
        Found::Integer(_) => None,
        Found::Other => None,
    }
}

fn as_u32(v: Option<u64>) -> (r: Option<u32>)
    requires
        v matches Some(n) ==> n <= u32::MAX,
    ensures
        widen32(r) == widen64(v),
{
    match v {
        Some(n) => Some(n as u32),
        None => None,
    }
}

impl PasteInfo {
    /// The table that stores this record. A time or window too large for a
    /// TOML integer cannot be stored.
    pub fn to_table(&self) -> (r: Result<Table, Error>)
        ensures
            self@.storable() ==> (r matches Ok(table) && table_entries(table) == self@.stored()),
            !self@.storable() ==> r == Err::<Table, Error>(Error::Toml),
    {
        let mut table = table_new();
        match &self.key {
            Some(id) => {
                table_insert(&mut table, "key", Field::Text(id.to_string()));
            },
            None => {},
        }
        if !put_u64(&mut table, "delete_after", self.delete_after) {
            return Err(Error::Toml);
        }
        let views = match self.delete_after_num_views {
            Some(n) => Some(n as u64),
            None => None,
        };
        let fits = put_u64(&mut table, "delete_after_num_views", views);
        assert(fits);
        assert(widen64(views) == widen32(self.delete_after_num_views));
        if !put_u64(
            &mut table,
            "delete_if_not_viewed_in_last_seconds",
            self.delete_if_not_viewed_in_last_seconds,
        ) {
            return Err(Error::Toml);
        }
        if !put_u64(&mut table, "last_viewed", self.last_viewed) {
            return Err(Error::Toml);
        }
        table_insert(&mut table, "num_views", Field::Integer(self.num_views as i64));
        Ok(table)
    }

    /// The record that `table` stores, if it stores one.
    pub fn from_table(table: &Table) -> (r: Result<PasteInfo, Error>)
        ensures
            match record_in(table_entries(*table)) {
                Some(record) => r matches Ok(info) && info@ == record,
                None => r == Err::<PasteInfo, Error>(Error::TomlDe),
            },
    {
        let key = get_id(table, "key");
        let after = get_number(table, "delete_after", u64::MAX);
        let views = get_number(table, "delete_after_num_views", 4294967295);
        let window = get_number(table, "delete_if_not_viewed_in_last_seconds", u64::MAX);
        let last = get_number(table, "last_viewed", u64::MAX);
        let count = get_number(table, "num_views", 4294967295);
        match (key, after, views, window, last, count) {
            (Some(key), Some(after), Some(views), Some(window), Some(last), Some(Some(count))) => {
                let info = PasteInfo {
                    key,
                    delete_after: after,
                    delete_after_num_views: as_u32(views),
                    delete_if_not_viewed_in_last_seconds: window,
                    last_viewed: last,
                    num_views: count as u32,
                };
                if info.is_well_formed() {
                    Ok(info)
                } else {
                    Err(Error::TomlDe)
                }
            },
            _ => Err(Error::TomlDe),
        }
    }

    /// The text under which this record is stored: the TOML text of its table.
    pub fn write(&self) -> (r: Result<String, Error>)
        ensures
            match text_of(self@) {
                Some(text) => r matches Ok(s) && s@ == text,
                None => r == Err::<String, Error>(Error::Toml),
            },
    {
        match self.to_table() {
            Ok(table) => {
                proof {
                    lemma_stored_entries_are_plain(self@);
                }
                match table_to_text(&table) {
                    Some(text) => Ok(text),
                    None => Err(Error::Toml),
                }
            },
            Err(e) => Err(e),
        }
    }

    /// The record stored as `text`: the one in the table that the text denotes.
    pub fn read(text: &str) -> (r: Result<PasteInfo, Error>)
        ensures
            match record_of(text@) {
                Some(record) => r matches Ok(info) && info@ == record && info.wf(),
                None => r == Err::<PasteInfo, Error>(Error::TomlDe),
            },
    {
        match table_from_text(text) {
            Some(table) => PasteInfo::from_table(&table),
            None => Err(Error::TomlDe),
        }
    }
}

/// The text that stores a record, where there is one: the record must be
/// storable and its table must have a TOML text.
pub open spec fn text_of(record: Record) -> Option<Seq<char>> {
    if record.storable() {
        toml_text(record.stored())
    } else {
        None
    }
}

/// The record that a text stores, where it stores one: the text must be TOML
/// and the table it denotes a record.
pub open spec fn record_of(text: Seq<char>) -> Option<Record> {
    match toml_parsed(text) {
        Some(entries) => record_in(entries),
        None => None,
    }
}

/// The table of a record holds integers and strings only.
proof fn lemma_stored_entries_are_plain(record: Record)
    ensures
        plain_entries(record.stored()),
{
    let e0 = with_text(no_entries(), "key"@, record.key);
    let e1 = with_number(e0, "delete_after"@, widen64(record.delete_after));
    let e2 = with_number(e1, "delete_after_num_views"@, widen32(record.delete_after_num_views));
    let e3 = with_number(
        e2,
        "delete_if_not_viewed_in_last_seconds"@,
        widen64(record.delete_if_not_viewed_in_last_seconds),
    );
    let e4 = with_number(e3, "last_viewed"@, widen64(record.last_viewed));
    assert(plain_entries(e0));
    assert(plain_entries(e1));
    assert(plain_entries(e2));
    assert(plain_entries(e3));
    assert(plain_entries(e4));
}

/// A record that keeps its invariant and can be stored is read back from its
/// table equal in every field; a field that was absent stays absent.
pub proof fn lemma_stored_record_reads_back(record: Record)
    requires
        record.wf(),
        record.storable(),
        record.key matches Some(k) ==> is_valid_id(k),
    ensures
        record_in(record.stored()) == Some(record),
{
    reveal_strlit("key");
    reveal_strlit("delete_after");
    reveal_strlit("delete_after_num_views");
    reveal_strlit("delete_if_not_viewed_in_last_seconds");
    reveal_strlit("last_viewed");
    reveal_strlit("num_views");
    let k = "key"@;
    let a = "delete_after"@;
    let v = "delete_after_num_views"@;
    let w = "delete_if_not_viewed_in_last_seconds"@;
    let l = "last_viewed"@;
    let n = "num_views"@;
    assert(k.len() == 3 && a.len() == 12 && v.len() == 22 && w.len() == 36 && l.len() == 11
        && n.len() == 9);
    let e0 = with_text(no_entries(), k, record.key);
    let e1 = with_number(e0, a, widen64(record.delete_after));
    let e2 = with_number(e1, v, widen32(record.delete_after_num_views));
    let e3 = with_number(e2, w, widen64(record.delete_if_not_viewed_in_last_seconds));
    let e4 = with_number(e3, l, widen64(record.last_viewed));
    let e5 = e4.insert(n, Stored::Integer(record.num_views as int));
    assert(e5 == record.stored());
    assert(id_in(e5, k) == Some(record.key));
    assert(number_in(e5, a, u64::MAX as int) == Some(widen64(record.delete_after)));
    assert(number_in(e5, v, u32::MAX as int) == Some(widen32(record.delete_after_num_views)));
    assert(number_in(e5, w, u64::MAX as int) == Some(
        widen64(record.delete_if_not_viewed_in_last_seconds),
    ));
    assert(number_in(e5, l, u64::MAX as int) == Some(widen64(record.last_viewed)));
    assert(number_in(e5, n, u32::MAX as int) == Some(Some(record.num_views as int)));
}

} // verus!
