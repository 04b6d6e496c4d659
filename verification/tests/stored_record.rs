use pastebin::paste_id::PasteID;
use pastebin::paste_info::PasteInfo;
use pastebin::store::Error;

fn bare() -> PasteInfo {
    PasteInfo {
        key: None,
        delete_after: None,
        delete_after_num_views: None,
        delete_if_not_viewed_in_last_seconds: None,
        last_viewed: None,
        num_views: 0,
    }
}

fn full() -> PasteInfo {
    PasteInfo {
        key: PasteID::from_param("SecretSecretKey").ok(),
        delete_after: Some(1_700_000_000),
        delete_after_num_views: Some(7),
        delete_if_not_viewed_in_last_seconds: Some(3600),
        last_viewed: Some(1_600_000_000),
        num_views: 3,
    }
}

fn same(a: &PasteInfo, b: &PasteInfo) -> bool {
    a.key.as_ref().map(|k| k.to_string()) == b.key.as_ref().map(|k| k.to_string())
        && a.delete_after == b.delete_after
        && a.delete_after_num_views == b.delete_after_num_views
        && a.delete_if_not_viewed_in_last_seconds == b.delete_if_not_viewed_in_last_seconds
        && a.last_viewed == b.last_viewed
        && a.num_views == b.num_views
}

fn read(text: &str) -> Result<PasteInfo, Error> {
    PasteInfo::read(text)
}

#[test]
fn full_record_round_trips_through_text() {
    let text = full().write().unwrap();
    let back = read(&text).unwrap();
    assert!(same(&back, &full()));
}

#[test]
fn absent_fields_stay_absent() {
    let text = bare().write().unwrap();
    assert_eq!(text.trim(), "num_views = 0");
    let back = read(&text).unwrap();
    assert!(same(&back, &bare()));
    assert!(back.key.is_none());
    assert!(back.delete_after.is_none());
    assert!(back.delete_after_num_views.is_none());
    assert!(back.delete_if_not_viewed_in_last_seconds.is_none());
    assert!(back.last_viewed.is_none());
}

#[test]
fn default_record_round_trips() {
    let info = PasteInfo::default_at(1_000);
    let back = read(&info.write().unwrap()).unwrap();
    assert!(same(&back, &info));
    assert_eq!(back.delete_after, Some(2_593_000));
}

#[test]
fn viewed_record_round_trips() {
    let mut info = full();
    assert!(info.mark_viewed_and_write(1_650_000_000));
    let back = read(&info.write().unwrap()).unwrap();
    assert_eq!(back.num_views, 4);
    assert_eq!(back.last_viewed, Some(1_650_000_000));
    assert!(same(&back, &info));
}

#[test]
fn table_holds_one_entry_per_present_field() {
    let table = full().to_table().unwrap();
    assert_eq!(table.len(), 6);
    assert_eq!(table.get("key").and_then(|v| v.as_str()), Some("SecretSecretKey"));
    assert_eq!(table.get("delete_after").and_then(|v| v.as_integer()), Some(1_700_000_000));
    assert_eq!(table.get("delete_after_num_views").and_then(|v| v.as_integer()), Some(7));
    assert_eq!(
        table.get("delete_if_not_viewed_in_last_seconds").and_then(|v| v.as_integer()),
        Some(3600)
    );
    assert_eq!(table.get("last_viewed").and_then(|v| v.as_integer()), Some(1_600_000_000));
    assert_eq!(table.get("num_views").and_then(|v| v.as_integer()), Some(3));
    let table = bare().to_table().unwrap();
    assert_eq!(table.len(), 1);
    assert!(table.get("key").is_none());
}

#[test]
fn table_round_trips() {
    let back = PasteInfo::from_table(&full().to_table().unwrap()).unwrap();
    assert!(same(&back, &full()));
}

#[test]
fn time_beyond_a_signed_integer_cannot_be_stored() {
    let mut info = bare();
    info.delete_after = Some(i64::MAX as u64);
    assert!(info.write().is_ok());
    info.delete_after = Some(i64::MAX as u64 + 1);
    assert_eq!(info.write(), Err(Error::Toml));
    assert!(matches!(info.to_table(), Err(Error::Toml)));
    let mut info = bare();
    info.delete_if_not_viewed_in_last_seconds = Some(u64::MAX);
    info.last_viewed = Some(0);
    assert_eq!(info.write(), Err(Error::Toml));
}

#[test]
fn text_that_is_no_toml_is_refused() {
    assert!(matches!(read("num_views = = 3"), Err(Error::TomlDe)));
    assert!(matches!(read("[[["), Err(Error::TomlDe)));
}

#[test]
fn record_without_view_counter_is_refused() {
    assert!(matches!(read(""), Err(Error::TomlDe)));
    assert!(matches!(read("delete_after = 5"), Err(Error::TomlDe)));
}

#[test]
fn field_of_the_wrong_kind_is_refused() {
    assert!(matches!(read("num_views = \"3\""), Err(Error::TomlDe)));
    assert!(matches!(read("num_views = 3.5"), Err(Error::TomlDe)));
    assert!(matches!(read("num_views = 0\ndelete_after = true"), Err(Error::TomlDe)));
    assert!(matches!(read("num_views = 0\nkey = 5"), Err(Error::TomlDe)));
}

#[test]
fn field_out_of_range_is_refused() {
    assert!(matches!(read("num_views = -1"), Err(Error::TomlDe)));
    assert!(matches!(read("num_views = 4294967296"), Err(Error::TomlDe)));
    assert!(read("num_views = 4294967295").is_ok());
    assert!(matches!(read("num_views = 0\ndelete_after = -5"), Err(Error::TomlDe)));
    assert!(matches!(
        read("num_views = 0\ndelete_after_num_views = 4294967296"),
        Err(Error::TomlDe)
    ));
}

#[test]
fn key_that_is_no_identifier_is_refused() {
    assert!(matches!(read("num_views = 0\nkey = \"../x\""), Err(Error::TomlDe)));
    assert!(matches!(read("num_views = 0\nkey = \"abc\""), Err(Error::TomlDe)));
    let ok = read("num_views = 0\nkey = \"abcd\"").unwrap();
    assert_eq!(ok.key.map(|k| k.to_string()), Some("abcd".to_string()));
}

#[test]
fn record_that_breaks_its_invariant_is_refused() {
    assert!(matches!(read("num_views = 0\nlast_viewed = 5"), Err(Error::TomlDe)));
    assert!(matches!(
        read("num_views = 0\ndelete_if_not_viewed_in_last_seconds = 5"),
        Err(Error::TomlDe)
    ));
    assert!(read("num_views = 0\ndelete_if_not_viewed_in_last_seconds = 5\nlast_viewed = 1")
        .is_ok());
}

#[test]
fn unknown_keys_are_ignored() {
    let back = read("num_views = 2\ncolour = \"red\"\n[extra]\nx = 1").unwrap();
    assert_eq!(back.num_views, 2);
    assert!(back.delete_after.is_none());
}

#[test]
fn hand_written_record_is_read() {
    let text = "delete_after = 100\ndelete_after_num_views = 2\nnum_views = 1\n";
    let back = read(text).unwrap();
    assert_eq!(back.delete_after, Some(100));
    assert_eq!(back.delete_after_num_views, Some(2));
    assert_eq!(back.num_views, 1);
    assert!(!back.should_delete(99));
    assert!(back.should_delete(100));
}
