use std::collections::HashMap;

use pastebin::copy::{copy, SourceEvent};
use pastebin::paste_id::{valid_id, PasteID};
use pastebin::paste_info::PasteInfo;
use pastebin::store::{DefaultBackend, NewPaste, ReadPlan, Reservation, UPLOAD_MAX_SIZE};

/// A store in memory: record text and content by container name.
struct Shelf {
    backend: DefaultBackend,
    slots: HashMap<String, (String, Vec<u8>)>,
}

impl Shelf {
    fn new() -> Shelf {
        Shelf { backend: DefaultBackend::default(), slots: HashMap::new() }
    }

    fn allocate(&mut self) -> (String, String) {
        loop {
            let id = PasteID::new();
            let (_file, _info, dir) = self.backend.file_paths(&id);
            let reserved = if self.slots.contains_key(&dir) {
                Reservation::AlreadyExists
            } else {
                self.slots.insert(dir.clone(), (String::new(), Vec::new()));
                Reservation::Created
            };
            match self.backend.new_paste(&id, reserved) {
                NewPaste::Ready(_file, _info, url) => return (dir, url),
                NewPaste::TryAnother => {}
                NewPaste::Abort(_) => panic!("storage cannot fail here"),
            }
        }
    }

    fn upload(&mut self, info: PasteInfo, chunks: Vec<SourceEvent>) -> String {
        let (dir, url) = self.allocate();
        let text = info.write().unwrap();
        let mut content = Vec::new();
        copy(&chunks, &mut content, UPLOAD_MAX_SIZE).unwrap();
        self.slots.insert(dir, (text, content));
        url
    }

    fn read(&mut self, param: &str, now: u64) -> Option<Vec<u8>> {
        let id = PasteID::from_param(param).ok()?;
        let (_file, _info, dir) = self.backend.file_paths(&id);
        let stored = match self.slots.get(&dir) {
            Some((text, _)) => Some(PasteInfo::read(text).unwrap()),
            None => None,
        };
        match self.backend.get(stored, now) {
            ReadPlan::NotFound | ReadPlan::Corrupt => None,
            ReadPlan::Expired => {
                self.slots.remove(&dir);
                None
            }
            ReadPlan::Serve(info, must_write) => {
                let slot = self.slots.get_mut(&dir).unwrap();
                if must_write {
                    slot.0 = info.write().unwrap();
                }
                Some(slot.1.clone())
            }
        }
    }
}

fn id_in(url: &str) -> String {
    let rest = url.strip_prefix("http://localhost:8000/").unwrap();
    rest.strip_suffix("\n").unwrap().to_string()
}

fn bare() -> PasteInfo {
    PasteInfo {
        key: None,
        delete_after: None,
        delete_after_num_views: None,
        delete_if_not_viewed_in_last_seconds: None,
        last_viewed: None,
        num_views: 0,
    }
}

#[test]
fn upload_of_ten_bytes_is_read_back() {
    let mut shelf = Shelf::new();
    let now = 1_700_000_000;
    let url = shelf.upload(
        PasteInfo::default_at(now),
        vec![SourceEvent::Data(b"0123".to_vec()), SourceEvent::Data(b"456789".to_vec())],
    );
    assert!(url.starts_with("http://localhost:8000/"));
    assert!(url.ends_with('\n'));
    let id = id_in(&url);
    assert!(valid_id(&id));
    assert_eq!(shelf.read(&id, now + 1), Some(b"0123456789".to_vec()));
    assert_eq!(shelf.read(&id, now + 2), Some(b"0123456789".to_vec()));
}

#[test]
fn paste_limited_to_one_view_is_gone_after_it() {
    let mut shelf = Shelf::new();
    let mut info = bare();
    info.delete_after_num_views = Some(1);
    let url = shelf.upload(info, vec![SourceEvent::Data(b"once".to_vec())]);
    let id = id_in(&url);
    assert_eq!(shelf.read(&id, 10), Some(b"once".to_vec()));
    assert_eq!(shelf.read(&id, 11), None);
    assert!(shelf.slots.is_empty());
    assert_eq!(shelf.read(&id, 12), None);
}

#[test]
fn paste_with_a_past_deadline_is_not_served() {
    let mut shelf = Shelf::new();
    let mut info = bare();
    info.delete_after = Some(1_000);
    let url = shelf.upload(info, vec![SourceEvent::Data(b"late".to_vec())]);
    let id = id_in(&url);
    assert_eq!(shelf.slots.len(), 1);
    assert_eq!(shelf.read(&id, 2_000), None);
    assert!(shelf.slots.is_empty());
}

#[test]
fn identifier_never_allocated_is_not_found() {
    let mut shelf = Shelf::new();
    assert_eq!(shelf.read("NeverSeenBefore", 5), None);
    assert_eq!(shelf.read("../../etc/passwd", 5), None);
    assert_eq!(shelf.read("abc", 5), None);
}

#[test]
fn allocations_are_distinct() {
    let mut shelf = Shelf::new();
    let mut seen = Vec::new();
    for _ in 0..300 {
        let (dir, url) = shelf.allocate();
        assert!(!seen.contains(&dir));
        assert_eq!(format!("upload/{}", id_in(&url)), dir);
        seen.push(dir);
    }
    assert_eq!(shelf.slots.len(), 300);
}

#[test]
fn idle_paste_expires_and_viewed_paste_lives_on() {
    let mut shelf = Shelf::new();
    let mut info = bare();
    info.delete_if_not_viewed_in_last_seconds = Some(100);
    info.last_viewed = Some(1_000);
    let url = shelf.upload(info, vec![SourceEvent::Data(b"idle".to_vec())]);
    let id = id_in(&url);
    assert_eq!(shelf.read(&id, 1_100), Some(b"idle".to_vec()));
    assert_eq!(shelf.read(&id, 1_200), Some(b"idle".to_vec()));
    assert_eq!(shelf.read(&id, 1_301), None);
    assert!(shelf.slots.is_empty());
}
