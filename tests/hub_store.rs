use ephemeral_hub::error::AppError;
use ephemeral_hub::hub::{apply_edit, new_hub, Edit, FileInfo, Hub, PathData};
use ephemeral_hub::keys::hub_key;
use ephemeral_hub::lifecycle::{create_hub, file_info, hub_creation, HUB_ID_LEN};
use ephemeral_hub::store::{
    create_outcome, decide_mutation, get_hub, write_back_outcome, TTL_MISSING,
};
use ephemeral_hub::time::{Timestamp, HUB_TTL_SECS};
use std::collections::HashMap;

/// An in-memory stand-in for the record store: key to record and seconds left.
struct MemStore {
    entries: HashMap<String, (Hub, i64)>,
}

impl MemStore {
    fn new() -> MemStore {
        MemStore { entries: HashMap::new() }
    }
    fn get(&self, key: &str) -> Option<Hub> {
        self.entries.get(key).map(|e| e.0.clone())
    }
    fn ttl(&self, key: &str) -> i64 {
        self.entries.get(key).map(|e| e.1).unwrap_or(TTL_MISSING)
    }
    fn set_nx(&mut self, key: &str, hub: Hub, ttl: u64) -> bool {
        if self.entries.contains_key(key) {
            return false;
        }
        self.entries.insert(key.to_string(), (hub, ttl as i64));
        true
    }
    fn set_xx(&mut self, key: &str, hub: Hub, ttl: u64) -> bool {
        match self.entries.get_mut(key) {
            Some(e) => {
                *e = (hub, ttl as i64);
                true
            }
            None => false,
        }
    }
    fn mutate(&mut self, id: &str, edit: Edit) -> Result<(), AppError> {
        let key = hub_key(id);
        let current = self.get(&key);
        let ttl = self.ttl(&key);
        let (hub, ttl) = decide_mutation(current, ttl, edit)?;
        let stored = self.set_xx(&key, hub, ttl);
        write_back_outcome(stored)
    }
    fn read(&self, id: &str) -> Result<Hub, AppError> {
        get_hub(self.get(&hub_key(id)))
    }
}

fn t0() -> Timestamp {
    Timestamp::from_unix(1_700_000_000, 0).unwrap()
}

#[test]
fn created_hub_starts_empty() {
    let mut store = MemStore::new();
    let c = create_hub(t0(), "http://localhost:3000");
    let id = c.response.id.clone();
    assert_eq!(id.len(), HUB_ID_LEN);
    assert!(id.chars().all(|ch| ch == '_' || ch == '-' || ch.is_ascii_alphanumeric()));
    assert_eq!(c.key, format!("hub:{}", id));
    assert_eq!(c.ttl_secs, HUB_TTL_SECS);
    assert_eq!(c.response.url, format!("http://localhost:3000/api/hubs/{}", id));
    assert_eq!(c.response.text_url, format!("http://localhost:3000/api/hubs/{}/text", id));
    assert_eq!(c.response.expires_at, "2023-11-15T22:13:20+00:00");
    assert_eq!(c.hub.id, id);
    assert_eq!(c.hub.content, "");
    assert_eq!(c.hub.created_at, t0());
    assert!(create_outcome(store.set_nx(&c.key, c.hub.clone(), c.ttl_secs)).is_ok());
    let read = store.read(&id).unwrap();
    assert!(read.files.is_empty());
    assert!(read.whiteboard.is_empty());
    assert_eq!(store.ttl(&c.key), 86400);
}

#[test]
fn fresh_ids_differ() {
    let a = create_hub(t0(), "b");
    let b = create_hub(t0(), "b");
    assert_ne!(a.response.id, b.response.id);
}

#[test]
fn create_over_existing_key_conflicts() {
    let mut store = MemStore::new();
    let hub = new_hub("abc".to_string(), t0());
    assert!(store.set_nx("hub:abc", hub.clone(), 10));
    assert_eq!(create_outcome(store.set_nx("hub:abc", hub, 10)), Err(AppError::Conflict));
}

#[test]
fn set_text_then_read_keeps_ttl() {
    let mut store = MemStore::new();
    store.set_nx("hub:h1", new_hub("h1".to_string(), t0()), 500);
    store.entries.get_mut("hub:h1").unwrap().1 = 321;
    assert_eq!(store.mutate("h1", Edit::SetText("some text".to_string())), Ok(()));
    assert_eq!(store.read("h1").unwrap().content, "some text");
    assert_eq!(store.ttl("hub:h1"), 321);
}

#[test]
fn mutating_missing_hub_is_not_found() {
    let mut store = MemStore::new();
    assert_eq!(store.mutate("gone", Edit::SetText("x".to_string())), Err(AppError::NotFound));
    assert!(store.get("hub:gone").is_none());
    assert_eq!(store.read("gone").unwrap_err(), AppError::NotFound);
}

#[test]
fn mutating_elapsed_hub_is_expired_and_not_written() {
    let mut store = MemStore::new();
    store.set_nx("hub:old", new_hub("old".to_string(), t0()), 5);
    store.entries.get_mut("hub:old").unwrap().1 = 0;
    assert_eq!(store.mutate("old", Edit::SetText("x".to_string())), Err(AppError::Expired));
    assert_eq!(store.read("old").unwrap().content, "");
    assert_eq!(store.ttl("hub:old"), 0);
}

#[test]
fn decide_mutation_cases() {
    let hub = new_hub("a".to_string(), t0());
    let e = || Edit::SetText("t".to_string());
    assert_eq!(decide_mutation(None, 50, e()).unwrap_err(), AppError::NotFound);
    assert_eq!(decide_mutation(Some(hub.clone()), TTL_MISSING, e()).unwrap_err(), AppError::NotFound);
    assert_eq!(decide_mutation(Some(hub.clone()), -1, e()).unwrap_err(), AppError::Expired);
    assert_eq!(decide_mutation(Some(hub.clone()), 0, e()).unwrap_err(), AppError::Expired);
    let (h, t) = decide_mutation(Some(hub), 7, e()).unwrap();
    assert_eq!(h.content, "t");
    assert_eq!(t, 7);
}

#[test]
fn write_back_to_vanished_key_is_not_found() {
    assert_eq!(write_back_outcome(true), Ok(()));
    assert_eq!(write_back_outcome(false), Err(AppError::NotFound));
}

#[test]
fn edits_only_append() {
    let mut hub = new_hub("a".to_string(), t0());
    hub = apply_edit(hub, Edit::AddFiles(vec![file_info(Some("x".to_string()), 1)]));
    hub = apply_edit(
        hub,
        Edit::AddFiles(vec![file_info(Some("y".to_string()), 2), file_info(None, 3)]),
    );
    let names: Vec<&str> = hub.files.iter().map(|f| f.filename.as_str()).collect();
    assert_eq!(names, vec!["x", "y", "unknown_file"]);
    assert_eq!(hub.files[2].size, 3);
    let p = PathData { id: "u-1".to_string(), points: vec![(1, 2)], color: "#000".to_string(), stroke_width: 9 };
    hub = apply_edit(hub, Edit::AddPath(p.clone()));
    hub = apply_edit(hub, Edit::SetText("new".to_string()));
    assert_eq!(hub.whiteboard, vec![p]);
    assert_eq!(hub.files.len(), 3);
    assert_eq!(hub.content, "new");
}

#[test]
fn example_scenario() {
    let mut store = MemStore::new();
    let hub = new_hub("abc123XYZ0".to_string(), t0());
    assert!(store.set_nx(&hub_key("abc123XYZ0"), hub, HUB_TTL_SECS));
    assert_eq!(store.mutate("abc123XYZ0", Edit::SetText("hello".to_string())), Ok(()));
    assert_eq!(store.read("abc123XYZ0").unwrap().content, "hello");
    let info = file_info(Some("a.txt".to_string()), b"data".len());
    assert_eq!(store.mutate("abc123XYZ0", Edit::AddFiles(vec![info])), Ok(()));
    let read = store.read("abc123XYZ0").unwrap();
    assert_eq!(read.files, vec![FileInfo { filename: "a.txt".to_string(), size: 4 }]);
    let archive = ephemeral_hub::bundle::download_files(&read, &vec![b"data".to_vec()]).unwrap();
    let mut zip = zip::ZipArchive::new(std::io::Cursor::new(archive)).unwrap();
    assert_eq!(zip.len(), 2);
    let mut s = String::new();
    std::io::Read::read_to_string(&mut zip.by_name("ephemeral_text_bin.txt").unwrap(), &mut s).unwrap();
    assert_eq!(s, "hello");
    let mut d = String::new();
    std::io::Read::read_to_string(&mut zip.by_name("a.txt").unwrap(), &mut d).unwrap();
    assert_eq!(d, "data");
}

#[test]
fn hub_creation_with_given_id() {
    let c = hub_creation("abc123XYZ0".to_string(), t0(), "http://localhost:3000");
    assert_eq!(c.response.id, "abc123XYZ0");
    assert_eq!(c.key, "hub:abc123XYZ0");
    assert_eq!(c.hub.id, "abc123XYZ0");
    assert!(c.hub.files.is_empty());
    assert!(c.hub.whiteboard.is_empty());
    assert_eq!(c.ttl_secs, 86400);
    assert_eq!(c.response.url, "http://localhost:3000/api/hubs/abc123XYZ0");
    assert_eq!(c.response.text_url, "http://localhost:3000/api/hubs/abc123XYZ0/text");
    assert_eq!(c.response.expires_at, "2023-11-15T22:13:20+00:00");
}
