use oci_runtime::error::RuntimeError;
use oci_runtime::state::{ContainerState, Status};
use oci_runtime::store::StateStore;

fn record(id: &str, status: Status, pid: i64) -> ContainerState {
    ContainerState::from_parts("1.0.2".to_string(), id.to_string(), status, pid, "/bundles/b".to_string())
}

#[test]
fn save_then_load_returns_same_record() {
    let mut store = StateStore::new();
    store.save(record("a", Status::Running, 31));
    let got = store.load(&"a".to_string()).unwrap();
    assert_eq!(got.id(), "a");
    assert_eq!(got.status(), Status::Running);
    assert_eq!(got.pid(), 31);
    assert_eq!(got.bundle(), "/bundles/b");
    assert_eq!(got.oci_version(), "1.0.2");
}

#[test]
fn save_replaces_whole_record() {
    let mut store = StateStore::new();
    store.create(record("a", Status::Creating, 0)).unwrap();
    store.save(record("a", Status::Stopped, 8));
    let got = store.load(&"a".to_string()).unwrap();
    assert_eq!(got.status(), Status::Stopped);
    assert_eq!(got.pid(), 8);
    assert_eq!(store.list().len(), 1);
}

#[test]
fn create_is_exclusive() {
    let mut store = StateStore::new();
    assert!(store.create(record("same", Status::Creating, 0)).is_ok());
    assert_eq!(store.create(record("same", Status::Created, 0)), Err(RuntimeError::StateConflict));
    assert_eq!(store.load(&"same".to_string()).unwrap().status(), Status::Creating);
}

#[test]
fn crash_before_swap_keeps_prior_record() {
    let mut store = StateStore::new();
    store.create(record("a", Status::Created, 0)).unwrap();
    store.stage(record("a", Status::Running, 5));
    assert_eq!(store.load(&"a".to_string()).unwrap().status(), Status::Created);
    store.discard();
    store.swap();
    let got = store.load(&"a".to_string()).unwrap();
    assert_eq!(got.status(), Status::Created);
    assert_eq!(got.pid(), 0);
}

#[test]
fn crash_before_swap_without_prior_record() {
    let mut store = StateStore::new();
    store.stage(record("b", Status::Creating, 0));
    store.discard();
    assert_eq!(store.load(&"b".to_string()).err(), Some(RuntimeError::StateNotFound));
}

#[test]
fn swap_makes_staged_record_visible() {
    let mut store = StateStore::new();
    store.stage(record("c", Status::Creating, 0));
    assert_eq!(store.load(&"c".to_string()).err(), Some(RuntimeError::StateNotFound));
    store.swap();
    assert_eq!(store.load(&"c".to_string()).unwrap().status(), Status::Creating);
}

#[test]
fn delete_absent_is_not_found() {
    let mut store = StateStore::new();
    assert_eq!(store.delete(&"gone".to_string()), Err(RuntimeError::StateNotFound));
    store.create(record("gone", Status::Stopped, 2)).unwrap();
    assert_eq!(store.delete(&"gone".to_string()), Ok(()));
    assert_eq!(store.delete(&"gone".to_string()), Err(RuntimeError::StateNotFound));
}

#[test]
fn list_names_every_live_id() {
    let mut store = StateStore::new();
    store.create(record("x", Status::Creating, 0)).unwrap();
    store.create(record("y", Status::Creating, 0)).unwrap();
    store.create(record("z", Status::Creating, 0)).unwrap();
    store.delete(&"y".to_string()).unwrap();
    let mut ids = store.list();
    ids.sort();
    assert_eq!(ids, vec!["x".to_string(), "z".to_string()]);
}
