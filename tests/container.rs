use oci_runtime::config::{Config, ConfigDocument, Mount, Process, Rlimit, Root, User};
use oci_runtime::container::Container;
use oci_runtime::error::RuntimeError;
use oci_runtime::state::{ContainerState, Status, OCI_VERSION};
use oci_runtime::store::StateStore;

fn bundle_config(root: &str) -> Config {
    Config {
        oci_version: "1.0.2".to_string(),
        root: Root { path: root.to_string(), readonly: false },
        mounts: vec![Mount {
            destination: "/proc".to_string(),
            source: Some("proc".to_string()),
            options: vec!["nosuid".to_string()],
        }],
        process: Some(Process {
            terminal: false,
            console_size: None,
            cwd: "/".to_string(),
            env: vec!["PATH=/usr/bin".to_string()],
            args: vec!["sh".to_string()],
            user: User { uid: 0, gid: 0, additional_gids: None, umask: None },
            rlimits: vec![Rlimit { kind: "RLIMIT_NOFILE".to_string(), soft: 1024, hard: 4096 }],
        }),
        hostname: Some("box".to_string()),
        linux: None,
        hooks: None,
    }
}

fn create(store: &mut StateStore, id: &str, bundle: &str) -> Result<Config, RuntimeError> {
    Container::create(
        store,
        id.to_string(),
        bundle.to_string(),
        ConfigDocument::Parsed(bundle_config("rootfs")),
        true,
    )
}

#[allow(non_snake_case)]
#[test]
fn createContainer() {
    let mut store = StateStore::new();
    let bundle = "./tests/bundles/hello-world";
    let config = create(&mut store, "hello-world", bundle).unwrap();
    assert_eq!(config.root_path(bundle), "./tests/bundles/hello-world/rootfs");
    let state = store.load(&"hello-world".to_string()).unwrap();
    assert_eq!(state.status(), Status::Creating);
    assert_eq!(state.pid(), 0);
    assert_eq!(state.bundle(), bundle);
    assert_eq!(state.id(), "hello-world");
    assert_eq!(state.oci_version(), OCI_VERSION);
}

#[test]
fn create_with_missing_config_stores_nothing() {
    let mut store = StateStore::new();
    let r = Container::create(
        &mut store,
        "x".to_string(),
        "/srv/missing-bundle".to_string(),
        ConfigDocument::Missing,
        false,
    );
    assert_eq!(r.err(), Some(RuntimeError::ConfigNotFound));
    assert_eq!(store.load(&"x".to_string()).err(), Some(RuntimeError::StateNotFound));
}

#[test]
fn create_with_malformed_config_stores_nothing() {
    let mut store = StateStore::new();
    let r = Container::create(&mut store, "x".to_string(), "/b".to_string(), ConfigDocument::Malformed, true);
    assert_eq!(r.err(), Some(RuntimeError::ConfigMalformed));
    assert!(store.list().is_empty());
}

#[test]
fn create_with_invalid_config_stores_nothing() {
    let mut store = StateStore::new();
    let r = Container::create(
        &mut store,
        "x".to_string(),
        "/b".to_string(),
        ConfigDocument::Parsed(bundle_config("rootfs")),
        false,
    );
    assert_eq!(r.err(), Some(RuntimeError::ConfigInvalid));
    assert_eq!(store.load(&"x".to_string()).err(), Some(RuntimeError::StateNotFound));
}

#[test]
fn second_create_with_same_id_conflicts() {
    let mut store = StateStore::new();
    assert!(create(&mut store, "dup", "/bundles/first").is_ok());
    let second = create(&mut store, "dup", "/bundles/second");
    assert_eq!(second.err(), Some(RuntimeError::StateConflict));
    let state = store.load(&"dup".to_string()).unwrap();
    assert_eq!(state.bundle(), "/bundles/first");
    assert_eq!(state.status(), Status::Creating);
}

#[test]
fn full_lifecycle() {
    let mut store = StateStore::new();
    let id = "c1".to_string();
    create(&mut store, "c1", "/b").unwrap();
    Container::finish_setup(&mut store, &id, true).unwrap();
    assert_eq!(store.load(&id).unwrap().status(), Status::Created);
    Container::start(&mut store, &id, Some(4242)).unwrap();
    let running = store.load(&id).unwrap();
    assert_eq!(running.status(), Status::Running);
    assert_eq!(running.pid(), 4242);
    Container::stop(&mut store, &id).unwrap();
    let stopped = store.load(&id).unwrap();
    assert_eq!(stopped.status(), Status::Stopped);
    assert_eq!(stopped.pid(), 4242);
    Container::delete(&mut store, &id).unwrap();
    assert_eq!(store.load(&id).err(), Some(RuntimeError::StateNotFound));
}

#[test]
fn delete_while_running_is_refused() {
    let mut store = StateStore::new();
    let id = "dup".to_string();
    create(&mut store, "dup", "/b").unwrap();
    Container::finish_setup(&mut store, &id, true).unwrap();
    Container::start(&mut store, &id, Some(77)).unwrap();
    assert_eq!(Container::delete(&mut store, &id).err(), Some(RuntimeError::InvalidTransition));
    let state = store.load(&id).unwrap();
    assert_eq!(state.status(), Status::Running);
    assert_eq!(state.pid(), 77);
}

#[test]
fn stopped_container_cannot_run_or_be_created_again() {
    let mut store = StateStore::new();
    let id = "s".to_string();
    create(&mut store, "s", "/b").unwrap();
    Container::finish_setup(&mut store, &id, true).unwrap();
    Container::start(&mut store, &id, Some(9)).unwrap();
    Container::stop(&mut store, &id).unwrap();
    assert_eq!(Container::start(&mut store, &id, Some(10)).err(), Some(RuntimeError::InvalidTransition));
    assert_eq!(Container::finish_setup(&mut store, &id, true).err(), Some(RuntimeError::InvalidTransition));
    let state = store.load(&id).unwrap();
    assert_eq!(state.status(), Status::Stopped);
    assert_eq!(state.pid(), 9);
}

#[test]
fn failed_setup_removes_record() {
    let mut store = StateStore::new();
    let id = "f".to_string();
    create(&mut store, "f", "/b").unwrap();
    assert_eq!(Container::finish_setup(&mut store, &id, false).err(), Some(RuntimeError::SetupFailed));
    assert_eq!(store.load(&id).err(), Some(RuntimeError::StateNotFound));
    assert!(create(&mut store, "f", "/b").is_ok());
}

#[test]
fn failed_exec_removes_record() {
    let mut store = StateStore::new();
    let id = "e".to_string();
    create(&mut store, "e", "/b").unwrap();
    Container::finish_setup(&mut store, &id, true).unwrap();
    assert_eq!(Container::start(&mut store, &id, None).err(), Some(RuntimeError::SetupFailed));
    assert_eq!(store.load(&id).err(), Some(RuntimeError::StateNotFound));
}

#[test]
fn lifecycle_steps_on_unknown_id() {
    let mut store = StateStore::new();
    let id = "nobody".to_string();
    assert_eq!(Container::finish_setup(&mut store, &id, true).err(), Some(RuntimeError::StateNotFound));
    assert_eq!(Container::start(&mut store, &id, Some(1)).err(), Some(RuntimeError::StateNotFound));
    assert_eq!(Container::stop(&mut store, &id).err(), Some(RuntimeError::StateNotFound));
    assert_eq!(Container::delete(&mut store, &id).err(), Some(RuntimeError::StateNotFound));
}

#[test]
fn start_before_setup_is_refused() {
    let mut store = StateStore::new();
    let id = "early".to_string();
    create(&mut store, "early", "/b").unwrap();
    assert_eq!(Container::start(&mut store, &id, Some(3)).err(), Some(RuntimeError::InvalidTransition));
    assert_eq!(Container::stop(&mut store, &id).err(), Some(RuntimeError::InvalidTransition));
    assert_eq!(store.load(&id).unwrap().status(), Status::Creating);
}

#[test]
fn state_new_and_parts() {
    let s = ContainerState::new("n".to_string(), "/abs/bundle");
    assert_eq!(s.status(), Status::Creating);
    assert_eq!(s.pid(), 0);
    assert_eq!(s.bundle(), "/abs/bundle");
    let t = ContainerState::from_parts("1.0.2".to_string(), "n".to_string(), Status::Running, 12, "/x".to_string());
    assert_eq!(t.pid(), 12);
    assert_eq!(t.status(), Status::Running);
}
