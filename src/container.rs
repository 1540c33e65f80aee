use vstd::prelude::*;
use crate::config::{load_result as config_load_result, Config, ConfigDocument};
use crate::error::RuntimeError;
use crate::state::{ContainerState, StateView, Status, OCI_VERSION};
use crate::store::{create_result, delete_result, save_result, StateStore};

verus! {

/// The record that `create` persists for a new container.
pub open spec fn initial_state(id: Seq<char>, bundle: Seq<char>) -> StateView {
    StateView { oci_version: OCI_VERSION@, id, status: Status::Creating, pid: 0, bundle }
}

/// The lifecycle of containers, driven step by step against a state store.
pub struct Container {}

impl Container {
    /// Validates the bundle's configuration and creates the container's record with
    /// status `Creating`. `bundle` is the bundle directory's absolute, canonical path;
    /// `root_is_dir` tells whether the configuration's resolved root path names an
    /// existing directory. Nothing is stored when the configuration is refused.
    pub fn create(
        store: &mut StateStore,
        id: String,
        bundle: String,
        doc: ConfigDocument,
        root_is_dir: bool,
    ) -> (r: Result<Config, RuntimeError>)
        requires
            old(store).wf(),
        ensures
            final(store).wf(),
            match config_load_result(doc, root_is_dir) {
                Err(e) => r == Err::<Config, RuntimeError>(e) && final(store)@ == old(store)@,
                Ok(c) => final(store)@ == create_result(old(store)@, initial_state(id@, bundle@)).1
                    && match create_result(old(store)@, initial_state(id@, bundle@)).0 {
                        Ok(_) => r == Ok::<Config, RuntimeError>(c),
                        Err(e) => r == Err::<Config, RuntimeError>(e),
                    },
            },
    {
        let config = match Config::load(doc, root_is_dir) {
            Ok(c) => c,
            Err(e) => return Err(e),
        };
        let state = ContainerState::new(id, bundle.as_str());
        match store.create(state) {
            Ok(()) => Ok(config),
            Err(e) => Err(e),
        }
    }

    /// Applies the outcome of environment setup to a `Creating` container: it becomes
    /// `Created`, or its record is removed when setup failed.
    pub fn finish_setup(store: &mut StateStore, id: &String, setup_ok: bool) -> (r: Result<(), RuntimeError>)
        requires
            old(store).wf(),
        ensures
            final(store).wf(),
            !old(store)@.records.contains_key(id@) ==> r == Err::<(), RuntimeError>(RuntimeError::StateNotFound)
                && final(store)@ == old(store)@,
            old(store)@.records.contains_key(id@) && old(store)@.records[id@].status != Status::Creating
                ==> r == Err::<(), RuntimeError>(RuntimeError::InvalidTransition) && final(store)@ == old(store)@,
            old(store)@.records.contains_key(id@) && old(store)@.records[id@].status == Status::Creating && !setup_ok
                ==> r == Err::<(), RuntimeError>(RuntimeError::SetupFailed)
                && final(store)@ == delete_result(old(store)@, id@).1,
            old(store)@.records.contains_key(id@) && old(store)@.records[id@].status == Status::Creating && setup_ok
                ==> r == Ok::<(), RuntimeError>(())
                && final(store)@ == save_result(old(store)@, StateView { status: Status::Created, ..old(store)@.records[id@] }),
    {
        proof { store.lemma_keys_match(); }
        let mut state = match store.load(id) {
            Ok(s) => s,
            Err(e) => return Err(e),
        };
        match state.mark_created() {
            Ok(()) => {},
            Err(e) => return Err(e),
        }
        if !setup_ok {
            let _ = store.delete(id);
            return Err(RuntimeError::SetupFailed);
        }
        store.save(state);
        Ok(())
    }

    /// Starts a `Created` container: `exec` is the process ID that the exec step
    /// observed, or `None` when it failed, in which case the record is removed.
    pub fn start(store: &mut StateStore, id: &String, exec: Option<i64>) -> (r: Result<(), RuntimeError>)
        requires
            old(store).wf(),
        ensures
            final(store).wf(),
            !old(store)@.records.contains_key(id@) ==> r == Err::<(), RuntimeError>(RuntimeError::StateNotFound)
                && final(store)@ == old(store)@,
            old(store)@.records.contains_key(id@) && old(store)@.records[id@].status != Status::Created
                ==> r == Err::<(), RuntimeError>(RuntimeError::InvalidTransition) && final(store)@ == old(store)@,
            old(store)@.records.contains_key(id@) && old(store)@.records[id@].status == Status::Created && exec is None
                ==> r == Err::<(), RuntimeError>(RuntimeError::SetupFailed)
                && final(store)@ == delete_result(old(store)@, id@).1,
            old(store)@.records.contains_key(id@) && old(store)@.records[id@].status == Status::Created && exec is Some
                ==> r == Ok::<(), RuntimeError>(())
                && final(store)@ == save_result(
                    old(store)@,
                    StateView { status: Status::Running, pid: exec->Some_0, ..old(store)@.records[id@] },
                ),
    {
        proof { store.lemma_keys_match(); }
        let mut state = match store.load(id) {
            Ok(s) => s,
            Err(e) => return Err(e),
        };
        if state.status() != Status::Created {
            return Err(RuntimeError::InvalidTransition);
        }
        match exec {
            None => {
                let _ = store.delete(id);
                Err(RuntimeError::SetupFailed)
            },
            Some(pid) => {
                match state.mark_running(pid) {
                    Ok(()) => {},
                    Err(e) => return Err(e),
                }
                store.save(state);
                Ok(())
            },
        }
    }

    /// Records that a `Running` container's process exited; its process ID is kept.
    pub fn stop(store: &mut StateStore, id: &String) -> (r: Result<(), RuntimeError>)
        requires
            old(store).wf(),
        ensures
            final(store).wf(),
            !old(store)@.records.contains_key(id@) ==> r == Err::<(), RuntimeError>(RuntimeError::StateNotFound)
                && final(store)@ == old(store)@,
            old(store)@.records.contains_key(id@) && old(store)@.records[id@].status != Status::Running
                ==> r == Err::<(), RuntimeError>(RuntimeError::InvalidTransition) && final(store)@ == old(store)@,
            old(store)@.records.contains_key(id@) && old(store)@.records[id@].status == Status::Running
                ==> r == Ok::<(), RuntimeError>(())
                && final(store)@ == save_result(old(store)@, StateView { status: Status::Stopped, ..old(store)@.records[id@] }),
    {
        proof { store.lemma_keys_match(); }
        let mut state = match store.load(id) {
            Ok(s) => s,
            Err(e) => return Err(e),
        };
        match state.mark_stopped() {
            Ok(()) => {},
            Err(e) => return Err(e),
        }
        store.save(state);
        Ok(())
    }

    /// Removes a container's record; refused while the container runs.
    pub fn delete(store: &mut StateStore, id: &String) -> (r: Result<(), RuntimeError>)
        requires
            old(store).wf(),
        ensures
            final(store).wf(),
            !old(store)@.records.contains_key(id@) ==> r == Err::<(), RuntimeError>(RuntimeError::StateNotFound)
                && final(store)@ == old(store)@,
            old(store)@.records.contains_key(id@) && old(store)@.records[id@].status == Status::Running
                ==> r == Err::<(), RuntimeError>(RuntimeError::InvalidTransition) && final(store)@ == old(store)@,
            old(store)@.records.contains_key(id@) && old(store)@.records[id@].status != Status::Running
                ==> r == Ok::<(), RuntimeError>(()) && final(store)@ == delete_result(old(store)@, id@).1,
    {
        let state = match store.load(id) {
            Ok(s) => s,
            Err(e) => return Err(e),
        };
        if state.status() == Status::Running {
            return Err(RuntimeError::InvalidTransition);
        }
        store.delete(id)
    }
}

} // verus!
