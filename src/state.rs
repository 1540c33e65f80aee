use vstd::prelude::*;
use vstd::string::*;
use crate::error::RuntimeError;

verus! {

/// Version of the runtime specification that the state records comply with.
pub const OCI_VERSION: &'static str = "1.0.2";

/// Runtime status of a container.
#[derive(Clone, Copy, Debug, PartialEq, Eq, Structural)]
pub enum Status {
    /// The create operation is in progress.
    Creating,
    /// The create operation finished; the user program has not been executed yet.
    Created,
    /// The user program runs and has not exited.
    Running,
    /// The container process has exited.
    Stopped,
}

/// Position of a status along the lifecycle.
pub open spec fn rank(s: Status) -> nat {
    match s {
        Status::Creating => 0,
        Status::Created => 1,
        Status::Running => 2,
        Status::Stopped => 3,
    }
}

/// The only steps the lifecycle takes: each one moves a single position forward.
pub open spec fn step_allowed(from: Status, to: Status) -> bool {
    rank(to) == rank(from) + 1
}

impl Status {
    /// Moves from `self` to `to`, or refuses a step that the lifecycle does not take.
    pub fn advance(self, to: Status) -> (r: Result<Status, RuntimeError>)
        ensures
            step_allowed(self, to) ==> r == Ok::<Status, RuntimeError>(to),
            !step_allowed(self, to) ==> r == Err::<Status, RuntimeError>(RuntimeError::InvalidTransition),
    {
        let ok = match (self, to) {
            (Status::Creating, Status::Created) => true,
            (Status::Created, Status::Running) => true,
            (Status::Running, Status::Stopped) => true,
            _ => false,
        };
        if ok {
            Ok(to)
        } else {
            Err(RuntimeError::InvalidTransition)
        }
    }
}

/// Every allowed step goes strictly forward, so no status is ever entered twice and
/// a stopped container can neither run again nor go back to created.
pub proof fn lemma_status_monotonic(from: Status, to: Status)
    ensures
        step_allowed(from, to) ==> rank(from) < rank(to),
        !step_allowed(Status::Stopped, Status::Running),
        !step_allowed(Status::Stopped, Status::Created),
{
}

/// What a state record holds, as plain values.
pub struct StateView {
    pub oci_version: Seq<char>,
    pub id: Seq<char>,
    pub status: Status,
    pub pid: i64,
    pub bundle: Seq<char>,
}

/// The lifecycle record of one container.
#[derive(Clone, Debug)]
pub struct ContainerState {
    oci_version: String,
    id: String,
    status: Status,
    pid: i64,
    bundle: String,
}

impl View for ContainerState {
    type V = StateView;

    closed spec fn view(&self) -> StateView {
        StateView {
            oci_version: self.oci_version@,
            id: self.id@,
            status: self.status,
            pid: self.pid,
            bundle: self.bundle@,
        }
    }
}

/// A record is consistent when no process is recorded before the container runs.
pub open spec fn state_wf(v: StateView) -> bool {
    (v.status == Status::Creating || v.status == Status::Created) ==> v.pid == 0
}

impl ContainerState {
    /// A fresh record for a container being created from the bundle at the given
    /// absolute, canonical path.
    pub fn new(id: String, bundle: &str) -> (r: Self)
        ensures
            r@ == (StateView {
                oci_version: OCI_VERSION@,
                id: id@,
                status: Status::Creating,
                pid: 0,
                bundle: bundle@,
            }),
            state_wf(r@),
    {
        ContainerState {
            oci_version: String::from_str(OCI_VERSION),
            id,
            status: Status::Creating,
            pid: 0,
            bundle: String::from_str(bundle),
        }
    }

    /// Rebuilds a record from its stored fields.
    pub fn from_parts(oci_version: String, id: String, status: Status, pid: i64, bundle: String) -> (r: Self)
        ensures
            r@ == (StateView { oci_version: oci_version@, id: id@, status, pid, bundle: bundle@ }),
    {
        ContainerState { oci_version, id, status, pid, bundle }
    }

    /// A field-by-field copy of the record.
    pub fn copy(&self) -> (r: Self)
        ensures
            r@ == self@,
    {
        ContainerState {
            oci_version: self.oci_version.clone(),
            id: self.id.clone(),
            status: self.status,
            pid: self.pid,
            bundle: self.bundle.clone(),
        }
    }

    pub fn id(&self) -> (r: &String)
        ensures
            r@ == self@.id,
    {
        &self.id
    }

    pub fn oci_version(&self) -> (r: &String)
        ensures
            r@ == self@.oci_version,
    {
        &self.oci_version
    }

    pub fn status(&self) -> (r: Status)
        ensures
            r == self@.status,
    {
        self.status
    }

    pub fn pid(&self) -> (r: i64)
        ensures
            r == self@.pid,
    {
        self.pid
    }

    pub fn bundle(&self) -> (r: &String)
        ensures
            r@ == self@.bundle,
    {
        &self.bundle
    }

    /// Records that environment setup finished: `Creating` becomes `Created`.
    pub fn mark_created(&mut self) -> (r: Result<(), RuntimeError>)
        ensures
            step_allowed(old(self)@.status, Status::Created) ==> r is Ok
                && final(self)@ == (StateView { status: Status::Created, ..old(self)@ }),
            !step_allowed(old(self)@.status, Status::Created) ==> r == Err::<(), RuntimeError>(RuntimeError::InvalidTransition)
                && final(self)@ == old(self)@,
    {
        match self.status.advance(Status::Created) {
            Ok(s) => {
                self.status = s;
                Ok(())
            },
            Err(e) => Err(e),
        }
    }

    /// Records that the user program runs as process `pid`: `Created` becomes `Running`.
    pub fn mark_running(&mut self, pid: i64) -> (r: Result<(), RuntimeError>)
        ensures
            step_allowed(old(self)@.status, Status::Running) ==> r is Ok
                && final(self)@ == (StateView { status: Status::Running, pid, ..old(self)@ }),
            !step_allowed(old(self)@.status, Status::Running) ==> r == Err::<(), RuntimeError>(RuntimeError::InvalidTransition)
                && final(self)@ == old(self)@,
    {
        match self.status.advance(Status::Running) {
            Ok(s) => {
                self.status = s;
                self.pid = pid;
                Ok(())
            },
            Err(e) => Err(e),
        }
    }

    /// Records that the container process exited: `Running` becomes `Stopped`, and the
    /// process ID is kept.
    pub fn mark_stopped(&mut self) -> (r: Result<(), RuntimeError>)
        ensures
            step_allowed(old(self)@.status, Status::Stopped) ==> r is Ok
                && final(self)@ == (StateView { status: Status::Stopped, ..old(self)@ }),
            !step_allowed(old(self)@.status, Status::Stopped) ==> r == Err::<(), RuntimeError>(RuntimeError::InvalidTransition)
                && final(self)@ == old(self)@,
    {
        match self.status.advance(Status::Stopped) {
            Ok(s) => {
                self.status = s;
                Ok(())
            },
            Err(e) => Err(e),
        }
    }
}

/// Each status change keeps a consistent record consistent.
pub proof fn lemma_steps_keep_state_wf(v: StateView, pid: i64)
    requires
        state_wf(v),
    ensures
        step_allowed(v.status, Status::Created) ==> state_wf(StateView { status: Status::Created, ..v }),
        state_wf(StateView { status: Status::Running, pid, ..v }),
        step_allowed(v.status, Status::Stopped) ==> state_wf(StateView { status: Status::Stopped, ..v }),
{
}

} // verus!
