use vstd::prelude::*;

verus! {

/// Failures of the runtime core, tagged by the stage that produced them.
#[derive(Clone, Copy, Debug, PartialEq, Eq, Structural)]
pub enum RuntimeError {
    /// The bundle's configuration file is absent or unreadable.
    ConfigNotFound,
    /// The configuration file is not well-formed or misses a required field.
    ConfigMalformed,
    /// The configuration breaks a cross-field rule.
    ConfigInvalid,
    /// A live record already exists for the container ID.
    StateConflict,
    /// No record exists for the container ID.
    StateNotFound,
    /// The underlying storage failed.
    IOFailure,
    /// The requested lifecycle step is not allowed from the current status.
    InvalidTransition,
    /// The environment-setup or exec collaborator reported a failure.
    SetupFailed,
}

} // verus!
