//! What can go wrong when a hook or a picking session is started, run or
//! stopped.

use vstd::prelude::*;

verus! {

#[derive(Debug, Clone, Copy, PartialEq, Eq, Structural)]
pub enum ServiceError {
    /// A start was asked for while a hook or a session was already active.
    AlreadyInitialized,
    /// The system refused to register the hook.
    InstallationFailed,
    /// The pointer or the pixel under it could not be read.
    ReadFailure,
    /// Something was asked of a hook or a session that is not active.
    NotRunning,
}

} // verus!
