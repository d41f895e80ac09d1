//! What can go wrong while an instance is created, driven and torn down.

use crate::plugin::instance::PluginStatus;
use vstd::prelude::*;

verus! {

/// An instance could not be created.
#[derive(Debug, Clone, Copy, PartialEq, Eq, Structural)]
pub enum CreationError {
    /// The factory answered with a null pointer, which is also how it turns
    /// down an id that it does not know.
    NullInstance,
}

/// Which life-cycle call the component answered with `false`.
#[derive(Debug, Clone, Copy, PartialEq, Eq, Structural)]
pub enum Rejection {
    /// `init()` reported failure. By the protocol the instance may only be
    /// destroyed now.
    InitFailed,
    /// `activate()` reported failure.
    ActivateFailed,
}

/// A life-cycle operation did not go through.
#[derive(Debug, Clone, Copy, PartialEq, Eq, Structural)]
pub enum LifecycleError {
    /// The operation was attempted in a state other than the one it needs.
    /// This is a mistake of the caller, never something the component did.
    WrongState,
    /// `activate()` was asked for with a minimum buffer size of zero, which
    /// the protocol does not allow. Nothing crossed the boundary.
    InvalidBufferSize,
    /// The component itself reported that the call failed.
    RejectedByComponent(Rejection),
}

/// An instance was torn down while it was still processing audio.
///
/// Destroying a component that believes processing is going on is undefined
/// behaviour on its side, so nothing is called and the embedding program has
/// to treat this as fatal.
#[derive(Debug, Clone, Copy, PartialEq, Eq, Structural)]
pub struct FatalStateViolation {
    /// The state the instance was found in.
    pub status: PluginStatus,
}

} // verus!
