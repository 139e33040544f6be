//! What happens when the device cannot go on.
//!
//! The face has no degraded mode. A fault, such as an image that cannot be
//! decoded or a tick that is not defined, ends the run: the device stops
//! where it is and stays there until it is reset.

use vstd::prelude::*;

verus! {

/// What the device does after a fault.
#[derive(Clone, Copy, Debug, PartialEq, Eq, Structural)]
pub enum FaultAction {
    /// Stop for good: take no further tick and draw nothing more.
    Halt,
}

/// Decides what the device does after a fault, whatever the fault was.
pub fn panic() -> (action: FaultAction)
    ensures
        action == FaultAction::Halt,
{
    FaultAction::Halt
}

} // verus!
