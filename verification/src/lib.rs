//! Orchestration layer for exclusive, serialized access to a single hardware
//! peak-detection filter: the device state machine, the session guard that
//! arbitrates among concurrent consumers, the cleanup protocol that returns
//! the device to a safe resting state, and the decision logic of a network
//! streaming session.

use vstd::prelude::*;

pub mod batch;
pub mod cleanup;
pub mod config;
pub mod error;
pub mod guard;
pub mod session;
pub mod state;

verus! {

/// Size in bytes of one sample frame as the device emits it.
pub const FRAME_SIZE: usize = 12;

/// True when a byte count read from the device respects frame boundaries.
pub open spec fn frame_aligned(n: usize) -> bool {
    n % FRAME_SIZE == 0
}

/// Checks that a byte count read from the device is a whole number of frames.
pub fn is_frame_aligned(n: usize) -> (r: bool)
    ensures
        r == frame_aligned(n),
{
    n % FRAME_SIZE == 0
}

} // verus!
