use vstd::prelude::*;

use crate::error::MBError;
use crate::{frame_aligned, FRAME_SIZE};

verus! {

/// The device's operating state as the orchestration layer mirrors it.
///
/// Exactly one of these values describes the device at any instant; every
/// mutating operation goes through the session guard, so no two transitions
/// are ever in flight at once.
#[derive(Clone, Copy, Debug, PartialEq, Eq, Structural)]
pub enum MBFState {
    /// Configured and idle with an empty FIFO; safe to start.
    Ready,
    /// The last configuration attempt was rejected or failed write-back
    /// verification; the device must be reconfigured before starting.
    InvalidParameters,
    /// Actively sampling; `frame_count` sample frames produced so far.
    Running { frame_count: u64 },
    /// The device-side buffer saturated after `frame_count` frames; it must
    /// be drained before any further operation.
    FIFOFull { frame_count: u64 },
    /// Stopped, but the FIFO may still hold residual frames.
    Halted,
}

/// States in which a new configuration may be accepted: a running or dirty
/// device must never be silently reconfigured.
pub open spec fn configurable(s: MBFState) -> bool {
    s == MBFState::Ready || s == MBFState::InvalidParameters
}

/// `start` transition: legal only from `Ready`, where sampling begins with
/// zero frames produced; from any other state it fails and changes nothing.
pub open spec fn spec_start(s: MBFState) -> (MBFState, Result<(), MBError>) {
    if s == MBFState::Ready {
        (MBFState::Running { frame_count: 0 }, Ok(()))
    } else {
        (s, Err(MBError::WrongState))
    }
}

/// `stop` transition: halts a running device; idempotent from `Halted` and a
/// no-op success from `Ready`. A saturated or misconfigured device cannot be
/// stopped into a clean halt, so those states are rejected unchanged.
pub open spec fn spec_stop(s: MBFState) -> (MBFState, Result<(), MBError>) {
    match s {
        MBFState::Running { frame_count: _ } => (MBFState::Halted, Ok(())),
        MBFState::Halted => (MBFState::Halted, Ok(())),
        MBFState::Ready => (MBFState::Ready, Ok(())),
        _ => (s, Err(MBError::WrongState)),
    }
}

/// `start` succeeds exactly when the device was `Ready`, and then samples
/// with zero frames produced; from every other state it fails with
/// `WrongState` and leaves the state unchanged.
pub proof fn lemma_start_only_from_ready(s: MBFState)
    ensures
        spec_start(s).1 is Ok <==> s == MBFState::Ready,
        s == MBFState::Ready ==> spec_start(s).0 == (MBFState::Running { frame_count: 0 }),
        s != MBFState::Ready ==> spec_start(s).0 == s && spec_start(s).1 == Err::<(), MBError>(
            MBError::WrongState,
        ),
{
}

/// Streaming-read transition: a byte count that is not a whole number of
/// frames is device corruption and fatal; an aligned read while running
/// advances the frame count and hands the bytes on; in any other state an
/// aligned read passes through without changing the state.
pub open spec fn spec_record_read(s: MBFState, bytes: usize) -> (MBFState, Result<
    usize,
    MBError,
>) {
    if !frame_aligned(bytes) {
        (s, Err(MBError::DeviceFault))
    } else {
        match s {
            MBFState::Running { frame_count } => (
                MBFState::Running {
                    frame_count: (frame_count + bytes / FRAME_SIZE) as u64,
                },
                Ok(bytes),
            ),
            _ => (s, Ok(bytes)),
        }
    }
}

/// FIFO-saturation event reported by the device: a running device keeps its
/// frame count but stops accepting reads as usual; in any other state the
/// report changes nothing.
pub open spec fn spec_record_fifo_full(s: MBFState) -> MBFState {
    match s {
        MBFState::Running { frame_count } => MBFState::FIFOFull { frame_count },
        _ => s,
    }
}

/// Drain-read transition (a bounded full-capacity read issued by the cleanup
/// protocol): a misaligned byte count is fatal; draining a saturated device
/// leaves it halted (a full drain is required before anything else); a
/// halted device becomes ready once a drain returns no residual bytes, and
/// stays halted while residual data keeps coming.
pub open spec fn spec_record_drain(s: MBFState, bytes: usize) -> (MBFState, Result<
    (),
    MBError,
>) {
    if !frame_aligned(bytes) {
        (s, Err(MBError::DeviceFault))
    } else {
        match s {
            MBFState::FIFOFull { frame_count: _ } => (MBFState::Halted, Ok(())),
            MBFState::Halted => {
                if bytes == 0 {
                    (MBFState::Ready, Ok(()))
                } else {
                    (MBFState::Halted, Ok(()))
                }
            },
            _ => (s, Ok(())),
        }
    }
}

} // verus!
