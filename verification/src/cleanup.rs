use vstd::prelude::*;

use crate::frame_aligned;
use crate::guard::SessionGuard;
use crate::error::MBError;
use crate::state::{spec_record_drain, spec_stop, MBFState};

verus! {

/// What the cleanup protocol must do next, given the device state.
#[derive(Clone, Copy, Debug, PartialEq, Eq, Structural)]
pub enum CleanupAction {
    /// Nothing is pending: the device is at rest (or was never started).
    Done,
    /// Issue `stop`, then continue the protocol.
    Stop,
    /// Issue one bounded full-capacity drain read, record it, and continue
    /// the protocol.
    Drain,
}

/// The cleanup protocol's next step: a ready or misconfigured device needs
/// nothing; a running device is stopped first; a saturated or halted device
/// is drained until no residual bytes remain.
pub open spec fn spec_cleanup_action(s: MBFState) -> CleanupAction {
    match s {
        MBFState::Ready => CleanupAction::Done,
        MBFState::InvalidParameters => CleanupAction::Done,
        MBFState::Running { frame_count: _ } => CleanupAction::Stop,
        MBFState::FIFOFull { frame_count: _ } => CleanupAction::Drain,
        MBFState::Halted => CleanupAction::Drain,
    }
}

/// The drain phase of the cleanup protocol: while the protocol prescribes a
/// drain, consume the next observed drain byte count and apply it; stop on
/// the first fatal inconsistency, when the device reaches rest, or when the
/// observations run out.
pub open spec fn spec_run_drains(s: MBFState, drains: Seq<usize>) -> (MBFState, Result<
    (),
    MBError,
>)
    decreases drains.len(),
{
    if spec_cleanup_action(s) != CleanupAction::Drain {
        (s, Ok(()))
    } else if drains.len() == 0 {
        (s, Ok(()))
    } else {
        let (s1, r1) = spec_record_drain(s, drains[0]);
        if r1 is Err {
            (s1, r1)
        } else {
            spec_run_drains(s1, drains.drop_first())
        }
    }
}

/// One whole run of the cleanup protocol: the stop prescribed for a running
/// device, then the drain phase over the observed drain byte counts.
pub open spec fn spec_cleanup_run(s: MBFState, drains: Seq<usize>) -> (MBFState, Result<
    (),
    MBError,
>) {
    let s0 = if spec_cleanup_action(s) == CleanupAction::Stop {
        spec_stop(s).0
    } else {
        s
    };
    spec_run_drains(s0, drains)
}

impl SessionGuard {
    /// The cleanup protocol's next step for the device as it stands.
    pub fn cleanup_action(&self) -> (a: CleanupAction)
        ensures
            a == spec_cleanup_action(self.state),
    {
        match self.state {
            MBFState::Ready => CleanupAction::Done,
            MBFState::InvalidParameters => CleanupAction::Done,
            MBFState::Running { frame_count: _ } => CleanupAction::Stop,
            MBFState::FIFOFull { frame_count: _ } => CleanupAction::Drain,
            MBFState::Halted => CleanupAction::Drain,
        }
    }
}

/// Drain phase from a halted device: if every observed drain is frame
/// aligned and the last one returns no residual bytes, the phase succeeds
/// and leaves the device ready.
proof fn lemma_drains_from_halted(drains: Seq<usize>)
    requires
        drains.len() >= 1,
        forall|i: int| 0 <= i < drains.len() ==> frame_aligned(#[trigger] drains[i]),
        drains[drains.len() - 1] == 0,
    ensures
        spec_run_drains(MBFState::Halted, drains) == (MBFState::Ready, Ok::<
            (),
            MBError,
        >(())),
    decreases drains.len(),
{
    assert(frame_aligned(drains[0]));
    if drains[0] == 0 {
        assert(spec_record_drain(MBFState::Halted, drains[0]) == (MBFState::Ready, Ok::<
            (),
            MBError,
        >(())));
        assert(spec_run_drains(MBFState::Ready, drains.drop_first()) == (MBFState::Ready, Ok::<
            (),
            MBError,
        >(())));
    } else {
        assert(drains.len() >= 2);
        let rest = drains.drop_first();
        assert(rest[rest.len() - 1] == drains[drains.len() - 1]);
        assert(forall|i: int| 0 <= i < rest.len() ==> frame_aligned(#[trigger] rest[i]));
        lemma_drains_from_halted(rest);
    }
}

/// Cleanup Protocol invariant: from every state a terminating session can
/// hold (every state but `InvalidParameters`, which only an earlier failed
/// configure can leave behind), running the protocol — the prescribed stop,
/// then frame-aligned drain reads of which the last returns no residual
/// bytes — succeeds and leaves the device `Ready`, never running, halted or
/// saturated.
pub proof fn lemma_cleanup_restores_ready(s: MBFState, drains: Seq<usize>)
    requires
        s != MBFState::InvalidParameters,
        drains.len() >= 2,
        forall|i: int| 0 <= i < drains.len() ==> frame_aligned(#[trigger] drains[i]),
        drains[drains.len() - 1] == 0,
    ensures
        spec_cleanup_run(s, drains) == (MBFState::Ready, Ok::<(), MBError>(())),
{
    match s {
        MBFState::Ready => {},
        MBFState::Halted => {
            lemma_drains_from_halted(drains);
        },
        MBFState::Running { frame_count: _ } => {
            assert(spec_stop(s).0 == MBFState::Halted);
            lemma_drains_from_halted(drains);
        },
        MBFState::FIFOFull { frame_count: _ } => {
            let rest = drains.drop_first();
            assert(rest[rest.len() - 1] == drains[drains.len() - 1]);
            assert(forall|i: int| 0 <= i < rest.len() ==> frame_aligned(#[trigger] rest[i]));
            lemma_drains_from_halted(rest);
        },
        MBFState::InvalidParameters => {},
    }
}

} // verus!
