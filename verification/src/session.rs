use vstd::prelude::*;

use crate::config::MBConfig;
use crate::error::MBError;
use crate::frame_aligned;
use crate::guard::{spec_try_configure, SessionGuard};
use crate::state::{spec_start, MBFState};

verus! {

/// What the reader task observes between two of its decisions.
#[derive(Clone, Copy, Debug, PartialEq, Eq, Structural)]
pub enum ReaderEvent {
    /// A device read returned this many bytes.
    Bytes(usize),
    /// The driver reported a hardware-level error on a read.
    Fault,
    /// Sending the previous frames to the client failed: the client is gone.
    SendFailed,
}

/// What the reader task does with one event.
#[derive(Clone, Copy, Debug, PartialEq, Eq, Structural)]
pub enum ReaderAction {
    /// Forward exactly this many bytes — a whole, positive number of frames,
    /// so frame boundaries are preserved — to the client.
    Forward(usize),
    /// Stop reading and run the cleanup protocol, then surface this error:
    /// a torn or empty read and a driver fault are device faults, a send
    /// failure an output fault.
    Terminate(MBError),
}

/// Reader-task decision: only a read of a positive whole number of frames is
/// forwarded; a zero-length or misaligned read, a driver fault, and a failed
/// send to the client all end the session.
pub open spec fn spec_reader_step(ev: ReaderEvent) -> ReaderAction {
    match ev {
        ReaderEvent::Bytes(n) => {
            if n > 0 && frame_aligned(n) {
                ReaderAction::Forward(n)
            } else {
                ReaderAction::Terminate(MBError::DeviceFault)
            }
        },
        ReaderEvent::Fault => ReaderAction::Terminate(MBError::DeviceFault),
        ReaderEvent::SendFailed => ReaderAction::Terminate(MBError::IOFault),
    }
}

/// Decides what the reader task does with one observed event.
pub fn reader_step(ev: ReaderEvent) -> (a: ReaderAction)
    ensures
        a == spec_reader_step(ev),
        forall|n: usize| a == ReaderAction::Forward(n) ==> n > 0 && frame_aligned(n),
{
    match ev {
        ReaderEvent::Bytes(n) => {
            if n > 0 && crate::is_frame_aligned(n) {
                ReaderAction::Forward(n)
            } else {
                ReaderAction::Terminate(MBError::DeviceFault)
            }
        },
        ReaderEvent::Fault => ReaderAction::Terminate(MBError::DeviceFault),
        ReaderEvent::SendFailed => ReaderAction::Terminate(MBError::IOFault),
    }
}

/// A byte count that is not a whole number of frames is always fatal: the
/// reader never forwards it to a client.
pub proof fn lemma_misaligned_read_never_forwarded(n: usize)
    requires
        !frame_aligned(n),
    ensures
        spec_reader_step(ReaderEvent::Bytes(n)) == ReaderAction::Terminate(MBError::DeviceFault),
{
}

/// One inbound client message, as the controller task observes it.
#[derive(Clone, Copy, Debug, PartialEq, Eq, Structural)]
pub enum ControlEvent {
    /// The client asked to close the connection.
    CloseMessage,
    /// Any other client message.
    OtherMessage,
    /// Receiving from the client failed: the client is gone.
    ReceiveError,
}

/// What the controller task does with one inbound event.
#[derive(Clone, Copy, Debug, PartialEq, Eq, Structural)]
pub enum ControlAction {
    /// Stop the device and end the controller task.
    StopFilter,
    /// Keep waiting for client messages.
    Continue,
}

/// Controller-task decision: an explicit close and a receive failure both
/// stop the device; anything else is ignored.
pub open spec fn spec_controller_step(ev: ControlEvent) -> ControlAction {
    match ev {
        ControlEvent::CloseMessage => ControlAction::StopFilter,
        ControlEvent::ReceiveError => ControlAction::StopFilter,
        ControlEvent::OtherMessage => ControlAction::Continue,
    }
}

/// Decides what the controller task does with one inbound client event.
pub fn controller_step(ev: ControlEvent) -> (a: ControlAction)
    ensures
        a == spec_controller_step(ev),
{
    match ev {
        ControlEvent::CloseMessage => ControlAction::StopFilter,
        ControlEvent::ReceiveError => ControlAction::StopFilter,
        ControlEvent::OtherMessage => ControlAction::Continue,
    }
}

/// One network streaming session: the termination bookkeeping its reader and
/// controller tasks share.
///
/// Whichever task detects termination first claims the cleanup through
/// `claim_cleanup`; the claim succeeds exactly once per session, so the
/// cleanup protocol runs exactly once however the session ends.
#[derive(Debug)]
pub struct StreamingSession {
    terminated: bool,
}

impl StreamingSession {
    /// Whether the session has already terminated and its cleanup is owned.
    pub closed spec fn terminated(self) -> bool {
        self.terminated
    }

    /// A fresh session: still live, cleanup not yet claimed.
    pub fn new() -> (s: StreamingSession)
        ensures
            !s.terminated(),
    {
        StreamingSession { terminated: false }
    }

    /// Claims the right to run the cleanup protocol. Returns true on the
    /// first claim and false on every later one, and leaves the session
    /// terminated either way: exactly one claimant runs the cleanup.
    pub fn claim_cleanup(&mut self) -> (run_it: bool)
        ensures
            run_it == !old(self).terminated(),
            final(self).terminated(),
    {
        let first = !self.terminated;
        self.terminated = true;
        first
    }
}

/// `open_stream` transition over the guard: validate the requested
/// configuration, configure best-effort under the non-blocking lock attempt,
/// and start the device. A fresh session is created only when every step
/// succeeded, and then the device runs with zero frames produced.
pub open spec fn spec_open_stream(
    g: SessionGuard,
    acquired: bool,
    config: MBConfig,
    readback: MBConfig,
) -> (SessionGuard, Result<(), MBError>) {
    if !config.valid() {
        (g, Err(MBError::InvalidInput))
    } else {
        let (g1, r1) = spec_try_configure(g, acquired, config, readback);
        if r1 is Err {
            (g1, Err(r1->Err_0))
        } else {
            let (s2, r2) = spec_start(g1.state);
            (SessionGuard { state: s2, config: g1.config }, r2)
        }
    }
}

/// Opens a streaming session: validates the requested configuration,
/// configures the device best-effort (the caller reports the non-blocking
/// lock outcome in `acquired` and the register read-back in `readback`), and
/// starts it. On success the device is running with zero frames produced and
/// a fresh session carries the termination bookkeeping; on any failure the
/// error says which step refused, and no session exists.
pub fn open_stream(
    guard: &mut SessionGuard,
    acquired: bool,
    config: MBConfig,
    readback: MBConfig,
) -> (r: Result<StreamingSession, MBError>)
    ensures
        final(guard).state == spec_open_stream(*old(guard), acquired, config, readback).0.state,
        final(guard).config == spec_open_stream(*old(guard), acquired, config, readback).0.config,
        r is Ok <==> spec_open_stream(*old(guard), acquired, config, readback).1 is Ok,
        r matches Err(e) ==> spec_open_stream(*old(guard), acquired, config, readback).1 == Err::<
            (),
            MBError,
        >(e),
        r matches Ok(s) ==> !s.terminated() && final(guard).state == (MBFState::Running {
            frame_count: 0,
        }),
{
    if !config.is_valid() {
        return Err(MBError::InvalidInput);
    }
    match guard.try_configure(acquired, config, readback) {
        Err(e) => Err(e),
        Ok(_) => {
            match guard.start() {
                Err(e) => Err(e),
                Ok(()) => Ok(StreamingSession::new()),
            }
        },
    }
}

/// Exactly one session runs at a time: while the device is running, every
/// further attempt to open a stream fails — with `DeviceBusy` when the lock
/// attempt loses, with `WrongState` when it wins — and the guard, including
/// the running frame count, is unchanged: no interleaving leaves the device
/// running twice.
pub proof fn lemma_second_open_fails_while_running(
    g: SessionGuard,
    acquired: bool,
    config: MBConfig,
    readback: MBConfig,
)
    requires
        g.state matches MBFState::Running { frame_count },
        config.valid(),
    ensures
        spec_open_stream(g, acquired, config, readback).0 == g,
        spec_open_stream(g, acquired, config, readback).1 == Err::<(), MBError>(
            if acquired {
                MBError::WrongState
            } else {
                MBError::DeviceBusy
            },
        ),
{
}

/// Two racing attempts to open a session against a ready device, serialized
/// by the lock: the one that wins the lock (and whose configuration write
/// verifies) succeeds and leaves the device running from zero; the other —
/// whether it loses the lock attempt or finds the device already running —
/// fails, and the device runs exactly once, its state untouched by the loser.
pub proof fn lemma_exactly_one_session_starts(g: SessionGuard, config: MBConfig)
    requires
        g.state == MBFState::Ready,
        config.valid(),
    ensures
        ({
            let (g1, winner) = spec_open_stream(g, true, config, config);
            let (g2, contended) = spec_open_stream(g1, false, config, config);
            let (g3, late) = spec_open_stream(g1, true, config, config);
            &&& winner is Ok
            &&& g1.state == (MBFState::Running { frame_count: 0 })
            &&& contended == Err::<(), MBError>(MBError::DeviceBusy)
            &&& late == Err::<(), MBError>(MBError::WrongState)
            &&& g2 == g1
            &&& g3 == g1
        }),
{
}

} // verus!
