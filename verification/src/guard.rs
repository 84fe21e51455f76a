use vstd::prelude::*;

use crate::config::MBConfig;
use crate::error::MBError;
use crate::state::{
    configurable, spec_record_drain, spec_record_fifo_full, spec_record_read, spec_start,
    spec_stop, MBFState,
};
use crate::{frame_aligned, FRAME_SIZE};

verus! {

/// The session guard's view of the device: its state and the configuration
/// its registers hold.
///
/// The guard is the single owner of the device handle for the lifetime of
/// the process. The caller serializes every mutating operation (an exclusive
/// lock around the guard and the handle); each device event observed on the
/// handle is recorded here, so the guard mirrors the device exactly.
#[derive(Clone, Copy, Debug, PartialEq, Eq, Structural)]
pub struct SessionGuard {
    /// The device's operating state.
    pub state: MBFState,
    /// The configuration currently held by the device's registers.
    pub config: MBConfig,
}

/// `try_configure` transition over the whole guard. `acquired` is the
/// outcome of the non-blocking lock attempt; `readback` is what the device's
/// registers held after the write (meaningful only when the write happened,
/// i.e. when the lock was held and the state allowed configuring).
pub open spec fn spec_try_configure(
    g: SessionGuard,
    acquired: bool,
    config: MBConfig,
    readback: MBConfig,
) -> (SessionGuard, Result<MBConfig, MBError>) {
    if !acquired {
        (g, Err(MBError::DeviceBusy))
    } else if !configurable(g.state) {
        (g, Err(MBError::WrongState))
    } else if readback == config {
        (SessionGuard { state: MBFState::Ready, config }, Ok(config))
    } else {
        (SessionGuard { state: MBFState::InvalidParameters, config: readback }, Err(
            MBError::ConfigMismatch,
        ))
    }
}

/// For every valid configuration accepted under the lock: when the write
/// verifies on read-back, the configure succeeds and `configuration()`
/// immediately afterwards returns exactly the submitted values; when the
/// read-back differs, the state becomes `InvalidParameters` and
/// `ConfigMismatch` is reported.
pub proof fn lemma_configure_then_configuration(
    g: SessionGuard,
    config: MBConfig,
    readback: MBConfig,
)
    requires
        config.valid(),
        configurable(g.state),
    ensures
        readback == config ==> spec_try_configure(g, true, config, readback) == (
            SessionGuard { state: MBFState::Ready, config },
            Ok::<MBConfig, MBError>(config),
        ),
        readback != config ==> spec_try_configure(g, true, config, readback).0.state
            == MBFState::InvalidParameters && spec_try_configure(g, true, config, readback).1
            == Err::<MBConfig, MBError>(MBError::ConfigMismatch),
{
}

/// The core invariant the cleanup protocol enforces: no transition leads
/// from a started device straight back to a configure-accepted `Ready`
/// without the explicit stop-and-drain. Start, stop, reads and saturation
/// reports never produce `Ready` from another state; a drain produces it
/// only when a halted device returns no residual bytes; and a configure
/// produces it only where the device was already at rest.
pub proof fn lemma_no_silent_return_to_ready(
    g: SessionGuard,
    acquired: bool,
    config: MBConfig,
    readback: MBConfig,
    bytes: usize,
)
    requires
        g.state != MBFState::Ready,
    ensures
        spec_start(g.state).0 != MBFState::Ready,
        spec_stop(g.state).0 != MBFState::Ready,
        spec_record_read(g.state, bytes).0 != MBFState::Ready,
        spec_record_fifo_full(g.state) != MBFState::Ready,
        spec_record_drain(g.state, bytes).0 == MBFState::Ready ==> g.state == MBFState::Halted
            && bytes == 0,
        spec_try_configure(g, acquired, config, readback).0.state == MBFState::Ready ==> g.state
            == MBFState::InvalidParameters,
{
}

impl SessionGuard {
    /// A guard for a freshly opened device: ready, with all registers clear.
    pub fn new() -> (g: SessionGuard)
        ensures
            g.state == MBFState::Ready,
            g.config == (MBConfig { k: 0, l: 0, m: 0, pthresh: 0, dead_time: 0 }),
    {
        SessionGuard {
            state: MBFState::Ready,
            config: MBConfig { k: 0, l: 0, m: 0, pthresh: 0, dead_time: 0 },
        }
    }

    /// Read-only snapshot of the device state.
    pub fn state(&self) -> (s: MBFState)
        ensures
            s == self.state,
    {
        self.state
    }

    /// Read-only snapshot of the configuration the device holds.
    pub fn configuration(&self) -> (c: MBConfig)
        ensures
            c == self.config,
    {
        self.config
    }

    /// Read-only snapshot of configuration and state together.
    pub fn status(&self) -> (r: (MBConfig, MBFState))
        ensures
            r.0 == self.config,
            r.1 == self.state,
    {
        (self.config, self.state)
    }

    /// Whether a configuration may be accepted right now.
    pub fn can_configure(&self) -> (b: bool)
        ensures
            b == configurable(self.state),
    {
        match self.state {
            MBFState::Ready => true,
            MBFState::InvalidParameters => true,
            _ => false,
        }
    }

    /// Best-effort configure. `acquired` reports whether the non-blocking
    /// lock attempt succeeded; without the lock the attempt fails at once
    /// with `DeviceBusy` rather than waiting. With the lock held, a running
    /// or dirty device rejects the attempt with `WrongState`. Otherwise the
    /// caller wrote `config` to the device and read `readback` back: equal
    /// values mean the configuration is applied and the device ready; a
    /// difference means the write did not verify, the device keeps what its
    /// registers actually hold, and its parameters are invalid.
    pub fn try_configure(&mut self, acquired: bool, config: MBConfig, readback: MBConfig) -> (r:
        Result<MBConfig, MBError>)
        ensures
            (*final(self), r) == spec_try_configure(*old(self), acquired, config, readback),
            !acquired ==> r == Err::<MBConfig, MBError>(MBError::DeviceBusy) && *final(self)
                == *old(self),
            acquired && !configurable(old(self).state) ==> r == Err::<MBConfig, MBError>(
                MBError::WrongState,
            ) && *final(self) == *old(self),
            acquired && configurable(old(self).state) && readback == config ==> r == Ok::<
                MBConfig,
                MBError,
            >(config) && final(self).state == MBFState::Ready && final(self).config == config,
            acquired && configurable(old(self).state) && readback != config ==> r == Err::<
                MBConfig,
                MBError,
            >(MBError::ConfigMismatch) && final(self).state == MBFState::InvalidParameters,
    {
        if !acquired {
            return Err(MBError::DeviceBusy);
        }
        if !self.can_configure() {
            return Err(MBError::WrongState);
        }
        if readback == config {
            self.state = MBFState::Ready;
            self.config = config;
            Ok(config)
        } else {
            self.state = MBFState::InvalidParameters;
            self.config = readback;
            Err(MBError::ConfigMismatch)
        }
    }

    /// Starts sampling. Succeeds exactly when the device was `Ready`, in
    /// which case it runs with zero frames produced; from any other state it
    /// fails with `WrongState` and the device is unchanged.
    pub fn start(&mut self) -> (r: Result<(), MBError>)
        ensures
            (final(self).state, r) == spec_start(old(self).state),
            final(self).config == old(self).config,
            r is Ok <==> old(self).state == MBFState::Ready,
            old(self).state == MBFState::Ready ==> final(self).state == (MBFState::Running {
                frame_count: 0,
            }),
            old(self).state != MBFState::Ready ==> final(self).state == old(self).state && r
                == Err::<(), MBError>(MBError::WrongState),
    {
        match self.state {
            MBFState::Ready => {
                self.state = MBFState::Running { frame_count: 0 };
                Ok(())
            },
            _ => Err(MBError::WrongState),
        }
    }

    /// Stops sampling. Halts a running device; success without effect from
    /// `Halted` (idempotent) and from `Ready`; rejected with `WrongState`
    /// from `FIFOFull` and `InvalidParameters`, where a stop would not leave
    /// a clean halt.
    pub fn stop(&mut self) -> (r: Result<(), MBError>)
        ensures
            (final(self).state, r) == spec_stop(old(self).state),
            final(self).config == old(self).config,
    {
        match self.state {
            MBFState::Running { frame_count: _ } => {
                self.state = MBFState::Halted;
                Ok(())
            },
            MBFState::Halted => Ok(()),
            MBFState::Ready => Ok(()),
            _ => Err(MBError::WrongState),
        }
    }

    /// Records one streaming read of `bytes` bytes from the device. A byte
    /// count that is not a whole number of frames is device corruption:
    /// fatal, never forwarded. An aligned read while running advances the
    /// frame count by the number of frames read.
    pub fn record_read(&mut self, bytes: usize) -> (r: Result<usize, MBError>)
        requires
            old(self).state matches MBFState::Running { frame_count } ==> frame_count + bytes
                / FRAME_SIZE <= u64::MAX,
        ensures
            (final(self).state, r) == spec_record_read(old(self).state, bytes),
            final(self).config == old(self).config,
            !frame_aligned(bytes) ==> r == Err::<usize, MBError>(MBError::DeviceFault)
                && *final(self) == *old(self),
            frame_aligned(bytes) ==> r == Ok::<usize, MBError>(bytes),
    {
        if !crate::is_frame_aligned(bytes) {
            return Err(MBError::DeviceFault);
        }
        match self.state {
            MBFState::Running { frame_count } => {
                let frames = (bytes / FRAME_SIZE) as u64;
                self.state = MBFState::Running { frame_count: frame_count + frames };
                Ok(bytes)
            },
            _ => Ok(bytes),
        }
    }

    /// Records the device's report that its FIFO saturated: a running device
    /// keeps its frame count but must be drained before further operations.
    pub fn record_fifo_full(&mut self)
        ensures
            final(self).state == spec_record_fifo_full(old(self).state),
            final(self).config == old(self).config,
    {
        match self.state {
            MBFState::Running { frame_count } => {
                self.state = MBFState::FIFOFull { frame_count };
            },
            _ => {},
        }
    }

    /// Records one bounded full-capacity drain read of `bytes` bytes issued
    /// by the cleanup protocol. A misaligned count is a fatal inconsistency;
    /// draining a saturated device leaves it halted; a halted device becomes
    /// ready once a drain returns no residual bytes.
    pub fn record_drain(&mut self, bytes: usize) -> (r: Result<(), MBError>)
        requires
            old(self).state == MBFState::Halted || old(self).state matches MBFState::FIFOFull {
                frame_count,
            },
        ensures
            (final(self).state, r) == spec_record_drain(old(self).state, bytes),
            final(self).config == old(self).config,
    {
        if !crate::is_frame_aligned(bytes) {
            return Err(MBError::DeviceFault);
        }
        match self.state {
            MBFState::FIFOFull { frame_count: _ } => {
                self.state = MBFState::Halted;
                Ok(())
            },
            MBFState::Halted => {
                if bytes == 0 {
                    self.state = MBFState::Ready;
                }
                Ok(())
            },
            _ => Ok(()),
        }
    }
}

} // verus!
