use mbfilter::cleanup::CleanupAction;
use mbfilter::config::{validate_config, MBConfig, DEAD_TIME_MAX, K_MAX, L_MAX, M_MAX};
use mbfilter::error::MBError;
use mbfilter::guard::SessionGuard;
use mbfilter::session::{
    controller_step, open_stream, reader_step, ControlAction, ControlEvent, ReaderAction,
    ReaderEvent,
};
use mbfilter::state::MBFState;
use mbfilter::{is_frame_aligned, FRAME_SIZE};

fn sample_config() -> MBConfig {
    MBConfig::new(4, 8, 16, 100, 50)
}

/// Drives the cleanup protocol on the model, feeding each prescribed drain
/// the next byte count from `drains`. Panics if the observations run out.
fn run_cleanup(guard: &mut SessionGuard, drains: &[usize]) -> Result<(), MBError> {
    let mut next = 0;
    loop {
        match guard.cleanup_action() {
            CleanupAction::Done => return Ok(()),
            CleanupAction::Stop => {
                guard.stop().unwrap();
            }
            CleanupAction::Drain => {
                let bytes = drains[next];
                next += 1;
                guard.record_drain(bytes)?;
            }
        }
    }
}

#[test]
fn frame_alignment() {
    assert_eq!(FRAME_SIZE, 12);
    assert!(is_frame_aligned(0));
    assert!(is_frame_aligned(12));
    assert!(is_frame_aligned(2400));
    assert!(!is_frame_aligned(13));
    assert!(!is_frame_aligned(11));
}

#[test]
fn validate_accepts_in_range_and_rejects_out_of_range() {
    assert_eq!(validate_config(sample_config()), Ok(sample_config()));
    let extremes = MBConfig::new(K_MAX, L_MAX, M_MAX, 0, DEAD_TIME_MAX);
    assert_eq!(validate_config(extremes), Ok(extremes));
    let zero_k = MBConfig::new(0, 8, 16, 100, 50);
    assert_eq!(validate_config(zero_k), Err(MBError::InvalidInput));
    let k_too_big = MBConfig::new(K_MAX + 1, 8, 16, 100, 50);
    assert_eq!(validate_config(k_too_big), Err(MBError::InvalidInput));
    let l_too_big = MBConfig::new(4, L_MAX + 1, 16, 100, 50);
    assert_eq!(validate_config(l_too_big), Err(MBError::InvalidInput));
    let zero_m = MBConfig::new(4, 8, 0, 100, 50);
    assert_eq!(validate_config(zero_m), Err(MBError::InvalidInput));
    let dead_time_too_big = MBConfig::new(4, 8, 16, 100, DEAD_TIME_MAX + 1);
    assert_eq!(validate_config(dead_time_too_big), Err(MBError::InvalidInput));
}

#[test]
fn configure_then_configuration_returns_submitted() {
    let mut guard = SessionGuard::new();
    let cfg = sample_config();
    assert_eq!(guard.try_configure(true, cfg, cfg), Ok(cfg));
    assert_eq!(guard.configuration(), cfg);
    assert_eq!(guard.state(), MBFState::Ready);
}

#[test]
fn configure_mismatch_reports_and_invalidates() {
    let mut guard = SessionGuard::new();
    let cfg = sample_config();
    let readback = MBConfig::new(4, 8, 16, 100, 51);
    assert_eq!(
        guard.try_configure(true, cfg, readback),
        Err(MBError::ConfigMismatch)
    );
    assert_eq!(guard.state(), MBFState::InvalidParameters);
    assert_eq!(guard.configuration(), readback);
}

#[test]
fn reconfigure_after_mismatch_recovers() {
    let mut guard = SessionGuard::new();
    let cfg = sample_config();
    let readback = MBConfig::new(4, 8, 16, 99, 50);
    guard.try_configure(true, cfg, readback).unwrap_err();
    assert_eq!(guard.state(), MBFState::InvalidParameters);
    // a valid configure from InvalidParameters brings the device back
    assert_eq!(guard.try_configure(true, cfg, cfg), Ok(cfg));
    assert_eq!(guard.state(), MBFState::Ready);
    assert_eq!(guard.configuration(), cfg);
}

#[test]
fn can_configure_only_at_rest() {
    let mut guard = SessionGuard::new();
    assert!(guard.can_configure());
    guard.start().unwrap();
    assert!(!guard.can_configure());
    guard.record_fifo_full();
    assert!(!guard.can_configure());
    let mut halted = SessionGuard::new();
    halted.start().unwrap();
    halted.stop().unwrap();
    assert!(!halted.can_configure());
    let mut invalid = SessionGuard::new();
    let cfg = sample_config();
    let other = MBConfig::new(4, 9, 16, 100, 50);
    invalid.try_configure(true, cfg, other).unwrap_err();
    assert!(invalid.can_configure());
}

#[test]
fn configure_without_lock_is_busy() {
    let mut guard = SessionGuard::new();
    let cfg = sample_config();
    assert_eq!(guard.try_configure(false, cfg, cfg), Err(MBError::DeviceBusy));
    assert_eq!(guard.state(), MBFState::Ready);
}

#[test]
fn configure_while_running_is_wrong_state() {
    let mut guard = SessionGuard::new();
    let cfg = sample_config();
    guard.try_configure(true, cfg, cfg).unwrap();
    guard.start().unwrap();
    assert_eq!(guard.try_configure(true, cfg, cfg), Err(MBError::WrongState));
    assert_eq!(guard.state(), MBFState::Running { frame_count: 0 });
}

#[test]
fn start_succeeds_only_from_ready() {
    let mut guard = SessionGuard::new();
    assert_eq!(guard.start(), Ok(()));
    assert_eq!(guard.state(), MBFState::Running { frame_count: 0 });

    // already running: rejected, state unchanged
    assert_eq!(guard.start(), Err(MBError::WrongState));
    assert_eq!(guard.state(), MBFState::Running { frame_count: 0 });

    guard.stop().unwrap();
    assert_eq!(guard.start(), Err(MBError::WrongState));
    assert_eq!(guard.state(), MBFState::Halted);

    let mut saturated = SessionGuard::new();
    saturated.start().unwrap();
    saturated.record_fifo_full();
    assert_eq!(saturated.state(), MBFState::FIFOFull { frame_count: 0 });
    assert_eq!(saturated.start(), Err(MBError::WrongState));
    assert_eq!(saturated.state(), MBFState::FIFOFull { frame_count: 0 });

    let mut mismatched = SessionGuard::new();
    let cfg = sample_config();
    let other = MBConfig::new(5, 8, 16, 100, 50);
    mismatched.try_configure(true, cfg, other).unwrap_err();
    assert_eq!(mismatched.start(), Err(MBError::WrongState));
    assert_eq!(mismatched.state(), MBFState::InvalidParameters);
}

#[test]
fn stop_is_idempotent_and_safe_from_rest() {
    let mut guard = SessionGuard::new();
    assert_eq!(guard.stop(), Ok(()));
    assert_eq!(guard.state(), MBFState::Ready);
    guard.start().unwrap();
    assert_eq!(guard.stop(), Ok(()));
    assert_eq!(guard.state(), MBFState::Halted);
    assert_eq!(guard.stop(), Ok(()));
    assert_eq!(guard.state(), MBFState::Halted);
}

#[test]
fn misaligned_read_is_fatal() {
    let mut guard = SessionGuard::new();
    guard.start().unwrap();
    assert_eq!(guard.record_read(13), Err(MBError::DeviceFault));
    // the fault does not corrupt the recorded state
    assert_eq!(guard.state(), MBFState::Running { frame_count: 0 });
}

#[test]
fn misaligned_read_is_never_forwarded() {
    assert_eq!(
        reader_step(ReaderEvent::Bytes(13)),
        ReaderAction::Terminate(MBError::DeviceFault)
    );
    assert_eq!(
        reader_step(ReaderEvent::Bytes(25)),
        ReaderAction::Terminate(MBError::DeviceFault)
    );
    assert_eq!(
        reader_step(ReaderEvent::Bytes(0)),
        ReaderAction::Terminate(MBError::DeviceFault)
    );
    assert_eq!(
        reader_step(ReaderEvent::Fault),
        ReaderAction::Terminate(MBError::DeviceFault)
    );
    assert_eq!(
        reader_step(ReaderEvent::SendFailed),
        ReaderAction::Terminate(MBError::IOFault)
    );
    assert_eq!(reader_step(ReaderEvent::Bytes(24)), ReaderAction::Forward(24));
}

#[test]
fn controller_stops_on_close_and_receive_error() {
    assert_eq!(
        controller_step(ControlEvent::CloseMessage),
        ControlAction::StopFilter
    );
    assert_eq!(
        controller_step(ControlEvent::ReceiveError),
        ControlAction::StopFilter
    );
    assert_eq!(
        controller_step(ControlEvent::OtherMessage),
        ControlAction::Continue
    );
}

#[test]
fn full_measurement_scenario() {
    // configure with k=4, l=8, m=16, threshold=100, dead-time=50
    let mut guard = SessionGuard::new();
    let cfg = sample_config();
    assert_eq!(guard.try_configure(true, cfg, cfg), Ok(cfg));
    assert_eq!(guard.state(), MBFState::Ready);

    // start
    guard.start().unwrap();
    assert_eq!(guard.state(), MBFState::Running { frame_count: 0 });

    // reads totaling 2400 bytes: 200 frames
    assert_eq!(guard.record_read(1200), Ok(1200));
    assert_eq!(guard.record_read(960), Ok(960));
    assert_eq!(guard.record_read(240), Ok(240));
    assert_eq!(guard.state(), MBFState::Running { frame_count: 200 });

    // stop
    guard.stop().unwrap();
    assert_eq!(guard.state(), MBFState::Halted);

    // drain reads 0 residual bytes
    assert_eq!(guard.record_drain(0), Ok(()));
    assert_eq!(guard.state(), MBFState::Ready);
}

#[test]
fn cleanup_restores_ready_from_running() {
    let mut guard = SessionGuard::new();
    guard.start().unwrap();
    guard.record_read(120).unwrap();
    // residual frames flushed by the first drain, confirmed empty by the next
    assert_eq!(run_cleanup(&mut guard, &[36, 0]), Ok(()));
    assert_eq!(guard.state(), MBFState::Ready);
}

#[test]
fn cleanup_restores_ready_from_fifo_full() {
    let mut guard = SessionGuard::new();
    guard.start().unwrap();
    guard.record_read(480).unwrap();
    guard.record_fifo_full();
    assert_eq!(guard.state(), MBFState::FIFOFull { frame_count: 40 });
    assert_eq!(run_cleanup(&mut guard, &[24576, 0]), Ok(()));
    assert_eq!(guard.state(), MBFState::Ready);
}

#[test]
fn cleanup_leaves_invalid_parameters_alone() {
    // nothing was running, so the protocol has nothing to do; the device
    // still needs a reconfigure before it can start
    let mut guard = SessionGuard::new();
    let cfg = sample_config();
    let other = MBConfig::new(4, 8, 17, 100, 50);
    guard.try_configure(true, cfg, other).unwrap_err();
    assert_eq!(run_cleanup(&mut guard, &[]), Ok(()));
    assert_eq!(guard.state(), MBFState::InvalidParameters);
}

#[test]
fn cleanup_reports_misaligned_drain() {
    let mut guard = SessionGuard::new();
    guard.start().unwrap();
    assert_eq!(run_cleanup(&mut guard, &[7]), Err(MBError::DeviceFault));
    assert_eq!(guard.state(), MBFState::Halted);
}

#[test]
fn second_stream_fails_while_first_runs() {
    let mut guard = SessionGuard::new();
    let cfg = sample_config();
    let first = open_stream(&mut guard, true, cfg, cfg);
    assert!(first.is_ok());
    assert_eq!(guard.state(), MBFState::Running { frame_count: 0 });

    // losing the non-blocking lock attempt
    let contended = open_stream(&mut guard, false, cfg, cfg);
    assert_eq!(contended.unwrap_err(), MBError::DeviceBusy);
    assert_eq!(guard.state(), MBFState::Running { frame_count: 0 });

    // winning the lock but finding the device running
    let late = open_stream(&mut guard, true, cfg, cfg);
    assert_eq!(late.unwrap_err(), MBError::WrongState);
    assert_eq!(guard.state(), MBFState::Running { frame_count: 0 });
}

#[test]
fn open_stream_rejects_invalid_config() {
    let mut guard = SessionGuard::new();
    let bad = MBConfig::new(0, 8, 16, 100, 50);
    assert_eq!(
        open_stream(&mut guard, true, bad, bad).unwrap_err(),
        MBError::InvalidInput
    );
    assert_eq!(guard.state(), MBFState::Ready);
}

#[test]
fn disconnect_mid_read_cleans_up_exactly_once() {
    // client opens stream, device starts
    let mut guard = SessionGuard::new();
    let cfg = sample_config();
    let mut session = open_stream(&mut guard, true, cfg, cfg).unwrap();
    assert_eq!(guard.state(), MBFState::Running { frame_count: 0 });

    // reader forwards some frames, then the client disconnects mid-read:
    // the send fails, so the reader claims the cleanup
    assert_eq!(guard.record_read(120), Ok(120));
    assert_eq!(reader_step(ReaderEvent::Bytes(120)), ReaderAction::Forward(120));
    assert_eq!(
        reader_step(ReaderEvent::SendFailed),
        ReaderAction::Terminate(MBError::IOFault)
    );
    assert!(session.claim_cleanup());
    assert_eq!(run_cleanup(&mut guard, &[84, 0]), Ok(()));

    // the controller, noticing the receive error, must not clean up again
    assert_eq!(
        controller_step(ControlEvent::ReceiveError),
        ControlAction::StopFilter
    );
    assert!(!session.claim_cleanup());

    // final state Ready
    let (_, state) = guard.status();
    assert_eq!(state, MBFState::Ready);
}

#[test]
fn batch_accounting_reaches_target() {
    let (total, cont) = mbfilter::batch::batch_step(0, 1200, 2400);
    assert_eq!(total, 1200);
    assert!(cont);
    let (total, cont) = mbfilter::batch::batch_step(total, 1200, 2400);
    assert_eq!(total, 2400);
    assert!(!cont);
}
