use camilladsp::supervisor::{AfterDrain, Phase, StopReason, Supervisor, SupervisorAction, SupervisorEvent};

#[test]
fn barrier_released_when_both_ready() {
    let mut s = Supervisor::new();
    assert_eq!(s.handle(SupervisorEvent::PlaybackReady), SupervisorAction::Nothing);
    assert_eq!(s.handle(SupervisorEvent::SetSpeed(1_000_100)), SupervisorAction::Nothing);
    assert_eq!(s.handle(SupervisorEvent::CaptureReady), SupervisorAction::ReleaseBarrier);
    assert_eq!(s.phase, Phase::Running);
    assert_eq!(s.handle(SupervisorEvent::CaptureReady), SupervisorAction::Nothing);
    assert_eq!(s.handle(SupervisorEvent::SetSpeed(999_000)), SupervisorAction::ForwardSpeed(999_000));
}

#[test]
fn exit_drains_then_finishes() {
    let mut s = Supervisor::new();
    s.handle(SupervisorEvent::CaptureReady);
    s.handle(SupervisorEvent::PlaybackReady);
    assert_eq!(s.handle(SupervisorEvent::Exit), SupervisorAction::SendExit);
    assert_eq!(s.phase, Phase::Draining);
    assert_eq!(s.after_drain, AfterDrain::Exit);
    assert_eq!(s.handle(SupervisorEvent::CaptureDone), SupervisorAction::Nothing);
    assert_eq!(s.handle(SupervisorEvent::PlaybackDone), SupervisorAction::Finished(StopReason::Done));
    assert_eq!(s.phase, Phase::Stopped);
    assert_eq!(s.stop_reason, StopReason::Done);
    assert_eq!(s.handle(SupervisorEvent::CaptureError), SupervisorAction::Nothing);
    assert_eq!(s.stop_reason, StopReason::Done);
}

#[test]
fn device_error_aborts() {
    let mut s = Supervisor::new();
    s.handle(SupervisorEvent::CaptureReady);
    s.handle(SupervisorEvent::PlaybackReady);
    assert_eq!(s.handle(SupervisorEvent::PlaybackError), SupervisorAction::Abort(StopReason::PlaybackError));
    assert_eq!(s.stop_reason, StopReason::PlaybackError);
    let mut s = Supervisor::new();
    assert_eq!(s.handle(SupervisorEvent::CaptureError), SupervisorAction::Abort(StopReason::CaptureError));
    let mut s = Supervisor::new();
    s.handle(SupervisorEvent::CaptureReady);
    s.handle(SupervisorEvent::PlaybackReady);
    assert_eq!(
        s.handle(SupervisorEvent::CaptureFormatChange),
        SupervisorAction::Abort(StopReason::CaptureFormatChange)
    );
}

#[test]
fn reload_in_place_or_restart() {
    let mut s = Supervisor::new();
    assert_eq!(s.handle(SupervisorEvent::Reload { devices_changed: false }), SupervisorAction::Nothing);
    s.handle(SupervisorEvent::CaptureReady);
    s.handle(SupervisorEvent::PlaybackReady);
    assert_eq!(s.handle(SupervisorEvent::Reload { devices_changed: false }), SupervisorAction::SignalReload);
    assert_eq!(s.phase, Phase::Running);
    assert_eq!(s.handle(SupervisorEvent::Reload { devices_changed: true }), SupervisorAction::SendExit);
    assert_eq!(s.after_drain, AfterDrain::Restart);
    assert_eq!(s.handle(SupervisorEvent::Stop), SupervisorAction::Nothing);
    assert_eq!(s.after_drain, AfterDrain::Stop);
}
