use vstd::prelude::*;

verus! {

/// Why the engine stopped.
#[derive(Debug, Clone, Copy, PartialEq, Eq, Structural)]
pub enum StopReason {
    NotStopped,
    Done,
    CaptureError,
    PlaybackError,
    CaptureFormatChange,
    PlaybackFormatChange,
}

/// Where the supervisor is in the life of one pipeline.
#[derive(Debug, Clone, Copy, PartialEq, Eq, Structural)]
pub enum Phase {
    /// Devices are being opened; the workers wait at the barrier.
    Starting,
    Running,
    /// An exit was sent to the capture side; waiting for the end of the
    /// stream to reach playback.
    Draining,
    Stopped,
}

/// What follows a clean drain.
#[derive(Debug, Clone, Copy, PartialEq, Eq, Structural)]
pub enum AfterDrain {
    /// Wait for a new configuration.
    Stop,
    /// End the process.
    Exit,
    /// Build a new pipeline from the new configuration.
    Restart,
}

/// A message from a worker thread or a request of the control surface.
#[derive(Debug, Clone, Copy, PartialEq, Eq, Structural)]
pub enum SupervisorEvent {
    CaptureReady,
    PlaybackReady,
    /// A new capture speed from the rate controller, in parts per million.
    SetSpeed(i64),
    CaptureError,
    PlaybackError,
    CaptureFormatChange,
    PlaybackFormatChange,
    CaptureDone,
    PlaybackDone,
    /// A new configuration was installed; `devices_changed` when it changes a
    /// device or a sample format.
    Reload { devices_changed: bool },
    Stop,
    Exit,
}

/// What the supervisor does in answer to an event.
#[derive(Debug, Clone, Copy, PartialEq, Eq, Structural)]
pub enum SupervisorAction {
    Nothing,
    /// Both devices are ready: release the workers.
    ReleaseBarrier,
    /// Pass a speed to the capture side.
    ForwardSpeed(i64),
    /// Tell the processing side to take the new configuration between chunks.
    SignalReload,
    /// Send an exit command to the capture side.
    SendExit,
    /// A worker failed: join all threads at once.
    Abort(StopReason),
    /// Both sides have drained: join the threads.
    Finished(StopReason),
}

/// The supervisor's record of one pipeline.
#[derive(Debug, Clone, Copy, PartialEq, Eq, Structural)]
pub struct Supervisor {
    pub phase: Phase,
    pub capture_ready: bool,
    pub playback_ready: bool,
    pub capture_done: bool,
    pub playback_done: bool,
    pub after_drain: AfterDrain,
    pub stop_reason: StopReason,
}

pub open spec fn abort(s: Supervisor, reason: StopReason) -> (Supervisor, SupervisorAction) {
    (Supervisor { phase: Phase::Stopped, stop_reason: reason, ..s }, SupervisorAction::Abort(reason))
}

/// After one side reports its end: finished once both have.
pub open spec fn drained(s: Supervisor) -> (Supervisor, SupervisorAction) {
    if s.capture_done && s.playback_done {
        (Supervisor { phase: Phase::Stopped, stop_reason: StopReason::Done, ..s },
         SupervisorAction::Finished(StopReason::Done))
    } else {
        (s, SupervisorAction::Nothing)
    }
}

pub open spec fn request_exit(s: Supervisor, after: AfterDrain) -> (Supervisor, SupervisorAction) {
    match s.phase {
        Phase::Running => (Supervisor { phase: Phase::Draining, after_drain: after, ..s }, SupervisorAction::SendExit),
        Phase::Draining => (Supervisor { after_drain: after, ..s }, SupervisorAction::Nothing),
        Phase::Starting => abort(Supervisor { after_drain: after, ..s }, StopReason::Done),
        Phase::Stopped => (s, SupervisorAction::Nothing),
    }
}

/// The supervisor's next record and action for an event.
pub open spec fn supervisor_step(s: Supervisor, e: SupervisorEvent) -> (Supervisor, SupervisorAction) {
    if s.phase is Stopped {
        (s, SupervisorAction::Nothing)
    } else {
        match e {
            SupervisorEvent::CaptureReady | SupervisorEvent::PlaybackReady => {
                let t = if e is CaptureReady {
                    Supervisor { capture_ready: true, ..s }
                } else {
                    Supervisor { playback_ready: true, ..s }
                };
                if s.phase is Starting && t.capture_ready && t.playback_ready {
                    (Supervisor { phase: Phase::Running, ..t }, SupervisorAction::ReleaseBarrier)
                } else {
                    (t, SupervisorAction::Nothing)
                }
            },
            SupervisorEvent::SetSpeed(speed) => if s.phase is Running {
                (s, SupervisorAction::ForwardSpeed(speed))
            } else {
                (s, SupervisorAction::Nothing)
            },
            SupervisorEvent::CaptureError => abort(s, StopReason::CaptureError),
            SupervisorEvent::PlaybackError => abort(s, StopReason::PlaybackError),
            SupervisorEvent::CaptureFormatChange => abort(s, StopReason::CaptureFormatChange),
            SupervisorEvent::PlaybackFormatChange => abort(s, StopReason::PlaybackFormatChange),
            SupervisorEvent::CaptureDone => drained(Supervisor { capture_done: true, ..s }),
            SupervisorEvent::PlaybackDone => drained(Supervisor { playback_done: true, ..s }),
            SupervisorEvent::Reload { devices_changed } => if !(s.phase is Running) {
                (s, SupervisorAction::Nothing)
            } else if devices_changed {
                request_exit(s, AfterDrain::Restart)
            } else {
                (s, SupervisorAction::SignalReload)
            },
            SupervisorEvent::Stop => request_exit(s, AfterDrain::Stop),
            SupervisorEvent::Exit => request_exit(s, AfterDrain::Exit),
        }
    }
}

impl Supervisor {
    /// A pipeline whose devices are being opened.
    pub fn new() -> (r: Self)
        ensures
            r.phase == Phase::Starting,
            !r.capture_ready && !r.playback_ready && !r.capture_done && !r.playback_done,
            r.after_drain == AfterDrain::Stop,
            r.stop_reason == StopReason::NotStopped,
    {
        Supervisor {
            phase: Phase::Starting,
            capture_ready: false,
            playback_ready: false,
            capture_done: false,
            playback_done: false,
            after_drain: AfterDrain::Stop,
            stop_reason: StopReason::NotStopped,
        }
    }

    fn abort(&mut self, reason: StopReason) -> (r: SupervisorAction)
        ensures
            (*final(self), r) == abort(*old(self), reason),
    {
        self.phase = Phase::Stopped;
        self.stop_reason = reason;
        SupervisorAction::Abort(reason)
    }

    fn drained(&mut self) -> (r: SupervisorAction)
        ensures
            (*final(self), r) == drained(*old(self)),
    {
        if self.capture_done && self.playback_done {
            self.phase = Phase::Stopped;
            self.stop_reason = StopReason::Done;
            SupervisorAction::Finished(StopReason::Done)
        } else {
            SupervisorAction::Nothing
        }
    }

    fn request_exit(&mut self, after: AfterDrain) -> (r: SupervisorAction)
        ensures
            (*final(self), r) == request_exit(*old(self), after),
    {
        match self.phase {
            Phase::Running => {
                self.phase = Phase::Draining;
                self.after_drain = after;
                SupervisorAction::SendExit
            },
            Phase::Draining => {
                self.after_drain = after;
                SupervisorAction::Nothing
            },
            Phase::Starting => {
                self.after_drain = after;
                self.abort(StopReason::Done)
            },
            Phase::Stopped => SupervisorAction::Nothing,
        }
    }

    /// Takes one event and returns what to do.
    pub fn handle(&mut self, event: SupervisorEvent) -> (r: SupervisorAction)
        ensures
            (*final(self), r) == supervisor_step(*old(self), event),
    {
        if let Phase::Stopped = self.phase {
            return SupervisorAction::Nothing;
        }
        match event {
            SupervisorEvent::CaptureReady | SupervisorEvent::PlaybackReady => {
                let starting = if let Phase::Starting = self.phase { true } else { false };
                if let SupervisorEvent::CaptureReady = event {
                    self.capture_ready = true;
                } else {
                    self.playback_ready = true;
                }
                if starting && self.capture_ready && self.playback_ready {
                    self.phase = Phase::Running;
                    SupervisorAction::ReleaseBarrier
                } else {
                    SupervisorAction::Nothing
                }
            },
            SupervisorEvent::SetSpeed(speed) => {
                if let Phase::Running = self.phase {
                    SupervisorAction::ForwardSpeed(speed)
                } else {
                    SupervisorAction::Nothing
                }
            },
            SupervisorEvent::CaptureError => self.abort(StopReason::CaptureError),
            SupervisorEvent::PlaybackError => self.abort(StopReason::PlaybackError),
            SupervisorEvent::CaptureFormatChange => self.abort(StopReason::CaptureFormatChange),
            SupervisorEvent::PlaybackFormatChange => self.abort(StopReason::PlaybackFormatChange),
            SupervisorEvent::CaptureDone => {
                self.capture_done = true;
                self.drained()
            },
            SupervisorEvent::PlaybackDone => {
                self.playback_done = true;
                self.drained()
            },
            SupervisorEvent::Reload { devices_changed } => {
                if let Phase::Running = self.phase {
                    if devices_changed {
                        self.request_exit(AfterDrain::Restart)
                    } else {
                        SupervisorAction::SignalReload
                    }
                } else {
                    SupervisorAction::Nothing
                }
            },
            SupervisorEvent::Stop => self.request_exit(AfterDrain::Stop),
            SupervisorEvent::Exit => self.request_exit(AfterDrain::Exit),
        }
    }
}

/// The workers are released only once, when both devices have reported ready.
pub proof fn lemma_barrier_after_both_ready(s: Supervisor, e: SupervisorEvent)
    ensures
        supervisor_step(s, e).1 == SupervisorAction::ReleaseBarrier ==> {
            &&& s.phase == Phase::Starting
            &&& supervisor_step(s, e).0.capture_ready
            &&& supervisor_step(s, e).0.playback_ready
            &&& supervisor_step(s, e).0.phase == Phase::Running
        },
{
}

/// A stopped pipeline ignores every further event.
pub proof fn lemma_stopped_is_final(s: Supervisor, e: SupervisorEvent)
    requires
        s.phase == Phase::Stopped,
    ensures
        supervisor_step(s, e) == (s, SupervisorAction::Nothing),
{
}

/// A clean finish comes only once both capture and playback have drained,
/// and then the stop reason is `Done`.
pub proof fn lemma_finish_after_drain(s: Supervisor, e: SupervisorEvent, reason: StopReason)
    requires
        supervisor_step(s, e).1 == SupervisorAction::Finished(reason),
    ensures
        supervisor_step(s, e).0.capture_done,
        supervisor_step(s, e).0.playback_done,
        supervisor_step(s, e).0.phase == Phase::Stopped,
        reason == StopReason::Done,
{
}

/// Speeds reach the capture side only while the pipeline runs.
pub proof fn lemma_speed_only_when_running(s: Supervisor, e: SupervisorEvent, speed: i64)
    requires
        supervisor_step(s, e).1 == SupervisorAction::ForwardSpeed(speed),
    ensures
        s.phase == Phase::Running,
        e == SupervisorEvent::SetSpeed(speed),
{
}

} // verus!
