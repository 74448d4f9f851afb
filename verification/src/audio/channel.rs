//! The per-channel record of the channel table, and the values that the
//! manager exchanges with the program that performs the device calls.

use vstd::prelude::*;

verus! {

/// What can go wrong in the audio subsystem.
#[derive(Clone, Copy, Debug, PartialEq, Eq, Structural)]
pub enum AudioError {
    /// The device refused to reserve one of the channels.
    ChannelReservationFailed,
    /// A worker could not be created or started.
    WorkerStartupFailed,
    /// Every channel is busy, or none has a running worker.
    NoAvailableChannel,
    /// The device rejected a chunk in the middle of a clip.
    SubmissionFailed,
}

/// How far the worker of a channel has come with the assigned clip.
#[derive(Clone, Copy, Debug, PartialEq, Eq, Structural)]
pub enum Progress {
    /// No device call is outstanding for the clip.
    Idle,
    /// The chunk at `position` was handed to the device; its status is awaited.
    Submitting { position: usize },
    /// Every chunk before `position` was accepted; the device's remaining
    /// queue length is awaited before the chunk at `position` is considered.
    Pacing { position: usize },
}

/// One entry of the channel table.
#[derive(Clone, Copy, Debug)]
pub struct Channel {
    /// The device handle, once the channel is reserved.
    pub handle: Option<i32>,
    /// The identity of the worker that serves the channel, once created.
    pub worker: Option<i32>,
    pub volume_left: i32,
    pub volume_right: i32,
    /// The clip in flight. `Some` means busy, `None` means free.
    pub assignment: Option<&'static [u8]>,
    pub progress: Progress,
}

/// A call that the embedding program makes on the device or the scheduler.
#[derive(Clone, Copy, Debug, PartialEq, Eq, Structural)]
pub enum DeviceCall {
    /// Reserve channel `channel` for stereo output of `sample_count` samples
    /// per submission. The reply is the handle, negative on failure.
    Reserve { channel: i32, sample_count: i32 },
    /// Give a reserved handle back.
    Release { handle: i32 },
    /// Create the worker of channel `channel`. The reply is its identity,
    /// negative on failure.
    CreateWorker { channel: i32 },
    /// Start a created worker. The reply is zero on success.
    StartWorker { worker: i32 },
    /// Wait until the worker has left its loop, then delete it.
    StopWorker { worker: i32 },
    /// Silence the channel at once and drop what it still has queued.
    Silence { handle: i32 },
}

/// What `AudioManager::startup_step` asks for next.
#[derive(Debug)]
pub enum StartupAction {
    /// Make this call and hand its reply to the next step.
    Call(DeviceCall),
    /// Every channel is reserved and every worker runs.
    Ready,
    /// Start-up failed. Make the `cleanup` calls, in order.
    Failed { error: AudioError, cleanup: Vec<DeviceCall> },
    /// The manager was shut down and stays so.
    Closed,
}

/// A start-up action as contracts see it.
pub enum StartupView {
    Call(DeviceCall),
    Ready,
    Failed { error: AudioError, cleanup: Seq<DeviceCall> },
    Closed,
}

impl View for StartupAction {
    type V = StartupView;

    open spec fn view(&self) -> StartupView {
        match *self {
            StartupAction::Call(call) => StartupView::Call(call),
            StartupAction::Ready => StartupView::Ready,
            StartupAction::Failed { error, cleanup } => StartupView::Failed {
                error,
                cleanup: cleanup@,
            },
            StartupAction::Closed => StartupView::Closed,
        }
    }
}

/// What a worker does next.
#[derive(Clone, Copy, Debug)]
pub enum WorkerAction {
    /// Nothing to do: give the processor away and step again.
    Yield,
    /// Hand the full chunk of `clip` that starts at byte `offset` to the
    /// device. The reply is the device's status, negative on failure.
    Submit { handle: i32, volume_left: i32, volume_right: i32, clip: &'static [u8], offset: usize },
    /// Ask the device how many samples are still queued. The reply is that
    /// count, negative while the device cannot tell.
    QueryRestLength { handle: i32 },
    /// Declare the length of the clip's tail. The channel is free again.
    /// `error` tells whether the clip was abandoned.
    DeclareLength { handle: i32, samples: i32, error: Option<AudioError> },
    /// Leave the worker loop.
    Exit,
}

/// Where the manager stands in its life.
#[derive(Clone, Copy, Debug, PartialEq, Eq, Structural)]
pub enum Phase {
    /// Nothing has been asked of the device yet.
    Created,
    /// The reservation of channel `index` is outstanding.
    Reserving { index: usize },
    /// The creation of the worker of channel `index` is outstanding.
    Creating { index: usize },
    /// The start of the worker of channel `index` is outstanding.
    Starting { index: usize },
    /// Every channel is reserved and every worker runs.
    Running,
    /// Start-up failed with this error.
    Failed { error: AudioError },
    /// The manager was shut down.
    Closed,
}

impl AudioError {
    /// The text that goes with the error.
    pub open spec fn spec_message(self) -> &'static str {
        match self {
            AudioError::ChannelReservationFailed => "\n[MAINT] FATAL: Failed to reserve audio channels!",
            AudioError::WorkerStartupFailed => "\n[MAINT] FATAL: Failed to create or start threads!",
            AudioError::NoAvailableChannel => "\n[MAINT] ERROR: No available channels!",
            AudioError::SubmissionFailed => "\n[AUDIOC] FATAL: Failed to output audio!",
        }
    }

    /// The text that goes with the error.
    pub fn message(&self) -> (text: &'static str)
        ensures
            text == self.spec_message(),
    {
        match self {
            AudioError::ChannelReservationFailed => "\n[MAINT] FATAL: Failed to reserve audio channels!",
            AudioError::WorkerStartupFailed => "\n[MAINT] FATAL: Failed to create or start threads!",
            AudioError::NoAvailableChannel => "\n[MAINT] ERROR: No available channels!",
            AudioError::SubmissionFailed => "\n[AUDIOC] FATAL: Failed to output audio!",
        }
    }
}

impl Channel {
    /// A channel can take a clip when it is free and its worker exists.
    pub open spec fn spec_is_available(self) -> bool {
        self.assignment is None && self.worker is Some
    }

    /// The volumes lie in the device's range, a worker has a handle to work
    /// with, and the progress fits the assignment: a free channel is idle,
    /// and an outstanding chunk lies inside the clip at a chunk boundary.
    pub open spec fn spec_consistent(self, chunk: nat) -> bool {
        &&& 0 <= self.volume_left <= 0x8000
        &&& 0 <= self.volume_right <= 0x8000
        &&& self.worker is Some ==> self.handle is Some
        &&& match self.assignment {
            None => self.progress == Progress::Idle,
            Some(clip) => match self.progress {
                Progress::Idle => true,
                Progress::Submitting { position } => {
                    &&& position + chunk < clip@.len()
                    &&& position as nat % chunk == 0
                },
                Progress::Pacing { position } => {
                    &&& chunk <= position < clip@.len()
                    &&& position as nat % chunk == 0
                },
            },
        }
    }

    /// An unreserved channel at full volume.
    pub fn unreserved() -> (channel: Channel)
        ensures
            channel == (Channel {
                handle: None,
                worker: None,
                volume_left: 0x8000,
                volume_right: 0x8000,
                assignment: None,
                progress: Progress::Idle,
            }),
    {
        Channel {
            handle: None,
            worker: None,
            volume_left: 0x8000,
            volume_right: 0x8000,
            assignment: None,
            progress: Progress::Idle,
        }
    }
}

} // verus!
