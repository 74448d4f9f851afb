//! The audio manager as contracts see it: the channel table as a sequence,
//! and each operation as a function from one table to the next.

use vstd::prelude::*;
use crate::audio::channel::{
    AudioError, Channel, DeviceCall, Phase, Progress, StartupView, WorkerAction,
};
use crate::audio::chunking::spec_valid_capacity;
use crate::audio::worker::spec_channel_step;

verus! {

/// The manager as contracts see it.
pub struct ManagerView {
    pub channels: Seq<Channel>,
    pub chunk_capacity: usize,
    pub phase: Phase,
}

impl ManagerView {
    /// Bytes in one full chunk.
    pub open spec fn chunk(self) -> nat {
        (self.chunk_capacity * 4) as nat
    }

    /// Every channel holds a device handle.
    pub open spec fn all_reserved(self) -> bool {
        forall|i: int| 0 <= i < self.channels.len() ==> (#[trigger] self.channels[i]).handle is Some
    }

    /// Every channel has a worker.
    pub open spec fn all_served(self) -> bool {
        forall|i: int| 0 <= i < self.channels.len() ==> (#[trigger] self.channels[i]).worker is Some
    }

    /// What always holds of a manager: the table fits the device's limits,
    /// each entry is consistent, the phase tells the truth about what has
    /// been reserved and started, and once the manager has stopped no
    /// worker is left in the table.
    pub open spec fn wf(self) -> bool {
        &&& spec_valid_capacity(self.chunk_capacity)
        &&& self.channels.len() <= i32::MAX
        &&& forall|i: int|
            0 <= i < self.channels.len() ==> (#[trigger] self.channels[i]).spec_consistent(
                self.chunk(),
            )
        &&& match self.phase {
            Phase::Reserving { index } => index < self.channels.len() && self.reserved_below(
                index as int,
            ),
            Phase::Creating { index } => index < self.channels.len() && self.all_reserved()
                && self.served_below(index as int),
            Phase::Starting { index } => index < self.channels.len() && self.all_reserved()
                && self.served_below(index + 1),
            Phase::Running => self.all_reserved() && self.all_served(),
            _ => true,
        }
        &&& self.stopped() ==> self.none_served()
    }

    /// The stop flag: it is up once start-up has failed or the manager was
    /// shut down, and stays up.
    pub open spec fn stopped(self) -> bool {
        self.phase is Failed || self.phase is Closed
    }

    /// No channel has a worker.
    pub open spec fn none_served(self) -> bool {
        forall|i: int| 0 <= i < self.channels.len() ==> (#[trigger] self.channels[i]).worker is None
    }

    /// Every channel before `n` holds a device handle.
    pub open spec fn reserved_below(self, n: int) -> bool {
        forall|i: int| 0 <= i < n && i < self.channels.len() ==> (#[trigger] self.channels[i]).handle is Some
    }

    /// Every channel before `n` has a worker.
    pub open spec fn served_below(self, n: int) -> bool {
        forall|i: int| 0 <= i < n && i < self.channels.len() ==> (#[trigger] self.channels[i]).worker is Some
    }

    /// The manager once the reservation of channel `i` is the next thing
    /// to do, and what it asks for.
    pub open spec fn enter_reserving(self, i: int) -> (ManagerView, StartupView) {
        if i < self.channels.len() {
            (
                ManagerView { phase: Phase::Reserving { index: i as usize }, ..self },
                StartupView::Call(
                    DeviceCall::Reserve {
                        channel: i as i32,
                        sample_count: self.chunk_capacity as i32,
                    },
                ),
            )
        } else {
            self.enter_creating(0)
        }
    }

    /// The manager once the creation of the worker of channel `i` is the
    /// next thing to do, and what it asks for.
    pub open spec fn enter_creating(self, i: int) -> (ManagerView, StartupView) {
        if i < self.channels.len() {
            (
                ManagerView { phase: Phase::Creating { index: i as usize }, ..self },
                StartupView::Call(DeviceCall::CreateWorker { channel: i as i32 }),
            )
        } else {
            (ManagerView { phase: Phase::Running, ..self }, StartupView::Ready)
        }
    }

    /// The calls that undo what the table records: every worker is stopped,
    /// in index order, and then, if `release` is set, every handle released.
    pub open spec fn teardown_calls(self, release: bool) -> Seq<DeviceCall> {
        spec_stop_calls(self.channels, self.channels.len()) + if release {
            spec_release_calls(self.channels, self.channels.len())
        } else {
            Seq::empty()
        }
    }

    /// The manager after start-up has failed with `error`. Workers are
    /// stopped in either case; the channels are released only where a
    /// reservation failed.
    pub open spec fn abort(self, error: AudioError) -> (ManagerView, StartupView) {
        let release = error == AudioError::ChannelReservationFailed;
        (
            ManagerView {
                channels: spec_torn_down(self.channels, release),
                phase: Phase::Failed { error },
                ..self
            },
            StartupView::Failed { error, cleanup: self.teardown_calls(release) },
        )
    }

    /// The manager after shutdown.
    pub open spec fn end(self) -> ManagerView {
        ManagerView {
            channels: spec_torn_down(self.channels, true),
            phase: Phase::Closed,
            ..self
        }
    }

    /// The manager with the reply to the outstanding reservation or worker
    /// creation written to channel `i`.
    pub open spec fn record(self, i: int, reply: i32) -> ManagerView {
        match self.phase {
            Phase::Reserving { .. } => ManagerView {
                channels: self.channels.update(
                    i,
                    Channel { handle: Some(reply), ..self.channels[i] },
                ),
                ..self
            },
            _ => ManagerView {
                channels: self.channels.update(
                    i,
                    Channel { worker: Some(reply), ..self.channels[i] },
                ),
                ..self
            },
        }
    }

    /// One step of start-up: the manager afterwards and what it asks for,
    /// given the reply to the call that the previous step asked for.
    pub open spec fn startup_step(self, reply: i32) -> (ManagerView, StartupView) {
        match self.phase {
            Phase::Created => self.enter_reserving(0),
            Phase::Reserving { index } => if reply < 0 {
                self.abort(AudioError::ChannelReservationFailed)
            } else {
                self.record(index as int, reply).enter_reserving(index + 1)
            },
            Phase::Creating { index } => if reply < 0 {
                self.abort(AudioError::WorkerStartupFailed)
            } else {
                (
                    ManagerView {
                        phase: Phase::Starting { index },
                        ..self.record(index as int, reply)
                    },
                    StartupView::Call(DeviceCall::StartWorker { worker: reply }),
                )
            },
            Phase::Starting { index } => if reply != 0 {
                self.abort(AudioError::WorkerStartupFailed)
            } else {
                self.enter_creating(index + 1)
            },
            Phase::Running => (self, StartupView::Ready),
            Phase::Failed { error } => (self, StartupView::Failed { error, cleanup: Seq::empty() }),
            Phase::Closed => (self, StartupView::Closed),
        }
    }
}

/// The calls that stop the workers of the first `n` channels, in index order.
pub open spec fn spec_stop_calls(channels: Seq<Channel>, n: nat) -> Seq<DeviceCall>
    decreases n,
{
    if n == 0 || n > channels.len() {
        Seq::empty()
    } else {
        match channels[n - 1].worker {
            Some(worker) => spec_stop_calls(channels, (n - 1) as nat).push(
                DeviceCall::StopWorker { worker },
            ),
            None => spec_stop_calls(channels, (n - 1) as nat),
        }
    }
}

/// The calls that release the handles of the first `n` channels, in index
/// order.
pub open spec fn spec_release_calls(channels: Seq<Channel>, n: nat) -> Seq<DeviceCall>
    decreases n,
{
    if n == 0 || n > channels.len() {
        Seq::empty()
    } else {
        match channels[n - 1].handle {
            Some(handle) => spec_release_calls(channels, (n - 1) as nat).push(
                DeviceCall::Release { handle },
            ),
            None => spec_release_calls(channels, (n - 1) as nat),
        }
    }
}

/// The table with every worker forgotten and, if `release` is set, every
/// handle too. Assignments stay as they are.
pub open spec fn spec_torn_down(channels: Seq<Channel>, release: bool) -> Seq<Channel> {
    Seq::new(
        channels.len(),
        |i: int|
            Channel {
                worker: None,
                handle: if release {
                    None
                } else {
                    channels[i].handle
                },
                ..channels[i]
            },
    )
}

impl ManagerView {
    /// `result` is the first channel, in index order, that is free and has a
    /// worker; or `None` where there is no such channel.
    pub open spec fn first_available(self, result: Option<i32>) -> bool {
        match result {
            Some(c) => {
                &&& 0 <= c < self.channels.len()
                &&& self.channels[c as int].spec_is_available()
                &&& forall|j: int| 0 <= j < c ==> !(#[trigger] self.channels[j]).spec_is_available()
            },
            None => forall|j: int|
                0 <= j < self.channels.len() ==> !(#[trigger] self.channels[j]).spec_is_available(),
        }
    }

    /// Number of channels among the first `n` that hold a clip.
    pub open spec fn busy_among(self, n: nat) -> nat
        decreases n,
    {
        if n == 0 || n > self.channels.len() {
            0
        } else if self.channels[n - 1].assignment is Some {
            self.busy_among((n - 1) as nat) + 1
        } else {
            self.busy_among((n - 1) as nat)
        }
    }

    /// Number of channels that hold a clip.
    pub open spec fn busy_count(self) -> nat {
        self.busy_among(self.channels.len())
    }

    /// The manager with `clip` assigned to channel `c`.
    pub open spec fn assign(self, c: int, clip: &'static [u8]) -> ManagerView {
        ManagerView {
            channels: self.channels.update(
                c,
                Channel { assignment: Some(clip), progress: Progress::Idle, ..self.channels[c] },
            ),
            ..self
        }
    }

    /// The manager with the clip of channel `c` taken away.
    pub open spec fn clear(self, c: int) -> ManagerView {
        ManagerView {
            channels: self.channels.update(
                c,
                Channel { assignment: None, progress: Progress::Idle, ..self.channels[c] },
            ),
            ..self
        }
    }

    /// Setting the volumes of channel `c`: the manager afterwards, and
    /// whether the volumes were taken.
    pub open spec fn set_volume(self, c: int, left: i32, right: i32) -> (ManagerView, bool) {
        if 0 <= c < self.channels.len() && 0 <= left <= 0x8000 && 0 <= right <= 0x8000 {
            (
                ManagerView {
                    channels: self.channels.update(
                        c,
                        Channel { volume_left: left, volume_right: right, ..self.channels[c] },
                    ),
                    ..self
                },
                true,
            )
        } else {
            (self, false)
        }
    }

    /// Stopping playback on channel `c`: the manager afterwards and the call
    /// that silences the device, where the channel was busy and reserved.
    pub open spec fn stop_channel(self, c: int) -> (ManagerView, Option<DeviceCall>) {
        if 0 <= c < self.channels.len() && self.channels[c].assignment is Some {
            (
                self.clear(c),
                match self.channels[c].handle {
                    Some(handle) => Some(DeviceCall::Silence { handle }),
                    None => None,
                },
            )
        } else {
            (self, None)
        }
    }

    /// One move of the worker of channel `c`: the manager afterwards and
    /// the worker's next action.
    pub open spec fn worker_step(self, c: int, reply: i32) -> (ManagerView, WorkerAction) {
        if 0 <= c < self.channels.len() {
            let (ch, action) = spec_channel_step(
                self.channels[c],
                self.chunk_capacity,
                self.stopped(),
                reply,
            );
            (ManagerView { channels: self.channels.update(c, ch), ..self }, action)
        } else {
            (self, WorkerAction::Exit)
        }
    }

    /// The channel that the worker with identity `worker` serves: the last
    /// one, in index order, that records it.
    pub open spec fn serves(self, worker: i32, result: Option<usize>) -> bool {
        match result {
            Some(c) => {
                &&& c < self.channels.len()
                &&& self.channels[c as int].worker == Some(worker)
                &&& forall|j: int|
                    c < j < self.channels.len() ==> (#[trigger] self.channels[j]).worker != Some(
                        worker,
                    )
            },
            None => forall|j: int|
                0 <= j < self.channels.len() ==> (#[trigger] self.channels[j]).worker != Some(
                    worker,
                ),
        }
    }
}

} // verus!
