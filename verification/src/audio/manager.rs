//! The audio manager: owner of the channel table.

use vstd::prelude::*;
use crate::audio::channel::{
    AudioError, Channel, DeviceCall, Phase, Progress, StartupAction, WorkerAction,
};
use crate::audio::chunking::{spec_valid_capacity, AUDIO_VOLUME_MAX};
use crate::audio::model::{spec_release_calls, spec_stop_calls, spec_torn_down, ManagerView};
use crate::audio::worker::channel_step;

verus! {

/// Owner of the channel table. It reserves the channels, starts and stops
/// the workers, hands free channels out and tells each worker its next move.
pub struct AudioManager {
    channels: Vec<Channel>,
    chunk_capacity: usize,
    phase: Phase,
}

impl View for AudioManager {
    type V = ManagerView;

    closed spec fn view(&self) -> ManagerView {
        ManagerView {
            channels: self.channels@,
            chunk_capacity: self.chunk_capacity,
            phase: self.phase,
        }
    }
}

impl AudioManager {
    /// A manager for `channel_count` channels that streams in chunks of
    /// `chunk_capacity` samples. Nothing is reserved yet: `startup_step`
    /// brings the manager up.
    pub fn init(channel_count: usize, chunk_capacity: usize) -> (manager: AudioManager)
        requires
            channel_count <= i32::MAX,
            spec_valid_capacity(chunk_capacity),
        ensures
            manager@.wf(),
            manager@.phase == Phase::Created,
            manager@.chunk_capacity == chunk_capacity,
            manager@.channels.len() == channel_count,
            forall|i: int| 0 <= i < channel_count ==> (#[trigger] manager@.channels[i]) == (Channel {
                handle: None,
                worker: None,
                volume_left: 0x8000,
                volume_right: 0x8000,
                assignment: None,
                progress: Progress::Idle,
            }),
    {
        let mut channels: Vec<Channel> = Vec::new();
        let mut i: usize = 0;
        while i < channel_count
            invariant
                i <= channel_count,
                channels@.len() == i,
                forall|j: int| 0 <= j < i ==> (#[trigger] channels@[j]) == (Channel {
                    handle: None,
                    worker: None,
                    volume_left: 0x8000,
                    volume_right: 0x8000,
                    assignment: None,
                    progress: Progress::Idle,
                }),
            decreases channel_count - i,
        {
            channels.push(Channel::unreserved());
            i += 1;
        }
        AudioManager { channels, chunk_capacity, phase: Phase::Created }
    }
    /// Number of channels in the table.
    pub fn channel_count(&self) -> (count: usize)
        ensures
            count == self@.channels.len(),
    {
        self.channels.len()
    }

    /// Where the manager stands in its life.
    pub fn phase(&self) -> (phase: Phase)
        ensures
            phase == self@.phase,
    {
        self.phase
    }

    /// Number of channels that hold a clip.
    pub fn busy_count(&self) -> (busy: usize)
        ensures
            busy == self@.busy_count(),
            busy <= self@.channels.len(),
    {
        let mut busy: usize = 0;
        let mut i: usize = 0;
        while i < self.channels.len()
            invariant
                i <= self.channels@.len(),
                busy <= i,
                busy == self@.busy_among(i as nat),
            decreases self.channels@.len() - i,
        {
            let entry: Channel = self.channels[i];
            if entry.assignment.is_some() {
                busy += 1;
            }
            i += 1;
        }
        busy
    }

    /// The table entry of channel `channel`, if there is one.
    pub fn channel(&self, channel: usize) -> (entry: Option<Channel>)
        ensures
            channel < self@.channels.len() ==> entry == Some(self@.channels[channel as int]),
            channel >= self@.channels.len() ==> entry is None,
    {
        if channel < self.channels.len() {
            Some(self.channels[channel])
        } else {
            None
        }
    }

    /// The first channel, in index order, that is free and has a worker.
    pub fn get_available_channel(&self) -> (found: Option<i32>)
        requires
            self@.wf(),
        ensures
            self@.first_available(found),
    {
        let mut i: usize = 0;
        while i < self.channels.len()
            invariant
                self@.wf(),
                i <= self.channels@.len() <= i32::MAX,
                forall|j: int| 0 <= j < i ==> !(#[trigger] self.channels@[j]).spec_is_available(),
            decreases self.channels@.len() - i,
        {
            let ch: Channel = self.channels[i];
            if ch.assignment.is_none() && ch.worker.is_some() {
                return Some(i as i32);
            }
            i += 1;
        }
        None
    }

    /// Finds the first available channel and assigns `clip` to it, in one
    /// step. Returns the channel, or `None` with nothing changed where no
    /// channel is available.
    pub fn assign_clip(&mut self, clip: &'static [u8]) -> (claimed: Option<i32>)
        requires
            old(self)@.wf(),
        ensures
            final(self)@.wf(),
            old(self)@.first_available(claimed),
            claimed is None ==> final(self)@ == old(self)@,
            claimed is Some ==> final(self)@ == old(self)@.assign(claimed.unwrap() as int, clip),
    {
        match self.get_available_channel() {
            None => None,
            Some(c) => {
                let index: usize = c as usize;
                let entry: Channel = self.channels[index];
                self.channels.set(
                    index,
                    Channel { assignment: Some(clip), progress: Progress::Idle, ..entry },
                );
                Some(c)
            },
        }
    }

    /// The channel served by the worker with identity `worker`.
    pub fn find_worker_channel(&self, worker: i32) -> (found: Option<usize>)
        ensures
            self@.serves(worker, found),
    {
        let mut found: Option<usize> = None;
        let mut i: usize = 0;
        while i < self.channels.len()
            invariant
                i <= self.channels@.len(),
                match found {
                    Some(c) => {
                        &&& c < i
                        &&& self.channels@[c as int].worker == Some(worker)
                        &&& forall|j: int| c < j < i ==> (#[trigger] self.channels@[j]).worker != Some(worker)
                    },
                    None => forall|j: int| 0 <= j < i ==> (#[trigger] self.channels@[j]).worker != Some(worker),
                },
            decreases self.channels@.len() - i,
        {
            let ch: Channel = self.channels[i];
            match ch.worker {
                Some(w) => {
                    if w == worker {
                        found = Some(i);
                    }
                },
                None => {},
            }
            i += 1;
        }
        found
    }
    /// One move of the worker that serves channel `channel`. `reply` is what
    /// the device answered to the worker's previous action (anything where
    /// that action was no device call). The worker streams the assigned clip
    /// chunk by chunk, waits while the device reports a negative queue
    /// length, and frees the channel with the declaration of the clip's tail.
    pub fn worker_step(&mut self, channel: usize, reply: i32) -> (action: WorkerAction)
        requires
            old(self)@.wf(),
        ensures
            final(self)@.wf(),
            (final(self)@, action) == old(self)@.worker_step(channel as int, reply),
            final(self)@.channels.len() == old(self)@.channels.len(),
            forall|j: int|
                0 <= j < old(self)@.channels.len() && j != channel ==> (
                #[trigger] final(self)@.channels[j]) == old(self)@.channels[j],
            action matches WorkerAction::Submit { clip, offset, .. } ==> {
                &&& channel < old(self)@.channels.len()
                &&& old(self)@.channels[channel as int].assignment == Some(clip)
                &&& offset + old(self)@.chunk() < clip@.len()
            },
    {
        if channel >= self.channels.len() {
            return WorkerAction::Exit;
        }
        let entry: Channel = self.channels[channel];
        let stopped: bool = match self.phase {
            Phase::Failed { .. } => true,
            Phase::Closed => true,
            _ => false,
        };
        let (next, action) = channel_step(entry, self.chunk_capacity, stopped, reply);
        self.channels.set(channel, next);
        proof {
            let expected = old(self)@.worker_step(channel as int, reply).0;
            assert(self@.channels =~= expected.channels);
        }
        action
    }
    /// Forgets every worker and, if `release` is set, every handle, and
    /// returns the calls that stop and release them.
    fn teardown(&mut self, release: bool) -> (calls: Vec<DeviceCall>)
        ensures
            calls@ == old(self)@.teardown_calls(release),
            final(self)@ == (ManagerView {
                channels: spec_torn_down(old(self)@.channels, release),
                ..old(self)@
            }),
    {
        let mut calls: Vec<DeviceCall> = Vec::new();
        let count: usize = self.channels.len();
        let mut i: usize = 0;
        while i < count
            invariant
                i <= count,
                count == old(self).channels@.len(),
                self.channels@.len() == count,
                self.chunk_capacity == old(self).chunk_capacity,
                self.phase == old(self).phase,
                calls@ == spec_stop_calls(old(self).channels@, i as nat),
                forall|j: int| 0 <= j < i ==> (#[trigger] self.channels@[j]) == (Channel {
                    worker: None,
                    ..old(self).channels@[j]
                }),
                forall|j: int| i <= j < count ==> (#[trigger] self.channels@[j]) == old(self).channels@[j],
            decreases count - i,
        {
            let entry: Channel = self.channels[i];
            match entry.worker {
                Some(worker) => {
                    calls.push(DeviceCall::StopWorker { worker });
                    self.channels.set(i, Channel { worker: None, ..entry });
                },
                None => {},
            }
            i += 1;
        }
        let ghost stops = calls@;
        if release {
            let mut k: usize = 0;
            while k < count
                invariant
                    k <= count,
                    count == old(self).channels@.len(),
                    self.channels@.len() == count,
                    self.chunk_capacity == old(self).chunk_capacity,
                    self.phase == old(self).phase,
                        calls@ == stops + spec_release_calls(old(self).channels@, k as nat),
                    forall|j: int| 0 <= j < k ==> (#[trigger] self.channels@[j]) == (Channel {
                        worker: None,
                        handle: None,
                        ..old(self).channels@[j]
                    }),
                    forall|j: int| k <= j < count ==> (#[trigger] self.channels@[j]) == (Channel {
                        worker: None,
                        ..old(self).channels@[j]
                    }),
                decreases count - k,
            {
                let entry: Channel = self.channels[k];
                match entry.handle {
                    Some(handle) => {
                        calls.push(DeviceCall::Release { handle });
                        self.channels.set(k, Channel { handle: None, ..entry });
                        assert(calls@ =~= stops + spec_release_calls(
                            old(self).channels@,
                            (k + 1) as nat,
                        ));
                    },
                    None => {},
                }
                k += 1;
            }
        } else {
            assert(calls@ =~= stops + Seq::<DeviceCall>::empty());
        }
        assert(self.channels@ =~= spec_torn_down(old(self).channels@, release));
        calls
    }

    /// Shuts the manager down and returns the calls that carry it out, in
    /// order: every worker is stopped, then every reserved handle is
    /// released. Each worker finds itself struck from the table and leaves
    /// its loop at its next step. Calling it again returns no call.
    pub fn end(&mut self) -> (calls: Vec<DeviceCall>)
        requires
            old(self)@.wf(),
        ensures
            final(self)@.wf(),
            final(self)@ == old(self)@.end(),
            calls@ == old(self)@.teardown_calls(true),
    {
        let calls: Vec<DeviceCall> = self.teardown(true);
        self.phase = Phase::Closed;
        calls
    }

    /// Start-up failed: undoes what was done and remembers the error.
    fn abort(&mut self, error: AudioError) -> (action: StartupAction)
        requires
            old(self)@.wf(),
        ensures
            final(self)@.wf(),
            (final(self)@, action@) == old(self)@.abort(error),
    {
        let release: bool = match error {
            AudioError::ChannelReservationFailed => true,
            _ => false,
        };
        let cleanup: Vec<DeviceCall> = self.teardown(release);
        self.phase = Phase::Failed { error };
        StartupAction::Failed { error, cleanup }
    }

    /// Asks for the worker of channel `index`, or reports readiness when
    /// every channel has one.
    fn enter_creating(&mut self, index: usize) -> (action: StartupAction)
        requires
            old(self)@.wf(),
            old(self)@.all_reserved(),
            index <= old(self)@.channels.len(),
            old(self)@.served_below(index as int),
        ensures
            final(self)@.wf(),
            (final(self)@, action@) == old(self)@.enter_creating(index as int),
    {
        if index < self.channels.len() {
            self.phase = Phase::Creating { index };
            StartupAction::Call(DeviceCall::CreateWorker { channel: index as i32 })
        } else {
            self.phase = Phase::Running;
            StartupAction::Ready
        }
    }

    /// Asks for the reservation of channel `index`, or goes on to the
    /// workers when every channel is reserved.
    fn enter_reserving(&mut self, index: usize) -> (action: StartupAction)
        requires
            old(self)@.wf(),
            index <= old(self)@.channels.len(),
            old(self)@.reserved_below(index as int),
        ensures
            final(self)@.wf(),
            (final(self)@, action@) == old(self)@.enter_reserving(index as int),
    {
        if index < self.channels.len() {
            self.phase = Phase::Reserving { index };
            StartupAction::Call(
                DeviceCall::Reserve {
                    channel: index as i32,
                    sample_count: self.chunk_capacity as i32,
                },
            )
        } else {
            self.enter_creating(0)
        }
    }

    /// One step of bringing the manager up. `reply` is what the device or
    /// the scheduler answered to the call that the previous step asked for
    /// (anything on the first step). Channels are reserved in index order,
    /// then each worker is created and started. The first failure ends
    /// start-up: the workers made so far are stopped and, where a
    /// reservation failed, the handles obtained so far are released.
    pub fn startup_step(&mut self, reply: i32) -> (action: StartupAction)
        requires
            old(self)@.wf(),
        ensures
            final(self)@.wf(),
            (final(self)@, action@) == old(self)@.startup_step(reply),
            action is Ready ==> final(self)@.phase == Phase::Running && final(self)@.all_reserved()
                && final(self)@.all_served(),
    {
        match self.phase {
            Phase::Created => self.enter_reserving(0),
            Phase::Reserving { index } => {
                if reply < 0 {
                    self.abort(AudioError::ChannelReservationFailed)
                } else {
                    let entry: Channel = self.channels[index];
                    self.channels.set(index, Channel { handle: Some(reply), ..entry });
                    self.enter_reserving(index + 1)
                }
            },
            Phase::Creating { index } => {
                if reply < 0 {
                    self.abort(AudioError::WorkerStartupFailed)
                } else {
                    let entry: Channel = self.channels[index];
                    self.channels.set(index, Channel { worker: Some(reply), ..entry });
                    self.phase = Phase::Starting { index };
                    StartupAction::Call(DeviceCall::StartWorker { worker: reply })
                }
            },
            Phase::Starting { index } => {
                if reply != 0 {
                    self.abort(AudioError::WorkerStartupFailed)
                } else {
                    self.enter_creating(index + 1)
                }
            },
            Phase::Running => StartupAction::Ready,
            Phase::Failed { error } => StartupAction::Failed { error, cleanup: Vec::new() },
            Phase::Closed => StartupAction::Closed,
        }
    }
    /// Stops playback on channel `channel` at once: the clip is taken away,
    /// so the worker is idle at its next step and the rest of the clip is
    /// never submitted. Returns the call that silences the device, or `None`
    /// with nothing changed where the channel was not playing.
    pub fn stop_channel(&mut self, channel: usize) -> (call: Option<DeviceCall>)
        requires
            old(self)@.wf(),
        ensures
            final(self)@.wf(),
            (final(self)@, call) == old(self)@.stop_channel(channel as int),
    {
        if channel >= self.channels.len() {
            return None;
        }
        let entry: Channel = self.channels[channel];
        if entry.assignment.is_none() {
            return None;
        }
        self.channels.set(
            channel,
            Channel { assignment: None, progress: Progress::Idle, ..entry },
        );
        proof {
            assert(self@.channels =~= old(self)@.clear(channel as int).channels);
        }
        match entry.handle {
            Some(handle) => Some(DeviceCall::Silence { handle }),
            None => None,
        }
    }
    /// Sets the left and right volume of channel `channel`, each between
    /// zero and the device's maximum. The worker uses them from its next
    /// submission on. Returns `false` with nothing changed where there is
    /// no such channel or a volume is out of range.
    pub fn set_volume(&mut self, channel: usize, left: i32, right: i32) -> (taken: bool)
        requires
            old(self)@.wf(),
        ensures
            final(self)@.wf(),
            (final(self)@, taken) == old(self)@.set_volume(channel as int, left, right),
    {
        if channel >= self.channels.len() || left < 0 || left > AUDIO_VOLUME_MAX || right < 0
            || right > AUDIO_VOLUME_MAX {
            return false;
        }
        let entry: Channel = self.channels[channel];
        self.channels.set(channel, Channel { volume_left: left, volume_right: right, ..entry });
        proof {
            let expected = old(self)@.set_volume(channel as int, left, right).0;
            assert(self@.channels =~= expected.channels);
        }
        true
    }
}

} // verus!
