//! A handle on one PCM clip that can be played on a free channel.

use vstd::prelude::*;
use crate::audio::channel::{AudioError, DeviceCall};
use crate::audio::chunking::AUDIO_VOLUME_MAX;
use crate::audio::manager::AudioManager;

verus! {

/// One clip of interleaved 16-bit stereo PCM with its own volume. A sound
/// owns no channel: it remembers the one it was last played on.
pub struct Sound<const N: usize> {
    clip: &'static [u8; N],
    volume_left: i32,
    volume_right: i32,
    channel: i32,
}

/// A sound as contracts see it.
pub struct SoundView {
    pub clip: Seq<u8>,
    pub volume_left: i32,
    pub volume_right: i32,
    /// The channel last played on, `-1` if none.
    pub channel: i32,
}

impl<const N: usize> View for Sound<N> {
    type V = SoundView;

    closed spec fn view(&self) -> SoundView {
        SoundView {
            clip: self.clip@,
            volume_left: self.volume_left,
            volume_right: self.volume_right,
            channel: self.channel,
        }
    }
}

impl<const N: usize> Sound<N> {
    /// The clip as the slice that is assigned to a channel.
    pub closed spec fn spec_clip(&self) -> &'static [u8] {
        vstd::array::spec_array_as_slice(self.clip)
    }

    /// The assigned slice holds the clip's bytes.
    pub proof fn lemma_spec_clip(&self)
        ensures
            self.spec_clip()@ == self@.clip,
            self@.clip.len() == N,
    {
        vstd::array::axiom_spec_array_as_slice(self.clip);
        vstd::array::array_len_matches_n(self.clip);
    }

    /// A sound at full volume that has not been played.
    pub fn new(clip: &'static [u8; N]) -> (sound: Sound<N>)
        ensures
            sound@ == (SoundView {
                clip: clip@,
                volume_left: AUDIO_VOLUME_MAX,
                volume_right: AUDIO_VOLUME_MAX,
                channel: -1i32,
            }),
    {
        Sound { clip, volume_left: AUDIO_VOLUME_MAX, volume_right: AUDIO_VOLUME_MAX, channel: -1i32 }
    }

    /// The sound's own left volume.
    pub fn volume_left(&self) -> (volume: i32)
        ensures
            volume == self@.volume_left,
    {
        self.volume_left
    }

    /// The sound's own right volume.
    pub fn volume_right(&self) -> (volume: i32)
        ensures
            volume == self@.volume_right,
    {
        self.volume_right
    }

    /// The channel that the sound was last played on, `-1` if none.
    pub fn channel(&self) -> (channel: i32)
        ensures
            channel == self@.channel,
    {
        self.channel
    }

    /// Plays the sound on the first available channel and returns that
    /// channel. The search and the assignment are one step on the
    /// exclusively borrowed manager. Where no channel is available, fails
    /// with `NoAvailableChannel` and changes nothing. The call does not
    /// wait: the channel's worker streams the clip from its next step on.
    pub fn play(&mut self, audio_manager: &mut AudioManager) -> (played: Result<i32, AudioError>)
        requires
            old(audio_manager)@.wf(),
        ensures
            final(audio_manager)@.wf(),
            final(self).spec_clip() == old(self).spec_clip(),
            match played {
                Ok(channel) => {
                    &&& old(audio_manager)@.first_available(Some(channel))
                    &&& final(audio_manager)@ == old(audio_manager)@.assign(
                        channel as int,
                        old(self).spec_clip(),
                    )
                    &&& final(self)@ == (SoundView { channel, ..old(self)@ })
                },
                Err(error) => {
                    &&& error == AudioError::NoAvailableChannel
                    &&& old(audio_manager)@.first_available(None)
                    &&& final(audio_manager)@ == old(audio_manager)@
                    &&& final(self)@ == old(self)@
                },
            },
    {
        let clip: &'static [u8] = self.clip;
        match audio_manager.assign_clip(clip) {
            Some(channel) => {
                self.channel = channel;
                Ok(channel)
            },
            None => Err(AudioError::NoAvailableChannel),
        }
    }

    /// Stops what plays on the channel that the sound was last played on,
    /// without waiting for the clip to end, and forgets that channel.
    /// Returns the call that silences the device, or `None` with the manager
    /// unchanged where the sound has no channel or the channel is idle.
    pub fn stop(&mut self, audio_manager: &mut AudioManager) -> (call: Option<DeviceCall>)
        requires
            old(audio_manager)@.wf(),
        ensures
            final(audio_manager)@.wf(),
            final(self).spec_clip() == old(self).spec_clip(),
            final(self)@ == (SoundView { channel: -1i32, ..old(self)@ }),
            old(self)@.channel >= 0 ==> (final(audio_manager)@, call) == old(
                audio_manager,
            )@.stop_channel(old(self)@.channel as int),
            old(self)@.channel < 0 ==> final(audio_manager)@ == old(audio_manager)@ && call is None,
    {
        let channel: i32 = self.channel;
        self.channel = -1;
        if channel < 0 {
            None
        } else {
            audio_manager.stop_channel(channel as usize)
        }
    }
}

} // verus!
