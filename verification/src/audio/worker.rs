//! The streaming loop of a channel's worker, one move at a time.

use vstd::prelude::*;
use crate::audio::channel::{AudioError, Channel, Progress, WorkerAction};
use crate::audio::chunking::{
    chunk_bytes, remainder_samples, spec_remainder_samples, spec_valid_capacity,
};

verus! {

/// The channel after its clip is finished, and the declaration of the
/// clip's tail that goes with it.
pub open spec fn spec_finish(
    ch: Channel,
    chunk_capacity: usize,
    handle: i32,
    error: Option<AudioError>,
) -> (Channel, WorkerAction) {
    (
        Channel { assignment: None, progress: Progress::Idle, ..ch },
        WorkerAction::DeclareLength {
            handle,
            samples: spec_remainder_samples(
                ch.assignment.unwrap()@.len(),
                chunk_capacity as nat,
            ) as i32,
            error,
        },
    )
}

/// The move of a worker that stands at `position` with nothing outstanding:
/// submit the chunk there if a full chunk and more is left, else finish.
pub open spec fn spec_consider(
    ch: Channel,
    chunk_capacity: usize,
    handle: i32,
    position: usize,
) -> (Channel, WorkerAction) {
    if position + chunk_capacity * 4 < ch.assignment.unwrap()@.len() {
        (
            Channel { progress: Progress::Submitting { position }, ..ch },
            WorkerAction::Submit {
                handle,
                volume_left: ch.volume_left,
                volume_right: ch.volume_right,
                clip: ch.assignment.unwrap(),
                offset: position,
            },
        )
    } else {
        spec_finish(ch, chunk_capacity, handle, None)
    }
}

/// One move of the worker that serves `ch`, given the reply to its last
/// device call: the channel afterwards and the next action.
pub open spec fn spec_channel_step(
    ch: Channel,
    chunk_capacity: usize,
    terminate: bool,
    reply: i32,
) -> (Channel, WorkerAction) {
    if ch.handle is None || ch.worker is None {
        (ch, WorkerAction::Exit)
    } else if ch.assignment is None {
        (
            ch,
            if terminate {
                WorkerAction::Exit
            } else {
                WorkerAction::Yield
            },
        )
    } else {
        let handle = ch.handle.unwrap();
        let len = ch.assignment.unwrap()@.len();
        match ch.progress {
            Progress::Idle => if terminate {
                (ch, WorkerAction::Exit)
            } else {
                spec_consider(ch, chunk_capacity, handle, 0)
            },
            Progress::Submitting { position } => if reply < 0 {
                spec_finish(ch, chunk_capacity, handle, Some(AudioError::SubmissionFailed))
            } else {
                (
                    Channel {
                        progress: Progress::Pacing {
                            position: (position + chunk_capacity * 4) as usize,
                        },
                        ..ch
                    },
                    WorkerAction::QueryRestLength { handle },
                )
            },
            Progress::Pacing { position } => if reply < 0 && position + chunk_capacity * 4 < len {
                (ch, WorkerAction::QueryRestLength { handle })
            } else {
                spec_consider(ch, chunk_capacity, handle, position)
            },
        }
    }
}

/// Frees the channel and declares the tail of its clip.
fn finish(
    ch: Channel,
    clip: &'static [u8],
    chunk_capacity: usize,
    handle: i32,
    error: Option<AudioError>,
) -> (moved: (Channel, WorkerAction))
    requires
        spec_valid_capacity(chunk_capacity),
        ch.assignment == Some(clip),
        ch.spec_consistent((chunk_capacity * 4) as nat),
    ensures
        moved == spec_finish(ch, chunk_capacity, handle, error),
        moved.0.spec_consistent((chunk_capacity * 4) as nat),
{
    let samples: i32 = remainder_samples(clip.len(), chunk_capacity);
    (
        Channel { assignment: None, progress: Progress::Idle, ..ch },
        WorkerAction::DeclareLength { handle, samples, error },
    )
}

/// Submits the chunk at `position` if more than a full chunk is left there,
/// else finishes the clip.
fn consider(
    ch: Channel,
    clip: &'static [u8],
    chunk_capacity: usize,
    handle: i32,
    position: usize,
) -> (moved: (Channel, WorkerAction))
    requires
        spec_valid_capacity(chunk_capacity),
        ch.assignment == Some(clip),
        ch.spec_consistent((chunk_capacity * 4) as nat),
        position <= clip@.len(),
        position as nat % ((chunk_capacity * 4) as nat) == 0,
    ensures
        moved == spec_consider(ch, chunk_capacity, handle, position),
        moved.0.spec_consistent((chunk_capacity * 4) as nat),
{
    let chunk: usize = chunk_bytes(chunk_capacity);
    if clip.len() - position > chunk {
        (
            Channel { progress: Progress::Submitting { position }, ..ch },
            WorkerAction::Submit {
                handle,
                volume_left: ch.volume_left,
                volume_right: ch.volume_right,
                clip,
                offset: position,
            },
        )
    } else {
        finish(ch, clip, chunk_capacity, handle, None)
    }
}

/// One move of the worker that serves `ch`. `reply` is the device's answer
/// to the worker's previous action. The stop flag is looked at between
/// clips only: a clip that was begun is streamed to its end.
pub fn channel_step(
    ch: Channel,
    chunk_capacity: usize,
    terminate: bool,
    reply: i32,
) -> (moved: (Channel, WorkerAction))
    requires
        spec_valid_capacity(chunk_capacity),
        ch.spec_consistent((chunk_capacity * 4) as nat),
    ensures
        moved == spec_channel_step(ch, chunk_capacity, terminate, reply),
        moved.0.spec_consistent((chunk_capacity * 4) as nat),
        moved.0.handle == ch.handle,
        moved.0.worker == ch.worker,
        moved.0.volume_left == ch.volume_left,
        moved.0.volume_right == ch.volume_right,
        moved.0.assignment is Some ==> moved.0.assignment == ch.assignment,
        moved.1 matches WorkerAction::Submit { clip, offset, .. } ==> {
            &&& ch.assignment == Some(clip)
            &&& offset + chunk_capacity * 4 < clip@.len()
        },
{
    let handle: i32 = match (ch.handle, ch.worker) {
        (Some(h), Some(_)) => h,
        _ => {
            return (ch, WorkerAction::Exit);
        },
    };
    let clip: &'static [u8] = match ch.assignment {
        Some(clip) => clip,
        None => {
            if terminate {
                return (ch, WorkerAction::Exit);
            } else {
                return (ch, WorkerAction::Yield);
            }
        },
    };
    let chunk: usize = chunk_bytes(chunk_capacity);
    let len: usize = clip.len();
    match ch.progress {
        Progress::Idle => {
            if terminate {
                (ch, WorkerAction::Exit)
            } else {
                consider(ch, clip, chunk_capacity, handle, 0)
            }
        },
        Progress::Submitting { position } => {
            if reply < 0 {
                finish(ch, clip, chunk_capacity, handle, Some(AudioError::SubmissionFailed))
            } else {
                let next: usize = position + chunk;
                proof {
                    vstd::arithmetic::div_mod::lemma_mod_adds(
                        position as int,
                        chunk as int,
                        chunk as int,
                    );
                }
                (
                    Channel { progress: Progress::Pacing { position: next }, ..ch },
                    WorkerAction::QueryRestLength { handle },
                )
            }
        },
        Progress::Pacing { position } => {
            if reply < 0 && len - position > chunk {
                (ch, WorkerAction::QueryRestLength { handle })
            } else {
                consider(ch, clip, chunk_capacity, handle, position)
            }
        },
    }
}

} // verus!
