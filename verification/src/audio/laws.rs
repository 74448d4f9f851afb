//! What holds of the audio manager across calls.

use vstd::prelude::*;
use crate::audio::channel::{Channel, DeviceCall, Phase, Progress, StartupView, WorkerAction};
use crate::audio::chunking::{
    spec_ceil_chunks, spec_full_chunks, spec_remainder_samples, spec_valid_capacity,
};
use crate::audio::model::{spec_release_calls, spec_stop_calls, spec_torn_down, ManagerView};
use crate::audio::worker::spec_channel_step;

verus! {

/// While the first `k` channels are busy and the others free, with every
/// worker running, the next channel handed out is channel `k`, and nothing
/// else; once all are busy none is handed out. So a manager that has just
/// come up hands its channels out one by one in ascending order, each once.
pub proof fn lemma_channels_claimed_in_order(v: ManagerView, k: int, found: Option<i32>)
    requires
        v.wf(),
        v.all_served(),
        0 <= k <= v.channels.len(),
        forall|i: int|
            0 <= i < v.channels.len() ==> ((#[trigger] v.channels[i]).assignment is Some <==> i
                < k),
    ensures
        v.first_available(found) <==> found == if k < v.channels.len() {
            Some(k as i32)
        } else {
            None::<i32>
        },
{
    if v.first_available(found) {
        match found {
            Some(c) => {
                assert(v.channels[c as int].spec_is_available());
                if k < c {
                    assert(!v.channels[k].spec_is_available());
                }
            },
            None => {
                if k < v.channels.len() {
                    assert(!v.channels[k].spec_is_available());
                }
            },
        }
    }
}

/// Assigning a clip to channel `k` of a table whose first `k` channels are
/// busy gives a table whose first `k + 1` channels are busy.
pub proof fn lemma_claim_extends_busy_prefix(v: ManagerView, k: int, clip: &'static [u8])
    requires
        v.wf(),
        0 <= k < v.channels.len(),
        forall|i: int|
            0 <= i < v.channels.len() ==> ((#[trigger] v.channels[i]).assignment is Some <==> i
                < k),
    ensures
        v.assign(k, clip).wf(),
        v.assign(k, clip).channels.len() == v.channels.len(),
        forall|i: int|
            0 <= i < v.channels.len() ==> ((#[trigger] v.assign(
                k,
                clip,
            ).channels[i]).assignment is Some <==> i < k + 1),
        forall|i: int|
            0 <= i < v.channels.len() ==> (#[trigger] v.assign(k, clip).channels[i]).worker
                == v.channels[i].worker,
{
    let w = v.assign(k, clip);
    assert forall|i: int| 0 <= i < w.channels.len() implies (#[trigger] w.channels[i]).spec_consistent(
        w.chunk(),
    ) by {
        assert(v.channels[i].spec_consistent(v.chunk()));
    }
    assert(w.all_reserved() == v.all_reserved()) by {
        if v.all_reserved() {
            assert forall|i: int| 0 <= i < w.channels.len() implies (#[trigger] w.channels[i]).handle is Some by {
                assert(v.channels[i].handle is Some);
            }
        }
        if w.all_reserved() {
            assert forall|i: int| 0 <= i < v.channels.len() implies (#[trigger] v.channels[i]).handle is Some by {
                assert(w.channels[i].handle is Some);
            }
        }
    }
    assert(w.all_served() == v.all_served()) by {
        if v.all_served() {
            assert forall|i: int| 0 <= i < w.channels.len() implies (#[trigger] w.channels[i]).worker is Some by {
                assert(v.channels[i].worker is Some);
            }
        }
        if w.all_served() {
            assert forall|i: int| 0 <= i < v.channels.len() implies (#[trigger] v.channels[i]).worker is Some by {
                assert(w.channels[i].worker is Some);
            }
        }
    }
    assert forall|n: int| w.reserved_below(n) == v.reserved_below(n) by {
        if v.reserved_below(n) {
            assert forall|i: int| 0 <= i < n && i < w.channels.len() implies (#[trigger] w.channels[i]).handle is Some by {
                assert(v.channels[i].handle is Some);
            }
        }
        if w.reserved_below(n) {
            assert forall|i: int| 0 <= i < n && i < v.channels.len() implies (#[trigger] v.channels[i]).handle is Some by {
                assert(w.channels[i].handle is Some);
            }
        }
    }
    assert forall|n: int| w.served_below(n) == v.served_below(n) by {
        if v.served_below(n) {
            assert forall|i: int| 0 <= i < n && i < w.channels.len() implies (#[trigger] w.channels[i]).worker is Some by {
                assert(v.channels[i].worker is Some);
            }
        }
        if w.served_below(n) {
            assert forall|i: int| 0 <= i < n && i < v.channels.len() implies (#[trigger] v.channels[i]).worker is Some by {
                assert(w.channels[i].worker is Some);
            }
        }
    }
}

/// A channel that was just claimed is not handed out again: whatever the
/// next search finds, it is another channel. Two plays in a row never write
/// the same channel.
pub proof fn lemma_claimed_channel_not_offered_again(
    v: ManagerView,
    c: i32,
    clip: &'static [u8],
    next: Option<i32>,
)
    requires
        v.wf(),
        v.first_available(Some(c)),
        v.assign(c as int, clip).first_available(next),
    ensures
        next != Some(c),
{
    let w = v.assign(c as int, clip);
    assert(w.channels[c as int].assignment is Some);
    if next == Some(c) {
        assert(w.channels[c as int].spec_is_available());
    }
}

/// Never more clips play than there are channels.
pub proof fn lemma_busy_count_bounded(v: ManagerView)
    ensures
        v.busy_count() <= v.channels.len(),
{
    lemma_busy_among_bounded(v, v.channels.len());
}

/// Among the first `n` channels at most `n` are busy.
pub proof fn lemma_busy_among_bounded(v: ManagerView, n: nat)
    ensures
        v.busy_among(n) <= n,
    decreases n,
{
    if n != 0 && n <= v.channels.len() {
        lemma_busy_among_bounded(v, (n - 1) as nat);
    }
}

/// A move of the worker of channel `c` leaves every other channel as it
/// was: no worker clears, or touches, a clip that is not its own.
pub proof fn lemma_worker_touches_own_channel_only(v: ManagerView, c: int, reply: i32, other: int)
    requires
        0 <= other < v.channels.len(),
        other != c,
    ensures
        v.worker_step(c, reply).0.channels.len() == v.channels.len(),
        v.worker_step(c, reply).0.channels[other] == v.channels[other],
{
}

/// Claiming a channel, setting a volume, starting up and shutting down
/// never take a clip away: a busy channel is freed by its own worker or by
/// an explicit stop.
pub proof fn lemma_control_path_never_frees(
    v: ManagerView,
    c: int,
    clip: &'static [u8],
    reply: i32,
    i: int,
)
    requires
        v.wf(),
        0 <= c < v.channels.len(),
        0 <= i < v.channels.len(),
        v.channels[i].assignment is Some,
    ensures
        v.assign(c, clip).channels[i].assignment is Some,
        forall|left: i32, right: i32| #[trigger]
            v.set_volume(c, left, right).0.channels[i].assignment == v.channels[i].assignment,
        v.end().channels[i].assignment == v.channels[i].assignment,
        v.startup_step(reply).0.channels.len() == v.channels.len(),
        v.startup_step(reply).0.channels[i].assignment == v.channels[i].assignment,
{
}

/// Once every worker and handle is forgotten, no call is left to make.
pub proof fn lemma_nothing_to_tear_down(channels: Seq<Channel>, n: nat)
    requires
        forall|i: int| 0 <= i < channels.len() ==> (#[trigger] channels[i]).worker is None,
        forall|i: int| 0 <= i < channels.len() ==> (#[trigger] channels[i]).handle is None,
    ensures
        spec_stop_calls(channels, n) == Seq::<DeviceCall>::empty(),
        spec_release_calls(channels, n) == Seq::<DeviceCall>::empty(),
    decreases n,
{
    if n != 0 && n <= channels.len() {
        lemma_nothing_to_tear_down(channels, (n - 1) as nat);
        assert(channels[n - 1].worker is None);
        assert(channels[n - 1].handle is None);
    }
}

/// Shutting down twice is shutting down once: the second shutdown asks for
/// no call, so no worker is stopped and no handle released a second time,
/// and the manager stays as the first shutdown left it.
pub proof fn lemma_end_is_idempotent(v: ManagerView)
    requires
        v.wf(),
    ensures
        v.end().wf(),
        v.end().teardown_calls(true) == Seq::<DeviceCall>::empty(),
        v.end().end() == v.end(),
{
    let closed = v.end();
    lemma_nothing_to_tear_down(closed.channels, closed.channels.len());
    assert(closed.teardown_calls(true) =~= Seq::<DeviceCall>::empty());
    assert(spec_torn_down(closed.channels, true) =~= closed.channels);
    assert forall|i: int| 0 <= i < closed.channels.len() implies (#[trigger] closed.channels[i]).spec_consistent(
        closed.chunk(),
    ) by {
        assert(v.channels[i].spec_consistent(v.chunk()));
    }
}

/// A clip whose length is a whole number of chunks has no tail: the
/// declared remainder is zero.
pub proof fn lemma_exact_multiple_declares_nothing(len: nat, chunk_capacity: usize)
    requires
        spec_valid_capacity(chunk_capacity),
        len % (chunk_capacity * 4) as nat == 0,
    ensures
        spec_remainder_samples(len, chunk_capacity as nat) == 0,
{
}

/// The full chunks submitted for a clip, and the tail that the declared
/// remainder stands for, together cover the clip: for a clip that is not
/// empty the submissions are one fewer than the length divided by the
/// chunk size, rounded up. Of an empty clip nothing is submitted.
pub proof fn lemma_full_chunks_and_tail(len: nat, chunk_capacity: usize)
    requires
        spec_valid_capacity(chunk_capacity),
    ensures
        len > 0 ==> spec_full_chunks(len, chunk_capacity as nat) + 1 == spec_ceil_chunks(
            len,
            chunk_capacity as nat,
        ),
        len == 0 ==> spec_full_chunks(len, chunk_capacity as nat) == 0 && spec_ceil_chunks(
            len,
            chunk_capacity as nat,
        ) == 0,
{
    let chunk = (chunk_capacity * 4) as int;
    if len > 0 {
        vstd::arithmetic::div_mod::lemma_div_plus_one(len - 1, chunk);
    } else {
        vstd::arithmetic::div_mod::lemma_div_basics(chunk);
        assert((chunk - 1) / chunk == 0) by {
            vstd::arithmetic::div_mod::lemma_basic_div(chunk - 1, chunk);
        }
    }
}

/// The channel and the actions, in order, after its worker has moved once
/// for each of `replies`, with the stop flag down.
pub open spec fn spec_run(ch: Channel, chunk_capacity: usize, replies: Seq<i32>) -> (
    Channel,
    Seq<WorkerAction>,
)
    decreases replies.len(),
{
    if replies.len() == 0 {
        (ch, Seq::empty())
    } else {
        let moved = spec_channel_step(ch, chunk_capacity, false, replies[0]);
        let later = spec_run(moved.0, chunk_capacity, replies.drop_first());
        (later.0, seq![moved.1] + later.1)
    }
}

/// The actions that stream the clip of `ch` from its chunk number `from`
/// on: each full chunk is submitted at its offset and followed by a query
/// of the device's queue, and the declaration of the tail ends the clip.
pub open spec fn spec_stream_trace(ch: Channel, chunk_capacity: usize, from: nat) -> Seq<
    WorkerAction,
> {
    let clip = ch.assignment.unwrap();
    let handle = ch.handle.unwrap();
    let chunks = spec_full_chunks(clip@.len(), chunk_capacity as nat);
    Seq::new(
        (2 * (chunks - from) + 1) as nat,
        |i: int|
            if i == 2 * (chunks - from) {
                WorkerAction::DeclareLength {
                    handle,
                    samples: spec_remainder_samples(clip@.len(), chunk_capacity as nat) as i32,
                    error: None,
                }
            } else if i % 2 == 0 {
                WorkerAction::Submit {
                    handle,
                    volume_left: ch.volume_left,
                    volume_right: ch.volume_right,
                    clip,
                    offset: ((from + i / 2) * (chunk_capacity * 4)) as usize,
                }
            } else {
                WorkerAction::QueryRestLength { handle }
            },
    )
}

/// Chunk number `k` of a clip lies wholly before the clip's last byte
/// exactly when `k` is below the number of full chunks.
proof fn lemma_chunk_fits(len: nat, chunk: int, k: nat)
    requires
        chunk > 0,
    ensures
        k * chunk + chunk < len <==> len > 0 && k < (len - 1) / chunk,
{
    if len > 0 {
        let n = (len - 1) / chunk;
        vstd::arithmetic::div_mod::lemma_fundamental_div_mod(len - 1, chunk);
        vstd::arithmetic::div_mod::lemma_mod_bound(len - 1, chunk);
        if k < n {
            assert((k + 1) * chunk <= n * chunk) by (nonlinear_arith)
                requires
                    k + 1 <= n,
                    chunk > 0,
            ;
            assert((k + 1) * chunk == k * chunk + chunk) by (nonlinear_arith);
            assert(chunk * n == n * chunk) by (nonlinear_arith);
        } else {
            assert((k + 1) * chunk >= (n + 1) * chunk) by (nonlinear_arith)
                requires
                    k + 1 >= n + 1,
                    chunk > 0,
            ;
            assert((k + 1) * chunk == k * chunk + chunk) by (nonlinear_arith);
            assert((n + 1) * chunk == chunk * n + chunk) by (nonlinear_arith);
        }
    } else {
        assert(k * chunk >= 0) by (nonlinear_arith)
            requires
                k >= 0,
                chunk > 0,
        ;
    }
}

/// From chunk number `from` on, with every reply non-negative, the worker
/// walks the rest of the clip and frees the channel.
proof fn lemma_stream_from(ch: Channel, chunk_capacity: usize, from: nat, replies: Seq<i32>)
    requires
        spec_valid_capacity(chunk_capacity),
        ch.handle is Some,
        ch.worker is Some,
        ch.assignment is Some,
        ch.assignment.unwrap()@.len() <= usize::MAX,
        from <= spec_full_chunks(ch.assignment.unwrap()@.len(), chunk_capacity as nat),
        if from == 0 {
            ch.progress == Progress::Idle
        } else {
            ch.progress == (Progress::Pacing { position: (from * (chunk_capacity * 4)) as usize })
        },
        from * (chunk_capacity * 4) <= usize::MAX,
        replies.len() == 2 * (spec_full_chunks(
            ch.assignment.unwrap()@.len(),
            chunk_capacity as nat,
        ) - from) + 1,
        forall|i: int| 0 <= i < replies.len() ==> replies[i] >= 0,
    ensures
        spec_run(ch, chunk_capacity, replies) == (
            Channel { assignment: None, progress: Progress::Idle, ..ch },
            spec_stream_trace(ch, chunk_capacity, from),
        ),
    decreases spec_full_chunks(ch.assignment.unwrap()@.len(), chunk_capacity as nat) - from,
{
    let clip = ch.assignment.unwrap();
    let len = clip@.len();
    let chunk = (chunk_capacity * 4) as int;
    let chunks = spec_full_chunks(len, chunk_capacity as nat);
    let position = from * chunk;
    lemma_chunk_fits(len, chunk, from);
    let moved = spec_channel_step(ch, chunk_capacity, false, replies[0]);
    let freed = Channel { assignment: None, progress: Progress::Idle, ..ch };
    let trace = spec_stream_trace(ch, chunk_capacity, from);
    if from == 0 {
        assert(position == 0) by (nonlinear_arith)
            requires
                position == from * chunk,
                from == 0,
        ;
    }
    if from < chunks {
        assert(moved.0 == (Channel {
            progress: Progress::Submitting { position: position as usize },
            ..ch
        }));
        let rest = replies.drop_first();
        let paced = spec_channel_step(moved.0, chunk_capacity, false, rest[0]);
        assert(position + chunk == (from + 1) * chunk) by (nonlinear_arith)
            requires
                position == from * chunk,
        ;
        let after = rest.drop_first();
        assert(paced.0 == (Channel {
            progress: Progress::Pacing { position: ((from + 1) * chunk) as usize },
            ..ch
        }));
        lemma_stream_from(paced.0, chunk_capacity, from + 1, after);
        let later = spec_run(paced.0, chunk_capacity, after);
        assert(spec_run(moved.0, chunk_capacity, rest) == (later.0, seq![paced.1] + later.1));
        assert(spec_run(ch, chunk_capacity, replies) == (
            later.0,
            seq![moved.1] + (seq![paced.1] + later.1),
        ));
        let next_trace = spec_stream_trace(paced.0, chunk_capacity, from + 1);
        assert(later.1 == next_trace);
        assert forall|i: int| 0 <= i < trace.len() implies #[trigger] trace[i] == (seq![moved.1] + (
        seq![paced.1] + next_trace))[i] by {
            if i >= 2 {
                assert((seq![moved.1] + (seq![paced.1] + next_trace))[i] == next_trace[i - 2]);
                assert(from + i / 2 == from + 1 + (i - 2) / 2);
            } else if i == 0 {
                assert(from + i / 2 == from);
            }
        }
        assert(trace =~= seq![moved.1] + (seq![paced.1] + next_trace));
    } else {
        assert(moved.0 == freed);
        let rest = replies.drop_first();
        assert(rest.len() == 0);
        assert(spec_run(moved.0, chunk_capacity, rest) == (moved.0, Seq::<WorkerAction>::empty()));
        assert(trace =~= seq![moved.1] + Seq::<WorkerAction>::empty());
    }
}

/// Number of chunk submissions among `actions`.
pub open spec fn spec_submissions(actions: Seq<WorkerAction>) -> nat
    decreases actions.len(),
{
    if actions.len() == 0 {
        0
    } else {
        spec_submissions(actions.drop_last()) + if actions.last() is Submit {
            1nat
        } else {
            0nat
        }
    }
}

/// Number of tail declarations among `actions`.
pub open spec fn spec_declarations(actions: Seq<WorkerAction>) -> nat
    decreases actions.len(),
{
    if actions.len() == 0 {
        0
    } else {
        spec_declarations(actions.drop_last()) + if actions.last() is DeclareLength {
            1nat
        } else {
            0nat
        }
    }
}

/// Among the first `k` actions of a whole stream every other one is a
/// submission, and only the last action of all is a declaration.
proof fn lemma_counts_in_prefix(ch: Channel, chunk_capacity: usize, k: nat)
    requires
        k <= 2 * spec_full_chunks(ch.assignment.unwrap()@.len(), chunk_capacity as nat) + 1,
    ensures
        spec_submissions(spec_stream_trace(ch, chunk_capacity, 0).take(k as int)) == if k <= 2
            * spec_full_chunks(ch.assignment.unwrap()@.len(), chunk_capacity as nat) {
            (k + 1) / 2
        } else {
            spec_full_chunks(ch.assignment.unwrap()@.len(), chunk_capacity as nat)
        },
        spec_declarations(spec_stream_trace(ch, chunk_capacity, 0).take(k as int)) == if k <= 2
            * spec_full_chunks(ch.assignment.unwrap()@.len(), chunk_capacity as nat) {
            0nat
        } else {
            1nat
        },
    decreases k,
{
    let trace = spec_stream_trace(ch, chunk_capacity, 0);
    let prefix = trace.take(k as int);
    if k > 0 {
        lemma_counts_in_prefix(ch, chunk_capacity, (k - 1) as nat);
        assert(prefix.drop_last() =~= trace.take(k - 1));
        assert(prefix.last() == trace[k - 1]);
    }
}

/// A whole stream holds one submission for each full chunk and one
/// declaration of the tail.
pub proof fn lemma_stream_trace_counts(ch: Channel, chunk_capacity: usize)
    ensures
        spec_submissions(spec_stream_trace(ch, chunk_capacity, 0)) == spec_full_chunks(
            ch.assignment.unwrap()@.len(),
            chunk_capacity as nat,
        ),
        spec_declarations(spec_stream_trace(ch, chunk_capacity, 0)) == 1,
{
    let trace = spec_stream_trace(ch, chunk_capacity, 0);
    lemma_counts_in_prefix(ch, chunk_capacity, trace.len());
    assert(trace.take(trace.len() as int) =~= trace);
}

/// A clip that is assigned and streamed without a failure is submitted in
/// full chunks at ascending offsets, one for every chunk that ends before
/// the clip's last byte, each followed by a query of the device's queue.
/// Then the tail is declared once, as the samples beyond the last chunk
/// boundary aligned up to 64, and the channel is free. The submissions
/// number `(len - 1) / chunk`, rounded down, for a clip of `len > 0` bytes.
pub proof fn lemma_stream_round_trip(ch: Channel, chunk_capacity: usize, replies: Seq<i32>)
    requires
        spec_valid_capacity(chunk_capacity),
        ch.handle is Some,
        ch.worker is Some,
        ch.assignment is Some,
        ch.assignment.unwrap()@.len() <= usize::MAX,
        ch.progress == Progress::Idle,
        replies.len() == 2 * spec_full_chunks(
            ch.assignment.unwrap()@.len(),
            chunk_capacity as nat,
        ) + 1,
        forall|i: int| 0 <= i < replies.len() ==> replies[i] >= 0,
    ensures
        spec_run(ch, chunk_capacity, replies) == (
            Channel { assignment: None, progress: Progress::Idle, ..ch },
            spec_stream_trace(ch, chunk_capacity, 0),
        ),
        spec_submissions(spec_run(ch, chunk_capacity, replies).1) == spec_full_chunks(
            ch.assignment.unwrap()@.len(),
            chunk_capacity as nat,
        ),
        spec_declarations(spec_run(ch, chunk_capacity, replies).1) == 1,
        spec_run(ch, chunk_capacity, replies).1.last() == (WorkerAction::DeclareLength {
            handle: ch.handle.unwrap(),
            samples: spec_remainder_samples(
                ch.assignment.unwrap()@.len(),
                chunk_capacity as nat,
            ) as i32,
            error: None,
        }),
{
    assert(0 * (chunk_capacity * 4) == 0) by (nonlinear_arith);
    lemma_stream_from(ch, chunk_capacity, 0, replies);
    lemma_stream_trace_counts(ch, chunk_capacity);
}

/// The manager after `n` steps of start-up, the step number `k` being given
/// `replies[k]`.
pub open spec fn spec_after_startup_steps(v: ManagerView, replies: Seq<i32>, n: nat) -> ManagerView
    decreases n,
{
    if n == 0 || n > replies.len() {
        v
    } else {
        spec_after_startup_steps(v, replies, (n - 1) as nat).startup_step(replies[n - 1]).0
    }
}

/// The replies of a start-up in which everything succeeds: the device
/// answers the reservation of channel `i` with `handles[i]`, the scheduler
/// the creation of its worker with `workers[i]` and its start with zero.
pub open spec fn spec_good_replies(handles: Seq<i32>, workers: Seq<i32>) -> Seq<i32> {
    let count = handles.len() as int;
    Seq::new(
        (3 * count + 1) as nat,
        |j: int|
            if j == 0 {
                0i32
            } else if j <= count {
                handles[j - 1]
            } else if (j - count) % 2 == 1 {
                workers[(j - count - 1) / 2]
            } else {
                0i32
            },
    )
}

/// Where such a start-up stands after `n` steps: the first `n - 1` handles
/// are recorded while channels are reserved, then one worker for every two
/// steps.
pub open spec fn spec_startup_state(
    v: ManagerView,
    handles: Seq<i32>,
    workers: Seq<i32>,
    n: nat,
) -> ManagerView {
    let count = handles.len() as int;
    let reserved = if n <= count {
        n - 1
    } else {
        count
    };
    let served = if n <= count {
        0
    } else {
        (n - count) / 2
    };
    ManagerView {
        channels: Seq::new(
            v.channels.len(),
            |k: int|
                Channel {
                    handle: if k < reserved {
                        Some(handles[k])
                    } else {
                        v.channels[k].handle
                    },
                    worker: if k < served {
                        Some(workers[k])
                    } else {
                        v.channels[k].worker
                    },
                    ..v.channels[k]
                },
        ),
        phase: if n == 0 {
            Phase::Created
        } else if n == 3 * count + 1 {
            Phase::Running
        } else if n <= count {
            Phase::Reserving { index: (n - 1) as usize }
        } else if (n - count) % 2 == 1 {
            Phase::Creating { index: ((n - count - 1) / 2) as usize }
        } else {
            Phase::Starting { index: ((n - count - 2) / 2) as usize }
        },
        ..v
    }
}

/// A start-up in which everything succeeds stands after each step where
/// `spec_startup_state` says.
proof fn lemma_startup_state(v: ManagerView, handles: Seq<i32>, workers: Seq<i32>, n: nat)
    requires
        v.wf(),
        v.phase == Phase::Created,
        handles.len() == v.channels.len(),
        workers.len() == v.channels.len(),
        forall|i: int| 0 <= i < handles.len() ==> handles[i] >= 0,
        forall|i: int| 0 <= i < workers.len() ==> workers[i] >= 0,
        1 <= n <= 3 * v.channels.len() + 1,
    ensures
        spec_after_startup_steps(v, spec_good_replies(handles, workers), n) == spec_startup_state(
            v,
            handles,
            workers,
            n,
        ),
        n == 3 * v.channels.len() + 1 ==> spec_after_startup_steps(
            v,
            spec_good_replies(handles, workers),
            (n - 1) as nat,
        ).startup_step(spec_good_replies(handles, workers)[n - 1]).1 == StartupView::Ready,
    decreases n,
{
    let count = v.channels.len() as int;
    let replies = spec_good_replies(handles, workers);
    let before = spec_after_startup_steps(v, replies, (n - 1) as nat);
    let expected = spec_startup_state(v, handles, workers, n);
    if n == 1 {
        assert(before == v);
        let moved = v.startup_step(replies[0]);
        assert(moved.0.channels =~= expected.channels);
    } else {
        lemma_startup_state(v, handles, workers, (n - 1) as nat);
        assert(before == spec_startup_state(v, handles, workers, (n - 1) as nat));
        let reply = replies[n - 1];
        let moved = before.startup_step(reply);
        if n - 1 <= count {
            assert(before.phase == (Phase::Reserving { index: (n - 2) as usize }));
            assert(reply == handles[n - 2]);
            assert(moved.0.channels =~= expected.channels);
        } else if (n - 1 - count) % 2 == 1 {
            let index = (n - 1 - count - 1) / 2;
            assert(before.phase == (Phase::Creating { index: index as usize }));
            assert(reply == workers[index]);
            assert(moved.0.channels =~= expected.channels);
        } else {
            let index = (n - 1 - count - 2) / 2;
            assert(before.phase == (Phase::Starting { index: index as usize }));
            assert(reply == 0);
            assert(moved.0.channels =~= expected.channels);
        }
    }
}

/// For every number of channels: a manager whose reservations and workers
/// all succeed is up after three steps for each channel and one more. Every
/// channel then holds the handle that the device gave for it and the worker
/// that the scheduler gave, and the last step reports readiness.
pub proof fn lemma_startup_comes_up(v: ManagerView, handles: Seq<i32>, workers: Seq<i32>)
    requires
        v.wf(),
        v.phase == Phase::Created,
        handles.len() == v.channels.len(),
        workers.len() == v.channels.len(),
        forall|i: int| 0 <= i < handles.len() ==> handles[i] >= 0,
        forall|i: int| 0 <= i < workers.len() ==> workers[i] >= 0,
    ensures
        ({
            let steps = (3 * v.channels.len() + 1) as nat;
            let replies = spec_good_replies(handles, workers);
            let up = spec_after_startup_steps(v, replies, steps);
            &&& up.phase == Phase::Running
            &&& up.channels.len() == v.channels.len()
            &&& up.all_reserved()
            &&& up.all_served()
            &&& forall|i: int|
                0 <= i < v.channels.len() ==> (#[trigger] up.channels[i]) == (Channel {
                    handle: Some(handles[i]),
                    worker: Some(workers[i]),
                    ..v.channels[i]
                })
            &&& spec_after_startup_steps(v, replies, (steps - 1) as nat).startup_step(
                replies[steps - 1],
            ).1 == StartupView::Ready
        }),
{
    let steps = (3 * v.channels.len() + 1) as nat;
    lemma_startup_state(v, handles, workers, steps);
}

} // verus!
