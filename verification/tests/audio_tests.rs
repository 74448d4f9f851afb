use spspf::audio::channel::{
    AudioError, Channel, DeviceCall, Phase, Progress, StartupAction, WorkerAction,
};
use spspf::audio::chunking::{
    chunk_bytes, remainder_samples, sample_align, AUDIO_CHANNEL_MAX, AUDIO_SAMPLE_MAX,
    AUDIO_VOLUME_MAX,
};
use spspf::audio::manager::AudioManager;
use spspf::audio::sound::Sound;
use spspf::audio::worker::channel_step;

const CLIP_OF_0_BYTES_OF_0: &[u8; 0] = &[];
const CLIP_OF_100_BYTES_OF_0: &[u8; 100] = &[0; 100];
const CLIP_OF_16_BYTES_OF_0: &[u8; 16] = &[0; 16];
const CLIP_OF_32_BYTES_OF_0: &[u8; 32] = &[0; 32];
const CLIP_OF_40_BYTES_OF_0: &[u8; 40] = &[0; 40];
const CLIP_OF_40_BYTES_OF_1: &[u8; 40] = &[1; 40];
const CLIP_OF_40_BYTES_OF_2: &[u8; 40] = &[2; 40];
const CLIP_OF_40_BYTES_OF_7: &[u8; 40] = &[7; 40];
const CLIP_OF_6_BYTES_OF_0: &[u8; 6] = &[0; 6];
const CLIP_OF_8_BYTES_OF_1: &[u8; 8] = &[1; 8];

/// Brings a manager up with every call succeeding: channel `i` gets the
/// handle `i` and the worker `100 + i`.
fn running_manager(channels: usize, capacity: usize) -> AudioManager {
    let mut manager = AudioManager::init(channels, capacity);
    let mut reply = 0;
    loop {
        match manager.startup_step(reply) {
            StartupAction::Call(DeviceCall::Reserve { channel, .. }) => reply = channel,
            StartupAction::Call(DeviceCall::CreateWorker { channel }) => reply = 100 + channel,
            StartupAction::Call(DeviceCall::StartWorker { .. }) => reply = 0,
            StartupAction::Call(other) => panic!("unexpected call {:?}", other),
            StartupAction::Ready => return manager,
            other => panic!("start-up ended with {:?}", other),
        }
    }
}

/// Steps the worker of `channel` until the clip is declared finished, with
/// the device accepting everything. Returns the offsets submitted and the
/// declared remainder.
fn stream_to_end(manager: &mut AudioManager, channel: usize) -> (Vec<usize>, i32, Option<AudioError>) {
    let mut offsets = Vec::new();
    let mut reply = 0;
    for _ in 0..10_000 {
        match manager.worker_step(channel, reply) {
            WorkerAction::Submit { offset, .. } => {
                offsets.push(offset);
                reply = 0;
            }
            WorkerAction::QueryRestLength { .. } => reply = 0,
            WorkerAction::DeclareLength { samples, error, .. } => return (offsets, samples, error),
            other => panic!("unexpected action {:?}", other),
        }
    }
    panic!("the clip never ended");
}

#[test]
fn startup_reserves_then_starts_every_worker() {
    let mut manager = AudioManager::init(2, 4);
    let mut calls = Vec::new();
    let mut reply = 0;
    loop {
        match manager.startup_step(reply) {
            StartupAction::Call(call) => {
                calls.push(call);
                reply = match call {
                    DeviceCall::Reserve { channel, .. } => 10 + channel,
                    DeviceCall::CreateWorker { channel } => 20 + channel,
                    _ => 0,
                };
            }
            StartupAction::Ready => break,
            other => panic!("start-up ended with {:?}", other),
        }
    }
    assert_eq!(
        calls,
        vec![
            DeviceCall::Reserve { channel: 0, sample_count: 4 },
            DeviceCall::Reserve { channel: 1, sample_count: 4 },
            DeviceCall::CreateWorker { channel: 0 },
            DeviceCall::StartWorker { worker: 20 },
            DeviceCall::CreateWorker { channel: 1 },
            DeviceCall::StartWorker { worker: 21 },
        ]
    );
    assert_eq!(manager.channel_count(), 2);
    for i in 0..2 {
        let entry = manager.channel(i).unwrap();
        assert_eq!(entry.handle, Some(10 + i as i32));
        assert_eq!(entry.worker, Some(20 + i as i32));
        assert!(entry.assignment.is_none());
        assert_eq!(entry.volume_left, AUDIO_VOLUME_MAX);
        assert_eq!(entry.volume_right, AUDIO_VOLUME_MAX);
    }
    assert_eq!(manager.phase(), Phase::Running);
    assert!(matches!(manager.startup_step(0), StartupAction::Ready));
}

#[test]
fn startup_of_the_full_device() {
    let manager = running_manager(AUDIO_CHANNEL_MAX, AUDIO_SAMPLE_MAX);
    assert_eq!(manager.channel_count(), 8);
    assert_eq!(manager.get_available_channel(), Some(0));
}

#[test]
fn startup_without_channels_is_ready_at_once() {
    let mut manager = AudioManager::init(0, 4);
    assert!(matches!(manager.startup_step(0), StartupAction::Ready));
    assert_eq!(manager.get_available_channel(), None);
    let mut sound = Sound::new(CLIP_OF_40_BYTES_OF_0);
    assert_eq!(sound.play(&mut manager), Err(AudioError::NoAvailableChannel));
}

#[test]
fn channels_are_handed_out_in_ascending_order() {
    let mut manager = running_manager(3, 4);
    let mut sound = Sound::new(CLIP_OF_40_BYTES_OF_0);
    assert_eq!(sound.channel(), -1);
    assert_eq!(manager.get_available_channel(), Some(0));
    assert_eq!(manager.get_available_channel(), Some(0));
    assert_eq!(sound.play(&mut manager), Ok(0));
    assert_eq!(sound.channel(), 0);
    assert_eq!(manager.get_available_channel(), Some(1));
    assert_eq!(sound.play(&mut manager), Ok(1));
    assert_eq!(sound.play(&mut manager), Ok(2));
    assert_eq!(sound.channel(), 2);
    assert_eq!(manager.get_available_channel(), None);
    assert_eq!(manager.busy_count(), 3);
}

#[test]
fn reservation_failure_releases_what_was_obtained() {
    let mut manager = AudioManager::init(3, 4);
    assert!(matches!(
        manager.startup_step(0),
        StartupAction::Call(DeviceCall::Reserve { channel: 0, sample_count: 4 })
    ));
    assert!(matches!(
        manager.startup_step(7),
        StartupAction::Call(DeviceCall::Reserve { channel: 1, sample_count: 4 })
    ));
    assert!(matches!(
        manager.startup_step(9),
        StartupAction::Call(DeviceCall::Reserve { channel: 2, sample_count: 4 })
    ));
    match manager.startup_step(-1) {
        StartupAction::Failed { error, cleanup } => {
            assert_eq!(error, AudioError::ChannelReservationFailed);
            assert_eq!(
                cleanup,
                vec![DeviceCall::Release { handle: 7 }, DeviceCall::Release { handle: 9 }]
            );
        }
        other => panic!("expected a failure, got {:?}", other),
    }
    assert_eq!(manager.phase(), Phase::Failed { error: AudioError::ChannelReservationFailed });
    for i in 0..3 {
        let entry = manager.channel(i).unwrap();
        assert_eq!(entry.handle, None);
        assert_eq!(entry.worker, None);
    }
    assert_eq!(manager.get_available_channel(), None);
    match manager.startup_step(0) {
        StartupAction::Failed { error, cleanup } => {
            assert_eq!(error, AudioError::ChannelReservationFailed);
            assert!(cleanup.is_empty());
        }
        other => panic!("expected a failure, got {:?}", other),
    }
    assert!(manager.end().is_empty());
}

#[test]
fn worker_creation_failure_stops_the_workers_and_keeps_the_channels() {
    let mut manager = AudioManager::init(2, 4);
    manager.startup_step(0);
    manager.startup_step(3);
    assert!(matches!(
        manager.startup_step(4),
        StartupAction::Call(DeviceCall::CreateWorker { channel: 0 })
    ));
    assert!(matches!(
        manager.startup_step(50),
        StartupAction::Call(DeviceCall::StartWorker { worker: 50 })
    ));
    assert!(matches!(
        manager.startup_step(0),
        StartupAction::Call(DeviceCall::CreateWorker { channel: 1 })
    ));
    match manager.startup_step(-5) {
        StartupAction::Failed { error, cleanup } => {
            assert_eq!(error, AudioError::WorkerStartupFailed);
            assert_eq!(cleanup, vec![DeviceCall::StopWorker { worker: 50 }]);
        }
        other => panic!("expected a failure, got {:?}", other),
    }
    assert_eq!(manager.channel(0).unwrap().handle, Some(3));
    assert_eq!(manager.channel(1).unwrap().handle, Some(4));
    assert_eq!(manager.channel(0).unwrap().worker, None);
    assert_eq!(manager.get_available_channel(), None);
    assert!(matches!(manager.worker_step(0, 0), WorkerAction::Exit));
    assert_eq!(
        manager.end(),
        vec![DeviceCall::Release { handle: 3 }, DeviceCall::Release { handle: 4 }]
    );
}

#[test]
fn worker_start_failure_stops_the_worker_that_did_not_start() {
    let mut manager = AudioManager::init(2, 4);
    manager.startup_step(0);
    manager.startup_step(3);
    manager.startup_step(4);
    manager.startup_step(50);
    manager.startup_step(0);
    assert!(matches!(
        manager.startup_step(51),
        StartupAction::Call(DeviceCall::StartWorker { worker: 51 })
    ));
    match manager.startup_step(1) {
        StartupAction::Failed { error, cleanup } => {
            assert_eq!(error, AudioError::WorkerStartupFailed);
            assert_eq!(
                cleanup,
                vec![DeviceCall::StopWorker { worker: 50 }, DeviceCall::StopWorker { worker: 51 }]
            );
        }
        other => panic!("expected a failure, got {:?}", other),
    }
}

#[test]
fn forty_bytes_in_chunks_of_four_samples() {
    let mut manager = running_manager(2, 4);
    let mut sound = Sound::new(CLIP_OF_40_BYTES_OF_7);
    assert_eq!(sound.play(&mut manager), Ok(0));
    let mut actions = Vec::new();
    let mut reply = 0;
    loop {
        let action = manager.worker_step(0, reply);
        actions.push(action);
        reply = 5;
        if let WorkerAction::DeclareLength { .. } = action {
            break;
        }
        assert!(actions.len() < 100);
    }
    assert_eq!(actions.len(), 5);
    match actions[0] {
        WorkerAction::Submit { handle, volume_left, volume_right, clip, offset } => {
            assert_eq!(handle, 0);
            assert_eq!(volume_left, 0x8000);
            assert_eq!(volume_right, 0x8000);
            assert_eq!(clip, &CLIP_OF_40_BYTES_OF_7[..]);
            assert_eq!(offset, 0);
        }
        other => panic!("unexpected action {:?}", other),
    }
    assert!(matches!(actions[1], WorkerAction::QueryRestLength { handle: 0 }));
    assert!(matches!(actions[2], WorkerAction::Submit { handle: 0, offset: 16, .. }));
    assert!(matches!(actions[3], WorkerAction::QueryRestLength { handle: 0 }));
    assert!(matches!(
        actions[4],
        WorkerAction::DeclareLength { handle: 0, samples: 64, error: None }
    ));
    let submissions = actions.iter().filter(|a| matches!(a, WorkerAction::Submit { .. })).count();
    assert_eq!(submissions, 2);
    assert!(manager.channel(0).unwrap().assignment.is_none());
    assert_eq!(manager.channel(0).unwrap().progress, Progress::Idle);
    assert_eq!(manager.get_available_channel(), Some(0));
    assert!(matches!(manager.worker_step(0, 0), WorkerAction::Yield));
}

#[test]
fn streaming_a_hundred_bytes() {
    let mut manager = running_manager(1, 4);
    let mut sound = Sound::new(CLIP_OF_100_BYTES_OF_0);
    assert_eq!(sound.play(&mut manager), Ok(0));
    let (offsets, samples, error) = stream_to_end(&mut manager, 0);
    assert_eq!(offsets, vec![0, 16, 32, 48, 64, 80]);
    assert_eq!(samples, 64);
    assert_eq!(error, None);
    assert!(manager.channel(0).unwrap().assignment.is_none());
}

#[test]
fn exact_multiple_of_the_chunk_declares_no_remainder() {
    let mut manager = running_manager(1, 4);
    let mut sound = Sound::new(CLIP_OF_32_BYTES_OF_0);
    assert_eq!(sound.play(&mut manager), Ok(0));
    let (offsets, samples, error) = stream_to_end(&mut manager, 0);
    assert_eq!(offsets, vec![0]);
    assert_eq!(samples, 0);
    assert_eq!(error, None);
    for offset in offsets {
        assert!(offset + 16 <= CLIP_OF_32_BYTES_OF_0.len());
    }
}

#[test]
fn clip_of_one_chunk_or_less_is_only_declared() {
    let mut manager = running_manager(3, 4);
    assert_eq!(Sound::new(CLIP_OF_16_BYTES_OF_0).play(&mut manager), Ok(0));
    assert_eq!(Sound::new(CLIP_OF_6_BYTES_OF_0).play(&mut manager), Ok(1));
    assert_eq!(Sound::new(CLIP_OF_0_BYTES_OF_0).play(&mut manager), Ok(2));
    assert_eq!(stream_to_end(&mut manager, 0), (vec![], 0, None));
    assert_eq!(stream_to_end(&mut manager, 1), (vec![], 64, None));
    assert_eq!(stream_to_end(&mut manager, 2), (vec![], 0, None));
    assert_eq!(manager.busy_count(), 0);
}

#[test]
fn play_fails_when_every_channel_is_busy() {
    let mut manager = running_manager(2, 4);
    let mut first = Sound::new(CLIP_OF_40_BYTES_OF_0);
    let mut second = Sound::new(CLIP_OF_40_BYTES_OF_0);
    let mut third = Sound::new(CLIP_OF_8_BYTES_OF_1);
    assert_eq!(first.play(&mut manager), Ok(0));
    assert_eq!(second.play(&mut manager), Ok(1));
    assert_eq!(third.play(&mut manager), Err(AudioError::NoAvailableChannel));
    assert_eq!(third.channel(), -1);
    assert_eq!(manager.busy_count(), 2);
    for i in 0..2 {
        let entry = manager.channel(i).unwrap();
        assert_eq!(entry.assignment, Some(&CLIP_OF_40_BYTES_OF_0[..]));
        assert_eq!(entry.progress, Progress::Idle);
        assert_eq!(entry.handle, Some(i as i32));
    }
    assert_eq!(AudioError::NoAvailableChannel.message(), "\n[MAINT] ERROR: No available channels!");
}

#[test]
fn two_plays_in_a_row_never_share_a_channel() {
    let mut manager = running_manager(2, 4);
    let mut a = Sound::new(CLIP_OF_40_BYTES_OF_1);
    let mut b = Sound::new(CLIP_OF_40_BYTES_OF_2);
    assert_eq!(a.play(&mut manager), Ok(0));
    stream_to_end(&mut manager, 0);
    let first = a.play(&mut manager).unwrap();
    let second = b.play(&mut manager).unwrap();
    assert_eq!(first, 0);
    assert_eq!(second, 1);
    assert_eq!(manager.channel(0).unwrap().assignment, Some(&CLIP_OF_40_BYTES_OF_1[..]));
    assert_eq!(manager.channel(1).unwrap().assignment, Some(&CLIP_OF_40_BYTES_OF_2[..]));
}

#[test]
fn rejected_chunk_abandons_the_clip_and_frees_the_channel() {
    let mut manager = running_manager(1, 4);
    let mut sound = Sound::new(CLIP_OF_100_BYTES_OF_0);
    assert_eq!(sound.play(&mut manager), Ok(0));
    assert!(matches!(manager.worker_step(0, 0), WorkerAction::Submit { offset: 0, .. }));
    assert!(matches!(manager.worker_step(0, 0), WorkerAction::QueryRestLength { .. }));
    assert!(matches!(manager.worker_step(0, 0), WorkerAction::Submit { offset: 16, .. }));
    assert!(matches!(
        manager.worker_step(0, -1),
        WorkerAction::DeclareLength {
            handle: 0,
            samples: 64,
            error: Some(AudioError::SubmissionFailed)
        }
    ));
    assert!(manager.channel(0).unwrap().assignment.is_none());
    assert!(matches!(manager.worker_step(0, 0), WorkerAction::Yield));
    assert_eq!(sound.play(&mut manager), Ok(0));
}

#[test]
fn negative_rest_length_holds_the_next_chunk_back() {
    let mut manager = running_manager(1, 4);
    let mut sound = Sound::new(CLIP_OF_100_BYTES_OF_0);
    sound.play(&mut manager).unwrap();
    assert!(matches!(manager.worker_step(0, 0), WorkerAction::Submit { offset: 0, .. }));
    assert!(matches!(manager.worker_step(0, 0), WorkerAction::QueryRestLength { .. }));
    assert!(matches!(manager.worker_step(0, -1), WorkerAction::QueryRestLength { .. }));
    assert!(matches!(manager.worker_step(0, -7), WorkerAction::QueryRestLength { .. }));
    assert_eq!(manager.channel(0).unwrap().progress, Progress::Pacing { position: 16 });
    assert!(matches!(manager.worker_step(0, 0), WorkerAction::Submit { offset: 16, .. }));
    assert_eq!(manager.channel(0).unwrap().progress, Progress::Submitting { position: 16 });
}

#[test]
fn worker_touches_only_its_own_channel() {
    let mut manager = running_manager(2, 4);
    Sound::new(CLIP_OF_40_BYTES_OF_1).play(&mut manager).unwrap();
    Sound::new(CLIP_OF_40_BYTES_OF_2).play(&mut manager).unwrap();
    stream_to_end(&mut manager, 1);
    let untouched = manager.channel(0).unwrap();
    assert_eq!(untouched.assignment, Some(&CLIP_OF_40_BYTES_OF_1[..]));
    assert_eq!(untouched.progress, Progress::Idle);
    assert!(manager.channel(1).unwrap().assignment.is_none());
    assert_eq!(manager.busy_count(), 1);
    assert!(matches!(manager.worker_step(2, 0), WorkerAction::Exit));
}

#[test]
fn shutdown_twice_releases_once() {
    let mut manager = running_manager(2, 4);
    assert_eq!(
        manager.end(),
        vec![
            DeviceCall::StopWorker { worker: 100 },
            DeviceCall::StopWorker { worker: 101 },
            DeviceCall::Release { handle: 0 },
            DeviceCall::Release { handle: 1 },
        ]
    );
    assert_eq!(manager.phase(), Phase::Closed);
    assert_eq!(manager.end(), vec![]);
    assert_eq!(manager.phase(), Phase::Closed);
    assert_eq!(manager.get_available_channel(), None);
    assert!(matches!(manager.startup_step(0), StartupAction::Closed));
    assert!(matches!(manager.worker_step(0, 0), WorkerAction::Exit));
}

#[test]
fn shutdown_in_the_middle_of_startup() {
    let mut manager = AudioManager::init(2, 4);
    manager.startup_step(0);
    manager.startup_step(11);
    assert_eq!(manager.end(), vec![DeviceCall::Release { handle: 11 }]);
    assert!(manager.end().is_empty());
}

#[test]
fn stop_flag_is_seen_between_clips() {
    let ch = Channel {
        handle: Some(3),
        worker: Some(9),
        volume_left: 1,
        volume_right: 2,
        assignment: None,
        progress: Progress::Idle,
    };
    let (after, action) = channel_step(ch, 4, true, 0);
    assert!(matches!(action, WorkerAction::Exit));
    assert!(after.assignment.is_none());
    let busy = Channel { assignment: Some(&CLIP_OF_100_BYTES_OF_0[..]), progress: Progress::Submitting { position: 16 }, ..ch };
    let (after, action) = channel_step(busy, 4, true, 0);
    assert!(matches!(action, WorkerAction::QueryRestLength { handle: 3 }));
    assert_eq!(after.progress, Progress::Pacing { position: 32 });
    let fresh = Channel { assignment: Some(&CLIP_OF_100_BYTES_OF_0[..]), ..ch };
    let (_, action) = channel_step(fresh, 4, true, 0);
    assert!(matches!(action, WorkerAction::Exit));
    let (after, action) = channel_step(fresh, 4, false, 0);
    assert!(matches!(
        action,
        WorkerAction::Submit { handle: 3, volume_left: 1, volume_right: 2, offset: 0, .. }
    ));
    assert_eq!(after.progress, Progress::Submitting { position: 0 });
}

#[test]
fn stop_takes_the_clip_away_at_once() {
    let mut manager = running_manager(2, 4);
    let mut idle = Sound::new(CLIP_OF_100_BYTES_OF_0);
    assert_eq!(idle.stop(&mut manager), None);
    let mut sound = Sound::new(CLIP_OF_100_BYTES_OF_0);
    assert_eq!(sound.play(&mut manager), Ok(0));
    assert!(matches!(manager.worker_step(0, 0), WorkerAction::Submit { offset: 0, .. }));
    assert_eq!(sound.stop(&mut manager), Some(DeviceCall::Silence { handle: 0 }));
    assert_eq!(sound.channel(), -1);
    assert!(manager.channel(0).unwrap().assignment.is_none());
    assert_eq!(manager.channel(0).unwrap().progress, Progress::Idle);
    assert!(matches!(manager.worker_step(0, 0), WorkerAction::Yield));
    assert_eq!(sound.stop(&mut manager), None);
    assert_eq!(manager.stop_channel(1), None);
    assert_eq!(manager.stop_channel(5), None);
}

#[test]
fn worker_finds_its_channel_by_identity() {
    let manager = running_manager(3, 4);
    assert_eq!(manager.find_worker_channel(100), Some(0));
    assert_eq!(manager.find_worker_channel(102), Some(2));
    assert_eq!(manager.find_worker_channel(7), None);
    assert!(manager.channel(3).is_none());
}

#[test]
fn sample_alignment_rounds_up_to_sixty_four() {
    assert_eq!(sample_align(0), 0);
    assert_eq!(sample_align(1), 64);
    assert_eq!(sample_align(2), 64);
    assert_eq!(sample_align(64), 64);
    assert_eq!(sample_align(65), 128);
    assert_eq!(sample_align(65472), 65472);
}

#[test]
fn remainder_of_the_tail() {
    assert_eq!(chunk_bytes(4), 16);
    assert_eq!(chunk_bytes(AUDIO_SAMPLE_MAX), 261888);
    assert_eq!(remainder_samples(40, 4), 64);
    assert_eq!(remainder_samples(32, 4), 0);
    assert_eq!(remainder_samples(0, 4), 0);
    assert_eq!(remainder_samples(3, 4), 0);
    assert_eq!(remainder_samples(261888 + 4 * 100, AUDIO_SAMPLE_MAX), 128);
    assert_eq!(remainder_samples(261887, AUDIO_SAMPLE_MAX), 65472);
}

#[test]
fn error_messages() {
    assert_eq!(
        AudioError::ChannelReservationFailed.message(),
        "\n[MAINT] FATAL: Failed to reserve audio channels!"
    );
    assert_eq!(
        AudioError::WorkerStartupFailed.message(),
        "\n[MAINT] FATAL: Failed to create or start threads!"
    );
    assert_eq!(
        AudioError::SubmissionFailed.message(),
        "\n[AUDIOC] FATAL: Failed to output audio!"
    );
}

#[test]
fn new_sound_is_at_full_volume_without_a_channel() {
    let sound = Sound::new(CLIP_OF_40_BYTES_OF_0);
    assert_eq!(sound.volume_left(), AUDIO_VOLUME_MAX);
    assert_eq!(sound.volume_right(), AUDIO_VOLUME_MAX);
    assert_eq!(sound.volume_left(), 0x8000);
    assert_eq!(sound.channel(), -1);
}

#[test]
fn channel_volumes_are_set_one_by_one() {
    let mut manager = running_manager(2, 4);
    assert!(manager.set_volume(1, 100, 0x8000));
    assert_eq!(manager.channel(1).unwrap().volume_left, 100);
    assert_eq!(manager.channel(1).unwrap().volume_right, 0x8000);
    assert_eq!(manager.channel(0).unwrap().volume_left, 0x8000);
    assert!(!manager.set_volume(1, -1, 5));
    assert!(!manager.set_volume(1, 5, 0x8001));
    assert!(!manager.set_volume(2, 5, 5));
    assert_eq!(manager.channel(1).unwrap().volume_left, 100);
    let mut sound = Sound::new(CLIP_OF_40_BYTES_OF_0);
    sound.play(&mut manager).unwrap();
    sound.play(&mut manager).unwrap();
    assert!(matches!(
        manager.worker_step(1, 0),
        WorkerAction::Submit { handle: 1, volume_left: 100, volume_right: 0x8000, offset: 0, .. }
    ));
}

#[test]
fn submissions_are_one_fewer_than_the_chunks_rounded_up() {
    let mut manager = running_manager(1, 4);
    let mut sound = Sound::new(CLIP_OF_100_BYTES_OF_0);
    sound.play(&mut manager).unwrap();
    let (offsets, samples, _) = stream_to_end(&mut manager, 0);
    let chunk = chunk_bytes(4);
    let rounded_up = (100 + chunk - 1) / chunk;
    assert_eq!(offsets.len(), rounded_up - 1);
    assert_eq!(offsets.len(), 6);
    assert_eq!(samples, 64);
    assert!(offsets.iter().all(|offset| offset + chunk < 100));
}
