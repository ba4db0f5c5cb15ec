use wallpaper_core::audio_worker::{AudioAction, AudioCommand, AudioEvent, AudioWorker};
use wallpaper_core::native_audio::{
    audio_wait, clamp_volume, inspect_pcm_read, pcm_block_align, pcm_sample_bytes, AudioControls,
    NativeAudioRenderer, PcmRead, ReadResult, SessionVolume, Startup, StartupSignal, StopWait,
};
use wallpaper_core::pcm_queue::PcmQueue;
use wallpaper_core::playback_clock::PlaybackClock;

#[test]
fn converts_device_ticks_without_overflowing_the_multiplication() {
    let mut clock = PlaybackClock::new();
    clock.activate();
    clock.update_from_device(48_000 * 3 + 24_000, 0, 48_000);
    assert_eq!(clock.snapshot(), Some(35_000_000));
}

#[test]
fn inactive_clock_has_no_snapshot() {
    let mut clock = PlaybackClock::new();
    clock.activate();
    clock.deactivate();
    assert_eq!(clock.snapshot(), None);
}

#[test]
fn a_clock_counts_from_its_origin() {
    let mut clock = PlaybackClock::default();
    clock.activate();
    clock.update_from_device(100 + 44_100, 100, 44_100);
    assert_eq!(clock.snapshot(), Some(10_000_000));
    clock.update_from_device(50, 100, 44_100);
    assert_eq!(clock.snapshot(), Some(0));
    clock.update_from_device(1, 0, 3);
    assert_eq!(clock.snapshot(), Some(3_333_333));
    clock.update_from_device(9, 0, 0);
    assert_eq!(clock.snapshot(), Some(3_333_333));
    clock.update_from_device(u64::MAX, 0, 1);
    assert_eq!(clock.snapshot(), Some(u64::MAX));
}

#[test]
fn a_later_device_position_gives_no_earlier_time() {
    let mut clock = PlaybackClock::new();
    clock.activate();
    let mut last = 0;
    for ticks in [0, 1, 2, 99, 100, 101, 47_999, 48_000, 48_001, u64::MAX / 2, u64::MAX] {
        clock.update_from_device(ticks, 0, 48_000);
        let now = clock.snapshot().unwrap();
        assert!(last <= now);
        last = now;
    }
}

#[test]
fn bytes_leave_the_queue_in_order() {
    let mut queue = PcmQueue::new();
    queue.push(vec![1, 2, 3]);
    queue.push(Vec::new());
    queue.push(vec![4, 5]);
    assert_eq!(queue.len(), 5);
    assert_eq!(queue.copy_to(2), vec![1, 2]);
    queue.push(vec![6]);
    assert_eq!(queue.copy_to(4), vec![3, 4, 5, 6]);
    assert_eq!(queue.len(), 0);
    assert_eq!(queue.copy_to(0), Vec::<u8>::new());
}

#[test]
fn reads_are_judged_by_their_flags() {
    assert_eq!(
        inspect_pcm_read(0x22, true),
        Err("The MP4 audio format changed during playback.".to_string())
    );
    assert_eq!(inspect_pcm_read(0x2, true), Ok(PcmRead::EndOfStream));
    assert_eq!(inspect_pcm_read(0, true), Ok(PcmRead::Copy));
    assert_eq!(inspect_pcm_read(0, false), Ok(PcmRead::Empty));
    assert!(matches!(pcm_sample_bytes(Vec::new()), ReadResult::Empty));
    assert!(matches!(pcm_sample_bytes(vec![1]), ReadResult::Data(_)));
}

#[test]
fn a_frame_has_to_have_a_size() {
    assert_eq!(pcm_block_align(Some(4)), Ok(4));
    assert_eq!(
        pcm_block_align(None),
        Err("Media Foundation returned no PCM wave format.".to_string())
    );
    assert_eq!(
        pcm_block_align(Some(0)),
        Err("Decoded PCM format has zero block alignment.".to_string())
    );
}

#[test]
fn wait_statuses_are_told_apart() {
    assert_eq!(audio_wait(0), Ok(()));
    assert_eq!(audio_wait(258), Ok(()));
    assert_eq!(
        audio_wait(0xFFFF_FFFF),
        Err("Waiting for the WASAPI render event failed.".to_string())
    );
    assert_eq!(
        audio_wait(0x80),
        Err("WASAPI returned an unexpected wait status: 0x00000080.".to_string())
    );
}

#[test]
fn an_owner_sees_what_the_worker_did() {
    let mut renderer = NativeAudioRenderer::start(false, 300);
    assert_eq!(renderer.volume, 100);
    renderer.set_volume(-5);
    assert_eq!(renderer.volume, clamp_volume(-5));
    renderer.frames_counted(480);
    assert_eq!(renderer.frames_written(), 480);
    renderer.set_paused(true);
    renderer.set_muted(true);
    renderer.activate();
    assert!(renderer.paused && renderer.muted && renderer.activated);
    assert_eq!(renderer.stop_wait(0), StopWait::Sleep);
    assert_eq!(renderer.stop_wait(20), StopWait::Detach);
    let mut clock = PlaybackClock::new();
    clock.activate();
    renderer.worker_ended(&mut clock, true);
    assert_eq!(clock.snapshot(), None);
    assert!(renderer.has_failed());
    assert_eq!(renderer.stop_wait(20), StopWait::Join);
}

#[test]
fn a_stopped_worker_does_not_fail() {
    let mut renderer = NativeAudioRenderer::start(true, 50);
    renderer.stop();
    renderer.worker_ended(&mut PlaybackClock::new(), true);
    assert!(!renderer.has_failed());
}

#[test]
fn a_worker_that_is_late_is_given_up() {
    let mut renderer = NativeAudioRenderer::start(true, 50);
    assert!(matches!(renderer.startup(StartupSignal::Ready), Startup::Started));
    match renderer.startup(StartupSignal::TimedOut) {
        Startup::Rejected { error, join } => {
            assert_eq!(error, "Native audio did not initialize in time.");
            assert!(!join);
        }
        Startup::Started => panic!("it is late"),
    }
    assert!(renderer.stop);
    match renderer.startup(StartupSignal::Failed("no device".to_string())) {
        Startup::Rejected { error, join } => {
            assert_eq!(error, "no device");
            assert!(join);
        }
        Startup::Started => panic!("it failed"),
    }
}

fn command(action: AudioAction) -> AudioCommand {
    match action {
        AudioAction::Do(command) => command,
        AudioAction::Write { .. } => panic!("a write"),
        AudioAction::Fail(error) => panic!("{}", error),
    }
}

fn controls(paused: bool, muted: bool, volume: i32) -> AudioEvent {
    AudioEvent::Controls(AudioControls { stop: false, paused, muted, volume })
}

fn opened(clock: &mut PlaybackClock) -> AudioWorker {
    let mut worker = AudioWorker::new();
    let action = worker.run_audio_renderer(AudioEvent::Format(Some(2)), clock);
    assert_eq!(command(action), AudioCommand::OpenDevice);
    let device = AudioEvent::DeviceOpened {
        buffer_frames: 3,
        clock_frequency: 10,
        muted: false,
        volume: 70,
    };
    let action = worker.run_audio_renderer(device, clock);
    assert_eq!(
        command(action),
        AudioCommand::SetVolume(SessionVolume { volume: 70, muted: false })
    );
    let action = worker.run_audio_renderer(AudioEvent::VolumeSet, clock);
    assert_eq!(command(action), AudioCommand::Read);
    worker
}

#[test]
fn a_worker_plays_a_file_from_start_to_end() {
    let mut clock = PlaybackClock::new();
    let mut worker = opened(&mut clock);
    let read = AudioEvent::Read(ReadResult::Data(vec![1, 2, 3, 4, 5]));
    assert_eq!(command(worker.run_audio_renderer(read, &mut clock)), AudioCommand::Read);
    let end = AudioEvent::Read(ReadResult::EndOfStream);
    assert_eq!(command(worker.run_audio_renderer(end, &mut clock)), AudioCommand::Reopen);
    let reopened = worker.run_audio_renderer(AudioEvent::Reopened, &mut clock);
    assert_eq!(command(reopened), AudioCommand::Read);
    let read = AudioEvent::Read(ReadResult::Data(vec![6, 7]));
    match worker.run_audio_renderer(read, &mut clock) {
        AudioAction::Write { frames, bytes } => {
            assert_eq!(frames, 3);
            assert_eq!(bytes, vec![1, 2, 3, 4, 5, 6]);
        }
        _ => panic!("the device buffer is filled"),
    }
    assert_eq!(worker.frames_written, 0);
    let action = worker.run_audio_renderer(AudioEvent::Written, &mut clock);
    assert_eq!(worker.frames_written, 3);
    assert_eq!(command(action), AudioCommand::ReportReady);
    let waiting = AudioEvent::Asked { stop: false, activated: false };
    let action = worker.run_audio_renderer(waiting, &mut clock);
    assert_eq!(command(action), AudioCommand::AwaitActivation);
    let activated = AudioEvent::Asked { stop: false, activated: true };
    let action = worker.run_audio_renderer(activated, &mut clock);
    assert_eq!(command(action), AudioCommand::StartDevice);
    let action = worker.run_audio_renderer(AudioEvent::Started, &mut clock);
    assert_eq!(command(action), AudioCommand::ReadPosition);
    let origin = AudioEvent::Position { ticks: 100 };
    let action = worker.run_audio_renderer(origin, &mut clock);
    assert_eq!(command(action), AudioCommand::CheckControls);
    assert_eq!(clock.snapshot(), Some(0));

    let action = worker.run_audio_renderer(controls(true, true, 140), &mut clock);
    assert_eq!(command(action), AudioCommand::Pause);
    let action = worker.run_audio_renderer(AudioEvent::Transported, &mut clock);
    assert_eq!(
        command(action),
        AudioCommand::SetVolume(SessionVolume { volume: 100, muted: true })
    );
    let action = worker.run_audio_renderer(AudioEvent::VolumeSet, &mut clock);
    assert_eq!(command(action), AudioCommand::Sleep);
    let action = worker.run_audio_renderer(controls(true, true, 140), &mut clock);
    assert_eq!(command(action), AudioCommand::Sleep);
    let action = worker.run_audio_renderer(controls(false, true, 140), &mut clock);
    assert_eq!(command(action), AudioCommand::Resume);
    let action = worker.run_audio_renderer(AudioEvent::Transported, &mut clock);
    assert_eq!(command(action), AudioCommand::Wait);
    let action = worker.run_audio_renderer(AudioEvent::Waited(258), &mut clock);
    assert_eq!(command(action), AudioCommand::ReadPosition);
    let position = AudioEvent::Position { ticks: 115 };
    let action = worker.run_audio_renderer(position, &mut clock);
    assert_eq!(command(action), AudioCommand::Read);
    assert_eq!(clock.snapshot(), Some(15_000_000));
    let read = AudioEvent::Read(ReadResult::Data(vec![8; 12]));
    let action = worker.run_audio_renderer(read, &mut clock);
    assert_eq!(command(action), AudioCommand::ReadPadding);
    match worker.run_audio_renderer(AudioEvent::Padding(2), &mut clock) {
        AudioAction::Write { frames, bytes } => {
            assert_eq!(frames, 1);
            assert_eq!(bytes, vec![7, 8]);
        }
        _ => panic!("one frame fits"),
    }
    let action = worker.run_audio_renderer(AudioEvent::Written, &mut clock);
    assert_eq!(worker.frames_written, 4);
    assert_eq!(command(action), AudioCommand::CheckControls);
    let stop = AudioEvent::Controls(AudioControls {
        stop: true,
        paused: false,
        muted: true,
        volume: 140,
    });
    let action = worker.run_audio_renderer(stop, &mut clock);
    assert_eq!(command(action), AudioCommand::Finish { stop_device: true });
    assert_eq!(clock.snapshot(), None);
}

#[test]
fn a_mute_during_startup_reaches_the_session() {
    let mut clock = PlaybackClock::new();
    let mut worker = opened(&mut clock);
    let read = AudioEvent::Read(ReadResult::Data(vec![1; 6]));
    worker.run_audio_renderer(read, &mut clock);
    worker.run_audio_renderer(AudioEvent::Written, &mut clock);
    let activated = AudioEvent::Asked { stop: false, activated: true };
    worker.run_audio_renderer(activated, &mut clock);
    worker.run_audio_renderer(AudioEvent::Started, &mut clock);
    worker.run_audio_renderer(AudioEvent::Position { ticks: 7 }, &mut clock);
    let action = worker.run_audio_renderer(controls(false, true, 20), &mut clock);
    assert_eq!(
        command(action),
        AudioCommand::SetVolume(SessionVolume { volume: 20, muted: true })
    );
    let action = worker.run_audio_renderer(AudioEvent::VolumeSet, &mut clock);
    assert_eq!(command(action), AudioCommand::Wait);
}

#[test]
fn video_follows_the_audio_clock() {
    let mut clock = PlaybackClock::new();
    assert_eq!(clock.loop_start(), 0);
    assert_eq!(clock.frame_time(0, 1_234), 1_234);
    clock.activate();
    clock.update_from_device(20, 0, 10);
    assert_eq!(clock.frame_time(0, 1_234), 2_000_000_000);
    let start = clock.loop_start();
    assert_eq!(clock.frame_time(start, 1_234), 0);
    clock.update_from_device(25, 0, 10);
    assert_eq!(clock.frame_time(start, 1_234), 500_000_000);
    clock.update_from_device(u64::MAX, 0, 1);
    assert_eq!(clock.frame_time(start, 1_234), u64::MAX);
    clock.deactivate();
    assert_eq!(clock.frame_time(start, 1_234), 1_234);
}

#[test]
fn a_fast_device_clock_is_converted_exactly() {
    let mut clock = PlaybackClock::new();
    clock.activate();
    let frequency = 1_844_674_407_371;
    clock.update_from_device(frequency - 1, 0, frequency);
    assert_eq!(clock.snapshot(), Some(9_999_999));
}

#[test]
fn a_full_device_gets_nothing() {
    let mut clock = PlaybackClock::new();
    let mut worker = opened(&mut clock);
    let read = AudioEvent::Read(ReadResult::Data(vec![9; 30]));
    assert!(matches!(worker.run_audio_renderer(read, &mut clock), AudioAction::Write { .. }));
    worker.run_audio_renderer(AudioEvent::Written, &mut clock);
    let activated = AudioEvent::Asked { stop: false, activated: true };
    worker.run_audio_renderer(activated, &mut clock);
    worker.run_audio_renderer(AudioEvent::Started, &mut clock);
    let origin = AudioEvent::Position { ticks: 0 };
    worker.run_audio_renderer(origin, &mut clock);
    let action = worker.run_audio_renderer(controls(false, false, 70), &mut clock);
    assert_eq!(command(action), AudioCommand::Wait);
    worker.run_audio_renderer(AudioEvent::Waited(0), &mut clock);
    let position = AudioEvent::Position { ticks: 1 };
    let action = worker.run_audio_renderer(position, &mut clock);
    assert_eq!(command(action), AudioCommand::ReadPadding);
    let action = worker.run_audio_renderer(AudioEvent::Padding(9), &mut clock);
    assert_eq!(command(action), AudioCommand::CheckControls);
}

#[test]
fn a_file_without_sound_fails_the_worker() {
    let mut clock = PlaybackClock::new();
    let mut worker = opened(&mut clock);
    let mut reads = 1;
    loop {
        let empty = AudioEvent::Read(ReadResult::Empty);
        match worker.run_audio_renderer(empty, &mut clock) {
            AudioAction::Do(AudioCommand::Read) => reads += 1,
            AudioAction::Fail(error) => {
                assert_eq!(error, "The MP4 audio stream produced no decoded PCM samples.");
                break;
            }
            _ => panic!("it reads or fails"),
        }
    }
    assert_eq!(reads, 256);
}

#[test]
fn a_worker_fails_without_a_format_or_a_clock() {
    let mut clock = PlaybackClock::new();
    let mut worker = AudioWorker::new();
    assert!(matches!(
        worker.run_audio_renderer(AudioEvent::Format(Some(0)), &mut clock),
        AudioAction::Fail(_)
    ));
    let mut worker = AudioWorker::new();
    worker.run_audio_renderer(AudioEvent::Format(Some(4)), &mut clock);
    let device = AudioEvent::DeviceOpened {
        buffer_frames: 3,
        clock_frequency: 0,
        muted: false,
        volume: 70,
    };
    match worker.run_audio_renderer(device, &mut clock) {
        AudioAction::Fail(error) => {
            assert_eq!(error, "WASAPI returned a zero device-clock frequency.")
        }
        _ => panic!("the clock does not tick"),
    }
}

#[test]
fn a_worker_stopped_before_its_start_leaves_the_device_alone() {
    let mut clock = PlaybackClock::new();
    let mut worker = opened(&mut clock);
    let read = AudioEvent::Read(ReadResult::Data(vec![1; 6]));
    worker.run_audio_renderer(read, &mut clock);
    worker.run_audio_renderer(AudioEvent::Written, &mut clock);
    let stop = AudioEvent::Asked { stop: true, activated: true };
    let action = worker.run_audio_renderer(stop, &mut clock);
    assert_eq!(command(action), AudioCommand::Finish { stop_device: false });
}

#[test]
fn an_event_out_of_turn_changes_nothing() {
    let mut clock = PlaybackClock::new();
    let mut worker = opened(&mut clock);
    let action = worker.run_audio_renderer(AudioEvent::Started, &mut clock);
    assert_eq!(command(action), AudioCommand::Unexpected);
    let read = AudioEvent::Read(ReadResult::Empty);
    assert_eq!(command(worker.run_audio_renderer(read, &mut clock)), AudioCommand::Read);
}
