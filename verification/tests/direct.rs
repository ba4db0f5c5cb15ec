use wallpaper_core::direct_mft::{
    activate_gpu_decoder, can_configure_hardware_decoder_for_mp4,
    can_process_first_direct_mp4_sample, configure_decoder_input,
    create_gpu_decoder_session_for_mp4, feed_and_collect_output, has_d3d11_hardware_decoder,
    nv12_sample, output_samples_provided, probe_mp4_demuxer, process_sample_to_nv12,
    read_first_direct_video_sample, select_current_nv12_output_type, select_only_video_stream,
    try_process_output, DecoderAnswer, DecoderStep, DirectCodec, DirectEvent, DirectMp4EventStats,
    EventLoopProbe, FirstSample, OutputPull, OutputVerdict, StatusError, StreamReading, EVENT_MEDIA_SAMPLE,
    EVENT_NEW_STREAM, EVENT_STREAM_STARTED, MAJOR_TYPE_VIDEO, STATUS_NEED_MORE_INPUT,
    STATUS_NOT_ACCEPTING, STATUS_STREAM_CHANGE, SUBTYPE_H264, SUBTYPE_HEVC, SUBTYPE_NV12,
};
use wallpaper_core::smoke_test::{
    decode_only, FrameOutcome, NativeSmokeStats, SmokeAction, SmokeEvent, SmokeTest,
    EVENT_HAVE_OUTPUT, EVENT_NEED_INPUT,
};

fn text(value: &str) -> String {
    value.to_string()
}

fn video(subtype: Option<u128>) -> StreamReading {
    StreamReading::Typed { major: Some(MAJOR_TYPE_VIDEO), subtype }
}

fn sound() -> StreamReading {
    StreamReading::Typed { major: Some(5), subtype: Some(SUBTYPE_H264) }
}

#[test]
fn the_first_video_stream_tells_the_codec() {
    let streams = vec![sound(), StreamReading::Missing, video(Some(SUBTYPE_HEVC)), video(None)];
    assert_eq!(probe_mp4_demuxer(&streams), Ok(DirectCodec::Hevc));
    assert_eq!(create_gpu_decoder_session_for_mp4(&streams), Ok((2, SUBTYPE_HEVC)));
    assert_eq!(can_configure_hardware_decoder_for_mp4(&streams), Ok(Some((2, SUBTYPE_HEVC))));
    let streams = vec![video(Some(SUBTYPE_H264)), StreamReading::Unreadable(text("late"))];
    assert_eq!(probe_mp4_demuxer(&streams), Ok(DirectCodec::H264));
}

#[test]
fn other_codecs_are_refused() {
    let streams = vec![video(Some(0x31305641_0000_0010_8000_00aa00389b71))];
    assert_eq!(
        probe_mp4_demuxer(&streams),
        Err(text("Unsupported MP4 video subtype 31305641-0000-0010-8000-00AA00389B71."))
    );
    assert_eq!(
        create_gpu_decoder_session_for_mp4(&streams),
        Err(text("MP4 video codec is not H.264 or HEVC."))
    );
    assert_eq!(can_configure_hardware_decoder_for_mp4(&streams), Ok(None));
}

#[test]
fn what_cannot_be_read_ends_the_search() {
    let unreadable = vec![sound(), StreamReading::Unreadable(text("e"))];
    assert_eq!(probe_mp4_demuxer(&unreadable), Err(text("MP4 stream 1: e")));
    let untyped = vec![StreamReading::Untyped(text("e")), video(Some(SUBTYPE_H264))];
    assert_eq!(create_gpu_decoder_session_for_mp4(&untyped), Err(text("MP4 stream type: e")));
    let unnamed = vec![video(None)];
    assert_eq!(
        can_configure_hardware_decoder_for_mp4(&unnamed),
        Err(text("MP4 video stream has no subtype."))
    );
    let silent = vec![sound()];
    assert_eq!(probe_mp4_demuxer(&silent), Err(text("MP4 has no video stream.")));
    assert_eq!(
        create_gpu_decoder_session_for_mp4(&silent),
        Err(text("MP4 has no video stream."))
    );
    assert_eq!(can_configure_hardware_decoder_for_mp4(&silent), Ok(None));
}

#[test]
fn only_the_first_video_stream_is_selected() {
    let selection = select_only_video_stream(&vec![Ok(false), Ok(true), Ok(true)]);
    assert_eq!(selection.select, vec![false, true, false]);
    assert_eq!(selection.result, Ok(()));
    let selection = select_only_video_stream(&vec![Ok(false)]);
    assert_eq!(selection.result, Err(text("MP4 has no video stream.")));
    let selection = select_only_video_stream(&vec![Ok(true), Err(text("e")), Ok(true)]);
    assert_eq!(selection.select, vec![true]);
    assert_eq!(selection.result, Err(text("MP4 stream 1: e")));
}

#[test]
fn the_first_nv12_type_in_reach_is_chosen() {
    let mut subtypes = vec![None; 31];
    subtypes.push(Some(SUBTYPE_NV12));
    assert_eq!(select_current_nv12_output_type(&subtypes), Some(31));
    subtypes.insert(0, Some(SUBTYPE_H264));
    assert_eq!(select_current_nv12_output_type(&subtypes), None);
}

#[test]
fn a_decoder_is_taken_step_by_step() {
    let attributes = DecoderAnswer::Attributes { device_aware: 1, asynchronous: 1 };
    let mut step = activate_gpu_decoder(DecoderStep::ReadAttributes, attributes);
    assert_eq!(step, DecoderStep::UnlockEvents);
    step = activate_gpu_decoder(step, DecoderAnswer::Done);
    assert_eq!(step, DecoderStep::BindDevice);
    step = activate_gpu_decoder(step, DecoderAnswer::Done);
    assert_eq!(step, DecoderStep::SetInput);
    step = activate_gpu_decoder(step, DecoderAnswer::Done);
    assert_eq!(step, DecoderStep::ListOutputs);
    step = activate_gpu_decoder(step, DecoderAnswer::Outputs(vec![None, Some(SUBTYPE_NV12)]));
    assert_eq!(step, DecoderStep::SetOutput(1));
    step = activate_gpu_decoder(step, DecoderAnswer::Done);
    assert_eq!(step, DecoderStep::BeginStreaming);
    step = activate_gpu_decoder(step, DecoderAnswer::Done);
    assert_eq!(step, DecoderStep::StartStream);
    step = activate_gpu_decoder(step, DecoderAnswer::Done);
    assert_eq!(step, DecoderStep::Accepted);
}

#[test]
fn a_decoder_is_turned_down_at_the_first_failure() {
    let aside = DecoderAnswer::Attributes { device_aware: 0, asynchronous: 1 };
    assert_eq!(activate_gpu_decoder(DecoderStep::ReadAttributes, aside), DecoderStep::Rejected);
    let plain = DecoderAnswer::Attributes { device_aware: 1, asynchronous: 0 };
    assert_eq!(activate_gpu_decoder(DecoderStep::ReadAttributes, plain), DecoderStep::BindDevice);
    assert_eq!(
        activate_gpu_decoder(DecoderStep::SetInput, DecoderAnswer::Failed),
        DecoderStep::Rejected
    );
    assert_eq!(
        activate_gpu_decoder(DecoderStep::ListOutputs, DecoderAnswer::Outputs(vec![None])),
        DecoderStep::Rejected
    );
}

#[test]
fn one_capable_decoder_is_enough() {
    assert!(has_d3d11_hardware_decoder(&vec![None, Some(0)], &vec![Some(1)]));
    assert!(!has_d3d11_hardware_decoder(&vec![None, Some(0)], &vec![]));
    assert!(configure_decoder_input(&vec![None, Some(false), Some(true)]));
    assert!(!configure_decoder_input(&vec![None, Some(false)]));
}

#[test]
fn a_demuxing_session_ends_with_a_sample() {
    let mut probe = EventLoopProbe::new();
    assert_eq!(probe.stats, DirectMp4EventStats::default());
    assert_eq!(probe.event(Some(1)), DirectEvent::Ignore);
    assert_eq!(probe.event(Some(EVENT_NEW_STREAM)), DirectEvent::OpenStream);
    probe.stream_opened();
    assert_eq!(probe.event(Some(EVENT_NEW_STREAM)), DirectEvent::Ignore);
    assert_eq!(probe.event(Some(EVENT_STREAM_STARTED)), DirectEvent::StreamStarted);
    assert!(probe.goes_on(true));
    assert!(!probe.goes_on(false));
    assert_eq!(probe.event(Some(EVENT_MEDIA_SAMPLE)), DirectEvent::TakeSample);
    probe.sample_taken();
    assert!(!probe.goes_on(true));
    assert_eq!(
        probe.stats,
        DirectMp4EventStats { source_events: 2, stream_events: 3, samples: 1, stream_started: true }
    );
}

#[test]
fn a_single_sample_needs_a_decoder_without_events() {
    assert_eq!(can_process_first_direct_mp4_sample(false), Ok(()));
    assert_eq!(
        can_process_first_direct_mp4_sample(true),
        Err(text("Hardware MFT is asynchronous; use the event-driven native smoke test."))
    );
    assert_eq!(process_sample_to_nv12(false), Ok(()));
    assert_eq!(
        process_sample_to_nv12(true),
        Err(text("Hardware MFT is asynchronous; direct ProcessOutput is only valid after METransformHaveOutput."))
    );
    assert_eq!(output_samples_provided(0x107), Ok(()));
    assert_eq!(
        output_samples_provided(0x7),
        Err(text("Hardware MFT requires an application-owned output buffer; GPU surface allocation is the next compatibility path."))
    );
    assert_eq!(nv12_sample(Some(3)), Ok(3));
    assert_eq!(
        nv12_sample::<u8>(None),
        Err(text("Hardware MFT returned success without an NV12 output sample."))
    );
    assert_eq!(read_first_direct_video_sample(Some(3)), Ok(3));
    assert_eq!(
        read_first_direct_video_sample::<u8>(None),
        Err(text("Direct MP4 demuxer did not return a video sample before timeout."))
    );
}

fn failed(status: i32) -> Result<(), StatusError> {
    Err(StatusError { status, error: text("e") })
}

#[test]
fn output_is_pulled_twice_at_most() {
    let mut pull = OutputPull::new();
    assert_eq!(pull.begin(), Ok(()));
    assert!(matches!(try_process_output(failed(STATUS_STREAM_CHANGE)), OutputVerdict::Renegotiate));
    assert_eq!(pull.begin(), Ok(()));
    assert_eq!(
        pull.begin(),
        Err(text("Hardware MFT repeatedly changed its output stream type."))
    );
    assert!(matches!(try_process_output(Ok(())), OutputVerdict::Deliver));
    assert!(matches!(try_process_output(failed(STATUS_NEED_MORE_INPUT)), OutputVerdict::NoOutput));
    match try_process_output(failed(-1)) {
        OutputVerdict::Failed(error) => assert_eq!(error, "Hardware MFT ProcessOutput failed: e"),
        _ => panic!("it failed"),
    }
    assert_eq!(feed_and_collect_output(Ok(())), Ok(1));
    assert_eq!(feed_and_collect_output(failed(STATUS_NOT_ACCEPTING)), Ok(2));
    assert_eq!(
        feed_and_collect_output(failed(-1)),
        Err(text("Hardware MFT ProcessInput failed: e"))
    );
}

#[test]
fn a_read_takes_the_first_sample() {
    let mut read = FirstSample::new();
    assert_eq!(read.step(Some(EVENT_MEDIA_SAMPLE)), DirectEvent::Ignore);
    assert_eq!(read.step(Some(EVENT_NEW_STREAM)), DirectEvent::OpenStream);
    assert_eq!(read.step(None), DirectEvent::Ignore);
    assert_eq!(read.step(Some(EVENT_STREAM_STARTED)), DirectEvent::StreamStarted);
    assert!(read.goes_on(true));
    assert!(!read.goes_on(false));
    assert_eq!(read.step(Some(EVENT_MEDIA_SAMPLE)), DirectEvent::TakeSample);
    assert!(!read.goes_on(true));
}

type Run = SmokeTest<&'static str, u32>;

fn polled(kind: u32) -> SmokeEvent<&'static str, u32> {
    SmokeEvent::Polled(Some(kind))
}

fn nothing() -> SmokeEvent<&'static str, u32> {
    SmokeEvent::Polled(None)
}

fn tick() -> SmokeEvent<&'static str, u32> {
    SmokeEvent::Tick { time_left: true }
}

#[test]
fn a_run_with_events_feeds_and_presents() {
    let mut run = Run::new(true);
    assert!(matches!(run.step(tick()), SmokeAction::PollDecoder));
    assert!(matches!(run.step(nothing()), SmokeAction::PollSource));
    assert!(matches!(run.step(nothing()), SmokeAction::Pause(3)));
    run.step(tick());
    run.step(nothing());
    assert!(matches!(run.step(polled(EVENT_NEW_STREAM)), SmokeAction::OpenStream));
    assert!(matches!(run.step(SmokeEvent::StreamOpened), SmokeAction::Pause(1)));
    run.step(tick());
    assert!(matches!(run.step(nothing()), SmokeAction::PollStream));
    assert!(matches!(run.step(polled(EVENT_STREAM_STARTED)), SmokeAction::RequestSample));
    assert!(matches!(run.step(SmokeEvent::Requested), SmokeAction::Pause(1)));
    run.step(tick());
    run.step(nothing());
    assert!(matches!(run.step(polled(EVENT_MEDIA_SAMPLE)), SmokeAction::TakeSample));
    assert!(matches!(run.step(SmokeEvent::Sample("sample")), SmokeAction::RequestSample));
    run.step(SmokeEvent::Requested);
    run.step(tick());
    assert!(matches!(run.step(polled(EVENT_NEED_INPUT)), SmokeAction::PollDecoder));
    assert!(matches!(run.step(nothing()), SmokeAction::Feed("sample")));
    assert!(matches!(run.step(SmokeEvent::Fed), SmokeAction::PollStream));
    run.step(nothing());
    run.step(tick());
    assert!(matches!(run.step(polled(EVENT_HAVE_OUTPUT)), SmokeAction::PullOutput));
    assert!(matches!(run.step(SmokeEvent::Output(Some(7))), SmokeAction::PollDecoder));
    assert!(matches!(run.step(nothing()), SmokeAction::Present(7)));
    let dropped = SmokeEvent::Presented(FrameOutcome::FrameLatency);
    assert!(matches!(run.step(dropped), SmokeAction::PollStream));
    assert!(matches!(run.step(nothing()), SmokeAction::Pause(1)));
    let over = SmokeEvent::Tick { time_left: false };
    assert!(matches!(run.step(over), SmokeAction::Finish));
    assert_eq!(run.stats.dropped_frame_latency, 1);
    assert_eq!(
        run.result(),
        Err(text("Native smoke test decoded no frames after 1 input samples."))
    );
    run.stats.output_frames = 1;
    assert_eq!(
        run.result(),
        Ok(NativeSmokeStats {
            input_samples: 1,
            output_frames: 1,
            dropped_frame_latency: 1,
            dropped_compositor_busy: 0,
        })
    );
}

#[test]
fn a_round_takes_a_bounded_number_of_decoder_events() {
    let mut run = Run::new(true);
    run.step(tick());
    for _ in 0..63 {
        assert!(matches!(run.step(polled(EVENT_NEED_INPUT)), SmokeAction::PollDecoder));
    }
    assert!(matches!(run.step(polled(EVENT_NEED_INPUT)), SmokeAction::PollSource));
    assert_eq!(run.wanted_inputs, 64);
}

#[test]
fn a_run_without_events_drains_the_decoder() {
    let mut run = Run::new(false);
    assert!(matches!(run.step(tick()), SmokeAction::PollSource));
    run.step(polled(EVENT_NEW_STREAM));
    run.step(SmokeEvent::StreamOpened);
    run.step(tick());
    run.step(polled(EVENT_STREAM_STARTED));
    run.step(SmokeEvent::Requested);
    run.step(tick());
    run.step(polled(EVENT_MEDIA_SAMPLE));
    assert!(matches!(run.step(SmokeEvent::Sample("sample")), SmokeAction::Decode("sample")));
    assert!(matches!(run.step(SmokeEvent::Decoded { drains: 2 }), SmokeAction::PullOutput));
    let presented = || SmokeEvent::Presented(FrameOutcome::Presented);
    assert!(matches!(run.step(SmokeEvent::Output(Some(1))), SmokeAction::PullOutput));
    assert!(matches!(run.step(SmokeEvent::Output(Some(2))), SmokeAction::PullOutput));
    assert!(matches!(run.step(SmokeEvent::Output(Some(3))), SmokeAction::Present(1)));
    assert!(matches!(run.step(presented()), SmokeAction::PullOutput));
    assert!(matches!(run.step(SmokeEvent::Output(Some(4))), SmokeAction::Present(2)));
    assert!(matches!(run.step(presented()), SmokeAction::PullOutput));
    assert!(matches!(run.step(SmokeEvent::Output(None)), SmokeAction::PullOutput));
    assert!(matches!(run.step(SmokeEvent::Output(None)), SmokeAction::RequestSample));
    assert!(matches!(run.step(SmokeEvent::Requested), SmokeAction::Present(3)));
    assert!(matches!(run.step(presented()), SmokeAction::Present(4)));
    let busy = SmokeEvent::Presented(FrameOutcome::CompositorBusy);
    assert!(matches!(run.step(busy), SmokeAction::Pause(1)));
    assert_eq!(run.stats.output_frames, 3);
    assert_eq!(run.stats.dropped_compositor_busy, 1);
}

#[test]
fn a_full_queue_is_presented_before_more_is_pulled() {
    let mut run = Run::new(true);
    let presented = || SmokeEvent::Presented(FrameOutcome::Presented);
    run.step(tick());
    for frame in 1..4 {
        assert!(matches!(run.step(polled(EVENT_HAVE_OUTPUT)), SmokeAction::PullOutput));
        assert!(matches!(run.step(SmokeEvent::Output(Some(frame))), SmokeAction::PollDecoder));
    }
    assert!(matches!(run.step(polled(EVENT_HAVE_OUTPUT)), SmokeAction::Present(1)));
    assert!(matches!(run.step(presented()), SmokeAction::PullOutput));
    assert!(matches!(run.step(SmokeEvent::Output(Some(4))), SmokeAction::PollDecoder));
    assert!(matches!(run.step(nothing()), SmokeAction::Present(2)));
    assert!(matches!(run.step(presented()), SmokeAction::Present(3)));
    assert!(matches!(run.step(presented()), SmokeAction::Present(4)));
    assert!(matches!(run.step(presented()), SmokeAction::PollSource));
    assert_eq!(run.stats.output_frames, 4);
}

#[test]
fn a_setting_turns_presentation_off() {
    assert!(decode_only(&Some(text("1"))));
    assert!(!decode_only(&Some(text("true"))));
    assert!(!decode_only(&None));
}

#[test]
fn a_run_without_frames_fails() {
    let mut run = Run::new(false);
    run.stats.input_samples = 180;
    assert!(run.counts_fit());
    assert!(matches!(run.step(tick()), SmokeAction::Finish));
    assert_eq!(
        run.result(),
        Err(text("Native smoke test decoded no frames after 180 input samples."))
    );
}

#[test]
fn the_backlog_is_bounded() {
    let mut run = Run::new(true);
    run.stream_open = true;
    run.stream_started = true;
    let mut requested = 0;
    for _ in 0..20 {
        run.step(tick());
        run.step(nothing());
        let action = if run.sample_requested {
            run.step(polled(EVENT_MEDIA_SAMPLE));
            run.step(SmokeEvent::Sample("sample"))
        } else {
            run.step(nothing())
        };
        if matches!(action, SmokeAction::RequestSample) {
            requested += 1;
            run.step(SmokeEvent::Requested);
        }
    }
    assert_eq!(requested, 8);
    assert_eq!(run.compressed.len(), 8);
}

#[test]
fn an_event_out_of_turn_is_refused() {
    let mut run = Run::new(true);
    assert!(matches!(run.step(SmokeEvent::Fed), SmokeAction::Unexpected));
    assert!(matches!(run.step(tick()), SmokeAction::PollDecoder));
}
