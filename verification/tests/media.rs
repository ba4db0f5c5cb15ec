use wallpaper_core::direct_mft::{DirectCodec, DirectMp4EventStats};
use wallpaper_core::engine::{EngineState, FallbackStatus, PlaybackStatus};
use wallpaper_core::media_event_queue::{EventOrigin, MediaEventSubscription};
use wallpaper_core::media_path::{
    equal_ignoring_case, has_supported_extension, is_mp4, mp4_path, set_wallpaper,
    startup_delay_ms, PathArgument,
};
use wallpaper_core::mf_d3d11::{FrameCounts, NativeMp4Renderer};
use wallpaper_core::native_audio::NativeAudioRenderer;
use wallpaper_core::playback_clock::PlaybackClock;
use wallpaper_core::smoke_test::{FrameOutcome, NativeSmokeStats};
use wallpaper_core::status::{
    can_configure_direct_mft_decoder, can_create_direct_gpu_decoder_session,
    can_decode_direct_mp4_sample_to_nv12, can_present_direct_mp4_sample,
    can_process_direct_mp4_sample, diagnostic_host, get_engine_generation,
    get_engine_playback_status, get_last_error, get_native_audio_diagnostic,
    get_native_audio_fallback_status, get_native_audio_frame_count, get_native_mp4_diagnostic,
    get_native_renderer_callback_count, get_native_renderer_compositor_busy_drop_count,
    get_native_renderer_decoded_frame_count, get_native_renderer_dropped_frame_count,
    get_native_renderer_failure_code, get_native_renderer_frame_count,
    get_native_renderer_frame_latency_drop_count, get_native_renderer_last_callback_flags,
    get_native_renderer_last_callback_status, get_native_renderer_last_present_age_ms,
    get_native_renderer_last_request_status, get_native_renderer_late_drop_count,
    get_native_video_fallback_status, is_direct_mft_decoder_available, is_native_audio_ready,
    is_native_mp4_pipeline_ready, is_native_renderer_available, probe_direct_mp4_demuxer,
    probe_direct_mp4_event_loop, run_native_mp4_smoke_test,
};
use wallpaper_core::text::{
    joined, parse_unsigned, push_decimal, push_flag, push_hexadecimal, push_status, same_text,
};
use wallpaper_core::vlc::{
    instance_options, location_of_url, media_location, symbol_name, PlayerCommand, Release,
    VlcAction, VlcEvent, VlcPlayer, VlcRequest, VlcStart, REPEAT_OPTION,
};

type State = EngineState<u8, u8, u8, u8>;

fn text(value: &str) -> String {
    value.to_string()
}

#[test]
fn numbers_are_written_out() {
    let mut line = joined("n=", "");
    push_decimal(&mut line, 0);
    push_decimal(&mut line, u64::MAX);
    push_status(&mut line, 0xBEEF);
    push_hexadecimal(&mut line, 0x1234, 2);
    push_flag(&mut line, true);
    push_flag(&mut line, false);
    assert_eq!(line, "n=0184467440737095516150x0000BEEF34truefalse");
    assert!(same_text("a", "a"));
    assert!(!same_text("a", "b"));
}

#[test]
fn numbers_are_read() {
    assert_eq!(parse_unsigned("00120"), Some(120));
    assert_eq!(parse_unsigned("18446744073709551615"), Some(u64::MAX));
    assert_eq!(parse_unsigned("18446744073709551616"), None);
    assert_eq!(parse_unsigned(""), None);
    assert_eq!(parse_unsigned("1x"), None);
    assert_eq!(parse_unsigned("-1"), None);
    assert_eq!(startup_delay_ms(&Some(text("250"))), Some(250));
    assert_eq!(startup_delay_ms(&Some(text("99999"))), Some(5_000));
    assert_eq!(startup_delay_ms(&Some(text("0"))), None);
    assert_eq!(startup_delay_ms(&Some(text("soon"))), None);
    assert_eq!(startup_delay_ms(&None), None);
}

#[test]
fn wallpapers_are_known_by_their_extension() {
    assert!(is_mp4("/videos/Clip.Mp4"));
    assert!(!is_mp4("/videos/mp4"));
    assert!(!is_mp4("/videos/.mp4"));
    assert!(!is_mp4("/videos.mp4/clip"));
    assert!(has_supported_extension("a.b.WEBP"));
    assert!(has_supported_extension("a.gif"));
    assert!(!has_supported_extension("a.avi"));
    assert!(!has_supported_extension("a."));
    assert!(equal_ignoring_case("WebP", "wEBp"));
    assert!(!equal_ignoring_case("webp", "webm"));
    assert!(!equal_ignoring_case("k", "\u{212a}"));
}

#[test]
fn a_wallpaper_has_to_be_a_supported_file() {
    let mut state = State::new();
    let path = || PathArgument::Text(text("/w/a.mp4"));
    let full = || Some(text("/w/a.mp4"));
    assert_eq!(set_wallpaper(&mut state, path(), full()), full());
    assert_eq!(state.last_error, "");
    assert_eq!(set_wallpaper(&mut state, path(), None), None);
    let refused = "File does not exist or has an unsupported extension.";
    assert_eq!(state.last_error, refused);
    state.last_error = text("");
    let plain = PathArgument::Text(text("/w/a.txt"));
    assert_eq!(set_wallpaper(&mut state, plain, Some(text("/w/a.txt"))), None);
    assert_eq!(state.last_error, refused);
    assert_eq!(set_wallpaper(&mut state, PathArgument::Null, None), None);
    assert_eq!(state.last_error, "Wallpaper path is null.");
    assert_eq!(set_wallpaper(&mut state, PathArgument::NotUtf8, None), None);
    assert_eq!(state.last_error, "Wallpaper path is not valid UTF-8.");
}

#[test]
fn a_relative_path_plays_as_its_absolute_one() {
    let mut state = State::new();
    for name in ["a.gif", "a.webp", "../w/A.WebP"] {
        let argument = PathArgument::Text(text(name));
        let accepted = set_wallpaper(&mut state, argument, Some(text(absolute())));
        assert_eq!(accepted, Some(text(absolute())));
        let mut start = loaded(&accepted.unwrap(), true);
        assert!(matches!(start.start(VlcEvent::Instance(6)), VlcAction::OpenMedia(_)));
    }
}

#[test]
fn a_diagnostic_has_to_have_a_path() {
    let mut state = State::new();
    assert_eq!(mp4_path(&mut state, PathArgument::Null), None);
    assert_eq!(state.last_error, "MP4 path is null.");
    assert_eq!(mp4_path(&mut state, PathArgument::NotUtf8), None);
    assert_eq!(state.last_error, "MP4 path is not valid UTF-8.");
    assert_eq!(mp4_path(&mut state, PathArgument::Text(text("a"))), Some(text("a")));
}

#[test]
fn a_callback_hands_on_what_it_gets() {
    let origin = EventOrigin::Stream(4);
    let mut subscription = MediaEventSubscription::start(origin, Ok(()), Ok(())).unwrap();
    let mut count = 0;
    let queued = subscription.invoke(&mut count, Some(Ok(9)));
    assert_eq!((queued.origin, queued.event), (origin, Ok(9)));
    let queued = subscription.invoke::<u8>(&mut count, Some(Err(text("e"))));
    assert_eq!(queued.event, Err(text("Asynchronous Media Foundation event failed: e")));
    let queued = subscription.invoke::<u8>(&mut count, None);
    assert_eq!(
        queued.event,
        Err(text("Media Foundation invoked an event callback without a result."))
    );
    assert_eq!(count, 3);
    assert!(subscription.asks_again(true, true, false));
    assert!(!subscription.asks_again(false, true, false));
    assert!(!subscription.asks_again(true, false, false));
    assert!(!subscription.asks_again(true, true, true));
    subscription.close();
    assert!(!subscription.asks_again(true, true, false));
}

#[test]
fn a_subscription_can_fail() {
    let origin = EventOrigin::Transform;
    let e = || Err(text("e"));
    assert_eq!(
        MediaEventSubscription::start(origin, e(), Ok(())).unwrap_err(),
        "Could not create Media Foundation callback state: e"
    );
    assert_eq!(
        MediaEventSubscription::start(origin, Ok(()), e()).unwrap_err(),
        "Could not subscribe to Media Foundation events: e"
    );
}

#[test]
fn a_path_becomes_a_file_location() {
    let path = if cfg_windows() { "C:\\w\\a b.mp4" } else { "/w/a b.mp4" };
    let location = if cfg_windows() { "file:///C:/w/a%20b.mp4" } else { "file:///w/a%20b.mp4" };
    assert_eq!(media_location(path), Ok(text(location)));
    let path = if cfg_windows() { "C:\\a\0" } else { "/a\0" };
    assert!(media_location(path).unwrap().ends_with("/a%00"));
}

fn cfg_windows() -> bool {
    std::path::MAIN_SEPARATOR == '\\'
}

#[test]
fn a_location_has_to_be_a_c_string() {
    assert_eq!(location_of_url(Some(text("file:///a"))), Ok(text("file:///a")));
    assert_eq!(
        location_of_url(Some(text("file:///a\0"))),
        Err(text("Wallpaper URI contains an invalid NUL byte."))
    );
    assert_eq!(
        location_of_url(None),
        Err(text("Could not convert the wallpaper path to a file URI."))
    );
}

#[test]
fn libvlc_gets_its_options() {
    let options = instance_options("C:\\vlc\\plugins", 0, false).unwrap();
    assert_eq!(
        options,
        vec![
            "--no-video-title-show",
            "--no-osd",
            "--no-media-library",
            "--input-repeat=-1",
            "--vout=direct3d11",
            "--avcodec-hw=d3d11va",
            "--plugin-path=C:\\vlc\\plugins",
            "--drop-late-frames",
            "--skip-frames",
            "--no-video",
        ]
    );
    assert_eq!(instance_options("p", 1, true).unwrap().len(), 8);
    assert_eq!(instance_options("p", 2, true).unwrap().len(), 7);
    assert_eq!(instance_options("p\0", 2, true), Err(text("Invalid libVLC plugin path.")));
    assert_eq!(REPEAT_OPTION, ":input-repeat=-1");
}

fn request(path: &str, show_video: bool) -> VlcRequest {
    VlcRequest { path: text(path), window: 31, performance_mode: 2, show_video }
}

fn loaded(path: &str, show_video: bool) -> VlcStart {
    let mut start = VlcStart::new(request(path, show_video));
    assert!(matches!(
        start.start(VlcEvent::Runtime(Some(text("plugins")))),
        VlcAction::SetSearchPath
    ));
    assert!(matches!(start.start(VlcEvent::SearchPathSet(Ok(()))), VlcAction::Load));
    let mut action = start.start(VlcEvent::Loaded(Ok(5)));
    for index in 0..13 {
        match action {
            VlcAction::FindSymbol(name) => assert_eq!(name, symbol_name(index)),
            _ => panic!("a function is looked up"),
        }
        action = start.start(VlcEvent::Symbol(true));
    }
    match action {
        VlcAction::CreateInstance(options) => {
            assert_eq!(options[6], "--plugin-path=plugins")
        }
        _ => panic!("every function is there"),
    }
    start
}

fn given_up(action: VlcAction) -> (String, Vec<Release>) {
    match action {
        VlcAction::Fail { error, release } => (error, release),
        _ => panic!("it failed"),
    }
}

fn absolute() -> &'static str {
    if cfg_windows() {
        "C:\\a.gif"
    } else {
        "/a.gif"
    }
}

#[test]
fn a_player_is_brought_up() {
    let mut start = loaded(absolute(), true);
    match start.start(VlcEvent::Instance(6)) {
        VlcAction::OpenMedia(location) => assert!(location.starts_with("file:///")),
        _ => panic!("the path is absolute"),
    }
    assert!(matches!(start.start(VlcEvent::Media(7)), VlcAction::CreatePlayer));
    assert!(matches!(
        start.start(VlcEvent::Player(8)),
        VlcAction::SetWindow { player: 8, window: 31 }
    ));
    assert!(matches!(start.start(VlcEvent::WindowSet), VlcAction::Play { player: 8 }));
    let player = match start.start(VlcEvent::Played(0)) {
        VlcAction::Done(player) => player,
        _ => panic!("it plays"),
    };
    assert_eq!(player, VlcPlayer { module: 5, instance: 6, media: 7, player: 8 });
    assert_eq!(player.set_paused(true), PlayerCommand { player: 8, value: 1 });
    assert_eq!(player.set_muted(false), PlayerCommand { player: 8, value: 0 });
    assert_eq!(player.set_volume(101), PlayerCommand { player: 8, value: 100 });
    assert_eq!(
        player.stop(),
        vec![
            Release::StopPlayer(8),
            Release::Player(8),
            Release::Media(7),
            Release::Instance(6),
            Release::Library(5),
        ]
    );
}

#[test]
fn a_player_that_fails_gives_back_what_it_took() {
    let mut start = loaded(absolute(), false);
    assert_eq!(
        given_up(start.start(VlcEvent::Instance(0))),
        (text("libVLC could not create a playback instance."), vec![Release::Library(5)])
    );
    let mut start = loaded("a.gif", false);
    assert_eq!(
        given_up(start.start(VlcEvent::Instance(6))),
        (text("Could not convert the wallpaper path to a file URI."), vec![])
    );
    let mut start = loaded(absolute(), false);
    start.start(VlcEvent::Instance(6));
    assert_eq!(
        given_up(start.start(VlcEvent::Media(0))),
        (
            text("libVLC could not open the media URI."),
            vec![Release::Instance(6), Release::Library(5)]
        )
    );
    let mut start = loaded(absolute(), false);
    start.start(VlcEvent::Instance(6));
    start.start(VlcEvent::Media(7));
    assert_eq!(
        given_up(start.start(VlcEvent::Player(0))),
        (
            text("libVLC could not create a media player."),
            vec![Release::Media(7), Release::Instance(6), Release::Library(5)]
        )
    );
    let mut start = loaded(absolute(), false);
    start.start(VlcEvent::Instance(6));
    start.start(VlcEvent::Media(7));
    assert!(matches!(start.start(VlcEvent::Player(8)), VlcAction::Play { player: 8 }));
    let (error, release) = given_up(start.start(VlcEvent::Played(-1)));
    assert_eq!(error, "libVLC rejected the playback request.");
    assert_eq!(release[0], Release::Player(8));
    assert_eq!(release.len(), 4);
}

#[test]
fn a_library_that_is_not_there_is_reported() {
    let mut start = VlcStart::new(request("a", true));
    assert_eq!(
        given_up(start.start(VlcEvent::Runtime(None))),
        (text("libVLC runtime directory is missing."), vec![])
    );
    let mut start = VlcStart::new(request("a", true));
    start.start(VlcEvent::Runtime(Some(text("p"))));
    assert_eq!(
        given_up(start.start(VlcEvent::SearchPathSet(Err(text("e"))))).0,
        "Cannot configure libVLC DLL search path: e"
    );
    let mut start = VlcStart::new(request("a", true));
    start.start(VlcEvent::Runtime(Some(text("p"))));
    start.start(VlcEvent::SearchPathSet(Ok(())));
    assert_eq!(
        given_up(start.start(VlcEvent::Loaded(Err(text("e"))))).0,
        "Cannot load libvlc.dll: e"
    );
    let mut start = VlcStart::new(request("a", true));
    start.start(VlcEvent::Runtime(Some(text("p"))));
    start.start(VlcEvent::SearchPathSet(Ok(())));
    start.start(VlcEvent::Loaded(Ok(5)));
    start.start(VlcEvent::Symbol(true));
    assert_eq!(
        given_up(start.start(VlcEvent::Symbol(false))),
        (text("libVLC export 'libvlc_release' is missing."), vec![])
    );
}

#[test]
fn texts_are_cut_to_the_buffer() {
    let mut state = State::new();
    state.last_error = text("h\u{e9}llo");
    state.native_mp4_diagnostic = text("video");
    state.native_audio_diagnostic = text("sound");
    let copy = get_last_error(Some(&state), 64);
    assert_eq!(copy.length, 6);
    assert_eq!(copy.bytes, b"h\xc3\xa9llo\0".to_vec());
    let copy = get_last_error(Some(&state), 3);
    assert_eq!((copy.length, copy.bytes), (6, b"h\xc3\0".to_vec()));
    let copy = get_last_error(Some(&state), 0);
    assert_eq!((copy.length, copy.bytes), (6, Vec::new()));
    assert_eq!(get_native_mp4_diagnostic(Some(&state), 6).bytes, b"video\0".to_vec());
    assert_eq!(get_native_audio_diagnostic(Some(&state), 1).bytes, b"\0".to_vec());
    let copy = get_last_error::<u8, u8, u8, u8>(None, 64);
    assert_eq!(copy.bytes, b"Engine state lock failed.\0".to_vec());
}

#[test]
fn the_state_of_the_engine_has_numbers() {
    let mut state = State::new();
    state.playback_status = PlaybackStatus::RunningHybrid;
    state.video_fallback_status = FallbackStatus::Active;
    state.audio_fallback_status = FallbackStatus::InProgress;
    state.generation = 12;
    state.native_mp4_failure_code = 7;
    state.d3d11_media_foundation_available = true;
    let seen = Some(&state);
    assert_eq!(get_engine_playback_status(seen), 3);
    assert_eq!(get_native_video_fallback_status(seen), 2);
    assert_eq!(get_native_audio_fallback_status(seen), 1);
    assert_eq!(get_engine_generation(seen), 12);
    assert_eq!(get_native_renderer_failure_code(seen), 7);
    assert!(is_native_renderer_available(seen));
    assert_eq!(PlaybackStatus::Failed.code(), 6);
    assert_eq!(FallbackStatus::Failed.code(), 3);
}

#[test]
fn an_engine_that_cannot_be_had_is_told_apart() {
    let gone: Option<&State> = None;
    assert_eq!(get_engine_playback_status(gone), 6);
    assert_eq!(get_native_video_fallback_status(gone), 3);
    assert_eq!(get_native_audio_fallback_status(gone), 3);
    assert_eq!(get_engine_generation(gone), u64::MAX);
    assert_eq!(get_native_renderer_failure_code(gone), u32::MAX);
    assert!(!is_native_renderer_available(gone));
}

#[test]
fn the_renderer_can_be_asked() {
    let mut renderer = NativeMp4Renderer::start();
    assert!(!is_native_mp4_pipeline_ready(Some(&renderer), 0));
    let mut counts = FrameCounts::new();
    counts.count(FrameOutcome::Presented);
    renderer.frames_counted(counts, 5);
    counts.count(FrameOutcome::FrameLatency);
    counts.count(FrameOutcome::CompositorBusy);
    renderer.frames_counted(counts, 7);
    renderer.on_read_sample(-3, 9, false, false);
    renderer.request_made(Some(-4));
    renderer.dropped_late = 3;
    let seen = Some(&renderer);
    assert!(is_native_mp4_pipeline_ready(seen, 9_000));
    assert_eq!(get_native_renderer_frame_count(seen), 1);
    assert_eq!(get_native_renderer_decoded_frame_count(seen), 3);
    assert_eq!(get_native_renderer_dropped_frame_count(seen), 5);
    assert_eq!(get_native_renderer_frame_latency_drop_count(seen), 1);
    assert_eq!(get_native_renderer_compositor_busy_drop_count(seen), 1);
    assert_eq!(get_native_renderer_late_drop_count(seen), 3);
    assert_eq!(get_native_renderer_late_drop_count(None), 0);
    assert_eq!(get_native_renderer_last_present_age_ms(seen, 25), 20);
    assert_eq!(get_native_renderer_callback_count(seen), 1);
    assert_eq!(get_native_renderer_last_callback_status(seen), -3);
    assert_eq!(get_native_renderer_last_callback_flags(seen), 9);
    assert_eq!(get_native_renderer_last_request_status(seen), -4);
    assert_eq!(get_native_renderer_last_present_age_ms(None, 25), u64::MAX);
    assert_eq!(get_native_renderer_frame_count(None), 0);
    assert!(!is_native_mp4_pipeline_ready(None, 0));
}

#[test]
fn the_audio_can_be_asked() {
    let mut audio = NativeAudioRenderer::start(false, 10);
    assert!(!is_native_audio_ready(Some(&audio)));
    audio.frames_counted(5);
    assert!(is_native_audio_ready(Some(&audio)));
    assert_eq!(get_native_audio_frame_count(Some(&audio)), 5);
    audio.worker_ended(&mut PlaybackClock::new(), true);
    assert!(!is_native_audio_ready(Some(&audio)));
    assert_eq!(get_native_audio_frame_count(None), 0);
}

#[test]
fn diagnostics_report_and_record() {
    let mut state = State::new();
    let e = || text("e");
    assert_eq!(probe_direct_mp4_demuxer(&mut state, Ok(DirectCodec::H264)), 1);
    assert_eq!(probe_direct_mp4_demuxer(&mut state, Ok(DirectCodec::Hevc)), 2);
    assert_eq!(state.last_error, "");
    assert_eq!(probe_direct_mp4_demuxer(&mut state, Err(e())), 0);
    assert_eq!(state.last_error, "e");

    let mut stats = DirectMp4EventStats::default();
    stats.source_events = 3;
    stats.stream_events = 14;
    stats.stream_started = true;
    assert_eq!(probe_direct_mp4_event_loop(&mut state, Ok(stats)), 0);
    assert_eq!(
        state.last_error,
        "MP4 direct event loop returned no samples (source events: 3, stream events: 14, started: true)."
    );
    stats.samples = 2;
    assert_eq!(probe_direct_mp4_event_loop(&mut state, Ok(stats)), 2);
    assert_eq!(probe_direct_mp4_event_loop(&mut state, Err(e())), 0);

    assert!(can_configure_direct_mft_decoder(&mut state, Ok(true)));
    assert!(!can_configure_direct_mft_decoder(&mut state, Ok(false)));
    assert_eq!(state.last_error, "No hardware MFT accepted this MP4 video media type.");
    assert!(!can_configure_direct_mft_decoder(&mut state, Err(e())));
    assert_eq!(state.last_error, "e");

    state.last_error = text("");
    assert!(!can_create_direct_gpu_decoder_session(&mut state, Ok(false)));
    assert_eq!(state.last_error, "");
    assert!(can_create_direct_gpu_decoder_session(&mut state, Ok(true)));
    assert!(can_process_direct_mp4_sample(&mut state, Ok(true)));
    assert!(can_decode_direct_mp4_sample_to_nv12(&mut state, Ok(())));
    assert!(can_present_direct_mp4_sample(&mut state, Ok(())));
    assert!(!can_process_direct_mp4_sample(&mut state, Err(e())));
    assert!(!can_decode_direct_mp4_sample_to_nv12(&mut state, Err(e())));
    assert!(!can_present_direct_mp4_sample(&mut state, Err(e())));
    assert_eq!(state.last_error, "e");

    assert_eq!(diagnostic_host(&mut state), None);
    assert_eq!(state.last_error, "Wallpaper host window is not initialized.");
    state.host_window = 4;
    assert_eq!(diagnostic_host(&mut state), Some(4));

    let stats = NativeSmokeStats {
        input_samples: 180,
        output_frames: 175,
        dropped_frame_latency: 4,
        dropped_compositor_busy: 1,
    };
    assert_eq!(run_native_mp4_smoke_test(&mut state, Ok(stats)), 175);
    assert_eq!(
        state.last_error,
        "Native smoke test passed: 180 input samples, 175 presented GPU frames, 4 frame-latency drops, 1 compositor-busy drops."
    );
    assert_eq!(run_native_mp4_smoke_test(&mut state, Err(e())), 0);
    assert_eq!(state.last_error, "e");
    assert!(is_direct_mft_decoder_available(&vec![Some(1)], &vec![]));
}
