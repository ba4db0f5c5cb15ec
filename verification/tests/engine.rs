use wallpaper_core::controls::{Control, ControlRequest, ControlTarget};
use wallpaper_core::desktop::{
    desktop_found, find_workerw, foreground_is_external_application, foreground_is_fullscreen,
    host_created, host_placement, init_engine, is_desktop_class, monitor_started, release_monitor,
    resize_to_parent, worker_found, ForegroundWindow, InitStep, Placement, Rect,
};
use wallpaper_core::engine::{
    clear_playback_preserving_host, commit_wallpaper, fail_wallpaper, finish_clear, finish_stop,
    generation_is_current, is_current_playback_request, set_black_desktop,
    set_mute_when_other_app_open, set_muted, set_performance_mode, set_stretch_to_fill, set_volume,
    start_wallpaper, stop_engine, Commit, EngineState, FallbackStatus, PlaybackResources,
    PlaybackStatus, PreparedPlayback, StopRequest,
};
use wallpaper_core::monitor::{
    fallback_audio_to_vlc_if_native_failed, fallback_to_vlc_if_native_failed,
    finish_audio_fallback, finish_video_fallback, fullscreen_monitor, fullscreen_pause_disabled,
    monitor_should_stop, Fallback, NativeFailure, MONITOR_INTERVAL_MS,
};
use wallpaper_core::preparation::{
    audio_started, player_started, prepare_media, prepare_playback, renderer_started,
    PreparationStep, RendererFailure,
};

type State = EngineState<&'static str, &'static str, &'static str, u32>;

fn text(value: &str) -> String {
    value.to_string()
}

fn native() -> PreparedPlayback<&'static str, &'static str, &'static str> {
    PreparedPlayback {
        resources: PlaybackResources {
            player: None,
            native_renderer: Some("renderer"),
            native_audio: Some("audio"),
        },
        native_mp4_diagnostic: text("video"),
        native_audio_diagnostic: text("sound"),
        native_mp4_failure_code: 0,
        video_fallback_status: FallbackStatus::Idle,
        audio_fallback_status: FallbackStatus::Idle,
        status: PlaybackStatus::RunningNative,
    }
}

fn running() -> State {
    let mut state = State::new();
    state.host_window = 77;
    let started = start_wallpaper(&mut state, text("C:\\a.mp4")).unwrap();
    match commit_wallpaper(&mut state, started.config.generation, native()) {
        Commit::Committed(_) => {}
        Commit::Superseded(_) => panic!("the start is current"),
    }
    state
}

fn names(requests: Vec<StopRequest<&'static str, &'static str, &'static str>>) -> Vec<&'static str> {
    let mut found = Vec::new();
    for request in requests {
        found.push(match request {
            StopRequest::Player(name) => name,
            StopRequest::Renderer(name) => name,
            StopRequest::Audio(name) => name,
        });
    }
    found
}

fn player(control: Control) -> ControlRequest {
    ControlRequest { target: ControlTarget::Player, control }
}

fn renderer(control: Control) -> ControlRequest {
    ControlRequest { target: ControlTarget::Renderer, control }
}

fn audio(control: Control) -> ControlRequest {
    ControlRequest { target: ControlTarget::Audio, control }
}

#[test]
fn fallback_can_begin_only_once_until_the_next_wallpaper_resets_it() {
    let mut status = FallbackStatus::Idle;

    assert!(status.try_begin());
    assert_eq!(status, FallbackStatus::InProgress);
    assert!(!status.try_begin());

    status = FallbackStatus::Active;
    assert!(!status.try_begin());

    status = FallbackStatus::Failed;
    assert!(!status.try_begin());

    status = FallbackStatus::Idle;
    assert!(status.try_begin());
}

#[test]
fn only_the_latest_starting_generation_can_commit_resources() {
    assert!(is_current_playback_request(8, PlaybackStatus::Starting, 8));
    assert!(!is_current_playback_request(9, PlaybackStatus::Starting, 8));
    assert!(!is_current_playback_request(8, PlaybackStatus::Stopping, 8));
    assert!(!is_current_playback_request(8, PlaybackStatus::Failed, 8));
}

#[test]
fn a_new_engine_has_the_default_settings() {
    let state = State::new();
    assert_eq!(state.playback_status, PlaybackStatus::default());
    assert_eq!(state.video_fallback_status, FallbackStatus::default());
    assert_eq!((state.volume, state.performance_mode), (100, 1));
    assert!(state.stretch_to_fill && !state.muted);
}

#[test]
fn settings_are_brought_into_range() {
    let mut state = State::new();
    state.native_audio = Some("audio");
    assert_eq!(set_volume(&mut state, 250), vec![audio(Control::Volume(100))]);
    assert_eq!(set_volume(&mut state, -3), vec![audio(Control::Volume(0))]);
    assert_eq!(set_volume(&mut state, 40), vec![audio(Control::Volume(40))]);
    assert_eq!(state.volume, 40);
    assert!(set_performance_mode(&mut state, 9));
    assert_eq!(state.performance_mode, 2);
    assert!(set_performance_mode(&mut state, -1));
    assert_eq!(state.performance_mode, 0);
    assert!(set_stretch_to_fill(&mut state, false));
    assert!(!state.stretch_to_fill);
}

#[test]
fn a_setting_clears_the_last_error() {
    let mut state = State::new();
    state.last_error = text("old");
    set_volume(&mut state, 1);
    assert_eq!(state.last_error, "");
}

#[test]
fn the_users_mute_wins_over_the_automatic_one() {
    let mut state = running();
    let told = |muted| vec![audio(Control::Mute(muted))];
    assert_eq!(set_muted(&mut state, true), told(true));
    assert_eq!(set_mute_when_other_app_open(&mut state, true, false), told(true));
    assert_eq!(set_muted(&mut state, false), told(false));
    assert_eq!(set_mute_when_other_app_open(&mut state, true, true), told(true));
    assert_eq!(set_mute_when_other_app_open(&mut state, false, true), told(false));
}

#[test]
fn only_those_that_are_there_are_told() {
    let mut state = State::new();
    assert_eq!(set_muted(&mut state, true), vec![]);
    assert_eq!(fullscreen_monitor(&mut state, true, false), vec![]);
    state.player = Some("player");
    state.native_renderer = Some("renderer");
    assert_eq!(set_volume(&mut state, 5), vec![player(Control::Volume(5))]);
    let resumed = Control::Pause(false);
    assert_eq!(
        fullscreen_monitor(&mut state, false, false),
        vec![player(resumed), renderer(resumed)]
    );
}

#[test]
fn a_start_hands_out_what_played_before() {
    let mut state = running();
    state.muted = true;
    let started = start_wallpaper(&mut state, text("C:\\b.mp4")).unwrap();
    assert_eq!(started.config.generation, 2);
    assert!(started.config.muted);
    assert_eq!(started.config.host_window, 77);
    assert_eq!(names(started.previous.stop()), vec!["renderer", "audio"]);
    assert_eq!(state.playback_status, PlaybackStatus::Starting);
    assert_eq!(state.active_media, Some(text("C:\\b.mp4")));
    assert!(generation_is_current(Some(&state), 2));
    assert!(!generation_is_current(Some(&state), 1));
    assert!(!generation_is_current::<u8, u8, u8, u8>(None, 1));
}

#[test]
fn a_superseded_start_gets_its_resources_back() {
    let mut state = State::new();
    let first = start_wallpaper(&mut state, text("a")).unwrap().config.generation;
    let second = start_wallpaper(&mut state, text("b")).unwrap().config.generation;
    match commit_wallpaper(&mut state, first, native()) {
        Commit::Superseded(resources) => assert_eq!(names(resources.stop()), vec!["renderer", "audio"]),
        Commit::Committed(_) => panic!("a newer start went ahead"),
    }
    fail_wallpaper(&mut state, first, text("late"));
    assert_eq!(state.playback_status, PlaybackStatus::Starting);
    match commit_wallpaper(&mut state, second, native()) {
        Commit::Committed(requests) => assert_eq!(
            requests,
            vec![
                renderer(Control::Pause(false)),
                audio(Control::Mute(false)),
                audio(Control::Volume(100)),
                audio(Control::Pause(false)),
            ]
        ),
        Commit::Superseded(_) => panic!("the latest start is current"),
    }
    assert_eq!(state.playback_status, PlaybackStatus::RunningNative);
    match commit_wallpaper(&mut state, second, native()) {
        Commit::Superseded(_) => {}
        Commit::Committed(_) => panic!("a start is committed once"),
    }
}

#[test]
fn a_failed_start_is_recorded() {
    let mut state = State::new();
    let generation = start_wallpaper(&mut state, text("a")).unwrap().config.generation;
    fail_wallpaper(&mut state, generation, text("no decoder"));
    assert_eq!(state.playback_status, PlaybackStatus::Failed);
    assert_eq!(state.active_media, None);
    assert_eq!(state.last_error, "no decoder");
}

#[test]
fn a_shutdown_hands_out_everything() {
    let mut state = running();
    state.monitor = Some(5);
    let shutdown = stop_engine(&mut state);
    assert_eq!(shutdown.monitor, Some(5));
    assert_eq!(shutdown.host_window, 77);
    assert_eq!(names(shutdown.resources.stop()), vec!["renderer", "audio"]);
    assert!(state.monitor_stop);
    assert!(monitor_should_stop(Some(&state)));
    assert!(monitor_should_stop::<u8, u8, u8, u8>(None));
    assert!(start_wallpaper(&mut state, text("c")).is_none());
    assert_eq!(state.last_error, "Engine shutdown is in progress.");
    finish_stop(&mut state);
    assert_eq!(state.playback_status, PlaybackStatus::Stopped);
    assert_eq!(state.host_window, 0);
    let again = stop_engine(&mut state);
    assert!(again.resources.stop().is_empty());
    assert_eq!((again.monitor, again.host_window), (None, 0));
    finish_stop(&mut state);
    assert!(start_wallpaper(&mut state, text("c")).is_some());
}

#[test]
fn clearing_keeps_the_window() {
    let mut state = running();
    let cleared = clear_playback_preserving_host(&mut state);
    assert_eq!(names(cleared.resources.stop()), vec!["renderer", "audio"]);
    finish_clear(&mut state, cleared.generation + 1);
    assert_eq!(state.playback_status, PlaybackStatus::Stopping);
    finish_clear(&mut state, cleared.generation);
    assert_eq!(state.playback_status, PlaybackStatus::Stopped);
    assert_eq!(state.host_window, 77);
    assert!(set_black_desktop(&mut state, true, true));
    assert!(!set_black_desktop(&mut state, true, false));
    assert_eq!(state.last_error, "Could not set the desktop background to black.");
}

#[test]
fn resources_stop_in_order() {
    let resources = PlaybackResources {
        player: Some("player"),
        native_renderer: Some("renderer"),
        native_audio: Some("audio"),
    };
    assert_eq!(names(resources.stop()), vec!["player", "renderer", "audio"]);
}

#[test]
fn a_failed_renderer_falls_back_once() {
    let mut state = running();
    let failure = || Some(NativeFailure { code: 4, diagnostic: String::new() });
    let start = match fallback_to_vlc_if_native_failed(&mut state, failure()) {
        Fallback::Start(start) => start,
        _ => panic!("a fallback is due"),
    };
    assert_eq!(start.request.path, "C:\\a.mp4");
    assert!(start.request.show_video);
    assert_eq!(start.cause, "[FailureCode=4] Native renderer stopped without a diagnostic.");
    assert_eq!(names(start.stop), vec!["renderer", "audio"]);
    assert!(matches!(
        fallback_to_vlc_if_native_failed(&mut state, failure()),
        Fallback::NotNeeded
    ));
    state.muted = true;
    let requests = finish_video_fallback(&mut state, &start.cause, Ok("player"));
    assert_eq!(
        requests,
        vec![
            player(Control::Mute(true)),
            player(Control::Volume(100)),
            player(Control::Pause(false)),
        ]
    );
    assert_eq!(state.playback_status, PlaybackStatus::RunningVlc);
    assert_eq!(state.native_mp4_failure_code, 4);
    assert_eq!(
        state.native_mp4_diagnostic,
        "Native renderer failed during playback; libVLC D3D11VA fallback is active. Cause: [FailureCode=4] Native renderer stopped without a diagnostic."
    );
}

#[test]
fn a_failed_video_fallback_fails_playback() {
    let mut state = running();
    let failure = Some(NativeFailure { code: 2, diagnostic: text("lost device") });
    assert!(matches!(fallback_to_vlc_if_native_failed(&mut state, failure), Fallback::Start(_)));
    assert_eq!(finish_video_fallback(&mut state, "lost device", Err(text("no libVLC"))), vec![]);
    assert_eq!(state.playback_status, PlaybackStatus::Failed);
    assert_eq!(
        state.last_error,
        "Native renderer failed and libVLC fallback could not start. Cause: lost device. Fallback error: no libVLC"
    );
}

#[test]
fn a_fallback_needs_a_path() {
    let mut state = running();
    state.active_media = None;
    let failure = Some(NativeFailure { code: 2, diagnostic: text("x") });
    match fallback_to_vlc_if_native_failed(&mut state, failure) {
        Fallback::Settled(stop) => assert_eq!(names(stop), vec!["renderer", "audio"]),
        _ => panic!("there is nothing to play"),
    }
    assert_eq!(
        state.last_error,
        "Native renderer stopped and no wallpaper path is available for fallback."
    );
}

#[test]
fn failed_audio_leaves_the_video_alone() {
    let mut state = running();
    let start = match fallback_audio_to_vlc_if_native_failed(&mut state, Some(text("unplugged"))) {
        Fallback::Start(start) => start,
        _ => panic!("a fallback is due"),
    };
    assert!(!start.request.show_video);
    assert_eq!(names(start.stop), vec!["audio"]);
    assert_eq!(state.native_renderer, Some("renderer"));
    let requests = finish_audio_fallback(&mut state, &start.cause, Ok("player"));
    assert_eq!(requests.len(), 3);
    assert_eq!(requests[1], player(Control::Volume(100)));
    assert_eq!(state.playback_status, PlaybackStatus::RunningHybrid);
    assert_eq!(
        state.native_audio_diagnostic,
        "Native audio failed during playback; libVLC audio fallback is active. Cause: unplugged"
    );
    assert!(matches!(
        fallback_audio_to_vlc_if_native_failed(&mut state, Some(text("again"))),
        Fallback::NotNeeded
    ));
}

#[test]
fn failed_audio_without_a_player_leaves_a_silent_video() {
    let mut state = running();
    assert!(matches!(
        fallback_audio_to_vlc_if_native_failed(&mut state, Some(text("unplugged"))),
        Fallback::Start(_)
    ));
    assert_eq!(finish_audio_fallback(&mut state, "unplugged", Err(text("no libVLC"))), vec![]);
    assert_eq!(state.playback_status, PlaybackStatus::RunningHybrid);
    assert_eq!(
        state.last_error,
        "Native audio failed and libVLC audio fallback could not start. Cause: unplugged. Fallback error: no libVLC"
    );
    assert_eq!(state.native_renderer, Some("renderer"));
}

#[test]
fn the_monitor_tells_of_changes_only() {
    let mut state = running();
    state.mute_when_other_app_open = true;
    let paused = Control::Pause(true);
    assert_eq!(
        fullscreen_monitor(&mut state, true, true),
        vec![renderer(paused), audio(paused), audio(Control::Mute(true))]
    );
    assert_eq!(fullscreen_monitor(&mut state, true, true), vec![]);
    state.muted = true;
    let resumed = Control::Pause(false);
    assert_eq!(
        fullscreen_monitor(&mut state, false, false),
        vec![renderer(resumed), audio(resumed), audio(Control::Mute(true))]
    );
}

#[test]
fn the_monitor_has_its_settings() {
    assert_eq!(MONITOR_INTERVAL_MS, 750);
    assert!(fullscreen_pause_disabled(&Some(text("1"))));
    assert!(!fullscreen_pause_disabled(&Some(text("0"))));
    assert!(!fullscreen_pause_disabled(&Some(text("11"))));
    assert!(!fullscreen_pause_disabled(&None));
}

fn config(available: bool) -> wallpaper_core::engine::PlaybackConfig {
    wallpaper_core::engine::PlaybackConfig {
        generation: 3,
        host_window: 9,
        d3d11_media_foundation_available: available,
        muted: true,
        volume: 30,
        performance_mode: 2,
        stretch_to_fill: false,
        paused: true,
    }
}

type Step = PreparationStep<&'static str, &'static str, &'static str>;

#[test]
fn an_mp4_file_is_tried_natively_first() {
    let step: Step = prepare_playback(text("/w/Clip.MP4"), config(true));
    let preparation = match step {
        PreparationStep::StartRenderer(preparation) => preparation,
        _ => panic!("the native renderer comes first"),
    };
    let step: Step = renderer_started(preparation, Ok("renderer"));
    let preparation = match step {
        PreparationStep::StartAudio(preparation) => preparation,
        _ => panic!("then comes the native audio"),
    };
    let step: Step = audio_started(preparation, Ok("audio"));
    match step {
        PreparationStep::Ready(prepared, requests) => {
            assert_eq!(prepared.status, PlaybackStatus::RunningNative);
            assert_eq!(
                requests,
                vec![renderer(Control::Pause(true)), audio(Control::Pause(true))]
            );
            assert_eq!(
                prepared.native_mp4_diagnostic,
                "Direct Media Foundation/DXVA renderer is active."
            );
            assert_eq!(
                prepared.native_audio_diagnostic,
                "Native Media Foundation/WASAPI audio is active."
            );
        }
        _ => panic!("everything runs"),
    }
}

#[test]
fn a_gif_goes_to_libvlc() {
    let step: Step = prepare_playback(text("/w/a.gif"), config(true));
    match step {
        PreparationStep::StartPlayer(preparation, request) => {
            assert!(request.show_video);
            assert_eq!(request.host_window, 9);
            assert_eq!(preparation.native_mp4_diagnostic, "GIF/WEBP playback uses libVLC.");
        }
        _ => panic!("libVLC plays it"),
    }
}

#[test]
fn an_mp4_file_goes_to_libvlc_where_the_machine_cannot() {
    let step: Step = prepare_media(text("a.mp4"), true, config(false));
    let preparation = match step {
        PreparationStep::StartPlayer(preparation, _) => preparation,
        _ => panic!("libVLC plays it"),
    };
    assert_eq!(
        preparation.native_mp4_diagnostic,
        "D3D11 Media Foundation is unavailable; libVLC D3D11VA fallback is active."
    );
    let step: Step = player_started(preparation, Err(text("no libVLC")));
    match step {
        PreparationStep::Failed(resources, error) => {
            assert!(resources.stop().is_empty());
            assert_eq!(error, "no libVLC");
        }
        _ => panic!("nothing plays it"),
    }
}

#[test]
fn a_failed_renderer_start_falls_back_with_its_code() {
    let step: Step = prepare_media(text("a.mp4"), true, config(true));
    let preparation = match step {
        PreparationStep::StartRenderer(preparation) => preparation,
        _ => panic!("the native renderer comes first"),
    };
    let failure = RendererFailure { code: 6, error: text("no surface") };
    let step: Step = renderer_started(preparation, Err(failure));
    let preparation = match step {
        PreparationStep::StartPlayer(preparation, request) => {
            assert!(request.show_video);
            preparation
        }
        _ => panic!("libVLC takes over"),
    };
    let step: Step = player_started(preparation, Ok("player"));
    match step {
        PreparationStep::Ready(prepared, requests) => {
            assert_eq!(
                requests,
                vec![
                    player(Control::Mute(true)),
                    player(Control::Volume(30)),
                    player(Control::Pause(true)),
                ]
            );
            assert_eq!(prepared.status, PlaybackStatus::RunningVlc);
            assert_eq!(prepared.native_mp4_failure_code, 6);
            assert_eq!(prepared.video_fallback_status, FallbackStatus::Active);
            assert_eq!(
                prepared.native_mp4_diagnostic,
                "Direct renderer preflight failed; libVLC D3D11VA fallback is active: no surface"
            );
        }
        _ => panic!("libVLC plays it"),
    }
}

#[test]
fn video_stays_when_both_sounds_fail() {
    let step: Step = prepare_media(text("a.mp4"), true, config(true));
    let preparation = match step {
        PreparationStep::StartRenderer(preparation) => preparation,
        _ => panic!("the native renderer comes first"),
    };
    let step: Step = renderer_started(preparation, Ok("renderer"));
    let preparation = match step {
        PreparationStep::StartAudio(preparation) => preparation,
        _ => panic!("then comes the native audio"),
    };
    let step: Step = audio_started(preparation, Err(text("no device")));
    let preparation = match step {
        PreparationStep::StartPlayer(preparation, request) => {
            assert!(!request.show_video);
            preparation
        }
        _ => panic!("libVLC gives the sound"),
    };
    let step: Step = player_started(preparation, Err(text("no libVLC")));
    match step {
        PreparationStep::Ready(prepared, _) => {
            assert_eq!(prepared.status, PlaybackStatus::RunningHybrid);
            assert_eq!(prepared.resources.native_renderer, Some("renderer"));
            assert_eq!(
                prepared.native_audio_diagnostic,
                "Native audio and libVLC audio fallback both failed; video remains active: no libVLC"
            );
        }
        _ => panic!("the picture stays"),
    }
}

#[test]
fn the_engine_starts_step_by_step() {
    let mut state = State::new();
    assert_eq!(init_engine(&mut state), InitStep::FindDesktop);
    assert_eq!(desktop_found(&mut state, true, 0), InitStep::Failed);
    assert_eq!(state.last_error, "Progman desktop window was not found.");
    assert_eq!(desktop_found(&mut state, true, 4), InitStep::FindWorker);
    assert_eq!(worker_found(&mut state, 0), InitStep::Failed);
    assert_eq!(state.last_error, "Desktop icon layer was not found.");
    assert_eq!(worker_found(&mut state, 6), InitStep::CreateHost);
    assert_eq!(host_created(&mut state, None), InitStep::Failed);
    assert_eq!(state.last_error, "Could not create the wallpaper host window.");
    assert_eq!(host_created(&mut state, Some(8)), InitStep::StartMonitor);
    release_monitor(&mut state);
    assert_eq!(monitor_started(&mut state, 1), InitStep::Done);
    assert_eq!(state.host_window, 8);
    assert!(state.d3d11_media_foundation_available);
    assert_eq!(init_engine(&mut state), InitStep::Done);
}

#[test]
fn the_window_goes_behind_the_icons() {
    assert!(find_workerw(5));
    assert!(!find_workerw(0));
    assert_eq!(host_placement(5), Placement::Behind(5));
    assert_eq!(host_placement(0), Placement::Bottom);
    let size = resize_to_parent(Rect { left: -10, top: 0, right: 1910, bottom: 1080 });
    assert_eq!((size.width, size.height), (1920, 1080));
}

fn window(class_name: &str) -> ForegroundWindow {
    let screen = Rect { left: 0, top: 0, right: 1920, bottom: 1080 };
    ForegroundWindow {
        handle: 3,
        visible: true,
        minimized: false,
        class_name: text(class_name),
        process_id: 12,
        area: Some(Rect { left: -2, top: -2, right: 1922, bottom: 1082 }),
        monitor: Some(screen),
    }
}

#[test]
fn a_window_over_the_monitor_is_fullscreen() {
    let mut game = window("Game");
    assert!(foreground_is_fullscreen(&game));
    assert!(foreground_is_external_application(&game));
    game.area = Some(Rect { left: -3, top: 0, right: 1920, bottom: 1080 });
    assert!(!foreground_is_fullscreen(&game));
    game.minimized = true;
    assert!(!foreground_is_external_application(&game));
}

#[test]
fn the_desktop_is_never_fullscreen() {
    for class_name in ["Progman", "WorkerW", "WallpaperCoreHost", "Shell_TrayWnd"] {
        assert!(is_desktop_class(class_name));
        assert!(!foreground_is_fullscreen(&window(class_name)));
        assert!(!foreground_is_external_application(&window(class_name)));
    }
    assert!(!is_desktop_class("progman"));
}

#[test]
fn edges_far_apart_do_not_overflow() {
    let mut far = window("Game");
    far.area = Some(Rect { left: i32::MIN, top: 0, right: i32::MAX, bottom: 1080 });
    far.monitor = Some(Rect { left: i32::MAX, top: 0, right: i32::MIN, bottom: 1080 });
    assert!(!foreground_is_fullscreen(&far));
}
