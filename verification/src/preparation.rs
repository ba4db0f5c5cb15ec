//! Preparation of a pipeline: which backends a wallpaper is tried on, in which
//! order, and what comes of it.

use crate::controls::{
    a_starting_pipeline_hears_of_the_pause, hears, tell_at_startup, told_at_startup, Control,
    ControlRequest, ControlTarget,
};
use crate::engine::{
    prepared_wf, FallbackStatus, PlaybackConfig, PlaybackControls, PlaybackResources,
    PlaybackStatus, PlayerRequest, PreparedPlayback,
};
use crate::media_path::{is_mp4, mp4_extension, path_extension};
use crate::text::joined;
use vstd::prelude::*;
use vstd::string::*;

verus! {

/// Why the native renderer did not start.
pub struct RendererFailure {
    pub code: u32,
    pub error: String,
}

/// A pipeline that is being prepared.
pub struct Preparation<R, A> {
    pub path: String,
    pub config: PlaybackConfig,
    pub native_renderer: Option<R>,
    pub native_mp4_diagnostic: String,
    pub native_mp4_failure_code: u32,
    pub native_audio: Option<A>,
    pub native_audio_diagnostic: String,
}

/// The next thing to do for a pipeline.
pub enum PreparationStep<P, R, A> {
    /// Start the native renderer and go on with `renderer_started`.
    StartRenderer(Preparation<R, A>),
    /// Start the native audio and go on with `audio_started`.
    StartAudio(Preparation<R, A>),
    /// Start a libVLC player and go on with `player_started`.
    StartPlayer(Preparation<R, A>, PlayerRequest),
    /// Everything runs: tell the resources of the controls, activate the native
    /// backends, and offer the pipeline to the engine.
    Ready(PreparedPlayback<P, R, A>, Vec<ControlRequest>),
    /// Nothing plays this wallpaper; these resources have to be stopped.
    Failed(PlaybackResources<P, R, A>, String),
}

/// The player that a preparation asks for.
pub open spec fn player_request<R, A>(
    preparation: Preparation<R, A>,
    request: PlayerRequest,
) -> bool {
    &&& request.path == preparation.path
    &&& request.host_window == preparation.config.host_window as usize
    &&& request.performance_mode == preparation.config.performance_mode
    &&& request.show_video == (preparation.native_renderer is None)
    &&& request.stretch_to_fill == preparation.config.stretch_to_fill
}

/// The status of a pipeline with the given resources.
pub open spec fn running_status<P, R, A>(
    player: Option<P>,
    renderer: Option<R>,
    audio: Option<A>,
) -> PlaybackStatus {
    if renderer is None {
        PlaybackStatus::RunningVlc
    } else if player is Some || audio is None {
        PlaybackStatus::RunningHybrid
    } else {
        PlaybackStatus::RunningNative
    }
}

/// A fallback is active where libVLC does what a native backend does not.
pub open spec fn fallback_of<P, N>(player: Option<P>, native: Option<N>) -> FallbackStatus {
    if native is None && player is Some {
        FallbackStatus::Active
    } else {
        FallbackStatus::Idle
    }
}

/// The controls that a pipeline starts with.
pub open spec fn startup_controls(config: PlaybackConfig) -> PlaybackControls {
    PlaybackControls { muted: config.muted, volume: config.volume, paused: config.paused }
}

/// What the resources of a finished pipeline are told.
pub open spec fn startup_requests<P, R, A>(
    resources: PlaybackResources<P, R, A>,
    config: PlaybackConfig,
) -> Seq<ControlRequest> {
    told_at_startup(
        startup_controls(config),
        resources.player is Some,
        resources.native_renderer is Some,
        resources.native_audio is Some,
    )
}

/// A finished pipeline, as its preparation and its player make it.
pub open spec fn prepared_from<P, R, A>(
    prepared: PreparedPlayback<P, R, A>,
    preparation: Preparation<R, A>,
    player: Option<P>,
) -> bool {
    &&& prepared.resources == (PlaybackResources {
        player,
        native_renderer: preparation.native_renderer,
        native_audio: preparation.native_audio,
    })
    &&& prepared.native_mp4_diagnostic == preparation.native_mp4_diagnostic
    &&& prepared.native_mp4_failure_code == preparation.native_mp4_failure_code
    &&& prepared.video_fallback_status == fallback_of(player, preparation.native_renderer)
    &&& prepared.audio_fallback_status == fallback_of(player, preparation.native_audio)
    &&& prepared.status == running_status(
        player,
        preparation.native_renderer,
        preparation.native_audio,
    )
}

fn request_player<P, R, A>(preparation: Preparation<R, A>) -> (step: PreparationStep<P, R, A>)
    ensures
        step matches PreparationStep::StartPlayer(next, request) && next == preparation
            && player_request(preparation, request),
{
    let request = PlayerRequest {
        path: preparation.path.clone(),
        host_window: preparation.config.host_window as usize,
        performance_mode: preparation.config.performance_mode,
        show_video: preparation.native_renderer.is_none(),
        stretch_to_fill: preparation.config.stretch_to_fill,
    };
    PreparationStep::StartPlayer(preparation, request)
}

fn finish<P, R, A>(preparation: Preparation<R, A>, player: Option<P>) -> (step: PreparationStep<
    P,
    R,
    A,
>)
    ensures
        step matches PreparationStep::Ready(prepared, requests) && prepared_from(
            prepared,
            preparation,
            player,
        ) && prepared.native_audio_diagnostic == preparation.native_audio_diagnostic && requests@
            == startup_requests(prepared.resources, preparation.config),
{
    let controls = PlaybackControls {
        muted: preparation.config.muted,
        volume: preparation.config.volume,
        paused: preparation.config.paused,
    };
    let requests = tell_at_startup(
        controls,
        player.is_some(),
        preparation.native_renderer.is_some(),
        preparation.native_audio.is_some(),
    );
    let video_fallback_status = if preparation.native_renderer.is_none() && player.is_some() {
        FallbackStatus::Active
    } else {
        FallbackStatus::Idle
    };
    let audio_fallback_status = if preparation.native_audio.is_none() && player.is_some() {
        FallbackStatus::Active
    } else {
        FallbackStatus::Idle
    };
    let status = if preparation.native_renderer.is_none() {
        PlaybackStatus::RunningVlc
    } else if player.is_some() || preparation.native_audio.is_none() {
        PlaybackStatus::RunningHybrid
    } else {
        PlaybackStatus::RunningNative
    };
    let prepared = PreparedPlayback {
        resources: PlaybackResources {
            player,
            native_renderer: preparation.native_renderer,
            native_audio: preparation.native_audio,
        },
        native_mp4_diagnostic: preparation.native_mp4_diagnostic,
        native_audio_diagnostic: preparation.native_audio_diagnostic,
        native_mp4_failure_code: preparation.native_mp4_failure_code,
        video_fallback_status,
        audio_fallback_status,
        status,
    };
    PreparationStep::Ready(prepared, requests)
}

/// The first step for a wallpaper of which it is known whether it is an MP4
/// file. Only MP4 files are tried natively, and only where the machine can.
pub open spec fn first_step<P, R, A>(
    step: PreparationStep<P, R, A>,
    path: String,
    is_mp4: bool,
    config: PlaybackConfig,
) -> bool {
    if is_mp4 && config.d3d11_media_foundation_available {
        &&& step matches PreparationStep::StartRenderer(preparation)
        &&& preparation.path == path
        &&& preparation.config == config
        &&& preparation.native_renderer is None
        &&& preparation.native_mp4_diagnostic@ == Seq::<char>::empty()
        &&& preparation.native_mp4_failure_code == 0
        &&& preparation.native_audio is None
        &&& preparation.native_audio_diagnostic@ == Seq::<char>::empty()
    } else {
        &&& step matches PreparationStep::StartPlayer(preparation, request)
        &&& player_request(preparation, request)
        &&& preparation.path == path
        &&& preparation.config == config
        &&& preparation.native_renderer is None
        &&& preparation.native_mp4_diagnostic@ == (if is_mp4 {
            "D3D11 Media Foundation is unavailable; libVLC D3D11VA fallback is active."@
        } else {
            "GIF/WEBP playback uses libVLC."@
        })
        &&& preparation.native_mp4_failure_code == 0
        &&& preparation.native_audio is None
        &&& preparation.native_audio_diagnostic@ == "libVLC owns audio for this wallpaper."@
    }
}

/// Begins the preparation of a wallpaper of which it is known whether it is an
/// MP4 file.
pub fn prepare_media<P, R, A>(
    path: String,
    is_mp4: bool,
    config: PlaybackConfig,
) -> (step: PreparationStep<P, R, A>)
    ensures
        first_step(step, path, is_mp4, config),
{
    if is_mp4 && config.d3d11_media_foundation_available {
        return PreparationStep::StartRenderer(
            Preparation {
                path,
                config,
                native_renderer: None,
                native_mp4_diagnostic: String::new(),
                native_mp4_failure_code: 0,
                native_audio: None,
                native_audio_diagnostic: String::new(),
            },
        );
    }
    let native_mp4_diagnostic = if is_mp4 {
        String::from_str(
            "D3D11 Media Foundation is unavailable; libVLC D3D11VA fallback is active.",
        )
    } else {
        String::from_str("GIF/WEBP playback uses libVLC.")
    };
    request_player(
        Preparation {
            path,
            config,
            native_renderer: None,
            native_mp4_diagnostic,
            native_mp4_failure_code: 0,
            native_audio: None,
            native_audio_diagnostic: String::from_str("libVLC owns audio for this wallpaper."),
        },
    )
}

/// Begins the preparation of a wallpaper, by what its path says it is.
pub fn prepare_playback<P, R, A>(path: String, config: PlaybackConfig) -> (step: PreparationStep<
    P,
    R,
    A,
>)
    ensures
        exists|separator: char|
            first_step(
                step,
                path,
                mp4_extension(#[trigger] path_extension(path@, separator)),
                config,
            ),
        !path@.contains('.') ==> first_step(step, path, false, config),
{
    let mp4: bool = is_mp4(path.as_str());
    prepare_media(path, mp4, config)
}

/// Goes on once the start of the native renderer has ended: with native audio
/// beside it, or with libVLC in its place.
pub fn renderer_started<P, R, A>(
    preparation: Preparation<R, A>,
    result: Result<R, RendererFailure>,
) -> (step: PreparationStep<P, R, A>)
    ensures
        match result {
            Ok(renderer) => {
                &&& step matches PreparationStep::StartAudio(next)
                &&& next.native_mp4_diagnostic@
                    == "Direct Media Foundation/DXVA renderer is active."@
                &&& next == (Preparation {
                    native_renderer: Some(renderer),
                    native_mp4_diagnostic: next.native_mp4_diagnostic,
                    ..preparation
                })
            },
            Err(failure) => {
                &&& step matches PreparationStep::StartPlayer(next, request)
                &&& player_request(next, request)
                &&& next.native_mp4_diagnostic@
                    == "Direct renderer preflight failed; libVLC D3D11VA fallback is active: "@
                    + failure.error@
                &&& next.native_audio_diagnostic@ == "libVLC owns audio for this wallpaper."@
                &&& next == (Preparation {
                    native_renderer: None,
                    native_mp4_diagnostic: next.native_mp4_diagnostic,
                    native_mp4_failure_code: failure.code,
                    native_audio_diagnostic: next.native_audio_diagnostic,
                    ..preparation
                })
            },
        },
{
    let mut preparation = preparation;
    match result {
        Ok(renderer) => {
            preparation.native_renderer = Some(renderer);
            preparation.native_mp4_diagnostic =
            String::from_str("Direct Media Foundation/DXVA renderer is active.");
            PreparationStep::StartAudio(preparation)
        },
        Err(failure) => {
            preparation.native_renderer = None;
            preparation.native_mp4_failure_code = failure.code;
            preparation.native_mp4_diagnostic =
            joined(
                "Direct renderer preflight failed; libVLC D3D11VA fallback is active: ",
                failure.error.as_str(),
            );
            preparation.native_audio_diagnostic =
            String::from_str("libVLC owns audio for this wallpaper.");
            request_player(preparation)
        },
    }
}

/// Goes on once the start of the native audio has ended: everything is native,
/// or libVLC gives the sound.
pub fn audio_started<P, R, A>(
    preparation: Preparation<R, A>,
    result: Result<A, String>,
) -> (step: PreparationStep<P, R, A>)
    ensures
        match result {
            Ok(audio) => {
                &&& step matches PreparationStep::Ready(prepared, requests)
                &&& prepared_from(
                    prepared,
                    Preparation { native_audio: Some(audio), ..preparation },
                    None,
                )
                &&& prepared.native_audio_diagnostic@
                    == "Native Media Foundation/WASAPI audio is active."@
                &&& requests@ == startup_requests(prepared.resources, preparation.config)
                &&& preparation.native_renderer is Some ==> prepared_wf(prepared)
            },
            Err(error) => {
                &&& step matches PreparationStep::StartPlayer(next, request)
                &&& player_request(next, request)
                &&& next.native_audio_diagnostic@
                    == "Native audio preflight failed; libVLC audio fallback is active: "@ + error@
                &&& next == (Preparation {
                    native_audio: None,
                    native_audio_diagnostic: next.native_audio_diagnostic,
                    ..preparation
                })
            },
        },
{
    let mut preparation = preparation;
    match result {
        Ok(audio) => {
            preparation.native_audio = Some(audio);
            preparation.native_audio_diagnostic =
            String::from_str("Native Media Foundation/WASAPI audio is active.");
            finish(preparation, None)
        },
        Err(error) => {
            preparation.native_audio = None;
            preparation.native_audio_diagnostic =
            joined(
                "Native audio preflight failed; libVLC audio fallback is active: ",
                error.as_str(),
            );
            request_player(preparation)
        },
    }
}

/// Goes on once the start of the player has ended. Without a player a native
/// renderer still shows the picture; without either nothing plays.
pub fn player_started<P, R, A>(
    preparation: Preparation<R, A>,
    result: Result<P, String>,
) -> (step: PreparationStep<P, R, A>)
    ensures
        match result {
            Ok(player) => {
                &&& step matches PreparationStep::Ready(prepared, requests)
                &&& prepared_from(prepared, preparation, Some(player))
                &&& prepared.native_audio_diagnostic == preparation.native_audio_diagnostic
                &&& requests@ == startup_requests(prepared.resources, preparation.config)
                &&& preparation.native_audio is None ==> prepared_wf(prepared)
            },
            Err(error) => if preparation.native_renderer is Some {
                &&& step matches PreparationStep::Ready(prepared, requests)
                &&& prepared_from(prepared, preparation, None)
                &&& prepared.native_audio_diagnostic@
                    == "Native audio and libVLC audio fallback both failed; video remains active: "@
                    + error@
                &&& requests@ == startup_requests(prepared.resources, preparation.config)
                &&& preparation.native_audio is None ==> prepared_wf(prepared)
            } else {
                step == PreparationStep::<P, R, A>::Failed(
                    PlaybackResources {
                        player: None,
                        native_renderer: None,
                        native_audio: preparation.native_audio,
                    },
                    error,
                )
            },
        },
{
    match result {
        Ok(player) => finish(preparation, Some(player)),
        Err(error) => {
            let mut preparation = preparation;
            if preparation.native_renderer.is_some() {
                preparation.native_audio_diagnostic =
                joined(
                    "Native audio and libVLC audio fallback both failed; video remains active: ",
                    error.as_str(),
                );
                finish(preparation, None)
            } else {
                PreparationStep::Failed(
                    PlaybackResources {
                        player: None,
                        native_renderer: None,
                        native_audio: preparation.native_audio,
                    },
                    error,
                )
            }
        },
    }
}

/// GIF, WEBP and everything that the machine cannot decode natively goes to
/// libVLC, with picture and sound.
pub proof fn other_media_go_to_the_player<P, R, A>(
    step: PreparationStep<P, R, A>,
    path: String,
    is_mp4: bool,
    config: PlaybackConfig,
)
    requires
        first_step(step, path, is_mp4, config),
        !is_mp4 || !config.d3d11_media_foundation_available,
    ensures
        step matches PreparationStep::StartPlayer(_, request) && request.show_video
            && request.path == path,
{
}

/// A pipeline that libVLC gives only the sound for never shows libVLC's
/// picture over the native one.
pub proof fn one_backend_owns_the_picture<R, A>(
    preparation: Preparation<R, A>,
    request: PlayerRequest,
)
    requires
        player_request(preparation, request),
    ensures
        request.show_video <==> preparation.native_renderer is None,
{
}

/// A player is asked for with the path and the settings of its wallpaper, in the
/// window of the engine, and shows a picture exactly where no native renderer
/// does.
pub proof fn a_player_gets_the_settings<R, A>(
    preparation: Preparation<R, A>,
    request: PlayerRequest,
)
    requires
        player_request(preparation, request),
    ensures
        request.path == preparation.path,
        request.host_window == preparation.config.host_window as usize,
        request.performance_mode == preparation.config.performance_mode,
        request.stretch_to_fill == preparation.config.stretch_to_fill,
        request.show_video <==> preparation.native_renderer is None,
{
}

/// An MP4 file is tried natively wherever the machine can, before anything of
/// libVLC is started; and nothing else is.
pub proof fn native_playback_comes_first<P, R, A>(
    step: PreparationStep<P, R, A>,
    path: String,
    is_mp4: bool,
    config: PlaybackConfig,
)
    requires
        first_step(step, path, is_mp4, config),
    ensures
        step is StartRenderer <==> is_mp4 && config.d3d11_media_foundation_available,
        step matches PreparationStep::StartRenderer(preparation) ==> preparation.path == path
            && preparation.config == config && preparation.native_renderer is None
            && preparation.native_audio is None && preparation.native_mp4_failure_code == 0,
        step matches PreparationStep::StartPlayer(preparation, request) ==> preparation.path == path
            && preparation.config == config && request.path == path && request.host_window
            == config.host_window as usize && request.performance_mode == config.performance_mode,
{
}

/// The status of a pipeline tells what plays: libVLC alone where there is no
/// native renderer, everything native where both native backends run and no
/// player, and a mixture otherwise.
pub proof fn a_status_tells_what_plays<P, R, A>(
    player: Option<P>,
    renderer: Option<R>,
    audio: Option<A>,
)
    ensures
        running_status(player, renderer, audio) == PlaybackStatus::RunningVlc <==> renderer is None,
        running_status(player, renderer, audio) == PlaybackStatus::RunningNative <==> renderer
            is Some && audio is Some && player is None,
        running_status(player, renderer, audio) == PlaybackStatus::RunningHybrid <==> renderer
            is Some && (audio is None || player is Some),
{
}

/// A fallback is active exactly where a player stands in for a native backend
/// that is not there.
pub proof fn a_fallback_stands_in<P, N>(player: Option<P>, native: Option<N>)
    ensures
        fallback_of(player, native) == FallbackStatus::Active <==> native is None && player
            is Some,
        fallback_of(player, native) == FallbackStatus::Idle <==> native is Some || player is None,
{
}

/// A finished pipeline holds what was started for it, with its reports, and is
/// told of the mute, the volume and the pause that it was prepared for.
pub proof fn a_pipeline_holds_what_was_started<P, R, A>(
    prepared: PreparedPlayback<P, R, A>,
    preparation: Preparation<R, A>,
    player: Option<P>,
)
    requires
        prepared_from(prepared, preparation, player),
    ensures
        prepared.resources.player == player,
        prepared.resources.native_renderer == preparation.native_renderer,
        prepared.resources.native_audio == preparation.native_audio,
        prepared.native_mp4_diagnostic == preparation.native_mp4_diagnostic,
        prepared.native_mp4_failure_code == preparation.native_mp4_failure_code,
        prepared.status is RunningVlc <==> preparation.native_renderer is None,
        prepared.video_fallback_status is Active <==> preparation.native_renderer is None
            && player is Some,
        prepared.audio_fallback_status is Active <==> preparation.native_audio is None && player
            is Some,
        startup_controls(preparation.config).muted == preparation.config.muted,
        startup_controls(preparation.config).volume == preparation.config.volume,
        startup_controls(preparation.config).paused == preparation.config.paused,
{
}

/// Whoever is there hears of the pause that a pipeline starts with, and a player
/// of its mute and its volume too.
pub proof fn a_pipeline_starts_with_its_controls<P, R, A>(
    resources: PlaybackResources<P, R, A>,
    config: PlaybackConfig,
)
    ensures
        ({
            let requests = startup_requests(resources, config);
            let pause = Control::Pause(config.paused);
            &&& resources.player is Some ==> hears(requests, ControlTarget::Player, pause) && hears(
                requests,
                ControlTarget::Player,
                Control::Mute(config.muted),
            ) && hears(requests, ControlTarget::Player, Control::Volume(config.volume))
            &&& resources.native_renderer is Some <==> hears(
                requests,
                ControlTarget::Renderer,
                pause,
            )
            &&& resources.native_audio is Some <==> hears(requests, ControlTarget::Audio, pause)
        }),
{
    let player = resources.player is Some;
    let renderer = resources.native_renderer is Some;
    let audio = resources.native_audio is Some;
    let controls = startup_controls(config);
    let pause = Control::Pause(config.paused);
    let (on_player, on_renderer, on_audio) = (
        ControlTarget::Player,
        ControlTarget::Renderer,
        ControlTarget::Audio,
    );
    let (mute, volume) = (Control::Mute(config.muted), Control::Volume(config.volume));
    a_starting_pipeline_hears_of_the_pause(controls, player, renderer, audio, on_player, pause);
    a_starting_pipeline_hears_of_the_pause(controls, player, renderer, audio, on_player, mute);
    a_starting_pipeline_hears_of_the_pause(controls, player, renderer, audio, on_player, volume);
    a_starting_pipeline_hears_of_the_pause(controls, player, renderer, audio, on_renderer, pause);
    a_starting_pipeline_hears_of_the_pause(controls, player, renderer, audio, on_audio, pause);
}

} // verus!
