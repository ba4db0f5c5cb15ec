//! Rules of the monitor: fallback to libVLC after a native failure, pause
//! behind fullscreen applications, and automatic mute.

use crate::controls::{tell_player, told_everything, Control, ControlRequest, ControlTarget};
use crate::engine::{
    EngineState, FallbackStatus, PlaybackControls, PlaybackStatus, PlayerRequest, StopRequest,
};
use crate::text::{decimal, optional_text, push_decimal, same_text};
use vstd::prelude::*;
use vstd::string::*;

verus! {

/// Why a native renderer ended: its stable category and what it said.
pub struct NativeFailure {
    pub code: u32,
    pub diagnostic: String,
}

/// The text by which a failure is reported: what the renderer said, or else
/// its category.
pub open spec fn failure_text(failure: NativeFailure) -> Seq<char> {
    if failure.diagnostic@.len() == 0 {
        "[FailureCode="@ + decimal(failure.code as nat)
            + "] Native renderer stopped without a diagnostic."@
    } else {
        failure.diagnostic@
    }
}

fn describe_failure(failure: NativeFailure) -> (text: String)
    ensures
        text@ == failure_text(failure),
{
    if failure.diagnostic.as_str().unicode_len() == 0 {
        let mut text = String::from_str("[FailureCode=");
        push_decimal(&mut text, failure.code as u64);
        text.append("] Native renderer stopped without a diagnostic.");
        text
    } else {
        failure.diagnostic
    }
}

/// A fallback that is under way: what stops first, the player to start then,
/// and the reason.
pub struct FallbackStart<P, R, A> {
    pub stop: Vec<StopRequest<P, R, A>>,
    pub request: PlayerRequest,
    pub cause: String,
}

/// The first step of a fallback.
pub enum Fallback<P, R, A> {
    /// Nothing failed, or the fallback had begun before.
    NotNeeded,
    /// The fallback ended at once; these resources have to be stopped.
    Settled(Vec<StopRequest<P, R, A>>),
    /// A player has to be started.
    Start(FallbackStart<P, R, A>),
}

impl<P, R, A, M> EngineState<P, R, A, M> {
    /// The player request that restores playback of the active wallpaper.
    pub open spec fn fallback_request(&self, request: PlayerRequest, show_video: bool) -> bool {
        &&& self.active_media == Some(request.path)
        &&& request.host_window == self.host_window as usize
        &&& request.performance_mode == self.performance_mode
        &&& request.show_video == show_video
        &&& request.stretch_to_fill == self.stretch_to_fill
    }

    /// The order in which a video fallback stops everything: the renderer, the
    /// audio that followed it, and any player.
    pub open spec fn video_fallback_stops(&self) -> Seq<StopRequest<P, R, A>> {
        let renderer = match self.native_renderer {
            Some(renderer) => seq![StopRequest::<P, R, A>::Renderer(renderer)],
            None => Seq::empty(),
        };
        let audio = match self.native_audio {
            Some(audio) => seq![StopRequest::<P, R, A>::Audio(audio)],
            None => Seq::empty(),
        };
        let player = match self.player {
            Some(player) => seq![StopRequest::<P, R, A>::Player(player)],
            None => Seq::empty(),
        };
        renderer + audio + player
    }

    /// Between the two steps of a video fallback.
    pub open spec fn video_fallback_pending(&self) -> bool {
        &&& 0 <= self.volume <= 100
        &&& 0 <= self.performance_mode <= 2
        &&& self.resources().empty()
        &&& self.active_media is Some
        &&& self.video_fallback_status == FallbackStatus::InProgress
    }

    /// Between the two steps of an audio fallback.
    pub open spec fn audio_fallback_pending(&self) -> bool {
        &&& 0 <= self.volume <= 100
        &&& 0 <= self.performance_mode <= 2
        &&& self.player is None
        &&& self.native_renderer is Some
        &&& self.native_audio is None
        &&& self.active_media is Some
        &&& self.video_fallback_status == FallbackStatus::Idle
        &&& self.audio_fallback_status == FallbackStatus::InProgress
    }
}

/// Begins the fallback of a failed native renderer. The native audio and any
/// player go with it, because libVLC takes over sound and picture. A renderer
/// that is not there cannot have failed.
pub fn fallback_to_vlc_if_native_failed<P, R, A, M>(
    state: &mut EngineState<P, R, A, M>,
    failure: Option<NativeFailure>,
) -> (fallback: Fallback<P, R, A>)
    ensures
        fallback is NotNeeded <==> old(state).native_renderer is None || failure is None
            || old(state).video_fallback_status != FallbackStatus::Idle,
        fallback is NotNeeded ==> *final(state) == *old(state),
        fallback is Settled <==> fallback !is NotNeeded && old(state).active_media is None,
        fallback matches Fallback::Settled(stop) ==> {
            &&& stop@ == old(state).video_fallback_stops()
            &&& final(state).last_error@
                == "Native renderer stopped and no wallpaper path is available for fallback."@
            &&& *final(state) == (EngineState {
                video_fallback_status: FallbackStatus::Failed,
                audio_fallback_status: FallbackStatus::Failed,
                playback_status: PlaybackStatus::Failed,
                native_mp4_failure_code: failure->0.code,
                last_error: final(state).last_error,
                player: None,
                native_renderer: None,
                native_audio: None,
                ..*old(state)
            })
        },
        fallback matches Fallback::Start(start) ==> {
            &&& start.stop@ == old(state).video_fallback_stops()
            &&& old(state).fallback_request(start.request, true)
            &&& old(state).active_media == Some(start.request.path)
            &&& start.request.host_window == old(state).host_window as usize
            &&& start.request.performance_mode == old(state).performance_mode
            &&& start.request.stretch_to_fill == old(state).stretch_to_fill
            &&& start.request.show_video == true
            &&& start.cause@ == failure_text(failure->0)
            &&& *final(state) == (EngineState {
                video_fallback_status: FallbackStatus::InProgress,
                native_mp4_failure_code: failure->0.code,
                player: None,
                native_renderer: None,
                native_audio: None,
                ..*old(state)
            })
        },
        old(state).wf() ==> (if fallback is Start {
            final(state).video_fallback_pending()
        } else {
            final(state).wf()
        }),
{
    if state.native_renderer.is_none() {
        return Fallback::NotNeeded;
    }
    let failure = match failure {
        Some(failure) => failure,
        None => return Fallback::NotNeeded,
    };
    if !state.video_fallback_status.try_begin() {
        return Fallback::NotNeeded;
    }
    state.native_mp4_failure_code = failure.code;
    let cause = describe_failure(failure);
    let mut stop: Vec<StopRequest<P, R, A>> = Vec::new();
    let native_renderer = state.native_renderer.take();
    if let Some(renderer) = native_renderer {
        stop.push(StopRequest::Renderer(renderer));
    }
    let native_audio = state.native_audio.take();
    if let Some(audio) = native_audio {
        stop.push(StopRequest::Audio(audio));
    }
    let player = state.player.take();
    if let Some(player) = player {
        stop.push(StopRequest::Player(player));
    }
    assert(stop@ =~= old(state).video_fallback_stops());
    match &state.active_media {
        None => {
            state.video_fallback_status = FallbackStatus::Failed;
            state.audio_fallback_status = FallbackStatus::Failed;
            state.playback_status = PlaybackStatus::Failed;
            state.last_error =
            String::from_str(
                "Native renderer stopped and no wallpaper path is available for fallback.",
            );
            Fallback::Settled(stop)
        },
        Some(path) => {
            let request = PlayerRequest {
                path: path.clone(),
                host_window: state.host_window as usize,
                performance_mode: state.performance_mode,
                show_video: true,
                stretch_to_fill: state.stretch_to_fill,
            };
            Fallback::Start(FallbackStart { stop, request, cause })
        },
    }
}

/// Ends a video fallback with what the start of the player gave. A player that
/// runs is given the controls of the moment.
pub fn finish_video_fallback<P, R, A, M>(
    state: &mut EngineState<P, R, A, M>,
    cause: &str,
    result: Result<P, String>,
) -> (requests: Vec<ControlRequest>)
    ensures
        match result {
            Ok(player) => {
                &&& requests@ == told_everything(
                    old(state).controls(),
                    true,
                    ControlTarget::Player,
                )
                &&& final(state).native_mp4_diagnostic@
                    == "Native renderer failed during playback; libVLC D3D11VA fallback is active. Cause: "@
                    + cause@
                &&& final(state).last_error@ == Seq::<char>::empty()
                &&& *final(state) == (EngineState {
                    player: Some(player),
                    video_fallback_status: FallbackStatus::Active,
                    audio_fallback_status: FallbackStatus::Active,
                    playback_status: PlaybackStatus::RunningVlc,
                    native_mp4_diagnostic: final(state).native_mp4_diagnostic,
                    last_error: final(state).last_error,
                    ..*old(state)
                })
            },
            Err(error) => {
                &&& requests@ == Seq::<ControlRequest>::empty()
                &&& final(state).last_error@
                    == "Native renderer failed and libVLC fallback could not start. Cause: "@
                    + cause@ + ". Fallback error: "@ + error@
                &&& *final(state) == (EngineState {
                    video_fallback_status: FallbackStatus::Failed,
                    audio_fallback_status: FallbackStatus::Failed,
                    playback_status: PlaybackStatus::Failed,
                    last_error: final(state).last_error,
                    ..*old(state)
                })
            },
        },
        old(state).video_fallback_pending() ==> final(state).wf(),
{
    match result {
        Ok(player) => {
            let controls = PlaybackControls {
                muted: state.muted || state.automatically_muted,
                volume: state.volume,
                paused: state.fullscreen_paused,
            };
            state.player = Some(player);
            state.video_fallback_status = FallbackStatus::Active;
            state.audio_fallback_status = FallbackStatus::Active;
            state.playback_status = PlaybackStatus::RunningVlc;
            let mut diagnostic = String::from_str(
                "Native renderer failed during playback; libVLC D3D11VA fallback is active. Cause: ",
            );
            diagnostic.append(cause);
            state.native_mp4_diagnostic = diagnostic;
            state.last_error = String::new();
            tell_player(controls)
        },
        Err(error) => {
            state.video_fallback_status = FallbackStatus::Failed;
            state.audio_fallback_status = FallbackStatus::Failed;
            state.playback_status = PlaybackStatus::Failed;
            let mut message = String::from_str(
                "Native renderer failed and libVLC fallback could not start. Cause: ",
            );
            message.append(cause);
            message.append(". Fallback error: ");
            message.append(error.as_str());
            state.last_error = message;
            Vec::new()
        },
    }
}

/// Begins the fallback of failed native audio. The native video goes on; only
/// sound is taken over, by the player there is or by one without picture.
pub fn fallback_audio_to_vlc_if_native_failed<P, R, A, M>(
    state: &mut EngineState<P, R, A, M>,
    failure: Option<String>,
) -> (fallback: Fallback<P, R, A>)
    ensures
        fallback is NotNeeded <==> old(state).native_audio is None || failure is None
            || old(state).audio_fallback_status != FallbackStatus::Idle,
        fallback is NotNeeded ==> *final(state) == *old(state),
        fallback is Settled <==> fallback !is NotNeeded && (old(state).player is Some
            || old(state).active_media is None),
        fallback matches Fallback::Settled(stop) ==> {
            &&& stop@ == seq![StopRequest::<P, R, A>::Audio(old(state).native_audio->0)]
            &&& old(state).player is Some ==> *final(state) == (EngineState {
                native_audio: None,
                audio_fallback_status: FallbackStatus::Active,
                playback_status: PlaybackStatus::RunningHybrid,
                ..*old(state)
            })
            &&& old(state).player is None ==> {
                &&& final(state).last_error@
                    == "Native audio stopped and no wallpaper path is available for fallback."@
                &&& *final(state) == (EngineState {
                    native_audio: None,
                    audio_fallback_status: FallbackStatus::Failed,
                    playback_status: PlaybackStatus::RunningHybrid,
                    last_error: final(state).last_error,
                    ..*old(state)
                })
            }
        },
        fallback matches Fallback::Start(start) ==> {
            &&& start.stop@ == seq![StopRequest::<P, R, A>::Audio(old(state).native_audio->0)]
            &&& old(state).fallback_request(start.request, false)
            &&& old(state).active_media == Some(start.request.path)
            &&& start.request.host_window == old(state).host_window as usize
            &&& start.request.performance_mode == old(state).performance_mode
            &&& start.request.stretch_to_fill == old(state).stretch_to_fill
            &&& start.request.show_video == false
            &&& Some(start.cause) == failure
            &&& *final(state) == (EngineState {
                native_audio: None,
                audio_fallback_status: FallbackStatus::InProgress,
                ..*old(state)
            })
        },
        old(state).wf() ==> (if fallback is Start {
            final(state).audio_fallback_pending()
        } else {
            final(state).wf()
        }),
{
    if state.native_audio.is_none() {
        return Fallback::NotNeeded;
    }
    let cause = match failure {
        Some(cause) => cause,
        None => return Fallback::NotNeeded,
    };
    if !state.audio_fallback_status.try_begin() {
        return Fallback::NotNeeded;
    }
    let mut stop: Vec<StopRequest<P, R, A>> = Vec::new();
    let native_audio = state.native_audio.take();
    if let Some(audio) = native_audio {
        stop.push(StopRequest::Audio(audio));
    }
    assert(stop@ =~= seq![StopRequest::<P, R, A>::Audio(old(state).native_audio->0)]);
    if state.player.is_some() {
        state.audio_fallback_status = FallbackStatus::Active;
        state.playback_status = PlaybackStatus::RunningHybrid;
        return Fallback::Settled(stop);
    }
    match &state.active_media {
        None => {
            state.audio_fallback_status = FallbackStatus::Failed;
            state.playback_status = PlaybackStatus::RunningHybrid;
            state.last_error =
            String::from_str(
                "Native audio stopped and no wallpaper path is available for fallback.",
            );
            Fallback::Settled(stop)
        },
        Some(path) => {
            let request = PlayerRequest {
                path: path.clone(),
                host_window: state.host_window as usize,
                performance_mode: state.performance_mode,
                show_video: false,
                stretch_to_fill: state.stretch_to_fill,
            };
            Fallback::Start(FallbackStart { stop, request, cause })
        },
    }
}

/// Ends an audio fallback with what the start of the player gave. The native
/// video goes on either way.
pub fn finish_audio_fallback<P, R, A, M>(
    state: &mut EngineState<P, R, A, M>,
    cause: &str,
    result: Result<P, String>,
) -> (requests: Vec<ControlRequest>)
    ensures
        match result {
            Ok(player) => {
                &&& requests@ == told_everything(
                    old(state).controls(),
                    true,
                    ControlTarget::Player,
                )
                &&& final(state).native_audio_diagnostic@
                    == "Native audio failed during playback; libVLC audio fallback is active. Cause: "@
                    + cause@
                &&& final(state).last_error@ == Seq::<char>::empty()
                &&& *final(state) == (EngineState {
                    player: Some(player),
                    audio_fallback_status: FallbackStatus::Active,
                    playback_status: PlaybackStatus::RunningHybrid,
                    native_audio_diagnostic: final(state).native_audio_diagnostic,
                    last_error: final(state).last_error,
                    ..*old(state)
                })
            },
            Err(error) => {
                &&& requests@ == Seq::<ControlRequest>::empty()
                &&& final(state).last_error@
                    == "Native audio failed and libVLC audio fallback could not start. Cause: "@
                    + cause@ + ". Fallback error: "@ + error@
                &&& *final(state) == (EngineState {
                    audio_fallback_status: FallbackStatus::Failed,
                    playback_status: PlaybackStatus::RunningHybrid,
                    last_error: final(state).last_error,
                    ..*old(state)
                })
            },
        },
        old(state).audio_fallback_pending() ==> final(state).wf(),
{
    match result {
        Ok(player) => {
            let controls = PlaybackControls {
                muted: state.muted || state.automatically_muted,
                volume: state.volume,
                paused: state.fullscreen_paused,
            };
            state.player = Some(player);
            state.audio_fallback_status = FallbackStatus::Active;
            state.playback_status = PlaybackStatus::RunningHybrid;
            let mut diagnostic = String::from_str(
                "Native audio failed during playback; libVLC audio fallback is active. Cause: ",
            );
            diagnostic.append(cause);
            state.native_audio_diagnostic = diagnostic;
            state.last_error = String::new();
            tell_player(controls)
        },
        Err(error) => {
            state.audio_fallback_status = FallbackStatus::Failed;
            state.playback_status = PlaybackStatus::RunningHybrid;
            let mut message = String::from_str(
                "Native audio failed and libVLC audio fallback could not start. Cause: ",
            );
            message.append(cause);
            message.append(". Fallback error: ");
            message.append(error.as_str());
            state.last_error = message;
            Vec::new()
        },
    }
}

/// How long the monitor waits between two looks, in milliseconds.
pub const MONITOR_INTERVAL_MS: u64 = 750;

/// Whether a setting turns the pause behind fullscreen applications off.
pub fn fullscreen_pause_disabled(setting: &Option<String>) -> (disabled: bool)
    ensures
        disabled == (optional_text(*setting) == Some("1"@)),
{
    match setting {
        Some(setting) => same_text(setting.as_str(), "1"),
        None => false,
    }
}

/// Whether the monitor ends. An engine that cannot be looked at ends it too.
pub fn monitor_should_stop<P, R, A, M>(state: Option<&EngineState<P, R, A, M>>) -> (stop: bool)
    ensures
        stop == (match state {
            Some(state) => state.monitor_stop,
            None => true,
        }),
{
    match state {
        Some(state) => state.monitor_stop,
        None => true,
    }
}

/// Applies a look at the foreground: playback pauses behind a fullscreen
/// application, and is silent behind any other one if the user wants that.
/// Resources are told only of what changes, of a pause first.
pub fn fullscreen_monitor<P, R, A, M>(
    state: &mut EngineState<P, R, A, M>,
    fullscreen: bool,
    other_app_open: bool,
) -> (requests: Vec<ControlRequest>)
    ensures
        *final(state) == (EngineState {
            fullscreen_paused: fullscreen,
            automatically_muted: old(state).mute_when_other_app_open && other_app_open,
            ..*old(state)
        }),
        requests@ == (if old(state).fullscreen_paused != fullscreen {
            final(state).told(Control::Pause(fullscreen))
        } else {
            Seq::empty()
        }) + (if old(state).automatically_muted != final(state).automatically_muted {
            final(state).told(Control::Mute(final(state).silent()))
        } else {
            Seq::empty()
        }),
        old(state).wf() ==> final(state).wf(),
{
    let mut requests: Vec<ControlRequest> = Vec::new();
    if state.fullscreen_paused != fullscreen {
        state.fullscreen_paused = fullscreen;
        state.tell(&mut requests, Control::Pause(fullscreen));
        assert(requests@ =~= state.told(Control::Pause(fullscreen)));
    }
    let ghost paused = requests@;
    let automatic_mute: bool = state.mute_when_other_app_open && other_app_open;
    if state.automatically_muted != automatic_mute {
        state.automatically_muted = automatic_mute;
        state.tell(&mut requests, Control::Mute(state.muted || automatic_mute));
    } else {
        assert(paused =~= paused + Seq::<ControlRequest>::empty());
    }
    requests
}

/// Once a video fallback has begun, nothing native is left that could fail
/// again: a wallpaper falls back at most once.
pub proof fn a_video_fallback_does_not_repeat<P, R, A, M>(state: EngineState<P, R, A, M>)
    requires
        state.wf() || state.video_fallback_pending(),
        state.video_fallback_status != FallbackStatus::Idle,
    ensures
        state.native_renderer is None,
        state.native_audio is None,
{
}

/// A late audio failure never stops the native video: while and after sound is
/// taken over, the renderer is the one that was there before.
pub proof fn audio_fallback_keeps_the_video<P, R, A, M>(
    before: EngineState<P, R, A, M>,
    pending: EngineState<P, R, A, M>,
)
    requires
        before.wf(),
        before.native_audio is Some,
        pending == (EngineState {
            native_audio: None,
            audio_fallback_status: FallbackStatus::InProgress,
            ..before
        }),
    ensures
        before.playback_status == PlaybackStatus::RunningNative,
        pending.audio_fallback_pending(),
        pending.native_renderer == before.native_renderer,
        pending.native_renderer is Some,
{
}

/// The automatic mute never overrules the user: with the user's mute on,
/// playback is silent whatever is in the foreground.
pub proof fn user_mute_wins<P, R, A, M>(state: EngineState<P, R, A, M>, automatically_muted: bool)
    requires
        state.muted,
    ensures
        (EngineState { automatically_muted, ..state }).silent(),
{
}

/// The player of a fallback plays the active wallpaper in the window that the
/// engine owns, with the settings of the engine, and shows its picture exactly
/// where it is asked to.
pub proof fn a_fallback_plays_in_the_same_window<P, R, A, M>(
    state: EngineState<P, R, A, M>,
    request: PlayerRequest,
    show_video: bool,
)
    requires
        state.fallback_request(request, show_video),
    ensures
        state.active_media == Some(request.path),
        request.host_window == state.host_window as usize,
        0 <= state.host_window ==> request.host_window == state.host_window,
        request.performance_mode == state.performance_mode,
        request.stretch_to_fill == state.stretch_to_fill,
        request.show_video <==> show_video,
{
}

/// A video fallback stops everything that plays, once: the failed renderer
/// first, so that its window is free, and any player last.
pub proof fn a_video_fallback_stops_everything<P, R, A, M>(state: EngineState<P, R, A, M>)
    ensures
        ({
            let stops = state.video_fallback_stops();
            &&& state.native_renderer matches Some(renderer) ==> stops.len() > 0 && stops[0]
                == StopRequest::<P, R, A>::Renderer(renderer)
            &&& state.player matches Some(player) ==> stops.len() > 0 && stops.last()
                == StopRequest::<P, R, A>::Player(player)
            &&& state.native_audio matches Some(audio) ==> stops.contains(
                StopRequest::<P, R, A>::Audio(audio),
            )
            &&& stops.len() == (if state.native_renderer is Some {
                1int
            } else {
                0
            }) + (if state.native_audio is Some {
                1int
            } else {
                0
            }) + (if state.player is Some {
                1int
            } else {
                0
            })
        }),
{
    if let Some(audio) = state.native_audio {
        let i: int = if state.native_renderer is Some {
            1
        } else {
            0
        };
        assert(state.video_fallback_stops()[i] == StopRequest::<P, R, A>::Audio(audio));
    }
}

/// What a renderer said about its failure is reported as it said it; only of one
/// that said nothing is the category reported.
pub proof fn a_failure_is_reported_as_it_was_said(failure: NativeFailure)
    ensures
        failure.diagnostic@.len() > 0 ==> failure_text(failure) == failure.diagnostic@,
        failure.diagnostic@.len() == 0 ==> failure_text(failure) == "[FailureCode="@ + decimal(
            failure.code as nat,
        ) + "] Native renderer stopped without a diagnostic."@,
{
}

} // verus!
