//! Engine state and the rules by which requests change it.
//!
//! The state is generic over the resources that playback owns: `P` is a libVLC
//! player, `R` a native video renderer, `A` a native audio renderer and `M` the
//! handle of the monitor thread. Rules hand resources out to be stopped and
//! take resources in once they run; they never act on them.

use crate::controls::{
    everyone_concerned_is_told, only_those_present_are_told, tell, tell_all, told, told_all, Control,
    ControlRequest, ControlTarget,
};
use crate::native_audio::{clamp_volume, clamped_volume};
use vstd::prelude::*;
use vstd::string::*;

verus! {

/// Progress of a fallback from a native backend to libVLC.
#[derive(Clone, Copy, Debug, PartialEq, Eq, Structural)]
pub enum FallbackStatus {
    Idle,
    InProgress,
    Active,
    Failed,
}

impl FallbackStatus {
    /// Begins a fallback. One can begin only from `Idle`, so it begins at most
    /// once until the next wallpaper resets the status.
    pub fn try_begin(&mut self) -> (begun: bool)
        ensures
            begun == (*old(self) == FallbackStatus::Idle),
            begun ==> *final(self) == FallbackStatus::InProgress,
            !begun ==> *final(self) == *old(self),
    {
        if *self != FallbackStatus::Idle {
            return false;
        }
        *self = FallbackStatus::InProgress;
        true
    }

    /// The number by which callers know the status.
    pub open spec fn spec_code(self) -> u32 {
        match self {
            FallbackStatus::Idle => 0,
            FallbackStatus::InProgress => 1,
            FallbackStatus::Active => 2,
            FallbackStatus::Failed => 3,
        }
    }

    /// The number by which callers know the status.
    pub fn code(self) -> (code: u32)
        ensures
            code == self.spec_code(),
    {
        match self {
            FallbackStatus::Idle => 0,
            FallbackStatus::InProgress => 1,
            FallbackStatus::Active => 2,
            FallbackStatus::Failed => 3,
        }
    }
}

impl Default for FallbackStatus {
    fn default() -> (status: Self)
        ensures
            status == FallbackStatus::Idle,
    {
        FallbackStatus::Idle
    }
}

/// What the engine is doing.
#[derive(Clone, Copy, Debug, PartialEq, Eq, Structural)]
pub enum PlaybackStatus {
    Stopped,
    Starting,
    RunningNative,
    RunningHybrid,
    RunningVlc,
    Stopping,
    Failed,
}

impl PlaybackStatus {
    /// The number by which callers know the status.
    pub open spec fn spec_code(self) -> u32 {
        match self {
            PlaybackStatus::Stopped => 0,
            PlaybackStatus::Starting => 1,
            PlaybackStatus::RunningNative => 2,
            PlaybackStatus::RunningHybrid => 3,
            PlaybackStatus::RunningVlc => 4,
            PlaybackStatus::Stopping => 5,
            PlaybackStatus::Failed => 6,
        }
    }

    /// The number by which callers know the status.
    pub fn code(self) -> (code: u32)
        ensures
            code == self.spec_code(),
    {
        match self {
            PlaybackStatus::Stopped => 0,
            PlaybackStatus::Starting => 1,
            PlaybackStatus::RunningNative => 2,
            PlaybackStatus::RunningHybrid => 3,
            PlaybackStatus::RunningVlc => 4,
            PlaybackStatus::Stopping => 5,
            PlaybackStatus::Failed => 6,
        }
    }

    /// Whether a wallpaper plays.
    pub open spec fn running(self) -> bool {
        self is RunningNative || self is RunningHybrid || self is RunningVlc
    }
}

impl Default for PlaybackStatus {
    fn default() -> (status: Self)
        ensures
            status == PlaybackStatus::Stopped,
    {
        PlaybackStatus::Stopped
    }
}

/// The settings that one start of playback works with.
#[derive(Clone, Copy, Debug, PartialEq, Eq, Structural)]
pub struct PlaybackConfig {
    pub generation: u64,
    pub host_window: isize,
    pub d3d11_media_foundation_available: bool,
    pub muted: bool,
    pub volume: i32,
    pub performance_mode: i32,
    pub stretch_to_fill: bool,
    pub paused: bool,
}

/// What a start of the libVLC player needs to know.
pub struct PlayerRequest {
    pub path: String,
    pub host_window: usize,
    pub performance_mode: i32,
    pub show_video: bool,
    pub stretch_to_fill: bool,
}

/// What is set on running resources.
#[derive(Clone, Copy, Debug, PartialEq, Eq, Structural)]
pub struct PlaybackControls {
    pub muted: bool,
    pub volume: i32,
    pub paused: bool,
}

/// One resource that has to be stopped.
pub enum StopRequest<P, R, A> {
    Player(P),
    Renderer(R),
    Audio(A),
}

/// The resources that playback owns.
pub struct PlaybackResources<P, R, A> {
    pub player: Option<P>,
    pub native_renderer: Option<R>,
    pub native_audio: Option<A>,
}

impl<P, R, A> PlaybackResources<P, R, A> {
    /// Whether there is nothing to stop.
    pub open spec fn empty(&self) -> bool {
        self.player is None && self.native_renderer is None && self.native_audio is None
    }

    /// The order of stopping: player, renderer, audio.
    pub open spec fn stop_order(self) -> Seq<StopRequest<P, R, A>> {
        let player = match self.player {
            Some(player) => seq![StopRequest::<P, R, A>::Player(player)],
            None => Seq::empty(),
        };
        let renderer = match self.native_renderer {
            Some(renderer) => seq![StopRequest::<P, R, A>::Renderer(renderer)],
            None => Seq::empty(),
        };
        let audio = match self.native_audio {
            Some(audio) => seq![StopRequest::<P, R, A>::Audio(audio)],
            None => Seq::empty(),
        };
        player + renderer + audio
    }

    /// Everything that has to be stopped, in order.
    pub fn stop(self) -> (requests: Vec<StopRequest<P, R, A>>)
        ensures
            requests@ == self.stop_order(),
    {
        let ghost order = self.stop_order();
        let mut requests: Vec<StopRequest<P, R, A>> = Vec::new();
        if let Some(player) = self.player {
            requests.push(StopRequest::Player(player));
        }
        if let Some(renderer) = self.native_renderer {
            requests.push(StopRequest::Renderer(renderer));
        }
        if let Some(audio) = self.native_audio {
            requests.push(StopRequest::Audio(audio));
        }
        assert(requests@ =~= order);
        requests
    }
}

/// A pipeline that runs but has not been taken over by the engine yet.
pub struct PreparedPlayback<P, R, A> {
    pub resources: PlaybackResources<P, R, A>,
    pub native_mp4_diagnostic: String,
    pub native_audio_diagnostic: String,
    pub native_mp4_failure_code: u32,
    pub video_fallback_status: FallbackStatus,
    pub audio_fallback_status: FallbackStatus,
    pub status: PlaybackStatus,
}

/// The state of the engine.
pub struct EngineState<P, R, A, M> {
    pub generation: u64,
    pub playback_status: PlaybackStatus,
    pub host_window: isize,
    pub active_media: Option<String>,
    pub muted: bool,
    pub mute_when_other_app_open: bool,
    pub automatically_muted: bool,
    pub volume: i32,
    pub performance_mode: i32,
    pub stretch_to_fill: bool,
    pub d3d11_media_foundation_available: bool,
    pub native_mp4_diagnostic: String,
    pub native_mp4_failure_code: u32,
    pub native_audio_diagnostic: String,
    pub video_fallback_status: FallbackStatus,
    pub audio_fallback_status: FallbackStatus,
    pub last_error: String,
    pub player: Option<P>,
    pub native_renderer: Option<R>,
    pub native_audio: Option<A>,
    pub monitor_stop: bool,
    pub fullscreen_paused: bool,
    pub monitor: Option<M>,
}

/// The resources that a playback status and its fallback statuses allow.
pub open spec fn resources_match<P, R, A>(
    status: PlaybackStatus,
    player: Option<P>,
    renderer: Option<R>,
    audio: Option<A>,
    video_fallback: FallbackStatus,
    audio_fallback: FallbackStatus,
) -> bool {
    match status {
        PlaybackStatus::RunningNative => {
            &&& player is None && renderer is Some && audio is Some
            &&& video_fallback == FallbackStatus::Idle
            &&& audio_fallback == FallbackStatus::Idle
        },
        PlaybackStatus::RunningHybrid => {
            &&& renderer is Some && audio is None
            &&& video_fallback == FallbackStatus::Idle
            &&& player is Some <==> audio_fallback == FallbackStatus::Active
        },
        PlaybackStatus::RunningVlc => {
            &&& player is Some && renderer is None && audio is None
            &&& video_fallback == FallbackStatus::Active
            &&& audio_fallback == FallbackStatus::Active
        },
        _ => player is None && renderer is None && audio is None,
    }
}

impl<P, R, A, M> EngineState<P, R, A, M> {
    /// The settings are in range, the resources fit the status, a wallpaper
    /// that starts or plays has a path, and no fallback is half done.
    pub open spec fn wf(&self) -> bool {
        &&& 0 <= self.volume <= 100
        &&& 0 <= self.performance_mode <= 2
        &&& resources_match(
            self.playback_status,
            self.player,
            self.native_renderer,
            self.native_audio,
            self.video_fallback_status,
            self.audio_fallback_status,
        )
        &&& self.playback_status.running() || self.playback_status is Starting
            ==> self.active_media is Some
        &&& self.playback_status is Stopped || self.playback_status is Stopping
            ==> self.active_media is None
        &&& self.video_fallback_status != FallbackStatus::InProgress
        &&& self.audio_fallback_status != FallbackStatus::InProgress
    }

    /// Whether playback is silent, by the user's or by the automatic mute.
    pub open spec fn silent(&self) -> bool {
        self.muted || self.automatically_muted
    }

    /// The controls that running resources are given.
    pub open spec fn controls(&self) -> PlaybackControls {
        PlaybackControls {
            muted: self.silent(),
            volume: self.volume,
            paused: self.fullscreen_paused,
        }
    }

    /// Who is told of a control, of the resources that the engine owns.
    pub open spec fn told(&self, control: Control) -> Seq<ControlRequest> {
        told(
            control,
            self.player is Some,
            self.native_renderer is Some,
            self.native_audio is Some,
        )
    }

    /// The resources that the engine owns.
    pub open spec fn resources(&self) -> PlaybackResources<P, R, A> {
        PlaybackResources {
            player: self.player,
            native_renderer: self.native_renderer,
            native_audio: self.native_audio,
        }
    }

    /// The engine before anything was asked of it.
    pub fn new() -> (state: Self)
        ensures
            state.wf(),
            state.generation == 0,
            state.playback_status == PlaybackStatus::Stopped,
            state.host_window == 0,
            state.active_media is None,
            !state.muted,
            !state.mute_when_other_app_open,
            !state.automatically_muted,
            state.volume == 100,
            state.performance_mode == 1,
            state.stretch_to_fill,
            !state.d3d11_media_foundation_available,
            state.native_mp4_diagnostic@ == Seq::<char>::empty(),
            state.native_mp4_failure_code == 0,
            state.native_audio_diagnostic@ == Seq::<char>::empty(),
            state.video_fallback_status == FallbackStatus::Idle,
            state.audio_fallback_status == FallbackStatus::Idle,
            state.last_error@ == Seq::<char>::empty(),
            state.resources().empty(),
            !state.monitor_stop,
            !state.fullscreen_paused,
            state.monitor is None,
    {
        EngineState {
            generation: 0,
            playback_status: PlaybackStatus::Stopped,
            host_window: 0,
            active_media: None,
            muted: false,
            mute_when_other_app_open: false,
            automatically_muted: false,
            volume: 100,
            performance_mode: 1,
            stretch_to_fill: true,
            d3d11_media_foundation_available: false,
            native_mp4_diagnostic: String::new(),
            native_mp4_failure_code: 0,
            native_audio_diagnostic: String::new(),
            video_fallback_status: FallbackStatus::Idle,
            audio_fallback_status: FallbackStatus::Idle,
            last_error: String::new(),
            player: None,
            native_renderer: None,
            native_audio: None,
            monitor_stop: false,
            fullscreen_paused: false,
            monitor: None,
        }
    }

    fn current_controls(&self) -> (controls: PlaybackControls)
        ensures
            controls == self.controls(),
    {
        PlaybackControls {
            muted: self.muted || self.automatically_muted,
            volume: self.volume,
            paused: self.fullscreen_paused,
        }
    }

    /// Adds who is told of a control.
    pub(crate) fn tell(&self, requests: &mut Vec<ControlRequest>, control: Control)
        ensures
            final(requests)@ == old(requests)@ + self.told(control),
    {
        tell(
            requests,
            control,
            self.player.is_some(),
            self.native_renderer.is_some(),
            self.native_audio.is_some(),
        );
    }

    fn tell_of(&self, control: Control) -> (requests: Vec<ControlRequest>)
        ensures
            requests@ == self.told(control),
    {
        let mut requests: Vec<ControlRequest> = Vec::new();
        self.tell(&mut requests, control);
        assert(requests@ =~= self.told(control));
        requests
    }

    fn take_resources(&mut self) -> (resources: PlaybackResources<P, R, A>)
        ensures
            resources == old(self).resources(),
            *final(self) == (EngineState {
                player: None,
                native_renderer: None,
                native_audio: None,
                ..*old(self)
            }),
    {
        let player = self.player.take();
        let native_renderer = self.native_renderer.take();
        let native_audio = self.native_audio.take();
        PlaybackResources { player, native_renderer, native_audio }
    }
}

/// The generation after `generation`.
pub open spec fn next_generation(generation: u64) -> u64 {
    if generation == u64::MAX {
        0
    } else {
        (generation + 1) as u64
    }
}

fn advance_generation(generation: u64) -> (next: u64)
    ensures
        next == next_generation(generation),
{
    generation.wrapping_add(1)
}

/// Remembers the most recent error.
pub fn set_last_error<P, R, A, M>(state: &mut EngineState<P, R, A, M>, message: &str)
    ensures
        final(state).last_error@ == message@,
        *final(state) == (EngineState { last_error: final(state).last_error, ..*old(state) }),
{
    state.last_error = String::from_str(message);
}

/// Whether the request of `request_generation` is the one that is starting.
pub open spec fn current_request(
    current_generation: u64,
    status: PlaybackStatus,
    request_generation: u64,
) -> bool {
    current_generation == request_generation && status == PlaybackStatus::Starting
}

/// Whether the request of `request_generation` is the one that is starting.
pub fn is_current_playback_request(
    current_generation: u64,
    status: PlaybackStatus,
    request_generation: u64,
) -> (current: bool)
    ensures
        current == current_request(current_generation, status, request_generation),
{
    current_generation == request_generation && status == PlaybackStatus::Starting
}

/// Whether a waiting start is still the latest one. An engine that cannot be
/// looked at has no current start.
pub fn generation_is_current<P, R, A, M>(
    state: Option<&EngineState<P, R, A, M>>,
    generation: u64,
) -> (current: bool)
    ensures
        current == (match state {
            Some(state) => current_request(state.generation, state.playback_status, generation),
            None => false,
        }),
{
    match state {
        Some(state) => is_current_playback_request(
            state.generation,
            state.playback_status,
            generation,
        ),
        None => false,
    }
}

/// What the engine is told to play, and what has to stop for it.
pub struct StartedWallpaper<P, R, A> {
    pub config: PlaybackConfig,
    pub previous: PlaybackResources<P, R, A>,
}

/// What the start of a wallpaper does: it gets a generation of its own, and
/// everything that played before is handed out. An engine that is shutting down
/// starts nothing.
pub open spec fn begins_start<P, R, A, M>(
    before: EngineState<P, R, A, M>,
    path: String,
    started: Option<StartedWallpaper<P, R, A>>,
    after: EngineState<P, R, A, M>,
) -> bool {
    &&& started is Some <==> before.playback_status != PlaybackStatus::Stopping
    &&& started is None ==> {
        &&& after.last_error@ == "Engine shutdown is in progress."@
        &&& after == (EngineState { last_error: after.last_error, ..before })
    }
    &&& started matches Some(started) ==> {
        &&& started.previous == before.resources()
        &&& started.config == (PlaybackConfig {
            generation: next_generation(before.generation),
            host_window: before.host_window,
            d3d11_media_foundation_available: before.d3d11_media_foundation_available,
            muted: before.silent(),
            volume: before.volume,
            performance_mode: before.performance_mode,
            stretch_to_fill: before.stretch_to_fill,
            paused: before.fullscreen_paused,
        })
        &&& after.last_error@ == Seq::<char>::empty()
        &&& after == (EngineState {
            generation: next_generation(before.generation),
            playback_status: PlaybackStatus::Starting,
            active_media: Some(path),
            video_fallback_status: FallbackStatus::Idle,
            audio_fallback_status: FallbackStatus::Idle,
            native_mp4_failure_code: 0,
            last_error: after.last_error,
            player: None,
            native_renderer: None,
            native_audio: None,
            ..before
        })
    }
}

/// Begins the start of a wallpaper: it gets a generation of its own, and
/// everything that played before is handed out to be stopped. An engine that
/// is shutting down starts nothing.
pub fn start_wallpaper<P, R, A, M>(
    state: &mut EngineState<P, R, A, M>,
    path: String,
) -> (started: Option<StartedWallpaper<P, R, A>>)
    ensures
        begins_start(*old(state), path, started, *final(state)),
        old(state).wf() ==> final(state).wf(),
{
    if state.playback_status == PlaybackStatus::Stopping {
        state.last_error = String::from_str("Engine shutdown is in progress.");
        return None;
    }
    state.generation = advance_generation(state.generation);
    state.playback_status = PlaybackStatus::Starting;
    state.active_media = Some(path);
    state.video_fallback_status = FallbackStatus::Idle;
    state.audio_fallback_status = FallbackStatus::Idle;
    state.native_mp4_failure_code = 0;
    state.last_error = String::new();
    let config = PlaybackConfig {
        generation: state.generation,
        host_window: state.host_window,
        d3d11_media_foundation_available: state.d3d11_media_foundation_available,
        muted: state.muted || state.automatically_muted,
        volume: state.volume,
        performance_mode: state.performance_mode,
        stretch_to_fill: state.stretch_to_fill,
        paused: state.fullscreen_paused,
    };
    let previous = state.take_resources();
    Some(StartedWallpaper { config, previous })
}

/// Records that no pipeline could be prepared. Only the latest generation may
/// do so.
pub fn fail_wallpaper<P, R, A, M>(
    state: &mut EngineState<P, R, A, M>,
    generation: u64,
    error: String,
)
    ensures
        old(state).generation != generation ==> *final(state) == *old(state),
        old(state).generation == generation ==> *final(state) == (EngineState {
            playback_status: PlaybackStatus::Failed,
            active_media: None,
            last_error: error,
            ..*old(state)
        }),
        old(state).wf() && (old(state).generation == generation
            ==> !old(state).playback_status.running()) ==> final(state).wf(),
{
    if state.generation == generation {
        state.playback_status = PlaybackStatus::Failed;
        state.active_media = None;
        state.last_error = error;
    }
}

/// What becomes of a prepared pipeline.
pub enum Commit<P, R, A> {
    /// The engine owns it; its resources are told of the controls of the moment.
    Committed(Vec<ControlRequest>),
    /// A newer request went ahead of it; it has to be stopped.
    Superseded(PlaybackResources<P, R, A>),
}

/// Whether a prepared pipeline is consistent in itself.
pub open spec fn prepared_wf<P, R, A>(prepared: PreparedPlayback<P, R, A>) -> bool {
    &&& prepared.status.running()
    &&& resources_match(
        prepared.status,
        prepared.resources.player,
        prepared.resources.native_renderer,
        prepared.resources.native_audio,
        prepared.video_fallback_status,
        prepared.audio_fallback_status,
    )
    &&& prepared.video_fallback_status != FallbackStatus::InProgress
    &&& prepared.audio_fallback_status != FallbackStatus::InProgress
}

/// Takes a prepared pipeline over, if its request is still the one that is
/// starting.
pub fn commit_wallpaper<P, R, A, M>(
    state: &mut EngineState<P, R, A, M>,
    generation: u64,
    prepared: PreparedPlayback<P, R, A>,
) -> (commit: Commit<P, R, A>)
    ensures
        ({
            let current = current_request(
                old(state).generation,
                old(state).playback_status,
                generation,
            );
            &&& !current ==> commit == Commit::<P, R, A>::Superseded(prepared.resources)
                && *final(state) == *old(state)
            &&& current ==> {
                &&& commit matches Commit::Committed(requests) && requests@ == told_all(
                    old(state).controls(),
                    prepared.resources.player is Some,
                    prepared.resources.native_renderer is Some,
                    prepared.resources.native_audio is Some,
                )
                &&& final(state).last_error@ == Seq::<char>::empty()
                &&& *final(state) == (EngineState {
                    player: prepared.resources.player,
                    native_renderer: prepared.resources.native_renderer,
                    native_audio: prepared.resources.native_audio,
                    native_mp4_diagnostic: prepared.native_mp4_diagnostic,
                    native_audio_diagnostic: prepared.native_audio_diagnostic,
                    native_mp4_failure_code: prepared.native_mp4_failure_code,
                    video_fallback_status: prepared.video_fallback_status,
                    audio_fallback_status: prepared.audio_fallback_status,
                    playback_status: prepared.status,
                    last_error: final(state).last_error,
                    ..*old(state)
                })
            }
        }),
        old(state).wf() && prepared_wf(prepared) ==> final(state).wf(),
{
    if !is_current_playback_request(state.generation, state.playback_status, generation) {
        return Commit::Superseded(prepared.resources);
    }
    let requests = tell_all(
        state.current_controls(),
        prepared.resources.player.is_some(),
        prepared.resources.native_renderer.is_some(),
        prepared.resources.native_audio.is_some(),
    );
    state.player = prepared.resources.player;
    state.native_renderer = prepared.resources.native_renderer;
    state.native_audio = prepared.resources.native_audio;
    state.native_mp4_diagnostic = prepared.native_mp4_diagnostic;
    state.native_audio_diagnostic = prepared.native_audio_diagnostic;
    state.native_mp4_failure_code = prepared.native_mp4_failure_code;
    state.video_fallback_status = prepared.video_fallback_status;
    state.audio_fallback_status = prepared.audio_fallback_status;
    state.playback_status = prepared.status;
    state.last_error = String::new();
    Commit::Committed(requests)
}

/// A performance mode, brought into the range 0 to 2.
pub open spec fn clamped_mode(mode: i32) -> i32 {
    if mode < 0 {
        0
    } else if mode > 2 {
        2
    } else {
        mode
    }
}

/// Sets the performance mode: 0 is eco, 1 balanced, 2 quality. It is applied
/// when playback restarts.
pub fn set_performance_mode<P, R, A, M>(
    state: &mut EngineState<P, R, A, M>,
    mode: i32,
) -> (done: bool)
    ensures
        done,
        final(state).last_error@ == Seq::<char>::empty(),
        *final(state) == (EngineState {
            performance_mode: clamped_mode(mode),
            last_error: final(state).last_error,
            ..*old(state)
        }),
        old(state).wf() ==> final(state).wf(),
{
    state.performance_mode = if mode < 0 {
        0
    } else if mode > 2 {
        2
    } else {
        mode
    };
    state.last_error = String::new();
    true
}

/// Sets the scaling for the next start of playback.
pub fn set_stretch_to_fill<P, R, A, M>(
    state: &mut EngineState<P, R, A, M>,
    enabled: bool,
) -> (done: bool)
    ensures
        done,
        final(state).last_error@ == Seq::<char>::empty(),
        *final(state) == (EngineState {
            stretch_to_fill: enabled,
            last_error: final(state).last_error,
            ..*old(state)
        }),
        old(state).wf() ==> final(state).wf(),
{
    state.stretch_to_fill = enabled;
    state.last_error = String::new();
    true
}

/// Mutes or unmutes playback. The result says who is told, and what.
pub fn set_muted<P, R, A, M>(state: &mut EngineState<P, R, A, M>, muted: bool) -> (requests: Vec<
    ControlRequest,
>)
    ensures
        requests@ == final(state).told(Control::Mute(final(state).silent())),
        final(state).last_error@ == Seq::<char>::empty(),
        *final(state) == (EngineState {
            muted,
            last_error: final(state).last_error,
            ..*old(state)
        }),
        old(state).wf() ==> final(state).wf(),
{
    state.muted = muted;
    state.last_error = String::new();
    state.tell_of(Control::Mute(state.muted || state.automatically_muted))
}

/// Turns the automatic mute on or off and applies it at once, by whether an
/// ordinary application is in the foreground. The result says who is told, and
/// what.
pub fn set_mute_when_other_app_open<P, R, A, M>(
    state: &mut EngineState<P, R, A, M>,
    enabled: bool,
    other_app_open: bool,
) -> (requests: Vec<ControlRequest>)
    ensures
        requests@ == final(state).told(Control::Mute(final(state).silent())),
        final(state).last_error@ == Seq::<char>::empty(),
        *final(state) == (EngineState {
            mute_when_other_app_open: enabled,
            automatically_muted: enabled && other_app_open,
            last_error: final(state).last_error,
            ..*old(state)
        }),
        old(state).wf() ==> final(state).wf(),
{
    state.mute_when_other_app_open = enabled;
    state.automatically_muted = enabled && other_app_open;
    state.last_error = String::new();
    state.tell_of(Control::Mute(state.muted || state.automatically_muted))
}

/// Sets the volume, brought into the range 0 to 100. It is kept even before a
/// wallpaper starts. The result says who is told, and what.
pub fn set_volume<P, R, A, M>(state: &mut EngineState<P, R, A, M>, volume: i32) -> (requests: Vec<
    ControlRequest,
>)
    ensures
        requests@ == final(state).told(Control::Volume(clamped_volume(volume))),
        final(state).last_error@ == Seq::<char>::empty(),
        *final(state) == (EngineState {
            volume: clamped_volume(volume),
            last_error: final(state).last_error,
            ..*old(state)
        }),
        old(state).wf() ==> final(state).wf(),
{
    state.volume = clamp_volume(volume);
    state.last_error = String::new();
    state.tell_of(Control::Volume(state.volume))
}

/// What a shutdown has to stop, to wait for and to destroy.
pub struct Shutdown<P, R, A, M> {
    pub monitor: Option<M>,
    pub resources: PlaybackResources<P, R, A>,
    pub host_window: isize,
}

/// What the beginning of a shutdown does: the running start, if any, becomes
/// stale, and everything that the engine owns is handed out.
pub open spec fn begins_shutdown<P, R, A, M>(
    before: EngineState<P, R, A, M>,
    shutdown: Shutdown<P, R, A, M>,
    after: EngineState<P, R, A, M>,
) -> bool {
    &&& shutdown.monitor == before.monitor
    &&& shutdown.resources == before.resources()
    &&& shutdown.host_window == before.host_window
    &&& after.last_error@ == Seq::<char>::empty()
    &&& after == (EngineState {
        generation: next_generation(before.generation),
        playback_status: PlaybackStatus::Stopping,
        monitor_stop: true,
        active_media: None,
        video_fallback_status: FallbackStatus::Idle,
        audio_fallback_status: FallbackStatus::Idle,
        native_mp4_failure_code: 0,
        last_error: after.last_error,
        player: None,
        native_renderer: None,
        native_audio: None,
        monitor: None,
        ..before
    })
}

/// Begins a shutdown: the running start, if any, becomes stale, and everything
/// that the engine owns is handed out.
pub fn stop_engine<P, R, A, M>(state: &mut EngineState<P, R, A, M>) -> (shutdown: Shutdown<
    P,
    R,
    A,
    M,
>)
    ensures
        begins_shutdown(*old(state), shutdown, *final(state)),
        old(state).wf() ==> final(state).wf(),
{
    state.generation = advance_generation(state.generation);
    state.playback_status = PlaybackStatus::Stopping;
    state.monitor_stop = true;
    state.active_media = None;
    state.video_fallback_status = FallbackStatus::Idle;
    state.audio_fallback_status = FallbackStatus::Idle;
    state.native_mp4_failure_code = 0;
    state.last_error = String::new();
    let resources = state.take_resources();
    let monitor = state.monitor.take();
    Shutdown { monitor, resources, host_window: state.host_window }
}

/// The engine at the end of a shutdown, unless another request came between.
pub open spec fn ended_shutdown<P, R, A, M>(before: EngineState<P, R, A, M>) -> EngineState<
    P,
    R,
    A,
    M,
> {
    if before.playback_status == PlaybackStatus::Stopping {
        EngineState { host_window: 0, playback_status: PlaybackStatus::Stopped, ..before }
    } else {
        before
    }
}

/// Ends a shutdown, once the window is gone.
pub fn finish_stop<P, R, A, M>(state: &mut EngineState<P, R, A, M>)
    ensures
        *final(state) == ended_shutdown(*old(state)),
        old(state).wf() ==> final(state).wf(),
{
    if state.playback_status == PlaybackStatus::Stopping {
        state.host_window = 0;
        state.playback_status = PlaybackStatus::Stopped;
    }
}

/// What clearing the wallpaper has to stop, and the generation it works in.
pub struct ClearedPlayback<P, R, A> {
    pub generation: u64,
    pub resources: PlaybackResources<P, R, A>,
}

/// Ends playback and keeps the host window.
pub fn clear_playback_preserving_host<P, R, A, M>(state: &mut EngineState<P, R, A, M>) -> (cleared:
    ClearedPlayback<P, R, A>)
    ensures
        cleared.generation == final(state).generation,
        cleared.resources == old(state).resources(),
        *final(state) == (EngineState {
            generation: next_generation(old(state).generation),
            playback_status: PlaybackStatus::Stopping,
            active_media: None,
            video_fallback_status: FallbackStatus::Idle,
            audio_fallback_status: FallbackStatus::Idle,
            native_mp4_failure_code: 0,
            player: None,
            native_renderer: None,
            native_audio: None,
            ..*old(state)
        }),
        old(state).wf() ==> final(state).wf(),
{
    state.generation = advance_generation(state.generation);
    state.playback_status = PlaybackStatus::Stopping;
    state.active_media = None;
    state.video_fallback_status = FallbackStatus::Idle;
    state.audio_fallback_status = FallbackStatus::Idle;
    state.native_mp4_failure_code = 0;
    let resources = state.take_resources();
    ClearedPlayback { generation: state.generation, resources }
}

/// Ends the clearing of `generation`, unless another request came between.
pub fn finish_clear<P, R, A, M>(state: &mut EngineState<P, R, A, M>, generation: u64)
    ensures
        *final(state) == (if old(state).generation == generation && old(state).playback_status
            == PlaybackStatus::Stopping {
            EngineState { playback_status: PlaybackStatus::Stopped, ..*old(state) }
        } else {
            *old(state)
        }),
        old(state).wf() ==> final(state).wf(),
{
    if state.generation == generation && state.playback_status == PlaybackStatus::Stopping {
        state.playback_status = PlaybackStatus::Stopped;
    }
}

/// Reports whether the desktop was made black, by whether the color and the
/// wallpaper could be set.
pub fn set_black_desktop<P, R, A, M>(
    state: &mut EngineState<P, R, A, M>,
    color_set: bool,
    wallpaper_set: bool,
) -> (done: bool)
    ensures
        done == (color_set && wallpaper_set),
        final(state).last_error@ == (if done {
            Seq::<char>::empty()
        } else {
            "Could not set the desktop background to black."@
        }),
        *final(state) == (EngineState { last_error: final(state).last_error, ..*old(state) }),
        old(state).wf() ==> final(state).wf(),
{
    if color_set && wallpaper_set {
        state.last_error = String::new();
        true
    } else {
        state.last_error = String::from_str("Could not set the desktop background to black.");
        false
    }
}

/// The generation after `requests` further starts, shutdowns and clearings.
pub open spec fn generation_after(generation: u64, requests: nat) -> u64
    decreases requests,
{
    if requests == 0 {
        generation
    } else {
        next_generation(generation_after(generation, (requests - 1) as nat))
    }
}

proof fn lemma_generation_after(generation: u64, requests: nat)
    ensures
        generation_after(generation, requests) == (generation + requests)
            % 0x1_0000_0000_0000_0000,
    decreases requests,
{
    if requests > 0 {
        lemma_generation_after(generation, (requests - 1) as nat);
    }
}

/// Once another start, shutdown or clearing has taken a generation, a request
/// is current no more, whatever the engine does then. Only after as many
/// requests as there are generations would its turn come again.
pub proof fn a_newer_generation_supersedes(generation: u64, requests: nat, status: PlaybackStatus)
    requires
        0 < requests < 0x1_0000_0000_0000_0000,
    ensures
        !current_request(generation_after(generation, requests), status, generation),
{
    lemma_generation_after(generation, requests);
}

/// Of two starts, one after the other, only the second can be committed.
pub proof fn the_latest_start_wins<P, R, A, M>(
    before: EngineState<P, R, A, M>,
    first_path: String,
    first: StartedWallpaper<P, R, A>,
    between: EngineState<P, R, A, M>,
    second_path: String,
    second: StartedWallpaper<P, R, A>,
    after: EngineState<P, R, A, M>,
)
    requires
        begins_start(before, first_path, Some(first), between),
        begins_start(between, second_path, Some(second), after),
    ensures
        !current_request(after.generation, after.playback_status, first.config.generation),
        current_request(after.generation, after.playback_status, second.config.generation),
{
}

/// Once a shutdown has begun, no start can be committed.
pub proof fn a_shutdown_ends_every_start<P, R, A, M>(
    before: EngineState<P, R, A, M>,
    shutdown: Shutdown<P, R, A, M>,
    after: EngineState<P, R, A, M>,
    generation: u64,
)
    requires
        begins_shutdown(before, shutdown, after),
    ensures
        !current_request(after.generation, after.playback_status, generation),
        !current_request(
            ended_shutdown(after).generation,
            ended_shutdown(after).playback_status,
            generation,
        ),
{
}

/// An engine can be shut down again: the second shutdown finds nothing to stop,
/// no monitor to wait for and no window to destroy.
pub proof fn a_second_shutdown_finds_nothing<P, R, A, M>(
    before: EngineState<P, R, A, M>,
    first: Shutdown<P, R, A, M>,
    between: EngineState<P, R, A, M>,
    second: Shutdown<P, R, A, M>,
    after: EngineState<P, R, A, M>,
)
    requires
        begins_shutdown(before, first, between),
        begins_shutdown(ended_shutdown(between), second, after),
    ensures
        second.resources.empty(),
        second.monitor is None,
        second.host_window == 0,
        ended_shutdown(after).playback_status == PlaybackStatus::Stopped,
        ended_shutdown(after).resources().empty(),
{
}

/// A start can be committed at most once: what it was committed as is no
/// longer a starting engine.
pub proof fn a_commit_is_final<P, R, A>(
    generation: u64,
    prepared: PreparedPlayback<P, R, A>,
    request_generation: u64,
)
    requires
        prepared_wf(prepared),
    ensures
        !current_request(generation, prepared.status, request_generation),
{
}

/// Stopping hands out every resource exactly once.
pub proof fn stop_order_covers_the_resources<P, R, A>(resources: PlaybackResources<P, R, A>)
    ensures
        resources.stop_order().len() == (if resources.player is Some {
            1int
        } else {
            0
        }) + (if resources.native_renderer is Some {
            1int
        } else {
            0
        }) + (if resources.native_audio is Some {
            1int
        } else {
            0
        }),
        resources.player matches Some(player) ==> resources.stop_order()[0]
            == StopRequest::<P, R, A>::Player(player),
        resources.native_audio matches Some(audio) ==> resources.stop_order().last()
            == StopRequest::<P, R, A>::Audio(audio),
        resources.native_renderer matches Some(renderer) ==> resources.stop_order().contains(
            StopRequest::<P, R, A>::Renderer(renderer),
        ),
{
    if let Some(renderer) = resources.native_renderer {
        let i: int = if resources.player is Some {
            1
        } else {
            0
        };
        assert(resources.stop_order()[i] == StopRequest::<P, R, A>::Renderer(renderer));
    }
}

/// The numbers by which callers know the progress of a fallback.
pub proof fn fallback_codes_are_fixed(status: FallbackStatus, other: FallbackStatus)
    ensures
        status == FallbackStatus::Idle <==> status.spec_code() == 0,
        status == FallbackStatus::InProgress <==> status.spec_code() == 1,
        status == FallbackStatus::Active <==> status.spec_code() == 2,
        status == FallbackStatus::Failed <==> status.spec_code() == 3,
        status.spec_code() == other.spec_code() ==> status == other,
{
}

/// The numbers by which callers know what the engine is doing.
pub proof fn playback_codes_are_fixed(status: PlaybackStatus, other: PlaybackStatus)
    ensures
        status == PlaybackStatus::Stopped <==> status.spec_code() == 0,
        status == PlaybackStatus::Starting <==> status.spec_code() == 1,
        status == PlaybackStatus::RunningNative <==> status.spec_code() == 2,
        status == PlaybackStatus::RunningHybrid <==> status.spec_code() == 3,
        status == PlaybackStatus::RunningVlc <==> status.spec_code() == 4,
        status == PlaybackStatus::Stopping <==> status.spec_code() == 5,
        status == PlaybackStatus::Failed <==> status.spec_code() == 6,
        status.running() <==> 2 <= status.spec_code() <= 4,
        status.spec_code() == other.spec_code() ==> status == other,
{
}

/// What plays in each status: native picture and sound, a native picture with
/// the sound of libVLC or with none, or libVLC alone. In every other status
/// nothing plays, and the engine owns nothing.
pub proof fn what_plays_in_each_status<P, R, A, M>(state: EngineState<P, R, A, M>)
    requires
        state.wf(),
    ensures
        state.playback_status == PlaybackStatus::RunningNative ==> state.native_renderer is Some
            && state.native_audio is Some && state.player is None,
        state.playback_status == PlaybackStatus::RunningHybrid ==> state.native_renderer is Some
            && state.native_audio is None,
        state.playback_status == PlaybackStatus::RunningVlc ==> state.native_renderer is None
            && state.native_audio is None && state.player is Some,
        !state.playback_status.running() ==> state.native_renderer is None
            && state.native_audio is None && state.player is None,
        state.playback_status.running() ==> state.active_media is Some,
        0 <= state.volume <= 100,
        0 <= state.performance_mode <= 2,
{
}

/// Playback is silent exactly where the user or the automatic mute wants it, and
/// running resources are given that mute, the volume and the pause.
pub proof fn controls_are_those_of_the_state<P, R, A, M>(state: EngineState<P, R, A, M>)
    ensures
        state.silent() <==> state.muted || state.automatically_muted,
        state.controls().muted <==> state.muted || state.automatically_muted,
        state.controls().volume == state.volume,
        state.controls().paused == state.fullscreen_paused,
{
}

/// The engine tells what it owns: a player and a native audio of every control,
/// a native renderer of every pause, and nobody else.
pub proof fn the_engine_tells_what_it_owns<P, R, A, M>(
    state: EngineState<P, R, A, M>,
    control: Control,
    request: ControlRequest,
)
    ensures
        state.told(control).contains(request) <==> request.control == control && (
        match request.target {
            ControlTarget::Player => state.player is Some,
            ControlTarget::Renderer => state.native_renderer is Some && control is Pause,
            ControlTarget::Audio => state.native_audio is Some,
        }),
{
    let player = state.player is Some;
    let renderer = state.native_renderer is Some;
    let audio = state.native_audio is Some;
    everyone_concerned_is_told(control, player, renderer, audio);
    let requests = state.told(control);
    if requests.contains(request) {
        only_those_present_are_told(control, player, renderer, audio, request);
    }
    if player {
        assert(requests.contains(requests[0]));
    }
    if audio {
        assert(requests.contains(requests.last()));
    }
}

/// A start takes over the settings of the engine and the path, hands out all that
/// played, leaves nothing behind, and changes no setting. Only an engine that is
/// shutting down refuses it, and then nothing happens but the error.
pub proof fn a_start_takes_over<P, R, A, M>(
    before: EngineState<P, R, A, M>,
    path: String,
    started: Option<StartedWallpaper<P, R, A>>,
    after: EngineState<P, R, A, M>,
)
    requires
        begins_start(before, path, started, after),
    ensures
        started is None <==> before.playback_status is Stopping,
        started is None ==> after.generation == before.generation && after.playback_status
            == before.playback_status && after.active_media == before.active_media
            && after.player == before.player && after.native_renderer == before.native_renderer
            && after.native_audio == before.native_audio,
        started matches Some(start) ==> {
            &&& start.previous.player == before.player
            &&& start.previous.native_renderer == before.native_renderer
            &&& start.previous.native_audio == before.native_audio
            &&& after.player is None && after.native_renderer is None && after.native_audio is None
            &&& start.config.generation == after.generation
            &&& after.generation != before.generation
            &&& start.config.host_window == before.host_window
            &&& start.config.d3d11_media_foundation_available
                == before.d3d11_media_foundation_available
            &&& start.config.muted <==> before.muted || before.automatically_muted
            &&& start.config.volume == before.volume
            &&& start.config.performance_mode == before.performance_mode
            &&& start.config.stretch_to_fill == before.stretch_to_fill
            &&& start.config.paused == before.fullscreen_paused
            &&& after.playback_status is Starting
            &&& after.active_media == Some(path)
            &&& after.video_fallback_status is Idle && after.audio_fallback_status is Idle
            &&& after.native_mp4_failure_code == 0
            &&& after.last_error@.len() == 0
        },
        after.host_window == before.host_window,
        after.muted == before.muted,
        after.mute_when_other_app_open == before.mute_when_other_app_open,
        after.automatically_muted == before.automatically_muted,
        after.volume == before.volume,
        after.performance_mode == before.performance_mode,
        after.stretch_to_fill == before.stretch_to_fill,
        after.monitor == before.monitor,
        after.monitor_stop == before.monitor_stop,
{
}

/// A shutdown hands out all that the engine owns, to the window and the monitor,
/// which is told to stop; no setting is lost. Its end forgets the window.
pub proof fn a_shutdown_hands_everything_out<P, R, A, M>(
    before: EngineState<P, R, A, M>,
    shutdown: Shutdown<P, R, A, M>,
    after: EngineState<P, R, A, M>,
)
    requires
        begins_shutdown(before, shutdown, after),
    ensures
        shutdown.resources.player == before.player,
        shutdown.resources.native_renderer == before.native_renderer,
        shutdown.resources.native_audio == before.native_audio,
        shutdown.monitor == before.monitor,
        shutdown.host_window == before.host_window,
        after.player is None && after.native_renderer is None && after.native_audio is None,
        after.monitor is None && after.monitor_stop,
        after.playback_status is Stopping,
        after.active_media is None,
        after.generation != before.generation,
        after.muted == before.muted && after.volume == before.volume,
        after.performance_mode == before.performance_mode,
        after.stretch_to_fill == before.stretch_to_fill,
        ended_shutdown(after).host_window == 0,
        ended_shutdown(after).playback_status is Stopped,
        ended_shutdown(after).generation == after.generation,
        ended_shutdown(after).volume == before.volume,
{
}

/// The end of a shutdown touches no engine that has gone on to something else.
pub proof fn a_late_end_of_shutdown_changes_nothing<P, R, A, M>(state: EngineState<P, R, A, M>)
    requires
        !(state.playback_status is Stopping),
    ensures
        ended_shutdown(state) == state,
{
}

/// A request is current exactly where the engine starts in its generation.
pub proof fn only_the_starting_generation_is_current(
    generation: u64,
    status: PlaybackStatus,
    request: u64,
)
    ensures
        current_request(generation, status, request) <==> generation == request && status
            == PlaybackStatus::Starting,
{
}

/// Every request has a generation of its own: the next number, which starts over
/// only after the last one.
pub proof fn generations_go_up(generation: u64)
    ensures
        generation < u64::MAX ==> next_generation(generation) == generation + 1,
        generation == u64::MAX ==> next_generation(generation) == 0,
        next_generation(generation) != generation,
{
}

/// A performance mode in range stays as it is, and any other one becomes the
/// nearest in range.
pub proof fn modes_are_brought_into_range(mode: i32)
    ensures
        0 <= mode <= 2 ==> clamped_mode(mode) == mode,
        mode < 0 ==> clamped_mode(mode) == 0,
        mode > 2 ==> clamped_mode(mode) == 2,
{
}

/// The resources of the engine are what it owns, and there is nothing to stop
/// exactly where it owns none of them.
pub proof fn resources_are_what_is_owned<P, R, A, M>(state: EngineState<P, R, A, M>)
    ensures
        state.resources().player == state.player,
        state.resources().native_renderer == state.native_renderer,
        state.resources().native_audio == state.native_audio,
        state.resources().empty() <==> state.player is None && state.native_renderer is None
            && state.native_audio is None,
        state.resources().empty() <==> state.resources().stop_order().len() == 0,
{
}

/// What stands between the player and the audio, where both are stopped, is the
/// renderer.
pub proof fn the_renderer_stops_in_between<P, R, A>(resources: PlaybackResources<P, R, A>)
    requires
        resources.player is Some,
        resources.native_renderer is Some,
        resources.native_audio is Some,
    ensures
        resources.stop_order()[1] == StopRequest::<P, R, A>::Renderer(
            resources.native_renderer->0,
        ),
{
}

} // verus!
