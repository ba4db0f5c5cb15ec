//! Who is told of a mute, a volume or a pause.

use crate::engine::PlaybackControls;
use vstd::prelude::*;

verus! {

/// A control of playback.
#[derive(Clone, Copy, Debug, PartialEq, Eq, Structural)]
pub enum Control {
    Mute(bool),
    Volume(i32),
    Pause(bool),
}

/// A resource that can be told of a control.
#[derive(Clone, Copy, Debug, PartialEq, Eq, Structural)]
pub enum ControlTarget {
    /// The libVLC player.
    Player,
    /// The native renderer.
    Renderer,
    /// The native audio.
    Audio,
}

/// A resource, and what it is told.
#[derive(Clone, Copy, Debug, PartialEq, Eq, Structural)]
pub struct ControlRequest {
    pub target: ControlTarget,
    pub control: Control,
}

/// A request to a resource that may not be there.
pub open spec fn request_if(present: bool, target: ControlTarget, control: Control) -> Seq<
    ControlRequest,
> {
    if present {
        seq![ControlRequest { target, control }]
    } else {
        Seq::empty()
    }
}

/// Who is told of a control, of the resources that are there: the player and the
/// audio of everything, the renderer of a pause alone.
pub open spec fn told(control: Control, player: bool, renderer: bool, audio: bool) -> Seq<
    ControlRequest,
> {
    request_if(player, ControlTarget::Player, control) + request_if(
        renderer && control is Pause,
        ControlTarget::Renderer,
        control,
    ) + request_if(audio, ControlTarget::Audio, control)
}

/// Everything that a resource with sound is told.
pub open spec fn told_everything(
    controls: PlaybackControls,
    present: bool,
    target: ControlTarget,
) -> Seq<ControlRequest> {
    request_if(present, target, Control::Mute(controls.muted)) + request_if(
        present,
        target,
        Control::Volume(controls.volume),
    ) + request_if(present, target, Control::Pause(controls.paused))
}

/// What the resources of a pipeline are told when the engine takes it over.
pub open spec fn told_all(
    controls: PlaybackControls,
    player: bool,
    renderer: bool,
    audio: bool,
) -> Seq<ControlRequest> {
    told_everything(controls, player, ControlTarget::Player) + request_if(
        renderer,
        ControlTarget::Renderer,
        Control::Pause(controls.paused),
    ) + told_everything(controls, audio, ControlTarget::Audio)
}

/// What the resources of a pipeline are told before it runs. The native audio
/// has started with its mute and its volume.
pub open spec fn told_at_startup(
    controls: PlaybackControls,
    player: bool,
    renderer: bool,
    audio: bool,
) -> Seq<ControlRequest> {
    told_everything(controls, player, ControlTarget::Player) + told(
        Control::Pause(controls.paused),
        false,
        renderer,
        audio,
    )
}

fn push_if(
    requests: &mut Vec<ControlRequest>,
    present: bool,
    target: ControlTarget,
    control: Control,
)
    ensures
        final(requests)@ == old(requests)@ + request_if(present, target, control),
{
    if present {
        requests.push(ControlRequest { target, control });
    }
    assert(requests@ =~= old(requests)@ + request_if(present, target, control));
}

fn push_everything(
    requests: &mut Vec<ControlRequest>,
    controls: PlaybackControls,
    present: bool,
    target: ControlTarget,
)
    ensures
        final(requests)@ == old(requests)@ + told_everything(controls, present, target),
{
    push_if(requests, present, target, Control::Mute(controls.muted));
    push_if(requests, present, target, Control::Volume(controls.volume));
    push_if(requests, present, target, Control::Pause(controls.paused));
    assert(requests@ =~= old(requests)@ + told_everything(controls, present, target));
}

/// Adds who is told of a control.
pub fn tell(
    requests: &mut Vec<ControlRequest>,
    control: Control,
    player: bool,
    renderer: bool,
    audio: bool,
)
    ensures
        final(requests)@ == old(requests)@ + told(control, player, renderer, audio),
{
    let pause: bool = match control {
        Control::Pause(_) => true,
        _ => false,
    };
    push_if(requests, player, ControlTarget::Player, control);
    push_if(requests, renderer && pause, ControlTarget::Renderer, control);
    push_if(requests, audio, ControlTarget::Audio, control);
    assert(requests@ =~= old(requests)@ + told(control, player, renderer, audio));
}

/// What a player is told once it has been started.
pub fn tell_player(controls: PlaybackControls) -> (requests: Vec<ControlRequest>)
    ensures
        requests@ == told_everything(controls, true, ControlTarget::Player),
{
    let mut requests: Vec<ControlRequest> = Vec::new();
    push_everything(&mut requests, controls, true, ControlTarget::Player);
    assert(requests@ =~= told_everything(controls, true, ControlTarget::Player));
    requests
}

/// What the resources of a pipeline are told when the engine takes it over.
pub fn tell_all(controls: PlaybackControls, player: bool, renderer: bool, audio: bool) -> (requests:
    Vec<ControlRequest>)
    ensures
        requests@ == told_all(controls, player, renderer, audio),
{
    let mut requests: Vec<ControlRequest> = Vec::new();
    push_everything(&mut requests, controls, player, ControlTarget::Player);
    push_if(
        &mut requests,
        renderer,
        ControlTarget::Renderer,
        Control::Pause(controls.paused),
    );
    push_everything(&mut requests, controls, audio, ControlTarget::Audio);
    assert(requests@ =~= told_all(controls, player, renderer, audio));
    requests
}

/// What the resources of a pipeline are told before it runs.
pub fn tell_at_startup(
    controls: PlaybackControls,
    player: bool,
    renderer: bool,
    audio: bool,
) -> (requests: Vec<ControlRequest>)
    ensures
        requests@ == told_at_startup(controls, player, renderer, audio),
{
    let mut requests: Vec<ControlRequest> = Vec::new();
    push_everything(&mut requests, controls, player, ControlTarget::Player);
    tell(&mut requests, Control::Pause(controls.paused), false, renderer, audio);
    assert(requests@ =~= told_at_startup(controls, player, renderer, audio));
    requests
}

/// Nobody is told who is not there, and the renderer is told of nothing but a
/// pause.
pub proof fn only_those_present_are_told(
    control: Control,
    player: bool,
    renderer: bool,
    audio: bool,
    request: ControlRequest,
)
    requires
        told(control, player, renderer, audio).contains(request),
    ensures
        request.control == control,
        request.target == ControlTarget::Player ==> player,
        request.target == ControlTarget::Renderer ==> renderer && control is Pause,
        request.target == ControlTarget::Audio ==> audio,
{
}

/// Everyone who is concerned is told: a player and a native audio of every
/// control, a native renderer of every pause. Each is told once, the player
/// first and the audio last.
pub proof fn everyone_concerned_is_told(
    control: Control,
    player: bool,
    renderer: bool,
    audio: bool,
)
    ensures
        ({
            let requests = told(control, player, renderer, audio);
            &&& player ==> requests[0] == (ControlRequest { target: ControlTarget::Player, control })
                && requests.len() >= 1
            &&& audio ==> requests.last() == (ControlRequest {
                target: ControlTarget::Audio,
                control,
            }) && requests.len() >= 1
            &&& renderer && control is Pause ==> requests.contains(
                ControlRequest { target: ControlTarget::Renderer, control },
            )
            &&& requests.len() == (if player {
                1int
            } else {
                0
            }) + (if renderer && control is Pause {
                1int
            } else {
                0
            }) + (if audio {
                1int
            } else {
                0
            })
        }),
{
    let requests = told(control, player, renderer, audio);
    if renderer && control is Pause {
        let i: int = if player {
            1
        } else {
            0
        };
        assert(requests[i] == (ControlRequest { target: ControlTarget::Renderer, control }));
    }
}

/// A resource with sound is told of its mute, its volume and its pause, each
/// with the value that was asked for; one that is not there is told nothing.
pub proof fn a_sound_is_told_everything(
    controls: PlaybackControls,
    present: bool,
    target: ControlTarget,
)
    ensures
        !present ==> told_everything(controls, present, target).len() == 0,
        present ==> told_everything(controls, present, target) == seq![
            ControlRequest { target, control: Control::Mute(controls.muted) },
            ControlRequest { target, control: Control::Volume(controls.volume) },
            ControlRequest { target, control: Control::Pause(controls.paused) },
        ],
{
    if present {
        assert(told_everything(controls, present, target) =~= seq![
            ControlRequest { target, control: Control::Mute(controls.muted) },
            ControlRequest { target, control: Control::Volume(controls.volume) },
            ControlRequest { target, control: Control::Pause(controls.paused) },
        ]);
    }
}

/// Whether a target is told of a control.
pub open spec fn hears(
    requests: Seq<ControlRequest>,
    target: ControlTarget,
    control: Control,
) -> bool {
    requests.contains(ControlRequest { target, control })
}

proof fn lemma_hears(
    left: Seq<ControlRequest>,
    right: Seq<ControlRequest>,
    target: ControlTarget,
    control: Control,
)
    ensures
        hears(left + right, target, control) <==> hears(left, target, control) || hears(
            right,
            target,
            control,
        ),
{
    let request = ControlRequest { target, control };
    if hears(left, target, control) {
        let i = left.index_of(request);
        assert((left + right)[i] == request);
    }
    if hears(right, target, control) {
        let i = right.index_of(request);
        assert((left + right)[left.len() + i] == request);
    }
    if hears(left + right, target, control) {
        let i = (left + right).index_of(request);
        if i < left.len() {
            assert(left[i] == request);
        } else {
            assert(right[i - left.len()] == request);
        }
    }
}

proof fn lemma_hears_everything(
    controls: PlaybackControls,
    present: bool,
    target: ControlTarget,
    hearer: ControlTarget,
    control: Control,
)
    ensures
        hears(told_everything(controls, present, target), hearer, control) <==> present && hearer
            == target && (control == Control::Mute(controls.muted) || control == Control::Volume(
            controls.volume,
        ) || control == Control::Pause(controls.paused)),
{
    a_sound_is_told_everything(controls, present, target);
    let requests = told_everything(controls, present, target);
    if present {
        assert(requests[0] == (ControlRequest { target, control: Control::Mute(controls.muted) }));
        assert(requests[1] == (ControlRequest {
            target,
            control: Control::Volume(controls.volume),
        }));
        assert(requests[2] == (ControlRequest {
            target,
            control: Control::Pause(controls.paused),
        }));
    }
}

/// When the engine takes a pipeline over, every resource that is there hears of
/// the controls of the moment: player and audio of mute, volume and pause, the
/// renderer of the pause, and nobody of anything else.
pub proof fn a_new_pipeline_hears_of_all_controls(
    controls: PlaybackControls,
    player: bool,
    renderer: bool,
    audio: bool,
    target: ControlTarget,
    control: Control,
)
    ensures
        hears(told_all(controls, player, renderer, audio), target, control) <==> {
            let asked = control == Control::Mute(controls.muted) || control == Control::Volume(
                controls.volume,
            ) || control == Control::Pause(controls.paused);
            match target {
                ControlTarget::Player => player && asked,
                ControlTarget::Renderer => renderer && control == Control::Pause(controls.paused),
                ControlTarget::Audio => audio && asked,
            }
        },
{
    let first = told_everything(controls, player, ControlTarget::Player);
    let second = request_if(
        renderer,
        ControlTarget::Renderer,
        Control::Pause(controls.paused),
    );
    let third = told_everything(controls, audio, ControlTarget::Audio);
    lemma_hears(first + second, third, target, control);
    lemma_hears(first, second, target, control);
    lemma_hears_everything(controls, player, ControlTarget::Player, target, control);
    lemma_hears_everything(controls, audio, ControlTarget::Audio, target, control);
    if renderer {
        assert(second[0] == (ControlRequest {
            target: ControlTarget::Renderer,
            control: Control::Pause(controls.paused),
        }));
    }
}

/// Before a pipeline runs, the player hears of all controls, and the native
/// backends of the pause: the audio has been started with its mute and volume.
pub proof fn a_starting_pipeline_hears_of_the_pause(
    controls: PlaybackControls,
    player: bool,
    renderer: bool,
    audio: bool,
    target: ControlTarget,
    control: Control,
)
    ensures
        hears(told_at_startup(controls, player, renderer, audio), target, control) <==> {
            let asked = control == Control::Mute(controls.muted) || control == Control::Volume(
                controls.volume,
            ) || control == Control::Pause(controls.paused);
            match target {
                ControlTarget::Player => player && asked,
                ControlTarget::Renderer => renderer && control == Control::Pause(controls.paused),
                ControlTarget::Audio => audio && control == Control::Pause(controls.paused),
            }
        },
{
    let first = told_everything(controls, player, ControlTarget::Player);
    let pause = Control::Pause(controls.paused);
    let second = told(pause, false, renderer, audio);
    lemma_hears(first, second, target, control);
    lemma_hears_everything(controls, player, ControlTarget::Player, target, control);
    everyone_concerned_is_told(pause, false, renderer, audio);
    if hears(second, target, control) {
        only_those_present_are_told(
            pause,
            false,
            renderer,
            audio,
            ControlRequest { target, control },
        );
    }
    if audio {
        assert(second.contains(second.last()));
    }
}

} // verus!
