//! The order in which the graphics side of playback is set up.

use crate::failures::{describe_setup_failure, setup_failure, SetupStep};
use vstd::prelude::*;
use vstd::string::*;

verus! {

/// The steps that lead to a graphics device with its manager.
pub open spec fn device_order() -> Seq<SetupStep> {
    seq![
        SetupStep::StartMediaFoundation,
        SetupStep::CreateDevice,
        SetupStep::TakeDevice,
        SetupStep::TakeContext,
        SetupStep::CreateManager,
        SetupStep::TakeManager,
        SetupStep::ResetManager,
    ]
}

/// The steps that lead to a device for a decoder, which several threads use.
pub open spec fn decoder_device_order() -> Seq<SetupStep> {
    seq![
        SetupStep::CreateDecoderDevice,
        SetupStep::TakeDevice,
        SetupStep::TakeContext,
        SetupStep::ProtectDevice,
        SetupStep::CreateManager,
        SetupStep::TakeManager,
        SetupStep::ResetManager,
    ]
}

/// The steps that lead from a device to a reader that gives NV12 frames, with a
/// callback or without one.
pub open spec fn reader_order(with_callback: bool) -> Seq<SetupStep> {
    seq![
        SetupStep::CreateAttributes,
        SetupStep::TakeAttributes,
        SetupStep::AttachManager,
        SetupStep::EnableTransforms,
        SetupStep::EnableAcceleration,
    ] + (if with_callback {
        seq![SetupStep::ExposeCallback, SetupStep::AttachCallback]
    } else {
        Seq::empty()
    }) + seq![
        SetupStep::OpenReader,
        SetupStep::SelectVideo,
        SetupStep::CreateMediaType,
        SetupStep::SetMajorType,
        SetupStep::SetSubtype,
        SetupStep::SetOutputType,
    ]
}

/// The steps that lead from a device to a swap chain, which is created for a
/// reader or for a decoder of its own.
pub open spec fn swap_chain_order(direct: bool) -> Seq<SetupStep> {
    seq![
        SetupStep::QueryDevice,
        SetupStep::GetAdapter,
        SetupStep::GetFactory,
        if direct {
            SetupStep::CreateDirectSwapChain
        } else {
            SetupStep::CreateSwapChain
        },
        SetupStep::QuerySwapChain,
        SetupStep::DescribeSwapChain,
        SetupStep::QueryLatency,
        SetupStep::SetLatency,
        SetupStep::TakeLatencyHandle,
    ]
}

/// The steps that bring the output of a reader back to NV12.
pub open spec fn renewal_order() -> Seq<SetupStep> {
    seq![
        SetupStep::RenewMediaType,
        SetupStep::RenewMajorType,
        SetupStep::RenewSubtype,
        SetupStep::RenewOutputType,
    ]
}

/// How a setup goes on.
pub enum SetupProgress {
    /// Take this step.
    Do(SetupStep),
    /// Everything is set up.
    Done,
    /// The setup failed.
    Failed(String),
}

/// A setup under way.
pub struct Setup {
    pub steps: Vec<SetupStep>,
    pub taken: usize,
    /// How the step that failed was reported.
    pub failure: Option<String>,
}

fn push_all(steps: &mut Vec<SetupStep>, more: Vec<SetupStep>)
    ensures
        final(steps)@ == old(steps)@ + more@,
{
    let mut i: usize = 0;
    while i < more.len()
        invariant
            i <= more@.len(),
            steps@ == old(steps)@ + more@.take(i as int),
        decreases more@.len() - i,
    {
        steps.push(more[i]);
        i = i + 1;
        assert(steps@ =~= old(steps)@ + more@.take(i as int));
    }
    assert(more@.take(i as int) =~= more@);
}

fn device_steps() -> (steps: Vec<SetupStep>)
    ensures
        steps@ == device_order(),
{
    let steps: Vec<SetupStep> = vec![
        SetupStep::StartMediaFoundation,
        SetupStep::CreateDevice,
        SetupStep::TakeDevice,
        SetupStep::TakeContext,
        SetupStep::CreateManager,
        SetupStep::TakeManager,
        SetupStep::ResetManager,
    ];
    assert(steps@ =~= device_order());
    steps
}

fn reader_steps(with_callback: bool) -> (steps: Vec<SetupStep>)
    ensures
        steps@ == reader_order(with_callback),
{
    let mut steps: Vec<SetupStep> = vec![
        SetupStep::CreateAttributes,
        SetupStep::TakeAttributes,
        SetupStep::AttachManager,
        SetupStep::EnableTransforms,
        SetupStep::EnableAcceleration,
    ];
    if with_callback {
        steps.push(SetupStep::ExposeCallback);
        steps.push(SetupStep::AttachCallback);
    }
    push_all(
        &mut steps,
        vec![
            SetupStep::OpenReader,
            SetupStep::SelectVideo,
            SetupStep::CreateMediaType,
            SetupStep::SetMajorType,
            SetupStep::SetSubtype,
            SetupStep::SetOutputType,
        ],
    );
    assert(steps@ =~= reader_order(with_callback));
    steps
}

fn swap_chain_steps(direct: bool) -> (steps: Vec<SetupStep>)
    ensures
        steps@ == swap_chain_order(direct),
{
    let create = if direct {
        SetupStep::CreateDirectSwapChain
    } else {
        SetupStep::CreateSwapChain
    };
    let steps: Vec<SetupStep> = vec![
        SetupStep::QueryDevice,
        SetupStep::GetAdapter,
        SetupStep::GetFactory,
        create,
        SetupStep::QuerySwapChain,
        SetupStep::DescribeSwapChain,
        SetupStep::QueryLatency,
        SetupStep::SetLatency,
        SetupStep::TakeLatencyHandle,
    ];
    assert(steps@ =~= swap_chain_order(direct));
    steps
}

/// Sets up a graphics device with its manager.
pub fn create_device_and_manager() -> (setup: Setup)
    ensures
        setup.taken == 0,
        setup.failure is None,
        setup.steps@ == device_order(),
{
    Setup { steps: device_steps(), taken: 0, failure: None }
}

/// Sets up a graphics device for a decoder.
pub fn create_decoder_device_manager() -> (setup: Setup)
    ensures
        setup.taken == 0,
        setup.failure is None,
        setup.steps@ == decoder_device_order(),
{
    let steps: Vec<SetupStep> = vec![
        SetupStep::CreateDecoderDevice,
        SetupStep::TakeDevice,
        SetupStep::TakeContext,
        SetupStep::ProtectDevice,
        SetupStep::CreateManager,
        SetupStep::TakeManager,
        SetupStep::ResetManager,
    ];
    assert(steps@ =~= decoder_device_order());
    Setup { steps, taken: 0, failure: None }
}

/// Sets up everything that a reader with its own swap chain needs.
pub fn create_pipeline(with_callback: bool) -> (setup: Setup)
    ensures
        setup.taken == 0,
        setup.failure is None,
        setup.steps@ == device_order() + reader_order(with_callback) + swap_chain_order(false),
{
    let mut steps = device_steps();
    push_all(&mut steps, reader_steps(with_callback));
    push_all(&mut steps, swap_chain_steps(false));
    Setup { steps, taken: 0, failure: None }
}

/// Sets up a presenter on the device of a decoder.
pub fn create_presenter() -> (setup: Setup)
    ensures
        setup.taken == 0,
        setup.failure is None,
        setup.steps@ == swap_chain_order(true),
{
    Setup { steps: swap_chain_steps(true), taken: 0, failure: None }
}

/// Brings the output of a reader back to NV12.
pub fn configure_dxva_nv12_output() -> (setup: Setup)
    ensures
        setup.taken == 0,
        setup.failure is None,
        setup.steps@ == renewal_order(),
{
    let steps: Vec<SetupStep> = vec![
        SetupStep::RenewMediaType,
        SetupStep::RenewMajorType,
        SetupStep::RenewSubtype,
        SetupStep::RenewOutputType,
    ];
    assert(steps@ =~= renewal_order());
    Setup { steps, taken: 0, failure: None }
}

impl Setup {
    /// What comes now.
    pub fn current(&self) -> (progress: SetupProgress)
        ensures
            match self.failure {
                Some(report) => progress matches SetupProgress::Failed(text) && text@ == report@,
                None => if self.taken < self.steps@.len() {
                    progress == SetupProgress::Do(self.steps@[self.taken as int])
                } else {
                    progress is Done
                },
            },
    {
        if let Some(report) = &self.failure {
            return SetupProgress::Failed(report.clone());
        }
        if self.taken < self.steps.len() {
            SetupProgress::Do(self.steps[self.taken])
        } else {
            SetupProgress::Done
        }
    }

    /// Takes note of how the current step went. The first failure ends the setup
    /// with its report, whatever comes later.
    pub fn step_taken(&mut self, outcome: Result<(), String>) -> (progress: SetupProgress)
        ensures
            final(self).steps == old(self).steps,
            match old(self).failure {
                Some(report) => {
                    &&& *final(self) == *old(self)
                    &&& progress matches SetupProgress::Failed(text) && text@ == report@
                },
                None => if old(self).taken >= old(self).steps@.len() {
                    &&& *final(self) == *old(self)
                    &&& progress is Done
                } else {
                    match outcome {
                        Ok(()) => {
                            &&& final(self).taken == old(self).taken + 1
                            &&& final(self).failure is None
                            &&& if old(self).taken + 1 < old(self).steps@.len() {
                                progress == SetupProgress::Do(
                                    old(self).steps@[old(self).taken + 1],
                                )
                            } else {
                                progress is Done
                            }
                        },
                        Err(error) => {
                            let report = setup_failure(
                                old(self).steps@[old(self).taken as int],
                                error@,
                            );
                            &&& final(self).taken == old(self).taken
                            &&& final(self).failure matches Some(kept) && kept@ == report
                            &&& progress matches SetupProgress::Failed(text) && text@ == report
                        },
                    }
                },
            },
    {
        if self.failure.is_none() && self.taken < self.steps.len() {
            match outcome {
                Ok(()) => {
                    self.taken = self.taken + 1;
                },
                Err(error) => {
                    let report = describe_setup_failure(self.steps[self.taken], error.as_str());
                    self.failure = Some(report);
                },
            }
        }
        self.current()
    }
}

/// Whether decoding on the graphics device can work: its device could be set
/// up.
pub fn hardware_pipeline_available(progress: &SetupProgress) -> (available: bool)
    ensures
        available == (*progress is Done),
{
    match progress {
        SetupProgress::Done => true,
        _ => false,
    }
}

/// The settings of a swap chain.
#[derive(Clone, Copy, Debug, PartialEq, Eq, Structural)]
pub struct SwapChainPlan {
    /// Zero: the width of the window.
    pub width: u32,
    /// Zero: the height of the window.
    pub height: u32,
    pub stereo: bool,
    pub sample_count: u32,
    pub sample_quality: u32,
    pub buffer_count: u32,
    pub frame_latency: u32,
}

/// The settings of every swap chain: two buffers as large as the window, and a
/// single frame in flight.
pub fn swap_chain_plan() -> (plan: SwapChainPlan)
    ensures
        plan == (SwapChainPlan {
            width: 0,
            height: 0,
            stereo: false,
            sample_count: 1,
            sample_quality: 0,
            buffer_count: 2,
            frame_latency: 1,
        }),
{
    SwapChainPlan {
        width: 0,
        height: 0,
        stereo: false,
        sample_count: 1,
        sample_quality: 0,
        buffer_count: 2,
        frame_latency: 1,
    }
}

/// Nothing of the reader or the swap chain is touched before the device and its
/// manager are there.
pub proof fn the_device_comes_first(with_callback: bool, i: int)
    requires
        0 <= i < (device_order() + reader_order(with_callback) + swap_chain_order(false)).len(),
    ensures
        ({
            let order = device_order() + reader_order(with_callback) + swap_chain_order(false);
            i < device_order().len() ==> order[i] == device_order()[i]
        }),
        ({
            let order = device_order() + reader_order(with_callback) + swap_chain_order(false);
            device_order().contains(order[i]) ==> i < device_order().len()
        }),
{
}

/// Whether one step comes before another.
pub open spec fn precedes(order: Seq<SetupStep>, first: SetupStep, second: SetupStep) -> bool {
    exists|i: int, j: int|
        0 <= i < j < order.len() && #[trigger] order[i] == first && #[trigger] order[j] == second
}

/// A device is created before it is taken, and it is taken before its manager
/// gets it; several threads may use that of a decoder before that happens.
pub proof fn a_device_is_there_before_it_is_used()
    ensures
        device_order()[0] == SetupStep::StartMediaFoundation,
        precedes(device_order(), SetupStep::CreateDevice, SetupStep::TakeDevice),
        precedes(device_order(), SetupStep::TakeDevice, SetupStep::TakeContext),
        precedes(device_order(), SetupStep::TakeContext, SetupStep::CreateManager),
        precedes(device_order(), SetupStep::CreateManager, SetupStep::TakeManager),
        precedes(device_order(), SetupStep::TakeManager, SetupStep::ResetManager),
        device_order().len() == 7,
        precedes(decoder_device_order(), SetupStep::CreateDecoderDevice, SetupStep::TakeDevice),
        precedes(decoder_device_order(), SetupStep::TakeDevice, SetupStep::TakeContext),
        precedes(decoder_device_order(), SetupStep::TakeContext, SetupStep::ProtectDevice),
        precedes(decoder_device_order(), SetupStep::ProtectDevice, SetupStep::CreateManager),
        precedes(decoder_device_order(), SetupStep::CreateManager, SetupStep::TakeManager),
        precedes(decoder_device_order(), SetupStep::TakeManager, SetupStep::ResetManager),
        decoder_device_order().len() == 7,
{
    let d = device_order();
    assert(d[1] == SetupStep::CreateDevice && d[2] == SetupStep::TakeDevice);
    assert(d[3] == SetupStep::TakeContext && d[4] == SetupStep::CreateManager);
    assert(d[5] == SetupStep::TakeManager && d[6] == SetupStep::ResetManager);
    let e = decoder_device_order();
    assert(e[0] == SetupStep::CreateDecoderDevice && e[1] == SetupStep::TakeDevice);
    assert(e[2] == SetupStep::TakeContext && e[3] == SetupStep::ProtectDevice);
    assert(e[4] == SetupStep::CreateManager && e[5] == SetupStep::TakeManager);
    assert(e[6] == SetupStep::ResetManager);
}

/// A reader is opened only once its attributes hold the manager and, where there
/// is one, the callback, and decoding on the device is allowed. It gives video,
/// in NV12, as soon as it is open.
pub proof fn a_reader_is_opened_when_it_is_prepared(with_callback: bool)
    ensures
        ({
            let order = reader_order(with_callback);
            &&& precedes(order, SetupStep::CreateAttributes, SetupStep::TakeAttributes)
            &&& precedes(order, SetupStep::TakeAttributes, SetupStep::AttachManager)
            &&& precedes(order, SetupStep::AttachManager, SetupStep::EnableTransforms)
            &&& precedes(order, SetupStep::EnableTransforms, SetupStep::EnableAcceleration)
            &&& precedes(order, SetupStep::EnableAcceleration, SetupStep::OpenReader)
            &&& with_callback ==> precedes(
                order,
                SetupStep::ExposeCallback,
                SetupStep::AttachCallback,
            ) && precedes(order, SetupStep::AttachCallback, SetupStep::OpenReader)
            &&& precedes(order, SetupStep::OpenReader, SetupStep::SelectVideo)
            &&& precedes(order, SetupStep::SelectVideo, SetupStep::CreateMediaType)
            &&& precedes(order, SetupStep::CreateMediaType, SetupStep::SetMajorType)
            &&& precedes(order, SetupStep::SetMajorType, SetupStep::SetSubtype)
            &&& precedes(order, SetupStep::SetSubtype, SetupStep::SetOutputType)
            &&& order.len() == (if with_callback {
                13int
            } else {
                11
            })
        }),
{
    let order = reader_order(with_callback);
    let k: int = if with_callback {
        2
    } else {
        0
    };
    assert(order[0] == SetupStep::CreateAttributes && order[1] == SetupStep::TakeAttributes);
    assert(order[2] == SetupStep::AttachManager && order[3] == SetupStep::EnableTransforms);
    assert(order[4] == SetupStep::EnableAcceleration);
    if with_callback {
        assert(order[5] == SetupStep::ExposeCallback && order[6] == SetupStep::AttachCallback);
    }
    assert(order[5 + k] == SetupStep::OpenReader && order[6 + k] == SetupStep::SelectVideo);
    assert(order[7 + k] == SetupStep::CreateMediaType && order[8 + k] == SetupStep::SetMajorType);
    assert(order[9 + k] == SetupStep::SetSubtype && order[10 + k] == SetupStep::SetOutputType);
}

/// A swap chain is created once the factory of the device's adapter is found,
/// and only then asked for its buffers, its description and its latency handle,
/// which ends the setup. That of a decoder is reported as its own.
pub proof fn a_swap_chain_is_there_before_it_is_used(direct: bool)
    ensures
        ({
            let order = swap_chain_order(direct);
            let create = if direct {
                SetupStep::CreateDirectSwapChain
            } else {
                SetupStep::CreateSwapChain
            };
            &&& precedes(order, SetupStep::QueryDevice, SetupStep::GetAdapter)
            &&& precedes(order, SetupStep::GetAdapter, SetupStep::GetFactory)
            &&& precedes(order, SetupStep::GetFactory, create)
            &&& precedes(order, create, SetupStep::QuerySwapChain)
            &&& precedes(order, SetupStep::QuerySwapChain, SetupStep::DescribeSwapChain)
            &&& precedes(order, SetupStep::DescribeSwapChain, SetupStep::QueryLatency)
            &&& precedes(order, SetupStep::QueryLatency, SetupStep::SetLatency)
            &&& precedes(order, SetupStep::SetLatency, SetupStep::TakeLatencyHandle)
            &&& order.len() == 9
        }),
        precedes(renewal_order(), SetupStep::RenewMediaType, SetupStep::RenewMajorType),
        precedes(renewal_order(), SetupStep::RenewMajorType, SetupStep::RenewSubtype),
        precedes(renewal_order(), SetupStep::RenewSubtype, SetupStep::RenewOutputType),
        renewal_order().len() == 4,
{
    let order = swap_chain_order(direct);
    assert(order[0] == SetupStep::QueryDevice && order[1] == SetupStep::GetAdapter);
    assert(order[2] == SetupStep::GetFactory);
    assert(direct ==> order[3] == SetupStep::CreateDirectSwapChain);
    assert(!direct ==> order[3] == SetupStep::CreateSwapChain);
    assert(order[4] == SetupStep::QuerySwapChain && order[5] == SetupStep::DescribeSwapChain);
    assert(order[6] == SetupStep::QueryLatency && order[7] == SetupStep::SetLatency);
    assert(order[8] == SetupStep::TakeLatencyHandle);
    let renewal = renewal_order();
    assert(renewal[0] == SetupStep::RenewMediaType && renewal[1] == SetupStep::RenewMajorType);
    assert(renewal[2] == SetupStep::RenewSubtype && renewal[3] == SetupStep::RenewOutputType);
}

} // verus!
