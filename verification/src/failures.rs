//! What is reported when a step towards the graphics device, the media source or
//! the audio device fails.

use crate::text::{decimal, joined, push_decimal};
use vstd::prelude::*;
use vstd::string::*;

verus! {

fn numbered(front: &str, index: u32, back: &str) -> (text: String)
    ensures
        text@ == front@ + decimal(index as nat) + back@,
{
    let mut text = String::from_str(front);
    push_decimal(&mut text, index as u64);
    text.append(back);
    text
}

fn indexed(front: &str, index: u32, back: &str, error: &str) -> (text: String)
    ensures
        text@ == front@ + decimal(index as nat) + back@ + error@,
{
    let mut text = numbered(front, index, back);
    text.append(error);
    text
}

/// A step that sets up decoding and presenting on the graphics device.
#[derive(Clone, Copy, Debug, PartialEq, Eq, Structural)]
pub enum SetupStep {
    /// Start the media platform.
    StartMediaFoundation,
    /// Create a graphics device for video.
    CreateDevice,
    /// Create a graphics device for a decoder.
    CreateDecoderDevice,
    /// Take the device.
    TakeDevice,
    /// Take the context of the device.
    TakeContext,
    /// Let several threads use the device.
    ProtectDevice,
    /// Create the device manager.
    CreateManager,
    /// Take the device manager.
    TakeManager,
    /// Give the device to the manager.
    ResetManager,
    /// Create the attributes of the reader.
    CreateAttributes,
    /// Take the attributes.
    TakeAttributes,
    /// Give the manager to the reader.
    AttachManager,
    /// Let the reader use hardware.
    EnableTransforms,
    /// Let the reader decode on the device.
    EnableAcceleration,
    /// Prepare the callback of the reader.
    ExposeCallback,
    /// Give the callback to the reader.
    AttachCallback,
    /// Open the file.
    OpenReader,
    /// Select the video stream.
    SelectVideo,
    /// Create the output type.
    CreateMediaType,
    /// Make it a video type.
    SetMajorType,
    /// Make it NV12.
    SetSubtype,
    /// Set it.
    SetOutputType,
    /// Find the display side of the device.
    QueryDevice,
    /// Find its adapter.
    GetAdapter,
    /// Find the factory of the adapter.
    GetFactory,
    /// Create the swap chain of a reader.
    CreateSwapChain,
    /// Create the swap chain of a decoder.
    CreateDirectSwapChain,
    /// Find the buffer index of the swap chain.
    QuerySwapChain,
    /// Read the description of the swap chain.
    DescribeSwapChain,
    /// Find the latency settings of the swap chain.
    QueryLatency,
    /// Allow a single frame in flight.
    SetLatency,
    /// Take the handle that signals a free back buffer.
    TakeLatencyHandle,
    /// Create the output type again.
    RenewMediaType,
    /// Make it a video type again.
    RenewMajorType,
    /// Make it NV12 again.
    RenewSubtype,
    /// Set it again.
    RenewOutputType,
}

/// How a failed step is reported.
pub open spec fn setup_failure(step: SetupStep, error: Seq<char>) -> Seq<char> {
    match step {
        SetupStep::StartMediaFoundation => "Media Foundation could not start."@,
        SetupStep::CreateDevice => "D3D11 video device creation failed: "@ + error,
        SetupStep::CreateDecoderDevice => "D3D11 hardware device creation failed: "@ + error,
        SetupStep::TakeDevice => "D3D11 returned no device."@,
        SetupStep::TakeContext => "D3D11 returned no context."@,
        SetupStep::ProtectDevice => "D3D11 multithread protection is unavailable: "@ + error,
        SetupStep::CreateManager => "DXGI device manager creation failed: "@ + error,
        SetupStep::TakeManager => "Media Foundation returned no DXGI manager."@,
        SetupStep::ResetManager => "DXGI device manager reset failed: "@ + error,
        SetupStep::CreateAttributes => "Media Foundation attributes failed: "@ + error,
        SetupStep::TakeAttributes => "Media Foundation returned no attributes."@,
        SetupStep::AttachManager => "Could not attach the DXGI manager: "@ + error,
        SetupStep::EnableTransforms => "Could not enable hardware transforms: "@ + error,
        SetupStep::EnableAcceleration => "Could not enable DXVA: "@ + error,
        SetupStep::ExposeCallback => "Could not expose async callback as IUnknown: "@ + error,
        SetupStep::AttachCallback => "Could not configure the async Source Reader callback: "@ + error,
        SetupStep::OpenReader => "Could not open MP4 with Media Foundation: "@ + error,
        SetupStep::SelectVideo => "Could not select the video stream: "@ + error,
        SetupStep::CreateMediaType => "Could not create an NV12 media type: "@ + error,
        SetupStep::SetMajorType => "Could not set video media type: "@ + error,
        SetupStep::SetSubtype => "Could not request NV12 output: "@ + error,
        SetupStep::SetOutputType => "The native decoder does not support NV12: "@ + error,
        SetupStep::QueryDevice => "Could not query IDXGIDevice: "@ + error,
        SetupStep::GetAdapter => "Could not get the DXGI adapter: "@ + error,
        SetupStep::GetFactory => "Could not get the DXGI factory: "@ + error,
        SetupStep::CreateSwapChain => "Could not create the D3D11 swap chain: "@ + error,
        SetupStep::CreateDirectSwapChain => "Could not create direct D3D11 swap chain: "@ + error,
        SetupStep::QuerySwapChain => "Could not query IDXGISwapChain3: "@ + error,
        SetupStep::DescribeSwapChain => "Could not read the D3D11 swap-chain description: "@ + error,
        SetupStep::QueryLatency => "Could not query IDXGISwapChain2: "@ + error,
        SetupStep::SetLatency => "Could not set swap-chain frame latency: "@ + error,
        SetupStep::TakeLatencyHandle => "DXGI returned no frame-latency waitable object."@,
        SetupStep::RenewMediaType => "Could not create a renegotiated NV12 media type: "@ + error,
        SetupStep::RenewMajorType => "Could not set renegotiated video major type: "@ + error,
        SetupStep::RenewSubtype => "Could not set renegotiated NV12 subtype: "@ + error,
        SetupStep::RenewOutputType => "Could not reconfigure the DXVA NV12 output: "@ + error,
    }
}

/// Reports a failed step.
pub fn describe_setup_failure(step: SetupStep, error: &str) -> (text: String)
    ensures
        text@ == setup_failure(step, error@),
{
    match step {
        SetupStep::StartMediaFoundation => String::from_str("Media Foundation could not start."),
        SetupStep::CreateDevice => joined("D3D11 video device creation failed: ", error),
        SetupStep::CreateDecoderDevice => joined("D3D11 hardware device creation failed: ", error),
        SetupStep::TakeDevice => String::from_str("D3D11 returned no device."),
        SetupStep::TakeContext => String::from_str("D3D11 returned no context."),
        SetupStep::ProtectDevice => joined("D3D11 multithread protection is unavailable: ", error),
        SetupStep::CreateManager => joined("DXGI device manager creation failed: ", error),
        SetupStep::TakeManager => String::from_str("Media Foundation returned no DXGI manager."),
        SetupStep::ResetManager => joined("DXGI device manager reset failed: ", error),
        SetupStep::CreateAttributes => joined("Media Foundation attributes failed: ", error),
        SetupStep::TakeAttributes => String::from_str("Media Foundation returned no attributes."),
        SetupStep::AttachManager => joined("Could not attach the DXGI manager: ", error),
        SetupStep::EnableTransforms => joined("Could not enable hardware transforms: ", error),
        SetupStep::EnableAcceleration => joined("Could not enable DXVA: ", error),
        SetupStep::ExposeCallback => joined("Could not expose async callback as IUnknown: ", error),
        SetupStep::AttachCallback => joined("Could not configure the async Source Reader callback: ", error),
        SetupStep::OpenReader => joined("Could not open MP4 with Media Foundation: ", error),
        SetupStep::SelectVideo => joined("Could not select the video stream: ", error),
        SetupStep::CreateMediaType => joined("Could not create an NV12 media type: ", error),
        SetupStep::SetMajorType => joined("Could not set video media type: ", error),
        SetupStep::SetSubtype => joined("Could not request NV12 output: ", error),
        SetupStep::SetOutputType => joined("The native decoder does not support NV12: ", error),
        SetupStep::QueryDevice => joined("Could not query IDXGIDevice: ", error),
        SetupStep::GetAdapter => joined("Could not get the DXGI adapter: ", error),
        SetupStep::GetFactory => joined("Could not get the DXGI factory: ", error),
        SetupStep::CreateSwapChain => joined("Could not create the D3D11 swap chain: ", error),
        SetupStep::CreateDirectSwapChain => joined("Could not create direct D3D11 swap chain: ", error),
        SetupStep::QuerySwapChain => joined("Could not query IDXGISwapChain3: ", error),
        SetupStep::DescribeSwapChain => joined("Could not read the D3D11 swap-chain description: ", error),
        SetupStep::QueryLatency => joined("Could not query IDXGISwapChain2: ", error),
        SetupStep::SetLatency => joined("Could not set swap-chain frame latency: ", error),
        SetupStep::TakeLatencyHandle => String::from_str("DXGI returned no frame-latency waitable object."),
        SetupStep::RenewMediaType => joined("Could not create a renegotiated NV12 media type: ", error),
        SetupStep::RenewMajorType => joined("Could not set renegotiated video major type: ", error),
        SetupStep::RenewSubtype => joined("Could not set renegotiated NV12 subtype: ", error),
        SetupStep::RenewOutputType => joined("Could not reconfigure the DXVA NV12 output: ", error),
    }
}

/// A step that brings a frame on the screen.
#[derive(Clone, Copy, Debug, PartialEq, Eq, Structural)]
pub enum FrameStep {
    /// Find the video side of the device.
    QueryVideoDevice,
    /// Find the video side of the context.
    QueryVideoContext,
    /// Look for a video processor.
    CreateEnumerator,
    /// Create the video processor.
    CreateProcessor,
    /// Get a back buffer.
    GetOutputBuffer(u32),
    /// Create the view of a back buffer.
    CreateOutputView(u32),
    /// Take that view.
    TakeOutputView(u32),
    /// Get the buffer of a frame.
    GetBuffer,
    /// Find its surface.
    QuerySurface,
    /// Get the texture of the surface.
    GetTexture,
    /// Get the place of the surface in its texture.
    GetSubresource,
    /// Create the view of a surface.
    CreateInputView,
    /// Take that view.
    TakeInputView,
    /// Convert a frame.
    Convert,
}

/// How a failed step is reported.
pub open spec fn frame_failure(step: FrameStep, error: Seq<char>) -> Seq<char> {
    match step {
        FrameStep::QueryVideoDevice => "Could not query the D3D11 video device: "@ + error,
        FrameStep::QueryVideoContext => "Could not query the D3D11 video context: "@ + error,
        FrameStep::CreateEnumerator => "Could not create the D3D11 video processor: "@ + error,
        FrameStep::CreateProcessor => "Could not create the D3D11 video processor instance: "@ + error,
        FrameStep::GetOutputBuffer(index) => "Could not get BGRA swap-chain buffer "@ + decimal(index as nat) + ": "@ + error,
        FrameStep::CreateOutputView(index) => "Could not create BGRA output view "@ + decimal(index as nat) + ": "@ + error,
        FrameStep::TakeOutputView(index) => "D3D11 returned no BGRA output view "@ + decimal(index as nat) + "."@,
        FrameStep::GetBuffer => "Could not get the decoded video buffer: "@ + error,
        FrameStep::QuerySurface => "The decoder returned a system-memory frame instead of an NV12 GPU texture."@,
        FrameStep::GetTexture => "Could not acquire the decoded NV12 texture: "@ + error,
        FrameStep::GetSubresource => "Could not get the NV12 texture subresource: "@ + error,
        FrameStep::CreateInputView => "Could not create the NV12 input view: "@ + error,
        FrameStep::TakeInputView => "D3D11 returned no NV12 input view."@,
        FrameStep::Convert => "GPU NV12-to-BGRA conversion failed: "@ + error,
    }
}

/// Reports a failed step.
pub fn describe_frame_failure(step: FrameStep, error: &str) -> (text: String)
    ensures
        text@ == frame_failure(step, error@),
{
    match step {
        FrameStep::QueryVideoDevice => joined("Could not query the D3D11 video device: ", error),
        FrameStep::QueryVideoContext => joined("Could not query the D3D11 video context: ", error),
        FrameStep::CreateEnumerator => joined("Could not create the D3D11 video processor: ", error),
        FrameStep::CreateProcessor => joined("Could not create the D3D11 video processor instance: ", error),
        FrameStep::GetOutputBuffer(index) => indexed("Could not get BGRA swap-chain buffer ", index, ": ", error),
        FrameStep::CreateOutputView(index) => indexed("Could not create BGRA output view ", index, ": ", error),
        FrameStep::TakeOutputView(index) => numbered("D3D11 returned no BGRA output view ", index, "."),
        FrameStep::GetBuffer => joined("Could not get the decoded video buffer: ", error),
        FrameStep::QuerySurface => String::from_str("The decoder returned a system-memory frame instead of an NV12 GPU texture."),
        FrameStep::GetTexture => joined("Could not acquire the decoded NV12 texture: ", error),
        FrameStep::GetSubresource => joined("Could not get the NV12 texture subresource: ", error),
        FrameStep::CreateInputView => joined("Could not create the NV12 input view: ", error),
        FrameStep::TakeInputView => String::from_str("D3D11 returned no NV12 input view."),
        FrameStep::Convert => joined("GPU NV12-to-BGRA conversion failed: ", error),
    }
}

/// A step of the direct decoder backend.
#[derive(Clone, Copy, Debug, PartialEq, Eq, Structural)]
pub enum DemuxStep {
    /// Create the resolver.
    CreateResolver,
    /// Open the file.
    OpenSource,
    /// Take what was opened.
    TakeSource,
    /// Find the media source in it.
    QuerySource,
    /// Describe the presentation.
    CreateDescriptor,
    /// Count the streams.
    CountStreams,
    /// Select a stream.
    SelectStream,
    /// Deselect a stream.
    DeselectStream,
    /// Start the source.
    StartSource,
    /// Request a sample.
    RequestSample,
    /// Get the value of a sample event.
    GetSample,
    /// Take the object of a sample event.
    TakeSample,
    /// Find the sample in it.
    QuerySample,
    /// Get the value of a stream event.
    GetStream,
    /// Take the object of a stream event.
    TakeStream,
    /// Find the stream in it.
    QueryStream,
    /// List the decoders.
    ListDecoders,
    /// Take the list.
    TakeDecoders,
    /// Choose a decoder.
    ChooseDecoder,
    /// Get the attributes of the decoder.
    GetAttributes,
    /// Find the events of the decoder.
    GetEvents,
    /// Give the first sample to the decoder.
    FirstInput,
    /// Describe the output of the decoder.
    DescribeOutput,
    /// Get the first frame from the decoder.
    FirstOutput,
    /// Set the changed output type.
    RenewOutput,
    /// Choose the changed output type.
    ChooseOutput,
    /// Give a sample to a decoder that asked for it.
    FeedDecoder,
}

/// How a failed step is reported.
pub open spec fn demux_failure(step: DemuxStep, error: Seq<char>) -> Seq<char> {
    match step {
        DemuxStep::CreateResolver => "MP4 resolver: "@ + error,
        DemuxStep::OpenSource => "Could not open MP4 media source: "@ + error,
        DemuxStep::TakeSource => "MP4 resolver returned no object."@,
        DemuxStep::QuerySource => "Resolved object is not media source: "@ + error,
        DemuxStep::CreateDescriptor => "MP4 presentation descriptor: "@ + error,
        DemuxStep::CountStreams => "MP4 streams: "@ + error,
        DemuxStep::SelectStream => "MP4 video selection: "@ + error,
        DemuxStep::DeselectStream => "MP4 stream deselection: "@ + error,
        DemuxStep::StartSource => "MP4 source start: "@ + error,
        DemuxStep::RequestSample => "MP4 RequestSample: "@ + error,
        DemuxStep::GetSample => "MP4 sample event: "@ + error,
        DemuxStep::TakeSample => "MP4 sample object: "@ + error,
        DemuxStep::QuerySample => "MP4 sample cast: "@ + error,
        DemuxStep::GetStream => "MP4 stream event: "@ + error,
        DemuxStep::TakeStream => "MP4 stream object: "@ + error,
        DemuxStep::QueryStream => "MP4 stream cast: "@ + error,
        DemuxStep::ListDecoders => "Hardware decoder enumeration failed: "@ + error,
        DemuxStep::TakeDecoders => "No hardware decoder was found for this MP4 codec."@,
        DemuxStep::ChooseDecoder => "No hardware decoder accepted the D3D11 device manager and MP4 media type."@,
        DemuxStep::GetAttributes => "Hardware MFT attributes: "@ + error,
        DemuxStep::GetEvents => "Async hardware MFT event generator: "@ + error,
        DemuxStep::FirstInput => "Hardware MFT rejected the first MP4 sample: "@ + error,
        DemuxStep::DescribeOutput => "Hardware MFT output stream info: "@ + error,
        DemuxStep::FirstOutput => "Hardware MFT has no NV12 output yet: "@ + error,
        DemuxStep::RenewOutput => "Could not renegotiate NV12 decoder output: "@ + error,
        DemuxStep::ChooseOutput => "Decoder stream changed but exposed no NV12 output type."@,
        DemuxStep::FeedDecoder => "Async hardware MFT ProcessInput failed: "@ + error,
    }
}

/// Reports a failed step.
pub fn describe_demux_failure(step: DemuxStep, error: &str) -> (text: String)
    ensures
        text@ == demux_failure(step, error@),
{
    match step {
        DemuxStep::CreateResolver => joined("MP4 resolver: ", error),
        DemuxStep::OpenSource => joined("Could not open MP4 media source: ", error),
        DemuxStep::TakeSource => String::from_str("MP4 resolver returned no object."),
        DemuxStep::QuerySource => joined("Resolved object is not media source: ", error),
        DemuxStep::CreateDescriptor => joined("MP4 presentation descriptor: ", error),
        DemuxStep::CountStreams => joined("MP4 streams: ", error),
        DemuxStep::SelectStream => joined("MP4 video selection: ", error),
        DemuxStep::DeselectStream => joined("MP4 stream deselection: ", error),
        DemuxStep::StartSource => joined("MP4 source start: ", error),
        DemuxStep::RequestSample => joined("MP4 RequestSample: ", error),
        DemuxStep::GetSample => joined("MP4 sample event: ", error),
        DemuxStep::TakeSample => joined("MP4 sample object: ", error),
        DemuxStep::QuerySample => joined("MP4 sample cast: ", error),
        DemuxStep::GetStream => joined("MP4 stream event: ", error),
        DemuxStep::TakeStream => joined("MP4 stream object: ", error),
        DemuxStep::QueryStream => joined("MP4 stream cast: ", error),
        DemuxStep::ListDecoders => joined("Hardware decoder enumeration failed: ", error),
        DemuxStep::TakeDecoders => String::from_str("No hardware decoder was found for this MP4 codec."),
        DemuxStep::ChooseDecoder => String::from_str("No hardware decoder accepted the D3D11 device manager and MP4 media type."),
        DemuxStep::GetAttributes => joined("Hardware MFT attributes: ", error),
        DemuxStep::GetEvents => joined("Async hardware MFT event generator: ", error),
        DemuxStep::FirstInput => joined("Hardware MFT rejected the first MP4 sample: ", error),
        DemuxStep::DescribeOutput => joined("Hardware MFT output stream info: ", error),
        DemuxStep::FirstOutput => joined("Hardware MFT has no NV12 output yet: ", error),
        DemuxStep::RenewOutput => joined("Could not renegotiate NV12 decoder output: ", error),
        DemuxStep::ChooseOutput => String::from_str("Decoder stream changed but exposed no NV12 output type."),
        DemuxStep::FeedDecoder => joined("Async hardware MFT ProcessInput failed: ", error),
    }
}

/// A step of the audio worker.
#[derive(Clone, Copy, Debug, PartialEq, Eq, Structural)]
pub enum AudioStep {
    /// Enter the apartment of the worker.
    InitializeApartment,
    /// Open the file.
    OpenStream,
    /// Deselect every stream.
    DeselectStreams,
    /// Select the audio stream.
    SelectAudio,
    /// Create the output type.
    CreateMediaType,
    /// Make it an audio type.
    SetMajorType,
    /// Make it PCM.
    SetSubtype,
    /// Set it.
    SetOutputType,
    /// Get the type that was settled on.
    GetOutputType,
    /// Convert it into a wave format.
    ConvertFormat,
    /// Look for audio devices.
    CreateEnumerator,
    /// Open the default device.
    OpenOutput,
    /// Create its client.
    ActivateClient,
    /// Set the client up.
    InitializeClient,
    /// Create the render event.
    CreateEvent,
    /// Give it to the client.
    AttachEvent,
    /// Get the size of the device buffer.
    GetBufferSize,
    /// Get access to the device buffer.
    GetRenderClient,
    /// Get access to the volume.
    GetSessionVolume,
    /// Get access to the clock.
    GetDeviceClock,
    /// Get the frequency of the clock.
    GetFrequency,
    /// Set the volume.
    SetVolume,
    /// Set the mute state.
    SetMute,
    /// Read a sample.
    ReadSample,
    /// Join the buffers of a sample.
    JoinBuffers,
    /// Lock the buffer.
    LockBuffer,
    /// Unlock the buffer.
    UnlockBuffer,
    /// Get room for the first frames.
    AcquireFirst,
    /// Submit the first frames.
    SubmitFirst,
    /// Start the device.
    StartDevice,
    /// Read the clock for the first time.
    ReadOrigin,
    /// Pause the device.
    PauseDevice,
    /// Resume the device.
    ResumeDevice,
    /// Read the clock.
    ReadClock,
    /// Read how much is still to be played.
    ReadPadding,
    /// Get room for frames.
    Acquire,
    /// Submit frames.
    Submit,
}

/// How a failed step is reported.
pub open spec fn audio_failure(step: AudioStep, error: Seq<char>) -> Seq<char> {
    match step {
        AudioStep::InitializeApartment => "Could not initialize the native audio COM apartment."@,
        AudioStep::OpenStream => "Could not open the MP4 audio stream: "@ + error,
        AudioStep::DeselectStreams => "Could not deselect unused MP4 streams: "@ + error,
        AudioStep::SelectAudio => "MP4 has no selectable audio stream: "@ + error,
        AudioStep::CreateMediaType => "PCM media type: "@ + error,
        AudioStep::SetMajorType => "PCM major type: "@ + error,
        AudioStep::SetSubtype => "PCM subtype: "@ + error,
        AudioStep::SetOutputType => "Could not configure the MP4 audio decoder for PCM: "@ + error,
        AudioStep::GetOutputType => "Could not query the decoded PCM format: "@ + error,
        AudioStep::ConvertFormat => "Could not convert PCM media type to WAVEFORMATEX: "@ + error,
        AudioStep::CreateEnumerator => "Could not create the Windows audio device enumerator: "@ + error,
        AudioStep::OpenOutput => "Could not open the default Windows audio output: "@ + error,
        AudioStep::ActivateClient => "Could not activate WASAPI: "@ + error,
        AudioStep::InitializeClient => "Could not initialize WASAPI shared mode: "@ + error,
        AudioStep::CreateEvent => "Could not create the WASAPI render event: "@ + error,
        AudioStep::AttachEvent => "Could not attach the WASAPI render event: "@ + error,
        AudioStep::GetBufferSize => "Could not query the WASAPI buffer size: "@ + error,
        AudioStep::GetRenderClient => "Could not obtain IAudioRenderClient: "@ + error,
        AudioStep::GetSessionVolume => "Could not obtain native audio session volume: "@ + error,
        AudioStep::GetDeviceClock => "Could not obtain the WASAPI device clock: "@ + error,
        AudioStep::GetFrequency => "Could not query the WASAPI clock frequency: "@ + error,
        AudioStep::SetVolume => "Could not set native audio volume: "@ + error,
        AudioStep::SetMute => "Could not set native audio mute: "@ + error,
        AudioStep::ReadSample => "Could not decode the next MP4 audio sample: "@ + error,
        AudioStep::JoinBuffers => "Could not create a contiguous PCM buffer: "@ + error,
        AudioStep::LockBuffer => "Could not lock the decoded PCM buffer: "@ + error,
        AudioStep::UnlockBuffer => "Could not unlock the decoded PCM buffer: "@ + error,
        AudioStep::AcquireFirst => "Could not acquire the initial WASAPI buffer: "@ + error,
        AudioStep::SubmitFirst => "Could not submit the initial WASAPI buffer: "@ + error,
        AudioStep::StartDevice => "Could not start WASAPI playback: "@ + error,
        AudioStep::ReadOrigin => "Could not read the initial WASAPI clock: "@ + error,
        AudioStep::PauseDevice => "Could not pause WASAPI playback: "@ + error,
        AudioStep::ResumeDevice => "Could not resume WASAPI playback: "@ + error,
        AudioStep::ReadClock => "Could not read the WASAPI clock: "@ + error,
        AudioStep::ReadPadding => "Could not query WASAPI padding: "@ + error,
        AudioStep::Acquire => "Could not acquire a WASAPI render buffer: "@ + error,
        AudioStep::Submit => "Could not submit a WASAPI render buffer: "@ + error,
    }
}

/// Reports a failed step.
pub fn describe_audio_failure(step: AudioStep, error: &str) -> (text: String)
    ensures
        text@ == audio_failure(step, error@),
{
    match step {
        AudioStep::InitializeApartment => String::from_str("Could not initialize the native audio COM apartment."),
        AudioStep::OpenStream => joined("Could not open the MP4 audio stream: ", error),
        AudioStep::DeselectStreams => joined("Could not deselect unused MP4 streams: ", error),
        AudioStep::SelectAudio => joined("MP4 has no selectable audio stream: ", error),
        AudioStep::CreateMediaType => joined("PCM media type: ", error),
        AudioStep::SetMajorType => joined("PCM major type: ", error),
        AudioStep::SetSubtype => joined("PCM subtype: ", error),
        AudioStep::SetOutputType => joined("Could not configure the MP4 audio decoder for PCM: ", error),
        AudioStep::GetOutputType => joined("Could not query the decoded PCM format: ", error),
        AudioStep::ConvertFormat => joined("Could not convert PCM media type to WAVEFORMATEX: ", error),
        AudioStep::CreateEnumerator => joined("Could not create the Windows audio device enumerator: ", error),
        AudioStep::OpenOutput => joined("Could not open the default Windows audio output: ", error),
        AudioStep::ActivateClient => joined("Could not activate WASAPI: ", error),
        AudioStep::InitializeClient => joined("Could not initialize WASAPI shared mode: ", error),
        AudioStep::CreateEvent => joined("Could not create the WASAPI render event: ", error),
        AudioStep::AttachEvent => joined("Could not attach the WASAPI render event: ", error),
        AudioStep::GetBufferSize => joined("Could not query the WASAPI buffer size: ", error),
        AudioStep::GetRenderClient => joined("Could not obtain IAudioRenderClient: ", error),
        AudioStep::GetSessionVolume => joined("Could not obtain native audio session volume: ", error),
        AudioStep::GetDeviceClock => joined("Could not obtain the WASAPI device clock: ", error),
        AudioStep::GetFrequency => joined("Could not query the WASAPI clock frequency: ", error),
        AudioStep::SetVolume => joined("Could not set native audio volume: ", error),
        AudioStep::SetMute => joined("Could not set native audio mute: ", error),
        AudioStep::ReadSample => joined("Could not decode the next MP4 audio sample: ", error),
        AudioStep::JoinBuffers => joined("Could not create a contiguous PCM buffer: ", error),
        AudioStep::LockBuffer => joined("Could not lock the decoded PCM buffer: ", error),
        AudioStep::UnlockBuffer => joined("Could not unlock the decoded PCM buffer: ", error),
        AudioStep::AcquireFirst => joined("Could not acquire the initial WASAPI buffer: ", error),
        AudioStep::SubmitFirst => joined("Could not submit the initial WASAPI buffer: ", error),
        AudioStep::StartDevice => joined("Could not start WASAPI playback: ", error),
        AudioStep::ReadOrigin => joined("Could not read the initial WASAPI clock: ", error),
        AudioStep::PauseDevice => joined("Could not pause WASAPI playback: ", error),
        AudioStep::ResumeDevice => joined("Could not resume WASAPI playback: ", error),
        AudioStep::ReadClock => joined("Could not read the WASAPI clock: ", error),
        AudioStep::ReadPadding => joined("Could not query WASAPI padding: ", error),
        AudioStep::Acquire => joined("Could not acquire a WASAPI render buffer: ", error),
        AudioStep::Submit => joined("Could not submit a WASAPI render buffer: ", error),
    }
}

/// The report of a failed step of the graphics device ends with its reason, in full, wherever
/// there can be one; a step that only misses something is always reported alike.
pub proof fn a_setup_failure_gives_its_reason(step: SetupStep, error: Seq<char>, other: Seq<char>)
    ensures
        ({
            let plain = step is StartMediaFoundation
                || step is TakeDevice
                || step is TakeContext
                || step is TakeManager
                || step is TakeAttributes
                || step is TakeLatencyHandle;
            &&& plain ==> setup_failure(step, error) == setup_failure(step, other)
            &&& !plain ==> setup_failure(step, error) == setup_failure(step, Seq::empty()) + error
        }),
{
    let plain = setup_failure(step, Seq::empty());
    assert(plain + error =~= setup_failure(step, error) || setup_failure(step, error) =~= plain);
}

/// The report of a failed step of a frame ends with its reason, in full, wherever
/// there can be one; a step that only misses something is always reported alike.
pub proof fn a_frame_failure_gives_its_reason(step: FrameStep, error: Seq<char>, other: Seq<char>)
    ensures
        ({
            let plain = step is TakeOutputView
                || step is QuerySurface
                || step is TakeInputView;
            &&& plain ==> frame_failure(step, error) == frame_failure(step, other)
            &&& !plain ==> frame_failure(step, error) == frame_failure(step, Seq::empty()) + error
        }),
{
    let plain = frame_failure(step, Seq::empty());
    assert(plain + error =~= frame_failure(step, error) || frame_failure(step, error) =~= plain);
}

/// The report of a failed step of the direct backend ends with its reason, in full, wherever
/// there can be one; a step that only misses something is always reported alike.
pub proof fn a_demux_failure_gives_its_reason(step: DemuxStep, error: Seq<char>, other: Seq<char>)
    ensures
        ({
            let plain = step is TakeSource
                || step is TakeDecoders
                || step is ChooseDecoder
                || step is ChooseOutput;
            &&& plain ==> demux_failure(step, error) == demux_failure(step, other)
            &&& !plain ==> demux_failure(step, error) == demux_failure(step, Seq::empty()) + error
        }),
{
    let plain = demux_failure(step, Seq::empty());
    assert(plain + error =~= demux_failure(step, error) || demux_failure(step, error) =~= plain);
}

/// The report of a failed step of the audio worker ends with its reason, in full, wherever
/// there can be one; a step that only misses something is always reported alike.
pub proof fn an_audio_failure_gives_its_reason(step: AudioStep, error: Seq<char>, other: Seq<char>)
    ensures
        ({
            let plain = step is InitializeApartment;
            &&& plain ==> audio_failure(step, error) == audio_failure(step, other)
            &&& !plain ==> audio_failure(step, error) == audio_failure(step, Seq::empty()) + error
        }),
{
    let plain = audio_failure(step, Seq::empty());
    assert(plain + error =~= audio_failure(step, error) || audio_failure(step, error) =~= plain);
}

} // verus!
