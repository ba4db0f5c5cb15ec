//! What callers can ask about the engine, and how diagnostics are reported.
//! Where the state of the engine cannot be had, there is no state to ask.

use crate::direct_mft::{
    has_d3d11_hardware_decoder, works_on_device, DirectCodec, DirectMp4EventStats,
};
use crate::engine::{set_last_error, EngineState, FallbackStatus, PlaybackStatus};
use crate::mf_d3d11::NativeMp4Renderer;
use crate::native_audio::NativeAudioRenderer;
use crate::smoke_test::NativeSmokeStats;
use crate::text::{decimal, flag_text, push_decimal, push_flag};
use vstd::prelude::*;
use vstd::string::*;
use vstd::utf8::encode_utf8;

verus! {

/// A text for a buffer of the caller.
pub struct CopiedText {
    /// What goes into the buffer.
    pub bytes: Vec<u8>,
    /// How long the whole text is, in bytes.
    pub length: usize,
}

/// What goes into a buffer of so many bytes: as much of the text as fits before
/// the zero byte that ends it. A buffer without room stays as it is.
pub open spec fn copied(text: Seq<u8>, capacity: usize) -> Seq<u8> {
    if capacity == 0 {
        Seq::empty()
    } else if text.len() < capacity {
        text.push(0)
    } else {
        text.take(capacity - 1).push(0)
    }
}

/// What is said where there is no state.
pub open spec fn text_or_lock_failure(text: Option<Seq<char>>) -> Seq<char> {
    match text {
        Some(text) => text,
        None => "Engine state lock failed."@,
    }
}

fn copy_text(text: &str, capacity: usize) -> (copy: CopiedText)
    ensures
        copy.length == encode_utf8(text@).len(),
        copy.bytes@ == copied(encode_utf8(text@), capacity),
{
    let source = text.as_bytes();
    let length: usize = source.len();
    let mut bytes: Vec<u8> = Vec::new();
    if capacity != 0 {
        let count: usize = if length < capacity {
            length
        } else {
            capacity - 1
        };
        let mut i: usize = 0;
        while i < count
            invariant
                i <= count,
                count <= length,
                length == source@.len(),
                bytes@ == source@.take(i as int),
            decreases count - i,
        {
            bytes.push(source[i]);
            i = i + 1;
            assert(bytes@ =~= source@.take(i as int));
        }
        bytes.push(0);
        assert(source@.take(length as int) =~= source@);
    }
    CopiedText { bytes, length }
}

fn copy_state_text(text: Option<&String>, capacity: usize) -> (copy: CopiedText)
    ensures
        ({
            let said = text_or_lock_failure(
                match text {
                    Some(text) => Some(text@),
                    None => None,
                },
            );
            &&& copy.length == encode_utf8(said).len()
            &&& copy.bytes@ == copied(encode_utf8(said), capacity)
        }),
{
    match text {
        Some(text) => copy_text(text.as_str(), capacity),
        None => copy_text("Engine state lock failed.", capacity),
    }
}

/// The most recent error.
pub fn get_last_error<P, R, A, M>(
    state: Option<&EngineState<P, R, A, M>>,
    capacity: usize,
) -> (copy: CopiedText)
    ensures
        ({
            let said = text_or_lock_failure(
                match state {
                    Some(state) => Some(state.last_error@),
                    None => None,
                },
            );
            &&& copy.length == encode_utf8(said).len()
            &&& copy.bytes@ == copied(encode_utf8(said), capacity)
        }),
{
    match state {
        Some(state) => copy_state_text(Some(&state.last_error), capacity),
        None => copy_state_text(None, capacity),
    }
}

/// What is known of the last native start of video.
pub fn get_native_mp4_diagnostic<P, R, A, M>(
    state: Option<&EngineState<P, R, A, M>>,
    capacity: usize,
) -> (copy: CopiedText)
    ensures
        ({
            let said = text_or_lock_failure(
                match state {
                    Some(state) => Some(state.native_mp4_diagnostic@),
                    None => None,
                },
            );
            &&& copy.length == encode_utf8(said).len()
            &&& copy.bytes@ == copied(encode_utf8(said), capacity)
        }),
{
    match state {
        Some(state) => copy_state_text(Some(&state.native_mp4_diagnostic), capacity),
        None => copy_state_text(None, capacity),
    }
}

/// What is known of the last native start of audio.
pub fn get_native_audio_diagnostic<P, R, A, M>(
    state: Option<&EngineState<P, R, A, M>>,
    capacity: usize,
) -> (copy: CopiedText)
    ensures
        ({
            let said = text_or_lock_failure(
                match state {
                    Some(state) => Some(state.native_audio_diagnostic@),
                    None => None,
                },
            );
            &&& copy.length == encode_utf8(said).len()
            &&& copy.bytes@ == copied(encode_utf8(said), capacity)
        }),
{
    match state {
        Some(state) => copy_state_text(Some(&state.native_audio_diagnostic), capacity),
        None => copy_state_text(None, capacity),
    }
}

/// Whether the native renderer can be used on this computer.
pub fn is_native_renderer_available<P, R, A, M>(state: Option<&EngineState<P, R, A, M>>) -> (available:
    bool)
    ensures
        available == (state matches Some(state) && state.d3d11_media_foundation_available),
{
    match state {
        Some(state) => state.d3d11_media_foundation_available,
        None => false,
    }
}

/// Whether a decoder for H.264 or HEVC works on the graphics device. Each listed
/// decoder is given by its attribute, as far as it has one.
pub fn is_direct_mft_decoder_available(h264: &Vec<Option<u32>>, hevc: &Vec<Option<u32>>) -> (available:
    bool)
    ensures
        available == ((exists|i: int| 0 <= i < h264@.len() && works_on_device(#[trigger] h264@[i]))
            || (exists|i: int| 0 <= i < hevc@.len() && works_on_device(#[trigger] hevc@[i]))),
{
    has_d3d11_hardware_decoder(h264, hevc)
}

/// The kind of the last native video failure; zero where there was none.
pub fn get_native_renderer_failure_code<P, R, A, M>(state: Option<&EngineState<P, R, A, M>>) -> (code:
    u32)
    ensures
        code == (match state {
            Some(state) => state.native_mp4_failure_code,
            None => u32::MAX,
        }),
{
    match state {
        Some(state) => state.native_mp4_failure_code,
        None => u32::MAX,
    }
}

/// How far the fallback of video has come.
pub fn get_native_video_fallback_status<P, R, A, M>(state: Option<&EngineState<P, R, A, M>>) -> (code:
    u32)
    ensures
        code == (match state {
            Some(state) => state.video_fallback_status.spec_code(),
            None => FallbackStatus::Failed.spec_code(),
        }),
{
    match state {
        Some(state) => state.video_fallback_status.code(),
        None => FallbackStatus::Failed.code(),
    }
}

/// How far the fallback of audio has come.
pub fn get_native_audio_fallback_status<P, R, A, M>(state: Option<&EngineState<P, R, A, M>>) -> (code:
    u32)
    ensures
        code == (match state {
            Some(state) => state.audio_fallback_status.spec_code(),
            None => FallbackStatus::Failed.spec_code(),
        }),
{
    match state {
        Some(state) => state.audio_fallback_status.code(),
        None => FallbackStatus::Failed.code(),
    }
}

/// What the engine is doing.
pub fn get_engine_playback_status<P, R, A, M>(state: Option<&EngineState<P, R, A, M>>) -> (code:
    u32)
    ensures
        code == (match state {
            Some(state) => state.playback_status.spec_code(),
            None => PlaybackStatus::Failed.spec_code(),
        }),
{
    match state {
        Some(state) => state.playback_status.code(),
        None => PlaybackStatus::Failed.code(),
    }
}

/// The generation of the last request.
pub fn get_engine_generation<P, R, A, M>(state: Option<&EngineState<P, R, A, M>>) -> (generation:
    u64)
    ensures
        generation == (match state {
            Some(state) => state.generation,
            None => u64::MAX,
        }),
{
    match state {
        Some(state) => state.generation,
        None => u64::MAX,
    }
}

/// Whether the active native renderer has shown a frame and has not failed.
pub fn is_native_mp4_pipeline_ready(
    renderer: Option<&NativeMp4Renderer>,
    running_ms: u64,
) -> (ready: bool)
    ensures
        ready == (renderer matches Some(renderer) && !renderer.failed && renderer.frames_presented
            > 0),
{
    match renderer {
        Some(renderer) => !renderer.has_failed(running_ms) && renderer.frames_presented() > 0,
        None => false,
    }
}

/// Number of frames that the active native renderer has shown.
pub fn get_native_renderer_frame_count(renderer: Option<&NativeMp4Renderer>) -> (count: u64)
    ensures
        count == (match renderer {
            Some(renderer) => renderer.frames_presented,
            None => 0,
        }),
{
    match renderer {
        Some(renderer) => renderer.frames_presented(),
        None => 0,
    }
}

/// Number of frames that came out of the decoder.
pub fn get_native_renderer_decoded_frame_count(renderer: Option<&NativeMp4Renderer>) -> (count: u64)
    ensures
        count == (match renderer {
            Some(renderer) => renderer.frames_decoded,
            None => 0,
        }),
{
    match renderer {
        Some(renderer) => renderer.frames_decoded(),
        None => 0,
    }
}

/// Number of frames that were dropped, for any reason.
pub fn get_native_renderer_dropped_frame_count(renderer: Option<&NativeMp4Renderer>) -> (count: u64)
    ensures
        count == (match renderer {
            Some(renderer) => (renderer.dropped_frame_latency + renderer.dropped_compositor_busy
                + renderer.dropped_late) % 0x1_0000_0000_0000_0000,
            None => 0,
        }),
{
    match renderer {
        Some(renderer) => renderer.frames_dropped(),
        None => 0,
    }
}

/// Number of frames that found no back buffer in time.
pub fn get_native_renderer_frame_latency_drop_count(renderer: Option<&NativeMp4Renderer>) -> (count:
    u64)
    ensures
        count == (match renderer {
            Some(renderer) => renderer.dropped_frame_latency,
            None => 0,
        }),
{
    match renderer {
        Some(renderer) => renderer.frames_dropped_frame_latency(),
        None => 0,
    }
}

/// Number of frames that the busy compositor refused.
pub fn get_native_renderer_compositor_busy_drop_count(
    renderer: Option<&NativeMp4Renderer>,
) -> (count: u64)
    ensures
        count == (match renderer {
            Some(renderer) => renderer.dropped_compositor_busy,
            None => 0,
        }),
{
    match renderer {
        Some(renderer) => renderer.frames_dropped_compositor_busy(),
        None => 0,
    }
}

/// Number of frames that were dropped for being late.
pub fn get_native_renderer_late_drop_count(renderer: Option<&NativeMp4Renderer>) -> (count: u64)
    ensures
        count == (match renderer {
            Some(renderer) => renderer.dropped_late,
            None => 0,
        }),
{
    match renderer {
        Some(renderer) => renderer.frames_dropped_late(),
        None => 0,
    }
}

/// Milliseconds since a frame was last shown; the largest number where none was
/// shown, or no native renderer is active.
pub fn get_native_renderer_last_present_age_ms(
    renderer: Option<&NativeMp4Renderer>,
    running_ms: u64,
) -> (age: u64)
    ensures
        age == (match renderer {
            Some(renderer) => match renderer.last_present_ms {
                Some(shown) => if shown <= running_ms {
                    running_ms - shown
                } else {
                    0
                },
                None => u64::MAX as int,
            },
            None => u64::MAX as int,
        }),
{
    match renderer {
        Some(renderer) => renderer.last_present_age_ms(running_ms),
        None => u64::MAX,
    }
}

/// Number of callbacks of the reader.
pub fn get_native_renderer_callback_count(renderer: Option<&NativeMp4Renderer>) -> (count: u64)
    ensures
        count == (match renderer {
            Some(renderer) => renderer.callbacks_received,
            None => 0,
        }),
{
    match renderer {
        Some(renderer) => renderer.callbacks_received(),
        None => 0,
    }
}

/// Status of the last callback of the reader.
pub fn get_native_renderer_last_callback_status(renderer: Option<&NativeMp4Renderer>) -> (status:
    i32)
    ensures
        status == (match renderer {
            Some(renderer) => renderer.last_callback_status,
            None => 0,
        }),
{
    match renderer {
        Some(renderer) => renderer.last_callback_status(),
        None => 0,
    }
}

/// Flags of the last callback of the reader.
pub fn get_native_renderer_last_callback_flags(renderer: Option<&NativeMp4Renderer>) -> (flags: u32)
    ensures
        flags == (match renderer {
            Some(renderer) => renderer.last_callback_flags,
            None => 0,
        }),
{
    match renderer {
        Some(renderer) => renderer.last_callback_flags(),
        None => 0,
    }
}

/// Status of the last request to the reader.
pub fn get_native_renderer_last_request_status(renderer: Option<&NativeMp4Renderer>) -> (status:
    i32)
    ensures
        status == (match renderer {
            Some(renderer) => renderer.last_request_status,
            None => 0,
        }),
{
    match renderer {
        Some(renderer) => renderer.last_request_status(),
        None => 0,
    }
}

/// Whether native audio has reached the device and has not failed.
pub fn is_native_audio_ready(audio: Option<&NativeAudioRenderer>) -> (ready: bool)
    ensures
        ready == (audio matches Some(audio) && !audio.failed && audio.frames_written > 0),
{
    match audio {
        Some(audio) => !audio.has_failed() && audio.frames_written() > 0,
        None => false,
    }
}

/// Number of audio frames that have reached the device.
pub fn get_native_audio_frame_count(audio: Option<&NativeAudioRenderer>) -> (count: u64)
    ensures
        count == (match audio {
            Some(audio) => audio.frames_written,
            None => 0,
        }),
{
    match audio {
        Some(audio) => audio.frames_written(),
        None => 0,
    }
}

/// Reports the codec of a file: 1 for H.264, 2 for HEVC, and 0, with the error
/// recorded, for a file that cannot be prepared.
pub fn probe_direct_mp4_demuxer<P, R, A, M>(
    state: &mut EngineState<P, R, A, M>,
    result: Result<DirectCodec, String>,
) -> (code: i32)
    ensures
        match result {
            Ok(codec) => code == (if codec == DirectCodec::H264 {
                1i32
            } else {
                2
            }) && *final(state) == *old(state),
            Err(error) => code == 0 && final(state).last_error@ == error@,
        },
        *final(state) == (EngineState { last_error: final(state).last_error, ..*old(state) }),
        old(state).wf() ==> final(state).wf(),
{
    match result {
        Ok(DirectCodec::H264) => 1,
        Ok(DirectCodec::Hevc) => 2,
        Err(error) => {
            set_last_error(state, error.as_str());
            0
        },
    }
}

/// What is said of a demuxing session without samples.
pub open spec fn no_samples_text(stats: DirectMp4EventStats) -> Seq<char> {
    "MP4 direct event loop returned no samples (source events: "@ + decimal(
        stats.source_events as nat,
    ) + ", stream events: "@ + decimal(stats.stream_events as nat) + ", started: "@ + flag_text(
        stats.stream_started,
    ) + ")."@
}

/// Reports the number of samples of a demuxing session; where there are none,
/// the reason is recorded.
pub fn probe_direct_mp4_event_loop<P, R, A, M>(
    state: &mut EngineState<P, R, A, M>,
    result: Result<DirectMp4EventStats, String>,
) -> (samples: u32)
    ensures
        match result {
            Ok(stats) => samples == stats.samples && (if stats.samples > 0 {
                *final(state) == *old(state)
            } else {
                final(state).last_error@ == no_samples_text(stats)
            }),
            Err(error) => samples == 0 && final(state).last_error@ == error@,
        },
        *final(state) == (EngineState { last_error: final(state).last_error, ..*old(state) }),
        old(state).wf() ==> final(state).wf(),
{
    match result {
        Ok(stats) => {
            if stats.samples > 0 {
                stats.samples
            } else {
                let mut text = String::from_str(
                    "MP4 direct event loop returned no samples (source events: ",
                );
                push_decimal(&mut text, stats.source_events as u64);
                text.append(", stream events: ");
                push_decimal(&mut text, stats.stream_events as u64);
                text.append(", started: ");
                push_flag(&mut text, stats.stream_started);
                text.append(").");
                set_last_error(state, text.as_str());
                0
            }
        },
        Err(error) => {
            set_last_error(state, error.as_str());
            0
        },
    }
}

/// Reports whether a decoder took the media type of a file; where none did, the
/// reason is recorded.
pub fn can_configure_direct_mft_decoder<P, R, A, M>(
    state: &mut EngineState<P, R, A, M>,
    result: Result<bool, String>,
) -> (configured: bool)
    ensures
        match result {
            Ok(accepted) => configured == accepted && (if accepted {
                *final(state) == *old(state)
            } else {
                final(state).last_error@ == "No hardware MFT accepted this MP4 video media type."@
            }),
            Err(error) => !configured && final(state).last_error@ == error@,
        },
        *final(state) == (EngineState { last_error: final(state).last_error, ..*old(state) }),
        old(state).wf() ==> final(state).wf(),
{
    match result {
        Ok(accepted) => {
            if !accepted {
                set_last_error(state, "No hardware MFT accepted this MP4 video media type.");
            }
            accepted
        },
        Err(error) => {
            set_last_error(state, error.as_str());
            false
        },
    }
}

fn report<P, R, A, M>(state: &mut EngineState<P, R, A, M>, result: Result<bool, String>) -> (worked:
    bool)
    ensures
        match result {
            Ok(outcome) => worked == outcome && *final(state) == *old(state),
            Err(error) => !worked && final(state).last_error@ == error@,
        },
        *final(state) == (EngineState { last_error: final(state).last_error, ..*old(state) }),
        old(state).wf() ==> final(state).wf(),
{
    match result {
        Ok(outcome) => outcome,
        Err(error) => {
            set_last_error(state, error.as_str());
            false
        },
    }
}

/// Reports whether a decoder session was made whose attributes can be read;
/// where none was made, the reason is recorded.
pub fn can_create_direct_gpu_decoder_session<P, R, A, M>(
    state: &mut EngineState<P, R, A, M>,
    result: Result<bool, String>,
) -> (created: bool)
    ensures
        match result {
            Ok(readable) => created == readable && *final(state) == *old(state),
            Err(error) => !created && final(state).last_error@ == error@,
        },
        *final(state) == (EngineState { last_error: final(state).last_error, ..*old(state) }),
        old(state).wf() ==> final(state).wf(),
{
    report(state, result)
}

/// Reports whether a decoder took the first sample of a file; where it did not,
/// the reason is recorded.
pub fn can_process_direct_mp4_sample<P, R, A, M>(
    state: &mut EngineState<P, R, A, M>,
    result: Result<bool, String>,
) -> (processed: bool)
    ensures
        match result {
            Ok(outcome) => processed == outcome && *final(state) == *old(state),
            Err(error) => !processed && final(state).last_error@ == error@,
        },
        *final(state) == (EngineState { last_error: final(state).last_error, ..*old(state) }),
        old(state).wf() ==> final(state).wf(),
{
    report(state, result)
}

/// Reports whether a decoder gave a frame for the first sample of a file; where
/// it did not, the reason is recorded.
pub fn can_decode_direct_mp4_sample_to_nv12<P, R, A, M>(
    state: &mut EngineState<P, R, A, M>,
    result: Result<(), String>,
) -> (decoded: bool)
    ensures
        match result {
            Ok(()) => decoded && *final(state) == *old(state),
            Err(error) => !decoded && final(state).last_error@ == error@,
        },
        *final(state) == (EngineState { last_error: final(state).last_error, ..*old(state) }),
        old(state).wf() ==> final(state).wf(),
{
    match result {
        Ok(()) => report(state, Ok(true)),
        Err(error) => report(state, Err(error)),
    }
}

/// Reports whether the first frame of a file was shown; where it was not, the
/// reason is recorded.
pub fn can_present_direct_mp4_sample<P, R, A, M>(
    state: &mut EngineState<P, R, A, M>,
    result: Result<(), String>,
) -> (presented: bool)
    ensures
        match result {
            Ok(()) => presented && *final(state) == *old(state),
            Err(error) => !presented && final(state).last_error@ == error@,
        },
        *final(state) == (EngineState { last_error: final(state).last_error, ..*old(state) }),
        old(state).wf() ==> final(state).wf(),
{
    match result {
        Ok(()) => report(state, Ok(true)),
        Err(error) => report(state, Err(error)),
    }
}

/// The wallpaper window that a diagnostic shows its frames in, or, with the
/// reason recorded, none.
pub fn diagnostic_host<P, R, A, M>(state: &mut EngineState<P, R, A, M>) -> (host: Option<isize>)
    ensures
        old(state).host_window != 0 ==> host == Some(old(state).host_window) && *final(state)
            == *old(state),
        old(state).host_window == 0 ==> host is None && final(state).last_error@
            == "Wallpaper host window is not initialized."@,
        *final(state) == (EngineState { last_error: final(state).last_error, ..*old(state) }),
        old(state).wf() ==> final(state).wf(),
{
    if state.host_window != 0 {
        Some(state.host_window)
    } else {
        set_last_error(state, "Wallpaper host window is not initialized.");
        None
    }
}

/// What is said of a run that passed.
pub open spec fn smoke_passed_text(stats: NativeSmokeStats) -> Seq<char> {
    "Native smoke test passed: "@ + decimal(stats.input_samples as nat) + " input samples, "@
        + decimal(stats.output_frames as nat) + " presented GPU frames, "@ + decimal(
        stats.dropped_frame_latency as nat,
    ) + " frame-latency drops, "@ + decimal(stats.dropped_compositor_busy as nat)
        + " compositor-busy drops."@
}

/// Reports the number of frames of a run; how it went is recorded in any case.
pub fn run_native_mp4_smoke_test<P, R, A, M>(
    state: &mut EngineState<P, R, A, M>,
    result: Result<NativeSmokeStats, String>,
) -> (frames: u32)
    ensures
        match result {
            Ok(stats) => frames == stats.output_frames && final(state).last_error@
                == smoke_passed_text(stats),
            Err(error) => frames == 0 && final(state).last_error@ == error@,
        },
        *final(state) == (EngineState { last_error: final(state).last_error, ..*old(state) }),
        old(state).wf() ==> final(state).wf(),
{
    match result {
        Ok(stats) => {
            let mut text = String::from_str("Native smoke test passed: ");
            push_decimal(&mut text, stats.input_samples as u64);
            text.append(" input samples, ");
            push_decimal(&mut text, stats.output_frames as u64);
            text.append(" presented GPU frames, ");
            push_decimal(&mut text, stats.dropped_frame_latency as u64);
            text.append(" frame-latency drops, ");
            push_decimal(&mut text, stats.dropped_compositor_busy as u64);
            text.append(" compositor-busy drops.");
            set_last_error(state, text.as_str());
            stats.output_frames
        },
        Err(error) => {
            set_last_error(state, error.as_str());
            0
        },
    }
}

/// A copied text fits its buffer, ends with a zero byte, and before that is the
/// front of the whole text; it is all of it where there is room.
pub proof fn copies_fit_and_end(text: Seq<u8>, capacity: usize)
    requires
        capacity > 0,
    ensures
        copied(text, capacity).len() <= capacity,
        copied(text, capacity).last() == 0,
        copied(text, capacity).drop_last().is_prefix_of(text),
        text.len() < capacity ==> copied(text, capacity).drop_last() == text,
{
    assert(copied(text, capacity).drop_last().is_prefix_of(text));
    if text.len() < capacity {
        assert(copied(text, capacity).drop_last() =~= text);
    }
}

/// Callers are told what the engine has to say; only where it cannot be had are
/// they told so.
pub proof fn callers_are_told_the_text(text: Option<Seq<char>>)
    ensures
        text matches Some(said) ==> text_or_lock_failure(text) == said,
        text is None ==> text_or_lock_failure(text) == "Engine state lock failed."@,
{
}

/// A copied text is as long as the buffer allows: it holds all of the text, or
/// fills the buffer to its last byte. A buffer without room is left alone.
pub proof fn copies_use_the_buffer(text: Seq<u8>, capacity: usize)
    ensures
        capacity == 0 ==> copied(text, capacity).len() == 0,
        capacity > text.len() ==> copied(text, capacity).len() == text.len() + 1,
        0 < capacity <= text.len() ==> copied(text, capacity).len() == capacity,
        forall|i: int|
            0 <= i < copied(text, capacity).len() - 1 ==> #[trigger] copied(text, capacity)[i]
                == text[i],
{
}

/// The reports of a demuxing session and of a run name each count in its place.
pub proof fn reports_name_the_counts(events: DirectMp4EventStats, stats: NativeSmokeStats)
    ensures
        no_samples_text(events) == "MP4 direct event loop returned no samples (source events: "@
            + decimal(events.source_events as nat) + ", stream events: "@ + decimal(
            events.stream_events as nat,
        ) + ", started: "@ + (if events.stream_started {
            "true"@
        } else {
            "false"@
        }) + ")."@,
        smoke_passed_text(stats) == "Native smoke test passed: "@ + decimal(
            stats.input_samples as nat,
        ) + " input samples, "@ + decimal(stats.output_frames as nat)
            + " presented GPU frames, "@ + decimal(stats.dropped_frame_latency as nat)
            + " frame-latency drops, "@ + decimal(stats.dropped_compositor_busy as nat)
            + " compositor-busy drops."@,
{
}

} // verus!
