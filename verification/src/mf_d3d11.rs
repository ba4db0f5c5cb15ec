//! The native MP4 renderer: what its owner sees of it, what the reader's
//! callback does with a sample, and the loop that paces and shows frames.

use crate::direct_mft::{identifier_text, push_identifier, MAJOR_TYPE_VIDEO, SUBTYPE_NV12};
use crate::native_audio::{Startup, StartupSignal, READER_END_OF_STREAM, READER_TYPE_CHANGED};
use crate::smoke_test::FrameOutcome;
use crate::text::joined;
use vstd::prelude::*;
use vstd::string::*;

verus! {

/// How long a renderer may run without showing anything.
pub const FIRST_FRAME_MS: u64 = 8000;

/// The longest pause of the loop while a frame is not due, in nanoseconds.
pub const MAX_PACE_NS: u64 = 5_000_000;

/// How many frames came out of the decoder, and what became of them. Counters
/// start over where they end.
#[derive(Clone, Copy, Debug, PartialEq, Eq, Structural)]
pub struct FrameCounts {
    pub decoded: u64,
    pub presented: u64,
    pub frame_latency: u64,
    pub compositor_busy: u64,
}

impl FrameCounts {
    /// The counts after one more frame, by what became of it. Only one that was
    /// shown counts as presented.
    pub open spec fn with(self, outcome: FrameOutcome) -> FrameCounts {
        match outcome {
            FrameOutcome::Presented => FrameCounts {
                decoded: counted_up(self.decoded),
                presented: counted_up(self.presented),
                ..self
            },
            FrameOutcome::FrameLatency => FrameCounts {
                decoded: counted_up(self.decoded),
                frame_latency: counted_up(self.frame_latency),
                ..self
            },
            FrameOutcome::CompositorBusy => FrameCounts {
                decoded: counted_up(self.decoded),
                compositor_busy: counted_up(self.compositor_busy),
                ..self
            },
        }
    }

    /// No frame yet.
    pub fn new() -> (counts: Self)
        ensures
            counts == (FrameCounts {
                decoded: 0,
                presented: 0,
                frame_latency: 0,
                compositor_busy: 0,
            }),
    {
        FrameCounts { decoded: 0, presented: 0, frame_latency: 0, compositor_busy: 0 }
    }

    /// Counts one more frame.
    pub fn count(&mut self, outcome: FrameOutcome)
        ensures
            *final(self) == old(self).with(outcome),
    {
        self.decoded = self.decoded.wrapping_add(1);
        match outcome {
            FrameOutcome::Presented => {
                self.presented = self.presented.wrapping_add(1);
            },
            FrameOutcome::FrameLatency => {
                self.frame_latency = self.frame_latency.wrapping_add(1);
            },
            FrameOutcome::CompositorBusy => {
                self.compositor_busy = self.compositor_busy.wrapping_add(1);
            },
        }
    }
}

/// What the render worker and its owner share.
pub struct NativeMp4Renderer {
    pub stop: bool,
    pub paused: bool,
    pub failed: bool,
    pub frames_decoded: u64,
    pub frames_presented: u64,
    pub dropped_frame_latency: u64,
    pub dropped_compositor_busy: u64,
    /// Frames given up for being late. The render loop shows a late frame at
    /// once, and so leaves this as it is.
    pub dropped_late: u64,
    /// When a frame was last shown, in milliseconds since the start.
    pub last_present_ms: Option<u64>,
    pub callbacks_received: u64,
    pub last_callback_status: i32,
    pub last_callback_flags: u32,
    pub last_request_status: i32,
    pub finished: bool,
}

/// What the reader's callback hands to the render loop.
pub enum DecodeEvent<S> {
    /// A sample, with its time in units of 100 nanoseconds.
    Sample(S, i64),
    FormatChanged,
    EndOfStream,
    Error,
}

/// What the reader's callback does.
#[derive(Clone, Copy, Debug, PartialEq, Eq, Structural)]
pub enum CallbackStep {
    /// Nothing.
    Return,
    /// Tell the loop of an error.
    SendError,
    /// Tell the loop of the end of the stream.
    SendEndOfStream,
    /// Hand the sample to the loop.
    SendSample,
    /// Find out about the new format.
    InspectFormat,
    /// Ask for NV12 in the new format.
    ConfigureOutput,
    /// Tell the loop of the new format, then request the next sample.
    SendFormatChanged,
}

/// A counter after one more, which starts over where it ends.
pub open spec fn counted_up(count: u64) -> u64 {
    if count < u64::MAX {
        (count + 1) as u64
    } else {
        0
    }
}

/// What the callback does with what the reader gave: a stopped worker is left
/// alone, an error goes before the end, the end before a sample, and without a
/// sample only a change of format is in order.
pub open spec fn callback_step(
    stop: bool,
    status: i32,
    flags: u32,
    has_sample: bool,
    has_reader: bool,
) -> CallbackStep {
    if stop {
        CallbackStep::Return
    } else if status < 0 {
        CallbackStep::SendError
    } else if flags & READER_END_OF_STREAM != 0 {
        CallbackStep::SendEndOfStream
    } else if has_sample {
        CallbackStep::SendSample
    } else if flags & READER_TYPE_CHANGED != 0 && has_reader {
        CallbackStep::InspectFormat
    } else {
        CallbackStep::SendError
    }
}

impl NativeMp4Renderer {
    /// The shared state that a worker starts with.
    pub fn start() -> (renderer: Self)
        ensures
            renderer == (NativeMp4Renderer {
                stop: false,
                paused: false,
                failed: false,
                frames_decoded: 0,
                frames_presented: 0,
                dropped_frame_latency: 0,
                dropped_compositor_busy: 0,
                dropped_late: 0,
                last_present_ms: None,
                callbacks_received: 0,
                last_callback_status: 0,
                last_callback_flags: 0,
                last_request_status: 0,
                finished: false,
            }),
    {
        NativeMp4Renderer {
            stop: false,
            paused: false,
            failed: false,
            frames_decoded: 0,
            frames_presented: 0,
            dropped_frame_latency: 0,
            dropped_compositor_busy: 0,
            dropped_late: 0,
            last_present_ms: None,
            callbacks_received: 0,
            last_callback_status: 0,
            last_callback_flags: 0,
            last_request_status: 0,
            finished: false,
        }
    }

    /// Decides about a starting worker. One that failed or is late is waited
    /// for; one that is late is stopped first.
    pub fn startup(&mut self, signal: StartupSignal) -> (startup: Startup)
        ensures
            match signal {
                StartupSignal::Ready => startup is Started && *final(self) == *old(self),
                StartupSignal::Failed(reason) => {
                    &&& startup == (Startup::Rejected { error: reason, join: true })
                    &&& *final(self) == *old(self)
                },
                StartupSignal::TimedOut => {
                    &&& startup matches Startup::Rejected { error, join }
                    &&& error@ == "Native renderer initialization timed out."@
                    &&& join
                    &&& *final(self) == (NativeMp4Renderer { stop: true, ..*old(self) })
                },
            },
    {
        match signal {
            StartupSignal::Ready => Startup::Started,
            StartupSignal::Failed(reason) => Startup::Rejected { error: reason, join: true },
            StartupSignal::TimedOut => {
                self.stop = true;
                Startup::Rejected {
                    error: String::from_str("Native renderer initialization timed out."),
                    join: true,
                }
            },
        }
    }

    /// Asks the worker to stop, and says whether its thread is waited for. It
    /// always is, so that a stopped wallpaper leaves no swap chain behind.
    pub fn stop(&mut self) -> (join: bool)
        ensures
            join,
            *final(self) == (NativeMp4Renderer { stop: true, ..*old(self) }),
    {
        self.stop = true;
        true
    }

    /// Whether the worker failed: it ended by itself, or has shown nothing for
    /// too long since it started.
    pub fn has_failed(&self, running_ms: u64) -> (failed: bool)
        ensures
            failed == (self.failed || (self.frames_presented == 0 && running_ms
                >= FIRST_FRAME_MS)),
    {
        self.failed || (self.frames_presented == 0 && running_ms >= FIRST_FRAME_MS)
    }

    /// Number of frames that were shown.
    pub fn frames_presented(&self) -> (frames: u64)
        ensures
            frames == self.frames_presented,
    {
        self.frames_presented
    }

    /// Number of times the reader called back.
    pub fn callbacks_received(&self) -> (callbacks: u64)
        ensures
            callbacks == self.callbacks_received,
    {
        self.callbacks_received
    }

    /// Status of the last callback.
    pub fn last_callback_status(&self) -> (status: i32)
        ensures
            status == self.last_callback_status,
    {
        self.last_callback_status
    }

    /// Flags of the last callback.
    pub fn last_callback_flags(&self) -> (flags: u32)
        ensures
            flags == self.last_callback_flags,
    {
        self.last_callback_flags
    }

    /// Status of the last request.
    pub fn last_request_status(&self) -> (status: i32)
        ensures
            status == self.last_request_status,
    {
        self.last_request_status
    }

    /// Number of frames that came out of the decoder, shown or not.
    pub fn frames_decoded(&self) -> (frames: u64)
        ensures
            frames == self.frames_decoded,
    {
        self.frames_decoded
    }

    /// Number of frames that were dropped since no back buffer was free.
    pub fn frames_dropped_frame_latency(&self) -> (frames: u64)
        ensures
            frames == self.dropped_frame_latency,
    {
        self.dropped_frame_latency
    }

    /// Number of frames that the busy compositor refused.
    pub fn frames_dropped_compositor_busy(&self) -> (frames: u64)
        ensures
            frames == self.dropped_compositor_busy,
    {
        self.dropped_compositor_busy
    }

    /// Number of frames that were dropped for being late.
    pub fn frames_dropped_late(&self) -> (frames: u64)
        ensures
            frames == self.dropped_late,
    {
        self.dropped_late
    }

    /// Number of frames that were dropped, for any reason.
    pub fn frames_dropped(&self) -> (frames: u64)
        ensures
            frames == (self.dropped_frame_latency + self.dropped_compositor_busy
                + self.dropped_late) % 0x1_0000_0000_0000_0000,
    {
        self.dropped_frame_latency.wrapping_add(self.dropped_compositor_busy).wrapping_add(
            self.dropped_late,
        )
    }

    /// Milliseconds since a frame was last shown, or the largest number where
    /// none was.
    pub fn last_present_age_ms(&self, running_ms: u64) -> (age: u64)
        ensures
            age == (match self.last_present_ms {
                None => u64::MAX as int,
                Some(shown) => if shown <= running_ms {
                    running_ms - shown
                } else {
                    0
                },
            }),
    {
        match self.last_present_ms {
            None => u64::MAX,
            Some(shown) => running_ms.saturating_sub(shown),
        }
    }

    /// Takes over the counts of the worker. Where the number of frames that were
    /// shown has changed, one has just been shown.
    pub fn frames_counted(&mut self, counts: FrameCounts, running_ms: u64)
        ensures
            *final(self) == (NativeMp4Renderer {
                frames_decoded: counts.decoded,
                frames_presented: counts.presented,
                dropped_frame_latency: counts.frame_latency,
                dropped_compositor_busy: counts.compositor_busy,
                last_present_ms: if counts.presented != old(self).frames_presented {
                    Some(running_ms)
                } else {
                    old(self).last_present_ms
                },
                ..*old(self)
            }),
    {
        if counts.presented != self.frames_presented {
            self.last_present_ms = Some(running_ms);
        }
        self.frames_decoded = counts.decoded;
        self.frames_presented = counts.presented;
        self.dropped_frame_latency = counts.frame_latency;
        self.dropped_compositor_busy = counts.compositor_busy;
    }

    /// Asks the worker to pause or to resume.
    pub fn set_paused(&mut self, paused: bool)
        ensures
            *final(self) == (NativeMp4Renderer { paused, ..*old(self) }),
    {
        self.paused = paused;
    }

    /// Records the end of the worker: it is a failure unless it was asked for.
    pub fn worker_ended(&mut self)
        ensures
            *final(self) == (NativeMp4Renderer {
                failed: old(self).failed || !old(self).stop,
                finished: true,
                ..*old(self)
            }),
    {
        if !self.stop {
            self.failed = true;
        }
        self.finished = true;
    }

    /// Whether the next sample is requested: not from a stopped worker, nor
    /// without a reader.
    pub fn request_next(&self, has_reader: bool) -> (request: bool)
        ensures
            request == (!self.stop && has_reader),
    {
        !self.stop && has_reader
    }

    /// Records the status of a request: zero where it was accepted.
    pub fn request_made(&mut self, error: Option<i32>)
        ensures
            *final(self) == (NativeMp4Renderer {
                last_request_status: match error {
                    Some(status) => status,
                    None => 0,
                },
                ..*old(self)
            }),
    {
        self.last_request_status = match error {
            Some(status) => status,
            None => 0,
        };
    }

    /// Records a callback of the reader and says what it does.
    pub fn on_read_sample(
        &mut self,
        status: i32,
        flags: u32,
        has_sample: bool,
        has_reader: bool,
    ) -> (step: CallbackStep)
        ensures
            step == callback_step(old(self).stop, status, flags, has_sample, has_reader),
            *final(self) == (NativeMp4Renderer {
                callbacks_received: counted_up(old(self).callbacks_received),
                last_callback_status: status,
                last_callback_flags: flags,
                ..*old(self)
            }),
    {
        self.callbacks_received = self.callbacks_received.wrapping_add(1);
        self.last_callback_status = status;
        self.last_callback_flags = flags;
        if self.stop {
            CallbackStep::Return
        } else if status < 0 {
            CallbackStep::SendError
        } else if flags & READER_END_OF_STREAM != 0 {
            CallbackStep::SendEndOfStream
        } else if has_sample {
            CallbackStep::SendSample
        } else if flags & READER_TYPE_CHANGED != 0 && has_reader {
            CallbackStep::InspectFormat
        } else {
            CallbackStep::SendError
        }
    }
}

/// What the callback does after a step that worked or did not: a sample or a
/// format that cannot be handed on is an error, of which the loop is told.
pub fn after_callback_step(step: CallbackStep, worked: bool) -> (next: CallbackStep)
    ensures
        next == (match step {
            CallbackStep::SendSample => if worked {
                CallbackStep::Return
            } else {
                CallbackStep::SendError
            },
            CallbackStep::InspectFormat => if worked {
                CallbackStep::ConfigureOutput
            } else {
                CallbackStep::SendError
            },
            CallbackStep::ConfigureOutput => if worked {
                CallbackStep::SendFormatChanged
            } else {
                CallbackStep::SendError
            },
            _ => CallbackStep::Return,
        }),
{
    match step {
        CallbackStep::SendSample => if worked {
            CallbackStep::Return
        } else {
            CallbackStep::SendError
        },
        CallbackStep::InspectFormat => if worked {
            CallbackStep::ConfigureOutput
        } else {
            CallbackStep::SendError
        },
        CallbackStep::ConfigureOutput => if worked {
            CallbackStep::SendFormatChanged
        } else {
            CallbackStep::SendError
        },
        _ => CallbackStep::Return,
    }
}

/// What is read of a media type that a reader has changed to; each part may
/// have failed to be read.
pub struct RenegotiatedType {
    pub media_type: Result<(), String>,
    pub major: Result<u128, String>,
    pub subtype: Result<u128, String>,
    pub frame_size: Result<u64, String>,
}

/// Why a changed media type is turned down, if it is.
pub open spec fn renegotiation_error(changed: RenegotiatedType) -> Option<Seq<char>> {
    match (changed.media_type, changed.major, changed.subtype, changed.frame_size) {
        (Err(error), _, _, _) => Some(
            "Could not read the renegotiated media type: "@ + error@,
        ),
        (_, Err(error), _, _) => Some("Renegotiated media type has no major type: "@ + error@),
        (_, Ok(major), subtype, frame_size) => if major != MAJOR_TYPE_VIDEO {
            Some("Renegotiated Source Reader stream is not video."@)
        } else {
            match (subtype, frame_size) {
                (Err(error), _) => Some("Renegotiated video type has no subtype: "@ + error@),
                (Ok(subtype), frame_size) => if subtype != SUBTYPE_NV12 {
                    Some(
                        "Native decoder renegotiated unsupported GPU subtype "@ + identifier_text(
                            subtype as nat,
                        ) + "; expected NV12."@,
                    )
                } else {
                    match frame_size {
                        Err(error) => Some(
                            "Renegotiated video type has no frame size: "@ + error@,
                        ),
                        Ok(size) => if size / 0x1_0000_0000 == 0 || size % 0x1_0000_0000 == 0 {
                            Some("Renegotiated video type has an invalid zero frame size."@)
                        } else {
                            None
                        },
                    }
                },
            }
        },
    }
}

/// Checks a media type that a reader has changed to: it has to be NV12 video of
/// some size. The size is the width, then the height, in 32 bits each.
pub fn inspect_renegotiated_video_format(changed: &RenegotiatedType) -> (result: Result<
    (),
    String,
>)
    ensures
        match renegotiation_error(*changed) {
            None => result is Ok,
            Some(reason) => result matches Err(error) && error@ == reason,
        },
{
    if let Err(error) = &changed.media_type {
        return Err(joined("Could not read the renegotiated media type: ", error.as_str()));
    }
    let major: u128 = match &changed.major {
        Ok(major) => *major,
        Err(error) => return Err(
            joined("Renegotiated media type has no major type: ", error.as_str()),
        ),
    };
    if major != MAJOR_TYPE_VIDEO {
        return Err(String::from_str("Renegotiated Source Reader stream is not video."));
    }
    let subtype: u128 = match &changed.subtype {
        Ok(subtype) => *subtype,
        Err(error) => return Err(
            joined("Renegotiated video type has no subtype: ", error.as_str()),
        ),
    };
    if subtype != SUBTYPE_NV12 {
        let mut error = String::from_str("Native decoder renegotiated unsupported GPU subtype ");
        push_identifier(&mut error, subtype);
        error.append("; expected NV12.");
        return Err(error);
    }
    let size: u64 = match &changed.frame_size {
        Ok(size) => *size,
        Err(error) => return Err(
            joined("Renegotiated video type has no frame size: ", error.as_str()),
        ),
    };
    if size / 0x1_0000_0000 == 0 || size % 0x1_0000_0000 == 0 {
        return Err(String::from_str("Renegotiated video type has an invalid zero frame size."));
    }
    Ok(())
}

/// When a sample is due, in nanoseconds after the first request: at its time,
/// or at once where that lies before the start.
pub open spec fn due_time(timestamp: i64) -> u64 {
    let ticks: int = if timestamp < 0 {
        0
    } else {
        timestamp as int
    };
    if ticks * 100 > u64::MAX {
        u64::MAX
    } else {
        (ticks * 100) as u64
    }
}

fn due_of(timestamp: i64) -> (due: u64)
    ensures
        due == due_time(timestamp),
{
    let ticks: u64 = if timestamp < 0 {
        0
    } else {
        timestamp as u64
    };
    match ticks.checked_mul(100) {
        Some(due) => due,
        None => u64::MAX,
    }
}

/// What ends the render loop with an error.
pub enum RenderFault {
    /// The pipeline could not be created.
    Pipeline(String),
    /// The first sample could not be requested.
    FirstRequest(String),
    /// A later sample could not be requested.
    NextRequest(String),
    /// A frame could not be shown.
    Present(String),
    /// The reader failed.
    Decoder,
}

/// How a fault is reported.
pub fn describe_render_fault(fault: &RenderFault) -> (text: String)
    ensures
        text@ == (match *fault {
            RenderFault::Pipeline(error) => error@,
            RenderFault::FirstRequest(error) => "Could not request the first native frame: "@
                + error@,
            RenderFault::NextRequest(error) => "Could not request the next native frame: "@
                + error@,
            RenderFault::Present(error) => error@,
            RenderFault::Decoder => "The asynchronous native decoder failed."@,
        }),
{
    match fault {
        RenderFault::Pipeline(error) => String::from_str(error.as_str()),
        RenderFault::FirstRequest(error) => joined(
            "Could not request the first native frame: ",
            error.as_str(),
        ),
        RenderFault::NextRequest(error) => joined(
            "Could not request the next native frame: ",
            error.as_str(),
        ),
        RenderFault::Present(error) => String::from_str(error.as_str()),
        RenderFault::Decoder => String::from_str("The asynchronous native decoder failed."),
    }
}

/// What the render loop waits for.
pub enum RenderPhase<S> {
    /// A pipeline.
    Pipeline,
    /// The first request.
    FirstRequest,
    /// That the owner was told of the start.
    Report,
    /// The next round.
    Round,
    /// An event of the callback.
    Receive,
    /// The time at which a sample is due.
    Pace { sample: S, due: u64 },
    /// A frame is shown.
    Present,
    /// A later request.
    NextRequest,
    /// The end of the stream was reached.
    EndOfStream,
    /// Nothing: the loop is over.
    Over,
}

/// What came of the last action.
pub enum RenderEvent<S> {
    /// The pipeline was created, or not.
    PipelineCreated(Result<(), String>),
    /// A sample was requested, or not.
    Requested(Result<(), String>),
    /// The owner was told.
    Reported,
    /// A round may begin, unless the worker is to stop or to pause.
    Tick { stop: bool, paused: bool },
    /// The callback handed over an event.
    Received(DecodeEvent<S>),
    /// The callback handed over nothing for a while.
    Quiet,
    /// The callback is gone.
    Disconnected,
    /// The time since the first request, in nanoseconds.
    Clock { elapsed: u64, stop: bool, paused: bool },
    /// What became of the frame, or why it could not be shown.
    Presented(Result<FrameOutcome, String>),
}

/// What to do next.
pub enum RenderAction<S> {
    /// Create a pipeline.
    CreatePipeline,
    /// Give the reader to the callback and request the first sample.
    FirstRequest,
    /// Tell the owner that the worker runs.
    ReportReady,
    /// See whether the worker is to stop.
    CheckStop,
    /// Wait for an event of the callback, for at most 100 milliseconds.
    Receive,
    /// Sleep for ten milliseconds, for which the clock stands still, then see
    /// whether to stop.
    Rest,
    /// Read the clock.
    ReadClock,
    /// Sleep for ten milliseconds, for which the clock stands still, then read
    /// the clock.
    Hold,
    /// Sleep for so many nanoseconds, then read the clock.
    Sleep(u64),
    /// Show the frame.
    Present(S),
    /// Publish the counts and request the next sample.
    NextRequest,
    /// Give up what depends on the old format, then see whether to stop.
    DropProcessor,
    /// Take the reader from the callback, then see whether to stop.
    Detach,
    /// End the loop. Where `flush` is set, the reader is flushed first.
    Finish { flush: bool },
    /// End the loop with an error. Where `report` is set, the owner waits to be
    /// told of the start, and is told of the error.
    Fail { fault: RenderFault, report: bool },
    /// The event does not answer the last action.
    Unexpected,
}

/// The state of the render loop.
pub struct RenderLoop<S> {
    pub phase: RenderPhase<S>,
    /// Whether the owner was told of the start.
    pub reported: bool,
    /// The frames so far.
    pub counts: FrameCounts,
}

impl<S> RenderLoop<S> {
    /// The loop fails.
    pub open spec fn fails(self, fault: RenderFault) -> (RenderLoop<S>, RenderAction<S>) {
        (
            RenderLoop { phase: RenderPhase::Over, reported: true, counts: self.counts },
            RenderAction::Fail { fault, report: !self.reported },
        )
    }

    /// Whether the loop rests: it is to pause, and a picture is on the screen.
    pub open spec fn rests(self, paused: bool) -> bool {
        paused && self.counts.presented > 0
    }

    /// The loop goes on to wait in a phase.
    pub open spec fn waits(self, phase: RenderPhase<S>, action: RenderAction<S>) -> (
        RenderLoop<S>,
        RenderAction<S>,
    ) {
        (RenderLoop { phase, reported: self.reported, counts: self.counts }, action)
    }

    /// What the loop does after an event.
    pub open spec fn after(self, event: RenderEvent<S>) -> (RenderLoop<S>, RenderAction<S>) {
        match (self.phase, event) {
            (RenderPhase::Pipeline, RenderEvent::PipelineCreated(result)) => match result {
                Ok(()) => self.waits(RenderPhase::FirstRequest, RenderAction::FirstRequest),
                Err(error) => self.fails(RenderFault::Pipeline(error)),
            },
            (RenderPhase::FirstRequest, RenderEvent::Requested(result)) => match result {
                Ok(()) => if self.reported {
                    self.waits(RenderPhase::Round, RenderAction::CheckStop)
                } else {
                    self.waits(RenderPhase::Report, RenderAction::ReportReady)
                },
                Err(error) => self.fails(RenderFault::FirstRequest(error)),
            },
            (RenderPhase::Report, RenderEvent::Reported) => (
                RenderLoop { phase: RenderPhase::Round, reported: true, counts: self.counts },
                RenderAction::CheckStop,
            ),
            (RenderPhase::Round, RenderEvent::Tick { stop, paused }) => if stop {
                self.waits(RenderPhase::Over, RenderAction::Finish { flush: true })
            } else if self.rests(paused) {
                self.waits(RenderPhase::Round, RenderAction::Rest)
            } else {
                self.waits(RenderPhase::Receive, RenderAction::Receive)
            },
            (RenderPhase::Receive, RenderEvent::Received(decoded)) => match decoded {
                DecodeEvent::Sample(sample, timestamp) => self.waits(
                    RenderPhase::Pace { sample, due: due_time(timestamp) },
                    RenderAction::ReadClock,
                ),
                DecodeEvent::FormatChanged => self.waits(
                    RenderPhase::Round,
                    RenderAction::DropProcessor,
                ),
                DecodeEvent::EndOfStream => self.waits(
                    RenderPhase::EndOfStream,
                    RenderAction::Detach,
                ),
                DecodeEvent::Error => self.fails(RenderFault::Decoder),
            },
            (RenderPhase::Receive, RenderEvent::Quiet) => self.waits(
                RenderPhase::Round,
                RenderAction::CheckStop,
            ),
            (RenderPhase::Receive, RenderEvent::Disconnected) => self.fails(RenderFault::Decoder),
            (RenderPhase::Pace { sample, due }, RenderEvent::Clock { elapsed, stop, paused }) => if stop {
                self.waits(RenderPhase::Round, RenderAction::CheckStop)
            } else if self.rests(paused) {
                (self, RenderAction::Hold)
            } else if due > elapsed {
                (
                    self,
                    RenderAction::Sleep(
                        if due - elapsed < MAX_PACE_NS {
                            (due - elapsed) as u64
                        } else {
                            MAX_PACE_NS
                        },
                    ),
                )
            } else {
                self.waits(RenderPhase::Present, RenderAction::Present(sample))
            },
            (RenderPhase::Present, RenderEvent::Presented(result)) => match result {
                Ok(outcome) => (RenderLoop { counts: self.counts.with(outcome), ..self }).waits(
                    RenderPhase::NextRequest,
                    RenderAction::NextRequest,
                ),
                Err(error) => self.fails(RenderFault::Present(error)),
            },
            (RenderPhase::NextRequest, RenderEvent::Requested(result)) => match result {
                Ok(()) => self.waits(RenderPhase::Round, RenderAction::CheckStop),
                Err(error) => self.fails(RenderFault::NextRequest(error)),
            },
            (RenderPhase::EndOfStream, RenderEvent::Tick { stop, .. }) => if stop {
                self.waits(RenderPhase::Over, RenderAction::Finish { flush: false })
            } else {
                self.waits(RenderPhase::Pipeline, RenderAction::CreatePipeline)
            },
            _ => (self, RenderAction::Unexpected),
        }
    }

    /// A loop that waits for its first pipeline.
    pub fn new() -> (render: Self)
        ensures
            render == (RenderLoop::<S> {
                phase: RenderPhase::Pipeline,
                reported: false,
                counts: FrameCounts {
                    decoded: 0,
                    presented: 0,
                    frame_latency: 0,
                    compositor_busy: 0,
                },
            }),
    {
        RenderLoop {
            phase: RenderPhase::Pipeline,
            reported: false,
            counts: FrameCounts::new(),
        }
    }

    fn fail(self, fault: RenderFault) -> (next: (RenderLoop<S>, RenderAction<S>))
        ensures
            next == self.fails(fault),
    {
        let report: bool = !self.reported;
        (
            RenderLoop { phase: RenderPhase::Over, reported: true, counts: self.counts },
            RenderAction::Fail { fault, report },
        )
    }

    /// Goes on after an event: the loop as it is then, and what to do.
    pub fn run_async_renderer(self, event: RenderEvent<S>) -> (next: (
        RenderLoop<S>,
        RenderAction<S>,
    ))
        ensures
            next == self.after(event),
    {
        let reported: bool = self.reported;
        let mut counts = self.counts;
        match (self.phase, event) {
            (RenderPhase::Pipeline, RenderEvent::PipelineCreated(result)) => match result {
                Ok(()) => (
                    RenderLoop { phase: RenderPhase::FirstRequest, reported, counts },
                    RenderAction::FirstRequest,
                ),
                Err(error) => RenderLoop { phase: RenderPhase::Pipeline, reported, counts }.fail(
                    RenderFault::Pipeline(error),
                ),
            },
            (RenderPhase::FirstRequest, RenderEvent::Requested(result)) => match result {
                Ok(()) => {
                    if reported {
                        (
                            RenderLoop { phase: RenderPhase::Round, reported, counts },
                            RenderAction::CheckStop,
                        )
                    } else {
                        (
                            RenderLoop { phase: RenderPhase::Report, reported, counts },
                            RenderAction::ReportReady,
                        )
                    }
                },
                Err(error) => RenderLoop { phase: RenderPhase::FirstRequest, reported, counts }.fail(
                    RenderFault::FirstRequest(error),
                ),
            },
            (RenderPhase::Report, RenderEvent::Reported) => (
                RenderLoop { phase: RenderPhase::Round, reported: true, counts },
                RenderAction::CheckStop,
            ),
            (RenderPhase::Round, RenderEvent::Tick { stop, paused }) => {
                if stop {
                    (
                        RenderLoop { phase: RenderPhase::Over, reported, counts },
                        RenderAction::Finish { flush: true },
                    )
                } else if paused && counts.presented > 0 {
                    (
                        RenderLoop { phase: RenderPhase::Round, reported, counts },
                        RenderAction::Rest,
                    )
                } else {
                    (RenderLoop { phase: RenderPhase::Receive, reported, counts }, RenderAction::Receive)
                }
            },
            (RenderPhase::Receive, RenderEvent::Received(decoded)) => match decoded {
                DecodeEvent::Sample(sample, timestamp) => (
                    RenderLoop {
                        phase: RenderPhase::Pace { sample, due: due_of(timestamp) },
                        reported,
                        counts,
                    },
                    RenderAction::ReadClock,
                ),
                DecodeEvent::FormatChanged => (
                    RenderLoop { phase: RenderPhase::Round, reported, counts },
                    RenderAction::DropProcessor,
                ),
                DecodeEvent::EndOfStream => (
                    RenderLoop { phase: RenderPhase::EndOfStream, reported, counts },
                    RenderAction::Detach,
                ),
                DecodeEvent::Error => RenderLoop { phase: RenderPhase::Receive, reported, counts }.fail(
                    RenderFault::Decoder,
                ),
            },
            (RenderPhase::Receive, RenderEvent::Quiet) => (
                RenderLoop { phase: RenderPhase::Round, reported, counts },
                RenderAction::CheckStop,
            ),
            (RenderPhase::Receive, RenderEvent::Disconnected) => RenderLoop {
                phase: RenderPhase::Receive,
                reported,
                counts,
            }.fail(RenderFault::Decoder),
            (RenderPhase::Pace { sample, due }, RenderEvent::Clock { elapsed, stop, paused }) => {
                if stop {
                    (RenderLoop { phase: RenderPhase::Round, reported, counts }, RenderAction::CheckStop)
                } else if paused && counts.presented > 0 {
                    (
                        RenderLoop { phase: RenderPhase::Pace { sample, due }, reported, counts },
                        RenderAction::Hold,
                    )
                } else if due > elapsed {
                    let left: u64 = due - elapsed;
                    let pause: u64 = if left < MAX_PACE_NS {
                        left
                    } else {
                        MAX_PACE_NS
                    };
                    (
                        RenderLoop { phase: RenderPhase::Pace { sample, due }, reported, counts },
                        RenderAction::Sleep(pause),
                    )
                } else {
                    (
                        RenderLoop { phase: RenderPhase::Present, reported, counts },
                        RenderAction::Present(sample),
                    )
                }
            },
            (RenderPhase::Present, RenderEvent::Presented(result)) => match result {
                Ok(outcome) => {
                    counts.count(outcome);
                    (
                        RenderLoop { phase: RenderPhase::NextRequest, reported, counts },
                        RenderAction::NextRequest,
                    )
                },
                Err(error) => RenderLoop { phase: RenderPhase::Present, reported, counts }.fail(
                    RenderFault::Present(error),
                ),
            },
            (RenderPhase::NextRequest, RenderEvent::Requested(result)) => match result {
                Ok(()) => (
                    RenderLoop { phase: RenderPhase::Round, reported, counts },
                    RenderAction::CheckStop,
                ),
                Err(error) => RenderLoop { phase: RenderPhase::NextRequest, reported, counts }.fail(
                    RenderFault::NextRequest(error),
                ),
            },
            (RenderPhase::EndOfStream, RenderEvent::Tick { stop, .. }) => {
                if stop {
                    (
                        RenderLoop { phase: RenderPhase::Over, reported, counts },
                        RenderAction::Finish { flush: false },
                    )
                } else {
                    (
                        RenderLoop { phase: RenderPhase::Pipeline, reported, counts },
                        RenderAction::CreatePipeline,
                    )
                }
            },
            (phase, _) => (RenderLoop { phase, reported, counts }, RenderAction::Unexpected),
        }
    }
}

/// The owner is told once: after it was told of the start, it is told neither
/// of a start nor of an error.
pub proof fn the_owner_is_told_once<S>(render: RenderLoop<S>, event: RenderEvent<S>)
    requires
        render.reported,
        render.phase != RenderPhase::<S>::Report,
    ensures
        ({
            let (next, action) = render.after(event);
            &&& next.reported
            &&& next.phase != RenderPhase::<S>::Report
            &&& action != RenderAction::<S>::ReportReady
            &&& action matches RenderAction::Fail { report, .. } ==> !report
        }),
{
}

/// No frame is shown before it is due, and none is shown once the worker is to
/// stop or, with a picture on the screen, to pause.
pub proof fn no_frame_is_early<S>(render: RenderLoop<S>, event: RenderEvent<S>, frame: S)
    requires
        render.after(event).1 == RenderAction::Present(frame),
    ensures
        render.phase matches RenderPhase::Pace { sample, due } && sample == frame && (
        event matches RenderEvent::Clock { elapsed, stop, paused } && due <= elapsed && !stop
            && !render.rests(paused)),
{
}

/// The loop never sleeps long, nor beyond the time at which its frame is due.
pub proof fn pauses_are_short<S>(render: RenderLoop<S>, event: RenderEvent<S>, pause: u64)
    requires
        render.after(event).1 == RenderAction::<S>::Sleep(pause),
    ensures
        0 < pause <= MAX_PACE_NS,
        render.phase matches RenderPhase::Pace { due, .. } && (
        event matches RenderEvent::Clock { elapsed, .. } && elapsed + pause <= due),
{
}

/// A file that has been played to its end is played again, for as long as the
/// worker is not to stop.
pub proof fn the_wallpaper_loops<S>(render: RenderLoop<S>, paused: bool)
    requires
        render.phase == RenderPhase::<S>::Receive,
    ensures
        ({
            let at_end = render.after(RenderEvent::Received(DecodeEvent::EndOfStream)).0;
            &&& at_end.after(RenderEvent::Tick { stop: false, paused }).1
                == RenderAction::<S>::CreatePipeline
            &&& at_end.after(RenderEvent::Tick { stop: true, paused }).1 == (RenderAction::<S>::Finish {
                flush: false,
            })
        }),
{
}

/// Every frame that the swap chain was asked to show is counted once, by what
/// became of it, and nothing else is counted.
pub proof fn every_shown_frame_is_counted<S>(render: RenderLoop<S>, event: RenderEvent<S>)
    ensures
        render.after(event).0.counts == (match (render.phase, event) {
            (RenderPhase::Present, RenderEvent::Presented(Ok(outcome))) => render.counts.with(
                outcome,
            ),
            _ => render.counts,
        }),
{
}

/// A loop that is to pause takes no sample and shows none, once a picture is on
/// the screen.
pub proof fn a_paused_loop_rests<S>(render: RenderLoop<S>, elapsed: u64)
    requires
        render.counts.presented > 0,
    ensures
        render.phase == RenderPhase::<S>::Round ==> render.after(
            RenderEvent::Tick { stop: false, paused: true },
        ) == (render, RenderAction::<S>::Rest),
        render.phase is Pace ==> render.after(
            RenderEvent::Clock { elapsed, stop: false, paused: true },
        ) == (render, RenderAction::<S>::Hold),
{
}

/// While the worker runs, no callback passes unnoticed: the loop is told of
/// something, or the new format is looked into.
pub proof fn no_callback_is_swallowed(
    status: i32,
    flags: u32,
    has_sample: bool,
    has_reader: bool,
)
    ensures
        callback_step(false, status, flags, has_sample, has_reader) != CallbackStep::Return,
        callback_step(true, status, flags, has_sample, has_reader) == CallbackStep::Return,
{
}

/// Every frame that is due is shown, however late it is.
pub proof fn every_due_frame_is_shown<S>(
    render: RenderLoop<S>,
    frame: S,
    due: u64,
    elapsed: u64,
    paused: bool,
)
    requires
        render.phase == (RenderPhase::Pace { sample: frame, due }),
        due <= elapsed,
        !paused || render.counts.presented == 0,
    ensures
        render.after(RenderEvent::Clock { elapsed, stop: false, paused }).0 == (RenderLoop {
            phase: RenderPhase::<S>::Present,
            ..render
        }),
        render.after(RenderEvent::Clock { elapsed, stop: false, paused }).1
            == RenderAction::Present(frame),
{
}

/// A frame that waits for its time leaves the wait only by being shown, or when
/// the worker is to stop: nothing else takes it away.
pub proof fn a_waiting_frame_is_not_lost<S>(
    render: RenderLoop<S>,
    frame: S,
    due: u64,
    event: RenderEvent<S>,
)
    requires
        render.phase == (RenderPhase::Pace { sample: frame, due }),
    ensures
        ({
            let (next, action) = render.after(event);
            ||| next == render
            ||| action == RenderAction::Present(frame)
            ||| event matches RenderEvent::Clock { stop, .. } && stop
        }),
{
}

/// A frame that is not due is waited for: the loop sleeps until it is due, or
/// for five milliseconds where that is longer, and keeps it.
pub proof fn an_early_frame_is_waited_for<S>(
    render: RenderLoop<S>,
    frame: S,
    due: u64,
    elapsed: u64,
)
    requires
        render.phase == (RenderPhase::Pace { sample: frame, due }),
        elapsed < due,
    ensures
        ({
            let (next, action) = render.after(
                RenderEvent::Clock { elapsed, stop: false, paused: false },
            );
            &&& next == render
            &&& action matches RenderAction::Sleep(pause) && (pause == due - elapsed || (pause
                == 5_000_000 && due - elapsed > 5_000_000))
        }),
{
}

/// The time at which a sample is due is its own time, in nanoseconds: at once
/// for one from before the start, and never for one beyond all time.
pub proof fn a_sample_is_due_at_its_time(timestamp: i64)
    ensures
        timestamp <= 0 ==> due_time(timestamp) == 0,
        0 <= timestamp && timestamp * 100 <= u64::MAX ==> due_time(timestamp) == timestamp * 100,
        timestamp * 100 > u64::MAX ==> due_time(timestamp) == u64::MAX,
{
}

/// The life of a frame: a sample that comes in is kept with its time, shown once
/// it is due, counted by what became of it, and followed by one request and the
/// next round. Nothing is requested or counted before it was shown.
pub proof fn a_frame_runs_its_course<S>(
    render: RenderLoop<S>,
    frame: S,
    timestamp: i64,
    elapsed: u64,
    outcome: FrameOutcome,
)
    requires
        render.phase == RenderPhase::<S>::Receive,
        timestamp * 100 <= elapsed,
    ensures
        ({
            let (kept, read) = render.after(
                RenderEvent::Received(DecodeEvent::Sample(frame, timestamp)),
            );
            let (showing, show) = kept.after(
                RenderEvent::Clock { elapsed, stop: false, paused: false },
            );
            let (shown, request) = showing.after(RenderEvent::Presented(Ok(outcome)));
            let (round, check) = shown.after(RenderEvent::Requested(Ok(())));
            let (waiting, receive) = round.after(RenderEvent::Tick { stop: false, paused: false });
            &&& read == RenderAction::<S>::ReadClock
            &&& kept.phase matches RenderPhase::Pace { sample, .. } && sample == frame
            &&& show == RenderAction::Present(frame)
            &&& showing.counts == render.counts
            &&& request == RenderAction::<S>::NextRequest
            &&& shown.counts == render.counts.with(outcome)
            &&& check == RenderAction::<S>::CheckStop
            &&& receive == RenderAction::<S>::Receive
            &&& waiting.phase == render.phase
            &&& waiting.counts == shown.counts
            &&& waiting.reported == render.reported
        }),
{
}

/// A worker starts by creating its pipeline and requesting a sample; the owner
/// is told before anything is received, and no frame is counted.
pub proof fn a_worker_starts_up<S>(render: RenderLoop<S>)
    requires
        render.phase == RenderPhase::<S>::Pipeline,
        !render.reported,
    ensures
        ({
            let (created, request) = render.after(RenderEvent::PipelineCreated(Ok(())));
            let (requested, report) = created.after(RenderEvent::Requested(Ok(())));
            let (reported, check) = requested.after(RenderEvent::Reported);
            let (waiting, receive) = reported.after(
                RenderEvent::Tick { stop: false, paused: false },
            );
            &&& request == RenderAction::<S>::FirstRequest
            &&& report == RenderAction::<S>::ReportReady
            &&& check == RenderAction::<S>::CheckStop
            &&& reported.reported
            &&& receive == RenderAction::<S>::Receive
            &&& waiting.phase == RenderPhase::<S>::Receive
            &&& waiting.counts == render.counts
        }),
{
}

/// A loop of the file goes as the first one, but the owner is not told again,
/// and the counts go on.
pub proof fn a_loop_goes_on_counting<S>(render: RenderLoop<S>)
    requires
        render.phase == RenderPhase::<S>::Receive,
        render.reported,
    ensures
        ({
            let (ended, detach) = render.after(RenderEvent::Received(DecodeEvent::EndOfStream));
            let (again, create) = ended.after(RenderEvent::Tick { stop: false, paused: false });
            let (created, request) = again.after(RenderEvent::PipelineCreated(Ok(())));
            let (round, check) = created.after(RenderEvent::Requested(Ok(())));
            let (waiting, receive) = round.after(RenderEvent::Tick { stop: false, paused: false });
            &&& detach == RenderAction::<S>::Detach
            &&& create == RenderAction::<S>::CreatePipeline
            &&& request == RenderAction::<S>::FirstRequest
            &&& check == RenderAction::<S>::CheckStop
            &&& receive == RenderAction::<S>::Receive
            &&& waiting == render
        }),
{
}

/// While nothing comes, or another format comes, the loop goes on as it was; for
/// another format what depends on the old one is given up.
pub proof fn a_quiet_loop_goes_on<S>(render: RenderLoop<S>)
    requires
        render.phase == RenderPhase::<S>::Receive,
    ensures
        ({
            let (quiet, check) = render.after(RenderEvent::Quiet);
            let (changed, give_up) = render.after(
                RenderEvent::Received(DecodeEvent::FormatChanged),
            );
            let tick = RenderEvent::<S>::Tick { stop: false, paused: false };
            &&& check == RenderAction::<S>::CheckStop
            &&& give_up == RenderAction::<S>::DropProcessor
            &&& quiet.after(tick) == (render, RenderAction::<S>::Receive)
            &&& changed.after(tick) == (render, RenderAction::<S>::Receive)
        }),
{
}

/// A worker that is to stop ends with the next round, with its reader flushed,
/// and a frame that still waits is given up on the way.
pub proof fn a_stopped_loop_ends<S>(render: RenderLoop<S>, elapsed: u64, paused: bool)
    requires
        render.phase == RenderPhase::<S>::Round || render.phase is Pace,
    ensures
        ({
            let round = if render.phase is Pace {
                render.after(RenderEvent::Clock { elapsed, stop: true, paused }).0
            } else {
                render
            };
            let (over, finish) = round.after(RenderEvent::Tick { stop: true, paused });
            &&& finish == (RenderAction::<S>::Finish { flush: true })
            &&& over.phase == RenderPhase::<S>::Over
            &&& over.counts == render.counts
        }),
{
}

/// Every failure ends the loop with its reason, and the owner is told of it
/// exactly where it still waits to be told of the start.
pub proof fn a_failure_ends_the_loop<S>(render: RenderLoop<S>, error: String)
    ensures
        ({
            let result = Err::<(), String>(error);
            let (next, action) = match render.phase {
                RenderPhase::Pipeline => render.after(RenderEvent::PipelineCreated(result)),
                RenderPhase::FirstRequest => render.after(RenderEvent::Requested(result)),
                RenderPhase::Present => render.after(
                    RenderEvent::Presented(Err::<FrameOutcome, String>(error)),
                ),
                RenderPhase::NextRequest => render.after(RenderEvent::Requested(result)),
                _ => render.after(RenderEvent::Disconnected),
            };
            match render.phase {
                RenderPhase::Pipeline | RenderPhase::FirstRequest | RenderPhase::Present
                | RenderPhase::NextRequest | RenderPhase::Receive => {
                    &&& next.phase == RenderPhase::<S>::Over
                    &&& next.counts == render.counts
                    &&& action matches RenderAction::Fail { fault, report } && report
                        == !render.reported && fault == (match render.phase {
                        RenderPhase::Pipeline => RenderFault::Pipeline(error),
                        RenderPhase::FirstRequest => RenderFault::FirstRequest(error),
                        RenderPhase::Present => RenderFault::Present(error),
                        RenderPhase::NextRequest => RenderFault::NextRequest(error),
                        _ => RenderFault::Decoder,
                    })
                },
                _ => true,
            }
        }),
        render.phase == RenderPhase::<S>::Receive ==> render.after(
            RenderEvent::Received(DecodeEvent::Error),
        ) == render.after(RenderEvent::Disconnected),
{
}

/// A loop that is over stays over, and an event out of turn changes nothing.
pub proof fn a_finished_loop_stays_finished<S>(render: RenderLoop<S>, event: RenderEvent<S>)
    ensures
        render.phase == RenderPhase::<S>::Over ==> render.after(event).0 == render,
        render.after(event).1 == RenderAction::<S>::Unexpected ==> render.after(event).0 == render,
{
}

/// One more frame is one more decoded frame, and one more of exactly one kind:
/// shown, dropped for want of a back buffer, or dropped by a busy compositor.
pub proof fn a_frame_is_of_one_kind(counts: FrameCounts, outcome: FrameOutcome)
    requires
        counts.decoded < u64::MAX,
        counts.presented < u64::MAX,
        counts.frame_latency < u64::MAX,
        counts.compositor_busy < u64::MAX,
    ensures
        ({
            let next = counts.with(outcome);
            let shown = next.presented - counts.presented;
            let late = next.frame_latency - counts.frame_latency;
            let busy = next.compositor_busy - counts.compositor_busy;
            &&& next.decoded == counts.decoded + 1
            &&& shown >= 0 && late >= 0 && busy >= 0
            &&& shown + late + busy == 1
            &&& shown == 1 <==> outcome is Presented
            &&& late == 1 <==> outcome is FrameLatency
            &&& busy == 1 <==> outcome is CompositorBusy
        }),
{
}

/// What a callback of a running worker leads to: an error status is an error,
/// whatever came with it; the end of the stream is the end; a sample is handed
/// on; and without a sample only a change of format that a reader can be asked
/// about is not an error.
pub proof fn a_callback_is_judged_by_what_it_brings(
    status: i32,
    flags: u32,
    has_sample: bool,
    has_reader: bool,
)
    ensures
        ({
            let step = callback_step(false, status, flags, has_sample, has_reader);
            let ended = flags & 0x2 != 0;
            let changed = flags & 0x20 != 0;
            &&& step == CallbackStep::SendEndOfStream <==> status >= 0 && ended
            &&& step == CallbackStep::SendSample <==> status >= 0 && !ended && has_sample
            &&& step == CallbackStep::InspectFormat <==> status >= 0 && !ended && !has_sample
                && changed && has_reader
            &&& step == CallbackStep::SendError <==> status < 0 || (!ended && !has_sample && !(
            changed && has_reader))
        }),
{
}

/// A changed media type is accepted exactly where it is video, in NV12, with a
/// width and a height: all of it could be read, and neither side is zero.
pub proof fn only_nv12_video_is_accepted(changed: RenegotiatedType)
    ensures
        renegotiation_error(changed) is None <==> {
            &&& changed.media_type is Ok
            &&& changed.major == Ok::<u128, String>(0x73646976_0000_0010_8000_00aa00389b71)
            &&& changed.subtype == Ok::<u128, String>(0x3231564e_0000_0010_8000_00aa00389b71)
            &&& changed.frame_size matches Ok(size) && size / 0x1_0000_0000 != 0 && size
                % 0x1_0000_0000 != 0
        },
        changed.media_type matches Err(error) ==> renegotiation_error(changed) == Some(
            "Could not read the renegotiated media type: "@ + error@,
        ),
{
}

/// A loop rests only where it is to pause and has shown something: before its
/// first picture, and as long as it is not to pause, it goes on.
pub proof fn a_loop_rests_for_a_pause_alone<S>(render: RenderLoop<S>, paused: bool)
    requires
        render.phase == RenderPhase::<S>::Round,
        !paused || render.counts.presented == 0,
    ensures
        render.after(RenderEvent::Tick { stop: false, paused }).1 == RenderAction::<S>::Receive,
        render.after(RenderEvent::Tick { stop: false, paused }).0.phase
            == RenderPhase::<S>::Receive,
{
}

/// Counters go up by one, and start over only at their end.
pub proof fn counters_go_up(count: u64)
    ensures
        count < u64::MAX ==> counted_up(count) == count + 1,
        count == u64::MAX ==> counted_up(count) == 0,
{
}

} // verus!
