//! The bounded end-to-end run of the direct backend: it requests compressed
//! samples, feeds the decoder, keeps a short queue of decoded frames and hands
//! every frame on. The run is a machine; each thing it wants done is an action,
//! and each outcome is handed back as an event.

use crate::direct_mft::{direct_event, event_meaning, DirectEvent};
use crate::text::{decimal, optional_text, push_decimal, same_text};
use std::collections::VecDeque;
use vstd::prelude::*;
use vstd::string::*;

verus! {

/// Decoder event: input is wanted.
pub const EVENT_NEED_INPUT: u32 = 601;

/// Decoder event: output is there.
pub const EVENT_HAVE_OUTPUT: u32 = 602;

/// How many decoder events one round takes.
pub const MAX_DECODER_EVENTS: u32 = 64;

/// How many compressed samples are kept before no more are requested.
pub const MAX_COMPRESSED_SAMPLES: usize = 8;

/// How many decoded frames are kept.
pub const MAX_DECODED_FRAMES: usize = 3;

/// How many samples one run feeds.
pub const MAX_INPUT_SAMPLES: u32 = 180;

/// What became of a frame that was handed on.
#[derive(Clone, Copy, Debug, PartialEq, Eq, Structural)]
pub enum FrameOutcome {
    /// It was presented.
    Presented,
    /// It was dropped, since no back buffer came free in time.
    FrameLatency,
    /// It was dropped, since the compositor was busy.
    CompositorBusy,
}

/// Whether a setting asks for frames to be decoded and not presented.
pub fn decode_only(setting: &Option<String>) -> (decode_only: bool)
    ensures
        decode_only == (optional_text(*setting) == Some("1"@)),
{
    match setting {
        Some(setting) => same_text(setting.as_str(), "1"),
        None => false,
    }
}

/// What a run did.
#[derive(Clone, Copy, Debug, PartialEq, Eq, Structural)]
pub struct NativeSmokeStats {
    pub input_samples: u32,
    /// Frames that were presented.
    pub output_frames: u32,
    /// Frames that found no back buffer in time.
    pub dropped_frame_latency: u32,
    /// Frames that the busy compositor refused.
    pub dropped_compositor_busy: u32,
}

impl Default for NativeSmokeStats {
    fn default() -> (stats: Self)
        ensures
            stats == (NativeSmokeStats {
                input_samples: 0,
                output_frames: 0,
                dropped_frame_latency: 0,
                dropped_compositor_busy: 0,
            }),
    {
        NativeSmokeStats {
            input_samples: 0,
            output_frames: 0,
            dropped_frame_latency: 0,
            dropped_compositor_busy: 0,
        }
    }
}

/// What a run waits for.
#[derive(Clone, Copy, Debug, PartialEq, Eq, Structural)]
pub enum SmokePhase {
    /// The next round.
    Round,
    /// A decoder event, after this many in the round.
    DecoderEvent(u32),
    /// A frame is handed on to make room for output that the decoder has
    /// announced, after this many events.
    MakeRoom(u32),
    /// Output that the decoder has announced, after this many events.
    AnnouncedOutput(u32),
    /// The decoder takes a sample that it asked for.
    Feed,
    /// A frame is handed on.
    Present,
    /// An event of the source.
    SourceEvent,
    /// The stream is opened.
    OpenStream,
    /// An event of the stream.
    StreamEvent,
    /// The sample of a stream event.
    TakeSample,
    /// A decoder without events takes a sample.
    Decode,
    /// A frame is handed on to make room for output of such a decoder.
    MakeRoomToDrain(u32),
    /// Output of such a decoder; it is drained this many times more.
    Drain(u32),
    /// A sample is requested.
    RequestSample,
    /// A frame is handed on at the end of the round.
    PresentRest,
    /// Nothing: the run is over.
    Over,
}

/// What came of the last action.
pub enum SmokeEvent<S, F> {
    /// A round may begin, as long as time is left.
    Tick { time_left: bool },
    /// An event of that kind was there, or none.
    Polled(Option<u32>),
    /// The decoder gave a frame, or has none.
    Output(Option<F>),
    /// The decoder took the sample that it asked for.
    Fed,
    /// A frame was handed on.
    Presented(FrameOutcome),
    /// The stream was opened.
    StreamOpened,
    /// The sample of the event.
    Sample(S),
    /// A decoder without events was given a sample, and is drained this many
    /// times.
    Decoded { drains: u32 },
    /// The sample was requested.
    Requested,
}

/// What to do next.
pub enum SmokeAction<S, F> {
    /// Take an event of the decoder, if one is there.
    PollDecoder,
    /// Pull output from the decoder.
    PullOutput,
    /// Give the decoder the sample that it asked for.
    Feed(S),
    /// Hand on the frame.
    Present(F),
    /// Take an event of the source, if one is there.
    PollSource,
    /// Open the stream that the event brought.
    OpenStream,
    /// Take an event of the stream, if one is there.
    PollStream,
    /// Take the sample that the event brought.
    TakeSample,
    /// Give the sample to a decoder without events.
    Decode(S),
    /// Request a sample from the stream.
    RequestSample,
    /// Pause for so many milliseconds, then begin the next round.
    Pause(u64),
    /// Shut the source down and report the result.
    Finish,
    /// The event does not answer the last action.
    Unexpected,
}

/// The state of a run.
pub struct SmokeTest<S, F> {
    pub asynchronous: bool,
    pub phase: SmokePhase,
    pub compressed: VecDeque<S>,
    pub frames: VecDeque<F>,
    pub wanted_inputs: u32,
    pub stream_open: bool,
    pub stream_started: bool,
    pub sample_requested: bool,
    pub stats: NativeSmokeStats,
}

/// What a run looks like from outside.
pub ghost struct SmokeView<S, F> {
    pub asynchronous: bool,
    pub phase: SmokePhase,
    pub compressed: Seq<S>,
    pub frames: Seq<F>,
    pub wanted_inputs: u32,
    pub stream_open: bool,
    pub stream_started: bool,
    pub sample_requested: bool,
    pub stats: NativeSmokeStats,
}

impl<S, F> View for SmokeTest<S, F> {
    type V = SmokeView<S, F>;

    open spec fn view(&self) -> SmokeView<S, F> {
        SmokeView {
            asynchronous: self.asynchronous,
            phase: self.phase,
            compressed: self.compressed@,
            frames: self.frames@,
            wanted_inputs: self.wanted_inputs,
            stream_open: self.stream_open,
            stream_started: self.stream_started,
            sample_requested: self.sample_requested,
            stats: self.stats,
        }
    }
}

/// The counts after a frame was handed on, by what became of it.
pub open spec fn counted(stats: NativeSmokeStats, outcome: FrameOutcome) -> NativeSmokeStats {
    match outcome {
        FrameOutcome::Presented => NativeSmokeStats {
            output_frames: (stats.output_frames + 1) as u32,
            ..stats
        },
        FrameOutcome::FrameLatency => NativeSmokeStats {
            dropped_frame_latency: (stats.dropped_frame_latency + 1) as u32,
            ..stats
        },
        FrameOutcome::CompositorBusy => NativeSmokeStats {
            dropped_compositor_busy: (stats.dropped_compositor_busy + 1) as u32,
            ..stats
        },
    }
}

/// How many frames came out of the decoder and were handed on.
pub open spec fn decoded_frames(stats: NativeSmokeStats) -> int {
    stats.output_frames + stats.dropped_frame_latency + stats.dropped_compositor_busy
}

impl<S, F> SmokeView<S, F> {
    /// What holds in every phase: the queue of frames is bounded, there is room
    /// in it where output is pulled, and where a round has moved on from its
    /// frames none are left.
    pub open spec fn wf(self) -> bool {
        &&& self.frames.len() <= MAX_DECODED_FRAMES
        &&& self.phase == SmokePhase::Feed ==> self.wanted_inputs > 0
        &&& match self.phase {
            SmokePhase::DecoderEvent(polls) => polls < MAX_DECODER_EVENTS,
            SmokePhase::MakeRoom(polls) => polls < MAX_DECODER_EVENTS && self.frames.len()
                < MAX_DECODED_FRAMES,
            SmokePhase::AnnouncedOutput(polls) => polls < MAX_DECODER_EVENTS && self.frames.len()
                < MAX_DECODED_FRAMES,
            SmokePhase::MakeRoomToDrain(_) => !self.asynchronous && self.frames.len()
                < MAX_DECODED_FRAMES,
            SmokePhase::Drain(_) => !self.asynchronous && self.frames.len() < MAX_DECODED_FRAMES,
            SmokePhase::Feed | SmokePhase::Present => true,
            SmokePhase::RequestSample => self.asynchronous ==> self.frames.len() == 0,
            SmokePhase::PresentRest => !self.asynchronous,
            SmokePhase::Decode => !self.asynchronous && self.frames.len() == 0,
            _ => self.frames.len() == 0,
        }
    }

    /// Whether each count has room for one more.
    pub open spec fn counts_fit(self) -> bool {
        &&& self.stats.input_samples < u32::MAX
        &&& self.stats.output_frames < u32::MAX
        &&& self.stats.dropped_frame_latency < u32::MAX
        &&& self.stats.dropped_compositor_busy < u32::MAX
    }

    /// The round ends with a pause.
    pub open spec fn pause(self, milliseconds: u64) -> (SmokeView<S, F>, SmokeAction<S, F>) {
        (SmokeView { phase: SmokePhase::Round, ..self }, SmokeAction::Pause(milliseconds))
    }

    /// At the end of a round, a decoder without events has its frames handed on.
    pub open spec fn present_rest(self) -> (SmokeView<S, F>, SmokeAction<S, F>) {
        if !self.asynchronous && self.frames.len() > 0 {
            (
                SmokeView {
                    phase: SmokePhase::PresentRest,
                    frames: self.frames.skip(1),
                    ..self
                },
                SmokeAction::Present(self.frames[0]),
            )
        } else {
            self.pause(1)
        }
    }

    /// A sample is requested when the stream has started, none is on its way,
    /// and neither the backlog nor the run is full.
    pub open spec fn request(self) -> (SmokeView<S, F>, SmokeAction<S, F>) {
        if self.stream_started && !self.sample_requested && self.compressed.len()
            < MAX_COMPRESSED_SAMPLES && self.stats.input_samples < MAX_INPUT_SAMPLES {
            (SmokeView { phase: SmokePhase::RequestSample, ..self }, SmokeAction::RequestSample)
        } else {
            self.present_rest()
        }
    }

    /// Every frame is handed on, oldest first; then the source has its turn.
    pub open spec fn present(self) -> (SmokeView<S, F>, SmokeAction<S, F>) {
        if self.frames.len() > 0 {
            (
                SmokeView { phase: SmokePhase::Present, frames: self.frames.skip(1), ..self },
                SmokeAction::Present(self.frames[0]),
            )
        } else if self.stream_open {
            (SmokeView { phase: SmokePhase::StreamEvent, ..self }, SmokeAction::PollStream)
        } else {
            (SmokeView { phase: SmokePhase::SourceEvent, ..self }, SmokeAction::PollSource)
        }
    }

    /// Samples are fed, oldest first, as long as the decoder wants them.
    pub open spec fn feed(self) -> (SmokeView<S, F>, SmokeAction<S, F>) {
        if self.wanted_inputs > 0 && self.compressed.len() > 0 {
            (
                SmokeView { phase: SmokePhase::Feed, compressed: self.compressed.skip(1), ..self },
                SmokeAction::Feed(self.compressed[0]),
            )
        } else {
            self.present()
        }
    }

    /// After `polls` decoder events of the round comes the next one, or the
    /// feeding.
    pub open spec fn poll_decoder(self, polls: u32) -> (SmokeView<S, F>, SmokeAction<S, F>) {
        if polls < MAX_DECODER_EVENTS {
            (
                SmokeView { phase: SmokePhase::DecoderEvent(polls), ..self },
                SmokeAction::PollDecoder,
            )
        } else {
            self.feed()
        }
    }

    /// Announced output is pulled. While the queue is full, its oldest frame is
    /// handed on first.
    pub open spec fn pull_announced(self, polls: u32) -> (SmokeView<S, F>, SmokeAction<S, F>) {
        if self.frames.len() == MAX_DECODED_FRAMES {
            (
                SmokeView {
                    phase: SmokePhase::MakeRoom(polls),
                    frames: self.frames.skip(1),
                    ..self
                },
                SmokeAction::Present(self.frames[0]),
            )
        } else {
            (
                SmokeView { phase: SmokePhase::AnnouncedOutput(polls), ..self },
                SmokeAction::PullOutput,
            )
        }
    }

    /// A decoder without events is drained. While the queue is full, its oldest
    /// frame is handed on first.
    pub open spec fn drain(self, drains: u32) -> (SmokeView<S, F>, SmokeAction<S, F>) {
        if self.frames.len() == MAX_DECODED_FRAMES {
            (
                SmokeView {
                    phase: SmokePhase::MakeRoomToDrain(drains),
                    frames: self.frames.skip(1),
                    ..self
                },
                SmokeAction::Present(self.frames[0]),
            )
        } else {
            (SmokeView { phase: SmokePhase::Drain(drains), ..self }, SmokeAction::PullOutput)
        }
    }

    /// What a run does after an event.
    pub open spec fn after(self, event: SmokeEvent<S, F>) -> (SmokeView<S, F>, SmokeAction<S, F>) {
        match (self.phase, event) {
            (SmokePhase::Round, SmokeEvent::Tick { time_left }) => if !time_left
                || self.stats.input_samples >= MAX_INPUT_SAMPLES {
                (SmokeView { phase: SmokePhase::Over, ..self }, SmokeAction::Finish)
            } else if self.asynchronous {
                self.poll_decoder(0)
            } else {
                self.present()
            },
            (SmokePhase::DecoderEvent(polls), SmokeEvent::Polled(kind)) => match kind {
                None => self.feed(),
                Some(kind) => if kind == EVENT_NEED_INPUT {
                    (SmokeView {
                        wanted_inputs: if self.wanted_inputs < u32::MAX {
                            (self.wanted_inputs + 1) as u32
                        } else {
                            u32::MAX
                        },
                        ..self
                    }).poll_decoder((polls + 1) as u32)
                } else if kind == EVENT_HAVE_OUTPUT {
                    self.pull_announced(polls)
                } else {
                    self.poll_decoder((polls + 1) as u32)
                },
            },
            (SmokePhase::MakeRoom(polls), SmokeEvent::Presented(outcome)) => (SmokeView {
                stats: counted(self.stats, outcome),
                ..self
            }).pull_announced(polls),
            (SmokePhase::AnnouncedOutput(polls), SmokeEvent::Output(frame)) => match frame {
                Some(frame) => (SmokeView {
                    frames: self.frames.push(frame),
                    ..self
                }).poll_decoder((polls + 1) as u32),
                None => self.poll_decoder((polls + 1) as u32),
            },
            (SmokePhase::Feed, SmokeEvent::Fed) => (SmokeView {
                wanted_inputs: (self.wanted_inputs - 1) as u32,
                stats: NativeSmokeStats {
                    input_samples: (self.stats.input_samples + 1) as u32,
                    ..self.stats
                },
                ..self
            }).feed(),
            (SmokePhase::Present, SmokeEvent::Presented(outcome)) => (SmokeView {
                stats: counted(self.stats, outcome),
                ..self
            }).present(),
            (SmokePhase::SourceEvent, SmokeEvent::Polled(kind)) => match kind {
                None => self.pause(3),
                Some(_) => if event_meaning(false, kind) == DirectEvent::OpenStream {
                    (SmokeView { phase: SmokePhase::OpenStream, ..self }, SmokeAction::OpenStream)
                } else {
                    self.pause(1)
                },
            },
            (SmokePhase::OpenStream, SmokeEvent::StreamOpened) => (SmokeView {
                stream_open: true,
                ..self
            }).pause(1),
            (SmokePhase::StreamEvent, SmokeEvent::Polled(kind)) => match event_meaning(
                true,
                kind,
            ) {
                DirectEvent::StreamStarted => (SmokeView {
                    stream_started: true,
                    ..self
                }).request(),
                DirectEvent::TakeSample => (
                    SmokeView { phase: SmokePhase::TakeSample, sample_requested: false, ..self },
                    SmokeAction::TakeSample,
                ),
                _ => self.request(),
            },
            (SmokePhase::TakeSample, SmokeEvent::Sample(sample)) => if self.asynchronous {
                (SmokeView { compressed: self.compressed.push(sample), ..self }).request()
            } else {
                (SmokeView { phase: SmokePhase::Decode, ..self }, SmokeAction::Decode(sample))
            },
            (SmokePhase::Decode, SmokeEvent::Decoded { drains }) => self.drain(drains),
            (SmokePhase::MakeRoomToDrain(drains), SmokeEvent::Presented(outcome)) => (SmokeView {
                stats: counted(self.stats, outcome),
                ..self
            }).drain(drains),
            (SmokePhase::Drain(drains), SmokeEvent::Output(frame)) => match frame {
                Some(frame) => (SmokeView { frames: self.frames.push(frame), ..self }).drain(
                    drains,
                ),
                None => if drains > 1 {
                    self.drain((drains - 1) as u32)
                } else {
                    (SmokeView {
                        stats: NativeSmokeStats {
                            input_samples: (self.stats.input_samples + 1) as u32,
                            ..self.stats
                        },
                        ..self
                    }).request()
                },
            },
            (SmokePhase::RequestSample, SmokeEvent::Requested) => (SmokeView {
                sample_requested: true,
                ..self
            }).present_rest(),
            (SmokePhase::PresentRest, SmokeEvent::Presented(outcome)) => (SmokeView {
                stats: counted(self.stats, outcome),
                ..self
            }).present_rest(),
            _ => (self, SmokeAction::Unexpected),
        }
    }
}

impl<S, F> SmokeTest<S, F> {
    /// A run in which nothing has happened, of a decoder with events or of one
    /// without.
    pub fn new(asynchronous: bool) -> (test: Self)
        ensures
            test@.wf(),
            test@.counts_fit(),
            test@ == (SmokeView::<S, F> {
                asynchronous,
                phase: SmokePhase::Round,
                compressed: Seq::empty(),
                frames: Seq::empty(),
                wanted_inputs: 0,
                stream_open: false,
                stream_started: false,
                sample_requested: false,
                stats: NativeSmokeStats {
                    input_samples: 0,
                    output_frames: 0,
                    dropped_frame_latency: 0,
                    dropped_compositor_busy: 0,
                },
            }),
    {
        SmokeTest {
            asynchronous,
            phase: SmokePhase::Round,
            compressed: VecDeque::with_capacity(8),
            frames: VecDeque::with_capacity(3),
            wanted_inputs: 0,
            stream_open: false,
            stream_started: false,
            sample_requested: false,
            stats: NativeSmokeStats::default(),
        }
    }

    /// Whether each count has room for one more.
    pub fn counts_fit(&self) -> (fit: bool)
        ensures
            fit == self@.counts_fit(),
    {
        self.stats.input_samples < u32::MAX && self.stats.output_frames < u32::MAX
            && self.stats.dropped_frame_latency < u32::MAX && self.stats.dropped_compositor_busy
            < u32::MAX
    }

    fn pause(&mut self, milliseconds: u64) -> (action: SmokeAction<S, F>)
        ensures
            (final(self)@, action) == old(self)@.pause(milliseconds),
    {
        self.phase = SmokePhase::Round;
        SmokeAction::Pause(milliseconds)
    }

    fn present_rest(&mut self) -> (action: SmokeAction<S, F>)
        ensures
            (final(self)@, action) == old(self)@.present_rest(),
    {
        if !self.asynchronous {
            if let Some(frame) = self.frames.pop_front() {
                assert(self.frames@ =~= old(self).frames@.skip(1));
                self.phase = SmokePhase::PresentRest;
                return SmokeAction::Present(frame);
            }
        }
        self.pause(1)
    }

    fn request(&mut self) -> (action: SmokeAction<S, F>)
        ensures
            (final(self)@, action) == old(self)@.request(),
    {
        if self.stream_started && !self.sample_requested && self.compressed.len()
            < MAX_COMPRESSED_SAMPLES && self.stats.input_samples < MAX_INPUT_SAMPLES {
            self.phase = SmokePhase::RequestSample;
            SmokeAction::RequestSample
        } else {
            self.present_rest()
        }
    }

    fn present(&mut self) -> (action: SmokeAction<S, F>)
        ensures
            (final(self)@, action) == old(self)@.present(),
    {
        if let Some(frame) = self.frames.pop_front() {
            assert(self.frames@ =~= old(self).frames@.skip(1));
            self.phase = SmokePhase::Present;
            SmokeAction::Present(frame)
        } else if self.stream_open {
            self.phase = SmokePhase::StreamEvent;
            SmokeAction::PollStream
        } else {
            self.phase = SmokePhase::SourceEvent;
            SmokeAction::PollSource
        }
    }

    fn feed(&mut self) -> (action: SmokeAction<S, F>)
        ensures
            (final(self)@, action) == old(self)@.feed(),
    {
        if self.wanted_inputs > 0 {
            if let Some(sample) = self.compressed.pop_front() {
                assert(self.compressed@ =~= old(self).compressed@.skip(1));
                self.phase = SmokePhase::Feed;
                return SmokeAction::Feed(sample);
            }
        }
        self.present()
    }

    fn poll_decoder(&mut self, polls: u32) -> (action: SmokeAction<S, F>)
        ensures
            (final(self)@, action) == old(self)@.poll_decoder(polls),
    {
        if polls < MAX_DECODER_EVENTS {
            self.phase = SmokePhase::DecoderEvent(polls);
            SmokeAction::PollDecoder
        } else {
            self.feed()
        }
    }

    fn pull_announced(&mut self, polls: u32) -> (action: SmokeAction<S, F>)
        requires
            old(self)@.frames.len() <= MAX_DECODED_FRAMES,
        ensures
            (final(self)@, action) == old(self)@.pull_announced(polls),
    {
        if self.frames.len() == MAX_DECODED_FRAMES {
            if let Some(frame) = self.frames.pop_front() {
                assert(self.frames@ =~= old(self).frames@.skip(1));
                self.phase = SmokePhase::MakeRoom(polls);
                return SmokeAction::Present(frame);
            }
        }
        self.phase = SmokePhase::AnnouncedOutput(polls);
        SmokeAction::PullOutput
    }

    fn drain(&mut self, drains: u32) -> (action: SmokeAction<S, F>)
        requires
            old(self)@.frames.len() <= MAX_DECODED_FRAMES,
        ensures
            (final(self)@, action) == old(self)@.drain(drains),
    {
        if self.frames.len() == MAX_DECODED_FRAMES {
            if let Some(frame) = self.frames.pop_front() {
                assert(self.frames@ =~= old(self).frames@.skip(1));
                self.phase = SmokePhase::MakeRoomToDrain(drains);
                return SmokeAction::Present(frame);
            }
        }
        self.phase = SmokePhase::Drain(drains);
        SmokeAction::PullOutput
    }

    fn count(&mut self, outcome: FrameOutcome)
        requires
            old(self)@.counts_fit(),
        ensures
            final(self)@ == (SmokeView { stats: counted(old(self).stats, outcome), ..old(self)@ }),
    {
        match outcome {
            FrameOutcome::Presented => {
                self.stats.output_frames = self.stats.output_frames + 1;
            },
            FrameOutcome::FrameLatency => {
                self.stats.dropped_frame_latency = self.stats.dropped_frame_latency + 1;
            },
            FrameOutcome::CompositorBusy => {
                self.stats.dropped_compositor_busy = self.stats.dropped_compositor_busy + 1;
            },
        }
    }

    /// Goes on after an event.
    pub fn step(&mut self, event: SmokeEvent<S, F>) -> (action: SmokeAction<S, F>)
        requires
            old(self)@.wf(),
            old(self)@.counts_fit(),
        ensures
            (final(self)@, action) == old(self)@.after(event),
            final(self)@.wf(),
    {
        proof {
            the_frame_queue_is_bounded(self@, event);
        }
        self.advance(event)
    }

    fn advance(&mut self, event: SmokeEvent<S, F>) -> (action: SmokeAction<S, F>)
        requires
            old(self)@.wf(),
            old(self)@.counts_fit(),
        ensures
            (final(self)@, action) == old(self)@.after(event),
    {
        let phase = self.phase;
        match (phase, event) {
            (SmokePhase::Round, SmokeEvent::Tick { time_left }) => {
                if !time_left || self.stats.input_samples >= MAX_INPUT_SAMPLES {
                    self.phase = SmokePhase::Over;
                    SmokeAction::Finish
                } else if self.asynchronous {
                    self.poll_decoder(0)
                } else {
                    self.present()
                }
            },
            (SmokePhase::DecoderEvent(polls), SmokeEvent::Polled(kind)) => match kind {
                None => self.feed(),
                Some(kind) => {
                    if kind == EVENT_NEED_INPUT {
                        self.wanted_inputs = self.wanted_inputs.saturating_add(1);
                        self.poll_decoder(polls + 1)
                    } else if kind == EVENT_HAVE_OUTPUT {
                        self.pull_announced(polls)
                    } else {
                        self.poll_decoder(polls + 1)
                    }
                },
            },
            (SmokePhase::MakeRoom(polls), SmokeEvent::Presented(outcome)) => {
                self.count(outcome);
                self.pull_announced(polls)
            },
            (SmokePhase::AnnouncedOutput(polls), SmokeEvent::Output(frame)) => {
                if let Some(frame) = frame {
                    self.frames.push_back(frame);
                }
                self.poll_decoder(polls + 1)
            },
            (SmokePhase::Feed, SmokeEvent::Fed) => {
                self.wanted_inputs = self.wanted_inputs - 1;
                self.stats.input_samples = self.stats.input_samples + 1;
                self.feed()
            },
            (SmokePhase::Present, SmokeEvent::Presented(outcome)) => {
                self.count(outcome);
                self.present()
            },
            (SmokePhase::SourceEvent, SmokeEvent::Polled(kind)) => {
                if kind.is_none() {
                    self.pause(3)
                } else if direct_event(false, kind) == DirectEvent::OpenStream {
                    self.phase = SmokePhase::OpenStream;
                    SmokeAction::OpenStream
                } else {
                    self.pause(1)
                }
            },
            (SmokePhase::OpenStream, SmokeEvent::StreamOpened) => {
                self.stream_open = true;
                self.pause(1)
            },
            (SmokePhase::StreamEvent, SmokeEvent::Polled(kind)) => match direct_event(
                true,
                kind,
            ) {
                DirectEvent::StreamStarted => {
                    self.stream_started = true;
                    self.request()
                },
                DirectEvent::TakeSample => {
                    self.sample_requested = false;
                    self.phase = SmokePhase::TakeSample;
                    SmokeAction::TakeSample
                },
                _ => self.request(),
            },
            (SmokePhase::TakeSample, SmokeEvent::Sample(sample)) => {
                if self.asynchronous {
                    self.compressed.push_back(sample);
                    self.request()
                } else {
                    self.phase = SmokePhase::Decode;
                    SmokeAction::Decode(sample)
                }
            },
            (SmokePhase::Decode, SmokeEvent::Decoded { drains }) => {
                self.drain(drains)
            },
            (SmokePhase::MakeRoomToDrain(drains), SmokeEvent::Presented(outcome)) => {
                self.count(outcome);
                self.drain(drains)
            },
            (SmokePhase::Drain(drains), SmokeEvent::Output(frame)) => match frame {
                Some(frame) => {
                    self.frames.push_back(frame);
                    self.drain(drains)
                },
                None => {
                    if drains > 1 {
                        self.drain(drains - 1)
                    } else {
                        self.stats.input_samples = self.stats.input_samples + 1;
                        self.request()
                    }
                },
            },
            (SmokePhase::RequestSample, SmokeEvent::Requested) => {
                self.sample_requested = true;
                self.present_rest()
            },
            (SmokePhase::PresentRest, SmokeEvent::Presented(outcome)) => {
                self.count(outcome);
                self.present_rest()
            },
            _ => SmokeAction::Unexpected,
        }
    }

    /// What a run comes to: it fails if no frame was presented.
    pub fn result(&self) -> (result: Result<NativeSmokeStats, String>)
        ensures
            self.stats.output_frames > 0 ==> result == Ok::<NativeSmokeStats, String>(self.stats),
            self.stats.output_frames == 0 ==> (result matches Err(error) && error@
                == "Native smoke test decoded no frames after "@ + decimal(
                self.stats.input_samples as nat,
            ) + " input samples."@),
    {
        if self.stats.output_frames == 0 {
            let mut error = String::from_str("Native smoke test decoded no frames after ");
            push_decimal(&mut error, self.stats.input_samples as u64);
            error.append(" input samples.");
            Err(error)
        } else {
            Ok(self.stats)
        }
    }
}

/// Whether the backlog of compressed samples is within its bound, with room for
/// a sample that is on its way.
pub open spec fn backlog_bounded<S, F>(run: SmokeView<S, F>) -> bool {
    &&& run.compressed.len() <= MAX_COMPRESSED_SAMPLES
    &&& run.sample_requested || run.phase == SmokePhase::TakeSample || run.phase
        == SmokePhase::RequestSample ==> run.compressed.len() < MAX_COMPRESSED_SAMPLES
    &&& run.phase == SmokePhase::TakeSample ==> !run.sample_requested
}

/// As long as samples come only when one was requested, the backlog of
/// compressed samples stays within its bound.
pub proof fn the_backlog_is_bounded<S, F>(run: SmokeView<S, F>, event: SmokeEvent<S, F>)
    requires
        backlog_bounded(run),
        run.phase == SmokePhase::StreamEvent && (event matches SmokeEvent::Polled(kind)
            && event_meaning(true, kind) == DirectEvent::TakeSample) ==> run.sample_requested,
    ensures
        backlog_bounded(run.after(event).0),
{
}

/// At most three decoded frames are kept, whatever the decoder gives.
pub proof fn the_frame_queue_is_bounded<S, F>(run: SmokeView<S, F>, event: SmokeEvent<S, F>)
    requires
        run.wf(),
    ensures
        run.after(event).0.wf(),
        run.after(event).0.frames.len() <= MAX_DECODED_FRAMES,
{
}

/// The frames that an event brings to a run.
pub open spec fn frames_in<S, F>(run: SmokeView<S, F>, event: SmokeEvent<S, F>) -> Seq<F> {
    match (run.phase, event) {
        (SmokePhase::AnnouncedOutput(_), SmokeEvent::Output(Some(frame))) => seq![frame],
        (SmokePhase::Drain(_), SmokeEvent::Output(Some(frame))) => seq![frame],
        _ => Seq::empty(),
    }
}

/// The frames that an action hands on to be presented.
pub open spec fn frames_out<S, F>(action: SmokeAction<S, F>) -> Seq<F> {
    match action {
        SmokeAction::Present(frame) => seq![frame],
        _ => Seq::empty(),
    }
}

/// No frame is lost, doubled or reordered: what was queued, then what was pulled,
/// is what is handed on, then what is still queued.
pub proof fn every_frame_is_handed_on<S, F>(run: SmokeView<S, F>, event: SmokeEvent<S, F>)
    ensures
        ({
            let (next, action) = run.after(event);
            run.frames + frames_in(run, event) == frames_out(action) + next.frames
        }),
{
    let (next, action) = run.after(event);
    let frames = run.frames + frames_in(run, event);
    if let SmokeEvent::Output(Some(frame)) = event {
        assert(run.frames.push(frame) =~= run.frames + seq![frame]);
    }
    assert(run.frames + Seq::<F>::empty() =~= run.frames);
    if let SmokeAction::Present(frame) = action {
        assert(next.frames =~= frames.skip(1));
        assert(frames =~= seq![frames[0]] + frames.skip(1));
    } else {
        assert(next.frames =~= frames);
    }
    assert(frames =~= frames_out(action) + next.frames);
}

/// A run after several events.
pub open spec fn run_after<S, F>(
    run: SmokeView<S, F>,
    events: Seq<SmokeEvent<S, F>>,
) -> SmokeView<S, F>
    decreases events.len(),
{
    if events.len() == 0 {
        run
    } else {
        run_after(run.after(events[0]).0, events.skip(1))
    }
}

/// The frames that are pulled from the decoder in the course of several events.
pub open spec fn all_frames_in<S, F>(
    run: SmokeView<S, F>,
    events: Seq<SmokeEvent<S, F>>,
) -> Seq<F>
    decreases events.len(),
{
    if events.len() == 0 {
        Seq::empty()
    } else {
        frames_in(run, events[0]) + all_frames_in(run.after(events[0]).0, events.skip(1))
    }
}

/// The frames that are handed on in the course of several events.
pub open spec fn all_frames_out<S, F>(
    run: SmokeView<S, F>,
    events: Seq<SmokeEvent<S, F>>,
) -> Seq<F>
    decreases events.len(),
{
    if events.len() == 0 {
        Seq::empty()
    } else {
        frames_out(run.after(events[0]).1) + all_frames_out(
            run.after(events[0]).0,
            events.skip(1),
        )
    }
}

/// Whether a frame that was handed on has not been answered yet.
pub open spec fn presenting(phase: SmokePhase) -> bool {
    phase is MakeRoom || phase is MakeRoomToDrain || phase == SmokePhase::Present || phase
        == SmokePhase::PresentRest
}

proof fn lemma_frames_over_a_run<S, F>(run: SmokeView<S, F>, events: Seq<SmokeEvent<S, F>>)
    requires
        run.wf(),
    ensures
        run_after(run, events).wf(),
        run.frames + all_frames_in(run, events) == all_frames_out(run, events) + run_after(
            run,
            events,
        ).frames,
    decreases events.len(),
{
    if events.len() == 0 {
        assert(run.frames + Seq::<F>::empty() =~= Seq::<F>::empty() + run.frames);
    } else {
        let (next, action) = run.after(events[0]);
        let rest = events.skip(1);
        every_frame_is_handed_on(run, events[0]);
        the_frame_queue_is_bounded(run, events[0]);
        lemma_frames_over_a_run(next, rest);
        let first_in = frames_in(run, events[0]);
        let first_out = frames_out(action);
        let later_in = all_frames_in(next, rest);
        let later_out = all_frames_out(next, rest);
        let left = run_after(next, rest).frames;
        assert(run.frames + (first_in + later_in) =~= (run.frames + first_in) + later_in);
        assert((first_out + next.frames) + later_in =~= first_out + (next.frames + later_in));
        assert(first_out + (later_out + left) =~= (first_out + later_out) + left);
    }
}

/// How many frames were handed on in all: those that are counted, and one that
/// has not been answered yet.
spec fn handed_on<S, F>(run: SmokeView<S, F>) -> int {
    decoded_frames(run.stats) + (if presenting(run.phase) {
        1int
    } else {
        0
    })
}

proof fn lemma_counts_of_a_step<S, F>(run: SmokeView<S, F>, event: SmokeEvent<S, F>)
    requires
        decoded_frames(run.stats) < u32::MAX,
    ensures
        handed_on(run.after(event).0) == handed_on(run) + frames_out(run.after(event).1).len(),
        decoded_frames(run.after(event).0.stats) <= decoded_frames(run.stats) + 1,
{
}

proof fn lemma_counts_over_a_run<S, F>(run: SmokeView<S, F>, events: Seq<SmokeEvent<S, F>>)
    requires
        decoded_frames(run.stats) + events.len() < u32::MAX,
    ensures
        handed_on(run_after(run, events)) == handed_on(run) + all_frames_out(run, events).len(),
    decreases events.len(),
{
    if events.len() > 0 {
        lemma_counts_of_a_step(run, events[0]);
        lemma_counts_over_a_run(run.after(events[0]).0, events.skip(1));
    }
}

/// A run that is over has presented every frame that was pulled from the
/// decoder, in order, and has counted each of them once, by what became of it.
pub proof fn a_finished_run_has_presented_every_frame<S, F>(
    run: SmokeView<S, F>,
    events: Seq<SmokeEvent<S, F>>,
)
    requires
        run.wf(),
        run.phase == SmokePhase::Round,
        run_after(run, events).phase == SmokePhase::Over,
        decoded_frames(run.stats) + events.len() < u32::MAX,
    ensures
        all_frames_out(run, events) == all_frames_in(run, events),
        decoded_frames(run_after(run, events).stats) == decoded_frames(run.stats)
            + all_frames_in(run, events).len(),
{
    lemma_frames_over_a_run(run, events);
    lemma_counts_over_a_run(run, events);
    assert(run.frames + all_frames_in(run, events) =~= all_frames_in(run, events));
    assert(all_frames_out(run, events) + run_after(run, events).frames =~= all_frames_out(
        run,
        events,
    ));
}

/// Every frame that is handed on is counted once, as presented or as dropped,
/// and nothing else is counted as a frame.
pub proof fn every_frame_is_counted_once<S, F>(run: SmokeView<S, F>, event: SmokeEvent<S, F>)
    requires
        run.counts_fit(),
    ensures
        decoded_frames(run.after(event).0.stats) == decoded_frames(run.stats) + (if presenting(run.phase)
            && event is Presented {
            1int
        } else {
            0
        }),
{
}

/// A run that has fed its number of samples ends with its round.
pub proof fn a_full_run_ends<S, F>(run: SmokeView<S, F>, time_left: bool)
    requires
        run.phase == SmokePhase::Round,
        run.stats.input_samples >= MAX_INPUT_SAMPLES,
    ensures
        run.after(SmokeEvent::Tick { time_left }).1 == SmokeAction::<S, F>::Finish,
{
}

/// A run ends exactly where time is up or it has fed its samples; otherwise it
/// goes on with its decoder, or, for one without events, with the source.
pub proof fn a_run_goes_on_while_it_can<S, F>(run: SmokeView<S, F>, time_left: bool)
    requires
        run.phase == SmokePhase::Round,
        run.frames.len() == 0,
    ensures
        ({
            let (next, action) = run.after(SmokeEvent::Tick { time_left });
            &&& action == SmokeAction::<S, F>::Finish <==> !time_left || run.stats.input_samples
                >= 180
            &&& time_left && run.stats.input_samples < 180 ==> action == (if run.asynchronous {
                SmokeAction::<S, F>::PollDecoder
            } else if run.stream_open {
                SmokeAction::<S, F>::PollStream
            } else {
                SmokeAction::<S, F>::PollSource
            })
            &&& next.stats == run.stats && next.compressed == run.compressed
        }),
{
}

/// An input that the decoder wants is noted, and output that it has is pulled;
/// a round takes no more than 64 of its events.
pub proof fn decoder_events_are_heeded<S, F>(run: SmokeView<S, F>, polls: u32, kind: u32)
    requires
        run.wf(),
        run.phase == SmokePhase::DecoderEvent(polls),
        run.wanted_inputs < u32::MAX,
        run.frames.len() < 3,
    ensures
        ({
            let (next, action) = run.after(SmokeEvent::Polled(Some(kind)));
            let fed: int = if action is Feed {
                1
            } else {
                0
            };
            &&& kind == 602 <==> action == SmokeAction::<S, F>::PullOutput
            &&& kind == 601 ==> next.wanted_inputs == run.wanted_inputs + 1
            &&& kind != 601 ==> next.wanted_inputs == run.wanted_inputs
            &&& kind != 602 && polls + 1 < 64 ==> action == SmokeAction::<S, F>::PollDecoder
                && next.phase == SmokePhase::DecoderEvent((polls + 1) as u32)
            &&& polls + 1 >= 64 ==> action != SmokeAction::<S, F>::PollDecoder
            &&& next.compressed.len() + fed == run.compressed.len()
        }),
{
}

/// The compressed samples that an event brings to a decoder with events.
pub open spec fn samples_in<S, F>(run: SmokeView<S, F>, event: SmokeEvent<S, F>) -> Seq<S> {
    match (run.phase, event) {
        (SmokePhase::TakeSample, SmokeEvent::Sample(sample)) => seq![sample],
        _ => Seq::empty(),
    }
}

/// The compressed samples that an action gives to a decoder.
pub open spec fn samples_out<S, F>(action: SmokeAction<S, F>) -> Seq<S> {
    match action {
        SmokeAction::Feed(sample) => seq![sample],
        SmokeAction::Decode(sample) => seq![sample],
        _ => Seq::empty(),
    }
}

/// No sample is lost, doubled or reordered: what was waiting, then what came, is
/// what the decoder is given, then what still waits. A decoder without events is
/// given every sample at once.
pub proof fn every_sample_is_decoded_in_order<S, F>(run: SmokeView<S, F>, event: SmokeEvent<S, F>)
    requires
        !run.asynchronous ==> run.compressed.len() == 0 && !(run.phase is DecoderEvent)
            && !(run.phase is MakeRoom) && !(run.phase is AnnouncedOutput) && !(run.phase is Feed),
    ensures
        ({
            let (next, action) = run.after(event);
            &&& run.compressed + samples_in(run, event) == samples_out(action) + next.compressed
            &&& !run.asynchronous ==> next.compressed.len() == 0
        }),
{
    let (next, action) = run.after(event);
    let samples = run.compressed + samples_in(run, event);
    if let SmokeEvent::Sample(sample) = event {
        assert(run.compressed.push(sample) =~= run.compressed + seq![sample]);
    }
    assert(run.compressed + Seq::<S>::empty() =~= run.compressed);
    if action is Feed || action is Decode {
        assert(samples =~= seq![samples[0]] + samples.skip(1));
        assert(next.compressed =~= samples.skip(1));
    } else {
        assert(next.compressed =~= samples);
    }
    assert(samples =~= samples_out(action) + next.compressed);
}

/// A sample is fed exactly where the decoder wants one and one is waiting, and
/// each that was fed is one that is wanted no more and one that is counted.
pub proof fn a_wanted_sample_is_fed<S, F>(run: SmokeView<S, F>, polls: u32)
    requires
        run.wf(),
        run.phase == SmokePhase::DecoderEvent(polls),
        run.stats.input_samples < u32::MAX,
    ensures
        ({
            let (feeding, feed) = run.after(SmokeEvent::Polled(None));
            let (fed, next) = feeding.after(SmokeEvent::Fed);
            &&& feed is Feed <==> run.wanted_inputs > 0 && run.compressed.len() > 0
            &&& feed is Feed ==> {
                &&& fed.wanted_inputs == run.wanted_inputs - 1
                &&& fed.stats.input_samples == run.stats.input_samples + 1
                &&& fed.stats.output_frames == run.stats.output_frames
                &&& next is Feed <==> run.wanted_inputs > 1 && run.compressed.len() > 1
            }
        }),
{
}

/// A sample is requested exactly where the stream has started, none is on its
/// way, fewer than eight wait and the run has not fed its 180; a request is
/// noted, and the sample that comes takes the note back.
pub proof fn a_sample_is_requested_when_it_is_due<S, F>(run: SmokeView<S, F>)
    requires
        run.wf(),
        run.phase == SmokePhase::StreamEvent,
    ensures
        ({
            let (quiet, action) = run.after(SmokeEvent::Polled(None));
            let (started, start) = run.after(SmokeEvent::Polled(Some(202u32)));
            let (taking, take) = run.after(SmokeEvent::Polled(Some(213u32)));
            let open = !run.sample_requested && run.compressed.len() < 8
                && run.stats.input_samples < 180;
            &&& action == SmokeAction::<S, F>::RequestSample <==> run.stream_started && open
            &&& start == SmokeAction::<S, F>::RequestSample <==> open
            &&& started.stream_started
            &&& take == SmokeAction::<S, F>::TakeSample && !taking.sample_requested
            &&& action == SmokeAction::<S, F>::RequestSample ==> quiet.after(
                SmokeEvent::Requested,
            ).0.sample_requested
        }),
{
}

/// The stream is opened once the source has it, and then it is the stream that
/// is asked for events.
pub proof fn the_stream_is_opened_once<S, F>(run: SmokeView<S, F>, kind: u32)
    requires
        run.phase == SmokePhase::SourceEvent,
    ensures
        ({
            let (next, action) = run.after(SmokeEvent::Polled(Some(kind)));
            &&& kind == 205 <==> action == SmokeAction::<S, F>::OpenStream
            &&& kind != 205 ==> action == SmokeAction::<S, F>::Pause(1) && next.phase
                == SmokePhase::Round
            &&& run.after(SmokeEvent::Polled(None)).1 == SmokeAction::<S, F>::Pause(3)
            &&& kind == 205 ==> next.after(SmokeEvent::StreamOpened).0.stream_open
        }),
{
}

/// A sample that a decoder without events has taken is counted once its output
/// has been drained as often as it takes.
pub proof fn a_drained_sample_is_counted<S, F>(run: SmokeView<S, F>, drains: u32)
    requires
        run.wf(),
        run.phase == SmokePhase::Drain(drains),
        run.stats.input_samples < u32::MAX,
    ensures
        ({
            let (next, action) = run.after(SmokeEvent::Output(None));
            &&& drains > 1 ==> next.phase == SmokePhase::Drain((drains - 1) as u32) && action
                == SmokeAction::<S, F>::PullOutput && next.stats == run.stats
            &&& drains <= 1 ==> next.stats.input_samples == run.stats.input_samples + 1 && action
                != SmokeAction::<S, F>::PullOutput
        }),
{
}

/// Each frame that is handed on is counted by what became of it, and by nothing
/// else: as presented, as dropped for want of a back buffer, or as dropped by a
/// busy compositor.
pub proof fn a_frame_is_counted_by_its_outcome(stats: NativeSmokeStats, outcome: FrameOutcome)
    requires
        stats.output_frames < u32::MAX,
        stats.dropped_frame_latency < u32::MAX,
        stats.dropped_compositor_busy < u32::MAX,
    ensures
        ({
            let next = counted(stats, outcome);
            let shown = next.output_frames - stats.output_frames;
            let late = next.dropped_frame_latency - stats.dropped_frame_latency;
            let busy = next.dropped_compositor_busy - stats.dropped_compositor_busy;
            &&& shown >= 0 && late >= 0 && busy >= 0 && shown + late + busy == 1
            &&& shown == 1 <==> outcome is Presented
            &&& late == 1 <==> outcome is FrameLatency
            &&& busy == 1 <==> outcome is CompositorBusy
            &&& next.input_samples == stats.input_samples
        }),
{
}

/// Once its frames are handed on and nothing more can be fed, a round gives the
/// source its turn: the stream where it is open, and the source itself before.
pub proof fn the_source_has_its_turn<S, F>(
    run: SmokeView<S, F>,
    polls: u32,
    outcome: FrameOutcome,
)
    requires
        run.frames.len() == 0,
        run.wanted_inputs == 0 || run.compressed.len() == 0,
    ensures
        ({
            let turn = if run.stream_open {
                SmokeAction::<S, F>::PollStream
            } else {
                SmokeAction::<S, F>::PollSource
            };
            &&& run.phase == SmokePhase::Present ==> run.after(SmokeEvent::Presented(outcome)).1
                == turn
            &&& run.phase == SmokePhase::DecoderEvent(polls) ==> run.after(
                SmokeEvent::Polled(None),
            ).1 == turn
        }),
{
}

/// A round ends with a short pause, once its request is made and, for a decoder
/// without events, its frames are handed on; then the next round may begin.
pub proof fn a_round_ends_with_a_pause<S, F>(run: SmokeView<S, F>, outcome: FrameOutcome)
    requires
        run.frames.len() == 0,
        run.phase == SmokePhase::RequestSample || run.phase == SmokePhase::PresentRest,
    ensures
        ({
            let (next, action) = if run.phase == SmokePhase::RequestSample {
                run.after(SmokeEvent::Requested)
            } else {
                run.after(SmokeEvent::Presented(outcome))
            };
            &&& action == SmokeAction::<S, F>::Pause(1)
            &&& next.phase == SmokePhase::Round
        }),
{
}

/// A run that is over stays over, and an event out of turn changes nothing.
pub proof fn a_finished_run_stays_finished<S, F>(run: SmokeView<S, F>, event: SmokeEvent<S, F>)
    ensures
        run.phase == SmokePhase::Over ==> run.after(event).0 == run,
        run.after(event).1 == SmokeAction::<S, F>::Unexpected ==> run.after(event).0 == run,
{
}

} // verus!
