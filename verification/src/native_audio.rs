//! Native MP4 audio path: decoded PCM goes through a byte queue into the
//! shared-mode buffer of the audio device, whose clock drives playback.

use crate::pcm_queue::PcmQueue;
use crate::playback_clock::{elapsed_ticks, position_of_ticks, PlaybackClock};
use crate::text::{hexadecimal, push_status};
use vstd::prelude::*;
use vstd::string::*;

verus! {

/// Source reader flag: the stream ended.
pub const READER_END_OF_STREAM: u32 = 0x2;

/// Source reader flag: the decoded media type changed.
pub const READER_TYPE_CHANGED: u32 = 0x20;

/// Wait status: the object was signalled.
pub const WAIT_SIGNALLED: u32 = 0;

/// Wait status: the wait timed out.
pub const WAIT_TIMED_OUT: u32 = 258;

/// Wait status: the wait failed.
pub const WAIT_BROKEN: u32 = 0xFFFF_FFFF;

/// How many samples one fill pass reads at most.
pub const MAX_READS_PER_FILL: u32 = 256;

/// How often a stopping worker is polled before it is left behind.
pub const STOP_POLLS: u32 = 20;

/// A volume, brought into the range 0 to 100.
pub open spec fn clamped_volume(volume: i32) -> i32 {
    if volume < 0 {
        0
    } else if volume > 100 {
        100
    } else {
        volume
    }
}

/// Brings a volume into the range 0 to 100.
pub fn clamp_volume(volume: i32) -> (clamped: i32)
    ensures
        clamped == clamped_volume(volume),
        0 <= clamped <= 100,
{
    if volume < 0 {
        0
    } else if volume > 100 {
        100
    } else {
        volume
    }
}

/// What the audio worker and its owner share.
pub struct NativeAudioRenderer {
    pub stop: bool,
    pub paused: bool,
    pub activated: bool,
    pub muted: bool,
    pub volume: i32,
    pub failed: bool,
    pub frames_written: u64,
    pub finished: bool,
}

/// What the worker reports while it starts up.
pub enum StartupSignal {
    /// The device buffer holds its first frames.
    Ready,
    /// Startup failed.
    Failed(String),
    /// Nothing was heard of the worker in time.
    TimedOut,
}

/// What becomes of a worker that was started.
pub enum Startup {
    /// The worker runs.
    Started,
    /// The worker is given up; where `join` is set it is waited for.
    Rejected { error: String, join: bool },
}

/// What the owner of a stopping worker does next.
#[derive(Clone, Copy, Debug, PartialEq, Eq, Structural)]
pub enum StopWait {
    /// Poll again after five milliseconds.
    Sleep,
    /// The worker is done: wait for its thread.
    Join,
    /// The worker hangs: leave its thread behind.
    Detach,
}

impl NativeAudioRenderer {
    /// The shared state a worker starts with.
    pub fn start(muted: bool, volume: i32) -> (renderer: Self)
        ensures
            renderer == (NativeAudioRenderer {
                stop: false,
                paused: false,
                activated: false,
                muted,
                volume: clamped_volume(volume),
                failed: false,
                frames_written: 0,
                finished: false,
            }),
    {
        NativeAudioRenderer {
            stop: false,
            paused: false,
            activated: false,
            muted,
            volume: clamp_volume(volume),
            failed: false,
            frames_written: 0,
            finished: false,
        }
    }

    /// Decides about a starting worker. One that failed is stopped and waited
    /// for; one that is late is stopped, and waited for only if it is done.
    pub fn startup(&mut self, signal: StartupSignal) -> (startup: Startup)
        ensures
            match signal {
                StartupSignal::Ready => startup is Started && *final(self) == *old(self),
                StartupSignal::Failed(reason) => {
                    &&& startup == (Startup::Rejected { error: reason, join: true })
                    &&& *final(self) == (NativeAudioRenderer { stop: true, ..*old(self) })
                },
                StartupSignal::TimedOut => {
                    &&& startup matches Startup::Rejected { error, join }
                    &&& error@ == "Native audio did not initialize in time."@
                    &&& join == old(self).finished
                    &&& *final(self) == (NativeAudioRenderer { stop: true, ..*old(self) })
                },
            },
    {
        match signal {
            StartupSignal::Ready => Startup::Started,
            StartupSignal::Failed(reason) => {
                self.stop = true;
                Startup::Rejected { error: reason, join: true }
            },
            StartupSignal::TimedOut => {
                self.stop = true;
                Startup::Rejected {
                    error: String::from_str("Native audio did not initialize in time."),
                    join: self.finished,
                }
            },
        }
    }

    /// Lets the worker start the device.
    pub fn activate(&mut self)
        ensures
            *final(self) == (NativeAudioRenderer { activated: true, ..*old(self) }),
    {
        self.activated = true;
    }

    /// Asks the worker to pause or to resume.
    pub fn set_paused(&mut self, paused: bool)
        ensures
            *final(self) == (NativeAudioRenderer { paused, ..*old(self) }),
    {
        self.paused = paused;
    }

    /// Asks the worker to mute or to unmute.
    pub fn set_muted(&mut self, muted: bool)
        ensures
            *final(self) == (NativeAudioRenderer { muted, ..*old(self) }),
    {
        self.muted = muted;
    }

    /// Asks the worker for a volume, brought into the range 0 to 100.
    pub fn set_volume(&mut self, volume: i32)
        ensures
            *final(self) == (NativeAudioRenderer { volume: clamped_volume(volume), ..*old(self) }),
    {
        self.volume = clamp_volume(volume);
    }

    /// Whether the worker ended with an error that nobody asked for.
    pub fn has_failed(&self) -> (failed: bool)
        ensures
            failed == self.failed,
    {
        self.failed
    }

    /// Number of frames handed to the device.
    pub fn frames_written(&self) -> (frames: u64)
        ensures
            frames == self.frames_written,
    {
        self.frames_written
    }

    /// Takes over the number of frames that the worker has written.
    pub fn frames_counted(&mut self, frames_written: u64)
        ensures
            *final(self) == (NativeAudioRenderer { frames_written, ..*old(self) }),
    {
        self.frames_written = frames_written;
    }

    /// Records the end of the worker, however it came: the playback clock rests.
    /// An error is a failure only where the worker had not been asked to stop.
    pub fn worker_ended(&mut self, clock: &mut PlaybackClock, with_error: bool)
        ensures
            *final(self) == (NativeAudioRenderer {
                failed: old(self).failed || (with_error && !old(self).stop),
                finished: true,
                ..*old(self)
            }),
            !final(clock).active(),
            final(clock).position() == old(clock).position(),
            final(clock).reading() is None,
    {
        if with_error && !self.stop {
            self.failed = true;
        }
        clock.deactivate();
        self.finished = true;
    }

    /// Asks the worker to stop.
    pub fn stop(&mut self)
        ensures
            *final(self) == (NativeAudioRenderer { stop: true, ..*old(self) }),
    {
        self.stop = true;
    }

    /// What to do about a stopping worker that has been polled `polls` times.
    pub fn stop_wait(&self, polls: u32) -> (wait: StopWait)
        ensures
            wait == (if self.finished {
                StopWait::Join
            } else if polls < STOP_POLLS {
                StopWait::Sleep
            } else {
                StopWait::Detach
            }),
    {
        if self.finished {
            StopWait::Join
        } else if polls < STOP_POLLS {
            StopWait::Sleep
        } else {
            StopWait::Detach
        }
    }
}

/// What the reader gave for one request of PCM.
pub enum ReadResult {
    Data(Vec<u8>),
    Empty,
    EndOfStream,
}

/// What a finished read asks for.
#[derive(Clone, Copy, Debug, PartialEq, Eq, Structural)]
pub enum PcmRead {
    /// There is a sample: copy its bytes.
    Copy,
    /// There is no sample this time.
    Empty,
    /// The stream is at its end.
    EndOfStream,
}

/// Judges the flags of a finished read. A changed format cannot be played on
/// and goes before everything else; the end of the stream goes before a sample.
pub fn inspect_pcm_read(flags: u32, has_sample: bool) -> (read: Result<PcmRead, String>)
    ensures
        flags & READER_TYPE_CHANGED != 0 ==> (read matches Err(error) && error@
            == "The MP4 audio format changed during playback."@),
        flags & READER_TYPE_CHANGED == 0 ==> read == Ok::<PcmRead, String>(
            if flags & READER_END_OF_STREAM != 0 {
                PcmRead::EndOfStream
            } else if has_sample {
                PcmRead::Copy
            } else {
                PcmRead::Empty
            },
        ),
{
    if flags & READER_TYPE_CHANGED != 0 {
        return Err(String::from_str("The MP4 audio format changed during playback."));
    }
    if flags & READER_END_OF_STREAM != 0 {
        return Ok(PcmRead::EndOfStream);
    }
    if has_sample {
        Ok(PcmRead::Copy)
    } else {
        Ok(PcmRead::Empty)
    }
}

/// Classifies the bytes of a sample: a sample without bytes counts as none.
pub fn pcm_sample_bytes(bytes: Vec<u8>) -> (result: ReadResult)
    ensures
        bytes@.len() == 0 ==> result is Empty,
        bytes@.len() != 0 ==> result == ReadResult::Data(bytes),
{
    if bytes.len() == 0 {
        ReadResult::Empty
    } else {
        ReadResult::Data(bytes)
    }
}

/// One pass that fills the queue up to a number of bytes, in a bounded number
/// of reads.
pub struct PcmFill {
    pub reads: u32,
    pub target_bytes: usize,
}

impl PcmFill {
    /// Whether the pass reads one more sample, and counts it if so. It does
    /// while the queue is short of the target and reads are left.
    pub fn wants_read(&mut self, queue: &PcmQueue) -> (wants: bool)
        requires
            queue.wf(),
        ensures
            wants == (old(self).reads < MAX_READS_PER_FILL && queue@.len()
                < old(self).target_bytes),
            *final(self) == (PcmFill {
                reads: if wants {
                    (old(self).reads + 1) as u32
                } else {
                    old(self).reads
                },
                ..*old(self)
            }),
            old(self).reads <= MAX_READS_PER_FILL ==> final(self).reads <= MAX_READS_PER_FILL,
    {
        if self.reads < MAX_READS_PER_FILL && queue.len() < self.target_bytes {
            self.reads = self.reads + 1;
            true
        } else {
            false
        }
    }
}

/// Takes the result of one read into the queue. At the end of the stream the
/// queue stays as it is and the reader has to be opened again.
pub fn queue_pcm_read(queue: &mut PcmQueue, result: ReadResult) -> (reopen: bool)
    requires
        old(queue).wf(),
        result matches ReadResult::Data(bytes) ==> old(queue)@.len() + bytes@.len() <= usize::MAX,
    ensures
        final(queue).wf(),
        reopen == (result is EndOfStream),
        final(queue)@ == (match result {
            ReadResult::Data(bytes) => old(queue)@ + bytes@,
            _ => old(queue)@,
        }),
{
    match result {
        ReadResult::Data(bytes) => {
            queue.push(bytes);
            false
        },
        ReadResult::Empty => false,
        ReadResult::EndOfStream => true,
    }
}

/// Reads the block alignment out of the wave format that the decoder offers.
pub fn pcm_block_align(wave_format: Option<u16>) -> (block_align: Result<usize, String>)
    ensures
        match wave_format {
            None => block_align matches Err(error) && error@
                == "Media Foundation returned no PCM wave format."@,
            Some(align) => if align == 0 {
                block_align matches Err(error) && error@
                    == "Decoded PCM format has zero block alignment."@
            } else {
                block_align == Ok::<usize, String>(align as usize)
            },
        },
{
    match wave_format {
        None => Err(String::from_str("Media Foundation returned no PCM wave format.")),
        Some(align) => {
            if align == 0 {
                Err(String::from_str("Decoded PCM format has zero block alignment."))
            } else {
                Ok(align as usize)
            }
        },
    }
}

/// What the owner asks of the audio loop.
#[derive(Clone, Copy, Debug, PartialEq, Eq, Structural)]
pub struct AudioControls {
    pub stop: bool,
    pub paused: bool,
    pub muted: bool,
    pub volume: i32,
}

/// What the audio loop has applied to the device.
#[derive(Clone, Copy, Debug, PartialEq, Eq, Structural)]
pub struct AppliedControls {
    pub paused: bool,
    pub muted: bool,
    pub volume: i32,
}

/// A command to the device.
#[derive(Clone, Copy, Debug, PartialEq, Eq, Structural)]
pub enum Transport {
    Pause,
    Resume,
}

/// A session volume to set.
#[derive(Clone, Copy, Debug, PartialEq, Eq, Structural)]
pub struct SessionVolume {
    /// In the range 0 to 100.
    pub volume: i32,
    pub muted: bool,
}

/// How a round of the audio loop goes on.
#[derive(Clone, Copy, Debug, PartialEq, Eq, Structural)]
pub enum AudioRound {
    /// The loop ends.
    Finish,
    /// First the transport command, then the session volume, then, where
    /// `write` is set, wait for the device and write; otherwise sleep for ten
    /// milliseconds.
    Go { transport: Option<Transport>, session: Option<SessionVolume>, write: bool },
}

/// The round that the applied controls and the asked ones lead to.
pub open spec fn audio_round(applied: AppliedControls, asked: AudioControls) -> AudioRound {
    if asked.stop {
        AudioRound::Finish
    } else {
        AudioRound::Go {
            transport: if asked.paused == applied.paused {
                None
            } else if asked.paused {
                Some(Transport::Pause)
            } else {
                Some(Transport::Resume)
            },
            session: if asked.muted == applied.muted && asked.volume == applied.volume {
                None
            } else {
                Some(SessionVolume { volume: clamped_volume(asked.volume), muted: asked.muted })
            },
            write: !asked.paused,
        }
    }
}

/// What is applied once a round is over.
pub open spec fn applied_after(applied: AppliedControls, asked: AudioControls) -> AppliedControls {
    if asked.stop {
        applied
    } else {
        AppliedControls { paused: asked.paused, muted: asked.muted, volume: asked.volume }
    }
}

/// Whether the worker waits, ends or starts the device.
#[derive(Clone, Copy, Debug, PartialEq, Eq, Structural)]
pub enum Activation {
    Wait,
    Stop,
    Start,
}

/// What a worker that has filled its first buffer does: a stop goes before an
/// activation.
pub fn poll_activation(stop: bool, activated: bool) -> (activation: Activation)
    ensures
        activation == (if stop {
            Activation::Stop
        } else if activated {
            Activation::Start
        } else {
            Activation::Wait
        }),
{
    if stop {
        Activation::Stop
    } else if activated {
        Activation::Start
    } else {
        Activation::Wait
    }
}

/// Judges the wait for the render event: a timeout is as good as a signal.
pub fn audio_wait(status: u32) -> (result: Result<(), String>)
    ensures
        status == WAIT_SIGNALLED || status == WAIT_TIMED_OUT ==> result is Ok,
        status == WAIT_BROKEN ==> (result matches Err(error) && error@
            == "Waiting for the WASAPI render event failed."@),
        status != WAIT_SIGNALLED && status != WAIT_TIMED_OUT && status != WAIT_BROKEN ==> (
        result matches Err(error) && error@ == "WASAPI returned an unexpected wait status: "@
            + "0x"@ + hexadecimal(status as nat, 8) + "."@),
{
    if status == WAIT_BROKEN {
        return Err(String::from_str("Waiting for the WASAPI render event failed."));
    }
    if status != WAIT_SIGNALLED && status != WAIT_TIMED_OUT {
        let mut error = String::from_str("WASAPI returned an unexpected wait status: ");
        push_status(&mut error, status);
        error.append(".");
        return Err(error);
    }
    Ok(())
}

/// Frames to write, with their bytes.
pub struct AudioWrite {
    pub frames: u32,
    pub bytes: Vec<u8>,
}

/// The audio loop's own state.
pub struct AudioSession {
    pub block_align: usize,
    pub buffer_frames: u32,
    pub clock_frequency: u64,
    pub clock_origin: u64,
    pub applied: AppliedControls,
    pub queue: PcmQueue,
}

/// The smaller of two numbers.
pub open spec fn smaller(left: int, right: int) -> int {
    if left < right {
        left
    } else {
        right
    }
}

impl AudioSession {
    /// Frames have a size, the clock ticks, and twice the device buffer can be
    /// counted in bytes.
    pub open spec fn wf(&self) -> bool {
        &&& self.block_align > 0
        &&& self.clock_frequency > 0
        &&& self.buffer_frames * self.block_align * 2 <= usize::MAX
        &&& self.queue.wf()
    }

    /// How many whole frames the queue can give to a device with room for
    /// `room` frames.
    pub open spec fn writable(&self, room: int) -> int {
        smaller(room, self.queue@.len() as int / self.block_align as int)
    }

    /// A session on an opened device. A device whose clock does not tick is
    /// turned down.
    pub fn open(
        block_align: usize,
        buffer_frames: u32,
        clock_frequency: u64,
        muted: bool,
        volume: i32,
    ) -> (session: Result<Self, String>)
        requires
            block_align > 0,
            buffer_frames * block_align * 2 <= usize::MAX,
        ensures
            clock_frequency == 0 ==> (session matches Err(error) && error@
                == "WASAPI returned a zero device-clock frequency."@),
            clock_frequency != 0 ==> (session matches Ok(session) && session.wf()
                && session.block_align == block_align && session.buffer_frames == buffer_frames
                && session.clock_frequency == clock_frequency && session.clock_origin == 0
                && session.applied == (AppliedControls { paused: false, muted, volume })
                && session.queue@ == Seq::<u8>::empty()),
    {
        if clock_frequency == 0 {
            return Err(String::from_str("WASAPI returned a zero device-clock frequency."));
        }
        Ok(
            AudioSession {
                block_align,
                buffer_frames,
                clock_frequency,
                clock_origin: 0,
                applied: AppliedControls { paused: false, muted, volume },
                queue: PcmQueue::new(),
            },
        )
    }

    /// Bytes to decode before the device starts: one device buffer.
    pub fn prefill_bytes(&self) -> (bytes: usize)
        requires
            self.wf(),
        ensures
            bytes == self.buffer_frames * self.block_align,
    {
        proof {
            self.lemma_buffer_fits();
        }
        self.buffer_frames as usize * self.block_align
    }

    /// Bytes to keep decoded while the device runs: two device buffers.
    pub fn refill_bytes(&self) -> (bytes: usize)
        requires
            self.wf(),
        ensures
            bytes == self.buffer_frames * self.block_align * 2,
    {
        proof {
            self.lemma_buffer_fits();
        }
        self.buffer_frames as usize * self.block_align * 2
    }

    proof fn lemma_buffer_fits(&self)
        requires
            self.wf(),
        ensures
            0 <= self.buffer_frames * self.block_align <= self.buffer_frames * self.block_align * 2
                <= usize::MAX,
    {
        assert(0 <= self.buffer_frames * self.block_align) by (nonlinear_arith)
            requires
                self.buffer_frames >= 0,
                self.block_align >= 0,
        ;
    }

    fn take_frames(&mut self, frames: u32) -> (write: AudioWrite)
        requires
            old(self).wf(),
            frames <= old(self).queue@.len() as int / old(self).block_align as int,
        ensures
            final(self).wf(),
            write.frames == frames,
            write.bytes@ == old(self).queue@.take(frames * old(self).block_align),
            final(self).queue@ == old(self).queue@.skip(frames * old(self).block_align),
            *final(self) == (AudioSession { queue: final(self).queue, ..*old(self) }),
    {
        let queued: usize = self.queue.len();
        proof {
            let align = self.block_align as int;
            assert(0 <= frames * align <= queued) by (nonlinear_arith)
                requires
                    align > 0,
                    0 <= frames <= queued as int / align,
            ;
        }
        let byte_count: usize = frames as usize * self.block_align;
        let bytes = self.queue.copy_to(byte_count);
        AudioWrite { frames, bytes }
    }

    /// The first frames for the device: as many as the queue and the device
    /// buffer allow, but not none.
    pub fn first_write(&mut self) -> (write: Result<AudioWrite, String>)
        requires
            old(self).wf(),
        ensures
            final(self).wf(),
            old(self).writable(old(self).buffer_frames as int) == 0 ==> (write matches Err(error)
                && error@ == "The MP4 audio stream produced no decoded PCM samples."@
                && *final(self) == *old(self)),
            old(self).writable(old(self).buffer_frames as int) != 0 ==> (write matches Ok(write)
                && write.frames == old(self).writable(old(self).buffer_frames as int)
                && write.bytes@ == old(self).queue@.take(write.frames * old(self).block_align)
                && final(self).queue@ == old(self).queue@.skip(
                write.frames * old(self).block_align,
            ) && *final(self) == (AudioSession { queue: final(self).queue, ..*old(self) })),
    {
        let queued: usize = self.queue.len() / self.block_align;
        let frames: u32 = if queued < self.buffer_frames as usize {
            queued as u32
        } else {
            self.buffer_frames
        };
        if frames == 0 {
            return Err(
                String::from_str("The MP4 audio stream produced no decoded PCM samples."),
            );
        }
        Ok(self.take_frames(frames))
    }

    /// Starts the playback clock from the device position `origin`. The session
    /// has the mute and the volume that were last sent to it.
    pub fn start_clock(&mut self, clock: &mut PlaybackClock, origin: u64)
        ensures
            *final(self) == (AudioSession {
                clock_origin: origin,
                applied: AppliedControls { paused: false, ..old(self).applied },
                ..*old(self)
            }),
            final(clock).active(),
            final(clock).position() == 0,
    {
        self.clock_origin = origin;
        self.applied.paused = false;
        clock.activate();
    }

    /// Plans a round of the loop and records what it applies.
    pub fn next_round(&mut self, asked: AudioControls) -> (round: AudioRound)
        ensures
            round == audio_round(old(self).applied, asked),
            *final(self) == (AudioSession {
                applied: applied_after(old(self).applied, asked),
                ..*old(self)
            }),
    {
        if asked.stop {
            return AudioRound::Finish;
        }
        let transport: Option<Transport> = if asked.paused == self.applied.paused {
            None
        } else if asked.paused {
            Some(Transport::Pause)
        } else {
            Some(Transport::Resume)
        };
        let session: Option<SessionVolume> = if asked.muted == self.applied.muted && asked.volume
            == self.applied.volume {
            None
        } else {
            Some(SessionVolume { volume: clamp_volume(asked.volume), muted: asked.muted })
        };
        self.applied =
        AppliedControls { paused: asked.paused, muted: asked.muted, volume: asked.volume };
        AudioRound::Go { transport, session, write: !asked.paused }
    }

    /// Takes the device position over into the playback clock.
    pub fn advance_clock(&self, clock: &mut PlaybackClock, device_position: u64)
        requires
            self.wf(),
        ensures
            final(clock).active() == old(clock).active(),
            final(clock).position() == position_of_ticks(
                elapsed_ticks(device_position, self.clock_origin),
                self.clock_frequency as int,
            ),
    {
        clock.update_from_device(device_position, self.clock_origin, self.clock_frequency);
    }

    /// The frames to write into a device buffer of which `padding` frames are
    /// still to be played: as many whole frames as are queued and fit.
    pub fn next_write(&mut self, padding: u32) -> (write: Option<AudioWrite>)
        requires
            old(self).wf(),
        ensures
            final(self).wf(),
            ({
                let room = if padding < old(self).buffer_frames {
                    old(self).buffer_frames - padding
                } else {
                    0
                };
                let frames = old(self).writable(room);
                &&& frames == 0 ==> write is None && *final(self) == *old(self)
                &&& frames != 0 ==> (write matches Some(write) && write.frames == frames
                    && write.bytes@ == old(self).queue@.take(frames * old(self).block_align)
                    && final(self).queue@ == old(self).queue@.skip(frames * old(self).block_align)
                    && *final(self) == (AudioSession { queue: final(self).queue, ..*old(self) }))
            }),
    {
        let room: u32 = self.buffer_frames.saturating_sub(padding);
        let queued: usize = self.queue.len() / self.block_align;
        let frames: u32 = if room as usize <= queued {
            room
        } else {
            queued as u32
        };
        if frames == 0 {
            None
        } else {
            Some(self.take_frames(frames))
        }
    }
}

/// The loop never repeats itself towards the device: once it has applied what
/// was asked, asking the same again gives no transport command and no session
/// volume.
pub proof fn settled_controls_give_no_commands(applied: AppliedControls, asked: AudioControls)
    requires
        !asked.stop,
    ensures
        audio_round(applied_after(applied, asked), asked) == (AudioRound::Go {
            transport: None,
            session: None,
            write: !asked.paused,
        }),
{
}

/// A write takes whole frames off the front of the queue and leaves the rest:
/// what was written, then what stays, is what was queued.
pub proof fn writes_keep_every_byte(session: AudioSession, room: int)
    requires
        session.wf(),
        0 <= room,
    ensures
        ({
            let bytes = session.writable(room) * session.block_align;
            &&& 0 <= bytes <= session.queue@.len()
            &&& session.queue@.take(bytes) + session.queue@.skip(bytes) == session.queue@
        }),
{
    let align = session.block_align as int;
    let queued = session.queue@.len() as int;
    let frames = session.writable(room);
    assert(0 <= frames) by {
        vstd::arithmetic::div_mod::lemma_div_pos_is_pos(queued, align);
    }
    assert(0 <= frames * align <= queued) by (nonlinear_arith)
        requires
            align > 0,
            0 <= frames <= queued / align,
    ;
    assert(session.queue@.take(frames * align) + session.queue@.skip(frames * align)
        =~= session.queue@);
}

/// A volume in range stays as it is, and any other one becomes the nearest in
/// range.
pub proof fn volumes_are_brought_into_range(volume: i32)
    ensures
        0 <= volume <= 100 ==> clamped_volume(volume) == volume,
        volume < 0 ==> clamped_volume(volume) == 0,
        volume > 100 ==> clamped_volume(volume) == 100,
{
}

/// A round of the loop does what was asked: it ends where a stop was asked for,
/// pauses or resumes where that changes, sends mute and volume where one of them
/// changes, and writes exactly where it is not to be paused. Afterwards all that
/// was asked for is applied.
pub proof fn a_round_does_what_was_asked(applied: AppliedControls, asked: AudioControls)
    ensures
        audio_round(applied, asked) is Finish <==> asked.stop,
        audio_round(applied, asked) matches AudioRound::Go { transport, session, write } ==> {
            &&& transport == Some(Transport::Pause) <==> asked.paused && !applied.paused
            &&& transport == Some(Transport::Resume) <==> !asked.paused && applied.paused
            &&& session is Some <==> asked.muted != applied.muted || asked.volume != applied.volume
            &&& session matches Some(sent) ==> sent.muted == asked.muted && 0 <= sent.volume <= 100
                && (0 <= asked.volume <= 100 ==> sent.volume == asked.volume)
            &&& write <==> !asked.paused
        },
        !asked.stop ==> applied_after(applied, asked).paused == asked.paused && applied_after(
            applied,
            asked,
        ).muted == asked.muted && applied_after(applied, asked).volume == asked.volume,
        asked.stop ==> applied_after(applied, asked) == applied,
{
}

/// As much is written as there is room for and as there are whole frames: one
/// more frame would have no room or no bytes.
pub proof fn as_much_as_fits_is_written(session: AudioSession, room: int)
    requires
        session.wf(),
        0 <= room,
    ensures
        ({
            let frames = session.writable(room);
            let align = session.block_align as int;
            &&& 0 <= frames <= room
            &&& frames * align <= session.queue@.len()
            &&& frames == room || (frames + 1) * align > session.queue@.len()
        }),
{
    let align = session.block_align as int;
    let queued = session.queue@.len() as int;
    let whole = queued / align;
    assert(0 <= whole && whole * align <= queued && queued < (whole + 1) * align)
        by (nonlinear_arith)
        requires
            align > 0,
            queued >= 0,
            whole == queued / align,
    ;
    let frames = session.writable(room);
    assert(frames * align <= queued) by (nonlinear_arith)
        requires
            0 <= frames <= whole,
            whole * align <= queued,
            align > 0,
    ;
}

/// A worker that is stopped is waited for a tenth of a second, at five
/// milliseconds a poll, and no longer.
pub proof fn a_stopping_worker_is_waited_for()
    ensures
        STOP_POLLS * 5 == 100,
{
}

} // verus!
