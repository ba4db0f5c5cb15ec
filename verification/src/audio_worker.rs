//! The life of an audio worker, from the opened file to the end of playback.
//! The worker is a machine; each thing it wants done is an action, and each
//! outcome is handed back as an event.

use crate::native_audio::{
    applied_after, audio_round, audio_wait, clamp_volume, clamped_volume, pcm_block_align,
    poll_activation, queue_pcm_read, smaller, Activation, AppliedControls, AudioControls,
    AudioRound, AudioSession, PcmFill, ReadResult, SessionVolume, Transport, MAX_READS_PER_FILL,
    WAIT_BROKEN, WAIT_SIGNALLED, WAIT_TIMED_OUT,
};
use crate::playback_clock::{
    elapsed_ticks, position_is_exact, position_of_ticks, PlaybackClock, UNITS_PER_SECOND,
};
use crate::text::hexadecimal;
use vstd::prelude::*;
use vstd::string::*;

verus! {

/// What a worker waits for.
#[derive(Clone, Copy, Debug, PartialEq, Eq, Structural)]
pub enum AudioPhase {
    /// The wave format of the file.
    Format,
    /// The audio device, for frames of so many bytes.
    Device(usize),
    /// The first volume is set.
    FirstVolume,
    /// A sample, the last of so many reads of a fill. The first fill comes
    /// before the device starts.
    Read { reads: u32, first: bool },
    /// The file is opened again, after so many reads of a fill.
    Reopen { reads: u32, first: bool },
    /// So many frames are written; the first ones come before the device starts.
    Write { frames: u32, first: bool },
    /// The owner activates or stops the worker.
    Activation,
    /// The device starts.
    Start,
    /// The first position of the device.
    Origin,
    /// What the owner asks for now.
    Round,
    /// The device is paused or resumed.
    Transport { session: Option<SessionVolume>, write: bool },
    /// The volume is set.
    Session { write: bool },
    /// The device wants frames.
    Wait,
    /// The position of the device.
    Position,
    /// How much is still to be played.
    Padding,
    /// Nothing: the worker is over.
    Over,
}

/// What came of the last action.
pub enum AudioEvent {
    /// The block alignment of the wave format, if there is one.
    Format(Option<u16>),
    /// The device was opened; the owner wants that volume.
    DeviceOpened { buffer_frames: u32, clock_frequency: u64, muted: bool, volume: i32 },
    /// The volume was set.
    VolumeSet,
    /// A sample was read.
    Read(ReadResult),
    /// The file was opened again.
    Reopened,
    /// The frames were written.
    Written,
    /// What the owner has asked for before the start.
    Asked { stop: bool, activated: bool },
    /// The device started.
    Started,
    /// The position of the device.
    Position { ticks: u64 },
    /// What the owner asks for.
    Controls(AudioControls),
    /// The device was paused or resumed.
    Transported,
    /// The wait ended with that status.
    Waited(u32),
    /// So many frames are still to be played.
    Padding(u32),
}

/// A thing to do that needs no more than a few numbers.
#[derive(Clone, Copy, Debug, PartialEq, Eq, Structural)]
pub enum AudioCommand {
    /// Open the default device and its services.
    OpenDevice,
    /// Set the volume of the session.
    SetVolume(SessionVolume),
    /// Read a sample.
    Read,
    /// Open the file again, with the format that was settled on.
    Reopen,
    /// Tell the owner that the worker is ready, then ask for the activation.
    ReportReady,
    /// Sleep for five milliseconds, then ask for the activation.
    AwaitActivation,
    /// Start the device.
    StartDevice,
    /// Read the position of the device.
    ReadPosition,
    /// See what the owner asks for.
    CheckControls,
    /// Pause the device.
    Pause,
    /// Resume the device.
    Resume,
    /// Sleep for ten milliseconds, then see what the owner asks for.
    Sleep,
    /// Wait for the device, for at most 50 milliseconds.
    Wait,
    /// Read how much is still to be played.
    ReadPadding,
    /// End the worker. Where `stop_device` is set, the device is stopped first.
    Finish { stop_device: bool },
    /// The event does not answer the last action.
    Unexpected,
}

/// What to do next.
pub enum AudioAction {
    Do(AudioCommand),
    /// Write the frames.
    Write { frames: u32, bytes: Vec<u8> },
    /// End the worker with an error.
    Fail(String),
}

/// What to do next, by its contents.
pub ghost enum PlannedAction {
    Do(AudioCommand),
    Write { frames: u32, bytes: Seq<u8> },
    Fail(Seq<char>),
}

impl View for AudioAction {
    type V = PlannedAction;

    open spec fn view(&self) -> PlannedAction {
        match *self {
            AudioAction::Do(command) => PlannedAction::Do(command),
            AudioAction::Write { frames, bytes } => PlannedAction::Write { frames, bytes: bytes@ },
            AudioAction::Fail(error) => PlannedAction::Fail(error@),
        }
    }
}

/// A session on an opened device, by its contents.
pub ghost struct SessionView {
    pub block_align: usize,
    pub buffer_frames: u32,
    pub clock_frequency: u64,
    pub clock_origin: u64,
    pub applied: AppliedControls,
    pub queue: Seq<u8>,
}

/// A session by its contents.
pub open spec fn session_view(session: AudioSession) -> SessionView {
    SessionView {
        block_align: session.block_align,
        buffer_frames: session.buffer_frames,
        clock_frequency: session.clock_frequency,
        clock_origin: session.clock_origin,
        applied: session.applied,
        queue: session.queue@,
    }
}

/// The state of a worker.
pub struct AudioWorker {
    pub phase: AudioPhase,
    pub session: Option<AudioSession>,
    /// How many frames the device has taken; it starts over where it ends.
    pub frames_written: u64,
}

/// The state of a worker, by its contents.
pub ghost struct WorkerView {
    pub phase: AudioPhase,
    pub session: Option<SessionView>,
    pub frames_written: u64,
}

impl View for AudioWorker {
    type V = WorkerView;

    open spec fn view(&self) -> WorkerView {
        WorkerView {
            phase: self.phase,
            session: match self.session {
                Some(session) => Some(session_view(session)),
                None => None,
            },
            frames_written: self.frames_written,
        }
    }
}

impl SessionView {
    /// How many whole frames can be written into so much room.
    pub open spec fn writable(self, room: int) -> int {
        smaller(room, self.queue.len() as int / self.block_align as int)
    }

    /// The session without the bytes of its first frames.
    pub open spec fn without(self, frames: int) -> SessionView {
        SessionView { queue: self.queue.skip(frames * self.block_align), ..self }
    }

    /// The bytes of the first frames.
    pub open spec fn front(self, frames: int) -> Seq<u8> {
        self.queue.take(frames * self.block_align)
    }
}

impl WorkerView {
    /// The worker goes on to wait in a phase.
    pub open spec fn waits(self, phase: AudioPhase, command: AudioCommand) -> (
        WorkerView,
        PlannedAction,
    ) {
        (WorkerView { phase, ..self }, PlannedAction::Do(command))
    }

    /// The worker fails.
    pub open spec fn fails(self, error: Seq<char>) -> (WorkerView, PlannedAction) {
        (WorkerView { phase: AudioPhase::Over, ..self }, PlannedAction::Fail(error))
    }

    /// The worker writes its first frames.
    pub open spec fn writes(self, frames: int, first: bool) -> (WorkerView, PlannedAction) {
        let session = self.session->0;
        (
            WorkerView {
                phase: AudioPhase::Write { frames: frames as u32, first },
                session: Some(session.without(frames)),
                ..self
            },
            PlannedAction::Write { frames: frames as u32, bytes: session.front(frames) },
        )
    }

    /// The fill goes on after so many reads, until there is enough or the reads
    /// are used up. Enough is one device buffer at first, and two later.
    pub open spec fn fills(self, reads: u32, first: bool) -> (WorkerView, PlannedAction) {
        let session = self.session->0;
        let target = session.buffer_frames * session.block_align * (if first {
            1int
        } else {
            2
        });
        if reads < MAX_READS_PER_FILL && session.queue.len() < target {
            self.waits(AudioPhase::Read { reads: (reads + 1) as u32, first }, AudioCommand::Read)
        } else if !first {
            self.waits(AudioPhase::Padding, AudioCommand::ReadPadding)
        } else if session.writable(session.buffer_frames as int) == 0 {
            self.fails("The MP4 audio stream produced no decoded PCM samples."@)
        } else {
            self.writes(session.writable(session.buffer_frames as int), true)
        }
    }

    /// The round ends with a write, or, on a paused device, with a sleep.
    pub open spec fn closes_round(self, write: bool) -> (WorkerView, PlannedAction) {
        if write {
            self.waits(AudioPhase::Wait, AudioCommand::Wait)
        } else {
            self.waits(AudioPhase::Round, AudioCommand::Sleep)
        }
    }

    /// The volume is set where it changed.
    pub open spec fn sets_session(self, session: Option<SessionVolume>, write: bool) -> (
        WorkerView,
        PlannedAction,
    ) {
        match session {
            Some(volume) => self.waits(
                AudioPhase::Session { write },
                AudioCommand::SetVolume(volume),
            ),
            None => self.closes_round(write),
        }
    }

    /// A round begins with what the owner asks for.
    pub open spec fn begins_round(self, asked: AudioControls) -> (WorkerView, PlannedAction) {
        let session = self.session->0;
        match audio_round(session.applied, asked) {
            AudioRound::Finish => self.waits(
                AudioPhase::Over,
                AudioCommand::Finish { stop_device: true },
            ),
            AudioRound::Go { transport, session: volume, write } => {
                let next = WorkerView {
                    session: Some(
                        SessionView { applied: applied_after(session.applied, asked), ..session },
                    ),
                    ..self
                };
                match transport {
                    Some(Transport::Pause) => next.waits(
                        AudioPhase::Transport { session: volume, write },
                        AudioCommand::Pause,
                    ),
                    Some(Transport::Resume) => next.waits(
                        AudioPhase::Transport { session: volume, write },
                        AudioCommand::Resume,
                    ),
                    None => next.sets_session(volume, write),
                }
            },
        }
    }

    /// What a worker does after an event.
    pub open spec fn after(self, event: AudioEvent) -> (WorkerView, PlannedAction) {
        match (self.phase, event) {
            (AudioPhase::Format, AudioEvent::Format(block_align)) => match block_align {
                None => self.fails("Media Foundation returned no PCM wave format."@),
                Some(align) => if align == 0 {
                    self.fails("Decoded PCM format has zero block alignment."@)
                } else {
                    self.waits(AudioPhase::Device(align as usize), AudioCommand::OpenDevice)
                },
            },
            (
                AudioPhase::Device(block_align),
                AudioEvent::DeviceOpened { buffer_frames, clock_frequency, muted, volume },
            ) => if clock_frequency == 0 {
                self.fails("WASAPI returned a zero device-clock frequency."@)
            } else {
                (WorkerView {
                    session: Some(
                        SessionView {
                            block_align,
                            buffer_frames,
                            clock_frequency,
                            clock_origin: 0,
                            applied: AppliedControls { paused: false, muted, volume },
                            queue: Seq::empty(),
                        },
                    ),
                    ..self
                }).waits(
                    AudioPhase::FirstVolume,
                    AudioCommand::SetVolume(
                        SessionVolume { volume: clamped_volume(volume), muted },
                    ),
                )
            },
            (AudioPhase::FirstVolume, AudioEvent::VolumeSet) => self.fills(0, true),
            (AudioPhase::Read { reads, first }, AudioEvent::Read(result)) => match result {
                ReadResult::Data(bytes) => (WorkerView {
                    session: Some(
                        SessionView {
                            queue: self.session->0.queue + bytes@,
                            ..self.session->0
                        },
                    ),
                    ..self
                }).fills(reads, first),
                ReadResult::Empty => self.fills(reads, first),
                ReadResult::EndOfStream => self.waits(
                    AudioPhase::Reopen { reads, first },
                    AudioCommand::Reopen,
                ),
            },
            (AudioPhase::Reopen { reads, first }, AudioEvent::Reopened) => self.fills(reads, first),
            (AudioPhase::Write { frames, first }, AudioEvent::Written) => {
                let next = WorkerView {
                    frames_written: ((self.frames_written + frames) % 0x1_0000_0000_0000_0000)
                        as u64,
                    ..self
                };
                if first {
                    next.waits(AudioPhase::Activation, AudioCommand::ReportReady)
                } else {
                    next.waits(AudioPhase::Round, AudioCommand::CheckControls)
                }
            },
            (AudioPhase::Activation, AudioEvent::Asked { stop, activated }) => if stop {
                self.waits(AudioPhase::Over, AudioCommand::Finish { stop_device: false })
            } else if activated {
                self.waits(AudioPhase::Start, AudioCommand::StartDevice)
            } else {
                self.waits(AudioPhase::Activation, AudioCommand::AwaitActivation)
            },
            (AudioPhase::Start, AudioEvent::Started) => self.waits(
                AudioPhase::Origin,
                AudioCommand::ReadPosition,
            ),
            (AudioPhase::Origin, AudioEvent::Position { ticks }) => (WorkerView {
                session: Some(
                    SessionView {
                        clock_origin: ticks,
                        applied: AppliedControls { paused: false, ..self.session->0.applied },
                        ..self.session->0
                    },
                ),
                ..self
            }).waits(AudioPhase::Round, AudioCommand::CheckControls),
            (AudioPhase::Round, AudioEvent::Controls(asked)) => self.begins_round(asked),
            (
                AudioPhase::Transport { session, write },
                AudioEvent::Transported,
            ) => self.sets_session(session, write),
            (AudioPhase::Session { write }, AudioEvent::VolumeSet) => self.closes_round(write),
            (AudioPhase::Wait, AudioEvent::Waited(status)) => if status == WAIT_SIGNALLED || status
                == WAIT_TIMED_OUT {
                self.waits(AudioPhase::Position, AudioCommand::ReadPosition)
            } else if status == WAIT_BROKEN {
                self.fails("Waiting for the WASAPI render event failed."@)
            } else {
                self.fails(
                    "WASAPI returned an unexpected wait status: "@ + "0x"@ + hexadecimal(
                        status as nat,
                        8,
                    ) + "."@,
                )
            },
            (AudioPhase::Position, AudioEvent::Position { .. }) => self.fills(0, false),
            (AudioPhase::Padding, AudioEvent::Padding(padding)) => {
                let session = self.session->0;
                let room: int = if padding < session.buffer_frames {
                    session.buffer_frames - padding
                } else {
                    0
                };
                if session.writable(room) == 0 {
                    self.waits(AudioPhase::Round, AudioCommand::CheckControls)
                } else {
                    self.writes(session.writable(room), false)
                }
            },
            _ => (self, PlannedAction::Do(AudioCommand::Unexpected)),
        }
    }

    /// What becomes of the playback clock: it starts with the device, follows
    /// its position, and rests when the worker is stopped. However else a worker
    /// ends, the clock rests once the end is recorded.
    pub open spec fn clock_after(self, event: AudioEvent, active: bool, position: u64) -> (
        bool,
        u64,
    ) {
        match (self.phase, event) {
            (AudioPhase::Origin, AudioEvent::Position { .. }) => (true, 0),
            (AudioPhase::Position, AudioEvent::Position { ticks }) => (
                active,
                position_of_ticks(
                    elapsed_ticks(ticks, self.session->0.clock_origin),
                    self.session->0.clock_frequency as int,
                ) as u64,
            ),
            (AudioPhase::Round, AudioEvent::Controls(asked)) => if asked.stop {
                (false, position)
            } else {
                (active, position)
            },
            _ => (active, position),
        }
    }
}

impl AudioWorker {
    /// From the opened device on there is a session in order, and until then
    /// there is none that is needed.
    pub open spec fn wf(&self) -> bool {
        match self.phase {
            AudioPhase::Format => self.session is None,
            AudioPhase::Device(block_align) => self.session is None && block_align > 0,
            AudioPhase::Over => true,
            AudioPhase::Read { reads, .. } => self.session matches Some(session) && session.wf()
                && reads <= MAX_READS_PER_FILL,
            AudioPhase::Reopen { reads, .. } => self.session matches Some(session) && session.wf()
                && reads <= MAX_READS_PER_FILL,
            _ => self.session matches Some(session) && session.wf(),
        }
    }

    /// Whether what an event brings can be counted in bytes.
    pub open spec fn holds(&self, event: AudioEvent) -> bool {
        match (self.phase, event) {
            (
                AudioPhase::Device(block_align),
                AudioEvent::DeviceOpened { buffer_frames, .. },
            ) => buffer_frames * block_align * 2 <= usize::MAX,
            (
                AudioPhase::Read { .. },
                AudioEvent::Read(ReadResult::Data(bytes)),
            ) => self.session->0.queue@.len() + bytes@.len() <= usize::MAX,
            _ => true,
        }
    }

    /// A worker that waits for the wave format of its file.
    pub fn new() -> (worker: Self)
        ensures
            worker.wf(),
            worker@ == (WorkerView {
                phase: AudioPhase::Format,
                session: None,
                frames_written: 0,
            }),
    {
        AudioWorker { phase: AudioPhase::Format, session: None, frames_written: 0 }
    }

    fn wait_in(&mut self, phase: AudioPhase, command: AudioCommand) -> (action: AudioAction)
        ensures
            (final(self)@, action@) == old(self)@.waits(phase, command),
            final(self).phase == phase,
            final(self).session == old(self).session,
            final(self).frames_written == old(self).frames_written,
    {
        self.phase = phase;
        AudioAction::Do(command)
    }

    fn fail(&mut self, error: String) -> (action: AudioAction)
        ensures
            (final(self)@, action@) == old(self)@.fails(error@),
            final(self).phase == AudioPhase::Over,
    {
        self.phase = AudioPhase::Over;
        AudioAction::Fail(error)
    }

    fn fill(&mut self, reads: u32, first: bool) -> (action: AudioAction)
        requires
            old(self).session matches Some(session) && session.wf(),
            reads <= MAX_READS_PER_FILL,
        ensures
            (final(self)@, action@) == old(self)@.fills(reads, first),
            final(self).wf(),
    {
        match &mut self.session {
            None => AudioAction::Do(AudioCommand::Unexpected),
            Some(session) => {
                let target: usize = if first {
                    session.prefill_bytes()
                } else {
                    session.refill_bytes()
                };
                let mut fill = PcmFill { reads, target_bytes: target };
                if fill.wants_read(&session.queue) {
                    self.phase = AudioPhase::Read { reads: fill.reads, first };
                    AudioAction::Do(AudioCommand::Read)
                } else if !first {
                    self.phase = AudioPhase::Padding;
                    AudioAction::Do(AudioCommand::ReadPadding)
                } else {
                    match session.first_write() {
                        Ok(write) => {
                            self.phase = AudioPhase::Write { frames: write.frames, first: true };
                            AudioAction::Write { frames: write.frames, bytes: write.bytes }
                        },
                        Err(error) => {
                            self.phase = AudioPhase::Over;
                            AudioAction::Fail(error)
                        },
                    }
                }
            },
        }
    }

    fn close_round(&mut self, write: bool) -> (action: AudioAction)
        requires
            old(self).session matches Some(session) && session.wf(),
        ensures
            (final(self)@, action@) == old(self)@.closes_round(write),
            final(self).wf(),
    {
        if write {
            self.wait_in(AudioPhase::Wait, AudioCommand::Wait)
        } else {
            self.wait_in(AudioPhase::Round, AudioCommand::Sleep)
        }
    }

    fn set_session(&mut self, session: Option<SessionVolume>, write: bool) -> (action: AudioAction)
        requires
            old(self).session matches Some(session) && session.wf(),
        ensures
            (final(self)@, action@) == old(self)@.sets_session(session, write),
            final(self).wf(),
    {
        match session {
            Some(volume) => self.wait_in(
                AudioPhase::Session { write },
                AudioCommand::SetVolume(volume),
            ),
            None => self.close_round(write),
        }
    }

    fn begin_round(&mut self, asked: AudioControls, clock: &mut PlaybackClock) -> (action:
        AudioAction)
        requires
            old(self).session matches Some(session) && session.wf(),
        ensures
            (final(self)@, action@) == old(self)@.begins_round(asked),
            final(self).wf(),
            final(clock).active() == (old(clock).active() && !asked.stop),
            final(clock).position() == old(clock).position(),
    {
        let round: AudioRound = match &mut self.session {
            None => AudioRound::Finish,
            Some(session) => session.next_round(asked),
        };
        match round {
            AudioRound::Finish => {
                clock.deactivate();
                self.wait_in(AudioPhase::Over, AudioCommand::Finish { stop_device: true })
            },
            AudioRound::Go { transport, session, write } => match transport {
                Some(Transport::Pause) => self.wait_in(
                    AudioPhase::Transport { session, write },
                    AudioCommand::Pause,
                ),
                Some(Transport::Resume) => self.wait_in(
                    AudioPhase::Transport { session, write },
                    AudioCommand::Resume,
                ),
                None => self.set_session(session, write),
            },
        }
    }

    /// Goes on after an event, and lets the playback clock follow.
    pub fn run_audio_renderer(&mut self, event: AudioEvent, clock: &mut PlaybackClock) -> (action:
        AudioAction)
        requires
            old(self).wf(),
            old(self).holds(event),
        ensures
            final(self).wf(),
            (final(self)@, action@) == old(self)@.after(event),
            (final(clock).active(), final(clock).position()) == old(self)@.clock_after(
                event,
                old(clock).active(),
                old(clock).position(),
            ),
    {
        let phase = self.phase;
        match (phase, event) {
            (AudioPhase::Format, AudioEvent::Format(block_align)) => match pcm_block_align(
                block_align,
            ) {
                Ok(align) => self.wait_in(AudioPhase::Device(align), AudioCommand::OpenDevice),
                Err(error) => self.fail(error),
            },
            (
                AudioPhase::Device(block_align),
                AudioEvent::DeviceOpened { buffer_frames, clock_frequency, muted, volume },
            ) => match AudioSession::open(
                block_align,
                buffer_frames,
                clock_frequency,
                muted,
                volume,
            ) {
                Ok(session) => {
                    self.session = Some(session);
                    self.wait_in(
                        AudioPhase::FirstVolume,
                        AudioCommand::SetVolume(
                            SessionVolume { volume: clamp_volume(volume), muted },
                        ),
                    )
                },
                Err(error) => self.fail(error),
            },
            (AudioPhase::FirstVolume, AudioEvent::VolumeSet) => self.fill(0, true),
            (AudioPhase::Read { reads, first }, AudioEvent::Read(result)) => {
                let reopen: bool = match &mut self.session {
                    None => false,
                    Some(session) => queue_pcm_read(&mut session.queue, result),
                };
                if reopen {
                    self.wait_in(AudioPhase::Reopen { reads, first }, AudioCommand::Reopen)
                } else {
                    self.fill(reads, first)
                }
            },
            (AudioPhase::Reopen { reads, first }, AudioEvent::Reopened) => self.fill(reads, first),
            (AudioPhase::Write { frames, first }, AudioEvent::Written) => {
                self.frames_written = self.frames_written.wrapping_add(frames as u64);
                if first {
                    self.wait_in(AudioPhase::Activation, AudioCommand::ReportReady)
                } else {
                    self.wait_in(AudioPhase::Round, AudioCommand::CheckControls)
                }
            },
            (AudioPhase::Activation, AudioEvent::Asked { stop, activated }) => {
                match poll_activation(stop, activated) {
                    Activation::Stop => self.wait_in(
                        AudioPhase::Over,
                        AudioCommand::Finish { stop_device: false },
                    ),
                    Activation::Start => self.wait_in(
                        AudioPhase::Start,
                        AudioCommand::StartDevice,
                    ),
                    Activation::Wait => self.wait_in(
                        AudioPhase::Activation,
                        AudioCommand::AwaitActivation,
                    ),
                }
            },
            (AudioPhase::Start, AudioEvent::Started) => self.wait_in(
                AudioPhase::Origin,
                AudioCommand::ReadPosition,
            ),
            (AudioPhase::Origin, AudioEvent::Position { ticks }) => {
                match &mut self.session {
                    None => {},
                    Some(session) => session.start_clock(clock, ticks),
                }
                self.wait_in(AudioPhase::Round, AudioCommand::CheckControls)
            },
            (AudioPhase::Round, AudioEvent::Controls(asked)) => self.begin_round(asked, clock),
            (AudioPhase::Transport { session, write }, AudioEvent::Transported) => {
                self.set_session(session, write)
            },
            (AudioPhase::Session { write }, AudioEvent::VolumeSet) => self.close_round(write),
            (AudioPhase::Wait, AudioEvent::Waited(status)) => match audio_wait(status) {
                Ok(()) => self.wait_in(AudioPhase::Position, AudioCommand::ReadPosition),
                Err(error) => self.fail(error),
            },
            (AudioPhase::Position, AudioEvent::Position { ticks }) => {
                match &self.session {
                    None => {},
                    Some(session) => session.advance_clock(clock, ticks),
                }
                self.fill(0, false)
            },
            (AudioPhase::Padding, AudioEvent::Padding(padding)) => {
                let write = match &mut self.session {
                    None => None,
                    Some(session) => session.next_write(padding),
                };
                match write {
                    Some(write) => {
                        self.phase = AudioPhase::Write { frames: write.frames, first: false };
                        AudioAction::Write { frames: write.frames, bytes: write.bytes }
                    },
                    None => self.wait_in(AudioPhase::Round, AudioCommand::CheckControls),
                }
            },
            _ => AudioAction::Do(AudioCommand::Unexpected),
        }
    }
}

/// The bytes that an event brings to a worker.
pub open spec fn bytes_in(worker: WorkerView, event: AudioEvent) -> Seq<u8> {
    match (worker.phase, event) {
        (AudioPhase::Read { .. }, AudioEvent::Read(ReadResult::Data(bytes))) => bytes@,
        _ => Seq::empty(),
    }
}

/// The bytes that an action takes to the device.
pub open spec fn bytes_out(action: PlannedAction) -> Seq<u8> {
    match action {
        PlannedAction::Write { bytes, .. } => bytes,
        _ => Seq::empty(),
    }
}

/// A worker loses, doubles and reorders nothing: what it had queued, then what
/// came in, is what goes out, then what it still has queued.
pub proof fn audio_keeps_every_byte(worker: WorkerView, event: AudioEvent)
    requires
        worker.session matches Some(session) && session.block_align > 0,
        !(worker.phase is Device),
    ensures
        ({
            let (next, action) = worker.after(event);
            &&& next.session is Some
            &&& worker.session->0.queue + bytes_in(worker, event) == bytes_out(action)
                + next.session->0.queue
        }),
{
    let (next, action) = worker.after(event);
    let queue = worker.session->0.queue + bytes_in(worker, event);
    if let PlannedAction::Write { frames, bytes } = action {
        let align = worker.session->0.block_align as int;
        let count = frames * align;
        let queued = queue.len() as int;
        let full = SessionView { queue, ..worker.session->0 };
        assert(full.queue.len() / worker.session->0.block_align as nat >= 0);
        assert(0 <= frames <= queued / align);
        assert(0 <= count <= queued) by (nonlinear_arith)
            requires
                align > 0,
                0 <= frames <= queued / align,
                count == frames * align,
        ;
        assert(queue =~= queue.take(count) + queue.skip(count));
        assert(worker.session->0.queue + Seq::<u8>::empty() =~= worker.session->0.queue);
        assert(next.session->0.queue =~= queue.skip(count));
        assert(bytes =~= queue.take(count));
    } else {
        assert(worker.session->0.queue + Seq::<u8>::empty() =~= worker.session->0.queue);
        assert(Seq::<u8>::empty() + queue =~= queue);
        assert(next.session->0.queue =~= queue);
    }
    assert(queue =~= bytes_out(action) + next.session->0.queue);
}

/// A worker after a run of events.
pub open spec fn after_all(worker: WorkerView, events: Seq<AudioEvent>) -> WorkerView
    decreases events.len(),
{
    if events.len() == 0 {
        worker
    } else {
        after_all(worker.after(events[0]).0, events.skip(1))
    }
}

/// The bytes that a run of events brings.
pub open spec fn all_bytes_in(worker: WorkerView, events: Seq<AudioEvent>) -> Seq<u8>
    decreases events.len(),
{
    if events.len() == 0 {
        Seq::empty()
    } else {
        bytes_in(worker, events[0]) + all_bytes_in(worker.after(events[0]).0, events.skip(1))
    }
}

/// The bytes that go to the device in a run of events.
pub open spec fn all_bytes_out(worker: WorkerView, events: Seq<AudioEvent>) -> Seq<u8>
    decreases events.len(),
{
    if events.len() == 0 {
        Seq::empty()
    } else {
        bytes_out(worker.after(events[0]).1) + all_bytes_out(
            worker.after(events[0]).0,
            events.skip(1),
        )
    }
}

/// Whatever happens to an opened device, the sound is kept: over any run of
/// events, what was queued, then what came in, is what went out, then what is
/// still queued.
pub proof fn a_run_keeps_every_byte(worker: WorkerView, events: Seq<AudioEvent>)
    requires
        worker.session matches Some(session) && session.block_align > 0,
        !(worker.phase is Format) && !(worker.phase is Device),
    ensures
        after_all(worker, events).session is Some,
        worker.session->0.queue + all_bytes_in(worker, events) == all_bytes_out(worker, events)
            + after_all(worker, events).session->0.queue,
    decreases events.len(),
{
    let queue = worker.session->0.queue;
    if events.len() == 0 {
        assert(queue + Seq::<u8>::empty() =~= Seq::<u8>::empty() + queue);
    } else {
        let (next, action) = worker.after(events[0]);
        let rest = events.skip(1);
        audio_keeps_every_byte(worker, events[0]);
        a_run_keeps_every_byte(next, rest);
        let first_in = bytes_in(worker, events[0]);
        let first_out = bytes_out(action);
        let later_in = all_bytes_in(next, rest);
        let later_out = all_bytes_out(next, rest);
        let left = after_all(next, rest).session->0.queue;
        assert(queue + (first_in + later_in) =~= (queue + first_in) + later_in);
        assert((first_out + next.session->0.queue) + later_in =~= first_out + (
        next.session->0.queue + later_in));
        assert(first_out + (later_out + left) =~= (first_out + later_out) + left);
    }
}

/// The count of written frames grows by what the device has taken, once it has
/// taken it, and by nothing else.
pub proof fn written_frames_are_counted(
    worker: WorkerView,
    event: AudioEvent,
    written: WorkerView,
    frames: u32,
    bytes: Seq<u8>,
)
    requires
        worker.after(event) == (written, PlannedAction::Write { frames, bytes }),
    ensures
        written.frames_written == worker.frames_written,
        written.after(AudioEvent::Written).0.frames_written == (worker.frames_written + frames)
            % 0x1_0000_0000_0000_0000,
{
}

/// The device starts only for an owner that has activated the worker and has
/// not asked it to stop.
pub proof fn the_device_waits_for_activation(worker: WorkerView, event: AudioEvent)
    requires
        worker.after(event).1 == PlannedAction::Do(AudioCommand::StartDevice),
    ensures
        worker.phase == AudioPhase::Activation,
        event == (AudioEvent::Asked { stop: false, activated: true }),
{
}

/// An owner that asks for a pause hears no more: until it asks for something
/// else, the round ends without a write.
pub proof fn a_paused_worker_writes_nothing(worker: WorkerView, asked: AudioControls)
    requires
        worker.phase == AudioPhase::Round,
        worker.session is Some,
        asked.paused,
        !asked.stop,
    ensures
        ({
            let (next, action) = worker.after(AudioEvent::Controls(asked));
            match next.phase {
                AudioPhase::Transport { write, .. } => !write && action == PlannedAction::Do(
                    AudioCommand::Pause,
                ),
                AudioPhase::Session { write } => !write,
                AudioPhase::Round => action == PlannedAction::Do(AudioCommand::Sleep),
                _ => false,
            }
        }),
{
}

/// A mute or a volume that the owner asks for while the worker starts up is not
/// lost: the first round after the start sends it to the session.
pub proof fn a_change_during_startup_reaches_the_session(
    worker: WorkerView,
    ticks: u64,
    asked: AudioControls,
)
    requires
        worker.phase == AudioPhase::Origin,
        worker.session is Some,
        !asked.stop,
        asked.muted != worker.session->0.applied.muted || asked.volume
            != worker.session->0.applied.volume,
    ensures
        ({
            let wanted = SessionVolume { volume: clamped_volume(asked.volume), muted: asked.muted };
            let started = worker.after(AudioEvent::Position { ticks }).0;
            let (round, action) = started.after(AudioEvent::Controls(asked));
            let (later, later_action) = round.after(AudioEvent::Transported);
            ||| action == PlannedAction::Do(AudioCommand::SetVolume(wanted))
            ||| action == PlannedAction::Do(AudioCommand::Pause) && later_action
                == PlannedAction::Do(AudioCommand::SetVolume(wanted))
        }),
{
}

/// What a worker has applied is what it last sent to the session: nothing but a
/// round, which sends what differs, changes it.
pub proof fn only_a_round_changes_the_volume(worker: WorkerView, event: AudioEvent)
    requires
        worker.session is Some,
        worker.phase != AudioPhase::Round,
        !(worker.phase is Device),
    ensures
        worker.after(event).0.session is Some,
        worker.after(event).0.session->0.applied.muted == worker.session->0.applied.muted,
        worker.after(event).0.session->0.applied.volume == worker.session->0.applied.volume,
{
}

/// The playback clock runs only from the start of the device to the end of the
/// worker, and starts at zero.
pub proof fn the_clock_runs_with_the_device(worker: WorkerView, event: AudioEvent, position: u64)
    ensures
        worker.clock_after(event, false, position).0 ==> worker.phase == AudioPhase::Origin
            && worker.clock_after(event, false, position).1 == 0,
        worker.after(event).1 == PlannedAction::Do(AudioCommand::Finish { stop_device: true })
            ==> !worker.clock_after(event, true, position).0,
{
}

/// A worker goes from the wave format to the device, and starts it with the mute
/// and the volume that the owner wants. A format without frames and a clock that
/// does not tick end it.
pub proof fn a_worker_opens_its_device(
    worker: WorkerView,
    align: u16,
    buffer_frames: u32,
    clock_frequency: u64,
    muted: bool,
    volume: i32,
)
    requires
        worker.phase == AudioPhase::Format,
        0 <= volume <= 100,
    ensures
        worker.after(AudioEvent::Format(None)).1 is Fail,
        align == 0 ==> worker.after(AudioEvent::Format(Some(align))).1 is Fail,
        align > 0 ==> ({
            let (waiting, open) = worker.after(AudioEvent::Format(Some(align)));
            let (opened, action) = waiting.after(
                AudioEvent::DeviceOpened { buffer_frames, clock_frequency, muted, volume },
            );
            &&& open == PlannedAction::Do(AudioCommand::OpenDevice)
            &&& clock_frequency == 0 ==> action is Fail
            &&& clock_frequency > 0 ==> {
                &&& action == PlannedAction::Do(
                    AudioCommand::SetVolume(SessionVolume { volume, muted }),
                )
                &&& opened.session matches Some(session) && session.block_align == align
                    && session.buffer_frames == buffer_frames && session.clock_frequency
                    == clock_frequency && session.queue.len() == 0 && session.applied.muted
                    == muted && session.applied.volume == volume && !session.applied.paused
                &&& opened.after(AudioEvent::VolumeSet) == opened.fills(0, true)
            }
        }),
{
}

/// A fill reads until there is enough for the device, one buffer before it
/// starts and two while it runs, but never more than 256 times. What it has read
/// by then is what is written.
pub proof fn a_fill_reads_until_there_is_enough(worker: WorkerView, reads: u32, first: bool)
    requires
        worker.session is Some,
        reads <= 256,
    ensures
        ({
            let session = worker.session->0;
            let buffer = session.buffer_frames * session.block_align;
            let (next, action) = worker.fills(reads, first);
            &&& action == PlannedAction::Do(AudioCommand::Read) <==> reads < 256
                && session.queue.len() < (if first {
                buffer
            } else {
                buffer * 2
            })
            &&& action == PlannedAction::Do(AudioCommand::Read) ==> next.phase == (
            AudioPhase::Read { reads: (reads + 1) as u32, first }) && next.session
                == worker.session
            &&& action != PlannedAction::Do(AudioCommand::Read) && !first ==> action
                == PlannedAction::Do(AudioCommand::ReadPadding) && next.phase
                == AudioPhase::Padding && next.session == worker.session
            &&& action != PlannedAction::Do(AudioCommand::Read) && first ==> action is Write
                || action is Fail
        }),
{
    let session = worker.session->0;
    assert(session.buffer_frames * session.block_align * 1 == session.buffer_frames
        * session.block_align);
}

/// What a read gives is queued behind everything else, and the fill goes on; at
/// the end of the file the file is opened again, and the fill goes on too.
pub proof fn a_read_goes_on_with_the_fill(
    worker: WorkerView,
    reads: u32,
    first: bool,
    bytes: Vec<u8>,
)
    requires
        worker.phase == (AudioPhase::Read { reads, first }),
        worker.session is Some,
    ensures
        worker.after(AudioEvent::Read(ReadResult::Empty)) == worker.fills(reads, first),
        worker.after(AudioEvent::Read(ReadResult::Data(bytes))) == (WorkerView {
            session: Some(
                SessionView { queue: worker.session->0.queue + bytes@, ..worker.session->0 },
            ),
            ..worker
        }).fills(reads, first),
        ({
            let (ended, reopen) = worker.after(AudioEvent::Read(ReadResult::EndOfStream));
            &&& reopen == PlannedAction::Do(AudioCommand::Reopen)
            &&& ended.session == worker.session
            &&& ended.after(AudioEvent::Reopened) == ended.fills(reads, first)
        }),
{
}

/// As much is written as the device has room for and as there are whole frames,
/// from the front of the queue; nothing is written only where there is no room
/// or no whole frame.
pub proof fn a_write_is_as_large_as_can_be(worker: WorkerView, padding: u32)
    requires
        worker.phase == AudioPhase::Padding,
        worker.session matches Some(session) && session.block_align > 0,
    ensures
        ({
            let session = worker.session->0;
            let align = session.block_align as int;
            let room = session.buffer_frames - padding;
            let (next, action) = worker.after(AudioEvent::Padding(padding));
            match action {
                PlannedAction::Write { frames, bytes } => {
                    &&& 0 < frames <= room
                    &&& frames * align <= session.queue.len()
                    &&& frames == room || (frames + 1) * align > session.queue.len()
                    &&& bytes == session.queue.take(frames * align)
                    &&& next.session->0.queue == session.queue.skip(frames * align)
                    &&& next.phase == (AudioPhase::Write { frames, first: false })
                },
                PlannedAction::Do(command) => {
                    &&& command == AudioCommand::CheckControls
                    &&& room <= 0 || session.queue.len() < align
                    &&& next.session == worker.session
                    &&& next.phase == AudioPhase::Round
                },
                PlannedAction::Fail(_) => false,
            }
        }),
{
    let session = worker.session->0;
    let room: int = if padding < session.buffer_frames {
        session.buffer_frames - padding
    } else {
        0
    };
    lemma_whole_frames(session, room);
}

/// Before the device starts it is given as much as its buffer holds and as there
/// are whole frames; a file that gives none ends the worker.
pub proof fn the_first_write_is_as_large_as_can_be(worker: WorkerView)
    requires
        worker.session matches Some(session) && session.block_align > 0,
    ensures
        ({
            let session = worker.session->0;
            let align = session.block_align as int;
            let (next, action) = worker.fills(256, true);
            match action {
                PlannedAction::Write { frames, bytes } => {
                    &&& 0 < frames <= session.buffer_frames
                    &&& frames * align <= session.queue.len()
                    &&& frames == session.buffer_frames || (frames + 1) * align
                        > session.queue.len()
                    &&& bytes == session.queue.take(frames * align)
                    &&& next.session->0.queue == session.queue.skip(frames * align)
                    &&& next.phase == (AudioPhase::Write { frames, first: true })
                },
                PlannedAction::Fail(error) => {
                    &&& error == "The MP4 audio stream produced no decoded PCM samples."@
                    &&& session.buffer_frames == 0 || session.queue.len() < align
                },
                PlannedAction::Do(_) => false,
            }
        }),
{
    lemma_whole_frames(worker.session->0, worker.session->0.buffer_frames as int);
}

proof fn lemma_whole_frames(session: SessionView, room: int)
    requires
        session.block_align > 0,
        0 <= room,
    ensures
        ({
            let frames = session.writable(room);
            let align = session.block_align as int;
            &&& 0 <= frames <= room
            &&& frames * align <= session.queue.len()
            &&& frames == room || (frames + 1) * align > session.queue.len()
            &&& frames == 0 ==> room == 0 || session.queue.len() < align
        }),
{
    let align = session.block_align as int;
    let queued = session.queue.len() as int;
    let whole = queued / align;
    assert(0 <= whole && whole * align <= queued && queued < (whole + 1) * align)
        by (nonlinear_arith)
        requires
            align > 0,
            queued >= 0,
            whole == queued / align,
    ;
    let frames = session.writable(room);
    assert(frames * align <= queued) by (nonlinear_arith)
        requires
            0 <= frames <= whole,
            whole * align <= queued,
            align > 0,
    ;
    assert(frames == 0 ==> (frames + 1) * align == align) by (nonlinear_arith);
}

/// From the first write on a worker is ready, waits for its owner, starts the
/// device, takes its position for the origin, and goes on with its rounds.
pub proof fn a_ready_worker_waits_for_its_owner(worker: WorkerView, frames: u32, ticks: u64)
    requires
        worker.phase == (AudioPhase::Write { frames, first: true }),
        worker.session is Some,
    ensures
        ({
            let (ready, report) = worker.after(AudioEvent::Written);
            let (waiting, wait) = ready.after(AudioEvent::Asked { stop: false, activated: false });
            let (stopped, finish) = ready.after(AudioEvent::Asked { stop: true, activated: true });
            let (starting, start) = ready.after(AudioEvent::Asked { stop: false, activated: true });
            let (started, read) = starting.after(AudioEvent::Started);
            let (running, check) = started.after(AudioEvent::Position { ticks });
            &&& report == PlannedAction::Do(AudioCommand::ReportReady)
            &&& wait == PlannedAction::Do(AudioCommand::AwaitActivation) && waiting == ready
            &&& finish == PlannedAction::Do(AudioCommand::Finish { stop_device: false })
            &&& stopped.phase == AudioPhase::Over
            &&& start == PlannedAction::Do(AudioCommand::StartDevice)
            &&& read == PlannedAction::Do(AudioCommand::ReadPosition)
            &&& check == PlannedAction::Do(AudioCommand::CheckControls)
            &&& running.phase == AudioPhase::Round
            &&& running.session->0.clock_origin == ticks
            &&& running.session->0.queue == worker.session->0.queue
            &&& started.clock_after(AudioEvent::Position { ticks }, false, 7) == (true, 0u64)
        }),
{
}

/// A round carries out what was asked, in order: first the pause or the
/// resumption where it changes, then mute and volume where one changes, and then
/// it waits for the device, or sleeps where it is paused. A stop ends it at once.
pub proof fn a_round_runs_its_course(worker: WorkerView, asked: AudioControls)
    requires
        worker.phase == AudioPhase::Round,
        worker.session is Some,
        0 <= asked.volume <= 100,
    ensures
        ({
            let applied = worker.session->0.applied;
            let (begun, first) = worker.after(AudioEvent::Controls(asked));
            let moves = asked.paused != applied.paused;
            let changes = asked.muted != applied.muted || asked.volume != applied.volume;
            let (moved, second) = if moves {
                begun.after(AudioEvent::Transported)
            } else {
                (begun, first)
            };
            let (set, third) = if changes {
                moved.after(AudioEvent::VolumeSet)
            } else {
                (moved, second)
            };
            &&& asked.stop ==> first == PlannedAction::Do(
                AudioCommand::Finish { stop_device: true },
            ) && begun.phase == AudioPhase::Over
            &&& !asked.stop ==> {
                &&& moves && asked.paused ==> first == PlannedAction::Do(AudioCommand::Pause)
                &&& moves && !asked.paused ==> first == PlannedAction::Do(AudioCommand::Resume)
                &&& changes ==> second == PlannedAction::Do(
                    AudioCommand::SetVolume(
                        SessionVolume { volume: asked.volume, muted: asked.muted },
                    ),
                )
                &&& asked.paused ==> third == PlannedAction::Do(AudioCommand::Sleep) && set.phase
                    == AudioPhase::Round
                &&& !asked.paused ==> third == PlannedAction::Do(AudioCommand::Wait) && set.phase
                    == AudioPhase::Wait
                &&& set.session->0.applied == (AppliedControls {
                    paused: asked.paused,
                    muted: asked.muted,
                    volume: asked.volume,
                })
                &&& set.session->0.queue == worker.session->0.queue
            }
        }),
{
}

/// A signal of the device and a wait that runs out of time both go on with the
/// position and the fill; any other end of the wait ends the worker.
pub proof fn a_wait_goes_on_with_the_device(worker: WorkerView, status: u32, ticks: u64)
    requires
        worker.phase == AudioPhase::Wait,
        worker.session is Some,
    ensures
        ({
            let (next, action) = worker.after(AudioEvent::Waited(status));
            &&& status == 0 || status == 258 <==> action == PlannedAction::Do(
                AudioCommand::ReadPosition,
            )
            &&& status != 0 && status != 258 <==> action is Fail
            &&& action == PlannedAction::Do(AudioCommand::ReadPosition) ==> next.after(
                AudioEvent::Position { ticks },
            ) == next.fills(0, false)
            &&& next.session == worker.session
        }),
{
}

/// While the device runs, the clock tells its position: the time since the
/// origin, at the frequency of the device. It stands still otherwise, and rests
/// with a stop.
pub proof fn the_clock_follows_the_device(
    worker: WorkerView,
    ticks: u64,
    event: AudioEvent,
    active: bool,
    position: u64,
)
    requires
        worker.session is Some,
        0 < worker.session->0.clock_frequency <= 1_844_674_407_371,
    ensures
        worker.phase == AudioPhase::Position ==> ({
            let (runs, told) = worker.clock_after(
                AudioEvent::Position { ticks },
                active,
                position,
            );
            let origin = worker.session->0.clock_origin;
            let exact = (ticks - origin) * 10_000_000 / worker.session->0.clock_frequency as int;
            &&& runs == active
            &&& ticks <= origin ==> told == 0
            &&& ticks >= origin && exact <= u64::MAX ==> told == exact
        }),
        worker.phase != AudioPhase::Position && worker.phase != AudioPhase::Origin
            ==> worker.clock_after(event, active, position).1 == position,
        worker.phase != AudioPhase::Round && worker.phase != AudioPhase::Origin
            ==> worker.clock_after(event, active, position).0 == active,
        worker.phase == AudioPhase::Round ==> (worker.clock_after(event, active, position).0
            <==> active && !(event matches AudioEvent::Controls(asked) && asked.stop)),
{
    let frequency = worker.session->0.clock_frequency as int;
    position_is_exact(elapsed_ticks(ticks, worker.session->0.clock_origin), frequency);
    assert(0int * UNITS_PER_SECOND / frequency == 0) by (nonlinear_arith)
        requires
            frequency > 0,
    ;
}

/// The device of a worker stays the same, and so does the origin of its clock
/// but for the moment at which it is taken.
pub proof fn the_device_stays_the_same(worker: WorkerView, event: AudioEvent)
    requires
        worker.session is Some,
        !(worker.phase is Device),
    ensures
        ({
            let (next, action) = worker.after(event);
            &&& next.session matches Some(session) && session.block_align
                == worker.session->0.block_align && session.buffer_frames
                == worker.session->0.buffer_frames && session.clock_frequency
                == worker.session->0.clock_frequency
            &&& worker.phase != AudioPhase::Origin ==> next.session->0.clock_origin
                == worker.session->0.clock_origin
            &&& !(worker.phase is Write) ==> next.frames_written == worker.frames_written
        }),
{
}

/// A worker that is over stays over, and an event out of turn changes nothing.
pub proof fn a_finished_worker_stays_finished(worker: WorkerView, event: AudioEvent)
    ensures
        worker.phase == AudioPhase::Over ==> worker.after(event).0 == worker,
        worker.after(event).1 == PlannedAction::Do(AudioCommand::Unexpected)
            ==> worker.after(event).0 == worker,
{
}

} // verus!
