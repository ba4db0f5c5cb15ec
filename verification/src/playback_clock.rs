//! Playback clock shared by the audio and the video worker.
//!
//! The audio device is the master, because its clock represents what the user
//! actually hears. Video falls back to its own monotonic clock while this one
//! has no snapshot.

use vstd::prelude::*;

verus! {

/// Clock units per second: positions count steps of 100 ns.
pub const UNITS_PER_SECOND: u64 = 10_000_000;

/// `n`, or the largest `u64` where `n` is larger.
pub open spec fn saturated(n: int) -> int {
    if n > u64::MAX {
        u64::MAX as int
    } else {
        n
    }
}

/// Device ticks since `origin`; a device behind its origin has made none.
pub open spec fn elapsed_ticks(device_position: u64, origin: u64) -> int {
    if device_position >= origin {
        device_position - origin
    } else {
        0
    }
}

/// The position, in 100 ns units, that `elapsed` ticks of a device clock of
/// `frequency` ticks per second amount to. Whole seconds and the remainder are
/// converted apart, each of them saturating.
pub open spec fn position_of_ticks(elapsed: int, frequency: int) -> int {
    saturated(
        saturated((elapsed / frequency) * UNITS_PER_SECOND) + saturated(
            (elapsed % frequency) * UNITS_PER_SECOND,
        ) / frequency,
    )
}

fn saturating_product(left: u64, right: u64) -> (product: u64)
    ensures
        product == saturated(left * right),
{
    match left.checked_mul(right) {
        Some(product) => product,
        None => u64::MAX,
    }
}

/// The clock: whether it runs, and the last position the device reported.
pub struct PlaybackClock {
    active: bool,
    position_100ns: u64,
}

impl PlaybackClock {
    /// Whether an audio device drives the clock.
    pub closed spec fn active(&self) -> bool {
        self.active
    }

    /// The last reported position, in 100 ns units.
    pub closed spec fn position(&self) -> u64 {
        self.position_100ns
    }

    /// What a reader of the clock sees.
    pub open spec fn reading(&self) -> Option<u64> {
        if self.active() {
            Some(self.position())
        } else {
            None
        }
    }

    /// A clock at rest, at position zero.
    pub fn new() -> (clock: Self)
        ensures
            !clock.active(),
            clock.position() == 0,
    {
        PlaybackClock { active: false, position_100ns: 0 }
    }

    /// Starts the clock at position zero.
    pub fn activate(&mut self)
        ensures
            final(self).active(),
            final(self).position() == 0,
    {
        self.position_100ns = 0;
        self.active = true;
    }

    /// Stops the clock; its position stays.
    pub fn deactivate(&mut self)
        ensures
            !final(self).active(),
            final(self).position() == old(self).position(),
    {
        self.active = false;
    }

    /// Takes over the device position. A device that reports no frequency
    /// leaves the clock as it is.
    pub fn update_from_device(&mut self, device_position: u64, origin: u64, frequency: u64)
        ensures
            final(self).active() == old(self).active(),
            frequency == 0 ==> final(self).position() == old(self).position(),
            frequency != 0 ==> final(self).position() == position_of_ticks(
                elapsed_ticks(device_position, origin),
                frequency as int,
            ),
    {
        if frequency == 0 {
            return;
        }
        let elapsed: u64 = device_position.saturating_sub(origin);
        let whole_seconds: u64 = elapsed / frequency;
        let remainder: u64 = elapsed % frequency;
        let whole: u64 = saturating_product(whole_seconds, UNITS_PER_SECOND);
        let part: u64 = saturating_product(remainder, UNITS_PER_SECOND) / frequency;
        self.position_100ns = whole.saturating_add(part);
    }

    /// The position while the clock runs.
    pub fn snapshot(&self) -> (position: Option<u64>)
        ensures
            position == self.reading(),
    {
        if self.active {
            Some(self.position_100ns)
        } else {
            None
        }
    }
}

/// The time of the video, in nanoseconds, since its loop began: what the clock
/// has advanced since then, or, where there is no reading, the time of its own.
pub open spec fn video_time(reading: Option<u64>, loop_start: u64, own_time: u64) -> int {
    match reading {
        Some(position) => saturated(elapsed_ticks(position, loop_start) * 100),
        None => own_time as int,
    }
}

impl PlaybackClock {
    /// Where on the clock a loop of the video begins: now, or at the start of a
    /// clock that does not run yet.
    pub fn loop_start(&self) -> (start: u64)
        ensures
            start == (match self.reading() {
                Some(position) => position,
                None => 0,
            }),
    {
        match self.snapshot() {
            Some(position) => position,
            None => 0,
        }
    }

    /// The time of the video since its loop began. The audio device is the
    /// master; without one the video goes by its own time.
    pub fn frame_time(&self, loop_start: u64, own_time: u64) -> (time: u64)
        ensures
            time == video_time(self.reading(), loop_start, own_time),
    {
        match self.snapshot() {
            Some(position) => saturating_product(position.saturating_sub(loop_start), 100),
            None => own_time,
        }
    }
}

/// A loop of the video begins at time zero, whichever clock drives it.
pub proof fn a_loop_begins_at_zero(position: u64)
    ensures
        video_time(Some(position), position, 0) == 0,
        video_time(None, position, 0) == 0,
{
}

/// As long as the clock runs on, the time of the video never goes back.
pub proof fn video_time_is_monotone(earlier: u64, later: u64, loop_start: u64, own_time: u64)
    requires
        earlier <= later,
    ensures
        video_time(Some(earlier), loop_start, own_time) <= video_time(
            Some(later),
            loop_start,
            own_time,
        ),
{
}

impl Default for PlaybackClock {
    fn default() -> (clock: Self)
        ensures
            !clock.active(),
            clock.position() == 0,
    {
        PlaybackClock::new()
    }
}

/// What remains beside the whole seconds is worth less than a second.
proof fn lemma_remainder_below_second(remainder: int, frequency: int)
    requires
        frequency > 0,
        0 <= remainder < frequency,
    ensures
        0 <= saturated(remainder * UNITS_PER_SECOND) / frequency < UNITS_PER_SECOND,
{
    let product = saturated(remainder * UNITS_PER_SECOND);
    assert(0 <= product <= remainder * UNITS_PER_SECOND);
    assert(remainder * UNITS_PER_SECOND < frequency * UNITS_PER_SECOND) by (nonlinear_arith)
        requires
            remainder < frequency,
            UNITS_PER_SECOND == 10_000_000,
    ;
    assert(0 <= product / frequency < UNITS_PER_SECOND) by (nonlinear_arith)
        requires
            frequency > 0,
            0 <= product < frequency * UNITS_PER_SECOND,
    ;
}

/// A device clock that has moved on never moves the playback clock back: for a
/// given frequency the position is monotone in the elapsed ticks.
pub proof fn position_is_monotone(earlier: int, later: int, frequency: int)
    requires
        frequency > 0,
        0 <= earlier <= later,
    ensures
        position_of_ticks(earlier, frequency) <= position_of_ticks(later, frequency),
{
    let (q1, r1) = (earlier / frequency, earlier % frequency);
    let (q2, r2) = (later / frequency, later % frequency);
    lemma_remainder_below_second(r1, frequency);
    lemma_remainder_below_second(r2, frequency);
    vstd::arithmetic::div_mod::lemma_div_is_ordered(earlier, later, frequency);
    if q1 == q2 {
        vstd::arithmetic::div_mod::lemma_fundamental_div_mod(earlier, frequency);
        vstd::arithmetic::div_mod::lemma_fundamental_div_mod(later, frequency);
        assert(r1 <= r2);
        vstd::arithmetic::div_mod::lemma_div_is_ordered(
            saturated(r1 * UNITS_PER_SECOND),
            saturated(r2 * UNITS_PER_SECOND),
            frequency,
        );
    } else {
        assert(q1 * UNITS_PER_SECOND + UNITS_PER_SECOND <= q2 * UNITS_PER_SECOND);
    }
}

/// The conversion is exact: the position is the number of whole 100 ns units in
/// the elapsed time, or the largest number where that is larger. It holds of all
/// frequencies at which the remainder of a second can be converted.
pub proof fn position_is_exact(elapsed: int, frequency: int)
    requires
        0 < frequency <= u64::MAX / UNITS_PER_SECOND + 1,
        0 <= elapsed,
    ensures
        position_of_ticks(elapsed, frequency) == saturated(
            elapsed * UNITS_PER_SECOND / frequency,
        ),
{
    let (q, r) = (elapsed / frequency, elapsed % frequency);
    vstd::arithmetic::div_mod::lemma_fundamental_div_mod(elapsed, frequency);
    assert(0 <= q && 0 <= r < frequency) by (nonlinear_arith)
        requires
            frequency > 0,
            elapsed >= 0,
            q == elapsed / frequency,
            r == elapsed % frequency,
    ;
    assert(r * UNITS_PER_SECOND <= u64::MAX) by (nonlinear_arith)
        requires
            0 <= r < frequency,
            frequency <= u64::MAX / UNITS_PER_SECOND + 1,
            UNITS_PER_SECOND == 10_000_000,
    ;
    assert(elapsed * UNITS_PER_SECOND == frequency * (q * UNITS_PER_SECOND) + r * UNITS_PER_SECOND)
        by (nonlinear_arith)
        requires
            elapsed == frequency * q + r,
    ;
    vstd::arithmetic::div_mod::lemma_hoist_over_denominator(
        r * UNITS_PER_SECOND,
        q * UNITS_PER_SECOND,
        frequency as nat,
    );
    assert(frequency * (q * UNITS_PER_SECOND) == (q * UNITS_PER_SECOND) * frequency)
        by (nonlinear_arith);
    lemma_remainder_below_second(r, frequency);
}

/// The position is the number of whole 100 ns units in the elapsed time, or the
/// largest number where there are more; a device behind its origin has made no
/// way. A clock is read exactly while it runs.
pub proof fn the_clock_tells_the_time(
    device_position: u64,
    origin: u64,
    frequency: u64,
    clock: PlaybackClock,
)
    requires
        0 < frequency <= 1_844_674_407_371,
    ensures
        ({
            let position = position_of_ticks(
                elapsed_ticks(device_position, origin),
                frequency as int,
            );
            let exact = (device_position - origin) * 10_000_000 / frequency as int;
            &&& device_position <= origin ==> position == 0
            &&& device_position >= origin && exact <= u64::MAX ==> position == exact
            &&& device_position >= origin && exact > u64::MAX ==> position == u64::MAX
        }),
        clock.reading() == (if clock.active() {
            Some(clock.position())
        } else {
            None
        }),
{
    position_is_exact(elapsed_ticks(device_position, origin), frequency as int);
    if device_position <= origin {
        assert(0int * UNITS_PER_SECOND / frequency as int == 0) by (nonlinear_arith)
            requires
                frequency > 0,
        ;
    }
}

/// At no frequency is the clock ahead of the device, nor more than a second
/// behind it, as long as the time can be counted.
pub proof fn the_clock_is_never_ahead(elapsed: int, frequency: int)
    requires
        frequency > 0,
        elapsed >= 0,
    ensures
        position_of_ticks(elapsed, frequency) * frequency <= elapsed * 10_000_000,
        elapsed * 10_000_000 < (u64::MAX - 10_000_000) * frequency ==> elapsed * 10_000_000 < (
        position_of_ticks(elapsed, frequency) + 10_000_000) * frequency,
{
    let (q, r) = (elapsed / frequency, elapsed % frequency);
    vstd::arithmetic::div_mod::lemma_fundamental_div_mod(elapsed, frequency);
    assert(0 <= q && 0 <= r < frequency) by (nonlinear_arith)
        requires
            frequency > 0,
            elapsed >= 0,
            q == elapsed / frequency,
            r == elapsed % frequency,
    ;
    let whole = q * UNITS_PER_SECOND;
    let kept = saturated(r * UNITS_PER_SECOND);
    let part = kept / frequency;
    lemma_remainder_below_second(r, frequency);
    assert(part * frequency <= kept) by (nonlinear_arith)
        requires
            frequency > 0,
            kept >= 0,
            part == kept / frequency,
    ;
    assert(0 <= kept <= r * 10_000_000);
    assert((whole + part) * frequency <= elapsed * 10_000_000) by (nonlinear_arith)
        requires
            elapsed == frequency * q + r,
            whole == q * 10_000_000,
            part * frequency <= r * 10_000_000,
    ;
    let position = position_of_ticks(elapsed, frequency);
    assert(position <= whole + part);
    assert(position * frequency <= (whole + part) * frequency) by (nonlinear_arith)
        requires
            position <= whole + part,
            frequency > 0,
    ;
    if elapsed * 10_000_000 < (u64::MAX - 10_000_000) * frequency {
        assert(whole < u64::MAX - 10_000_000) by (nonlinear_arith)
            requires
                elapsed * 10_000_000 < (u64::MAX - 10_000_000) * frequency,
                elapsed == frequency * q + r,
                r >= 0,
                whole == q * 10_000_000,
                frequency > 0,
        ;
        assert(position == whole + part);
        assert(elapsed * 10_000_000 < (whole + part + 10_000_000) * frequency) by (nonlinear_arith)
            requires
                elapsed == frequency * q + r,
                whole == q * 10_000_000,
                r < frequency,
                part >= 0,
                frequency > 0,
        ;
    }
}

/// The video goes by the clock wherever it can be read: its time is what the
/// clock has advanced since the loop began, in nanoseconds. Without a reading it
/// goes by its own time.
pub proof fn the_video_goes_by_the_clock(position: u64, loop_start: u64, own_time: u64)
    ensures
        video_time(None, loop_start, own_time) == own_time,
        position <= loop_start ==> video_time(Some(position), loop_start, own_time) == 0,
        position >= loop_start && (position - loop_start) * 100 <= u64::MAX ==> video_time(
            Some(position),
            loop_start,
            own_time,
        ) == (position - loop_start) * 100,
        position >= loop_start && (position - loop_start) * 100 > u64::MAX ==> video_time(
            Some(position),
            loop_start,
            own_time,
        ) == u64::MAX,
{
}

} // verus!
