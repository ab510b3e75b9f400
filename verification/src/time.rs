//! Frame timing.
//!
//! The clock reads the machine's monotonic time. Lengths of time are held as
//! whole nanoseconds, so that what a tick does to them can be stated exactly.

use std::time::Duration;
use std::time::Instant;
use vstd::prelude::*;

verus! {

/// A point of the machine's monotonic time. Nothing is known of what it holds.
#[verifier::external_type_specification]
#[verifier::external_body]
pub struct ExInstant(std::time::Instant);

/// Nanoseconds in one second.
pub const NANOS_PER_SEC: u128 = 1_000_000_000;

/// The longest length of time that the standard library can hold, in
/// nanoseconds: `u64::MAX` seconds and 999 999 999 nanoseconds.
pub const MAX_DURATION_NANOS: u128 = 18_446_744_073_709_551_615_999_999_999;

/// The whole seconds in a nanosecond count.
pub open spec fn whole_seconds(nanos: int) -> int {
    nanos / (NANOS_PER_SEC as int)
}

/// The sum of two lengths of time, held at the longest length that can be held.
pub open spec fn saturating_sum(a: int, b: int) -> int {
    if a + b <= MAX_DURATION_NANOS as int {
        a + b
    } else {
        MAX_DURATION_NANOS as int
    }
}

/// The nanoseconds from `earlier` to `later`, and zero where `earlier` is the
/// later of the two: the count of what
/// `std::time::Instant::saturating_duration_since` gives for the two instants.
pub uninterp spec fn nanos_between(later: Instant, earlier: Instant) -> int;

/// The nanoseconds that `length` holds: what `std::time::Duration::as_nanos`
/// gives for it.
pub uninterp spec fn nanos_of(length: Duration) -> int;

/// Calls `std::time::Instant::now`. The result is the machine's time, of which
/// nothing is claimed.
#[verifier::external_body]
fn instant_now() -> (now: Instant) {
    Instant::now()
}

/// Calls `std::time::Instant::saturating_duration_since`, which gives the time from
/// `earlier` to `later`, or zero where `earlier` is the later one. Claimed: the
/// result depends on the two instants alone, so its count of nanoseconds is
/// the one named for them.
#[verifier::external_body]
fn duration_between(later: &Instant, earlier: &Instant) -> (elapsed: Duration)
    ensures
        nanos_of(elapsed) == nanos_between(*later, *earlier),
{
    later.saturating_duration_since(*earlier)
}

/// Calls `std::time::Duration::as_nanos`. Claimed: the result is the count
/// named for `length`, and it is at most that of `Duration::MAX`, which is
/// `u64::MAX` seconds and 999 999 999 nanoseconds.
#[verifier::external_body]
fn duration_nanos(length: &Duration) -> (nanos: u128)
    ensures
        nanos == nanos_of(*length),
        nanos <= MAX_DURATION_NANOS,
{
    length.as_nanos()
}

/// The whole seconds in `nanos`.
pub fn seconds_in(nanos: u128) -> (secs: u64)
    requires
        nanos <= MAX_DURATION_NANOS,
    ensures
        secs == whole_seconds(nanos as int),
{
    let secs: u128 = nanos / NANOS_PER_SEC;
    assert(secs <= u64::MAX);
    secs as u64
}

/// Times frames: when the clock was made, when it last ticked, how long the last
/// frame took and how many frames there were.
pub struct Clock {
    /// When the clock was made.
    pub init_instant: Instant,
    /// When the clock last ticked, or was made.
    pub last_instant: Instant,
    /// Nanoseconds between the last two ticks.
    pub frame_durations: u128,
    /// Nanoseconds of all frames together, held at `MAX_DURATION_NANOS`.
    pub residual_update_dt: u128,
    /// Ticks so far.
    pub frame_count: usize,
}

impl Clock {
    /// Both lengths of time are ones that the standard library can hold.
    pub open spec fn wf(&self) -> bool {
        &&& self.frame_durations <= MAX_DURATION_NANOS
        &&& self.residual_update_dt <= MAX_DURATION_NANOS
    }

    /// A clock made at `init` that has not ticked since `last`.
    pub open spec fn started(init: Instant, last: Instant) -> Clock {
        Clock {
            init_instant: init,
            last_instant: last,
            frame_durations: 0,
            residual_update_dt: 0,
            frame_count: 0,
        }
    }

    /// This clock after a tick at `now`, `since_last` nanoseconds after the one
    /// before.
    pub open spec fn ticked(self, now: Instant, since_last: u128) -> Clock {
        Clock {
            init_instant: self.init_instant,
            last_instant: now,
            frame_durations: since_last,
            residual_update_dt: saturating_sum(
                self.residual_update_dt as int,
                since_last as int,
            ) as u128,
            frame_count: (self.frame_count + 1) as usize,
        }
    }

    /// Whether both lengths of time are ones that the standard library can
    /// hold. A clock changed only through its methods always says yes.
    pub fn is_well_formed(&self) -> (ok: bool)
        ensures
            ok == self.wf(),
    {
        self.frame_durations <= MAX_DURATION_NANOS && self.residual_update_dt <= MAX_DURATION_NANOS
    }

    /// A clock that starts now, with no frame counted.
    pub fn new() -> (clock: Clock)
        ensures
            clock.wf(),
            clock == Clock::started(clock.init_instant, clock.last_instant),
    {
        let init = instant_now();
        let last = instant_now();
        Clock::from_instants(init, last)
    }

    /// A clock made at `init` that has not ticked since `last`.
    pub fn from_instants(init: Instant, last: Instant) -> (clock: Clock)
        ensures
            clock.wf(),
            clock == Clock::started(init, last),
    {
        Clock {
            init_instant: init,
            last_instant: last,
            frame_durations: 0,
            residual_update_dt: 0,
            frame_count: 0,
        }
    }

    /// Counts one frame that ended now. The time from the tick before to this
    /// one becomes the frame's length and is added to the total.
    pub fn tick(&mut self)
        requires
            old(self).wf(),
            old(self).frame_count < usize::MAX,
        ensures
            final(self).wf(),
            *final(self) == old(self).ticked(final(self).last_instant, final(self).frame_durations),
            final(self).frame_durations == nanos_between(
                final(self).last_instant,
                old(self).last_instant,
            ),
    {
        let now = instant_now();
        let elapsed = duration_between(&now, &self.last_instant);
        let since_last = duration_nanos(&elapsed);
        self.tick_at(now, since_last);
    }

    /// Counts one frame that ended at `now`, `since_last` nanoseconds after the
    /// tick before.
    pub fn tick_at(&mut self, now: Instant, since_last: u128)
        requires
            old(self).wf(),
            old(self).frame_count < usize::MAX,
            since_last <= MAX_DURATION_NANOS,
        ensures
            final(self).wf(),
            *final(self) == old(self).ticked(now, since_last),
    {
        self.frame_durations = since_last;
        self.last_instant = now;
        self.frame_count = self.frame_count + 1;
        if self.residual_update_dt <= MAX_DURATION_NANOS - since_last {
            self.residual_update_dt = self.residual_update_dt + since_last;
        } else {
            self.residual_update_dt = MAX_DURATION_NANOS;
        }
    }

    /// The whole seconds that the last frame took: zero for any frame shorter
    /// than a second. The frame rate is one over this.
    pub fn seconds_per_frame(&self) -> (secs: u64)
        requires
            self.wf(),
        ensures
            secs == whole_seconds(self.frame_durations as int),
    {
        seconds_in(self.frame_durations)
    }

    /// The whole seconds from the making of the clock to some instant, which is
    /// the machine's time now. The clock does not change.
    pub fn get_time_since_start(&mut self) -> (secs: u64)
        ensures
            *final(self) == *old(self),
            exists|now: Instant|
                secs == whole_seconds(#[trigger] nanos_between(now, old(self).init_instant)),
    {
        let now = instant_now();
        let elapsed = duration_between(&now, &self.init_instant);
        seconds_in(duration_nanos(&elapsed))
    }
}

impl Default for Clock {
    /// A clock that starts now.
    fn default() -> (clock: Clock)
        ensures
            clock.wf(),
            clock == Clock::started(clock.init_instant, clock.last_instant),
    {
        Clock::new()
    }
}

} // verus!
