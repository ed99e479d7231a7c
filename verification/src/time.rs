//! Points in time, and the delay of the timer that waits for one.

use vstd::prelude::*;

verus! {

/// The largest number of nanoseconds that a `std::time::Duration` holds.
pub const MAX_DURATION_NANOS: u128 = 18_446_744_073_709_551_615_999_999_999;

/// A point in time: nanoseconds after (or, where negative, before) the origin of a [`Clock`].
#[derive(Clone, Copy, Debug, PartialEq, Eq, Structural)]
pub struct Moment {
    pub nanos: i128,
}

impl Moment {
    /// The nanoseconds from `earlier` to `self`: zero where `earlier` is the later one.
    pub fn saturating_duration_since(self, earlier: Moment) -> (nanos: u128)
        ensures
            nanos == nanos_between(earlier, self),
    {
        if self.nanos <= earlier.nanos {
            0
        } else if earlier.nanos >= 0 || self.nanos < 0 {
            (self.nanos - earlier.nanos) as u128
        } else {
            let before: u128 = (-(earlier.nanos + 1)) as u128;
            self.nanos as u128 + before + 1
        }
    }
}

/// The nanoseconds from `start` to `end`, or zero where `end` is not after `start`.
pub open spec fn nanos_between(start: Moment, end: Moment) -> int {
    if start.nanos < end.nanos {
        end.nanos - start.nanos
    } else {
        0
    }
}

/// The milliseconds to wait at `start` for `deadline`: the whole microseconds between the two,
/// rounded up to milliseconds, and no more than a timer can be set to.
pub open spec fn delay_spec(start: Moment, deadline: Moment) -> int {
    let micros = nanos_between(start, deadline) / 1000;
    let millis = (micros + 999) / 1000;
    if millis < i32::MAX {
        millis
    } else {
        i32::MAX as int
    }
}

/// The delay, in milliseconds, of a timer that is set at `start` to wait for `deadline`.
pub fn timer_delay(start: Moment, deadline: Moment) -> (delay: i32)
    ensures
        delay == delay_spec(start, deadline),
{
    let micros: u128 = deadline.saturating_duration_since(start) / 1000;
    let millis: u128 = (micros + 999) / 1000;
    if millis < 2147483647 {
        millis as i32
    } else {
        i32::MAX
    }
}

#[verifier::external_type_specification]
#[verifier::external_body]
pub struct ExWebInstant(web_time::Instant);

/// `web_time::Instant::now`. Nothing is claimed of the moment.
#[verifier::external_body]
fn read_clock() -> web_time::Instant {
    web_time::Instant::now()
}

/// `web_time::Instant::elapsed`, in nanoseconds. Of the time that has passed, only what holds of
/// every `Duration` is claimed: that it is no longer than the longest.
#[verifier::external_body]
fn elapsed_nanos(origin: &web_time::Instant) -> (nanos: u128)
    ensures
        nanos <= MAX_DURATION_NANOS,
{
    origin.elapsed().as_nanos()
}

/// Whether an instant is what the browser's clock was read to be.
pub closed spec fn was_read(instant: web_time::Instant) -> bool {
    call_ensures(read_clock, (), instant)
}

/// Whether so many nanoseconds have passed since an origin, as of some reading.
pub closed spec fn has_passed(origin: web_time::Instant, nanos: int) -> bool {
    call_ensures(elapsed_nanos, (&origin,), nanos as u128)
}

/// Whether a clock can tell a moment: it is no earlier than the origin, and no further from it
/// than the longest duration.
pub open spec fn tellable(now: Moment) -> bool {
    0 <= now.nanos <= MAX_DURATION_NANOS
}

/// Tells the time, counted from an origin.
pub struct Clock {
    pub origin: web_time::Instant,
}

impl Clock {
    /// A clock whose origin is now.
    pub fn new() -> (clock: Clock)
        ensures
            was_read(clock.origin),
    {
        Clock { origin: read_clock() }
    }

    /// Whether a moment is what a reading of this clock returns.
    pub open spec fn tells(&self, now: Moment) -> bool {
        call_ensures(Clock::now, (self,), now) && tellable(now)
    }

    /// The present moment. It is never before the origin.
    pub fn now(&self) -> (now: Moment)
        ensures
            tellable(now),
            has_passed(self.origin, now.nanos as int),
    {
        Moment { nanos: elapsed_nanos(&self.origin) as i128 }
    }
}

/// A clock tells, in nanoseconds, the time that has passed since its origin, as it was read.
pub proof fn law_clock_tells_the_time(clock: &Clock, now: Moment)
    requires
        call_ensures(Clock::now, (clock,), now),
    ensures
        0 <= now.nanos <= MAX_DURATION_NANOS,
        has_passed(clock.origin, now.nanos as int),
        clock.tells(now),
{
    assert(call_ensures(elapsed_nanos, (&clock.origin,), now.nanos as u128));
}

/// The origin of a clock is what the browser's clock was read to be.
pub proof fn law_clock_starts_as_read(clock: Clock)
    requires
        call_ensures(Clock::new, (), clock),
    ensures
        was_read(clock.origin),
{
    assert(call_ensures(read_clock, (), clock.origin));
}

} // verus!
