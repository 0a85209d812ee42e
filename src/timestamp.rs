//! Spans of time and timestamps ordered by a monotonic tiebreaker.

use vstd::prelude::*;

verus! {

/// Nanoseconds in one second.
pub const NANOS_PER_SEC: u64 = 1_000_000_000;

/// Upper bound on whole seconds that chrono renders as a calendar date (year 10000).
pub const CALENDAR_SECONDS_LIMIT: u64 = 253_402_300_800;

/// A non-negative span of time with nanosecond resolution.
#[derive(Clone, Copy, Debug, PartialEq, Eq, Structural, PartialOrd, Ord, Hash)]
pub struct TimeSpan {
    pub nanos: u64,
}

impl View for TimeSpan {
    type V = nat;

    open spec fn view(&self) -> nat {
        self.nanos as nat
    }
}

impl TimeSpan {
    /// The empty span.
    pub fn zero() -> (r: TimeSpan)
        ensures
            r@ == 0,
    {
        TimeSpan { nanos: 0 }
    }

    pub fn from_nanos(nanos: u64) -> (r: TimeSpan)
        ensures
            r@ == nanos,
    {
        TimeSpan { nanos }
    }

    pub fn from_micros(micros: u64) -> (r: TimeSpan)
        requires
            micros * 1_000 <= u64::MAX,
        ensures
            r@ == micros * 1_000,
    {
        TimeSpan { nanos: micros * 1_000 }
    }

    pub fn from_millis(millis: u64) -> (r: TimeSpan)
        requires
            millis * 1_000_000 <= u64::MAX,
        ensures
            r@ == millis * 1_000_000,
    {
        TimeSpan { nanos: millis * 1_000_000 }
    }

    pub fn from_secs(secs: u64) -> (r: TimeSpan)
        requires
            secs * 1_000_000_000 <= u64::MAX,
        ensures
            r@ == secs * 1_000_000_000,
    {
        TimeSpan { nanos: secs * NANOS_PER_SEC }
    }

    pub fn as_nanos(&self) -> (r: u64)
        ensures
            r == self@,
    {
        self.nanos
    }

    pub fn as_micros(&self) -> (r: u64)
        ensures
            r == self@ / 1_000,
    {
        self.nanos / 1_000
    }

    pub fn as_millis(&self) -> (r: u64)
        ensures
            r == self@ / 1_000_000,
    {
        self.nanos / 1_000_000
    }

    pub fn as_secs(&self) -> (r: u64)
        ensures
            r == self@ / 1_000_000_000,
    {
        self.nanos / NANOS_PER_SEC
    }

    /// Nanoseconds past the last whole second.
    pub fn subsec_nanos(&self) -> (r: u32)
        ensures
            r == self@ % 1_000_000_000,
    {
        (self.nanos % NANOS_PER_SEC) as u32
    }

    /// Milliseconds past the last whole second.
    pub fn subsec_millis(&self) -> (r: u32)
        ensures
            r == (self@ % 1_000_000_000) / 1_000_000,
    {
        ((self.nanos % NANOS_PER_SEC) / 1_000_000) as u32
    }

    pub fn is_zero(&self) -> (r: bool)
        ensures
            r == (self@ == 0),
    {
        self.nanos == 0
    }

    /// Sum of two spans, saturating at the largest representable span.
    pub fn saturating_add(&self, other: TimeSpan) -> (r: TimeSpan)
        ensures
            r@ == if self@ + other@ <= u64::MAX { self@ + other@ } else { u64::MAX as nat },
    {
        if self.nanos <= u64::MAX - other.nanos {
            TimeSpan { nanos: self.nanos + other.nanos }
        } else {
            TimeSpan { nanos: u64::MAX }
        }
    }

    /// Difference of two spans, saturating at zero.
    pub fn saturating_sub(&self, other: TimeSpan) -> (r: TimeSpan)
        ensures
            r@ == if self@ >= other@ { self@ - other@ } else { 0 },
    {
        if self.nanos >= other.nanos {
            TimeSpan { nanos: self.nanos - other.nanos }
        } else {
            TimeSpan { nanos: 0 }
        }
    }
}

/// Truncating division as Rust performs it on signed integers.
pub open spec fn div_toward_zero(a: int, b: int) -> int
    recommends
        b > 0,
{
    if a >= 0 {
        a / b
    } else {
        -((-a) / b)
    }
}

/// An instant: seconds and subsecond nanoseconds since the UNIX epoch, plus a
/// monotonic counter that breaks ties between instants read back to back.
/// The derived order is lexicographic over the three fields in this order.
#[derive(Clone, Copy, Debug, PartialEq, Eq, Structural, PartialOrd, Ord, Hash)]
pub struct Timestamp {
    pub seconds: u64,
    pub nanoseconds: u32,
    pub monotonic_counter: u64,
}

impl Timestamp {
    /// Subsecond nanoseconds stay below one second.
    pub open spec fn wf(&self) -> bool {
        self.nanoseconds < NANOS_PER_SEC
    }

    /// Nanoseconds since the epoch.
    pub open spec fn total_nanos(&self) -> int {
        self.seconds * 1_000_000_000 + self.nanoseconds
    }

    /// Strict lexicographic order over (seconds, nanoseconds, monotonic counter).
    pub open spec fn before(&self, other: &Timestamp) -> bool {
        self.seconds < other.seconds || (self.seconds == other.seconds && (self.nanoseconds
            < other.nanoseconds || (self.nanoseconds == other.nanoseconds
            && self.monotonic_counter < other.monotonic_counter)))
    }

    /// The current wall-clock time, with the monotonic clock as tiebreaker.
    /// Two readings may share a counter; timestamps drawn from one
    /// `TimestampSource` are strictly ordered.
    pub fn now() -> (r: Timestamp)
        ensures
            r.wf(),
    {
        let wall = std::time::SystemTime::now();
        let (seconds, nanoseconds) = system_time_parts(&wall);
        Timestamp { seconds, nanoseconds, monotonic_counter: monotonic_reading() }
    }

    /// A timestamp at the given instant; its counter comes from the monotonic clock.
    pub fn from_seconds_nanos(seconds: u64, nanoseconds: u32) -> (r: Timestamp)
        requires
            nanoseconds < NANOS_PER_SEC,
        ensures
            r.wf(),
            r.seconds == seconds,
            r.nanoseconds == nanoseconds,
    {
        Timestamp { seconds, nanoseconds, monotonic_counter: monotonic_reading() }
    }

    /// A timestamp at the instant that `time` denotes (the epoch for earlier times).
    pub fn from_system_time(time: std::time::SystemTime) -> (r: Timestamp)
        ensures
            r.wf(),
    {
        let (seconds, nanoseconds) = system_time_parts(&time);
        Timestamp { seconds, nanoseconds, monotonic_counter: monotonic_reading() }
    }

    /// The same instant as a `SystemTime`.
    pub fn to_system_time(&self) -> std::time::SystemTime
        requires
            self.wf(),
            self.seconds <= i64::MAX,
    {
        system_time_from_parts(self.seconds, self.nanoseconds)
    }

    pub fn seconds(&self) -> (r: u64)
        ensures
            r == self.seconds,
    {
        self.seconds
    }

    pub fn nanoseconds(&self) -> (r: u32)
        ensures
            r == self.nanoseconds,
    {
        self.nanoseconds
    }

    pub fn monotonic_counter(&self) -> (r: u64)
        ensures
            r == self.monotonic_counter,
    {
        self.monotonic_counter
    }

    /// Whether `self` comes strictly before `other`.
    pub fn precedes(&self, other: &Timestamp) -> (r: bool)
        ensures
            r == self.before(other),
    {
        self.seconds < other.seconds || (self.seconds == other.seconds && (self.nanoseconds
            < other.nanoseconds || (self.nanoseconds == other.nanoseconds
            && self.monotonic_counter < other.monotonic_counter)))
    }

    /// `self - other` in nanoseconds.
    pub fn diff_nanos(&self, other: &Timestamp) -> (r: i64)
        requires
            i64::MIN <= self.total_nanos() - other.total_nanos() <= i64::MAX,
        ensures
            r == self.total_nanos() - other.total_nanos(),
    {
        let a: i128 = self.seconds as i128 * 1_000_000_000 + self.nanoseconds as i128;
        let b: i128 = other.seconds as i128 * 1_000_000_000 + other.nanoseconds as i128;
        (a - b) as i64
    }

    /// `self - other` in whole microseconds, truncated toward zero.
    pub fn diff_micros(&self, other: &Timestamp) -> (r: i64)
        requires
            i64::MIN <= self.total_nanos() - other.total_nanos() <= i64::MAX,
        ensures
            r == div_toward_zero(self.total_nanos() - other.total_nanos(), 1_000),
    {
        let d = self.diff_nanos(other);
        if d >= 0 {
            d / 1_000
        } else {
            let m: i128 = -(d as i128);
            -((m / 1_000) as i64)
        }
    }

    /// `self - other` in whole milliseconds, truncated toward zero.
    pub fn diff_millis(&self, other: &Timestamp) -> (r: i64)
        requires
            i64::MIN <= self.total_nanos() - other.total_nanos() <= i64::MAX,
        ensures
            r == div_toward_zero(self.total_nanos() - other.total_nanos(), 1_000_000),
    {
        let d = self.diff_nanos(other);
        if d >= 0 {
            d / 1_000_000
        } else {
            let m: i128 = -(d as i128);
            -((m / 1_000_000) as i64)
        }
    }

    /// The instant `span` later, with a fresh counter above this one's.
    pub fn add_duration(&self, span: TimeSpan) -> (r: Timestamp)
        requires
            self.wf(),
            self.total_nanos() + span@ < (u64::MAX as int + 1) * 1_000_000_000,
        ensures
            r.wf(),
            r.total_nanos() == self.total_nanos() + span@,
            r.monotonic_counter >= self.monotonic_counter,
            self.monotonic_counter < u64::MAX ==> r.monotonic_counter > self.monotonic_counter,
    {
        let total: u128 = self.seconds as u128 * 1_000_000_000 + self.nanoseconds as u128
            + span.nanos as u128;
        Self::from_total(total, counter_after(self.monotonic_counter, monotonic_reading()))
    }

    /// The instant `span` earlier, clamped at the epoch, with a fresh counter
    /// above this one's.
    pub fn sub_duration(&self, span: TimeSpan) -> (r: Timestamp)
        requires
            self.wf(),
        ensures
            r.wf(),
            r.total_nanos() == if self.total_nanos() >= span@ {
                self.total_nanos() - span@
            } else {
                0
            },
            r.monotonic_counter >= self.monotonic_counter,
            self.monotonic_counter < u64::MAX ==> r.monotonic_counter > self.monotonic_counter,
    {
        let own: u128 = self.seconds as u128 * 1_000_000_000 + self.nanoseconds as u128;
        let total: u128 = if own >= span.nanos as u128 {
            own - span.nanos as u128
        } else {
            0
        };
        Self::from_total(total, counter_after(self.monotonic_counter, monotonic_reading()))
    }

    fn from_total(total: u128, counter: u64) -> (r: Timestamp)
        requires
            total < (u64::MAX as int + 1) * 1_000_000_000,
        ensures
            r.wf(),
            r.total_nanos() == total,
            r.monotonic_counter == counter,
    {
        let seconds = (total / 1_000_000_000) as u64;
        let nanoseconds = (total % 1_000_000_000) as u32;
        Timestamp { seconds, nanoseconds, monotonic_counter: counter }
    }

    /// Time since the epoch as a span, saturating at the largest span.
    pub fn to_duration(&self) -> (r: TimeSpan)
        ensures
            r@ == if self.total_nanos() <= u64::MAX { self.total_nanos() } else { u64::MAX as int },
    {
        let total: u128 = self.seconds as u128 * 1_000_000_000 + self.nanoseconds as u128;
        if total <= u64::MAX as u128 {
            TimeSpan { nanos: total as u64 }
        } else {
            TimeSpan { nanos: u64::MAX }
        }
    }

    /// Absolute distance between two instants, saturating at the largest span.
    pub fn abs_diff(&self, other: &Timestamp) -> (r: TimeSpan)
        ensures
            r@ == if abs_int(self.total_nanos() - other.total_nanos()) <= u64::MAX {
                abs_int(self.total_nanos() - other.total_nanos())
            } else {
                u64::MAX as int
            },
    {
        let a: u128 = self.seconds as u128 * 1_000_000_000 + self.nanoseconds as u128;
        let b: u128 = other.seconds as u128 * 1_000_000_000 + other.nanoseconds as u128;
        let d: u128 = if a >= b {
            a - b
        } else {
            b - a
        };
        if d <= u64::MAX as u128 {
            TimeSpan { nanos: d as u64 }
        } else {
            TimeSpan { nanos: u64::MAX }
        }
    }

    /// Time elapsed from `earlier` to `self`, zero when `earlier` is not earlier.
    pub fn elapsed_since(&self, earlier: &Timestamp) -> (r: TimeSpan)
        ensures
            r@ == if self.total_nanos() <= earlier.total_nanos() {
                0
            } else if self.total_nanos() - earlier.total_nanos() <= u64::MAX {
                self.total_nanos() - earlier.total_nanos()
            } else {
                u64::MAX as int
            },
    {
        let a: u128 = self.seconds as u128 * 1_000_000_000 + self.nanoseconds as u128;
        let b: u128 = earlier.seconds as u128 * 1_000_000_000 + earlier.nanoseconds as u128;
        if a <= b {
            TimeSpan { nanos: 0 }
        } else if a - b <= u64::MAX as u128 {
            TimeSpan { nanos: (a - b) as u64 }
        } else {
            TimeSpan { nanos: u64::MAX }
        }
    }

    /// Whether this instant lies after the current time.
    pub fn is_future(&self) -> bool {
        let now = Timestamp::now();
        now.precedes(self)
    }

    /// Whether this instant lies before the current time.
    pub fn is_past(&self) -> bool {
        let now = Timestamp::now();
        self.precedes(&now)
    }

    /// Time elapsed since this instant, zero for instants not yet reached.
    pub fn age(&self) -> TimeSpan {
        let now = Timestamp::now();
        now.elapsed_since(self)
    }

    /// The instant rendered in RFC 3339 (an ISO 8601 profile), or the empty
    /// string for instants that chrono cannot place on its calendar.
    pub fn to_iso8601(&self) -> (r: String)
        ensures
            self.wf() && self.seconds < CALENDAR_SECONDS_LIMIT ==> r@ == rfc3339_text(
                self.seconds as int,
                self.nanoseconds as int,
            ),
    {
        if self.seconds > i64::MAX as u64 {
            return String::new();
        }
        match rfc3339_of(self.seconds as i64, self.nanoseconds) {
            Some(s) => s,
            None => String::new(),
        }
    }
}

pub open spec fn abs_int(x: int) -> int {
    if x >= 0 {
        x
    } else {
        -x
    }
}

/// The RFC 3339 text that chrono renders for a UTC instant.
pub uninterp spec fn rfc3339_text(seconds: int, nanos: int) -> Seq<char>;

/// Relies on `SystemTime::now`: reads the wall clock; nothing is claimed of
/// the reading.
pub assume_specification[ std::time::SystemTime::now ]() -> std::time::SystemTime;

/// std's wall-clock instant, carried through opaquely.
#[verifier::external_type_specification]
#[verifier::external_body]
pub struct ExSystemTime(std::time::SystemTime);

/// Relies on `SystemTime::duration_since(UNIX_EPOCH)`: whole seconds and
/// subsecond nanoseconds since the epoch, (0, 0) for times before it.
#[verifier::external_body]
fn system_time_parts(time: &std::time::SystemTime) -> (r: (u64, u32))
    ensures
        r.1 < NANOS_PER_SEC,
{
    match time.duration_since(std::time::UNIX_EPOCH) {
        Ok(d) => (d.as_secs(), d.subsec_nanos()),
        Err(_) => (0, 0),
    }
}

/// Relies on `UNIX_EPOCH + Duration::new(seconds, nanoseconds)`, which on Unix
/// cannot overflow for seconds within `i64`.
#[verifier::external_body]
fn system_time_from_parts(seconds: u64, nanoseconds: u32) -> std::time::SystemTime
    requires
        seconds <= i64::MAX,
        nanoseconds < NANOS_PER_SEC,
{
    std::time::UNIX_EPOCH + std::time::Duration::new(seconds, nanoseconds)
}

/// Relies on `nix::time::clock_gettime(CLOCK_MONOTONIC)`: the monotonic clock
/// as (seconds, nanoseconds), or `None` when the call fails.
#[verifier::external_body]
fn monotonic_clock() -> Option<(i64, i64)> {
    match nix::time::clock_gettime(nix::time::ClockId::CLOCK_MONOTONIC) {
        Ok(ts) => Some((ts.tv_sec() as i64, ts.tv_nsec() as i64)),
        Err(_) => None,
    }
}

/// The monotonic clock in nanoseconds, saturating, and zero when it cannot be read.
pub(crate) fn monotonic_reading() -> u64 {
    match monotonic_clock() {
        Some((s, n)) => {
            if s < 0 || n < 0 || n >= 1_000_000_000 {
                0
            } else {
                let total: u128 = s as u128 * 1_000_000_000 + n as u128;
                if total <= u64::MAX as u128 {
                    total as u64
                } else {
                    u64::MAX
                }
            }
        },
        None => 0,
    }
}

/// Relies on chrono's `DateTime::<Utc>::from_timestamp` and `to_rfc3339`:
/// `None` for instants chrono rejects, which excludes every instant from the
/// epoch up to year 10000 with valid nanoseconds.
#[verifier::external_body]
fn rfc3339_of(seconds: i64, nanoseconds: u32) -> (r: Option<String>)
    ensures
        r matches Some(s) ==> s@ == rfc3339_text(seconds as int, nanoseconds as int),
        0 <= seconds < CALENDAR_SECONDS_LIMIT && nanoseconds < NANOS_PER_SEC ==> r is Some,
{
    match chrono::DateTime::<chrono::Utc>::from_timestamp(seconds, nanoseconds) {
        Some(dt) => Some(dt.to_rfc3339()),
        None => None,
    }
}

/// The counter that follows `last` given the monotonic clock `reading`: the
/// reading when it is ahead, otherwise one more than `last` (saturating).
pub open spec fn next_counter(last: u64, reading: u64) -> u64 {
    if reading > last {
        reading
    } else if last < u64::MAX {
        (last + 1) as u64
    } else {
        last
    }
}

fn counter_after(last: u64, reading: u64) -> (r: u64)
    ensures
        r == next_counter(last, reading),
{
    if reading > last {
        reading
    } else if last < u64::MAX {
        last + 1
    } else {
        last
    }
}

/// A source of timestamps that come out in strictly increasing order: each
/// counter exceeds the previous one, and the wall-clock part never goes back
/// even when the system clock is set back. Threads that share one source
/// behind a lock get totally ordered timestamps.
pub struct TimestampSource {
    last: Option<Timestamp>,
}

impl TimestampSource {
    /// The last timestamp handed out.
    pub closed spec fn last_spec(&self) -> Option<Timestamp> {
        self.last
    }

    pub closed spec fn wf(&self) -> bool {
        self.last matches Some(l) ==> l.wf()
    }

    /// `r` is the timestamp a source whose last timestamp is `last` hands
    /// out for wall-clock time (`seconds`, `nanoseconds`) and monotonic
    /// clock `reading`.
    pub open spec fn stamped(
        last: Option<Timestamp>,
        seconds: u64,
        nanoseconds: u32,
        reading: u64,
        r: Timestamp,
    ) -> bool {
        match last {
            None => r == Timestamp { seconds, nanoseconds, monotonic_counter: reading },
            Some(l) => {
                let behind = seconds < l.seconds || (seconds == l.seconds && nanoseconds
                    < l.nanoseconds);
                &&& r.seconds == (if behind {
                    l.seconds
                } else {
                    seconds
                })
                &&& r.nanoseconds == (if behind {
                    l.nanoseconds
                } else {
                    nanoseconds
                })
                &&& r.monotonic_counter == next_counter(l.monotonic_counter, reading)
            },
        }
    }

    /// A source that has handed out nothing yet.
    pub fn new() -> (r: Self)
        ensures
            r.wf(),
            r.last_spec() is None,
    {
        TimestampSource { last: None }
    }

    /// The next timestamp for wall-clock time (`seconds`, `nanoseconds`)
    /// and monotonic clock `reading`.
    pub fn stamp(&mut self, seconds: u64, nanoseconds: u32, reading: u64) -> (r: Timestamp)
        requires
            old(self).wf(),
            nanoseconds < NANOS_PER_SEC,
        ensures
            final(self).wf(),
            r.wf(),
            Self::stamped(old(self).last_spec(), seconds, nanoseconds, reading, r),
            final(self).last_spec() == Some(r),
            old(self).last_spec() matches Some(l) ==> (l.monotonic_counter < u64::MAX ==> l.before(
                &r,
            ) && l.monotonic_counter < r.monotonic_counter),
    {
        let r = match self.last {
            None => Timestamp { seconds, nanoseconds, monotonic_counter: reading },
            Some(l) => {
                let behind = seconds < l.seconds || (seconds == l.seconds && nanoseconds
                    < l.nanoseconds);
                Timestamp {
                    seconds: if behind {
                        l.seconds
                    } else {
                        seconds
                    },
                    nanoseconds: if behind {
                        l.nanoseconds
                    } else {
                        nanoseconds
                    },
                    monotonic_counter: counter_after(l.monotonic_counter, reading),
                }
            },
        };
        self.last = Some(r);
        r
    }

    /// The next timestamp, from the current wall clock and monotonic clock.
    pub fn now(&mut self) -> (r: Timestamp)
        requires
            old(self).wf(),
        ensures
            final(self).wf(),
            r.wf(),
            final(self).last_spec() == Some(r),
            exists|seconds: u64, nanoseconds: u32, reading: u64|
                Self::stamped(old(self).last_spec(), seconds, nanoseconds, reading, r),
            old(self).last_spec() matches Some(l) ==> (l.monotonic_counter < u64::MAX ==> l.before(
                &r,
            ) && l.monotonic_counter < r.monotonic_counter),
    {
        let wall = std::time::SystemTime::now();
        let (seconds, nanoseconds) = system_time_parts(&wall);
        let reading = monotonic_reading();
        self.stamp(seconds, nanoseconds, reading)
    }
}

/// Timestamps drawn one after another from one source are strictly
/// increasing, whatever the clocks read (short of an exhausted counter).
pub proof fn lemma_source_order(
    first: Timestamp,
    s1: u64,
    n1: u32,
    m1: u64,
    second: Timestamp,
)
    requires
        first.wf(),
        first.monotonic_counter < u64::MAX,
        TimestampSource::stamped(Some(first), s1, n1, m1, second),
    ensures
        first.before(&second),
        first.monotonic_counter < second.monotonic_counter,
{
}

} // verus!
