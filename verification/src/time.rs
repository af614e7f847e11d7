//! Points in time and spans of time as the library reasons about them.
//!
//! A [`Timestamp`] counts nanoseconds since the Unix epoch. The current time
//! comes from the system clock; spans of time are `std::time::Duration` values, whose
//! length in nanoseconds the contracts speak of through [`duration_nanos`].

use std::time::Duration;
use vstd::prelude::*;

verus! {

pub const NANOS_PER_SEC: i128 = 1_000_000_000;

/// A bound on the whole seconds of any point in time that `chrono` can hold:
/// chrono counts days from the start of year 1 in an `i32`, so the seconds
/// since the Unix epoch stay below 2^48 in magnitude.
pub const RANGE_SECS: i128 = 281_474_976_710_656;

/// The number of nanoseconds in `Duration::MAX`.
pub const MAX_DURATION_NANOS: u128 = 18_446_744_073_709_551_615_999_999_999;

/// The number of nanoseconds a `Duration` holds, as `Duration::as_nanos`
/// reports it.
pub uninterp spec fn duration_nanos(d: Duration) -> u128;

/// Calls `Duration::as_nanos`; its documentation: "Returns the total number
/// of nanoseconds contained by this `Duration`."
///
/// A `Duration` holds at most `u64::MAX` whole seconds and 999,999,999
/// nanoseconds (`Duration::MAX`), so the count is at most
/// `u64::MAX * 1_000_000_000 + 999_999_999`.
#[verifier::external_body]
pub fn duration_as_nanos(d: &Duration) -> (r: u128)
    ensures
        r == duration_nanos(*d),
        r <= MAX_DURATION_NANOS,
{
    d.as_nanos()
}

/// Calls `Duration::from_secs`. The duration it returns holds exactly
/// `secs` whole seconds and no fraction, so `as_nanos` reports
/// `secs * 1_000_000_000`.
#[verifier::external_body]
pub fn duration_from_secs(secs: u64) -> (d: Duration)
    ensures
        duration_nanos(d) == secs * 1_000_000_000,
{
    Duration::from_secs(secs)
}

#[verifier::external_type_specification]
#[verifier::external_body]
pub struct ExSystemTime(std::time::SystemTime);

/// Calls `SystemTime::now`. The reading depends on the system clock, so
/// nothing is stated of it.
#[verifier::external_body]
fn system_time_now() -> std::time::SystemTime {
    std::time::SystemTime::now()
}

/// Calls `SystemTime::duration_since(UNIX_EPOCH)`: `Ok` with the span from
/// the Unix epoch to `t` when `t` is not earlier, else `Err` with the span
/// from `t` to the epoch (`SystemTimeError::duration`). Nothing is stated of
/// the spans, since `t` is opaque here.
#[verifier::external_body]
fn since_unix_epoch(t: &std::time::SystemTime) -> Result<Duration, Duration> {
    match t.duration_since(std::time::UNIX_EPOCH) {
        Ok(d) => Ok(d),
        Err(e) => Err(e.duration()),
    }
}

/// A point in time: nanoseconds since 1970-01-01T00:00:00Z.
#[derive(Debug, Clone, Copy, PartialEq, Eq, PartialOrd, Ord, Hash, Structural)]
pub struct Timestamp {
    pub nanos: i128,
}

impl Timestamp {
    /// A timestamp from nanoseconds since the Unix epoch.
    pub fn from_nanos(nanos: i128) -> (t: Timestamp)
        ensures
            t.nanos == nanos,
    {
        Timestamp { nanos }
    }

    /// A timestamp from whole seconds and the nanoseconds past them.
    pub fn from_parts(secs: i64, subsec_nanos: u32) -> (t: Timestamp)
        ensures
            t.nanos == secs * NANOS_PER_SEC + subsec_nanos,
            -RANGE_SECS < secs < RANGE_SECS && subsec_nanos < 2 * NANOS_PER_SEC ==> t.in_range(),
    {
        assert(i64::MIN * 1_000_000_000 <= secs * 1_000_000_000 <= i64::MAX * 1_000_000_000)
            by (nonlinear_arith);
        assert(-RANGE_SECS < secs < RANGE_SECS ==> -RANGE_SECS * 1_000_000_000 <= secs
            * 1_000_000_000 <= RANGE_SECS * 1_000_000_000) by (nonlinear_arith);
        Timestamp { nanos: secs as i128 * NANOS_PER_SEC + subsec_nanos as i128 }
    }

    /// The point in time a clock reading gives: `Ok(d)` is `d` after the Unix
    /// epoch, `Err(d)` is `d` before it; `None` when that point lies outside
    /// [`Timestamp::in_range`].
    pub open spec fn spec_from_epoch_offset(off: Result<Duration, Duration>) -> Option<Timestamp> {
        let nanos: int = match off {
            Ok(d) => duration_nanos(d) as int,
            Err(d) => -(duration_nanos(d) as int),
        };
        let t = Timestamp { nanos: nanos as i128 };
        if -RANGE_SECS * NANOS_PER_SEC <= nanos <= RANGE_SECS * NANOS_PER_SEC + 2 * NANOS_PER_SEC {
            Some(t)
        } else {
            None
        }
    }

    /// The point in time a clock reading gives: `Ok(d)` is `d` after the Unix
    /// epoch, `Err(d)` is `d` before it; `None` when that point lies outside
    /// the range a point in time can take here.
    pub fn from_epoch_offset(off: Result<Duration, Duration>) -> (t: Option<Timestamp>)
        ensures
            t == Timestamp::spec_from_epoch_offset(off),
            t matches Some(t) ==> t.in_range(),
            off matches Ok(d) ==> (t matches Some(t) ==> t.nanos == duration_nanos(d)),
            off matches Err(d) ==> (t matches Some(t) ==> t.nanos == -duration_nanos(d)),
    {
        let nanos: i128 = match &off {
            Ok(d) => duration_as_nanos(d) as i128,
            Err(d) => -(duration_as_nanos(d) as i128),
        };
        if -RANGE_SECS * NANOS_PER_SEC <= nanos && nanos <= RANGE_SECS * NANOS_PER_SEC + 2
            * NANOS_PER_SEC {
            Some(Timestamp { nanos })
        } else {
            None
        }
    }

    /// The current time, read from the system clock: the point in time of
    /// the clock's offset from the Unix epoch, `None` when that point lies
    /// outside [`Timestamp::in_range`]. Which time the clock reads is not
    /// stated.
    pub fn now() -> (t: Option<Timestamp>)
        ensures
            t matches Some(t) ==> t.in_range(),
            exists|off: Result<Duration, Duration>| t == #[trigger] Timestamp::spec_from_epoch_offset(off),
    {
        let off = since_unix_epoch(&system_time_now());
        let t = Timestamp::from_epoch_offset(off);
        assert(t == Timestamp::spec_from_epoch_offset(off));
        t
    }

    /// The whole seconds since the Unix epoch (rounded down) and the
    /// nanoseconds past them; `None` when the seconds do not fit an `i64`.
    pub fn to_parts(&self) -> (r: Option<(i64, u32)>)
        ensures
            r is Some <==> i64::MIN * NANOS_PER_SEC <= self.nanos < (i64::MAX + 1) * NANOS_PER_SEC,
            r matches Some((secs, sub)) ==> secs * NANOS_PER_SEC + sub == self.nanos && sub
                < NANOS_PER_SEC,
    {
        let nanos = self.nanos;
        if nanos == i128::MIN {
            return None;
        }
        let (q, rem): (i128, i128) = if nanos >= 0 {
            let q: i128 = nanos / NANOS_PER_SEC;
            let rem: i128 = nanos % NANOS_PER_SEC;
            assert(q * NANOS_PER_SEC + rem == nanos && 0 <= rem < NANOS_PER_SEC) by (nonlinear_arith)
                requires
                    nanos >= 0,
                    q == nanos / NANOS_PER_SEC,
                    rem == nanos % NANOS_PER_SEC,
                    NANOS_PER_SEC == 1_000_000_000,
            ;
            (q, rem)
        } else {
            let m: i128 = -nanos;
            let a: i128 = (m - 1) / NANOS_PER_SEC;
            assert(0 <= a && a * NANOS_PER_SEC <= m - 1 < (a + 1) * NANOS_PER_SEC) by (nonlinear_arith)
                requires
                    m >= 1,
                    a == (m - 1) as i128 / NANOS_PER_SEC,
                    NANOS_PER_SEC == 1_000_000_000,
            ;
            let q: i128 = -(a + 1);
            let d: i128 = (m - 1) - a * NANOS_PER_SEC;
            let rem: i128 = NANOS_PER_SEC - 1 - d;
            (q, rem)
        };
        if q < i64::MIN as i128 || q > i64::MAX as i128 {
            None
        } else {
            Some((q as i64, rem as u32))
        }
    }

    /// Whether the timestamp lies where `chrono` can put a point in time:
    /// whole seconds within [`RANGE_SECS`], and less than two seconds' worth
    /// of nanoseconds past them (a leap second).
    pub open spec fn in_range(self) -> bool {
        -RANGE_SECS * NANOS_PER_SEC <= self.nanos <= RANGE_SECS * NANOS_PER_SEC + 2
            * NANOS_PER_SEC
    }

    /// The point `d` after `self`.
    pub open spec fn spec_add(self, d: Duration) -> Timestamp {
        Timestamp { nanos: (self.nanos + duration_nanos(d)) as i128 }
    }

    /// The point `d` after `self`.
    pub fn add_duration(self, d: &Duration) -> (t: Timestamp)
        requires
            self.in_range(),
        ensures
            t == self.spec_add(*d),
            t.nanos == self.nanos + duration_nanos(*d),
    {
        let n = duration_as_nanos(d);
        Timestamp { nanos: self.nanos + n as i128 }
    }

    /// Whether `self` is at or before `other`.
    pub fn le(&self, other: &Timestamp) -> (r: bool)
        ensures
            r == (self.nanos <= other.nanos),
    {
        self.nanos <= other.nanos
    }
}

/// A source of the current time, so that time can be controlled in tests.
/// Implemented by the users of the library.
pub trait TimeProvider: Send + Sync {
    /// The current time.
    fn now(&self) -> Timestamp;
}

} // verus!
