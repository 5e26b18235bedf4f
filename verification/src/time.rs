use vstd::prelude::*;
use crate::errors::TimeError;

verus! {

/// The largest Unix timestamp in nanoseconds that a `Time` holds:
/// 9999-12-31T23:59:59.999999999Z.
pub const MAX_UNIX_TIMESTAMP_NANOS: u128 = 253_402_300_799_999_999_999;

/// The earliest instant that the calendar arithmetic reaches,
/// -9999-01-01T00:00:00Z, in Unix nanoseconds.
pub open spec fn min_calendar_nanos() -> int {
    -377_705_203_200_000_000_000
}

pub const NANOS_PER_SEC: u128 = 1_000_000_000;

/// A span of time: whole seconds and a sub-second part in nanoseconds.
#[derive(Copy, Clone, Debug, PartialEq, Eq, Structural, PartialOrd, Ord, Hash)]
pub struct Duration {
    secs: u64,
    nanos: u32,
}

impl Duration {
    /// Well-formedness: the sub-second part is below one second.
    pub open spec fn wf(self) -> bool {
        self.spec_subsec_nanos() < 1_000_000_000
    }

    pub closed spec fn spec_secs(self) -> u64 {
        self.secs
    }

    pub closed spec fn spec_subsec_nanos(self) -> u32 {
        self.nanos
    }

    /// The length of the span in nanoseconds.
    pub open spec fn total_nanos(self) -> nat {
        self.spec_secs() as nat * 1_000_000_000 + self.spec_subsec_nanos() as nat
    }

    /// A span of `secs` seconds and `nanos` nanoseconds; nanoseconds beyond a
    /// second carry into the seconds, which must not overflow.
    pub fn new(secs: u64, nanos: u32) -> (r: Duration)
        requires
            secs + nanos / 1_000_000_000 <= u64::MAX,
        ensures
            r.wf(),
            r.total_nanos() == secs * 1_000_000_000 + nanos,
    {
        let extra = nanos / 1_000_000_000;
        let rem = nanos % 1_000_000_000;
        Duration { secs: secs + extra as u64, nanos: rem }
    }

    /// A span of the given whole seconds.
    pub fn from_secs(secs: u64) -> (r: Duration)
        ensures
            r.wf(),
            r.total_nanos() == secs * 1_000_000_000,
    {
        Duration { secs, nanos: 0 }
    }

    /// A span of the given nanoseconds.
    pub fn from_nanos(nanos: u64) -> (r: Duration)
        ensures
            r.wf(),
            r.total_nanos() == nanos,
    {
        let secs = nanos / 1_000_000_000;
        let rem = (nanos % 1_000_000_000) as u32;
        Duration { secs, nanos: rem }
    }

    /// Whole seconds.
    pub fn as_secs(&self) -> (r: u64)
        ensures
            r == self.spec_secs(),
    {
        self.secs
    }

    /// The sub-second part in nanoseconds.
    pub fn subsec_nanos(&self) -> (r: u32)
        ensures
            r == self.spec_subsec_nanos(),
    {
        self.nanos
    }

    /// The whole span in nanoseconds.
    pub fn as_nanos(&self) -> (r: u128)
        ensures
            r == self.total_nanos(),
    {
        self.secs as u128 * NANOS_PER_SEC + self.nanos as u128
    }
}

/// A point in time between 1970-01-01T00:00:00Z and
/// 9999-12-31T23:59:59.999999999Z, held as nanoseconds since the Unix epoch.
#[derive(Copy, Clone, Debug, PartialEq, Eq, Structural, PartialOrd, Ord)]
pub struct Time {
    nanos: u128,
}

/// A protobuf timestamp: seconds since the epoch and a nanosecond part.
#[derive(Copy, Clone, Debug, PartialEq, Eq, Structural, Default)]
pub struct Timestamp {
    pub seconds: i64,
    pub nanos: i32,
}

/// `std::time::SystemTime`, a reading of the system clock.
#[verifier::external_type_specification]
#[verifier::external_body]
pub struct ExSystemTime(std::time::SystemTime);

/// `std::time::SystemTime::now`: the clock's current reading. Nothing is
/// promised of it: it is the time.
#[verifier::external_body]
fn system_time_now() -> (r: std::time::SystemTime) {
    std::time::SystemTime::now()
}

/// `std::time::SystemTime::duration_since` from the Unix epoch: the span
/// since the epoch, or `None` for a reading before it. Nothing is promised
/// of the span, which is the clock's.
#[verifier::external_body]
fn since_unix_epoch(t: std::time::SystemTime) -> (r: Option<core::time::Duration>) {
    t.duration_since(std::time::UNIX_EPOCH).ok()
}

/// `core::time::Duration::as_nanos`: the whole span in nanoseconds. The
/// span is opaque here, so nothing is stated of the number.
#[verifier::external_body]
fn std_duration_nanos(d: core::time::Duration) -> (r: u128) {
    d.as_nanos()
}

impl Time {
    pub closed spec fn spec_nanos(self) -> u128 {
        self.nanos
    }

    #[verifier::type_invariant]
    spec fn in_range(self) -> bool {
        self.nanos <= MAX_UNIX_TIMESTAMP_NANOS
    }

    /// A `Time` always lies in the representable range.
    pub open spec fn wf(self) -> bool {
        self.spec_nanos() <= MAX_UNIX_TIMESTAMP_NANOS
    }

    /// The current time; an error when the clock reads outside the range of
    /// `Time`.
    pub fn now() -> (r: Result<Self, TimeError>)
        ensures
            r matches Ok(t) ==> t.wf(),
    {
        match since_unix_epoch(system_time_now()) {
            Some(d) => Self::from_unix_timestamp_nanos(std_duration_nanos(d)),
            None => Err(TimeError::InvalidDate),
        }
    }

    /// The Unix epoch.
    pub fn unix_epoch() -> (r: Self)
        ensures
            r.wf(),
            r.spec_nanos() == 0,
    {
        Time { nanos: 0 }
    }

    /// The time `nanoseconds` after the epoch; an error beyond year 9999.
    pub fn from_unix_timestamp_nanos(nanoseconds: u128) -> (r: Result<Self, TimeError>)
        ensures
            nanoseconds <= MAX_UNIX_TIMESTAMP_NANOS ==> (r matches Ok(t) && t.wf() && t.spec_nanos() == nanoseconds),
            nanoseconds > MAX_UNIX_TIMESTAMP_NANOS ==> r == Err::<Time, TimeError>(TimeError::InvalidDate),
    {
        if nanoseconds > MAX_UNIX_TIMESTAMP_NANOS {
            return Err(TimeError::InvalidDate);
        }
        Ok(Time { nanos: nanoseconds })
    }

    /// The time `secs` seconds and `nanos` nanoseconds after the epoch;
    /// negative seconds, a nanosecond part of a second or more, and instants
    /// beyond year 9999 are errors.
    pub fn from_unix_timestamp(secs: i64, nanos: u32) -> (r: Result<Self, TimeError>)
        ensures
            (secs < 0 || nanos > 999_999_999 || secs * 1_000_000_000 + nanos > MAX_UNIX_TIMESTAMP_NANOS)
                ==> r == Err::<Time, TimeError>(TimeError::InvalidDate),
            !(secs < 0 || nanos > 999_999_999 || secs * 1_000_000_000 + nanos > MAX_UNIX_TIMESTAMP_NANOS)
                ==> (r matches Ok(t) && t.wf() && t.spec_nanos() == secs * 1_000_000_000 + nanos),
    {
        if secs < 0 {
            return Err(TimeError::InvalidDate);
        }
        if nanos > 999_999_999 {
            return Err(TimeError::InvalidDate);
        }
        let total_nanos = secs as u128 * NANOS_PER_SEC + nanos as u128;
        Self::from_unix_timestamp_nanos(total_nanos)
    }

    /// How long after `other` this time lies; `None` when it lies before.
    pub fn duration_since(&self, other: &Self) -> (r: Option<Duration>)
        ensures
            self.spec_nanos() >= other.spec_nanos() ==> (r matches Some(d) && d.wf()
                && d.total_nanos() == self.spec_nanos() - other.spec_nanos()),
            self.spec_nanos() < other.spec_nanos() ==> r is None,
    {
        proof {
            use_type_invariant(self);
            use_type_invariant(other);
        }
        if self.nanos < other.nanos {
            return None;
        }
        let diff = self.nanos - other.nanos;
        let secs = (diff / NANOS_PER_SEC) as u64;
        let rem = (diff % NANOS_PER_SEC) as u32;
        assert(diff / NANOS_PER_SEC <= u64::MAX);
        Some(Duration { secs, nanos: rem })
    }

    /// Whole seconds since the epoch.
    pub fn as_unix_timestamp_secs(&self) -> (r: u64)
        ensures
            r == self.spec_nanos() / 1_000_000_000,
    {
        proof { use_type_invariant(self); }
        (self.nanos / NANOS_PER_SEC) as u64
    }

    /// Nanoseconds since the epoch.
    pub fn as_unix_timestamp_nanos(&self) -> (r: u128)
        ensures
            r == self.spec_nanos(),
    {
        self.nanos
    }

    /// This time moved forward by `rhs`; an error beyond year 9999.
    pub fn add(self, rhs: Duration) -> (r: Result<Self, TimeError>)
        ensures
            self.spec_nanos() + rhs.total_nanos() <= MAX_UNIX_TIMESTAMP_NANOS
                ==> (r matches Ok(t) && t.wf() && t.spec_nanos() == self.spec_nanos() + rhs.total_nanos()),
            self.spec_nanos() + rhs.total_nanos() > MAX_UNIX_TIMESTAMP_NANOS
                ==> r == Err::<Time, TimeError>(TimeError::DurationOutOfRange),
    {
        proof { use_type_invariant(self); }
        let d = rhs.as_nanos();
        if d > MAX_UNIX_TIMESTAMP_NANOS - self.nanos {
            return Err(TimeError::DurationOutOfRange);
        }
        Ok(Time { nanos: self.nanos + d })
    }

    /// This time moved back by `rhs`. Before the epoch the result is an
    /// invalid date; before the earliest calendar instant, or for spans of
    /// more than `i64::MAX` seconds, the duration is out of range.
    pub fn sub(self, rhs: Duration) -> (r: Result<Self, TimeError>)
        ensures
            rhs.total_nanos() <= self.spec_nanos()
                ==> (r matches Ok(t) && t.wf() && t.spec_nanos() == self.spec_nanos() - rhs.total_nanos()),
            rhs.total_nanos() > self.spec_nanos() && rhs.spec_secs() <= i64::MAX
                && self.spec_nanos() - rhs.total_nanos() >= min_calendar_nanos()
                ==> r == Err::<Time, TimeError>(TimeError::InvalidDate),
            rhs.total_nanos() > self.spec_nanos() && (rhs.spec_secs() > i64::MAX
                || self.spec_nanos() - rhs.total_nanos() < min_calendar_nanos())
                ==> r == Err::<Time, TimeError>(TimeError::DurationOutOfRange),
    {
        proof { use_type_invariant(self); }
        let d = rhs.as_nanos();
        if d <= self.nanos {
            return Ok(Time { nanos: self.nanos - d });
        }
        if rhs.as_secs() > 0x7fff_ffff_ffff_ffff {
            return Err(TimeError::DurationOutOfRange);
        }
        let below = d - self.nanos;
        if below > 377_705_203_200_000_000_000 {
            return Err(TimeError::DurationOutOfRange);
        }
        Err(TimeError::InvalidDate)
    }

    /// Converts a protobuf timestamp; a negative nanosecond part does not
    /// convert.
    pub fn try_from_timestamp(value: Timestamp) -> (r: Result<Self, TimeError>)
        ensures
            value.nanos < 0 ==> r == Err::<Time, TimeError>(TimeError::TryFromIntError),
            value.nanos >= 0 && (value.seconds < 0 || value.nanos > 999_999_999
                || value.seconds * 1_000_000_000 + value.nanos > MAX_UNIX_TIMESTAMP_NANOS)
                ==> r == Err::<Time, TimeError>(TimeError::InvalidDate),
            value.nanos >= 0 && !(value.seconds < 0 || value.nanos > 999_999_999
                || value.seconds * 1_000_000_000 + value.nanos > MAX_UNIX_TIMESTAMP_NANOS)
                ==> (r matches Ok(t) && t.wf() && t.spec_nanos() == value.seconds * 1_000_000_000 + value.nanos),
    {
        if value.nanos < 0 {
            return Err(TimeError::TryFromIntError);
        }
        Self::from_unix_timestamp(value.seconds, value.nanos as u32)
    }

    /// The protobuf timestamp of this time.
    pub fn to_timestamp(&self) -> (r: Timestamp)
        ensures
            r.seconds == self.spec_nanos() / 1_000_000_000,
            r.nanos == self.spec_nanos() % 1_000_000_000,
    {
        proof { use_type_invariant(self); }
        let seconds = (self.nanos / NANOS_PER_SEC) as i64;
        let nanos = (self.nanos % NANOS_PER_SEC) as i32;
        Timestamp { seconds, nanos }
    }
}

/// The span of `nanos` nanoseconds. Spans longer than the range of `Time`
/// are refused: with `TryFromIntError` when the whole seconds do not fit a
/// `u64`, with `DurationOutOfRange` otherwise.
pub fn nanos_to_duration(nanos: u128) -> (r: Result<Duration, TimeError>)
    ensures
        nanos <= MAX_UNIX_TIMESTAMP_NANOS ==> (r matches Ok(d) && d.wf() && d.total_nanos() == nanos),
        nanos / 1_000_000_000 > u64::MAX ==> r == Err::<Duration, TimeError>(TimeError::TryFromIntError),
        nanos > MAX_UNIX_TIMESTAMP_NANOS && nanos / 1_000_000_000 <= u64::MAX
            ==> r == Err::<Duration, TimeError>(TimeError::DurationOutOfRange),
{
    let secs = nanos / NANOS_PER_SEC;
    if secs > u64::MAX as u128 {
        return Err(TimeError::TryFromIntError);
    }
    if nanos > MAX_UNIX_TIMESTAMP_NANOS {
        return Err(TimeError::DurationOutOfRange);
    }
    let rem = (nanos % NANOS_PER_SEC) as u32;
    Ok(Duration { secs: secs as u64, nanos: rem })
}

/// Converting a time to a protobuf timestamp and back gives the same time.
pub proof fn lemma_timestamp_roundtrip(t: Time)
    requires
        t.wf(),
    ensures
        ({
            let s = t.spec_nanos() / 1_000_000_000;
            let n = t.spec_nanos() % 1_000_000_000;
            s * 1_000_000_000 + n == t.spec_nanos() && s >= 0 && n <= 999_999_999
        }),
{
}

/// Reading back the nanoseconds of a time built from nanoseconds gives the
/// same number, and the seconds are its whole part.
pub proof fn lemma_nanos_roundtrip(n: u128, t: Time)
    requires
        n <= MAX_UNIX_TIMESTAMP_NANOS,
        t.spec_nanos() == n,
    ensures
        t.wf(),
        t.spec_nanos() / 1_000_000_000 == n / 1_000_000_000,
{
}

} // verus!
