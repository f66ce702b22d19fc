//! Spans of time and points in time, and how the protocol writes them.

use vstd::prelude::*;

verus! {

/// Nanoseconds in a second.
pub const NANOS_PER_SEC: u32 = 1_000_000_000;

/// A span of time.
#[derive(Clone, Copy, Debug, PartialEq, Eq, Structural)]
pub struct Duration {
    /// Whole seconds.
    pub secs: u64,
    /// Nanoseconds beyond the whole seconds.
    pub nanos: u32,
}

impl Duration {
    /// There is less than a second beyond the whole seconds.
    pub open spec fn wf(self) -> bool {
        self.nanos < NANOS_PER_SEC
    }

    /// The span in nanoseconds.
    pub open spec fn spec_nanos(self) -> nat {
        (self.secs * NANOS_PER_SEC + self.nanos) as nat
    }

    /// The span of `secs` seconds and `nanos` nanoseconds, which may be more than a second.
    pub fn new(secs: u64, nanos: u32) -> (r: Duration)
        requires
            secs + nanos / NANOS_PER_SEC <= u64::MAX,
        ensures
            r.wf(),
            r.spec_nanos() == secs * NANOS_PER_SEC + nanos,
            nanos < NANOS_PER_SEC ==> r == (Duration { secs, nanos }),
    {
        Duration { secs: secs + (nanos / NANOS_PER_SEC) as u64, nanos: nanos % NANOS_PER_SEC }
    }

    /// The whole seconds.
    pub fn as_secs(&self) -> (r: u64)
        ensures
            r == self.secs,
    {
        self.secs
    }

    /// The nanoseconds beyond the whole seconds.
    pub fn subsec_nanos(&self) -> (r: u32)
        ensures
            r == self.nanos,
    {
        self.nanos
    }

    /// The span in nanoseconds.
    pub fn as_nanos(&self) -> (r: u128)
        ensures
            r == self.spec_nanos(),
    {
        self.secs as u128 * 1_000_000_000 + self.nanos as u128
    }
}

/// A point in time.
#[derive(Clone, Copy, Debug, PartialEq, Eq, Structural)]
pub struct SystemTime {
    /// The last whole second, counted from the epoch; negative before it.
    pub secs: i64,
    /// Nanoseconds after that second.
    pub nanos: u32,
}

/// A time that a file is to be given.
#[derive(Clone, Copy, Debug, PartialEq, Eq, Structural)]
pub enum TimeOrNow {
    /// This time.
    SpecificTime(SystemTime),
    /// The time of the request.
    Now,
}

/// The epoch.
pub fn unix_epoch() -> (r: SystemTime)
    ensures
        r == (SystemTime { secs: 0, nanos: 0 }),
{
    SystemTime { secs: 0, nanos: 0 }
}

impl SystemTime {
    /// The point lies within the second that it names.
    pub open spec fn wf(self) -> bool {
        self.nanos < NANOS_PER_SEC
    }

    /// Nanoseconds after the epoch; negative before it.
    pub open spec fn since_epoch(self) -> int {
        self.secs * NANOS_PER_SEC + self.nanos
    }

    /// Whether the protocol can write the point.
    pub open spec fn writable(self) -> bool {
        self.wf() && self.since_epoch() > i64::MIN * NANOS_PER_SEC
    }

    /// Whether the protocol can write the point.
    pub fn is_writable(&self) -> (r: bool)
        ensures
            r == self.writable(),
    {
        self.nanos < NANOS_PER_SEC && (self.secs > i64::MIN || self.nanos > 0)
    }
}

/// The distance of `n` nanoseconds from the epoch as the protocol writes it: the whole seconds,
/// negative before the epoch, and the nanoseconds beyond them, away from the epoch.
pub open spec fn signed_parts(n: int) -> (int, int) {
    if n >= 0 {
        (n / NANOS_PER_SEC as int, n % NANOS_PER_SEC as int)
    } else {
        (-((-n) / NANOS_PER_SEC as int), (-n) % NANOS_PER_SEC as int)
    }
}

/// The distance from the epoch that whole seconds and the nanoseconds beyond them stand for.
pub open spec fn signed_nanos(secs: int, nanos: int) -> int {
    if secs >= 0 {
        secs * NANOS_PER_SEC + nanos
    } else {
        secs * NANOS_PER_SEC - nanos
    }
}

/// Whether the point that `secs` and `nanos` stand for can be held.
pub open spec fn time_fits(secs: i64, nanos: u32) -> bool {
    let n = signed_nanos(secs as int, nanos as int);
    i64::MIN < secs && i64::MIN <= n / NANOS_PER_SEC as int <= i64::MAX
}

/// Whether the point that `secs` and `nanos` stand for can be held.
pub fn time_can_be_held(secs: i64, nanos: u32) -> (r: bool)
    ensures
        r == time_fits(secs, nanos),
{
    let carry: i64 = (nanos / NANOS_PER_SEC) as i64;
    if secs >= 0 {
        secs <= i64::MAX - carry
    } else if nanos % NANOS_PER_SEC == 0 {
        secs > i64::MIN && secs >= i64::MIN + carry
    } else {
        secs > i64::MIN + carry
    }
}

/// Converts to signed 64-bit time with epoch at 0.
pub fn time_from_system_time(system_time: &SystemTime) -> (r: (i64, u32))
    requires
        system_time.writable(),
    ensures
        (r.0 as int, r.1 as int) == signed_parts(system_time.since_epoch()),
{
    if system_time.secs >= 0 {
        (system_time.secs, system_time.nanos)
    } else if system_time.nanos == 0 {
        (system_time.secs, 0)
    } else {
        (system_time.secs + 1, NANOS_PER_SEC - system_time.nanos)
    }
}

/// The point in time that `secs` and `nanos` stand for.
pub fn system_time_from_time(secs: i64, nanos: u32) -> (r: SystemTime)
    requires
        time_fits(secs, nanos),
    ensures
        r.wf(),
        r.since_epoch() == signed_nanos(secs as int, nanos as int),
{
    let carry: i64 = (nanos / NANOS_PER_SEC) as i64;
    let rest: u32 = nanos % NANOS_PER_SEC;
    if secs >= 0 {
        SystemTime { secs: secs + carry, nanos: rest }
    } else if rest == 0 {
        SystemTime { secs: secs - carry, nanos: 0 }
    } else {
        SystemTime { secs: secs - carry - 1, nanos: NANOS_PER_SEC - rest }
    }
}

/// What is written of the point in time that was read is what was read. (Before the epoch `secs`
/// is negative: there is no way to write a point less than a second before it.)
pub proof fn lemma_time_round_trip(secs: i64, nanos: u32, t: SystemTime)
    requires
        time_fits(secs, nanos),
        nanos < NANOS_PER_SEC,
        t.since_epoch() == signed_nanos(secs as int, nanos as int),
    ensures
        signed_parts(t.since_epoch()) == (secs as int, nanos as int),
{
}

/// What is written of a point in time is its distance from the epoch, of whose parts neither is on
/// the other side: seconds and less than a second beyond them.
pub proof fn lemma_time_is_told(t: SystemTime, r: (i64, u32))
    requires
        t.writable(),
        call_ensures(time_from_system_time, (&t,), r),
    ensures
        r.1 < 1_000_000_000,
        t.secs >= 0 ==> r.0 == t.secs && r.1 == t.nanos,
        t.secs < 0 ==> r.0 <= 0 && r.0 * 1_000_000_000 - r.1 == t.secs * 1_000_000_000 + t.nanos,
{
}

/// What is read of seconds and nanoseconds beyond them lies after the epoch, or before it where the
/// seconds are negative.
pub proof fn lemma_time_is_taken(secs: i64, nanos: u32, r: SystemTime)
    requires
        time_fits(secs, nanos),
        call_ensures(system_time_from_time, (secs, nanos), r),
    ensures
        r.nanos < 1_000_000_000,
        secs >= 0 ==> r.secs * 1_000_000_000 + r.nanos == secs * 1_000_000_000 + nanos,
        secs < 0 ==> r.secs * 1_000_000_000 + r.nanos == secs * 1_000_000_000 - nanos,
{
}

/// The nanoseconds of a span, and the span that is made of seconds and nanoseconds.
pub proof fn lemma_span_in_nanoseconds(secs: u64, nanos: u32, span: Duration, r: u128)
    requires
        secs + nanos / 1_000_000_000 <= u64::MAX,
        call_ensures(Duration::new, (secs, nanos), span),
        call_ensures(Duration::as_nanos, (&span,), r),
    ensures
        r == secs * 1_000_000_000 + nanos,
        span.nanos < 1_000_000_000,
        span.secs * 1_000_000_000 + span.nanos == secs * 1_000_000_000 + nanos,
{
}

} // verus!
