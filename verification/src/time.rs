//! Points in time and lengths of time, as whole seconds plus nanoseconds.

use vstd::prelude::*;

verus! {

/// Nanoseconds in one second.
pub const NANOS_PER_SEC: u128 = 1_000_000_000;

/// A point in time: the time elapsed since the Unix epoch.
#[derive(Clone, Copy, Debug, PartialEq, Eq, Structural)]
pub struct Timestamp {
    pub secs: u64,
    pub nanos: u32,
}

/// A length of time.
#[derive(Clone, Copy, Debug, PartialEq, Eq, Structural)]
pub struct Span {
    pub secs: u64,
    pub nanos: u32,
}

/// Nanoseconds that `secs` seconds and `nanos` nanoseconds add up to.
pub open spec fn nanos_of(secs: u64, nanos: u32) -> int {
    secs as int * 1_000_000_000 + nanos as int
}

/// Whether something made at `since` is, at `now`, strictly older than `limit`.
pub open spec fn older_than(now: Timestamp, since: Timestamp, limit: Span) -> bool {
    now.as_nanos() - since.as_nanos() > limit.as_nanos()
}

fn total_nanos(secs: u64, nanos: u32) -> (total: u128)
    ensures
        total as int == nanos_of(secs, nanos),
{
    let wide_secs: u128 = secs as u128;
    let wide_nanos: u128 = nanos as u128;
    wide_secs * NANOS_PER_SEC + wide_nanos
}

/// The standard library's wall-clock reading, carried through as it is.
#[verifier::external_type_specification]
#[verifier::external_body]
pub struct ExSystemTime(std::time::SystemTime);

/// `SystemTime::now`: the clock's present reading. Nothing is claimed of it.
pub assume_specification[ std::time::SystemTime::now ]() -> (reading: std::time::SystemTime)
;

/// `SystemTime::duration_since` against `UNIX_EPOCH`: the time from the epoch
/// to `reading`, or `None` where `reading` lies before the epoch. The time is
/// handed out as `Duration::as_secs` and `Duration::subsec_nanos` give it:
/// whole seconds, and a rest that is always less than one second. Nothing is
/// claimed of how long the time is. Not proved here.
#[verifier::external_body]
fn since_epoch(reading: &std::time::SystemTime) -> (elapsed: Option<Timestamp>)
    ensures
        elapsed is Some ==> elapsed->0.is_normal(),
{
    match reading.duration_since(std::time::UNIX_EPOCH) {
        Ok(elapsed) => Some(Timestamp { secs: elapsed.as_secs(), nanos: elapsed.subsec_nanos() }),
        Err(_) => None,
    }
}

impl Timestamp {
    /// The point `secs` seconds after the epoch.
    pub fn from_secs(secs: u64) -> (t: Timestamp)
        ensures
            t == (Timestamp { secs, nanos: 0 }),
    {
        Timestamp { secs, nanos: 0 }
    }

    pub open spec fn as_nanos(self) -> int {
        nanos_of(self.secs, self.nanos)
    }

    /// Whether the point is written in its one normal form: whole seconds,
    /// and nanoseconds that stay below one second.
    pub open spec fn is_normal(self) -> bool {
        self.nanos < 1_000_000_000
    }

    /// The clock's present reading, in normal form; the epoch itself where
    /// the clock is set before it. Which point the clock reads is not known
    /// before it is read.
    pub fn now() -> (now: Timestamp)
        ensures
            now.is_normal(),
    {
        let reading = std::time::SystemTime::now();
        match since_epoch(&reading) {
            Some(elapsed) => elapsed,
            None => Timestamp { secs: 0, nanos: 0 },
        }
    }

    /// Whether `self`, read as the present, lies strictly more than `limit`
    /// after `since`. A `since` in the future is never older than anything.
    pub fn is_older_than(&self, since: &Timestamp, limit: &Span) -> (older: bool)
        ensures
            older == older_than(*self, *since, *limit),
    {
        let now: u128 = total_nanos(self.secs, self.nanos);
        let then: u128 = total_nanos(since.secs, since.nanos);
        let bound: u128 = total_nanos(limit.secs, limit.nanos);
        now >= then && now - then > bound
    }
}

impl Span {
    /// A length of `secs` whole seconds.
    pub fn from_secs(secs: u64) -> (d: Span)
        ensures
            d == (Span { secs, nanos: 0 }),
    {
        Span { secs, nanos: 0 }
    }

    pub open spec fn as_nanos(self) -> int {
        nanos_of(self.secs, self.nanos)
    }
}

} // verus!
