//! Readings of the monotonic clock, as nanoseconds since the clock's origin.
use vstd::prelude::*;

verus! {

pub const NSECS_PER_SEC: u64 = 1_000_000_000;

pub const NSECS_PER_MSEC: u64 = 1_000_000;

#[verifier::external_type_specification]
#[verifier::external_body]
pub struct ExErrno(nix::errno::Errno);

/// Why no usable clock reading could be had.
#[derive(Clone, Copy, Debug, PartialEq, Eq, Structural)]
pub enum ClockError {
    /// The system refused to read the monotonic clock.
    ReadFailed,
    /// The reading is negative, malformed, or too far from the origin for a `u64`
    /// count of nanoseconds.
    OutOfRange,
    /// A later reading came out earlier than the one it is measured from.
    WentBackwards,
    /// No time passed over a span that had to take some.
    NotAdvancing,
}

/// A monotonic clock reading: nanoseconds since the clock's origin.
#[derive(Clone, Copy, Debug, PartialEq, Eq, Structural)]
pub struct Timestamp {
    pub nanos: u64,
}

/// The reading that a `(seconds, nanoseconds)` pair denotes, if a `Timestamp`
/// can hold it.
pub open spec fn timestamp_of(secs: i64, nsecs: i64) -> Option<Timestamp> {
    if 0 <= secs && 0 <= nsecs < NSECS_PER_SEC && secs * NSECS_PER_SEC + nsecs <= u64::MAX {
        Some(Timestamp { nanos: (secs * NSECS_PER_SEC + nsecs) as u64 })
    } else {
        None
    }
}

impl Timestamp {
    /// Builds a reading from the seconds and nanoseconds fields of a `timespec`.
    pub fn from_parts(secs: i64, nsecs: i64) -> (r: Option<Timestamp>)
        ensures
            r == timestamp_of(secs, nsecs),
    {
        if secs < 0 || nsecs < 0 || nsecs >= NSECS_PER_SEC as i64 {
            return None;
        }
        let total: u128 = secs as u128 * 1_000_000_000u128 + nsecs as u128;
        if total > u64::MAX as u128 {
            None
        } else {
            Some(Timestamp { nanos: total as u64 })
        }
    }
}

/// Relies on nix::time::clock_gettime with CLOCK_MONOTONIC: on success its
/// reading, split into the `tv_sec` and `tv_nsec` fields of the timespec.
#[verifier::external_body]
fn read_monotonic() -> (r: Result<(i64, i64), nix::errno::Errno>) {
    match nix::time::clock_gettime(nix::time::ClockId::CLOCK_MONOTONIC) {
        Ok(t) => Ok((t.tv_sec() as i64, t.tv_nsec() as i64)),
        Err(e) => Err(e),
    }
}

/// Reads the monotonic clock.
pub fn get_time() -> (r: Result<Timestamp, ClockError>)
    ensures
        r is Ok ==> exists|secs: i64, nsecs: i64| timestamp_of(secs, nsecs) == Some(r->Ok_0),
        r is Err ==> r->Err_0 == ClockError::ReadFailed || r->Err_0 == ClockError::OutOfRange,
{
    match read_monotonic() {
        Err(_) => Err(ClockError::ReadFailed),
        Ok((secs, nsecs)) => match Timestamp::from_parts(secs, nsecs) {
            Some(t) => Ok(t),
            None => Err(ClockError::OutOfRange),
        },
    }
}

/// Nanoseconds from `before` to `after`; an error where `after` is earlier.
pub fn diff_nsec(before: Timestamp, after: Timestamp) -> (r: Result<u64, ClockError>)
    ensures
        r == (if before.nanos <= after.nanos {
            Ok((after.nanos - before.nanos) as u64)
        } else {
            Err(ClockError::WentBackwards)
        }),
{
    if before.nanos <= after.nanos {
        Ok(after.nanos - before.nanos)
    } else {
        Err(ClockError::WentBackwards)
    }
}

} // verus!
