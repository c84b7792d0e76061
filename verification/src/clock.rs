//! Wall-clock values: the snapshot produced once per boot and the shareable
//! clock handed to request-handling tasks.

use vstd::prelude::*;

verus! {

/// Largest UTC offset magnitude, in seconds, that a clock may carry
/// (25 hours, 59 minutes and 59 seconds).
pub const MAX_UTC_OFFSET_SECONDS: i32 = 93599;

/// An epoch offset in seconds plus a UTC offset: the unit of persistence and
/// the unit returned by the bootstrap policy.
#[derive(Clone, Copy, PartialEq, Eq, Structural, Debug)]
pub struct ClockSnapshot {
    /// Seconds since the Unix epoch at the moment the snapshot was taken.
    pub epoch_seconds: i64,
    /// UTC offset in seconds, east positive.
    pub offset_seconds: i32,
}

impl ClockSnapshot {
    /// A snapshot carries a UTC offset that a calendar library could accept.
    pub open spec fn wf(self) -> bool {
        -MAX_UTC_OFFSET_SECONDS <= self.offset_seconds <= MAX_UTC_OFFSET_SECONDS
    }

    pub fn new(epoch_seconds: i64, offset_seconds: i32) -> (r: ClockSnapshot)
        requires
            -MAX_UTC_OFFSET_SECONDS <= offset_seconds <= MAX_UTC_OFFSET_SECONDS,
        ensures
            r.epoch_seconds == epoch_seconds,
            r.offset_seconds == offset_seconds,
            r.wf(),
    {
        ClockSnapshot { epoch_seconds, offset_seconds }
    }
}

/// The fallback adopted when neither the persistent store nor the network
/// produced a snapshot: the Unix epoch, UTC.
pub fn fallback_snapshot() -> (r: ClockSnapshot)
    ensures
        r.epoch_seconds == 0,
        r.offset_seconds == 0,
        r.wf(),
{
    ClockSnapshot { epoch_seconds: 0, offset_seconds: 0 }
}

/// A cheaply shareable clock value: the boot-time snapshot, from which the
/// current time is the boot epoch plus the seconds elapsed since boot.
#[derive(Clone, Copy, PartialEq, Eq, Structural, Debug)]
pub struct Clock {
    /// Seconds since the Unix epoch at boot.
    pub boot_epoch_seconds: i64,
    /// UTC offset in seconds, east positive.
    pub offset_seconds: i32,
}

/// Why a clock reading could not be produced.
#[derive(Clone, Copy, PartialEq, Eq, Structural, Debug)]
pub enum ClockError {
    /// The current epoch does not fit in a signed 64-bit second count.
    EpochOverflow,
    /// The current epoch lies outside the calendar library's supported
    /// range of instants.
    OutOfCalendarRange,
}

/// Smallest Unix timestamp the calendar library accepts (the first instant
/// of year -9999).
pub const MIN_UNIX_TIMESTAMP: i64 = -377705116800;

/// Largest Unix timestamp the calendar library accepts (the last second of
/// year 9999).
pub const MAX_UNIX_TIMESTAMP: i64 = 253402300799;

#[verifier::external_type_specification]
#[verifier::external_body]
pub struct ExOffsetDateTime(time::OffsetDateTime);

/// Relies on time::OffsetDateTime::from_unix_timestamp: it succeeds exactly
/// when the timestamp lies between the library's minimum and maximum
/// supported instants, and it fails with a range error otherwise.
#[verifier::external_body]
fn datetime_from_unix(epoch: i64) -> (r: Option<time::OffsetDateTime>)
    ensures
        r is Some <==> MIN_UNIX_TIMESTAMP <= epoch <= MAX_UNIX_TIMESTAMP,
{
    time::OffsetDateTime::from_unix_timestamp(epoch).ok()
}

impl Clock {
    pub open spec fn wf(self) -> bool {
        -MAX_UTC_OFFSET_SECONDS <= self.offset_seconds <= MAX_UTC_OFFSET_SECONDS
    }

    pub fn new(epoch_seconds: i64, offset_seconds: i32) -> (r: Clock)
        requires
            -MAX_UTC_OFFSET_SECONDS <= offset_seconds <= MAX_UTC_OFFSET_SECONDS,
        ensures
            r.boot_epoch_seconds == epoch_seconds,
            r.offset_seconds == offset_seconds,
            r.wf(),
    {
        Clock { boot_epoch_seconds: epoch_seconds, offset_seconds }
    }

    pub fn from_snapshot(s: ClockSnapshot) -> (r: Clock)
        requires
            s.wf(),
        ensures
            r.boot_epoch_seconds == s.epoch_seconds,
            r.offset_seconds == s.offset_seconds,
            r.wf(),
    {
        Clock { boot_epoch_seconds: s.epoch_seconds, offset_seconds: s.offset_seconds }
    }

    /// The current epoch, given the seconds elapsed since boot: the boot
    /// epoch plus the elapsed time, or an overflow error when that sum does
    /// not fit in 64 signed bits.
    pub fn now(&self, elapsed_seconds: u64) -> (r: Result<i64, ClockError>)
        ensures
            r is Ok <==> self.boot_epoch_seconds + elapsed_seconds <= i64::MAX,
            r is Ok ==> r.unwrap() == self.boot_epoch_seconds + elapsed_seconds,
            r is Err ==> r.unwrap_err() == ClockError::EpochOverflow,
    {
        let sum: i128 = self.boot_epoch_seconds as i128 + elapsed_seconds as i128;
        if sum <= i64::MAX as i128 {
            Ok(sum as i64)
        } else {
            Err(ClockError::EpochOverflow)
        }
    }

    /// The current time as a calendar instant, given the seconds elapsed
    /// since boot. Fails with the overflow error when the current epoch
    /// does not fit in 64 signed bits, and with the range error when it
    /// fits but lies outside the calendar library's supported instants.
    pub fn now_datetime(&self, elapsed_seconds: u64) -> (r: Result<
        time::OffsetDateTime,
        ClockError,
    >)
        ensures
            r is Ok <==> MIN_UNIX_TIMESTAMP <= self.boot_epoch_seconds + elapsed_seconds
                <= MAX_UNIX_TIMESTAMP,
            r == Err::<time::OffsetDateTime, ClockError>(ClockError::EpochOverflow) <==> self
                .boot_epoch_seconds + elapsed_seconds > i64::MAX,
            r == Err::<time::OffsetDateTime, ClockError>(ClockError::OutOfCalendarRange)
                <==> self.boot_epoch_seconds + elapsed_seconds <= i64::MAX && !(MIN_UNIX_TIMESTAMP
                <= self.boot_epoch_seconds + elapsed_seconds <= MAX_UNIX_TIMESTAMP),
    {
        match self.now(elapsed_seconds) {
            Err(e) => Err(e),
            Ok(epoch) => match datetime_from_unix(epoch) {
                Some(instant) => Ok(instant),
                None => Err(ClockError::OutOfCalendarRange),
            },
        }
    }
}

} // verus!
