//! The figures of the status report.

use vstd::prelude::*;

verus! {

/// A time of running, in days, hours, minutes and seconds.
#[derive(Debug, Clone, Copy, PartialEq, Eq, Structural)]
pub struct Uptime {
    pub days: u64,
    pub hours: u64,
    pub minutes: u64,
    pub seconds: u64,
}

impl Uptime {
    /// The whole time in seconds.
    pub open spec fn total(self) -> int {
        self.days * 86400 + self.hours * 3600 + self.minutes * 60 + self.seconds
    }
}

/// Splits a number of seconds into days, hours, minutes and seconds.
pub fn uptime(seconds: u64) -> (parts: Uptime)
    ensures
        parts.total() == seconds,
        parts.hours < 24,
        parts.minutes < 60,
        parts.seconds < 60,
{
    let in_day = seconds % 86400;
    let in_hour = in_day % 3600;
    Uptime {
        days: seconds / 86400,
        hours: in_day / 3600,
        minutes: in_hour / 60,
        seconds: in_hour % 60,
    }
}

/// The whole mebibytes in a number of bytes.
pub fn mebibytes(bytes: u64) -> (whole: u64)
    ensures
        whole == bytes / 1048576,
{
    bytes / 1024 / 1024
}

} // verus!
