//! Times as the wire format holds them, and the limits of the wire format.

use vstd::prelude::*;

verus! {

/// The largest number of bytes that one protocol message may hold: 2 MiB.
pub const MAX_PROTOCOL_MESSAGE_LEN: usize = 2 * 1024 * 1024;

/// A time as the peer protocol sends it: the number of seconds since the
/// Unix epoch, in 32 bits.
#[derive(Clone, Copy, Debug, PartialEq, Eq, Hash, PartialOrd, Ord, Structural)]
pub struct DateTime32 {
    pub timestamp: u32,
}

/// A span of time in seconds, in 32 bits.
#[derive(Clone, Copy, Debug, PartialEq, Eq, Hash, PartialOrd, Ord, Structural)]
pub struct Duration32 {
    pub seconds: u32,
}

/// The earliest time that the wire format can hold.
pub const MIN_TIME: u32 = 0;

/// The latest time that the wire format can hold.
pub const MAX_TIME: u32 = 0xffff_ffff;

/// `seconds` narrowed to 32 bits: a time before the epoch becomes the
/// epoch, a time beyond the range of 32 bits becomes the latest time.
pub open spec fn saturated(seconds: i64) -> u32 {
    if seconds < 0 {
        0
    } else if seconds > MAX_TIME {
        MAX_TIME
    } else {
        seconds as u32
    }
}

/// `chrono::Utc::now` and `DateTime::timestamp`: the seconds that the
/// machine's clock counts since the Unix epoch.  Nothing is known of the
/// number.  The call needs a clock that is not set before the epoch.
#[verifier::external_body]
fn utc_now_timestamp() -> i64 {
    chrono::Utc::now().timestamp()
}

impl DateTime32 {
    /// The time that is `seconds` after the epoch, narrowed to 32 bits.
    pub fn from_timestamp_saturating(seconds: i64) -> (time: DateTime32)
        ensures
            time.timestamp == saturated(seconds),
    {
        if seconds < 0 {
            DateTime32 { timestamp: 0 }
        } else if seconds > 0xffff_ffff {
            DateTime32 { timestamp: MAX_TIME }
        } else {
            DateTime32 { timestamp: seconds as u32 }
        }
    }

    /// The time of the machine's clock, narrowed to 32 bits.
    pub fn now() -> DateTime32 {
        DateTime32::from_timestamp_saturating(utc_now_timestamp())
    }

    /// The time that is `duration` before this time, if the wire format can hold it.
    pub fn checked_sub(self, duration: Duration32) -> (earlier: Option<DateTime32>)
        ensures
            self.timestamp >= duration.seconds ==> earlier == Some(
                DateTime32 { timestamp: (self.timestamp - duration.seconds) as u32 },
            ),
            self.timestamp < duration.seconds ==> earlier.is_none(),
    {
        if self.timestamp >= duration.seconds {
            Some(DateTime32 { timestamp: self.timestamp - duration.seconds })
        } else {
            None
        }
    }

    /// The time that is `duration` before this time, but the epoch at the earliest.
    pub fn saturating_sub(self, duration: Duration32) -> (earlier: DateTime32)
        ensures
            self.timestamp >= duration.seconds ==> earlier.timestamp == self.timestamp - duration.seconds,
            self.timestamp < duration.seconds ==> earlier.timestamp == 0,
    {
        if self.timestamp >= duration.seconds {
            DateTime32 { timestamp: self.timestamp - duration.seconds }
        } else {
            DateTime32 { timestamp: 0 }
        }
    }

    /// The span from `earlier` to this time, if `earlier` is not later than this time.
    pub fn checked_duration_since(self, earlier: DateTime32) -> (elapsed: Option<Duration32>)
        ensures
            self.timestamp >= earlier.timestamp ==> elapsed == Some(
                Duration32 { seconds: (self.timestamp - earlier.timestamp) as u32 },
            ),
            self.timestamp < earlier.timestamp ==> elapsed.is_none(),
    {
        if self.timestamp >= earlier.timestamp {
            Some(Duration32 { seconds: self.timestamp - earlier.timestamp })
        } else {
            None
        }
    }
}

} // verus!
