//! The stamp under which a message is scheduled.

use vstd::prelude::*;
use web_time::SystemTime;

verus! {

/// Schedule stamp that stands for "once the recipient is next online".
pub const SCHEDULE_ONCE_ONLINE: i32 = 0x7ffffffe;

/// The whole seconds from the Unix epoch to a point in time; nothing where
/// the point lies before the epoch.
pub uninterp spec fn seconds_since_epoch(t: SystemTime) -> Option<u64>;

/// The low 32 bits of a count of seconds, read as a signed number.
pub open spec fn truncated_seconds(seconds: u64) -> int {
    let low = seconds as int % 0x1_0000_0000;
    if low < 0x8000_0000 {
        low
    } else {
        low - 0x1_0000_0000
    }
}

/// The schedule stamp of a point in time, given the whole seconds from the
/// epoch to it, or nothing where it lies before the epoch: the seconds cut to
/// 32 bits, and 0 before the epoch.
pub open spec fn schedule_stamp(elapsed: Option<u64>) -> i32 {
    match elapsed {
        Some(seconds) => truncated_seconds(seconds) as i32,
        None => 0i32,
    }
}

/// Calls `SystemTime::duration_since` with `UNIX_EPOCH` and takes `as_secs`
/// of the duration. Trusted: the result is the count of whole seconds that
/// `seconds_since_epoch` names, and nothing for a time before the epoch.
#[verifier::external_body]
pub(crate) fn elapsed_since_epoch(t: &SystemTime) -> (r: Option<u64>)
    ensures
        r == seconds_since_epoch(*t),
{
    match t.duration_since(web_time::UNIX_EPOCH) {
        Ok(elapsed) => Some(elapsed.as_secs()),
        Err(_) => None,
    }
}

/// The schedule stamp for a count of seconds since the epoch.
pub fn stamp_of_elapsed(elapsed: Option<u64>) -> (r: i32)
    ensures
        r == schedule_stamp(elapsed),
        elapsed matches Some(s) ==> (s < 0x8000_0000 ==> r == s),
{
    match elapsed {
        Some(seconds) => {
            let low: u64 = seconds % 0x1_0000_0000;
            if low < 0x8000_0000 {
                low as i32
            } else {
                (low as i64 - 0x1_0000_0000) as i32
            }
        },
        None => 0,
    }
}

/// The schedule stamp for a point in time.
pub fn stamp_of_time(t: &SystemTime) -> (r: i32)
    ensures
        r == schedule_stamp(seconds_since_epoch(*t)),
{
    stamp_of_elapsed(elapsed_since_epoch(t))
}

} // verus!
