//! Creation timestamps: whole seconds since the Unix epoch, in decimal.

use vstd::prelude::*;
use crate::text::{decimal, is_u64_decimal, u64_to_decimal};

verus! {

/// Reads the system clock through `std::time::SystemTime::now` and
/// `duration_since(UNIX_EPOCH)`, returning the whole seconds
/// (`Duration::as_secs`). `None` stands for the error that `duration_since`
/// reports when the clock reads earlier than the epoch. What the clock reads is
/// not stated: it depends on the time of the call.
#[verifier::external_body]
pub(crate) fn seconds_since_unix_epoch() -> (secs: Option<u64>) {
    match std::time::SystemTime::now().duration_since(std::time::UNIX_EPOCH) {
        Ok(elapsed) => Some(elapsed.as_secs()),
        Err(_) => None,
    }
}

/// The timestamp for a clock reading: the seconds in decimal, or `None` where
/// the clock read earlier than the epoch.
pub fn timestamp(reading: Option<u64>) -> (stamp: Option<String>)
    ensures
        match reading {
            Some(secs) => stamp matches Some(s) && s@ == decimal(secs as nat),
            None => stamp is None,
        },
{
    match reading {
        Some(secs) => Some(u64_to_decimal(secs)),
        None => None,
    }
}

/// The timestamp stored as `created_at`: seconds since the Unix epoch in
/// decimal, as `timestamp` renders the system clock's reading. `None` where the
/// system clock reads earlier than the epoch.
pub fn now() -> (stamp: Option<String>)
    ensures
        stamp matches Some(s) ==> is_u64_decimal(s@),
{
    let reading = seconds_since_unix_epoch();
    let ghost r = reading;
    let stamp = timestamp(reading);
    proof {
        if let Some(secs) = r {
            assert(stamp->0@ == decimal(secs as nat));
        }
    }
    stamp
}

} // verus!
