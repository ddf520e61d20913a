//! Conversion between wire timestamps and UTC instants.

use crate::error::{Error, ErrorView};
use crate::time::{Timestamp, UtcDateTime, UtcInstant};
use vstd::prelude::*;

verus! {

/// The instant that a timestamp denotes, if the timestamp is there and a
/// `UtcDateTime` can hold its instant.
pub open spec fn utc_of(ts: Option<Timestamp>) -> Option<UtcInstant> {
    match ts {
        Some(ts) => {
            let instant = UtcInstant { secs: ts.seconds as int, nanos: ts.nanos as int };
            if instant.representable() {
                Some(instant)
            } else {
                None
            }
        },
        None => None,
    }
}

/// The instant that `ts` denotes. Fails with `InvalidTime` where `ts` is
/// absent or denotes no instant that a `UtcDateTime` can hold.
pub fn convert_to_utc(ts: &Option<Timestamp>) -> (r: Result<UtcDateTime, Error>)
    ensures
        match r {
            Ok(dt) => utc_of(*ts) == Some(dt@),
            Err(e) => utc_of(*ts) is None && e@ == ErrorView::InvalidTime,
        },
{
    match ts {
        Some(ts) => {
            if ts.nanos < 0 {
                return Err(Error::InvalidTime);
            }
            match UtcDateTime::from_timestamp(ts.seconds, ts.nanos as u32) {
                Some(dt) => Ok(dt),
                None => Err(Error::InvalidTime),
            }
        },
        None => Err(Error::InvalidTime),
    }
}

/// The timestamp that denotes `dt`, to the nanosecond.
pub fn convert_to_timestamp(dt: &UtcDateTime) -> (ts: Timestamp)
    ensures
        ts.seconds == dt@.secs,
        ts.nanos == dt@.nanos,
        utc_of(Some(ts)) == Some(dt@),
{
    let seconds = dt.timestamp();
    let nanos = dt.timestamp_subsec_nanos();
    Timestamp { seconds, nanos: nanos as i32 }
}

} // verus!
