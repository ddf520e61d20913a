//! Points on the UTC time line, and the wire timestamp they are exchanged as.

use vstd::prelude::*;

verus! {

/// Seconds and nanoseconds since the Unix epoch, as a reservation carries them.
#[derive(Debug, Clone, Copy, PartialEq, Eq, Structural)]
pub struct Timestamp {
    pub seconds: i64,
    pub nanos: i32,
}

/// The first second that a `UtcDateTime` can hold (January 1st of the year -262143).
pub const MIN_UTC_SECONDS: i64 = -8_334_601_228_800i64;

/// The last second that a `UtcDateTime` can hold (December 31st of the year 262142).
pub const MAX_UTC_SECONDS: i64 = 8_210_266_876_799i64;

/// What a `UtcDateTime` stands for: whole seconds since the Unix epoch and the
/// nanoseconds into that second.
pub struct UtcInstant {
    pub secs: int,
    pub nanos: int,
}

impl UtcInstant {
    /// Earlier on the time line.
    pub open spec fn lt(self, other: UtcInstant) -> bool {
        self.secs < other.secs || (self.secs == other.secs && self.nanos < other.nanos)
    }

    /// Whether a `UtcDateTime` can hold this instant: the second lies within
    /// the supported years, and the nanoseconds pass a full second only to
    /// mark a leap second, which can follow second 59 of a minute only.
    pub open spec fn representable(self) -> bool {
        &&& MIN_UTC_SECONDS <= self.secs <= MAX_UTC_SECONDS
        &&& 0 <= self.nanos < 2_000_000_000
        &&& self.nanos >= 1_000_000_000 ==> self.secs % 60 == 59
    }
}

/// An instant in UTC.
#[derive(Debug, Clone, Copy, PartialEq, Eq, Structural, PartialOrd, Ord, Hash)]
pub struct UtcDateTime {
    secs: i64,
    nanos: u32,
}

impl View for UtcDateTime {
    type V = UtcInstant;

    closed spec fn view(&self) -> UtcInstant {
        UtcInstant { secs: self.secs as int, nanos: self.nanos as int }
    }
}

/// An instant together with the offset from UTC, in seconds, of the clock that
/// it was read on. Two such values with the same `utc` are the same instant.
#[derive(Debug, Clone, Copy, PartialEq, Eq, Structural)]
pub struct FixedDateTime {
    pub utc: UtcDateTime,
    pub offset: i32,
}

/// `chrono::DateTime::<Utc>::from_timestamp`, read back through `timestamp` and
/// `timestamp_subsec_nanos`. Nothing is proved of it; the contract claims that
/// chrono accepts exactly the representable instants, and that the two getters
/// give back what `from_timestamp` was given, as chrono documents.
#[verifier::external_body]
fn checked_utc_parts(secs: i64, nanos: u32) -> (r: Option<(i64, u32)>)
    ensures
        r == (if (UtcInstant { secs: secs as int, nanos: nanos as int }).representable() {
            Some((secs, nanos))
        } else {
            None
        }),
{
    chrono::DateTime::from_timestamp(secs, nanos).map(
        |dt| (dt.timestamp(), dt.timestamp_subsec_nanos()),
    )
}

impl UtcDateTime {
    #[verifier::type_invariant]
    spec fn holds_an_instant(self) -> bool {
        self@.representable()
    }

    /// The instant `secs` seconds and `nanos` nanoseconds after the Unix
    /// epoch, if it is representable.
    pub fn from_timestamp(secs: i64, nanos: u32) -> (r: Option<UtcDateTime>)
        ensures
            match r {
                Some(dt) => dt@ == (UtcInstant { secs: secs as int, nanos: nanos as int })
                    && dt@.representable(),
                None => !(UtcInstant { secs: secs as int, nanos: nanos as int }).representable(),
            },
    {
        match checked_utc_parts(secs, nanos) {
            Some((s, n)) => Some(UtcDateTime { secs: s, nanos: n }),
            None => None,
        }
    }

    /// Whole seconds since the Unix epoch.
    pub fn timestamp(&self) -> (secs: i64)
        ensures
            secs == self@.secs,
            self@.representable(),
    {
        proof {
            use_type_invariant(self);
        }
        self.secs
    }

    /// Nanoseconds since the last whole second; a billion or more within a
    /// leap second.
    pub fn timestamp_subsec_nanos(&self) -> (nanos: u32)
        ensures
            nanos == self@.nanos,
            self@.representable(),
    {
        proof {
            use_type_invariant(self);
        }
        self.nanos
    }

    /// Whether this instant comes strictly before `other`.
    pub fn is_before(&self, other: &UtcDateTime) -> (b: bool)
        ensures
            b == self@.lt(other@),
    {
        self.secs < other.secs || (self.secs == other.secs && self.nanos < other.nanos)
    }
}

} // verus!
