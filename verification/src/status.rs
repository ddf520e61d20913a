//! The states of a reservation and the one transition between them.

use vstd::prelude::*;
use vstd::std_specs::convert::FromSpecImpl;

verus! {

/// Status of a reservation as the storage layer records it.
#[derive(Debug, Clone, Copy, PartialEq, Eq, Structural)]
pub enum RsvpStatus {
    Unknown,
    Pending,
    Confirmed,
    Blocked,
}

/// Status of a reservation as a `Reservation` carries it, by its number.
#[derive(Debug, Clone, Copy, PartialEq, Eq, Structural)]
pub enum ReservationStatus {
    Unknown,
    Pending,
    Confirmed,
    Blocked,
}

impl RsvpStatus {
    /// Where confirming leads from this status: to `Confirmed` from `Pending`,
    /// nowhere from any other status.
    pub open spec fn confirmed(self) -> Option<RsvpStatus> {
        if self == RsvpStatus::Pending {
            Some(RsvpStatus::Confirmed)
        } else {
            None
        }
    }

    /// The one transition of the lifecycle. `None` means that there is nothing
    /// to confirm: the status is left as it is.
    pub fn confirm(self) -> (next: Option<RsvpStatus>)
        ensures
            next == self.confirmed(),
    {
        match self {
            RsvpStatus::Pending => Some(RsvpStatus::Confirmed),
            RsvpStatus::Unknown | RsvpStatus::Confirmed | RsvpStatus::Blocked => None,
        }
    }

    /// The status that a `Reservation` carries for this one.
    pub open spec fn carried(self) -> ReservationStatus {
        match self {
            RsvpStatus::Unknown => ReservationStatus::Unknown,
            RsvpStatus::Pending => ReservationStatus::Pending,
            RsvpStatus::Confirmed => ReservationStatus::Confirmed,
            RsvpStatus::Blocked => ReservationStatus::Blocked,
        }
    }

    /// The name of this status in the storage layer.
    pub fn name(self) -> (name: &'static str)
        ensures
            name@ == self.spec_name(),
    {
        match self {
            RsvpStatus::Unknown => "unknown",
            RsvpStatus::Pending => "pending",
            RsvpStatus::Confirmed => "confirmed",
            RsvpStatus::Blocked => "blocked",
        }
    }

    /// The name of this status in the storage layer: its variant in lower case.
    pub open spec fn spec_name(self) -> Seq<char> {
        match self {
            RsvpStatus::Unknown => "unknown"@,
            RsvpStatus::Pending => "pending"@,
            RsvpStatus::Confirmed => "confirmed"@,
            RsvpStatus::Blocked => "blocked"@,
        }
    }
}

impl ReservationStatus {
    /// The number that stands for this status.
    pub open spec fn number(self) -> i32 {
        match self {
            ReservationStatus::Unknown => 0,
            ReservationStatus::Pending => 1,
            ReservationStatus::Confirmed => 2,
            ReservationStatus::Blocked => 3,
        }
    }

    /// The status that `value` stands for, if it stands for one.
    pub open spec fn of_number(value: i32) -> Option<ReservationStatus> {
        if value == 0 {
            Some(ReservationStatus::Unknown)
        } else if value == 1 {
            Some(ReservationStatus::Pending)
        } else if value == 2 {
            Some(ReservationStatus::Confirmed)
        } else if value == 3 {
            Some(ReservationStatus::Blocked)
        } else {
            None
        }
    }

    /// The status of the storage layer that this one corresponds to.
    pub open spec fn stored(self) -> RsvpStatus {
        match self {
            ReservationStatus::Unknown => RsvpStatus::Unknown,
            ReservationStatus::Pending => RsvpStatus::Pending,
            ReservationStatus::Confirmed => RsvpStatus::Confirmed,
            ReservationStatus::Blocked => RsvpStatus::Blocked,
        }
    }

    /// The number that stands for this status.
    pub fn to_i32(self) -> (value: i32)
        ensures
            value == self.number(),
    {
        match self {
            ReservationStatus::Unknown => 0,
            ReservationStatus::Pending => 1,
            ReservationStatus::Confirmed => 2,
            ReservationStatus::Blocked => 3,
        }
    }

    /// The status that `value` stands for, if it stands for one.
    pub fn from_i32(value: i32) -> (status: Option<ReservationStatus>)
        ensures
            status == Self::of_number(value),
    {
        if value == 0 {
            Some(ReservationStatus::Unknown)
        } else if value == 1 {
            Some(ReservationStatus::Pending)
        } else if value == 2 {
            Some(ReservationStatus::Confirmed)
        } else if value == 3 {
            Some(ReservationStatus::Blocked)
        } else {
            None
        }
    }

    /// The status of the storage layer that this one corresponds to.
    pub fn to_stored(self) -> (status: RsvpStatus)
        ensures
            status == self.stored(),
    {
        match self {
            ReservationStatus::Unknown => RsvpStatus::Unknown,
            ReservationStatus::Pending => RsvpStatus::Pending,
            ReservationStatus::Confirmed => RsvpStatus::Confirmed,
            ReservationStatus::Blocked => RsvpStatus::Blocked,
        }
    }
}

impl From<RsvpStatus> for ReservationStatus {
    fn from(status: RsvpStatus) -> (r: ReservationStatus) {
        match status {
            RsvpStatus::Unknown => ReservationStatus::Unknown,
            RsvpStatus::Pending => ReservationStatus::Pending,
            RsvpStatus::Confirmed => ReservationStatus::Confirmed,
            RsvpStatus::Blocked => ReservationStatus::Blocked,
        }
    }
}

impl FromSpecImpl<RsvpStatus> for ReservationStatus {
    open spec fn obeys_from_spec() -> bool {
        true
    }

    open spec fn from_spec(status: RsvpStatus) -> ReservationStatus {
        status.carried()
    }
}

/// Confirming happens once: `Confirmed` is reached from `Pending` only, and
/// whatever status a confirmation leads to cannot be confirmed again.
pub proof fn lemma_confirm_once(status: RsvpStatus)
    ensures
        status.confirmed() is Some <==> status == RsvpStatus::Pending,
        status.confirmed() matches Some(next) ==> next == RsvpStatus::Confirmed
            && next.confirmed() is None,
{
}

} // verus!
