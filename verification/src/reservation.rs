//! A reservation, its validation and its time window.

use crate::error::{Error, ErrorView, StorageFailure, StorageFailureView};
use crate::status::{ReservationStatus, RsvpStatus};
use crate::time::{FixedDateTime, Timestamp, UtcDateTime, UtcInstant};
use crate::utils::{convert_to_timestamp, convert_to_utc, utc_of};
use std::ops::Range;
use vstd::prelude::*;

verus! {

/// A reservation of a resource by a user, from `start` up to but not
/// including `end`. `id` is empty until the reservation is stored; `status` is
/// the number of a `ReservationStatus`.
#[derive(Debug, Clone, PartialEq, Eq)]
pub struct Reservation {
    pub id: String,
    pub user_id: String,
    pub resource_id: String,
    pub start: Option<Timestamp>,
    pub end: Option<Timestamp>,
    pub note: String,
    pub status: i32,
}

/// What a `Reservation` stands for.
pub struct ReservationView {
    pub id: Seq<char>,
    pub user_id: Seq<char>,
    pub resource_id: Seq<char>,
    pub start: Option<Timestamp>,
    pub end: Option<Timestamp>,
    pub note: Seq<char>,
    pub status: i32,
}

impl View for Reservation {
    type V = ReservationView;

    open spec fn view(&self) -> ReservationView {
        ReservationView {
            id: self.id@,
            user_id: self.user_id@,
            resource_id: self.resource_id@,
            start: self.start,
            end: self.end,
            note: self.note@,
            status: self.status,
        }
    }
}

impl ReservationView {
    /// The time window, where start and end both denote an instant.
    pub open spec fn timespan(self) -> Option<(UtcInstant, UtcInstant)> {
        match (utc_of(self.start), utc_of(self.end)) {
            (Some(start), Some(end)) => Some((start, end)),
            _ => None,
        }
    }

    /// What is wrong with this reservation, the first of: an empty user id, an
    /// empty resource id, a start or end that is no instant, a start that is
    /// not before the end. `None` where nothing is wrong.
    pub open spec fn invalidity(self) -> Option<ErrorView> {
        if self.user_id.len() == 0 {
            Some(ErrorView::InvalidUserId(self.user_id))
        } else if self.resource_id.len() == 0 {
            Some(ErrorView::InvalidResourceId(self.resource_id))
        } else {
            match self.timespan() {
                Some((start, end)) => if start.lt(end) {
                    None
                } else {
                    Some(ErrorView::InvalidTime)
                },
                None => Some(ErrorView::InvalidTime),
            }
        }
    }

    /// Whether this reservation waits to be confirmed.
    pub open spec fn is_pending(self) -> bool {
        self.status == ReservationStatus::Pending.number()
    }

    /// What confirming makes of this reservation: the same reservation with
    /// status `Confirmed` if it is pending; else no reservation was found that
    /// could be confirmed.
    pub open spec fn confirmed(self) -> Result<ReservationView, ErrorView> {
        if self.is_pending() {
            Ok(ReservationView { status: ReservationStatus::Confirmed.number(), ..self })
        } else {
            Err(ErrorView::SqlError(StorageFailureView::RowNotFound))
        }
    }
}

impl Reservation {
    /// A reservation that is not stored yet and waits to be confirmed, with
    /// start and end brought to UTC.
    pub fn new_pending(
        uid: &str,
        rid: &str,
        start: FixedDateTime,
        end: FixedDateTime,
        note: &str,
    ) -> (rsvp: Reservation)
        ensures
            rsvp@.id == Seq::<char>::empty(),
            rsvp@.user_id == uid@,
            rsvp@.resource_id == rid@,
            rsvp@.note == note@,
            rsvp@.is_pending(),
            rsvp@.timespan() == Some((start.utc@, end.utc@)),
            rsvp@.start matches Some(ts) && ts.seconds == start.utc@.secs && ts.nanos
                == start.utc@.nanos,
            rsvp@.end matches Some(ts) && ts.seconds == end.utc@.secs && ts.nanos
                == end.utc@.nanos,
    {
        Reservation {
            id: String::new(),
            user_id: uid.to_owned(),
            resource_id: rid.to_owned(),
            start: Some(convert_to_timestamp(&start.utc)),
            end: Some(convert_to_timestamp(&end.utc)),
            note: note.to_owned(),
            status: ReservationStatus::Pending.to_i32(),
        }
    }

    /// Checks that the reservation can be submitted: both ids are there, and
    /// start and end are instants with the start before the end. The first
    /// check that fails gives the error.
    pub fn validate(&self) -> (r: Result<(), Error>)
        ensures
            match r {
                Ok(_) => self@.invalidity() is None,
                Err(e) => self@.invalidity() == Some(e@),
            },
    {
        if self.user_id.as_str().is_empty() {
            return Err(Error::InvalidUserId(self.user_id.clone()));
        }
        if self.resource_id.as_str().is_empty() {
            return Err(Error::InvalidResourceId(self.resource_id.clone()));
        }
        if self.start.is_none() || self.end.is_none() {
            return Err(Error::InvalidTime);
        }
        let start = convert_to_utc(&self.start)?;
        let end = convert_to_utc(&self.end)?;
        if !start.is_before(&end) {
            return Err(Error::InvalidTime);
        }
        Ok(())
    }

    /// The time window of the reservation. Fails with `InvalidTime` where the
    /// start or the end is no instant.
    pub fn get_timespan(&self) -> (r: Result<Range<UtcDateTime>, Error>)
        ensures
            match r {
                Ok(range) => self@.timespan() == Some((range.start@, range.end@)),
                Err(e) => self@.timespan() is None && e@ == ErrorView::InvalidTime,
            },
    {
        let start = convert_to_utc(&self.start)?;
        let end = convert_to_utc(&self.end)?;
        Ok(Range { start, end })
    }

    /// The one transition of the lifecycle, as a conditional update applies it
    /// to a stored reservation: a pending reservation becomes confirmed; for
    /// any other there is nothing to confirm, which is reported as a row that
    /// was not found.
    pub fn confirm(self) -> (r: Result<Reservation, Error>)
        ensures
            match r {
                Ok(rsvp) => self@.confirmed() == Ok::<ReservationView, ErrorView>(rsvp@),
                Err(e) => self@.confirmed() == Err::<ReservationView, ErrorView>(e@),
            },
    {
        let next = match ReservationStatus::from_i32(self.status) {
            Some(status) => status.to_stored().confirm(),
            None => None,
        };
        match next {
            Some(next) => {
                let mut rsvp = self;
                rsvp.status = ReservationStatus::from(next).to_i32();
                Ok(rsvp)
            },
            None => Err(Error::SqlError(StorageFailure::RowNotFound)),
        }
    }
}

/// A reservation without a user id is refused for that, and one with a user
/// id but without a resource id for that, whatever its times are.
pub proof fn lemma_ids_are_checked_first(rsvp: ReservationView)
    ensures
        rsvp.user_id.len() == 0 ==> rsvp.invalidity() == Some(
            ErrorView::InvalidUserId(rsvp.user_id),
        ),
        rsvp.user_id.len() > 0 && rsvp.resource_id.len() == 0 ==> rsvp.invalidity() == Some(
            ErrorView::InvalidResourceId(rsvp.resource_id),
        ),
{
}

/// A reservation with both ids whose start is not before its end, the two
/// being equal included, is refused for its time.
pub proof fn lemma_start_not_before_end_is_invalid(rsvp: ReservationView)
    requires
        rsvp.user_id.len() > 0,
        rsvp.resource_id.len() > 0,
        rsvp.timespan() matches Some((start, end)) && (end.lt(start) || end == start),
    ensures
        rsvp.invalidity() == Some(ErrorView::InvalidTime),
{
}

/// A reservation with both ids whose start is before its end is valid.
pub proof fn lemma_start_before_end_is_valid(rsvp: ReservationView)
    requires
        rsvp.user_id.len() > 0,
        rsvp.resource_id.len() > 0,
        rsvp.timespan() matches Some((start, end)) && start.lt(end),
    ensures
        rsvp.invalidity() is None,
{
}

/// Confirming happens once. A pending reservation becomes the same
/// reservation with status `Confirmed`, and confirming that one again finds
/// nothing to confirm; so does confirming any reservation that is not pending.
pub proof fn lemma_confirm_happens_once(rsvp: ReservationView)
    ensures
        rsvp.is_pending() ==> rsvp.confirmed() == Ok::<ReservationView, ErrorView>(
            ReservationView { status: ReservationStatus::Confirmed.number(), ..rsvp },
        ),
        rsvp.confirmed() matches Ok(once) ==> rsvp.is_pending() && once.confirmed() == Err::<
            ReservationView,
            ErrorView,
        >(ErrorView::SqlError(StorageFailureView::RowNotFound)),
        !rsvp.is_pending() ==> rsvp.confirmed() == Err::<ReservationView, ErrorView>(
            ErrorView::SqlError(StorageFailureView::RowNotFound),
        ),
{
}

/// One end of a range of values.
#[derive(Debug, Clone, Copy, PartialEq, Eq)]
pub enum RangeBound<T> {
    Included(T),
    Excluded(T),
    Unbounded,
}

/// A range as the storage layer holds it, each end closed, open or missing.
#[derive(Debug, Clone, Copy, PartialEq, Eq)]
pub struct StoredRange<T> {
    pub start: RangeBound<T>,
    pub end: RangeBound<T>,
}

/// A range by its two ends, each there or not, closed or open alike.
#[derive(Debug, Clone, Copy, PartialEq, Eq)]
pub struct NaiveRange<T> {
    pub start: Option<T>,
    pub end: Option<T>,
}

impl<T> RangeBound<T> {
    /// The value at this end, if the end is there.
    pub open spec fn value(self) -> Option<T> {
        match self {
            RangeBound::Included(v) => Some(v),
            RangeBound::Excluded(v) => Some(v),
            RangeBound::Unbounded => None,
        }
    }
}

impl<T> StoredRange<T> {
    /// The half-open range from `range.start`, which belongs to it, to
    /// `range.end`, which does not.
    pub fn from(range: Range<T>) -> (r: StoredRange<T>)
        ensures
            r.start == RangeBound::Included(range.start),
            r.end == RangeBound::Excluded(range.end),
    {
        let Range { start, end } = range;
        StoredRange { start: RangeBound::Included(start), end: RangeBound::Excluded(end) }
    }
}

impl RangeBound<UtcDateTime> {
    /// This end with the instant that its value stands for.
    pub open spec fn instant(self) -> RangeBound<UtcInstant> {
        match self {
            RangeBound::Included(time) => RangeBound::Included(time@),
            RangeBound::Excluded(time) => RangeBound::Excluded(time@),
            RangeBound::Unbounded => RangeBound::Unbounded,
        }
    }
}

impl<T> NaiveRange<T> {
    /// The two ends of `range`.
    pub fn from(range: StoredRange<T>) -> (r: NaiveRange<T>)
        ensures
            r.start == range.start.value(),
            r.end == range.end.value(),
    {
        let StoredRange { start, end } = range;
        let start = match start {
            RangeBound::Included(v) => Some(v),
            RangeBound::Excluded(v) => Some(v),
            RangeBound::Unbounded => None,
        };
        let end = match end {
            RangeBound::Included(v) => Some(v),
            RangeBound::Excluded(v) => Some(v),
            RangeBound::Unbounded => None,
        };
        NaiveRange { start, end }
    }
}

/// A reservation as a row of the reservation table.
#[derive(Debug, Clone, PartialEq, Eq)]
pub struct ReservationRow {
    pub id: String,
    pub user_id: String,
    pub resource_id: String,
    pub timespan: StoredRange<UtcDateTime>,
    pub note: String,
    pub status: RsvpStatus,
}

impl ReservationRow {
    /// Whether the time window of the row has both its ends.
    pub open spec fn is_bounded(&self) -> bool {
        self.timespan.start.value() is Some && self.timespan.end.value() is Some
    }

    /// The reservation that the row holds.
    pub open spec fn reservation(&self) -> ReservationView {
        ReservationView {
            id: self.id@,
            user_id: self.user_id@,
            resource_id: self.resource_id@,
            start: Some(
                Timestamp {
                    seconds: self.timespan.start.value().unwrap()@.secs as i64,
                    nanos: self.timespan.start.value().unwrap()@.nanos as i32,
                },
            ),
            end: Some(
                Timestamp {
                    seconds: self.timespan.end.value().unwrap()@.secs as i64,
                    nanos: self.timespan.end.value().unwrap()@.nanos as i32,
                },
            ),
            note: self.note@,
            status: self.status.carried().number(),
        }
    }

    /// Whether the time window of the row has both its ends.
    pub fn has_bounds(&self) -> (b: bool)
        ensures
            b == self.is_bounded(),
    {
        !matches!(self.timespan.start, RangeBound::Unbounded) && !matches!(
            self.timespan.end,
            RangeBound::Unbounded
        )
    }
}

impl Reservation {
    /// Reads a reservation from a row whose time window has both its ends.
    pub fn from_row(row: &ReservationRow) -> (r: Result<Reservation, StorageFailure>)
        requires
            row.is_bounded(),
        ensures
            r matches Ok(rsvp) && rsvp@ == row.reservation(),
    {
        let range = NaiveRange::from(row.timespan);
        let start = range.start.unwrap();
        let end = range.end.unwrap();
        Ok(
            Reservation {
                id: row.id.clone(),
                user_id: row.user_id.clone(),
                status: ReservationStatus::from(row.status).to_i32(),
                resource_id: row.resource_id.clone(),
                start: Some(convert_to_timestamp(&start)),
                end: Some(convert_to_timestamp(&end)),
                note: row.note.clone(),
            },
        )
    }
}

} // verus!
