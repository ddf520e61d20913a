//! The decisions of the reservation manager. Each operation is a request to
//! the storage layer and a reading of what came back; the storage layer does
//! its work in between.

use crate::error::{Error, ErrorView, StorageFailure, StorageFailureView};
use crate::reservation::{
    RangeBound, Reservation, ReservationRow, ReservationView, StoredRange,
};
use crate::status::{ReservationStatus, RsvpStatus};
use crate::time::{UtcDateTime, UtcInstant};
use vstd::prelude::*;

verus! {

/// What the uuid crate reads from `text`: the 128 bits of the id that the text
/// writes, in any of the forms that the crate accepts; `None` if the text
/// writes no id.
pub uninterp spec fn uuid_parsed(text: Seq<char>) -> Option<u128>;

/// `Uuid::parse_str` of the uuid crate, under the name that sqlx gives the
/// type, and the id read through `Uuid::as_u128`. Nothing is proved of it;
/// the contract gives what comes back its name, `uuid_parsed`, and so claims
/// only that it depends on the text alone.
#[verifier::external_body]
fn parse_uuid(text: &str) -> (id: Option<u128>)
    ensures
        id == uuid_parsed(text@),
{
    sqlx::types::Uuid::parse_str(text).ok().map(|id| id.as_u128())
}

/// The row that `reserve` asks the storage layer to insert.
#[derive(Debug, Clone, PartialEq, Eq)]
pub struct NewReservation {
    pub user_id: String,
    pub resource_id: String,
    pub timespan: StoredRange<UtcDateTime>,
    pub note: String,
    pub status: RsvpStatus,
}

/// What a `NewReservation` stands for.
pub struct NewReservationView {
    pub user_id: Seq<char>,
    pub resource_id: Seq<char>,
    pub timespan: StoredRange<UtcInstant>,
    pub note: Seq<char>,
    pub status: RsvpStatus,
}

impl View for NewReservation {
    type V = NewReservationView;

    open spec fn view(&self) -> NewReservationView {
        NewReservationView {
            user_id: self.user_id@,
            resource_id: self.resource_id@,
            timespan: StoredRange {
                start: self.timespan.start.instant(),
                end: self.timespan.end.instant(),
            },
            note: self.note@,
            status: self.status,
        }
    }
}

/// The status under which a reservation is stored: the one that its number
/// stands for, and `Pending` where the number stands for none.
pub open spec fn stored_status(number: i32) -> RsvpStatus {
    match ReservationStatus::of_number(number) {
        Some(status) => status.stored(),
        None => RsvpStatus::Pending,
    }
}

/// The row to insert for a reservation that is valid. Its time window is
/// half open: the start belongs to it, the end does not.
pub open spec fn insertion(rsvp: ReservationView) -> NewReservationView {
    NewReservationView {
        user_id: rsvp.user_id,
        resource_id: rsvp.resource_id,
        timespan: StoredRange {
            start: RangeBound::Included(rsvp.timespan().unwrap().0),
            end: RangeBound::Excluded(rsvp.timespan().unwrap().1),
        },
        note: rsvp.note,
        status: stored_status(rsvp.status),
    }
}

/// First half of `reserve`: checks the reservation and says what to insert.
/// A reservation that is not valid is refused with what is wrong with it, and
/// nothing is to be asked of the storage layer.
pub fn reserve_request(rsvp: &Reservation) -> (r: Result<NewReservation, Error>)
    ensures
        match r {
            Ok(row) => rsvp@.invalidity() is None && row@ == insertion(rsvp@),
            Err(e) => rsvp@.invalidity() == Some(e@),
        },
{
    rsvp.validate()?;
    let timespan = StoredRange::from(rsvp.get_timespan()?);
    let status = match ReservationStatus::from_i32(rsvp.status) {
        Some(status) => status,
        None => ReservationStatus::Pending,
    };
    Ok(
        NewReservation {
            user_id: rsvp.user_id.clone(),
            resource_id: rsvp.resource_id.clone(),
            timespan,
            note: rsvp.note.clone(),
            status: status.to_stored(),
        },
    )
}

/// Second half of `reserve`: the reservation under the id that the storage
/// layer gave it, or the failure of the storage layer, sorted: an overlap
/// with another reservation comes back as a conflict.
pub fn reserve_outcome(rsvp: Reservation, outcome: Result<String, StorageFailure>) -> (r: Result<
    Reservation,
    Error,
>)
    ensures
        match outcome {
            Ok(id) => r matches Ok(stored) && stored@ == (ReservationView { id: id@, ..rsvp@ }),
            Err(failure) => r matches Err(e) && e@ == failure@.classified(),
        },
{
    match outcome {
        Ok(id) => {
            let mut rsvp = rsvp;
            rsvp.id = id;
            Ok(rsvp)
        },
        Err(failure) => Err(Error::from(failure)),
    }
}

/// The key to confirm, given what was read from the id. An id from which no
/// key was read is the id of no reservation: there is nothing to confirm,
/// which is reported as it is for any other id that no pending reservation
/// has, as a row that was not found.
pub fn confirmation_key(parsed: Option<u128>) -> (r: Result<u128, Error>)
    ensures
        match parsed {
            Some(key) => r matches Ok(k) && k == key,
            None => r matches Err(e) && e@ == ErrorView::SqlError(StorageFailureView::RowNotFound),
        },
{
    match parsed {
        Some(key) => Ok(key),
        None => Err(Error::SqlError(StorageFailure::RowNotFound)),
    }
}

/// First half of `change_status`: reads the id of the reservation to
/// confirm. The storage layer is then to set the status of the reservation
/// with that key to confirmed if it is pending, in one statement, and to
/// return the row. An id that writes no key finds no reservation, and nothing
/// is to be asked of the storage layer.
pub fn change_status_request(id: String) -> (r: Result<u128, Error>)
    ensures
        match uuid_parsed(id@) {
            Some(key) => r matches Ok(k) && k == key,
            None => r matches Err(e) && e@ == ErrorView::SqlError(StorageFailureView::RowNotFound),
        },
{
    let parsed = parse_uuid(id.as_str());
    confirmation_key(parsed)
}

/// Second half of `change_status`: the reservation of the row that was
/// updated, or the failure of the storage layer, sorted. Where no pending
/// reservation had the key, the storage layer found no row, and that failure
/// is what comes back.
pub fn change_status_outcome(outcome: Result<ReservationRow, StorageFailure>) -> (r: Result<
    Reservation,
    Error,
>)
    requires
        outcome matches Ok(row) ==> row.is_bounded(),
    ensures
        match outcome {
            Ok(row) => r matches Ok(rsvp) && rsvp@ == row.reservation(),
            Err(failure) => r matches Err(e) && e@ == failure@.classified(),
        },
{
    match outcome {
        Ok(row) => match Reservation::from_row(&row) {
            Ok(rsvp) => Ok(rsvp),
            Err(failure) => Err(Error::from(failure)),
        },
        Err(failure) => Err(Error::from(failure)),
    }
}

} // verus!
