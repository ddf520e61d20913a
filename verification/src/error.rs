//! The errors of the reservation core, and the rule that sorts a failure of
//! the storage layer into them.

use crate::conflict::{conflict_info, ConflictInfoView, ReservationConflictInfo};
use vstd::prelude::*;

verus! {

/// The code with which the database reports a violated exclusion constraint.
pub const EXCLUSION_VIOLATION: &'static str = "23P01";

/// The schema that holds the reservations.
pub const RESERVATION_SCHEMA: &'static str = "rsvp";

/// The table that holds the reservations.
pub const RESERVATION_TABLE: &'static str = "reservations";

/// What a failure reported by the database says of itself: its message, and
/// what places it, each part of that optional.
#[derive(Debug, Clone, PartialEq, Eq)]
pub struct DatabaseFailure {
    pub message: String,
    pub code: Option<String>,
    pub schema: Option<String>,
    pub table: Option<String>,
    pub detail: Option<String>,
}

/// A failure of the storage layer.
#[derive(Debug, Clone, PartialEq, Eq)]
pub enum StorageFailure {
    /// The database rejected a statement.
    Database(DatabaseFailure),
    /// A statement that has to return a row returned none.
    RowNotFound,
    /// Any other failure, by its message.
    Other(String),
}

/// What can go wrong with a reservation.
#[derive(Debug, Clone, PartialEq, Eq)]
pub enum Error {
    /// The storage layer failed for a reason other than an overlap, or no
    /// reservation was found where one was asked for.
    SqlError(StorageFailure),
    /// The reservation overlaps an existing one of the same resource.
    ConflictError(ReservationConflictInfo),
    /// Start or end is missing or out of range, or the start is not before the end.
    InvalidTime,
    /// The user id, given here, is empty.
    InvalidUserId(String),
    /// The resource id, given here, is empty.
    InvalidResourceId(String),
    /// None of the above.
    Unknown,
}

/// What a `DatabaseFailure` stands for.
pub struct DatabaseFailureView {
    pub message: Seq<char>,
    pub code: Option<Seq<char>>,
    pub schema: Option<Seq<char>>,
    pub table: Option<Seq<char>>,
    pub detail: Option<Seq<char>>,
}

/// What a `StorageFailure` stands for.
pub enum StorageFailureView {
    Database(DatabaseFailureView),
    RowNotFound,
    Other(Seq<char>),
}

/// What an `Error` stands for.
pub enum ErrorView {
    SqlError(StorageFailureView),
    ConflictError(ConflictInfoView),
    InvalidTime,
    InvalidUserId(Seq<char>),
    InvalidResourceId(Seq<char>),
    Unknown,
}

impl View for DatabaseFailure {
    type V = DatabaseFailureView;

    open spec fn view(&self) -> DatabaseFailureView {
        DatabaseFailureView {
            message: self.message@,
            code: self.code.deep_view(),
            schema: self.schema.deep_view(),
            table: self.table.deep_view(),
            detail: self.detail.deep_view(),
        }
    }
}

impl View for StorageFailure {
    type V = StorageFailureView;

    open spec fn view(&self) -> StorageFailureView {
        match self {
            StorageFailure::Database(failure) => StorageFailureView::Database(failure@),
            StorageFailure::RowNotFound => StorageFailureView::RowNotFound,
            StorageFailure::Other(message) => StorageFailureView::Other(message@),
        }
    }
}

impl View for Error {
    type V = ErrorView;

    open spec fn view(&self) -> ErrorView {
        match self {
            Error::SqlError(failure) => ErrorView::SqlError(failure@),
            Error::ConflictError(info) => ErrorView::ConflictError(info@),
            Error::InvalidTime => ErrorView::InvalidTime,
            Error::InvalidUserId(id) => ErrorView::InvalidUserId(id@),
            Error::InvalidResourceId(id) => ErrorView::InvalidResourceId(id@),
            Error::Unknown => ErrorView::Unknown,
        }
    }
}

impl DatabaseFailureView {
    /// Whether this failure is a violated exclusion constraint of the
    /// reservation table.
    pub open spec fn is_reservation_overlap(self) -> bool {
        &&& self.code == Some(EXCLUSION_VIOLATION@)
        &&& self.schema == Some(RESERVATION_SCHEMA@)
        &&& self.table == Some(RESERVATION_TABLE@)
    }
}

impl StorageFailureView {
    /// The detail text of this failure, if this failure is an overlap of
    /// reservations that the database reported with a detail text.
    pub open spec fn overlap_detail(self) -> Option<Seq<char>> {
        match self {
            StorageFailureView::Database(failure) => if failure.is_reservation_overlap() {
                failure.detail
            } else {
                None
            },
            _ => None,
        }
    }

    /// The error that this failure becomes: an overlap of reservations is a
    /// conflict, decoded from its detail text; everything else stays the
    /// failure that it is.
    pub open spec fn classified(self) -> ErrorView {
        match self.overlap_detail() {
            Some(detail) => ErrorView::ConflictError(conflict_info(detail)),
            None => ErrorView::SqlError(self),
        }
    }
}

/// Whether `value` is there and reads `wanted`.
fn holds_text(value: &Option<String>, wanted: &str) -> (b: bool)
    ensures
        b == (value.deep_view() == Some(wanted@)),
{
    match value {
        Some(text) => {
            let wanted = wanted.to_owned();
            *text == wanted
        },
        None => false,
    }
}

impl DatabaseFailure {
    /// Whether this failure is a violated exclusion constraint of the
    /// reservation table.
    pub fn is_reservation_overlap(&self) -> (b: bool)
        ensures
            b == self@.is_reservation_overlap(),
    {
        holds_text(&self.code, EXCLUSION_VIOLATION) && holds_text(&self.schema, RESERVATION_SCHEMA)
            && holds_text(&self.table, RESERVATION_TABLE)
    }
}

impl Error {
    /// Sorts a failure of the storage layer: an overlap of reservations
    /// becomes a conflict, decoded from the detail text of the failure; any
    /// other failure is kept as it is.
    pub fn from(failure: StorageFailure) -> (e: Error)
        ensures
            e@ == failure@.classified(),
    {
        match failure {
            StorageFailure::Database(db) => {
                if db.is_reservation_overlap() {
                    match &db.detail {
                        Some(detail) => match ReservationConflictInfo::from_str(detail.as_str()) {
                            Ok(info) => Error::ConflictError(info),
                        },
                        None => Error::SqlError(StorageFailure::Database(db)),
                    }
                } else {
                    Error::SqlError(StorageFailure::Database(db))
                }
            },
            other => Error::SqlError(other),
        }
    }
}

} // verus!
