//! Validation, status lifecycle and conflict decoding for time-bounded
//! resource reservations.

pub mod conflict;
pub mod error;
pub mod fields;
pub mod manager;
pub mod reservation;
pub mod status;
pub mod text;
pub mod time;
pub mod utils;

pub use conflict::{ParsedInfo, ReservationConflict, ReservationConflictInfo, ReservationWindow};
pub use error::{DatabaseFailure, Error, StorageFailure};
pub use fields::FieldMap;
pub use reservation::{NaiveRange, RangeBound, Reservation, ReservationRow, StoredRange};
pub use status::{ReservationStatus, RsvpStatus};
pub use time::{FixedDateTime, Timestamp, UtcDateTime};
pub use utils::{convert_to_timestamp, convert_to_utc};
