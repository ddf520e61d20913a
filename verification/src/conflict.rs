//! Decoding of the diagnostic text that the storage layer returns when a
//! reservation would overlap an existing one.
//!
//! The text names two windows, each as a group of the shape
//! `(resource_id, timespan)=(<resource>, ["<start>","<end>"))`. The first is
//! the window that was rejected, the second the one it collided with.

use crate::fields::FieldMap;
use crate::text::{remove_char, split_at_first, split_once, without_char};
use crate::time::{UtcDateTime, UtcInstant};
use std::convert::Infallible;
use vstd::prelude::*;

verus! {

/// The shape of one window in the diagnostic text, as a regular expression:
/// two names in round brackets, `=`, and in round brackets again their two
/// values, the second opened by a square bracket. Names and the first value
/// are made of letters, digits, `-` and `_`; the second value runs up to the
/// next closing bracket, round or square, which has to be a round one.
pub const CONFLICT_PATTERN: &'static str =
    r#"\((?P<k1>[a-zA-Z0-9-_]+),\s*(?P<k2>[a-zA-Z0-9-_]+)\)=\((?P<v1>[a-zA-Z0-9-_]+),\s*\[(?P<v2>[^\]\)]+)\)"#;

/// How the storage layer writes a timestamp: date, time and a numeric UTC
/// offset of hours, with minutes optional.
pub const TIME_FORMAT: &'static str = "%Y-%m-%d %H:%M:%S%#z";

/// The name under which a window gives its resource.
pub const RESOURCE_KEY: &'static str = "resource_id";

/// The name under which a window gives its two timestamps.
pub const TIMESPAN_KEY: &'static str = "timespan";

/// What the regex crate finds: `None` if `pattern` is no regular expression;
/// else the matches of `pattern` in `text`, from left to right and without
/// overlap, each as the text of its capture groups in the order of their
/// opening brackets. Group 0 is the whole match; a group that took no part in
/// the match is `None`.
pub uninterp spec fn regex_captures(pattern: Seq<char>, text: Seq<char>) -> Option<
    Seq<Seq<Option<Seq<char>>>>,
>;

/// What chrono reads from `text` under the strftime-style `format`: the
/// seconds since the Unix epoch and the nanoseconds of the instant that the
/// text denotes, its offset applied; `None` if the text does not fit the
/// format.
pub uninterp spec fn chrono_parsed(text: Seq<char>, format: Seq<char>) -> Option<(i64, u32)>;

/// `regex::Regex::new` on `pattern`, then `Regex::captures_iter` on `text`,
/// each match copied out group by group with `Captures::iter` and
/// `Match::as_str`. Nothing is proved of it; the contract gives what comes
/// back its name, `regex_captures`, and so claims only that it depends on the
/// two texts alone.
#[verifier::external_body]
fn regex_capture_groups(pattern: &str, text: &str) -> (found: Option<Vec<Vec<Option<String>>>>)
    ensures
        found.deep_view() == regex_captures(pattern@, text@),
{
    let re = regex::Regex::new(pattern).ok()?;
    Some(
        re.captures_iter(text).map(
            |caps| caps.iter().map(|group| group.map(|m| m.as_str().to_string())).collect(),
        ).collect(),
    )
}

/// `chrono::DateTime::parse_from_str`, the result moved to UTC with
/// `with_timezone` and read through `timestamp` and `timestamp_subsec_nanos`.
/// Nothing is proved of it; the contract gives what comes back its name,
/// `chrono_parsed`, and so claims only that it depends on the two texts alone.
#[verifier::external_body]
fn chrono_parse_utc(text: &str, format: &str) -> (parts: Option<(i64, u32)>)
    ensures
        parts == chrono_parsed(text@, format@),
{
    chrono::DateTime::parse_from_str(text, format).ok().map(
        |dt| {
            let utc = dt.with_timezone(&chrono::Utc);
            (utc.timestamp(), utc.timestamp_subsec_nanos())
        },
    )
}

/// What a `ParsedInfo` stands for: the named values of the new window and
/// those of the old one.
pub struct ParsedInfoView {
    pub new: Map<Seq<char>, Seq<char>>,
    pub old: Map<Seq<char>, Seq<char>>,
}

/// What a `ReservationWindow` stands for.
pub struct WindowView {
    pub rid: Seq<char>,
    pub start: UtcInstant,
    pub end: UtcInstant,
}

/// What a `ReservationConflict` stands for.
pub struct ConflictView {
    pub new: WindowView,
    pub old: WindowView,
}

/// What a `ReservationConflictInfo` stands for.
pub enum ConflictInfoView {
    Parsed(ConflictView),
    UnParsed(Seq<char>),
}

/// A decoded half-open time interval of one resource.
#[derive(Debug, Clone, PartialEq, Eq)]
pub struct ReservationWindow {
    pub rid: String,
    pub start: UtcDateTime,
    pub end: UtcDateTime,
}

/// The window that was rejected and the window it collided with.
#[derive(Debug, Clone, PartialEq, Eq)]
pub struct ReservationConflict {
    pub new: ReservationWindow,
    pub old: ReservationWindow,
}

/// The result of decoding a diagnostic text: the two windows, or, where the
/// text could not be decoded, the text itself.
#[derive(Debug, Clone, PartialEq, Eq)]
pub enum ReservationConflictInfo {
    Parsed(ReservationConflict),
    UnParsed(String),
}

/// The named values of the two windows of a diagnostic text, not yet
/// interpreted.
#[derive(Debug)]
pub struct ParsedInfo {
    pub new: FieldMap,
    pub old: FieldMap,
}

impl View for ParsedInfo {
    type V = ParsedInfoView;

    open spec fn view(&self) -> ParsedInfoView {
        ParsedInfoView { new: self.new@, old: self.old@ }
    }
}

impl View for ReservationWindow {
    type V = WindowView;

    open spec fn view(&self) -> WindowView {
        WindowView { rid: self.rid@, start: self.start@, end: self.end@ }
    }
}

impl View for ReservationConflict {
    type V = ConflictView;

    open spec fn view(&self) -> ConflictView {
        ConflictView { new: self.new@, old: self.old@ }
    }
}

impl View for ReservationConflictInfo {
    type V = ConflictInfoView;

    open spec fn view(&self) -> ConflictInfoView {
        match self {
            ReservationConflictInfo::Parsed(conflict) => ConflictInfoView::Parsed(conflict@),
            ReservationConflictInfo::UnParsed(text) => ConflictInfoView::UnParsed(text@),
        }
    }
}

/// The text of group `i` of a match, if the match has that group and it took
/// part.
pub open spec fn group_text(groups: Seq<Option<Seq<char>>>, i: int) -> Option<Seq<char>> {
    if 0 <= i < groups.len() {
        groups[i]
    } else {
        None
    }
}

/// The named values that one match gives: group 1 names what group 3 holds,
/// group 2 names what group 4 holds, and the second name wins where the two
/// are the same.
pub open spec fn match_fields(groups: Seq<Option<Seq<char>>>) -> Option<
    Map<Seq<char>, Seq<char>>,
> {
    match (group_text(groups, 1), group_text(groups, 2), group_text(groups, 3), group_text(
        groups,
        4,
    )) {
        (Some(k1), Some(k2), Some(v1), Some(v2)) => Some(
            Map::<Seq<char>, Seq<char>>::empty().insert(k1, v1).insert(k2, v2),
        ),
        _ => None,
    }
}

/// The named values of the two windows, where exactly two matches were found:
/// those of the first match are the new window's, those of the second match
/// the old window's.
pub open spec fn parsed_fields(found: Option<Seq<Seq<Option<Seq<char>>>>>) -> Option<
    ParsedInfoView,
> {
    match found {
        Some(matches) => if matches.len() == 2 {
            match (match_fields(matches[0]), match_fields(matches[1])) {
                (Some(new), Some(old)) => Some(ParsedInfoView { new, old }),
                _ => None,
            }
        } else {
            None
        },
        None => None,
    }
}

/// The start and end texts of a window: its timespan with the double quotes
/// taken out, split at the first comma.
pub open spec fn timespan_bounds(fields: Map<Seq<char>, Seq<char>>) -> Option<
    (Seq<char>, Seq<char>),
> {
    if fields.contains_key(TIMESPAN_KEY@) {
        split_once(without_char(fields[TIMESPAN_KEY@], '"'), ',')
    } else {
        None
    }
}

/// The instant that a timestamp of the diagnostic text denotes, if the text
/// is a timestamp and a `UtcDateTime` can hold its instant.
pub open spec fn parsed_time(text: Seq<char>) -> Option<UtcInstant> {
    match chrono_parsed(text, TIME_FORMAT@) {
        Some((secs, nanos)) => {
            let instant = UtcInstant { secs: secs as int, nanos: nanos as int };
            if instant.representable() {
                Some(instant)
            } else {
                None
            }
        },
        None => None,
    }
}

/// The instant that reading a timestamp gave, if it gave one.
pub open spec fn read_instant(read: Result<UtcDateTime, ()>) -> Option<UtcInstant> {
    match read {
        Ok(time) => Some(time@),
        Err(_) => None,
    }
}

/// A window from its resource, which has to be there, and its two bounds,
/// which both have to be instants.
pub open spec fn window_from_bounds(
    fields: Map<Seq<char>, Seq<char>>,
    start: Option<UtcInstant>,
    end: Option<UtcInstant>,
) -> Option<WindowView> {
    match (start, end) {
        (Some(start), Some(end)) => if fields.contains_key(RESOURCE_KEY@) {
            Some(WindowView { rid: fields[RESOURCE_KEY@], start, end })
        } else {
            None
        },
        _ => None,
    }
}

/// The window that a set of named values describes.
pub open spec fn window_of(fields: Map<Seq<char>, Seq<char>>) -> Option<WindowView> {
    match timespan_bounds(fields) {
        Some((start, end)) => window_from_bounds(fields, parsed_time(start), parsed_time(end)),
        None => None,
    }
}

/// The conflict that the named values of two windows describe, if both
/// describe a window.
pub open spec fn conflict_from_fields(fields: ParsedInfoView) -> Option<ConflictView> {
    match (window_of(fields.new), window_of(fields.old)) {
        (Some(new), Some(old)) => Some(ConflictView { new, old }),
        _ => None,
    }
}

/// The conflict that a diagnostic text describes, if it describes one.
pub open spec fn conflict_of(text: Seq<char>) -> Option<ConflictView> {
    match parsed_fields(regex_captures(CONFLICT_PATTERN@, text)) {
        Some(fields) => conflict_from_fields(fields),
        None => None,
    }
}

/// What a diagnostic text decodes to: its conflict, or the text itself.
pub open spec fn conflict_info(text: Seq<char>) -> ConflictInfoView {
    match conflict_of(text) {
        Some(conflict) => ConflictInfoView::Parsed(conflict),
        None => ConflictInfoView::UnParsed(text),
    }
}

/// A text in which the pattern finds exactly two groups, each of which
/// describes a window, decodes to these two windows: the one of the first
/// group as the new window and the one of the second group as the old window.
pub proof fn lemma_two_windows_decode_in_order(
    text: Seq<char>,
    first: Seq<Option<Seq<char>>>,
    second: Seq<Option<Seq<char>>>,
    new: WindowView,
    old: WindowView,
)
    requires
        regex_captures(CONFLICT_PATTERN@, text) == Some(seq![first, second]),
        match_fields(first) matches Some(fields) && window_of(fields) == Some(new),
        match_fields(second) matches Some(fields) && window_of(fields) == Some(old),
    ensures
        conflict_info(text) == ConflictInfoView::Parsed(ConflictView { new, old }),
{
}

/// A text in which the pattern finds no group, one group or more than two
/// groups decodes to itself.
pub proof fn lemma_other_than_two_groups_is_unparsed(text: Seq<char>)
    requires
        regex_captures(CONFLICT_PATTERN@, text) matches Some(matches) ==> matches.len() != 2,
    ensures
        conflict_info(text) == ConflictInfoView::UnParsed(text),
{
}

/// A text with two groups of which one has a timestamp that cannot be read
/// decodes to itself.
pub proof fn lemma_unreadable_timestamp_is_unparsed(text: Seq<char>, fields: ParsedInfoView)
    requires
        parsed_fields(regex_captures(CONFLICT_PATTERN@, text)) == Some(fields),
        (timespan_bounds(fields.new) matches Some((start, end)) && (parsed_time(start) is None
            || parsed_time(end) is None)) || (timespan_bounds(fields.old) matches Some(
            (start, end),
        ) && (parsed_time(start) is None || parsed_time(end) is None)),
    ensures
        conflict_info(text) == ConflictInfoView::UnParsed(text),
{
}

/// Decoding loses nothing: what it gives is the conflict that the text
/// describes, or else the text itself, unchanged.
pub proof fn lemma_decoded_or_kept(text: Seq<char>)
    ensures
        match conflict_info(text) {
            ConflictInfoView::Parsed(conflict) => conflict_of(text) == Some(conflict),
            ConflictInfoView::UnParsed(kept) => conflict_of(text) is None && kept == text,
        },
{
}

/// Reads one timestamp of the diagnostic text and moves it to UTC.
pub fn parse_time(s: &str) -> (r: Result<UtcDateTime, ()>)
    ensures
        read_instant(r) == parsed_time(s@),
{
    match chrono_parse_utc(s, TIME_FORMAT) {
        Some((secs, nanos)) => match UtcDateTime::from_timestamp(secs, nanos) {
            Some(time) => Ok(time),
            None => Err(()),
        },
        None => Err(()),
    }
}

impl ParsedInfo {
    /// The named values of one match.
    pub fn fields_of_match(groups: &Vec<Option<String>>) -> (r: Option<FieldMap>)
        ensures
            match r {
                Some(fields) => match_fields(groups.deep_view()) == Some(fields@),
                None => match_fields(groups.deep_view()) is None,
            },
    {
        if groups.len() < 5 {
            return None;
        }
        match (&groups[1], &groups[2], &groups[3], &groups[4]) {
            (Some(k1), Some(k2), Some(v1), Some(v2)) => {
                let mut fields = FieldMap::new();
                fields.insert(k1.clone(), v1.clone());
                fields.insert(k2.clone(), v2.clone());
                Some(fields)
            },
            _ => None,
        }
    }

    /// The two windows' named values from what the pattern found in a text:
    /// `Ok` exactly when it found two matches with all four groups.
    pub fn from_captures(found: &Option<Vec<Vec<Option<String>>>>) -> (r: Result<ParsedInfo, ()>)
        ensures
            match r {
                Ok(info) => parsed_fields(found.deep_view()) == Some(info@),
                Err(_) => parsed_fields(found.deep_view()) is None,
            },
    {
        match found {
            Some(matches) => {
                if matches.len() != 2 {
                    return Err(());
                }
                match (Self::fields_of_match(&matches[0]), Self::fields_of_match(&matches[1])) {
                    (Some(new), Some(old)) => Ok(ParsedInfo { new, old }),
                    _ => Err(()),
                }
            },
            None => Err(()),
        }
    }

    /// Scans a diagnostic text for its two windows.
    pub fn from_str(s: &str) -> (r: Result<ParsedInfo, ()>)
        ensures
            match r {
                Ok(info) => parsed_fields(regex_captures(CONFLICT_PATTERN@, s@)) == Some(info@),
                Err(_) => parsed_fields(regex_captures(CONFLICT_PATTERN@, s@)) is None,
            },
    {
        let found = regex_capture_groups(CONFLICT_PATTERN, s);
        Self::from_captures(&found)
    }
}

impl ReservationWindow {
    /// The start and end texts of the window that `value` describes.
    pub fn timespan_texts(value: &FieldMap) -> (r: Option<(String, String)>)
        ensures
            match r {
                Some((start, end)) => timespan_bounds(value@) == Some((start@, end@)),
                None => timespan_bounds(value@) is None,
            },
    {
        match value.get(TIMESPAN_KEY) {
            Some(timespan) => {
                let timespan_str = remove_char(timespan.as_str(), '"');
                match split_at_first(timespan_str.as_str(), ',') {
                    Some((start, end)) => Some((start.to_owned(), end.to_owned())),
                    None => None,
                }
            },
            None => None,
        }
    }

    /// The window of `value` with the given bounds: `Ok` exactly when both
    /// bounds are there and `value` names its resource.
    pub fn from_bounds(
        value: &FieldMap,
        start: Result<UtcDateTime, ()>,
        end: Result<UtcDateTime, ()>,
    ) -> (r: Result<ReservationWindow, ()>)
        ensures
            match r {
                Ok(window) => window_from_bounds(value@, read_instant(start), read_instant(end))
                    == Some(window@),
                Err(_) => window_from_bounds(value@, read_instant(start), read_instant(end))
                    is None,
            },
    {
        match (start, end) {
            (Ok(start), Ok(end)) => match value.get(RESOURCE_KEY) {
                Some(rid) => Ok(ReservationWindow { rid: rid.clone(), start, end }),
                None => Err(()),
            },
            _ => Err(()),
        }
    }

    /// Interprets the named values of one window.
    pub fn try_from(value: FieldMap) -> (r: Result<ReservationWindow, ()>)
        ensures
            match r {
                Ok(window) => window_of(value@) == Some(window@),
                Err(_) => window_of(value@) is None,
            },
    {
        match Self::timespan_texts(&value) {
            Some((start, end)) => {
                let start = parse_time(start.as_str());
                let end = parse_time(end.as_str());
                Self::from_bounds(&value, start, end)
            },
            None => Err(()),
        }
    }
}

impl ReservationConflict {
    /// Interprets the named values of the two windows: the first is the new
    /// window, the second the old one.
    pub fn try_from(value: ParsedInfo) -> (r: Result<ReservationConflict, ()>)
        ensures
            match r {
                Ok(conflict) => conflict_from_fields(value@) == Some(conflict@),
                Err(_) => conflict_from_fields(value@) is None,
            },
    {
        let ParsedInfo { new, old } = value;
        match (ReservationWindow::try_from(new), ReservationWindow::try_from(old)) {
            (Ok(new), Ok(old)) => Ok(ReservationConflict { new, old }),
            _ => Err(()),
        }
    }

    /// Decodes a diagnostic text into its two windows.
    pub fn from_str(s: &str) -> (r: Result<ReservationConflict, ()>)
        ensures
            match r {
                Ok(conflict) => conflict_of(s@) == Some(conflict@),
                Err(_) => conflict_of(s@) is None,
            },
    {
        Self::try_from(ParsedInfo::from_str(s)?)
    }
}

impl ReservationConflictInfo {
    /// Decodes a diagnostic text. This never fails: a text that does not
    /// decode is kept as it is.
    pub fn from_str(s: &str) -> (r: Result<ReservationConflictInfo, Infallible>)
        ensures
            r matches Ok(info) && info@ == conflict_info(s@),
    {
        match ReservationConflict::from_str(s) {
            Ok(conflict) => Ok(ReservationConflictInfo::Parsed(conflict)),
            Err(_) => Ok(ReservationConflictInfo::UnParsed(s.to_owned())),
        }
    }
}

} // verus!
