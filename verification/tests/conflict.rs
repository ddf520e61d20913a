use reservation::conflict::{CONFLICT_PATTERN, TIME_FORMAT};
use reservation::{
    FieldMap, ParsedInfo, ReservationConflict, ReservationConflictInfo, ReservationWindow,
    UtcDateTime,
};

const ERROR_MSG: &str = "Key (resource_id, timespan)=(ocean-view-room-714, [\"2022-12-26 22:00:00+00\",\"2022-12-28 19:00:00+00\")) conflicts with existing key (resource_id, timespan)=(ocean-view-room-714, [\"2022-12-25 22:00:00+00\",\"2022-12-28 19:00:00+00\")).";

fn to_rfc3339(time: &UtcDateTime) -> String {
    chrono::DateTime::from_timestamp(time.timestamp(), time.timestamp_subsec_nanos())
        .unwrap()
        .to_rfc3339()
}

fn group(rid: &str, start: &str, end: &str) -> String {
    format!("(resource_id, timespan)=({}, [\"{}\",\"{}\"))", rid, start, end)
}

#[test]
fn parse_info_should_work() {
    let info: ParsedInfo = ParsedInfo::from_str(ERROR_MSG).unwrap();
    assert_eq!(
        info.new.get("timespan").unwrap(),
        "\"2022-12-26 22:00:00+00\",\"2022-12-28 19:00:00+00\""
    );
    assert_eq!(info.new.get("resource_id").unwrap(), "ocean-view-room-714");
    assert_eq!(
        info.old.get("timespan").unwrap(),
        "\"2022-12-25 22:00:00+00\",\"2022-12-28 19:00:00+00\""
    );
    assert_eq!(info.old.get("resource_id").unwrap(), "ocean-view-room-714");
}

#[test]
fn conflict_error_msg_should_parse() {
    let info: ReservationConflictInfo = ReservationConflictInfo::from_str(ERROR_MSG).unwrap();
    match info {
        ReservationConflictInfo::Parsed(conflict) => {
            assert_eq!(conflict.new.rid, "ocean-view-room-714");
            assert_eq!(to_rfc3339(&conflict.new.start), "2022-12-26T22:00:00+00:00");
            assert_eq!(to_rfc3339(&conflict.new.end), "2022-12-28T19:00:00+00:00");
            assert_eq!(conflict.old.rid, "ocean-view-room-714");
            assert_eq!(to_rfc3339(&conflict.old.start), "2022-12-25T22:00:00+00:00");
            assert_eq!(to_rfc3339(&conflict.old.end), "2022-12-28T19:00:00+00:00");
        }
        ReservationConflictInfo::UnParsed(_) => {
            panic!("should be parsed")
        }
    }
}

#[test]
fn parse_time() {
    assert_eq!(TIME_FORMAT, "%Y-%m-%d %H:%M:%S%#z");
    let time = reservation::conflict::parse_time("2022-12-26 22:00:00+00").unwrap();
    assert_eq!(to_rfc3339(&time), "2022-12-26T22:00:00+00:00")
}

#[test]
fn parse_time_agrees_with_chrono() {
    let text = "2022-12-26 22:00:00+00";
    let expected = chrono::DateTime::parse_from_str(text, "%Y-%m-%d %H:%M:%S%#z")
        .unwrap()
        .with_timezone(&chrono::Utc);
    let time = reservation::conflict::parse_time(text).unwrap();
    assert_eq!(time.timestamp(), expected.timestamp());
    assert_eq!(time.timestamp_subsec_nanos(), expected.timestamp_subsec_nanos());
    assert_eq!(time.timestamp(), 1_672_092_000);
}

#[test]
fn parse_time_applies_the_offset() {
    let time = reservation::conflict::parse_time("2022-12-25 15:00:00-07").unwrap();
    assert_eq!(time.timestamp(), 1_672_005_600);
    assert_eq!(to_rfc3339(&time), "2022-12-25T22:00:00+00:00");
    let with_minutes = reservation::conflict::parse_time("2022-12-26 03:30:00+05:30").unwrap();
    assert_eq!(with_minutes.timestamp(), 1_672_005_600);
}

#[test]
fn parse_time_refuses_other_text() {
    assert_eq!(reservation::conflict::parse_time(""), Err(()));
    assert_eq!(reservation::conflict::parse_time("2022-12-26"), Err(()));
    assert_eq!(reservation::conflict::parse_time("2022-12-26 22:00:00"), Err(()));
    assert_eq!(reservation::conflict::parse_time("2022-13-26 22:00:00+00"), Err(()));
    assert_eq!(reservation::conflict::parse_time("yesterday"), Err(()));
}

#[test]
fn end_to_end_example_decodes_both_windows() {
    let text = "Key (resource_id, timespan)=(room-714, [\"2022-12-26 22:00:00+00\",\"2022-12-28 19:00:00+00\")) conflicts with existing key (resource_id, timespan)=(room-714, [\"2022-12-25 22:00:00+00\",\"2022-12-28 19:00:00+00\"))";
    let conflict = ReservationConflict::from_str(text).unwrap();
    assert_eq!(
        conflict.new,
        ReservationWindow {
            rid: "room-714".to_string(),
            start: UtcDateTime::from_timestamp(1_672_092_000, 0).unwrap(),
            end: UtcDateTime::from_timestamp(1_672_254_000, 0).unwrap(),
        }
    );
    assert_eq!(
        conflict.old,
        ReservationWindow {
            rid: "room-714".to_string(),
            start: UtcDateTime::from_timestamp(1_672_005_600, 0).unwrap(),
            end: UtcDateTime::from_timestamp(1_672_254_000, 0).unwrap(),
        }
    );
    assert_eq!(to_rfc3339(&conflict.new.start), "2022-12-26T22:00:00+00:00");
    assert_eq!(to_rfc3339(&conflict.old.start), "2022-12-25T22:00:00+00:00");
}

#[test]
fn decoding_the_same_text_twice_gives_the_same_result() {
    let once = ReservationConflictInfo::from_str(ERROR_MSG).unwrap();
    let twice = ReservationConflictInfo::from_str(ERROR_MSG).unwrap();
    assert_eq!(once, twice);
    assert!(matches!(once, ReservationConflictInfo::Parsed(_)));
}

#[test]
fn first_group_is_new_whatever_the_times_say() {
    let early = group("a-1", "2020-01-01 00:00:00+00", "2020-01-02 00:00:00+00");
    let late = group("b_2", "2030-01-01 00:00:00+00", "2030-01-02 00:00:00+00");
    let text = format!("Key {} conflicts with existing key {}.", early, late);
    let conflict = ReservationConflict::from_str(&text).unwrap();
    assert_eq!(conflict.new.rid, "a-1");
    assert_eq!(conflict.old.rid, "b_2");
    assert_eq!(to_rfc3339(&conflict.new.start), "2020-01-01T00:00:00+00:00");
    assert_eq!(to_rfc3339(&conflict.old.end), "2030-01-02T00:00:00+00:00");

    let text = format!("Key {} conflicts with existing key {}.", late, early);
    let conflict = ReservationConflict::from_str(&text).unwrap();
    assert_eq!(conflict.new.rid, "b_2");
    assert_eq!(conflict.old.rid, "a-1");
}

#[test]
fn text_without_groups_is_kept() {
    for text in ["", "no windows here", "Key (resource_id)=(room) is taken"] {
        assert_eq!(ParsedInfo::from_str(text).is_err(), true);
        assert_eq!(ReservationConflict::from_str(text), Err(()));
        assert_eq!(
            ReservationConflictInfo::from_str(text).unwrap(),
            ReservationConflictInfo::UnParsed(text.to_string())
        );
    }
}

#[test]
fn text_with_one_group_is_kept() {
    let text = format!(
        "Key {} is alone",
        group("room-1", "2022-12-26 22:00:00+00", "2022-12-28 19:00:00+00")
    );
    assert!(ParsedInfo::from_str(&text).is_err());
    match ReservationConflictInfo::from_str(&text).unwrap() {
        ReservationConflictInfo::UnParsed(kept) => assert_eq!(kept.as_bytes(), text.as_bytes()),
        ReservationConflictInfo::Parsed(_) => panic!("one group is no conflict"),
    }
}

#[test]
fn text_with_three_groups_is_kept() {
    let one = group("room-1", "2022-12-26 22:00:00+00", "2022-12-28 19:00:00+00");
    let text = format!("{} and {} and {}", one, one, one);
    assert!(ParsedInfo::from_str(&text).is_err());
    match ReservationConflictInfo::from_str(&text).unwrap() {
        ReservationConflictInfo::UnParsed(kept) => assert_eq!(kept.as_bytes(), text.as_bytes()),
        ReservationConflictInfo::Parsed(_) => panic!("three groups are no conflict"),
    }
}

#[test]
fn text_with_an_unreadable_timestamp_is_kept() {
    let good = group("room-1", "2022-12-26 22:00:00+00", "2022-12-28 19:00:00+00");
    let bad_start = group("room-1", "2022-12-26 25:00:00+00", "2022-12-28 19:00:00+00");
    let bad_end = group("room-1", "2022-12-26 22:00:00+00", "soon");
    let one_bound = "(resource_id, timespan)=(room-1, [\"2022-12-26 22:00:00+00\"))".to_string();
    for (first, second) in [
        (&bad_start, &good),
        (&good, &bad_start),
        (&bad_end, &good),
        (&good, &bad_end),
        (&one_bound, &good),
    ] {
        let text = format!("Key {} conflicts with existing key {}.", first, second);
        assert!(ParsedInfo::from_str(&text).is_ok());
        assert_eq!(ReservationConflict::from_str(&text), Err(()));
        match ReservationConflictInfo::from_str(&text).unwrap() {
            ReservationConflictInfo::UnParsed(kept) => {
                assert_eq!(kept.as_bytes(), text.as_bytes())
            }
            ReservationConflictInfo::Parsed(_) => panic!("an unreadable timestamp was accepted"),
        }
    }
}

#[test]
fn groups_under_other_names_are_no_windows() {
    let odd = "(room, span)=(room-1, [\"2022-12-26 22:00:00+00\",\"2022-12-28 19:00:00+00\"))";
    let text = format!("Key {} conflicts with existing key {}.", odd, odd);
    let info = ParsedInfo::from_str(&text).unwrap();
    assert_eq!(info.new.get("room").unwrap(), "room-1");
    assert_eq!(info.new.get("timespan"), None);
    assert_eq!(ReservationConflict::try_from(info), Err(()));
    assert_eq!(
        ReservationConflictInfo::from_str(&text).unwrap(),
        ReservationConflictInfo::UnParsed(text.clone())
    );
}

#[test]
fn from_captures_wants_two_matches_of_four_groups() {
    let whole = |rid: &str| -> Vec<Option<String>> {
        vec![
            Some("ignored".to_string()),
            Some("resource_id".to_string()),
            Some("timespan".to_string()),
            Some(rid.to_string()),
            Some("a,b".to_string()),
        ]
    };
    let info = ParsedInfo::from_captures(&Some(vec![whole("r1"), whole("r2")])).unwrap();
    assert_eq!(info.new.get("resource_id").unwrap(), "r1");
    assert_eq!(info.old.get("resource_id").unwrap(), "r2");
    assert_eq!(info.old.get("timespan").unwrap(), "a,b");

    assert!(ParsedInfo::from_captures(&None).is_err());
    assert!(ParsedInfo::from_captures(&Some(vec![])).is_err());
    assert!(ParsedInfo::from_captures(&Some(vec![whole("r1")])).is_err());
    assert!(ParsedInfo::from_captures(&Some(vec![whole("r1"), whole("r2"), whole("r3")])).is_err());

    let mut short = whole("r1");
    short.pop();
    assert!(ParsedInfo::from_captures(&Some(vec![short, whole("r2")])).is_err());
    let mut gap = whole("r2");
    gap[2] = None;
    assert!(ParsedInfo::from_captures(&Some(vec![whole("r1"), gap])).is_err());
}

#[test]
fn second_name_wins_where_both_names_are_the_same() {
    let groups = vec![
        None,
        Some("timespan".to_string()),
        Some("timespan".to_string()),
        Some("first".to_string()),
        Some("second".to_string()),
    ];
    let fields = ParsedInfo::fields_of_match(&groups).unwrap();
    assert_eq!(fields.get("timespan").unwrap(), "second");
}

#[test]
fn timespan_texts_strips_quotes_and_splits_at_the_first_comma() {
    let mut fields = FieldMap::new();
    fields.insert("timespan".to_string(), "\"a\",\"b\",\"c\"".to_string());
    assert_eq!(
        ReservationWindow::timespan_texts(&fields),
        Some(("a".to_string(), "b,c".to_string()))
    );

    let mut single = FieldMap::new();
    single.insert("timespan".to_string(), "\"a\"".to_string());
    assert_eq!(ReservationWindow::timespan_texts(&single), None);
    assert_eq!(ReservationWindow::timespan_texts(&FieldMap::new()), None);
}

#[test]
fn window_wants_its_resource_and_both_bounds() {
    let start = UtcDateTime::from_timestamp(10, 0).unwrap();
    let end = UtcDateTime::from_timestamp(20, 0).unwrap();
    let mut fields = FieldMap::new();
    fields.insert("resource_id".to_string(), "room".to_string());
    assert_eq!(
        ReservationWindow::from_bounds(&fields, Ok(start), Ok(end)),
        Ok(ReservationWindow { rid: "room".to_string(), start, end })
    );
    assert_eq!(ReservationWindow::from_bounds(&fields, Err(()), Ok(end)), Err(()));
    assert_eq!(ReservationWindow::from_bounds(&fields, Ok(start), Err(())), Err(()));
    assert_eq!(ReservationWindow::from_bounds(&FieldMap::new(), Ok(start), Ok(end)), Err(()));
}

#[test]
fn window_try_from_reads_named_values() {
    let mut fields = FieldMap::new();
    fields.insert("resource_id".to_string(), "room-9".to_string());
    fields.insert(
        "timespan".to_string(),
        "\"2022-12-25 22:00:00+00\",\"2022-12-28 19:00:00+00\"".to_string(),
    );
    let window = ReservationWindow::try_from(fields).unwrap();
    assert_eq!(window.rid, "room-9");
    assert_eq!(window.start.timestamp(), 1_672_005_600);
    assert_eq!(window.end.timestamp(), 1_672_254_000);
}

#[test]
fn the_pattern_is_a_regular_expression() {
    assert_eq!(
        CONFLICT_PATTERN,
        "\\((?P<k1>[a-zA-Z0-9-_]+),\\s*(?P<k2>[a-zA-Z0-9-_]+)\\)=\\((?P<v1>[a-zA-Z0-9-_]+),\\s*\\[(?P<v2>[^\\]\\)]+)\\)"
    );
    let re = regex::Regex::new(CONFLICT_PATTERN).unwrap();
    assert_eq!(re.captures_len(), 5);
    let names: Vec<Option<&str>> = re.capture_names().collect();
    assert_eq!(names, vec![None, Some("k1"), Some("k2"), Some("v1"), Some("v2")]);
}
