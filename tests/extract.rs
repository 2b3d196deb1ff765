use ardrive_bridge::json::{extract_drives_from_value, normalize, try_parse_json_flex, OutputError};
use ardrive_bridge::records::ArDriveDrive;
use ardrive_bridge::text::strip_ansi_codes;

fn value(text: &str) -> serde_json::Value {
    serde_json::from_str(text).unwrap()
}

#[test]
fn test_extract_drives_from_array() {
    let v = value(r#"[{"driveId": "a", "name": "A"}, {"driveId": "b", "name": "B"}]"#);
    let res = extract_drives_from_value(&v).expect("should extract array");
    assert_eq!(res.len(), 2);
}

#[test]
fn test_extract_drives_from_wrapper() {
    let v = value(r#"{"drives": [{"driveId":"x"}], "meta": {}}"#);
    let res = extract_drives_from_value(&v).expect("should extract from wrapper");
    assert_eq!(res.len(), 1);
}

#[test]
fn test_extract_drives_from_map_of_objects() {
    let v = value(r#"{"a": {"driveId":"a"}, "b": {"driveId":"b"}}"#);
    let res = extract_drives_from_value(&v).expect("should extract from map");
    assert_eq!(res.len(), 2);
}

#[test]
fn wrapper_keys_are_tried_in_order() {
    let v = value(r#"{"rows": [1, 2, 3], "data": [{"driveId":"d"}]}"#);
    let res = extract_drives_from_value(&v).unwrap();
    assert_eq!(res, vec![value(r#"{"driveId":"d"}"#)]);
}

#[test]
fn non_array_wrapper_falls_back_to_object_values() {
    let v = value(r#"{"drives": {"driveId":"x"}, "count": 1}"#);
    let res = extract_drives_from_value(&v).unwrap();
    assert_eq!(res, vec![value(r#"{"driveId":"x"}"#)]);
}

#[test]
fn scalars_and_plain_objects_hold_no_records() {
    assert!(extract_drives_from_value(&value("42")).is_none());
    assert!(extract_drives_from_value(&value(r#""text""#)).is_none());
    assert!(extract_drives_from_value(&value(r#"{"a": 1, "b": [1]}"#)).is_none());
}

#[test]
fn color_sequence_before_text_leaves_the_text() {
    assert_eq!(strip_ansi_codes("\x1b[31mhello"), "hello");
    assert_eq!(strip_ansi_codes("\x1b[1;32mok\x1b[0m done"), "ok done");
}

#[test]
fn unknown_escape_drops_the_next_character() {
    assert_eq!(strip_ansi_codes("a\x1bXb"), "ab");
    assert_eq!(strip_ansi_codes("\x1b[12"), "");
    assert_eq!(strip_ansi_codes("plain"), "plain");
}

#[test]
fn clean_array_normalizes_to_its_record() {
    let recs = normalize(&strip_ansi_codes(r#"[{"driveId":"a"}]"#)).unwrap();
    assert_eq!(recs.len(), 1);
    let d = ArDriveDrive::from_value(&recs[0]).unwrap();
    assert_eq!(d.drive_id, Some("a".to_string()));
}

#[test]
fn shapes_normalize_to_their_records() {
    assert_eq!(normalize(r#"{"drives":[{"driveId":"x"}]}"#).unwrap().len(), 1);
    assert_eq!(normalize(r#"[{"driveId":"a"},{"driveId":"b"}]"#).unwrap().len(), 2);
    assert_eq!(normalize(r#"{"a":{"driveId":"a"},"b":{"driveId":"b"}}"#).unwrap().len(), 2);
}

#[test]
fn noisy_output_is_cleaned_before_parsing() {
    let raw = "\u{feff}\x1b[32m  [{\"driveId\":\"a\"}]  \n";
    assert_eq!(normalize(raw).unwrap().len(), 1);
}

#[test]
fn embedded_document_is_found() {
    let v = try_parse_json_flex("Loading drives...\n{\"drives\":[]}\nDone.").unwrap();
    assert_eq!(v, value(r#"{"drives":[]}"#));
    let v = try_parse_json_flex("Loading drives...\n[1, 2]\nDone.").unwrap();
    assert_eq!(v, value("[1, 2]"));
}

#[test]
fn embedded_slice_starts_at_first_opener() {
    let v = try_parse_json_flex("Fetching drives...\n[{\"driveId\":\"a\"}]\nDone").unwrap();
    assert_eq!(v, value(r#"[{"driveId":"a"}]"#));
    let recs = normalize("Fetching drives...\n[{\"driveId\":\"a\"}]\nDone").unwrap();
    assert_eq!(recs.len(), 1);
}

#[test]
fn embedded_slice_ends_at_matching_closer() {
    let v = try_parse_json_flex("note: {\"drives\":[{\"driveId\":\"a\"}]} [done]").unwrap();
    assert_eq!(v, value(r#"{"drives":[{"driveId":"a"}]}"#));
}

#[test]
fn failure_is_that_of_the_whole_text() {
    let f = try_parse_json_flex("[1,\n2,\nx]").unwrap_err();
    assert_eq!(f.line, 3);
    assert!(f.message.contains("line 3"));
}

#[test]
fn line_that_parses_is_found() {
    let v = try_parse_json_flex("warning {partial\n  [1, 2]  \ntrailer").unwrap();
    assert_eq!(v, value("[1, 2]"));
}

#[test]
fn text_without_document_does_not_parse() {
    assert!(try_parse_json_flex("no json here").is_err());
}

#[test]
fn empty_output_is_its_own_error() {
    assert_eq!(normalize(""), Err(OutputError::Empty));
    assert_eq!(normalize("  \n\t"), Err(OutputError::Empty));
}

#[test]
fn error_marker_fails_early() {
    match normalize("Error: wallet not found") {
        Err(OutputError::ErrorMarker { text }) => assert_eq!(text, "Error: wallet not found"),
        other => panic!("unexpected {:?}", other),
    }
}

#[test]
fn unparseable_output_keeps_the_text() {
    match normalize("  nothing to see  ") {
        Err(OutputError::Unparseable { text, line, message }) => {
            assert_eq!(text, "nothing to see");
            assert_eq!(line, 1);
            assert!(!message.is_empty());
        }
        other => panic!("unexpected {:?}", other),
    }
}

#[test]
fn unexpected_shape_shows_the_document() {
    match normalize(r#"{"count": 3}"#) {
        Err(OutputError::UnexpectedShape { structure }) => assert!(structure.contains("count")),
        other => panic!("unexpected {:?}", other),
    }
}
