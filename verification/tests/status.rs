use beacn_utility::status::{match_status_response, FrameError};

fn patch(text: &str) -> json_patch::Patch {
    serde_json::from_str::<json_patch::Patch>(text).unwrap()
}

fn document(text: &str) -> serde_json::Value {
    serde_json::from_str::<serde_json::Value>(text).unwrap()
}

#[test]
fn the_answer_to_the_request_carries_the_status() {
    let frame = r#"{"id":0,"data":{"Status":{"audio":{"volume":5},"name":"x"}}}"#;
    let status = match_status_response(frame, 0).unwrap().unwrap();
    assert_eq!(status.raw(), &document(r#"{"name":"x","audio":{"volume":5}}"#));
}

#[test]
fn a_frame_for_another_request_is_passed_over() {
    let frame = r#"{"id":3,"data":{"Status":{}}}"#;
    assert!(match_status_response(frame, 0).unwrap().is_none());
    assert!(match_status_response(frame, 3).unwrap().is_some());
    // what else the frame holds is not looked at
    assert!(match_status_response(r#"{"id":18446744073709551615}"#, 0).unwrap().is_none());
}

#[test]
fn a_frame_that_is_no_answer_is_an_error() {
    assert_eq!(match_status_response("{", 0).err(), Some(FrameError::Malformed));
    assert_eq!(match_status_response("", 0).err(), Some(FrameError::Malformed));
    assert_eq!(match_status_response("[1,2]", 0).err(), Some(FrameError::NotAnObject));
    assert_eq!(match_status_response("7", 0).err(), Some(FrameError::NotAnObject));
    assert_eq!(match_status_response(r#"{"data":{}}"#, 0).err(), Some(FrameError::MissingId));
    assert_eq!(match_status_response(r#"{"id":"0"}"#, 0).err(), Some(FrameError::InvalidId));
    assert_eq!(match_status_response(r#"{"id":-1}"#, 0).err(), Some(FrameError::InvalidId));
    assert_eq!(match_status_response(r#"{"id":0.5}"#, 0).err(), Some(FrameError::InvalidId));
    assert_eq!(match_status_response(r#"{"id":0}"#, 0).err(), Some(FrameError::MissingData));
    assert_eq!(
        match_status_response(r#"{"id":0,"data":{"Patch":[]}}"#, 0).err(),
        Some(FrameError::MissingStatus)
    );
    assert_eq!(
        match_status_response(r#"{"id":0,"data":"Ok"}"#, 0).err(),
        Some(FrameError::MissingStatus)
    );
}

#[test]
fn a_patch_changes_the_status_in_order() {
    let frame = r#"{"id":0,"data":{"Status":{"sources":[{"name":"a","volume":1}]}}}"#;
    let mut status = match_status_response(frame, 0).unwrap().unwrap();
    let operations = patch(
        r#"[
            {"op":"replace","path":"/sources/0/volume","value":2},
            {"op":"add","path":"/sources/1","value":{"name":"b"}},
            {"op":"remove","path":"/sources/0/name"},
            {"op":"replace","path":"/sources/0/volume","value":3}
        ]"#,
    );
    assert!(status.apply_patch(&operations).is_ok());
    assert_eq!(status.raw(), &document(r#"{"sources":[{"volume":3},{"name":"b"}]}"#));
}

#[test]
fn a_patch_that_fails_leaves_the_status_as_it_was() {
    let frame = r#"{"id":0,"data":{"Status":{"a":1}}}"#;
    let mut status = match_status_response(frame, 0).unwrap().unwrap();
    let operations = patch(
        r#"[
            {"op":"replace","path":"/a","value":2},
            {"op":"remove","path":"/missing"}
        ]"#,
    );
    assert_eq!(status.apply_patch(&operations).err(), Some(FrameError::PatchFailed));
    assert_eq!(status.raw(), &document(r#"{"a":1}"#));
    assert!(status.apply_patch(&patch("[]")).is_ok());
    assert_eq!(status.raw(), &document(r#"{"a":1}"#));
}

#[test]
fn a_move_that_fails_halfway_leaves_the_status_as_it_was() {
    let frame = r#"{"id":0,"data":{"Status":{"a":1}}}"#;
    let mut status = match_status_response(frame, 0).unwrap().unwrap();
    let operations = patch(r#"[{"op":"move","from":"/a","path":"/b/c"}]"#);
    assert_eq!(status.apply_patch(&operations).err(), Some(FrameError::PatchFailed));
    assert_eq!(status.raw(), &document(r#"{"a":1}"#));
}

#[test]
fn a_patch_that_fails_after_it_changed_something_leaves_the_status_as_it_was() {
    let frame = r#"{"id":0,"data":{"Status":{"a":{}}}}"#;
    let mut status = match_status_response(frame, 0).unwrap().unwrap();
    let operations = patch(
        r#"[
            {"op":"add","path":"/a/b","value":1},
            {"op":"move","from":"/a","path":"/x/y"}
        ]"#,
    );
    assert_eq!(status.apply_patch(&operations).err(), Some(FrameError::PatchFailed));
    assert_eq!(status.raw(), &document(r#"{"a":{}}"#));
    let moved = patch(r#"[{"op":"move","from":"/a","path":"/b"},{"op":"test","path":"/b","value":{}}]"#);
    assert!(status.apply_patch(&moved).is_ok());
    assert_eq!(status.raw(), &document(r#"{"b":{}}"#));
}

#[test]
fn only_an_object_is_an_answer() {
    assert_eq!(match_status_response(r#""{""#, 0).err(), Some(FrameError::NotAnObject));
    assert_eq!(match_status_response("null", 0).err(), Some(FrameError::NotAnObject));
    assert_eq!(match_status_response("  {\"id\" : 4}  ", 0).unwrap().is_none(), true);
}
