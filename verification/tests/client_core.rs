//! Scenario tests for the request/response core: framing, identifier
//! allocation, correlation, and the error taxonomy.

use devcade_onboard_types::{RequestBody, Response, ResponseBody};
use devcaders::client::{
    expect_nfc_tag, expect_nfc_user, reader_step, resolve_send, LineOutcome, WriteStep, Writer,
};
use devcaders::errors::RequestError;
use devcaders::pending::PendingTable;

#[test]
fn frame_is_newline_terminated_json() {
    let frame = devcaders::codec::frame_request(7, RequestBody::Ping);
    assert_eq!(*frame.last().unwrap(), b'\n');
    assert!(!frame[..frame.len() - 1].contains(&b'\n'));
    let value: serde_json::Value = serde_json::from_slice(&frame[..frame.len() - 1]).unwrap();
    assert_eq!(value["request_id"], serde_json::Value::from(7u32));
    assert_eq!(value["type"], serde_json::Value::from("Ping"));
}

#[test]
fn frame_escapes_newlines_inside_payload_strings() {
    let frame =
        devcaders::codec::frame_request(1, RequestBody::GetGame("line one\nline two".to_string()));
    assert_eq!(*frame.last().unwrap(), b'\n');
    assert!(!frame[..frame.len() - 1].contains(&b'\n'));
}

#[test]
fn frame_is_the_serialized_request_plus_one_delimiter() {
    // The bytes on the wire are exactly the schema crate's own serialization
    // of { request_id, body }, followed by a single newline byte.
    let frame = devcaders::codec::frame_request(9, RequestBody::GetGame("pong".to_string()));
    let mut expected = serde_json::to_vec(&devcade_onboard_types::Request {
        request_id: 9,
        body: RequestBody::GetGame("pong".to_string()),
    })
    .unwrap();
    expected.push(b'\n');
    assert_eq!(frame, expected);
}

#[test]
fn parse_accepts_what_the_codec_frames() {
    // A response line shaped exactly like an outbound frame, without its
    // delimiter, parses back to the identifier it bears.
    let line = r#"{"request_id":42,"type":"Pong"}"#;
    let (id, _body) = devcaders::codec::parse_response(line).unwrap();
    assert_eq!(id, 42);
}

#[test]
fn responses_out_of_order_reach_their_own_callers() {
    let mut table: PendingTable<u64> = PendingTable::new();
    let mut writer = Writer::new();
    assert!(matches!(writer.commit(&mut table, 1, 11, Ok(())), WriteStep::Registered));
    assert!(matches!(writer.commit(&mut table, 2, 22, Ok(())), WriteStep::Registered));

    // The response to request 2 arrives first.
    match reader_step(&mut table, r#"{"request_id":2,"type":"Pong"}"#) {
        LineOutcome::Deliver(id, handle, result) => {
            assert_eq!(id, 2);
            assert_eq!(handle, 22);
            assert!(matches!(result, Ok(ResponseBody::Pong)));
        }
        _ => panic!("expected a delivery for request 2"),
    }
    match reader_step(&mut table, r#"{"request_id":1,"type":"Ok"}"#) {
        LineOutcome::Deliver(id, handle, result) => {
            assert_eq!(id, 1);
            assert_eq!(handle, 11);
            assert!(matches!(result, Ok(ResponseBody::Ok)));
        }
        _ => panic!("expected a delivery for request 1"),
    }
    assert_eq!(table.len(), 0);
}

#[test]
fn error_payload_resolves_as_response_error() {
    let mut table: PendingTable<u64> = PendingTable::new();
    table.register(5, 55);
    match reader_step(&mut table, r#"{"request_id":5,"type":"Err","data":"boom"}"#) {
        LineOutcome::Deliver(id, handle, result) => {
            assert_eq!(id, 5);
            assert_eq!(handle, 55);
            match result {
                Err(RequestError::ResponseError(message)) => assert_eq!(message, "boom"),
                other => panic!("expected ResponseError(\"boom\"), got {other:?}"),
            }
        }
        _ => panic!("expected a delivery for request 5"),
    }
}

#[test]
fn unmatched_response_disturbs_nothing() {
    let mut table: PendingTable<u64> = PendingTable::new();
    table.register(1, 11);

    // A spurious response with an unused identifier is dropped ...
    match reader_step(&mut table, r#"{"request_id":9,"type":"Pong"}"#) {
        LineOutcome::Unmatched(id) => assert_eq!(id, 9),
        _ => panic!("expected the spurious response to go unmatched"),
    }
    assert_eq!(table.len(), 1);
    assert!(table.contains(1));

    // ... and the real response still completes request 1 correctly.
    match reader_step(&mut table, r#"{"request_id":1,"type":"Pong"}"#) {
        LineOutcome::Deliver(id, handle, result) => {
            assert_eq!(id, 1);
            assert_eq!(handle, 11);
            assert!(matches!(result, Ok(ResponseBody::Pong)));
        }
        _ => panic!("expected a delivery for request 1"),
    }
}

#[test]
fn malformed_line_is_dropped_and_later_lines_still_work() {
    let mut table: PendingTable<u64> = PendingTable::new();
    table.register(3, 33);

    assert!(matches!(reader_step(&mut table, "this is not a frame"), LineOutcome::Malformed));
    assert!(matches!(reader_step(&mut table, r#"{"request_id":"x"}"#), LineOutcome::Malformed));
    assert_eq!(table.len(), 1);

    match reader_step(&mut table, r#"{"request_id":3,"type":"Pong"}"#) {
        LineOutcome::Deliver(id, handle, _) => {
            assert_eq!(id, 3);
            assert_eq!(handle, 33);
        }
        _ => panic!("expected a delivery for request 3"),
    }
}

#[test]
fn allocator_skips_pending_identifiers() {
    let mut table: PendingTable<u64> = PendingTable::new();
    assert_eq!(table.alloc_id(0), 0);
    table.register(0, 10);
    table.register(1, 11);
    assert_eq!(table.alloc_id(0), 2);
    assert_eq!(table.alloc_id(5), 5);
}

#[test]
fn allocator_wraps_past_the_largest_identifier() {
    let mut table: PendingTable<u64> = PendingTable::new();
    table.register(u32::MAX, 1);
    table.register(0, 2);
    assert_eq!(table.alloc_id(u32::MAX), 1);
}

#[test]
fn concurrently_pending_requests_get_distinct_identifiers() {
    let mut table: PendingTable<u64> = PendingTable::new();
    let mut counter: u32 = 0;
    let mut seen = Vec::new();
    for handle in 0u64..10 {
        let id = table.alloc_id(counter);
        assert!(!seen.contains(&id));
        seen.push(id);
        table.register(id, handle);
        counter = id;
    }
    assert_eq!(table.len(), 10);
}

#[test]
fn prepare_skips_pending_identifiers_and_frames_the_request() {
    let mut table: PendingTable<u64> = PendingTable::new();
    table.register(0, 10);
    table.register(1, 11);
    let mut writer = Writer::new();
    let (id, frame) = writer.prepare(&table, RequestBody::Ping).unwrap();
    assert_eq!(id, 2);
    assert_eq!(*frame.last().unwrap(), b'\n');
    let value: serde_json::Value = serde_json::from_slice(&frame[..frame.len() - 1]).unwrap();
    assert_eq!(value["request_id"], serde_json::Value::from(2u32));
}

#[test]
fn write_failure_aborts_that_caller_with_the_io_error() {
    let mut table: PendingTable<u64> = PendingTable::new();
    let mut writer = Writer::new();
    let failure = std::io::Error::new(std::io::ErrorKind::BrokenPipe, "connection is gone");
    match writer.commit(&mut table, 4, 44, Err(failure)) {
        WriteStep::Abort(handle, RequestError::IoError(err)) => {
            assert_eq!(handle, 44);
            assert_eq!(err.kind(), std::io::ErrorKind::BrokenPipe);
        }
        _ => panic!("expected the write failure to abort the caller"),
    }
    // The failed request was never registered as pending ...
    assert!(!table.contains(4));
    assert_eq!(table.len(), 0);
    // ... and the failed writer accepts no further request.
    assert!(writer.prepare(&table, RequestBody::Ping).is_none());
}

#[test]
fn abandoned_handle_surfaces_as_channel_closed() {
    assert!(matches!(resolve_send(None), Err(RequestError::ChannelClosed)));
}

#[test]
fn resolved_handle_passes_through_unchanged() {
    assert!(matches!(resolve_send(Some(Ok(ResponseBody::Pong))), Ok(ResponseBody::Pong)));
    match resolve_send(Some(Err(RequestError::ResponseError("boom".to_string())))) {
        Err(RequestError::ResponseError(message)) => assert_eq!(message, "boom"),
        other => panic!("expected the error to pass through, got {other:?}"),
    }
}

#[test]
fn nfc_tag_response_of_the_right_shape_is_accepted() {
    let result = expect_nfc_tag(ResponseBody::NfcTag(Some("assoc-id".to_string())));
    assert_eq!(result.unwrap(), Some("assoc-id".to_string()));
    let empty = expect_nfc_tag(ResponseBody::NfcTag(None));
    assert_eq!(empty.unwrap(), None);
}

#[test]
fn nfc_tag_response_of_the_wrong_shape_is_unexpected() {
    match expect_nfc_tag(ResponseBody::Pong) {
        Err(RequestError::UnexpectedResponse(body)) => {
            assert!(matches!(body, ResponseBody::Pong))
        }
        _ => panic!("expected the payload to be surfaced as unexpected"),
    }
}

#[test]
fn nfc_user_response_round_trips_the_attribute_map() {
    let mut user = serde_json::Map::new();
    user.insert("uid".to_string(), serde_json::Value::String("mcmaster".to_string()));
    let result = expect_nfc_user(ResponseBody::NfcUser(user.clone())).unwrap();
    assert_eq!(result, user);

    match expect_nfc_user(ResponseBody::Ok) {
        Err(RequestError::UnexpectedResponse(body)) => assert!(matches!(body, ResponseBody::Ok)),
        _ => panic!("expected the payload to be surfaced as unexpected"),
    }
}

#[test]
fn delivered_payload_is_the_one_on_the_wire() {
    let mut table: PendingTable<u64> = PendingTable::new();
    table.register(8, 88);
    match reader_step(&mut table, r#"{"request_id":8,"type":"NfcTag","data":"abc"}"#) {
        LineOutcome::Deliver(8, 88, Ok(body)) => {
            assert_eq!(expect_nfc_tag(body).unwrap(), Some("abc".to_string()));
        }
        _ => panic!("expected the tag payload to be delivered to request 8"),
    }
}

#[test]
fn parse_agrees_with_the_schema_crate() {
    // The library's parse and a direct deserialization of the schema type see
    // the same identifier on the same line.
    let line = r#"{"request_id":77,"type":"NfcTag","data":"abc"}"#;
    let direct: Response = serde_json::from_str(line).unwrap();
    let (id, _) = devcaders::codec::parse_response(line).unwrap();
    assert_eq!(direct.request_id, id);
}
