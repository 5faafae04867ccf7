use nip_55::json::{JsonNumber, JsonValue};
use nip_55::json_rpc::{JsonRpcId, JsonRpcRequest, SingleOrBatch};
use nip_55::relay_transport::client::{first_decoded, keep_waiting};
use nip_55::relay_transport::server::accepts_notification;
use nip_55::server::{on_decryption, on_key_lookup, on_request_event, Nip55Admission};
use nip_55::uds::UdsClientError as PlainUdsClientError;
use nip_55::uds_req_res::framing::{encode_line, LineReader};
use nip_55::uds_req_res::pipelined_client::{
    request_correlation_id, response_correlation_id, PendingRequests, PipelinedUdsClientError,
};
use nip_55::uds_req_res::pipelined_server::{
    keep_serving_after_forward, on_connection_event, ConnectionAction, ConnectionEvent,
};
use nip_55::UdsClientError;

#[test]
fn frames_read_back_line_by_line() {
    let mut reader = LineReader::new();
    let mut wire = encode_line(b"{\"id\":1}");
    wire.extend(encode_line(b"{\"id\":2}"));
    wire.extend(b"{\"id\"");
    reader.feed(&wire[..5]);
    assert_eq!(reader.next_line(), None);
    reader.feed(&wire[5..]);
    assert_eq!(reader.next_line(), Some(b"{\"id\":1}\n".to_vec()));
    assert_eq!(reader.next_line(), Some(b"{\"id\":2}\n".to_vec()));
    assert_eq!(reader.next_line(), None);
    assert_eq!(reader.finish(), Some(b"{\"id\"".to_vec()));
    assert_eq!(reader.finish(), None);
}

#[test]
fn encode_line_appends_a_newline() {
    assert_eq!(encode_line(b""), b"\n".to_vec());
    assert_eq!(encode_line(b"ab"), b"ab\n".to_vec());
}

#[test]
fn pending_requests_deliver_by_id() {
    let mut pending: PendingRequests<&str> = PendingRequests::new();
    assert_eq!(pending.register(JsonRpcId::String("test-1".to_string()), "first"), None);
    assert_eq!(pending.register(JsonRpcId::Number(2), "second"), None);
    assert_eq!(pending.register(JsonRpcId::Null, "third"), None);
    // A second waiter for the same id replaces the first one.
    assert_eq!(pending.register(JsonRpcId::Number(2), "again"), Some("second"));
    assert_eq!(pending.complete(&JsonRpcId::Number(2)), Some("again"));
    assert_eq!(pending.complete(&JsonRpcId::Number(2)), None);
    assert_eq!(pending.complete(&JsonRpcId::String("unknown".to_string())), None);
    assert_eq!(pending.complete(&JsonRpcId::String("test-1".to_string())), Some("first"));
    assert_eq!(pending.complete(&JsonRpcId::Null), Some("third"));
}

#[test]
fn correlation_ids_of_requests_and_responses() {
    let request = SingleOrBatch::Single(JsonRpcRequest::new(
        "ping".to_string(),
        None,
        JsonRpcId::String("test-1".to_string()),
    ));
    assert_eq!(
        request_correlation_id(&request.to_json()),
        Ok(JsonRpcId::String("test-1".to_string()))
    );
    let batch = SingleOrBatch::Batch(vec![JsonRpcRequest::new("ping".to_string(), None, JsonRpcId::Number(1))]);
    assert_eq!(request_correlation_id(&batch.to_json()), Err(PipelinedUdsClientError::MissingRequestId));
    let response = JsonValue::Object(vec![
        ("result".to_string(), JsonValue::Str("pong".to_string())),
        ("id".to_string(), JsonValue::Number(JsonNumber::Int(7))),
    ]);
    assert_eq!(response_correlation_id(&response), Some(JsonRpcId::Number(7)));
    let bool_id = JsonValue::Object(vec![("id".to_string(), JsonValue::Bool(true))]);
    assert_eq!(response_correlation_id(&bool_id), None);
    assert_eq!(request_correlation_id(&bool_id), Err(PipelinedUdsClientError::MissingRequestId));
}

#[test]
fn connection_events_decide_what_the_server_does() {
    assert!(matches!(on_connection_event(ConnectionEvent::Request(5)), ConnectionAction::Forward(5)));
    assert!(matches!(on_connection_event::<i32>(ConnectionEvent::Unparsable), ConnectionAction::RespondParseError));
    assert!(matches!(on_connection_event::<i32>(ConnectionEvent::EndOfInput), ConnectionAction::Close));
    assert!(matches!(on_connection_event::<i32>(ConnectionEvent::ReadFailed), ConnectionAction::Close));
    assert!(keep_serving_after_forward(true));
    assert!(!keep_serving_after_forward(false));
}

#[test]
fn error_messages() {
    assert_eq!(
        PipelinedUdsClientError::MissingRequestId.message(),
        "Request missing ID field required for pipelining."
    );
    assert_eq!(
        PipelinedUdsClientError::MalformedResponse("eof".to_string()).message(),
        "Received a response from the server that cannot be parsed (eof)."
    );
    assert_eq!(PipelinedUdsClientError::ServerNotRunning.message(), "Unix domain socket server not running.");
    assert_eq!(UdsClientError::UdsSocketError.message(), "Error writing to or reading from Unix domain socket.");
    assert_eq!(
        UdsClientError::MalformedResponse("bad".to_string()).message(),
        "Received a response from the server that that cannot be parsed (bad)."
    );
    assert_eq!(PlainUdsClientError::RequestSerializationError.message(), "Error serializing the request.");
    assert_eq!(
        PlainUdsClientError::MalformedResponse.message(),
        "Received a response from the server that that cannot be parsed."
    );
}

#[test]
fn relay_client_takes_the_first_decoded_event_until_the_timeout() {
    assert_eq!(first_decoded(vec![None, Some(2), Some(3)]), Some(2));
    assert_eq!(first_decoded::<i32>(vec![None, None]), None);
    assert_eq!(first_decoded::<i32>(vec![]), None);
    assert!(keep_waiting(9_999, 10_000));
    assert!(!keep_waiting(10_000, 10_000));
}

#[test]
fn relay_server_serves_its_own_subscription_only() {
    assert!(accepts_notification(&"sub".to_string(), &"sub".to_string()));
    assert!(!accepts_notification(&"other".to_string(), &"sub".to_string()));
}

#[test]
fn nip55_admission_steps() {
    assert!(matches!(on_request_event::<u8, u16, u32>(None), Nip55Admission::Skip));
    assert!(matches!(on_request_event::<u8, u16, u32>(Some(1)), Nip55Admission::LookUpKey(1)));
    assert!(matches!(on_key_lookup::<u8, u16, u32>(None), Nip55Admission::Skip));
    assert!(matches!(on_key_lookup::<u8, u16, u32>(Some(2)), Nip55Admission::Decrypt(2)));
    assert!(matches!(on_decryption::<u8, u16, u32>(2, None), Nip55Admission::Skip));
    assert!(matches!(on_decryption::<u8, u16, u32>(2, Some(3)), Nip55Admission::Deliver(3, 2)));
}
