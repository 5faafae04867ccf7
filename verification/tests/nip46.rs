use nip_55::json_rpc::{JsonRpcError, JsonRpcErrorCode, JsonRpcId, JsonRpcResponse, JsonRpcResponseData, SingleOrBatch};
use nip_55::json::JsonValue;
use nip_55::nip46::{
    plan_batch, response_error, response_result, sign_event_result,
    Nip46Message, Nip46OverNip55ClientError, Nip46OverNip55Server, Nip46Request, Nip46RequestApproval,
    Nip46RequestApprover, Nip46Response, Nip46Step, StaticRequestApprover,
};
use nip_55::nip_46;
use nip_55::uds::UdsClientError;

fn error_reply(step: &Nip46Step<&str>) -> (JsonRpcErrorCode, JsonRpcResponseData) {
    match step {
        Nip46Step::Reply(data @ JsonRpcResponseData::Error { error }) => (error.code(), data.clone()),
        _ => panic!("expected an error reply"),
    }
}

fn error_data(code: JsonRpcErrorCode, message: &str) -> JsonRpcResponseData {
    JsonRpcResponseData::Error { error: JsonRpcError::new(code, message.to_string(), None) }
}

#[test]
fn static_approvers_answer_every_batch_alike() {
    let approve = StaticRequestApprover::always_approve();
    let reject = StaticRequestApprover::always_reject();
    assert_eq!(approve.handle_batch_request(vec![1, 2]), Nip46RequestApproval::Approve);
    assert_eq!(approve.handle_batch_request(Vec::<u8>::new()), Nip46RequestApproval::Approve);
    assert_eq!(reject.handle_batch_request(vec!["x"]), Nip46RequestApproval::Reject);
}

#[test]
fn approved_batch_signs_events_and_refuses_the_rest() {
    let steps = plan_batch(
        vec![
            Some(Nip46Request::SignEvent("event-a")),
            None,
            Some(Nip46Request::Other),
            Some(Nip46Request::SignEvent("event-b")),
        ],
        Nip46RequestApproval::Approve,
    );
    assert_eq!(steps.len(), 4);
    assert!(matches!(steps[0], Nip46Step::Sign("event-a")));
    assert_eq!(
        error_reply(&steps[1]),
        (
            JsonRpcErrorCode::InvalidRequest,
            error_data(JsonRpcErrorCode::InvalidRequest, "Request is not a valid NIP-46 request")
        )
    );
    assert_eq!(
        error_reply(&steps[2]),
        (JsonRpcErrorCode::MethodNotFound, error_data(JsonRpcErrorCode::MethodNotFound, "Method not implemented"))
    );
    assert!(matches!(steps[3], Nip46Step::Sign("event-b")));
}

#[test]
fn rejected_batch_refuses_valid_requests_and_still_flags_invalid_ones() {
    let steps = plan_batch(
        vec![Some(Nip46Request::SignEvent("event-a")), None],
        Nip46RequestApproval::Reject,
    );
    assert_eq!(
        error_reply(&steps[0]).1,
        error_data(JsonRpcErrorCode::InternalError, "Batch request rejected")
    );
    assert_eq!(
        error_reply(&steps[1]).1,
        error_data(JsonRpcErrorCode::InvalidRequest, "Request is not a valid NIP-46 request")
    );
}

#[test]
fn client_reads_the_outcome_of_signing() {
    let error = JsonRpcError::new(JsonRpcErrorCode::InternalError, "Batch request rejected".to_string(), None);
    match response_error(&JsonRpcResponseData::Error { error: error.clone() }) {
        Some(Nip46OverNip55ClientError::JsonRpcError(e)) => assert_eq!(e, error),
        _ => panic!("expected the error of the response"),
    }
    assert!(response_error(&JsonRpcResponseData::Success { result: JsonValue::Null }).is_none());
    assert_eq!(sign_event_result(Some(Nip46Response::SignEvent(5))).unwrap(), 5);
    assert!(matches!(
        sign_event_result::<i32>(Some(Nip46Response::Other)),
        Err(Nip46OverNip55ClientError::UdsClientError(UdsClientError::MalformedResponse))
    ));
    assert!(matches!(
        sign_event_result::<i32>(None),
        Err(Nip46OverNip55ClientError::UdsClientError(UdsClientError::MalformedResponse))
    ));
    assert_eq!(response_result(Nip46Message::Response { result: Some(1), error: None }), Some(1));
    assert_eq!(response_result::<i32>(Nip46Message::Response { result: None, error: Some("e".to_string()) }), None);
    assert_eq!(response_result(Nip46Message::Response { result: Some(1), error: Some("e".to_string()) }), None);
    assert_eq!(response_result::<i32>(Nip46Message::Request), None);
}

#[test]
fn server_stop_hands_back_the_underlying_server() {
    let server = Nip46OverNip55Server::start(String::from("handle"));
    assert_eq!(server.stop(), "handle");
}

#[test]
fn stream_replies_follow_the_approval() {
    let steps = nip_46::plan_stream_reply(
        vec![Some(Nip46Request::SignEvent("e")), Some(Nip46Request::Other)],
        nip_46::Nip46RequestApproval::Approve,
    );
    assert!(matches!(steps[0], Nip46Step::Sign("e")));
    assert_eq!(
        error_reply(&steps[1]).1,
        error_data(JsonRpcErrorCode::MethodNotFound, "Method not implemented")
    );
    let steps = nip_46::plan_stream_reply(
        vec![Some(Nip46Request::SignEvent("e")), None],
        nip_46::Nip46RequestApproval::Reject,
    );
    for step in &steps {
        assert_eq!(error_reply(step).1, error_data(JsonRpcErrorCode::InternalError, "Batch request rejected"));
    }
    assert_eq!(nip_46::requests_for_approval(vec![Some(1), None, Some(3)]), vec![1, 3]);
}

#[test]
fn stream_client_wants_a_single_response() {
    let response = JsonRpcResponse::new(JsonRpcResponseData::Success { result: JsonValue::Null }, JsonRpcId::Null);
    assert_eq!(nip_46::single_response(SingleOrBatch::Single(response.clone())).unwrap(), response);
    assert!(matches!(
        nip_46::single_response(SingleOrBatch::Batch(vec![response])),
        Err(nip_46::Nip46OverNip55ClientError::UdsClientError(UdsClientError::MalformedResponse))
    ));
}

fn hex_bytes(s: &str) -> Vec<u8> {
    (0..s.len()).step_by(2).map(|i| u8::from_str_radix(&s[i..i + 2], 16).unwrap()).collect()
}

#[test]
fn batch_for_approval_carries_the_users_public_key() {
    let mut secret = [0u8; 32];
    secret[31] = 1;
    let (requests, public_key) =
        nip_46::handle_request_array((vec![Some("sign"), None, Some("ping")], secret));
    assert_eq!(requests, vec!["sign", "ping"]);
    let expected = hex_bytes("79BE667EF9DCBBAC55A06295CE870B07029BFCDB2DCE28D959F2815B16F81798");
    assert_eq!(public_key.map(|k| k.to_vec()), Some(expected));
}

#[test]
fn batch_for_approval_with_an_invalid_secret_key_has_no_public_key() {
    let (requests, public_key) = nip_46::handle_request_array((vec![None, Some(7u8)], [0u8; 32]));
    assert_eq!(requests, vec![7u8]);
    assert_eq!(public_key, None);
}

#[test]
fn approval_requests_pair_each_request_with_its_users_key() {
    let mut secret = [0u8; 32];
    secret[31] = 1;
    let shown = nip_55::nip46::approval_requests(vec![Some(("a", secret)), None, Some(("b", [0u8; 32]))]);
    assert_eq!(shown.len(), 2);
    assert_eq!(shown[0].0, "a");
    assert_eq!(
        shown[0].1.map(|k| k.to_vec()),
        Some(hex_bytes("79BE667EF9DCBBAC55A06295CE870B07029BFCDB2DCE28D959F2815B16F81798"))
    );
    assert_eq!(shown[1], ("b", None));
}
