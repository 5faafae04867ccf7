use nip_55::json::JsonValue;
use nip_55::json_rpc::{
    JsonRpcError, JsonRpcErrorCode, JsonRpcId, JsonRpcRequest, JsonRpcResponse,
    JsonRpcResponseData, JsonRpcStructuredValue, SingleOrBatch,
};
use nip_55::nip46::{self, Nip46Response};
use nip_55::nip_46::{self, Nip46OverNip55ClientError, Nip46RequestApproval};
use nip_55::nostr_connect::{parse_signed_event, read_nip46_request, sign_event_request};
use nip_55::uds::UdsClientError;
use nostr_sdk::{EventBuilder, Keys, Kind, SecretKey};

fn user_keys() -> Keys {
    let mut secret = [0u8; 32];
    secret[31] = 7;
    Keys::new(SecretKey::from_slice(&secret).unwrap())
}

fn request(method: &str, params: Vec<&str>, id: JsonRpcId) -> JsonRpcRequest {
    JsonRpcRequest::new(
        method.to_string(),
        Some(JsonRpcStructuredValue::Array(
            params.into_iter().map(|p| JsonValue::Str(p.to_string())).collect(),
        )),
        id,
    )
}

fn sign_request(keys: &Keys, content: &str) -> JsonRpcRequest {
    sign_event_request(EventBuilder::new(Kind::TextNote, content).build(keys.public_key()))
}

#[test]
fn a_request_to_sign_reads_as_one() {
    let keys = user_keys();
    let req = sign_request(&keys, "hello");
    assert_eq!(req.method(), "sign_event");
    let id = match req.id() {
        JsonRpcId::String(s) => s.clone(),
        other => panic!("unexpected id {other:?}"),
    };
    let read = read_nip46_request(&req).expect("a NIP-46 request");
    assert!(read.signs);
    assert_eq!(read.id, id);
    assert_eq!(read.params.len(), 1);
}

#[test]
fn other_methods_and_non_requests_read_apart() {
    let ping = request("ping", vec![], JsonRpcId::String("7".to_string()));
    assert!(matches!(read_nip46_request(&ping), Some(q) if !q.signs && q.id == "7"));
    let unknown = request("frobnicate", vec![], JsonRpcId::String("7".to_string()));
    assert!(read_nip46_request(&unknown).is_none());
    let numeric_id = request("ping", vec![], JsonRpcId::Number(7));
    assert!(read_nip46_request(&numeric_id).is_none());
    let bad_event = request("sign_event", vec!["not an event"], JsonRpcId::String("1".to_string()));
    assert!(read_nip46_request(&bad_event).is_none());
}

#[test]
fn approved_stream_batch_signs_with_the_users_key() {
    let keys = user_keys();
    let secret = keys.secret_key().to_secret_bytes();
    let parsed = nip_46::read_nip46_requests(&vec![
        sign_request(&keys, "hello"),
        request("ping", vec![], JsonRpcId::String("2".to_string())),
    ]);
    let (for_approval, public_key) = nip_46::stream_batch_for_approval(&parsed, secret);
    assert_eq!(for_approval.len(), 2);
    assert_eq!(public_key, Some(keys.public_key().to_bytes()));
    let replies = nip_46::answer_stream_batch(parsed, Nip46RequestApproval::Approve, secret).unwrap();
    assert_eq!(replies.len(), 2);
    let event_json = match &replies[0] {
        JsonRpcResponseData::Success { result: JsonValue::Str(s) } => s.clone(),
        other => panic!("unexpected reply {other:?}"),
    };
    match parse_signed_event(&event_json) {
        Some(Nip46Response::SignEvent(event)) => {
            assert_eq!(event.pubkey, keys.public_key());
            assert_eq!(event.content, "hello");
            assert!(event.verify().is_ok());
        }
        _ => panic!("expected a signed event"),
    }
    assert_eq!(
        replies[1],
        JsonRpcResponseData::Error {
            error: JsonRpcError::new(JsonRpcErrorCode::MethodNotFound, "Method not implemented".to_string(), None)
        }
    );
}

#[test]
fn signing_with_another_key_gives_an_event_that_does_not_verify() {
    let keys = user_keys();
    let mut other = [0u8; 32];
    other[31] = 9;
    let parsed = nip_46::read_nip46_requests(&vec![sign_request(&keys, "hello")]);
    let replies = nip_46::answer_stream_batch(parsed, Nip46RequestApproval::Approve, other).unwrap();
    let event_json = match &replies[0] {
        JsonRpcResponseData::Success { result: JsonValue::Str(s) } => s.clone(),
        other => panic!("unexpected reply {other:?}"),
    };
    match parse_signed_event(&event_json) {
        Some(Nip46Response::SignEvent(event)) => {
            assert_eq!(event.pubkey, keys.public_key());
            assert!(event.verify().is_err());
        }
        _ => panic!("expected an event"),
    }
}

#[test]
fn rejected_stream_batch_refuses_everything() {
    let keys = user_keys();
    let secret = keys.secret_key().to_secret_bytes();
    let parsed = nip_46::read_nip46_requests(&vec![
        sign_request(&keys, "hello"),
        request("frobnicate", vec![], JsonRpcId::Null),
    ]);
    let replies = nip_46::answer_stream_batch(parsed, Nip46RequestApproval::Reject, secret).unwrap();
    let rejected = JsonRpcResponseData::Error {
        error: JsonRpcError::new(JsonRpcErrorCode::InternalError, "Batch request rejected".to_string(), None),
    };
    assert_eq!(replies, vec![rejected.clone(), rejected]);
}

#[test]
fn handler_batch_flags_invalid_requests_and_shows_the_rest() {
    let keys = user_keys();
    let secret = keys.secret_key().to_secret_bytes();
    let parsed = nip46::read_nip46_batch(&vec![
        (sign_request(&keys, "hello"), secret),
        (request("frobnicate", vec![], JsonRpcId::Null), secret),
    ]);
    let shown = nip46::nip46_approval_list(&parsed);
    assert_eq!(shown.len(), 1);
    assert_eq!(shown[0].1, Some(keys.public_key().to_bytes()));
    let replies = nip46::answer_nip46_batch(parsed, nip46::Nip46RequestApproval::Approve).unwrap();
    assert!(matches!(&replies[0], JsonRpcResponseData::Success { result: JsonValue::Str(_) }));
    assert_eq!(
        replies[1],
        JsonRpcResponseData::Error {
            error: JsonRpcError::new(
                JsonRpcErrorCode::InvalidRequest,
                "Request is not a valid NIP-46 request".to_string(),
                None
            )
        }
    );
}

#[test]
fn client_reads_the_signed_event_from_the_response() {
    let keys = user_keys();
    let event = EventBuilder::new(Kind::TextNote, "hi").sign_with_keys(&keys).unwrap();
    let json = nostr_sdk::JsonUtil::as_json(&event);
    let ok = JsonRpcResponse::new(
        JsonRpcResponseData::Success { result: JsonValue::Str(json.clone()) },
        JsonRpcId::String("1".to_string()),
    );
    assert_eq!(nip_46::sign_event_outcome(SingleOrBatch::Single(ok.clone())).unwrap(), event);
    assert_eq!(nip46::sign_event_outcome(ok).unwrap(), event);

    let error = JsonRpcError::new(JsonRpcErrorCode::InternalError, "Batch request rejected".to_string(), None);
    let refused = JsonRpcResponse::new(
        JsonRpcResponseData::Error { error: error.clone() },
        JsonRpcId::String("1".to_string()),
    );
    assert!(matches!(
        nip_46::sign_event_outcome(SingleOrBatch::Single(refused)),
        Err(nip_46::Nip46OverNip55ClientError::JsonRpcError(e)) if e == error
    ));

    let auth = JsonRpcResponse::new(
        JsonRpcResponseData::Success { result: JsonValue::Str("auth_url".to_string()) },
        JsonRpcId::String("1".to_string()),
    );
    assert!(matches!(
        nip_46::sign_event_outcome(SingleOrBatch::Single(auth)),
        Err(Nip46OverNip55ClientError::UdsClientError(UdsClientError::MalformedResponse))
    ));
    let numeric = JsonRpcResponse::new(
        JsonRpcResponseData::Success { result: JsonValue::Str(json) },
        JsonRpcId::Number(1),
    );
    assert!(matches!(
        nip_46::sign_event_outcome(SingleOrBatch::Single(numeric)),
        Err(Nip46OverNip55ClientError::UdsClientError(UdsClientError::MalformedResponse))
    ));
    assert!(matches!(
        nip_46::sign_event_outcome(SingleOrBatch::Batch(vec![])),
        Err(Nip46OverNip55ClientError::UdsClientError(UdsClientError::MalformedResponse))
    ));
}

#[test]
fn signing_fails_without_a_secret_key_or_with_a_conflicting_id() {
    let keys = user_keys();
    let parsed = nip_46::read_nip46_requests(&vec![sign_request(&keys, "hello")]);
    assert!(nip_46::answer_stream_batch(parsed, Nip46RequestApproval::Approve, [0u8; 32]).is_none());

    let unsigned = EventBuilder::new(Kind::TextNote, "hello").build(keys.public_key());
    let mut value: serde_json::Value = serde_json::from_str(&nostr_sdk::JsonUtil::as_json(&unsigned)).unwrap();
    value["id"] = serde_json::Value::String("00".repeat(32));
    let conflicting = request("sign_event", vec![&value.to_string()], JsonRpcId::String("1".to_string()));
    let parsed = nip_46::read_nip46_requests(&vec![conflicting]);
    assert!(parsed[0].as_ref().unwrap().signs);
    let secret = keys.secret_key().to_secret_bytes();
    assert!(nip_46::answer_stream_batch(parsed, Nip46RequestApproval::Approve, secret).is_none());
}

#[test]
fn a_sign_request_round_trips_to_the_signed_event() {
    let keys = user_keys();
    let secret = keys.secret_key().to_secret_bytes();
    let unsigned = EventBuilder::new(Kind::TextNote, "example text").build(keys.public_key());
    let request = SingleOrBatch::Single(sign_event_request(unsigned));
    let items = match &request {
        SingleOrBatch::Single(r) => vec![r.clone()],
        SingleOrBatch::Batch(rs) => rs.clone(),
    };
    let parsed = nip_46::read_nip46_requests(&items);
    let mut replies = nip_46::answer_stream_batch(parsed, Nip46RequestApproval::Approve, secret).unwrap();
    let response = nip_55::json_rpc::correlate_reply(
        nip_55::json_rpc::request_ids(&request),
        SingleOrBatch::Single(replies.remove(0)),
    );
    let event = nip_46::sign_event_outcome(response).unwrap();
    assert!(event.verify().is_ok());
    assert_eq!(event.kind, Kind::TextNote);
    assert_eq!(event.content, "example text");
    assert_eq!(event.pubkey, keys.public_key());
}

#[test]
fn request_messages_carry_id_method_and_params() {
    let r = nip_55::nostr_connect::nip46_request_message(
        "9".to_string(),
        "ping".to_string(),
        vec!["a".to_string(), "b".to_string()],
    );
    assert_eq!(r, request("ping", vec!["a", "b"], JsonRpcId::String("9".to_string())));
}

#[test]
fn nip04_events_carry_their_text_to_the_recipient() {
    let sender = user_keys();
    let mut r = [0u8; 32];
    r[31] = 11;
    let recipient = Keys::new(SecretKey::from_slice(&r).unwrap());
    let event = nip_55::nip04::nip04_encrypted_event(
        24133,
        "{\"hello\":1}",
        &sender.secret_key().to_secret_bytes(),
        &recipient.public_key().to_bytes(),
    )
    .unwrap();
    assert_eq!(event.kind, Kind::from(24133u16));
    assert_ne!(event.content, "{\"hello\":1}");
    assert_eq!(
        nip_55::nip04::nip04_event_text(&event, &r),
        Some("{\"hello\":1}".to_string())
    );
    assert_eq!(
        nip_55::nip04::nip04_text(&sender.public_key().to_bytes(), &event.content, &r),
        Some("{\"hello\":1}".to_string())
    );
    assert!(nip_55::nip04::nip04_encrypted_event(1, "x", &[0u8; 32], &recipient.public_key().to_bytes()).is_none());
    assert_eq!(nip_55::nip04::nip04_event_text(&event, &[0u8; 32]), None);
}
