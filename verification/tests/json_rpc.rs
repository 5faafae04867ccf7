use nip_55::json::{JsonNumber, JsonValue};
use nip_55::json_rpc::{
    correlate_reply, parse_error_response, request_ids, JsonRpcDecodeError, JsonRpcError, JsonRpcErrorCode, JsonRpcId,
    JsonRpcRequest, JsonRpcResponse, JsonRpcResponseData, JsonRpcStructuredValue, SingleOrBatch,
};
use nip_55::uds_req_res::UdsResponse;

fn to_serde(v: &JsonValue) -> serde_json::Value {
    match v {
        JsonValue::Null => serde_json::Value::Null,
        JsonValue::Bool(b) => serde_json::Value::Bool(*b),
        JsonValue::Number(JsonNumber::Int(i)) => serde_json::Value::from(*i),
        JsonValue::Number(JsonNumber::UInt(u)) => serde_json::Value::from(*u),
        JsonValue::Number(JsonNumber::Float(s)) => serde_json::from_str(s).unwrap(),
        JsonValue::Str(s) => serde_json::Value::String(s.clone()),
        JsonValue::Array(items) => serde_json::Value::Array(items.iter().map(to_serde).collect()),
        JsonValue::Object(members) => {
            let mut m = serde_json::Map::new();
            for (k, v) in members {
                m.insert(k.clone(), to_serde(v));
            }
            serde_json::Value::Object(m)
        }
    }
}

fn from_serde(v: &serde_json::Value) -> JsonValue {
    match v {
        serde_json::Value::Null => JsonValue::Null,
        serde_json::Value::Bool(b) => JsonValue::Bool(*b),
        serde_json::Value::Number(n) => {
            if let Some(i) = n.as_i64() {
                JsonValue::Number(JsonNumber::Int(i))
            } else if let Some(u) = n.as_u64() {
                JsonValue::Number(JsonNumber::UInt(u))
            } else {
                JsonValue::Number(JsonNumber::Float(n.to_string()))
            }
        }
        serde_json::Value::String(s) => JsonValue::Str(s.clone()),
        serde_json::Value::Array(items) => JsonValue::Array(items.iter().map(from_serde).collect()),
        serde_json::Value::Object(members) => JsonValue::Object(
            members.iter().map(|(k, v)| (k.clone(), from_serde(v))).collect(),
        ),
    }
}

fn parse(text: &str) -> JsonValue {
    from_serde(&serde_json::from_str::<serde_json::Value>(text).unwrap())
}

fn render(v: &JsonValue) -> String {
    serde_json::to_string(&to_serde(v)).unwrap()
}

fn assert_request_json(value: JsonRpcRequest, json_string: &str) {
    assert_eq!(JsonRpcRequest::from_json(&parse(json_string)).unwrap(), value);
    assert_eq!(render(&value.to_json()), json_string);
}

fn assert_response_json(value: JsonRpcResponse, json_string: &str) {
    assert_eq!(JsonRpcResponse::from_json(&parse(json_string)).unwrap(), value);
    assert_eq!(render(&value.to_json()), json_string);
}

fn object(text: &str) -> Vec<(String, JsonValue)> {
    match parse(text) {
        JsonValue::Object(m) => m,
        _ => panic!("not an object"),
    }
}

#[test]
fn serialize_and_deserialize_json_rpc_request() {
    // Test with no parameters and null ID.
    assert_request_json(
        JsonRpcRequest::new("get_public_key".to_string(), None, JsonRpcId::Null),
        "{\"jsonrpc\":\"2.0\",\"method\":\"get_public_key\",\"id\":null}",
    );

    // Test with object parameters.
    assert_request_json(
        JsonRpcRequest::new(
            "get_public_key".to_string(),
            Some(JsonRpcStructuredValue::Object(object("{\"key_type\":\"rsa\"}"))),
            JsonRpcId::Null,
        ),
        "{\"jsonrpc\":\"2.0\",\"method\":\"get_public_key\",\"params\":{\"key_type\":\"rsa\"},\"id\":null}",
    );

    // Test with array parameters.
    assert_request_json(
        JsonRpcRequest::new(
            "fetch_values".to_string(),
            Some(JsonRpcStructuredValue::Array(vec![
                parse("1"),
                parse("\"2\""),
                parse("{\"3\":true}"),
            ])),
            JsonRpcId::Null,
        ),
        "{\"jsonrpc\":\"2.0\",\"method\":\"fetch_values\",\"params\":[1,\"2\",{\"3\":true}],\"id\":null}",
    );

    // Test with number ID.
    assert_request_json(
        JsonRpcRequest::new("get_public_key".to_string(), None, JsonRpcId::Number(1234)),
        "{\"jsonrpc\":\"2.0\",\"method\":\"get_public_key\",\"id\":1234}",
    );

    // Test with string ID.
    assert_request_json(
        JsonRpcRequest::new(
            "get_foo_string".to_string(),
            None,
            JsonRpcId::String("foo".to_string()),
        ),
        "{\"jsonrpc\":\"2.0\",\"method\":\"get_foo_string\",\"id\":\"foo\"}",
    );
}

#[test]
fn serialize_and_deserialize_json_rpc_response() {
    // Test with result and null ID.
    assert_response_json(
        JsonRpcResponse::new(
            JsonRpcResponseData::Success { result: parse("\"foo\"") },
            JsonRpcId::Null,
        ),
        "{\"jsonrpc\":\"2.0\",\"result\":\"foo\",\"id\":null}",
    );

    // Test with error (no data).
    assert_response_json(
        JsonRpcResponse::new(
            JsonRpcResponseData::Error {
                error: JsonRpcError::new(JsonRpcErrorCode::InternalError, "foo".to_string(), None),
            },
            JsonRpcId::Null,
        ),
        "{\"jsonrpc\":\"2.0\",\"error\":{\"code\":-32603,\"message\":\"foo\"},\"id\":null}",
    );

    // Test with error (with data).
    assert_response_json(
        JsonRpcResponse::new(
            JsonRpcResponseData::Error {
                error: JsonRpcError::new(
                    JsonRpcErrorCode::InternalError,
                    "foo".to_string(),
                    Some(parse("\"bar\"")),
                ),
            },
            JsonRpcId::Null,
        ),
        "{\"jsonrpc\":\"2.0\",\"error\":{\"code\":-32603,\"message\":\"foo\",\"data\":\"bar\"},\"id\":null}",
    );
}

#[test]
fn serialize_deserialize_json_rpc_request_batch() {
    // Test with single request.
    let single = SingleOrBatch::Single(JsonRpcRequest::new(
        "get_public_key".to_string(),
        None,
        JsonRpcId::Null,
    ));
    let text = "{\"jsonrpc\":\"2.0\",\"method\":\"get_public_key\",\"id\":null}";
    assert_eq!(SingleOrBatch::<JsonRpcRequest>::from_json(&parse(text)).unwrap(), single);
    assert_eq!(render(&single.to_json()), text);

    // Test with batch request.
    let batch = SingleOrBatch::Batch(vec![
        JsonRpcRequest::new("get_public_key".to_string(), None, JsonRpcId::Null),
        JsonRpcRequest::new(
            "get_foo_string".to_string(),
            None,
            JsonRpcId::String("foo".to_string()),
        ),
    ]);
    let text = "[{\"jsonrpc\":\"2.0\",\"method\":\"get_public_key\",\"id\":null},{\"jsonrpc\":\"2.0\",\"method\":\"get_foo_string\",\"id\":\"foo\"}]";
    assert_eq!(SingleOrBatch::<JsonRpcRequest>::from_json(&parse(text)).unwrap(), batch);
    assert_eq!(render(&batch.to_json()), text);
}

#[test]
fn serialize_deserialize_json_rpc_response_batch() {
    // Test with single response.
    let single = SingleOrBatch::Single(JsonRpcResponse::new(
        JsonRpcResponseData::Success { result: parse("\"foo\"") },
        JsonRpcId::Null,
    ));
    let text = "{\"jsonrpc\":\"2.0\",\"result\":\"foo\",\"id\":null}";
    assert_eq!(SingleOrBatch::<JsonRpcResponse>::from_json(&parse(text)).unwrap(), single);
    assert_eq!(render(&single.to_json()), text);

    // Test with batch response.
    let batch = SingleOrBatch::Batch(vec![
        JsonRpcResponse::new(
            JsonRpcResponseData::Success { result: parse("\"foo\"") },
            JsonRpcId::Null,
        ),
        JsonRpcResponse::new(
            JsonRpcResponseData::Success { result: parse("\"bar\"") },
            JsonRpcId::String("foo".to_string()),
        ),
    ]);
    let text = "[{\"jsonrpc\":\"2.0\",\"result\":\"foo\",\"id\":null},{\"jsonrpc\":\"2.0\",\"result\":\"bar\",\"id\":\"foo\"}]";
    assert_eq!(SingleOrBatch::<JsonRpcResponse>::from_json(&parse(text)).unwrap(), batch);
    assert_eq!(render(&batch.to_json()), text);
}

#[test]
fn serialize_and_deserialize_id() {
    // Test with number ID.
    assert_eq!(JsonRpcId::from_json_value(&parse("1234")).unwrap(), JsonRpcId::Number(1234));
    assert_eq!(render(&JsonRpcId::Number(1234).to_json_value()), "1234");

    // Test with string ID.
    assert_eq!(
        JsonRpcId::from_json_value(&parse("\"foo\"")).unwrap(),
        JsonRpcId::String("foo".to_string())
    );
    assert_eq!(render(&JsonRpcId::String("foo".to_string()).to_json_value()), "\"foo\"");

    // Test with null ID.
    assert_eq!(JsonRpcId::from_json_value(&parse("null")).unwrap(), JsonRpcId::Null);
    assert_eq!(render(&JsonRpcId::Null.to_json_value()), "null");
}

fn assert_error_code(code: JsonRpcErrorCode, text: &str) {
    let number: i32 = serde_json::from_str(text).unwrap();
    assert_eq!(JsonRpcErrorCode::from_code_value(number), code);
    assert_eq!(serde_json::to_string(&code.code_value()).unwrap(), text);
}

#[test]
fn serialize_and_deserialize_error_code() {
    // Test with ParseError.
    assert_error_code(JsonRpcErrorCode::ParseError, "-32700");
    // Test with InvalidRequest.
    assert_error_code(JsonRpcErrorCode::InvalidRequest, "-32600");
    // Test with MethodNotFound.
    assert_error_code(JsonRpcErrorCode::MethodNotFound, "-32601");
    // Test with InvalidParams.
    assert_error_code(JsonRpcErrorCode::InvalidParams, "-32602");
    // Test with InternalError.
    assert_error_code(JsonRpcErrorCode::InternalError, "-32603");
    // Test with Custom.
    assert_error_code(JsonRpcErrorCode::Custom(1234), "1234");
}

#[test]
fn custom_code_reusing_reserved_number_reads_back_as_reserved() {
    let code = JsonRpcErrorCode::Custom(-32700);
    assert_eq!(JsonRpcErrorCode::from_code_value(code.code_value()), JsonRpcErrorCode::ParseError);
}

#[test]
fn id_decoding_edge_cases() {
    assert_eq!(JsonRpcId::from_json_value(&parse("2147483648")), Err(JsonRpcDecodeError::IdOutOfRange));
    assert_eq!(JsonRpcId::from_json_value(&parse("-2147483649")), Err(JsonRpcDecodeError::IdOutOfRange));
    assert_eq!(JsonRpcId::from_json_value(&parse("-2147483648")), Ok(JsonRpcId::Number(i32::MIN)));
    assert_eq!(JsonRpcId::from_json_value(&parse("18446744073709551615")), Err(JsonRpcDecodeError::InvalidId));
    assert_eq!(JsonRpcId::from_json_value(&parse("1.5")), Err(JsonRpcDecodeError::InvalidId));
    assert_eq!(JsonRpcId::from_json_value(&parse("true")), Err(JsonRpcDecodeError::InvalidId));
    assert_eq!(JsonRpcId::from_json_value(&parse("[1]")), Err(JsonRpcDecodeError::InvalidId));
}

#[test]
fn invalid_ids_say_why() {
    let e = JsonRpcId::from_json_value(&parse("{}")).unwrap_err();
    assert_eq!(e, JsonRpcDecodeError::InvalidId);
    assert_eq!(e.message(), "Invalid JSON-RPC ID");
    assert_eq!(
        JsonRpcRequest::from_json(&parse("{\"jsonrpc\":\"2.0\",\"method\":\"m\",\"id\":true}")),
        Err(JsonRpcDecodeError::InvalidId)
    );
    assert_eq!(JsonRpcDecodeError::Malformed.message(), "Malformed JSON-RPC message");
    assert_eq!(JsonRpcDecodeError::IdOutOfRange.message(), "JSON-RPC ID out of the i32 range");
}

#[test]
fn parse_error_response_has_a_null_id() {
    match parse_error_response() {
        SingleOrBatch::Single(response) => {
            assert_eq!(response.id(), &JsonRpcId::Null);
            assert_eq!(
                response.data(),
                &JsonRpcResponseData::Error {
                    error: JsonRpcError::new(JsonRpcErrorCode::ParseError, "Parse error".to_string(), None)
                }
            );
        }
        SingleOrBatch::Batch(_) => panic!("expected a single response"),
    }
    assert_eq!(
        <SingleOrBatch<JsonRpcResponse> as UdsResponse>::request_parse_error_response(),
        parse_error_response()
    );
}

#[test]
fn mapping_twice_keeps_shape_and_composes() {
    let once = SingleOrBatch::Batch(vec![1u32, 2, 3]).map(|x| x + 1);
    let twice = once.map(|x| x * 10);
    assert_eq!(twice, SingleOrBatch::Batch(vec![20u32, 30, 40]));
    assert_eq!(SingleOrBatch::Batch(vec![1u32, 2, 3]).map(|x| (x + 1) * 10), twice);
    assert_eq!(SingleOrBatch::Single(4u32).map(|x| x + 1).map(|x| x * 10), SingleOrBatch::Single(50u32));
}

#[test]
fn request_decoding_errors() {
    // Wrong version.
    assert_eq!(
        JsonRpcRequest::from_json(&parse("{\"jsonrpc\":\"1.0\",\"method\":\"m\",\"id\":1}")),
        Err(JsonRpcDecodeError::Malformed)
    );
    // Missing id.
    assert_eq!(
        JsonRpcRequest::from_json(&parse("{\"jsonrpc\":\"2.0\",\"method\":\"m\"}")),
        Err(JsonRpcDecodeError::Malformed)
    );
    // Params that are neither an object nor an array.
    assert_eq!(
        JsonRpcRequest::from_json(&parse("{\"jsonrpc\":\"2.0\",\"method\":\"m\",\"params\":3,\"id\":1}")),
        Err(JsonRpcDecodeError::Malformed)
    );
    // Null params read as none.
    assert_eq!(
        JsonRpcRequest::from_json(&parse("{\"jsonrpc\":\"2.0\",\"method\":\"m\",\"params\":null,\"id\":1}")),
        Ok(JsonRpcRequest::new("m".to_string(), None, JsonRpcId::Number(1)))
    );
    // An id out of the i32 range.
    assert_eq!(
        JsonRpcRequest::from_json(&parse("{\"jsonrpc\":\"2.0\",\"method\":\"m\",\"id\":4294967296}")),
        Err(JsonRpcDecodeError::IdOutOfRange)
    );
    // Not an object.
    assert_eq!(JsonRpcRequest::from_json(&parse("\"m\"")), Err(JsonRpcDecodeError::Malformed));
    // A batch fails at its first bad element.
    assert_eq!(
        SingleOrBatch::<JsonRpcRequest>::from_json(&parse(
            "[{\"jsonrpc\":\"2.0\",\"method\":\"m\",\"id\":1},{\"jsonrpc\":\"2.0\",\"id\":2}]"
        )),
        Err(JsonRpcDecodeError::Malformed)
    );
    // The empty array is the empty batch.
    assert_eq!(
        SingleOrBatch::<JsonRpcRequest>::from_json(&parse("[]")),
        Ok(SingleOrBatch::Batch(vec![]))
    );
}

#[test]
fn response_decoding_prefers_result_and_reads_null_data_as_none() {
    let both = "{\"jsonrpc\":\"2.0\",\"result\":1,\"error\":{\"code\":1,\"message\":\"x\"},\"id\":null}";
    assert_eq!(
        JsonRpcResponse::from_json(&parse(both)).unwrap(),
        JsonRpcResponse::new(JsonRpcResponseData::Success { result: parse("1") }, JsonRpcId::Null)
    );
    let null_data = "{\"jsonrpc\":\"2.0\",\"error\":{\"code\":5,\"message\":\"x\",\"data\":null},\"id\":7}";
    assert_eq!(
        JsonRpcResponse::from_json(&parse(null_data)).unwrap(),
        JsonRpcResponse::new(
            JsonRpcResponseData::Error {
                error: JsonRpcError::new(JsonRpcErrorCode::Custom(5), "x".to_string(), None)
            },
            JsonRpcId::Number(7)
        )
    );
    let neither = "{\"jsonrpc\":\"2.0\",\"id\":7}";
    assert_eq!(JsonRpcResponse::from_json(&parse(neither)), Err(JsonRpcDecodeError::Malformed));
    let bad_code = "{\"jsonrpc\":\"2.0\",\"error\":{\"code\":4294967296,\"message\":\"x\"},\"id\":7}";
    assert_eq!(JsonRpcResponse::from_json(&parse(bad_code)), Err(JsonRpcDecodeError::Malformed));
}

#[test]
fn json_roundtrip_of_requests_and_responses() {
    let request = JsonRpcRequest::new(
        "sign_event".to_string(),
        Some(JsonRpcStructuredValue::Array(vec![parse("{\"a\":[1,2,{\"b\":null}]}")])),
        JsonRpcId::Number(-5),
    );
    assert_eq!(JsonRpcRequest::from_json(&request.to_json()).unwrap(), request);
    let response = JsonRpcResponse::new(
        JsonRpcResponseData::Error {
            error: JsonRpcError::new(JsonRpcErrorCode::Custom(42), "boom".to_string(), Some(parse("[true]"))),
        },
        JsonRpcId::String("abc".to_string()),
    );
    assert_eq!(JsonRpcResponse::from_json(&response.to_json()).unwrap(), response);
}

#[test]
fn map_keeps_shape_and_order() {
    let single = SingleOrBatch::Single(3).map(|x: i32| x * 2);
    assert_eq!(single, SingleOrBatch::Single(6));
    let batch = SingleOrBatch::Batch(vec![1, 2, 3]).map(|x: i32| x + 10);
    assert_eq!(batch, SingleOrBatch::Batch(vec![11, 12, 13]));
}

#[test]
fn accessors_give_back_what_was_built() {
    let request = JsonRpcRequest::new(
        "ping".to_string(),
        Some(JsonRpcStructuredValue::Object(vec![])),
        JsonRpcId::String("x".to_string()),
    );
    assert_eq!(request.method(), "ping");
    assert_eq!(request.params(), Some(&JsonRpcStructuredValue::Object(vec![])));
    assert_eq!(request.id(), &JsonRpcId::String("x".to_string()));
    assert_eq!(
        JsonRpcStructuredValue::Array(vec![JsonValue::Null]).into_value(),
        JsonValue::Array(vec![JsonValue::Null])
    );
    let error = JsonRpcError::new(JsonRpcErrorCode::InvalidParams, "bad".to_string(), None);
    assert_eq!(error.code(), JsonRpcErrorCode::InvalidParams);
    let response = JsonRpcResponse::new(JsonRpcResponseData::Error { error: error.clone() }, JsonRpcId::Null);
    assert_eq!(response.data(), &JsonRpcResponseData::Error { error });
}

#[test]
fn responses_carry_the_ids_of_their_requests() {
    let request = SingleOrBatch::Batch(vec![
        JsonRpcRequest::new("a".to_string(), None, JsonRpcId::Number(1)),
        JsonRpcRequest::new("b".to_string(), None, JsonRpcId::String("two".to_string())),
        JsonRpcRequest::new("c".to_string(), None, JsonRpcId::Null),
    ]);
    let ids = request_ids(&request);
    let reply = SingleOrBatch::Batch(vec![
        JsonRpcResponseData::Success { result: parse("1") },
        JsonRpcResponseData::Success { result: parse("2") },
    ]);
    let responses = correlate_reply(ids, reply);
    assert_eq!(
        responses,
        SingleOrBatch::Batch(vec![
            JsonRpcResponse::new(JsonRpcResponseData::Success { result: parse("1") }, JsonRpcId::Number(1)),
            JsonRpcResponse::new(
                JsonRpcResponseData::Success { result: parse("2") },
                JsonRpcId::String("two".to_string())
            ),
        ])
    );
    let single = SingleOrBatch::Single(JsonRpcRequest::new("a".to_string(), None, JsonRpcId::Number(9)));
    let responses = correlate_reply(
        request_ids(&single),
        SingleOrBatch::Single(JsonRpcResponseData::Success { result: JsonValue::Null }),
    );
    assert_eq!(
        responses,
        SingleOrBatch::Single(JsonRpcResponse::new(
            JsonRpcResponseData::Success { result: JsonValue::Null },
            JsonRpcId::Number(9)
        ))
    );
}

#[test]
fn json_member_lookup_takes_the_first_match() {
    let v = JsonValue::Object(vec![
        ("a".to_string(), JsonValue::Bool(true)),
        ("a".to_string(), JsonValue::Bool(false)),
    ]);
    assert_eq!(v.get(&"a".to_string()), Some(&JsonValue::Bool(true)));
    assert_eq!(v.get(&"b".to_string()), None);
    assert_eq!(JsonValue::Null.get(&"a".to_string()), None);
    assert_eq!(v.duplicate(), v);
}
