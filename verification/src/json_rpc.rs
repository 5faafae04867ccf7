//! JSON-RPC 2.0 messages, their JSON encoding, and the correlation of responses with requests.
use vstd::prelude::*;

use crate::json::{
    duplicate_items, duplicate_members, field, member_value, text, Json, JsonNumber, JsonValue,
    NumberModel,
};

verus! {

broadcast use vstd::std_specs::vec::group_vec_axioms;

/// A transport that hands a JSON-RPC server requests, each carried in a value of type
/// `SingleOrBatchRequest` from which the single request or the batch can be read.
pub trait JsonRpcServerTransport<SingleOrBatchRequest> {}

/// Either one item or a batch of items, as JSON-RPC allows for requests and responses.
#[derive(Debug, Clone, PartialEq)]
pub enum SingleOrBatch<T> {
    Single(T),
    Batch(Vec<T>),
}

/// What `map` may assume of `map_fn`: it accepts every item.
pub open spec fn map_fn_accepts<T, TOut, F: Fn(T) -> TOut>(items: SingleOrBatch<T>, map_fn: F) -> bool {
    match items {
        SingleOrBatch::Single(x) => call_requires(map_fn, (x,)),
        SingleOrBatch::Batch(xs) => forall|i: int| 0 <= i < xs.len() ==> call_requires(map_fn, (#[trigger] xs[i],)),
    }
}

/// `out` holds, in the same shape and order, what `map_fn` made of each item of `items`.
pub open spec fn mapped_by<T, TOut, F: Fn(T) -> TOut>(
    items: SingleOrBatch<T>,
    map_fn: F,
    out: SingleOrBatch<TOut>,
) -> bool {
    match (items, out) {
        (SingleOrBatch::Single(x), SingleOrBatch::Single(y)) => call_ensures(map_fn, (x,), y),
        (SingleOrBatch::Batch(xs), SingleOrBatch::Batch(ys)) => {
            &&& ys.len() == xs.len()
            &&& forall|i: int| 0 <= i < xs.len() ==> call_ensures(map_fn, (xs[i],), #[trigger] ys[i])
        },
        _ => false,
    }
}

impl<T> SingleOrBatch<T> {
    /// Applies `map_fn` to each item, keeping the shape (single or batch) and the order.
    pub fn map<TOut, MapFn: Fn(T) -> TOut>(self, map_fn: MapFn) -> (r: SingleOrBatch<TOut>)
        requires
            map_fn_accepts(self, map_fn),
        ensures
            mapped_by(self, map_fn, r),
    {
        match self {
            SingleOrBatch::Single(request) => SingleOrBatch::Single(map_fn(request)),
            SingleOrBatch::Batch(requests) => {
                let ghost xs = requests@;
                let mut rest = requests;
                let mut out: Vec<TOut> = Vec::new();
                let mut i: usize = 0;
                while rest.len() > 0
                    invariant
                        forall|j: int| 0 <= j < xs.len() ==> call_requires(map_fn, (#[trigger] xs[j],)),
                        i + rest.len() == xs.len(),
                        xs.len() <= usize::MAX,
                        rest@ == xs.subrange(i as int, xs.len() as int),
                        out.len() == i,
                        forall|j: int| 0 <= j < i ==> call_ensures(map_fn, (xs[j],), #[trigger] out@[j]),
                    decreases rest.len(),
                {
                    let x = rest.remove(0);
                    assert(x == xs[i as int]);
                    let y = map_fn(x);
                    out.push(y);
                    i = i + 1;
                    assert(rest@ =~= xs.subrange(i as int, xs.len() as int));
                }
                SingleOrBatch::Batch(out)
            },
        }
    }
}

/// `z` is what `g` makes of something that `f` makes of `x`.
pub open spec fn composed_by<T, U, V, F: Fn(T) -> U, G: Fn(U) -> V>(f: F, g: G, x: T, z: V) -> bool {
    exists|y: U| #[trigger] call_ensures(f, (x,), y) && call_ensures(g, (y,), z)
}

/// `out` holds, in the same shape and order, what mapping with `g` after `f` makes of each
/// item of `items`.
pub open spec fn mapped_by_composition<T, U, V, F: Fn(T) -> U, G: Fn(U) -> V>(
    items: SingleOrBatch<T>,
    f: F,
    g: G,
    out: SingleOrBatch<V>,
) -> bool {
    match (items, out) {
        (SingleOrBatch::Single(x), SingleOrBatch::Single(z)) => composed_by(f, g, x, z),
        (SingleOrBatch::Batch(xs), SingleOrBatch::Batch(zs)) => {
            &&& zs.len() == xs.len()
            &&& forall|i: int| 0 <= i < xs.len() ==> #[trigger] composed_by(f, g, xs[i], zs[i])
        },
        _ => false,
    }
}

/// Mapping with `f` and then with `g` is mapping with `g` after `f`: the shape (single or
/// batch) and the number of items are kept, and each item of the result is what `g` makes
/// of what `f` made of the item in the same place.
pub proof fn lemma_map_twice<T, U, V, F: Fn(T) -> U, G: Fn(U) -> V>(
    items: SingleOrBatch<T>,
    f: F,
    g: G,
    mid: SingleOrBatch<U>,
    out: SingleOrBatch<V>,
)
    requires
        mapped_by(items, f, mid),
        mapped_by(mid, g, out),
    ensures
        mapped_by_composition(items, f, g, out),
{
    match (items, mid, out) {
        (SingleOrBatch::Single(x), SingleOrBatch::Single(y), SingleOrBatch::Single(z)) => {
            assert(call_ensures(f, (x,), y) && call_ensures(g, (y,), z));
        },
        (SingleOrBatch::Batch(xs), SingleOrBatch::Batch(ys), SingleOrBatch::Batch(zs)) => {
            assert forall|i: int| 0 <= i < xs.len() implies #[trigger] composed_by(f, g, xs[i], zs[i]) by {
                assert(call_ensures(f, (xs[i],), ys[i]) && call_ensures(g, (ys[i],), zs[i]));
            }
        },
        _ => {},
    }
}


/// Why a JSON value is not the JSON-RPC message that was asked for.
#[derive(Debug, Clone, Copy, PartialEq, Eq, Structural)]
pub enum JsonRpcDecodeError {
    /// The value does not have the shape of the message.
    Malformed,
    /// An integer request id lies within `i64` but outside `i32`.
    IdOutOfRange,
    /// A request id is not a string, `null` or an integer within `i64`.
    InvalidId,
}

impl JsonRpcDecodeError {
    /// The text that says why the value was refused.
    pub fn message(&self) -> (r: String)
        ensures
            r@ == match self {
                JsonRpcDecodeError::Malformed => "Malformed JSON-RPC message"@,
                JsonRpcDecodeError::IdOutOfRange => "JSON-RPC ID out of the i32 range"@,
                JsonRpcDecodeError::InvalidId => "Invalid JSON-RPC ID"@,
            },
    {
        match self {
            JsonRpcDecodeError::Malformed => text("Malformed JSON-RPC message"),
            JsonRpcDecodeError::IdOutOfRange => text("JSON-RPC ID out of the i32 range"),
            JsonRpcDecodeError::InvalidId => text("Invalid JSON-RPC ID"),
        }
    }
}

// ---------------------------------------------------------------------------
// Member names and the protocol version
// ---------------------------------------------------------------------------

pub open spec fn key_jsonrpc() -> Seq<char> {
    seq!['j', 's', 'o', 'n', 'r', 'p', 'c']
}

pub open spec fn key_method() -> Seq<char> {
    seq!['m', 'e', 't', 'h', 'o', 'd']
}

pub open spec fn key_params() -> Seq<char> {
    seq!['p', 'a', 'r', 'a', 'm', 's']
}

pub open spec fn key_id() -> Seq<char> {
    seq!['i', 'd']
}

pub open spec fn key_result() -> Seq<char> {
    seq!['r', 'e', 's', 'u', 'l', 't']
}

pub open spec fn key_error() -> Seq<char> {
    seq!['e', 'r', 'r', 'o', 'r']
}

pub open spec fn key_code() -> Seq<char> {
    seq!['c', 'o', 'd', 'e']
}

pub open spec fn key_message() -> Seq<char> {
    seq!['m', 'e', 's', 's', 'a', 'g', 'e']
}

pub open spec fn key_data() -> Seq<char> {
    seq!['d', 'a', 't', 'a']
}

/// The protocol version that every message carries: `"2.0"`.
pub open spec fn version_text() -> Seq<char> {
    seq!['2', '.', '0']
}

fn jsonrpc_key() -> (r: String)
    ensures
        r@ == key_jsonrpc(),
{
    let r = text("jsonrpc");
    proof {
        reveal_strlit("jsonrpc");
    }
    assert(r@ =~= key_jsonrpc());
    r
}

fn method_key() -> (r: String)
    ensures
        r@ == key_method(),
{
    let r = text("method");
    proof {
        reveal_strlit("method");
    }
    assert(r@ =~= key_method());
    r
}

fn params_key() -> (r: String)
    ensures
        r@ == key_params(),
{
    let r = text("params");
    proof {
        reveal_strlit("params");
    }
    assert(r@ =~= key_params());
    r
}

fn id_key() -> (r: String)
    ensures
        r@ == key_id(),
{
    let r = text("id");
    proof {
        reveal_strlit("id");
    }
    assert(r@ =~= key_id());
    r
}

fn result_key() -> (r: String)
    ensures
        r@ == key_result(),
{
    let r = text("result");
    proof {
        reveal_strlit("result");
    }
    assert(r@ =~= key_result());
    r
}

fn error_key() -> (r: String)
    ensures
        r@ == key_error(),
{
    let r = text("error");
    proof {
        reveal_strlit("error");
    }
    assert(r@ =~= key_error());
    r
}

fn code_key() -> (r: String)
    ensures
        r@ == key_code(),
{
    let r = text("code");
    proof {
        reveal_strlit("code");
    }
    assert(r@ =~= key_code());
    r
}

fn message_key() -> (r: String)
    ensures
        r@ == key_message(),
{
    let r = text("message");
    proof {
        reveal_strlit("message");
    }
    assert(r@ =~= key_message());
    r
}

fn data_key() -> (r: String)
    ensures
        r@ == key_data(),
{
    let r = text("data");
    proof {
        reveal_strlit("data");
    }
    assert(r@ =~= key_data());
    r
}

fn version_value() -> (r: String)
    ensures
        r@ == version_text(),
{
    let r = text("2.0");
    proof {
        reveal_strlit("2.0");
    }
    assert(r@ =~= version_text());
    r
}

// ---------------------------------------------------------------------------
// Request ids
// ---------------------------------------------------------------------------

/// The id of a JSON-RPC request, echoed in its response.
#[derive(Debug, Clone, PartialEq, Eq)]
pub enum JsonRpcId {
    Number(i32),
    String(String),
    Null,
}

/// Model of a request id.
pub enum IdView {
    Number(i32),
    Str(Seq<char>),
    Null,
}

impl View for JsonRpcId {
    type V = IdView;

    open spec fn view(&self) -> IdView {
        match self {
            JsonRpcId::Number(n) => IdView::Number(*n),
            JsonRpcId::String(s) => IdView::Str(s@),
            JsonRpcId::Null => IdView::Null,
        }
    }
}

/// The JSON form of an id: a number, a string or `null`.
pub open spec fn id_to_json(id: IdView) -> Json {
    match id {
        IdView::Number(n) => Json::Number(NumberModel::Int(n as i64)),
        IdView::Str(s) => Json::Str(s),
        IdView::Null => Json::Null,
    }
}

/// Reads an id from JSON. An integer that fits `i64` but not `i32` is reported as
/// `IdOutOfRange`; any other value that is not a string, `null` or such an integer is an
/// invalid id.
pub open spec fn id_from_json(v: Json) -> Result<IdView, JsonRpcDecodeError> {
    match v {
        Json::Number(NumberModel::Int(i)) => if i32::MIN <= i <= i32::MAX {
            Ok(IdView::Number(i as i32))
        } else {
            Err(JsonRpcDecodeError::IdOutOfRange)
        },
        Json::Number(NumberModel::UInt(u)) => if u <= i32::MAX {
            Ok(IdView::Number(u as i32))
        } else if u <= i64::MAX {
            Err(JsonRpcDecodeError::IdOutOfRange)
        } else {
            Err(JsonRpcDecodeError::InvalidId)
        },
        Json::Str(s) => Ok(IdView::Str(s)),
        Json::Null => Ok(IdView::Null),
        _ => Err(JsonRpcDecodeError::InvalidId),
    }
}

impl JsonRpcId {
    /// A copy of this id.
    pub fn duplicate(&self) -> (r: JsonRpcId)
        ensures
            r@ == self@,
    {
        match self {
            JsonRpcId::Number(n) => JsonRpcId::Number(*n),
            JsonRpcId::String(s) => JsonRpcId::String(s.clone()),
            JsonRpcId::Null => JsonRpcId::Null,
        }
    }

    /// Whether two ids are the same.
    pub fn same_as(&self, other: &JsonRpcId) -> (r: bool)
        ensures
            r == (self@ == other@),
    {
        match (self, other) {
            (JsonRpcId::Number(a), JsonRpcId::Number(b)) => *a == *b,
            (JsonRpcId::String(a), JsonRpcId::String(b)) => *a == *b,
            (JsonRpcId::Null, JsonRpcId::Null) => true,
            _ => false,
        }
    }

    /// The JSON form of this id.
    pub fn to_json_value(&self) -> (r: JsonValue)
        ensures
            r.model() == id_to_json(self@),
    {
        match self {
            JsonRpcId::Number(n) => JsonValue::Number(JsonNumber::Int(*n as i64)),
            JsonRpcId::String(s) => JsonValue::Str(s.clone()),
            JsonRpcId::Null => JsonValue::Null,
        }
    }

    /// Reads an id from its JSON form.
    pub fn from_json_value(v: &JsonValue) -> (r: Result<JsonRpcId, JsonRpcDecodeError>)
        ensures
            match r {
                Ok(id) => id_from_json(v.model()) == Ok::<IdView, JsonRpcDecodeError>(id@),
                Err(e) => id_from_json(v.model()) == Err::<IdView, JsonRpcDecodeError>(e),
            },
    {
        match v {
            JsonValue::Number(JsonNumber::Int(i)) => {
                if i32::MIN as i64 <= *i && *i <= i32::MAX as i64 {
                    Ok(JsonRpcId::Number(*i as i32))
                } else {
                    Err(JsonRpcDecodeError::IdOutOfRange)
                }
            },
            JsonValue::Number(JsonNumber::UInt(u)) => {
                if *u <= i32::MAX as u64 {
                    Ok(JsonRpcId::Number(*u as i32))
                } else if *u <= i64::MAX as u64 {
                    Err(JsonRpcDecodeError::IdOutOfRange)
                } else {
                    Err(JsonRpcDecodeError::InvalidId)
                }
            },
            JsonValue::Str(s) => Ok(JsonRpcId::String(s.clone())),
            JsonValue::Null => Ok(JsonRpcId::Null),
            _ => Err(JsonRpcDecodeError::InvalidId),
        }
    }
}

/// An id read back from its JSON form is the id that was written.
pub proof fn lemma_id_json_roundtrip(id: IdView)
    ensures
        id_from_json(id_to_json(id)) == Ok::<IdView, JsonRpcDecodeError>(id),
{
}

// ---------------------------------------------------------------------------
// Error codes
// ---------------------------------------------------------------------------

/// The code of a JSON-RPC error.
#[derive(Debug, Clone, Copy, PartialEq, Eq, Structural)]
pub enum JsonRpcErrorCode {
    ParseError,
    InvalidRequest,
    MethodNotFound,
    InvalidParams,
    InternalError,
    Custom(i32),
}

/// The number that stands for a code on the wire.
pub open spec fn error_code_value(code: JsonRpcErrorCode) -> i32 {
    match code {
        JsonRpcErrorCode::ParseError => -32700i32,
        JsonRpcErrorCode::InvalidRequest => -32600i32,
        JsonRpcErrorCode::MethodNotFound => -32601i32,
        JsonRpcErrorCode::InvalidParams => -32602i32,
        JsonRpcErrorCode::InternalError => -32603i32,
        JsonRpcErrorCode::Custom(c) => c,
    }
}

/// The code that a number on the wire stands for: the five reserved numbers name
/// their codes, any other number is a custom code.
pub open spec fn error_code_of(value: i32) -> JsonRpcErrorCode {
    if value == -32700 {
        JsonRpcErrorCode::ParseError
    } else if value == -32600 {
        JsonRpcErrorCode::InvalidRequest
    } else if value == -32601 {
        JsonRpcErrorCode::MethodNotFound
    } else if value == -32602 {
        JsonRpcErrorCode::InvalidParams
    } else if value == -32603 {
        JsonRpcErrorCode::InternalError
    } else {
        JsonRpcErrorCode::Custom(value)
    }
}

/// Whether a custom code reuses one of the five reserved numbers.
pub open spec fn is_reserved_custom(code: JsonRpcErrorCode) -> bool {
    match code {
        JsonRpcErrorCode::Custom(c) => c == -32700 || c == -32600 || c == -32601 || c == -32602 || c == -32603,
        _ => false,
    }
}

impl JsonRpcErrorCode {
    /// The number that stands for this code on the wire.
    pub fn code_value(self) -> (r: i32)
        ensures
            r == error_code_value(self),
    {
        match self {
            JsonRpcErrorCode::ParseError => -32700,
            JsonRpcErrorCode::InvalidRequest => -32600,
            JsonRpcErrorCode::MethodNotFound => -32601,
            JsonRpcErrorCode::InvalidParams => -32602,
            JsonRpcErrorCode::InternalError => -32603,
            JsonRpcErrorCode::Custom(c) => c,
        }
    }

    /// The code that a number on the wire stands for.
    pub fn from_code_value(value: i32) -> (r: JsonRpcErrorCode)
        ensures
            r == error_code_of(value),
    {
        if value == -32700 {
            JsonRpcErrorCode::ParseError
        } else if value == -32600 {
            JsonRpcErrorCode::InvalidRequest
        } else if value == -32601 {
            JsonRpcErrorCode::MethodNotFound
        } else if value == -32602 {
            JsonRpcErrorCode::InvalidParams
        } else if value == -32603 {
            JsonRpcErrorCode::InternalError
        } else {
            JsonRpcErrorCode::Custom(value)
        }
    }
}

/// Writing a number as a code and reading the code back gives the number.
pub proof fn lemma_error_code_value_roundtrip(value: i32)
    ensures
        error_code_value(error_code_of(value)) == value,
{
}

/// Reading back the number of a code gives the code, unless it is a custom code that
/// reuses a reserved number (then the reserved code comes back).
pub proof fn lemma_error_code_roundtrip(code: JsonRpcErrorCode)
    requires
        !is_reserved_custom(code),
    ensures
        error_code_of(error_code_value(code)) == code,
{
}


// ---------------------------------------------------------------------------
// Messages
// ---------------------------------------------------------------------------

#[derive(Debug, Clone, Copy, PartialEq, Eq)]
enum JsonRpcVersion {
    V2,
}

/// The parameters of a request: an object or an array.
#[derive(Debug, Clone, PartialEq)]
pub enum JsonRpcStructuredValue {
    Object(Vec<(String, JsonValue)>),
    Array(Vec<JsonValue>),
}

impl JsonRpcStructuredValue {
    /// Model of the parameters: the JSON object or array they are.
    pub open spec fn model(&self) -> Json {
        match self {
            JsonRpcStructuredValue::Object(m) => JsonValue::Object(*m).model(),
            JsonRpcStructuredValue::Array(a) => JsonValue::Array(*a).model(),
        }
    }

    /// The parameters as a JSON value.
    pub fn into_value(self) -> (r: JsonValue)
        ensures
            r.model() == self.model(),
    {
        match self {
            JsonRpcStructuredValue::Object(object) => JsonValue::Object(object),
            JsonRpcStructuredValue::Array(array) => JsonValue::Array(array),
        }
    }

    /// A deep copy of the parameters.
    pub fn duplicate(&self) -> (r: JsonRpcStructuredValue)
        ensures
            r.model() == self.model(),
            r.model() is Object <==> self.model() is Object,
    {
        match self {
            JsonRpcStructuredValue::Object(m) => JsonRpcStructuredValue::Object(duplicate_members(m)),
            JsonRpcStructuredValue::Array(a) => JsonRpcStructuredValue::Array(duplicate_items(a)),
        }
    }
}


/// Model of the parameters of a request, if any.
pub open spec fn params_model(params: Option<JsonRpcStructuredValue>) -> Option<Json> {
    match params {
        Some(p) => Some(p.model()),
        None => None,
    }
}

/// Parameters are an object or an array, if given.
pub open spec fn params_well_formed(params: Option<Json>) -> bool {
    match params {
        Some(Json::Object(_)) | Some(Json::Array(_)) | None => true,
        _ => false,
    }
}

/// A JSON-RPC 2.0 request.
#[derive(Debug, Clone, PartialEq)]
pub struct JsonRpcRequest {
    jsonrpc: JsonRpcVersion,
    method: String,
    params: Option<JsonRpcStructuredValue>,
    id: JsonRpcId,
}

/// Model of a request: its method, its parameters and its id.
pub struct RequestView {
    pub method: Seq<char>,
    pub params: Option<Json>,
    pub id: IdView,
}

impl View for JsonRpcRequest {
    type V = RequestView;

    closed spec fn view(&self) -> RequestView {
        RequestView { method: self.method@, params: params_model(self.params), id: self.id@ }
    }
}

impl JsonRpcRequest {
    /// A request of `method` with `params` and `id`.
    pub fn new(method: String, params: Option<JsonRpcStructuredValue>, id: JsonRpcId) -> (r: Self)
        ensures
            r@ == (RequestView { method: method@, params: params_model(params), id: id@ }),
    {
        JsonRpcRequest { jsonrpc: JsonRpcVersion::V2, method, params, id }
    }

    /// The method that the request calls.
    pub fn method(&self) -> (r: &str)
        ensures
            r@ == self@.method,
    {
        self.method.as_str()
    }

    /// The parameters of the request, if any.
    pub fn params(&self) -> (r: Option<&JsonRpcStructuredValue>)
        ensures
            match r {
                Some(p) => self@.params == Some(p.model()),
                None => self@.params is None,
            },
    {
        match &self.params {
            Some(p) => Some(p),
            None => None,
        }
    }

    /// The id of the request.
    pub fn id(&self) -> (r: &JsonRpcId)
        ensures
            r@ == self@.id,
    {
        &self.id
    }

    /// The parameters of every request are an object or an array, if given.
    pub proof fn lemma_params_well_formed(&self)
        ensures
            params_well_formed(self@.params),
    {
    }
}

/// A JSON-RPC error object.
#[derive(Debug, Clone, PartialEq)]
pub struct JsonRpcError {
    code: JsonRpcErrorCode,
    message: String,
    data: Option<JsonValue>,
}

/// Model of an error: its code, its message and its optional data.
pub struct ErrorView {
    pub code: JsonRpcErrorCode,
    pub message: Seq<char>,
    pub data: Option<Json>,
}

/// Model of optional JSON data.
pub open spec fn data_model(data: Option<JsonValue>) -> Option<Json> {
    match data {
        Some(d) => Some(d.model()),
        None => None,
    }
}

impl View for JsonRpcError {
    type V = ErrorView;

    closed spec fn view(&self) -> ErrorView {
        ErrorView { code: self.code, message: self.message@, data: data_model(self.data) }
    }
}

impl JsonRpcError {
    /// An error with `code`, `message` and optional `data`.
    pub fn new(code: JsonRpcErrorCode, message: String, data: Option<JsonValue>) -> (r: Self)
        ensures
            r@ == (ErrorView { code, message: message@, data: data_model(data) }),
    {
        JsonRpcError { code, message, data }
    }

    /// A deep copy of this error.
    pub fn duplicate(&self) -> (r: JsonRpcError)
        ensures
            r@ == self@,
    {
        let data = match &self.data {
            Some(d) => Some(d.duplicate()),
            None => None,
        };
        JsonRpcError { code: self.code, message: self.message.clone(), data }
    }

    /// The code of the error.
    pub fn code(&self) -> (r: JsonRpcErrorCode)
        ensures
            r == self@.code,
    {
        self.code
    }
}

/// What a response carries: a result or an error.
#[derive(Debug, Clone, PartialEq)]
pub enum JsonRpcResponseData {
    Success { result: JsonValue },
    Error { error: JsonRpcError },
}

/// Model of what a response carries.
pub enum DataView {
    Success(Json),
    Error(ErrorView),
}

impl View for JsonRpcResponseData {
    type V = DataView;

    open spec fn view(&self) -> DataView {
        match self {
            JsonRpcResponseData::Success { result } => DataView::Success(result.model()),
            JsonRpcResponseData::Error { error } => DataView::Error(error@),
        }
    }
}

/// A JSON-RPC 2.0 response.
#[derive(Debug, Clone, PartialEq)]
pub struct JsonRpcResponse {
    jsonrpc: JsonRpcVersion,
    data: JsonRpcResponseData,
    id: JsonRpcId,
}

/// Model of a response: what it carries and the id of the request it answers.
pub struct ResponseView {
    pub data: DataView,
    pub id: IdView,
}

impl View for JsonRpcResponse {
    type V = ResponseView;

    closed spec fn view(&self) -> ResponseView {
        ResponseView { data: self.data@, id: self.id@ }
    }
}

impl JsonRpcResponse {
    /// A response carrying `data` for the request with `id`.
    pub fn new(data: JsonRpcResponseData, id: JsonRpcId) -> (r: Self)
        ensures
            r@ == (ResponseView { data: data@, id: id@ }),
    {
        JsonRpcResponse { jsonrpc: JsonRpcVersion::V2, data, id }
    }

    /// What the response carries.
    pub fn data(&self) -> (r: &JsonRpcResponseData)
        ensures
            r@ == self@.data,
    {
        &self.data
    }

    /// The id of the request that the response answers.
    pub fn id(&self) -> (r: &JsonRpcId)
        ensures
            r@ == self@.id,
    {
        &self.id
    }
}


/// The error that says a request could not be parsed: code `ParseError`, message
/// `Parse error`, no data.
pub open spec fn parse_error() -> ErrorView {
    ErrorView { code: JsonRpcErrorCode::ParseError, message: "Parse error"@, data: None }
}

/// The response to a request that could not be parsed: a single response with a `null`
/// id that carries the parse error.
pub fn parse_error_response() -> (r: SingleOrBatch<JsonRpcResponse>)
    ensures
        r matches SingleOrBatch::Single(x) && x@ == (ResponseView { data: DataView::Error(parse_error()), id: IdView::Null }),
{
    let error = JsonRpcError::new(JsonRpcErrorCode::ParseError, text("Parse error"), None);
    SingleOrBatch::Single(JsonRpcResponse::new(JsonRpcResponseData::Error { error }, JsonRpcId::Null))
}

// ---------------------------------------------------------------------------
// JSON encoding of messages
// ---------------------------------------------------------------------------

/// The JSON object of a request: `jsonrpc`, `method`, `params` (left out when there are
/// none) and `id`, in this order.
pub open spec fn request_to_json(r: RequestView) -> Json {
    Json::Object(
        seq![(key_jsonrpc(), Json::Str(version_text())), (key_method(), Json::Str(r.method))]
            + match r.params {
            Some(p) => seq![(key_params(), p)],
            None => Seq::empty(),
        } + seq![(key_id(), id_to_json(r.id))],
    )
}

/// A `params` member, if present, is `null`, an object or an array.
pub open spec fn params_member_ok(p: Option<Json>) -> bool {
    match p {
        None | Some(Json::Null) | Some(Json::Object(_)) | Some(Json::Array(_)) => true,
        _ => false,
    }
}

/// The parameters that a `params` member gives: none when it is missing or `null`.
pub open spec fn params_from_json(p: Option<Json>) -> Option<Json> {
    match p {
        Some(Json::Object(m)) => Some(Json::Object(m)),
        Some(Json::Array(a)) => Some(Json::Array(a)),
        _ => None,
    }
}

/// Reads a request from a JSON value. The value must be an object whose `jsonrpc` member
/// is `"2.0"`, whose `method` member is a string, whose `params` member (if any) is `null`,
/// an object or an array, and whose `id` member is an id; other members are ignored.
/// The members are checked in this order and the first failure is reported.
pub open spec fn request_from_json(v: Json) -> Result<RequestView, JsonRpcDecodeError> {
    if field(v, key_jsonrpc()) != Some(Json::Str(version_text())) {
        Err(JsonRpcDecodeError::Malformed)
    } else {
        match field(v, key_method()) {
            Some(Json::Str(m)) => if !params_member_ok(field(v, key_params())) {
                Err(JsonRpcDecodeError::Malformed)
            } else {
                match field(v, key_id()) {
                    None => Err(JsonRpcDecodeError::Malformed),
                    Some(i) => match id_from_json(i) {
                        Ok(id) => Ok(
                            RequestView { method: m, params: params_from_json(field(v, key_params())), id },
                        ),
                        Err(e) => Err(e),
                    },
                }
            },
            _ => Err(JsonRpcDecodeError::Malformed),
        }
    }
}

/// The JSON object of an error: `code`, `message` and `data` (left out when there is none).
pub open spec fn error_to_json(e: ErrorView) -> Json {
    Json::Object(
        seq![
            (key_code(), Json::Number(NumberModel::Int(error_code_value(e.code) as i64))),
            (key_message(), Json::Str(e.message)),
        ] + match e.data {
            Some(d) => seq![(key_data(), d)],
            None => Seq::empty(),
        },
    )
}

/// The `i32` that a JSON number is, if it is one.
pub open spec fn code_from_json(v: Json) -> Option<i32> {
    match v {
        Json::Number(NumberModel::Int(i)) => if i32::MIN <= i <= i32::MAX {
            Some(i as i32)
        } else {
            None
        },
        Json::Number(NumberModel::UInt(u)) => if u <= i32::MAX {
            Some(u as i32)
        } else {
            None
        },
        _ => None,
    }
}

/// The data that a `data` member gives: none when it is missing or `null`.
pub open spec fn optional_data_from_json(d: Option<Json>) -> Option<Json> {
    match d {
        None | Some(Json::Null) => None,
        Some(x) => Some(x),
    }
}

/// Reads an error from a JSON value: an object with an `i32` `code` and a string `message`.
pub open spec fn error_from_json(v: Json) -> Result<ErrorView, JsonRpcDecodeError> {
    match field(v, key_code()) {
        Some(c) => match code_from_json(c) {
            Some(n) => match field(v, key_message()) {
                Some(Json::Str(m)) => Ok(
                    ErrorView {
                        code: error_code_of(n),
                        message: m,
                        data: optional_data_from_json(field(v, key_data())),
                    },
                ),
                _ => Err(JsonRpcDecodeError::Malformed),
            },
            None => Err(JsonRpcDecodeError::Malformed),
        },
        None => Err(JsonRpcDecodeError::Malformed),
    }
}

/// The members that carry what a response carries: `result` or `error`.
pub open spec fn data_members(d: DataView) -> Seq<(Seq<char>, Json)> {
    match d {
        DataView::Success(r) => seq![(key_result(), r)],
        DataView::Error(e) => seq![(key_error(), error_to_json(e))],
    }
}

/// The JSON object of a response: `jsonrpc`, then `result` or `error`, then `id`.
pub open spec fn response_to_json(r: ResponseView) -> Json {
    Json::Object(
        seq![(key_jsonrpc(), Json::Str(version_text()))] + data_members(r.data) + seq![
            (key_id(), id_to_json(r.id)),
        ],
    )
}

/// What a response object carries: its `result` member if there is one, else its
/// `error` member read as an error.
pub open spec fn response_data_from_json(v: Json) -> Result<DataView, JsonRpcDecodeError> {
    match field(v, key_result()) {
        Some(res) => Ok(DataView::Success(res)),
        None => match field(v, key_error()) {
            Some(e) => match error_from_json(e) {
                Ok(ev) => Ok(DataView::Error(ev)),
                Err(x) => Err(x),
            },
            None => Err(JsonRpcDecodeError::Malformed),
        },
    }
}

/// Reads a response from a JSON value: an object whose `jsonrpc` member is `"2.0"`, that
/// carries a result or an error, and whose `id` member is an id.
pub open spec fn response_from_json(v: Json) -> Result<ResponseView, JsonRpcDecodeError> {
    if field(v, key_jsonrpc()) != Some(Json::Str(version_text())) {
        Err(JsonRpcDecodeError::Malformed)
    } else {
        match response_data_from_json(v) {
            Err(e) => Err(e),
            Ok(d) => match field(v, key_id()) {
                None => Err(JsonRpcDecodeError::Malformed),
                Some(i) => match id_from_json(i) {
                    Ok(id) => Ok(ResponseView { data: d, id }),
                    Err(e) => Err(e),
                },
            },
        }
    }
}

/// The model of a decoded request, or the error.
pub open spec fn request_result_view(r: Result<JsonRpcRequest, JsonRpcDecodeError>) -> Result<
    RequestView,
    JsonRpcDecodeError,
> {
    match r {
        Ok(x) => Ok(x@),
        Err(e) => Err(e),
    }
}

/// The model of a decoded error, or the decoding error.
pub open spec fn error_result_view(r: Result<JsonRpcError, JsonRpcDecodeError>) -> Result<
    ErrorView,
    JsonRpcDecodeError,
> {
    match r {
        Ok(x) => Ok(x@),
        Err(e) => Err(e),
    }
}

/// The model of a decoded response, or the error.
pub open spec fn response_result_view(r: Result<JsonRpcResponse, JsonRpcDecodeError>) -> Result<
    ResponseView,
    JsonRpcDecodeError,
> {
    match r {
        Ok(x) => Ok(x@),
        Err(e) => Err(e),
    }
}

impl JsonRpcRequest {
    /// The JSON object of this request.
    pub fn to_json(&self) -> (r: JsonValue)
        ensures
            r.model() == request_to_json(self@),
    {
        let mut members: Vec<(String, JsonValue)> = Vec::new();
        members.push((jsonrpc_key(), JsonValue::Str(version_value())));
        members.push((method_key(), JsonValue::Str(self.method.clone())));
        let ghost head = members@;
        match &self.params {
            Some(p) => {
                let pv = p.duplicate().into_value();
                members.push((params_key(), pv));
            },
            None => {},
        }
        members.push((id_key(), self.id.to_json_value()));
        let ghost ms = members@;
        let r = JsonValue::Object(members);
        let ghost want = request_to_json(self@)->Object_0;
        assert(ms.len() == want.len());
        assert forall|i: int| 0 <= i < want.len() implies (ms[i].0@, ms[i].1.model()) == want[i] by {
            if i == want.len() - 1 {
            } else if i < 2 {
                assert(ms[i] == head[i]);
            } else {
                assert(self@.params is Some);
            }
        }
        assert(r.model()->Object_0 =~= want);
        r
    }

    /// Reads a request from a JSON value.
    pub fn from_json(v: &JsonValue) -> (r: Result<JsonRpcRequest, JsonRpcDecodeError>)
        ensures
            request_result_view(r) == request_from_json(v.model()),
    {
        match v.get(&jsonrpc_key()) {
            Some(JsonValue::Str(s)) => {
                if !(*s == version_value()) {
                    return Err(JsonRpcDecodeError::Malformed);
                }
            },
            _ => {
                return Err(JsonRpcDecodeError::Malformed);
            },
        }
        let method = match v.get(&method_key()) {
            Some(JsonValue::Str(m)) => m.clone(),
            _ => {
                return Err(JsonRpcDecodeError::Malformed);
            },
        };
        let params = match v.get(&params_key()) {
            None => None,
            Some(JsonValue::Null) => None,
            Some(JsonValue::Object(m)) => Some(JsonRpcStructuredValue::Object(duplicate_members(m))),
            Some(JsonValue::Array(a)) => Some(JsonRpcStructuredValue::Array(duplicate_items(a))),
            _ => {
                return Err(JsonRpcDecodeError::Malformed);
            },
        };
        let id = match v.get(&id_key()) {
            None => {
                return Err(JsonRpcDecodeError::Malformed);
            },
            Some(i) => match JsonRpcId::from_json_value(i) {
                Ok(id) => id,
                Err(e) => {
                    return Err(e);
                },
            },
        };
        Ok(JsonRpcRequest::new(method, params, id))
    }
}


/// The member names that messages use are pairwise distinct.
proof fn lemma_keys_distinct()
    ensures
        key_jsonrpc() != key_method(),
        key_jsonrpc() != key_params(),
        key_jsonrpc() != key_id(),
        key_jsonrpc() != key_result(),
        key_jsonrpc() != key_error(),
        key_method() != key_params(),
        key_method() != key_id(),
        key_params() != key_id(),
        key_result() != key_id(),
        key_result() != key_error(),
        key_error() != key_id(),
        key_code() != key_message(),
        key_code() != key_data(),
        key_message() != key_data(),
{
    assert(key_jsonrpc()[0] != key_method()[0]);
    assert(key_jsonrpc()[0] != key_params()[0]);
    assert(key_jsonrpc()[0] != key_id()[0]);
    assert(key_jsonrpc()[0] != key_result()[0]);
    assert(key_jsonrpc()[0] != key_error()[0]);
    assert(key_method()[0] != key_params()[0]);
    assert(key_method()[0] != key_id()[0]);
    assert(key_params()[0] != key_id()[0]);
    assert(key_result()[0] != key_id()[0]);
    assert(key_result()[0] != key_error()[0]);
    assert(key_error()[0] != key_id()[0]);
    assert(key_code()[0] != key_message()[0]);
    assert(key_code()[0] != key_data()[0]);
    assert(key_message()[0] != key_data()[0]);
}

/// Looking a key up in members whose first member has another key looks it up in the rest.
proof fn lemma_member_value_skip(ms: Seq<(Seq<char>, Json)>, key: Seq<char>)
    requires
        ms.len() > 0,
        ms[0].0 != key,
    ensures
        member_value(ms, key) == member_value(ms.drop_first(), key),
{
}

/// A request read back from its JSON object is the request that was written.
pub proof fn lemma_request_json_roundtrip(r: RequestView)
    requires
        params_well_formed(r.params),
    ensures
        request_from_json(request_to_json(r)) == Ok::<RequestView, JsonRpcDecodeError>(r),
{
    lemma_keys_distinct();
    let ms = request_to_json(r)->Object_0;
    let m1 = ms.drop_first();
    let m2 = m1.drop_first();
    assert(member_value(ms, key_jsonrpc()) == Some(Json::Str(version_text())));
    lemma_member_value_skip(ms, key_method());
    assert(member_value(m1, key_method()) == Some(Json::Str(r.method)));
    lemma_member_value_skip(ms, key_params());
    lemma_member_value_skip(m1, key_params());
    lemma_member_value_skip(ms, key_id());
    lemma_member_value_skip(m1, key_id());
    match r.params {
        Some(p) => {
            assert(m2[0] == (key_params(), p));
            assert(member_value(m2, key_params()) == Some(p));
            let m3 = m2.drop_first();
            lemma_member_value_skip(m2, key_id());
            assert(m3 =~= seq![(key_id(), id_to_json(r.id))]);
            assert(member_value(m3, key_id()) == Some(id_to_json(r.id)));
        },
        None => {
            assert(m2 =~= seq![(key_id(), id_to_json(r.id))]);
            assert(member_value(m2, key_id()) == Some(id_to_json(r.id)));
            assert(m2.drop_first() =~= Seq::<(Seq<char>, Json)>::empty());
            lemma_member_value_skip(m2, key_params());
            assert(member_value(m2, key_params()) is None);
        },
    }
    lemma_id_json_roundtrip(r.id);
}


impl JsonRpcError {
    /// The JSON object of this error.
    pub fn to_json(&self) -> (r: JsonValue)
        ensures
            r.model() == error_to_json(self@),
    {
        let mut members: Vec<(String, JsonValue)> = Vec::new();
        let code = self.code.code_value();
        members.push((code_key(), JsonValue::Number(JsonNumber::Int(code as i64))));
        members.push((message_key(), JsonValue::Str(self.message.clone())));
        let ghost head = members@;
        match &self.data {
            Some(d) => {
                let dv = d.duplicate();
                members.push((data_key(), dv));
            },
            None => {},
        }
        let ghost ms = members@;
        let r = JsonValue::Object(members);
        let ghost want = error_to_json(self@)->Object_0;
        assert(ms.len() == want.len());
        assert forall|i: int| 0 <= i < want.len() implies (ms[i].0@, ms[i].1.model()) == want[i] by {
            if i < 2 {
                assert(ms[i] == head[i]);
            } else {
                assert(self@.data is Some);
            }
        }
        assert(r.model()->Object_0 =~= want);
        r
    }

    /// Reads an error from a JSON value.
    pub fn from_json(v: &JsonValue) -> (r: Result<JsonRpcError, JsonRpcDecodeError>)
        ensures
            error_result_view(r) == error_from_json(v.model()),
    {
        let code = match v.get(&code_key()) {
            Some(JsonValue::Number(JsonNumber::Int(i))) => {
                if i32::MIN as i64 <= *i && *i <= i32::MAX as i64 {
                    *i as i32
                } else {
                    return Err(JsonRpcDecodeError::Malformed);
                }
            },
            Some(JsonValue::Number(JsonNumber::UInt(u))) => {
                if *u <= i32::MAX as u64 {
                    *u as i32
                } else {
                    return Err(JsonRpcDecodeError::Malformed);
                }
            },
            _ => {
                return Err(JsonRpcDecodeError::Malformed);
            },
        };
        let message = match v.get(&message_key()) {
            Some(JsonValue::Str(m)) => m.clone(),
            _ => {
                return Err(JsonRpcDecodeError::Malformed);
            },
        };
        let data = match v.get(&data_key()) {
            None => None,
            Some(JsonValue::Null) => None,
            Some(d) => Some(d.duplicate()),
        };
        Ok(JsonRpcError::new(JsonRpcErrorCode::from_code_value(code), message, data))
    }
}

/// An error read back from its JSON object is the error that was written, unless its
/// data is `null` (a `null` data member reads back as no data).
pub proof fn lemma_error_json_roundtrip(e: ErrorView)
    requires
        e.data != Some(Json::Null),
        !is_reserved_custom(e.code),
    ensures
        error_from_json(error_to_json(e)) == Ok::<ErrorView, JsonRpcDecodeError>(e),
{
    lemma_keys_distinct();
    let ms = error_to_json(e)->Object_0;
    let m1 = ms.drop_first();
    let m2 = m1.drop_first();
    assert(member_value(ms, key_code()) == Some(Json::Number(NumberModel::Int(error_code_value(e.code) as i64))));
    lemma_member_value_skip(ms, key_message());
    assert(member_value(m1, key_message()) == Some(Json::Str(e.message)));
    lemma_member_value_skip(ms, key_data());
    lemma_member_value_skip(m1, key_data());
    match e.data {
        Some(d) => {
            assert(member_value(m2, key_data()) == Some(d));
        },
        None => {
            assert(m2 =~= Seq::<(Seq<char>, Json)>::empty());
        },
    }
    lemma_error_code_roundtrip(e.code);
}

/// The model of decoded response data, or the error.
pub open spec fn data_result_view(r: Result<JsonRpcResponseData, JsonRpcDecodeError>) -> Result<
    DataView,
    JsonRpcDecodeError,
> {
    match r {
        Ok(x) => Ok(x@),
        Err(e) => Err(e),
    }
}

impl JsonRpcResponseData {
    /// Reads what a response carries from the members of a JSON object: its `result`
    /// member if it has one, else its `error` member read as an error.
    pub fn from_json(v: &JsonValue) -> (r: Result<JsonRpcResponseData, JsonRpcDecodeError>)
        ensures
            data_result_view(r) == response_data_from_json(v.model()),
    {
        match v.get(&result_key()) {
            Some(res) => Ok(JsonRpcResponseData::Success { result: res.duplicate() }),
            None => match v.get(&error_key()) {
                Some(e) => match JsonRpcError::from_json(e) {
                    Ok(error) => Ok(JsonRpcResponseData::Error { error }),
                    Err(x) => Err(x),
                },
                None => Err(JsonRpcDecodeError::Malformed),
            },
        }
    }
}

impl JsonRpcResponse {
    /// The JSON object of this response.
    pub fn to_json(&self) -> (r: JsonValue)
        ensures
            r.model() == response_to_json(self@),
    {
        let mut members: Vec<(String, JsonValue)> = Vec::new();
        members.push((jsonrpc_key(), JsonValue::Str(version_value())));
        match &self.data {
            JsonRpcResponseData::Success { result } => {
                members.push((result_key(), result.duplicate()));
            },
            JsonRpcResponseData::Error { error } => {
                members.push((error_key(), error.to_json()));
            },
        }
        members.push((id_key(), self.id.to_json_value()));
        let ghost ms = members@;
        let r = JsonValue::Object(members);
        let ghost want = response_to_json(self@)->Object_0;
        assert(ms.len() == want.len());
        assert forall|i: int| 0 <= i < want.len() implies (ms[i].0@, ms[i].1.model()) == want[i] by {
        }
        assert(r.model()->Object_0 =~= want);
        r
    }

    /// Reads a response from a JSON value.
    pub fn from_json(v: &JsonValue) -> (r: Result<JsonRpcResponse, JsonRpcDecodeError>)
        ensures
            response_result_view(r) == response_from_json(v.model()),
    {
        match v.get(&jsonrpc_key()) {
            Some(JsonValue::Str(s)) => {
                if !(*s == version_value()) {
                    return Err(JsonRpcDecodeError::Malformed);
                }
            },
            _ => {
                return Err(JsonRpcDecodeError::Malformed);
            },
        }
        let data = match JsonRpcResponseData::from_json(v) {
            Ok(data) => data,
            Err(x) => {
                return Err(x);
            },
        };
        let id = match v.get(&id_key()) {
            None => {
                return Err(JsonRpcDecodeError::Malformed);
            },
            Some(i) => match JsonRpcId::from_json_value(i) {
                Ok(id) => id,
                Err(e) => {
                    return Err(e);
                },
            },
        };
        Ok(JsonRpcResponse::new(data, id))
    }
}

/// Whether the error that a response carries, if any, has data that is not `null` and a
/// code that is not a custom code reusing a reserved number.
pub open spec fn response_data_encodable(d: DataView) -> bool {
    match d {
        DataView::Success(_) => true,
        DataView::Error(e) => e.data != Some(Json::Null) && !is_reserved_custom(e.code),
    }
}

/// The `id` member of a response's JSON object is the JSON form of the response's id.
pub proof fn lemma_response_id_member(r: ResponseView)
    ensures
        field(response_to_json(r), key_id()) == Some(id_to_json(r.id)),
{
    lemma_keys_distinct();
    let ms = response_to_json(r)->Object_0;
    let m1 = ms.drop_first();
    let m2 = m1.drop_first();
    lemma_member_value_skip(ms, key_id());
    lemma_member_value_skip(m1, key_id());
    assert(m2 =~= seq![(key_id(), id_to_json(r.id))]);
    assert(member_value(m2, key_id()) == Some(id_to_json(r.id)));
}

/// Two JSON values agree on the members that JSON-RPC messages are read by.
pub open spec fn same_message_members(v: Json, w: Json) -> bool {
    &&& field(v, key_jsonrpc()) == field(w, key_jsonrpc())
    &&& field(v, key_method()) == field(w, key_method())
    &&& field(v, key_params()) == field(w, key_params())
    &&& field(v, key_id()) == field(w, key_id())
    &&& field(v, key_result()) == field(w, key_result())
    &&& field(v, key_error()) == field(w, key_error())
}

/// Two JSON values agree on the members that JSON-RPC errors are read by.
pub open spec fn same_error_members(v: Json, w: Json) -> bool {
    &&& field(v, key_code()) == field(w, key_code())
    &&& field(v, key_message()) == field(w, key_message())
    &&& field(v, key_data()) == field(w, key_data())
}

/// Messages are read by their members' names alone: two values with the same members,
/// in whatever order and beside whatever other members, read as the same request, the
/// same response and the same response data.
pub proof fn lemma_messages_read_by_member_names(v: Json, w: Json)
    requires
        same_message_members(v, w),
    ensures
        request_from_json(v) == request_from_json(w),
        response_data_from_json(v) == response_data_from_json(w),
        response_from_json(v) == response_from_json(w),
{
}

/// Errors are read by their members' names alone: two values with the same `code`,
/// `message` and `data` members read as the same error.
pub proof fn lemma_errors_read_by_member_names(v: Json, w: Json)
    requires
        same_error_members(v, w),
    ensures
        error_from_json(v) == error_from_json(w),
{
}

/// A response read back from its JSON object is the response that was written, unless
/// the error it carries has `null` data or a custom code that reuses a reserved number.
pub proof fn lemma_response_json_roundtrip(r: ResponseView)
    requires
        response_data_encodable(r.data),
    ensures
        response_from_json(response_to_json(r)) == Ok::<ResponseView, JsonRpcDecodeError>(r),
{
    lemma_keys_distinct();
    let ms = response_to_json(r)->Object_0;
    let m1 = ms.drop_first();
    let m2 = m1.drop_first();
    assert(member_value(ms, key_jsonrpc()) == Some(Json::Str(version_text())));
    lemma_member_value_skip(ms, key_result());
    lemma_member_value_skip(ms, key_error());
    lemma_member_value_skip(ms, key_id());
    lemma_member_value_skip(m1, key_id());
    assert(m2 =~= seq![(key_id(), id_to_json(r.id))]);
    assert(member_value(m2, key_id()) == Some(id_to_json(r.id)));
    match r.data {
        DataView::Success(res) => {
            assert(member_value(m1, key_result()) == Some(res));
        },
        DataView::Error(e) => {
            lemma_member_value_skip(m1, key_result());
            lemma_member_value_skip(m2, key_result());
            assert(m2.drop_first() =~= Seq::<(Seq<char>, Json)>::empty());
            assert(member_value(m1, key_result()) is None);
            assert(member_value(m1, key_error()) == Some(error_to_json(e)));
            lemma_error_json_roundtrip(e);
        },
    }
    lemma_id_json_roundtrip(r.id);
}


// ---------------------------------------------------------------------------
// Single messages and batches
// ---------------------------------------------------------------------------

/// A message that has a JSON form.
pub trait JsonMessage: Sized + View {
    /// The JSON form of a message.
    spec fn encode(m: Self::V) -> Json;

    /// The message that a JSON value is, or why it is none.
    spec fn decode(v: Json) -> Result<Self::V, JsonRpcDecodeError>;

    /// The JSON form of this message.
    fn to_json_value(&self) -> (r: JsonValue)
        ensures
            r.model() == Self::encode(self@),
    ;

    /// Reads a message from a JSON value.
    fn from_json_value(v: &JsonValue) -> (r: Result<Self, JsonRpcDecodeError>)
        ensures
            match r {
                Ok(m) => Self::decode(v.model()) == Ok::<Self::V, JsonRpcDecodeError>(m@),
                Err(e) => Self::decode(v.model()) == Err::<Self::V, JsonRpcDecodeError>(e),
            },
    ;
}

impl JsonMessage for JsonRpcRequest {
    open spec fn encode(m: RequestView) -> Json {
        request_to_json(m)
    }

    open spec fn decode(v: Json) -> Result<RequestView, JsonRpcDecodeError> {
        request_from_json(v)
    }

    fn to_json_value(&self) -> (r: JsonValue) {
        self.to_json()
    }

    fn from_json_value(v: &JsonValue) -> (r: Result<Self, JsonRpcDecodeError>) {
        JsonRpcRequest::from_json(v)
    }
}

impl JsonMessage for JsonRpcResponse {
    open spec fn encode(m: ResponseView) -> Json {
        response_to_json(m)
    }

    open spec fn decode(v: Json) -> Result<ResponseView, JsonRpcDecodeError> {
        response_from_json(v)
    }

    fn to_json_value(&self) -> (r: JsonValue) {
        self.to_json()
    }

    fn from_json_value(v: &JsonValue) -> (r: Result<Self, JsonRpcDecodeError>) {
        JsonRpcResponse::from_json(v)
    }
}

/// Model of a single message or a batch.
pub enum BatchView<V> {
    Single(V),
    Batch(Seq<V>),
}

/// The models of the items, in order.
pub open spec fn batch_view<T: View>(b: SingleOrBatch<T>) -> BatchView<T::V> {
    match b {
        SingleOrBatch::Single(x) => BatchView::Single(x@),
        SingleOrBatch::Batch(xs) => BatchView::Batch(Seq::new(xs.len() as nat, |i: int| xs[i]@)),
    }
}

/// The JSON forms of messages, in order.
pub open spec fn encode_all<T: JsonMessage>(ms: Seq<T::V>) -> Seq<Json> {
    ms.map_values(|m: T::V| T::encode(m))
}

/// The JSON form of a single message or of a batch: a batch is the array of its messages.
pub open spec fn batch_to_json<T: JsonMessage>(b: BatchView<T::V>) -> Json {
    match b {
        BatchView::Single(m) => T::encode(m),
        BatchView::Batch(ms) => Json::Array(encode_all::<T>(ms)),
    }
}

/// Reads the messages of an array in order; the first element that is no message decides
/// the error.
pub open spec fn messages_from_json<T: JsonMessage>(items: Seq<Json>) -> Result<Seq<T::V>, JsonRpcDecodeError>
    decreases items.len(),
{
    if items.len() == 0 {
        Ok(Seq::empty())
    } else {
        match messages_from_json::<T>(items.drop_last()) {
            Err(e) => Err(e),
            Ok(ms) => match T::decode(items.last()) {
                Err(e) => Err(e),
                Ok(m) => Ok(ms.push(m)),
            },
        }
    }
}

/// Reads a single message or a batch: an array is a batch, anything else a single message.
pub open spec fn batch_from_json<T: JsonMessage>(v: Json) -> Result<BatchView<T::V>, JsonRpcDecodeError> {
    match v {
        Json::Array(items) => match messages_from_json::<T>(items) {
            Ok(ms) => Ok(BatchView::Batch(ms)),
            Err(e) => Err(e),
        },
        _ => match T::decode(v) {
            Ok(m) => Ok(BatchView::Single(m)),
            Err(e) => Err(e),
        },
    }
}

/// The model of a decoded single message or batch, or the error.
pub open spec fn batch_result_view<T: View>(r: Result<SingleOrBatch<T>, JsonRpcDecodeError>) -> Result<
    BatchView<T::V>,
    JsonRpcDecodeError,
> {
    match r {
        Ok(b) => Ok(batch_view(b)),
        Err(e) => Err(e),
    }
}

impl<T: JsonMessage> SingleOrBatch<T> {
    /// The JSON form of this single message or batch.
    pub fn to_json(&self) -> (r: JsonValue)
        ensures
            r.model() == batch_to_json::<T>(batch_view(*self)),
    {
        match self {
            SingleOrBatch::Single(m) => m.to_json_value(),
            SingleOrBatch::Batch(ms) => {
                let mut out: Vec<JsonValue> = Vec::new();
                let mut i: usize = 0;
                while i < ms.len()
                    invariant
                        i <= ms.len(),
                        out.len() == i,
                        forall|j: int| 0 <= j < i ==> (#[trigger] out[j]).model() == T::encode(ms[j]@),
                    decreases ms.len() - i,
                {
                    out.push(ms[i].to_json_value());
                    i = i + 1;
                }
                let r = JsonValue::Array(out);
                assert(r.model()->Array_0 =~= batch_to_json::<T>(batch_view(*self))->Array_0);
                r
            },
        }
    }

    /// Reads a single message or a batch from a JSON value.
    pub fn from_json(v: &JsonValue) -> (r: Result<SingleOrBatch<T>, JsonRpcDecodeError>)
        ensures
            batch_result_view(r) == batch_from_json::<T>(v.model()),
    {
        match v {
            JsonValue::Array(items) => {
                let ghost models = v.model()->Array_0;
                let mut out: Vec<T> = Vec::new();
                let mut i: usize = 0;
                assert(models.take(0) =~= Seq::<Json>::empty());
                assert(Seq::new(out.len() as nat, |j: int| out[j]@) =~= Seq::<T::V>::empty());
                while i < items.len()
                    invariant
                        i <= items.len(),
                        v.model() == Json::Array(models),
                        models.len() == items.len(),
                        forall|j: int| 0 <= j < items.len() ==> #[trigger] models[j] == items[j].model(),
                        out.len() == i,
                        messages_from_json::<T>(models.take(i as int)) == Ok::<Seq<T::V>, JsonRpcDecodeError>(
                            Seq::new(out.len() as nat, |j: int| out[j]@),
                        ),
                    decreases items.len() - i,
                {
                    assert(models.take(i + 1).drop_last() =~= models.take(i as int));
                    assert(models.take(i + 1).last() == models[i as int]);
                    match T::from_json_value(&items[i]) {
                        Ok(m) => {
                            let ghost before = Seq::new(out.len() as nat, |j: int| out[j]@);
                            out.push(m);
                            assert(Seq::new(out.len() as nat, |j: int| out[j]@) =~= before.push(m@));
                        },
                        Err(e) => {
                            assert(messages_from_json::<T>(models.take(i + 1)) == Err::<Seq<T::V>, JsonRpcDecodeError>(e));
                            assert(messages_from_json::<T>(models) == Err::<Seq<T::V>, JsonRpcDecodeError>(e)) by {
                                lemma_messages_error_extends::<T>(models, (i + 1) as int);
                            }
                            return Err(e);
                        },
                    }
                    i = i + 1;
                }
                assert(models.take(items.len() as int) =~= models);
                let r = SingleOrBatch::Batch(out);
                assert(batch_view(r)->Batch_0 =~= Seq::new(out.len() as nat, |j: int| out[j]@));
                Ok(r)
            },
            _ => match T::from_json_value(v) {
                Ok(m) => Ok(SingleOrBatch::Single(m)),
                Err(e) => Err(e),
            },
        }
    }
}

/// Once a prefix of an array fails to read, the whole array fails with the same error.
proof fn lemma_messages_error_extends<T: JsonMessage>(items: Seq<Json>, n: int)
    requires
        0 <= n <= items.len(),
        messages_from_json::<T>(items.take(n)) is Err,
    ensures
        messages_from_json::<T>(items) == messages_from_json::<T>(items.take(n)),
    decreases items.len() - n,
{
    if n < items.len() {
        assert(items.take(n + 1).drop_last() =~= items.take(n));
        lemma_messages_error_extends::<T>(items, n + 1);
    } else {
        assert(items.take(n) =~= items);
    }
}

/// Reading back the JSON form of messages that each read back to themselves gives them.
proof fn lemma_messages_roundtrip<T: JsonMessage>(ms: Seq<T::V>)
    requires
        forall|i: int| 0 <= i < ms.len() ==> T::decode(T::encode(#[trigger] ms[i])) == Ok::<T::V, JsonRpcDecodeError>(ms[i]),
    ensures
        messages_from_json::<T>(encode_all::<T>(ms)) == Ok::<Seq<T::V>, JsonRpcDecodeError>(ms),
    decreases ms.len(),
{
    if ms.len() > 0 {
        let items = encode_all::<T>(ms);
        assert(items.drop_last() =~= encode_all::<T>(ms.drop_last()));
        lemma_messages_roundtrip::<T>(ms.drop_last());
        assert(T::decode(T::encode(ms[ms.len() - 1])) == Ok::<T::V, JsonRpcDecodeError>(ms[ms.len() - 1]));
        assert(items.last() == T::encode(ms.last()));
        assert(ms.drop_last().push(ms.last()) =~= ms);
        assert(messages_from_json::<T>(items) == Ok::<Seq<T::V>, JsonRpcDecodeError>(ms.drop_last().push(ms.last())));
    } else {
        assert(encode_all::<T>(ms) =~= Seq::<Json>::empty());
        assert(ms =~= Seq::<T::V>::empty());
    }
}

/// A single request or a batch of requests read back from its JSON form is what was written.
pub proof fn lemma_request_batch_json_roundtrip(b: BatchView<RequestView>)
    requires
        match b {
            BatchView::Single(r) => params_well_formed(r.params),
            BatchView::Batch(rs) => forall|i: int| 0 <= i < rs.len() ==> params_well_formed(#[trigger] rs[i].params),
        },
    ensures
        batch_from_json::<JsonRpcRequest>(batch_to_json::<JsonRpcRequest>(b)) == Ok::<BatchView<RequestView>, JsonRpcDecodeError>(b),
{
    match b {
        BatchView::Single(r) => {
            lemma_request_json_roundtrip(r);
            assert(request_to_json(r) is Object);
        },
        BatchView::Batch(rs) => {
            assert forall|i: int| 0 <= i < rs.len() implies request_from_json(request_to_json(#[trigger] rs[i])) == Ok::<RequestView, JsonRpcDecodeError>(rs[i]) by {
                lemma_request_json_roundtrip(rs[i]);
            }
            lemma_messages_roundtrip::<JsonRpcRequest>(rs);
        },
    }
}

/// A single response or a batch of responses read back from its JSON form is what was
/// written, unless an error in it has `null` data or a custom code reusing a reserved number.
pub proof fn lemma_response_batch_json_roundtrip(b: BatchView<ResponseView>)
    requires
        match b {
            BatchView::Single(r) => response_data_encodable(r.data),
            BatchView::Batch(rs) => forall|i: int| 0 <= i < rs.len() ==> response_data_encodable(#[trigger] rs[i].data),
        },
    ensures
        batch_from_json::<JsonRpcResponse>(batch_to_json::<JsonRpcResponse>(b)) == Ok::<BatchView<ResponseView>, JsonRpcDecodeError>(b),
{
    match b {
        BatchView::Single(r) => {
            lemma_response_json_roundtrip(r);
        },
        BatchView::Batch(rs) => {
            assert forall|i: int| 0 <= i < rs.len() implies response_from_json(response_to_json(#[trigger] rs[i])) == Ok::<ResponseView, JsonRpcDecodeError>(rs[i]) by {
                lemma_response_json_roundtrip(rs[i]);
            }
            lemma_messages_roundtrip::<JsonRpcResponse>(rs);
        },
    }
}


// ---------------------------------------------------------------------------
// Answering requests: which id each response carries
// ---------------------------------------------------------------------------

/// The ids of a single request or of a batch, in order.
pub open spec fn ids_of(b: BatchView<RequestView>) -> BatchView<IdView> {
    match b {
        BatchView::Single(r) => BatchView::Single(r.id),
        BatchView::Batch(rs) => BatchView::Batch(rs.map_values(|r: RequestView| r.id)),
    }
}

/// The ids that the responses to `request` carry: the id of a single request, or the ids
/// of a batch in order.
pub fn request_ids(request: &SingleOrBatch<JsonRpcRequest>) -> (r: SingleOrBatch<JsonRpcId>)
    ensures
        batch_view(r) == ids_of(batch_view(*request)),
{
    match request {
        SingleOrBatch::Single(req) => SingleOrBatch::Single(req.id().duplicate()),
        SingleOrBatch::Batch(reqs) => {
            let mut out: Vec<JsonRpcId> = Vec::new();
            let mut i: usize = 0;
            while i < reqs.len()
                invariant
                    i <= reqs.len(),
                    out.len() == i,
                    forall|j: int| 0 <= j < i ==> (#[trigger] out[j])@ == reqs[j]@.id,
                decreases reqs.len() - i,
            {
                out.push(reqs[i].id().duplicate());
                i = i + 1;
            }
            let r = SingleOrBatch::Batch(out);
            assert(batch_view(r)->Batch_0 =~= ids_of(batch_view(*request))->Batch_0);
            r
        },
    }
}

/// A reply fits the ids of the request it answers: a single reply to a single request,
/// and to a batch a batch of at most as many replies as there were requests.
pub open spec fn reply_fits<D>(ids: SingleOrBatch<JsonRpcId>, reply: SingleOrBatch<D>) -> bool {
    match (ids, reply) {
        (SingleOrBatch::Single(_), SingleOrBatch::Single(_)) => true,
        (SingleOrBatch::Batch(is), SingleOrBatch::Batch(ds)) => ds.len() <= is.len(),
        _ => false,
    }
}

/// `responses` answer with `reply` the request whose ids are `ids`: the i-th response
/// carries the i-th item of the reply and the i-th id.
pub open spec fn answers(
    ids: BatchView<IdView>,
    reply: BatchView<DataView>,
    responses: BatchView<ResponseView>,
) -> bool {
    match (ids, reply, responses) {
        (BatchView::Single(i), BatchView::Single(d), BatchView::Single(r)) => r == ResponseView { data: d, id: i },
        (BatchView::Batch(is), BatchView::Batch(ds), BatchView::Batch(rs)) => {
            &&& rs.len() == ds.len()
            &&& forall|k: int| 0 <= k < rs.len() ==> #[trigger] rs[k] == ResponseView { data: ds[k], id: is[k] }
        },
        _ => false,
    }
}

/// Turns what a handler replied into responses, each carrying the id of the request it
/// answers (by position in a batch).
pub fn correlate_reply(ids: SingleOrBatch<JsonRpcId>, reply: SingleOrBatch<JsonRpcResponseData>) -> (r: SingleOrBatch<JsonRpcResponse>)
    requires
        reply_fits(ids, reply),
    ensures
        answers(batch_view(ids), batch_view(reply), batch_view(r)),
{
    match (ids, reply) {
        (SingleOrBatch::Single(id), SingleOrBatch::Single(data)) => SingleOrBatch::Single(JsonRpcResponse::new(data, id)),
        (SingleOrBatch::Batch(ids), SingleOrBatch::Batch(datas)) => {
            let ghost ds = datas@;
            let mut rest = datas;
            let mut out: Vec<JsonRpcResponse> = Vec::new();
            let mut i: usize = 0;
            while rest.len() > 0
                invariant
                    ds.len() <= ids.len(),
                    i + rest.len() == ds.len(),
                    rest@ == ds.subrange(i as int, ds.len() as int),
                    out.len() == i,
                    forall|k: int| 0 <= k < i ==> (#[trigger] out[k])@ == (ResponseView { data: ds[k]@, id: ids[k]@ }),
                decreases rest.len(),
            {
                let data = rest.remove(0);
                assert(data == ds[i as int]);
                let id = ids[i].duplicate();
                out.push(JsonRpcResponse::new(data, id));
                i = i + 1;
                assert(rest@ =~= ds.subrange(i as int, ds.len() as int));
            }
            SingleOrBatch::Batch(out)
        },
        _ => {
            assert(false);
            SingleOrBatch::Batch(Vec::new())
        },
    }
}

/// The responses made for a request carry its ids: the id of a single request, or the
/// ids of a batch in order, one for each item of the reply.
pub proof fn lemma_responses_carry_request_ids(
    request: BatchView<RequestView>,
    reply: BatchView<DataView>,
    responses: BatchView<ResponseView>,
)
    requires
        answers(ids_of(request), reply, responses),
    ensures
        match (request, responses) {
            (BatchView::Single(q), BatchView::Single(r)) => r.id == q.id,
            (BatchView::Batch(qs), BatchView::Batch(rs)) => forall|k: int|
                0 <= k < rs.len() && k < qs.len() ==> #[trigger] rs[k].id == qs[k].id,
            _ => false,
        },
{
}

} // verus!
