//! NIP-46 (Nostr Connect) messages carried in JSON-RPC: reading a JSON-RPC request as a
//! NIP-46 request, signing the events it asks for, and the JSON-RPC forms of what goes
//! between client and signer.
use vstd::prelude::*;

use std::str::FromStr;

use nostr_sdk::JsonUtil;
use nostr_sdk::nips::nip46::{NostrConnectMessage, NostrConnectMethod, NostrConnectRequest, ResponseResult};
use nostr_sdk::{Event, UnsignedEvent};

use crate::json::{text, Json, JsonValue};
use crate::json_rpc::{
    DataView, IdView, JsonRpcId, JsonRpcRequest, JsonRpcResponse, JsonRpcResponseData,
    JsonRpcStructuredValue, RequestView, ResponseView,
};
use crate::keys::nostr_public_key_of;
use crate::nip46::{response_result, Nip46Message, Nip46Response};

verus! {

broadcast use vstd::std_specs::vec::group_vec_axioms;

#[verifier::external_type_specification]
#[verifier::external_body]
pub struct ExNostrConnectRequest(nostr_sdk::nips::nip46::NostrConnectRequest);

#[verifier::external_type_specification]
#[verifier::external_body]
pub struct ExUnsignedEvent(nostr_sdk::UnsignedEvent);

#[verifier::external_type_specification]
#[verifier::external_body]
pub struct ExEvent(nostr_sdk::Event);

/// `NostrConnectRequest`'s derived `clone`: a copy of the request.
pub assume_specification [<nostr_sdk::nips::nip46::NostrConnectRequest as Clone>::clone](
    request: &NostrConnectRequest,
) -> (copy: NostrConnectRequest)
    ensures
        copy == *request,
;

/// The name of the NIP-46 method that asks to sign an event.
pub open spec fn sign_event_method() -> Seq<char> {
    seq!['s', 'i', 'g', 'n', '_', 'e', 'v', 'e', 'n', 't']
}

/// The texts of a sequence of strings.
pub open spec fn texts(strings: Seq<String>) -> Seq<Seq<char>> {
    strings.map_values(|s: String| s@)
}

/// Whether nostr reads a NIP-46 request from a method name and string parameters: the
/// name is a NIP-46 method and the parameters are what that method takes.
pub uninterp spec fn nip46_request_parses(method: Seq<char>, params: Seq<Seq<char>>) -> bool;

/// Calls `NostrConnectMethod::from_str` on `method` and then
/// `NostrConnectRequest::from_message` with `params`. The contract claims that a request
/// comes back exactly when `nip46_request_parses` holds of the method and parameters
/// (both steps are functions of their text alone), that the flag beside it tells whether
/// it is a request to sign an event, which `from_message` gives for the method
/// `sign_event` and for no other, and that such a request had a first parameter (the
/// unsigned event it reads). What the request holds is not stated.
#[verifier::external_body]
pub fn parse_nip46_request(method: &str, params: &Vec<String>) -> (r: Option<(NostrConnectRequest, bool)>)
    ensures
        r is Some <==> nip46_request_parses(method@, texts(params@)),
        r matches Some((_, signs)) ==> (signs <==> method@ == sign_event_method()),
        r matches Some((_, true)) ==> params.len() > 0,
{
    match NostrConnectMethod::from_str(method) {
        Ok(m) => match NostrConnectRequest::from_message(m, params.clone()) {
            Ok(NostrConnectRequest::SignEvent(unsigned)) => Some((NostrConnectRequest::SignEvent(unsigned), true)),
            Ok(other) => Some((other, false)),
            Err(_) => None,
        },
        Err(_) => None,
    }
}

/// Whether every item is a JSON string.
pub open spec fn all_strings(items: Seq<Json>) -> bool {
    forall|i: int| 0 <= i < items.len() ==> (#[trigger] items[i]) is Str
}

/// The parts of a JSON-RPC request that make a NIP-46 request message: its id, which
/// must be a string, its method, and its parameters, which must be an array of strings.
pub open spec fn nip46_parts(r: RequestView) -> Option<(Seq<char>, Seq<char>, Seq<Seq<char>>)> {
    match (r.id, r.params) {
        (IdView::Str(id), Some(Json::Array(items))) => if all_strings(items) {
            Some((id, r.method, items.map_values(|j: Json| j->Str_0)))
        } else {
            None
        },
        _ => None,
    }
}

/// How a JSON-RPC request reads as NIP-46: nothing when it is no NIP-46 request, else
/// whether it asks to sign an event, and its id.
pub open spec fn nip46_reading(r: RequestView) -> Option<(bool, Seq<char>)> {
    match nip46_parts(r) {
        Some((id, method, params)) => if nip46_request_parses(method, params) {
            Some((method == sign_event_method(), id))
        } else {
            None
        },
        None => None,
    }
}

/// A JSON-RPC request read as a NIP-46 request.
pub struct Nip46Parsed {
    /// The NIP-46 request.
    pub request: NostrConnectRequest,
    /// Whether it asks to sign an event.
    pub signs: bool,
    /// The id of the JSON-RPC request.
    pub id: String,
    /// The string parameters of the JSON-RPC request.
    pub params: Vec<String>,
}

/// `p` is how the request with model `r` reads as NIP-46: nothing when it is no NIP-46
/// request, else whether it asks to sign an event, its id and its parameters.
pub open spec fn reads_as(p: Option<Nip46Parsed>, r: RequestView) -> bool {
    match nip46_parts(r) {
        Some((id, method, params)) => if nip46_request_parses(method, params) {
            p matches Some(q) && q.signs == (method == sign_event_method()) && q.id@ == id && texts(q.params@) == params
        } else {
            p is None
        },
        None => p is None,
    }
}

/// The id, method and string parameters of a request, when it has the shape of a NIP-46
/// request message.
pub fn nip46_message_parts(request: &JsonRpcRequest) -> (r: Option<(String, String, Vec<String>)>)
    ensures
        match nip46_parts(request@) {
            Some((id, method, params)) => r matches Some((i, m, ps)) && i@ == id && m@ == method && texts(ps@) == params,
            None => r is None,
        },
{
    let id = match request.id() {
        JsonRpcId::String(s) => s.clone(),
        _ => return None,
    };
    let items = match request.params() {
        Some(JsonRpcStructuredValue::Array(items)) => items,
        _ => return None,
    };
    let ghost js = Seq::new(items.len() as nat, |i: int| items[i].model());
    assert(request@.params == Some(Json::Array(js))) by {
        assert(JsonValue::Array(*items).model()->Array_0 =~= js);
    }
    let mut params: Vec<String> = Vec::new();
    let mut i: usize = 0;
    while i < items.len()
        invariant
            i <= items.len(),
            js.len() == items.len(),
            request@.params == Some(Json::Array(js)),
            request@.id is Str,
            forall|k: int| 0 <= k < items.len() ==> js[k] == (#[trigger] items[k]).model(),
            params.len() == i,
            forall|k: int| 0 <= k < i ==> (#[trigger] js[k]) is Str && params[k]@ == js[k]->Str_0,
        decreases items.len() - i,
    {
        match &items[i] {
            JsonValue::Str(s) => params.push(s.clone()),
            _ => {
                assert(!all_strings(js)) by {
                    assert(!(js[i as int] is Str));
                }
                return None;
            },
        }
        i = i + 1;
    }
    assert(all_strings(js));
    assert(texts(params@) =~= js.map_values(|j: Json| j->Str_0));
    Some((id, text(request.method()), params))
}

/// Reads a JSON-RPC request as a NIP-46 request.
pub fn read_nip46_request(request: &JsonRpcRequest) -> (r: Option<Nip46Parsed>)
    ensures
        reads_as(r, request@),
        r matches Some(q) ==> (q.signs ==> q.params.len() > 0),
        (r is Some) == (nip46_reading(request@) is Some),
        r matches Some(q) ==> nip46_reading(request@) == Some((q.signs, q.id@)),
{
    match nip46_message_parts(request) {
        Some((id, method, params)) => match parse_nip46_request(method.as_str(), &params) {
            Some((q, signs)) => Some(Nip46Parsed { request: q, signs, id, params }),
            None => None,
        },
        None => None,
    }
}

/// The unsigned event that a request to sign asks for, as JSON text: its first parameter
/// (none, when it has no parameters).
pub open spec fn event_to_sign(q: Nip46Parsed) -> Seq<char> {
    if q.params.len() > 0 {
        q.params[0]@
    } else {
        Seq::empty()
    }
}

/// The first parameter of a request read as NIP-46, or the empty text.
pub fn event_text(q: &Nip46Parsed) -> (r: String)
    ensures
        r@ == event_to_sign(*q),
{
    if q.params.len() > 0 {
        q.params[0].clone()
    } else {
        let r = text("");
        proof {
            reveal_strlit("");
        }
        r
    }
}

/// Whether nostr can sign the unsigned event with JSON text `text`:
/// `UnsignedEvent::from_json` reads it, and the id it carries, if any, is the id computed
/// from its contents.
pub uninterp spec fn nostr_unsigned_event_signs(text: Seq<char>) -> bool;

/// Signs the unsigned event with JSON text `unsigned_json` with the secret key whose
/// bytes are `secret`: calls `UnsignedEvent::from_json`, `nostr_sdk::SecretKey::from_slice`,
/// `Keys::new` and `UnsignedEvent::sign_with_keys`, and hands back the signed event's JSON
/// text (`as_json`). The contract claims that an event comes back exactly when the text
/// is one that nostr signs (`nostr_unsigned_event_signs`; `sign_with_keys` fails only on
/// an id that does not match the contents) and the bytes are a secret key, and that the
/// text handed back reads back as an event (`Event::from_json` of `as_json`), which is no
/// reserved result. Signing draws random auxiliary data, so the text is not named.
#[verifier::external_body]
pub fn sign_event_text(unsigned_json: &str, secret: &[u8; 32]) -> (r: Option<String>)
    ensures
        (r is Some) == (nostr_unsigned_event_signs(unsigned_json@) && nostr_public_key_of(secret@) is Some),
        r matches Some(t) ==> nostr_event_parses(t@) && !reserved_result(t@),
{
    let unsigned = UnsignedEvent::from_json(unsigned_json).ok()?;
    let keys = nostr_sdk::Keys::new(nostr_sdk::SecretKey::from_slice(secret).ok()?);
    let event = unsigned.sign_with_keys(&keys).ok()?;
    Some(event.as_json())
}

/// `event_json` is the JSON text of the unsigned event with JSON text `unsigned` signed
/// with the key with bytes `secret`: a text that `sign_event_text` hands back for them.
pub closed spec fn signed_with(unsigned: Seq<char>, secret: [u8; 32], event_json: Seq<char>) -> bool {
    exists|u: &str, t: String| #[trigger] call_ensures(sign_event_text, (u, &secret), Some(t)) && u@ == unsigned && t@ == event_json
}

/// Signs the unsigned event with JSON text `unsigned_json` with the key with bytes
/// `secret`, as `sign_event_text` does, and says so: a text that comes back is the
/// signature of that event with that key.
pub fn sign_event_json(unsigned_json: &str, secret: &[u8; 32]) -> (r: Option<String>)
    ensures
        (r is Some) == (nostr_unsigned_event_signs(unsigned_json@) && nostr_public_key_of(secret@) is Some),
        r matches Some(t) ==> nostr_event_parses(t@) && !reserved_result(t@) && signed_with(unsigned_json@, *secret, t@),
{
    let sign = sign_event_text;
    let r = sign(unsigned_json, secret);
    assert(r matches Some(t) ==> signed_with(unsigned_json@, *secret, t@));
    r
}

/// Whether the event that `q` asks to sign can be signed with the key with bytes `secret`.
pub open spec fn signing_possible(q: Nip46Parsed, secret: [u8; 32]) -> bool {
    nostr_unsigned_event_signs(event_to_sign(q)) && nostr_public_key_of(secret@) is Some
}

/// `d` carries a signed event: its result is the event's JSON text, which reads back as an
/// event and is no reserved result.
pub open spec fn signed_reply(d: DataView) -> bool {
    d matches DataView::Success(Json::Str(t)) && nostr_event_parses(t) && !reserved_result(t)
}

/// What a NIP-46 response with a signed event reads as in JSON-RPC: the message
/// `{"id": .., "result": <event JSON text>, "error": null}` carries its `result`.
pub fn signed_event_reply(event_json: String) -> (r: JsonRpcResponseData)
    ensures
        r@ == DataView::Success(Json::Str(event_json@)),
{
    JsonRpcResponseData::Success { result: JsonValue::Str(event_json) }
}

/// Calls `NostrConnectMessage::request` on a request to sign `unsigned` and hands back the
/// message's id and parameters. The id is drawn at random, so nothing is claimed of it;
/// the contract claims that there is one parameter and that nostr reads the method
/// `sign_event` with these parameters back as a request (`params` gives the event's JSON
/// text, which `UnsignedEvent::from_json` reads back).
#[verifier::external_body]
fn sign_event_message(unsigned: UnsignedEvent) -> (r: (String, Vec<String>))
    ensures
        r.1.len() == 1,
        nip46_request_parses(sign_event_method(), texts(r.1@)),
{
    match NostrConnectMessage::request(&NostrConnectRequest::SignEvent(unsigned)) {
        NostrConnectMessage::Request { id, params, .. } => (id, params),
        NostrConnectMessage::Response { id, .. } => (id, Vec::new()),
    }
}

/// The model of the JSON-RPC request that carries a NIP-46 request message.
pub open spec fn message_request(id: Seq<char>, method: Seq<char>, params: Seq<Seq<char>>) -> RequestView {
    RequestView {
        method,
        params: Some(Json::Array(params.map_values(|p: Seq<char>| Json::Str(p)))),
        id: IdView::Str(id),
    }
}

/// The JSON-RPC request that carries the NIP-46 request message with `id`, `method` and
/// `params`: the parameters become an array of strings and the id a string id.
pub fn nip46_request_message(id: String, method: String, params: Vec<String>) -> (r: JsonRpcRequest)
    ensures
        r@ == message_request(id@, method@, texts(params@)),
{
    let mut items: Vec<JsonValue> = Vec::new();
    let mut i: usize = 0;
    while i < params.len()
        invariant
            i <= params.len(),
            items.len() == i,
            forall|k: int| 0 <= k < i ==> (#[trigger] items[k]).model() == Json::Str(params[k]@),
        decreases params.len() - i,
    {
        items.push(JsonValue::Str(params[i].clone()));
        i = i + 1;
    }
    let ghost a = JsonValue::Array(items).model();
    let r = JsonRpcRequest::new(method, Some(JsonRpcStructuredValue::Array(items)), JsonRpcId::String(id));
    assert(a->Array_0 =~= texts(params@).map_values(|p: Seq<char>| Json::Str(p)));
    r
}

/// The JSON-RPC request that carries a NIP-46 request to sign `unsigned`: method
/// `sign_event`, the message's parameters as strings and its (random) id as a string id.
/// The server reads it back as a request to sign an event with that id.
pub fn sign_event_request(unsigned: UnsignedEvent) -> (r: JsonRpcRequest)
    ensures
        exists|id: Seq<char>, params: Seq<Seq<char>>| #[trigger] message_request(id, sign_event_method(), params) == r@ && params.len() == 1,
        nip46_reading(r@) matches Some((true, _)),
{
    let (id, params) = sign_event_message(unsigned);
    let method = text("sign_event");
    proof {
        reveal_strlit("sign_event");
    }
    assert(method@ =~= sign_event_method());
    let ghost ps = texts(params@);
    let r = nip46_request_message(id, method, params);
    assert(all_strings(r@.params->Some_0->Array_0));
    assert(r@.params->Some_0->Array_0.map_values(|j: Json| j->Str_0) =~= ps);
    r
}

/// The result text that a JSON-RPC response carries as a NIP-46 response message: the
/// response must have a string id and a string result.
pub open spec fn nip46_result_text(r: ResponseView) -> Option<Seq<char>> {
    match (r.id, r.data) {
        (IdView::Str(_), DataView::Success(Json::Str(s))) => Some(s),
        _ => None,
    }
}

/// The result text of a response read as a NIP-46 response message, if it has one: a
/// response with a string id and a string result is the message with that result and no
/// error; any other response is no NIP-46 response with a result.
pub fn nip46_response_text(response: &JsonRpcResponse) -> (r: Option<String>)
    ensures
        match nip46_result_text(response@) {
            Some(s) => r matches Some(t) && t@ == s,
            None => r is None,
        },
{
    match (response.id(), response.data()) {
        (JsonRpcId::String(_), JsonRpcResponseData::Success { result: JsonValue::Str(s) }) => {
            response_result(Nip46Message::Response { result: Some(s.clone()), error: None })
        },
        _ => None,
    }
}

/// The result texts that NIP-46 reserves for an authentication challenge and an error.
pub open spec fn reserved_result(text: Seq<char>) -> bool {
    text == seq!['a', 'u', 't', 'h', '_', 'u', 'r', 'l'] || text == seq!['e', 'r', 'r', 'o', 'r']
}

/// Whether nostr reads a signed event from the JSON text `text`.
pub uninterp spec fn nostr_event_parses(text: Seq<char>) -> bool;

/// Calls `ResponseResult::parse` with the method `sign_event` on `text`. The contract
/// claims what its source shows: `auth_url` and `error` read as results of another kind,
/// any other text reads as a signed event exactly when `nostr_event_parses` holds of it
/// (`Event::from_json` is a function of the text alone), and otherwise nothing is read.
#[verifier::external_body]
pub fn parse_signed_event(text: &str) -> (r: Option<Nip46Response<Event>>)
    ensures
        reserved_result(text@) ==> r matches Some(Nip46Response::Other),
        !reserved_result(text@) ==> (nostr_event_parses(text@) <==> r matches Some(Nip46Response::SignEvent(_))),
        !reserved_result(text@) ==> (!nostr_event_parses(text@) <==> r is None),
{
    match ResponseResult::parse(NostrConnectMethod::SignEvent, text) {
        Ok(ResponseResult::SignEvent(event)) => Some(Nip46Response::SignEvent(*event)),
        Ok(_) => Some(Nip46Response::Other),
        Err(_) => None,
    }
}

/// A response reads at the client as a signature: with a string id, it carries a result
/// text that reads as a signed event and is no reserved result.
pub open spec fn accepted_signature(r: ResponseView) -> bool {
    &&& r.data is Success
    &&& match nip46_result_text(r) {
        Some(t) => !reserved_result(t) && nostr_event_parses(t),
        None => false,
    }
}

/// A request to sign an event that the server reads as one (as every request that
/// `sign_event_request` builds does), answered with a signed event under the request's id,
/// reads back at the client as a signature.
pub proof fn lemma_signed_reply_accepted(request: RequestView, d: DataView)
    requires
        nip46_reading(request) matches Some((true, _)),
        signed_reply(d),
    ensures
        accepted_signature(ResponseView { data: d, id: request.id }),
{
}

} // verus!
