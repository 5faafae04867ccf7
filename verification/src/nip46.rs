//! NIP-46 requests served over NIP-55: which requests are signed, which are refused and
//! with which error, and what a client makes of the response.
use vstd::prelude::*;

use crate::json::{text, Json};
use crate::json_rpc::{
    DataView, ErrorView, JsonRpcError, JsonRpcErrorCode, JsonRpcRequest, JsonRpcResponse,
    JsonRpcResponseData,
};
use crate::keys::{nostr_public_key_of, public_key_of_secret};
use crate::nip_46::{present, requests_for_approval};
use crate::uds::UdsClientError;
use crate::nostr_connect::{
    accepted_signature, event_text, event_to_sign, nip46_response_text, nip46_result_text, nostr_event_parses,
    parse_signed_event, read_nip46_request, reads_as, reserved_result, sign_event_json, signed_with,
    signed_event_reply, signed_reply, signing_possible, Nip46Parsed,
};
use nostr_sdk::nips::nip46::NostrConnectRequest;
use nostr_sdk::Event;

verus! {

broadcast use vstd::std_specs::vec::group_vec_axioms;

/// Approval or rejection of a NIP-46 request. Used in the server to determine whether to
/// handle requests or not.
#[derive(Debug, Clone, Copy, PartialEq, Eq, Structural)]
pub enum Nip46RequestApproval {
    Approve,
    Reject,
}

/// Approves or rejects a batch of NIP-46 requests received by the server.
pub trait Nip46RequestApprover<R> {
    /// Approve or reject a batch of NIP-46 requests received by the server.
    fn handle_batch_request(&self, requests: Vec<R>) -> Nip46RequestApproval;
}

/// A simple request approver that either always approves or always rejects requests.
pub struct StaticRequestApprover {
    approval: Nip46RequestApproval,
}

impl StaticRequestApprover {
    /// What this approver answers to every batch.
    pub closed spec fn approval(&self) -> Nip46RequestApproval {
        self.approval
    }

    /// Create a new `StaticRequestApprover` that will always immediately approve requests.
    pub fn always_approve() -> (r: Self)
        ensures
            r.approval() == Nip46RequestApproval::Approve,
    {
        Self { approval: Nip46RequestApproval::Approve }
    }

    /// Create a new `StaticRequestApprover` that will always immediately reject requests.
    pub fn always_reject() -> (r: Self)
        ensures
            r.approval() == Nip46RequestApproval::Reject,
    {
        Self { approval: Nip46RequestApproval::Reject }
    }
}

impl<R> Nip46RequestApprover<R> for StaticRequestApprover {
    fn handle_batch_request(&self, requests: Vec<R>) -> (r: Nip46RequestApproval)
        ensures
            r == self.approval(),
    {
        self.approval
    }
}

/// Server that handles NIP-46 requests over NIP-55, running on `server`.
pub struct Nip46OverNip55Server<S> {
    server: S,
}

impl<S> Nip46OverNip55Server<S> {
    /// The server that the NIP-46 requests arrive on.
    pub closed spec fn server(&self) -> S {
        self.server
    }

    /// A NIP-46 server running on `server`.
    pub fn start(server: S) -> (r: Self)
        ensures
            r.server() == server,
    {
        Self { server }
    }

    /// Stop the NIP-46 server: it hands back the underlying server, which stops when it is
    /// dropped.
    pub fn stop(self) -> (r: S)
        ensures
            r == self.server(),
    {
        self.server
    }
}

/// A request of a batch, read as NIP-46: a request to sign an event (with what signing
/// it needs) or a request of another NIP-46 method.
pub enum Nip46Request<S> {
    SignEvent(S),
    Other,
}

/// What the server does for one request of a batch: sign, or reply at once.
pub enum Nip46Step<S> {
    Sign(S),
    Reply(JsonRpcResponseData),
}

/// An error reply with `code` and `message` and no data.
pub open spec fn error_reply(code: JsonRpcErrorCode, message: Seq<char>) -> DataView {
    DataView::Error(ErrorView { code, message, data: None })
}

/// The reply to a request that is not a NIP-46 request.
pub open spec fn invalid_request_reply() -> DataView {
    error_reply(JsonRpcErrorCode::InvalidRequest, "Request is not a valid NIP-46 request"@)
}

/// The reply to each request of a rejected batch.
pub open spec fn rejected_reply() -> DataView {
    error_reply(JsonRpcErrorCode::InternalError, "Batch request rejected"@)
}

/// The reply to a NIP-46 method that the server does not implement.
pub open spec fn not_implemented_reply() -> DataView {
    error_reply(JsonRpcErrorCode::MethodNotFound, "Method not implemented"@)
}

/// `step` is what the server does for a request read as `parsed` in a batch answered
/// with `approval`: a request that is no NIP-46 request is invalid; otherwise a rejected
/// batch is refused; otherwise an event is signed and other methods are not implemented.
pub open spec fn handler_step<S>(parsed: Option<Nip46Request<S>>, approval: Nip46RequestApproval, step: Nip46Step<S>) -> bool {
    match parsed {
        None => step matches Nip46Step::Reply(d) && d@ == invalid_request_reply(),
        Some(q) => if approval == Nip46RequestApproval::Reject {
            step matches Nip46Step::Reply(d) && d@ == rejected_reply()
        } else {
            match q {
                Nip46Request::SignEvent(s) => step == Nip46Step::Sign(s),
                Nip46Request::Other => step matches Nip46Step::Reply(d) && d@ == not_implemented_reply(),
            }
        },
    }
}

fn error_data(code: JsonRpcErrorCode, message: &str) -> (r: JsonRpcResponseData)
    ensures
        r@ == error_reply(code, message@),
{
    JsonRpcResponseData::Error { error: JsonRpcError::new(code, text(message), None) }
}

/// What the server does for each request of a batch, in order.
pub fn plan_batch<S>(parsed: Vec<Option<Nip46Request<S>>>, approval: Nip46RequestApproval) -> (r: Vec<Nip46Step<S>>)
    ensures
        r.len() == parsed.len(),
        forall|i: int| 0 <= i < parsed.len() ==> handler_step(parsed[i], approval, #[trigger] r[i]),
{
    assert(parsed@.len() == parsed.len());
    let ghost ps = parsed@;
    let mut rest = parsed;
    let mut out: Vec<Nip46Step<S>> = Vec::new();
    let mut i: usize = 0;
    while rest.len() > 0
        invariant
            i + rest.len() == ps.len(),
            ps.len() <= usize::MAX,
            rest@ == ps.subrange(i as int, ps.len() as int),
            out.len() == i,
            forall|j: int| 0 <= j < i ==> handler_step(ps[j], approval, #[trigger] out[j]),
        decreases rest.len(),
    {
        let p = rest.remove(0);
        assert(p == ps[i as int]);
        let step = match p {
            None => Nip46Step::Reply(error_data(JsonRpcErrorCode::InvalidRequest, "Request is not a valid NIP-46 request")),
            Some(q) => match approval {
                Nip46RequestApproval::Reject => Nip46Step::Reply(error_data(JsonRpcErrorCode::InternalError, "Batch request rejected")),
                Nip46RequestApproval::Approve => match q {
                    Nip46Request::SignEvent(s) => Nip46Step::Sign(s),
                    Nip46Request::Other => Nip46Step::Reply(error_data(JsonRpcErrorCode::MethodNotFound, "Method not implemented")),
                },
            },
        };
        out.push(step);
        i = i + 1;
        assert(rest@ =~= ps.subrange(i as int, ps.len() as int));
    }
    out
}

/// Error that can occur when communicating with a NIP-46 server over NIP-55.
#[derive(Debug)]
pub enum Nip46OverNip55ClientError {
    /// A transport-level error occurred.
    UdsClientError(UdsClientError),
    /// The NIP-46 server returned an error response.
    JsonRpcError(JsonRpcError),
}

/// A NIP-46 response as read by the client: a signed event or the result of another method.
pub enum Nip46Response<E> {
    SignEvent(E),
    Other,
}

/// The error that a response carries, if it carries one.
pub fn response_error(data: &JsonRpcResponseData) -> (r: Option<Nip46OverNip55ClientError>)
    ensures
        match data@ {
            DataView::Error(e) => r matches Some(Nip46OverNip55ClientError::JsonRpcError(x)) && x@ == e,
            DataView::Success(_) => r is None,
        },
{
    match data {
        JsonRpcResponseData::Error { error } => Some(Nip46OverNip55ClientError::JsonRpcError(error.duplicate())),
        JsonRpcResponseData::Success { .. } => None,
    }
}

/// What signing an event gives, from the NIP-46 result read from a successful response
/// (nothing when it could not be read): the signed event, or a malformed response.
pub fn sign_event_result<E>(converted: Option<Nip46Response<E>>) -> (r: Result<E, Nip46OverNip55ClientError>)
    ensures
        match converted {
            Some(Nip46Response::SignEvent(e)) => r == Ok::<E, Nip46OverNip55ClientError>(e),
            _ => r matches Err(Nip46OverNip55ClientError::UdsClientError(UdsClientError::MalformedResponse)),
        },
{
    match converted {
        Some(Nip46Response::SignEvent(e)) => Ok(e),
        _ => Err(Nip46OverNip55ClientError::UdsClientError(UdsClientError::MalformedResponse)),
    }
}

/// A NIP-46 message: a request, or a response with a result or an error.
pub enum Nip46Message<R> {
    Request,
    Response { result: Option<R>, error: Option<String> },
}

/// The result of a NIP-46 response: only a response with a result and no error has one.
pub fn response_result<R>(message: Nip46Message<R>) -> (r: Option<R>)
    ensures
        match message {
            Nip46Message::Response { result: Some(x), error: None } => r == Some(x),
            _ => r is None,
        },
{
    match message {
        Nip46Message::Response { result: Some(x), error: None } => Some(x),
        _ => None,
    }
}

/// The public key named for `secret` in the form `approval_requests` hands it out.
pub open spec fn derived_key(secret: Seq<u8>, key: Option<[u8; 32]>) -> bool {
    match key {
        Some(pk) => nostr_public_key_of(secret) == Some(pk@),
        None => nostr_public_key_of(secret) is None,
    }
}

/// What the approver is shown for a batch: each request that is a NIP-46 request, in
/// order, with the public key of the user whose secret key (its bytes) came with it.
pub fn approval_requests<R>(parsed: Vec<Option<(R, [u8; 32])>>) -> (r: Vec<(R, Option<[u8; 32]>)>)
    ensures
        r.len() == present(parsed@).len(),
        forall|k: int| 0 <= k < r.len() ==> (#[trigger] r[k]).0 == present(parsed@)[k].0 && derived_key(present(parsed@)[k].1@, r[k].1),
{
    let valid = requests_for_approval(parsed);
    let ghost vs = valid@;
    let mut rest = valid;
    let mut out: Vec<(R, Option<[u8; 32]>)> = Vec::new();
    let mut i: usize = 0;
    assert(rest@.len() == rest.len());
    while rest.len() > 0
        invariant
            i + rest.len() == vs.len(),
            vs.len() <= usize::MAX,
            rest@ == vs.subrange(i as int, vs.len() as int),
            out.len() == i,
            forall|k: int| 0 <= k < i ==> (#[trigger] out[k]).0 == vs[k].0 && derived_key(vs[k].1@, out[k].1),
        decreases rest.len(),
    {
        let (request, secret) = rest.remove(0);
        assert(request == vs[i as int].0 && secret == vs[i as int].1);
        let public_key = public_key_of_secret(&secret);
        out.push((request, public_key));
        i = i + 1;
        assert(rest@ =~= vs.subrange(i as int, vs.len() as int));
    }
    out
}

/// `p` is how a request of a batch with the secret key bytes of its user reads as NIP-46:
/// nothing when it is no NIP-46 request, else the request read and the secret key bytes.
pub open spec fn read_with_key(p: Option<(Nip46Parsed, [u8; 32])>, request: (JsonRpcRequest, [u8; 32])) -> bool {
    match p {
        Some((q, k)) => k == request.1 && reads_as(Some(q), request.0@),
        None => reads_as(None, request.0@),
    }
}

/// Reads each request of a batch, given with the secret key bytes of its user, as NIP-46.
pub fn read_nip46_batch(requests: &Vec<(JsonRpcRequest, [u8; 32])>) -> (r: Vec<Option<(Nip46Parsed, [u8; 32])>>)
    ensures
        r.len() == requests.len(),
        forall|i: int| 0 <= i < requests.len() ==> read_with_key(#[trigger] r[i], requests[i]),
{
    let mut out: Vec<Option<(Nip46Parsed, [u8; 32])>> = Vec::new();
    let mut i: usize = 0;
    while i < requests.len()
        invariant
            i <= requests.len(),
            out.len() == i,
            forall|j: int| 0 <= j < i ==> read_with_key(#[trigger] out[j], requests[j]),
        decreases requests.len() - i,
    {
        let (request, secret) = &requests[i];
        let p = match read_nip46_request(request) {
            Some(q) => Some((q, *secret)),
            None => None,
        };
        out.push(p);
        i = i + 1;
    }
    out
}

/// What the approver is shown of a request read as NIP-46: the request and the secret key
/// bytes of its user.
pub open spec fn shown(p: Option<(Nip46Parsed, [u8; 32])>) -> Option<(NostrConnectRequest, [u8; 32])> {
    match p {
        Some((q, k)) => Some((q.request, k)),
        None => None,
    }
}

/// What the approver is shown for a batch read as NIP-46: each NIP-46 request, in order,
/// with the public key of its user.
pub fn nip46_approval_list(parsed: &Vec<Option<(Nip46Parsed, [u8; 32])>>) -> (r: Vec<(NostrConnectRequest, Option<[u8; 32]>)>)
    ensures
        r.len() == present(parsed@.map_values(|p| shown(p))).len(),
        forall|k: int| 0 <= k < r.len() ==> (#[trigger] r[k]).0 == present(parsed@.map_values(|p| shown(p)))[k].0
            && derived_key(present(parsed@.map_values(|p| shown(p)))[k].1@, r[k].1),
{
    let mut copies: Vec<Option<(NostrConnectRequest, [u8; 32])>> = Vec::new();
    let mut i: usize = 0;
    while i < parsed.len()
        invariant
            i <= parsed.len(),
            copies@ == parsed@.take(i as int).map_values(|p| shown(p)),
        decreases parsed.len() - i,
    {
        let c = match &parsed[i] {
            Some((q, k)) => Some((q.request.clone(), *k)),
            None => None,
        };
        copies.push(c);
        i = i + 1;
        assert(copies@ =~= parsed@.take(i as int).map_values(|p| shown(p)));
    }
    assert(parsed@.take(parsed.len() as int) =~= parsed@);
    approval_requests(copies)
}

/// `d` answers a request read as `p` in a batch answered with `approval`: a request that
/// is no NIP-46 request is invalid; otherwise a rejected batch is refused; otherwise a
/// request to sign an event is answered with that very event signed with its user's key,
/// and other methods are not implemented.
pub open spec fn nip46_answer(p: Option<(Nip46Parsed, [u8; 32])>, approval: Nip46RequestApproval, d: DataView) -> bool {
    match p {
        None => d == invalid_request_reply(),
        Some((q, k)) => if approval == Nip46RequestApproval::Reject {
            d == rejected_reply()
        } else if q.signs {
            signed_reply(d) && signed_with(event_to_sign(q), k, d->Success_0->Str_0)
        } else {
            d == not_implemented_reply()
        },
    }
}

/// Whether every event that an approved batch asks to sign can be signed with the key of
/// its user.
pub open spec fn nip46_signing_possible(parsed: Seq<Option<(Nip46Parsed, [u8; 32])>>, approval: Nip46RequestApproval) -> bool {
    approval == Nip46RequestApproval::Approve ==> forall|i: int|
        0 <= i < parsed.len() && (#[trigger] parsed[i]) is Some && parsed[i]->Some_0.0.signs
            ==> signing_possible(parsed[i]->Some_0.0, parsed[i]->Some_0.1)
}

/// `r` is what `plan_batch` is given for a request read as `p`: the text of the event to
/// sign with the key of its user, or another method.
pub open spec fn planned(p: Option<(Nip46Parsed, [u8; 32])>, r: Option<Nip46Request<(String, [u8; 32])>>) -> bool {
    match p {
        Some((q, k)) => if q.signs {
            r matches Some(Nip46Request::SignEvent((s, k2))) && s@ == event_to_sign(q) && k2 == k
        } else {
            r matches Some(Nip46Request::Other)
        },
        None => r is None,
    }
}

/// The replies to a batch read as NIP-46 that the approver answered with `approval`, in
/// order; events are signed with the key of their user. The replies come back exactly
/// when every event to sign can be signed.
pub fn answer_nip46_batch(parsed: Vec<Option<(Nip46Parsed, [u8; 32])>>, approval: Nip46RequestApproval) -> (r: Option<Vec<JsonRpcResponseData>>)
    ensures
        (r is Some) == nip46_signing_possible(parsed@, approval),
        r matches Some(v) ==> v.len() == parsed.len() && forall|i: int| 0 <= i < parsed.len() ==> nip46_answer(parsed[i], approval, (#[trigger] v[i])@),
{
    let ghost ps = parsed@;
    assert(ps.len() == parsed.len());
    let mut rest = parsed;
    let mut as_read: Vec<Option<Nip46Request<(String, [u8; 32])>>> = Vec::new();
    let mut i: usize = 0;
    while rest.len() > 0
        invariant
            i + rest.len() == ps.len(),
            ps.len() <= usize::MAX,
            rest@ == ps.subrange(i as int, ps.len() as int),
            as_read.len() == i,
            forall|j: int| 0 <= j < i ==> planned(ps[j], #[trigger] as_read[j]),
        decreases rest.len(),
    {
        let p = rest.remove(0);
        assert(p == ps[i as int]);
        let q = match p {
            Some((q, k)) => Some(if q.signs { Nip46Request::SignEvent((event_text(&q), k)) } else { Nip46Request::Other }),
            None => None,
        };
        as_read.push(q);
        i = i + 1;
        assert(rest@ =~= ps.subrange(i as int, ps.len() as int));
    }
    let ghost reads = as_read@;
    let steps = plan_batch(as_read, approval);
    let ghost ss = steps@;
    let mut rest_steps = steps;
    let mut out: Vec<JsonRpcResponseData> = Vec::new();
    let mut j: usize = 0;
    while rest_steps.len() > 0
        invariant
            j + rest_steps.len() == ps.len(),
            ps == parsed@,
            ss.len() == ps.len(),
            reads.len() == ps.len(),
            ps.len() <= usize::MAX,
            rest_steps@ == ss.subrange(j as int, ss.len() as int),
            forall|k: int| 0 <= k < ps.len() ==> planned(ps[k], #[trigger] reads[k]),
            forall|k: int| 0 <= k < ps.len() ==> handler_step(reads[k], approval, #[trigger] ss[k]),
            out.len() == j,
            forall|k: int| 0 <= k < j ==> nip46_answer(ps[k], approval, (#[trigger] out[k])@),
            forall|k: int| 0 <= k < j && approval == Nip46RequestApproval::Approve && (#[trigger] ps[k]) is Some && ps[k]->Some_0.0.signs
                ==> signing_possible(ps[k]->Some_0.0, ps[k]->Some_0.1),
        decreases rest_steps.len(),
    {
        let step = rest_steps.remove(0);
        assert(step == ss[j as int]);
        assert(handler_step(reads[j as int], approval, ss[j as int]));
        assert(planned(ps[j as int], reads[j as int]));
        let d = match step {
            Nip46Step::Sign((s, k)) => match sign_event_json(s.as_str(), &k) {
                Some(event_json) => signed_event_reply(event_json),
                None => {
                    assert(!signing_possible(ps[j as int]->Some_0.0, ps[j as int]->Some_0.1));
                    assert(!nip46_signing_possible(parsed@, approval));
                    return None;
                },
            },
            Nip46Step::Reply(d) => d,
        };
        out.push(d);
        j = j + 1;
        assert(rest_steps@ =~= ss.subrange(j as int, ss.len() as int));
    }
    Some(out)
}

/// What signing an event gives, from the response of the server: the signed event when it
/// is a success whose result is the JSON text of a signed event, the error the server
/// answered with, or else a malformed response.
pub fn sign_event_outcome(response: JsonRpcResponse) -> (r: Result<Event, Nip46OverNip55ClientError>)
    ensures
        (r is Ok) == accepted_signature(response@),
        match response@.data {
            DataView::Error(e) => r matches Err(Nip46OverNip55ClientError::JsonRpcError(y)) && y@ == e,
            DataView::Success(_) => match nip46_result_text(response@) {
                Some(t) => if !reserved_result(t) && nostr_event_parses(t) {
                    r is Ok
                } else {
                    r matches Err(Nip46OverNip55ClientError::UdsClientError(UdsClientError::MalformedResponse))
                },
                None => r matches Err(Nip46OverNip55ClientError::UdsClientError(UdsClientError::MalformedResponse)),
            },
        },
{
    if let Some(error) = response_error(response.data()) {
        return Err(error);
    }
    let converted = match nip46_response_text(&response) {
        Some(t) => parse_signed_event(t.as_str()),
        None => None,
    };
    sign_event_result(converted)
}

} // verus!
