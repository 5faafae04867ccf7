//! NIP-46 over NIP-55 as a stream of request batches that the caller approves or rejects.
use vstd::prelude::*;

use crate::json::{text, Json};
use crate::keys::{nostr_public_key_of, public_key_of_secret};
use crate::json_rpc::{
    DataView, JsonRpcError, JsonRpcErrorCode, JsonRpcRequest, JsonRpcResponse, JsonRpcResponseData,
    SingleOrBatch,
};
use crate::nip46::{not_implemented_reply, rejected_reply, Nip46Request, Nip46Response, Nip46Step};
use crate::uds::UdsClientError;
use crate::nostr_connect::{
    accepted_signature, event_text, event_to_sign, nip46_response_text, nip46_result_text, nostr_event_parses,
    parse_signed_event, read_nip46_request, reads_as, reserved_result, sign_event_json, signed_with,
    signed_event_reply, signed_reply, signing_possible, Nip46Parsed,
};
use nostr_sdk::nips::nip46::NostrConnectRequest;
use nostr_sdk::Event;

verus! {

broadcast use vstd::std_specs::vec::group_vec_axioms;

/// Approval or rejection of a NIP-46 request. Used in the server to determine whether to
/// handle requests or not.
#[derive(Debug, Clone, Copy, PartialEq, Eq, Structural)]
pub enum Nip46RequestApproval {
    Approve,
    Reject,
}

/// Error that can occur when communicating with a NIP-46 server over NIP-55.
#[derive(Debug)]
pub enum Nip46OverNip55ClientError {
    /// A transport-level error occurred.
    UdsClientError(UdsClientError),
    /// The NIP-46 server returned an error response.
    JsonRpcError(JsonRpcError),
}

/// The only response to a single request: a batch is a malformed response.
pub fn single_response(response: SingleOrBatch<JsonRpcResponse>) -> (r: Result<JsonRpcResponse, Nip46OverNip55ClientError>)
    ensures
        match response {
            SingleOrBatch::Single(x) => r == Ok::<JsonRpcResponse, Nip46OverNip55ClientError>(x),
            SingleOrBatch::Batch(_) => r matches Err(Nip46OverNip55ClientError::UdsClientError(UdsClientError::MalformedResponse)),
        },
{
    match response {
        SingleOrBatch::Single(x) => Ok(x),
        SingleOrBatch::Batch(_) => Err(Nip46OverNip55ClientError::UdsClientError(UdsClientError::MalformedResponse)),
    }
}

/// The error that a response carries, if it carries one.
pub fn response_error(data: &JsonRpcResponseData) -> (r: Option<Nip46OverNip55ClientError>)
    ensures
        match data@ {
            DataView::Error(e) => r matches Some(Nip46OverNip55ClientError::JsonRpcError(x)) && x@ == e,
            DataView::Success(_) => r is None,
        },
{
    match data {
        JsonRpcResponseData::Error { error } => Some(Nip46OverNip55ClientError::JsonRpcError(error.duplicate())),
        JsonRpcResponseData::Success { .. } => None,
    }
}

/// What signing an event gives, from the NIP-46 result read from a successful response
/// (nothing when it could not be read): the signed event, or a malformed response.
pub fn sign_event_result<E>(converted: Option<Nip46Response<E>>) -> (r: Result<E, Nip46OverNip55ClientError>)
    ensures
        match converted {
            Some(Nip46Response::SignEvent(e)) => r == Ok::<E, Nip46OverNip55ClientError>(e),
            _ => r matches Err(Nip46OverNip55ClientError::UdsClientError(UdsClientError::MalformedResponse)),
        },
{
    match converted {
        Some(Nip46Response::SignEvent(e)) => Ok(e),
        _ => Err(Nip46OverNip55ClientError::UdsClientError(UdsClientError::MalformedResponse)),
    }
}

/// The items that are present, in order.
pub open spec fn present<R>(items: Seq<Option<R>>) -> Seq<R>
    decreases items.len(),
{
    if items.len() == 0 {
        Seq::empty()
    } else {
        match items.last() {
            Some(x) => present(items.drop_last()).push(x),
            None => present(items.drop_last()),
        }
    }
}

/// The requests of a batch that are NIP-46 requests, in order: what the caller is asked
/// to approve.
pub fn requests_for_approval<R>(parsed: Vec<Option<R>>) -> (r: Vec<R>)
    ensures
        r@ == present(parsed@),
{
    assert(parsed@.len() == parsed.len());
    let ghost ps = parsed@;
    let mut rest = parsed;
    let mut out: Vec<R> = Vec::new();
    let mut i: usize = 0;
    assert(ps.take(0) =~= Seq::<Option<R>>::empty());
    while rest.len() > 0
        invariant
            i + rest.len() == ps.len(),
            ps.len() <= usize::MAX,
            rest@ == ps.subrange(i as int, ps.len() as int),
            out@ == present(ps.take(i as int)),
        decreases rest.len(),
    {
        let p = rest.remove(0);
        assert(p == ps[i as int]);
        assert(ps.take(i + 1).drop_last() =~= ps.take(i as int));
        assert(ps.take(i + 1).last() == p);
        match p {
            Some(x) => out.push(x),
            None => {},
        }
        i = i + 1;
        assert(rest@ =~= ps.subrange(i as int, ps.len() as int));
    }
    assert(ps.take(ps.len() as int) =~= ps);
    out
}

/// `step` is what the stream replies for a NIP-46 request of a batch that the caller
/// answered with `approval`: every request of a rejected batch is refused; in an approved
/// batch events are signed and other methods are not implemented.
pub open spec fn stream_step<S>(request: Nip46Request<S>, approval: Nip46RequestApproval, step: Nip46Step<S>) -> bool {
    if approval == Nip46RequestApproval::Reject {
        step matches Nip46Step::Reply(d) && d@ == rejected_reply()
    } else {
        match request {
            Nip46Request::SignEvent(s) => step == Nip46Step::Sign(s),
            Nip46Request::Other => step matches Nip46Step::Reply(d) && d@ == not_implemented_reply(),
        }
    }
}

fn error_data(code: JsonRpcErrorCode, message: &str) -> (r: JsonRpcResponseData)
    ensures
        r@ == crate::nip46::error_reply(code, message@),
{
    JsonRpcResponseData::Error { error: JsonRpcError::new(code, text(message), None) }
}

/// What the stream replies for each request of a batch, in order. In an approved batch
/// every request must be a NIP-46 request.
pub fn plan_stream_reply<S>(parsed: Vec<Option<Nip46Request<S>>>, approval: Nip46RequestApproval) -> (r: Vec<Nip46Step<S>>)
    requires
        approval == Nip46RequestApproval::Approve ==> forall|i: int| 0 <= i < parsed.len() ==> (#[trigger] parsed[i]) is Some,
    ensures
        r.len() == parsed.len(),
        forall|i: int| 0 <= i < parsed.len() ==> approval == Nip46RequestApproval::Reject ==> (#[trigger] r[i] matches Nip46Step::Reply(d) && d@ == rejected_reply()),
        forall|i: int| 0 <= i < parsed.len() && parsed[i] is Some ==> stream_step(parsed[i]->Some_0, approval, #[trigger] r[i]),
{
    assert(parsed@.len() == parsed.len());
    let ghost ps = parsed@;
    let mut rest = parsed;
    let mut out: Vec<Nip46Step<S>> = Vec::new();
    let mut i: usize = 0;
    while rest.len() > 0
        invariant
            i + rest.len() == ps.len(),
            ps.len() <= usize::MAX,
            rest@ == ps.subrange(i as int, ps.len() as int),
            approval == Nip46RequestApproval::Approve ==> forall|j: int| 0 <= j < ps.len() ==> (#[trigger] ps[j]) is Some,
            out.len() == i,
            forall|j: int| 0 <= j < i ==> approval == Nip46RequestApproval::Reject ==> (#[trigger] out[j] matches Nip46Step::Reply(d) && d@ == rejected_reply()),
            forall|j: int| 0 <= j < i && ps[j] is Some ==> stream_step(ps[j]->Some_0, approval, #[trigger] out[j]),
        decreases rest.len(),
    {
        let p = rest.remove(0);
        assert(p == ps[i as int]);
        let step = match approval {
            Nip46RequestApproval::Reject => Nip46Step::Reply(error_data(JsonRpcErrorCode::InternalError, "Batch request rejected")),
            Nip46RequestApproval::Approve => match p {
                Some(Nip46Request::SignEvent(s)) => Nip46Step::Sign(s),
                Some(Nip46Request::Other) => Nip46Step::Reply(error_data(JsonRpcErrorCode::MethodNotFound, "Method not implemented")),
                None => {
                    assert(false);
                    Nip46Step::Reply(error_data(JsonRpcErrorCode::InternalError, "Batch request rejected"))
                },
            },
        };
        out.push(step);
        i = i + 1;
        assert(rest@ =~= ps.subrange(i as int, ps.len() as int));
    }
    out
}

/// What the caller is asked to approve for a batch: the requests that are NIP-46 requests,
/// in order, and the public key of the user whose secret key (its bytes) serves the batch.
pub fn handle_request_array<R>(requests: (Vec<Option<R>>, [u8; 32])) -> (r: (Vec<R>, Option<[u8; 32]>))
    ensures
        r.0@ == present(requests.0@),
        match r.1 {
            Some(pk) => nostr_public_key_of(requests.1@) == Some(pk@),
            None => nostr_public_key_of(requests.1@) is None,
        },
{
    let (parsed, secret) = requests;
    let valid = requests_for_approval(parsed);
    let public_key = public_key_of_secret(&secret);
    (valid, public_key)
}

/// Reads each request of a batch as NIP-46.
pub fn read_nip46_requests(requests: &Vec<JsonRpcRequest>) -> (r: Vec<Option<Nip46Parsed>>)
    ensures
        r.len() == requests.len(),
        forall|i: int| 0 <= i < requests.len() ==> reads_as(#[trigger] r[i], requests[i]@),
{
    let mut out: Vec<Option<Nip46Parsed>> = Vec::new();
    let mut i: usize = 0;
    while i < requests.len()
        invariant
            i <= requests.len(),
            out.len() == i,
            forall|j: int| 0 <= j < i ==> reads_as(#[trigger] out[j], requests[j]@),
        decreases requests.len() - i,
    {
        out.push(read_nip46_request(&requests[i]));
        i = i + 1;
    }
    out
}

/// The NIP-46 request of a request read as NIP-46.
pub open spec fn request_read(p: Option<Nip46Parsed>) -> Option<NostrConnectRequest> {
    match p {
        Some(q) => Some(q.request),
        None => None,
    }
}

/// What the caller is asked to approve for a batch read as NIP-46: its NIP-46 requests,
/// in order, and the public key of the user whose secret key (its bytes) serves it.
pub fn stream_batch_for_approval(parsed: &Vec<Option<Nip46Parsed>>, secret: [u8; 32]) -> (r: (Vec<NostrConnectRequest>, Option<[u8; 32]>))
    ensures
        r.0@ == present(parsed@.map_values(|p| request_read(p))),
        match r.1 {
            Some(pk) => nostr_public_key_of(secret@) == Some(pk@),
            None => nostr_public_key_of(secret@) is None,
        },
{
    let mut copies: Vec<Option<NostrConnectRequest>> = Vec::new();
    let mut i: usize = 0;
    while i < parsed.len()
        invariant
            i <= parsed.len(),
            copies@ == parsed@.take(i as int).map_values(|p| request_read(p)),
        decreases parsed.len() - i,
    {
        let c = match &parsed[i] {
            Some(q) => Some(q.request.clone()),
            None => None,
        };
        copies.push(c);
        i = i + 1;
        assert(copies@ =~= parsed@.take(i as int).map_values(|p| request_read(p)));
    }
    assert(parsed@.take(parsed.len() as int) =~= parsed@);
    handle_request_array((copies, secret))
}

/// `d` is what the stream replies for a request read as `p` in a batch answered with
/// `approval`: every request of a rejected batch is refused; in an approved batch a
/// request to sign an event is answered with that very event signed with the key with
/// bytes `secret`, and other methods are not implemented.
pub open spec fn stream_answer(p: Option<Nip46Parsed>, approval: Nip46RequestApproval, secret: [u8; 32], d: DataView) -> bool {
    if approval == Nip46RequestApproval::Reject {
        d == rejected_reply()
    } else {
        match p {
            Some(q) => if q.signs {
                signed_reply(d) && signed_with(event_to_sign(q), secret, d->Success_0->Str_0)
            } else {
                d == not_implemented_reply()
            },
            None => d == not_implemented_reply(),
        }
    }
}

/// Whether every event that an approved batch asks to sign can be signed with the key
/// with bytes `secret`.
pub open spec fn stream_signing_possible(parsed: Seq<Option<Nip46Parsed>>, approval: Nip46RequestApproval, secret: [u8; 32]) -> bool {
    approval == Nip46RequestApproval::Approve ==> forall|i: int|
        0 <= i < parsed.len() && (#[trigger] parsed[i]) is Some && parsed[i]->Some_0.signs ==> signing_possible(parsed[i]->Some_0, secret)
}

/// `r` is what `plan_stream_reply` is given for a request read as `p`: the text of the
/// event to sign, or another method.
pub open spec fn stream_planned(p: Option<Nip46Parsed>, r: Option<Nip46Request<String>>) -> bool {
    match p {
        Some(q) => if q.signs {
            r matches Some(Nip46Request::SignEvent(s)) && s@ == event_to_sign(q)
        } else {
            r matches Some(Nip46Request::Other)
        },
        None => r is None,
    }
}

/// The replies to a batch read as NIP-46 that the caller answered with `approval`, in
/// order; events are signed with the secret key whose bytes are `secret`. In an approved
/// batch every request must be a NIP-46 request. The replies come back exactly when every
/// event to sign can be signed.
pub fn answer_stream_batch(parsed: Vec<Option<Nip46Parsed>>, approval: Nip46RequestApproval, secret: [u8; 32]) -> (r: Option<Vec<JsonRpcResponseData>>)
    requires
        approval == Nip46RequestApproval::Approve ==> forall|i: int| 0 <= i < parsed.len() ==> (#[trigger] parsed[i]) is Some,
    ensures
        (r is Some) == stream_signing_possible(parsed@, approval, secret),
        r matches Some(v) ==> v.len() == parsed.len() && forall|i: int| 0 <= i < parsed.len() ==> stream_answer(parsed[i], approval, secret, (#[trigger] v[i])@),
{
    let ghost ps = parsed@;
    assert(ps.len() == parsed.len());
    let mut rest = parsed;
    let mut as_read: Vec<Option<Nip46Request<String>>> = Vec::new();
    let mut i: usize = 0;
    while rest.len() > 0
        invariant
            i + rest.len() == ps.len(),
            ps.len() <= usize::MAX,
            rest@ == ps.subrange(i as int, ps.len() as int),
            as_read.len() == i,
            forall|j: int| 0 <= j < i ==> stream_planned(ps[j], #[trigger] as_read[j]),
        decreases rest.len(),
    {
        let p = rest.remove(0);
        assert(p == ps[i as int]);
        let q = match p {
            Some(q) => Some(if q.signs { Nip46Request::SignEvent(event_text(&q)) } else { Nip46Request::Other }),
            None => None,
        };
        as_read.push(q);
        i = i + 1;
        assert(rest@ =~= ps.subrange(i as int, ps.len() as int));
    }
    let ghost reads = as_read@;
    assert forall|k: int| 0 <= k < reads.len() && approval == Nip46RequestApproval::Approve implies (#[trigger] reads[k]) is Some by {
        assert(ps[k] is Some);
        assert(stream_planned(ps[k], reads[k]));
    }
    let steps = plan_stream_reply(as_read, approval);
    let ghost ss = steps@;
    let mut rest_steps = steps;
    let mut out: Vec<JsonRpcResponseData> = Vec::new();
    let mut j: usize = 0;
    while rest_steps.len() > 0
        invariant
            j + rest_steps.len() == ps.len(),
            ps == parsed@,
            ss.len() == ps.len(),
            reads.len() == ps.len(),
            ps.len() <= usize::MAX,
            rest_steps@ == ss.subrange(j as int, ss.len() as int),
            forall|k: int| 0 <= k < ps.len() ==> stream_planned(ps[k], #[trigger] reads[k]),
            forall|k: int| 0 <= k < ps.len() ==> approval == Nip46RequestApproval::Reject ==> (#[trigger] ss[k] matches Nip46Step::Reply(d) && d@ == rejected_reply()),
            forall|k: int| 0 <= k < ps.len() && reads[k] is Some ==> stream_step(reads[k]->Some_0, approval, #[trigger] ss[k]),
            approval == Nip46RequestApproval::Approve ==> forall|k: int| 0 <= k < ps.len() ==> (#[trigger] ps[k]) is Some,
            out.len() == j,
            forall|k: int| 0 <= k < j ==> stream_answer(ps[k], approval, secret, (#[trigger] out[k])@),
            forall|k: int| 0 <= k < j && approval == Nip46RequestApproval::Approve && (#[trigger] ps[k]) is Some && ps[k]->Some_0.signs ==> signing_possible(ps[k]->Some_0, secret),
        decreases rest_steps.len(),
    {
        let step = rest_steps.remove(0);
        assert(step == ss[j as int]);
        assert(stream_planned(ps[j as int], reads[j as int]));
        if approval == Nip46RequestApproval::Approve {
            assert(ps[j as int] is Some);
        }
        let d = match step {
            Nip46Step::Sign(s) => match sign_event_json(s.as_str(), &secret) {
                Some(event_json) => signed_event_reply(event_json),
                None => {
                    assert(!signing_possible(ps[j as int]->Some_0, secret));
                    assert(!stream_signing_possible(parsed@, approval, secret));
                    return None;
                },
            },
            Nip46Step::Reply(d) => d,
        };
        out.push(d);
        j = j + 1;
        assert(rest_steps@ =~= ss.subrange(j as int, ss.len() as int));
    }
    Some(out)
}

/// What signing an event gives, from the response of the server: the signed event when
/// the response is a single success whose result is the JSON text of a signed event, the
/// error the server answered with, or else a malformed response.
pub fn sign_event_outcome(response: SingleOrBatch<JsonRpcResponse>) -> (r: Result<Event, Nip46OverNip55ClientError>)
    ensures
        match response {
            SingleOrBatch::Batch(_) => r matches Err(Nip46OverNip55ClientError::UdsClientError(UdsClientError::MalformedResponse)),
            SingleOrBatch::Single(response) => (r is Ok) == accepted_signature(response@) && match response@.data {
                DataView::Error(e) => r matches Err(Nip46OverNip55ClientError::JsonRpcError(y)) && y@ == e,
                DataView::Success(_) => match nip46_result_text(response@) {
                    Some(t) => if !reserved_result(t) && nostr_event_parses(t) {
                        r is Ok
                    } else {
                        r matches Err(Nip46OverNip55ClientError::UdsClientError(UdsClientError::MalformedResponse))
                    },
                    None => r matches Err(Nip46OverNip55ClientError::UdsClientError(UdsClientError::MalformedResponse)),
                },
            },
        },
{
    let response = match single_response(response) {
        Ok(x) => x,
        Err(e) => return Err(e),
    };
    if let Some(error) = response_error(response.data()) {
        return Err(error);
    }
    let converted = match nip46_response_text(&response) {
        Some(t) => parse_signed_event(t.as_str()),
        None => None,
    };
    sign_event_result(converted)
}

} // verus!
