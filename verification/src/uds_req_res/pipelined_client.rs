//! The pipelined client: requests in flight are remembered by id until the response
//! with that id arrives.
use vstd::prelude::*;

use crate::json::{field, text, JsonValue};
use crate::json::Json;
use crate::json_rpc::{
    batch_to_json, id_from_json, id_to_json, key_id, lemma_id_json_roundtrip, lemma_request_json_roundtrip,
    lemma_response_id_member, params_well_formed, response_to_json, ResponseView,
    request_from_json, request_to_json, BatchView, IdView, JsonRpcId, JsonRpcRequest, RequestView,
};

verus! {

/// Error that can occur when communicating with a pipelined Unix domain socket server.
#[derive(Debug, Clone, PartialEq, Eq)]
pub enum PipelinedUdsClientError {
    /// A Unix domain socket server is not running on the specified address.
    ServerNotRunning,
    /// An I/O error occurred while writing to or reading from the Unix domain socket.
    UdsSocketError,
    /// An error occurred while serializing the request.
    RequestSerializationError,
    /// The request is missing an ID field required for pipelining.
    MissingRequestId,
    /// Connection error.
    ConnectionError,
    /// Response channel was closed unexpectedly.
    ResponseChannelClosed,
    /// Received a response from the server that cannot be parsed, with why.
    MalformedResponse(String),
}

impl PipelinedUdsClientError {
    /// The text that describes the error.
    pub fn message(&self) -> (r: String)
        ensures
            r@ == match self {
                PipelinedUdsClientError::ServerNotRunning => "Unix domain socket server not running."@,
                PipelinedUdsClientError::UdsSocketError => "Error writing to or reading from Unix domain socket."@,
                PipelinedUdsClientError::RequestSerializationError => "Error serializing the request."@,
                PipelinedUdsClientError::MissingRequestId => "Request missing ID field required for pipelining."@,
                PipelinedUdsClientError::ConnectionError => "Connection error."@,
                PipelinedUdsClientError::ResponseChannelClosed => "Response channel was closed unexpectedly."@,
                PipelinedUdsClientError::MalformedResponse(why) => "Received a response from the server that cannot be parsed ("@
                    + why@ + ")."@,
            },
    {
        match self {
            PipelinedUdsClientError::ServerNotRunning => text("Unix domain socket server not running."),
            PipelinedUdsClientError::UdsSocketError => text("Error writing to or reading from Unix domain socket."),
            PipelinedUdsClientError::RequestSerializationError => text("Error serializing the request."),
            PipelinedUdsClientError::MissingRequestId => text("Request missing ID field required for pipelining."),
            PipelinedUdsClientError::ConnectionError => text("Connection error."),
            PipelinedUdsClientError::ResponseChannelClosed => text("Response channel was closed unexpectedly."),
            PipelinedUdsClientError::MalformedResponse(why) => {
                let mut r = text("Received a response from the server that cannot be parsed (");
                r.append(why.as_str());
                r.append(").");
                r
            },
        }
    }
}

/// The id under which a request, given as the JSON it is sent as, waits for its response:
/// its `id` member read as a JSON-RPC id. A request without an `id` member, or whose `id`
/// member is not a string, `null` or an `i32` integer, has no such id.
pub open spec fn correlation_id(message: Json) -> Option<IdView> {
    match field(message, key_id()) {
        Some(i) => match id_from_json(i) {
            Ok(id) => Some(id),
            Err(_) => None,
        },
        None => None,
    }
}

/// The id under which `request` (the JSON it is sent as) waits for its response; a
/// request without one cannot be pipelined.
pub fn request_correlation_id(request: &JsonValue) -> (r: Result<JsonRpcId, PipelinedUdsClientError>)
    ensures
        match correlation_id(request.model()) {
            Some(id) => r matches Ok(x) && x@ == id,
            None => r == Err::<JsonRpcId, PipelinedUdsClientError>(PipelinedUdsClientError::MissingRequestId),
        },
{
    match response_correlation_id(request) {
        Some(id) => Ok(id),
        None => Err(PipelinedUdsClientError::MissingRequestId),
    }
}

/// The id of the request that `response` (the JSON received) answers, if it carries one.
pub fn response_correlation_id(response: &JsonValue) -> (r: Option<JsonRpcId>)
    ensures
        match correlation_id(response.model()) {
            Some(id) => r matches Some(x) && x@ == id,
            None => r is None,
        },
{
    let key = text("id");
    proof {
        reveal_strlit("id");
    }
    assert(key@ =~= key_id());
    match response.get(&key) {
        Some(i) => match JsonRpcId::from_json_value(i) {
            Ok(id) => Some(id),
            Err(_) => None,
        },
        None => None,
    }
}

/// The requests in flight, each with what waits for its response.
pub struct PendingRequests<T> {
    entries: Vec<(JsonRpcId, T)>,
}

impl<T> PendingRequests<T> {
    /// Model: for each id in flight, what waits for its response.
    pub closed spec fn view(&self) -> Map<IdView, T> {
        Map::new(
            |k: IdView| exists|i: int| 0 <= i < self.entries.len() && (#[trigger] self.entries[i]).0@ == k,
            |k: IdView| self.entries[choose|i: int| 0 <= i < self.entries.len() && (#[trigger] self.entries[i]).0@ == k].1,
        )
    }

    /// No id is in flight twice.
    pub closed spec fn well_formed(&self) -> bool {
        forall|i: int, j: int|
            0 <= i < j < self.entries.len() ==> (#[trigger] self.entries[i]).0@ != (#[trigger] self.entries[j]).0@
    }

    /// No request in flight.
    pub fn new() -> (r: PendingRequests<T>)
        ensures
            r.well_formed(),
            r.view() == Map::<IdView, T>::empty(),
    {
        let r = PendingRequests { entries: Vec::new() };
        assert(r.view() =~= Map::<IdView, T>::empty());
        r
    }

    fn position(&self, id: &JsonRpcId) -> (r: Option<usize>)
        requires
            self.well_formed(),
        ensures
            match r {
                Some(i) => i < self.entries.len() && self.entries[i as int].0@ == id@,
                None => forall|i: int| 0 <= i < self.entries.len() ==> (#[trigger] self.entries[i]).0@ != id@,
            },
    {
        let mut i: usize = 0;
        while i < self.entries.len()
            invariant
                i <= self.entries.len(),
                forall|j: int| 0 <= j < i ==> (#[trigger] self.entries[j]).0@ != id@,
            decreases self.entries.len() - i,
        {
            if self.entries[i].0.same_as(id) {
                return Some(i);
            }
            i = i + 1;
        }
        None
    }

    /// Remembers that `waiter` waits for the response to the request with `id`. What
    /// waited for that id before, if anything, is handed back.
    pub fn register(&mut self, id: JsonRpcId, waiter: T) -> (replaced: Option<T>)
        requires
            old(self).well_formed(),
        ensures
            final(self).well_formed(),
            final(self).view() == old(self).view().insert(id@, waiter),
            replaced == (if old(self).view().contains_key(id@) {
                Some(old(self).view()[id@])
            } else {
                None::<T>
            }),
    {
        let ghost before = self.view();
        let ghost k = id@;
        match self.position(&id) {
            Some(i) => {
                let ghost old_entries = self.entries@;
                let (_, prev) = self.entries.remove(i);
                self.entries.insert(i, (id, waiter));
                proof {
                    assert(self.entries@ =~= old_entries.update(i as int, self.entries@[i as int]));
                    assert(before.contains_key(k));
                    let c = choose|c: int| 0 <= c < old_entries.len() && (#[trigger] old_entries[c]).0@ == k;
                    assert(c == i);
                    assert(prev == before[k]);
                    assert forall|a: int, b: int|
                        0 <= a < b < self.entries.len() implies (#[trigger] self.entries[a]).0@ != (#[trigger] self.entries[b]).0@ by {
                        assert(old_entries[a].0@ != old_entries[b].0@);
                    }
                    assert forall|key: IdView| #[trigger] self.view().contains_key(key) == before.insert(k, waiter).contains_key(key) by {
                        if self.view().contains_key(key) {
                            let w = choose|w: int| 0 <= w < self.entries.len() && (#[trigger] self.entries[w]).0@ == key;
                            if w != i {
                                assert(old_entries[w].0@ == key);
                            }
                        }
                        if before.contains_key(key) && key != k {
                            let w = choose|w: int| 0 <= w < old_entries.len() && (#[trigger] old_entries[w]).0@ == key;
                            assert(self.entries[w].0@ == key);
                        }
                    }
                    assert forall|key: IdView| #[trigger] self.view().contains_key(key) implies self.view()[key] == before.insert(k, waiter)[key] by {
                        let w = choose|w: int| 0 <= w < self.entries.len() && (#[trigger] self.entries[w]).0@ == key;
                        if key == k {
                            assert(w == i);
                        } else {
                            let v = choose|v: int| 0 <= v < old_entries.len() && (#[trigger] old_entries[v]).0@ == key;
                            assert(self.entries[v].0@ == key);
                            assert(v == w);
                        }
                    }
                    assert(self.view() =~= before.insert(k, waiter));
                }
                Some(prev)
            },
            None => {
                let ghost old_entries = self.entries@;
                self.entries.push((id, waiter));
                proof {
                    assert(!before.contains_key(k));
                    let n = old_entries.len() as int;
                    assert forall|a: int, b: int|
                        0 <= a < b < self.entries.len() implies (#[trigger] self.entries[a]).0@ != (#[trigger] self.entries[b]).0@ by {
                        if b < n {
                            assert(old_entries[a].0@ != old_entries[b].0@);
                        } else {
                            assert(old_entries[a].0@ != k);
                        }
                    }
                    assert forall|key: IdView| #[trigger] self.view().contains_key(key) == before.insert(k, waiter).contains_key(key) by {
                        if self.view().contains_key(key) && key != k {
                            let w = choose|w: int| 0 <= w < self.entries.len() && (#[trigger] self.entries[w]).0@ == key;
                            assert(old_entries[w].0@ == key);
                        }
                        if before.contains_key(key) {
                            let w = choose|w: int| 0 <= w < old_entries.len() && (#[trigger] old_entries[w]).0@ == key;
                            assert(self.entries[w].0@ == key);
                        }
                        if key == k {
                            assert(self.entries[n].0@ == key);
                        }
                    }
                    assert forall|key: IdView| #[trigger] self.view().contains_key(key) implies self.view()[key] == before.insert(k, waiter)[key] by {
                        let w = choose|w: int| 0 <= w < self.entries.len() && (#[trigger] self.entries[w]).0@ == key;
                        if key == k {
                            assert(self.entries[n].0@ == key);
                            assert(w == n);
                        } else {
                            let v = choose|v: int| 0 <= v < old_entries.len() && (#[trigger] old_entries[v]).0@ == key;
                            assert(self.entries[v].0@ == key);
                            assert(v == w);
                        }
                    }
                    assert(self.view() =~= before.insert(k, waiter));
                }
                None
            },
        }
    }

    /// Takes out what waits for the response to the request with `id`, if the request is
    /// in flight; it is then in flight no more.
    pub fn complete(&mut self, id: &JsonRpcId) -> (r: Option<T>)
        requires
            old(self).well_formed(),
        ensures
            final(self).well_formed(),
            final(self).view() == old(self).view().remove(id@),
            r == (if old(self).view().contains_key(id@) {
                Some(old(self).view()[id@])
            } else {
                None::<T>
            }),
    {
        let ghost before = self.view();
        let ghost k = id@;
        match self.position(id) {
            Some(i) => {
                let ghost old_entries = self.entries@;
                let (_, waiter) = self.entries.remove(i);
                proof {
                    assert(before.contains_key(k));
                    let c = choose|c: int| 0 <= c < old_entries.len() && (#[trigger] old_entries[c]).0@ == k;
                    assert(c == i);
                    assert forall|a: int, b: int|
                        0 <= a < b < self.entries.len() implies (#[trigger] self.entries[a]).0@ != (#[trigger] self.entries[b]).0@ by {
                        let a0 = if a < i { a } else { a + 1 };
                        let b0 = if b < i { b } else { b + 1 };
                        assert(self.entries[a] == old_entries[a0]);
                        assert(self.entries[b] == old_entries[b0]);
                        assert(old_entries[a0].0@ != old_entries[b0].0@);
                    }
                    assert forall|key: IdView| #[trigger] self.view().contains_key(key) == before.remove(k).contains_key(key) by {
                        if self.view().contains_key(key) {
                            let w = choose|w: int| 0 <= w < self.entries.len() && (#[trigger] self.entries[w]).0@ == key;
                            let w0 = if w < i { w } else { w + 1 };
                            assert(self.entries[w] == old_entries[w0]);
                            assert(old_entries[w0].0@ == key);
                            assert(w0 != i);
                        }
                        if before.contains_key(key) && key != k {
                            let v = choose|v: int| 0 <= v < old_entries.len() && (#[trigger] old_entries[v]).0@ == key;
                            assert(v != i);
                            let v1 = if v < i { v } else { v - 1 };
                            assert(self.entries[v1] == old_entries[v]);
                        }
                    }
                    assert forall|key: IdView| #[trigger] self.view().contains_key(key) implies self.view()[key] == before.remove(k)[key] by {
                        let w = choose|w: int| 0 <= w < self.entries.len() && (#[trigger] self.entries[w]).0@ == key;
                        let w0 = if w < i { w } else { w + 1 };
                        assert(self.entries[w] == old_entries[w0]);
                        let v = choose|v: int| 0 <= v < old_entries.len() && (#[trigger] old_entries[v]).0@ == key;
                        if v != w0 {
                            assert(old_entries[v].0@ != old_entries[w0].0@);
                        }
                    }
                    assert(self.view() =~= before.remove(k));
                }
                Some(waiter)
            },
            None => {
                proof {
                    assert(!before.contains_key(k));
                    assert(before.remove(k) =~= before);
                }
                None
            },
        }
    }
}

/// A single request waits for its response under its own id.
pub proof fn lemma_single_request_correlates_by_its_id(r: RequestView)
    requires
        params_well_formed(r.params),
    ensures
        correlation_id(request_to_json(r)) == Some(r.id),
{
    lemma_request_json_roundtrip(r);
    assert(field(request_to_json(r), key_id()) is Some);
}

/// A message whose `id` member is the JSON form of an id waits, or is delivered, under
/// that id, whatever its other members are.
pub proof fn lemma_correlation_id_is_the_id_member(message: Json, id: IdView)
    requires
        field(message, key_id()) == Some(id_to_json(id)),
    ensures
        correlation_id(message) == Some(id),
{
    lemma_id_json_roundtrip(id);
}

/// Two messages with the same `id` member have the same correlation id.
pub proof fn lemma_correlation_id_reads_only_the_id(m1: Json, m2: Json)
    requires
        field(m1, key_id()) == field(m2, key_id()),
    ensures
        correlation_id(m1) == correlation_id(m2),
{
}

/// Every response, single, is delivered under the id of the request it answers: the id
/// it carries.
pub proof fn lemma_response_correlates_by_its_id(r: ResponseView)
    ensures
        correlation_id(response_to_json(r)) == Some(r.id),
{
    lemma_response_id_member(r);
    lemma_correlation_id_is_the_id_member(response_to_json(r), r.id);
}

/// A batch of requests is sent as an array, which has no id: it cannot be pipelined.
pub proof fn lemma_batch_has_no_correlation_id(rs: Seq<RequestView>)
    ensures
        correlation_id(batch_to_json::<JsonRpcRequest>(BatchView::Batch(rs))) is None,
{
}

/// Registering a waiter under an id and then completing that id hands back that waiter
/// and leaves the other requests in flight as they were; completing another id does not
/// touch it.
pub proof fn lemma_complete_returns_registered<T>(pending: Map<IdView, T>, id: IdView, waiter: T, other: IdView)
    ensures
        pending.insert(id, waiter).contains_key(id),
        pending.insert(id, waiter)[id] == waiter,
        pending.insert(id, waiter).remove(id) == pending.remove(id),
        other != id ==> pending.insert(id, waiter).remove(other).contains_key(id),
        other != id ==> pending.insert(id, waiter).remove(other)[id] == waiter,
{
    assert(pending.insert(id, waiter).remove(id) =~= pending.remove(id));
}

} // verus!
