//! Request/response transports over Unix domain sockets.
use vstd::prelude::*;

use crate::json_rpc::{parse_error, parse_error_response, DataView, IdView, JsonRpcRequest, JsonRpcResponse, ResponseView, SingleOrBatch};

pub mod client;
pub mod framing;
pub mod pipelined_client;
pub mod pipelined_server;

verus! {

/// A request that can be sent over a Unix domain socket.
pub trait UdsRequest {}

impl UdsRequest for SingleOrBatch<JsonRpcRequest> {}

/// A response that can be sent back over a Unix domain socket.
pub trait UdsResponse: Sized {
    /// Create a response representing that the request could not be parsed.
    fn request_parse_error_response() -> Self;
}

impl UdsResponse for SingleOrBatch<JsonRpcResponse> {
    fn request_parse_error_response() -> (r: Self)
        ensures
            r matches SingleOrBatch::Single(x) && x@ == (ResponseView { data: DataView::Error(parse_error()), id: IdView::Null }),
    {
        parse_error_response()
    }
}

} // verus!
