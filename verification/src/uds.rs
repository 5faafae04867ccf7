//! Shared vocabulary of the Unix domain socket transports.
use vstd::prelude::*;

use crate::json::text;

verus! {

/// A request that can be sent over a Unix domain socket.
pub trait UdsRequest {}

/// A response that can be sent back over a Unix domain socket.
pub trait UdsResponse: Sized {
    /// Create a response representing that the request could not be parsed.
    fn request_parse_error_response() -> Self;
}

/// Error that can occur when communicating with a Unix domain socket server.
#[derive(Clone, Debug, PartialEq, Eq, Structural)]
pub enum UdsClientError {
    /// A Unix domain socket server is not running on the specified address.
    ServerNotRunning,
    /// An I/O error occurred while writing to or reading from the Unix domain socket.
    UdsSocketError,
    /// An error occurred while serializing the request.
    RequestSerializationError,
    /// Received a response from the server that that cannot be parsed.
    MalformedResponse,
}

impl UdsClientError {
    /// The text that describes the error.
    pub fn message(&self) -> (r: String)
        ensures
            r@ == match self {
                UdsClientError::ServerNotRunning => "Unix domain socket server not running."@,
                UdsClientError::UdsSocketError => "Error writing to or reading from Unix domain socket."@,
                UdsClientError::RequestSerializationError => "Error serializing the request."@,
                UdsClientError::MalformedResponse => "Received a response from the server that that cannot be parsed."@,
            },
    {
        match self {
            UdsClientError::ServerNotRunning => text("Unix domain socket server not running."),
            UdsClientError::UdsSocketError => text("Error writing to or reading from Unix domain socket."),
            UdsClientError::RequestSerializationError => text("Error serializing the request."),
            UdsClientError::MalformedResponse => text("Received a response from the server that that cannot be parsed."),
        }
    }
}

} // verus!
