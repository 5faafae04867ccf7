//! Errors of the one-request-per-connection client.
use vstd::prelude::*;

use crate::json::text;

verus! {

/// Error that can occur when communicating with a Unix domain socket server.
#[derive(Debug, Clone, PartialEq, Eq)]
pub enum UdsClientError {
    /// A Unix domain socket server is not running on the specified address.
    ServerNotRunning,
    /// An I/O error occurred while writing to or reading from the Unix domain socket.
    UdsSocketError,
    /// An error occurred while serializing the request.
    RequestSerializationError,
    /// Received a response from the server that that cannot be parsed, with why.
    MalformedResponse(String),
}

impl UdsClientError {
    /// The text that describes the error.
    pub fn message(&self) -> (r: String)
        ensures
            r@ == match self {
                UdsClientError::ServerNotRunning => "Unix domain socket server not running."@,
                UdsClientError::UdsSocketError => "Error writing to or reading from Unix domain socket."@,
                UdsClientError::RequestSerializationError => "Error serializing the request."@,
                UdsClientError::MalformedResponse(why) => "Received a response from the server that that cannot be parsed ("@
                    + why@ + ")."@,
            },
    {
        match self {
            UdsClientError::ServerNotRunning => text("Unix domain socket server not running."),
            UdsClientError::UdsSocketError => text("Error writing to or reading from Unix domain socket."),
            UdsClientError::RequestSerializationError => text("Error serializing the request."),
            UdsClientError::MalformedResponse(why) => {
                let mut r = text("Received a response from the server that that cannot be parsed (");
                r.append(why.as_str());
                r.append(").");
                r
            },
        }
    }
}

} // verus!
