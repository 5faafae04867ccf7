//! The pipelined server: each connection is read line by line, and every line that is a
//! request is answered on the same connection.
use vstd::prelude::*;

verus! {

/// What the server observed on a connection.
pub enum ConnectionEvent<R> {
    /// A line that holds a request.
    Request(R),
    /// A line that holds no request.
    Unparsable,
    /// The peer closed its side of the connection.
    EndOfInput,
    /// Reading from the connection failed.
    ReadFailed,
}

/// What the server does next on a connection.
pub enum ConnectionAction<R> {
    /// Hand the request to the handler and write its response back as a line.
    Forward(R),
    /// Write back the response that says the request could not be parsed.
    RespondParseError,
    /// Stop serving the connection.
    Close,
}

/// Decides what to do with what was observed on a connection: a request is forwarded, a
/// line without one is answered with a parse error, and the end of the input or a failed
/// read ends the connection.
pub fn on_connection_event<R>(event: ConnectionEvent<R>) -> (r: ConnectionAction<R>)
    ensures
        match event {
            ConnectionEvent::Request(q) => r == ConnectionAction::Forward(q),
            ConnectionEvent::Unparsable => r is RespondParseError,
            ConnectionEvent::EndOfInput | ConnectionEvent::ReadFailed => r is Close,
        },
{
    match event {
        ConnectionEvent::Request(q) => ConnectionAction::Forward(q),
        ConnectionEvent::Unparsable => ConnectionAction::RespondParseError,
        ConnectionEvent::EndOfInput => ConnectionAction::Close,
        ConnectionEvent::ReadFailed => ConnectionAction::Close,
    }
}

/// Whether to keep serving a connection after handing a request to the server: not when
/// the server no longer takes requests (it is shutting down).
pub fn keep_serving_after_forward(handed_over: bool) -> (r: bool)
    ensures
        r == handed_over,
{
    handed_over
}

} // verus!
