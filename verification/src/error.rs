//! The errors that reach a client.

use vstd::prelude::*;

verus! {

/// The classes of failure of the relay.
#[derive(Clone, Copy, Debug, PartialEq, Eq, Structural)]
pub enum ErrorKind {
    /// The inbound body cannot be read as a document, or the document cannot
    /// be written back.
    MalformedInput,
    /// The upstream could not be reached or its response could not be read.
    UpstreamUnreachable,
    /// The upstream answered with a status that is no success.
    UpstreamError,
    /// The upstream answered with a success status and a body that is no
    /// document.
    BadUpstreamResponse,
}

/// A failure of the relay, as the client is told of it: a status code and a
/// short fixed text. No detail of the underlying failure is carried.
#[derive(Clone, Copy, Debug, PartialEq, Eq, Structural)]
pub enum APIError {
    /// The request body could not be read from the connection.
    UnreadableRequest,
    /// The request body is no JSON document.
    InvalidJson,
    /// The normalized request could not be written as JSON.
    UnserializableRequest,
    /// The request could not be sent to the upstream.
    UpstreamUnreachable,
    /// The upstream answered with this status, which is no success.
    UpstreamStatus(u16),
    /// The body of the upstream's response could not be read.
    UnreadableResponse,
    /// The body of the upstream's response is no JSON document.
    InvalidResponse,
}

impl APIError {
    /// The class of the failure.
    pub open spec fn kind_spec(self) -> ErrorKind {
        match self {
            APIError::UnreadableRequest => ErrorKind::MalformedInput,
            APIError::InvalidJson => ErrorKind::MalformedInput,
            APIError::UnserializableRequest => ErrorKind::MalformedInput,
            APIError::UpstreamUnreachable => ErrorKind::UpstreamUnreachable,
            APIError::UpstreamStatus(_) => ErrorKind::UpstreamError,
            APIError::UnreadableResponse => ErrorKind::UpstreamUnreachable,
            APIError::InvalidResponse => ErrorKind::BadUpstreamResponse,
        }
    }

    /// The status code sent to the client: 400 for malformed input, the
    /// upstream's own status for an upstream error, 502 for the rest.
    pub open spec fn code_spec(self) -> u16 {
        match self {
            APIError::UpstreamStatus(status) => status,
            _ => match self.kind_spec() {
                ErrorKind::MalformedInput => 400,
                _ => 502,
            },
        }
    }

    /// The text sent to the client.
    pub open spec fn body_spec(self) -> Seq<char> {
        match self {
            APIError::UnreadableRequest => "Failed to read request body"@,
            APIError::InvalidJson => "Invalid JSON"@,
            APIError::UnserializableRequest => "Failed to serialize request"@,
            APIError::UpstreamUnreachable => "Failed to connect to upstream service"@,
            APIError::UpstreamStatus(_) => "Upstream service error"@,
            APIError::UnreadableResponse => "Failed to read upstream response"@,
            APIError::InvalidResponse => "Invalid response from upstream service"@,
        }
    }

    /// The class of the failure.
    pub fn kind(&self) -> (kind: ErrorKind)
        ensures
            kind == self.kind_spec(),
    {
        match self {
            APIError::UnreadableRequest => ErrorKind::MalformedInput,
            APIError::InvalidJson => ErrorKind::MalformedInput,
            APIError::UnserializableRequest => ErrorKind::MalformedInput,
            APIError::UpstreamUnreachable => ErrorKind::UpstreamUnreachable,
            APIError::UpstreamStatus(_) => ErrorKind::UpstreamError,
            APIError::UnreadableResponse => ErrorKind::UpstreamUnreachable,
            APIError::InvalidResponse => ErrorKind::BadUpstreamResponse,
        }
    }

    /// The status code sent to the client.
    pub fn code(&self) -> (code: u16)
        ensures
            code == self.code_spec(),
    {
        match self {
            APIError::UpstreamStatus(status) => *status,
            APIError::UnreadableRequest => 400,
            APIError::InvalidJson => 400,
            APIError::UnserializableRequest => 400,
            _ => 502,
        }
    }

    /// The text sent to the client.
    pub fn body(&self) -> (text: &'static str)
        ensures
            text@ == self.body_spec(),
    {
        match self {
            APIError::UnreadableRequest => "Failed to read request body",
            APIError::InvalidJson => "Invalid JSON",
            APIError::UnserializableRequest => "Failed to serialize request",
            APIError::UpstreamUnreachable => "Failed to connect to upstream service",
            APIError::UpstreamStatus(_) => "Upstream service error",
            APIError::UnreadableResponse => "Failed to read upstream response",
            APIError::InvalidResponse => "Invalid response from upstream service",
        }
    }
}

} // verus!
