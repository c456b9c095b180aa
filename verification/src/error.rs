//! The error surface of the adapter: a body that could not be decoded, or an
//! HTTP error status promoted to an error by `error_for_status`.

use vstd::prelude::*;

verus! {

/// An error returned to the caller.
///
/// Decoding failures are recoverable and carry no further data; a promoted
/// HTTP error status carries the URL the request was made to and the
/// offending status code.
#[derive(Debug, Clone)]
pub enum ClientError {
    /// The response body could not be decoded: invalid UTF-8 for `text`,
    /// malformed JSON for `json`.
    Decode,
    /// The server answered with a client-error (400-499) or server-error
    /// (500-599) status.
    Status { url: String, status: u16 },
}

impl ClientError {
    /// The status code this error carries, if it is a status error.
    pub fn status(&self) -> (r: Option<u16>)
        ensures
            r == (match *self {
                ClientError::Status { url, status } => Some(status),
                ClientError::Decode => None::<u16>,
            }),
    {
        match self {
            ClientError::Status { url: _, status } => Some(*status),
            ClientError::Decode => None,
        }
    }

    /// The URL this error carries, if it is a status error.
    pub fn url(&self) -> (r: Option<&String>)
        ensures
            (match *self {
                ClientError::Status { url, status } => r matches Some(u) && u@ == url@,
                ClientError::Decode => r is None,
            }),
    {
        match self {
            ClientError::Status { url, status: _ } => Some(url),
            ClientError::Decode => None,
        }
    }

    /// Whether this is a decoding error.
    pub fn is_decode(&self) -> (r: bool)
        ensures
            r == (self is Decode),
    {
        match self {
            ClientError::Decode => true,
            ClientError::Status { .. } => false,
        }
    }

    /// Whether this is a promoted HTTP error status.
    pub fn is_status(&self) -> (r: bool)
        ensures
            r == (self is Status),
    {
        match self {
            ClientError::Status { .. } => true,
            ClientError::Decode => false,
        }
    }
}

} // verus!
