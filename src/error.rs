//! The ways a call can fail.

use vstd::prelude::*;

verus! {

/// Why a call did not yield a response body.
#[derive(Clone, Debug, PartialEq, Eq)]
pub enum ClientError {
    /// The API key cannot be carried as an HTTP header value.
    HeaderConstruction(String),
    /// The HTTP transport failed before a response arrived.
    Transport(String),
    /// The server reported an internal failure or is unavailable.
    Server(String),
    /// The server refused the credentials.
    Auth(String),
    /// The exchange answered with its structured error body.
    Exchange { code: i64, msg: String },
    /// A body was not valid UTF-8, or not the exchange's error body.
    Decoding(String),
    /// A status code that none of the other outcomes covers.
    UnexpectedStatus(u16),
}

} // verus!
