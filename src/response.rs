//! Classification of an HTTP response into a body or a typed failure.

use vstd::prelude::*;
use vstd::utf8::{decode_utf8, valid_utf8};

use crate::client::Client;
use crate::error::ClientError;

verus! {

pub const STATUS_OK: u16 = 200;
pub const STATUS_BAD_REQUEST: u16 = 400;
pub const STATUS_UNAUTHORIZED: u16 = 401;
pub const STATUS_INTERNAL_SERVER_ERROR: u16 = 500;
pub const STATUS_SERVICE_UNAVAILABLE: u16 = 503;

/// Whether serde_json reads the bytes as one JSON document.
pub uninterp spec fn json_parses(bytes: Seq<u8>) -> bool;

#[verifier::external_type_specification]
#[verifier::external_body]
pub struct ExJsonValue(serde_json::Value);

/// Relies on std::str::from_utf8: it succeeds exactly on valid UTF-8 and then
/// holds the decoded text.
#[verifier::external_body]
fn decode_text(bytes: &[u8]) -> (r: Option<String>)
    ensures
        r is Some <==> valid_utf8(bytes@),
        r matches Some(s) ==> s@ == decode_utf8(bytes@),
{
    std::str::from_utf8(bytes).ok().map(|s| s.to_string())
}

/// Relies on serde_json::from_slice into a serde_json::Value: it succeeds
/// exactly when the bytes are a JSON document that serde_json accepts.
#[verifier::external_body]
fn parse_json(bytes: &[u8]) -> (r: Option<serde_json::Value>)
    ensures
        r is Some <==> json_parses(bytes@),
{
    serde_json::from_slice(bytes).ok()
}

/// Relies on serde_json::Value::get with a string index: the member of an
/// object under that key, if the value is an object that has one.
#[verifier::external_body]
fn json_member<'a>(value: &'a serde_json::Value, key: &str) -> (r: Option<&'a serde_json::Value>) {
    value.get(key)
}

/// Relies on serde_json::Value::as_i64: the number, if the value is an
/// integer that fits in an i64.
#[verifier::external_body]
fn json_as_i64(value: &serde_json::Value) -> (r: Option<i64>) {
    value.as_i64()
}

/// Relies on serde_json::Value::as_str: the text, if the value is a string.
#[verifier::external_body]
fn json_as_str(value: &serde_json::Value) -> (r: Option<&str>) {
    value.as_str()
}

/// The error that an exchange error body stands for, given the integer read
/// from its `code` member and the text read from its `msg` member.
pub fn envelope_error(code: Option<i64>, msg: Option<String>) -> (e: ClientError)
    ensures
        match (code, msg) {
            (Some(c), Some(m)) => e matches ClientError::Exchange { code: ec, msg: em } && ec == c
                && em@ == m@,
            _ => e is Decoding,
        },
{
    match (code, msg) {
        (Some(c), Some(m)) => ClientError::Exchange { code: c, msg: m },
        _ => ClientError::Decoding("error body is not an exchange error".to_string()),
    }
}

/// Reads the exchange error body `{"code": <integer>, "msg": <string>}`.
fn decode_envelope(body: &[u8]) -> (e: ClientError)
    ensures
        e is Exchange || e is Decoding,
        !json_parses(body@) ==> e is Decoding,
{
    match parse_json(body) {
        None => ClientError::Decoding("error body is not JSON".to_string()),
        Some(value) => {
            let code = match json_member(&value, "code") {
                Some(v) => json_as_i64(v),
                None => None,
            };
            let msg = match json_member(&value, "msg") {
                Some(v) => match json_as_str(v) {
                    Some(s) => Some(s.to_owned()),
                    None => None,
                },
                None => None,
            };
            envelope_error(code, msg)
        },
    }
}

/// Whether `status` is one of those that the handler names.
pub open spec fn known_status(status: u16) -> bool {
    status == STATUS_OK || status == STATUS_BAD_REQUEST || status == STATUS_UNAUTHORIZED
        || status == STATUS_INTERNAL_SERVER_ERROR || status == STATUS_SERVICE_UNAVAILABLE
}

impl Client {
    /// Turns a response's status code and body into the call's result.
    pub fn handler(&self, status: u16, body: &[u8]) -> (r: Result<String, ClientError>)
        ensures
            status == STATUS_OK ==> {
                &&& r is Ok <==> valid_utf8(body@)
                &&& r matches Ok(s) ==> s@ == decode_utf8(body@)
                &&& r matches Err(e) ==> e is Decoding
            },
            status == STATUS_INTERNAL_SERVER_ERROR ==> (r matches Err(ClientError::Server(m))
                && m@ == "Internal Server Error"@),
            status == STATUS_SERVICE_UNAVAILABLE ==> (r matches Err(ClientError::Server(m))
                && m@ == "Service Unavailable"@),
            status == STATUS_UNAUTHORIZED ==> (r matches Err(ClientError::Auth(m))
                && m@ == "Unauthorized"@),
            status == STATUS_BAD_REQUEST ==> (r matches Err(e) && (e is Exchange || e is Decoding)
                && (!json_parses(body@) ==> e is Decoding)),
            !known_status(status) ==> r == Err::<String, ClientError>(
                ClientError::UnexpectedStatus(status),
            ),
    {
        if status == STATUS_OK {
            match decode_text(body) {
                Some(text) => Ok(text),
                None => Err(ClientError::Decoding("body is not valid UTF-8".to_string())),
            }
        } else if status == STATUS_INTERNAL_SERVER_ERROR {
            Err(ClientError::Server("Internal Server Error".to_string()))
        } else if status == STATUS_SERVICE_UNAVAILABLE {
            Err(ClientError::Server("Service Unavailable".to_string()))
        } else if status == STATUS_UNAUTHORIZED {
            Err(ClientError::Auth("Unauthorized".to_string()))
        } else if status == STATUS_BAD_REQUEST {
            Err(decode_envelope(body))
        } else {
            Err(ClientError::UnexpectedStatus(status))
        }
    }
}

} // verus!
