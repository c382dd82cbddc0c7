//! The requests that the client asks its caller to send.

use vstd::prelude::*;
use vstd::utf8::encode_utf8;

verus! {

/// One HTTP header as a name and a value.
#[derive(Clone, Debug, PartialEq, Eq)]
pub struct Header {
    pub name: String,
    pub value: String,
}

impl View for Header {
    type V = (Seq<char>, Seq<char>);

    open spec fn view(&self) -> (Seq<char>, Seq<char>) {
        (self.name@, self.value@)
    }
}

/// The names and values of a list of headers, in order.
pub open spec fn headers_view(headers: Seq<Header>) -> Seq<(Seq<char>, Seq<char>)> {
    headers.map_values(|h: Header| h@)
}

/// The HTTP method of a request.
#[derive(Clone, Copy, Debug, PartialEq, Eq, Structural)]
pub enum Method {
    Get,
    Post,
    Put,
    Delete,
}

/// A request ready to be sent: `headers` is `None` where the transport's
/// default headers are to be used.
#[derive(Clone, Debug, PartialEq, Eq)]
pub struct Request {
    pub method: Method,
    pub url: String,
    pub headers: Option<Vec<Header>>,
    pub body: Option<String>,
}

/// Whether a byte may stand in an HTTP header value: visible ASCII, a space,
/// a tab, or any byte from 0x80 up.
pub open spec fn header_byte_ok(b: u8) -> bool {
    (b >= 32 && b != 127) || b == 9
}

/// Whether a text, encoded as UTF-8, is a valid HTTP header value.
pub open spec fn header_value_ok(s: Seq<char>) -> bool {
    forall|i: int| 0 <= i < encode_utf8(s).len() ==> header_byte_ok(#[trigger] encode_utf8(s)[i])
}

/// Relies on reqwest::header::HeaderValue::from_str, which accepts a text
/// exactly when each of its UTF-8 bytes is a tab or at least 32 and not 127.
#[verifier::external_body]
pub(crate) fn is_header_value(s: &str) -> (r: bool)
    ensures
        r == header_value_ok(s@),
{
    reqwest::header::HeaderValue::from_str(s).is_ok()
}

/// The product name sent as the user agent.
pub open spec fn user_agent_header() -> (Seq<char>, Seq<char>) {
    ("user-agent"@, "binance-rs"@)
}

/// The content type of a signed call.
pub open spec fn content_type_header() -> (Seq<char>, Seq<char>) {
    ("content-type"@, "application/x-www-form-urlencoded"@)
}

/// The header that carries the API key as it is.
pub open spec fn api_key_header(api_key: Seq<char>) -> (Seq<char>, Seq<char>) {
    ("x-mbx-apikey"@, api_key)
}

/// The headers of an authenticated call: the user agent, the form content
/// type where asked for, and the API key.
pub open spec fn expected_headers(api_key: Seq<char>, content_type: bool) -> Seq<
    (Seq<char>, Seq<char>),
> {
    if content_type {
        seq![user_agent_header(), content_type_header(), api_key_header(api_key)]
    } else {
        seq![user_agent_header(), api_key_header(api_key)]
    }
}

/// Authenticated headers carry a content type exactly when one is asked for,
/// and always carry the API key header with the key itself as its value.
pub proof fn lemma_expected_headers(api_key: Seq<char>, content_type: bool)
    ensures
        content_type ==> exists|i: int|
            0 <= i < expected_headers(api_key, content_type).len()
                && (#[trigger] expected_headers(api_key, content_type)[i]).0 == "content-type"@,
        !content_type ==> forall|i: int|
            0 <= i < expected_headers(api_key, content_type).len()
                ==> (#[trigger] expected_headers(api_key, content_type)[i]).0 != "content-type"@,
        exists|i: int|
            0 <= i < expected_headers(api_key, content_type).len()
                && #[trigger] expected_headers(api_key, content_type)[i] == api_key_header(api_key),
{
    reveal_strlit("content-type");
    reveal_strlit("user-agent");
    reveal_strlit("x-mbx-apikey");
    let h = expected_headers(api_key, content_type);
    if content_type {
        assert(h[1].0 == "content-type"@);
        assert(h[2] == api_key_header(api_key));
    } else {
        assert(h[0].0[0] != "content-type"@[0]);
        assert(h[1].0[0] != "content-type"@[0]);
        assert(h[1] == api_key_header(api_key));
    }
}

} // verus!
