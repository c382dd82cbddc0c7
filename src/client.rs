//! The client: credentials, the host that every endpoint is appended to, and
//! the requests that each kind of call sends.

use vstd::prelude::*;
use vstd::string::StringExecFns;
use vstd::utf8::encode_utf8;

use crate::error::ClientError;
use crate::request::{
    expected_headers, header_value_ok, headers_view, is_header_value, Header, Method, Request,
};
use crate::signing::{sign, signable, signature_of};

verus! {

/// The host of the exchange's REST API.
pub const DEFAULT_HOST: &'static str = "https://www.binance.com";

/// Credentials for the exchange and the host its endpoints live on. None of
/// them changes once the client is built.
#[derive(Clone)]
pub struct Client {
    api_key: String,
    secret_key: String,
    base_host: String,
}

/// What a client holds, as text.
pub struct ClientView {
    pub api_key: Seq<char>,
    pub secret_key: Seq<char>,
    pub base_host: Seq<char>,
}

impl View for Client {
    type V = ClientView;

    closed spec fn view(&self) -> ClientView {
        ClientView {
            api_key: self.api_key@,
            secret_key: self.secret_key@,
            base_host: self.base_host@,
        }
    }
}

/// The text of an optional credential: empty where none was given.
pub open spec fn credential_of(value: Option<String>) -> Seq<char> {
    match value {
        Some(s) => s@,
        None => Seq::empty(),
    }
}

/// A signed URL: the query string followed by its own signature.
pub open spec fn signed_url(
    host: Seq<char>,
    endpoint: Seq<char>,
    request: Seq<char>,
    secret_key: Seq<char>,
) -> Seq<char> {
    host + endpoint + "?"@ + request + "&signature="@ + signature_of(
        encode_utf8(secret_key),
        encode_utf8(request),
    )
}

/// An unsigned URL: the query string is added only where there is one.
pub open spec fn plain_url(host: Seq<char>, endpoint: Seq<char>, request: Seq<char>) -> Seq<char> {
    if request.len() == 0 {
        host + endpoint
    } else {
        host + endpoint + "?"@ + request
    }
}

/// The form body that carries a session key.
pub open spec fn listen_key_body(listen_key: Seq<char>) -> Seq<char> {
    "listenKey="@ + listen_key
}

/// Whether `r` is the request `method url` with the authenticated headers
/// and `body`, or the header error where the API key cannot be a header value.
pub open spec fn authenticated_request(
    r: Result<Request, ClientError>,
    api_key: Seq<char>,
    content_type: bool,
    method: Method,
    url: Seq<char>,
    body: Option<Seq<char>>,
) -> bool {
    &&& r is Ok <==> header_value_ok(api_key)
    &&& r matches Ok(q) ==> {
        &&& q.method == method
        &&& q.url@ == url
        &&& q.headers matches Some(h) && headers_view(h@) == expected_headers(
            api_key,
            content_type,
        )
        &&& match body {
            Some(b) => q.body matches Some(qb) && qb@ == b,
            None => q.body is None,
        }
    }
    &&& r matches Err(e) ==> e is HeaderConstruction
}

fn credential_or_empty(value: Option<String>) -> (r: String)
    ensures
        r@ == credential_of(value),
{
    match value {
        Some(s) => s,
        None => String::new(),
    }
}

impl Client {
    /// A client for the exchange's own host; a missing key is empty.
    pub fn new(api_key: Option<String>, secret_key: Option<String>) -> (r: Client)
        ensures
            r@.api_key == credential_of(api_key),
            r@.secret_key == credential_of(secret_key),
            r@.base_host == DEFAULT_HOST@,
    {
        Client::with_host(api_key, secret_key, DEFAULT_HOST.to_owned())
    }

    /// A client whose endpoints are appended to `base_host`.
    pub fn with_host(api_key: Option<String>, secret_key: Option<String>, base_host: String) -> (r:
        Client)
        ensures
            r@.api_key == credential_of(api_key),
            r@.secret_key == credential_of(secret_key),
            r@.base_host == base_host@,
    {
        Client {
            api_key: credential_or_empty(api_key),
            secret_key: credential_or_empty(secret_key),
            base_host,
        }
    }

    /// The API key; empty where none was given.
    pub fn api_key(&self) -> (r: &str)
        ensures
            r@ == self@.api_key,
    {
        self.api_key.as_str()
    }

    /// The secret key; empty where none was given.
    pub fn secret_key(&self) -> (r: &str)
        ensures
            r@ == self@.secret_key,
    {
        self.secret_key.as_str()
    }

    /// The host that endpoints are appended to.
    pub fn base_host(&self) -> (r: &str)
        ensures
            r@ == self@.base_host,
    {
        self.base_host.as_str()
    }
    /// The URL of a signed call: the request string, then the hex HMAC-SHA256
    /// of exactly that string under the secret key. An empty request string
    /// still gives `?&signature=...`.
    pub fn sign_request(&self, endpoint: &str, request: &str) -> (r: String)
        requires
            signable(encode_utf8(self@.secret_key)),
            signable(encode_utf8(request@)),
        ensures
            r@ == signed_url(self@.base_host, endpoint@, request@, self@.secret_key),
    {
        let signature = sign(self.secret_key.as_str().as_bytes(), request.as_bytes());
        let mut url = self.base_host.clone();
        url.append(endpoint);
        url.append("?");
        url.append(request);
        url.append("&signature=");
        url.append(signature.as_str());
        url
    }

    /// The headers of an authenticated call, with the form content type
    /// where `content_type` holds; an error where the API key cannot be a
    /// header value.
    pub fn build_headers(&self, content_type: bool) -> (r: Result<Vec<Header>, ClientError>)
        ensures
            r is Ok <==> header_value_ok(self@.api_key),
            r matches Ok(h) ==> headers_view(h@) == expected_headers(self@.api_key, content_type),
            r matches Err(e) ==> e is HeaderConstruction,
    {
        if !is_header_value(self.api_key.as_str()) {
            return Err(ClientError::HeaderConstruction("API key is not a valid header value".to_string()));
        }
        let mut headers: Vec<Header> = Vec::new();
        headers.push(Header { name: "user-agent".to_string(), value: "binance-rs".to_string() });
        if content_type {
            headers.push(
                Header {
                    name: "content-type".to_string(),
                    value: "application/x-www-form-urlencoded".to_string(),
                },
            );
        }
        headers.push(Header { name: "x-mbx-apikey".to_string(), value: self.api_key.clone() });
        assert(headers_view(headers@) =~= expected_headers(self@.api_key, content_type));
        Ok(headers)
    }

    /// The signed request shared by the three signed calls.
    fn signed(&self, method: Method, endpoint: &str, request: &str) -> (r: Result<
        Request,
        ClientError,
    >)
        requires
            signable(encode_utf8(self@.secret_key)),
            signable(encode_utf8(request@)),
        ensures
            authenticated_request(
                r,
                self@.api_key,
                true,
                method,
                signed_url(self@.base_host, endpoint@, request@, self@.secret_key),
                None,
            ),
    {
        let url = self.sign_request(endpoint, request);
        let headers = self.build_headers(true)?;
        Ok(Request { method, url, headers: Some(headers), body: None })
    }

    /// A signed GET of `endpoint` with the query string `request`.
    pub fn get_signed(&self, endpoint: &str, request: &str) -> (r: Result<Request, ClientError>)
        requires
            signable(encode_utf8(self@.secret_key)),
            signable(encode_utf8(request@)),
        ensures
            authenticated_request(
                r,
                self@.api_key,
                true,
                Method::Get,
                signed_url(self@.base_host, endpoint@, request@, self@.secret_key),
                None,
            ),
    {
        self.signed(Method::Get, endpoint, request)
    }

    /// A signed POST of `endpoint` with the query string `request`.
    pub fn post_signed(&self, endpoint: &str, request: &str) -> (r: Result<Request, ClientError>)
        requires
            signable(encode_utf8(self@.secret_key)),
            signable(encode_utf8(request@)),
        ensures
            authenticated_request(
                r,
                self@.api_key,
                true,
                Method::Post,
                signed_url(self@.base_host, endpoint@, request@, self@.secret_key),
                None,
            ),
    {
        self.signed(Method::Post, endpoint, request)
    }

    /// A signed DELETE of `endpoint` with the query string `request`.
    pub fn delete_signed(&self, endpoint: &str, request: &str) -> (r: Result<Request, ClientError>)
        requires
            signable(encode_utf8(self@.secret_key)),
            signable(encode_utf8(request@)),
        ensures
            authenticated_request(
                r,
                self@.api_key,
                true,
                Method::Delete,
                signed_url(self@.base_host, endpoint@, request@, self@.secret_key),
                None,
            ),
    {
        self.signed(Method::Delete, endpoint, request)
    }

    /// An unsigned GET: no signature, and the transport's default headers
    /// rather than the authenticated ones.
    pub fn get(&self, endpoint: &str, request: &str) -> (r: Request)
        ensures
            r.method == Method::Get,
            r.url@ == plain_url(self@.base_host, endpoint@, request@),
            r.headers is None,
            r.body is None,
    {
        let mut url = self.base_host.clone();
        url.append(endpoint);
        if !request.is_empty() {
            url.append("?");
            url.append(request);
        }
        Request { method: Method::Get, url, headers: None, body: None }
    }

    /// An unsigned POST of `endpoint` with the authenticated headers and no body.
    pub fn post(&self, endpoint: &str) -> (r: Result<Request, ClientError>)
        ensures
            authenticated_request(
                r,
                self@.api_key,
                false,
                Method::Post,
                self@.base_host + endpoint@,
                None,
            ),
    {
        let mut url = self.base_host.clone();
        url.append(endpoint);
        let headers = self.build_headers(false)?;
        Ok(Request { method: Method::Post, url, headers: Some(headers), body: None })
    }

    /// The request shared by the two calls that carry a session key.
    fn with_listen_key(&self, method: Method, endpoint: &str, listen_key: &str) -> (r: Result<
        Request,
        ClientError,
    >)
        ensures
            authenticated_request(
                r,
                self@.api_key,
                false,
                method,
                self@.base_host + endpoint@,
                Some(listen_key_body(listen_key@)),
            ),
    {
        let mut url = self.base_host.clone();
        url.append(endpoint);
        let mut body = "listenKey=".to_owned();
        body.append(listen_key);
        let headers = self.build_headers(false)?;
        Ok(Request { method, url, headers: Some(headers), body: Some(body) })
    }

    /// A PUT of `endpoint` that keeps the session `listen_key` alive.
    pub fn put(&self, endpoint: &str, listen_key: &str) -> (r: Result<Request, ClientError>)
        ensures
            authenticated_request(
                r,
                self@.api_key,
                false,
                Method::Put,
                self@.base_host + endpoint@,
                Some(listen_key_body(listen_key@)),
            ),
    {
        self.with_listen_key(Method::Put, endpoint, listen_key)
    }

    /// A DELETE of `endpoint` that closes the session `listen_key`.
    pub fn delete(&self, endpoint: &str, listen_key: &str) -> (r: Result<Request, ClientError>)
        ensures
            authenticated_request(
                r,
                self@.api_key,
                false,
                Method::Delete,
                self@.base_host + endpoint@,
                Some(listen_key_body(listen_key@)),
            ),
    {
        self.with_listen_key(Method::Delete, endpoint, listen_key)
    }
}

} // verus!
