use binance::client::{Client, DEFAULT_HOST};
use binance::error::ClientError;
use binance::request::{Header, Method};
use binance::response::envelope_error;
use binance::signing::sign;

const DOC_SECRET: &str = "NhqPtmdSJYdKjVHjA7PZj4Mge3R5YNiP1e3UZjInClVN65XAbvqqM6A7H5fATj0j";
const DOC_QUERY: &str = "symbol=LTCBTC&side=BUY&type=LIMIT&timeInForce=GTC&quantity=1&price=0.1&recvWindow=5000&timestamp=1499827319559";
const DOC_SIGNATURE: &str = "c8db56825ae71d6d79447849e617115f4a920fa2acdcab2b053c4b2838bd6b71";

fn header(name: &str, value: &str) -> Header {
    Header { name: name.to_string(), value: value.to_string() }
}

#[test]
fn sign_matches_hmac_sha256_vector_one() {
    let key = [0x0bu8; 20];
    assert_eq!(
        sign(&key, b"Hi There"),
        "b0344c61d8db38535ca8afceaf0bf12b881dc200c9833da726e9376c2e32cff7"
    );
}

#[test]
fn sign_matches_hmac_sha256_vector_two() {
    assert_eq!(
        sign(b"Jefe", b"what do ya want for nothing?"),
        "5bdcc146bf60754e6a042426089575c75a003f089d2739839dec58b964ec3843"
    );
}

#[test]
fn sign_matches_exchange_documentation_example() {
    assert_eq!(sign(DOC_SECRET.as_bytes(), DOC_QUERY.as_bytes()), DOC_SIGNATURE);
}

#[test]
fn sign_is_deterministic() {
    let first = sign(b"secret", b"symbol=BTCUSDT");
    let second = sign(b"secret", b"symbol=BTCUSDT");
    assert_eq!(first, second);
    assert_eq!(first.len(), 64);
    assert_ne!(first, sign(b"secret", b"symbol=ETHUSDT"));
    assert_ne!(first, sign(b"other", b"symbol=BTCUSDT"));
}

#[test]
fn sign_request_appends_signature_of_request_string() {
    let client = Client::new(Some("key".to_string()), Some(DOC_SECRET.to_string()));
    let url = client.sign_request("/api/v3/order", DOC_QUERY);
    assert_eq!(
        url,
        format!("https://www.binance.com/api/v3/order?{}&signature={}", DOC_QUERY, DOC_SIGNATURE)
    );
}

#[test]
fn sign_request_with_empty_request_keeps_stray_ampersand() {
    let client = Client::new(None, Some("secret".to_string()));
    let url = client.sign_request("/api/v3/account", "");
    let expected = format!("https://www.binance.com/api/v3/account?&signature={}", sign(b"secret", b""));
    assert_eq!(url, expected);
}

#[test]
fn sign_request_uses_configured_host() {
    let client = Client::with_host(None, Some("s".to_string()), "http://localhost:8080".to_string());
    let url = client.sign_request("/x", "a=1");
    assert_eq!(url, format!("http://localhost:8080/x?a=1&signature={}", sign(b"s", b"a=1")));
}

#[test]
fn build_headers_with_content_type() {
    let client = Client::new(Some("my-api-key".to_string()), None);
    let headers = client.build_headers(true).unwrap();
    assert_eq!(
        headers,
        vec![
            header("user-agent", "binance-rs"),
            header("content-type", "application/x-www-form-urlencoded"),
            header("x-mbx-apikey", "my-api-key"),
        ]
    );
}

#[test]
fn build_headers_without_content_type() {
    let client = Client::new(Some("my-api-key".to_string()), None);
    let headers = client.build_headers(false).unwrap();
    assert_eq!(headers, vec![header("user-agent", "binance-rs"), header("x-mbx-apikey", "my-api-key")]);
    assert!(headers.iter().all(|h| h.name != "content-type"));
}

#[test]
fn build_headers_rejects_control_characters_in_key() {
    let client = Client::new(Some("bad\nkey".to_string()), None);
    assert!(matches!(client.build_headers(false), Err(ClientError::HeaderConstruction(_))));
    let client = Client::new(Some("del\u{7f}".to_string()), None);
    assert!(matches!(client.build_headers(true), Err(ClientError::HeaderConstruction(_))));
}

#[test]
fn build_headers_accepts_tab_and_non_ascii_in_key() {
    let client = Client::new(Some("a\tb\u{e9}".to_string()), None);
    let headers = client.build_headers(false).unwrap();
    assert_eq!(headers[1], header("x-mbx-apikey", "a\tb\u{e9}"));
}

#[test]
fn signed_calls_carry_signature_and_content_type() {
    let client = Client::new(Some("k".to_string()), Some(DOC_SECRET.to_string()));
    let url = format!("https://www.binance.com/api/v3/order?{}&signature={}", DOC_QUERY, DOC_SIGNATURE);
    let headers = vec![
        header("user-agent", "binance-rs"),
        header("content-type", "application/x-www-form-urlencoded"),
        header("x-mbx-apikey", "k"),
    ];
    for (request, method) in [
        (client.get_signed("/api/v3/order", DOC_QUERY).unwrap(), Method::Get),
        (client.post_signed("/api/v3/order", DOC_QUERY).unwrap(), Method::Post),
        (client.delete_signed("/api/v3/order", DOC_QUERY).unwrap(), Method::Delete),
    ] {
        assert_eq!(request.method, method);
        assert_eq!(request.url, url);
        assert_eq!(request.headers, Some(headers.clone()));
        assert_eq!(request.body, None);
    }
}

#[test]
fn signed_call_with_bad_key_fails_with_header_error() {
    let client = Client::new(Some("x\r\n".to_string()), Some("s".to_string()));
    assert!(matches!(client.get_signed("/api/v3/order", "a=1"), Err(ClientError::HeaderConstruction(_))));
}

#[test]
fn unsigned_get_uses_default_headers() {
    let client = Client::new(Some("bad\nkey".to_string()), None);
    let request = client.get("/api/v3/ticker/price", "symbol=BTCUSDT");
    assert_eq!(request.method, Method::Get);
    assert_eq!(request.url, "https://www.binance.com/api/v3/ticker/price?symbol=BTCUSDT");
    assert_eq!(request.headers, None);
    assert_eq!(request.body, None);
}

#[test]
fn unsigned_get_without_query_has_no_question_mark() {
    let client = Client::new(None, None);
    let request = client.get("/api/v3/time", "");
    assert_eq!(request.url, "https://www.binance.com/api/v3/time");
}

#[test]
fn unsigned_post_has_headers_and_no_body() {
    let client = Client::new(Some("k".to_string()), None);
    let request = client.post("/api/v3/userDataStream").unwrap();
    assert_eq!(request.method, Method::Post);
    assert_eq!(request.url, "https://www.binance.com/api/v3/userDataStream");
    assert_eq!(request.headers, Some(vec![header("user-agent", "binance-rs"), header("x-mbx-apikey", "k")]));
    assert_eq!(request.body, None);
}

#[test]
fn put_and_delete_send_listen_key_body() {
    let client = Client::new(Some("k".to_string()), None);
    let put = client.put("/api/v3/userDataStream", "abc123").unwrap();
    let delete = client.delete("/api/v3/userDataStream", "abc123").unwrap();
    assert_eq!(put.method, Method::Put);
    assert_eq!(delete.method, Method::Delete);
    for request in [put, delete] {
        assert_eq!(request.url, "https://www.binance.com/api/v3/userDataStream");
        assert_eq!(request.headers, Some(vec![header("user-agent", "binance-rs"), header("x-mbx-apikey", "k")]));
        assert_eq!(request.body, Some("listenKey=abc123".to_string()));
    }
}

#[test]
fn handler_ok_returns_body_text() {
    let client = Client::new(None, None);
    assert_eq!(client.handler(200, b"hello"), Ok("hello".to_string()));
    assert_eq!(client.handler(200, b""), Ok(String::new()));
    assert_eq!(client.handler(200, "h\u{e9}".as_bytes()), Ok("h\u{e9}".to_string()));
}

#[test]
fn handler_ok_with_invalid_utf8_is_decoding_error() {
    let client = Client::new(None, None);
    assert!(matches!(client.handler(200, &[0xff, 0xfe, 0x41]), Err(ClientError::Decoding(_))));
}

#[test]
fn handler_bad_request_reads_exchange_error() {
    let client = Client::new(None, None);
    assert_eq!(
        client.handler(400, br#"{"code":-1121,"msg":"Invalid symbol."}"#),
        Err(ClientError::Exchange { code: -1121, msg: "Invalid symbol.".to_string() })
    );
}

#[test]
fn handler_bad_request_with_malformed_body_is_decoding_error() {
    let client = Client::new(None, None);
    assert!(matches!(client.handler(400, b"not json"), Err(ClientError::Decoding(_))));
    assert!(matches!(client.handler(400, br#"{"code":-1121}"#), Err(ClientError::Decoding(_))));
    assert!(matches!(client.handler(400, br#"{"code":"x","msg":"m"}"#), Err(ClientError::Decoding(_))));
}

#[test]
fn handler_unauthorized_is_auth_error() {
    let client = Client::new(None, None);
    assert_eq!(client.handler(401, b""), Err(ClientError::Auth("Unauthorized".to_string())));
    assert_eq!(
        client.handler(401, br#"{"code":-2015,"msg":"Invalid API-key"}"#),
        Err(ClientError::Auth("Unauthorized".to_string()))
    );
}

#[test]
fn handler_server_errors() {
    let client = Client::new(None, None);
    assert_eq!(client.handler(503, b"anything"), Err(ClientError::Server("Service Unavailable".to_string())));
    assert_eq!(client.handler(503, &[0xff]), Err(ClientError::Server("Service Unavailable".to_string())));
    assert_eq!(client.handler(500, b""), Err(ClientError::Server("Internal Server Error".to_string())));
}

#[test]
fn handler_other_status_is_unexpected() {
    let client = Client::new(None, None);
    assert_eq!(client.handler(201, b"created"), Err(ClientError::UnexpectedStatus(201)));
    assert_eq!(client.handler(404, b""), Err(ClientError::UnexpectedStatus(404)));
    assert_eq!(client.handler(429, b""), Err(ClientError::UnexpectedStatus(429)));
}

#[test]
fn new_without_keys_gives_empty_credentials() {
    let client = Client::new(None, None);
    assert_eq!(client.api_key(), "");
    assert_eq!(client.secret_key(), "");
    assert_eq!(client.base_host(), DEFAULT_HOST);
}

#[test]
fn new_keeps_given_keys() {
    let client = Client::new(Some("api".to_string()), Some("secret".to_string()));
    assert_eq!(client.api_key(), "api");
    assert_eq!(client.secret_key(), "secret");
    let copy = client.clone();
    assert_eq!(copy.api_key(), "api");
    assert_eq!(copy.secret_key(), "secret");
}

#[test]
fn envelope_error_needs_both_members() {
    assert_eq!(
        envelope_error(Some(-1100), Some("Illegal characters".to_string())),
        ClientError::Exchange { code: -1100, msg: "Illegal characters".to_string() }
    );
    assert!(matches!(envelope_error(None, Some("m".to_string())), ClientError::Decoding(_)));
    assert!(matches!(envelope_error(Some(1), None), ClientError::Decoding(_)));
}
