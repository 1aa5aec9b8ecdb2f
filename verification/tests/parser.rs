use minihttp::encoding::ContentEncoding;
use minihttp::request::{
    HttpRequest, HttpRequestBuilder, HttpRequestHeaderBuilder, HttpRequestType, ParseError,
};
use minihttp::server::ServerContext;

fn parse(bytes: &[u8]) -> Result<HttpRequest, ParseError> {
    HttpRequest::from_bytes(bytes, ServerContext::unconfigured())
}

#[test]
fn parses_a_plain_get() {
    let req = parse(b"GET /index.html HTTP/1.1\r\nHost: localhost\r\n\r\n").unwrap();
    assert_eq!(req.request_type, HttpRequestType::Get);
    assert_eq!(req.path, b"/index.html".to_vec());
    assert_eq!(req.header.host, b"localhost".to_vec());
    assert!(req.body.is_empty());
}

#[test]
fn content_length_absent_gives_empty_body() {
    let req = parse(b"GET / HTTP/1.1\r\nHost: h\r\n\r\n").unwrap();
    assert_eq!(req.header.content_length, 0);
    assert!(req.body.is_empty());
}

#[test]
fn content_length_zero_gives_empty_body() {
    let req = parse(b"GET / HTTP/1.1\r\nContent-Length: 0\r\n\r\n").unwrap();
    assert_eq!(req.header.content_length, 0);
    assert!(req.body.is_empty());
}

#[test]
fn body_is_read_to_the_declared_length() {
    let req = parse(b"POST /x HTTP/1.1\r\nContent-Length: 2\r\n\r\nhiextra").unwrap();
    assert_eq!(req.request_type, HttpRequestType::Post);
    assert_eq!(req.body, b"hi".to_vec());
}

#[test]
fn short_body_is_a_fatal_error() {
    let r = parse(b"POST /x HTTP/1.1\r\nContent-Length: 5\r\n\r\nhi");
    assert_eq!(r.unwrap_err(), ParseError::UnexpectedEof);
}

#[test]
fn missing_blank_line_is_a_fatal_error() {
    let r = parse(b"GET / HTTP/1.1\r\nHost: h\r\n");
    assert_eq!(r.unwrap_err(), ParseError::UnexpectedEof);
}

#[test]
fn incomplete_request_line_is_a_fatal_error() {
    let r = parse(b"GET / HTTP/1.1");
    assert_eq!(r.unwrap_err(), ParseError::UnexpectedEof);
}

#[test]
fn two_token_request_line_is_rejected() {
    let r = parse(b"GET /\r\n\r\n");
    assert_eq!(r.unwrap_err(), ParseError::InvalidRequestLine);
}

#[test]
fn four_token_request_line_is_rejected() {
    let r = parse(b"GET / HTTP/1.1 extra\r\n\r\n");
    assert_eq!(r.unwrap_err(), ParseError::InvalidRequestLine);
}

#[test]
fn unknown_method_is_rejected() {
    let r = parse(b"PATCH / HTTP/1.1\r\n\r\n");
    assert_eq!(r.unwrap_err(), ParseError::UnknownMethod);
}

#[test]
fn methods_are_case_sensitive() {
    let r = parse(b"get / HTTP/1.1\r\n\r\n");
    assert_eq!(r.unwrap_err(), ParseError::UnknownMethod);
}

#[test]
fn all_four_methods_parse() {
    for (token, method) in [
        (&b"GET"[..], HttpRequestType::Get),
        (&b"POST"[..], HttpRequestType::Post),
        (&b"PUT"[..], HttpRequestType::Put),
        (&b"DELETE"[..], HttpRequestType::Delete),
    ] {
        let mut line = token.to_vec();
        line.extend_from_slice(b" / HTTP/1.1\r\n\r\n");
        let req = parse(&line).unwrap();
        assert_eq!(req.request_type, method);
    }
}

#[test]
fn empty_path_token_is_normalized_to_root() {
    let req = parse(b"GET  HTTP/1.1\r\n\r\n").unwrap();
    assert_eq!(req.path, b"/".to_vec());
}

#[test]
fn header_keys_match_case_insensitively() {
    let req = parse(b"GET / HTTP/1.1\r\nUSER-AGENT: curl/8\r\ncOnTeNt-TyPe: a/b\r\n\r\n").unwrap();
    assert_eq!(req.header.user_agent, b"curl/8".to_vec());
    assert_eq!(req.header.content_type, b"a/b".to_vec());
}

#[test]
fn unknown_headers_and_separatorless_lines_are_ignored() {
    let req = parse(b"GET / HTTP/1.1\r\nX-Custom: zzz\r\nnot a header line\r\nHost: h\r\n\r\n")
        .unwrap();
    assert_eq!(req.header.host, b"h".to_vec());
}

#[test]
fn unparsable_content_length_resolves_to_zero() {
    let req = parse(b"GET / HTTP/1.1\r\nContent-Length: abc\r\n\r\n").unwrap();
    assert_eq!(req.header.content_length, 0);
    let req = parse(b"GET / HTTP/1.1\r\nContent-Length: 12x\r\n\r\n").unwrap();
    assert_eq!(req.header.content_length, 0);
    let req = parse(b"GET / HTTP/1.1\r\nContent-Length: 99999999999999999999999\r\n\r\n").unwrap();
    assert_eq!(req.header.content_length, 0);
}

#[test]
fn header_defaults_are_applied() {
    let req = parse(b"GET / HTTP/1.1\r\n\r\n").unwrap();
    assert_eq!(req.header.host, b"unknown".to_vec());
    assert_eq!(req.header.user_agent, b"".to_vec());
    assert_eq!(req.header.accept, b"*/*".to_vec());
    assert_eq!(req.header.content_type, b"".to_vec());
    assert_eq!(req.header.content_length, 0);
    assert!(req.header.accept_encoding.identity);
    assert!(!req.header.accept_encoding.gzip);
}

#[test]
fn accept_encoding_tokens_are_filtered() {
    let req = parse(b"GET / HTTP/1.1\r\nAccept-Encoding: deflate, gzip, br\r\n\r\n").unwrap();
    assert!(req.header.accept_encoding.gzip);
    assert!(!req.header.accept_encoding.identity);

    let req = parse(b"GET / HTTP/1.1\r\nAccept-Encoding: identity, gzip\r\n\r\n").unwrap();
    assert!(req.header.accept_encoding.gzip);
    assert!(req.header.accept_encoding.identity);
}

#[test]
fn unrecognized_accept_encoding_defaults_to_identity() {
    let req = parse(b"GET / HTTP/1.1\r\nAccept-Encoding: br\r\n\r\n").unwrap();
    assert!(req.header.accept_encoding.identity);
    assert!(!req.header.accept_encoding.gzip);
}

#[test]
fn header_builder_setters_and_build() {
    let header = HttpRequestHeaderBuilder::new()
        .host(b"h".to_vec())
        .user_agent(b"ua".to_vec())
        .accept(b"text/html".to_vec())
        .content_type(b"text/plain".to_vec())
        .content_length(7)
        .accept_encoding(ContentEncoding::Gzip)
        .build();
    assert_eq!(header.host, b"h".to_vec());
    assert_eq!(header.user_agent, b"ua".to_vec());
    assert_eq!(header.accept, b"text/html".to_vec());
    assert_eq!(header.content_type, b"text/plain".to_vec());
    assert_eq!(header.content_length, 7);
    assert!(header.accept_encoding.gzip);
    assert!(!header.accept_encoding.identity);
}

#[test]
fn header_builder_apply_from_line() {
    let header = HttpRequestHeaderBuilder::new()
        .apply_from_line(b"Host: example")
        .apply_from_line(b"Content-Length: 42")
        .apply_from_line(b"garbage")
        .build();
    assert_eq!(header.host, b"example".to_vec());
    assert_eq!(header.content_length, 42);
}

#[test]
fn request_builder_from_request_line() {
    let builder =
        HttpRequestBuilder::from_request_line(b"POST /files/a.txt HTTP/1.1", ServerContext::unconfigured())
            .unwrap();
    let req = builder.body(b"data".to_vec()).build();
    assert_eq!(req.request_type, HttpRequestType::Post);
    assert_eq!(req.path, b"/files/a.txt".to_vec());
    assert_eq!(req.body, b"data".to_vec());
    assert_eq!(req.header.host, b"unknown".to_vec());
}

#[test]
fn request_builder_rejects_bad_lines() {
    let r = HttpRequestBuilder::from_request_line(b"GET /", ServerContext::unconfigured());
    assert!(matches!(r, Err(ParseError::InvalidRequestLine)));
    let r = HttpRequestBuilder::from_request_line(b"FETCH / HTTP/1.1", ServerContext::unconfigured());
    assert!(matches!(r, Err(ParseError::UnknownMethod)));
}
