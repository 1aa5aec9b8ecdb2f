use minihttp::encoding::{ContentEncoding, EncodedContent};
use minihttp::response::{HttpResponse, HttpResponseBuilder, HttpResponseType};

#[test]
fn status_codes() {
    assert_eq!(HttpResponseType::Okay.to_code(), 200);
    assert_eq!(HttpResponseType::Created.to_code(), 201);
    assert_eq!(HttpResponseType::NotFound.to_code(), 404);
    assert_eq!(HttpResponseType::Conflict.to_code(), 409);
    assert_eq!(HttpResponseType::InternalServerError.to_code(), 500);
    assert_eq!(HttpResponseType::ServiceUnavailable.to_code(), 503);
}

#[test]
fn empty_body_serializes_to_a_bare_status_block() {
    for (t, expected) in [
        (HttpResponseType::Okay, &b"HTTP/1.1 200 OK\r\n\r\n"[..]),
        (HttpResponseType::Created, &b"HTTP/1.1 201 Created\r\n\r\n"[..]),
        (HttpResponseType::NotFound, &b"HTTP/1.1 404 Not Found\r\n\r\n"[..]),
        (HttpResponseType::Conflict, &b"HTTP/1.1 409 Conflict\r\n\r\n"[..]),
        (
            HttpResponseType::InternalServerError,
            &b"HTTP/1.1 500 Internal Server Error\r\n\r\n"[..],
        ),
        (
            HttpResponseType::ServiceUnavailable,
            &b"HTTP/1.1 503 Service Unavailable\r\n\r\n"[..],
        ),
    ] {
        let response = HttpResponseBuilder::new(t).build();
        let bytes = response.as_bytes();
        assert_eq!(bytes, expected.to_vec());
        let text = String::from_utf8_lossy(&bytes).to_string();
        assert_eq!(text.matches("\r\n\r\n").count(), 1);
        assert!(!text.contains("Content-"));
    }
}

#[test]
fn body_emits_the_content_headers_in_order() {
    let response = HttpResponseBuilder::new(HttpResponseType::Okay)
        .content_type(b"text/html".to_vec())
        .body(EncodedContent::from(b"<p>hi</p>".to_vec()))
        .build();
    assert_eq!(
        response.as_bytes(),
        b"HTTP/1.1 200 OK\r\nContent-Type: text/html\r\nContent-Length: 9\r\n\r\n<p>hi</p>"
            .to_vec()
    );
}

#[test]
fn content_type_defaults_to_text_plain() {
    let response = HttpResponseBuilder::new(HttpResponseType::Okay)
        .body(EncodedContent::from(b"x".to_vec()))
        .build();
    assert_eq!(response.content_type, b"text/plain".to_vec());
}

#[test]
fn content_length_is_derived_from_the_body() {
    let response = HttpResponseBuilder::new(HttpResponseType::Okay)
        .body(EncodedContent::from(vec![0u8; 123]))
        .build();
    assert_eq!(response.content_length, 123);
    let text = String::from_utf8_lossy(&response.as_bytes()).to_string();
    assert!(text.contains("Content-Length: 123\r\n"));
}

#[test]
fn non_identity_body_emits_content_encoding() {
    let gz = ContentEncoding::encode(
        EncodedContent::from(b"payload".to_vec()),
        ContentEncoding::Gzip,
    )
    .unwrap();
    let gz_len = gz.buffer.len();
    let response = HttpResponseBuilder::new(HttpResponseType::Okay).body(gz).build();
    let bytes = response.as_bytes();
    let text = String::from_utf8_lossy(&bytes).to_string();
    assert!(text.starts_with("HTTP/1.1 200 OK\r\nContent-Type: text/plain\r\n"));
    assert!(text.contains(&format!("Content-Length: {}\r\n", gz_len)));
    assert!(text.contains("Content-Encoding: gzip\r\n"));
}

#[test]
fn builder_from_keeps_the_parts() {
    let first = HttpResponseBuilder::new(HttpResponseType::Okay)
        .content_type(b"a/b".to_vec())
        .body(EncodedContent::from(b"zz".to_vec()))
        .build();
    let rebuilt = HttpResponseBuilder::from(first).build();
    assert_eq!(rebuilt.response_type, HttpResponseType::Okay);
    assert_eq!(rebuilt.content_type, b"a/b".to_vec());
    assert_eq!(rebuilt.body.buffer, b"zz".to_vec());
    assert_eq!(rebuilt.content_length, 2);
}

#[test]
fn encode_body_reencodes_an_existing_body() {
    let built = HttpResponseBuilder::new(HttpResponseType::Okay)
        .body(EncodedContent::from(b"abcabcabc".to_vec()))
        .encode_body(ContentEncoding::Gzip)
        .unwrap()
        .build();
    assert_eq!(built.body.encoding_type, ContentEncoding::Gzip);
    assert_eq!(built.content_length, built.body.buffer.len());
    let back = ContentEncoding::decode(built.body).unwrap();
    assert_eq!(back.buffer, b"abcabcabc".to_vec());
}

#[test]
fn encode_body_without_a_body_is_a_no_op() {
    let response = HttpResponseBuilder::new(HttpResponseType::NotFound)
        .encode_body(ContentEncoding::Gzip)
        .unwrap()
        .build();
    assert!(!response.has_body());
    assert_eq!(response.body.encoding_type, ContentEncoding::NoEncoding);
}

#[test]
fn has_body_reports_the_buffer() {
    let empty = HttpResponseBuilder::new(HttpResponseType::Okay).build();
    assert!(!empty.has_body());
    let full = HttpResponseBuilder::new(HttpResponseType::Okay)
        .body(EncodedContent::from(b"x".to_vec()))
        .build();
    assert!(full.has_body());
}

#[test]
fn wf_is_visible_through_the_fields() {
    let response = HttpResponse {
        response_type: HttpResponseType::Okay,
        content_type: b"text/plain".to_vec(),
        content_length: 3,
        body: EncodedContent::from(b"abc".to_vec()),
    };
    assert_eq!(response.content_length, response.body.buffer.len());
}
