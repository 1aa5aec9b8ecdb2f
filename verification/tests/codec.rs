use minihttp::encoding::{AcceptedEncodings, CodecError, ContentEncoding, EncodedContent};

fn clone_content(c: &EncodedContent) -> EncodedContent {
    EncodedContent { buffer: c.buffer.clone(), encoding_type: c.encoding_type }
}

#[test]
fn round_trip_identity() {
    let x = EncodedContent::from(b"hello world".to_vec());
    let decoded = ContentEncoding::decode(clone_content(&x)).unwrap();
    let back = ContentEncoding::encode(decoded, ContentEncoding::NoEncoding).unwrap();
    assert_eq!(back.buffer, x.buffer);
    assert_eq!(back.encoding_type, x.encoding_type);
}

#[test]
fn round_trip_gzip() {
    let plain = EncodedContent::from(b"some content worth compressing".to_vec());
    let x = ContentEncoding::encode(plain, ContentEncoding::Gzip).unwrap();
    assert_eq!(x.encoding_type, ContentEncoding::Gzip);
    let decoded = ContentEncoding::decode(clone_content(&x)).unwrap();
    assert_eq!(decoded.encoding_type, ContentEncoding::NoEncoding);
    assert_eq!(decoded.buffer, b"some content worth compressing".to_vec());
    let back = ContentEncoding::encode(decoded, ContentEncoding::Gzip).unwrap();
    assert_eq!(back.buffer, x.buffer);
    assert_eq!(back.encoding_type, x.encoding_type);
}

#[test]
fn gzip_compression_changes_the_bytes() {
    let plain = EncodedContent::from(b"aaaaaaaaaaaaaaaaaaaaaaaaaaaaaaaa".to_vec());
    let x = ContentEncoding::encode(plain, ContentEncoding::Gzip).unwrap();
    assert_ne!(x.buffer, b"aaaaaaaaaaaaaaaaaaaaaaaaaaaaaaaa".to_vec());
    let decoded = ContentEncoding::decode(x).unwrap();
    assert_eq!(decoded.buffer, b"aaaaaaaaaaaaaaaaaaaaaaaaaaaaaaaa".to_vec());
}

#[test]
fn decode_of_malformed_gzip_fails() {
    let junk = EncodedContent { buffer: b"not a gzip stream".to_vec(), encoding_type: ContentEncoding::Gzip };
    assert_eq!(ContentEncoding::decode(junk).unwrap_err(), CodecError::CorruptStream);
}

#[test]
fn encode_to_same_tag_is_a_no_op() {
    let x = EncodedContent::from(b"abc".to_vec());
    let y = ContentEncoding::encode(x, ContentEncoding::NoEncoding).unwrap();
    assert_eq!(y.buffer, b"abc".to_vec());
    assert_eq!(y.encoding_type, ContentEncoding::NoEncoding);
}

#[test]
fn encoding_token_vocabulary() {
    assert_eq!(ContentEncoding::from("gzip"), Some(ContentEncoding::Gzip));
    assert_eq!(ContentEncoding::from("GZip"), Some(ContentEncoding::Gzip));
    assert_eq!(ContentEncoding::from("none"), Some(ContentEncoding::NoEncoding));
    assert_eq!(ContentEncoding::from("identity"), Some(ContentEncoding::NoEncoding));
    assert_eq!(ContentEncoding::from("deflate"), None);
    assert_eq!(ContentEncoding::from(""), None);
}

#[test]
fn encoding_names() {
    assert_eq!(ContentEncoding::NoEncoding.to_str(), "none");
    assert_eq!(ContentEncoding::Gzip.to_str(), "gzip");
}

#[test]
fn default_content_is_empty_identity() {
    let d = EncodedContent::default();
    assert!(d.buffer.is_empty());
    assert_eq!(d.encoding_type, ContentEncoding::NoEncoding);
}

#[test]
fn accepted_encodings_set_operations() {
    let s = AcceptedEncodings::new();
    assert!(s.is_empty());
    let s = s.insert(ContentEncoding::Gzip);
    assert!(s.contains(ContentEncoding::Gzip));
    assert!(!s.contains(ContentEncoding::NoEncoding));
    assert_eq!(s.pick(), ContentEncoding::Gzip);
    let s = s.insert(ContentEncoding::NoEncoding);
    assert!(s.contains(ContentEncoding::NoEncoding));
    assert_eq!(s.pick(), ContentEncoding::Gzip);
}
