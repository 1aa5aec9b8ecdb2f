//! The response side of the protocol: the structured response, its builder,
//! and the serializer that turns a response into wire bytes.
use vstd::prelude::*;

use crate::ascii::{push_bytes, dec_bytes, spec_dec_digits};
use crate::encoding::{ContentEncoding, EncodedContent, EncodedContentView, CodecError};
use crate::encoding::{spec_decode, spec_encode};

verus! {

/// The response statuses the server emits.
#[derive(Clone, Copy, Debug, PartialEq, Eq, Structural)]
pub enum HttpResponseType {
    Okay,
    NotFound,
    InternalServerError,
    Created,
    ServiceUnavailable,
    Conflict,
}

impl HttpResponseType {
    /// The numeric status code.
    pub open spec fn spec_to_code(self) -> u16 {
        match self {
            HttpResponseType::Okay => 200,
            HttpResponseType::NotFound => 404,
            HttpResponseType::InternalServerError => 500,
            HttpResponseType::Created => 201,
            HttpResponseType::ServiceUnavailable => 503,
            HttpResponseType::Conflict => 409,
        }
    }

    /// The reason phrase, as wire bytes.
    pub open spec fn spec_reason(self) -> Seq<u8> {
        match self {
            HttpResponseType::Okay => seq![79u8, 75u8],
            HttpResponseType::NotFound => seq![78u8, 111u8, 116u8, 32u8, 70u8, 111u8, 117u8,
                110u8, 100u8],
            HttpResponseType::InternalServerError => seq![73u8, 110u8, 116u8, 101u8, 114u8,
                110u8, 97u8, 108u8, 32u8, 83u8, 101u8, 114u8, 118u8, 101u8, 114u8, 32u8, 69u8,
                114u8, 114u8, 111u8, 114u8],
            HttpResponseType::Created => seq![67u8, 114u8, 101u8, 97u8, 116u8, 101u8, 100u8],
            HttpResponseType::ServiceUnavailable => seq![83u8, 101u8, 114u8, 118u8, 105u8, 99u8,
                101u8, 32u8, 85u8, 110u8, 97u8, 118u8, 97u8, 105u8, 108u8, 97u8, 98u8, 108u8,
                101u8],
            HttpResponseType::Conflict => seq![67u8, 111u8, 110u8, 102u8, 108u8, 105u8, 99u8,
                116u8],
        }
    }

    /// The numeric status code.
    pub fn to_code(&self) -> (r: u16)
        ensures
            r == self.spec_to_code(),
    {
        match self {
            HttpResponseType::Okay => 200,
            HttpResponseType::NotFound => 404,
            HttpResponseType::InternalServerError => 500,
            HttpResponseType::Created => 201,
            HttpResponseType::ServiceUnavailable => 503,
            HttpResponseType::Conflict => 409,
        }
    }

    /// The reason phrase, as wire bytes.
    fn reason_bytes(&self) -> (r: Vec<u8>)
        ensures
            r@ == self.spec_reason(),
    {
        match self {
            HttpResponseType::Okay => {
                let v: Vec<u8> = vec![79u8, 75u8];
                proof {
                    assert(v@ =~= self.spec_reason());
                }
                v
            },
            HttpResponseType::NotFound => {
                let v: Vec<u8> = vec![78u8, 111u8, 116u8, 32u8, 70u8, 111u8, 117u8, 110u8, 100u8];
                proof {
                    assert(v@ =~= self.spec_reason());
                }
                v
            },
            HttpResponseType::InternalServerError => {
                let v: Vec<u8> = vec![73u8, 110u8, 116u8, 101u8, 114u8, 110u8, 97u8, 108u8, 32u8,
                    83u8, 101u8, 114u8, 118u8, 101u8, 114u8, 32u8, 69u8, 114u8, 114u8, 111u8,
                    114u8];
                proof {
                    assert(v@ =~= self.spec_reason());
                }
                v
            },
            HttpResponseType::Created => {
                let v: Vec<u8> = vec![67u8, 114u8, 101u8, 97u8, 116u8, 101u8, 100u8];
                proof {
                    assert(v@ =~= self.spec_reason());
                }
                v
            },
            HttpResponseType::ServiceUnavailable => {
                let v: Vec<u8> = vec![83u8, 101u8, 114u8, 118u8, 105u8, 99u8, 101u8, 32u8, 85u8,
                    110u8, 97u8, 118u8, 97u8, 105u8, 108u8, 97u8, 98u8, 108u8, 101u8];
                proof {
                    assert(v@ =~= self.spec_reason());
                }
                v
            },
            HttpResponseType::Conflict => {
                let v: Vec<u8> = vec![67u8, 111u8, 110u8, 102u8, 108u8, 105u8, 99u8, 116u8];
                proof {
                    assert(v@ =~= self.spec_reason());
                }
                v
            },
        }
    }
}

/// The CRLF line terminator.
pub open spec fn spec_crlf() -> Seq<u8> {
    seq![13u8, 10u8]
}

/// The status line without its terminator: `HTTP/1.1 <code> <reason>`.
pub open spec fn spec_status_line(t: HttpResponseType) -> Seq<u8> {
    seq![72u8, 84u8, 84u8, 80u8, 47u8, 49u8, 46u8, 49u8, 32u8] + spec_dec_digits(
        t.spec_to_code() as nat,
    ) + seq![32u8] + t.spec_reason()
}

/// The abstract value of a response.
pub ghost struct HttpResponseView {
    pub response_type: HttpResponseType,
    pub content_type: Seq<u8>,
    pub content_length: usize,
    pub body: EncodedContentView,
}

impl HttpResponseView {
    /// A response is well formed when its length field equals its body's
    /// byte length.
    pub open spec fn wf(self) -> bool {
        self.content_length == self.body.buffer.len()
    }
}

/// A structured response, ready to be serialized.
#[derive(Debug)]
pub struct HttpResponse {
    pub response_type: HttpResponseType,
    pub content_type: Vec<u8>,
    pub content_length: usize,
    pub body: EncodedContent,
}

impl View for HttpResponse {
    type V = HttpResponseView;

    open spec fn view(&self) -> HttpResponseView {
        HttpResponseView {
            response_type: self.response_type,
            content_type: self.content_type@,
            content_length: self.content_length,
            body: self.body@,
        }
    }
}

/// The `Content-Type` header line of a response, terminator included.
pub open spec fn spec_content_type_line(r: HttpResponseView) -> Seq<u8> {
    seq![67u8, 111u8, 110u8, 116u8, 101u8, 110u8, 116u8, 45u8, 84u8, 121u8, 112u8, 101u8, 58u8,
        32u8] + r.content_type + spec_crlf()
}

/// The `Content-Length` header line of a response, terminator included.
pub open spec fn spec_content_length_line(r: HttpResponseView) -> Seq<u8> {
    seq![67u8, 111u8, 110u8, 116u8, 101u8, 110u8, 116u8, 45u8, 76u8, 101u8, 110u8, 103u8, 116u8,
        104u8, 58u8, 32u8] + spec_dec_digits(r.content_length as nat) + spec_crlf()
}

/// The `Content-Encoding: gzip` header line, terminator included.
pub open spec fn spec_content_encoding_line() -> Seq<u8> {
    seq![67u8, 111u8, 110u8, 116u8, 101u8, 110u8, 116u8, 45u8, 69u8, 110u8, 99u8, 111u8, 100u8,
        105u8, 110u8, 103u8, 58u8, 32u8] + seq![103u8, 122u8, 105u8, 112u8] + spec_crlf()
}

/// The header block emitted between the status line and the blank line:
/// nothing for an empty body; otherwise `Content-Type`, `Content-Length`,
/// and, for a non-identity body, `Content-Encoding`, in that order.
pub open spec fn spec_header_block(r: HttpResponseView) -> Seq<u8> {
    if r.body.buffer.len() == 0 {
        Seq::empty()
    } else {
        spec_content_type_line(r) + spec_content_length_line(r) + if r.body.encoding_type
            != ContentEncoding::NoEncoding {
            spec_content_encoding_line()
        } else {
            Seq::empty()
        }
    }
}

/// The wire bytes of a response: status line, header block, blank line, and
/// the body bytes verbatim.
pub open spec fn spec_serialize(r: HttpResponseView) -> Seq<u8> {
    spec_status_line(r.response_type) + spec_crlf() + spec_header_block(r) + spec_crlf() + (
    if r.body.buffer.len() == 0 {
        Seq::empty()
    } else {
        r.body.buffer
    })
}

impl HttpResponse {
    /// Does the response carry a body?
    pub fn has_body(&self) -> (r: bool)
        ensures
            r == (self@.body.buffer.len() > 0),
    {
        self.body.buffer.len() > 0
    }

    /// Serialize the response into its wire bytes. The body is emitted as it
    /// stands: its encoding must already be final.
    pub fn as_bytes(&self) -> (r: Vec<u8>)
        ensures
            r@ == spec_serialize(self@),
    {
        let mut out: Vec<u8> = vec![72u8, 84u8, 84u8, 80u8, 47u8, 49u8, 46u8, 49u8, 32u8];
        proof {
            assert(out@ =~= seq![72u8, 84u8, 84u8, 80u8, 47u8, 49u8, 46u8, 49u8, 32u8]);
        }
        let digits = dec_bytes(self.response_type.to_code() as usize);
        push_bytes(&mut out, digits.as_slice());
        out.push(32);
        let reason = self.response_type.reason_bytes();
        push_bytes(&mut out, reason.as_slice());
        proof {
            assert(out@ =~= spec_status_line(self@.response_type));
        }
        out.push(13);
        out.push(10);
        let ghost after_status = out@;
        proof {
            assert(after_status =~= spec_status_line(self@.response_type) + spec_crlf());
        }
        if self.has_body() {
            let k_type: Vec<u8> = vec![67u8, 111u8, 110u8, 116u8, 101u8, 110u8, 116u8, 45u8,
                84u8, 121u8, 112u8, 101u8, 58u8, 32u8];
            push_bytes(&mut out, k_type.as_slice());
            push_bytes(&mut out, self.content_type.as_slice());
            out.push(13);
            out.push(10);
            let k_length: Vec<u8> = vec![67u8, 111u8, 110u8, 116u8, 101u8, 110u8, 116u8, 45u8,
                76u8, 101u8, 110u8, 103u8, 116u8, 104u8, 58u8, 32u8];
            push_bytes(&mut out, k_length.as_slice());
            let length_digits = dec_bytes(self.content_length);
            push_bytes(&mut out, length_digits.as_slice());
            out.push(13);
            out.push(10);
            if !matches!(self.body.encoding_type, ContentEncoding::NoEncoding) {
                let k_encoding: Vec<u8> = vec![67u8, 111u8, 110u8, 116u8, 101u8, 110u8, 116u8,
                    45u8, 69u8, 110u8, 99u8, 111u8, 100u8, 105u8, 110u8, 103u8, 58u8, 32u8];
                push_bytes(&mut out, k_encoding.as_slice());
                let name: Vec<u8> = vec![103u8, 122u8, 105u8, 112u8];
                push_bytes(&mut out, name.as_slice());
                out.push(13);
                out.push(10);
            }
            proof {
                assert(out@ =~= after_status + spec_header_block(self@));
            }
        }
        out.push(13);
        out.push(10);
        if self.has_body() {
            push_bytes(&mut out, self.body.buffer.as_slice());
        }
        proof {
            assert(out@ =~= spec_serialize(self@));
        }
        out
    }
}

/// An empty-bodied response serializes to its status line followed by one
/// blank line and nothing else: no content headers and no body bytes stand
/// in the wire form.
pub proof fn lemma_serialize_empty_body(r: HttpResponseView)
    requires
        r.body.buffer.len() == 0,
    ensures
        spec_serialize(r) == spec_status_line(r.response_type) + spec_crlf() + spec_crlf(),
{
    assert(spec_serialize(r) =~= spec_status_line(r.response_type) + spec_crlf() + spec_crlf());
}

/// A response with a non-empty body under a non-identity encoding serializes
/// with its `Content-Encoding` header on the wire: the wire bytes are the
/// status line, the `Content-Type`, `Content-Length` and
/// `Content-Encoding: gzip` lines in that order, the blank line, and the
/// body bytes.
pub proof fn lemma_serialize_encoded_body(r: HttpResponseView)
    requires
        r.body.buffer.len() > 0,
        !(r.body.encoding_type is NoEncoding),
    ensures
        spec_serialize(r) == spec_status_line(r.response_type) + spec_crlf()
            + spec_content_type_line(r) + spec_content_length_line(r)
            + spec_content_encoding_line() + spec_crlf() + r.body.buffer,
{
    assert(spec_serialize(r) =~= spec_status_line(r.response_type) + spec_crlf()
        + spec_content_type_line(r) + spec_content_length_line(r) + spec_content_encoding_line()
        + spec_crlf() + r.body.buffer);
}

/// The abstract state of a response builder.
pub ghost struct HttpResponseBuilderView {
    pub response_type: HttpResponseType,
    pub content_type: Option<Seq<u8>>,
    pub body: Option<EncodedContentView>,
}

/// Accumulates the optional parts of a response, then materializes it with
/// the defaults applied.
pub struct HttpResponseBuilder {
    response_type: HttpResponseType,
    content_type: Option<Vec<u8>>,
    body: Option<EncodedContent>,
}

impl View for HttpResponseBuilder {
    type V = HttpResponseBuilderView;

    closed spec fn view(&self) -> HttpResponseBuilderView {
        HttpResponseBuilderView {
            response_type: self.response_type,
            content_type: match self.content_type {
                Some(c) => Some(c@),
                None => None,
            },
            body: match self.body {
                Some(b) => Some(b@),
                None => None,
            },
        }
    }
}

impl HttpResponseBuilder {
    /// A builder for a response of the given status.
    pub fn new(response_type: HttpResponseType) -> (r: HttpResponseBuilder)
        ensures
            r@ == (HttpResponseBuilderView { response_type, content_type: None, body: None }),
    {
        HttpResponseBuilder { response_type, content_type: None, body: None }
    }

    /// A builder carrying an existing response's parts.
    pub fn from(response: HttpResponse) -> (r: HttpResponseBuilder)
        ensures
            r@ == (HttpResponseBuilderView {
                response_type: response@.response_type,
                content_type: Some(response@.content_type),
                body: Some(response@.body),
            }),
    {
        HttpResponseBuilder {
            response_type: response.response_type,
            content_type: Some(response.content_type),
            body: Some(response.body),
        }
    }

    /// Set the content type.
    pub fn content_type(self, content_type: Vec<u8>) -> (r: Self)
        ensures
            r@ == (HttpResponseBuilderView { content_type: Some(content_type@), ..self@ }),
    {
        HttpResponseBuilder { content_type: Some(content_type), ..self }
    }

    /// Set the body.
    pub fn body(self, body: EncodedContent) -> (r: Self)
        ensures
            r@ == (HttpResponseBuilderView { body: Some(body@), ..self@ }),
    {
        HttpResponseBuilder { body: Some(body), ..self }
    }

    /// Re-encode the body, if there is one, to the given tag. The re-encoded
    /// body decodes back to the same identity content.
    pub fn encode_body(self, encoding_type: ContentEncoding) -> (r: Result<Self, CodecError>)
        ensures
            match self@.body {
                None => r is Ok && r.unwrap()@ == self@,
                Some(b) => {
                    if b.encoding_type == encoding_type {
                        &&& r is Ok
                        &&& r.unwrap()@ == (HttpResponseBuilderView { body: Some(b), ..self@ })
                    } else {
                        match spec_decode(b.encoding_type, b.buffer) {
                            Some(d) => {
                                &&& r is Ok
                                &&& r.unwrap()@ == (HttpResponseBuilderView {
                                    body: Some(
                                        EncodedContentView {
                                            buffer: spec_encode(d, encoding_type),
                                            encoding_type,
                                        },
                                    ),
                                    ..self@
                                })
                                &&& spec_decode(encoding_type, spec_encode(d, encoding_type))
                                    == Some(d)
                                &&& encoding_type is Gzip ==> spec_encode(
                                    d,
                                    encoding_type,
                                ).len() > 0
                            },
                            None => r is Err,
                        }
                    }
                },
            },
    {
        match self.body {
            None => Ok(self),
            Some(b) => {
                let encoded = match ContentEncoding::encode(b, encoding_type) {
                    Ok(e) => e,
                    Err(e) => {
                        return Err(e);
                    },
                };
                Ok(HttpResponseBuilder { body: Some(encoded), ..self })
            },
        }
    }

    /// Materialize the response: the content type falls back to
    /// `text/plain`, a missing body to the empty identity body, and the
    /// length field is computed from the body. The result is well formed.
    pub fn build(self) -> (r: HttpResponse)
        ensures
            r@.response_type == self@.response_type,
            r@.content_type == match self@.content_type {
                Some(c) => c,
                None => seq![116u8, 101u8, 120u8, 116u8, 47u8, 112u8, 108u8, 97u8, 105u8, 110u8],
            },
            r@.body == match self@.body {
                Some(b) => b,
                None => (EncodedContentView {
                    buffer: Seq::empty(),
                    encoding_type: ContentEncoding::NoEncoding,
                }),
            },
            r@.content_length == r@.body.buffer.len(),
            r@.wf(),
    {
        let content_type = match self.content_type {
            Some(c) => c,
            None => {
                let v: Vec<u8> = vec![116u8, 101u8, 120u8, 116u8, 47u8, 112u8, 108u8, 97u8,
                    105u8, 110u8];
                proof {
                    assert(v@ =~= seq![116u8, 101u8, 120u8, 116u8, 47u8, 112u8, 108u8, 97u8,
                        105u8, 110u8]);
                }
                v
            },
        };
        let body = match self.body {
            Some(b) => b,
            None => EncodedContent::from(Vec::new()),
        };
        let content_length = body.buffer.len();
        HttpResponse { response_type: self.response_type, content_type, content_length, body }
    }
}

} // verus!
