//! The request side of the protocol: the structured request, its header, the
//! builders that accumulate header lines, and the byte-stream parser.
use vstd::prelude::*;
use vstd::slice::{slice_subrange, slice_to_vec};

use crate::ascii::{
    bytes_eq,
    lower_bytes,
    parse_dec_or_zero,
    spec_dec_value,
    spec_find1,
    spec_find2,
    spec_is_digits,
    spec_line_at,
    spec_lower_bytes,
    find1,
    find2,
    lemma_find1_in_range,
    lemma_find2_in_range,
    take_line,
};
use crate::encoding::{AcceptedEncodings, ContentEncoding};
use crate::server::ServerContext;

verus! {

/// Why a byte stream failed to parse into a request. `InvalidRequestLine`
/// and `UnknownMethod` are malformed requests; `UnexpectedEof` is a stream
/// that ended before a complete request was read.
#[derive(Clone, Copy, Debug, PartialEq, Eq, Structural)]
pub enum ParseError {
    InvalidRequestLine,
    UnknownMethod,
    UnexpectedEof,
}

/// The request methods the server accepts.
#[derive(Clone, Copy, Debug, PartialEq, Eq, Structural)]
pub enum HttpRequestType {
    Get,
    Post,
    Put,
    Delete,
}

impl HttpRequestType {
    /// The method named by a request-line token: one of the four known verbs,
    /// case-sensitively, or nothing.
    pub open spec fn spec_from_token(t: Seq<u8>) -> Option<HttpRequestType> {
        if t == seq![71u8, 69u8, 84u8] {
            Some(HttpRequestType::Get)
        } else if t == seq![80u8, 79u8, 83u8, 84u8] {
            Some(HttpRequestType::Post)
        } else if t == seq![80u8, 85u8, 84u8] {
            Some(HttpRequestType::Put)
        } else if t == seq![68u8, 69u8, 76u8, 69u8, 84u8, 69u8] {
            Some(HttpRequestType::Delete)
        } else {
            None
        }
    }

    /// Parse the method token of a request line.
    pub fn from_token(token: &[u8]) -> (r: Result<HttpRequestType, ParseError>)
        ensures
            match Self::spec_from_token(token@) {
                Some(m) => r == Ok::<HttpRequestType, ParseError>(m),
                None => r == Err::<HttpRequestType, ParseError>(ParseError::UnknownMethod),
            },
    {
        let get: Vec<u8> = vec![71u8, 69u8, 84u8];
        let post: Vec<u8> = vec![80u8, 79u8, 83u8, 84u8];
        let put: Vec<u8> = vec![80u8, 85u8, 84u8];
        let delete: Vec<u8> = vec![68u8, 69u8, 76u8, 69u8, 84u8, 69u8];
        proof {
            assert(get@ =~= seq![71u8, 69u8, 84u8]);
            assert(post@ =~= seq![80u8, 79u8, 83u8, 84u8]);
            assert(put@ =~= seq![80u8, 85u8, 84u8]);
            assert(delete@ =~= seq![68u8, 69u8, 76u8, 69u8, 84u8, 69u8]);
        }
        if bytes_eq(token, get.as_slice()) {
            Ok(HttpRequestType::Get)
        } else if bytes_eq(token, post.as_slice()) {
            Ok(HttpRequestType::Post)
        } else if bytes_eq(token, put.as_slice()) {
            Ok(HttpRequestType::Put)
        } else if bytes_eq(token, delete.as_slice()) {
            Ok(HttpRequestType::Delete)
        } else {
            Err(ParseError::UnknownMethod)
        }
    }
}

/// The abstract value of a finished request header.
pub ghost struct HttpRequestHeaderView {
    pub host: Seq<u8>,
    pub user_agent: Seq<u8>,
    pub accept: Seq<u8>,
    pub content_type: Seq<u8>,
    pub content_length: usize,
    pub accept_encoding: AcceptedEncodings,
}

/// A finished request header: every field present, defaults applied.
#[derive(Debug)]
pub struct HttpRequestHeader {
    pub host: Vec<u8>,
    pub user_agent: Vec<u8>,
    pub accept: Vec<u8>,
    pub content_type: Vec<u8>,
    pub content_length: usize,
    pub accept_encoding: AcceptedEncodings,
}

impl View for HttpRequestHeader {
    type V = HttpRequestHeaderView;

    open spec fn view(&self) -> HttpRequestHeaderView {
        HttpRequestHeaderView {
            host: self.host@,
            user_agent: self.user_agent@,
            accept: self.accept@,
            content_type: self.content_type@,
            content_length: self.content_length,
            accept_encoding: self.accept_encoding,
        }
    }
}

/// The abstract state of a header builder: each field still optional.
pub ghost struct HttpRequestHeaderBuilderView {
    pub host: Option<Seq<u8>>,
    pub user_agent: Option<Seq<u8>>,
    pub accept: Option<Seq<u8>>,
    pub content_type: Option<Seq<u8>>,
    pub content_length: Option<usize>,
    pub accept_encoding: AcceptedEncodings,
}

impl HttpRequestHeaderBuilderView {
    /// The starting state: nothing seen yet.
    pub open spec fn init() -> HttpRequestHeaderBuilderView {
        HttpRequestHeaderBuilderView {
            host: None,
            user_agent: None,
            accept: None,
            content_type: None,
            content_length: None,
            accept_encoding: AcceptedEncodings::spec_empty(),
        }
    }
}

/// The value a `Content-Length` header resolves to: the decimal value when
/// the text is a plain digit string that fits, 0 otherwise.
pub open spec fn spec_content_length_value(value: Seq<u8>) -> usize {
    if spec_is_digits(value) && spec_dec_value(value) <= usize::MAX {
        spec_dec_value(value) as usize
    } else {
        0
    }
}

/// One `Accept-Encoding` token added to the set; an unrecognized token is
/// dropped.
pub open spec fn spec_add_token(acc: AcceptedEncodings, tok: Seq<u8>) -> AcceptedEncodings {
    match ContentEncoding::spec_from_token(tok) {
        Some(e) => acc.spec_insert(e),
        None => acc,
    }
}

/// All comma-space separated tokens of `s` from position `from` on, added in
/// order.
pub open spec fn spec_add_tokens(acc: AcceptedEncodings, s: Seq<u8>, from: int) -> AcceptedEncodings
    decreases s.len() - from,
{
    match spec_find2(s, from, 44, 32) {
        None => spec_add_token(acc, s.subrange(from, s.len() as int)),
        Some(i) => if from <= i && i + 2 <= s.len() {
            spec_add_tokens(spec_add_token(acc, s.subrange(from, i)), s, i + 2)
        } else {
            acc
        },
    }
}

/// One header line applied to the builder state: split on the first
/// colon-space; a line without one, or with an unknown key, leaves the state
/// unchanged. Keys are matched case-insensitively.
pub open spec fn spec_apply_line(
    b: HttpRequestHeaderBuilderView,
    line: Seq<u8>,
) -> HttpRequestHeaderBuilderView {
    match spec_find2(line, 0, 58, 32) {
        None => b,
        Some(i) => {
            let key = spec_lower_bytes(line.subrange(0, i));
            let value = line.subrange(i + 2, line.len() as int);
            if key == seq![104u8, 111u8, 115u8, 116u8] {
                HttpRequestHeaderBuilderView { host: Some(value), ..b }
            } else if key == seq![117u8, 115u8, 101u8, 114u8, 45u8, 97u8, 103u8, 101u8, 110u8,
                116u8,
            ] {
                HttpRequestHeaderBuilderView { user_agent: Some(value), ..b }
            } else if key == seq![97u8, 99u8, 99u8, 101u8, 112u8, 116u8] {
                HttpRequestHeaderBuilderView { accept: Some(value), ..b }
            } else if key == seq![99u8, 111u8, 110u8, 116u8, 101u8, 110u8, 116u8, 45u8, 116u8,
                121u8, 112u8, 101u8,
            ] {
                HttpRequestHeaderBuilderView { content_type: Some(value), ..b }
            } else if key == seq![99u8, 111u8, 110u8, 116u8, 101u8, 110u8, 116u8, 45u8, 108u8,
                101u8, 110u8, 103u8, 116u8, 104u8,
            ] {
                HttpRequestHeaderBuilderView {
                    content_length: Some(spec_content_length_value(value)),
                    ..b
                }
            } else if key == seq![97u8, 99u8, 99u8, 101u8, 112u8, 116u8, 45u8, 101u8, 110u8, 99u8,
                111u8, 100u8, 105u8, 110u8, 103u8,
            ] {
                HttpRequestHeaderBuilderView {
                    accept_encoding: spec_add_tokens(b.accept_encoding, value, 0),
                    ..b
                }
            } else {
                b
            }
        },
    }
}

/// The finished header a builder state materializes to: an absent host falls
/// back to `unknown`, an absent accept to `*/*`, an absent user-agent and
/// content-type to empty (so the user-agent route reflects an empty body
/// when the header is absent), an absent length to 0, and an empty
/// accepted-encoding set to the identity singleton.
pub open spec fn spec_build_header(b: HttpRequestHeaderBuilderView) -> HttpRequestHeaderView {
    HttpRequestHeaderView {
        host: match b.host {
            Some(h) => h,
            None => seq![117u8, 110u8, 107u8, 110u8, 111u8, 119u8, 110u8],
        },
        user_agent: match b.user_agent {
            Some(u) => u,
            None => Seq::empty(),
        },
        accept: match b.accept {
            Some(a) => a,
            None => seq![42u8, 47u8, 42u8],
        },
        content_type: match b.content_type {
            Some(c) => c,
            None => Seq::empty(),
        },
        content_length: match b.content_length {
            Some(n) => n,
            None => 0,
        },
        accept_encoding: if b.accept_encoding.spec_is_empty() {
            AcceptedEncodings { identity: true, gzip: false }
        } else {
            b.accept_encoding
        },
    }
}

/// A materialized header always accepts at least one encoding: an empty set
/// falls back to the identity singleton, so negotiation always has a member
/// to pick.
pub proof fn lemma_built_header_accepts_something(b: HttpRequestHeaderBuilderView)
    ensures
        !spec_build_header(b).accept_encoding.spec_is_empty(),
{
}

/// Accumulates request header fields line by line, then materializes a
/// finished header with defaults applied.
pub struct HttpRequestHeaderBuilder {
    host: Option<Vec<u8>>,
    user_agent: Option<Vec<u8>>,
    accept: Option<Vec<u8>>,
    content_type: Option<Vec<u8>>,
    content_length: Option<usize>,
    accept_encoding: AcceptedEncodings,
}

impl View for HttpRequestHeaderBuilder {
    type V = HttpRequestHeaderBuilderView;

    closed spec fn view(&self) -> HttpRequestHeaderBuilderView {
        HttpRequestHeaderBuilderView {
            host: match self.host {
                Some(h) => Some(h@),
                None => None,
            },
            user_agent: match self.user_agent {
                Some(u) => Some(u@),
                None => None,
            },
            accept: match self.accept {
                Some(a) => Some(a@),
                None => None,
            },
            content_type: match self.content_type {
                Some(c) => Some(c@),
                None => None,
            },
            content_length: self.content_length,
            accept_encoding: self.accept_encoding,
        }
    }
}

impl HttpRequestHeaderBuilder {
    /// A builder with nothing seen yet.
    pub fn new() -> (r: HttpRequestHeaderBuilder)
        ensures
            r@ == HttpRequestHeaderBuilderView::init(),
    {
        HttpRequestHeaderBuilder {
            host: None,
            user_agent: None,
            accept: None,
            content_type: None,
            content_length: None,
            accept_encoding: AcceptedEncodings::new(),
        }
    }

    /// Set the `Host` value.
    pub fn host(self, host: Vec<u8>) -> (r: Self)
        ensures
            r@ == (HttpRequestHeaderBuilderView { host: Some(host@), ..self@ }),
    {
        HttpRequestHeaderBuilder { host: Some(host), ..self }
    }

    /// Set the `User-Agent` value.
    pub fn user_agent(self, user_agent: Vec<u8>) -> (r: Self)
        ensures
            r@ == (HttpRequestHeaderBuilderView { user_agent: Some(user_agent@), ..self@ }),
    {
        HttpRequestHeaderBuilder { user_agent: Some(user_agent), ..self }
    }

    /// Set the `Accept` value.
    pub fn accept(self, accept: Vec<u8>) -> (r: Self)
        ensures
            r@ == (HttpRequestHeaderBuilderView { accept: Some(accept@), ..self@ }),
    {
        HttpRequestHeaderBuilder { accept: Some(accept), ..self }
    }

    /// Set the `Content-Type` value.
    pub fn content_type(self, content_type: Vec<u8>) -> (r: Self)
        ensures
            r@ == (HttpRequestHeaderBuilderView { content_type: Some(content_type@), ..self@ }),
    {
        HttpRequestHeaderBuilder { content_type: Some(content_type), ..self }
    }

    /// Set the `Content-Length` value.
    pub fn content_length(self, content_length: usize) -> (r: Self)
        ensures
            r@ == (HttpRequestHeaderBuilderView {
                content_length: Some(content_length),
                ..self@
            }),
    {
        HttpRequestHeaderBuilder { content_length: Some(content_length), ..self }
    }

    /// Add one accepted encoding.
    pub fn accept_encoding(self, accept_encoding: ContentEncoding) -> (r: Self)
        ensures
            r@ == (HttpRequestHeaderBuilderView {
                accept_encoding: self@.accept_encoding.spec_insert(accept_encoding),
                ..self@
            }),
    {
        let joined = self.accept_encoding.insert(accept_encoding);
        HttpRequestHeaderBuilder { accept_encoding: joined, ..self }
    }

    /// Add every recognized tag of a comma-space separated token list.
    fn accept_encodings_from_line(self, line: &[u8]) -> (r: Self)
        ensures
            r@ == (HttpRequestHeaderBuilderView {
                accept_encoding: spec_add_tokens(self@.accept_encoding, line@, 0),
                ..self@
            }),
    {
        let n = line.len();
        let ghost orig = self@.accept_encoding;
        let mut acc = self.accept_encoding;
        let mut from: usize = 0;
        loop
            invariant_except_break
                from <= n,
                n == line@.len(),
                spec_add_tokens(orig, line@, 0) == spec_add_tokens(acc, line@, from as int),
            ensures
                acc == spec_add_tokens(orig, line@, 0),
            decreases n - from,
        {
            match find2(line, from, 44, 32) {
                None => {
                    let tok = slice_subrange(line, from, n);
                    acc = match ContentEncoding::from_token(tok) {
                        Some(e) => acc.insert(e),
                        None => acc,
                    };
                    break ;
                },
                Some(i) => {
                    proof {
                        lemma_find2_in_range(line@, from as int, 44, 32);
                    }
                    let tok = slice_subrange(line, from, i);
                    acc = match ContentEncoding::from_token(tok) {
                        Some(e) => acc.insert(e),
                        None => acc,
                    };
                    from = i + 2;
                },
            }
        }
        HttpRequestHeaderBuilder { accept_encoding: acc, ..self }
    }

    /// Apply one header line: split it on the first colon-space and record
    /// the value under its key; unknown keys and lines without a separator
    /// are ignored.
    pub fn apply_from_line(self, line: &[u8]) -> (r: Self)
        ensures
            r@ == spec_apply_line(self@, line@),
    {
        let n = line.len();
        let sep = match find2(line, 0, 58, 32) {
            None => {
                return self;
            },
            Some(i) => i,
        };
        proof {
            lemma_find2_in_range(line@, 0, 58, 32);
        }
        let key = lower_bytes(slice_subrange(line, 0, sep));
        let value = slice_to_vec(slice_subrange(line, sep + 2, n));
        let k_host: Vec<u8> = vec![104u8, 111u8, 115u8, 116u8];
        let k_user_agent: Vec<u8> = vec![117u8, 115u8, 101u8, 114u8, 45u8, 97u8, 103u8, 101u8,
            110u8, 116u8];
        let k_accept: Vec<u8> = vec![97u8, 99u8, 99u8, 101u8, 112u8, 116u8];
        let k_content_type: Vec<u8> = vec![99u8, 111u8, 110u8, 116u8, 101u8, 110u8, 116u8, 45u8,
            116u8, 121u8, 112u8, 101u8];
        let k_content_length: Vec<u8> = vec![99u8, 111u8, 110u8, 116u8, 101u8, 110u8, 116u8, 45u8,
            108u8, 101u8, 110u8, 103u8, 116u8, 104u8];
        let k_accept_encoding: Vec<u8> = vec![97u8, 99u8, 99u8, 101u8, 112u8, 116u8, 45u8, 101u8,
            110u8, 99u8, 111u8, 100u8, 105u8, 110u8, 103u8];
        proof {
            assert(k_host@ =~= seq![104u8, 111u8, 115u8, 116u8]);
            assert(k_user_agent@ =~= seq![117u8, 115u8, 101u8, 114u8, 45u8, 97u8, 103u8, 101u8,
                110u8, 116u8]);
            assert(k_accept@ =~= seq![97u8, 99u8, 99u8, 101u8, 112u8, 116u8]);
            assert(k_content_type@ =~= seq![99u8, 111u8, 110u8, 116u8, 101u8, 110u8, 116u8, 45u8,
                116u8, 121u8, 112u8, 101u8]);
            assert(k_content_length@ =~= seq![99u8, 111u8, 110u8, 116u8, 101u8, 110u8, 116u8,
                45u8, 108u8, 101u8, 110u8, 103u8, 116u8, 104u8]);
            assert(k_accept_encoding@ =~= seq![97u8, 99u8, 99u8, 101u8, 112u8, 116u8, 45u8,
                101u8, 110u8, 99u8, 111u8, 100u8, 105u8, 110u8, 103u8]);
        }
        if bytes_eq(key.as_slice(), k_host.as_slice()) {
            self.host(value)
        } else if bytes_eq(key.as_slice(), k_user_agent.as_slice()) {
            self.user_agent(value)
        } else if bytes_eq(key.as_slice(), k_accept.as_slice()) {
            self.accept(value)
        } else if bytes_eq(key.as_slice(), k_content_type.as_slice()) {
            self.content_type(value)
        } else if bytes_eq(key.as_slice(), k_content_length.as_slice()) {
            self.content_length(parse_dec_or_zero(value.as_slice()))
        } else if bytes_eq(key.as_slice(), k_accept_encoding.as_slice()) {
            self.accept_encodings_from_line(value.as_slice())
        } else {
            self
        }
    }

    /// Materialize the finished header, applying the defaults.
    pub fn build(self) -> (r: HttpRequestHeader)
        ensures
            r@ == spec_build_header(self@),
    {
        let host = match self.host {
            Some(h) => h,
            None => {
                let v: Vec<u8> = vec![117u8, 110u8, 107u8, 110u8, 111u8, 119u8, 110u8];
                proof {
                    assert(v@ =~= seq![117u8, 110u8, 107u8, 110u8, 111u8, 119u8, 110u8]);
                }
                v
            },
        };
        let user_agent = match self.user_agent {
            Some(u) => u,
            None => {
                let v: Vec<u8> = Vec::new();
                proof {
                    assert(v@ =~= Seq::<u8>::empty());
                }
                v
            },
        };
        let accept = match self.accept {
            Some(a) => a,
            None => {
                let v: Vec<u8> = vec![42u8, 47u8, 42u8];
                proof {
                    assert(v@ =~= seq![42u8, 47u8, 42u8]);
                }
                v
            },
        };
        let content_type = match self.content_type {
            Some(c) => c,
            None => {
                let v: Vec<u8> = Vec::new();
                proof {
                    assert(v@ =~= Seq::<u8>::empty());
                }
                v
            },
        };
        let content_length = match self.content_length {
            Some(n) => n,
            None => 0,
        };
        let accept_encoding = if self.accept_encoding.is_empty() {
            AcceptedEncodings { identity: true, gzip: false }
        } else {
            self.accept_encoding
        };
        HttpRequestHeader { host, user_agent, accept, content_type, content_length, accept_encoding }
    }
}

/// The abstract value of a request.
pub ghost struct HttpRequestView {
    pub request_type: HttpRequestType,
    pub path: Seq<u8>,
    pub header: HttpRequestHeaderView,
    pub body: Seq<u8>,
    pub context: Option<Seq<u8>>,
}

/// A parsed request: immutable once built.
#[derive(Debug)]
pub struct HttpRequest {
    pub request_type: HttpRequestType,
    pub path: Vec<u8>,
    pub header: HttpRequestHeader,
    pub body: Vec<u8>,
    pub context: ServerContext,
}

impl View for HttpRequest {
    type V = HttpRequestView;

    open spec fn view(&self) -> HttpRequestView {
        HttpRequestView {
            request_type: self.request_type,
            path: self.path@,
            header: self.header@,
            body: self.body@,
            context: self.context@,
        }
    }
}

/// Method and path of a request line: exactly three space-separated tokens,
/// a known method, the version token read but not validated. An empty path
/// token is normalized to `/`.
pub open spec fn spec_parse_request_line(line: Seq<u8>) -> Result<
    (HttpRequestType, Seq<u8>),
    ParseError,
> {
    match spec_find1(line, 0, 32) {
        None => Err(ParseError::InvalidRequestLine),
        Some(i) => match spec_find1(line, i + 1, 32) {
            None => Err(ParseError::InvalidRequestLine),
            Some(j) => if spec_find1(line, j + 1, 32) is Some {
                Err(ParseError::InvalidRequestLine)
            } else {
                match HttpRequestType::spec_from_token(line.subrange(0, i)) {
                    None => Err(ParseError::UnknownMethod),
                    Some(m) => {
                        let tok = line.subrange(i + 1, j);
                        Ok((m, if tok.len() == 0 { seq![47u8] } else { tok }))
                    },
                }
            },
        },
    }
}

/// The abstract state of a request builder.
pub ghost struct HttpRequestBuilderView {
    pub request_type: HttpRequestType,
    pub path: Seq<u8>,
    pub header: Option<HttpRequestHeaderView>,
    pub body: Option<Seq<u8>>,
    pub context: Option<Seq<u8>>,
}

/// Accumulates the parts of a request before it is frozen.
pub struct HttpRequestBuilder {
    request_type: HttpRequestType,
    context: ServerContext,
    path: Vec<u8>,
    header: Option<HttpRequestHeader>,
    body: Option<Vec<u8>>,
}

impl View for HttpRequestBuilder {
    type V = HttpRequestBuilderView;

    closed spec fn view(&self) -> HttpRequestBuilderView {
        HttpRequestBuilderView {
            request_type: self.request_type,
            path: self.path@,
            header: match self.header {
                Some(h) => Some(h@),
                None => None,
            },
            body: match self.body {
                Some(b) => Some(b@),
                None => None,
            },
            context: self.context@,
        }
    }
}

impl HttpRequestBuilder {
    /// Start a request from its request line.
    pub fn from_request_line(line: &[u8], context: ServerContext) -> (r: Result<
        HttpRequestBuilder,
        ParseError,
    >)
        ensures
            match spec_parse_request_line(line@) {
                Ok(mp) => {
                    &&& r is Ok
                    &&& r.unwrap()@ == (HttpRequestBuilderView {
                        request_type: mp.0,
                        path: mp.1,
                        header: None,
                        body: None,
                        context: context@,
                    })
                },
                Err(e) => r == Err::<HttpRequestBuilder, ParseError>(e),
            },
    {
        let n = line.len();
        let i = match find1(line, 0, 32) {
            None => {
                return Err(ParseError::InvalidRequestLine);
            },
            Some(i) => i,
        };
        proof {
            lemma_find1_in_range(line@, 0, 32);
        }
        let j = match find1(line, i + 1, 32) {
            None => {
                return Err(ParseError::InvalidRequestLine);
            },
            Some(j) => j,
        };
        proof {
            lemma_find1_in_range(line@, i + 1, 32);
        }
        if find1(line, j + 1, 32).is_some() {
            return Err(ParseError::InvalidRequestLine);
        }
        let request_type = match HttpRequestType::from_token(slice_subrange(line, 0, i)) {
            Ok(m) => m,
            Err(e) => {
                return Err(e);
            },
        };
        let path: Vec<u8> = if i + 1 == j {
            let v: Vec<u8> = vec![47u8];
            proof {
                assert(v@ =~= seq![47u8]);
            }
            v
        } else {
            slice_to_vec(slice_subrange(line, i + 1, j))
        };
        Ok(HttpRequestBuilder::new(request_type, path, context))
    }

    /// A builder for a request of the given method and path.
    pub fn new(request_type: HttpRequestType, path: Vec<u8>, context: ServerContext) -> (r:
        HttpRequestBuilder)
        ensures
            r@ == (HttpRequestBuilderView {
                request_type,
                path: path@,
                header: None,
                body: None,
                context: context@,
            }),
    {
        HttpRequestBuilder { request_type, context, path, header: None, body: None }
    }

    /// Attach the finished header.
    pub fn header(self, header: HttpRequestHeader) -> (r: Self)
        ensures
            r@ == (HttpRequestBuilderView { header: Some(header@), ..self@ }),
    {
        HttpRequestBuilder { header: Some(header), ..self }
    }

    /// Attach the body.
    pub fn body(self, body: Vec<u8>) -> (r: Self)
        ensures
            r@ == (HttpRequestBuilderView { body: Some(body@), ..self@ }),
    {
        HttpRequestBuilder { body: Some(body), ..self }
    }

    /// Freeze the request: a missing header becomes the all-defaults header,
    /// a missing body the empty one.
    pub fn build(self) -> (r: HttpRequest)
        ensures
            r@.request_type == self@.request_type,
            r@.path == self@.path,
            r@.context == self@.context,
            r@.header == match self@.header {
                Some(h) => h,
                None => spec_build_header(HttpRequestHeaderBuilderView::init()),
            },
            r@.body == match self@.body {
                Some(b) => b,
                None => Seq::<u8>::empty(),
            },
    {
        let header = match self.header {
            Some(h) => h,
            None => HttpRequestHeaderBuilder::new().build(),
        };
        let body = match self.body {
            Some(b) => b,
            None => {
                let v: Vec<u8> = Vec::new();
                proof {
                    assert(v@ =~= Seq::<u8>::empty());
                }
                v
            },
        };
        HttpRequest {
            request_type: self.request_type,
            path: self.path,
            header,
            body,
            context: self.context,
        }
    }
}

/// Header lines folded from position `from` until the blank line, then the
/// finished header and the position where the body starts.
pub open spec fn spec_parse_headers(
    s: Seq<u8>,
    from: int,
    b: HttpRequestHeaderBuilderView,
) -> Result<(HttpRequestHeaderView, int), ParseError>
    decreases s.len() - from,
{
    match spec_line_at(s, from) {
        None => Err(ParseError::UnexpectedEof),
        Some(ln) => if !(from < ln.1 && ln.1 <= s.len()) {
            Err(ParseError::UnexpectedEof)
        } else if ln.0.len() == 0 {
            Ok((spec_build_header(b), ln.1))
        } else {
            spec_parse_headers(s, ln.1, spec_apply_line(b, ln.0))
        },
    }
}

/// A header block that parses successfully yields a header that accepts at
/// least one encoding.
proof fn lemma_parse_headers_accepts_something(
    s: Seq<u8>,
    from: int,
    b: HttpRequestHeaderBuilderView,
)
    requires
        spec_parse_headers(s, from, b) is Ok,
    ensures
        !spec_parse_headers(s, from, b).unwrap().0.accept_encoding.spec_is_empty(),
    decreases s.len() - from,
{
    match spec_line_at(s, from) {
        None => {},
        Some(ln) => {
            if !(from < ln.1 && ln.1 <= s.len()) {
            } else if ln.0.len() == 0 {
                lemma_built_header_accepts_something(b);
            } else {
                lemma_parse_headers_accepts_something(s, ln.1, spec_apply_line(b, ln.0));
            }
        },
    }
}

/// A whole request parsed from a byte stream: the request line, the header
/// lines up to the blank line, and then exactly `content-length` bytes of
/// body. A stream that ends before that is refused.
pub open spec fn spec_parse_request(s: Seq<u8>, context: Option<Seq<u8>>) -> Result<
    HttpRequestView,
    ParseError,
> {
    match spec_line_at(s, 0) {
        None => Err(ParseError::UnexpectedEof),
        Some(first) => match spec_parse_request_line(first.0) {
            Err(e) => Err(e),
            Ok(mp) => match spec_parse_headers(
                s,
                first.1,
                HttpRequestHeaderBuilderView::init(),
            ) {
                Err(e) => Err(e),
                Ok(hb) => if hb.1 + hb.0.content_length <= s.len() {
                    Ok(
                        HttpRequestView {
                            request_type: mp.0,
                            path: mp.1,
                            header: hb.0,
                            body: s.subrange(hb.1, hb.1 + hb.0.content_length),
                            context,
                        },
                    )
                } else {
                    Err(ParseError::UnexpectedEof)
                },
            },
        },
    }
}

impl HttpRequest {
    /// Parse one complete request out of `buf`. Bytes after the body are
    /// ignored. The body always holds exactly `content-length` bytes.
    pub fn from_bytes(buf: &[u8], context: ServerContext) -> (r: Result<HttpRequest, ParseError>)
        ensures
            match spec_parse_request(buf@, context@) {
                Ok(m) => r is Ok && r.unwrap()@ == m,
                Err(e) => r == Err::<HttpRequest, ParseError>(e),
            },
            r is Ok ==> r.unwrap()@.body.len() == r.unwrap()@.header.content_length,
            r is Ok ==> !r.unwrap()@.header.accept_encoding.spec_is_empty(),
    {
        let n = buf.len();
        let (first_line, mut pos) = match take_line(buf, 0) {
            None => {
                return Err(ParseError::UnexpectedEof);
            },
            Some(p) => p,
        };
        let builder = match HttpRequestBuilder::from_request_line(first_line.as_slice(), context) {
            Ok(b) => b,
            Err(e) => {
                return Err(e);
            },
        };
        let ghost header_start = pos as int;
        let mut hb = HttpRequestHeaderBuilder::new();
        let header: HttpRequestHeader;
        let body_start: usize;
        loop
            invariant_except_break
                pos <= n,
                n == buf@.len(),
                spec_line_at(buf@, 0) == Some((first_line@, header_start)),
                spec_parse_request_line(first_line@) is Ok,
                spec_parse_headers(buf@, header_start, HttpRequestHeaderBuilderView::init())
                    == spec_parse_headers(buf@, pos as int, hb@),
            ensures
                ({
                    let done = spec_parse_headers(
                        buf@,
                        header_start,
                        HttpRequestHeaderBuilderView::init(),
                    );
                    &&& done is Ok
                    &&& header@ == done.unwrap().0
                    &&& body_start as int == done.unwrap().1
                    &&& body_start <= n
                }),
            decreases n - pos,
        {
            let (line, next) = match take_line(buf, pos) {
                None => {
                    proof {
                        assert(spec_parse_headers(buf@, pos as int, hb@) is Err);
                    }
                    return Err(ParseError::UnexpectedEof);
                },
                Some(p) => p,
            };
            if line.len() == 0 {
                header = hb.build();
                body_start = next;
                break ;
            }
            hb = hb.apply_from_line(line.as_slice());
            pos = next;
        }
        let content_length = header.content_length;
        if content_length > n - body_start {
            return Err(ParseError::UnexpectedEof);
        }
        let body = slice_to_vec(slice_subrange(buf, body_start, body_start + content_length));
        proof {
            lemma_parse_headers_accepts_something(
                buf@,
                header_start,
                HttpRequestHeaderBuilderView::init(),
            );
        }
        Ok(builder.header(header).body(body).build())
    }
}

} // verus!
