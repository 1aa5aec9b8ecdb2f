//! Routing: the dispatch from a parsed request to a response, the decisions
//! of the file route, and the content-encoding reconciliation a connection
//! applies before serializing.
use vstd::prelude::*;
use vstd::slice::slice_to_vec;

use crate::ascii::bytes_starts_with;
use crate::encoding::{
    AcceptedEncodings,
    CodecError,
    ContentEncoding,
    EncodedContent,
    EncodedContentView,
    spec_decode,
    spec_encode,
};
use crate::request::{HttpRequest, HttpRequestType};
use crate::response::{HttpResponse, HttpResponseBuilder, HttpResponseType, HttpResponseView};

verus! {

/// The path prefix of the file route.
pub open spec fn spec_files_prefix() -> Seq<u8> {
    seq![47u8, 102u8, 105u8, 108u8, 101u8, 115u8, 47u8]
}

/// The path prefix of the echo route.
pub open spec fn spec_echo_prefix() -> Seq<u8> {
    seq![47u8, 101u8, 99u8, 104u8, 111u8, 47u8]
}

/// The path prefix of the user-agent route.
pub open spec fn spec_user_agent_prefix() -> Seq<u8> {
    seq![47u8, 117u8, 115u8, 101u8, 114u8, 45u8, 97u8, 103u8, 101u8, 110u8, 116u8]
}

/// The response of status `t` with an empty identity body and the default
/// content type.
pub open spec fn spec_empty_response(t: HttpResponseType) -> HttpResponseView {
    spec_plain_response(t, Seq::empty())
}

/// The response of status `t` whose body is `body` under the identity
/// encoding, with the default `text/plain` content type.
pub open spec fn spec_plain_response(t: HttpResponseType, body: Seq<u8>) -> HttpResponseView {
    HttpResponseView {
        response_type: t,
        content_type: seq![116u8, 101u8, 120u8, 116u8, 47u8, 112u8, 108u8, 97u8, 105u8, 110u8],
        content_length: body.len() as usize,
        body: EncodedContentView { buffer: body, encoding_type: ContentEncoding::NoEncoding },
    }
}

/// What the router decided: either a finished response, or the filesystem
/// work the file route needs before its response can be formed.
#[derive(Debug)]
pub enum RouteStep {
    Respond(HttpResponse),
    ReadFile { filename: Vec<u8> },
    CreateFile { filename: Vec<u8>, contents: Vec<u8> },
}

/// What the filesystem reported for a file read.
#[derive(Debug)]
pub enum FileReadOutcome {
    Contents(Vec<u8>),
    Missing,
    ReadError(Vec<u8>),
}

/// What the filesystem reported for an exclusive file create.
#[derive(Debug)]
pub enum FileCreateOutcome {
    Created,
    AlreadyExists,
    CreateError(Vec<u8>),
}

/// The file route's decision. Without a configured root everything is
/// `503 Service Unavailable`; a GET becomes a read of the named file, a POST
/// an exclusive create carrying the request body, and any other method
/// `404 Not Found`.
pub fn handle(request: HttpRequest) -> (r: RouteStep)
    requires
        spec_files_prefix().is_prefix_of(request@.path),
    ensures
        ({
            let req = request@;
            if req.context is None {
                r matches RouteStep::Respond(resp) && resp@ == spec_empty_response(
                    HttpResponseType::ServiceUnavailable,
                )
            } else if req.request_type is Get {
                r matches RouteStep::ReadFile { filename } && filename@ == req.path.skip(7)
            } else if req.request_type is Post {
                &&& r matches RouteStep::CreateFile { filename, contents }
                &&& filename@ == req.path.skip(7)
                &&& contents@ == req.body
            } else {
                r matches RouteStep::Respond(resp) && resp@ == spec_empty_response(
                    HttpResponseType::NotFound,
                )
            }
        }),
{
    if request.context.host_files_path.is_none() {
        return RouteStep::Respond(
            HttpResponseBuilder::new(HttpResponseType::ServiceUnavailable).build(),
        );
    }
    let n = request.path.len();
    proof {
        assert(request@.path.skip(7) =~= request@.path.subrange(7, n as int));
    }
    match request.request_type {
        HttpRequestType::Get => {
            let filename = slice_to_vec(vstd::slice::slice_subrange(request.path.as_slice(), 7, n));
            RouteStep::ReadFile { filename }
        },
        HttpRequestType::Post => {
            let filename = slice_to_vec(vstd::slice::slice_subrange(request.path.as_slice(), 7, n));
            RouteStep::CreateFile { filename, contents: request.body }
        },
        _ => RouteStep::Respond(HttpResponseBuilder::new(HttpResponseType::NotFound).build()),
    }
}

/// Dispatch a request in the fixed priority order: the file route, the echo
/// route, the user-agent route, the root, and finally `404 Not Found`.
pub fn route(request: HttpRequest) -> (r: RouteStep)
    ensures
        ({
            let req = request@;
            if spec_files_prefix().is_prefix_of(req.path) {
                if req.context is None {
                    r matches RouteStep::Respond(resp) && resp@ == spec_empty_response(
                        HttpResponseType::ServiceUnavailable,
                    )
                } else if req.request_type is Get {
                    r matches RouteStep::ReadFile { filename } && filename@ == req.path.skip(7)
                } else if req.request_type is Post {
                    &&& r matches RouteStep::CreateFile { filename, contents }
                    &&& filename@ == req.path.skip(7)
                    &&& contents@ == req.body
                } else {
                    r matches RouteStep::Respond(resp) && resp@ == spec_empty_response(
                        HttpResponseType::NotFound,
                    )
                }
            } else if spec_echo_prefix().is_prefix_of(req.path) {
                r matches RouteStep::Respond(resp) && resp@ == spec_plain_response(
                    HttpResponseType::Okay,
                    req.path.skip(6),
                )
            } else if spec_user_agent_prefix().is_prefix_of(req.path) {
                r matches RouteStep::Respond(resp) && resp@ == spec_plain_response(
                    HttpResponseType::Okay,
                    req.header.user_agent,
                )
            } else if req.path == seq![47u8] {
                r matches RouteStep::Respond(resp) && resp@ == spec_plain_response(
                    HttpResponseType::Okay,
                    Seq::empty(),
                )
            } else {
                r matches RouteStep::Respond(resp) && resp@ == spec_empty_response(
                    HttpResponseType::NotFound,
                )
            }
        }),
{
    let files_prefix: Vec<u8> = vec![47u8, 102u8, 105u8, 108u8, 101u8, 115u8, 47u8];
    let echo_prefix: Vec<u8> = vec![47u8, 101u8, 99u8, 104u8, 111u8, 47u8];
    let user_agent_prefix: Vec<u8> = vec![47u8, 117u8, 115u8, 101u8, 114u8, 45u8, 97u8, 103u8,
        101u8, 110u8, 116u8];
    let root: Vec<u8> = vec![47u8];
    proof {
        assert(files_prefix@ =~= spec_files_prefix());
        assert(echo_prefix@ =~= spec_echo_prefix());
        assert(user_agent_prefix@ =~= spec_user_agent_prefix());
        assert(root@ =~= seq![47u8]);
    }
    if bytes_starts_with(request.path.as_slice(), files_prefix.as_slice()) {
        handle(request)
    } else if bytes_starts_with(request.path.as_slice(), echo_prefix.as_slice()) {
        let n = request.path.len();
        proof {
            assert(request@.path.skip(6) =~= request@.path.subrange(6, n as int));
        }
        let to_echo = slice_to_vec(vstd::slice::slice_subrange(request.path.as_slice(), 6, n));
        RouteStep::Respond(
            HttpResponseBuilder::new(HttpResponseType::Okay).body(
                EncodedContent::from(to_echo),
            ).build(),
        )
    } else if bytes_starts_with(request.path.as_slice(), user_agent_prefix.as_slice()) {
        RouteStep::Respond(
            HttpResponseBuilder::new(HttpResponseType::Okay).body(
                EncodedContent::from(request.header.user_agent),
            ).build(),
        )
    } else if crate::ascii::bytes_eq(request.path.as_slice(), root.as_slice()) {
        let empty: Vec<u8> = Vec::new();
        proof {
            assert(empty@ =~= Seq::<u8>::empty());
        }
        RouteStep::Respond(
            HttpResponseBuilder::new(HttpResponseType::Okay).body(
                EncodedContent::from(empty),
            ).build(),
        )
    } else {
        RouteStep::Respond(HttpResponseBuilder::new(HttpResponseType::NotFound).build())
    }
}

/// The response the file route gives for what a read reported: the file's
/// bytes as `200 OK` under `application/octet-stream`, `404 Not Found` for a
/// missing file, and `500 Internal Server Error` carrying the error text.
pub fn file_get_response(outcome: FileReadOutcome) -> (r: HttpResponse)
    ensures
        match outcome {
            FileReadOutcome::Contents(c) => r@ == (HttpResponseView {
                response_type: HttpResponseType::Okay,
                content_type: seq![97u8, 112u8, 112u8, 108u8, 105u8, 99u8, 97u8, 116u8, 105u8,
                    111u8, 110u8, 47u8, 111u8, 99u8, 116u8, 101u8, 116u8, 45u8, 115u8, 116u8,
                    114u8, 101u8, 97u8, 109u8],
                content_length: c@.len() as usize,
                body: EncodedContentView {
                    buffer: c@,
                    encoding_type: ContentEncoding::NoEncoding,
                },
            }),
            FileReadOutcome::Missing => r@ == spec_empty_response(HttpResponseType::NotFound),
            FileReadOutcome::ReadError(msg) => r@ == spec_plain_response(
                HttpResponseType::InternalServerError,
                msg@,
            ),
        },
{
    match outcome {
        FileReadOutcome::Contents(c) => {
            let octet_stream: Vec<u8> = vec![97u8, 112u8, 112u8, 108u8, 105u8, 99u8, 97u8, 116u8,
                105u8, 111u8, 110u8, 47u8, 111u8, 99u8, 116u8, 101u8, 116u8, 45u8, 115u8, 116u8,
                114u8, 101u8, 97u8, 109u8];
            proof {
                assert(octet_stream@ =~= seq![97u8, 112u8, 112u8, 108u8, 105u8, 99u8, 97u8,
                    116u8, 105u8, 111u8, 110u8, 47u8, 111u8, 99u8, 116u8, 101u8, 116u8, 45u8,
                    115u8, 116u8, 114u8, 101u8, 97u8, 109u8]);
            }
            HttpResponseBuilder::new(HttpResponseType::Okay).content_type(octet_stream).body(
                EncodedContent::from(c),
            ).build()
        },
        FileReadOutcome::Missing => HttpResponseBuilder::new(HttpResponseType::NotFound).build(),
        FileReadOutcome::ReadError(msg) => HttpResponseBuilder::new(
            HttpResponseType::InternalServerError,
        ).body(EncodedContent::from(msg)).build(),
    }
}

/// The response the file route gives for what an exclusive create reported:
/// `201 Created` with an empty body, `409 Conflict` when the file already
/// exists, and `500 Internal Server Error` carrying the error text.
pub fn file_post_response(outcome: FileCreateOutcome) -> (r: HttpResponse)
    ensures
        match outcome {
            FileCreateOutcome::Created => r@ == spec_empty_response(HttpResponseType::Created),
            FileCreateOutcome::AlreadyExists => r@ == spec_empty_response(
                HttpResponseType::Conflict,
            ),
            FileCreateOutcome::CreateError(msg) => r@ == spec_plain_response(
                HttpResponseType::InternalServerError,
                msg@,
            ),
        },
{
    match outcome {
        FileCreateOutcome::Created => HttpResponseBuilder::new(HttpResponseType::Created).build(),
        FileCreateOutcome::AlreadyExists => HttpResponseBuilder::new(
            HttpResponseType::Conflict,
        ).build(),
        FileCreateOutcome::CreateError(msg) => HttpResponseBuilder::new(
            HttpResponseType::InternalServerError,
        ).body(EncodedContent::from(msg)).build(),
    }
}

/// Bring a routed response in line with what the request accepts: a response
/// without a body, or whose body's encoding the request accepts, passes
/// unchanged; otherwise the body is re-encoded to one accepted tag. The
/// re-encoded body decodes back to the same identity content, and the length
/// field is recomputed.
pub fn reconcile_encoding(response: HttpResponse, accepted: AcceptedEncodings) -> (r: Result<
    HttpResponse,
    CodecError,
>)
    requires
        !accepted.spec_is_empty(),
    ensures
        ({
            let resp = response@;
            if resp.body.buffer.len() == 0 || accepted.spec_contains(resp.body.encoding_type) {
                r is Ok && r.unwrap()@ == resp
            } else {
                let target = accepted.spec_pick();
                match spec_decode(resp.body.encoding_type, resp.body.buffer) {
                    Some(d) => {
                        &&& r is Ok
                        &&& r.unwrap()@ == (HttpResponseView {
                            response_type: resp.response_type,
                            content_type: resp.content_type,
                            content_length: spec_encode(d, target).len() as usize,
                            body: EncodedContentView {
                                buffer: spec_encode(d, target),
                                encoding_type: target,
                            },
                        })
                        &&& spec_decode(target, spec_encode(d, target)) == Some(d)
                        &&& target is Gzip ==> r.unwrap()@.body.buffer.len() > 0
                        &&& r.unwrap()@.wf()
                    },
                    None => r is Err,
                }
            }
        }),
{
    if !response.has_body() || accepted.contains(response.body.encoding_type) {
        return Ok(response);
    }
    let target = accepted.pick();
    let rebuilt = match HttpResponseBuilder::from(response).encode_body(target) {
        Ok(b) => b,
        Err(e) => {
            return Err(e);
        },
    };
    Ok(rebuilt.build())
}

} // verus!
