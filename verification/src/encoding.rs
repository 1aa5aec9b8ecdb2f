//! Body content-encoding: the tag vocabulary, tagged byte buffers, and the
//! gzip codec behind it.
use vstd::prelude::*;

use crate::ascii::{lower_bytes, bytes_eq, spec_lower_bytes};
use vstd::string::StringSliceAdditionalSpecFns;

verus! {

/// The encodings a body can carry on the wire.
#[derive(Clone, Copy, Debug, PartialEq, Eq, Structural)]
pub enum ContentEncoding {
    NoEncoding,
    Gzip,
}

/// A byte buffer together with the encoding its bytes are in.
#[derive(Debug)]
pub struct EncodedContent {
    pub buffer: Vec<u8>,
    pub encoding_type: ContentEncoding,
}

/// The abstract value of a tagged buffer.
pub ghost struct EncodedContentView {
    pub buffer: Seq<u8>,
    pub encoding_type: ContentEncoding,
}

impl View for EncodedContent {
    type V = EncodedContentView;

    open spec fn view(&self) -> EncodedContentView {
        EncodedContentView { buffer: self.buffer@, encoding_type: self.encoding_type }
    }
}

/// Failure of the compression transform: the input was not a well-formed
/// stream for its tag.
#[derive(Clone, Copy, Debug, PartialEq, Eq, Structural)]
pub enum CodecError {
    CorruptStream,
}

/// The gzip stream that the compressor produces for the given bytes.
pub uninterp spec fn gzip_of(b: Seq<u8>) -> Seq<u8>;

/// The bytes a gzip stream decompresses to, or `None` for a malformed stream.
pub uninterp spec fn gunzip_of(z: Seq<u8>) -> Option<Seq<u8>>;

/// What decoding a tagged buffer to identity yields, if it succeeds.
pub open spec fn spec_decode(tag: ContentEncoding, buf: Seq<u8>) -> Option<Seq<u8>> {
    match tag {
        ContentEncoding::NoEncoding => Some(buf),
        ContentEncoding::Gzip => gunzip_of(buf),
    }
}

/// The buffer that carries identity content `ident` under `target`.
pub open spec fn spec_encode(ident: Seq<u8>, target: ContentEncoding) -> Seq<u8> {
    match target {
        ContentEncoding::NoEncoding => ident,
        ContentEncoding::Gzip => gzip_of(ident),
    }
}

/// Relies on flate2's `write::GzEncoder` at `Compression::default()`: writing
/// the whole input and finishing yields the gzip stream for those bytes; the
/// stream depends on the input bytes alone, and flate2's `read::GzDecoder`
/// recovers the input bytes from it. The stream is never empty: it always
/// carries at least the gzip header and trailer. Writing into a `Vec` sink
/// cannot fail.
#[verifier::external_body]
fn gzip_compress(buf: &Vec<u8>) -> (r: Vec<u8>)
    ensures
        r@ == gzip_of(buf@),
        gunzip_of(r@) == Some(buf@),
        r@.len() > 0,
{
    let mut encoder = flate2::write::GzEncoder::new(Vec::new(), flate2::Compression::default());
    let _ = std::io::Write::write_all(&mut encoder, buf.as_slice());
    match encoder.finish() {
        Ok(v) => v,
        Err(_) => Vec::new(),
    }
}

/// Relies on flate2's `read::GzDecoder`: reading it to the end yields the
/// bytes the input stream compresses, and fails on a malformed stream; the
/// outcome depends on the input bytes alone.
#[verifier::external_body]
fn gzip_decompress(buf: &Vec<u8>) -> (r: Result<Vec<u8>, CodecError>)
    ensures
        match r {
            Ok(v) => gunzip_of(buf@) == Some(v@),
            Err(_) => gunzip_of(buf@) is None,
        },
{
    let mut decoder = flate2::read::GzDecoder::new(buf.as_slice());
    let mut out: Vec<u8> = Vec::new();
    match std::io::Read::read_to_end(&mut decoder, &mut out) {
        Ok(_) => Ok(out),
        Err(_) => Err(CodecError::CorruptStream),
    }
}

impl ContentEncoding {
    /// Map a wire token to an encoding tag, case-insensitively: `gzip` is the
    /// compressed form; `none` and `identity` name the identity form; any
    /// other token is unrecognized.
    pub open spec fn spec_from_token(token: Seq<u8>) -> Option<ContentEncoding> {
        if spec_lower_bytes(token) == seq![103u8, 122u8, 105u8, 112u8] {
            Some(ContentEncoding::Gzip)
        } else if spec_lower_bytes(token) == seq![110u8, 111u8, 110u8, 101u8] || spec_lower_bytes(
            token,
        ) == seq![105u8, 100u8, 101u8, 110u8, 116u8, 105u8, 116u8, 121u8] {
            Some(ContentEncoding::NoEncoding)
        } else {
            None
        }
    }

    /// Parse an encoding tag from the bytes of a wire token.
    pub fn from_token(token: &[u8]) -> (r: Option<ContentEncoding>)
        ensures
            r == Self::spec_from_token(token@),
    {
        let lower = lower_bytes(token);
        let gzip: Vec<u8> = vec![103u8, 122u8, 105u8, 112u8];
        let none: Vec<u8> = vec![110u8, 111u8, 110u8, 101u8];
        let identity: Vec<u8> = vec![105u8, 100u8, 101u8, 110u8, 116u8, 105u8, 116u8, 121u8];
        proof {
            assert(gzip@ =~= seq![103u8, 122u8, 105u8, 112u8]);
            assert(none@ =~= seq![110u8, 111u8, 110u8, 101u8]);
            assert(identity@ =~= seq![105u8, 100u8, 101u8, 110u8, 116u8, 105u8, 116u8, 121u8]);
        }
        if bytes_eq(lower.as_slice(), gzip.as_slice()) {
            Some(ContentEncoding::Gzip)
        } else if bytes_eq(lower.as_slice(), none.as_slice()) || bytes_eq(
            lower.as_slice(),
            identity.as_slice(),
        ) {
            Some(ContentEncoding::NoEncoding)
        } else {
            None
        }
    }

    /// Parse an encoding tag from the string form of a wire token.
    pub fn from(token: &str) -> (r: Option<ContentEncoding>)
        ensures
            r == Self::spec_from_token(token.spec_bytes()),
    {
        Self::from_token(token.as_bytes())
    }

    /// The canonical string form of a tag.
    pub open spec fn spec_to_str(self) -> Seq<char> {
        match self {
            ContentEncoding::NoEncoding => seq!['n', 'o', 'n', 'e'],
            ContentEncoding::Gzip => seq!['g', 'z', 'i', 'p'],
        }
    }

    /// The canonical name of the tag: `none` or `gzip`.
    pub fn to_str(&self) -> (r: &'static str)
        ensures
            r@ == self.spec_to_str(),
    {
        match self {
            ContentEncoding::NoEncoding => {
                let s = "none";
                proof {
                    reveal_strlit("none");
                }
                s
            },
            ContentEncoding::Gzip => {
                let s = "gzip";
                proof {
                    reveal_strlit("gzip");
                }
                s
            },
        }
    }

    /// Bring a tagged buffer to `encoding_type`: a no-op when the tags agree,
    /// otherwise decode to identity and re-encode. The result decodes back to
    /// the same identity content the input held.
    pub fn encode(content: EncodedContent, encoding_type: ContentEncoding) -> (r: Result<
        EncodedContent,
        CodecError,
    >)
        ensures
            content.encoding_type == encoding_type ==> {
                &&& r is Ok
                &&& r.unwrap().encoding_type == content.encoding_type
                &&& r.unwrap().buffer@ == content.buffer@
            },
            content.encoding_type != encoding_type ==> match spec_decode(
                content.encoding_type,
                content.buffer@,
            ) {
                Some(d) => {
                    &&& r is Ok
                    &&& r.unwrap().encoding_type == encoding_type
                    &&& r.unwrap().buffer@ == spec_encode(d, encoding_type)
                    &&& spec_decode(encoding_type, r.unwrap().buffer@) == Some(d)
                    &&& encoding_type is Gzip ==> r.unwrap().buffer@.len() > 0
                },
                None => r is Err,
            },
    {
        if content.encoding_type == encoding_type {
            return Ok(content);
        }
        let decoded = match Self::decode(content) {
            Ok(d) => d,
            Err(e) => {
                return Err(e);
            },
        };
        match encoding_type {
            ContentEncoding::NoEncoding => Ok(decoded),
            ContentEncoding::Gzip => Ok(
                EncodedContent {
                    buffer: gzip_compress(&decoded.buffer),
                    encoding_type: ContentEncoding::Gzip,
                },
            ),
        }
    }

    /// Decode a tagged buffer to its identity content.
    pub fn decode(content: EncodedContent) -> (r: Result<EncodedContent, CodecError>)
        ensures
            match spec_decode(content.encoding_type, content.buffer@) {
                Some(d) => {
                    &&& r is Ok
                    &&& r.unwrap().encoding_type == ContentEncoding::NoEncoding
                    &&& r.unwrap().buffer@ == d
                },
                None => r is Err,
            },
    {
        match content.encoding_type {
            ContentEncoding::NoEncoding => Ok(content),
            ContentEncoding::Gzip => match gzip_decompress(&content.buffer) {
                Ok(v) => Ok(
                    EncodedContent { buffer: v, encoding_type: ContentEncoding::NoEncoding },
                ),
                Err(e) => Err(e),
            },
        }
    }
}

impl EncodedContent {
    /// Wrap plain bytes as identity-encoded content.
    pub fn from(buffer: Vec<u8>) -> (r: EncodedContent)
        ensures
            r.encoding_type == ContentEncoding::NoEncoding,
            r.buffer@ == buffer@,
    {
        EncodedContent { buffer, encoding_type: ContentEncoding::NoEncoding }
    }
}

impl Default for EncodedContent {
    /// An empty identity-encoded buffer.
    fn default() -> (r: Self)
        ensures
            r.encoding_type == ContentEncoding::NoEncoding,
            r.buffer@ == Seq::<u8>::empty(),
    {
        EncodedContent { buffer: Vec::new(), encoding_type: ContentEncoding::NoEncoding }
    }
}

/// The set of encodings a request declares acceptable.
#[derive(Clone, Copy, Debug, PartialEq, Eq, Structural)]
pub struct AcceptedEncodings {
    pub identity: bool,
    pub gzip: bool,
}

impl AcceptedEncodings {
    /// The empty set.
    pub open spec fn spec_empty() -> AcceptedEncodings {
        AcceptedEncodings { identity: false, gzip: false }
    }

    /// Membership of a tag.
    pub open spec fn spec_contains(self, e: ContentEncoding) -> bool {
        match e {
            ContentEncoding::NoEncoding => self.identity,
            ContentEncoding::Gzip => self.gzip,
        }
    }

    /// The set with `e` added.
    pub open spec fn spec_insert(self, e: ContentEncoding) -> AcceptedEncodings {
        match e {
            ContentEncoding::NoEncoding => AcceptedEncodings { identity: true, ..self },
            ContentEncoding::Gzip => AcceptedEncodings { gzip: true, ..self },
        }
    }

    /// Is the set empty?
    pub open spec fn spec_is_empty(self) -> bool {
        !self.identity && !self.gzip
    }

    /// The member that negotiation picks from a non-empty set: gzip when it
    /// is in, the identity tag otherwise.
    pub open spec fn spec_pick(self) -> ContentEncoding {
        if self.gzip {
            ContentEncoding::Gzip
        } else {
            ContentEncoding::NoEncoding
        }
    }

    /// An empty set of accepted encodings.
    pub fn new() -> (r: AcceptedEncodings)
        ensures
            r == AcceptedEncodings::spec_empty(),
    {
        AcceptedEncodings { identity: false, gzip: false }
    }

    /// Does the set hold `e`?
    pub fn contains(&self, e: ContentEncoding) -> (r: bool)
        ensures
            r == self.spec_contains(e),
    {
        match e {
            ContentEncoding::NoEncoding => self.identity,
            ContentEncoding::Gzip => self.gzip,
        }
    }

    /// Add `e` to the set.
    pub fn insert(self, e: ContentEncoding) -> (r: AcceptedEncodings)
        ensures
            r == self.spec_insert(e),
    {
        match e {
            ContentEncoding::NoEncoding => AcceptedEncodings { identity: true, ..self },
            ContentEncoding::Gzip => AcceptedEncodings { gzip: true, ..self },
        }
    }

    /// Is the set empty?
    pub fn is_empty(&self) -> (r: bool)
        ensures
            r == self.spec_is_empty(),
    {
        !self.identity && !self.gzip
    }

    /// One member of a non-empty set.
    pub fn pick(&self) -> (r: ContentEncoding)
        requires
            !self.spec_is_empty(),
        ensures
            r == self.spec_pick(),
            self.spec_contains(r),
    {
        if self.gzip {
            ContentEncoding::Gzip
        } else {
            ContentEncoding::NoEncoding
        }
    }
}

/// Round trip of the codec: decoding a tagged buffer and then encoding the
/// result back to the buffer's own tag yields the buffer unchanged. An
/// identity-tagged buffer is arbitrary; a gzip-tagged buffer is one that the
/// gzip compressor produces.
pub proof fn lemma_codec_round_trip(tag: ContentEncoding, buf: Seq<u8>)
    requires
        tag is Gzip ==> exists|b: Seq<u8>| buf == gzip_of(b) && gunzip_of(buf) == Some(b),
    ensures
        spec_decode(tag, buf) is Some,
        spec_encode(spec_decode(tag, buf).unwrap(), tag) == buf,
{
    match tag {
        ContentEncoding::NoEncoding => {},
        ContentEncoding::Gzip => {
            let b = choose|b: Seq<u8>| buf == gzip_of(b) && gunzip_of(buf) == Some(b);
            assert(spec_decode(tag, buf) == Some(b));
        },
    }
}

} // verus!
