//! The topic protocol's wire format: request frames, response headers and payloads.
//!
//! A request is `00 83 00 L`, five zero bytes, the query's bytes and one closing zero byte,
//! where `L` is the query's length plus six, kept to its low byte. A response is a four-byte
//! header (big-endian type and payload size) and the payload, whose first byte names its
//! variant.
use vstd::prelude::*;

use vstd::string::StringSliceAdditionalSpecFns;

use crate::error::{Error, ErrorView};

verus! {

/// Size of a response header in bytes.
pub const HEADER_SIZE: usize = 4;

/// Longest query, in bytes, whose length the request frame's length byte holds exactly.
pub const MAX_QUERY_LEN: usize = 249;

/// Seconds that a whole query, from connecting to the last payload byte, may take.
pub const QUERY_TIMEOUT_SECS: u64 = 5;

/// First payload byte of a null reply.
pub const TAG_NULL: u8 = 0x00;

/// First payload byte of a float reply.
pub const TAG_FLOAT: u8 = 0x2A;

/// First payload byte of a text reply.
pub const TAG_STRING: u8 = 0x06;

/// A decoded reply.
#[derive(PartialEq, Eq, Debug)]
pub enum Response {
    /// No data.
    Null,
    /// A single-precision float, as its IEEE-754 bit pattern.
    Float(u32),
    /// Text.
    String(String),
}

/// The mathematical form of a [`Response`].
pub enum ResponseView {
    Null,
    Float(u32),
    String(Seq<char>),
}

impl View for Response {
    type V = ResponseView;

    open spec fn view(&self) -> ResponseView {
        match self {
            Response::Null => ResponseView::Null,
            Response::Float(b) => ResponseView::Float(*b),
            Response::String(s) => ResponseView::String(s@),
        }
    }
}

/// Header of a response frame.
#[derive(PartialEq, Eq, Structural, Clone, Copy, Debug)]
pub struct ResponseHeader {
    /// Response type identifier.
    pub kind: u16,
    /// Size of the payload in bytes.
    pub size: usize,
}

/// The number that two bytes make, most significant first.
pub open spec fn be_u16(hi: u8, lo: u8) -> nat {
    hi as nat * 256 + lo as nat
}

/// The number that four bytes make, most significant first.
pub open spec fn be_u32(b: Seq<u8>) -> nat
    recommends
        b.len() == 4,
{
    b[0] as nat * 0x100_0000 + b[1] as nat * 0x1_0000 + b[2] as nat * 0x100 + b[3] as nat
}

/// The request frame for a query whose bytes are `q`.
pub open spec fn request_frame(q: Seq<u8>) -> Seq<u8> {
    seq![0x00u8, 0x83u8, 0x00u8, ((q.len() + 6) % 256) as u8, 0u8, 0u8, 0u8, 0u8, 0u8] + q + seq![
        0x00u8,
    ]
}

/// The length byte of a request frame is the query's length plus six when the query has at most
/// 249 bytes, and that sum modulo 256 for a longer one; the query's bytes are read back from
/// the frame between the nine-byte head and the closing zero byte.
pub proof fn lemma_request_length_byte(q: Seq<u8>)
    ensures
        request_frame(q).len() == q.len() + 10,
        request_frame(q)[3] == (q.len() + 6) % 256,
        q.len() <= 249 ==> request_frame(q)[3] == q.len() + 6,
        request_frame(q).subrange(9, request_frame(q).len() - 1) == q,
        request_frame(q)[request_frame(q).len() - 1] == 0,
{
    let f = request_frame(q);
    assert(f.subrange(9, f.len() - 1) =~= q);
}

/// Text made of `b` as UTF-8, each invalid sequence replaced by U+FFFD.
pub uninterp spec fn utf8_lossy(b: Seq<u8>) -> Seq<char>;

/// What a payload decodes to.
pub open spec fn decoded(p: Seq<u8>) -> Result<ResponseView, ErrorView> {
    if p.len() <= 2 {
        Err(ErrorView::InvalidResponse)
    } else if p[0] == TAG_NULL {
        Ok(ResponseView::Null)
    } else if p[0] == TAG_FLOAT {
        if p.len() >= 5 {
            Ok(ResponseView::Float(be_u32(p.subrange(1, 5)) as u32))
        } else {
            Err(ErrorView::InvalidResponse)
        }
    } else if p[0] == TAG_STRING {
        Ok(ResponseView::String(utf8_lossy(p.subrange(1, p.len() - 1))))
    } else {
        Err(ErrorView::InvalidResponse)
    }
}

/// Relies on `String::from_utf8_lossy`: the text depends on the bytes alone.
#[verifier::external_body]
fn lossy_text(b: &[u8]) -> (r: String)
    ensures
        r@ == utf8_lossy(b@),
{
    String::from_utf8_lossy(b).into_owned()
}

/// Builds the request frame for `query`. The length byte keeps only the low eight bits of
/// `query.len() + 6`, so a query over 249 bytes gets a wrapped length.
pub fn encode_request(query: &str) -> (r: Vec<u8>)
    ensures
        r@ == request_frame(query.spec_bytes()),
{
    let bytes = query.as_bytes();
    let n = bytes.len();
    let low: usize = n % 256;
    let length: u8 = if low + 6 < 256 {
        (low + 6) as u8
    } else {
        (low + 6 - 256) as u8
    };
    assert(length == ((n + 6) % 256) as u8);
    let mut r: Vec<u8> = vec![0x00, 0x83, 0x00, length, 0x00, 0x00, 0x00, 0x00, 0x00];
    let ghost head = r@;
    let mut i: usize = 0;
    while i < n
        invariant
            n == bytes@.len(),
            i <= n,
            r@ == head + bytes@.subrange(0, i as int),
        decreases n - i,
    {
        r.push(bytes[i]);
        i = i + 1;
        assert(bytes@.subrange(0, i as int) == bytes@.subrange(0, i - 1) + seq![bytes@[i - 1]]);
    }
    r.push(0x00);
    assert(bytes@.subrange(0, n as int) == bytes@);
    assert(r@ == request_frame(query.spec_bytes()));
    r
}

/// The request frame for `query`; a query longer than [`MAX_QUERY_LEN`] bytes, whose length
/// would wrap, is refused with [`Error::QueryTooLong`].
pub fn frame_query(query: &str) -> (r: Result<Vec<u8>, Error>)
    ensures
        query.spec_bytes().len() <= MAX_QUERY_LEN ==> (r matches Ok(f) && f@ == request_frame(
            query.spec_bytes(),
        ) && f@[3] == query.spec_bytes().len() + 6),
        query.spec_bytes().len() > MAX_QUERY_LEN ==> r matches Err(Error::QueryTooLong),
{
    if query.as_bytes().len() <= MAX_QUERY_LEN {
        let f = encode_request(query);
        proof {
            lemma_request_length_byte(query.spec_bytes());
        }
        Ok(f)
    } else {
        Err(Error::QueryTooLong)
    }
}

/// Reads a response header: the type and the payload size, both big-endian.
pub fn decode_header(header: [u8; 4]) -> (r: ResponseHeader)
    ensures
        r.kind as nat == be_u16(header@[0], header@[1]),
        r.size as nat == be_u16(header@[2], header@[3]),
{
    ResponseHeader {
        kind: header[0] as u16 * 256 + header[1] as u16,
        size: (header[2] as u16 * 256 + header[3] as u16) as usize,
    }
}

/// Decodes a response payload. A payload of at most two bytes, a float reply shorter than
/// five bytes, or an unknown first byte is [`Error::InvalidResponse`]. Text is the bytes
/// between the first and the last, read as UTF-8 with invalid sequences replaced.
pub fn decode_response(payload: &[u8]) -> (r: Result<Response, Error>)
    ensures
        match r {
            Ok(v) => decoded(payload@) == Ok::<ResponseView, ErrorView>(v@),
            Err(e) => decoded(payload@) == Err::<ResponseView, ErrorView>(e@),
        },
{
    let n = payload.len();
    if n <= 2 {
        Err(Error::InvalidResponse)
    } else if payload[0] == TAG_NULL {
        Ok(Response::Null)
    } else if payload[0] == TAG_FLOAT {
        if n >= 5 {
            let bits: u32 = payload[1] as u32 * 0x100_0000 + payload[2] as u32 * 0x1_0000
                + payload[3] as u32 * 0x100 + payload[4] as u32;
            assert(payload@.subrange(1, 5)[0] == payload@[1]);
            assert(payload@.subrange(1, 5)[1] == payload@[2]);
            assert(payload@.subrange(1, 5)[2] == payload@[3]);
            assert(payload@.subrange(1, 5)[3] == payload@[4]);
            Ok(Response::Float(bits))
        } else {
            Err(Error::InvalidResponse)
        }
    } else if payload[0] == TAG_STRING {
        let text = lossy_text(&payload[1..n - 1]);
        Ok(Response::String(text))
    } else {
        Err(Error::InvalidResponse)
    }
}

} // verus!
