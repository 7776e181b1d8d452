//! Frames: a four-byte big-endian length followed by that many bytes.
use vstd::prelude::*;

verus! {

/// The largest body a frame may carry.
pub const MAX_FRAME_LEN: usize = 16777216;

/// The length of a frame's header.
pub const HEADER_LEN: usize = 4;

/// Why a frame could not be built or read.
#[derive(Debug, Clone, Copy, PartialEq, Eq, Structural)]
pub enum FrameError {
    /// The bytes end before the frame does.
    ShortRead,
    /// The body is longer than `MAX_FRAME_LEN`.
    FrameTooLarge,
}

/// The four big-endian bytes of `n`, most significant first.
pub open spec fn be_bytes(n: nat) -> Seq<u8> {
    seq![(n / 16777216 % 256) as u8, (n / 65536 % 256) as u8, (n / 256 % 256) as u8, (n % 256) as u8]
}

/// The number that four big-endian bytes stand for.
pub open spec fn be_value(b: Seq<u8>) -> nat
    recommends
        b.len() == 4,
{
    b[0] as nat * 16777216 + b[1] as nat * 65536 + b[2] as nat * 256 + b[3] as nat
}

/// The frame that carries `body`.
pub open spec fn framed(body: Seq<u8>) -> Seq<u8> {
    be_bytes(body.len()) + body
}

/// The body of the frame at the start of `f`, or why there is none.
pub open spec fn unframed(f: Seq<u8>) -> Result<Seq<u8>, FrameError> {
    if f.len() < 4 {
        Err(FrameError::ShortRead)
    } else if be_value(f.subrange(0, 4)) as int > MAX_FRAME_LEN {
        Err(FrameError::FrameTooLarge)
    } else if f.len() < 4 + be_value(f.subrange(0, 4)) as int {
        Err(FrameError::ShortRead)
    } else {
        Ok(f.subrange(4, 4 + be_value(f.subrange(0, 4)) as int))
    }
}

/// A number below 2^32 is given back by its four big-endian bytes.
pub proof fn lemma_be_bytes_value(n: nat)
    requires
        n <= u32::MAX,
    ensures
        be_value(be_bytes(n)) == n,
{
}

/// Reads the length that a header gives.
pub fn read_length_prefix(header: [u8; 4]) -> (r: u32)
    ensures
        r == be_value(header@),
{
    (header[0] as u32) * 16777216 + (header[1] as u32) * 65536 + (header[2] as u32) * 256
        + (header[3] as u32)
}

/// The header that announces a body of `n` bytes.
pub fn length_prefix(n: u32) -> (r: [u8; 4])
    ensures
        r@ == be_bytes(n as nat),
{
    let r = [(n / 16777216) as u8, (n / 65536 % 256) as u8, (n / 256 % 256) as u8, (n % 256) as u8];
    assert(r@ =~= be_bytes(n as nat));
    r
}

/// The body length that a header announces, if a frame may carry it.
pub fn body_length(header: [u8; 4]) -> (r: Result<usize, FrameError>)
    ensures
        be_value(header@) as int <= MAX_FRAME_LEN ==> r == Ok::<usize, FrameError>(
            be_value(header@) as usize,
        ),
        be_value(header@) as int > MAX_FRAME_LEN ==> r == Err::<usize, FrameError>(
            FrameError::FrameTooLarge,
        ),
{
    let n = read_length_prefix(header);
    if n as usize > MAX_FRAME_LEN {
        Err(FrameError::FrameTooLarge)
    } else {
        Ok(n as usize)
    }
}

/// Puts a length header in front of `body`.
pub fn frame(body: &Vec<u8>) -> (r: Result<Vec<u8>, FrameError>)
    ensures
        body@.len() <= MAX_FRAME_LEN ==> (r matches Ok(f) && f@ == framed(body@)),
        body@.len() > MAX_FRAME_LEN ==> r == Err::<Vec<u8>, FrameError>(FrameError::FrameTooLarge),
{
    if body.len() > MAX_FRAME_LEN {
        return Err(FrameError::FrameTooLarge);
    }
    let header = length_prefix(body.len() as u32);
    let mut out: Vec<u8> = Vec::with_capacity(HEADER_LEN + body.len());
    let mut i: usize = 0;
    while i < HEADER_LEN
        invariant
            i <= HEADER_LEN,
            header@ == be_bytes(body@.len()),
            out@ == header@.subrange(0, i as int),
        decreases HEADER_LEN - i,
    {
        out.push(header[i]);
        i = i + 1;
    }
    let mut j: usize = 0;
    while j < body.len()
        invariant
            j <= body@.len(),
            out@ == header@ + body@.subrange(0, j as int),
        decreases body@.len() - j,
    {
        out.push(body[j]);
        j = j + 1;
    }
    assert(body@.subrange(0, j as int) =~= body@);
    Ok(out)
}

/// The body of the frame at the start of `f`.
pub fn strip_length_prefix(f: &Vec<u8>) -> (r: Result<Vec<u8>, FrameError>)
    ensures
        r matches Ok(b) ==> unframed(f@) == Ok::<Seq<u8>, FrameError>(b@),
        r matches Err(e) ==> unframed(f@) == Err::<Seq<u8>, FrameError>(e),
{
    if f.len() < HEADER_LEN {
        return Err(FrameError::ShortRead);
    }
    let header: [u8; 4] = [f[0], f[1], f[2], f[3]];
    assert(header@ =~= f@.subrange(0, 4));
    let n = match body_length(header) {
        Ok(n) => n,
        Err(e) => return Err(e),
    };
    if f.len() - HEADER_LEN < n {
        return Err(FrameError::ShortRead);
    }
    let mut out: Vec<u8> = Vec::with_capacity(n);
    let mut j: usize = 0;
    while j < n
        invariant
            j <= n,
            HEADER_LEN + n <= f@.len(),
            f@.len() == f.len(),
            out@ == f@.subrange(HEADER_LEN as int, HEADER_LEN + j),
        decreases n - j,
    {
        out.push(f[HEADER_LEN + j]);
        j = j + 1;
    }
    Ok(out)
}

/// Stripping the header from a frame gives back the body it carries.
pub proof fn lemma_frame_round_trip(body: Seq<u8>)
    requires
        body.len() <= MAX_FRAME_LEN,
    ensures
        unframed(framed(body)) == Ok::<Seq<u8>, FrameError>(body),
{
    let f = framed(body);
    lemma_be_bytes_value(body.len());
    assert(f.subrange(0, 4) =~= be_bytes(body.len()));
    assert(f.subrange(4, 4 + body.len() as int) =~= body);
}

} // verus!
