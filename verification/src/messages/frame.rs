//! The wire format of messages: a 4-byte little-endian length followed by
//! that many bytes of payload.

use vstd::prelude::*;

verus! {

/// The four little-endian bytes of `n`, taken modulo 2^32.
pub open spec fn le_bytes(n: nat) -> Seq<u8> {
    seq![
        (n % 256) as u8,
        ((n / 256) % 256) as u8,
        ((n / 65536) % 256) as u8,
        ((n / 16777216) % 256) as u8,
    ]
}

/// The number that four little-endian bytes stand for.
pub open spec fn le_value(b: Seq<u8>) -> nat
    recommends
        b.len() == 4,
{
    (b[0] + 256 * b[1] + 65536 * b[2] + 16777216 * b[3]) as nat
}

/// A whole frame around `payload`: its length, modulo 2^32, then the payload.
pub open spec fn frame_of(payload: Seq<u8>) -> Seq<u8> {
    le_bytes(payload.len() % 4294967296) + payload
}

/// Why a byte buffer holds no whole frame.
#[derive(Debug, PartialEq, Eq, Clone, Copy)]
pub enum FrameError {
    /// Fewer than the 4 bytes of the length.
    TruncatedLength,
    /// Fewer payload bytes than the length announces.
    TruncatedPayload,
}

/// What reading one frame from the start of `buf` gives: the payload and the
/// number of bytes the frame takes.
pub open spec fn frame_read(buf: Seq<u8>) -> Result<(Seq<u8>, nat), FrameError> {
    if buf.len() < 4 {
        Err(FrameError::TruncatedLength)
    } else {
        let len = le_value(buf.subrange(0, 4));
        if buf.len() - 4 < len {
            Err(FrameError::TruncatedPayload)
        } else {
            Ok((buf.subrange(4, 4 + len as int), 4 + len))
        }
    }
}

/// The length header of a payload of `len` bytes; a length of 2^32 bytes or
/// more is cut to its low 32 bits.
pub fn encode_length(len: usize) -> (header: [u8; 4])
    ensures
        header@ == le_bytes(len as nat % 4294967296),
{
    let n: u64 = (len as u64) % 4294967296;
    let b0: u8 = (n % 256) as u8;
    let b1: u8 = ((n / 256) % 256) as u8;
    let b2: u8 = ((n / 65536) % 256) as u8;
    let b3: u8 = ((n / 16777216) % 256) as u8;
    let header: [u8; 4] = [b0, b1, b2, b3];
    assert(header@ =~= le_bytes(len as nat % 4294967296));
    header
}

/// The payload length a header announces.
pub fn decode_length(header: [u8; 4]) -> (len: u32)
    ensures
        len == le_value(header@),
{
    let b0: u32 = header[0] as u32;
    let b1: u32 = header[1] as u32;
    let b2: u32 = header[2] as u32;
    let b3: u32 = header[3] as u32;
    b0 + 256 * b1 + 65536 * b2 + 16777216 * b3
}

/// Frames `payload`: its length header followed by the payload bytes.
pub fn frame_message(payload: &[u8]) -> (frame: Vec<u8>)
    ensures
        frame@ == frame_of(payload@),
{
    let header = encode_length(payload.len());
    let mut frame: Vec<u8> = Vec::new();
    let mut i: usize = 0;
    while i < 4
        invariant
            i <= 4,
            frame@ == header@.subrange(0, i as int),
        decreases 4 - i,
    {
        frame.push(header[i]);
        assert(header@.subrange(0, i + 1) =~= header@.subrange(0, i as int).push(header@[i as int]));
        i = i + 1;
    }
    let mut j: usize = 0;
    while j < payload.len()
        invariant
            j <= payload@.len(),
            frame@ == header@ + payload@.subrange(0, j as int),
        decreases payload@.len() - j,
    {
        frame.push(payload[j]);
        assert(payload@.subrange(0, j + 1) =~= payload@.subrange(0, j as int).push(payload@[j as int]));
        j = j + 1;
    }
    assert(payload@.subrange(0, payload@.len() as int) =~= payload@);
    frame
}

/// Reads the frame at the start of `buf`: its payload and the number of
/// bytes the frame takes, or why `buf` holds no whole frame.
pub fn read_frame(buf: &[u8]) -> (r: Result<(Vec<u8>, usize), FrameError>)
    ensures
        match (r, frame_read(buf@)) {
            (Ok((p, n)), Ok((q, m))) => p@ == q && n == m,
            (Err(e), Err(f)) => e == f,
            _ => false,
        },
{
    if buf.len() < 4 {
        return Err(FrameError::TruncatedLength);
    }
    let header: [u8; 4] = [buf[0], buf[1], buf[2], buf[3]];
    assert(header@ =~= buf@.subrange(0, 4));
    let len = decode_length(header);
    if ((buf.len() - 4) as u64) < (len as u64) {
        return Err(FrameError::TruncatedPayload);
    }
    let len = len as usize;
    let mut payload: Vec<u8> = Vec::new();
    let mut j: usize = 0;
    while j < len
        invariant
            j <= len,
            4 + len <= buf@.len(),
            buf@.len() == buf.len(),
            payload@ == buf@.subrange(4, 4 + j),
        decreases len - j,
    {
        payload.push(buf[4 + j]);
        assert(buf@.subrange(4, 4 + j + 1) =~= buf@.subrange(4, 4 + j).push(buf@[4 + j]));
        j = j + 1;
    }
    Ok((payload, 4 + len))
}

/// The value of the little-endian bytes of `n` is `n` again.
pub proof fn lemma_le_roundtrip(n: nat)
    requires
        n < 4294967296,
    ensures
        le_value(le_bytes(n)) == n,
{
    let b = le_bytes(n);
    assert(b[0] == n % 256);
    assert(b[1] == (n / 256) % 256);
    assert(b[2] == (n / 65536) % 256);
    assert(b[3] == (n / 16777216) % 256);
    assert(n % 256 + 256 * ((n / 256) % 256) + 65536 * ((n / 65536) % 256) + 16777216 * ((n / 16777216) % 256) == n) by (nonlinear_arith)
        requires
            n < 4294967296,
    ;
}

/// Reading back a frame gives the payload that was framed, whatever bytes
/// follow it, for every payload shorter than 2^32 bytes.
pub proof fn lemma_read_after_frame(payload: Seq<u8>, rest: Seq<u8>)
    requires
        payload.len() < 4294967296,
    ensures
        frame_read(frame_of(payload) + rest) == Ok::<(Seq<u8>, nat), FrameError>((payload, 4 + payload.len())),
{
    let buf = frame_of(payload) + rest;
    lemma_le_roundtrip(payload.len());
    assert(buf.subrange(0, 4) =~= le_bytes(payload.len()));
    assert(buf.subrange(4, 4 + payload.len() as int) =~= payload);
}

} // verus!
