//! Length-framed wire codec.
//!
//! Every message on the deploy connection is a frame: a 4-byte big-endian
//! length prefix followed by exactly that many payload bytes.  The functions
//! here turn payloads into frames and frames back into payloads; the
//! unverified shell only moves the resulting bytes over the socket.
//!
//! No maximum payload length is imposed beyond what the 32-bit prefix can
//! carry; a receiver that wants to bound allocation against a hostile peer
//! must check the declared length itself (an open question of the wire
//! format, left visible here rather than fixed silently).

use vstd::prelude::*;

verus! {

/// The four prefix bytes of a frame: `n` as a 32-bit big-endian integer.
pub open spec fn spec_len_prefix(n: u32) -> Seq<u8> {
    seq![
        (n >> 24) as u8,
        ((n >> 16) & 0xFF) as u8,
        ((n >> 8) & 0xFF) as u8,
        (n & 0xFF) as u8,
    ]
}

/// The 32-bit value encoded by four big-endian prefix bytes.
pub open spec fn spec_len_of_prefix(b0: u8, b1: u8, b2: u8, b3: u8) -> u32 {
    ((b0 as u32) << 24) | ((b1 as u32) << 16) | ((b2 as u32) << 8) | (b3 as u32)
}

/// A whole frame: the length prefix followed by the payload.
pub open spec fn spec_frame(payload: Seq<u8>) -> Seq<u8>
    recommends
        payload.len() <= u32::MAX,
{
    spec_len_prefix(payload.len() as u32) + payload
}

/// What decoding a buffer yields: the payload and the number of bytes
/// consumed, or nothing when the buffer ends before the frame does.
pub open spec fn spec_decode(data: Seq<u8>) -> Option<(Seq<u8>, int)> {
    if data.len() < 4 {
        None
    } else {
        let n = spec_len_of_prefix(data[0], data[1], data[2], data[3]) as int;
        if data.len() < 4 + n {
            None
        } else {
            Some((data.subrange(4, 4 + n), 4 + n))
        }
    }
}

/// Decoding failure: the buffer ended before the frame did, either inside
/// the 4-byte prefix or inside the declared payload.
#[derive(Clone, Copy, PartialEq, Eq, Structural, Debug)]
pub enum FrameError {
    Truncated,
}

proof fn lemma_prefix_round_trip(n: u32)
    ensures
        spec_len_of_prefix(
            (n >> 24) as u8,
            ((n >> 16) & 0xFF) as u8,
            ((n >> 8) & 0xFF) as u8,
            (n & 0xFF) as u8,
        ) == n,
{
    assert((((n >> 24) & 0xFF) << 24) | (((n >> 16) & 0xFF) << 16) | (((n >> 8) & 0xFF) << 8) | (
    n & 0xFF) == n) by (bit_vector);
    assert((n >> 24) & 0xFF == n >> 24) by (bit_vector);
    assert(((n >> 24) as u8) as u32 == (n >> 24) & 0xFF) by (bit_vector);
    assert((((n >> 16) & 0xFF) as u8) as u32 == (n >> 16) & 0xFF) by (bit_vector);
    assert((((n >> 8) & 0xFF) as u8) as u32 == (n >> 8) & 0xFF) by (bit_vector);
    assert(((n & 0xFF) as u8) as u32 == n & 0xFF) by (bit_vector);
}

proof fn lemma_prefix_of_parts(b0: u8, b1: u8, b2: u8, b3: u8)
    ensures
        spec_len_prefix(spec_len_of_prefix(b0, b1, b2, b3)) == seq![b0, b1, b2, b3],
{
    let n = spec_len_of_prefix(b0, b1, b2, b3);
    assert((((b0 as u32) << 24) | ((b1 as u32) << 16) | ((b2 as u32) << 8) | (b3 as u32)) >> 24
        == b0 as u32) by (bit_vector);
    assert(((((b0 as u32) << 24) | ((b1 as u32) << 16) | ((b2 as u32) << 8) | (b3 as u32)) >> 16)
        & 0xFF == b1 as u32) by (bit_vector);
    assert(((((b0 as u32) << 24) | ((b1 as u32) << 16) | ((b2 as u32) << 8) | (b3 as u32)) >> 8)
        & 0xFF == b2 as u32) by (bit_vector);
    assert((((b0 as u32) << 24) | ((b1 as u32) << 16) | ((b2 as u32) << 8) | (b3 as u32)) & 0xFF
        == b3 as u32) by (bit_vector);
    assert(spec_len_prefix(n) =~= seq![b0, b1, b2, b3]);
}

/// Encodes a payload as one frame: 4-byte big-endian length, then the bytes.
pub fn encode_frame(payload: &[u8]) -> (r: Vec<u8>)
    requires
        payload@.len() <= u32::MAX,
    ensures
        r@ == spec_frame(payload@),
        r@.len() == 4 + payload@.len(),
{
    let n = payload.len() as u32;
    let mut out: Vec<u8> = Vec::new();
    out.push((n >> 24) as u8);
    out.push(((n >> 16) & 0xFF) as u8);
    out.push(((n >> 8) & 0xFF) as u8);
    out.push((n & 0xFF) as u8);
    let mut i: usize = 0;
    while i < payload.len()
        invariant
            i <= payload@.len(),
            payload@.len() <= u32::MAX,
            out@ == spec_len_prefix(payload@.len() as u32) + payload@.subrange(0, i as int),
        decreases payload@.len() - i,
    {
        out.push(payload[i]);
        i = i + 1;
        assert(out@ =~= spec_len_prefix(payload@.len() as u32) + payload@.subrange(0, i as int));
    }
    assert(payload@.subrange(0, payload@.len() as int) =~= payload@);
    out
}

/// Decodes one frame from the front of `data`, returning the payload and
/// the number of bytes consumed.  Fails exactly when the buffer ends before
/// the prefix, or before the payload the prefix declares.
pub fn decode_frame(data: &[u8]) -> (r: Result<(Vec<u8>, usize), FrameError>)
    ensures
        match r {
            Ok((payload, used)) => {
                &&& spec_decode(data@) == Some((payload@, used as int))
                &&& used as int == 4 + payload@.len()
                &&& used <= data@.len()
            },
            Err(FrameError::Truncated) => spec_decode(data@) is None,
        },
{
    if data.len() < 4 {
        return Err(FrameError::Truncated);
    }
    let n = ((data[0] as u32) << 24) | ((data[1] as u32) << 16) | ((data[2] as u32) << 8) | (
    data[3] as u32);
    let body = n as usize;
    let dlen = data.len();
    if dlen - 4 < body {
        return Err(FrameError::Truncated);
    }
    let mut payload: Vec<u8> = Vec::new();
    let mut i: usize = 0;
    while i < body
        invariant
            i <= body,
            body + 4 <= dlen,
            dlen == data@.len(),
            payload@ == data@.subrange(4, 4 + i as int),
        decreases body - i,
    {
        payload.push(data[4 + i]);
        i = i + 1;
        assert(payload@ =~= data@.subrange(4, 4 + i as int));
    }
    Ok((payload, 4 + body))
}

/// Framing round trip: decoding an encoded payload yields the payload back,
/// consuming the whole frame.
pub proof fn lemma_frame_round_trip(payload: Seq<u8>)
    requires
        payload.len() <= u32::MAX,
    ensures
        spec_decode(spec_frame(payload)) == Some((payload, payload.len() as int + 4)),
{
    let data = spec_frame(payload);
    let n = payload.len() as u32;
    lemma_prefix_round_trip(n);
    assert(data.len() == 4 + payload.len());
    assert(data[0] == spec_len_prefix(n)[0]);
    assert(data[1] == spec_len_prefix(n)[1]);
    assert(data[2] == spec_len_prefix(n)[2]);
    assert(data[3] == spec_len_prefix(n)[3]);
    assert(spec_len_of_prefix(data[0], data[1], data[2], data[3]) == n);
    assert(data.subrange(4, 4 + n as int) =~= payload);
}

/// Any successful decode reads back exactly the frame of its payload: the
/// consumed prefix of the buffer is `spec_frame` of the decoded payload.
pub proof fn lemma_decode_inverts_encode(data: Seq<u8>, payload: Seq<u8>, used: int)
    requires
        spec_decode(data) == Some((payload, used)),
    ensures
        payload.len() <= u32::MAX,
        data.subrange(0, used) == spec_frame(payload),
{
    let n = spec_len_of_prefix(data[0], data[1], data[2], data[3]);
    lemma_prefix_of_parts(data[0], data[1], data[2], data[3]);
    assert(payload == data.subrange(4, 4 + n as int));
    assert(payload.len() == n as int);
    assert(spec_len_prefix(payload.len() as u32) =~= seq![data[0], data[1], data[2], data[3]]);
    assert(data.subrange(0, used) =~= spec_frame(payload));
}

} // verus!
