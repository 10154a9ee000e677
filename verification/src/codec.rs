//! Wire codec for the status-query protocol.
//!
//! A query datagram is 12 bytes: a big-endian `u32` request-type marker,
//! always zero, followed by a big-endian `u64` identity token.  A response
//! datagram carries 24 meaningful bytes: five big-endian unsigned fields at
//! fixed offsets.  Shorter buffers are malformed; longer buffers carry a
//! valid response in their 24-byte prefix and the rest is ignored.

use vstd::prelude::*;

verus! {

/// A decoded status response: five fixed-width unsigned fields, read
/// big-endian at offsets 0, 4, 12, 16 and 20 of the datagram.
#[derive(Debug, Clone, Copy, PartialEq, Eq, Structural)]
pub struct PingResponse {
    pub version: u32,
    pub identity: u64,
    pub users: u32,
    pub max_users: u32,
    pub bandwidth: u32,
}

/// Why a response buffer could not be decoded.  Field values are never
/// validated, so a short buffer is the only malformed input.
#[derive(Debug, Clone, Copy, PartialEq, Eq, Structural)]
pub enum DecodeError {
    /// Fewer than 24 bytes were received.
    TooShort,
}

/// The `u32` held big-endian in a 4-byte sequence.
pub open spec fn be_u32_of(s: Seq<u8>) -> u32
    recommends
        s.len() == 4,
{
    ((s[0] as u32) << 24) | ((s[1] as u32) << 16) | ((s[2] as u32) << 8) | (s[3] as u32)
}

/// The `u64` held big-endian in an 8-byte sequence.
pub open spec fn be_u64_of(s: Seq<u8>) -> u64
    recommends
        s.len() == 8,
{
    ((s[0] as u64) << 56) | ((s[1] as u64) << 48) | ((s[2] as u64) << 40) | ((s[3] as u64)
        << 32) | ((s[4] as u64) << 24) | ((s[5] as u64) << 16) | ((s[6] as u64) << 8) | (
    s[7] as u64)
}

/// The 4-byte big-endian encoding of a `u32`.
pub open spec fn u32_be_bytes(x: u32) -> Seq<u8> {
    seq![
        ((x >> 24) & 0xff) as u8,
        ((x >> 16) & 0xff) as u8,
        ((x >> 8) & 0xff) as u8,
        (x & 0xff) as u8,
    ]
}

/// The 8-byte big-endian encoding of a `u64`.
pub open spec fn u64_be_bytes(x: u64) -> Seq<u8> {
    seq![
        ((x >> 56) & 0xff) as u8,
        ((x >> 48) & 0xff) as u8,
        ((x >> 40) & 0xff) as u8,
        ((x >> 32) & 0xff) as u8,
        ((x >> 24) & 0xff) as u8,
        ((x >> 16) & 0xff) as u8,
        ((x >> 8) & 0xff) as u8,
        (x & 0xff) as u8,
    ]
}

/// What decoding a received buffer yields: `TooShort` on fewer than 24
/// bytes, otherwise the five fields of the 24-byte prefix.
pub open spec fn decode_response_spec(s: Seq<u8>) -> Result<PingResponse, DecodeError> {
    if s.len() < 24 {
        Err(DecodeError::TooShort)
    } else {
        Ok(
            PingResponse {
                version: be_u32_of(s.subrange(0, 4)),
                identity: be_u64_of(s.subrange(4, 12)),
                users: be_u32_of(s.subrange(12, 16)),
                max_users: be_u32_of(s.subrange(16, 20)),
                bandwidth: be_u32_of(s.subrange(20, 24)),
            },
        )
    }
}

/// Reads the big-endian `u32` at offset `off`.
fn read_be_u32(buffer: &[u8], off: usize) -> (x: u32)
    requires
        off + 4 <= buffer@.len(),
    ensures
        x == be_u32_of(buffer@.subrange(off as int, off as int + 4)),
{
    let b0 = buffer[off];
    let b1 = buffer[off + 1];
    let b2 = buffer[off + 2];
    let b3 = buffer[off + 3];
    ((b0 as u32) << 24) | ((b1 as u32) << 16) | ((b2 as u32) << 8) | (b3 as u32)
}

/// Reads the big-endian `u64` at offset `off`.
fn read_be_u64(buffer: &[u8], off: usize) -> (x: u64)
    requires
        off + 8 <= buffer@.len(),
    ensures
        x == be_u64_of(buffer@.subrange(off as int, off as int + 8)),
{
    let b0 = buffer[off];
    let b1 = buffer[off + 1];
    let b2 = buffer[off + 2];
    let b3 = buffer[off + 3];
    let b4 = buffer[off + 4];
    let b5 = buffer[off + 5];
    let b6 = buffer[off + 6];
    let b7 = buffer[off + 7];
    ((b0 as u64) << 56) | ((b1 as u64) << 48) | ((b2 as u64) << 40) | ((b3 as u64) << 32) | ((b4
        as u64) << 24) | ((b5 as u64) << 16) | ((b6 as u64) << 8) | (b7 as u64)
}

/// Decodes a received datagram.  Fails with `TooShort` exactly when fewer
/// than 24 bytes arrived; otherwise reads the five fields of the 24-byte
/// prefix and ignores any trailing bytes.  Field values are accepted as-is.
pub fn decode_response(buffer: &[u8]) -> (r: Result<PingResponse, DecodeError>)
    ensures
        r == decode_response_spec(buffer@),
        r == Err::<PingResponse, DecodeError>(DecodeError::TooShort) <==> buffer@.len() < 24,
{
    if buffer.len() < 24 {
        Err(DecodeError::TooShort)
    } else {
        Ok(
            PingResponse {
                version: read_be_u32(buffer, 0),
                identity: read_be_u64(buffer, 4),
                users: read_be_u32(buffer, 12),
                max_users: read_be_u32(buffer, 16),
                bandwidth: read_be_u32(buffer, 20),
            },
        )
    }
}

/// The 12-byte query datagram: a zero request-type marker, then the
/// identity token, both big-endian.
pub open spec fn query_bytes_spec(identity_token: u64) -> Seq<u8> {
    u32_be_bytes(0u32) + u64_be_bytes(identity_token)
}

/// The 24-byte datagram that carries a response's five fields.
pub open spec fn response_bytes_spec(r: PingResponse) -> Seq<u8> {
    u32_be_bytes(r.version) + u64_be_bytes(r.identity) + u32_be_bytes(r.users) + u32_be_bytes(
        r.max_users,
    ) + u32_be_bytes(r.bandwidth)
}

/// Appends the 4-byte big-endian encoding of `x`.
fn push_be_u32(out: &mut Vec<u8>, x: u32)
    ensures
        final(out)@ == old(out)@ + u32_be_bytes(x),
{
    out.push(((x >> 24) & 0xff) as u8);
    out.push(((x >> 16) & 0xff) as u8);
    out.push(((x >> 8) & 0xff) as u8);
    out.push((x & 0xff) as u8);
    proof {
        assert(out@ =~= old(out)@ + u32_be_bytes(x));
    }
}

/// Appends the 8-byte big-endian encoding of `x`.
fn push_be_u64(out: &mut Vec<u8>, x: u64)
    ensures
        final(out)@ == old(out)@ + u64_be_bytes(x),
{
    out.push(((x >> 56) & 0xff) as u8);
    out.push(((x >> 48) & 0xff) as u8);
    out.push(((x >> 40) & 0xff) as u8);
    out.push(((x >> 32) & 0xff) as u8);
    out.push(((x >> 24) & 0xff) as u8);
    out.push(((x >> 16) & 0xff) as u8);
    out.push(((x >> 8) & 0xff) as u8);
    out.push((x & 0xff) as u8);
    proof {
        assert(out@ =~= old(out)@ + u64_be_bytes(x));
    }
}

/// Builds the outbound query datagram for one probe attempt.  The identity
/// token is an opaque correlation value (typically the sender's clock); the
/// server does not echo it back.
pub fn encode_query(identity_token: u64) -> (b: Vec<u8>)
    ensures
        b@ == query_bytes_spec(identity_token),
        b@.len() == 12,
{
    let mut out: Vec<u8> = Vec::new();
    push_be_u32(&mut out, 0);
    push_be_u64(&mut out, identity_token);
    out
}

/// Serialises a response record back into its 24-byte wire form.
pub fn raw_bytes_of(r: &PingResponse) -> (b: Vec<u8>)
    ensures
        b@ == response_bytes_spec(*r),
        b@.len() == 24,
{
    let mut out: Vec<u8> = Vec::new();
    push_be_u32(&mut out, r.version);
    push_be_u64(&mut out, r.identity);
    push_be_u32(&mut out, r.users);
    push_be_u32(&mut out, r.max_users);
    push_be_u32(&mut out, r.bandwidth);
    proof {
        assert(out@ =~= response_bytes_spec(*r));
    }
    out
}

/// Law: reading a `u32` back out of its big-endian encoding recovers it.
pub proof fn lemma_u32_be_round_trip(x: u32)
    ensures
        u32_be_bytes(x).len() == 4,
        be_u32_of(u32_be_bytes(x)) == x,
{
    assert((x >> 24) & 0xff < 256 && (x >> 16) & 0xff < 256 && (x >> 8) & 0xff < 256 && x & 0xff
        < 256) by (bit_vector);
    assert(x == ((((x >> 24) & 0xff) << 24) | (((x >> 16) & 0xff) << 16) | (((x >> 8) & 0xff) << 8)
        | (x & 0xff))) by (bit_vector);
}

/// Law: reading a `u64` back out of its big-endian encoding recovers it.
pub proof fn lemma_u64_be_round_trip(x: u64)
    ensures
        u64_be_bytes(x).len() == 8,
        be_u64_of(u64_be_bytes(x)) == x,
{
    assert((x >> 56) & 0xff < 256 && (x >> 48) & 0xff < 256 && (x >> 40) & 0xff < 256 && (x >> 32)
        & 0xff < 256 && (x >> 24) & 0xff < 256 && (x >> 16) & 0xff < 256 && (x >> 8) & 0xff < 256
        && x & 0xff < 256) by (bit_vector);
    assert(x == ((((x >> 56) & 0xff) << 56) | (((x >> 48) & 0xff) << 48) | (((x >> 40) & 0xff)
        << 40) | (((x >> 32) & 0xff) << 32) | (((x >> 24) & 0xff) << 24) | (((x >> 16) & 0xff)
        << 16) | (((x >> 8) & 0xff) << 8) | (x & 0xff))) by (bit_vector);
}

/// Law: a query datagram is 12 bytes, its first four are the zero
/// request-type marker, and its last eight hold the identity token
/// big-endian.
pub proof fn lemma_query_layout(identity_token: u64)
    ensures
        query_bytes_spec(identity_token).len() == 12,
        query_bytes_spec(identity_token).subrange(0, 4) =~= seq![0u8, 0u8, 0u8, 0u8],
        query_bytes_spec(identity_token).subrange(4, 12) =~= u64_be_bytes(identity_token),
{
    assert((0u32 >> 24) & 0xff == 0 && (0u32 >> 16) & 0xff == 0 && (0u32 >> 8) & 0xff == 0 && 0u32
        & 0xff == 0) by (bit_vector);
}

/// Law: decoding the wire form of any response record reconstructs the
/// record exactly, over the full range of every field.
pub proof fn lemma_response_round_trip(r: PingResponse)
    ensures
        decode_response_spec(response_bytes_spec(r)) == Ok::<PingResponse, DecodeError>(r),
{
    let s = response_bytes_spec(r);
    lemma_u32_be_round_trip(r.version);
    lemma_u64_be_round_trip(r.identity);
    lemma_u32_be_round_trip(r.users);
    lemma_u32_be_round_trip(r.max_users);
    lemma_u32_be_round_trip(r.bandwidth);
    assert(s.subrange(0, 4) =~= u32_be_bytes(r.version));
    assert(s.subrange(4, 12) =~= u64_be_bytes(r.identity));
    assert(s.subrange(12, 16) =~= u32_be_bytes(r.users));
    assert(s.subrange(16, 20) =~= u32_be_bytes(r.max_users));
    assert(s.subrange(20, 24) =~= u32_be_bytes(r.bandwidth));
}

/// Law: a buffer with trailing bytes beyond the 24th decodes exactly as its
/// 24-byte prefix does; the tail is ignored, not an error.
pub proof fn lemma_decode_ignores_trailing(s: Seq<u8>)
    requires
        s.len() >= 24,
    ensures
        decode_response_spec(s) == decode_response_spec(s.take(24)),
{
    let p = s.take(24);
    assert(p.subrange(0, 4) =~= s.subrange(0, 4));
    assert(p.subrange(4, 12) =~= s.subrange(4, 12));
    assert(p.subrange(12, 16) =~= s.subrange(12, 16));
    assert(p.subrange(16, 20) =~= s.subrange(16, 20));
    assert(p.subrange(20, 24) =~= s.subrange(20, 24));
}

} // verus!
