//! Wire framing for the handshake.
//!
//! Every handshake message is one frame: an 8-byte unsigned big-endian length
//! prefix followed by exactly that many raw payload bytes. Both handshake
//! roles use the same framing; after the handshake the connection carries
//! unstructured bytes with no further framing.

use vstd::prelude::*;

verus! {

/// The eight bytes of `x` in big-endian order, most significant byte first.
pub open spec fn spec_u64_to_be_bytes(x: u64) -> Seq<u8> {
    seq![
        ((x >> 56) & 0xff) as u8,
        ((x >> 48) & 0xff) as u8,
        ((x >> 40) & 0xff) as u8,
        ((x >> 32) & 0xff) as u8,
        ((x >> 24) & 0xff) as u8,
        ((x >> 16) & 0xff) as u8,
        ((x >> 8) & 0xff) as u8,
        (x & 0xff) as u8,
    ]
}

/// The value carried by eight bytes in big-endian order.
pub open spec fn spec_u64_from_be_bytes(s: Seq<u8>) -> u64
    recommends
        s.len() == 8,
{
    (s[0] as u64) << 56 | (s[1] as u64) << 48 | (s[2] as u64) << 40 | (s[3] as u64) << 32 | (
    s[4] as u64) << 24 | (s[5] as u64) << 16 | (s[6] as u64) << 8 | (s[7] as u64)
}

/// Reading back the big-endian bytes of a value yields that value.
pub proof fn lemma_u64_be_bytes_round_trip(x: u64)
    ensures
        spec_u64_to_be_bytes(x).len() == 8,
        spec_u64_from_be_bytes(spec_u64_to_be_bytes(x)) == x,
{
    assert({
        &&& (x >> 56) & 0xff < 256
        &&& (x >> 48) & 0xff < 256
        &&& (x >> 40) & 0xff < 256
        &&& (x >> 32) & 0xff < 256
        &&& (x >> 24) & 0xff < 256
        &&& (x >> 16) & 0xff < 256
        &&& (x >> 8) & 0xff < 256
        &&& x & 0xff < 256
    }) by (bit_vector);
    assert(x == ((x >> 56) & 0xff) << 56 | ((x >> 48) & 0xff) << 48 | ((x >> 40) & 0xff) << 40 | ((
    x >> 32) & 0xff) << 32 | ((x >> 24) & 0xff) << 24 | ((x >> 16) & 0xff) << 16 | ((x >> 8)
        & 0xff) << 8 | (x & 0xff)) by (bit_vector);
}

/// Writing back a value read from eight big-endian bytes yields those bytes.
pub proof fn lemma_u64_be_bytes_inverse(s: Seq<u8>)
    requires
        s.len() == 8,
    ensures
        spec_u64_to_be_bytes(spec_u64_from_be_bytes(s)) == s,
{
    let x = spec_u64_from_be_bytes(s);
    let s0 = s[0] as u64;
    let s1 = s[1] as u64;
    let s2 = s[2] as u64;
    let s3 = s[3] as u64;
    let s4 = s[4] as u64;
    let s5 = s[5] as u64;
    let s6 = s[6] as u64;
    let s7 = s[7] as u64;
    assert(((x == s0 << 56 | s1 << 48 | s2 << 40 | s3 << 32 | s4 << 24 | s5 << 16 | s6 << 8 | s7)
        && s0 < 256 && s1 < 256 && s2 < 256 && s3 < 256 && s4 < 256 && s5 < 256 && s6 < 256 && s7
        < 256) ==> (s0 == (x >> 56) & 0xff && s1 == (x >> 48) & 0xff && s2 == (x >> 40) & 0xff && s3
        == (x >> 32) & 0xff && s4 == (x >> 24) & 0xff && s5 == (x >> 16) & 0xff && s6 == (x >> 8)
        & 0xff && s7 == x & 0xff)) by (bit_vector);
    assert(spec_u64_to_be_bytes(spec_u64_from_be_bytes(s)) =~= s);
}

/// Writes `x` as eight big-endian bytes.
pub fn u64_to_be_bytes(x: u64) -> (r: Vec<u8>)
    ensures
        r@ == spec_u64_to_be_bytes(x),
        r@.len() == 8,
{
    assert({
        &&& (x >> 56) & 0xff < 256
        &&& (x >> 48) & 0xff < 256
        &&& (x >> 40) & 0xff < 256
        &&& (x >> 32) & 0xff < 256
        &&& (x >> 24) & 0xff < 256
        &&& (x >> 16) & 0xff < 256
        &&& (x >> 8) & 0xff < 256
        &&& x & 0xff < 256
    }) by (bit_vector);
    let mut r: Vec<u8> = Vec::new();
    r.push(((x >> 56) & 0xff) as u8);
    r.push(((x >> 48) & 0xff) as u8);
    r.push(((x >> 40) & 0xff) as u8);
    r.push(((x >> 32) & 0xff) as u8);
    r.push(((x >> 24) & 0xff) as u8);
    r.push(((x >> 16) & 0xff) as u8);
    r.push(((x >> 8) & 0xff) as u8);
    r.push((x & 0xff) as u8);
    proof {
        assert(r@ =~= spec_u64_to_be_bytes(x));
    }
    r
}

/// Reads the value carried by eight big-endian bytes.
pub fn u64_from_be_bytes(s: &[u8]) -> (x: u64)
    requires
        s@.len() == 8,
    ensures
        x == spec_u64_from_be_bytes(s@),
{
    (s[0] as u64) << 56 | (s[1] as u64) << 48 | (s[2] as u64) << 40 | (s[3] as u64) << 32 | (
    s[4] as u64) << 24 | (s[5] as u64) << 16 | (s[6] as u64) << 8 | (s[7] as u64)
}

/// One wire frame: the payload's length as an 8-byte big-endian prefix,
/// followed by the payload itself.
pub open spec fn spec_frame(payload: Seq<u8>) -> Seq<u8>
    recommends
        payload.len() <= u64::MAX,
{
    spec_u64_to_be_bytes(payload.len() as u64) + payload
}

/// The length announced by the prefix at the head of `data`.
pub open spec fn spec_frame_len(data: Seq<u8>) -> u64
    recommends
        data.len() >= 8,
{
    spec_u64_from_be_bytes(data.take(8))
}

/// Whether `data` begins with one complete frame: the whole length prefix has
/// arrived and at least as many payload bytes as it announces.
pub open spec fn has_complete_frame(data: Seq<u8>) -> bool {
    data.len() >= 8 && data.len() >= 8 + spec_frame_len(data)
}

/// The payload of the complete frame at the head of `data`.
pub open spec fn spec_frame_payload(data: Seq<u8>) -> Seq<u8>
    recommends
        has_complete_frame(data),
{
    data.subrange(8, 8 + spec_frame_len(data) as int)
}

/// The bytes of `data` that follow its first frame.
pub open spec fn spec_frame_rest(data: Seq<u8>) -> Seq<u8>
    recommends
        has_complete_frame(data),
{
    data.subrange(8 + spec_frame_len(data) as int, data.len() as int)
}

/// Frames a payload for the wire.
pub fn encode_frame(payload: &[u8]) -> (r: Vec<u8>)
    ensures
        r@ == spec_frame(payload@),
{
    let len: u64 = payload.len() as u64;
    let mut r = u64_to_be_bytes(len);
    let mut body = vstd::slice::slice_to_vec(payload);
    r.append(&mut body);
    proof {
        assert(r@ =~= spec_frame(payload@));
    }
    r
}

/// Reads one frame from the head of `data`. Returns the payload and the
/// number of bytes consumed, or nothing while the frame is still incomplete.
pub fn parse_frame(data: &[u8]) -> (r: Option<(Vec<u8>, usize)>)
    ensures
        r is Some <==> has_complete_frame(data@),
        r matches Some(pc) ==> ({
            &&& pc.0@ == spec_frame_payload(data@)
            &&& pc.1 == 8 + spec_frame_len(data@)
            &&& pc.1 <= data@.len()
        }),
{
    if data.len() < 8 {
        return None;
    }
    let prefix = vstd::slice::slice_subrange(data, 0, 8);
    let len = u64_from_be_bytes(prefix);
    proof {
        assert(prefix@ =~= data@.take(8));
    }
    if ((data.len() - 8) as u64) < len {
        return None;
    }
    let consumed: usize = 8 + (len as usize);
    let payload = vstd::slice::slice_to_vec(vstd::slice::slice_subrange(data, 8, consumed));
    Some((payload, consumed))
}

/// Framing then parsing is the identity: the parser recovers exactly the
/// payload the encoder framed, and leaves every byte after the frame alone.
pub proof fn lemma_frame_round_trip(payload: Seq<u8>, rest: Seq<u8>)
    requires
        payload.len() <= u64::MAX,
    ensures
        has_complete_frame(spec_frame(payload) + rest),
        spec_frame_payload(spec_frame(payload) + rest) == payload,
        spec_frame_rest(spec_frame(payload) + rest) == rest,
{
    let data = spec_frame(payload) + rest;
    lemma_u64_be_bytes_round_trip(payload.len() as u64);
    assert(data.take(8) =~= spec_u64_to_be_bytes(payload.len() as u64));
    assert(spec_frame_len(data) == payload.len() as u64);
    assert(spec_frame_payload(data) =~= payload);
    assert(spec_frame_rest(data) =~= rest);
}

/// A buffer that begins with a complete frame is exactly that frame followed
/// by the remaining bytes: parsing is the inverse of framing.
pub proof fn lemma_frame_decomposition(data: Seq<u8>)
    requires
        has_complete_frame(data),
    ensures
        data == spec_frame(spec_frame_payload(data)) + spec_frame_rest(data),
        spec_frame_payload(data).len() == spec_frame_len(data),
{
    lemma_u64_be_bytes_inverse(data.take(8));
    assert(spec_frame_payload(data).len() == spec_frame_len(data));
    assert(spec_frame(spec_frame_payload(data)).take(8) =~= data.take(8));
    assert(data =~= spec_frame(spec_frame_payload(data)) + spec_frame_rest(data));
}

} // verus!
