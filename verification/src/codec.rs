//! Wire format of the sequence counter: exactly 4 bytes, signed 32-bit
//! integer, little endian, no framing or length prefix.

use vstd::prelude::*;

verus! {

/// The unsigned 32-bit image of a signed 32-bit value (two's complement).
pub open spec fn spec_u32_of_i32(v: i32) -> u32 {
    if v >= 0 {
        v as u32
    } else {
        (v + 0x1_0000_0000) as u32
    }
}

/// The signed 32-bit value whose two's-complement image is `u`.
pub open spec fn spec_i32_of_u32(u: u32) -> i32 {
    if u < 0x8000_0000 {
        u as i32
    } else {
        (u - 0x1_0000_0000) as i32
    }
}

/// The little-endian byte decomposition of an unsigned 32-bit value.
pub open spec fn spec_le_bytes_of_u32(u: u32) -> Seq<u8> {
    seq![
        (u % 256) as u8,
        ((u / 256) % 256) as u8,
        ((u / 65536) % 256) as u8,
        ((u / 16777216) % 256) as u8,
    ]
}

/// The unsigned 32-bit value read little-endian from the first 4 bytes of `s`.
pub open spec fn spec_u32_of_le_bytes(s: Seq<u8>) -> u32
    recommends
        s.len() >= 4,
{
    (s[0] + s[1] * 256 + s[2] * 65536 + s[3] * 16777216) as u32
}

/// The 4-byte little-endian encoding of a counter value.
pub open spec fn spec_counter_bytes(v: i32) -> Seq<u8> {
    spec_le_bytes_of_u32(spec_u32_of_i32(v))
}

/// The counter value carried by a payload: defined for the first 4 bytes.
pub open spec fn spec_counter_of_payload(s: Seq<u8>) -> i32
    recommends
        s.len() >= 4,
{
    spec_i32_of_u32(spec_u32_of_le_bytes(s))
}

/// Encodes a counter value as its 4-byte little-endian wire image.
pub fn encode_counter(v: i32) -> (r: Vec<u8>)
    ensures
        r@ == spec_counter_bytes(v),
        r@.len() == 4,
{
    let u: u32 = if v >= 0 {
        v as u32
    } else {
        ((v as i64) + 0x1_0000_0000i64) as u32
    };
    assert(u == spec_u32_of_i32(v));
    let mut r: Vec<u8> = Vec::new();
    r.push((u % 256) as u8);
    r.push(((u / 256) % 256) as u8);
    r.push(((u / 65536) % 256) as u8);
    r.push(((u / 16777216) % 256) as u8);
    assert(r@ =~= spec_counter_bytes(v));
    r
}

/// Reads the counter value from the first 4 bytes of a payload, or reports
/// the payload too short to carry one.
pub fn decode_payload(payload: &Vec<u8>) -> (r: Option<i32>)
    ensures
        payload@.len() >= 4 ==> r == Some(spec_counter_of_payload(payload@)),
        payload@.len() < 4 ==> r is None,
{
    if payload.len() < 4 {
        return None;
    }
    let b0: u32 = payload[0] as u32;
    let b1: u32 = payload[1] as u32;
    let b2: u32 = payload[2] as u32;
    let b3: u32 = payload[3] as u32;
    let u: u32 = b0 + b1 * 256 + b2 * 65536 + b3 * 16777216;
    assert(u == spec_u32_of_le_bytes(payload@));
    let v: i32 = if u < 0x8000_0000 {
        u as i32
    } else {
        ((u as i64) - 0x1_0000_0000i64) as i32
    };
    assert(v == spec_i32_of_u32(u));
    Some(v)
}

/// A value sent through the wire format comes back unchanged: decoding the
/// 4-byte encoding of any counter value yields that value.
pub proof fn lemma_counter_round_trip(v: i32)
    ensures
        spec_counter_bytes(v).len() == 4,
        spec_counter_of_payload(spec_counter_bytes(v)) == v,
{
    let u = spec_u32_of_i32(v);
    let s = spec_le_bytes_of_u32(u);
    assert(u % 256 + ((u / 256) % 256) * 256 + ((u / 65536) % 256) * 65536
        + ((u / 16777216) % 256) * 16777216 == u) by (bit_vector);
    assert(spec_u32_of_le_bytes(s) == u);
    assert(spec_i32_of_u32(spec_u32_of_i32(v)) == v);
}

} // verus!
