//! Encoding of the fixed-size values into the raw binary layout and back.
//!
//! In the raw layout an address and a 256-bit word are exactly their bytes,
//! so encoding is the identity on the byte string and decoding accepts
//! exactly the byte strings of the right width.  The round-trip lemmas state
//! that no byte pattern is altered by a trip across the boundary.

use vstd::prelude::*;

use crate::types::{Address, Bytes32};

verus! {

/// What decoding a raw address yields: the bytes themselves when the width
/// is right, nothing otherwise.
pub open spec fn spec_decode_address(raw: Seq<u8>) -> Option<Seq<u8>> {
    if raw.len() == 20 {
        Some(raw)
    } else {
        None
    }
}

/// What decoding a raw 256-bit word yields.
pub open spec fn spec_decode_bytes32(raw: Seq<u8>) -> Option<Seq<u8>> {
    if raw.len() == 32 {
        Some(raw)
    } else {
        None
    }
}

/// Copies a byte buffer; the marshalling layer never takes ownership of
/// memory it did not allocate, so values that cross the boundary are copied.
pub fn copy_bytes(src: &Vec<u8>) -> (r: Vec<u8>)
    ensures
        r@ == src@,
{
    let mut out: Vec<u8> = Vec::new();
    let mut i: usize = 0;
    while i < src.len()
        invariant
            i <= src@.len(),
            out@ == src@.subrange(0, i as int),
        decreases src@.len() - i,
    {
        out.push(src[i]);
        i = i + 1;
        proof {
            assert(out@ =~= src@.subrange(0, i as int));
        }
    }
    proof {
        assert(out@ =~= src@);
    }
    out
}

/// Writes an address into its raw layout: the 20 bytes, unchanged.
pub fn encode_address(a: &Address) -> (r: Vec<u8>)
    requires
        a.wf(),
    ensures
        r@ == a@,
        r@.len() == 20,
{
    copy_bytes(&a.bytes)
}

/// Reads an address back out of its raw layout; fails on any other width.
pub fn decode_address(raw: &Vec<u8>) -> (r: Option<Address>)
    ensures
        r is Some <==> spec_decode_address(raw@) is Some,
        r matches Some(a) ==> a.wf() && Some(a@) == spec_decode_address(raw@),
{
    if raw.len() == 20 {
        Some(Address { bytes: copy_bytes(raw) })
    } else {
        None
    }
}

/// Writes a 256-bit word into its raw layout: the 32 bytes, unchanged.
pub fn encode_bytes32(w: &Bytes32) -> (r: Vec<u8>)
    requires
        w.wf(),
    ensures
        r@ == w@,
        r@.len() == 32,
{
    copy_bytes(&w.bytes)
}

/// Reads a 256-bit word back out of its raw layout; fails on any other width.
pub fn decode_bytes32(raw: &Vec<u8>) -> (r: Option<Bytes32>)
    ensures
        r is Some <==> spec_decode_bytes32(raw@) is Some,
        r matches Some(w) ==> w.wf() && Some(w@) == spec_decode_bytes32(raw@),
{
    if raw.len() == 32 {
        Some(Bytes32 { bytes: copy_bytes(raw) })
    } else {
        None
    }
}

/// Encoding an address into the raw layout and decoding it back yields the
/// original 20 bytes unchanged, for every byte pattern.
pub proof fn lemma_address_roundtrip(a: Address)
    requires
        a.wf(),
    ensures
        spec_decode_address(a@) == Some(a@),
{
}

/// Encoding a 256-bit word into the raw layout and decoding it back yields
/// the original 32 bytes unchanged, for every byte pattern.
pub proof fn lemma_bytes32_roundtrip(w: Bytes32)
    requires
        w.wf(),
    ensures
        spec_decode_bytes32(w@) == Some(w@),
{
}

} // verus!
