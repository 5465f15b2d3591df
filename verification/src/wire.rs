//! Byte-level integer encodings used by the wire format: the big-endian
//! frame length prefix and the little-endian fields of encoded messages.

use vstd::prelude::*;

verus! {

/// The four big-endian bytes of a 32-bit value, as the frame prefix orders them.
pub open spec fn u32_be_bytes(n: u32) -> Seq<u8> {
    seq![(n >> 24) as u8, (n >> 16) as u8, (n >> 8) as u8, n as u8]
}

/// The 32-bit value read big-endian from four bytes.
pub open spec fn u32_from_be(b0: u8, b1: u8, b2: u8, b3: u8) -> u32 {
    (((b0 as u32) << 24) | ((b1 as u32) << 16) | ((b2 as u32) << 8) | (b3 as u32)) as u32
}

/// The four little-endian bytes of a 32-bit value.
pub open spec fn u32_le_bytes(n: u32) -> Seq<u8> {
    seq![n as u8, (n >> 8) as u8, (n >> 16) as u8, (n >> 24) as u8]
}

/// The 32-bit value read little-endian from four bytes.
pub open spec fn u32_from_le(b0: u8, b1: u8, b2: u8, b3: u8) -> u32 {
    (((b3 as u32) << 24) | ((b2 as u32) << 16) | ((b1 as u32) << 8) | (b0 as u32)) as u32
}

/// The eight little-endian bytes of a 64-bit value.
pub open spec fn u64_le_bytes(n: u64) -> Seq<u8> {
    seq![
        n as u8,
        (n >> 8) as u8,
        (n >> 16) as u8,
        (n >> 24) as u8,
        (n >> 32) as u8,
        (n >> 40) as u8,
        (n >> 48) as u8,
        (n >> 56) as u8,
    ]
}

/// The 64-bit value read little-endian from eight bytes.
pub open spec fn u64_from_le(b: Seq<u8>) -> u64
    recommends
        b.len() == 8,
{
    (((b[7] as u64) << 56) | ((b[6] as u64) << 48) | ((b[5] as u64) << 40) | ((b[4] as u64) << 32)
        | ((b[3] as u64) << 24) | ((b[2] as u64) << 16) | ((b[1] as u64) << 8) | (b[0]
        as u64)) as u64
}

/// Appends the big-endian bytes of `n`.
pub fn push_u32_be(v: &mut Vec<u8>, n: u32)
    ensures
        final(v)@ == old(v)@ + u32_be_bytes(n),
{
    v.push((n >> 24) as u8);
    v.push((n >> 16) as u8);
    v.push((n >> 8) as u8);
    v.push(n as u8);
    assert(v@ =~= old(v)@ + u32_be_bytes(n));
}

/// Appends the little-endian bytes of `n`.
pub fn push_u32_le(v: &mut Vec<u8>, n: u32)
    ensures
        final(v)@ == old(v)@ + u32_le_bytes(n),
{
    v.push(n as u8);
    v.push((n >> 8) as u8);
    v.push((n >> 16) as u8);
    v.push((n >> 24) as u8);
    assert(v@ =~= old(v)@ + u32_le_bytes(n));
}

/// Appends the little-endian bytes of `n`.
pub fn push_u64_le(v: &mut Vec<u8>, n: u64)
    ensures
        final(v)@ == old(v)@ + u64_le_bytes(n),
{
    v.push(n as u8);
    v.push((n >> 8) as u8);
    v.push((n >> 16) as u8);
    v.push((n >> 24) as u8);
    v.push((n >> 32) as u8);
    v.push((n >> 40) as u8);
    v.push((n >> 48) as u8);
    v.push((n >> 56) as u8);
    assert(v@ =~= old(v)@ + u64_le_bytes(n));
}

/// Reads a 32-bit value big-endian from four bytes.
pub fn read_u32_be(b0: u8, b1: u8, b2: u8, b3: u8) -> (r: u32)
    ensures
        r == u32_from_be(b0, b1, b2, b3),
{
    ((b0 as u32) << 24) | ((b1 as u32) << 16) | ((b2 as u32) << 8) | (b3 as u32)
}

/// Reads a 32-bit value little-endian from four bytes.
pub fn read_u32_le(b0: u8, b1: u8, b2: u8, b3: u8) -> (r: u32)
    ensures
        r == u32_from_le(b0, b1, b2, b3),
{
    ((b3 as u32) << 24) | ((b2 as u32) << 16) | ((b1 as u32) << 8) | (b0 as u32)
}

/// Reads a 64-bit value little-endian from eight bytes.
pub fn read_u64_le(b0: u8, b1: u8, b2: u8, b3: u8, b4: u8, b5: u8, b6: u8, b7: u8) -> (r: u64)
    ensures
        r == u64_from_le(seq![b0, b1, b2, b3, b4, b5, b6, b7]),
{
    let r = ((b7 as u64) << 56) | ((b6 as u64) << 48) | ((b5 as u64) << 40) | ((b4 as u64) << 32)
        | ((b3 as u64) << 24) | ((b2 as u64) << 16) | ((b1 as u64) << 8) | (b0 as u64);
    proof {
        let s = seq![b0, b1, b2, b3, b4, b5, b6, b7];
        assert(s[0] == b0 && s[1] == b1 && s[2] == b2 && s[3] == b3 && s[4] == b4 && s[5] == b5
            && s[6] == b6 && s[7] == b7);
    }
    r
}

/// The encoding of a value and the value read back from it agree: writing a
/// 32-bit length big-endian and reading it again is the identity.
pub proof fn lemma_u32_be_round_trip(n: u32)
    ensures
        u32_from_be(
            u32_be_bytes(n)[0],
            u32_be_bytes(n)[1],
            u32_be_bytes(n)[2],
            u32_be_bytes(n)[3],
        ) == n,
{
    assert((((((n >> 24) as u8) as u32) << 24) | ((((n >> 16) as u8) as u32) << 16) | ((((n >> 8)
        as u8) as u32) << 8) | ((n as u8) as u32)) == n) by (bit_vector);
}

/// Little-endian counterpart of the 32-bit round trip.
pub proof fn lemma_u32_le_round_trip(n: u32)
    ensures
        u32_from_le(
            u32_le_bytes(n)[0],
            u32_le_bytes(n)[1],
            u32_le_bytes(n)[2],
            u32_le_bytes(n)[3],
        ) == n,
{
    assert((((((n >> 24) as u8) as u32) << 24) | ((((n >> 16) as u8) as u32) << 16) | ((((n >> 8)
        as u8) as u32) << 8) | ((n as u8) as u32)) == n) by (bit_vector);
}

/// Little-endian round trip for 64-bit values.
pub proof fn lemma_u64_le_round_trip(n: u64)
    ensures
        u64_from_le(u64_le_bytes(n)) == n,
{
    assert((((((n >> 56) as u8) as u64) << 56) | ((((n >> 48) as u8) as u64) << 48) | ((((n >> 40)
        as u8) as u64) << 40) | ((((n >> 32) as u8) as u64) << 32) | ((((n >> 24) as u8) as u64)
        << 24) | ((((n >> 16) as u8) as u64) << 16) | ((((n >> 8) as u8) as u64) << 8) | ((n
        as u8) as u64)) == n) by (bit_vector);
}

/// Reading four bytes and re-encoding the value gives the same four bytes:
/// the big-endian length prefix has exactly one reading.
pub proof fn lemma_u32_be_bytes_inverse(b0: u8, b1: u8, b2: u8, b3: u8)
    ensures
        u32_be_bytes(u32_from_be(b0, b1, b2, b3)) =~= seq![b0, b1, b2, b3],
{
    let v = u32_from_be(b0, b1, b2, b3);
    assert((((((b0 as u32) << 24) | ((b1 as u32) << 16) | ((b2 as u32) << 8) | (b3 as u32)) >> 24)
        as u8) == b0) by (bit_vector);
    assert((((((b0 as u32) << 24) | ((b1 as u32) << 16) | ((b2 as u32) << 8) | (b3 as u32)) >> 16)
        as u8) == b1) by (bit_vector);
    assert((((((b0 as u32) << 24) | ((b1 as u32) << 16) | ((b2 as u32) << 8) | (b3 as u32)) >> 8)
        as u8) == b2) by (bit_vector);
    assert(((((b0 as u32) << 24) | ((b1 as u32) << 16) | ((b2 as u32) << 8) | (b3 as u32)) as u8)
        == b3) by (bit_vector);
}

} // verus!
