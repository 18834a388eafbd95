//! Bit-field extraction and big-endian byte helpers: the foundation that
//! header parsing and serialization are built on.

use vstd::prelude::*;

verus! {

/// Extracts the numeric value of bits `[start, end)` from `num`, where bit
/// 0 is the most significant bit of the 32-bit word.
///
/// The bit range is a programming contract, never attacker-controlled:
/// callers must pass `start < end`.
pub fn get_bits_u32(num: u32, start: u8, end: u8) -> (res: u32)
    requires
        start < end,
        end <= 32,
        end - start < 32,
    ensures
        res == (num >> ((32 - end) as u32)) & (((1u32 << ((end - start) as u32)) - 1) as u32),
{
    let x: u32 = 32 - end as u32;
    let mut res: u32 = num >> x;
    let w: u32 = end as u32 - start as u32;
    assert(w < 32 ==> (1u32 << w) >= 1) by (bit_vector);
    res = res & ((1u32 << w) - 1);
    res
}

/// The big-endian 16-bit value of two bytes, as a mathematical integer.
pub open spec fn spec_u16_from_be(hi: u8, lo: u8) -> int {
    hi * 256 + lo
}

/// High byte of a 16-bit value in big-endian order.
pub open spec fn spec_u16_hi(x: u16) -> u8 {
    (x as int / 256) as u8
}

/// Low byte of a 16-bit value in big-endian order.
pub open spec fn spec_u16_lo(x: u16) -> u8 {
    (x as int % 256) as u8
}

/// Reads a big-endian 16-bit integer from two bytes.
pub fn u16_from_be(hi: u8, lo: u8) -> (r: u16)
    ensures
        r == spec_u16_from_be(hi, lo),
{
    hi as u16 * 256 + lo as u16
}

/// Splits a 16-bit integer into its big-endian bytes.
pub fn u16_to_be(x: u16) -> (r: (u8, u8))
    ensures
        r.0 == spec_u16_hi(x),
        r.1 == spec_u16_lo(x),
{
    ((x / 256) as u8, (x % 256) as u8)
}

/// Whether every byte of `b` is ASCII, that is, below 128.
pub fn all_ascii(b: &[u8]) -> (r: bool)
    ensures
        r == (forall|i: int| 0 <= i < b@.len() ==> b@[i] < 128),
{
    let mut i: usize = 0;
    while i < b.len()
        invariant
            i <= b@.len(),
            forall|j: int| 0 <= j < i ==> b@[j] < 128,
        decreases b@.len() - i,
    {
        if *vstd::slice::slice_index_get(b, i) >= 128 {
            return false;
        }
        i = i + 1;
    }
    true
}

/// Appends every byte of `src` to `dst`, in order.
pub fn push_all(dst: &mut Vec<u8>, src: &[u8])
    ensures
        final(dst)@ == old(dst)@ + src@,
{
    let mut i: usize = 0;
    while i < src.len()
        invariant
            i <= src@.len(),
            dst@ == old(dst)@ + src@.subrange(0, i as int),
        decreases src@.len() - i,
    {
        let b = *vstd::slice::slice_index_get(src, i);
        dst.push(b);
        i = i + 1;
        proof {
            assert(old(dst)@ + src@.subrange(0, i as int) =~= (old(dst)@ + src@.subrange(
                0,
                i - 1,
            )).push(src@[i - 1]));
        }
    }
    proof {
        assert(old(dst)@ + src@.subrange(0, src@.len() as int) =~= old(dst)@ + src@);
    }
}

/// Packing `a` above a remainder `b < m` and unpacking by division
/// recovers both parts: the generic step behind every field round trip.
pub proof fn lemma_pack_unpack(a: int, b: int, m: int)
    by (nonlinear_arith)
    requires
        m > 0,
        0 <= b < m,
        0 <= a,
    ensures
        (a * m + b) / m == a,
        (a * m + b) % m == b,
{
}

/// The two big-endian bytes of a 16-bit value reassemble to that value.
pub proof fn lemma_u16_be_round_trip(x: u16)
    ensures
        spec_u16_from_be(spec_u16_hi(x), spec_u16_lo(x)) == x,
{
    vstd::arithmetic::div_mod::lemma_fundamental_div_mod(x as int, 256);
}

/// Reading two bytes as a 16-bit value and splitting it again gives the
/// bytes back.
pub proof fn lemma_u16_be_inverse(hi: u8, lo: u8)
    ensures
        spec_u16_hi(spec_u16_from_be(hi, lo) as u16) == hi,
        spec_u16_lo(spec_u16_from_be(hi, lo) as u16) == lo,
{
    lemma_pack_unpack(hi as int, lo as int, 256);
}

} // verus!
