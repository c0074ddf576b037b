//! Packing and unpacking of named sub-fields within a 32-bit register word,
//! and big-endian byte order for the data phase of a transaction.
//!
//! Every register accessor in `reg` is phrased over `spec_get` / `spec_set`,
//! so the round-trip and disjointness lemmas here state the codec contract
//! once for all register types.

use vstd::prelude::*;

verus! {

/// The mask with the low `width` bits set.
pub open spec fn spec_mask(width: u32) -> u32 {
    if width >= 32 {
        0xffff_ffffu32
    } else {
        ((1u32 << width) - 1) as u32
    }
}

/// The value of the field of `width` bits at offset `lo` within `bits`.
pub open spec fn spec_get(bits: u32, lo: u32, width: u32) -> u32
    recommends
        lo + width <= 32,
{
    (bits >> lo) & spec_mask(width)
}

/// `bits` with the field of `width` bits at offset `lo` replaced by the low
/// bits of `value`.  A value wider than the field is truncated to it.
pub open spec fn spec_set(bits: u32, lo: u32, width: u32, value: u32) -> u32
    recommends
        lo + width <= 32,
{
    (bits & !(spec_mask(width) << lo)) | ((value & spec_mask(width)) << lo)
}

/// The signed (two's complement) reading of a `width`-bit field value.
pub open spec fn spec_sign_extend(v: u32, width: u32) -> int
    recommends
        1 <= width <= 32,
        v <= spec_mask(width),
{
    if width >= 32 {
        if v >= 0x8000_0000u32 {
            v - 0x1_0000_0000
        } else {
            v as int
        }
    } else {
        if v >= (1u32 << (width - 1) as u32) {
            v - (1u32 << width)
        } else {
            v as int
        }
    }
}

/// The low `width` bits set, as an executable value.
pub fn mask(width: u32) -> (r: u32)
    requires
        1 <= width <= 32,
    ensures
        r == spec_mask(width),
{
    if width >= 32 {
        0xffff_ffffu32
    } else {
        proof {
            assert(width < 32 ==> 1u32 << width >= 1) by (bit_vector);
        }
        (1u32 << width) - 1
    }
}

/// Unpack the field of `width` bits at offset `lo` from `bits`.
pub fn get(bits: u32, lo: u32, width: u32) -> (r: u32)
    requires
        1 <= width,
        lo + width <= 32,
    ensures
        r == spec_get(bits, lo, width),
        r <= spec_mask(width),
{
    let m = mask(width);
    let r = (bits >> lo) & m;
    proof {
        assert((bits >> lo) & m <= m) by (bit_vector);
    }
    r
}

/// Pack the low `width` bits of `value` at offset `lo` into `bits`,
/// preserving every other bit.
pub fn set(bits: u32, lo: u32, width: u32, value: u32) -> (r: u32)
    requires
        1 <= width,
        lo + width <= 32,
    ensures
        r == spec_set(bits, lo, width, value),
{
    let m = mask(width);
    (bits & !(m << lo)) | ((value & m) << lo)
}

/// Read the `width`-bit field value `v` as a signed quantity.
pub fn sign_extend_i32(v: u32, width: u32) -> (r: i32)
    requires
        1 <= width <= 32,
        v <= spec_mask(width),
    ensures
        r as int == spec_sign_extend(v, width),
{
    let shift: u32 = 32 - width;
    let r = ((v << shift) as i32) >> shift;
    proof {
        assert(((v << shift) as i32) >> shift == spec_sign_extend(v, width)) by (bit_vector)
            requires
                1 <= width <= 32,
                shift + width == 32,
                v <= spec_mask(width),
        ;
    }
    r
}

/// Codec round-trip: unpacking a field that was just packed returns the
/// packed value, for every value that fits the declared width.
pub proof fn lemma_field_round_trip(bits: u32, lo: u32, width: u32, value: u32)
    by (bit_vector)
    requires
        1 <= width,
        lo + width <= 32,
        value <= spec_mask(width),
    ensures
        spec_get(spec_set(bits, lo, width, value), lo, width) == value,
{
}

/// Packing one field preserves every bit outside it, so fields at disjoint
/// bit ranges never disturb one another.
pub proof fn lemma_field_disjoint(bits: u32, lo1: u32, w1: u32, lo2: u32, w2: u32, value: u32)
    by (bit_vector)
    requires
        1 <= w1,
        lo1 + w1 <= 32,
        1 <= w2,
        lo2 + w2 <= 32,
        lo1 + w1 <= lo2 || lo2 + w2 <= lo1,
    ensures
        spec_get(spec_set(bits, lo2, w2, value), lo1, w1) == spec_get(bits, lo1, w1),
{
}

/// Packing a value wider than the field stores only its low `width` bits.
pub proof fn lemma_field_truncates(bits: u32, lo: u32, width: u32, value: u32)
    by (bit_vector)
    requires
        1 <= width,
        lo + width <= 32,
    ensures
        spec_set(bits, lo, width, value) == spec_set(bits, lo, width, value & spec_mask(width)),
{
}

/// The 32-bit word formed from the first four bytes of `b`, big-endian.
pub open spec fn spec_word_of_bytes(b: Seq<u8>) -> u32
    recommends
        b.len() >= 4,
{
    ((b[0] as u32) << 24) | ((b[1] as u32) << 16) | ((b[2] as u32) << 8) | (b[3] as u32)
}

/// The four big-endian bytes of the 32-bit word `w`.
pub open spec fn spec_bytes_of_word(w: u32) -> Seq<u8> {
    seq![(w >> 24) as u8, (w >> 16) as u8, (w >> 8) as u8, w as u8]
}

/// Serialize a 32-bit word as its four big-endian bytes.
pub fn bytes_of_word(w: u32) -> (r: Vec<u8>)
    ensures
        r@ == spec_bytes_of_word(w),
        r@.len() == 4,
{
    let mut r: Vec<u8> = Vec::new();
    r.push(#[verifier::truncate] ((w >> 24) as u8));
    r.push(#[verifier::truncate] ((w >> 16) as u8));
    r.push(#[verifier::truncate] ((w >> 8) as u8));
    r.push(#[verifier::truncate] (w as u8));
    proof {
        assert(r@ =~= spec_bytes_of_word(w));
    }
    r
}

/// Serializing a word and reading it back big-endian returns the word.
pub proof fn lemma_word_bytes_round_trip(w: u32)
    ensures
        spec_word_of_bytes(spec_bytes_of_word(w)) == w,
{
    let b = spec_bytes_of_word(w);
    assert(((((w >> 24) as u8) as u32) << 24) | ((((w >> 16) as u8) as u32) << 16) | ((((w
        >> 8) as u8) as u32) << 8) | ((w as u8) as u32) == w) by (bit_vector);
}

} // verus!
