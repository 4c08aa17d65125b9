//! Multi-word integer helpers: add with carry, subtract with borrow and
//! the full 64x64 -> 128 product.

use vstd::prelude::*;

verus! {

/// 2^64 as a mathematical integer.
pub open spec fn word() -> int {
    0x1_0000_0000_0000_0000
}

/// A 128-bit value splits into its low word and its high part.
pub proof fn lemma_u128_split(z: u128)
    by (bit_vector)
    ensures
        (z as u64) as int + (z >> 64u128) as int * 0x1_0000_0000_0000_0000int == z as int,
        (z >> 64u128) as int <= 0xffff_ffff_ffff_ffff,
{
}

/// Add with carry: returns `(d, cc)` with `d + 2^64 * cc == x + y + c`.
pub fn addcarry_u64(x: u64, y: u64, c: u8) -> (r: (u64, u8))
    requires
        c <= 1,
    ensures
        r.0 + r.1 * word() == x + y + c,
        r.1 <= 1,
{
    let z: u128 = (x as u128) + (y as u128) + (c as u128);
    proof {
        lemma_u128_split(z);
    }
    let hi: u128 = z >> 64u128;
    (z as u64, hi as u8)
}

/// Subtract with borrow: returns `(d, bb)` with `d - 2^64 * bb == x - y - c`.
pub fn subborrow_u64(x: u64, y: u64, c: u8) -> (r: (u64, u8))
    requires
        c <= 1,
    ensures
        r.0 - r.1 * word() == x - y - c,
        r.1 <= 1,
{
    let t: u128 = (x as u128) + 0x1_0000_0000_0000_0000u128 - (y as u128) - (c as u128);
    proof {
        lemma_u128_split(t);
    }
    let hi: u128 = t >> 64u128;
    (t as u64, (1 - hi) as u8)
}

/// Full product of two words: returns `(lo, hi)` with `lo + 2^64 * hi == x * y`.
pub fn umull(x: u64, y: u64) -> (r: (u64, u64))
    ensures
        r.0 + r.1 * word() == x * y,
{
    proof {
        assert((x as int) * (y as int) <= 0xffff_ffff_ffff_ffff * 0xffff_ffff_ffff_ffff)
            by (nonlinear_arith);
    }
    let z: u128 = (x as u128) * (y as u128);
    proof {
        lemma_u128_split(z);
    }
    (z as u64, (z >> 64u128) as u64)
}

/// The all-zero or all-one 64-bit mask of a carry bit.
pub fn mask64(c: u8) -> (m: u64)
    requires
        c <= 1,
    ensures
        c == 0 ==> m == 0,
        c == 1 ==> m == u64::MAX,
{
    0u64.wrapping_sub(c as u64)
}

/// Widening a 32-bit control word into a 64-bit one: `c | (c << 32)`.
pub open spec fn spread32(c: u32) -> u64 {
    (c as u64) | ((c as u64) << 32u64)
}

/// The 64-bit mask built from a 32-bit control word.
pub fn spread_mask(c: u32) -> (m: u64)
    ensures
        m == spread32(c),
        c == 0 ==> m == 0,
        c == 0xffff_ffff ==> m == u64::MAX,
{
    proof {
        lemma_spread32(c);
    }
    (c as u64) | ((c as u64) << 32u64)
}

/// The two control words that act as booleans spread to the two full masks.
pub proof fn lemma_spread32(c: u32)
    by (bit_vector)
    ensures
        c == 0 ==> (c as u64) | ((c as u64) << 32u64) == 0,
        c == 0xffff_ffffu32 ==> (c as u64) | ((c as u64) << 32u64) == 0xffff_ffff_ffff_ffffu64,
{
}

/// Masking with all zeros or all ones.
pub proof fn lemma_and_mask(x: u64)
    by (bit_vector)
    ensures
        x & 0 == 0,
        0 & x == 0,
        x & 0xffff_ffff_ffff_ffffu64 == x,
        0xffff_ffff_ffff_ffffu64 & x == x,
{
}

/// The branch-free select `a ^ (m & (a ^ b))` under the two full masks.
pub proof fn lemma_xor_select(a: u64, b: u64)
    by (bit_vector)
    ensures
        a ^ (0u64 & (a ^ b)) == a,
        a ^ (0xffff_ffff_ffff_ffffu64 & (a ^ b)) == b,
        b ^ (0xffff_ffff_ffff_ffffu64 & (a ^ b)) == a,
        b ^ (0u64 & (a ^ b)) == b,
{
}

/// A bitwise selection between two words below 2^63 is below 2^63.
pub proof fn lemma_select_below(a: u64, b: u64, c: u64)
    by (bit_vector)
    requires
        a < 0x8000_0000_0000_0000,
        b < 0x8000_0000_0000_0000,
    ensures
        a ^ (c & (a ^ b)) < 0x8000_0000_0000_0000,
{
}

/// Bitwise "and" of two bits is their product.
pub proof fn lemma_and_bits(a: u64, b: u64)
    by (bit_vector)
    requires
        a <= 1,
        b <= 1,
    ensures
        a & b == a * b,
{
}

/// The top bit of `t | -t` tells whether `t` is zero.
pub proof fn lemma_zero_test(t0: u64, n0: u64, t1: u64, n1: u64)
    by (bit_vector)
    requires
        n0 == (if t0 == 0 { 0u64 } else { (0x1_0000_0000_0000_0000 - t0) as u64 }),
        n1 == (if t1 == 0 { 0u64 } else { (0x1_0000_0000_0000_0000 - t1) as u64 }),
    ensures
        ((t0 | n0) & (t1 | n1)) >> 63u64 == (if t0 == 0 || t1 == 0 { 0u64 } else { 1u64 }),
{
}

/// Constant-time zero test of a pair of words: all-ones when either word is zero.
pub fn either_zero(t0: u64, t1: u64) -> (r: u32)
    ensures
        r == (if t0 == 0 || t1 == 0 { 0xffff_ffffu32 } else { 0u32 }),
{
    let n0 = 0u64.wrapping_sub(t0);
    let n1 = 0u64.wrapping_sub(t1);
    let r = (t0 | n0) & (t1 | n1);
    proof {
        lemma_zero_test(t0, n0, t1, n1);
    }
    ((r >> 63u64) as u32).wrapping_sub(1)
}

/// Two words are equal exactly when their exclusive or is zero.
pub proof fn lemma_xor_zero(a: u64, b: u64)
    by (bit_vector)
    ensures
        (a ^ b == 0) == (a == b),
{
}

/// The low bit and the remaining bits of a word.
pub proof fn lemma_low_bit(x: u64)
    by (bit_vector)
    ensures
        x & 1 == x % 2,
        x >> 1u64 == x / 2,
{
}

/// A word splits at bit 63.
pub proof fn lemma_top_split(x: u64)
    by (bit_vector)
    ensures
        x == (x & 0x7fff_ffff_ffff_ffffu64) + (x >> 63u64) * 0x8000_0000_0000_0000u64,
        x >> 63u64 <= 1,
        x & 0x7fff_ffff_ffff_ffffu64 < 0x8000_0000_0000_0000u64,
        x < 0x8000_0000_0000_0000u64 ==> x >> 63u64 == 0,
        x < 0x8000_0000_0000_0000u64 ==> x & 0x7fff_ffff_ffff_ffffu64 == x,
{
}

/// Joining the top bit of one word below the doubled low 63 bits of another.
pub proof fn lemma_join_shift1(a: u64, b: u64)
    by (bit_vector)
    ensures
        (a >> 63u64) | (b << 1u64) == (a >> 63u64) + 2 * (b & 0x7fff_ffff_ffff_ffffu64),
        (b << 1u64) | (a >> 63u64) == (a >> 63u64) + 2 * (b & 0x7fff_ffff_ffff_ffffu64),
{
}

/// Left shifts of a word by 1 to 5 bits, with the bits pushed out on top.
pub proof fn lemma_shl_words(x: u64)
    by (bit_vector)
    ensures
        (x << 1u64) as int + 0x1_0000_0000_0000_0000 * ((x >> 63u64) as int) == 2 * (x as int),
        (x << 2u64) as int + 0x1_0000_0000_0000_0000 * ((x >> 62u64) as int) == 4 * (x as int),
        (x << 3u64) as int + 0x1_0000_0000_0000_0000 * ((x >> 61u64) as int) == 8 * (x as int),
        (x << 4u64) as int + 0x1_0000_0000_0000_0000 * ((x >> 60u64) as int) == 16 * (x as int),
        (x << 5u64) as int + 0x1_0000_0000_0000_0000 * ((x >> 59u64) as int) == 32 * (x as int),
{
}

/// The bits shifted in from below do not overlap the shifted word.
pub proof fn lemma_shl_or(a: u64, b: u64)
    by (bit_vector)
    ensures
        (a << 1u64) | (b >> 63u64) == (a << 1u64) + (b >> 63u64),
        (a << 2u64) | (b >> 62u64) == (a << 2u64) + (b >> 62u64),
        (a << 3u64) | (b >> 61u64) == (a << 3u64) + (b >> 61u64),
        (a << 4u64) | (b >> 60u64) == (a << 4u64) + (b >> 60u64),
        (a << 5u64) | (b >> 59u64) == (a << 5u64) + (b >> 59u64),
{
}

/// An "or" of two words is zero exactly when both are.
pub proof fn lemma_or_zero(a: u64, b: u64)
    by (bit_vector)
    ensures
        (a | b == 0) == (a == 0 && b == 0),
{
}

/// Shifting a two-word integer right by one bit.
pub proof fn lemma_shr1_words(x0: u64, x1: u64)
    by (bit_vector)
    ensures
        (x0 >> 1u64) | (x1 << 63u64) == x0 / 2 + 0x8000_0000_0000_0000u64 * (x1 % 2),
        x1 >> 1u64 == x1 / 2,
{
}

} // verus!
