//! Little-endian byte strings and the integers they denote.

use vstd::arithmetic::power::*;
use vstd::prelude::*;

verus! {

/// The unsigned little-endian integer denoted by a byte string.
pub open spec fn le_value(s: Seq<u8>) -> nat
    decreases s.len(),
{
    if s.len() == 0 {
        0
    } else {
        s[0] as nat + 256 * le_value(s.drop_first())
    }
}

/// Concatenation: the high part is shifted by the length of the low part.
pub proof fn lemma_le_value_concat(a: Seq<u8>, b: Seq<u8>)
    ensures
        le_value(a + b) == le_value(a) + pow(256, a.len()) * le_value(b),
    decreases a.len(),
{
    if a.len() == 0 {
        assert(a + b =~= b);
        lemma_pow0(256);
    } else {
        assert((a + b).drop_first() =~= a.drop_first() + b);
        lemma_le_value_concat(a.drop_first(), b);
        lemma_pow_unfold(a.len());
        let t = pow(256, (a.len() - 1) as nat);
        assert(256 * (t * le_value(b)) == (256 * t) * le_value(b)) by (nonlinear_arith);
    }
}

/// `256^n = 256 * 256^(n-1)`.
pub proof fn lemma_pow_unfold(n: nat)
    requires
        n > 0,
    ensures
        pow(256, n) == 256 * pow(256, (n - 1) as nat),
{
    reveal(pow);
}

/// Two strings of one length that denote the same integer are equal.
pub proof fn lemma_le_value_injective(a: Seq<u8>, b: Seq<u8>)
    requires
        a.len() == b.len(),
        le_value(a) == le_value(b),
    ensures
        a == b,
    decreases a.len(),
{
    if a.len() > 0 {
        lemma_le_value_injective(a.drop_first(), b.drop_first());
        assert forall|i: int| 0 <= i < a.len() implies a[i] == b[i] by {
            if i > 0 {
                assert(a[i] == a.drop_first()[i - 1]);
                assert(b[i] == b.drop_first()[i - 1]);
            }
        }
    }
    assert(a =~= b);
}

/// A string of `n` bytes denotes a value below `256^n`.
pub proof fn lemma_le_value_bound(s: Seq<u8>)
    ensures
        le_value(s) < pow(256, s.len()),
    decreases s.len(),
{
    if s.len() == 0 {
        lemma_pow0(256);
    } else {
        lemma_le_value_bound(s.drop_first());
        lemma_pow_unfold(s.len());
    }
}

/// The first powers of 256.
pub proof fn lemma_pow256_values()
    ensures
        pow(256, 0) == 1,
        pow(256, 1) == 0x100,
        pow(256, 2) == 0x1_0000,
        pow(256, 3) == 0x100_0000,
        pow(256, 4) == 0x1_0000_0000,
        pow(256, 5) == 0x100_0000_0000,
        pow(256, 6) == 0x1_0000_0000_0000,
        pow(256, 7) == 0x100_0000_0000_0000,
        pow(256, 8) == 0x1_0000_0000_0000_0000,
{
    lemma_pow0(256);
    lemma_pow_unfold(1);
    lemma_pow_unfold(2);
    lemma_pow_unfold(3);
    lemma_pow_unfold(4);
    lemma_pow_unfold(5);
    lemma_pow_unfold(6);
    lemma_pow_unfold(7);
    lemma_pow_unfold(8);
}

/// Read `len <= 8` bytes at `start` as a little-endian word.
pub fn le_word(buf: &[u8], start: usize, len: usize) -> (r: u64)
    requires
        len <= 8,
        start + len <= buf@.len(),
    ensures
        r as nat == le_value(buf@.subrange(start as int, start + len)),
{
    let blen = buf.len();
    let mut w: u64 = 0;
    let mut j: usize = len;
    proof {
        lemma_pow256_values();
        assert(buf@.subrange(start + j, start + len).len() == 0);
    }
    while j > 0
        invariant
            j <= len <= 8,
            start + len <= buf@.len(),
            blen == buf@.len(),
            w as nat == le_value(buf@.subrange(start + j, start + len)),
            w < pow(256, (len - j) as nat),
            pow(256, 7) == 0x100_0000_0000_0000,
        decreases j,
    {
        let ghost old_j = j;
        proof {
            lemma_pow_increases(256, (len - j) as nat, 7);
            lemma_pow_unfold((len - j + 1) as nat);
            assert(buf@.subrange(start + j - 1, start + len).drop_first() =~= buf@.subrange(
                start + j,
                start + len,
            ));
        }
        w = w * 256 + buf[start + j - 1] as u64;
        j = j - 1;
    }
    w
}

/// The eight little-endian bytes of a word.
pub fn u64_to_le(x: u64) -> (r: [u8; 8])
    ensures
        le_value(r@) == x,
{
    let r = [
        x as u8,
        (x >> 8u64) as u8,
        (x >> 16u64) as u8,
        (x >> 24u64) as u8,
        (x >> 32u64) as u8,
        (x >> 40u64) as u8,
        (x >> 48u64) as u8,
        (x >> 56u64) as u8,
    ];
    proof {
        lemma_u64_bytes(x);
        reveal_with_fuel(le_value, 9);
        assert(r@.drop_first() =~= seq![r[1], r[2], r[3], r[4], r[5], r[6], r[7]]);
        assert(r@.drop_first().drop_first() =~= seq![r[2], r[3], r[4], r[5], r[6], r[7]]);
        assert(r@.drop_first().drop_first().drop_first() =~= seq![r[3], r[4], r[5], r[6], r[7]]);
        assert(r@.drop_first().drop_first().drop_first().drop_first() =~= seq![
            r[4],
            r[5],
            r[6],
            r[7],
        ]);
        assert(r@.drop_first().drop_first().drop_first().drop_first().drop_first() =~= seq![
            r[5],
            r[6],
            r[7],
        ]);
        assert(r@.drop_first().drop_first().drop_first().drop_first().drop_first().drop_first()
            =~= seq![r[6], r[7]]);
        assert(r@.drop_first().drop_first().drop_first().drop_first().drop_first().drop_first().drop_first()
            =~= seq![r[7]]);
        assert(r@.drop_first().drop_first().drop_first().drop_first().drop_first().drop_first().drop_first().drop_first()
            =~= Seq::<u8>::empty());
    }
    r
}

/// A word is the little-endian sum of its bytes.
pub proof fn lemma_u64_bytes(x: u64)
    by (bit_vector)
    ensures
        x == (x as u8) as u64 + 256 * (((x >> 8u64) as u8) as u64 + 256 * (((x >> 16u64) as u8) as u64
            + 256 * (((x >> 24u64) as u8) as u64 + 256 * (((x >> 32u64) as u8) as u64 + 256 * (((x
            >> 40u64) as u8) as u64 + 256 * (((x >> 48u64) as u8) as u64 + 256 * (((x >> 56u64)
            as u8) as u64))))))),
{
}

} // verus!
