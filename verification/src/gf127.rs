//! The prime field GF(q) with q = 2^127 - 1.
//!
//! An element is held as two 64-bit words (low word first) whose value is
//! below 2^127; zero thus has two representations, 0 and q. All operations
//! are branch-free; the "boolean" results are 32-bit words equal to 0
//! (false) or 0xFFFFFFFF (true).

use crate::bytes::{le_value, le_word, lemma_le_value_concat, lemma_le_value_injective, lemma_pow256_values, u64_to_le};
use crate::carry::{
    addcarry_u64, either_zero, lemma_and_mask, lemma_join_shift1, lemma_low_bit, lemma_or_zero,
    lemma_select_below, lemma_shl_or, lemma_shl_words, lemma_shr1_words, lemma_top_split, lemma_xor_select, lemma_xor_zero, spread_mask,
    spread32, subborrow_u64, umull,
};
use crate::modpow::{
    batch_inverse_value, lemma_suffix_step, nz, prefix, suffix, lemma_add_residues, lemma_chain_values, lemma_mod_shift, lemma_mul_residues, lemma_pow_of_pow,
    lemma_pow_one, lemma_square_pow2, lemma_square_values,
};
use crate::primes::{factors_q, lemma_prime_q};
use crate::residues::{
    certified, is_power_mod, lemma_batch_inverse, lemma_div_cancel, lemma_euler_criterion,
    lemma_even_power_is_square, lemma_inverse, lemma_neg_even_power, lemma_power_witness,
    lemma_root_of_nonsquare, lemma_root_of_square,
};
use vstd::arithmetic::div_mod::*;
use vstd::arithmetic::power::*;
use vstd::arithmetic::power2::*;
use vstd::prelude::*;

verus! {

/// The modulus q = 2^127 - 1.
pub open spec fn q() -> int {
    0x7fff_ffff_ffff_ffff_ffff_ffff_ffff_ffff
}

/// 2^64.
pub open spec fn w() -> int {
    0x1_0000_0000_0000_0000
}

/// 2^127.
pub open spec fn two127() -> int {
    0x8000_0000_0000_0000_0000_0000_0000_0000
}

/// The inverse of 2 modulo q, that is (q + 1) / 2 = 2^126.
pub open spec fn half_q() -> int {
    0x4000_0000_0000_0000_0000_0000_0000_0000
}

/// The integer held by two words, low word first.
pub open spec fn words(x0: u64, x1: u64) -> int {
    x0 as int + x1 as int * w()
}

/// Of the two square roots c and q - c, the one that is even.
pub open spec fn even_root(c: int) -> int {
    if c % 2 == 0 {
        c
    } else {
        q() - c
    }
}

/// x^((q+1)/4) = x^(2^125), normalized to be even.
pub open spec fn sqrt_candidate(x: int) -> int {
    even_root(pow(x, 0x2000_0000_0000_0000_0000_0000_0000_0000) % q())
}

/// Whether the candidate square root squares back to `x`.
pub open spec fn sqrt_ok(x: int) -> bool {
    (sqrt_candidate(x) * sqrt_candidate(x)) % q() == x
}

/// The pair returned by the square root of an element of value `x`.
pub open spec fn sqrt_result(x: int, y: Gf127, r: u32) -> bool {
    &&& r == (if sqrt_ok(x) { 0xffff_ffffu32 } else { 0u32 })
    &&& y@ == (if sqrt_ok(x) { sqrt_candidate(x) } else { 0 })
    &&& !sqrt_ok(x) ==> y.raw() == 0
}

/// x^((q+1)/8) = x^(2^124), normalized to be even.
pub open spec fn fourth_root_candidate(x: int) -> int {
    even_root(pow(x, 0x1000_0000_0000_0000_0000_0000_0000_0000) % q())
}

/// x^((q+1)/16) = x^(2^123), normalized to be even.
pub open spec fn eighth_root_candidate(x: int) -> int {
    even_root(pow(x, 0x0800_0000_0000_0000_0000_0000_0000_0000) % q())
}

/// Euler's criterion value x^((q-1)/2) mod q.
pub open spec fn euler(x: int) -> int {
    pow(x, 0x3fff_ffff_ffff_ffff_ffff_ffff_ffff_ffff) % q()
}

/// The Legendre symbol as computed from Euler's criterion.
pub open spec fn legendre_of(x: int) -> int {
    if euler(x) == 1 {
        1
    } else if euler(x) == q() - 1 {
        -1
    } else {
        0
    }
}

/// The elements of a sequence, as values in 0..q-1.
pub open spec fn values(s: Seq<Gf127>) -> Seq<int> {
    s.map_values(|x: Gf127| x@)
}

/// The first index of the block of 200 elements that holds index `j`.
pub open spec fn block_start(j: int) -> int {
    j - j % 200
}

/// The end (exclusive) of the block of 200 elements that holds index `j`,
/// in a sequence of length `n`.
pub open spec fn block_end(j: int, n: int) -> int {
    if block_start(j) + 200 < n {
        block_start(j) + 200
    } else {
        n
    }
}

/// What `batch_invert` leaves at index `j`: the batch inversion value of
/// the element within its block of 200.
pub open spec fn batch_invert_value(s: Seq<Gf127>, j: int) -> int {
    batch_inverse_value(
        values(s.subrange(block_start(j), block_end(j, s.len() as int))),
        j - block_start(j),
        q(),
    )
}

/// One step of decoding: a value h with a 128-bit block l below it is
/// l + h * 2^128, and 2^128 is 2 modulo q.
proof fn lemma_decode_block(h: int, l: int)
    ensures
        (((2 * (h % q())) % q()) + l % q()) % q() == (l + h * 0x1_0000_0000_0000_0000_0000_0000_0000_0000)
            % q(),
{
    lemma_mul_residues(2, h, q());
    lemma_add_residues(2 * h, l, q());
    lemma_mod_shift(l + 2 * h, 2 * h, q());
    assert(l + h * 0x1_0000_0000_0000_0000_0000_0000_0000_0000 == l + 2 * h + (2 * h) * q());
}

/// Decoding one more 16-byte block below what was decoded so far.
proof fn lemma_decode_prepend(b: Seq<u8>, k: int, len: int, l: int)
    requires
        0 <= k,
        k + 16 <= len == b.len(),
        l == le_value(b.subrange(k, k + 16)),
        pow(256, 16) == 0x1_0000_0000_0000_0000_0000_0000_0000_0000,
    ensures
        (((2 * (le_value(b.subrange(k + 16, len)) as int % q())) % q()) + l % q()) % q()
            == le_value(b.subrange(k, len)) as int % q(),
{
    let lo = b.subrange(k, k + 16);
    let hi = b.subrange(k + 16, len);
    assert(b.subrange(k, len) =~= lo + hi);
    lemma_le_value_concat(lo, hi);
    lemma_decode_block(le_value(hi) as int, l);
}

/// q is an odd prime, with a Lucas certificate (witness 43) that lists
/// the factor 2 of q - 1 first.
pub proof fn lemma_q_certified()
    ensures
        certified(q(), 43, factors_q()),
{
    lemma_prime_q();
}

/// Fermat inversion: x^(q-2) is the inverse of a non-zero x, and 0 for 0.
pub proof fn lemma_inverse_mod_q(x: int)
    requires
        0 <= x < q(),
    ensures
        x != 0 ==> (x * (pow(x, (q() - 2) as nat) % q())) % q() == 1,
        x == 0 ==> pow(x, (q() - 2) as nat) % q() == 0,
{
    lemma_q_certified();
    if x != 0 {
        lemma_small_mod(x as nat, q() as nat);
        lemma_inverse(q(), 43, factors_q(), x);
    } else {
        lemma0_pow((q() - 2) as nat);
        lemma_small_mod(0, q() as nat);
    }
}

/// Division undoes multiplication: (x / y) * y = x for y != 0.
pub proof fn lemma_div_then_mul(x: int, y: int)
    requires
        0 <= x < q(),
        0 < y < q(),
    ensures
        (((x * (pow(y, (q() - 2) as nat) % q())) % q()) * y) % q() == x,
{
    lemma_q_certified();
    lemma_small_mod(y as nat, q() as nat);
    lemma_div_cancel(q(), 43, factors_q(), x, y);
}

/// Halving is division by 2: twice the half of x is x.
pub proof fn lemma_half_then_double(x: int)
    requires
        0 <= x < q(),
    ensures
        (2 * ((x * half_q()) % q())) % q() == x,
{
    lemma_mul_residues(2, x * half_q(), q());
    assert(2 * (x * half_q()) == x + x * q()) by (nonlinear_arith);
    lemma_mod_shift(x, x, q());
    lemma_small_mod(x as nat, q() as nat);
}

/// Decoding gives back what encoding wrote: an encoding holds a value
/// below the modulus, which decoding accepts as it is.
pub proof fn lemma_decode_encode(x: Gf127, b: Seq<u8>)
    requires
        le_value(b) as int == x@,
    ensures
        (le_value(b) as int) < q(),
        le_value(b) as int % q() == x@,
{
    x.lemma_view();
    lemma_small_mod(x@ as nat, q() as nat);
}

/// Encoding what decoding accepted gives back the same bytes: a
/// canonical string and the encoding of its value are equal.
pub proof fn lemma_encode_of_decode(b: Seq<u8>, x: Gf127, e: Seq<u8>)
    requires
        b.len() == 16,
        e.len() == 16,
        x@ == le_value(b) as int,
        le_value(e) as int == x@,
    ensures
        e == b,
{
    lemma_le_value_injective(e, b);
}

/// Subtraction is antisymmetric: x - y = -(y - x).
pub proof fn lemma_sub_antisymmetric(x: int, y: int)
    ensures
        (x - y) % q() == (-((y - x) % q())) % q(),
{
    let t = y - x;
    lemma_fundamental_div_mod(t, q());
    lemma_mod_multiples_vanish(t / q(), -t, q());
    assert(-(t % q()) == q() * (t / q()) + (-t));
}

/// Doubling is adding a value to itself.
pub proof fn lemma_double_is_sum(x: int)
    ensures
        (2 * x) % q() == (x + x) % q(),
{
}

/// The square root succeeds exactly on the squares.
pub proof fn lemma_sqrt_ok_iff_square(x: int)
    requires
        0 <= x < q(),
    ensures
        sqrt_ok(x) <==> is_power_mod(x, 2, q()),
{
    let e = 0x2000_0000_0000_0000_0000_0000_0000_0000nat;
    let c = pow(x, e) % q();
    let y = sqrt_candidate(x);
    lemma_mod_bound(pow(x, e), q());
    lemma_square_is_pow2(y);
    lemma_square_is_pow2(c);
    if is_power_mod(x, 2, q()) {
        lemma_q_certified();
        lemma_root_of_square(q(), 43, factors_q(), x, e, 2);
        lemma_neg_even_power(q(), c, 1);
    }
    if sqrt_ok(x) {
        lemma_power_witness(q(), x, y, 2);
    }
}

/// The candidate square root squares to x on a square and to -x on a
/// non-square.
pub proof fn lemma_sqrt_candidate_square(x: int)
    requires
        0 <= x < q(),
    ensures
        (sqrt_candidate(x) * sqrt_candidate(x)) % q() == (if is_power_mod(x, 2, q()) {
            x
        } else {
            q() - x
        }),
        sqrt_candidate(x) % 2 == 0,
{
    let e = 0x2000_0000_0000_0000_0000_0000_0000_0000nat;
    let c = pow(x, e) % q();
    let y = sqrt_candidate(x);
    lemma_mod_bound(pow(x, e), q());
    lemma_square_is_pow2(y);
    lemma_square_is_pow2(c);
    lemma_neg_even_power(q(), c, 1);
    lemma_q_certified();
    if is_power_mod(x, 2, q()) {
        lemma_root_of_square(q(), 43, factors_q(), x, e, 2);
    } else {
        lemma_root_of_nonsquare(q(), 43, factors_q(), x, e, 2);
    }
}

/// The Legendre symbol is 0 on zero, 1 on the non-zero squares and -1
/// on the non-squares.
pub proof fn lemma_legendre_of_square(x: int)
    requires
        0 <= x < q(),
    ensures
        legendre_of(x) == (if x == 0 {
            0
        } else if is_power_mod(x, 2, q()) {
            1
        } else {
            -1
        }),
{
    lemma_q_certified();
    lemma_euler_criterion(q(), 43, factors_q(), x);
}

/// The fourth root succeeds exactly on the fourth powers.
pub proof fn lemma_fourth_root_iff(x: int)
    requires
        0 <= x < q(),
    ensures
        (pow(fourth_root_candidate(x), 4) % q() == x) <==> is_power_mod(x, 4, q()),
{
    let e = 0x1000_0000_0000_0000_0000_0000_0000_0000nat;
    let c0 = pow(x, e) % q();
    let c = fourth_root_candidate(x);
    lemma_mod_bound(pow(x, e), q());
    if is_power_mod(x, 4, q()) {
        let y = choose|y: int| 0 <= y < q() && #[trigger] (pow(y, 4) % q()) == x;
        lemma_even_power_is_square(q(), x, y, 4);
        lemma_q_certified();
        lemma_root_of_square(q(), 43, factors_q(), x, e, 4);
        lemma_neg_even_power(q(), c0, 2);
    }
    if pow(c, 4) % q() == x {
        lemma_power_witness(q(), x, c, 4);
    }
}

/// The eighth root succeeds exactly on the eighth powers.
pub proof fn lemma_eighth_root_iff(x: int)
    requires
        0 <= x < q(),
    ensures
        (pow(eighth_root_candidate(x), 8) % q() == x) <==> is_power_mod(x, 8, q()),
{
    let e = 0x0800_0000_0000_0000_0000_0000_0000_0000nat;
    let c0 = pow(x, e) % q();
    let c = eighth_root_candidate(x);
    lemma_mod_bound(pow(x, e), q());
    if is_power_mod(x, 8, q()) {
        let y = choose|y: int| 0 <= y < q() && #[trigger] (pow(y, 8) % q()) == x;
        lemma_even_power_is_square(q(), x, y, 8);
        lemma_q_certified();
        lemma_root_of_square(q(), 43, factors_q(), x, e, 8);
        lemma_neg_even_power(q(), c0, 4);
    }
    if pow(c, 8) % q() == x {
        lemma_power_witness(q(), x, c, 8);
    }
}

/// Batch inversion agrees, at each index, with the inversion of the
/// element there.
pub proof fn lemma_batch_inverse_is_inverse(s: Seq<Gf127>)
    ensures
        forall|i: int|
            0 <= i < s.len() ==> batch_inverse_value(values(s), i, q()) == pow(
                #[trigger] s[i]@,
                (q() - 2) as nat,
            ) % q(),
{
    lemma_q_certified();
    assert forall|j: int| 0 <= j < values(s).len() implies 0 <= #[trigger] values(s)[j] < q() by {
        lemma_mod_bound(words(s[j].0[0], s[j].0[1]), q());
    }
    assert forall|i: int| 0 <= i < s.len() implies batch_inverse_value(values(s), i, q()) == pow(
        #[trigger] s[i]@,
        (q() - 2) as nat,
    ) % q() by {
        lemma_batch_inverse(q(), 43, factors_q(), values(s), i);
    }
}

/// Batch inversion by blocks agrees, at each index, with the inversion of
/// the element there.
pub proof fn lemma_batch_invert_is_inverse(s: Seq<Gf127>)
    ensures
        forall|j: int|
            0 <= j < s.len() ==> batch_invert_value(s, j) == pow(#[trigger] s[j]@, (q() - 2) as nat)
                % q(),
{
    assert forall|j: int| 0 <= j < s.len() implies batch_invert_value(s, j) == pow(
        #[trigger] s[j]@,
        (q() - 2) as nat,
    ) % q() by {
        let b = s.subrange(block_start(j), block_end(j, s.len() as int));
        lemma_batch_inverse_is_inverse(b);
        assert(b[j - block_start(j)] == s[j]);
    }
}

/// An element of GF(q).
#[derive(Clone, Copy, Debug)]
pub struct Gf127([u64; 2]);

impl View for Gf127 {
    type V = int;

    /// The element in 0..q-1 that the two words represent.
    closed spec fn view(&self) -> int {
        words(self.0[0], self.0[1]) % q()
    }
}

/// 2^127 is 1 modulo q.
proof fn lemma_fold(lo: int, hi: int)
    ensures
        (lo + hi * two127()) % q() == (lo + hi) % q(),
{
    lemma_mod_shift(lo + hi, hi, q());
}

impl Gf127 {
    /// The held integer is below 2^127.
    #[verifier::type_invariant]
    pub open spec fn reduced(self) -> bool {
        self.raw() < two127()
    }

    /// The integer in 0..2^127-1 that holds the element.
    pub closed spec fn raw(self) -> int {
        words(self.0[0], self.0[1])
    }

    /// The low word of the held integer.
    pub closed spec fn low_word(self) -> u64 {
        self.0[0]
    }

    /// The high word of the held integer.
    pub closed spec fn high_word(self) -> u64 {
        self.0[1]
    }

    /// Every element is its held integer taken modulo q. That integer is
    /// below 2^127 by the type invariant `reduced`, which a caller obtains
    /// with `use_type_invariant`.
    pub proof fn lemma_view(self)
        ensures
            0 <= self@ < q(),
            self@ == self.raw() % q(),
    {
    }

    // Element encoding length (in bytes).
    pub const ENCODED_LENGTH: usize = 16;

    pub const BIT_LENGTH: usize = 127;

    // Modulus q in base 2^64 (low-to-high order).
    pub const MODULUS: [u64; 2] = [0xFFFFFFFFFFFFFFFF, 0x7FFFFFFFFFFFFFFF];

    // Number of limbs
    pub const N: usize = 2;

    /// Build an element from two words already known to hold less than 2^127.
    fn from_words(x0: u64, x1: u64) -> (r: Self)
        requires
            x1 < 0x8000_0000_0000_0000,
        ensures
            r.raw() == words(x0, x1),
            r@ == words(x0, x1) % q(),
    {
        Gf127([x0, x1])
    }

    /// The element 0.
    pub fn zero() -> (r: Self)
        ensures
            r@ == 0,
            r.raw() == 0,
    {
        Gf127::from_words(0, 0)
    }

    /// The element 1.
    pub fn one() -> (r: Self)
        ensures
            r@ == 1,
    {
        Gf127::from_words(1, 0)
    }

    /// The element -1.
    pub fn minus_one() -> (r: Self)
        ensures
            r@ == q() - 1,
    {
        Gf127::from_words(0xFFFFFFFFFFFFFFFE, 0x7FFFFFFFFFFFFFFF)
    }

    /// The element 2.
    pub fn two() -> (r: Self)
        ensures
            r@ == 2,
    {
        Gf127::from_words(2, 0)
    }

    /// The element 3.
    pub fn three() -> (r: Self)
        ensures
            r@ == 3,
    {
        Gf127::from_words(3, 0)
    }

    /// The element 4.
    pub fn four() -> (r: Self)
        ensures
            r@ == 4,
    {
        Gf127::from_words(4, 0)
    }

    /// The inverse of 3.
    pub fn three_inv() -> (r: Self)
        ensures
            r@ == three_inv_value(),
            (3 * r@) % q() == 1,
    {
        Gf127::from_words(0x5555555555555555, 0x5555555555555555)
    }

    /// Fold the top bit of a value below 2^128 - 1 into the low bits:
    /// the result holds less than 2^127 and is congruent modulo q.
    fn fold127(d0: u64, d1: u64) -> (r: Self)
        requires
            words(d0, d1) <= 0xffff_ffff_ffff_ffff_ffff_ffff_ffff_fffe,
        ensures
            r@ == words(d0, d1) % q(),
    {
        proof {
            lemma_top_split(d1);
        }
        let m = (d1 >> 63u64) as u8;
        let d1 = d1 & 0x7FFFFFFFFFFFFFFF;
        let (d0, cc) = addcarry_u64(d0, 0, m);
        let (d1, _) = addcarry_u64(d1, 0, cc);
        proof {
            lemma_fold(words(d0, d1) - m, m as int);
        }
        Gf127::from_words(d0, d1)
    }

    /// Add hi * 2^128 to the value held by two words, and reduce the
    /// result so that it holds less than 2^127.
    fn reduce_small(x0: u64, x1: u64, hi: u64) -> (r: Self)
        requires
            hi < 0x8000_0000_0000_0000,
        ensures
            r@ == (words(x0, x1) + hi * w() * w()) % q(),
    {
        // Add hi*2^128 to the value, which modulo q is the same as
        // adding 2*hi; the top bit of x1 is folded at the same time.
        proof {
            lemma_join_shift1(x1, hi);
            lemma_top_split(x1);
            lemma_top_split(hi);
        }
        let h = (x1 >> 63u64) | (hi << 1u64);
        let x1m = x1 & 0x7FFFFFFFFFFFFFFF;
        let (d0, c0) = addcarry_u64(x0, h, 0);
        let (d1, c1) = addcarry_u64(x1m, 0, c0);
        // The top bit may be set again: fold it once more.
        proof {
            assert(words(x0, x1) + hi * w() * w() == words(x0, x1m) + h * two127());
            lemma_fold(words(x0, x1m), h as int);
            assert(c1 == 0);
            lemma_top_split(d1);
            lemma_join_shift1(d1, c1 as u64);
            lemma_top_split(c1 as u64);
        }
        let m = ((c1 as u64) << 1u64) | (d1 >> 63u64);
        let d1m = d1 & 0x7FFFFFFFFFFFFFFF;
        let (e0, c2) = addcarry_u64(d0, m, 0);
        let (e1, _) = addcarry_u64(d1m, 0, c2);
        proof {
            assert(words(d0, d1) == words(d0, d1m) + m * two127());
            assert(words(e0, e1) == words(d0, d1m) + m);
            lemma_fold(words(d0, d1m), m as int);
        }
        Gf127::from_words(e0, e1)
    }
}

/// Partial reduction of an arbitrary 128-bit integer: two folds of the
/// top bit leave a value below 2^127.
fn const_mred(a0: u64, a1: u64) -> (r: [u64; 2])
    ensures
        r[1] < 0x8000_0000_0000_0000,
        words(r[0], r[1]) % q() == words(a0, a1) % q(),
{
    // Add the 127th bit to the lower word using that 2^127 = 1 mod q
    proof {
        lemma_top_split(a1);
    }
    let m = a1 >> 63u64;
    let a1m = a1 & 0x7FFFFFFFFFFFFFFF;
    let (d0, c0) = addcarry_u64(a0, m, 0);
    let (d1, _) = addcarry_u64(a1m, 0, c0);
    proof {
        lemma_fold(words(a0, a1m), m as int);
        lemma_top_split(d1);
    }
    // May need to do this twice
    let m2 = d1 >> 63u64;
    let d1m = d1 & 0x7FFFFFFFFFFFFFFF;
    let (e0, c1) = addcarry_u64(d0, m2, 0);
    let (e1, _) = addcarry_u64(d1m, 0, c1);
    proof {
        lemma_fold(words(d0, d1m), m2 as int);
    }
    [e0, e1]
}

impl Gf127 {
    /// Get a new instance containing the provided 128-bit integer,
    /// which is implicitly reduced modulo q. All 128-bit values are
    /// accepted. This function expects the two 64-bit limbs in
    /// little-endian order.
    pub fn w64le(x0: u64, x1: u64) -> (r: Self)
        ensures
            r@ == words(x0, x1) % q(),
    {
        let d = const_mred(x0, x1);
        Gf127::from_words(d[0], d[1])
    }

    /// Get a new instance containing the provided 128-bit integer,
    /// which is implicitly reduced modulo q. All 128-bit values are
    /// accepted. This function expects the two 64-bit limbs in
    /// big-endian order.
    pub fn w64be(x1: u64, x0: u64) -> (r: Self)
        ensures
            r@ == words(x0, x1) % q(),
    {
        let d = const_mred(x0, x1);
        Gf127::from_words(d[0], d[1])
    }

    /// Get a new instance containing the provided 128-bit integer,
    /// which is implicitly reduced modulo q. All 128-bit values are
    /// accepted (low limb first).
    pub fn from_w64le(x0: u64, x1: u64) -> (r: Self)
        ensures
            r@ == words(x0, x1) % q(),
    {
        Gf127::reduce_small(x0, x1, 0)
    }

    /// Get a new instance containing the provided 128-bit integer,
    /// which is implicitly reduced modulo q. All 128-bit values are
    /// accepted (high limb first).
    pub fn from_w64be(x1: u64, x0: u64) -> (r: Self)
        ensures
            r@ == words(x0, x1) % q(),
    {
        Gf127::reduce_small(x0, x1, 0)
    }

    /// Add rhs to this value.
    fn set_add(&mut self, rhs: &Self)
        ensures
            final(self)@ == (old(self)@ + rhs@) % q(),
    {
        proof {
            use_type_invariant(&*self);
            use_type_invariant(rhs);
        }
        // Raw addition; the maximum value is 2*(2^127 - 1) = 2^128 - 2.
        let (d0, cc) = addcarry_u64(self.0[0], rhs.0[0], 0);
        let (d1, _) = addcarry_u64(self.0[1], rhs.0[1], cc);
        let r = Gf127::fold127(d0, d1);
        proof {
            lemma_add_residues(old(self).raw(), rhs.raw(), q());
        }
        *self = r;
    }

    /// Subtract rhs from this value.
    fn set_sub(&mut self, rhs: &Self)
        ensures
            final(self)@ == (old(self)@ - rhs@) % q(),
    {
        proof {
            use_type_invariant(&*self);
            use_type_invariant(rhs);
        }
        // Raw subtraction.
        let (d0, cc) = subborrow_u64(self.0[0], rhs.0[0], 0);
        let (d1, cc) = subborrow_u64(self.0[1], rhs.0[1], cc);
        // If the result is negative, we add q back
        let m = 0u64.wrapping_sub(cc as u64);
        proof {
            lemma_and_mask(Gf127::MODULUS[0]);
            lemma_and_mask(Gf127::MODULUS[1]);
        }
        let (e0, c1) = addcarry_u64(d0, Gf127::MODULUS[0] & m, 0);
        let (e1, _) = addcarry_u64(d1, Gf127::MODULUS[1] & m, c1);
        proof {
            let a = old(self).raw();
            let b = rhs.raw();
            assert(words(e0, e1) == a - b + cc * q());
            lemma_mod_shift(a - b, cc as int, q());
            lemma_sub_mod_noop(a, b, q());
        }
        *self = Gf127::from_words(e0, e1);
    }

    /// Negate this value (in place).
    pub fn set_neg(&mut self)
        ensures
            final(self)@ == (-old(self)@) % q(),
    {
        proof {
            use_type_invariant(&*self);
        }
        // q - self, with self in 0..2^127-1: no borrow can occur.
        let (d0, _) = subborrow_u64(Gf127::MODULUS[0], self.0[0], 0);
        let (d1, _) = subborrow_u64(Gf127::MODULUS[1], self.0[1], 0);
        proof {
            let a = old(self).raw();
            assert(words(d0, d1) == q() - a);
            lemma_mod_shift(-a, 1, q());
            lemma_sub_mod_noop(0, a, q());
        }
        *self = Gf127::from_words(d0, d1);
    }

    /// Conditionally copy the provided value ('a') into self:
    ///  - If ctl == 0xFFFFFFFF, then the value of 'a' is copied into self.
    ///  - If ctl == 0, then the value of self is unchanged.
    /// ctl MUST be equal to 0 or 0xFFFFFFFF.
    pub fn set_cond(&mut self, a: &Self, ctl: u32)
        requires
            ctl == 0 || ctl == 0xffff_ffff,
        ensures
            *final(self) == (if ctl == 0 { *old(self) } else { *a }),
    {
        proof {
            use_type_invariant(&*self);
            use_type_invariant(a);
        }
        let cw = spread_mask(ctl);
        proof {
            lemma_xor_select(self.0[0], a.0[0]);
            lemma_xor_select(self.0[1], a.0[1]);
        }
        let d0 = self.0[0] ^ (cw & (self.0[0] ^ a.0[0]));
        let d1 = self.0[1] ^ (cw & (self.0[1] ^ a.0[1]));
        *self = Gf127::from_words(d0, d1);
        proof {
            assert(self.0 =~= (if ctl == 0 { old(self).0 } else { a.0 }));
        }
    }

    /// Negate this value if ctl is 0xFFFFFFFF; leave it unchanged if
    /// ctl is 0x00000000.
    /// The value of ctl MUST be either 0x00000000 or 0xFFFFFFFF.
    pub fn set_condneg(&mut self, ctl: u32)
        requires
            ctl == 0 || ctl == 0xffff_ffff,
        ensures
            final(self)@ == (if ctl == 0 { old(self)@ } else { (-old(self)@) % q() }),
            ctl == 0 ==> *final(self) == *old(self),
    {
        let mut v = *self;
        v.set_neg();
        self.set_cond(&v, ctl);
    }

    /// Set this value to a (if ctl == 0) or b (if ctl == 0xFFFFFFFF).
    /// The value of ctl MUST be either 0x00000000 or 0xFFFFFFFF.
    pub fn set_select(&mut self, a: &Self, b: &Self, ctl: u32)
        ensures
            final(self).low_word() == a.low_word() ^ (spread32(ctl) & (a.low_word() ^ b.low_word())),
            final(self).high_word() == a.high_word() ^ (spread32(ctl) & (a.high_word() ^ b.high_word())),
            ctl == 0 ==> *final(self) == *a,
            ctl == 0xffff_ffff ==> *final(self) == *b,
    {
        proof {
            use_type_invariant(a);
            use_type_invariant(b);
        }
        let c = spread_mask(ctl);
        proof {
            lemma_xor_select(a.0[0], b.0[0]);
            lemma_xor_select(a.0[1], b.0[1]);
            lemma_select_below(a.0[1], b.0[1], c);
        }
        let d0 = a.0[0] ^ (c & (a.0[0] ^ b.0[0]));
        let d1 = a.0[1] ^ (c & (a.0[1] ^ b.0[1]));
        *self = Gf127::from_words(d0, d1);
        proof {
            if ctl == 0 {
                assert(self.0 =~= a.0);
            }
            if ctl == 0xffff_ffff {
                assert(self.0 =~= b.0);
            }
        }
    }

    /// Return a value equal to either a0 (if ctl == 0) or a1 (if
    /// ctl == 0xFFFFFFFF). Value ctl MUST be either 0 or 0xFFFFFFFF.
    pub fn select(a0: &Self, a1: &Self, ctl: u32) -> (r: Self)
        requires
            ctl == 0 || ctl == 0xffff_ffff,
        ensures
            r == (if ctl == 0 { *a0 } else { *a1 }),
    {
        let mut r = *a0;
        r.set_cond(a1, ctl);
        r
    }

    /// Conditionally swap two elements: values a and b are exchanged if
    /// ctl == 0xFFFFFFFF, or not exchanged if ctl == 0x00000000. Value
    /// ctl MUST be either 0x00000000 or 0xFFFFFFFF.
    pub fn condswap(a: &mut Self, b: &mut Self, ctl: u32)
        requires
            ctl == 0 || ctl == 0xffff_ffff,
        ensures
            *final(a) == (if ctl == 0 { *old(a) } else { *old(b) }),
            *final(b) == (if ctl == 0 { *old(b) } else { *old(a) }),
    {
        let a0 = *a;
        let b0 = *b;
        a.set_cond(&b0, ctl);
        b.set_cond(&a0, ctl);
    }

    /// Halve this value.
    pub fn set_half(&mut self)
        ensures
            final(self)@ == (old(self)@ * half_q()) % q(),
            (2 * final(self)@) % q() == old(self)@,
    {
        proof {
            self.lemma_view();
            lemma_half_then_double(self@);
            use_type_invariant(&*self);
            lemma_shr1_words(self.0[0], self.0[1]);
            lemma_low_bit(self.0[0]);
            lemma_and_mask(0x4000_0000_0000_0000u64);
        }
        // Right-shift the value by 1 bit.
        let d0 = (self.0[0] >> 1u64) | (self.0[1] << 63u64);
        let d1 = self.0[1] >> 1u64;
        // If the dropped bit was 1, then we got (x - 1)/2 and we need
        // to add 1/2 mod q = (q + 1)/2 = 2^126.
        let d1 = d1 + (0u64.wrapping_sub(self.0[0] & 1) & 0x4000_0000_0000_0000u64);
        proof {
            let x = old(self).raw();
            let t = (self.0[0] % 2) as int;
            let h = words(d0, d1);
            assert(h * 2 == x + t * q());
            assert(h * (q() + 1) == (x + t * q()) * half_q());
            lemma_mod_shift(h, h, q());
            lemma_mod_shift(x * half_q(), t * half_q(), q());
            lemma_mul_residues(x, half_q(), q());
        }
        *self = Gf127::from_words(d0, d1);
    }

    /// Return the half of this value.
    pub fn half(self) -> (r: Self)
        ensures
            r@ == (self@ * half_q()) % q(),
            (2 * r@) % q() == self@,
    {
        let mut r = self;
        r.set_half();
        r
    }
}

impl Gf127 {
    /// Multiply this value by 2.
    pub fn set_mul2(&mut self)
        ensures
            final(self)@ == (2 * old(self)@) % q(),
    {
        proof {
            use_type_invariant(&*self);
            lemma_shl_words(self.0[0]);
            lemma_shl_words(self.0[1]);
            lemma_shl_or(self.0[1], self.0[0]);
        }
        // Extract the top bits
        let tt = self.0[1] >> 63u64;
        // Shift left
        let d1 = (self.0[1] << 1u64) | (self.0[0] >> 63u64);
        let d0 = self.0[0] << 1u64;
        // Wrap around the extracted bits
        let r = Gf127::reduce_small(d0, d1, tt);
        proof {
            assert(words(d0, d1) + tt * w() * w() == 2 * old(self).raw());
            lemma_mul_residues(2, old(self).raw(), q());
        }
        *self = r;
    }

    /// Return this value multiplied by 2.
    pub fn mul2(self) -> (r: Self)
        ensures
            r@ == (2 * self@) % q(),
    {
        let mut r = self;
        r.set_mul2();
        r
    }

    /// Multiply this value by 4.
    pub fn set_mul4(&mut self)
        ensures
            final(self)@ == (4 * old(self)@) % q(),
    {
        proof {
            use_type_invariant(&*self);
            lemma_shl_words(self.0[0]);
            lemma_shl_words(self.0[1]);
            lemma_shl_or(self.0[1], self.0[0]);
        }
        // Extract the top bits
        let tt = self.0[1] >> 62u64;
        // Shift left
        let d1 = (self.0[1] << 2u64) | (self.0[0] >> 62u64);
        let d0 = self.0[0] << 2u64;
        // Wrap around the extracted bits
        let r = Gf127::reduce_small(d0, d1, tt);
        proof {
            assert(words(d0, d1) + tt * w() * w() == 4 * old(self).raw());
            lemma_mul_residues(4, old(self).raw(), q());
        }
        *self = r;
    }

    /// Return this value multiplied by 4.
    pub fn mul4(self) -> (r: Self)
        ensures
            r@ == (4 * self@) % q(),
    {
        let mut r = self;
        r.set_mul4();
        r
    }

    /// Multiply this value by 8.
    pub fn set_mul8(&mut self)
        ensures
            final(self)@ == (8 * old(self)@) % q(),
    {
        proof {
            use_type_invariant(&*self);
            lemma_shl_words(self.0[0]);
            lemma_shl_words(self.0[1]);
            lemma_shl_or(self.0[1], self.0[0]);
        }
        // Extract the top bits
        let tt = self.0[1] >> 61u64;
        // Shift left
        let d1 = (self.0[1] << 3u64) | (self.0[0] >> 61u64);
        let d0 = self.0[0] << 3u64;
        // Wrap around the extracted bits
        let r = Gf127::reduce_small(d0, d1, tt);
        proof {
            assert(words(d0, d1) + tt * w() * w() == 8 * old(self).raw());
            lemma_mul_residues(8, old(self).raw(), q());
        }
        *self = r;
    }

    /// Return this value multiplied by 8.
    pub fn mul8(self) -> (r: Self)
        ensures
            r@ == (8 * self@) % q(),
    {
        let mut r = self;
        r.set_mul8();
        r
    }

    /// Multiply this value by 16.
    pub fn set_mul16(&mut self)
        ensures
            final(self)@ == (16 * old(self)@) % q(),
    {
        proof {
            use_type_invariant(&*self);
            lemma_shl_words(self.0[0]);
            lemma_shl_words(self.0[1]);
            lemma_shl_or(self.0[1], self.0[0]);
        }
        // Extract the top bits
        let tt = self.0[1] >> 60u64;
        // Shift left
        let d1 = (self.0[1] << 4u64) | (self.0[0] >> 60u64);
        let d0 = self.0[0] << 4u64;
        // Wrap around the extracted bits
        let r = Gf127::reduce_small(d0, d1, tt);
        proof {
            assert(words(d0, d1) + tt * w() * w() == 16 * old(self).raw());
            lemma_mul_residues(16, old(self).raw(), q());
        }
        *self = r;
    }

    /// Return this value multiplied by 16.
    pub fn mul16(self) -> (r: Self)
        ensures
            r@ == (16 * self@) % q(),
    {
        let mut r = self;
        r.set_mul16();
        r
    }

    /// Multiply this value by 32.
    pub fn set_mul32(&mut self)
        ensures
            final(self)@ == (32 * old(self)@) % q(),
    {
        proof {
            use_type_invariant(&*self);
            lemma_shl_words(self.0[0]);
            lemma_shl_words(self.0[1]);
            lemma_shl_or(self.0[1], self.0[0]);
        }
        // Extract the top bits
        let tt = self.0[1] >> 59u64;
        // Shift left
        let d1 = (self.0[1] << 5u64) | (self.0[0] >> 59u64);
        let d0 = self.0[0] << 5u64;
        // Wrap around the extracted bits
        let r = Gf127::reduce_small(d0, d1, tt);
        proof {
            assert(words(d0, d1) + tt * w() * w() == 32 * old(self).raw());
            lemma_mul_residues(32, old(self).raw(), q());
        }
        *self = r;
    }

    /// Return this value multiplied by 32.
    pub fn mul32(self) -> (r: Self)
        ensures
            r@ == (32 * self@) % q(),
    {
        let mut r = self;
        r.set_mul32();
        r
    }

    /// Multiply this value by a small integer.
    pub fn set_mul_small(&mut self, x: u32)
        ensures
            final(self)@ == (old(self)@ * x) % q(),
    {
        proof {
            use_type_invariant(&*self);
        }
        let b = x as u64;
        // Compute the product as an integer over three words; the top
        // word is at most 2^31 - 1.
        let (d0, d1) = umull(self.0[0], b);
        let (lo, d2) = umull(self.0[1], b);
        proof {
            assert((self.0[1] as int) * (b as int) < 0x8000_0000_0000_0000 * 0x1_0000_0000)
                by (nonlinear_arith)
                requires
                    self.0[1] < 0x8000_0000_0000_0000,
                    b < 0x1_0000_0000,
            ;
        }
        let (d1, cc) = addcarry_u64(d1, lo, 0);
        let (d2, _) = addcarry_u64(d2, 0, cc);
        let r = Gf127::reduce_small(d0, d1, d2);
        proof {
            let a0 = old(self).0[0] as int;
            let a1 = old(self).0[1] as int;
            assert(words(d0, d1) + d2 * w() * w() == a0 * x + (a1 * x) * w());
            assert(a0 * x + (a1 * x) * w() == (a0 + a1 * w()) * x) by (nonlinear_arith);
            lemma_mul_residues(old(self).raw(), x as int, q());
        }
        *self = r;
    }

    /// Return this value multiplied by a small integer.
    pub fn mul_small(self, x: u32) -> (r: Self)
        ensures
            r@ == (self@ * x) % q(),
    {
        let mut r = self;
        r.set_mul_small(x);
        r
    }

    /// Reduce a product held in four words: with e = elo + 2^127 * ehi
    /// (elo the low 127 bits), e = elo + ehi (mod q).
    fn reduce_product(e0: u64, e1: u64, e2: u64, e3: u64) -> (r: Self)
        requires
            e3 < 0x4000_0000_0000_0000,
        ensures
            r@ == (words(e0, e1) + words(e2, e3) * w() * w()) % q(),
    {
        proof {
            lemma_top_split(e1);
            lemma_top_split(e2);
            lemma_top_split(e3);
            lemma_join_shift1(e1, e2);
            lemma_join_shift1(e2, e3);
        }
        // elo is the lowest 127 bits of e
        let f0 = e0;
        let f1 = e1 & 0x7FFFFFFFFFFFFFFF;
        // ehi are the top bits.
        let g0 = (e1 >> 63u64) | (e2 << 1u64);
        let g1 = (e2 >> 63u64) | (e3 << 1u64);
        proof {
            assert(words(e0, e1) + words(e2, e3) * w() * w() == words(f0, f1) + words(g0, g1)
                * two127());
            lemma_fold(words(f0, f1), words(g0, g1));
        }
        // elo + ehi, then one last reduction
        let (d0, cc) = addcarry_u64(f0, g0, 0);
        let (d1, _) = addcarry_u64(f1, g1, cc);
        Gf127::fold127(d0, d1)
    }

    /// Multiply this value by rhs.
    fn set_mul(&mut self, rhs: &Self)
        ensures
            final(self)@ == (old(self)@ * rhs@) % q(),
    {
        proof {
            use_type_invariant(&*self);
            use_type_invariant(rhs);
        }
        let (a0, a1) = (self.0[0], self.0[1]);
        let (b0, b1) = (rhs.0[0], rhs.0[1]);
        // Schoolbook Product
        let (e0, e1) = umull(a0, b0);
        let (e2, e3) = umull(a1, b1);
        let (lo, hi) = umull(a0, b1);
        let (lo2, hi2) = umull(a1, b0);
        let (lo, cc) = addcarry_u64(lo, lo2, 0);
        let (hi, tt) = addcarry_u64(hi, hi2, cc);
        proof {
            lemma_two_word_product(a0 as int, a1 as int, b0 as int, b1 as int);
        }
        let (e1, cc) = addcarry_u64(e1, lo, 0);
        let (e2, cc) = addcarry_u64(e2, hi, cc);
        let (e3, _) = addcarry_u64(e3, tt as u64, cc);
        proof {
            lemma_mul_residues(old(self).raw(), rhs.raw(), q());
        }
        *self = Gf127::reduce_product(e0, e1, e2, e3);
    }

    /// Square this value (in place).
    pub fn set_square(&mut self)
        ensures
            final(self)@ == (old(self)@ * old(self)@) % q(),
    {
        proof {
            use_type_invariant(&*self);
        }
        let (a0, a1) = (self.0[0], self.0[1]);
        // Double the middle piece a0*a1
        let (m1, m2) = umull(a0, a1);
        proof {
            lemma_shl_words(m1);
            lemma_shl_words(m2);
            lemma_shl_or(m2, m1);
        }
        let e3 = m2 >> 63u64;
        let e2 = (m2 << 1u64) | (m1 >> 63u64);
        let e1 = m1 << 1u64;
        let (e0, hi) = umull(a0, a0);
        let (e1, cc) = addcarry_u64(e1, hi, 0);
        let (lo, hi) = umull(a1, a1);
        proof {
            lemma_two_word_product(a0 as int, a1 as int, a0 as int, a1 as int);
        }
        let (e2, cc) = addcarry_u64(e2, lo, cc);
        let (e3, _) = addcarry_u64(e3, hi, cc);
        proof {
            lemma_mul_residues(old(self).raw(), old(self).raw(), q());
        }
        *self = Gf127::reduce_product(e0, e1, e2, e3);
    }

    /// Square this value.
    pub fn square(self) -> (r: Self)
        ensures
            r@ == (self@ * self@) % q(),
    {
        let mut r = self;
        r.set_square();
        r
    }

    /// Square this value n times (in place).
    fn set_xsquare(&mut self, n: u32)
        ensures
            final(self)@ == pow(old(self)@, pow2(n as nat)) % q(),
            n == 0 ==> *final(self) == *old(self),
    {
        let ghost x = self@;
        proof {
            lemma_pow_one(x, q());
        }
        let mut i: u32 = 0;
        while i < n
            invariant
                i <= n,
                self@ == pow(x, pow2(i as nat)) % q(),
                i == 0 ==> *self == *old(self),
            decreases n - i,
        {
            let ghost y = self@;
            self.set_square();
            proof {
                lemma_square_pow2(y, x, i as nat, q());
            }
            i = i + 1;
        }
    }

    /// Square this value n times.
    pub fn xsquare(self, n: u32) -> (r: Self)
        ensures
            r@ == pow(self@, pow2(n as nat)) % q(),
            n == 0 ==> r == self,
    {
        let mut r = self;
        r.set_xsquare(n);
        r
    }

    /// Multiply this value by 1/3 mod q.
    pub fn set_mul3_inv(&mut self)
        ensures
            final(self)@ == (old(self)@ * three_inv_value()) % q(),
            (3 * final(self)@) % q() == old(self)@,
    {
        let ghost a = self@;
        self.set_mul(&Gf127::three_inv());
        proof {
            lemma_third(a);
        }
    }

    /// Return this value multiplied by 1/3 mod q.
    pub fn mul3_inv(self) -> (r: Self)
        ensures
            r@ == (self@ * three_inv_value()) % q(),
            (3 * r@) % q() == self@,
    {
        let mut r = self;
        r.set_mul3_inv();
        r
    }
}

/// Three times a third is the element itself.
proof fn lemma_third(a: int)
    requires
        0 <= a < q(),
    ensures
        (3 * ((a * three_inv_value()) % q())) % q() == a,
{
    let t = three_inv_value();
    assert(3 * t == 1 + 2 * q());
    lemma_mul_residues(3, a * t, q());
    assert(3 * (a * t) == a + (2 * a) * q()) by (nonlinear_arith)
        requires
            3 * t == 1 + 2 * q(),
    ;
    lemma_mod_shift(a, 2 * a, q());
    lemma_small_mod(a as nat, q() as nat);
}

impl Gf127 {
    /// The product of two elements.
    fn product(self, rhs: Self) -> (r: Self)
        ensures
            r@ == (self@ * rhs@) % q(),
    {
        let mut r = self;
        r.set_mul(&rhs);
        r
    }

    /// The only issue we have is when self = 2^127 - 1, in which case we
    /// want to subtract q: the representation q is swapped for zero.
    fn set_normalized(&mut self)
        ensures
            final(self)@ == old(self)@,
            final(self).raw() == old(self)@,
    {
        proof {
            use_type_invariant(&*self);
            lemma_xor_zero(self.0[0], Gf127::MODULUS[0]);
            lemma_xor_zero(self.0[1], Gf127::MODULUS[1]);
            lemma_or_zero(self.0[0] ^ Gf127::MODULUS[0], self.0[1] ^ Gf127::MODULUS[1]);
        }
        let t: u64 = (self.0[0] ^ Gf127::MODULUS[0]) | (self.0[1] ^ Gf127::MODULUS[1]);
        let c: u32 = either_zero(t, t);
        proof {
            let x = self.raw();
            if x == q() {
                lemma_mod_shift(0, 1, q());
            } else {
                lemma_small_mod(x as nat, q() as nat);
            }
        }
        self.set_cond(&Gf127::zero(), c);
    }

    /// The control word 0xFFFFFFFF when the element (in 0..q-1) is odd, 0 when even.
    fn odd_mask(self) -> (c: u32)
        ensures
            c == (if self@ % 2 == 0 { 0u32 } else { 0xffff_ffffu32 }),
    {
        let mut yn = self;
        yn.set_normalized();
        proof {
            lemma_low_bit(yn.0[0]);
            lemma_mod_shift(yn.0[0] as int, yn.0[1] * 0x8000_0000_0000_0000, 2);
        }
        0u32.wrapping_sub((yn.0[0] & 1) as u32)
    }

    /// Replace this value by whichever of itself and its opposite is even.
    fn set_even(&mut self)
        ensures
            final(self)@ == even_root(old(self)@),
    {
        let ctl = self.odd_mask();
        proof {
            if self@ % 2 != 0 {
                lemma_mod_shift(-self@, 1, q());
                lemma_small_mod((q() - self@) as nat, q() as nat);
            }
        }
        self.set_condneg(ctl);
    }

    /// Compute a^((q-3)/4) = a^(2^125 - 1), used for inversion and
    /// Legendre to compute a^(q-2) and a^((q-1)/2)
    fn set_exp_p_minus_three_div_four(&mut self)
        ensures
            final(self)@ == pow(old(self)@, 0x1fff_ffff_ffff_ffff_ffff_ffff_ffff_ffff) % q(),
    {
        let x = *self;
        let ghost v = x@;
        proof {
            lemma_pow_one(v, q());
            lemma_small_mod(v as nat, q() as nat);
            lemma2_to64();
        }
        let s = x.square();
        let x2 = x.product(s);
        proof {
            lemma_square_values(v, v, v, s@, x2@, 1, 1, q());
        }
        let s = x2.square();
        let x3 = x.product(s);
        proof {
            lemma_square_values(v, x2@, v, s@, x3@, 3, 1, q());
        }
        let s = x3.xsquare(2);
        let x5 = x2.product(s);
        proof {
            lemma_chain_values(v, x3@, x2@, s@, x5@, 7, 2, 3, q());
        }
        let s = x5.xsquare(5);
        let x10 = x5.product(s);
        proof {
            lemma_chain_values(v, x5@, x5@, s@, x10@, 31, 5, 31, q());
        }
        let s = x10.xsquare(5);
        let x15 = x5.product(s);
        proof {
            lemma_chain_values(v, x10@, x5@, s@, x15@, 0x3ff, 5, 31, q());
        }
        let s = x15.xsquare(15);
        let x30 = x15.product(s);
        proof {
            lemma_chain_values(v, x15@, x15@, s@, x30@, 0x7fff, 15, 0x7fff, q());
        }
        let s = x30.xsquare(30);
        let x60 = x30.product(s);
        proof {
            lemma_chain_values(v, x30@, x30@, s@, x60@, 0x3fff_ffff, 30, 0x3fff_ffff, q());
        }
        let s = x60.xsquare(60);
        let x120 = x60.product(s);
        proof {
            lemma_chain_values(
                v,
                x60@,
                x60@,
                s@,
                x120@,
                0xfff_ffff_ffff_ffff,
                60,
                0xfff_ffff_ffff_ffff,
                q(),
            );
        }
        let s = x120.xsquare(5);
        let r = x5.product(s);
        proof {
            lemma2_to64_rest();
            lemma_chain_values(v, x120@, x5@, s@, r@, 0xff_ffff_ffff_ffff_ffff_ffff_ffff_ffff, 5, 31, q());
        }
        *self = r;
    }

    /// Invert this value (zero is left unchanged): x^(q-2).
    pub fn set_invert(&mut self)
        ensures
            final(self)@ == pow(old(self)@, (q() - 2) as nat) % q(),
            old(self)@ != 0 ==> (old(self)@ * final(self)@) % q() == 1,
            old(self)@ == 0 ==> final(self)@ == 0,
    {
        let mut x = *self;
        let ghost v = x@;
        proof {
            lemma_mod_bound(words(self.0[0], self.0[1]), q());
            lemma_inverse_mod_q(v);
        }
        x.set_exp_p_minus_three_div_four();
        let x1 = x;
        x.set_xsquare(2);
        self.set_mul(&x);
        proof {
            lemma_pow_one(v, q());
            lemma_small_mod(v as nat, q() as nat);
            lemma2_to64();
            lemma_chain_values(v, x1@, v, x@, self@, 0x1fff_ffff_ffff_ffff_ffff_ffff_ffff_ffff, 2, 1, q());
        }
    }

    /// Return the inverse of this value (zero for zero): x^(q-2).
    pub fn invert(self) -> (r: Self)
        ensures
            r@ == pow(self@, (q() - 2) as nat) % q(),
            self@ != 0 ==> (self@ * r@) % q() == 1,
            self@ == 0 ==> r@ == 0,
    {
        let mut r = self;
        r.set_invert();
        r
    }

    /// Divide this value by y (multiply by y^(q-2)).
    pub fn set_div(&mut self, y: &Self)
        ensures
            final(self)@ == (old(self)@ * (pow(y@, (q() - 2) as nat) % q())) % q(),
            y@ != 0 ==> (final(self)@ * y@) % q() == old(self)@,
    {
        proof {
            self.lemma_view();
            y.lemma_view();
            if y@ != 0 {
                lemma_div_then_mul(self@, y@);
            }
        }
        let y_inv = y.invert();
        self.set_mul(&y_inv)
    }

    /// Equality check between two field elements (constant-time);
    /// returned value is 0xFFFFFFFF on equality, 0 otherwise.
    pub fn equals(self, rhs: &Self) -> (r: u32)
        ensures
            r == (if self@ == rhs@ { 0xffff_ffffu32 } else { 0u32 }),
    {
        let mut d = self;
        d.set_sub(rhs);
        proof {
            lemma_small_difference(self@, rhs@);
        }
        d.iszero()
    }

    /// Compare this value with zero (constant-time); returned value
    /// is 0xFFFFFFFF if this element is zero, 0 otherwise.
    pub fn iszero(self) -> (r: u32)
        ensures
            r == (if self@ == 0 { 0xffff_ffffu32 } else { 0u32 }),
    {
        proof {
            use_type_invariant(&self);
            lemma_or_zero(self.0[0], self.0[1]);
            lemma_xor_zero(self.0[0], Gf127::MODULUS[0]);
            lemma_xor_zero(self.0[1], Gf127::MODULUS[1]);
            lemma_or_zero(self.0[0] ^ Gf127::MODULUS[0], self.0[1] ^ Gf127::MODULUS[1]);
            let x = self.raw();
            if x >= q() {
                lemma_mod_shift(x - q(), 1, q());
                lemma_small_mod((x - q()) as nat, q() as nat);
            } else {
                lemma_small_mod(x as nat, q() as nat);
            }
        }
        // There are two possible representations for 0: 0 and q.
        let a0 = self.0[0];
        let a1 = self.0[1];
        let t0 = a0 | a1;
        let t1 = (a0 ^ Gf127::MODULUS[0]) | (a1 ^ Gf127::MODULUS[1]);
        either_zero(t0, t1)
    }

    /// Get the "hash" of the value (low 64 bits of the held integer).
    pub fn hashcode(self) -> (r: u64)
        ensures
            r == self.low_word(),
    {
        self.0[0]
    }

    /// Legendre symbol of this value: 0 for zero, 1 for a non-zero square
    /// and -1 otherwise, computed as x^((q-1)/2).
    pub fn legendre(self) -> (r: i32)
        ensures
            r as int == legendre_of(self@),
            r == (if self@ == 0 {
                0i32
            } else if is_power_mod(self@, 2, q()) {
                1i32
            } else {
                -1i32
            }),
    {
        proof {
            lemma_mod_bound(words(self.0[0], self.0[1]), q());
            lemma_legendre_of_square(self@);
        }
        let mut l = self;
        l.set_exp_p_minus_three_div_four();
        let l0 = l;
        l.set_square();
        let s = l;
        l.set_mul(&self);
        proof {
            lemma_pow_one(self@, q());
            lemma_small_mod(self@ as nat, q() as nat);
            assert(l@ == (s@ * self@) % q());
            assert(s@ * self@ == self@ * s@) by (nonlinear_arith);
            lemma_square_values(self@, l0@, self@, s@, l@, 0x1fff_ffff_ffff_ffff_ffff_ffff_ffff_ffff, 1, q());
            lemma_u32_low_bit();
        }
        let c1 = l.equals(&Gf127::one());
        let c2 = l.equals(&Gf127::minus_one());
        let cc1 = (c1 & 1) as i32;
        let cc2 = (c2 & 1) as i32;
        cc1 - cc2
    }

    /// Square root of this value, returned as (y, r). When the check
    /// succeeds, r is 0xFFFFFFFF and y squares back to this value. In all
    /// cases y is x^((q+1)/4) normalized so that its least significant bit
    /// (in 0..q-1) is 0, and r reports whether y^2 equals this value.
    pub fn sqrt_ext(self) -> (r: (Self, u32))
        ensures
            r.0@ == sqrt_candidate(self@),
            r.1 == (if sqrt_ok(self@) { 0xffff_ffffu32 } else { 0u32 }),
            (r.1 == 0xffff_ffff) == is_power_mod(self@, 2, q()),
            (r.0@ * r.0@) % q() == (if r.1 == 0xffff_ffff { self@ } else { q() - self@ }),
            r.0@ % 2 == 0,
    {
        proof {
            lemma_mod_bound(words(self.0[0], self.0[1]), q());
            lemma_sqrt_ok_iff_square(self@);
            lemma_sqrt_candidate_square(self@);
        }
        // Candidate root is self^((q+1)/4); (q+1)/4 = 2^125
        let mut y = self.xsquare(125);
        proof {
            lemma_pow2_large();
        }
        y.set_even();
        // Check that the candidate is indeed a square root.
        let r = y.square().equals(&self);
        (y, r)
    }

    /// Square root of this value, returned as (y, r): if the check
    /// succeeds, y is the square root whose least significant bit (in
    /// 0..q-1) is 0 and r is 0xFFFFFFFF; otherwise y is zero and r is 0.
    pub fn sqrt(self) -> (r: (Self, u32))
        ensures
            sqrt_result(self@, r.0, r.1),
            (r.1 == 0xffff_ffff) == is_power_mod(self@, 2, q()),
            r.0@ % 2 == 0,
    {
        proof {
            lemma_mod_bound(words(self.0[0], self.0[1]), q());
            lemma_sqrt_ok_iff_square(self@);
        }
        let (mut y, r) = self.sqrt_ext();
        proof {
            lemma_u32_not();
        }
        y.set_cond(&Gf127::zero(), !r);
        (y, r)
    }

    /// Fourth root of this value. Returned value is 0xFFFFFFFF if
    /// the operation succeeded (value was indeed some element to the power of four), or
    /// 0x00000000 otherwise. On success, the chosen root is the one whose
    /// least significant bit (as an integer in [0..q-1]) is zero. On
    /// failure, the returned root is 0.
    pub fn fourth_root(self) -> (r: (Self, u32))
        ensures
            ({
                let c = fourth_root_candidate(self@);
                &&& r.1 == (if pow(c, 4) % q() == self@ { 0xffff_ffffu32 } else { 0u32 })
                &&& r.0@ == (if pow(c, 4) % q() == self@ { c } else { 0 })
            }),
            (r.1 == 0xffff_ffff) == is_power_mod(self@, 4, q()),
            r.1 == 0xffff_ffff ==> pow(r.0@, 4) % q() == self@ && r.0@ % 2 == 0,
            r.1 == 0 ==> r.0.raw() == 0,
    {
        proof {
            lemma_mod_bound(words(self.0[0], self.0[1]), q());
            lemma_fourth_root_iff(self@);
        }
        // Candidate root is self^((q+1)/8); (q+1)/8 = 2^124
        let mut y = self.xsquare(124);
        proof {
            lemma_pow2_large();
        }
        y.set_even();
        // Check that the candidate is indeed a fourth root.
        let r = y.xsquare(2).equals(&self);
        proof {
            lemma2_to64();
            lemma_u32_not();
        }
        y.set_cond(&Gf127::zero(), !r);
        (y, r)
    }

    /// Eighth root of this value. Returned value is 0xFFFFFFFF if
    /// the operation succeeded (value was indeed some element to the power of eight), or
    /// 0x00000000 otherwise. On success, the chosen root is the one whose
    /// least significant bit (as an integer in [0..q-1]) is zero. On
    /// failure, the returned root is 0.
    pub fn eighth_root(self) -> (r: (Self, u32))
        ensures
            ({
                let c = eighth_root_candidate(self@);
                &&& r.1 == (if pow(c, 8) % q() == self@ { 0xffff_ffffu32 } else { 0u32 })
                &&& r.0@ == (if pow(c, 8) % q() == self@ { c } else { 0 })
            }),
            (r.1 == 0xffff_ffff) == is_power_mod(self@, 8, q()),
            r.1 == 0xffff_ffff ==> pow(r.0@, 8) % q() == self@ && r.0@ % 2 == 0,
            r.1 == 0 ==> r.0.raw() == 0,
    {
        proof {
            lemma_mod_bound(words(self.0[0], self.0[1]), q());
            lemma_eighth_root_iff(self@);
        }
        // Candidate root is self^((q+1)/16); (q+1)/16 = 2^123
        let mut y = self.xsquare(123);
        proof {
            lemma_pow2_large();
        }
        y.set_even();
        // Check that the candidate is indeed an eighth root.
        let r = y.xsquare(3).equals(&self);
        proof {
            lemma2_to64();
            lemma_u32_not();
        }
        y.set_cond(&Gf127::zero(), !r);
        (y, r)
    }
}

impl Gf127 {
    /// Encode this value over exactly 16 bytes. Encoding is always canonical
    /// (little-endian encoding of the value in the 0..q-1 range).
    pub fn encode16(self) -> (r: [u8; 16])
        ensures
            le_value(r@) as int == self@,
    {
        let mut n = self;
        n.set_normalized();
        let b0 = u64_to_le(n.0[0]);
        let b1 = u64_to_le(n.0[1]);
        let mut d = [0u8; 16];
        let mut i: usize = 0;
        while i < 8
            invariant
                i <= 8,
                forall|j: int| 0 <= j < i ==> d@[j] == b0@[j] && d@[j + 8] == b1@[j],
            decreases 8 - i,
        {
            d[i] = b0[i];
            d[i + 8] = b1[i];
            i = i + 1;
        }
        proof {
            assert(d@ =~= b0@ + b1@);
            lemma_le_value_concat(b0@, b1@);
            lemma_pow256_values();
        }
        d
    }

    /// Encode this value over exactly 16 bytes (canonical encoding).
    pub fn encode(self) -> (r: [u8; 16])
        ensures
            le_value(r@) as int == self@,
    {
        self.encode16()
    }

    /// The integer held by 16 bytes at `k`, as two little-endian words.
    fn read16(buf: &[u8], k: usize) -> (r: (u64, u64))
        requires
            k + 16 <= buf@.len(),
        ensures
            words(r.0, r.1) == le_value(buf@.subrange(k as int, k + 16)),
    {
        let _len = buf.len();
        let x0 = le_word(buf, k, 8);
        let x1 = le_word(buf, k + 8, 8);
        proof {
            assert(buf@.subrange(k as int, k + 16) =~= buf@.subrange(k as int, k + 8) + buf@.subrange(
                k + 8,
                k + 16,
            ));
            lemma_le_value_concat(buf@.subrange(k as int, k + 8), buf@.subrange(k + 8, k + 16));
            lemma_pow256_values();
        }
        (x0, x1)
    }

    /// Decode the field element from the provided bytes. If the source
    /// slice does not have length exactly 16 bytes, or if the encoding
    /// is non-canonical (i.e. does not represent an integer in the 0
    /// to q-1 range), then this element is set to zero, and 0 is returned.
    /// Otherwise, this element is set to the decoded value, and 0xFFFFFFFF
    /// is returned.
    pub fn set_decode_ct(&mut self, buf: &[u8]) -> (r: u32)
        ensures
            buf@.len() != 16 ==> r == 0 && final(self)@ == 0,
            buf@.len() == 16 ==> r == (if (le_value(buf@) as int) < q() { 0xffff_ffffu32 } else { 0u32 }),
            buf@.len() == 16 ==> final(self)@ == (if (le_value(buf@) as int) < q() { le_value(buf@) as int } else { 0 }),
            r == 0 ==> final(self).raw() == 0,
    {
        if buf.len() != 16 {
            *self = Gf127::zero();
            return 0;
        }
        let (x0, x1) = Gf127::read16(buf, 0);
        proof {
            assert(buf@.subrange(0, 16) =~= buf@);
        }
        // Try to subtract q from the value; if that does not yield a
        // borrow, then the encoding was not canonical.
        let (_, cc) = subborrow_u64(x0, Gf127::MODULUS[0], 0);
        let (_, cc) = subborrow_u64(x1, Gf127::MODULUS[1], cc);
        // Clear the value if not canonical.
        let m = 0u64.wrapping_sub(cc as u64);
        proof {
            lemma_and_mask(x0);
            lemma_and_mask(x1);
            if cc == 1 {
                lemma_small_mod(words(x0, x1) as nat, q() as nat);
            }
        }
        *self = Gf127::from_words(x0 & m, x1 & m);
        0u32.wrapping_sub(cc as u32)
    }

    /// Decode a field element from 16 bytes. On success, this returns
    /// (r, cc), where cc has value 0xFFFFFFFF. If the source encoding is
    /// not canonical (the unsigned little-endian integer is not lower
    /// than q) or does not have 16 bytes, then this returns (0, 0).
    pub fn decode(buf: &[u8]) -> (r: (Self, u32))
        ensures
            buf@.len() != 16 ==> r.1 == 0 && r.0@ == 0,
            buf@.len() == 16 ==> r.1 == (if (le_value(buf@) as int) < q() { 0xffff_ffffu32 } else { 0u32 }),
            buf@.len() == 16 ==> r.0@ == (if (le_value(buf@) as int) < q() { le_value(buf@) as int } else { 0 }),
            r.1 == 0 ==> r.0.raw() == 0,
    {
        let mut r = Gf127::zero();
        let cc = r.set_decode_ct(buf);
        (r, cc)
    }

    /// Decode a field element from 16 bytes (see `decode`).
    pub fn decode16(buf: &[u8]) -> (r: (Self, u32))
        ensures
            buf@.len() != 16 ==> r.1 == 0 && r.0@ == 0,
            buf@.len() == 16 ==> r.1 == (if (le_value(buf@) as int) < q() { 0xffff_ffffu32 } else { 0u32 }),
            buf@.len() == 16 ==> r.0@ == (if (le_value(buf@) as int) < q() { le_value(buf@) as int } else { 0 }),
            r.1 == 0 ==> r.0.raw() == 0,
    {
        Gf127::decode(buf)
    }

    /// Take in the 16-byte block at `k`, below the bytes decoded so far:
    /// x <- 2^128 * x + block, with 2^128 = 2 (mod q).
    fn absorb_block(&mut self, buf: &[u8], k: usize)
        requires
            k + 16 <= buf@.len(),
            old(self)@ == le_value(buf@.subrange(k + 16, buf@.len() as int)) as int % q(),
        ensures
            final(self)@ == le_value(buf@.subrange(k as int, buf@.len() as int)) as int % q(),
    {
        let (x0, x1) = Gf127::read16(buf, k);
        let v = Gf127::from_w64le(x0, x1);
        self.set_mul2();
        self.set_add(&v);
        proof {
            lemma_pow256_values();
            vstd::arithmetic::power::lemma_pow_adds(256, 8, 8);
            lemma_decode_prepend(buf@, k as int, buf@.len() as int, words(x0, x1));
        }
    }

    /// Decode a field element from some bytes. The bytes are interpreted
    /// in unsigned little-endian convention, and the resulting integer
    /// is reduced modulo q. This process never fails.
    pub fn set_decode_reduce(&mut self, buf: &[u8])
        ensures
            final(self)@ == le_value(buf@) as int % q(),
    {
        let len = buf.len();
        *self = Gf127::zero();
        if len == 0 {
            return ;
        }
        let mut n = len;
        proof {
            lemma_pow256_values();
            vstd::arithmetic::power::lemma_pow_adds(256, 8, 8);
        }
        if n % 16 != 0 {
            // If input size is not a multiple of 16, then we decode a
            // partial block and the value is already less than 2^127.
            let k = n - n % 16;
            let t = n - k;
            let l0 = if t < 8 { t } else { 8 };
            let x0 = le_word(buf, k, l0);
            let x1 = le_word(buf, k + l0, t - l0);
            proof {
                let lo = buf@.subrange(k as int, k + l0);
                let hi = buf@.subrange(k + l0, len as int);
                assert(buf@.subrange(k as int, len as int) =~= lo + hi);
                lemma_le_value_concat(lo, hi);
            }
            n = k;
            *self = Gf127::from_w64le(x0, x1);
        } else {
            // If input size is a multiple of 16, then we decode a full
            // 16-byte block, and we must reduce it.
            n = n - 16;
            let (x0, x1) = Gf127::read16(buf, n);
            *self = Gf127::from_w64le(x0, x1);
        }
        // Process all remaining blocks, in descending address order:
        // x <- 2^128 * x + block, with 2^128 = 2 (mod q).
        while n > 0
            invariant
                n <= len,
                len == buf@.len(),
                n % 16 == 0,
                self@ == le_value(buf@.subrange(n as int, len as int)) as int % q(),
            decreases n,
        {
            n = n - 16;
            self.absorb_block(buf, n);
        }
        proof {
            assert(buf@.subrange(0, len as int) =~= buf@);
        }
    }

    /// Decode a field element from some bytes. The bytes are interpreted
    /// in unsigned little-endian convention, and the resulting integer
    /// is reduced modulo q. This process never fails.
    pub fn decode_reduce(buf: &[u8]) -> (r: Self)
        ensures
            r@ == le_value(buf@) as int % q(),
    {
        let mut r = Gf127::zero();
        r.set_decode_reduce(buf);
        r
    }
}

impl Gf127 {
    /// Square roots of all elements of an array: entry `i` is what
    /// `inputs[i].sqrt()` returns. The 125 squarings are done one round
    /// at a time over all entries.
    pub fn batch_sqrt<const N: usize>(inputs: &[Self; N]) -> (r: [(Self, u32); N])
        ensures
            forall|i: int| 0 <= i < N ==> sqrt_result(inputs@[i]@, (#[trigger] r@[i]).0, r@[i].1),
            forall|i: int|
                0 <= i < N ==> ((#[trigger] r@[i]).1 == 0xffff_ffff) == is_power_mod(inputs@[i]@, 2, q()),
    {
        proof {
            assert forall|i: int| 0 <= i < N implies sqrt_ok(#[trigger] inputs@[i]@) == is_power_mod(
                inputs@[i]@,
                2,
                q(),
            ) by {
                lemma_mod_bound(words(inputs@[i].0[0], inputs@[i].0[1]), q());
                lemma_sqrt_ok_iff_square(inputs@[i]@);
            }
        }
        let mut y = *inputs;
        proof {
            assert forall|i: int| 0 <= i < N implies (#[trigger] y@[i])@ == pow(inputs@[i]@, pow2(0))
                % q() by {
                lemma_pow_one(inputs@[i]@, q());
                lemma_small_mod(inputs@[i]@ as nat, q() as nat);
            }
        }
        // Candidate root is self^((q+1)/4); (q+1)/4 = 2^125
        let mut k: u32 = 0;
        while k < 125
            invariant
                k <= 125,
                forall|i: int| 0 <= i < N ==> (#[trigger] y@[i])@ == pow(inputs@[i]@, pow2(k as nat)) % q(),
            decreases 125 - k,
        {
            let ghost before = y;
            let mut i: usize = 0;
            while i < N
                invariant
                    i <= N,
                    forall|j: int| 0 <= j < i ==> (#[trigger] y@[j])@ == (before@[j]@ * before@[j]@) % q(),
                    forall|j: int| i <= j < N ==> #[trigger] y@[j] == before@[j],
                decreases N - i,
            {
                let mut t = y[i];
                t.set_square();
                y[i] = t;
                i = i + 1;
            }
            proof {
                assert forall|j: int| 0 <= j < N implies (#[trigger] y@[j])@ == pow(
                    inputs@[j]@,
                    pow2((k + 1) as nat),
                ) % q() by {
                    lemma_square_pow2(before@[j]@, inputs@[j]@, k as nat, q());
                }
            }
            k = k + 1;
        }
        proof {
            lemma_pow2_large();
            lemma_u32_not();
        }
        let mut results = [(Gf127::zero(), 0u32); N];
        let mut i: usize = 0;
        while i < N
            invariant
                i <= N,
                pow2(125) == 0x2000_0000_0000_0000_0000_0000_0000_0000,
                forall|j: int| 0 <= j < N ==> (#[trigger] y@[j])@ == pow(inputs@[j]@, pow2(125)) % q(),
                forall|j: int|
                    0 <= j < i ==> sqrt_result(inputs@[j]@, (#[trigger] results@[j]).0, results@[j].1),
            decreases N - i,
        {
            // Normalize y and negate it if necessary to set the low bit to 0.
            let mut yi = y[i];
            yi.set_even();
            // Check that the candidate is indeed a square root.
            let r = yi.square().equals(&inputs[i]);
            proof {
                lemma_u32_not();
            }
            yi.set_cond(&Gf127::zero(), !r);
            results[i] = (yi, r);
            i = i + 1;
        }
        results
    }

    /// Batch inversion with Montgomery's trick: entry `i` of the result
    /// is computed from one field inversion of the product of all
    /// (non-zero) inputs. Zero inputs give zero.
    pub fn batch_invert_fixed<const N: usize>(inputs: &[Self; N]) -> (r: [Self; N])
        ensures
            forall|i: int|
                0 <= i < N ==> (#[trigger] r@[i])@ == batch_inverse_value(values(inputs@), i, q()),
            forall|i: int|
                0 <= i < N ==> (#[trigger] r@[i])@ == pow(inputs@[i]@, (q() - 2) as nat) % q(),
    {
        let r = Gf127::montgomery_invert(inputs);
        proof {
            lemma_batch_inverse_is_inverse(inputs@);
        }
        r
    }

    /// Montgomery's trick: running products, one inversion, and a backward
    /// pass; zero inputs give zero.
    fn montgomery_invert<const N: usize>(inputs: &[Self; N]) -> (r: [Self; N])
        ensures
            forall|i: int|
                0 <= i < N ==> (#[trigger] r@[i])@ == batch_inverse_value(values(inputs@), i, q()),
    {
        if N == 0 {
            return [Gf127::zero(); N];
        }
        let mut tmp_inputs = *inputs;
        let mut is_zero_mask = [0u32; N];
        let one = Gf127::one();
        let mut i: usize = 0;
        while i < N
            invariant
                i <= N,
                one@ == 1,
                forall|j: int| 0 <= j < i ==> (#[trigger] tmp_inputs@[j])@ == nz(values(inputs@)[j]),
                forall|j: int| i <= j < N ==> #[trigger] tmp_inputs@[j] == inputs@[j],
                forall|j: int|
                    0 <= j < i ==> (#[trigger] is_zero_mask@[j]) == (if inputs@[j]@ == 0 {
                        0xffff_ffffu32
                    } else {
                        0u32
                    }),
            decreases N - i,
        {
            let z = tmp_inputs[i].iszero();
            is_zero_mask[i] = z;
            let mut t = tmp_inputs[i];
            t.set_cond(&one, z);
            tmp_inputs[i] = t;
            i = i + 1;
        }
        let mut scratch = [Gf127::zero(); N];
        scratch[0] = tmp_inputs[0];
        proof {
            reveal_with_fuel(prefix, 2);
            assert(values(inputs@)[0] == inputs@[0]@);
            lemma_small_mod(nz(values(inputs@)[0]) as nat, q() as nat);
        }
        let mut i: usize = 1;
        while i < N
            invariant
                1 <= i <= N,
                forall|j: int| 0 <= j < N ==> (#[trigger] tmp_inputs@[j])@ == nz(values(inputs@)[j]),
                forall|j: int|
                    0 <= j < i ==> (#[trigger] scratch@[j])@ == prefix(values(inputs@), j + 1, q()),
            decreases N - i,
        {
            let v = scratch[i - 1].product(tmp_inputs[i]);
            scratch[i] = v;
            i = i + 1;
        }
        let mut inv = scratch[N - 1].invert();
        let mut results = [Gf127::zero(); N];
        let zero = Gf127::zero();
        let ghost a = pow(prefix(values(inputs@), N as int, q()), (q() - 2) as nat) % q();
        assert(inputs@.len() == N);
        let mut i: usize = N - 1;
        proof {
            lemma_small_mod(a as nat, q() as nat);
        }
        while i > 0
            invariant
                i < N,
                zero@ == 0,
                inputs@.len() == N,
                a == pow(prefix(values(inputs@), N as int, q()), (q() - 2) as nat) % q(),
                forall|j: int| 0 <= j < N ==> (#[trigger] tmp_inputs@[j])@ == nz(values(inputs@)[j]),
                forall|j: int|
                    0 <= j < N ==> (#[trigger] scratch@[j])@ == prefix(values(inputs@), j + 1, q()),
                forall|j: int|
                    0 <= j < N ==> (#[trigger] is_zero_mask@[j]) == (if inputs@[j]@ == 0 {
                        0xffff_ffffu32
                    } else {
                        0u32
                    }),
                inv@ == (a * suffix(values(inputs@), i + 1, q())) % q(),
                forall|j: int|
                    i < j < N ==> (#[trigger] results@[j])@ == batch_inverse_value(values(inputs@), j, q()),
            decreases i,
        {
            let mut res = scratch[i - 1].product(inv);
            res.set_cond(&zero, is_zero_mask[i]);
            proof {
                assert(values(inputs@)[i as int] == inputs@[i as int]@);
            }
            results[i] = res;
            let ninv = inv.product(tmp_inputs[i]);
            proof {
                lemma_suffix_step(values(inputs@), i as int, a, inv@, q());
            }
            inv = ninv;
            i = i - 1;
        }
        inv.set_cond(&zero, is_zero_mask[0]);
        results[0] = inv;
        proof {
            assert(values(inputs@)[0] == inputs@[0]@);
            assert(prefix(values(inputs@), 0, q()) == 1);
            lemma_small_mod(inv@ as nat, q() as nat);
        }
        results
    }
}

impl Gf127 {
    /// The running products of a block of `blen` elements starting at `i`,
    /// zeros counted as ones.
    fn block_prefixes(xx: &[Self], i: usize, blen: usize) -> (tt: [Self; 200])
        requires
            1 <= blen <= 200,
            i + blen <= xx@.len(),
        ensures
            forall|t: int|
                0 <= t < blen ==> (#[trigger] tt@[t])@ == prefix(
                    values(xx@.subrange(i as int, i + blen)),
                    t + 1,
                    q(),
                ),
    {
        let ghost blk = values(xx@.subrange(i as int, i + blen));
        let n = xx.len();
        let one = Gf127::one();
        let mut tt = [Gf127::zero(); 200];
        let mut t0 = xx[i];
        let zz0 = t0.iszero();
        t0.set_cond(&one, zz0);
        tt[0] = t0;
        proof {
            reveal_with_fuel(prefix, 2);
            assert(blk[0] == xx@[i as int]@);
            lemma_small_mod(nz(blk[0]) as nat, q() as nat);
        }
        let mut j: usize = 1;
        while j < blen
            invariant
                1 <= j <= blen <= 200,
                i + blen <= xx@.len(),
                n == xx@.len(),
                one@ == 1,
                blk == values(xx@.subrange(i as int, i + blen)),
                forall|t: int| 0 <= t < j ==> (#[trigger] tt@[t])@ == prefix(blk, t + 1, q()),
            decreases blen - j,
        {
            let mut t = xx[i + j];
            let z = t.iszero();
            t.set_cond(&one, z);
            let prev = tt[j - 1];
            t.set_mul(&prev);
            proof {
                assert(blk[j as int] == xx@[i + j]@);
                assert(nz(blk[j as int]) * prefix(blk, j as int, q()) == prefix(blk, j as int, q())
                    * nz(blk[j as int])) by (nonlinear_arith);
            }
            tt[j] = t;
            j = j + 1;
        }
        tt
    }

    /// Invert the block of `blen` elements starting at `i` with
    /// Montgomery's trick; other elements are left unchanged.
    fn invert_block(xx: &mut [Self], i: usize, blen: usize)
        requires
            1 <= blen <= 200,
            i + blen <= old(xx)@.len(),
        ensures
            final(xx)@.len() == old(xx)@.len(),
            forall|t: int|
                0 <= t < blen ==> (#[trigger] final(xx)@[i + t])@ == batch_inverse_value(
                    values(old(xx)@.subrange(i as int, i + blen)),
                    t,
                    q(),
                ),
            forall|t: int|
                0 <= t < old(xx)@.len() && (t < i || t >= i + blen) ==> #[trigger] final(xx)@[t]
                    == old(xx)@[t],
    {
        let ghost blk = values(xx@.subrange(i as int, i + blen));
        let ghost before = xx@;
        let n = xx.len();
        let one = Gf127::one();
        let tt = Gf127::block_prefixes(xx, i, blen);
        let mut k = one;
        let last = tt[blen - 1];
        k.set_div(&last);
        let ghost a = pow(prefix(blk, blen as int, q()), (q() - 2) as nat) % q();
        proof {
            assert(last@ == prefix(blk, blen as int, q()));
            lemma_small_mod(a as nat, q() as nat);
            assert(suffix(blk, blen as int, q()) == 1);
            assert(k@ == (1 * a) % q());
            assert(k@ == (a * suffix(blk, blen as int, q())) % q());
        }
        let mut j: usize = blen - 1;
        while j > 0
            invariant
                j < blen <= 200,
                i + blen <= n,
                n == xx@.len(),
                n == before.len(),
                one@ == 1,
                blk == values(before.subrange(i as int, i + blen)),
                a == pow(prefix(blk, blen as int, q()), (q() - 2) as nat) % q(),
                forall|t: int| 0 <= t < blen ==> (#[trigger] tt@[t])@ == prefix(blk, t + 1, q()),
                k@ == (a * suffix(blk, j + 1, q())) % q(),
                forall|t: int| 0 <= t <= j ==> #[trigger] xx@[i + t] == before[i + t],
                forall|t: int|
                    j < t < blen ==> (#[trigger] xx@[i + t])@ == batch_inverse_value(blk, t, q()),
                forall|t: int|
                    0 <= t < n && (t < i || t >= i + blen) ==> #[trigger] xx@[t] == before[t],
            decreases j,
        {
            let mut x = xx[i + j];
            let zz = x.iszero();
            x.set_cond(&one, zz);
            let pk = k.product(tt[j - 1]);
            let mut cur = xx[i + j];
            proof {
                lemma_u32_not();
                assert(blk[j as int] == before[i + j]@);
                let pre = prefix(blk, j as int, q());
                assert(k@ * pre == pre * k@) by (nonlinear_arith);
            }
            cur.set_cond(&pk, !zz);
            xx[i + j] = cur;
            proof {
                lemma_suffix_step(blk, j as int, a, k@, q());
            }
            k.set_mul(&x);
            j = j - 1;
        }
        let mut c0 = xx[i];
        let zz0 = c0.iszero();
        proof {
            lemma_u32_not();
            assert(blk[0] == before[i as int]@);
            lemma_small_mod(k@ as nat, q() as nat);
            assert(prefix(blk, 0, q()) == 1);
        }
        c0.set_cond(&k, !zz0);
        xx[i] = c0;
        proof {
            assert(xx@[i + 0] == xx@[i as int]);
        }
    }

    /// Perform a batch inversion of some elements. All elements of the
    /// slice are replaced with their respective inverse (elements of value
    /// zero are "inverted" into themselves). Montgomery's trick is applied
    /// to blocks of 200 elements:
    ///   1/u = v*(1/(u*v))
    ///   1/v = u*(1/(u*v))
    /// so that a block costs a single inversion in the field.
    pub fn batch_invert(xx: &mut [Self])
        ensures
            final(xx)@.len() == old(xx)@.len(),
            forall|j: int|
                0 <= j < old(xx)@.len() ==> (#[trigger] final(xx)@[j])@ == batch_invert_value(
                    old(xx)@,
                    j,
                ),
            forall|j: int|
                0 <= j < old(xx)@.len() ==> (#[trigger] final(xx)@[j])@ == pow(old(xx)@[j]@, (q() - 2) as nat)
                    % q(),
    {
        let n = xx.len();
        let ghost orig = xx@;
        let mut i: usize = 0;
        while i < n
            invariant
                i <= n,
                n == xx@.len(),
                orig.len() == n,
                i % 200 == 0 || i == n,
                forall|j: int| i <= j < n ==> #[trigger] xx@[j] == orig[j],
                forall|j: int| 0 <= j < i ==> (#[trigger] xx@[j])@ == batch_invert_value(orig, j),
            decreases n - i,
        {
            let blen = if (n - i) > 200 {
                200
            } else {
                n - i
            };
            let ghost before = xx@;
            proof {
                assert(before.subrange(i as int, i + blen) =~= orig.subrange(i as int, i + blen));
            }
            Gf127::invert_block(xx, i, blen);
            proof {
                lemma_block_done(orig, xx@, i as int, blen as int);
            }
            i = i + blen;
        }
        proof {
            lemma_batch_invert_is_inverse(orig);
        }
    }
}

/// A block inverted in place holds the batch inversion values of its elements.
proof fn lemma_block_done(orig: Seq<Gf127>, after: Seq<Gf127>, i: int, blen: int)
    requires
        i % 200 == 0,
        0 <= i,
        1 <= blen <= 200,
        i + blen <= orig.len(),
        blen == (if orig.len() - i > 200 { 200 } else { orig.len() - i }),
        forall|t: int|
            0 <= t < blen ==> (#[trigger] after[i + t])@ == batch_inverse_value(
                values(orig.subrange(i, i + blen)),
                t,
                q(),
            ),
    ensures
        forall|jj: int| i <= jj < i + blen ==> (#[trigger] after[jj])@ == batch_invert_value(orig, jj),
{
    assert forall|jj: int| i <= jj < i + blen implies (#[trigger] after[jj])@ == batch_invert_value(
        orig,
        jj,
    ) by {
        lemma_block(i, jj - i, orig.len() as int);
        assert(after[i + (jj - i)] == after[jj]);
    }
}

/// Indices of one block share its start and end.
proof fn lemma_block(i: int, t: int, n: int)
    requires
        i % 200 == 0,
        0 <= i,
        0 <= t < 200,
        i + t < n,
    ensures
        block_start(i + t) == i,
        block_end(i + t, n) == (if n - i > 200 { i + 200 } else { n }),
{
    lemma_mod_shift(t, i / 200, 200);
    lemma_fundamental_div_mod(i, 200);
    lemma_small_mod(t as nat, 200);
}

/// The canonical element of a value in 0..q-1.
spec fn canonical(v: int) -> Gf127 {
    Gf127([(v % w()) as u64, (v / w()) as u64])
}

impl vstd::std_specs::ops::AddSpecImpl<Gf127> for Gf127 {
    /// The result is pinned down only as a field element, not as words.
    open spec fn obeys_add_spec() -> bool {
        false
    }

    open spec fn add_req(self, other: Gf127) -> bool {
        true
    }

    closed spec fn add_spec(self, other: Gf127) -> Gf127 {
        canonical((self@ + other@) % q())
    }
}

impl core::ops::Add<Gf127> for Gf127 {
    type Output = Gf127;

    fn add(self, other: Gf127) -> (r: Gf127)
        ensures
            r@ == (self@ + other@) % q(),
    {
        let mut r = self;
        r.set_add(&other);
        r
    }
}

impl<'a> vstd::std_specs::ops::AddSpecImpl<&'a Gf127> for Gf127 {
    /// The result is pinned down only as a field element, not as words.
    open spec fn obeys_add_spec() -> bool {
        false
    }

    open spec fn add_req(self, other: &'a Gf127) -> bool {
        true
    }

    closed spec fn add_spec(self, other: &'a Gf127) -> Gf127 {
        canonical((self@ + other@) % q())
    }
}

impl<'a> core::ops::Add<&'a Gf127> for Gf127 {
    type Output = Gf127;

    fn add(self, other: &'a Gf127) -> (r: Gf127)
        ensures
            r@ == (self@ + other@) % q(),
    {
        let mut r = self;
        r.set_add(&other);
        r
    }
}

impl<'a> vstd::std_specs::ops::AddSpecImpl<Gf127> for &'a Gf127 {
    /// The result is pinned down only as a field element, not as words.
    open spec fn obeys_add_spec() -> bool {
        false
    }

    open spec fn add_req(self, other: Gf127) -> bool {
        true
    }

    closed spec fn add_spec(self, other: Gf127) -> Gf127 {
        canonical((self@ + other@) % q())
    }
}

impl<'a> core::ops::Add<Gf127> for &'a Gf127 {
    type Output = Gf127;

    fn add(self, other: Gf127) -> (r: Gf127)
        ensures
            r@ == (self@ + other@) % q(),
    {
        let mut r = *self;
        r.set_add(&other);
        r
    }
}

impl<'a> vstd::std_specs::ops::AddSpecImpl<&'a Gf127> for &'a Gf127 {
    /// The result is pinned down only as a field element, not as words.
    open spec fn obeys_add_spec() -> bool {
        false
    }

    open spec fn add_req(self, other: &'a Gf127) -> bool {
        true
    }

    closed spec fn add_spec(self, other: &'a Gf127) -> Gf127 {
        canonical((self@ + other@) % q())
    }
}

impl<'a> core::ops::Add<&'a Gf127> for &'a Gf127 {
    type Output = Gf127;

    fn add(self, other: &'a Gf127) -> (r: Gf127)
        ensures
            r@ == (self@ + other@) % q(),
    {
        let mut r = *self;
        r.set_add(&other);
        r
    }
}

impl core::ops::AddAssign<Gf127> for Gf127 {
    fn add_assign(&mut self, other: Gf127)
        ensures
            final(self)@ == (old(self)@ + other@) % q(),
    {
        self.set_add(&other);
    }
}

impl<'a> core::ops::AddAssign<&'a Gf127> for Gf127 {
    fn add_assign(&mut self, other: &'a Gf127)
        ensures
            final(self)@ == (old(self)@ + other@) % q(),
    {
        self.set_add(other);
    }
}

impl vstd::std_specs::ops::SubSpecImpl<Gf127> for Gf127 {
    /// The result is pinned down only as a field element, not as words.
    open spec fn obeys_sub_spec() -> bool {
        false
    }

    open spec fn sub_req(self, other: Gf127) -> bool {
        true
    }

    closed spec fn sub_spec(self, other: Gf127) -> Gf127 {
        canonical((self@ - other@) % q())
    }
}

impl core::ops::Sub<Gf127> for Gf127 {
    type Output = Gf127;

    fn sub(self, other: Gf127) -> (r: Gf127)
        ensures
            r@ == (self@ - other@) % q(),
    {
        let mut r = self;
        r.set_sub(&other);
        r
    }
}

impl<'a> vstd::std_specs::ops::SubSpecImpl<&'a Gf127> for Gf127 {
    /// The result is pinned down only as a field element, not as words.
    open spec fn obeys_sub_spec() -> bool {
        false
    }

    open spec fn sub_req(self, other: &'a Gf127) -> bool {
        true
    }

    closed spec fn sub_spec(self, other: &'a Gf127) -> Gf127 {
        canonical((self@ - other@) % q())
    }
}

impl<'a> core::ops::Sub<&'a Gf127> for Gf127 {
    type Output = Gf127;

    fn sub(self, other: &'a Gf127) -> (r: Gf127)
        ensures
            r@ == (self@ - other@) % q(),
    {
        let mut r = self;
        r.set_sub(&other);
        r
    }
}

impl<'a> vstd::std_specs::ops::SubSpecImpl<Gf127> for &'a Gf127 {
    /// The result is pinned down only as a field element, not as words.
    open spec fn obeys_sub_spec() -> bool {
        false
    }

    open spec fn sub_req(self, other: Gf127) -> bool {
        true
    }

    closed spec fn sub_spec(self, other: Gf127) -> Gf127 {
        canonical((self@ - other@) % q())
    }
}

impl<'a> core::ops::Sub<Gf127> for &'a Gf127 {
    type Output = Gf127;

    fn sub(self, other: Gf127) -> (r: Gf127)
        ensures
            r@ == (self@ - other@) % q(),
    {
        let mut r = *self;
        r.set_sub(&other);
        r
    }
}

impl<'a> vstd::std_specs::ops::SubSpecImpl<&'a Gf127> for &'a Gf127 {
    /// The result is pinned down only as a field element, not as words.
    open spec fn obeys_sub_spec() -> bool {
        false
    }

    open spec fn sub_req(self, other: &'a Gf127) -> bool {
        true
    }

    closed spec fn sub_spec(self, other: &'a Gf127) -> Gf127 {
        canonical((self@ - other@) % q())
    }
}

impl<'a> core::ops::Sub<&'a Gf127> for &'a Gf127 {
    type Output = Gf127;

    fn sub(self, other: &'a Gf127) -> (r: Gf127)
        ensures
            r@ == (self@ - other@) % q(),
    {
        let mut r = *self;
        r.set_sub(&other);
        r
    }
}

impl core::ops::SubAssign<Gf127> for Gf127 {
    fn sub_assign(&mut self, other: Gf127)
        ensures
            final(self)@ == (old(self)@ - other@) % q(),
    {
        self.set_sub(&other);
    }
}

impl<'a> core::ops::SubAssign<&'a Gf127> for Gf127 {
    fn sub_assign(&mut self, other: &'a Gf127)
        ensures
            final(self)@ == (old(self)@ - other@) % q(),
    {
        self.set_sub(other);
    }
}

impl vstd::std_specs::ops::MulSpecImpl<Gf127> for Gf127 {
    /// The result is pinned down only as a field element, not as words.
    open spec fn obeys_mul_spec() -> bool {
        false
    }

    open spec fn mul_req(self, other: Gf127) -> bool {
        true
    }

    closed spec fn mul_spec(self, other: Gf127) -> Gf127 {
        canonical((self@ * other@) % q())
    }
}

impl core::ops::Mul<Gf127> for Gf127 {
    type Output = Gf127;

    fn mul(self, other: Gf127) -> (r: Gf127)
        ensures
            r@ == (self@ * other@) % q(),
    {
        let mut r = self;
        r.set_mul(&other);
        r
    }
}

impl<'a> vstd::std_specs::ops::MulSpecImpl<&'a Gf127> for Gf127 {
    /// The result is pinned down only as a field element, not as words.
    open spec fn obeys_mul_spec() -> bool {
        false
    }

    open spec fn mul_req(self, other: &'a Gf127) -> bool {
        true
    }

    closed spec fn mul_spec(self, other: &'a Gf127) -> Gf127 {
        canonical((self@ * other@) % q())
    }
}

impl<'a> core::ops::Mul<&'a Gf127> for Gf127 {
    type Output = Gf127;

    fn mul(self, other: &'a Gf127) -> (r: Gf127)
        ensures
            r@ == (self@ * other@) % q(),
    {
        let mut r = self;
        r.set_mul(&other);
        r
    }
}

impl<'a> vstd::std_specs::ops::MulSpecImpl<Gf127> for &'a Gf127 {
    /// The result is pinned down only as a field element, not as words.
    open spec fn obeys_mul_spec() -> bool {
        false
    }

    open spec fn mul_req(self, other: Gf127) -> bool {
        true
    }

    closed spec fn mul_spec(self, other: Gf127) -> Gf127 {
        canonical((self@ * other@) % q())
    }
}

impl<'a> core::ops::Mul<Gf127> for &'a Gf127 {
    type Output = Gf127;

    fn mul(self, other: Gf127) -> (r: Gf127)
        ensures
            r@ == (self@ * other@) % q(),
    {
        let mut r = *self;
        r.set_mul(&other);
        r
    }
}

impl<'a> vstd::std_specs::ops::MulSpecImpl<&'a Gf127> for &'a Gf127 {
    /// The result is pinned down only as a field element, not as words.
    open spec fn obeys_mul_spec() -> bool {
        false
    }

    open spec fn mul_req(self, other: &'a Gf127) -> bool {
        true
    }

    closed spec fn mul_spec(self, other: &'a Gf127) -> Gf127 {
        canonical((self@ * other@) % q())
    }
}

impl<'a> core::ops::Mul<&'a Gf127> for &'a Gf127 {
    type Output = Gf127;

    fn mul(self, other: &'a Gf127) -> (r: Gf127)
        ensures
            r@ == (self@ * other@) % q(),
    {
        let mut r = *self;
        r.set_mul(&other);
        r
    }
}

impl core::ops::MulAssign<Gf127> for Gf127 {
    fn mul_assign(&mut self, other: Gf127)
        ensures
            final(self)@ == (old(self)@ * other@) % q(),
    {
        self.set_mul(&other);
    }
}

impl<'a> core::ops::MulAssign<&'a Gf127> for Gf127 {
    fn mul_assign(&mut self, other: &'a Gf127)
        ensures
            final(self)@ == (old(self)@ * other@) % q(),
    {
        self.set_mul(other);
    }
}

impl vstd::std_specs::ops::DivSpecImpl<Gf127> for Gf127 {
    /// The result is pinned down only as a field element, not as words.
    open spec fn obeys_div_spec() -> bool {
        false
    }

    open spec fn div_req(self, other: Gf127) -> bool {
        true
    }

    closed spec fn div_spec(self, other: Gf127) -> Gf127 {
        canonical((self@ * (pow(other@, (q() - 2) as nat) % q())) % q())
    }
}

impl core::ops::Div<Gf127> for Gf127 {
    type Output = Gf127;

    fn div(self, other: Gf127) -> (r: Gf127)
        ensures
            r@ == (self@ * (pow(other@, (q() - 2) as nat) % q())) % q(),
            other@ != 0 ==> (r@ * other@) % q() == self@,
    {
        let mut r = self;
        r.set_div(&other);
        r
    }
}

impl<'a> vstd::std_specs::ops::DivSpecImpl<&'a Gf127> for Gf127 {
    /// The result is pinned down only as a field element, not as words.
    open spec fn obeys_div_spec() -> bool {
        false
    }

    open spec fn div_req(self, other: &'a Gf127) -> bool {
        true
    }

    closed spec fn div_spec(self, other: &'a Gf127) -> Gf127 {
        canonical((self@ * (pow(other@, (q() - 2) as nat) % q())) % q())
    }
}

impl<'a> core::ops::Div<&'a Gf127> for Gf127 {
    type Output = Gf127;

    fn div(self, other: &'a Gf127) -> (r: Gf127)
        ensures
            r@ == (self@ * (pow(other@, (q() - 2) as nat) % q())) % q(),
            other@ != 0 ==> (r@ * other@) % q() == self@,
    {
        let mut r = self;
        r.set_div(&other);
        r
    }
}

impl<'a> vstd::std_specs::ops::DivSpecImpl<Gf127> for &'a Gf127 {
    /// The result is pinned down only as a field element, not as words.
    open spec fn obeys_div_spec() -> bool {
        false
    }

    open spec fn div_req(self, other: Gf127) -> bool {
        true
    }

    closed spec fn div_spec(self, other: Gf127) -> Gf127 {
        canonical((self@ * (pow(other@, (q() - 2) as nat) % q())) % q())
    }
}

impl<'a> core::ops::Div<Gf127> for &'a Gf127 {
    type Output = Gf127;

    fn div(self, other: Gf127) -> (r: Gf127)
        ensures
            r@ == (self@ * (pow(other@, (q() - 2) as nat) % q())) % q(),
            other@ != 0 ==> (r@ * other@) % q() == self@,
    {
        let mut r = *self;
        r.set_div(&other);
        r
    }
}

impl<'a> vstd::std_specs::ops::DivSpecImpl<&'a Gf127> for &'a Gf127 {
    /// The result is pinned down only as a field element, not as words.
    open spec fn obeys_div_spec() -> bool {
        false
    }

    open spec fn div_req(self, other: &'a Gf127) -> bool {
        true
    }

    closed spec fn div_spec(self, other: &'a Gf127) -> Gf127 {
        canonical((self@ * (pow(other@, (q() - 2) as nat) % q())) % q())
    }
}

impl<'a> core::ops::Div<&'a Gf127> for &'a Gf127 {
    type Output = Gf127;

    fn div(self, other: &'a Gf127) -> (r: Gf127)
        ensures
            r@ == (self@ * (pow(other@, (q() - 2) as nat) % q())) % q(),
            other@ != 0 ==> (r@ * other@) % q() == self@,
    {
        let mut r = *self;
        r.set_div(&other);
        r
    }
}

impl core::ops::DivAssign<Gf127> for Gf127 {
    fn div_assign(&mut self, other: Gf127)
        ensures
            final(self)@ == (old(self)@ * (pow(other@, (q() - 2) as nat) % q())) % q(),
            other@ != 0 ==> (final(self)@ * other@) % q() == old(self)@,
    {
        self.set_div(&other);
    }
}

impl<'a> core::ops::DivAssign<&'a Gf127> for Gf127 {
    fn div_assign(&mut self, other: &'a Gf127)
        ensures
            final(self)@ == (old(self)@ * (pow(other@, (q() - 2) as nat) % q())) % q(),
            other@ != 0 ==> (final(self)@ * other@) % q() == old(self)@,
    {
        self.set_div(other);
    }
}

impl vstd::std_specs::ops::NegSpecImpl for Gf127 {
    /// The result is pinned down only as a field element, not as words.
    open spec fn obeys_neg_spec() -> bool {
        false
    }

    open spec fn neg_req(self) -> bool {
        true
    }

    closed spec fn neg_spec(self) -> Gf127 {
        canonical((-self@) % q())
    }
}

impl core::ops::Neg for Gf127 {
    type Output = Gf127;

    fn neg(self) -> (r: Gf127)
        ensures
            r@ == (-self@) % q(),
    {
        let mut r = self;
        r.set_neg();
        r
    }
}

impl<'a> vstd::std_specs::ops::NegSpecImpl for &'a Gf127 {
    /// The result is pinned down only as a field element, not as words.
    open spec fn obeys_neg_spec() -> bool {
        false
    }

    open spec fn neg_req(self) -> bool {
        true
    }

    closed spec fn neg_spec(self) -> Gf127 {
        canonical((-self@) % q())
    }
}

impl<'a> core::ops::Neg for &'a Gf127 {
    type Output = Gf127;

    fn neg(self) -> (r: Gf127)
        ensures
            r@ == (-self@) % q(),
    {
        let mut r = *self;
        r.set_neg();
        r
    }
}

/// Two residues are equal exactly when their difference is zero modulo q.
proof fn lemma_small_difference(a: int, b: int)
    requires
        0 <= a < q(),
        0 <= b < q(),
    ensures
        ((a - b) % q() == 0) == (a == b),
{
    if a >= b {
        lemma_small_mod((a - b) as nat, q() as nat);
    } else {
        lemma_mod_shift(a - b, 1, q());
        lemma_small_mod((a - b + q()) as nat, q() as nat);
    }
}

/// The powers of two used by the root computations.
proof fn lemma_pow2_large()
    ensures
        pow2(123) == 0x0800_0000_0000_0000_0000_0000_0000_0000,
        pow2(124) == 0x1000_0000_0000_0000_0000_0000_0000_0000,
        pow2(125) == 0x2000_0000_0000_0000_0000_0000_0000_0000,
{
    lemma2_to64();
    lemma2_to64_rest();
    lemma_pow2_adds(64, 59);
    lemma_pow2_adds(64, 60);
    lemma_pow2_adds(64, 61);
}

/// The low bit of the two control words.
proof fn lemma_u32_low_bit()
    by (bit_vector)
    ensures
        0xffff_ffffu32 & 1u32 == 1u32,
        0u32 & 1u32 == 0u32,
{
}

/// The complement of the two control words.
proof fn lemma_u32_not()
    by (bit_vector)
    ensures
        !0xffff_ffffu32 == 0u32,
        !0u32 == 0xffff_ffffu32,
{
}

/// The value of the word pair 0x5555...5555, the inverse of 3 modulo q.
pub open spec fn three_inv_value() -> int {
    0x5555_5555_5555_5555_5555_5555_5555_5555
}

/// The product of two integers held in two words each, expanded by words,
/// and its bound when both are below 2^127.
proof fn lemma_two_word_product(a0: int, a1: int, b0: int, b1: int)
    requires
        0 <= a0 < 0x1_0000_0000_0000_0000,
        0 <= b0 < 0x1_0000_0000_0000_0000,
        0 <= a1 < 0x8000_0000_0000_0000,
        0 <= b1 < 0x8000_0000_0000_0000,
    ensures
        (a0 + a1 * 0x1_0000_0000_0000_0000) * (b0 + b1 * 0x1_0000_0000_0000_0000) == a0 * b0
            + 0x1_0000_0000_0000_0000 * (a0 * b1 + a1 * b0) + 0x1_0000_0000_0000_0000_0000_0000_0000_0000 * (a1 * b1),
        (a0 + a1 * 0x1_0000_0000_0000_0000) * (b0 + b1 * 0x1_0000_0000_0000_0000)
            < 0x4000_0000_0000_0000_0000_0000_0000_0000_0000_0000_0000_0000_0000_0000_0000_0000,
{
    assert((a0 + a1 * 0x1_0000_0000_0000_0000) * (b0 + b1 * 0x1_0000_0000_0000_0000) == a0 * b0
        + 0x1_0000_0000_0000_0000 * (a0 * b1 + a1 * b0) + 0x1_0000_0000_0000_0000_0000_0000_0000_0000
        * (a1 * b1)) by (nonlinear_arith);
    let a = a0 + a1 * 0x1_0000_0000_0000_0000;
    let b = b0 + b1 * 0x1_0000_0000_0000_0000;
    assert(a * b < 0x4000_0000_0000_0000_0000_0000_0000_0000_0000_0000_0000_0000_0000_0000_0000_0000)
        by (nonlinear_arith)
        requires
            0 <= a < 0x8000_0000_0000_0000_0000_0000_0000_0000,
            0 <= b < 0x8000_0000_0000_0000_0000_0000_0000_0000,
    ;
}

} // verus!
