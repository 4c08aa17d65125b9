//! The prime field GF(p) with p = 2^64 - 2^8 - 1.
//!
//! An element is held as one 64-bit word that is only lazily reduced:
//! every word is a valid representative, and the element is the word
//! taken modulo p. All operations are branch-free; the "boolean" results
//! are 32-bit words equal to 0 (false) or 0xFFFFFFFF (true).

use crate::bytes::{le_value, le_word, lemma_le_value_concat, lemma_le_value_injective, lemma_pow256_values, u64_to_le};
use crate::carry::{
    addcarry_u64, either_zero, lemma_and_bits, lemma_and_mask, lemma_low_bit, lemma_u128_split,
    lemma_xor_select, lemma_xor_zero, mask64, spread32, spread_mask, subborrow_u64, umull,
};
use crate::modpow::{
    batch_inverse_value, lemma_suffix_step, nz, prefix, suffix, lemma_add_residues, lemma_chain_step, lemma_mod_shift, lemma_mul_residues, lemma_pow_of_pow, lemma_pow_one,
    lemma_square_pow, lemma_square_pow2,
};
use crate::primes::{factors_p, lemma_prime_p};
use crate::residues::{
    certified, is_power_mod, lemma_batch_inverse, lemma_div_cancel, lemma_euler_criterion,
    lemma_even_power_is_square, lemma_inverse, lemma_neg_even_power, lemma_power_witness,
    lemma_root_of_square,
};
use vstd::arithmetic::div_mod::*;
use vstd::arithmetic::power::*;
use vstd::arithmetic::power2::*;
use vstd::prelude::*;

verus! {

/// The modulus p = 2^64 - 2^8 - 1.
pub open spec fn p() -> int {
    0xffff_ffff_ffff_feff
}

/// The inverse of 2 modulo p, that is (p + 1) / 2.
pub open spec fn half_p() -> int {
    0x7fff_ffff_ffff_ff80
}

/// Of the two square roots c and p - c, the one that is even.
pub open spec fn even_root(c: int) -> int {
    if c % 2 == 0 {
        c
    } else {
        p() - c
    }
}

/// The candidate fourth root x^((p+1)/8), before normalization.
pub open spec fn fourth_root_candidate(x: int) -> int {
    pow(x, 0x1fff_ffff_ffff_ffe0) % p()
}

/// The candidate eighth root x^((p+1)/16), before normalization.
pub open spec fn eighth_root_candidate(x: int) -> int {
    pow(x, 0x0fff_ffff_ffff_fff0) % p()
}

/// Euler's criterion value x^((p-1)/2) mod p.
pub open spec fn euler(x: int) -> int {
    pow(x, 0x7fff_ffff_ffff_ff7f) % p()
}

/// The Legendre symbol as computed from Euler's criterion.
pub open spec fn legendre_of(x: int) -> int {
    if euler(x) == 1 {
        1
    } else if euler(x) == p() - 1 {
        -1
    } else {
        0
    }
}

/// The word that a multiplication of the words `a` and `b` leaves: the
/// 128-bit product folded twice at 2^64 = 257 (mod p), and a last carry
/// folded in as 257. It holds the product modulo p, possibly plus p.
#[verifier::opaque]
pub open spec fn mul_word(a: u64, b: u64) -> u64 {
    let x = a as int * b as int;
    let v = x % 0x1_0000_0000_0000_0000 + (x / 0x1_0000_0000_0000_0000) * 257;
    let s = v % 0x1_0000_0000_0000_0000 + (v / 0x1_0000_0000_0000_0000) * 257;
    if s < 0x1_0000_0000_0000_0000 {
        s as u64
    } else {
        (s - 0x1_0000_0000_0000_0000 + 257) as u64
    }
}

/// The word that `n` successive squarings of the word `a` leave.
pub open spec fn xsquare_word(a: u64, n: nat) -> u64
    decreases n,
{
    if n == 0 {
        a
    } else {
        let b = xsquare_word(a, (n - 1) as nat);
        mul_word(b, b)
    }
}

/// The word that the addition chain for x^(2^56 - 1) leaves, from the
/// word `x`.
pub open spec fn chain56_word(x: u64) -> u64 {
    let x2 = mul_word(x, mul_word(x, x));
    let x4 = mul_word(x2, xsquare_word(x2, 2));
    let x6 = mul_word(x2, xsquare_word(x4, 2));
    let x7 = mul_word(x, mul_word(x6, x6));
    let x14 = mul_word(x7, xsquare_word(x7, 7));
    let x28 = mul_word(x14, xsquare_word(x14, 14));
    mul_word(x28, xsquare_word(x28, 28))
}

/// The word that holds the candidate square root x^((p+1)/4) of the
/// element held by the word `x`.
pub open spec fn sqrt_word(x: u64) -> u64 {
    xsquare_word(chain56_word(x), 6)
}

/// The root that the square root returns: the candidate held by the word
/// `w`, negated when that word is odd.
pub open spec fn signed_root(w: u64) -> int {
    if w % 2 == 0 {
        w as int % p()
    } else {
        (-(w as int % p())) % p()
    }
}

/// The root that the square root of `x` returns when it succeeds: the
/// candidate x^((p+1)/4), negated when the word that the exponentiation
/// leaves for it is odd.
pub open spec fn sqrt_root(x: GFp) -> int {
    signed_root(sqrt_word(x.rep()))
}

/// Whether that root squares back to `x`.
pub open spec fn sqrt_ok(x: GFp) -> bool {
    (sqrt_root(x) * sqrt_root(x)) % p() == x@
}

/// The pair returned by the square root of `x`: the root and
/// 0xFFFFFFFF when it squares back to `x`, else the zero word and 0.
pub open spec fn sqrt_result(x: GFp, y: GFp, r: u32) -> bool {
    &&& r == (if sqrt_ok(x) { 0xffff_ffffu32 } else { 0u32 })
    &&& y@ == (if sqrt_ok(x) { sqrt_root(x) } else { 0 })
    &&& !sqrt_ok(x) ==> y.rep() == 0
}

/// The elements of a sequence, as values in 0..p-1.
pub open spec fn values(s: Seq<GFp>) -> Seq<int> {
    s.map_values(|x: GFp| x@)
}

/// p is an odd prime, with a Lucas certificate (witness 7) that lists the
/// factor 2 of p - 1 first.
pub proof fn lemma_p_certified()
    ensures
        certified(p(), 7, factors_p()),
{
    lemma_prime_p();
}

/// Fermat inversion: x^(p-2) is the inverse of a non-zero x, and 0 for 0.
pub proof fn lemma_inverse_mod_p(x: int)
    requires
        0 <= x < p(),
    ensures
        x != 0 ==> (x * (pow(x, (p() - 2) as nat) % p())) % p() == 1,
        x == 0 ==> pow(x, (p() - 2) as nat) % p() == 0,
{
    lemma_p_certified();
    if x != 0 {
        lemma_small_mod(x as nat, p() as nat);
        lemma_inverse(p(), 7, factors_p(), x);
    } else {
        lemma0_pow((p() - 2) as nat);
        lemma_small_mod(0, p() as nat);
    }
}

/// Division undoes multiplication: (x / y) * y = x for y != 0.
pub proof fn lemma_div_then_mul(x: int, y: int)
    requires
        0 <= x < p(),
        0 < y < p(),
    ensures
        (((x * (pow(y, (p() - 2) as nat) % p())) % p()) * y) % p() == x,
{
    lemma_p_certified();
    lemma_small_mod(y as nat, p() as nat);
    lemma_div_cancel(p(), 7, factors_p(), x, y);
}

/// Batch inversion agrees, at each index, with the inversion of the
/// element there.
pub proof fn lemma_batch_inverse_is_inverse(s: Seq<GFp>)
    ensures
        forall|i: int|
            0 <= i < s.len() ==> batch_inverse_value(values(s), i, p()) == pow(
                #[trigger] s[i]@,
                (p() - 2) as nat,
            ) % p(),
{
    lemma_p_certified();
    assert forall|j: int| 0 <= j < values(s).len() implies 0 <= #[trigger] values(s)[j] < p() by {
        lemma_mod_bound(s[j].0 as int, p());
    }
    assert forall|i: int| 0 <= i < s.len() implies batch_inverse_value(values(s), i, p()) == pow(
        #[trigger] s[i]@,
        (p() - 2) as nat,
    ) % p() by {
        lemma_batch_inverse(p(), 7, factors_p(), values(s), i);
    }
}

/// Halving is division by 2: twice the half of x is x.
pub proof fn lemma_half_then_double(x: int)
    requires
        0 <= x < p(),
    ensures
        (2 * ((x * half_p()) % p())) % p() == x,
{
    lemma_mul_residues(2, x * half_p(), p());
    assert(2 * (x * half_p()) == x + x * p()) by (nonlinear_arith);
    lemma_mod_shift(x, x, p());
    lemma_small_mod(x as nat, p() as nat);
}

/// Decoding gives back what encoding wrote: an encoding holds a value
/// below the modulus, which decoding accepts as it is.
pub proof fn lemma_decode_encode(x: GFp, b: Seq<u8>)
    requires
        le_value(b) as int == x@,
    ensures
        (le_value(b) as int) < p(),
        le_value(b) as int % p() == x@,
{
    x.lemma_view();
    lemma_small_mod(x@ as nat, p() as nat);
}

/// Encoding what decoding accepted gives back the same bytes: a
/// canonical string and the encoding of its value are equal.
pub proof fn lemma_encode_of_decode(b: Seq<u8>, x: GFp, e: Seq<u8>)
    requires
        b.len() == 8,
        e.len() == 8,
        x@ == le_value(b) as int,
        le_value(e) as int == x@,
    ensures
        e == b,
{
    lemma_le_value_injective(e, b);
}

/// Subtraction is antisymmetric: x - y = -(y - x).
pub proof fn lemma_sub_antisymmetric(x: int, y: int)
    ensures
        (x - y) % p() == (-((y - x) % p())) % p(),
{
    let t = y - x;
    lemma_fundamental_div_mod(t, p());
    lemma_mod_multiples_vanish(t / p(), -t, p());
    assert(-(t % p()) == p() * (t / p()) + (-t));
}

/// Doubling is adding a value to itself.
pub proof fn lemma_double_is_sum(x: int)
    ensures
        (2 * x) % p() == (x + x) % p(),
{
}

/// The square root succeeds exactly on the squares.
pub proof fn lemma_sqrt_ok_iff_square(x: GFp)
    ensures
        sqrt_ok(x) <==> is_power_mod(x@, 2, p()),
{
    let e = 0x3fff_ffff_ffff_ffc0nat;
    let w = sqrt_word(x.rep());
    let c = w as int % p();
    let y = sqrt_root(x);
    x.lemma_view();
    lemma_sqrt_word(x);
    lemma_mod_bound(w as int, p());
    if w % 2 != 0 {
        lemma_mod_shift(-c, 1, p());
        if c == 0 {
            lemma_small_mod(0, p() as nat);
        } else {
            lemma_small_mod((p() - c) as nat, p() as nat);
        }
        lemma_neg_even_power(p(), c, 1);
    }
    lemma_square_is_pow2(y);
    lemma_square_is_pow2(c);
    if is_power_mod(x@, 2, p()) {
        lemma_p_certified();
        lemma_root_of_square(p(), 7, factors_p(), x@, e, 2);
    }
    if sqrt_ok(x) {
        lemma_power_witness(p(), x@, y, 2);
    }
}

/// The Legendre symbol is 0 on zero, 1 on the non-zero squares and -1
/// on the non-squares.
pub proof fn lemma_legendre_of_square(x: int)
    requires
        0 <= x < p(),
    ensures
        legendre_of(x) == (if x == 0 {
            0
        } else if is_power_mod(x, 2, p()) {
            1
        } else {
            -1
        }),
{
    lemma_p_certified();
    lemma_euler_criterion(p(), 7, factors_p(), x);
}

/// The fourth root succeeds exactly on the fourth powers, and the even
/// choice of sign is a fourth root too.
pub proof fn lemma_fourth_root_iff(x: int)
    requires
        0 <= x < p(),
    ensures
        (pow(fourth_root_candidate(x), 4) % p() == x) <==> is_power_mod(x, 4, p()),
        pow(even_root(fourth_root_candidate(x)), 4) % p() == pow(fourth_root_candidate(x), 4) % p(),
{
    let c = fourth_root_candidate(x);
    lemma_mod_bound(pow(x, 0x1fff_ffff_ffff_ffe0), p());
    if is_power_mod(x, 4, p()) {
        let y = choose|y: int| 0 <= y < p() && #[trigger] (pow(y, 4) % p()) == x;
        lemma_even_power_is_square(p(), x, y, 4);
        lemma_p_certified();
        lemma_root_of_square(p(), 7, factors_p(), x, 0x1fff_ffff_ffff_ffe0, 4);
    }
    if pow(c, 4) % p() == x {
        lemma_power_witness(p(), x, c, 4);
    }
    lemma_neg_even_power(p(), c, 2);
}

/// The eighth root succeeds exactly on the eighth powers, and the even
/// choice of sign is an eighth root too.
pub proof fn lemma_eighth_root_iff(x: int)
    requires
        0 <= x < p(),
    ensures
        (pow(eighth_root_candidate(x), 8) % p() == x) <==> is_power_mod(x, 8, p()),
        pow(even_root(eighth_root_candidate(x)), 8) % p() == pow(eighth_root_candidate(x), 8) % p(),
{
    let c = eighth_root_candidate(x);
    lemma_mod_bound(pow(x, 0x0fff_ffff_ffff_fff0), p());
    if is_power_mod(x, 8, p()) {
        let y = choose|y: int| 0 <= y < p() && #[trigger] (pow(y, 8) % p()) == x;
        lemma_even_power_is_square(p(), x, y, 8);
        lemma_p_certified();
        lemma_root_of_square(p(), 7, factors_p(), x, 0x0fff_ffff_ffff_fff0, 8);
    }
    if pow(c, 8) % p() == x {
        lemma_power_witness(p(), x, c, 8);
    }
    lemma_neg_even_power(p(), c, 4);
}

/// An element of GF(p).
#[derive(Clone, Copy, Debug)]
pub struct GFp(u64);

impl View for GFp {
    type V = int;

    /// The element in 0..p-1 that the word represents.
    closed spec fn view(&self) -> int {
        self.0 as int % p()
    }
}

/// A residue in 0..2p-1 reduced by at most one subtraction.
proof fn lemma_mod_p_small(x: int)
    requires
        0 <= x < 2 * p(),
    ensures
        x % p() == (if x < p() { x } else { x - p() }),
{
    if x < p() {
        lemma_small_mod(x as nat, p() as nat);
    } else {
        lemma_small_mod((x - p()) as nat, p() as nat);
        lemma_mod_shift(x - p(), 1, p());
    }
}

/// The word that a multiplication leaves holds the product modulo p.
pub proof fn lemma_mul_word(a: u64, b: u64)
    ensures
        mul_word(a, b) as int % p() == (a as int * b as int) % p(),
{
    reveal(mul_word);
    let m = 0x1_0000_0000_0000_0000int;
    let x = a as int * b as int;
    assert(0 <= x < m * m) by (nonlinear_arith)
        requires
            x == a as int * b as int,
            0 <= a < m,
            0 <= b < m,
    ;
    let lo = x % m;
    let hi = x / m;
    lemma_fundamental_div_mod(x, m);
    lemma_mod_bound(x, m);
    assert(0 <= hi < m) by (nonlinear_arith)
        requires
            x == m * hi + lo,
            0 <= lo < m,
            0 <= x < m * m,
    ;
    let v = lo + hi * 257;
    let vlo = v % m;
    let vhi = v / m;
    lemma_fundamental_div_mod(v, m);
    lemma_mod_bound(v, m);
    assert(0 <= vhi < 258) by (nonlinear_arith)
        requires
            v == m * vhi + vlo,
            0 <= vlo < m,
            0 <= v < 258 * m,
    ;
    let t = vlo + vhi * 257;
    lemma_mod_shift(v, hi, p());
    lemma_mod_shift(t, vhi, p());
    if t >= m {
        lemma_mod_shift(t - p(), 1, p());
    }
}

/// Multiplying the words of x^a and x^b leaves a word of x^(a+b).
proof fn lemma_mul_word_pow(x: int, y: u64, z: u64, a: nat, b: nat)
    requires
        y as int % p() == pow(x, a) % p(),
        z as int % p() == pow(x, b) % p(),
    ensures
        mul_word(y, z) as int % p() == pow(x, a + b) % p(),
{
    lemma_mul_word(y, z);
    lemma_mul_residues(y as int, z as int, p());
    lemma_mul_residues(pow(x, a), pow(x, b), p());
    lemma_pow_adds(x, a, b);
}

/// Squaring n times leaves a word of the (2^n)-th power.
pub proof fn lemma_xsquare_word(a: u64, n: nat)
    ensures
        xsquare_word(a, n) as int % p() == pow(a as int, pow2(n)) % p(),
    decreases n,
{
    if n == 0 {
        lemma_pow_one(a as int, p());
    } else {
        let b = xsquare_word(a, (n - 1) as nat);
        lemma_xsquare_word(a, (n - 1) as nat);
        lemma_mul_word(b, b);
        lemma_square_pow2(b as int, a as int, (n - 1) as nat, p());
    }
}

/// Squaring n times the word of x^a leaves a word of x^(a 2^n).
proof fn lemma_xsquare_word_pow(x: int, y: u64, a: nat, n: nat)
    requires
        y as int % p() == pow(x, a) % p(),
    ensures
        xsquare_word(y, n) as int % p() == pow(x, a * pow2(n)) % p(),
{
    lemma_xsquare_word(y, n);
    lemma_pow_of_pow(y as int, x, a, pow2(n), p());
}

/// The addition chain leaves a word of x^(2^56 - 1).
pub proof fn lemma_chain56_word(x: u64)
    ensures
        chain56_word(x) as int % p() == pow(x as int, 0xff_ffff_ffff_ffff) % p(),
{
    let xi = x as int;
    lemma_pow1(xi);
    lemma2_to64();
    let x1 = mul_word(x, x);
    lemma_mul_word_pow(xi, x, x, 1, 1);
    let x2 = mul_word(x, x1);
    lemma_mul_word_pow(xi, x, x1, 1, 2);
    lemma_xsquare_word_pow(xi, x2, 3, 2);
    let x4 = mul_word(x2, xsquare_word(x2, 2));
    lemma_mul_word_pow(xi, x2, xsquare_word(x2, 2), 3, 12);
    lemma_xsquare_word_pow(xi, x4, 15, 2);
    let x6 = mul_word(x2, xsquare_word(x4, 2));
    lemma_mul_word_pow(xi, x2, xsquare_word(x4, 2), 3, 60);
    lemma_mul_word_pow(xi, x6, x6, 63, 63);
    let x7 = mul_word(x, mul_word(x6, x6));
    lemma_mul_word_pow(xi, x, mul_word(x6, x6), 1, 126);
    lemma_xsquare_word_pow(xi, x7, 127, 7);
    let x14 = mul_word(x7, xsquare_word(x7, 7));
    lemma_mul_word_pow(xi, x7, xsquare_word(x7, 7), 127, 127 * 128);
    lemma_xsquare_word_pow(xi, x14, 0x3fff, 14);
    let x28 = mul_word(x14, xsquare_word(x14, 14));
    lemma_mul_word_pow(xi, x14, xsquare_word(x14, 14), 0x3fff, 0x3fff * 0x4000);
    lemma_xsquare_word_pow(xi, x28, 0xfff_ffff, 28);
    lemma_mul_word_pow(xi, x28, xsquare_word(x28, 28), 0xfff_ffff, 0xfff_ffff * 0x1000_0000);
}

/// The word of the candidate square root holds x^((p+1)/4).
pub proof fn lemma_sqrt_word(x: GFp)
    ensures
        sqrt_word(x.rep()) as int % p() == pow(x@, 0x3fff_ffff_ffff_ffc0) % p(),
{
    lemma2_to64();
    lemma_chain56_word(x.rep());
    lemma_xsquare_word_pow(x.rep() as int, chain56_word(x.rep()), 0xff_ffff_ffff_ffff, 6);
    lemma_pow_mod_noop(x.rep() as int, 0x3fff_ffff_ffff_ffc0, p());
}

/// One step of decoding: a value h with a 64-bit chunk d below it is
/// d + h * 2^64, and 2^64 is 257 modulo p.
proof fn lemma_decode_step(h: int, d: int)
    ensures
        ((((h % p()) * 257) % p()) + d % p()) % p() == (d + h * 0x1_0000_0000_0000_0000) % p(),
{
    lemma_mul_residues(h, 257, p());
    lemma_add_residues(h * 257, d, p());
    lemma_mod_shift(d + h * 257, h, p());
    assert(d + h * 0x1_0000_0000_0000_0000 == d + h * 257 + h * p());
}

impl GFp {
    pub const ENCODED_LENGTH: usize = 8;

    pub const N: usize = 1;

    /// GF(p) modulus: p = 2^64 - 2^8 - 1
    pub const MOD: u64 = 0xfffffffffffffeff;

    pub const MODULUS: [u64; 1] = [0xFFFFFFFFFFFFFEFF];

    /// Element 0 in GF(p).
    pub fn zero() -> (r: Self)
        ensures
            r@ == 0,
            r.rep() == 0,
    {
        GFp(0)
    }

    /// Element 1 in GF(p).
    pub fn one() -> (r: Self)
        ensures
            r@ == 1,
            r.rep() == 1,
    {
        GFp(1)
    }

    /// Element -1 in GF(p).
    pub fn minus_one() -> (r: Self)
        ensures
            r@ == p() - 1,
            r.rep() == 0xfffffffffffffefe,
    {
        GFp(0xfffffffffffffefe)
    }

    /// Element 2 in GF(p).
    pub fn two() -> (r: Self)
        ensures
            r@ == 2,
            r.rep() == 2,
    {
        GFp(2)
    }

    /// Element 3 in GF(p).
    pub fn three() -> (r: Self)
        ensures
            r@ == 3,
            r.rep() == 3,
    {
        GFp(3)
    }

    /// Element 4 in GF(p).
    pub fn four() -> (r: Self)
        ensures
            r@ == 4,
            r.rep() == 4,
    {
        GFp(4)
    }

    const P_PLUS_ONE_HALF: u64 = 0x7fffffffffffff80;

    /// The word that holds the element (any word in 0..2^64-1).
    pub closed spec fn rep(self) -> u64 {
        self.0
    }

    /// Every element lies in 0..p-1 and is its word taken modulo p.
    pub proof fn lemma_view(self)
        ensures
            0 <= self@ < p(),
            self@ == self.rep() as int % p(),
    {
    }

    /// Full reduction modulo p: the canonical value in 0..p-1.
    fn fp_normalized(x: u64) -> (r: u64)
        ensures
            r as int == x as int % p(),
    {
        // Subtract the modulus and add it back if there was a borrow.
        let (r, cc) = subborrow_u64(x, GFp::MOD, 0);
        let m = mask64(cc);
        proof {
            lemma_and_mask(GFp::MOD);
            lemma_mod_p_small(x as int);
        }
        let (s, _) = addcarry_u64(r, GFp::MOD & m, 0);
        s
    }

    /// Build a GF(p) element from a 64-bit integer. Returned values
    /// are (r, c). If the source value v is lower than the modulus,
    /// then r contains the value v as an element of GF(p), and c is
    /// equal to 0xFFFFFFFFFFFFFFFF; otherwise, r contains zero (in
    /// GF(p)) and c is 0.
    pub fn from_u64(v: u64) -> (r: (Self, u64))
        ensures
            r.1 == (if v < GFp::MOD { u64::MAX } else { 0u64 }),
            r.0@ == (if v < GFp::MOD { v as int } else { 0 }),
            r.0.rep() as int == r.0@,
    {
        // If v < 2^63 then v < p and its high bit is 0. If v >= 2^63 then
        // v < p if and only if the high bit of z = v - p is 1.
        let z = v.wrapping_sub(GFp::MOD);
        proof {
            lemma_from_u64_bits(v, z);
        }
        let c = ((v & !z) >> 63u64).wrapping_sub(1);
        proof {
            lemma_and_mask(v);
        }
        (GFp::from_u64_reduce(v & c), c)
    }

    /// Build a GF(p) element from a 64-bit integer. The provided
    /// integer is implicitly reduced modulo p.
    pub fn from_u64_reduce(v: u64) -> (r: Self)
        ensures
            r@ == v as int % p(),
            r.rep() as int == r@,
    {
        let r = GFp(GFp::fp_normalized(v));
        proof {
            lemma_small_mod(r.0 as nat, p() as nat);
        }
        r
    }

    /// Get the element as an integer, normalized in the 0..p-1
    /// range.
    pub fn to_u64(self) -> (r: u64)
        ensures
            r as int == self@,
    {
        GFp::fp_normalized(self.0)
    }

    /// Addition in GF(p).
    fn plus(self, rhs: Self) -> (r: Self)
        ensures
            r@ == (self@ + rhs@) % p(),
    {
        // 2^64 = 257 mod p: a carry out is folded back in as 257, twice
        // at most.
        let (x1, c1) = addcarry_u64(self.0, rhs.0, 0);
        let (x2, c2) = addcarry_u64(x1, 257 * (c1 as u64), 0);
        let r = GFp(x2 + 257 * (c2 as u64));
        proof {
            let a = self.0 as int;
            let b = rhs.0 as int;
            assert(r.0 as int == a + b - (c1 + c2) * p());
            lemma_mod_shift(a + b, (c1 + c2) as int, p());
            lemma_add_residues(a, b, p());
        }
        r
    }

    /// Subtraction in GF(p).
    fn minus(self, rhs: Self) -> (r: Self)
        ensures
            r@ == (self@ - rhs@) % p(),
    {
        let (x1, cc) = subborrow_u64(self.0, rhs.0, 0);
        let m = mask64(cc);
        proof {
            lemma_and_mask(GFp::MOD);
        }
        let (x2, c2) = addcarry_u64(x1, m & GFp::MOD, 0);
        // A borrow that adding p did not cancel leaves an extra 2^64,
        // which is 257 modulo p.
        proof {
            lemma_and_bits(cc as u64, (1 - c2) as u64);
        }
        let extra = (cc as u64) & (1 - c2 as u64);
        let r = GFp(x2 - 257 * extra);
        proof {
            let a = self.0 as int;
            let b = rhs.0 as int;
            assert(r.0 as int == a - b + (cc + extra) * p());
            lemma_mod_shift(a - b, (cc + extra) as int, p());
            lemma_sub_mod_noop(a, b, p());
        }
        r
    }

    /// Negation in GF(p).
    fn negate(self) -> (r: Self)
        ensures
            r@ == (-self@) % p(),
    {
        let (x1, cc) = subborrow_u64(GFp::MOD, self.0, 0);
        let m = mask64(cc);
        proof {
            lemma_and_mask(GFp::MOD);
        }
        let (x2, _) = addcarry_u64(x1, m & GFp::MOD, 0);
        let r = GFp(x2);
        proof {
            let a = self.0 as int;
            assert(r.0 as int == p() - a + cc * p());
            lemma_mod_shift(-a, (1 + cc) as int, p());
            lemma_sub_mod_noop(0, a, p());
        }
        r
    }

    /// Halving in GF(p) (division by 2).
    pub fn half(self) -> (r: Self)
        ensures
            r@ == (self@ * half_p()) % p(),
            (2 * r@) % p() == self@,
    {
        proof {
            self.lemma_view();
            lemma_half_then_double(self@);
        }
        // Right shift the value by one bit. If x is even, then this
        // returns x/2. If x is odd, then this returns
        // (x-1)/2 + (p+1)/2 = (x+p)/2.
        proof {
            lemma_low_bit(self.0);
        }
        let m = 0u64.wrapping_sub(self.0 & 1);
        proof {
            lemma_and_mask(GFp::P_PLUS_ONE_HALF);
        }
        let r = GFp((self.0 >> 1u64) + (m & GFp::P_PLUS_ONE_HALF));
        proof {
            let x = self.0 as int;
            let t = x % 2;
            let h = r.0 as int;
            assert(h * 2 == x + t * p());
            assert(h * (p() + 1) == (x + t * p()) * half_p());
            lemma_mod_shift(h, h, p());
            lemma_mod_shift(x * half_p(), t * half_p(), p());
            lemma_mul_residues(x, half_p(), p());
        }
        r
    }

    /// Doubling in GF(p) (multiplication by 2).
    pub fn double(self) -> (r: Self)
        ensures
            r@ == (2 * self@) % p(),
    {
        self.plus(self)
    }

    /// Multiplication in GF(p).
    fn times(self, rhs: Self) -> (r: Self)
        ensures
            r@ == (self@ * rhs@) % p(),
            r.0 == mul_word(self.0, rhs.0),
    {
        // x = x_lo + 2^64 * x_hi = x_lo + x_hi + 2^8 * x_hi (mod p)
        let (x_lo, x_hi) = umull(self.0, rhs.0);
        let v: u128 = (x_lo as u128) + (x_hi as u128) * 257;
        proof {
            lemma_u128_split(v);
        }
        // v has 64 + 9 bits at most; fold the top bits in once more.
        let v_lo = v as u64;
        let v_hi = (v >> 64u128) as u64;
        let (s, cc) = addcarry_u64(v_lo, v_hi * 257, 0);
        // A final carry is folded in without overflow.
        let r = GFp(s + 257 * (cc as u64));
        proof {
            let a = self.0 as int;
            let b = rhs.0 as int;
            assert(r.0 as int == a * b - (x_hi + v_hi + cc) * p());
            lemma_mod_shift(a * b, (x_hi + v_hi + cc) as int, p());
            lemma_mul_residues(a, b, p());
            let m = 0x1_0000_0000_0000_0000int;
            reveal(mul_word);
            lemma_fundamental_div_mod_converse(a * b, m, x_hi as int, x_lo as int);
            lemma_fundamental_div_mod_converse(v as int, m, v_hi as int, v_lo as int);
        }
        r
    }

    /// Division in GF(p): multiplication by the inverse.
    fn divided_by(self, rhs: Self) -> (r: Self)
        ensures
            r@ == (self@ * (pow(rhs@, (p() - 2) as nat) % p())) % p(),
            rhs@ != 0 ==> (r@ * rhs@) % p() == self@,
    {
        proof {
            self.lemma_view();
            rhs.lemma_view();
            if rhs@ != 0 {
                lemma_div_then_mul(self@, rhs@);
            }
        }
        self.times(rhs.invert())
    }

    /// Squaring in GF(p).
    pub fn square(self) -> (r: Self)
        ensures
            r@ == (self@ * self@) % p(),
            r.rep() == mul_word(self.rep(), self.rep()),
    {
        self.times(self)
    }

    /// Multiple squarings in GF(p): return x^(2^n)
    pub fn xsquare(self, n: u32) -> (r: Self)
        ensures
            r@ == pow(self@, pow2(n as nat)) % p(),
            r.rep() == xsquare_word(self.rep(), n as nat),
            n == 0 ==> r == self,
    {
        let mut x = self;
        let mut i: u32 = 0;
        proof {
            lemma_pow_one(self@, p());
        }
        while i < n
            invariant
                i <= n,
                x@ == pow(self@, pow2(i as nat)) % p(),
                x.0 == xsquare_word(self.0, i as nat),
            decreases n - i,
        {
            let y = x.square();
            proof {
                lemma_square_pow2(x@, self@, i as nat, p());
            }
            x = y;
            i = i + 1;
        }
        x
    }

    /// Compute a^((p-3)/4), used for inversion and Legendre
    /// to compute a^(p-2) and a^((p-1)/2)
    fn exp_p_minus_three_div_four(self) -> (r: Self)
        ensures
            r@ == pow(self@, 0x3fff_ffff_ffff_ffbf) % p(),
    {
        let x = self;
        proof {
            lemma_pow_one(x@, p());
            lemma2_to64();
        }
        let s = x.square();
        let x2 = x.times(s);  // x^(2^2 - 1)
        proof {
            lemma_square_step(x@, x, x, s, x2, 1, 1);
        }
        let s = x2.square();
        let x3 = x.times(s);  // x^(2^3 - 1)
        proof {
            lemma_square_step(x@, x2, x, s, x3, 3, 1);
        }
        let s = x3.xsquare(3);
        let x6 = x3.times(s);  // x^(2^6 - 1)
        proof {
            lemma_chain(x@, x3, x3, s, x6, 7, 3, 7);
        }
        let s = x6.xsquare(6);
        let x12 = x6.times(s);  // x^(2^12 - 1)
        proof {
            lemma_chain(x@, x6, x6, s, x12, 63, 6, 63);
        }
        let s = x12.xsquare(12);
        let x24 = x12.times(s);  // x^(2^24 - 1)
        proof {
            lemma_chain(x@, x12, x12, s, x24, 0xfff, 12, 0xfff);
        }
        let s = x24.xsquare(24);
        let x48 = x24.times(s);  // x^(2^48 - 1)
        proof {
            lemma_chain(x@, x24, x24, s, x48, 0xff_ffff, 24, 0xff_ffff);
        }
        let s = x48.xsquare(6);
        let x54 = x6.times(s);  // x^(2^54 - 1)
        proof {
            lemma_chain(x@, x48, x6, s, x54, 0xffff_ffff_ffff, 6, 63);
        }
        let s = x54.square();
        let x55 = x.times(s);  // x^(2^55 - 1)
        proof {
            lemma_square_step(x@, x54, x, s, x55, 0x3f_ffff_ffff_ffff, 1);
        }
        // x^(2^62 - 2^7 + 2^6 - 1) = x^((p-3)/4)
        let s = x55.xsquare(7);
        let r = x6.times(s);
        proof {
            lemma_chain(x@, x55, x6, s, r, 0x7f_ffff_ffff_ffff, 7, 63);
        }
        r
    }

    /// Inversion in GF(p); if the input is zero, then zero is returned.
    pub fn invert(self) -> (r: Self)
        ensures
            r@ == pow(self@, (p() - 2) as nat) % p(),
            self@ != 0 ==> (self@ * r@) % p() == 1,
            self@ == 0 ==> r@ == 0,
    {
        // This uses Fermat's little theorem: 1/x = x^(p-2) mod p.
        let x = self.exp_p_minus_three_div_four();
        let s = x.xsquare(2);
        let r = self.times(s);
        proof {
            lemma_pow_one(self@, p());
            lemma2_to64();
            lemma_chain(self@, x, self, s, r, 0x3fff_ffff_ffff_ffbf, 2, 1);
            lemma_inverse_mod_p(self@);
        }
        r
    }
}

impl GFp {
    /// Test of equality with zero; return value is 0xFFFFFFFF
    /// if this value is equal to zero, or 0 otherwise.
    pub fn iszero(self) -> (r: u32)
        ensures
            r == (if self@ == 0 { 0xffff_ffffu32 } else { 0u32 }),
    {
        // As we use a non-canonical representation, then the zero
        // value can be either 0 or p.
        let t0 = self.0;
        let t1 = self.0 ^ GFp::MOD;
        proof {
            lemma_xor_zero(self.0, GFp::MOD);
            lemma_mod_p_small(self.0 as int);
        }
        either_zero(t0, t1)
    }

    /// Test of equality between two GF(p) elements; return value is
    /// 0xFFFFFFFF if the two values are equal, or 0 otherwise.
    pub fn equals(self, rhs: &Self) -> (r: u32)
        ensures
            r == (if self@ == rhs@ { 0xffff_ffffu32 } else { 0u32 }),
    {
        let d = self.minus(*rhs);
        proof {
            lemma_small_difference(self@, rhs@);
        }
        d.iszero()
    }

    /// Select a value: this function returns x0 if c == 0, or x1 if
    /// c == 0xFFFFFFFF.
    pub fn select(x0: &Self, x1: &Self, c: u32) -> (r: Self)
        ensures
            r.rep() == x0.rep() ^ (spread32(c) & (x0.rep() ^ x1.rep())),
            c == 0 ==> r == *x0,
            c == 0xffff_ffff ==> r == *x1,
    {
        let c_64 = spread_mask(c);
        proof {
            lemma_xor_select(x0.0, x1.0);
        }
        GFp(x0.0 ^ (c_64 & (x0.0 ^ x1.0)))
    }

    /// Negate this value.
    pub fn set_neg(&mut self)
        ensures
            final(self)@ == (-old(self)@) % p(),
    {
        self.0 = self.negate().0;
    }

    /// Multiplication in GF(p) by a small integer.
    pub fn mul_small(self, rhs: u32) -> (r: Self)
        ensures
            r@ == (self@ * rhs) % p(),
    {
        // As the rhs size is bounded, we can do a slightly cheaper
        // reduction modulo p
        let (xl, xh) = umull(self.0, rhs as u64);
        proof {
            assert((self.0 as int) * (rhs as int) <= 0xffff_ffff_ffff_ffff * 0xffff_ffff)
                by (nonlinear_arith);
        }
        let (s, cc) = addcarry_u64(xl, xh * 257, 0);
        let r = GFp(s + 257 * (cc as u64));
        proof {
            let a = self.0 as int;
            assert(r.0 as int == a * rhs - (xh + cc) * p());
            lemma_mod_shift(a * rhs, (xh + cc) as int, p());
            lemma_mul_residues(a, rhs as int, p());
        }
        r
    }

    /// Multiply this value by a small integer.
    pub fn set_mul_small(&mut self, rhs: u32)
        ensures
            final(self)@ == (old(self)@ * rhs) % p(),
    {
        let r = self.mul_small(rhs);
        self.0 = r.0;
    }

    /// Double this value.
    pub fn set_mul2(&mut self)
        ensures
            final(self)@ == (2 * old(self)@) % p(),
    {
        let r = self.double();
        self.0 = r.0;
    }

    /// Compute the sum of this value with itself.
    pub fn mul2(self) -> (r: Self)
        ensures
            r@ == (2 * self@) % p(),
    {
        let mut r = self;
        r.set_mul2();
        r
    }

    /// Compute the quadruple of this value.
    pub fn mul4(self) -> (r: Self)
        ensures
            r@ == (4 * self@) % p(),
    {
        let mut r = self;
        r.set_mul4();
        r
    }

    /// Halve this value.
    pub fn set_half(&mut self)
        ensures
            final(self)@ == (old(self)@ * half_p()) % p(),
            (2 * final(self)@) % p() == old(self)@,
    {
        self.0 = self.half().0;
    }

    /// Quadruple this value.
    pub fn set_mul4(&mut self)
        ensures
            final(self)@ == (4 * old(self)@) % p(),
    {
        let ghost a = self@;
        self.set_mul2();
        self.set_mul2();
        proof {
            lemma_mul_residues(2, 2 * a, p());
        }
    }

    /// Multiply this value by 8
    pub fn set_mul8(&mut self)
        ensures
            final(self)@ == (8 * old(self)@) % p(),
    {
        let ghost a = self@;
        self.set_mul2();
        self.set_mul2();
        self.set_mul2();
        proof {
            lemma_mul_residues(2, 2 * a, p());
            lemma_mul_residues(2, 4 * a, p());
        }
    }

    /// Compute the octuple of this value.
    pub fn mul8(self) -> (r: Self)
        ensures
            r@ == (8 * self@) % p(),
    {
        let mut r = self;
        r.set_mul8();
        r
    }

    /// Set this value to either a or b, depending on whether the control
    /// word ctl is 0x00000000 or 0xFFFFFFFF, respectively.
    /// The value of ctl MUST be either 0x00000000 or 0xFFFFFFFF.
    pub fn set_select(&mut self, a: &Self, b: &Self, ctl: u32)
        requires
            ctl == 0 || ctl == 0xffff_ffff,
        ensures
            *final(self) == (if ctl == 0 { *a } else { *b }),
    {
        self.0 = GFp::select(a, b, ctl).0;
    }

    /// Set this value to rhs if ctl is 0xFFFFFFFF; leave it unchanged if
    /// ctl is 0x00000000.
    /// The value of ctl MUST be either 0x00000000 or 0xFFFFFFFF.
    pub fn set_cond(&mut self, rhs: &Self, ctl: u32)
        requires
            ctl == 0 || ctl == 0xffff_ffff,
        ensures
            *final(self) == (if ctl == 0 { *old(self) } else { *rhs }),
    {
        let wa = self.0;
        let wb = rhs.0;
        let ctl_64 = spread_mask(ctl);
        proof {
            lemma_xor_select(wa, wb);
        }
        self.0 = wa ^ (ctl_64 & (wa ^ wb));
    }

    /// Exchange the values of a and b is ctl is 0xFFFFFFFF; leave both
    /// values unchanged if ctl is 0x00000000.
    /// The value of ctl MUST be either 0x00000000 or 0xFFFFFFFF.
    pub fn condswap(a: &mut Self, b: &mut Self, c: u32)
        requires
            c == 0 || c == 0xffff_ffff,
        ensures
            *final(a) == (if c == 0 { *old(a) } else { *old(b) }),
            *final(b) == (if c == 0 { *old(b) } else { *old(a) }),
    {
        let wa = a.0;
        let wb = b.0;
        let c_64 = spread_mask(c);
        let wc = c_64 & (wa ^ wb);
        proof {
            lemma_xor_select(wa, wb);
        }
        a.0 = wa ^ wc;
        b.0 = wb ^ wc;
    }

    /// Invert this value (zero is left unchanged).
    pub fn set_invert(&mut self)
        ensures
            final(self)@ == pow(old(self)@, (p() - 2) as nat) % p(),
            old(self)@ != 0 ==> (old(self)@ * final(self)@) % p() == 1,
            old(self)@ == 0 ==> final(self)@ == 0,
    {
        self.0 = self.invert().0;
    }

    /// Negate this value if ctl is 0xFFFFFFFF; leave it unchanged if
    /// ctl is 0x00000000.
    /// The value of ctl MUST be either 0x00000000 or 0xFFFFFFFF.
    pub fn set_condneg(&mut self, ctl: u32)
        requires
            ctl == 0 || ctl == 0xffff_ffff,
        ensures
            final(self)@ == (if ctl == 0 { old(self)@ } else { (-old(self)@) % p() }),
            ctl == 0 ==> *final(self) == *old(self),
    {
        let v = self.negate();
        self.set_cond(&v, ctl);
    }

    /// Get the "hash" of the value: the word that holds it.
    pub fn hashcode(self) -> (r: u64)
        ensures
            r == self.rep(),
    {
        self.0
    }
}

impl GFp {
    /// The control word 0xFFFFFFFF when the element (in 0..p-1) is odd, 0 when even.
    fn odd_mask(self) -> (c: u32)
        ensures
            c == (if self@ % 2 == 0 { 0u32 } else { 0xffff_ffffu32 }),
    {
        let n = self.to_u64();
        proof {
            lemma_low_bit(n);
        }
        0u32.wrapping_sub((n & 1) as u32)
    }

    /// Replace this value by whichever of itself and its negation is even.
    fn set_even(&mut self)
        ensures
            final(self)@ == even_root(old(self)@),
    {
        let ctl = self.odd_mask();
        proof {
            if self@ % 2 != 0 {
                lemma_mod_shift(-self@, 1, p());
                lemma_small_mod((p() - self@) as nat, p() as nat);
            }
        }
        self.set_condneg(ctl);
    }

    /// Negate this value when the word that holds it is odd.
    fn set_sign_by_word(&mut self)
        ensures
            final(self)@ == signed_root(old(self).rep()),
    {
        proof {
            lemma_low_bit(self.0);
        }
        let ctl = 0u32.wrapping_sub((self.0 & 1) as u32);
        self.set_condneg(ctl);
    }

    /// Keep this value if ctl is 0xFFFFFFFF, clear it to zero if ctl is 0.
    fn keep_if(&mut self, ctl: u32)
        requires
            ctl == 0 || ctl == 0xffff_ffff,
        ensures
            ctl == 0 ==> final(self)@ == 0 && final(self).rep() == 0,
            ctl != 0 ==> *final(self) == *old(self),
    {
        let m = spread_mask(ctl);
        proof {
            lemma_and_mask(self.0);
        }
        self.0 = self.0 & m;
    }

    /// x^(2^56 - 1), the common prefix of the root computations.
    fn exp_two56_minus_one(self) -> (r: Self)
        ensures
            r@ == pow(self@, 0xff_ffff_ffff_ffff) % p(),
            r.rep() == chain56_word(self.rep()),
    {
        let x = self;
        proof {
            lemma_pow_one(x@, p());
            lemma2_to64();
        }
        let s = x.square();
        let x2 = x.times(s);
        proof {
            lemma_square_step(x@, x, x, s, x2, 1, 1);
        }
        let s = x2.xsquare(2);
        let x4 = x2.times(s);
        proof {
            lemma_chain(x@, x2, x2, s, x4, 3, 2, 3);
        }
        let s = x4.xsquare(2);
        let x6 = x2.times(s);
        proof {
            lemma_chain(x@, x4, x2, s, x6, 15, 2, 3);
        }
        let s = x6.square();
        let x7 = x.times(s);
        proof {
            lemma_square_step(x@, x6, x, s, x7, 63, 1);
        }
        let s = x7.xsquare(7);
        let x14 = x7.times(s);
        proof {
            lemma_chain(x@, x7, x7, s, x14, 127, 7, 127);
        }
        let s = x14.xsquare(14);
        let x28 = x14.times(s);
        proof {
            lemma_chain(x@, x14, x14, s, x28, 0x3fff, 14, 0x3fff);
        }
        let s = x28.xsquare(28);
        let x56 = x28.times(s);
        proof {
            lemma_chain(x@, x28, x28, s, x56, 0xfff_ffff, 28, 0xfff_ffff);
        }
        x56
    }

    /// Legendre symbol of this value: 0 for zero, 1 for a non-zero square
    /// and -1 otherwise, computed as x^((p-1)/2).
    pub fn legendre(self) -> (r: i32)
        ensures
            r as int == legendre_of(self@),
            r == (if self@ == 0 {
                0i32
            } else if is_power_mod(self@, 2, p()) {
                1i32
            } else {
                -1i32
            }),
    {
        let l0 = self.exp_p_minus_three_div_four();
        let s = l0.square();
        let l = self.times(s);
        proof {
            lemma_pow_one(self@, p());
            lemma_square_step(self@, l0, self, s, l, 0x3fff_ffff_ffff_ffbf, 1);
        }
        let c1 = l.equals(&GFp::one());
        let c2 = l.equals(&GFp::minus_one());
        proof {
            lemma_u32_low_bit();
        }
        let cc1 = (c1 & 1) as i32;
        let cc2 = (c2 & 1) as i32;
        proof {
            lemma_legendre_of_square(self@);
        }
        cc1 - cc2
    }

    /// Square root: returns (y, 0xFFFFFFFF) with y a square root when this
    /// value is a square, and (0, 0) otherwise. The root is the candidate
    /// x^((p+1)/4), negated when the word that holds it is odd.
    pub fn sqrt(self) -> (r: (Self, u32))
        ensures
            sqrt_result(self, r.0, r.1),
            (r.1 == 0xffff_ffff) == is_power_mod(self@, 2, p()),
    {
        proof {
            lemma_sqrt_ok_iff_square(self);
        }
        // We use that p = 3 mod 4 to compute the square root by
        // x^((p+1)/4) mod p. We have (p+1)/4 = 2^62 - 2^6
        let x56 = self.exp_two56_minus_one();
        let mut y = x56.xsquare(6);
        y.set_sign_by_word();
        let s = y.square();
        let r = s.equals(&self);
        y.keep_if(r);
        (y, r)
    }

    /// Fourth root of this value. Returned value is 0xFFFFFFFF if
    /// the operation succeeded (value was indeed some element to the power of four), or
    /// 0x00000000 otherwise. On success, the chosen root is the one whose
    /// least significant bit (as an integer in [0..p-1]) is zero. On
    /// failure, the returned root is 0.
    pub fn fourth_root(self) -> (r: (Self, u32))
        ensures
            ({
                let c = fourth_root_candidate(self@);
                &&& r.1 == (if pow(c, 4) % p() == self@ { 0xffff_ffffu32 } else { 0u32 })
                &&& r.0@ == (if pow(c, 4) % p() == self@ { even_root(c) } else { 0 })
            }),
            (r.1 == 0xffff_ffff) == is_power_mod(self@, 4, p()),
            r.1 == 0xffff_ffff ==> pow(r.0@, 4) % p() == self@ && r.0@ % 2 == 0,
    {
        proof {
            lemma_fourth_root_iff(self@);
        }
        let x56 = self.exp_two56_minus_one();
        let mut y = x56.xsquare(5);
        proof {
            lemma2_to64();
            lemma_pow_of_pow(x56@, self@, 0xff_ffff_ffff_ffff, 32, p());
        }
        // Check that the obtained value is indeed a fourth root of the
        // source value; if not, clear this value.
        let s1 = y.square();
        let s = s1.square();
        proof {
            lemma_pow_one(y@, p());
            lemma_square_pow2(y@, y@, 0, p());
            lemma_square_pow2(s1@, y@, 1, p());
        }
        let r = s.equals(&self);
        y.keep_if(r);
        // Conditionally negate this value, so that the chosen root
        // follows the expected convention.
        y.set_even();
        (y, r)
    }

    /// Eighth root of this value. Returned value is 0xFFFFFFFF if
    /// the operation succeeded (value was indeed some element to the power of eight), or
    /// 0x00000000 otherwise. On success, the chosen root is the one whose
    /// least significant bit (as an integer in [0..p-1]) is zero. On
    /// failure, the returned root is 0.
    pub fn eighth_root(self) -> (r: (Self, u32))
        ensures
            ({
                let c = eighth_root_candidate(self@);
                &&& r.1 == (if pow(c, 8) % p() == self@ { 0xffff_ffffu32 } else { 0u32 })
                &&& r.0@ == (if pow(c, 8) % p() == self@ { even_root(c) } else { 0 })
            }),
            (r.1 == 0xffff_ffff) == is_power_mod(self@, 8, p()),
            r.1 == 0xffff_ffff ==> pow(r.0@, 8) % p() == self@ && r.0@ % 2 == 0,
    {
        proof {
            lemma_eighth_root_iff(self@);
        }
        let x56 = self.exp_two56_minus_one();
        let mut y = x56.xsquare(4);
        proof {
            lemma2_to64();
            lemma_pow_of_pow(x56@, self@, 0xff_ffff_ffff_ffff, 16, p());
        }
        // Check that the obtained value is indeed an eighth root of the
        // source value; if not, clear this value.
        let s = y.xsquare(3);
        let r = s.equals(&self);
        y.keep_if(r);
        y.set_even();
        (y, r)
    }
}

impl GFp {
    /// Square every element of an array in place.
    fn batch_square<const N: usize>(v: &mut [Self; N])
        ensures
            forall|i: int| 0 <= i < N ==> (#[trigger] final(v)@[i])@ == (old(v)@[i]@ * old(v)@[i]@) % p(),
            forall|i: int|
                0 <= i < N ==> (#[trigger] final(v)@[i]).rep() == mul_word(old(v)@[i].rep(), old(v)@[i].rep()),
    {
        let mut i: usize = 0;
        while i < N
            invariant
                i <= N,
                forall|j: int| 0 <= j < i ==> (#[trigger] v@[j])@ == (old(v)@[j]@ * old(v)@[j]@) % p(),
                forall|j: int|
                    0 <= j < i ==> (#[trigger] v@[j]).rep() == mul_word(old(v)@[j].rep(), old(v)@[j].rep()),
                forall|j: int| i <= j < N ==> #[trigger] v@[j] == old(v)@[j],
            decreases N - i,
        {
            let y = v[i].square();
            v[i] = y;
            i = i + 1;
        }
    }
}

impl GFp {
    /// Multiply every element of an array in place by the matching element of another.
    fn batch_mul<const N: usize>(dest: &mut [Self; N], src: &[Self; N])
        ensures
            forall|i: int|
                0 <= i < N ==> (#[trigger] final(dest)@[i])@ == (old(dest)@[i]@ * src@[i]@) % p(),
            forall|i: int|
                0 <= i < N ==> (#[trigger] final(dest)@[i]).rep() == mul_word(old(dest)@[i].rep(), src@[i].rep()),
    {
        let mut i: usize = 0;
        while i < N
            invariant
                i <= N,
                forall|j: int|
                    0 <= j < i ==> (#[trigger] dest@[j])@ == (old(dest)@[j]@ * src@[j]@) % p(),
                forall|j: int|
                    0 <= j < i ==> (#[trigger] dest@[j]).rep() == mul_word(old(dest)@[j].rep(), src@[j].rep()),
                forall|j: int| i <= j < N ==> #[trigger] dest@[j] == old(dest)@[j],
            decreases N - i,
        {
            let y = dest[i].times(src[i]);
            dest[i] = y;
            i = i + 1;
        }
    }

    /// Square every element of an array `n` times in place.
    fn batch_xsquare<const N: usize>(v: &mut [Self; N], n: u32)
        ensures
            forall|i: int|
                0 <= i < N ==> (#[trigger] final(v)@[i])@ == pow(old(v)@[i]@, pow2(n as nat)) % p(),
            forall|i: int|
                0 <= i < N ==> (#[trigger] final(v)@[i]).rep() == xsquare_word(old(v)@[i].rep(), n as nat),
    {
        let ghost v0 = *v;
        let mut k: u32 = 0;
        proof {
            assert forall|i: int| 0 <= i < N implies (#[trigger] v@[i])@ == pow(v0@[i]@, pow2(0))
                % p() by {
                lemma_pow_one(v0@[i]@, p());
            }
        }
        while k < n
            invariant
                k <= n,
                forall|i: int| 0 <= i < N ==> (#[trigger] v@[i])@ == pow(v0@[i]@, pow2(k as nat)) % p(),
                forall|i: int| 0 <= i < N ==> (#[trigger] v@[i]).rep() == xsquare_word(v0@[i].rep(), k as nat),
            decreases n - k,
        {
            let ghost before = *v;
            GFp::batch_square(v);
            proof {
                assert forall|i: int| 0 <= i < N implies (#[trigger] v@[i])@ == pow(
                    v0@[i]@,
                    pow2((k + 1) as nat),
                ) % p() by {
                    lemma_square_pow2(before@[i]@, v0@[i]@, k as nat, p());
                }
            }
            k = k + 1;
        }
    }

    /// The words x^(2^56 - 1) of all elements of an array, computed one
    /// link of the addition chain at a time.
    fn batch_chain56<const N: usize>(x: &[Self; N]) -> (r: [Self; N])
        ensures
            forall|i: int| 0 <= i < N ==> (#[trigger] r@[i]).rep() == chain56_word(x@[i].rep()),
    {
        // x2 = x * x.square()
        let mut t = *x;
        GFp::batch_square(&mut t);
        let mut x2 = *x;
        GFp::batch_mul(&mut x2, &t);
        // x4 = x2 * x2.xsquare(2)
        let mut t = x2;
        GFp::batch_xsquare(&mut t, 2);
        let mut x4 = x2;
        GFp::batch_mul(&mut x4, &t);
        // x6 = x2 * x4.xsquare(2)
        let mut t = x4;
        GFp::batch_xsquare(&mut t, 2);
        let mut x6 = x2;
        GFp::batch_mul(&mut x6, &t);
        // x7 = x * x6.square()
        let mut t = x6;
        GFp::batch_square(&mut t);
        let mut x7 = *x;
        GFp::batch_mul(&mut x7, &t);
        // x14 = x7 * x7.xsquare(7)
        let mut t = x7;
        GFp::batch_xsquare(&mut t, 7);
        let mut x14 = x7;
        GFp::batch_mul(&mut x14, &t);
        // x28 = x14 * x14.xsquare(14)
        let mut t = x14;
        GFp::batch_xsquare(&mut t, 14);
        let mut x28 = x14;
        GFp::batch_mul(&mut x28, &t);
        // x56 = x28 * x28.xsquare(28)
        let mut t = x28;
        GFp::batch_xsquare(&mut t, 28);
        let mut x56 = x28;
        GFp::batch_mul(&mut x56, &t);
        x56
    }

    /// Square roots of all elements of an array: entry `i` is what
    /// `inputs[i].sqrt()` returns. The exponentiation is shared by all
    /// entries, one stage at a time.
    pub fn batch_sqrt<const N: usize>(inputs: &[Self; N]) -> (r: [(Self, u32); N])
        ensures
            forall|i: int| 0 <= i < N ==> sqrt_result(inputs@[i], (#[trigger] r@[i]).0, r@[i].1),
            forall|i: int|
                0 <= i < N ==> ((#[trigger] r@[i]).1 == 0xffff_ffff) == is_power_mod(inputs@[i]@, 2, p()),
    {
        let x56 = GFp::batch_chain56(inputs);
        // y = x56.xsquare(6)
        let mut y = x56;
        GFp::batch_xsquare(&mut y, 6);
        let mut results = [(GFp(0), 0u32); N];
        let mut i: usize = 0;
        while i < N
            invariant
                i <= N,
                forall|j: int| 0 <= j < N ==> (#[trigger] y@[j]).rep() == sqrt_word(inputs@[j].rep()),
                forall|j: int| 0 <= j < i ==> sqrt_result(inputs@[j], (#[trigger] results@[j]).0, results@[j].1),
            decreases N - i,
        {
            let mut yi = y[i];
            yi.set_sign_by_word();
            let s = yi.square();
            let r = s.equals(&inputs[i]);
            yi.keep_if(r);
            results[i] = (yi, r);
            i = i + 1;
        }
        proof {
            assert forall|i: int| 0 <= i < N implies ((#[trigger] results@[i]).1 == 0xffff_ffff)
                == is_power_mod(inputs@[i]@, 2, p()) by {
                lemma_sqrt_ok_iff_square(inputs@[i]);
            }
        }
        results
    }

    /// Batch inversion with Montgomery's trick: entry `i` of the result
    /// is computed from one field inversion of the product of all
    /// (non-zero) inputs. Zero inputs give zero.
    pub fn batch_invert_fixed<const N: usize>(inputs: &[Self; N]) -> (r: [Self; N])
        ensures
            forall|i: int|
                0 <= i < N ==> (#[trigger] r@[i])@ == batch_inverse_value(values(inputs@), i, p()),
            forall|i: int|
                0 <= i < N ==> (#[trigger] r@[i])@ == pow(inputs@[i]@, (p() - 2) as nat) % p(),
    {
        let r = GFp::montgomery_invert(inputs);
        proof {
            lemma_batch_inverse_is_inverse(inputs@);
        }
        r
    }

    /// Montgomery's trick: running products, one inversion, and a backward
    /// pass; zero inputs give zero.
    fn montgomery_invert<const N: usize>(inputs: &[Self; N]) -> (r: [Self; N])
        ensures
            forall|i: int|
                0 <= i < N ==> (#[trigger] r@[i])@ == batch_inverse_value(values(inputs@), i, p()),
    {
        if N == 0 {
            return [GFp(0); N];
        }
        let mut tmp_inputs = *inputs;
        let mut is_zero_mask = [0u32; N];
        let one = GFp::one();
        let mut i: usize = 0;
        while i < N
            invariant
                i <= N,
                one@ == 1,
                forall|j: int| 0 <= j < i ==> (#[trigger] tmp_inputs@[j])@ == nz(values(inputs@)[j]),
                forall|j: int| i <= j < N ==> #[trigger] tmp_inputs@[j] == inputs@[j],
                forall|j: int| 0 <= j < i ==> (#[trigger] is_zero_mask@[j]) == (if inputs@[j]@ == 0 { 0xffff_ffffu32 } else { 0u32 }),
            decreases N - i,
        {
            let z = tmp_inputs[i].iszero();
            is_zero_mask[i] = z;
            let mut t = tmp_inputs[i];
            t.set_cond(&one, z);
            tmp_inputs[i] = t;
            i = i + 1;
        }
        let mut scratch = [GFp(0); N];
        scratch[0] = tmp_inputs[0];
        proof {
            reveal_with_fuel(prefix, 2);
            assert(values(inputs@)[0] == inputs@[0]@);
            lemma_small_mod(nz(values(inputs@)[0]) as nat, p() as nat);
        }
        let mut i: usize = 1;
        while i < N
            invariant
                1 <= i <= N,
                forall|j: int| 0 <= j < N ==> (#[trigger] tmp_inputs@[j])@ == nz(values(inputs@)[j]),
                forall|j: int| 0 <= j < i ==> (#[trigger] scratch@[j])@ == prefix(values(inputs@), j + 1, p()),
            decreases N - i,
        {
            let v = scratch[i - 1].times(tmp_inputs[i]);
            scratch[i] = v;
            i = i + 1;
        }
        let mut inv = scratch[N - 1].invert();
        let mut results = [GFp(0); N];
        let zero = GFp::zero();
        let ghost a = pow(prefix(values(inputs@), N as int, p()), (p() - 2) as nat) % p();
        assert(inputs@.len() == N);
        let mut i: usize = N - 1;
        proof {
            lemma_small_mod(a as nat, p() as nat);
        }
        while i > 0
            invariant
                i < N,
                zero@ == 0,
                a == pow(prefix(values(inputs@), N as int, p()), (p() - 2) as nat) % p(),
                forall|j: int| 0 <= j < N ==> (#[trigger] tmp_inputs@[j])@ == nz(values(inputs@)[j]),
                forall|j: int| 0 <= j < N ==> (#[trigger] scratch@[j])@ == prefix(values(inputs@), j + 1, p()),
                forall|j: int| 0 <= j < N ==> (#[trigger] is_zero_mask@[j]) == (if inputs@[j]@ == 0 { 0xffff_ffffu32 } else { 0u32 }),
                inv@ == (a * suffix(values(inputs@), i + 1, p())) % p(),
                forall|j: int| i < j < N ==> (#[trigger] results@[j])@ == batch_inverse_value(values(inputs@), j, p()),
            decreases i,
        {
            let mut res = scratch[i - 1].times(inv);
            res.set_cond(&zero, is_zero_mask[i]);
            results[i] = res;
            let ninv = inv.times(tmp_inputs[i]);
            proof {
                lemma_suffix_step(values(inputs@), i as int, a, inv@, p());
            }
            inv = ninv;
            i = i - 1;
        }
        inv.set_cond(&zero, is_zero_mask[0]);
        results[0] = inv;
        proof {
            assert(prefix(values(inputs@), 0, p()) == 1);
            lemma_small_mod(inv@ as nat, p() as nat);
        }
        results
    }
}

impl vstd::std_specs::ops::AddSpecImpl<GFp> for GFp {
    open spec fn obeys_add_spec() -> bool {
        false
    }

    open spec fn add_req(self, other: GFp) -> bool {
        true
    }

    closed spec fn add_spec(self, other: GFp) -> GFp {
        GFp(((self@ + other@) % p()) as u64)
    }
}

impl core::ops::Add<GFp> for GFp {
    type Output = GFp;

    fn add(self, other: GFp) -> (r: GFp)
        ensures
            r@ == (self@ + other@) % p(),
    {
        GFp::plus(self, other)
    }
}

impl<'a> vstd::std_specs::ops::AddSpecImpl<&'a GFp> for GFp {
    open spec fn obeys_add_spec() -> bool {
        false
    }

    open spec fn add_req(self, other: &'a GFp) -> bool {
        true
    }

    closed spec fn add_spec(self, other: &'a GFp) -> GFp {
        GFp(((self@ + other@) % p()) as u64)
    }
}

impl<'a> core::ops::Add<&'a GFp> for GFp {
    type Output = GFp;

    fn add(self, other: &'a GFp) -> (r: GFp)
        ensures
            r@ == (self@ + other@) % p(),
    {
        GFp::plus(self, *other)
    }
}

impl<'a> vstd::std_specs::ops::AddSpecImpl<GFp> for &'a GFp {
    open spec fn obeys_add_spec() -> bool {
        false
    }

    open spec fn add_req(self, other: GFp) -> bool {
        true
    }

    closed spec fn add_spec(self, other: GFp) -> GFp {
        GFp(((self@ + other@) % p()) as u64)
    }
}

impl<'a> core::ops::Add<GFp> for &'a GFp {
    type Output = GFp;

    fn add(self, other: GFp) -> (r: GFp)
        ensures
            r@ == (self@ + other@) % p(),
    {
        GFp::plus(*self, other)
    }
}

impl<'a> vstd::std_specs::ops::AddSpecImpl<&'a GFp> for &'a GFp {
    open spec fn obeys_add_spec() -> bool {
        false
    }

    open spec fn add_req(self, other: &'a GFp) -> bool {
        true
    }

    closed spec fn add_spec(self, other: &'a GFp) -> GFp {
        GFp(((self@ + other@) % p()) as u64)
    }
}

impl<'a> core::ops::Add<&'a GFp> for &'a GFp {
    type Output = GFp;

    fn add(self, other: &'a GFp) -> (r: GFp)
        ensures
            r@ == (self@ + other@) % p(),
    {
        GFp::plus(*self, *other)
    }
}

impl core::ops::AddAssign<GFp> for GFp {
    fn add_assign(&mut self, other: GFp)
        ensures
            final(self)@ == (old(self)@ + other@) % p(),
    {
        *self = GFp::plus(*self, other);
    }
}

impl<'a> core::ops::AddAssign<&'a GFp> for GFp {
    fn add_assign(&mut self, other: &'a GFp)
        ensures
            final(self)@ == (old(self)@ + other@) % p(),
    {
        *self = GFp::plus(*self, *other);
    }
}

impl vstd::std_specs::ops::SubSpecImpl<GFp> for GFp {
    open spec fn obeys_sub_spec() -> bool {
        false
    }

    open spec fn sub_req(self, other: GFp) -> bool {
        true
    }

    closed spec fn sub_spec(self, other: GFp) -> GFp {
        GFp(((self@ - other@) % p()) as u64)
    }
}

impl core::ops::Sub<GFp> for GFp {
    type Output = GFp;

    fn sub(self, other: GFp) -> (r: GFp)
        ensures
            r@ == (self@ - other@) % p(),
    {
        GFp::minus(self, other)
    }
}

impl<'a> vstd::std_specs::ops::SubSpecImpl<&'a GFp> for GFp {
    open spec fn obeys_sub_spec() -> bool {
        false
    }

    open spec fn sub_req(self, other: &'a GFp) -> bool {
        true
    }

    closed spec fn sub_spec(self, other: &'a GFp) -> GFp {
        GFp(((self@ - other@) % p()) as u64)
    }
}

impl<'a> core::ops::Sub<&'a GFp> for GFp {
    type Output = GFp;

    fn sub(self, other: &'a GFp) -> (r: GFp)
        ensures
            r@ == (self@ - other@) % p(),
    {
        GFp::minus(self, *other)
    }
}

impl<'a> vstd::std_specs::ops::SubSpecImpl<GFp> for &'a GFp {
    open spec fn obeys_sub_spec() -> bool {
        false
    }

    open spec fn sub_req(self, other: GFp) -> bool {
        true
    }

    closed spec fn sub_spec(self, other: GFp) -> GFp {
        GFp(((self@ - other@) % p()) as u64)
    }
}

impl<'a> core::ops::Sub<GFp> for &'a GFp {
    type Output = GFp;

    fn sub(self, other: GFp) -> (r: GFp)
        ensures
            r@ == (self@ - other@) % p(),
    {
        GFp::minus(*self, other)
    }
}

impl<'a> vstd::std_specs::ops::SubSpecImpl<&'a GFp> for &'a GFp {
    open spec fn obeys_sub_spec() -> bool {
        false
    }

    open spec fn sub_req(self, other: &'a GFp) -> bool {
        true
    }

    closed spec fn sub_spec(self, other: &'a GFp) -> GFp {
        GFp(((self@ - other@) % p()) as u64)
    }
}

impl<'a> core::ops::Sub<&'a GFp> for &'a GFp {
    type Output = GFp;

    fn sub(self, other: &'a GFp) -> (r: GFp)
        ensures
            r@ == (self@ - other@) % p(),
    {
        GFp::minus(*self, *other)
    }
}

impl core::ops::SubAssign<GFp> for GFp {
    fn sub_assign(&mut self, other: GFp)
        ensures
            final(self)@ == (old(self)@ - other@) % p(),
    {
        *self = GFp::minus(*self, other);
    }
}

impl<'a> core::ops::SubAssign<&'a GFp> for GFp {
    fn sub_assign(&mut self, other: &'a GFp)
        ensures
            final(self)@ == (old(self)@ - other@) % p(),
    {
        *self = GFp::minus(*self, *other);
    }
}

impl vstd::std_specs::ops::MulSpecImpl<GFp> for GFp {
    open spec fn obeys_mul_spec() -> bool {
        false
    }

    open spec fn mul_req(self, other: GFp) -> bool {
        true
    }

    closed spec fn mul_spec(self, other: GFp) -> GFp {
        GFp(((self@ * other@) % p()) as u64)
    }
}

impl core::ops::Mul<GFp> for GFp {
    type Output = GFp;

    fn mul(self, other: GFp) -> (r: GFp)
        ensures
            r@ == (self@ * other@) % p(),
    {
        GFp::times(self, other)
    }
}

impl<'a> vstd::std_specs::ops::MulSpecImpl<&'a GFp> for GFp {
    open spec fn obeys_mul_spec() -> bool {
        false
    }

    open spec fn mul_req(self, other: &'a GFp) -> bool {
        true
    }

    closed spec fn mul_spec(self, other: &'a GFp) -> GFp {
        GFp(((self@ * other@) % p()) as u64)
    }
}

impl<'a> core::ops::Mul<&'a GFp> for GFp {
    type Output = GFp;

    fn mul(self, other: &'a GFp) -> (r: GFp)
        ensures
            r@ == (self@ * other@) % p(),
    {
        GFp::times(self, *other)
    }
}

impl<'a> vstd::std_specs::ops::MulSpecImpl<GFp> for &'a GFp {
    open spec fn obeys_mul_spec() -> bool {
        false
    }

    open spec fn mul_req(self, other: GFp) -> bool {
        true
    }

    closed spec fn mul_spec(self, other: GFp) -> GFp {
        GFp(((self@ * other@) % p()) as u64)
    }
}

impl<'a> core::ops::Mul<GFp> for &'a GFp {
    type Output = GFp;

    fn mul(self, other: GFp) -> (r: GFp)
        ensures
            r@ == (self@ * other@) % p(),
    {
        GFp::times(*self, other)
    }
}

impl<'a> vstd::std_specs::ops::MulSpecImpl<&'a GFp> for &'a GFp {
    open spec fn obeys_mul_spec() -> bool {
        false
    }

    open spec fn mul_req(self, other: &'a GFp) -> bool {
        true
    }

    closed spec fn mul_spec(self, other: &'a GFp) -> GFp {
        GFp(((self@ * other@) % p()) as u64)
    }
}

impl<'a> core::ops::Mul<&'a GFp> for &'a GFp {
    type Output = GFp;

    fn mul(self, other: &'a GFp) -> (r: GFp)
        ensures
            r@ == (self@ * other@) % p(),
    {
        GFp::times(*self, *other)
    }
}

impl core::ops::MulAssign<GFp> for GFp {
    fn mul_assign(&mut self, other: GFp)
        ensures
            final(self)@ == (old(self)@ * other@) % p(),
    {
        *self = GFp::times(*self, other);
    }
}

impl<'a> core::ops::MulAssign<&'a GFp> for GFp {
    fn mul_assign(&mut self, other: &'a GFp)
        ensures
            final(self)@ == (old(self)@ * other@) % p(),
    {
        *self = GFp::times(*self, *other);
    }
}

impl vstd::std_specs::ops::DivSpecImpl<GFp> for GFp {
    open spec fn obeys_div_spec() -> bool {
        false
    }

    open spec fn div_req(self, other: GFp) -> bool {
        true
    }

    closed spec fn div_spec(self, other: GFp) -> GFp {
        GFp(((self@ * (pow(other@, (p() - 2) as nat) % p())) % p()) as u64)
    }
}

impl core::ops::Div<GFp> for GFp {
    type Output = GFp;

    fn div(self, other: GFp) -> (r: GFp)
        ensures
            r@ == (self@ * (pow(other@, (p() - 2) as nat) % p())) % p(),
            other@ != 0 ==> (r@ * other@) % p() == self@,
    {
        GFp::divided_by(self, other)
    }
}

impl<'a> vstd::std_specs::ops::DivSpecImpl<&'a GFp> for GFp {
    open spec fn obeys_div_spec() -> bool {
        false
    }

    open spec fn div_req(self, other: &'a GFp) -> bool {
        true
    }

    closed spec fn div_spec(self, other: &'a GFp) -> GFp {
        GFp(((self@ * (pow(other@, (p() - 2) as nat) % p())) % p()) as u64)
    }
}

impl<'a> core::ops::Div<&'a GFp> for GFp {
    type Output = GFp;

    fn div(self, other: &'a GFp) -> (r: GFp)
        ensures
            r@ == (self@ * (pow(other@, (p() - 2) as nat) % p())) % p(),
            other@ != 0 ==> (r@ * other@) % p() == self@,
    {
        GFp::divided_by(self, *other)
    }
}

impl core::ops::DivAssign<GFp> for GFp {
    fn div_assign(&mut self, other: GFp)
        ensures
            final(self)@ == (old(self)@ * (pow(other@, (p() - 2) as nat) % p())) % p(),
            other@ != 0 ==> (final(self)@ * other@) % p() == old(self)@,
    {
        *self = GFp::divided_by(*self, other);
    }
}

impl<'a> core::ops::DivAssign<&'a GFp> for GFp {
    fn div_assign(&mut self, other: &'a GFp)
        ensures
            final(self)@ == (old(self)@ * (pow(other@, (p() - 2) as nat) % p())) % p(),
            other@ != 0 ==> (final(self)@ * other@) % p() == old(self)@,
    {
        *self = GFp::divided_by(*self, *other);
    }
}

impl vstd::std_specs::ops::NegSpecImpl for GFp {
    open spec fn obeys_neg_spec() -> bool {
        false
    }

    open spec fn neg_req(self) -> bool {
        true
    }

    closed spec fn neg_spec(self) -> GFp {
        GFp(((-self@) % p()) as u64)
    }
}

impl core::ops::Neg for GFp {
    type Output = GFp;

    fn neg(self) -> (r: GFp)
        ensures
            r@ == (-self@) % p(),
    {
        GFp::negate(self)
    }
}

impl<'a> vstd::std_specs::ops::NegSpecImpl for &'a GFp {
    open spec fn obeys_neg_spec() -> bool {
        false
    }

    open spec fn neg_req(self) -> bool {
        true
    }

    closed spec fn neg_spec(self) -> GFp {
        GFp(((-self@) % p()) as u64)
    }
}

impl<'a> core::ops::Neg for &'a GFp {
    type Output = GFp;

    fn neg(self) -> (r: GFp)
        ensures
            r@ == (-self@) % p(),
    {
        GFp::negate(*self)
    }
}

impl GFp {
    /// Encode this element over 8 bytes: the little-endian encoding of
    /// its value in 0..p-1.
    pub fn encode(self) -> (r: [u8; 8])
        ensures
            le_value(r@) as int == self@,
    {
        let r = self.to_u64();
        u64_to_le(r)
    }

    /// Decode an element from exactly 8 bytes. Returned values are
    /// (r, c): if the little-endian integer is lower than p, r is that
    /// element and c is 0xFFFFFFFFFFFFFFFF; otherwise (or if the length is
    /// not 8), r is zero and c is 0.
    pub fn decode(buf: &[u8]) -> (r: (Self, u64))
        ensures
            buf@.len() != 8 ==> r.1 == 0 && r.0@ == 0,
            buf@.len() == 8 ==> r.1 == (if (le_value(buf@) as int) < p() { u64::MAX } else { 0u64 }),
            buf@.len() == 8 ==> r.0@ == (if (le_value(buf@) as int) < p() { le_value(buf@) as int } else { 0 }),
            r.1 == 0 ==> r.0.rep() == 0,
    {
        if buf.len() != 8 {
            return (GFp(0), 0);
        }
        let v = le_word(buf, 0, 8);
        proof {
            assert(buf@.subrange(0, 8) =~= buf@);
        }
        GFp::from_u64(v)
    }

    /// Decode the provided bytes. The source slice can have arbitrary
    /// length; the bytes are interpreted with the unsigned little-endian
    /// convention (no sign bit), and the resulting integer is reduced
    /// modulo the field modulus p. By definition, this function does not
    /// enforce canonicality of the source value.
    pub fn decode_reduce(buf: &[u8]) -> (r: Self)
        ensures
            r@ == le_value(buf@) as int % p(),
    {
        let len = buf.len();
        if len == 0 {
            return GFp(0);
        }
        // The top chunk holds 1 to 8 bytes; every other chunk holds 8.
        let mut nn = len % 8;
        if nn == 0 {
            nn = 8;
        }
        let mut n = len - nn;
        let mut x = GFp(le_word(buf, n, nn));
        proof {
            assert(buf@.subrange(n as int, n + nn) =~= buf@.subrange(n as int, len as int));
            lemma_pow256_values();
        }
        while n > 0
            invariant
                n <= len,
                len == buf@.len(),
                n % 8 == 0,
                x@ == le_value(buf@.subrange(n as int, len as int)) as int % p(),
            decreases n,
        {
            n = n - 8;
            x = x.absorb_word(buf, n);
        }
        proof {
            assert(buf@.subrange(0, len as int) =~= buf@);
        }
        x
    }

    /// Take in the 8-byte chunk at `k`, below the bytes decoded so far:
    /// x <- 2^64 * x + chunk, with 2^64 = 257 (mod p).
    fn absorb_word(self, buf: &[u8], k: usize) -> (r: Self)
        requires
            k + 8 <= buf@.len(),
            self@ == le_value(buf@.subrange(k + 8, buf@.len() as int)) as int % p(),
        ensures
            r@ == le_value(buf@.subrange(k as int, buf@.len() as int)) as int % p(),
    {
        let len = buf.len();
        let d = le_word(buf, k, 8);
        let y = self.mul_small(257);
        let r = y.plus(GFp(d));
        proof {
            lemma_pow256_values();
            let lo = buf@.subrange(k as int, k + 8);
            let hi = buf@.subrange(k + 8, len as int);
            assert(buf@.subrange(k as int, len as int) =~= lo + hi);
            lemma_le_value_concat(lo, hi);
            lemma_decode_step(le_value(hi) as int, d as int);
            lemma_small_mod(d as nat, 0x1_0000_0000_0000_0000);
        }
        r
    }

    /// Set this value to the decoding of the bytes, reduced modulo p.
    pub fn set_decode_reduce(&mut self, buf: &[u8])
        ensures
            final(self)@ == le_value(buf@) as int % p(),
    {
        let r = GFp::decode_reduce(buf);
        self.0 = r.0;
    }
}

/// The low bit of the two control words.
proof fn lemma_u32_low_bit()
    by (bit_vector)
    ensures
        0xffff_ffffu32 & 1u32 == 1u32,
        0u32 & 1u32 == 0u32,
{
}

/// Two residues are equal exactly when their difference is zero modulo p.
proof fn lemma_small_difference(a: int, b: int)
    requires
        0 <= a < p(),
        0 <= b < p(),
    ensures
        ((a - b) % p() == 0) == (a == b),
{
    if a >= b {
        lemma_small_mod((a - b) as nat, p() as nat);
    } else {
        lemma_mod_shift(a - b, 1, p());
        lemma_small_mod((a - b + p()) as nat, p() as nat);
    }
}

/// One link of an addition chain: `r = z * y^(2^n)` with `y = x^a` and
/// `z = x^b` gives `r = x^(a * 2^n + b)`.
proof fn lemma_chain(x: int, y: GFp, z: GFp, s: GFp, r: GFp, a: nat, n: nat, b: nat)
    requires
        y@ == pow(x, a) % p(),
        z@ == pow(x, b) % p(),
        s@ == pow(y@, pow2(n)) % p(),
        r@ == (z@ * s@) % p(),
    ensures
        r@ == pow(x, a * pow2(n) + b) % p(),
{
    lemma_chain_step(x, y@, z@, a, pow2(n), b, p());
    assert(z@ * s@ == s@ * z@) by (nonlinear_arith);
}

/// The link `r = z * y^2` with `y = x^a` and `z = x^b` gives `r = x^(2a + b)`.
proof fn lemma_square_step(x: int, y: GFp, z: GFp, s: GFp, r: GFp, a: nat, b: nat)
    requires
        y@ == pow(x, a) % p(),
        z@ == pow(x, b) % p(),
        s@ == (y@ * y@) % p(),
        r@ == (z@ * s@) % p(),
    ensures
        r@ == pow(x, 2 * a + b) % p(),
{
    lemma_square_is_pow2(y@);
    lemma2_to64();
    lemma_chain(x, y, z, s, r, a, 1, b);
}

/// The carry-free lower-than test of `from_u64`.
proof fn lemma_from_u64_bits(v: u64, z: u64)
    by (bit_vector)
    requires
        z == (if v >= 0xffff_ffff_ffff_feffu64 { (v - 0xffff_ffff_ffff_feffu64) as u64 } else {
            (v + 0x1_0000_0000_0000_0000 - 0xffff_ffff_ffff_feffu64) as u64
        }),
    ensures
        (v & !z) >> 63u64 == (if v < 0xffff_ffff_ffff_feffu64 { 0u64 } else { 1u64 }),
{
}

} // verus!
