//! Facts about residues and powers modulo a positive integer, used to
//! carry the exponentiation chains of both fields.

use vstd::arithmetic::div_mod::*;
use vstd::arithmetic::mul::*;
use vstd::arithmetic::power::*;
use vstd::arithmetic::power2::*;
use vstd::prelude::*;

verus! {

/// Removing a multiple of the modulus does not change the residue.
pub proof fn lemma_mod_shift(x: int, k: int, m: int)
    requires
        m > 0,
    ensures
        (x + k * m) % m == x % m,
        (x - k * m) % m == x % m,
{
    lemma_mul_is_commutative(k, m);
    lemma_mod_multiples_vanish(k, x, m);
    lemma_mod_multiples_vanish(-k, x, m);
    assert(m * (-k) == -(m * k)) by (nonlinear_arith);
}

/// Residues of products only depend on the residues of the factors.
pub proof fn lemma_mul_residues(a: int, b: int, m: int)
    requires
        m > 0,
    ensures
        ((a % m) * (b % m)) % m == (a * b) % m,
        ((a % m) * b) % m == (a * b) % m,
        (a * (b % m)) % m == (a * b) % m,
{
    lemma_mul_mod_noop_general(a, b, m);
}

/// Residues of sums only depend on the residues of the terms.
pub proof fn lemma_add_residues(a: int, b: int, m: int)
    requires
        m > 0,
    ensures
        ((a % m) + (b % m)) % m == (a + b) % m,
        ((a % m) + b) % m == (a + b) % m,
        (a + (b % m)) % m == (a + b) % m,
{
    lemma_add_mod_noop(a, b, m);
    lemma_add_mod_noop_right(a, b, m);
    lemma_add_mod_noop(a % m, b, m);
    lemma_mod_twice(a, m);
}

/// A power of a residue of `x^a` is a residue of a power of `x`.
pub proof fn lemma_pow_of_pow(y: int, x: int, a: nat, k: nat, m: int)
    requires
        m > 0,
        y % m == pow(x, a) % m,
    ensures
        pow(y, k) % m == pow(x, a * k) % m,
{
    lemma_pow_mod_noop(y, k, m);
    lemma_pow_mod_noop(pow(x, a), k, m);
    lemma_pow_multiplies(x, a, k);
}

/// One step of an addition chain: `(y^k) * z` where `y = x^a` and `z = x^b`.
pub proof fn lemma_chain_step(x: int, y: int, z: int, a: nat, k: nat, b: nat, m: int)
    requires
        m > 0,
        y % m == pow(x, a) % m,
        z % m == pow(x, b) % m,
    ensures
        ((pow(y, k) % m) * z) % m == pow(x, a * k + b) % m,
{
    lemma_pow_of_pow(y, x, a, k, m);
    lemma_mul_residues(pow(y, k), z, m);
    lemma_mul_residues(pow(y, k), pow(x, b), m);
    lemma_mul_residues(pow(x, a * k), pow(x, b), m);
    lemma_mul_residues(pow(x, a * k), z, m);
    lemma_pow_adds(x, a * k, b);
}

/// Squaring a residue of `x^a` gives a residue of `x^(2a)`.
pub proof fn lemma_square_pow(y: int, x: int, a: nat, m: int)
    requires
        m > 0,
        y % m == pow(x, a) % m,
    ensures
        (y * y) % m == pow(x, 2 * a) % m,
{
    lemma_square_is_pow2(y);
    lemma_pow_of_pow(y, x, a, 2, m);
    assert(a * 2 == 2 * a);
}

/// `x^(2^n)` squared is `x^(2^(n+1))`.
pub proof fn lemma_square_pow2(y: int, x: int, n: nat, m: int)
    requires
        m > 0,
        y % m == pow(x, pow2(n)) % m,
    ensures
        (y * y) % m == pow(x, pow2(n + 1)) % m,
{
    lemma_square_pow(y, x, pow2(n), m);
    lemma_pow2_unfold(n + 1);
}

/// The first power.
pub proof fn lemma_pow_one(x: int, m: int)
    requires
        m > 0,
    ensures
        pow(x, 1) % m == x % m,
        pow(x, pow2(0)) % m == x % m,
{
    lemma_pow1(x);
    lemma2_to64();
}

/// One link of an addition chain on residues: `r = z * y^(2^n)` with
/// `y = x^a` and `z = x^b` gives `r = x^(a * 2^n + b)`.
pub proof fn lemma_chain_values(x: int, y: int, z: int, s: int, r: int, a: nat, n: nat, b: nat, m: int)
    requires
        m > 0,
        y == pow(x, a) % m,
        z == pow(x, b) % m,
        s == pow(y, pow2(n)) % m,
        r == (z * s) % m,
    ensures
        r == pow(x, a * pow2(n) + b) % m,
{
    lemma_mod_twice(pow(x, a), m);
    lemma_mod_twice(pow(x, b), m);
    lemma_chain_step(x, y, z, a, pow2(n), b, m);
    assert(z * s == s * z) by (nonlinear_arith);
}

/// The link `r = z * y^2` with `y = x^a` and `z = x^b` gives `r = x^(2a + b)`.
pub proof fn lemma_square_values(x: int, y: int, z: int, s: int, r: int, a: nat, b: nat, m: int)
    requires
        m > 0,
        y == pow(x, a) % m,
        z == pow(x, b) % m,
        s == (y * y) % m,
        r == (z * s) % m,
    ensures
        r == pow(x, 2 * a + b) % m,
{
    lemma_square_is_pow2(y);
    lemma2_to64();
    lemma_chain_values(x, y, z, s, r, a, 1, b, m);
}

/// Zero is replaced by one in the products of a batch inversion.
pub open spec fn nz(x: int) -> int {
    if x == 0 {
        1
    } else {
        x
    }
}

/// Product (mod m) of the first `k` values, zeros counted as ones.
pub open spec fn prefix(s: Seq<int>, k: int, m: int) -> int
    decreases k,
{
    if k <= 0 {
        1
    } else {
        (prefix(s, k - 1, m) * nz(s[k - 1])) % m
    }
}

/// Product (mod m) of the values from index `k` on, zeros counted as ones.
pub open spec fn suffix(s: Seq<int>, k: int, m: int) -> int
    decreases s.len() - k,
{
    if k >= s.len() || k < 0 {
        1
    } else {
        (nz(s[k]) * suffix(s, k + 1, m)) % m
    }
}

/// What a batch inversion (Montgomery's trick) yields at index `i`: zero
/// for a zero value, else the product of all the other values times the
/// (m-2)-th power of the product of all values.
pub open spec fn batch_inverse_value(s: Seq<int>, i: int, m: int) -> int {
    if s[i] == 0 {
        0
    } else {
        let a = pow(prefix(s, s.len() as int, m), (m - 2) as nat) % m;
        (prefix(s, i, m) * ((a * suffix(s, i + 1, m)) % m)) % m
    }
}

/// One step of the backward pass of a batch inversion.
pub proof fn lemma_suffix_step(s: Seq<int>, i: int, a: int, inv: int, m: int)
    requires
        m > 0,
        0 <= i < s.len(),
        inv == (a * suffix(s, i + 1, m)) % m,
    ensures
        (inv * nz(s[i])) % m == (a * suffix(s, i, m)) % m,
{
    let u = suffix(s, i + 1, m);
    let t = nz(s[i]);
    assert(suffix(s, i, m) == (t * u) % m);
    lemma_mul_residues(a * u, t, m);
    lemma_mul_residues(a, t * u, m);
    assert((a * u) * t == a * (t * u)) by (nonlinear_arith);
}

} // verus!
