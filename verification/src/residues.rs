//! Arithmetic modulo a prime n that has a Lucas certificate whose first
//! listed factor of n - 1 is 2: inverses by Fermat's little theorem,
//! Euler's criterion, and roots computed as powers of the input.

use crate::lucas::{lemma_euclid, lemma_fermat, lemma_lucas, lucas_certificate, power_residue};
use crate::modpow::{batch_inverse_value, nz, prefix, suffix};
use vstd::arithmetic::div_mod::*;
use vstd::arithmetic::mul::*;
use vstd::arithmetic::power::*;
use vstd::prelude::*;

verus! {

/// Whether `x` is a k-th power modulo `n`.
pub open spec fn is_power_mod(x: int, k: nat, n: int) -> bool {
    exists|y: int| 0 <= y < n && #[trigger] (pow(y, k) % n) == x
}

/// The hypotheses under which the lemmas of this module hold: `n` is an
/// odd prime, certified by Lucas's criterion with witness `a`.
pub open spec fn certified(n: int, a: int, fl: Seq<int>) -> bool {
    &&& lucas_certificate(n, a, fl)
    &&& fl.len() > 0
    &&& fl[0] == 2
    &&& n % 2 == 1
}

/// A product is divisible by a prime only if a factor is.
proof fn lemma_product_nonzero(n: int, a: int, fl: Seq<int>, x: int, y: int)
    requires
        certified(n, a, fl),
        x % n != 0,
        y % n != 0,
    ensures
        (x * y) % n != 0,
{
    lemma_lucas(n, a, fl);
    if (x * y) % n == 0 {
        let xr = x % n;
        lemma_mul_mod_noop_general(x, y, n);
        assert((xr * y) % n == 0);
        lemma_euclid(n, xr, y);
        lemma_mod_twice(x, n);
    }
}

/// Fermat: x times x^(n-2) is 1 modulo n, for x not divisible by n.
pub proof fn lemma_inverse(n: int, a: int, fl: Seq<int>, x: int)
    requires
        certified(n, a, fl),
        x % n != 0,
    ensures
        (x * (pow(x, (n - 2) as nat) % n)) % n == 1,
        ((pow(x, (n - 2) as nat) % n) * x) % n == 1,
{
    let e = (n - 2) as nat;
    lemma_fermat(n, a, fl, x);
    lemma_pow_adds(x, e, 1);
    lemma_pow1(x);
    assert((e + 1) as nat == (n - 1) as nat);
    lemma_mul_mod_noop_general(x, pow(x, e), n);
    lemma_mul_is_commutative(x, pow(x, e));
    lemma_mul_is_commutative(x, pow(x, e) % n);
}

/// Euler's criterion on a square: (y^2)^((n-1)/2) = 1 for y^2 not zero.
proof fn lemma_euler_of_square(n: int, a: int, fl: Seq<int>, y: int)
    requires
        certified(n, a, fl),
        pow(y, 2) % n != 0,
    ensures
        pow(pow(y, 2) % n, ((n - 1) / 2) as nat) % n == 1,
{
    let h = ((n - 1) / 2) as nat;
    lemma_pow_mod_noop(pow(y, 2), h, n);
    lemma_pow_multiplies(y, 2, h);
    assert(2 * h == (n - 1) as nat);
    if y % n == 0 {
        lemma_pow_mod_noop(y, 2, n);
        lemma0_pow(2);
        lemma_small_mod(0, n as nat);
    }
    lemma_fermat(n, a, fl, y);
}

/// -1 is the only square root of 1 other than 1, modulo a prime.
proof fn lemma_roots_of_one(n: int, a: int, fl: Seq<int>, z: int)
    requires
        certified(n, a, fl),
        0 <= z < n,
        (z * z) % n == 1,
        z != 1,
    ensures
        z == n - 1,
{
    lemma_lucas(n, a, fl);
    if z == 0 {
        lemma_small_mod(0, n as nat);
    }
    let k = (z * z) / n;
    lemma_fundamental_div_mod(z * z, n);
    assert((z + 1) * (z - 1) == k * n) by (nonlinear_arith)
        requires
            z * z == n * k + 1,
    ;
    lemma_mod_multiples_basic(k, n);
    lemma_euclid(n, z + 1, z - 1);
    if (z - 1) % n == 0 {
        lemma_small_mod((z - 1) as nat, n as nat);
    }
    if z + 1 < n {
        lemma_small_mod((z + 1) as nat, n as nat);
    }
}

/// The witness raised to (n-1)/2 is -1.
proof fn lemma_half_order(n: int, a: int, fl: Seq<int>)
    requires
        certified(n, a, fl),
    ensures
        pow(a, ((n - 1) / 2) as nat) % n == n - 1,
{
    let h = ((n - 1) / 2) as nat;
    let z = pow(a, h) % n;
    assert(pow(a, ((n - 1) / fl[0]) as nat) % n != 1);
    lemma_pow_adds(a, h, h);
    assert(h + h == (n - 1) as nat);
    lemma_mul_mod_noop_general(pow(a, h), pow(a, h), n);
    lemma_roots_of_one(n, a, fl, z);
}

/// Euler's criterion on a non-square: x^((n-1)/2) = -1.
proof fn lemma_euler_of_nonsquare(n: int, a: int, fl: Seq<int>, x: int)
    requires
        certified(n, a, fl),
        1 <= x < n,
        !is_power_mod(x, 2, n),
    ensures
        pow(x, ((n - 1) / 2) as nat) % n == n - 1,
{
    let h = ((n - 1) / 2) as nat;
    let nn = (n - 1) as nat;
    lemma_lucas(n, a, fl);
    assert(power_residue(a, x, n));
    let k = choose|k: nat| k < n - 1 && #[trigger] (pow(a, k) % n) == x;
    if k % 2 == 0 {
        let j = k / 2;
        let y = pow(a, j) % n;
        lemma_pow_adds(a, j, j);
        assert(j + j == k);
        lemma_mul_mod_noop_general(pow(a, j), pow(a, j), n);
        lemma_square_is_pow2(y);
        assert(pow(y, 2) % n == x);
        assert(is_power_mod(x, 2, n));
    } else {
        let j = (k / 2) as nat;
        // x^h = a^(k h) = (a^(n-1))^j a^h = a^h
        lemma_pow_mod_noop(pow(a, k), h, n);
        lemma_pow_multiplies(a, k, h);
        assert(k * h == nn * j + h) by (nonlinear_arith)
            requires
                k == 2 * j + 1,
                2 * h == nn,
        ;
        assert(pow(x, h) % n == pow(a, k * h) % n);
        lemma_pow_adds(a, nn * j, h);
        lemma_pow_multiplies(a, nn, j);
        let big = pow(pow(a, nn), j);
        assert(pow(a, k * h) == big * pow(a, h));
        lemma_pow_mod_noop(pow(a, nn), j, n);
        lemma1_pow(j);
        lemma_small_mod(1, n as nat);
        assert(big % n == 1);
        lemma_mul_mod_noop_general(big, pow(a, h), n);
        lemma_half_order(n, a, fl);
        lemma_mod_twice(pow(a, h), n);
        assert((big * pow(a, h)) % n == (1 * (pow(a, h) % n)) % n);
    }
}

/// Euler's criterion: x^((n-1)/2) is 0 for 0, 1 for a non-zero square
/// and -1 for a non-square.
pub proof fn lemma_euler_criterion(n: int, a: int, fl: Seq<int>, x: int)
    requires
        certified(n, a, fl),
        0 <= x < n,
    ensures
        pow(x, ((n - 1) / 2) as nat) % n == (if x == 0 {
            0
        } else if is_power_mod(x, 2, n) {
            1
        } else {
            n - 1
        }),
{
    let h = ((n - 1) / 2) as nat;
    if x == 0 {
        lemma0_pow(h);
        lemma_small_mod(0, n as nat);
    } else if is_power_mod(x, 2, n) {
        let y = choose|y: int| 0 <= y < n && #[trigger] (pow(y, 2) % n) == x;
        lemma_euler_of_square(n, a, fl, y);
    } else {
        lemma_euler_of_nonsquare(n, a, fl, x);
    }
}

/// A square x satisfies x^((n+1)/2) = x.
proof fn lemma_square_half_power(n: int, a: int, fl: Seq<int>, x: int)
    requires
        certified(n, a, fl),
        0 <= x < n,
        is_power_mod(x, 2, n),
    ensures
        pow(x, ((n + 1) / 2) as nat) % n == x,
{
    let h = ((n - 1) / 2) as nat;
    assert(((n + 1) / 2) as nat == h + 1);
    if x == 0 {
        lemma0_pow(h + 1);
        lemma_small_mod(0, n as nat);
    } else {
        lemma_euler_criterion(n, a, fl, x);
        lemma_pow_adds(x, h, 1);
        lemma_pow1(x);
        lemma_mul_mod_noop_general(pow(x, h), x, n);
        lemma_small_mod(x as nat, n as nat);
    }
}

/// On a square x, a power c = x^e with m e = (n+1)/2 is an m-th root: c^m = x.
pub proof fn lemma_root_of_square(n: int, a: int, fl: Seq<int>, x: int, e: nat, m: nat)
    requires
        certified(n, a, fl),
        0 <= x < n,
        is_power_mod(x, 2, n),
        e * m == (n + 1) / 2,
    ensures
        pow(pow(x, e) % n, m) % n == x,
{
    lemma_pow_mod_noop(pow(x, e), m, n);
    lemma_pow_multiplies(x, e, m);
    lemma_square_half_power(n, a, fl, x);
}

/// A k-th power with k even is a square.
pub proof fn lemma_even_power_is_square(n: int, x: int, y: int, k: nat)
    requires
        n > 1,
        k % 2 == 0,
        k > 0,
        0 <= y < n,
        pow(y, k) % n == x,
    ensures
        is_power_mod(x, 2, n),
{
    let j = (k / 2) as nat;
    let z = pow(y, j) % n;
    lemma_pow_multiplies(y, j, 2);
    assert(j * 2 == k);
    lemma_pow_mod_noop(pow(y, j), 2, n);
    lemma_mod_bound(pow(y, j), n);
    assert(pow(z, 2) % n == x);
}

/// A value that is the m-th power of a residue is an m-th power.
pub proof fn lemma_power_witness(n: int, x: int, c: int, m: nat)
    requires
        n > 1,
        0 <= c < n,
        pow(c, m) % n == x,
    ensures
        is_power_mod(x, m, n),
{
}

/// A running product of a batch inversion is a residue.
proof fn lemma_prefix_bound(s: Seq<int>, k: int, m: int)
    requires
        m > 1,
    ensures
        0 <= prefix(s, k, m) < m,
{
    if k > 0 {
        lemma_mod_bound(prefix(s, k - 1, m) * nz(s[k - 1]), m);
    }
}

/// The running products of residues, zeros counted as ones, are not zero.
proof fn lemma_prefix_nonzero(n: int, a: int, fl: Seq<int>, s: Seq<int>, k: int)
    requires
        certified(n, a, fl),
        0 <= k <= s.len(),
        forall|j: int| 0 <= j < s.len() ==> 0 <= #[trigger] s[j] < n,
    ensures
        prefix(s, k, n) % n != 0,
    decreases k,
{
    if k > 0 {
        let u = prefix(s, k - 1, n);
        let t = nz(s[k - 1]);
        lemma_prefix_nonzero(n, a, fl, s, k - 1);
        lemma_small_mod(t as nat, n as nat);
        lemma_product_nonzero(n, a, fl, u, t);
        lemma_mod_twice(u * t, n);
    } else {
        lemma_small_mod(1, n as nat);
    }
}

/// The running products of residues, zeros counted as ones, are not zero.
proof fn lemma_suffix_nonzero(n: int, a: int, fl: Seq<int>, s: Seq<int>, k: int)
    requires
        certified(n, a, fl),
        0 <= k <= s.len(),
        forall|j: int| 0 <= j < s.len() ==> 0 <= #[trigger] s[j] < n,
    ensures
        suffix(s, k, n) % n != 0,
    decreases s.len() - k,
{
    if k < s.len() {
        let u = suffix(s, k + 1, n);
        let t = nz(s[k]);
        lemma_suffix_nonzero(n, a, fl, s, k + 1);
        lemma_small_mod(t as nat, n as nat);
        lemma_product_nonzero(n, a, fl, t, u);
        lemma_mod_twice(t * u, n);
    } else {
        lemma_small_mod(1, n as nat);
    }
}

/// The product of all values is the product of a prefix times that of
/// the matching suffix.
proof fn lemma_prefix_split(s: Seq<int>, i: int, m: int)
    requires
        m > 1,
        0 <= i <= s.len(),
    ensures
        prefix(s, s.len() as int, m) == (prefix(s, i, m) * suffix(s, i, m)) % m,
    decreases s.len() - i,
{
    let len = s.len() as int;
    if i == len {
        lemma_prefix_bound(s, len, m);
        lemma_small_mod(prefix(s, len, m) as nat, m as nat);
    } else {
        lemma_prefix_split(s, i + 1, m);
        let u = prefix(s, i, m);
        let t = nz(s[i]);
        let v = suffix(s, i + 1, m);
        assert(prefix(s, i + 1, m) == (u * t) % m);
        assert(suffix(s, i, m) == (t * v) % m);
        lemma_mul_mod_noop_general(u * t, v, m);
        lemma_mul_mod_noop_general(u, t * v, m);
        lemma_mul_is_associative(u, t, v);
    }
}

/// Montgomery's batch inversion gives, at each index, the inverse
/// x^(n-2) of the value there (zero for zero).
pub proof fn lemma_batch_inverse(n: int, a: int, fl: Seq<int>, s: Seq<int>, i: int)
    requires
        certified(n, a, fl),
        0 <= i < s.len(),
        forall|j: int| 0 <= j < s.len() ==> 0 <= #[trigger] s[j] < n,
    ensures
        batch_inverse_value(s, i, n) == pow(s[i], (n - 2) as nat) % n,
{
    let e = (n - 2) as nat;
    let x = s[i];
    if x == 0 {
        lemma0_pow(e);
        lemma_small_mod(0, n as nat);
    } else {
        let len = s.len() as int;
        let pa = prefix(s, i, n);
        let sb = suffix(s, i + 1, n);
        let sx = suffix(s, i, n);
        let pall = prefix(s, len, n);
        lemma_prefix_split(s, i, n);
        assert(sx == (x * sb) % n);
        lemma_prefix_nonzero(n, a, fl, s, i);
        lemma_suffix_nonzero(n, a, fl, s, i + 1);
        let ia = pow(pa, e);
        let ib = pow(sb, e);
        let ix = pow(x, e);
        let isx = pow(sx, e);
        // The inverse of the product, a^(n-2) with a = pa * x * sb.
        let av = pow(pall, e) % n;
        lemma_pow_mod_noop(pa * sx, e, n);
        lemma_pow_distributes(pa, sx, e);
        lemma_pow_mod_noop(x * sb, e, n);
        lemma_pow_distributes(x, sb, e);
        lemma_mul_mod_noop_general(ia, isx, n);
        lemma_mul_mod_noop_general(ia, ix * ib, n);
        let t = ia * (ix * ib);
        assert(av == t % n);
        // The value at i: pa * av * sb.
        lemma_mul_mod_noop_general(t, sb, n);
        lemma_mul_mod_noop_general(pa, t * sb, n);
        assert(batch_inverse_value(s, i, n) == (pa * (t * sb)) % n);
        let u = pa * ia;
        let v = sb * ib;
        assert(pa * (t * sb) == u * (v * ix)) by (nonlinear_arith)
            requires
                t == ia * (ix * ib),
                u == pa * ia,
                v == sb * ib,
        ;
        lemma_inverse(n, a, fl, pa);
        lemma_inverse(n, a, fl, sb);
        lemma_mul_mod_noop_general(pa, ia, n);
        lemma_mul_mod_noop_general(sb, ib, n);
        lemma_mul_mod_noop_general(u, v * ix, n);
        lemma_mul_mod_noop_general(v, ix, n);
        assert((u * (v * ix)) % n == (1 * (v * ix)) % n);
        assert((v * ix) % n == (1 * ix) % n);
    }
}

/// Negation does not change an even power: (n - c)^(2j) = c^(2j).
pub proof fn lemma_neg_even_power(n: int, c: int, j: nat)
    requires
        n > 0,
    ensures
        pow(n - c, 2 * j) % n == pow(c, 2 * j) % n,
{
    lemma_pow_multiplies(n - c, 2, j);
    lemma_pow_multiplies(c, 2, j);
    lemma_square_is_pow2(n - c);
    lemma_square_is_pow2(c);
    assert((n - c) * (n - c) == n * (n - 2 * c) + c * c) by (nonlinear_arith);
    lemma_mod_multiples_vanish(n - 2 * c, c * c, n);
    lemma_pow_mod_noop((n - c) * (n - c), j, n);
    lemma_pow_mod_noop(c * c, j, n);
}

/// Multiplying by y^(n-2) and then by y gives back the value.
pub proof fn lemma_div_cancel(n: int, a: int, fl: Seq<int>, x: int, y: int)
    requires
        certified(n, a, fl),
        0 <= x < n,
        y % n != 0,
    ensures
        (((x * (pow(y, (n - 2) as nat) % n)) % n) * y) % n == x,
{
    let iy = pow(y, (n - 2) as nat) % n;
    lemma_inverse(n, a, fl, y);
    lemma_mul_mod_noop_general(x * iy, y, n);
    lemma_mul_is_associative(x, iy, y);
    lemma_mul_mod_noop_general(x, iy * y, n);
    lemma_small_mod(x as nat, n as nat);
}

/// On a non-square x, a power c = x^e with m e = (n+1)/2 satisfies
/// c^m = -x.
pub proof fn lemma_root_of_nonsquare(n: int, a: int, fl: Seq<int>, x: int, e: nat, m: nat)
    requires
        certified(n, a, fl),
        0 <= x < n,
        !is_power_mod(x, 2, n),
        e * m == (n + 1) / 2,
    ensures
        pow(pow(x, e) % n, m) % n == n - x,
{
    let h = ((n - 1) / 2) as nat;
    lemma_pow_mod_noop(pow(x, e), m, n);
    lemma_pow_multiplies(x, e, m);
    assert(((n + 1) / 2) as nat == h + 1);
    if x == 0 {
        lemma_square_is_pow2(0);
        lemma_small_mod(0, n as nat);
        assert(pow(0, 2) % n == 0);
    }
    lemma_euler_criterion(n, a, fl, x);
    lemma_pow_adds(x, h, 1);
    lemma_pow1(x);
    lemma_mul_mod_noop_general(pow(x, h), x, n);
    assert((n - 1) * x == n * (x - 1) + (n - x)) by (nonlinear_arith);
    lemma_mod_multiples_vanish(x - 1, n - x, n);
    lemma_small_mod((n - x) as nat, n as nat);
}

} // verus!
