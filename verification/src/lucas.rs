//! Elementary number theory leading to Lucas's primality criterion: a
//! number n is prime, and every non-zero residue modulo n is a power of a,
//! when a^(n-1) = 1 (mod n) while a^((n-1)/r) != 1 (mod n) for each prime
//! factor r of n-1. Fermat's little theorem follows for such n.

use crate::modpow::{lemma_add_residues, lemma_mod_shift, lemma_mul_residues};
use vstd::arithmetic::div_mod::*;
use vstd::arithmetic::mul::*;
use vstd::arithmetic::power::*;
use vstd::prelude::*;
use vstd::relations::injective_on;
use vstd::set_lib::{lemma_int_range, lemma_map_size, lemma_subset_equality, set_int_range};

verus! {

/// `n` is prime: above 1 and without a divisor strictly between 1 and itself.
pub open spec fn is_prime(n: int) -> bool {
    n > 1 && forall|d: int| 1 < d < n ==> #[trigger] (n % d) != 0
}

/// The greatest common divisor, by Euclid's algorithm.
pub open spec fn gcd(a: nat, b: nat) -> nat
    decreases b,
{
    if b == 0 {
        a
    } else {
        gcd(b, a % b)
    }
}

/// The product of a sequence of integers.
pub open spec fn product(s: Seq<int>) -> int
    decreases s.len(),
{
    if s.len() == 0 {
        1
    } else {
        s[0] * product(s.drop_first())
    }
}

/// Multiples of g are closed under multiplication by anything.
proof fn lemma_divides_mul(g: int, x: int, y: int)
    requires
        g > 0,
        x % g == 0,
    ensures
        (x * y) % g == 0,
{
    lemma_mul_residues(x, y, g);
    assert((x % g) * y == 0);
    lemma_small_mod(0, g as nat);
}

/// Multiples of g are closed under sums and differences.
proof fn lemma_divides_add(g: int, x: int, y: int)
    requires
        g > 0,
        x % g == 0,
        y % g == 0,
    ensures
        (x + y) % g == 0,
        (x - y) % g == 0,
{
    lemma_add_residues(x, y, g);
    lemma_sub_mod_noop(x, y, g);
}

/// A positive multiple of g is at least g.
proof fn lemma_divisor_le(g: int, x: int)
    requires
        g > 0,
        x > 0,
        x % g == 0,
    ensures
        g <= x,
{
    lemma_fundamental_div_mod(x, g);
    if x / g <= 0 {
        assert(g * (x / g) <= 0) by (nonlinear_arith)
            requires
                g > 0,
                x / g <= 0,
        ;
    } else {
        assert(g * (x / g) >= g) by (nonlinear_arith)
            requires
                g > 0,
                x / g >= 1,
        ;
    }
}

/// Divisibility is transitive.
proof fn lemma_divides_trans(a: int, b: int, c: int)
    requires
        a > 0,
        b > 0,
        b % a == 0,
        c % b == 0,
    ensures
        c % a == 0,
{
    lemma_fundamental_div_mod(c, b);
    lemma_divides_mul(a, b, c / b);
    assert(b * (c / b) == c - c % b);
}

/// The greatest common divisor divides both arguments.
pub proof fn lemma_gcd_divides(a: nat, b: nat)
    requires
        a > 0 || b > 0,
    ensures
        gcd(a, b) > 0,
        a % gcd(a, b) == 0,
        b % gcd(a, b) == 0,
    decreases b,
{
    if b == 0 {
        lemma_mod_self_0(a as int);
        lemma_small_mod(0, a);
    } else {
        lemma_gcd_divides(b, a % b);
        let g = gcd(a, b) as int;
        lemma_fundamental_div_mod(a as int, b as int);
        lemma_divides_mul(g, b as int, (a / b) as int);
        assert((a / b) * b == b * (a / b)) by (nonlinear_arith);
        lemma_divides_add(g, (b * (a / b)) as int, (a % b) as int);
    }
}

/// If r divides both x*b and y*b, it divides gcd(x, y)*b.
pub proof fn lemma_gcd_times(r: int, x: nat, y: nat, b: int)
    requires
        r > 0,
        (x * b) % r == 0,
        (y * b) % r == 0,
    ensures
        (gcd(x, y) * b) % r == 0,
    decreases y,
{
    if y > 0 {
        let q = (x / y) as int;
        lemma_fundamental_div_mod(x as int, y as int);
        assert((x % y) * b == x * b - q * (y * b)) by (nonlinear_arith)
            requires
                x == y * q + x % y,
        ;
        lemma_divides_mul(r, y * b, q);
        assert(q * (y * b) == (y * b) * q) by (nonlinear_arith);
        lemma_divides_add(r, x * b, q * (y * b));
        lemma_gcd_times(r, y, x % y, b);
    }
}

/// Euclid's lemma: a prime that divides a product divides a factor.
pub proof fn lemma_euclid(r: int, a: int, b: int)
    requires
        is_prime(r),
        a >= 0,
        (a * b) % r == 0,
    ensures
        a % r == 0 || b % r == 0,
{
    if a % r != 0 {
        let ar = (a % r) as nat;
        lemma_gcd_divides(r as nat, ar);
        let g = gcd(r as nat, ar) as int;
        lemma_divisor_le(g, r);
        if g != 1 {
            if g < r {
                assert(r % g != 0);
            } else {
                lemma_divisor_le(r, ar as int);
            }
        }
        lemma_mod_self_0(r);
        lemma_divides_mul(r, r, b);
        assert((r * b) % r == 0);
        lemma_mul_residues(a, b, r);
        assert((ar * b) % r == 0);
        lemma_gcd_times(r, r as nat, ar, b);
        assert(g * b == b);
    }
}

/// A prime dividing a product of primes is one of them.
pub proof fn lemma_prime_factor_listed(r: int, fl: Seq<int>)
    requires
        is_prime(r),
        product(fl) % r == 0,
        forall|i: int| 0 <= i < fl.len() ==> is_prime(#[trigger] fl[i]),
    ensures
        exists|i: int| 0 <= i < fl.len() && fl[i] == r,
    decreases fl.len(),
{
    if fl.len() == 0 {
        lemma_small_mod(1, r as nat);
    } else {
        let f0 = fl[0];
        let rest = fl.drop_first();
        assert(is_prime(f0));
        lemma_euclid(r, f0, product(rest));
        if f0 % r == 0 {
            if r < f0 {
                assert(f0 % r != 0);
            } else if r > f0 {
                lemma_small_mod(f0 as nat, r as nat);
            }
            assert(fl[0] == r);
        } else {
            assert forall|i: int| 0 <= i < rest.len() implies is_prime(#[trigger] rest[i]) by {
                assert(rest[i] == fl[i + 1]);
            }
            lemma_prime_factor_listed(r, rest);
            let i = choose|i: int| 0 <= i < rest.len() && rest[i] == r;
            assert(fl[i + 1] == r);
        }
    }
}

/// The least divisor of m that is at least d (m itself when there is none below m).
pub open spec fn least_divisor(m: int, d: int) -> int
    decreases m - d,
{
    if d >= m {
        m
    } else if m % d == 0 {
        d
    } else {
        least_divisor(m, d + 1)
    }
}

/// The least divisor above 1 of a number above 1 is a prime factor of it.
pub proof fn lemma_least_divisor(m: int, d: int)
    requires
        m >= 2,
        2 <= d <= m,
        forall|e: int| 2 <= e < d ==> #[trigger] (m % e) != 0,
    ensures
        is_prime(least_divisor(m, d)),
        m % least_divisor(m, d) == 0,
        2 <= least_divisor(m, d) <= m,
    decreases m - d,
{
    let s = least_divisor(m, d);
    if d < m && m % d != 0 {
        lemma_least_divisor(m, d + 1);
    } else {
        if d >= m {
            lemma_mod_self_0(m);
        }
        assert forall|e: int| 1 < e < s implies #[trigger] (s % e) != 0 by {
            if s % e == 0 {
                lemma_divides_trans(e, s, m);
            }
        }
    }
}

/// Every number above 1 has a prime factor.
pub proof fn lemma_prime_factor(m: int) -> (r: int)
    requires
        m >= 2,
    ensures
        is_prime(r),
        m % r == 0,
{
    lemma_least_divisor(m, 2);
    least_divisor(m, 2)
}

/// Powers of a residue that is 1 stay 1.
proof fn lemma_pow_of_one(y: int, k: nat, n: int)
    requires
        n > 1,
        y % n == 1,
    ensures
        pow(y, k) % n == 1,
{
    lemma_pow_mod_noop(y, k, n);
    lemma1_pow(k);
    lemma_small_mod(1, n as nat);
}

/// If a^x and a^y are 1 modulo n, so is a^gcd(x, y).
pub proof fn lemma_order_gcd(a: int, x: nat, y: nat, n: int)
    requires
        n > 1,
        pow(a, x) % n == 1,
        pow(a, y) % n == 1,
    ensures
        pow(a, gcd(x, y)) % n == 1,
    decreases y,
{
    if y > 0 {
        let q = x / y;
        let r = x % y;
        lemma_fundamental_div_mod(x as int, y as int);
        assert(x == y * q + r);
        lemma_pow_adds(a, y * q, r);
        lemma_pow_multiplies(a, y, q);
        lemma_pow_of_one(pow(a, y), q, n);
        lemma_mul_residues(pow(a, y * q), pow(a, r), n);
        lemma_small_mod(1, n as nat);
        lemma_mod_twice(pow(a, r), n);
        lemma_order_gcd(a, y, r, n);
    }
}

/// The certificate conditions of Lucas's criterion for `n` with witness
/// `a` and the prime factors `fl` (with multiplicity) of n - 1.
pub open spec fn lucas_certificate(n: int, a: int, fl: Seq<int>) -> bool {
    &&& n > 2
    &&& 1 <= a < n
    &&& product(fl) == n - 1
    &&& forall|i: int| 0 <= i < fl.len() ==> is_prime(#[trigger] fl[i])
    &&& pow(a, (n - 1) as nat) % n == 1
    &&& forall|i: int| 0 <= i < fl.len() ==> pow(a, ((n - 1) / #[trigger] fl[i]) as nat) % n != 1
}

/// Every listed factor divides the product.
proof fn lemma_factor_divides(fl: Seq<int>, i: int)
    requires
        0 <= i < fl.len(),
        forall|j: int| 0 <= j < fl.len() ==> is_prime(#[trigger] fl[j]),
    ensures
        product(fl) % fl[i] == 0,
    decreases fl.len(),
{
    let rest = fl.drop_first();
    assert(is_prime(fl[0]));
    if i == 0 {
        lemma_mod_self_0(fl[0]);
        lemma_divides_mul(fl[0], fl[0], product(rest));
    } else {
        assert forall|j: int| 0 <= j < rest.len() implies is_prime(#[trigger] rest[j]) by {
            assert(rest[j] == fl[j + 1]);
        }
        assert(rest[i - 1] == fl[i]);
        lemma_factor_divides(rest, i - 1);
        lemma_divides_mul(fl[i], product(rest), fl[0]);
        assert(product(rest) * fl[0] == fl[0] * product(rest)) by (nonlinear_arith);
    }
}

/// Under a Lucas certificate, a has no order below n - 1.
proof fn lemma_no_small_order(n: int, a: int, fl: Seq<int>, d: nat)
    requires
        lucas_certificate(n, a, fl),
        0 < d < n - 1,
    ensures
        pow(a, d) % n != 1,
{
    if pow(a, d) % n == 1 {
        lemma_small_order_contradiction(n, a, fl, d);
    }
}

/// The contradiction behind `lemma_no_small_order`: a^d = 1 with
/// 0 < d < n - 1 forces a^((n-1)/r) = 1 for a listed factor r.
proof fn lemma_small_order_contradiction(n: int, a: int, fl: Seq<int>, d: nat)
    requires
        lucas_certificate(n, a, fl),
        0 < d < n - 1,
        pow(a, d) % n == 1,
    ensures
        exists|i: int| 0 <= i < fl.len() && pow(a, ((n - 1) / #[trigger] fl[i]) as nat) % n == 1,
{
    let nn = (n - 1) as nat;
    let g = gcd(d, nn);
    lemma_order_gcd(a, d, nn, n);
    lemma_gcd_divides(d, nn);
    lemma_divisor_le(g as int, d as int);
    let m = (nn / g) as int;
    lemma_fundamental_div_mod(nn as int, g as int);
    assert(nn == g * m);
    if m < 2 {
        assert(g * m <= g) by (nonlinear_arith)
            requires
                m < 2,
                g > 0,
        ;
    }
    let r = lemma_prime_factor(m);
    assert((nn as int) % m == 0) by {
        lemma_mod_multiples_basic(g as int, m);
        assert(g * m == m * g) by (nonlinear_arith);
    }
    lemma_divides_trans(r, m, nn as int);
    lemma_prime_factor_listed(r, fl);
    let i = choose|i: int| 0 <= i < fl.len() && fl[i] == r;
    // n-1 = g * m and r | m, so (n-1)/r = g * (m/r)
    let t = m / r;
    lemma_fundamental_div_mod(m, r);
    assert(nn == r * (g * t)) by (nonlinear_arith)
        requires
            nn == g * m,
            m == r * t,
    ;
    lemma_div_multiples_vanish(g * t, r);
    assert((n - 1) / fl[i] == g * t);
    lemma_pow_multiplies(a, g, t as nat);
    lemma_pow_of_one(pow(a, g), t as nat, n);
    assert(pow(a, ((n - 1) / fl[i]) as nat) % n == 1);
}

/// Under a Lucas certificate, the powers a^0 .. a^(n-2) are distinct modulo n.
proof fn lemma_powers_distinct(n: int, a: int, fl: Seq<int>, i: nat, j: nat)
    requires
        lucas_certificate(n, a, fl),
        i < j < n - 1,
    ensures
        pow(a, i) % n != pow(a, j) % n,
{
    if pow(a, i) % n == pow(a, j) % n {
        let nn = (n - 1) as nat;
        let d = (j - i) as nat;
        let u = (nn - i) as nat;
        // a^u * a^j = a^(n-1) * a^d and a^u * a^i = a^(n-1)
        lemma_pow_adds(a, u, j);
        lemma_pow_adds(a, u, i);
        lemma_pow_adds(a, nn, d);
        assert(u + j == nn + d);
        assert(u + i == nn);
        lemma_mul_residues(pow(a, u), pow(a, i), n);
        lemma_mul_residues(pow(a, u), pow(a, j), n);
        lemma_mul_residues(pow(a, nn), pow(a, d), n);
        lemma_small_mod(1, n as nat);
        lemma_mod_twice(pow(a, d), n);
        lemma_no_small_order(n, a, fl, d);
    }
}

/// Under a Lucas certificate, the powers a^k (k < n - 1) are non-zero modulo n.
proof fn lemma_powers_nonzero(n: int, a: int, fl: Seq<int>, k: nat)
    requires
        lucas_certificate(n, a, fl),
        k < n - 1,
    ensures
        pow(a, k) % n != 0,
{
    let nn = (n - 1) as nat;
    lemma_pow_adds(a, k, (nn - k) as nat);
    lemma_mul_residues(pow(a, k), pow(a, (nn - k) as nat), n);
    if pow(a, k) % n == 0 {
        assert((pow(a, k) % n) * pow(a, (nn - k) as nat) == 0);
        lemma_small_mod(0, n as nat);
    }
}

/// x is a residue a^k (mod n) with k < n - 1.
pub open spec fn power_residue(a: int, x: int, n: int) -> bool {
    exists|k: nat| k < n - 1 && #[trigger] (pow(a, k) % n) == x
}

/// Lucas's criterion: under a certificate, every non-zero residue modulo n
/// is a power a^k with k < n - 1, and n is prime.
pub proof fn lemma_lucas(n: int, a: int, fl: Seq<int>)
    requires
        lucas_certificate(n, a, fl),
    ensures
        is_prime(n),
        forall|x: int| 1 <= x < n ==> #[trigger] power_residue(a, x, n),
{
    let nn = n - 1;
    let f = |k: int| pow(a, k as nat) % n;
    let dom = set_int_range(0, nn);
    let img = dom.map(f);
    let target = set_int_range(1, n);
    lemma_int_range(0, nn);
    lemma_int_range(1, n);
    assert(injective_on(f, dom)) by {
        assert forall|x: int, y: int| dom.contains(x) && dom.contains(y) && #[trigger] f(x) == #[trigger] f(y)
            implies x == y by {
            if x < y {
                lemma_powers_distinct(n, a, fl, x as nat, y as nat);
            } else if y < x {
                lemma_powers_distinct(n, a, fl, y as nat, x as nat);
            }
        }
    }
    lemma_map_size(dom, img, f);
    assert(img.subset_of(target)) by {
        assert forall|v: int| img.contains(v) implies target.contains(v) by {
            let k = choose|k: int| dom.contains(k) && v == f(k);
            lemma_powers_nonzero(n, a, fl, k as nat);
        }
    }
    lemma_subset_equality(img, target);
    assert forall|x: int| 1 <= x < n implies #[trigger] power_residue(a, x, n) by {
        assert(target.contains(x));
        assert(img.contains(x));
        let k = choose|k: int| dom.contains(k) && x == f(k);
        assert(pow(a, k as nat) % n == x);
    }
    assert forall|d: int| 1 < d < n implies #[trigger] (n % d) != 0 by {
        if n % d == 0 {
            assert(power_residue(a, d, n));
            let k = choose|k: nat| k < n - 1 && #[trigger] (pow(a, k) % n) == d;
            lemma_pow_adds(a, k, (nn - k) as nat);
            lemma_mul_residues(pow(a, k), pow(a, (nn - k) as nat), n);
            // d * y = 1 (mod n), while d divides n
            let y = pow(a, (nn - k) as nat);
            lemma_mul_residues(d, y, n);
            lemma_fundamental_div_mod(d * y, n);
            lemma_divides_mul(d, n, (d * y) / n);
            lemma_mod_self_0(d);
            lemma_divides_mul(d, d, y);
            lemma_divides_add(d, d * y, n * ((d * y) / n));
            assert(d * y - n * ((d * y) / n) == 1);
            lemma_small_mod(1, d as nat);
        }
    }
}

/// Fermat's little theorem for a modulus with a Lucas certificate.
pub proof fn lemma_fermat(n: int, a: int, fl: Seq<int>, x: int)
    requires
        lucas_certificate(n, a, fl),
        x % n != 0,
    ensures
        pow(x, (n - 1) as nat) % n == 1,
{
    lemma_lucas(n, a, fl);
    let xr = x % n;
    assert(power_residue(a, xr, n));
    let k = choose|k: nat| k < n - 1 && #[trigger] (pow(a, k) % n) == xr;
    let nn = (n - 1) as nat;
    lemma_pow_mod_noop(x, nn, n);
    lemma_pow_mod_noop(pow(a, k), nn, n);
    lemma_pow_multiplies(a, k, nn);
    lemma_pow_multiplies(a, nn, k);
    assert(k * nn == nn * k) by (nonlinear_arith);
    lemma_pow_of_one(pow(a, nn), k, n);
}

} // verus!
