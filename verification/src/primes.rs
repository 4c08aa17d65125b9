//! Primality certificates (in Lucas's form) of the two field moduli and
//! of the primes that their certificates rely on. Each modular power is
//! checked by square-and-multiply, one step at a time.

use crate::lucas::{is_prime, lemma_lucas, lucas_certificate, product};
use vstd::arithmetic::div_mod::*;
use vstd::arithmetic::power::*;
use vstd::prelude::*;

verus! {

/// The first step of square-and-multiply: a^1 = a.
proof fn lemma_powmod_start(a: int, n: int)
    requires
        0 <= a < n,
    ensures
        pow(a, 1) % n == a,
{
    lemma_pow1(a);
    lemma_small_mod(a as nat, n as nat);
}

/// One step of square-and-multiply: from a^e = v to a^(2e) or a^(2e+1).
proof fn lemma_powmod_step(a: int, e: nat, v: int, n: int, bit: bool, w: int)
    requires
        n > 0,
        pow(a, e) % n == v,
        w == (if bit { (v * v * a) % n } else { (v * v) % n }),
    ensures
        pow(a, 2 * e + (if bit { 1nat } else { 0nat })) % n == w,
{
    lemma_pow_adds(a, e, e);
    lemma_mul_mod_noop_general(pow(a, e), pow(a, e), n);
    if bit {
        lemma_pow_adds(a, 2 * e, 1);
        lemma_pow1(a);
        lemma_mul_mod_noop_general(pow(a, 2 * e), a, n);
        lemma_mul_mod_noop_general(v * v, a, n);
    }
}

/// The product of a sequence with one more element in front.
proof fn lemma_product_prepend(x: int, s: Seq<int>)
    ensures
        product(seq![x] + s) == x * product(s),
{
    assert((seq![x] + s).drop_first() =~= s);
}

/// 2 is prime.
pub proof fn lemma_prime_two()
    ensures
        is_prime(2),
{
}

/// 2^2 mod 3.
proof fn lemma_pow_3_2_2()
    ensures
        pow(2, 2) % 3 == 1,
{
    lemma_powmod_start(2, 3);
    lemma_powmod_step(2, 1, 2, 3, false, 1);
}

/// 2^1 mod 3.
proof fn lemma_pow_3_2_1()
    ensures
        pow(2, 1) % 3 == 2,
{
    lemma_powmod_start(2, 3);
}

/// The prime factors of 3 - 1, with multiplicity.
pub open spec fn factors_3() -> Seq<int> {
    seq![2int] + (Seq::<int>::empty())
}

/// 3 is prime: Lucas certificate with witness 2.
pub proof fn lemma_prime_3()
    ensures
        is_prime(3),
        lucas_certificate(3, 2, factors_3()),
{
    let fl = factors_3();
    lemma_pow_3_2_2();
    lemma_pow_3_2_1();
    lemma_prime_two();
    lemma_product_prepend(2, Seq::<int>::empty());
    assert forall|i: int| 0 <= i < fl.len() implies is_prime(#[trigger] fl[i]) && pow(2, ((3 - 1) / fl[i]) as nat) % 3 != 1 by {
        if i == 0 {
            assert(fl[0] == 2);
            assert((3 - 1) / fl[0] == 1);
        }
    }
    lemma_lucas(3, 2, fl);
}

/// 2^4 mod 5.
proof fn lemma_pow_5_2_4()
    ensures
        pow(2, 4) % 5 == 1,
{
    lemma_powmod_start(2, 5);
    lemma_powmod_step(2, 1, 2, 5, false, 4);
    lemma_powmod_step(2, 2, 4, 5, false, 1);
}

/// 2^2 mod 5.
proof fn lemma_pow_5_2_2()
    ensures
        pow(2, 2) % 5 == 4,
{
    lemma_powmod_start(2, 5);
    lemma_powmod_step(2, 1, 2, 5, false, 4);
}

/// The prime factors of 5 - 1, with multiplicity.
pub open spec fn factors_5() -> Seq<int> {
    seq![2int] + (seq![2int] + (Seq::<int>::empty()))
}

/// 5 is prime: Lucas certificate with witness 2.
pub proof fn lemma_prime_5()
    ensures
        is_prime(5),
        lucas_certificate(5, 2, factors_5()),
{
    let fl = factors_5();
    lemma_pow_5_2_4();
    lemma_pow_5_2_2();
    lemma_prime_two();
    lemma_product_prepend(2, seq![2int] + (Seq::<int>::empty()));
    lemma_product_prepend(2, Seq::<int>::empty());
    assert forall|i: int| 0 <= i < fl.len() implies is_prime(#[trigger] fl[i]) && pow(2, ((5 - 1) / fl[i]) as nat) % 5 != 1 by {
        if i == 0 {
            assert(fl[0] == 2);
            assert((5 - 1) / fl[0] == 2);
        } else if i == 1 {
            assert(fl[1] == 2);
            assert((5 - 1) / fl[1] == 2);
        }
    }
    lemma_lucas(5, 2, fl);
}

/// 3^6 mod 7.
proof fn lemma_pow_7_3_6()
    ensures
        pow(3, 6) % 7 == 1,
{
    lemma_powmod_start(3, 7);
    lemma_powmod_step(3, 1, 3, 7, true, 6);
    lemma_powmod_step(3, 3, 6, 7, false, 1);
}

/// 3^3 mod 7.
proof fn lemma_pow_7_3_3()
    ensures
        pow(3, 3) % 7 == 6,
{
    lemma_powmod_start(3, 7);
    lemma_powmod_step(3, 1, 3, 7, true, 6);
}

/// 3^2 mod 7.
proof fn lemma_pow_7_3_2()
    ensures
        pow(3, 2) % 7 == 2,
{
    lemma_powmod_start(3, 7);
    lemma_powmod_step(3, 1, 3, 7, false, 2);
}

/// The prime factors of 7 - 1, with multiplicity.
pub open spec fn factors_7() -> Seq<int> {
    seq![2int] + (seq![3int] + (Seq::<int>::empty()))
}

/// 7 is prime: Lucas certificate with witness 3.
pub proof fn lemma_prime_7()
    ensures
        is_prime(7),
        lucas_certificate(7, 3, factors_7()),
{
    let fl = factors_7();
    lemma_pow_7_3_6();
    lemma_pow_7_3_3();
    lemma_prime_two();
    lemma_pow_7_3_2();
    lemma_prime_3();
    lemma_product_prepend(2, seq![3int] + (Seq::<int>::empty()));
    lemma_product_prepend(3, Seq::<int>::empty());
    assert forall|i: int| 0 <= i < fl.len() implies is_prime(#[trigger] fl[i]) && pow(3, ((7 - 1) / fl[i]) as nat) % 7 != 1 by {
        if i == 0 {
            assert(fl[0] == 2);
            assert((7 - 1) / fl[0] == 3);
        } else if i == 1 {
            assert(fl[1] == 3);
            assert((7 - 1) / fl[1] == 2);
        }
    }
    lemma_lucas(7, 3, fl);
}

/// 2^10 mod 11.
proof fn lemma_pow_11_2_10()
    ensures
        pow(2, 10) % 11 == 1,
{
    lemma_powmod_start(2, 11);
    lemma_powmod_step(2, 1, 2, 11, false, 4);
    lemma_powmod_step(2, 2, 4, 11, true, 10);
    lemma_powmod_step(2, 5, 10, 11, false, 1);
}

/// 2^5 mod 11.
proof fn lemma_pow_11_2_5()
    ensures
        pow(2, 5) % 11 == 10,
{
    lemma_powmod_start(2, 11);
    lemma_powmod_step(2, 1, 2, 11, false, 4);
    lemma_powmod_step(2, 2, 4, 11, true, 10);
}

/// 2^2 mod 11.
proof fn lemma_pow_11_2_2()
    ensures
        pow(2, 2) % 11 == 4,
{
    lemma_powmod_start(2, 11);
    lemma_powmod_step(2, 1, 2, 11, false, 4);
}

/// The prime factors of 11 - 1, with multiplicity.
pub open spec fn factors_11() -> Seq<int> {
    seq![2int] + (seq![5int] + (Seq::<int>::empty()))
}

/// 11 is prime: Lucas certificate with witness 2.
pub proof fn lemma_prime_11()
    ensures
        is_prime(11),
        lucas_certificate(11, 2, factors_11()),
{
    let fl = factors_11();
    lemma_pow_11_2_10();
    lemma_pow_11_2_5();
    lemma_prime_two();
    lemma_pow_11_2_2();
    lemma_prime_5();
    lemma_product_prepend(2, seq![5int] + (Seq::<int>::empty()));
    lemma_product_prepend(5, Seq::<int>::empty());
    assert forall|i: int| 0 <= i < fl.len() implies is_prime(#[trigger] fl[i]) && pow(2, ((11 - 1) / fl[i]) as nat) % 11 != 1 by {
        if i == 0 {
            assert(fl[0] == 2);
            assert((11 - 1) / fl[0] == 5);
        } else if i == 1 {
            assert(fl[1] == 5);
            assert((11 - 1) / fl[1] == 2);
        }
    }
    lemma_lucas(11, 2, fl);
}

/// 3^16 mod 17.
proof fn lemma_pow_17_3_16()
    ensures
        pow(3, 16) % 17 == 1,
{
    lemma_powmod_start(3, 17);
    lemma_powmod_step(3, 1, 3, 17, false, 9);
    lemma_powmod_step(3, 2, 9, 17, false, 13);
    lemma_powmod_step(3, 4, 13, 17, false, 16);
    lemma_powmod_step(3, 8, 16, 17, false, 1);
}

/// 3^8 mod 17.
proof fn lemma_pow_17_3_8()
    ensures
        pow(3, 8) % 17 == 16,
{
    lemma_powmod_start(3, 17);
    lemma_powmod_step(3, 1, 3, 17, false, 9);
    lemma_powmod_step(3, 2, 9, 17, false, 13);
    lemma_powmod_step(3, 4, 13, 17, false, 16);
}

/// The prime factors of 17 - 1, with multiplicity.
pub open spec fn factors_17() -> Seq<int> {
    seq![2int] + (seq![2int] + (seq![2int] + (seq![2int] + (Seq::<int>::empty()))))
}

/// 17 is prime: Lucas certificate with witness 3.
pub proof fn lemma_prime_17()
    ensures
        is_prime(17),
        lucas_certificate(17, 3, factors_17()),
{
    let fl = factors_17();
    lemma_pow_17_3_16();
    lemma_pow_17_3_8();
    lemma_prime_two();
    lemma_product_prepend(2, seq![2int] + (seq![2int] + (seq![2int] + (Seq::<int>::empty()))));
    lemma_product_prepend(2, seq![2int] + (seq![2int] + (Seq::<int>::empty())));
    lemma_product_prepend(2, seq![2int] + (Seq::<int>::empty()));
    lemma_product_prepend(2, Seq::<int>::empty());
    assert forall|i: int| 0 <= i < fl.len() implies is_prime(#[trigger] fl[i]) && pow(3, ((17 - 1) / fl[i]) as nat) % 17 != 1 by {
        if i == 0 {
            assert(fl[0] == 2);
            assert((17 - 1) / fl[0] == 8);
        } else if i == 1 {
            assert(fl[1] == 2);
            assert((17 - 1) / fl[1] == 8);
        } else if i == 2 {
            assert(fl[2] == 2);
            assert((17 - 1) / fl[2] == 8);
        } else if i == 3 {
            assert(fl[3] == 2);
            assert((17 - 1) / fl[3] == 8);
        }
    }
    lemma_lucas(17, 3, fl);
}

/// 2^18 mod 19.
proof fn lemma_pow_19_2_18()
    ensures
        pow(2, 18) % 19 == 1,
{
    lemma_powmod_start(2, 19);
    lemma_powmod_step(2, 1, 2, 19, false, 4);
    lemma_powmod_step(2, 2, 4, 19, false, 16);
    lemma_powmod_step(2, 4, 16, 19, true, 18);
    lemma_powmod_step(2, 9, 18, 19, false, 1);
}

/// 2^9 mod 19.
proof fn lemma_pow_19_2_9()
    ensures
        pow(2, 9) % 19 == 18,
{
    lemma_powmod_start(2, 19);
    lemma_powmod_step(2, 1, 2, 19, false, 4);
    lemma_powmod_step(2, 2, 4, 19, false, 16);
    lemma_powmod_step(2, 4, 16, 19, true, 18);
}

/// 2^6 mod 19.
proof fn lemma_pow_19_2_6()
    ensures
        pow(2, 6) % 19 == 7,
{
    lemma_powmod_start(2, 19);
    lemma_powmod_step(2, 1, 2, 19, true, 8);
    lemma_powmod_step(2, 3, 8, 19, false, 7);
}

/// The prime factors of 19 - 1, with multiplicity.
pub open spec fn factors_19() -> Seq<int> {
    seq![2int] + (seq![3int] + (seq![3int] + (Seq::<int>::empty())))
}

/// 19 is prime: Lucas certificate with witness 2.
pub proof fn lemma_prime_19()
    ensures
        is_prime(19),
        lucas_certificate(19, 2, factors_19()),
{
    let fl = factors_19();
    lemma_pow_19_2_18();
    lemma_pow_19_2_9();
    lemma_prime_two();
    lemma_pow_19_2_6();
    lemma_prime_3();
    lemma_product_prepend(2, seq![3int] + (seq![3int] + (Seq::<int>::empty())));
    lemma_product_prepend(3, seq![3int] + (Seq::<int>::empty()));
    lemma_product_prepend(3, Seq::<int>::empty());
    assert forall|i: int| 0 <= i < fl.len() implies is_prime(#[trigger] fl[i]) && pow(2, ((19 - 1) / fl[i]) as nat) % 19 != 1 by {
        if i == 0 {
            assert(fl[0] == 2);
            assert((19 - 1) / fl[0] == 9);
        } else if i == 1 {
            assert(fl[1] == 3);
            assert((19 - 1) / fl[1] == 6);
        } else if i == 2 {
            assert(fl[2] == 3);
            assert((19 - 1) / fl[2] == 6);
        }
    }
    lemma_lucas(19, 2, fl);
}

/// 5^22 mod 23.
proof fn lemma_pow_23_5_22()
    ensures
        pow(5, 22) % 23 == 1,
{
    lemma_powmod_start(5, 23);
    lemma_powmod_step(5, 1, 5, 23, false, 2);
    lemma_powmod_step(5, 2, 2, 23, true, 20);
    lemma_powmod_step(5, 5, 20, 23, true, 22);
    lemma_powmod_step(5, 11, 22, 23, false, 1);
}

/// 5^11 mod 23.
proof fn lemma_pow_23_5_11()
    ensures
        pow(5, 11) % 23 == 22,
{
    lemma_powmod_start(5, 23);
    lemma_powmod_step(5, 1, 5, 23, false, 2);
    lemma_powmod_step(5, 2, 2, 23, true, 20);
    lemma_powmod_step(5, 5, 20, 23, true, 22);
}

/// 5^2 mod 23.
proof fn lemma_pow_23_5_2()
    ensures
        pow(5, 2) % 23 == 2,
{
    lemma_powmod_start(5, 23);
    lemma_powmod_step(5, 1, 5, 23, false, 2);
}

/// The prime factors of 23 - 1, with multiplicity.
pub open spec fn factors_23() -> Seq<int> {
    seq![2int] + (seq![11int] + (Seq::<int>::empty()))
}

/// 23 is prime: Lucas certificate with witness 5.
pub proof fn lemma_prime_23()
    ensures
        is_prime(23),
        lucas_certificate(23, 5, factors_23()),
{
    let fl = factors_23();
    lemma_pow_23_5_22();
    lemma_pow_23_5_11();
    lemma_prime_two();
    lemma_pow_23_5_2();
    lemma_prime_11();
    lemma_product_prepend(2, seq![11int] + (Seq::<int>::empty()));
    lemma_product_prepend(11, Seq::<int>::empty());
    assert forall|i: int| 0 <= i < fl.len() implies is_prime(#[trigger] fl[i]) && pow(5, ((23 - 1) / fl[i]) as nat) % 23 != 1 by {
        if i == 0 {
            assert(fl[0] == 2);
            assert((23 - 1) / fl[0] == 11);
        } else if i == 1 {
            assert(fl[1] == 11);
            assert((23 - 1) / fl[1] == 2);
        }
    }
    lemma_lucas(23, 5, fl);
}

/// 3^42 mod 43.
proof fn lemma_pow_43_3_42()
    ensures
        pow(3, 42) % 43 == 1,
{
    lemma_powmod_start(3, 43);
    lemma_powmod_step(3, 1, 3, 43, false, 9);
    lemma_powmod_step(3, 2, 9, 43, true, 28);
    lemma_powmod_step(3, 5, 28, 43, false, 10);
    lemma_powmod_step(3, 10, 10, 43, true, 42);
    lemma_powmod_step(3, 21, 42, 43, false, 1);
}

/// 3^21 mod 43.
proof fn lemma_pow_43_3_21()
    ensures
        pow(3, 21) % 43 == 42,
{
    lemma_powmod_start(3, 43);
    lemma_powmod_step(3, 1, 3, 43, false, 9);
    lemma_powmod_step(3, 2, 9, 43, true, 28);
    lemma_powmod_step(3, 5, 28, 43, false, 10);
    lemma_powmod_step(3, 10, 10, 43, true, 42);
}

/// 3^14 mod 43.
proof fn lemma_pow_43_3_14()
    ensures
        pow(3, 14) % 43 == 36,
{
    lemma_powmod_start(3, 43);
    lemma_powmod_step(3, 1, 3, 43, true, 27);
    lemma_powmod_step(3, 3, 27, 43, true, 37);
    lemma_powmod_step(3, 7, 37, 43, false, 36);
}

/// 3^6 mod 43.
proof fn lemma_pow_43_3_6()
    ensures
        pow(3, 6) % 43 == 41,
{
    lemma_powmod_start(3, 43);
    lemma_powmod_step(3, 1, 3, 43, true, 27);
    lemma_powmod_step(3, 3, 27, 43, false, 41);
}

/// The prime factors of 43 - 1, with multiplicity.
pub open spec fn factors_43() -> Seq<int> {
    seq![2int] + (seq![3int] + (seq![7int] + (Seq::<int>::empty())))
}

/// 43 is prime: Lucas certificate with witness 3.
pub proof fn lemma_prime_43()
    ensures
        is_prime(43),
        lucas_certificate(43, 3, factors_43()),
{
    let fl = factors_43();
    lemma_pow_43_3_42();
    lemma_pow_43_3_21();
    lemma_prime_two();
    lemma_pow_43_3_14();
    lemma_prime_3();
    lemma_pow_43_3_6();
    lemma_prime_7();
    lemma_product_prepend(2, seq![3int] + (seq![7int] + (Seq::<int>::empty())));
    lemma_product_prepend(3, seq![7int] + (Seq::<int>::empty()));
    lemma_product_prepend(7, Seq::<int>::empty());
    assert forall|i: int| 0 <= i < fl.len() implies is_prime(#[trigger] fl[i]) && pow(3, ((43 - 1) / fl[i]) as nat) % 43 != 1 by {
        if i == 0 {
            assert(fl[0] == 2);
            assert((43 - 1) / fl[0] == 21);
        } else if i == 1 {
            assert(fl[1] == 3);
            assert((43 - 1) / fl[1] == 14);
        } else if i == 2 {
            assert(fl[2] == 7);
            assert((43 - 1) / fl[2] == 6);
        }
    }
    lemma_lucas(43, 3, fl);
}

/// 5^72 mod 73.
proof fn lemma_pow_73_5_72()
    ensures
        pow(5, 72) % 73 == 1,
{
    lemma_powmod_start(5, 73);
    lemma_powmod_step(5, 1, 5, 73, false, 25);
    lemma_powmod_step(5, 2, 25, 73, false, 41);
    lemma_powmod_step(5, 4, 41, 73, true, 10);
    lemma_powmod_step(5, 9, 10, 73, false, 27);
    lemma_powmod_step(5, 18, 27, 73, false, 72);
    lemma_powmod_step(5, 36, 72, 73, false, 1);
}

/// 5^36 mod 73.
proof fn lemma_pow_73_5_36()
    ensures
        pow(5, 36) % 73 == 72,
{
    lemma_powmod_start(5, 73);
    lemma_powmod_step(5, 1, 5, 73, false, 25);
    lemma_powmod_step(5, 2, 25, 73, false, 41);
    lemma_powmod_step(5, 4, 41, 73, true, 10);
    lemma_powmod_step(5, 9, 10, 73, false, 27);
    lemma_powmod_step(5, 18, 27, 73, false, 72);
}

/// 5^24 mod 73.
proof fn lemma_pow_73_5_24()
    ensures
        pow(5, 24) % 73 == 8,
{
    lemma_powmod_start(5, 73);
    lemma_powmod_step(5, 1, 5, 73, true, 52);
    lemma_powmod_step(5, 3, 52, 73, false, 3);
    lemma_powmod_step(5, 6, 3, 73, false, 9);
    lemma_powmod_step(5, 12, 9, 73, false, 8);
}

/// The prime factors of 73 - 1, with multiplicity.
pub open spec fn factors_73() -> Seq<int> {
    seq![2int] + (seq![2int] + (seq![2int] + (seq![3int] + (seq![3int] + (Seq::<int>::empty())))))
}

/// 73 is prime: Lucas certificate with witness 5.
pub proof fn lemma_prime_73()
    ensures
        is_prime(73),
        lucas_certificate(73, 5, factors_73()),
{
    let fl = factors_73();
    lemma_pow_73_5_72();
    lemma_pow_73_5_36();
    lemma_prime_two();
    lemma_pow_73_5_24();
    lemma_prime_3();
    lemma_product_prepend(2, seq![2int] + (seq![2int] + (seq![3int] + (seq![3int] + (Seq::<int>::empty())))));
    lemma_product_prepend(2, seq![2int] + (seq![3int] + (seq![3int] + (Seq::<int>::empty()))));
    lemma_product_prepend(2, seq![3int] + (seq![3int] + (Seq::<int>::empty())));
    lemma_product_prepend(3, seq![3int] + (Seq::<int>::empty()));
    lemma_product_prepend(3, Seq::<int>::empty());
    assert forall|i: int| 0 <= i < fl.len() implies is_prime(#[trigger] fl[i]) && pow(5, ((73 - 1) / fl[i]) as nat) % 73 != 1 by {
        if i == 0 {
            assert(fl[0] == 2);
            assert((73 - 1) / fl[0] == 36);
        } else if i == 1 {
            assert(fl[1] == 2);
            assert((73 - 1) / fl[1] == 36);
        } else if i == 2 {
            assert(fl[2] == 2);
            assert((73 - 1) / fl[2] == 36);
        } else if i == 3 {
            assert(fl[3] == 3);
            assert((73 - 1) / fl[3] == 24);
        } else if i == 4 {
            assert(fl[4] == 3);
            assert((73 - 1) / fl[4] == 24);
        }
    }
    lemma_lucas(73, 5, fl);
}

/// 3^126 mod 127.
proof fn lemma_pow_127_3_126()
    ensures
        pow(3, 126) % 127 == 1,
{
    lemma_powmod_start(3, 127);
    lemma_powmod_step(3, 1, 3, 127, true, 27);
    lemma_powmod_step(3, 3, 27, 127, true, 28);
    lemma_powmod_step(3, 7, 28, 127, true, 66);
    lemma_powmod_step(3, 15, 66, 127, true, 114);
    lemma_powmod_step(3, 31, 114, 127, true, 126);
    lemma_powmod_step(3, 63, 126, 127, false, 1);
}

/// 3^63 mod 127.
proof fn lemma_pow_127_3_63()
    ensures
        pow(3, 63) % 127 == 126,
{
    lemma_powmod_start(3, 127);
    lemma_powmod_step(3, 1, 3, 127, true, 27);
    lemma_powmod_step(3, 3, 27, 127, true, 28);
    lemma_powmod_step(3, 7, 28, 127, true, 66);
    lemma_powmod_step(3, 15, 66, 127, true, 114);
    lemma_powmod_step(3, 31, 114, 127, true, 126);
}

/// 3^42 mod 127.
proof fn lemma_pow_127_3_42()
    ensures
        pow(3, 42) % 127 == 107,
{
    lemma_powmod_start(3, 127);
    lemma_powmod_step(3, 1, 3, 127, false, 9);
    lemma_powmod_step(3, 2, 9, 127, true, 116);
    lemma_powmod_step(3, 5, 116, 127, false, 121);
    lemma_powmod_step(3, 10, 121, 127, true, 108);
    lemma_powmod_step(3, 21, 108, 127, false, 107);
}

/// 3^18 mod 127.
proof fn lemma_pow_127_3_18()
    ensures
        pow(3, 18) % 127 == 4,
{
    lemma_powmod_start(3, 127);
    lemma_powmod_step(3, 1, 3, 127, false, 9);
    lemma_powmod_step(3, 2, 9, 127, false, 81);
    lemma_powmod_step(3, 4, 81, 127, true, 125);
    lemma_powmod_step(3, 9, 125, 127, false, 4);
}

/// The prime factors of 127 - 1, with multiplicity.
pub open spec fn factors_127() -> Seq<int> {
    seq![2int] + (seq![3int] + (seq![3int] + (seq![7int] + (Seq::<int>::empty()))))
}

/// 127 is prime: Lucas certificate with witness 3.
pub proof fn lemma_prime_127()
    ensures
        is_prime(127),
        lucas_certificate(127, 3, factors_127()),
{
    let fl = factors_127();
    lemma_pow_127_3_126();
    lemma_pow_127_3_63();
    lemma_prime_two();
    lemma_pow_127_3_42();
    lemma_prime_3();
    lemma_pow_127_3_18();
    lemma_prime_7();
    lemma_product_prepend(2, seq![3int] + (seq![3int] + (seq![7int] + (Seq::<int>::empty()))));
    lemma_product_prepend(3, seq![3int] + (seq![7int] + (Seq::<int>::empty())));
    lemma_product_prepend(3, seq![7int] + (Seq::<int>::empty()));
    lemma_product_prepend(7, Seq::<int>::empty());
    assert forall|i: int| 0 <= i < fl.len() implies is_prime(#[trigger] fl[i]) && pow(3, ((127 - 1) / fl[i]) as nat) % 127 != 1 by {
        if i == 0 {
            assert(fl[0] == 2);
            assert((127 - 1) / fl[0] == 63);
        } else if i == 1 {
            assert(fl[1] == 3);
            assert((127 - 1) / fl[1] == 42);
        } else if i == 2 {
            assert(fl[2] == 3);
            assert((127 - 1) / fl[2] == 42);
        } else if i == 3 {
            assert(fl[3] == 7);
            assert((127 - 1) / fl[3] == 18);
        }
    }
    lemma_lucas(127, 3, fl);
}

/// 2^196 mod 197.
proof fn lemma_pow_197_2_196()
    ensures
        pow(2, 196) % 197 == 1,
{
    lemma_powmod_start(2, 197);
    lemma_powmod_step(2, 1, 2, 197, true, 8);
    lemma_powmod_step(2, 3, 8, 197, false, 64);
    lemma_powmod_step(2, 6, 64, 197, false, 156);
    lemma_powmod_step(2, 12, 156, 197, false, 105);
    lemma_powmod_step(2, 24, 105, 197, true, 183);
    lemma_powmod_step(2, 49, 183, 197, false, 196);
    lemma_powmod_step(2, 98, 196, 197, false, 1);
}

/// 2^98 mod 197.
proof fn lemma_pow_197_2_98()
    ensures
        pow(2, 98) % 197 == 196,
{
    lemma_powmod_start(2, 197);
    lemma_powmod_step(2, 1, 2, 197, true, 8);
    lemma_powmod_step(2, 3, 8, 197, false, 64);
    lemma_powmod_step(2, 6, 64, 197, false, 156);
    lemma_powmod_step(2, 12, 156, 197, false, 105);
    lemma_powmod_step(2, 24, 105, 197, true, 183);
    lemma_powmod_step(2, 49, 183, 197, false, 196);
}

/// 2^28 mod 197.
proof fn lemma_pow_197_2_28()
    ensures
        pow(2, 28) % 197 == 104,
{
    lemma_powmod_start(2, 197);
    lemma_powmod_step(2, 1, 2, 197, true, 8);
    lemma_powmod_step(2, 3, 8, 197, true, 128);
    lemma_powmod_step(2, 7, 128, 197, false, 33);
    lemma_powmod_step(2, 14, 33, 197, false, 104);
}

/// The prime factors of 197 - 1, with multiplicity.
pub open spec fn factors_197() -> Seq<int> {
    seq![2int] + (seq![2int] + (seq![7int] + (seq![7int] + (Seq::<int>::empty()))))
}

/// 197 is prime: Lucas certificate with witness 2.
pub proof fn lemma_prime_197()
    ensures
        is_prime(197),
        lucas_certificate(197, 2, factors_197()),
{
    let fl = factors_197();
    lemma_pow_197_2_196();
    lemma_pow_197_2_98();
    lemma_prime_two();
    lemma_pow_197_2_28();
    lemma_prime_7();
    lemma_product_prepend(2, seq![2int] + (seq![7int] + (seq![7int] + (Seq::<int>::empty()))));
    lemma_product_prepend(2, seq![7int] + (seq![7int] + (Seq::<int>::empty())));
    lemma_product_prepend(7, seq![7int] + (Seq::<int>::empty()));
    lemma_product_prepend(7, Seq::<int>::empty());
    assert forall|i: int| 0 <= i < fl.len() implies is_prime(#[trigger] fl[i]) && pow(2, ((197 - 1) / fl[i]) as nat) % 197 != 1 by {
        if i == 0 {
            assert(fl[0] == 2);
            assert((197 - 1) / fl[0] == 98);
        } else if i == 1 {
            assert(fl[1] == 2);
            assert((197 - 1) / fl[1] == 98);
        } else if i == 2 {
            assert(fl[2] == 7);
            assert((197 - 1) / fl[2] == 28);
        } else if i == 3 {
            assert(fl[3] == 7);
            assert((197 - 1) / fl[3] == 28);
        }
    }
    lemma_lucas(197, 2, fl);
}

/// 7^238 mod 239.
proof fn lemma_pow_239_7_238()
    ensures
        pow(7, 238) % 239 == 1,
{
    lemma_powmod_start(7, 239);
    lemma_powmod_step(7, 1, 7, 239, true, 104);
    lemma_powmod_step(7, 3, 104, 239, true, 188);
    lemma_powmod_step(7, 7, 188, 239, false, 211);
    lemma_powmod_step(7, 14, 211, 239, true, 230);
    lemma_powmod_step(7, 29, 230, 239, true, 89);
    lemma_powmod_step(7, 59, 89, 239, true, 238);
    lemma_powmod_step(7, 119, 238, 239, false, 1);
}

/// 7^119 mod 239.
proof fn lemma_pow_239_7_119()
    ensures
        pow(7, 119) % 239 == 238,
{
    lemma_powmod_start(7, 239);
    lemma_powmod_step(7, 1, 7, 239, true, 104);
    lemma_powmod_step(7, 3, 104, 239, true, 188);
    lemma_powmod_step(7, 7, 188, 239, false, 211);
    lemma_powmod_step(7, 14, 211, 239, true, 230);
    lemma_powmod_step(7, 29, 230, 239, true, 89);
    lemma_powmod_step(7, 59, 89, 239, true, 238);
}

/// 7^34 mod 239.
proof fn lemma_pow_239_7_34()
    ensures
        pow(7, 34) % 239 == 24,
{
    lemma_powmod_start(7, 239);
    lemma_powmod_step(7, 1, 7, 239, false, 49);
    lemma_powmod_step(7, 2, 49, 239, false, 11);
    lemma_powmod_step(7, 4, 11, 239, false, 121);
    lemma_powmod_step(7, 8, 121, 239, true, 195);
    lemma_powmod_step(7, 17, 195, 239, false, 24);
}

/// 7^14 mod 239.
proof fn lemma_pow_239_7_14()
    ensures
        pow(7, 14) % 239 == 211,
{
    lemma_powmod_start(7, 239);
    lemma_powmod_step(7, 1, 7, 239, true, 104);
    lemma_powmod_step(7, 3, 104, 239, true, 188);
    lemma_powmod_step(7, 7, 188, 239, false, 211);
}

/// The prime factors of 239 - 1, with multiplicity.
pub open spec fn factors_239() -> Seq<int> {
    seq![2int] + (seq![7int] + (seq![17int] + (Seq::<int>::empty())))
}

/// 239 is prime: Lucas certificate with witness 7.
pub proof fn lemma_prime_239()
    ensures
        is_prime(239),
        lucas_certificate(239, 7, factors_239()),
{
    let fl = factors_239();
    lemma_pow_239_7_238();
    lemma_pow_239_7_119();
    lemma_prime_two();
    lemma_pow_239_7_34();
    lemma_prime_7();
    lemma_pow_239_7_14();
    lemma_prime_17();
    lemma_product_prepend(2, seq![7int] + (seq![17int] + (Seq::<int>::empty())));
    lemma_product_prepend(7, seq![17int] + (Seq::<int>::empty()));
    lemma_product_prepend(17, Seq::<int>::empty());
    assert forall|i: int| 0 <= i < fl.len() implies is_prime(#[trigger] fl[i]) && pow(7, ((239 - 1) / fl[i]) as nat) % 239 != 1 by {
        if i == 0 {
            assert(fl[0] == 2);
            assert((239 - 1) / fl[0] == 119);
        } else if i == 1 {
            assert(fl[1] == 7);
            assert((239 - 1) / fl[1] == 34);
        } else if i == 2 {
            assert(fl[2] == 17);
            assert((239 - 1) / fl[2] == 14);
        }
    }
    lemma_lucas(239, 7, fl);
}

/// 3^256 mod 257.
proof fn lemma_pow_257_3_256()
    ensures
        pow(3, 256) % 257 == 1,
{
    lemma_powmod_start(3, 257);
    lemma_powmod_step(3, 1, 3, 257, false, 9);
    lemma_powmod_step(3, 2, 9, 257, false, 81);
    lemma_powmod_step(3, 4, 81, 257, false, 136);
    lemma_powmod_step(3, 8, 136, 257, false, 249);
    lemma_powmod_step(3, 16, 249, 257, false, 64);
    lemma_powmod_step(3, 32, 64, 257, false, 241);
    lemma_powmod_step(3, 64, 241, 257, false, 256);
    lemma_powmod_step(3, 128, 256, 257, false, 1);
}

/// 3^128 mod 257.
proof fn lemma_pow_257_3_128()
    ensures
        pow(3, 128) % 257 == 256,
{
    lemma_powmod_start(3, 257);
    lemma_powmod_step(3, 1, 3, 257, false, 9);
    lemma_powmod_step(3, 2, 9, 257, false, 81);
    lemma_powmod_step(3, 4, 81, 257, false, 136);
    lemma_powmod_step(3, 8, 136, 257, false, 249);
    lemma_powmod_step(3, 16, 249, 257, false, 64);
    lemma_powmod_step(3, 32, 64, 257, false, 241);
    lemma_powmod_step(3, 64, 241, 257, false, 256);
}

/// The prime factors of 257 - 1, with multiplicity.
pub open spec fn factors_257() -> Seq<int> {
    seq![2int] + (seq![2int] + (seq![2int] + (seq![2int] + (seq![2int] + (seq![2int] + (seq![2int] + (seq![2int] + (Seq::<int>::empty()))))))))
}

/// 257 is prime: Lucas certificate with witness 3.
pub proof fn lemma_prime_257()
    ensures
        is_prime(257),
        lucas_certificate(257, 3, factors_257()),
{
    let fl = factors_257();
    lemma_pow_257_3_256();
    lemma_pow_257_3_128();
    lemma_prime_two();
    lemma_product_prepend(2, seq![2int] + (seq![2int] + (seq![2int] + (seq![2int] + (seq![2int] + (seq![2int] + (seq![2int] + (Seq::<int>::empty()))))))));
    lemma_product_prepend(2, seq![2int] + (seq![2int] + (seq![2int] + (seq![2int] + (seq![2int] + (seq![2int] + (Seq::<int>::empty())))))));
    lemma_product_prepend(2, seq![2int] + (seq![2int] + (seq![2int] + (seq![2int] + (seq![2int] + (Seq::<int>::empty()))))));
    lemma_product_prepend(2, seq![2int] + (seq![2int] + (seq![2int] + (seq![2int] + (Seq::<int>::empty())))));
    lemma_product_prepend(2, seq![2int] + (seq![2int] + (seq![2int] + (Seq::<int>::empty()))));
    lemma_product_prepend(2, seq![2int] + (seq![2int] + (Seq::<int>::empty())));
    lemma_product_prepend(2, seq![2int] + (Seq::<int>::empty()));
    lemma_product_prepend(2, Seq::<int>::empty());
    assert forall|i: int| 0 <= i < fl.len() implies is_prime(#[trigger] fl[i]) && pow(3, ((257 - 1) / fl[i]) as nat) % 257 != 1 by {
        if i == 0 {
            assert(fl[0] == 2);
            assert((257 - 1) / fl[0] == 128);
        } else if i == 1 {
            assert(fl[1] == 2);
            assert((257 - 1) / fl[1] == 128);
        } else if i == 2 {
            assert(fl[2] == 2);
            assert((257 - 1) / fl[2] == 128);
        } else if i == 3 {
            assert(fl[3] == 2);
            assert((257 - 1) / fl[3] == 128);
        } else if i == 4 {
            assert(fl[4] == 2);
            assert((257 - 1) / fl[4] == 128);
        } else if i == 5 {
            assert(fl[5] == 2);
            assert((257 - 1) / fl[5] == 128);
        } else if i == 6 {
            assert(fl[6] == 2);
            assert((257 - 1) / fl[6] == 128);
        } else if i == 7 {
            assert(fl[7] == 2);
            assert((257 - 1) / fl[7] == 128);
        }
    }
    lemma_lucas(257, 3, fl);
}

/// 10^336 mod 337.
proof fn lemma_pow_337_10_336()
    ensures
        pow(10, 336) % 337 == 1,
{
    lemma_powmod_start(10, 337);
    lemma_powmod_step(10, 1, 10, 337, false, 100);
    lemma_powmod_step(10, 2, 100, 337, true, 248);
    lemma_powmod_step(10, 5, 248, 337, false, 170);
    lemma_powmod_step(10, 10, 170, 337, true, 191);
    lemma_powmod_step(10, 21, 191, 337, false, 85);
    lemma_powmod_step(10, 42, 85, 337, false, 148);
    lemma_powmod_step(10, 84, 148, 337, false, 336);
    lemma_powmod_step(10, 168, 336, 337, false, 1);
}

/// 10^168 mod 337.
proof fn lemma_pow_337_10_168()
    ensures
        pow(10, 168) % 337 == 336,
{
    lemma_powmod_start(10, 337);
    lemma_powmod_step(10, 1, 10, 337, false, 100);
    lemma_powmod_step(10, 2, 100, 337, true, 248);
    lemma_powmod_step(10, 5, 248, 337, false, 170);
    lemma_powmod_step(10, 10, 170, 337, true, 191);
    lemma_powmod_step(10, 21, 191, 337, false, 85);
    lemma_powmod_step(10, 42, 85, 337, false, 148);
    lemma_powmod_step(10, 84, 148, 337, false, 336);
}

/// 10^112 mod 337.
proof fn lemma_pow_337_10_112()
    ensures
        pow(10, 112) % 337 == 128,
{
    lemma_powmod_start(10, 337);
    lemma_powmod_step(10, 1, 10, 337, true, 326);
    lemma_powmod_step(10, 3, 326, 337, true, 199);
    lemma_powmod_step(10, 7, 199, 337, false, 172);
    lemma_powmod_step(10, 14, 172, 337, false, 265);
    lemma_powmod_step(10, 28, 265, 337, false, 129);
    lemma_powmod_step(10, 56, 129, 337, false, 128);
}

/// 10^48 mod 337.
proof fn lemma_pow_337_10_48()
    ensures
        pow(10, 48) % 337 == 175,
{
    lemma_powmod_start(10, 337);
    lemma_powmod_step(10, 1, 10, 337, true, 326);
    lemma_powmod_step(10, 3, 326, 337, false, 121);
    lemma_powmod_step(10, 6, 121, 337, false, 150);
    lemma_powmod_step(10, 12, 150, 337, false, 258);
    lemma_powmod_step(10, 24, 258, 337, false, 175);
}

/// The prime factors of 337 - 1, with multiplicity.
pub open spec fn factors_337() -> Seq<int> {
    seq![2int] + (seq![2int] + (seq![2int] + (seq![2int] + (seq![3int] + (seq![7int] + (Seq::<int>::empty()))))))
}

/// 337 is prime: Lucas certificate with witness 10.
pub proof fn lemma_prime_337()
    ensures
        is_prime(337),
        lucas_certificate(337, 10, factors_337()),
{
    let fl = factors_337();
    lemma_pow_337_10_336();
    lemma_pow_337_10_168();
    lemma_prime_two();
    lemma_pow_337_10_112();
    lemma_prime_3();
    lemma_pow_337_10_48();
    lemma_prime_7();
    lemma_product_prepend(2, seq![2int] + (seq![2int] + (seq![2int] + (seq![3int] + (seq![7int] + (Seq::<int>::empty()))))));
    lemma_product_prepend(2, seq![2int] + (seq![2int] + (seq![3int] + (seq![7int] + (Seq::<int>::empty())))));
    lemma_product_prepend(2, seq![2int] + (seq![3int] + (seq![7int] + (Seq::<int>::empty()))));
    lemma_product_prepend(2, seq![3int] + (seq![7int] + (Seq::<int>::empty())));
    lemma_product_prepend(3, seq![7int] + (Seq::<int>::empty()));
    lemma_product_prepend(7, Seq::<int>::empty());
    assert forall|i: int| 0 <= i < fl.len() implies is_prime(#[trigger] fl[i]) && pow(10, ((337 - 1) / fl[i]) as nat) % 337 != 1 by {
        if i == 0 {
            assert(fl[0] == 2);
            assert((337 - 1) / fl[0] == 168);
        } else if i == 1 {
            assert(fl[1] == 2);
            assert((337 - 1) / fl[1] == 168);
        } else if i == 2 {
            assert(fl[2] == 2);
            assert((337 - 1) / fl[2] == 168);
        } else if i == 3 {
            assert(fl[3] == 2);
            assert((337 - 1) / fl[3] == 168);
        } else if i == 4 {
            assert(fl[4] == 3);
            assert((337 - 1) / fl[4] == 112);
        } else if i == 5 {
            assert(fl[5] == 7);
            assert((337 - 1) / fl[5] == 48);
        }
    }
    lemma_lucas(337, 10, fl);
}

/// 3^880 mod 881.
proof fn lemma_pow_881_3_880()
    ensures
        pow(3, 880) % 881 == 1,
{
    lemma_powmod_start(3, 881);
    lemma_powmod_step(3, 1, 3, 881, true, 27);
    lemma_powmod_step(3, 3, 27, 881, false, 729);
    lemma_powmod_step(3, 6, 729, 881, true, 594);
    lemma_powmod_step(3, 13, 594, 881, true, 427);
    lemma_powmod_step(3, 27, 427, 881, true, 767);
    lemma_powmod_step(3, 55, 767, 881, false, 662);
    lemma_powmod_step(3, 110, 662, 881, false, 387);
    lemma_powmod_step(3, 220, 387, 881, false, 880);
    lemma_powmod_step(3, 440, 880, 881, false, 1);
}

/// 3^440 mod 881.
proof fn lemma_pow_881_3_440()
    ensures
        pow(3, 440) % 881 == 880,
{
    lemma_powmod_start(3, 881);
    lemma_powmod_step(3, 1, 3, 881, true, 27);
    lemma_powmod_step(3, 3, 27, 881, false, 729);
    lemma_powmod_step(3, 6, 729, 881, true, 594);
    lemma_powmod_step(3, 13, 594, 881, true, 427);
    lemma_powmod_step(3, 27, 427, 881, true, 767);
    lemma_powmod_step(3, 55, 767, 881, false, 662);
    lemma_powmod_step(3, 110, 662, 881, false, 387);
    lemma_powmod_step(3, 220, 387, 881, false, 880);
}

/// 3^176 mod 881.
proof fn lemma_pow_881_3_176()
    ensures
        pow(3, 176) % 881 == 286,
{
    lemma_powmod_start(3, 881);
    lemma_powmod_step(3, 1, 3, 881, false, 9);
    lemma_powmod_step(3, 2, 9, 881, true, 243);
    lemma_powmod_step(3, 5, 243, 881, true, 66);
    lemma_powmod_step(3, 11, 66, 881, false, 832);
    lemma_powmod_step(3, 22, 832, 881, false, 639);
    lemma_powmod_step(3, 44, 639, 881, false, 418);
    lemma_powmod_step(3, 88, 418, 881, false, 286);
}

/// 3^80 mod 881.
proof fn lemma_pow_881_3_80()
    ensures
        pow(3, 80) % 881 == 171,
{
    lemma_powmod_start(3, 881);
    lemma_powmod_step(3, 1, 3, 881, false, 9);
    lemma_powmod_step(3, 2, 9, 881, true, 243);
    lemma_powmod_step(3, 5, 243, 881, false, 22);
    lemma_powmod_step(3, 10, 22, 881, false, 484);
    lemma_powmod_step(3, 20, 484, 881, false, 791);
    lemma_powmod_step(3, 40, 791, 881, false, 171);
}

/// The prime factors of 881 - 1, with multiplicity.
pub open spec fn factors_881() -> Seq<int> {
    seq![2int] + (seq![2int] + (seq![2int] + (seq![2int] + (seq![5int] + (seq![11int] + (Seq::<int>::empty()))))))
}

/// 881 is prime: Lucas certificate with witness 3.
pub proof fn lemma_prime_881()
    ensures
        is_prime(881),
        lucas_certificate(881, 3, factors_881()),
{
    let fl = factors_881();
    lemma_pow_881_3_880();
    lemma_pow_881_3_440();
    lemma_prime_two();
    lemma_pow_881_3_176();
    lemma_prime_5();
    lemma_pow_881_3_80();
    lemma_prime_11();
    lemma_product_prepend(2, seq![2int] + (seq![2int] + (seq![2int] + (seq![5int] + (seq![11int] + (Seq::<int>::empty()))))));
    lemma_product_prepend(2, seq![2int] + (seq![2int] + (seq![5int] + (seq![11int] + (Seq::<int>::empty())))));
    lemma_product_prepend(2, seq![2int] + (seq![5int] + (seq![11int] + (Seq::<int>::empty()))));
    lemma_product_prepend(2, seq![5int] + (seq![11int] + (Seq::<int>::empty())));
    lemma_product_prepend(5, seq![11int] + (Seq::<int>::empty()));
    lemma_product_prepend(11, Seq::<int>::empty());
    assert forall|i: int| 0 <= i < fl.len() implies is_prime(#[trigger] fl[i]) && pow(3, ((881 - 1) / fl[i]) as nat) % 881 != 1 by {
        if i == 0 {
            assert(fl[0] == 2);
            assert((881 - 1) / fl[0] == 440);
        } else if i == 1 {
            assert(fl[1] == 2);
            assert((881 - 1) / fl[1] == 440);
        } else if i == 2 {
            assert(fl[2] == 2);
            assert((881 - 1) / fl[2] == 440);
        } else if i == 3 {
            assert(fl[3] == 2);
            assert((881 - 1) / fl[3] == 440);
        } else if i == 4 {
            assert(fl[4] == 5);
            assert((881 - 1) / fl[4] == 176);
        } else if i == 5 {
            assert(fl[5] == 11);
            assert((881 - 1) / fl[5] == 80);
        }
    }
    lemma_lucas(881, 3, fl);
}

/// 6^1288 mod 1289.
proof fn lemma_pow_1289_6_1288()
    ensures
        pow(6, 1288) % 1289 == 1,
{
    lemma_powmod_start(6, 1289);
    lemma_powmod_step(6, 1, 6, 1289, false, 36);
    lemma_powmod_step(6, 2, 36, 1289, true, 42);
    lemma_powmod_step(6, 5, 42, 1289, false, 475);
    lemma_powmod_step(6, 10, 475, 1289, false, 50);
    lemma_powmod_step(6, 20, 50, 1289, false, 1211);
    lemma_powmod_step(6, 40, 1211, 1289, false, 928);
    lemma_powmod_step(6, 80, 928, 1289, true, 792);
    lemma_powmod_step(6, 161, 792, 1289, false, 810);
    lemma_powmod_step(6, 322, 810, 1289, false, 1288);
    lemma_powmod_step(6, 644, 1288, 1289, false, 1);
}

/// 6^644 mod 1289.
proof fn lemma_pow_1289_6_644()
    ensures
        pow(6, 644) % 1289 == 1288,
{
    lemma_powmod_start(6, 1289);
    lemma_powmod_step(6, 1, 6, 1289, false, 36);
    lemma_powmod_step(6, 2, 36, 1289, true, 42);
    lemma_powmod_step(6, 5, 42, 1289, false, 475);
    lemma_powmod_step(6, 10, 475, 1289, false, 50);
    lemma_powmod_step(6, 20, 50, 1289, false, 1211);
    lemma_powmod_step(6, 40, 1211, 1289, false, 928);
    lemma_powmod_step(6, 80, 928, 1289, true, 792);
    lemma_powmod_step(6, 161, 792, 1289, false, 810);
    lemma_powmod_step(6, 322, 810, 1289, false, 1288);
}

/// 6^184 mod 1289.
proof fn lemma_pow_1289_6_184()
    ensures
        pow(6, 184) % 1289 == 1085,
{
    lemma_powmod_start(6, 1289);
    lemma_powmod_step(6, 1, 6, 1289, false, 36);
    lemma_powmod_step(6, 2, 36, 1289, true, 42);
    lemma_powmod_step(6, 5, 42, 1289, true, 272);
    lemma_powmod_step(6, 11, 272, 1289, true, 488);
    lemma_powmod_step(6, 23, 488, 1289, false, 968);
    lemma_powmod_step(6, 46, 968, 1289, false, 1210);
    lemma_powmod_step(6, 92, 1210, 1289, false, 1085);
}

/// 6^56 mod 1289.
proof fn lemma_pow_1289_6_56()
    ensures
        pow(6, 56) % 1289 == 916,
{
    lemma_powmod_start(6, 1289);
    lemma_powmod_step(6, 1, 6, 1289, true, 216);
    lemma_powmod_step(6, 3, 216, 1289, true, 223);
    lemma_powmod_step(6, 7, 223, 1289, false, 747);
    lemma_powmod_step(6, 14, 747, 1289, false, 1161);
    lemma_powmod_step(6, 28, 1161, 1289, false, 916);
}

/// The prime factors of 1289 - 1, with multiplicity.
pub open spec fn factors_1289() -> Seq<int> {
    seq![2int] + (seq![2int] + (seq![2int] + (seq![7int] + (seq![23int] + (Seq::<int>::empty())))))
}

/// 1289 is prime: Lucas certificate with witness 6.
pub proof fn lemma_prime_1289()
    ensures
        is_prime(1289),
        lucas_certificate(1289, 6, factors_1289()),
{
    let fl = factors_1289();
    lemma_pow_1289_6_1288();
    lemma_pow_1289_6_644();
    lemma_prime_two();
    lemma_pow_1289_6_184();
    lemma_prime_7();
    lemma_pow_1289_6_56();
    lemma_prime_23();
    lemma_product_prepend(2, seq![2int] + (seq![2int] + (seq![7int] + (seq![23int] + (Seq::<int>::empty())))));
    lemma_product_prepend(2, seq![2int] + (seq![7int] + (seq![23int] + (Seq::<int>::empty()))));
    lemma_product_prepend(2, seq![7int] + (seq![23int] + (Seq::<int>::empty())));
    lemma_product_prepend(7, seq![23int] + (Seq::<int>::empty()));
    lemma_product_prepend(23, Seq::<int>::empty());
    assert forall|i: int| 0 <= i < fl.len() implies is_prime(#[trigger] fl[i]) && pow(6, ((1289 - 1) / fl[i]) as nat) % 1289 != 1 by {
        if i == 0 {
            assert(fl[0] == 2);
            assert((1289 - 1) / fl[0] == 644);
        } else if i == 1 {
            assert(fl[1] == 2);
            assert((1289 - 1) / fl[1] == 644);
        } else if i == 2 {
            assert(fl[2] == 2);
            assert((1289 - 1) / fl[2] == 644);
        } else if i == 3 {
            assert(fl[3] == 7);
            assert((1289 - 1) / fl[3] == 184);
        } else if i == 4 {
            assert(fl[4] == 23);
            assert((1289 - 1) / fl[4] == 56);
        }
    }
    lemma_lucas(1289, 6, fl);
}

/// 3^1912 mod 1913.
proof fn lemma_pow_1913_3_1912()
    ensures
        pow(3, 1912) % 1913 == 1,
{
    lemma_powmod_start(3, 1913);
    lemma_powmod_step(3, 1, 3, 1913, true, 27);
    lemma_powmod_step(3, 3, 27, 1913, true, 274);
    lemma_powmod_step(3, 7, 274, 1913, false, 469);
    lemma_powmod_step(3, 14, 469, 1913, true, 1811);
    lemma_powmod_step(3, 29, 1811, 1913, true, 604);
    lemma_powmod_step(3, 59, 604, 1913, true, 212);
    lemma_powmod_step(3, 119, 212, 1913, true, 922);
    lemma_powmod_step(3, 239, 922, 1913, false, 712);
    lemma_powmod_step(3, 478, 712, 1913, false, 1912);
    lemma_powmod_step(3, 956, 1912, 1913, false, 1);
}

/// 3^956 mod 1913.
proof fn lemma_pow_1913_3_956()
    ensures
        pow(3, 956) % 1913 == 1912,
{
    lemma_powmod_start(3, 1913);
    lemma_powmod_step(3, 1, 3, 1913, true, 27);
    lemma_powmod_step(3, 3, 27, 1913, true, 274);
    lemma_powmod_step(3, 7, 274, 1913, false, 469);
    lemma_powmod_step(3, 14, 469, 1913, true, 1811);
    lemma_powmod_step(3, 29, 1811, 1913, true, 604);
    lemma_powmod_step(3, 59, 604, 1913, true, 212);
    lemma_powmod_step(3, 119, 212, 1913, true, 922);
    lemma_powmod_step(3, 239, 922, 1913, false, 712);
    lemma_powmod_step(3, 478, 712, 1913, false, 1912);
}

/// 3^8 mod 1913.
proof fn lemma_pow_1913_3_8()
    ensures
        pow(3, 8) % 1913 == 822,
{
    lemma_powmod_start(3, 1913);
    lemma_powmod_step(3, 1, 3, 1913, false, 9);
    lemma_powmod_step(3, 2, 9, 1913, false, 81);
    lemma_powmod_step(3, 4, 81, 1913, false, 822);
}

/// The prime factors of 1913 - 1, with multiplicity.
pub open spec fn factors_1913() -> Seq<int> {
    seq![2int] + (seq![2int] + (seq![2int] + (seq![239int] + (Seq::<int>::empty()))))
}

/// 1913 is prime: Lucas certificate with witness 3.
pub proof fn lemma_prime_1913()
    ensures
        is_prime(1913),
        lucas_certificate(1913, 3, factors_1913()),
{
    let fl = factors_1913();
    lemma_pow_1913_3_1912();
    lemma_pow_1913_3_956();
    lemma_prime_two();
    lemma_pow_1913_3_8();
    lemma_prime_239();
    lemma_product_prepend(2, seq![2int] + (seq![2int] + (seq![239int] + (Seq::<int>::empty()))));
    lemma_product_prepend(2, seq![2int] + (seq![239int] + (Seq::<int>::empty())));
    lemma_product_prepend(2, seq![239int] + (Seq::<int>::empty()));
    lemma_product_prepend(239, Seq::<int>::empty());
    assert forall|i: int| 0 <= i < fl.len() implies is_prime(#[trigger] fl[i]) && pow(3, ((1913 - 1) / fl[i]) as nat) % 1913 != 1 by {
        if i == 0 {
            assert(fl[0] == 2);
            assert((1913 - 1) / fl[0] == 956);
        } else if i == 1 {
            assert(fl[1] == 2);
            assert((1913 - 1) / fl[1] == 956);
        } else if i == 2 {
            assert(fl[2] == 2);
            assert((1913 - 1) / fl[2] == 956);
        } else if i == 3 {
            assert(fl[3] == 239);
            assert((1913 - 1) / fl[3] == 8);
        }
    }
    lemma_lucas(1913, 3, fl);
}

/// 3^4816 mod 4817.
proof fn lemma_pow_4817_3_4816()
    ensures
        pow(3, 4816) % 4817 == 1,
{
    lemma_powmod_start(3, 4817);
    lemma_powmod_step(3, 1, 3, 4817, false, 9);
    lemma_powmod_step(3, 2, 9, 4817, false, 81);
    lemma_powmod_step(3, 4, 81, 4817, true, 415);
    lemma_powmod_step(3, 9, 415, 4817, false, 3630);
    lemma_powmod_step(3, 18, 3630, 4817, true, 2398);
    lemma_powmod_step(3, 37, 2398, 4817, true, 1535);
    lemma_powmod_step(3, 75, 1535, 4817, false, 712);
    lemma_powmod_step(3, 150, 712, 4817, true, 3477);
    lemma_powmod_step(3, 301, 3477, 4817, false, 3676);
    lemma_powmod_step(3, 602, 3676, 4817, false, 1291);
    lemma_powmod_step(3, 1204, 1291, 4817, false, 4816);
    lemma_powmod_step(3, 2408, 4816, 4817, false, 1);
}

/// 3^2408 mod 4817.
proof fn lemma_pow_4817_3_2408()
    ensures
        pow(3, 2408) % 4817 == 4816,
{
    lemma_powmod_start(3, 4817);
    lemma_powmod_step(3, 1, 3, 4817, false, 9);
    lemma_powmod_step(3, 2, 9, 4817, false, 81);
    lemma_powmod_step(3, 4, 81, 4817, true, 415);
    lemma_powmod_step(3, 9, 415, 4817, false, 3630);
    lemma_powmod_step(3, 18, 3630, 4817, true, 2398);
    lemma_powmod_step(3, 37, 2398, 4817, true, 1535);
    lemma_powmod_step(3, 75, 1535, 4817, false, 712);
    lemma_powmod_step(3, 150, 712, 4817, true, 3477);
    lemma_powmod_step(3, 301, 3477, 4817, false, 3676);
    lemma_powmod_step(3, 602, 3676, 4817, false, 1291);
    lemma_powmod_step(3, 1204, 1291, 4817, false, 4816);
}

/// 3^688 mod 4817.
proof fn lemma_pow_4817_3_688()
    ensures
        pow(3, 688) % 4817 == 1517,
{
    lemma_powmod_start(3, 4817);
    lemma_powmod_step(3, 1, 3, 4817, false, 9);
    lemma_powmod_step(3, 2, 9, 4817, true, 243);
    lemma_powmod_step(3, 5, 243, 4817, false, 1245);
    lemma_powmod_step(3, 10, 1245, 4817, true, 1670);
    lemma_powmod_step(3, 21, 1670, 4817, true, 4388);
    lemma_powmod_step(3, 43, 4388, 4817, false, 995);
    lemma_powmod_step(3, 86, 995, 4817, false, 2540);
    lemma_powmod_step(3, 172, 2540, 4817, false, 1637);
    lemma_powmod_step(3, 344, 1637, 4817, false, 1517);
}

/// 3^112 mod 4817.
proof fn lemma_pow_4817_3_112()
    ensures
        pow(3, 112) % 4817 == 742,
{
    lemma_powmod_start(3, 4817);
    lemma_powmod_step(3, 1, 3, 4817, true, 27);
    lemma_powmod_step(3, 3, 27, 4817, true, 2187);
    lemma_powmod_step(3, 7, 2187, 4817, false, 4505);
    lemma_powmod_step(3, 14, 4505, 4817, false, 1004);
    lemma_powmod_step(3, 28, 1004, 4817, false, 1263);
    lemma_powmod_step(3, 56, 1263, 4817, false, 742);
}

/// The prime factors of 4817 - 1, with multiplicity.
pub open spec fn factors_4817() -> Seq<int> {
    seq![2int] + (seq![2int] + (seq![2int] + (seq![2int] + (seq![7int] + (seq![43int] + (Seq::<int>::empty()))))))
}

/// 4817 is prime: Lucas certificate with witness 3.
pub proof fn lemma_prime_4817()
    ensures
        is_prime(4817),
        lucas_certificate(4817, 3, factors_4817()),
{
    let fl = factors_4817();
    lemma_pow_4817_3_4816();
    lemma_pow_4817_3_2408();
    lemma_prime_two();
    lemma_pow_4817_3_688();
    lemma_prime_7();
    lemma_pow_4817_3_112();
    lemma_prime_43();
    lemma_product_prepend(2, seq![2int] + (seq![2int] + (seq![2int] + (seq![7int] + (seq![43int] + (Seq::<int>::empty()))))));
    lemma_product_prepend(2, seq![2int] + (seq![2int] + (seq![7int] + (seq![43int] + (Seq::<int>::empty())))));
    lemma_product_prepend(2, seq![2int] + (seq![7int] + (seq![43int] + (Seq::<int>::empty()))));
    lemma_product_prepend(2, seq![7int] + (seq![43int] + (Seq::<int>::empty())));
    lemma_product_prepend(7, seq![43int] + (Seq::<int>::empty()));
    lemma_product_prepend(43, Seq::<int>::empty());
    assert forall|i: int| 0 <= i < fl.len() implies is_prime(#[trigger] fl[i]) && pow(3, ((4817 - 1) / fl[i]) as nat) % 4817 != 1 by {
        if i == 0 {
            assert(fl[0] == 2);
            assert((4817 - 1) / fl[0] == 2408);
        } else if i == 1 {
            assert(fl[1] == 2);
            assert((4817 - 1) / fl[1] == 2408);
        } else if i == 2 {
            assert(fl[2] == 2);
            assert((4817 - 1) / fl[2] == 2408);
        } else if i == 3 {
            assert(fl[3] == 2);
            assert((4817 - 1) / fl[3] == 2408);
        } else if i == 4 {
            assert(fl[4] == 7);
            assert((4817 - 1) / fl[4] == 688);
        } else if i == 5 {
            assert(fl[5] == 43);
            assert((4817 - 1) / fl[5] == 112);
        }
    }
    lemma_lucas(4817, 3, fl);
}

/// 3^5418 mod 5419.
proof fn lemma_pow_5419_3_5418()
    ensures
        pow(3, 5418) % 5419 == 1,
{
    lemma_powmod_start(3, 5419);
    lemma_powmod_step(3, 1, 3, 5419, false, 9);
    lemma_powmod_step(3, 2, 9, 5419, true, 243);
    lemma_powmod_step(3, 5, 243, 5419, false, 4859);
    lemma_powmod_step(3, 10, 4859, 5419, true, 3313);
    lemma_powmod_step(3, 21, 3313, 5419, false, 2494);
    lemma_powmod_step(3, 42, 2494, 5419, false, 4443);
    lemma_powmod_step(3, 84, 4443, 5419, true, 1915);
    lemma_powmod_step(3, 169, 1915, 5419, false, 3981);
    lemma_powmod_step(3, 338, 3981, 5419, true, 4196);
    lemma_powmod_step(3, 677, 4196, 5419, false, 85);
    lemma_powmod_step(3, 1354, 85, 5419, true, 5418);
    lemma_powmod_step(3, 2709, 5418, 5419, false, 1);
}

/// 3^2709 mod 5419.
proof fn lemma_pow_5419_3_2709()
    ensures
        pow(3, 2709) % 5419 == 5418,
{
    lemma_powmod_start(3, 5419);
    lemma_powmod_step(3, 1, 3, 5419, false, 9);
    lemma_powmod_step(3, 2, 9, 5419, true, 243);
    lemma_powmod_step(3, 5, 243, 5419, false, 4859);
    lemma_powmod_step(3, 10, 4859, 5419, true, 3313);
    lemma_powmod_step(3, 21, 3313, 5419, false, 2494);
    lemma_powmod_step(3, 42, 2494, 5419, false, 4443);
    lemma_powmod_step(3, 84, 4443, 5419, true, 1915);
    lemma_powmod_step(3, 169, 1915, 5419, false, 3981);
    lemma_powmod_step(3, 338, 3981, 5419, true, 4196);
    lemma_powmod_step(3, 677, 4196, 5419, false, 85);
    lemma_powmod_step(3, 1354, 85, 5419, true, 5418);
}

/// 3^1806 mod 5419.
proof fn lemma_pow_5419_3_1806()
    ensures
        pow(3, 1806) % 5419 == 5291,
{
    lemma_powmod_start(3, 5419);
    lemma_powmod_step(3, 1, 3, 5419, true, 27);
    lemma_powmod_step(3, 3, 27, 5419, true, 2187);
    lemma_powmod_step(3, 7, 2187, 5419, false, 3411);
    lemma_powmod_step(3, 14, 3411, 5419, false, 328);
    lemma_powmod_step(3, 28, 328, 5419, false, 4623);
    lemma_powmod_step(3, 56, 4623, 5419, false, 5012);
    lemma_powmod_step(3, 112, 5012, 5419, true, 3818);
    lemma_powmod_step(3, 225, 3818, 5419, true, 42);
    lemma_powmod_step(3, 451, 42, 5419, true, 5292);
    lemma_powmod_step(3, 903, 5292, 5419, false, 5291);
}

/// 3^774 mod 5419.
proof fn lemma_pow_5419_3_774()
    ensures
        pow(3, 774) % 5419 == 64,
{
    lemma_powmod_start(3, 5419);
    lemma_powmod_step(3, 1, 3, 5419, true, 27);
    lemma_powmod_step(3, 3, 27, 5419, false, 729);
    lemma_powmod_step(3, 6, 729, 5419, false, 379);
    lemma_powmod_step(3, 12, 379, 5419, false, 2747);
    lemma_powmod_step(3, 24, 2747, 5419, false, 2761);
    lemma_powmod_step(3, 48, 2761, 5419, false, 4007);
    lemma_powmod_step(3, 96, 4007, 5419, true, 4075);
    lemma_powmod_step(3, 193, 4075, 5419, true, 8);
    lemma_powmod_step(3, 387, 8, 5419, false, 64);
}

/// 3^126 mod 5419.
proof fn lemma_pow_5419_3_126()
    ensures
        pow(3, 126) % 5419 == 4406,
{
    lemma_powmod_start(3, 5419);
    lemma_powmod_step(3, 1, 3, 5419, true, 27);
    lemma_powmod_step(3, 3, 27, 5419, true, 2187);
    lemma_powmod_step(3, 7, 2187, 5419, true, 4814);
    lemma_powmod_step(3, 15, 4814, 5419, true, 3437);
    lemma_powmod_step(3, 31, 3437, 5419, true, 4066);
    lemma_powmod_step(3, 63, 4066, 5419, false, 4406);
}

/// The prime factors of 5419 - 1, with multiplicity.
pub open spec fn factors_5419() -> Seq<int> {
    seq![2int] + (seq![3int] + (seq![3int] + (seq![7int] + (seq![43int] + (Seq::<int>::empty())))))
}

/// 5419 is prime: Lucas certificate with witness 3.
pub proof fn lemma_prime_5419()
    ensures
        is_prime(5419),
        lucas_certificate(5419, 3, factors_5419()),
{
    let fl = factors_5419();
    lemma_pow_5419_3_5418();
    lemma_pow_5419_3_2709();
    lemma_prime_two();
    lemma_pow_5419_3_1806();
    lemma_prime_3();
    lemma_pow_5419_3_774();
    lemma_prime_7();
    lemma_pow_5419_3_126();
    lemma_prime_43();
    lemma_product_prepend(2, seq![3int] + (seq![3int] + (seq![7int] + (seq![43int] + (Seq::<int>::empty())))));
    lemma_product_prepend(3, seq![3int] + (seq![7int] + (seq![43int] + (Seq::<int>::empty()))));
    lemma_product_prepend(3, seq![7int] + (seq![43int] + (Seq::<int>::empty())));
    lemma_product_prepend(7, seq![43int] + (Seq::<int>::empty()));
    lemma_product_prepend(43, Seq::<int>::empty());
    assert forall|i: int| 0 <= i < fl.len() implies is_prime(#[trigger] fl[i]) && pow(3, ((5419 - 1) / fl[i]) as nat) % 5419 != 1 by {
        if i == 0 {
            assert(fl[0] == 2);
            assert((5419 - 1) / fl[0] == 2709);
        } else if i == 1 {
            assert(fl[1] == 3);
            assert((5419 - 1) / fl[1] == 1806);
        } else if i == 2 {
            assert(fl[2] == 3);
            assert((5419 - 1) / fl[2] == 1806);
        } else if i == 3 {
            assert(fl[3] == 7);
            assert((5419 - 1) / fl[3] == 774);
        } else if i == 4 {
            assert(fl[4] == 43);
            assert((5419 - 1) / fl[4] == 126);
        }
    }
    lemma_lucas(5419, 3, fl);
}

/// 5^92736 mod 92737.
proof fn lemma_pow_92737_5_92736()
    ensures
        pow(5, 92736) % 92737 == 1,
{
    lemma_powmod_start(5, 92737);
    lemma_powmod_step(5, 1, 5, 92737, false, 25);
    lemma_powmod_step(5, 2, 25, 92737, true, 3125);
    lemma_powmod_step(5, 5, 3125, 92737, true, 48463);
    lemma_powmod_step(5, 11, 48463, 92737, false, 5107);
    lemma_powmod_step(5, 22, 5107, 92737, true, 19023);
    lemma_powmod_step(5, 45, 19023, 92737, false, 14755);
    lemma_powmod_step(5, 90, 14755, 92737, true, 3219);
    lemma_powmod_step(5, 181, 3219, 92737, false, 68154);
    lemma_powmod_step(5, 362, 68154, 92737, false, 49597);
    lemma_powmod_step(5, 724, 49597, 92737, true, 67420);
    lemma_powmod_step(5, 1449, 67420, 92737, false, 45082);
    lemma_powmod_step(5, 2898, 45082, 92737, false, 55369);
    lemma_powmod_step(5, 5796, 55369, 92737, false, 26415);
    lemma_powmod_step(5, 11592, 26415, 92737, false, 91774);
    lemma_powmod_step(5, 23184, 91774, 92737, false, 92736);
    lemma_powmod_step(5, 46368, 92736, 92737, false, 1);
}

/// 5^46368 mod 92737.
proof fn lemma_pow_92737_5_46368()
    ensures
        pow(5, 46368) % 92737 == 92736,
{
    lemma_powmod_start(5, 92737);
    lemma_powmod_step(5, 1, 5, 92737, false, 25);
    lemma_powmod_step(5, 2, 25, 92737, true, 3125);
    lemma_powmod_step(5, 5, 3125, 92737, true, 48463);
    lemma_powmod_step(5, 11, 48463, 92737, false, 5107);
    lemma_powmod_step(5, 22, 5107, 92737, true, 19023);
    lemma_powmod_step(5, 45, 19023, 92737, false, 14755);
    lemma_powmod_step(5, 90, 14755, 92737, true, 3219);
    lemma_powmod_step(5, 181, 3219, 92737, false, 68154);
    lemma_powmod_step(5, 362, 68154, 92737, false, 49597);
    lemma_powmod_step(5, 724, 49597, 92737, true, 67420);
    lemma_powmod_step(5, 1449, 67420, 92737, false, 45082);
    lemma_powmod_step(5, 2898, 45082, 92737, false, 55369);
    lemma_powmod_step(5, 5796, 55369, 92737, false, 26415);
    lemma_powmod_step(5, 11592, 26415, 92737, false, 91774);
    lemma_powmod_step(5, 23184, 91774, 92737, false, 92736);
}

/// 5^30912 mod 92737.
proof fn lemma_pow_92737_5_30912()
    ensures
        pow(5, 30912) % 92737 == 35798,
{
    lemma_powmod_start(5, 92737);
    lemma_powmod_step(5, 1, 5, 92737, true, 125);
    lemma_powmod_step(5, 3, 125, 92737, true, 78125);
    lemma_powmod_step(5, 7, 78125, 92737, true, 57113);
    lemma_powmod_step(5, 15, 57113, 92737, false, 56268);
    lemma_powmod_step(5, 30, 56268, 92737, false, 46644);
    lemma_powmod_step(5, 60, 46644, 92737, false, 52716);
    lemma_powmod_step(5, 120, 52716, 92737, true, 5833);
    lemma_powmod_step(5, 241, 5833, 92737, true, 39787);
    lemma_powmod_step(5, 483, 39787, 92737, false, 77516);
    lemma_powmod_step(5, 966, 77516, 92737, false, 21815);
    lemma_powmod_step(5, 1932, 21815, 92737, false, 60678);
    lemma_powmod_step(5, 3864, 60678, 92737, false, 68047);
    lemma_powmod_step(5, 7728, 68047, 92737, false, 35799);
    lemma_powmod_step(5, 15456, 35799, 92737, false, 35798);
}

/// 5^13248 mod 92737.
proof fn lemma_pow_92737_5_13248()
    ensures
        pow(5, 13248) % 92737 == 8173,
{
    lemma_powmod_start(5, 92737);
    lemma_powmod_step(5, 1, 5, 92737, true, 125);
    lemma_powmod_step(5, 3, 125, 92737, false, 15625);
    lemma_powmod_step(5, 6, 15625, 92737, false, 56841);
    lemma_powmod_step(5, 12, 56841, 92737, true, 81953);
    lemma_powmod_step(5, 25, 81953, 92737, true, 12290);
    lemma_powmod_step(5, 51, 12290, 92737, true, 63109);
    lemma_powmod_step(5, 103, 63109, 92737, true, 35184);
    lemma_powmod_step(5, 207, 35184, 92737, false, 60380);
    lemma_powmod_step(5, 414, 60380, 92737, false, 67456);
    lemma_powmod_step(5, 828, 67456, 92737, false, 78294);
    lemma_powmod_step(5, 1656, 78294, 92737, false, 34736);
    lemma_powmod_step(5, 3312, 34736, 92737, false, 81326);
    lemma_powmod_step(5, 6624, 81326, 92737, false, 8173);
}

/// 5^4032 mod 92737.
proof fn lemma_pow_92737_5_4032()
    ensures
        pow(5, 4032) % 92737 == 1674,
{
    lemma_powmod_start(5, 92737);
    lemma_powmod_step(5, 1, 5, 92737, true, 125);
    lemma_powmod_step(5, 3, 125, 92737, true, 78125);
    lemma_powmod_step(5, 7, 78125, 92737, true, 57113);
    lemma_powmod_step(5, 15, 57113, 92737, true, 3129);
    lemma_powmod_step(5, 31, 3129, 92737, true, 80806);
    lemma_powmod_step(5, 63, 80806, 92737, false, 90203);
    lemma_powmod_step(5, 126, 90203, 92737, false, 22303);
    lemma_powmod_step(5, 252, 22303, 92737, false, 75278);
    lemma_powmod_step(5, 504, 75278, 92737, false, 82899);
    lemma_powmod_step(5, 1008, 82899, 92737, false, 61553);
    lemma_powmod_step(5, 2016, 61553, 92737, false, 1674);
}

/// The prime factors of 92737 - 1, with multiplicity.
pub open spec fn factors_92737() -> Seq<int> {
    seq![2int] + (seq![2int] + (seq![2int] + (seq![2int] + (seq![2int] + (seq![2int] + (seq![3int] + (seq![3int] + (seq![7int] + (seq![23int] + (Seq::<int>::empty()))))))))))
}

/// 92737 is prime: Lucas certificate with witness 5.
pub proof fn lemma_prime_92737()
    ensures
        is_prime(92737),
        lucas_certificate(92737, 5, factors_92737()),
{
    let fl = factors_92737();
    lemma_pow_92737_5_92736();
    lemma_pow_92737_5_46368();
    lemma_prime_two();
    lemma_pow_92737_5_30912();
    lemma_prime_3();
    lemma_pow_92737_5_13248();
    lemma_prime_7();
    lemma_pow_92737_5_4032();
    lemma_prime_23();
    lemma_product_prepend(2, seq![2int] + (seq![2int] + (seq![2int] + (seq![2int] + (seq![2int] + (seq![3int] + (seq![3int] + (seq![7int] + (seq![23int] + (Seq::<int>::empty()))))))))));
    lemma_product_prepend(2, seq![2int] + (seq![2int] + (seq![2int] + (seq![2int] + (seq![3int] + (seq![3int] + (seq![7int] + (seq![23int] + (Seq::<int>::empty())))))))));
    lemma_product_prepend(2, seq![2int] + (seq![2int] + (seq![2int] + (seq![3int] + (seq![3int] + (seq![7int] + (seq![23int] + (Seq::<int>::empty()))))))));
    lemma_product_prepend(2, seq![2int] + (seq![2int] + (seq![3int] + (seq![3int] + (seq![7int] + (seq![23int] + (Seq::<int>::empty())))))));
    lemma_product_prepend(2, seq![2int] + (seq![3int] + (seq![3int] + (seq![7int] + (seq![23int] + (Seq::<int>::empty()))))));
    lemma_product_prepend(2, seq![3int] + (seq![3int] + (seq![7int] + (seq![23int] + (Seq::<int>::empty())))));
    lemma_product_prepend(3, seq![3int] + (seq![7int] + (seq![23int] + (Seq::<int>::empty()))));
    lemma_product_prepend(3, seq![7int] + (seq![23int] + (Seq::<int>::empty())));
    lemma_product_prepend(7, seq![23int] + (Seq::<int>::empty()));
    lemma_product_prepend(23, Seq::<int>::empty());
    assert forall|i: int| 0 <= i < fl.len() implies is_prime(#[trigger] fl[i]) && pow(5, ((92737 - 1) / fl[i]) as nat) % 92737 != 1 by {
        if i == 0 {
            assert(fl[0] == 2);
            assert((92737 - 1) / fl[0] == 46368);
        } else if i == 1 {
            assert(fl[1] == 2);
            assert((92737 - 1) / fl[1] == 46368);
        } else if i == 2 {
            assert(fl[2] == 2);
            assert((92737 - 1) / fl[2] == 46368);
        } else if i == 3 {
            assert(fl[3] == 2);
            assert((92737 - 1) / fl[3] == 46368);
        } else if i == 4 {
            assert(fl[4] == 2);
            assert((92737 - 1) / fl[4] == 46368);
        } else if i == 5 {
            assert(fl[5] == 2);
            assert((92737 - 1) / fl[5] == 46368);
        } else if i == 6 {
            assert(fl[6] == 3);
            assert((92737 - 1) / fl[6] == 30912);
        } else if i == 7 {
            assert(fl[7] == 3);
            assert((92737 - 1) / fl[7] == 30912);
        } else if i == 8 {
            assert(fl[8] == 7);
            assert((92737 - 1) / fl[8] == 13248);
        } else if i == 9 {
            assert(fl[9] == 23);
            assert((92737 - 1) / fl[9] == 4032);
        }
    }
    lemma_lucas(92737, 5, fl);
}

/// 17^174762 mod 174763.
proof fn lemma_pow_174763_17_174762()
    ensures
        pow(17, 174762) % 174763 == 1,
{
    lemma_powmod_start(17, 174763);
    lemma_powmod_step(17, 1, 17, 174763, false, 289);
    lemma_powmod_step(17, 2, 289, 174763, true, 21753);
    lemma_powmod_step(17, 5, 21753, 174763, false, 109568);
    lemma_powmod_step(17, 10, 109568, 174763, true, 135023);
    lemma_powmod_step(17, 21, 135023, 174763, false, 109132);
    lemma_powmod_step(17, 42, 109132, 174763, true, 57448);
    lemma_powmod_step(17, 85, 57448, 174763, false, 48212);
    lemma_powmod_step(17, 170, 48212, 174763, true, 134696);
    lemma_powmod_step(17, 341, 134696, 174763, false, 166334);
    lemma_powmod_step(17, 682, 166334, 174763, true, 29604);
    lemma_powmod_step(17, 1365, 29604, 174763, false, 135134);
    lemma_powmod_step(17, 2730, 135134, 174763, true, 110202);
    lemma_powmod_step(17, 5461, 110202, 174763, false, 25171);
    lemma_powmod_step(17, 10922, 25171, 174763, true, 28644);
    lemma_powmod_step(17, 21845, 28644, 174763, false, 141214);
    lemma_powmod_step(17, 43690, 141214, 174763, true, 174762);
    lemma_powmod_step(17, 87381, 174762, 174763, false, 1);
}

/// 17^87381 mod 174763.
proof fn lemma_pow_174763_17_87381()
    ensures
        pow(17, 87381) % 174763 == 174762,
{
    lemma_powmod_start(17, 174763);
    lemma_powmod_step(17, 1, 17, 174763, false, 289);
    lemma_powmod_step(17, 2, 289, 174763, true, 21753);
    lemma_powmod_step(17, 5, 21753, 174763, false, 109568);
    lemma_powmod_step(17, 10, 109568, 174763, true, 135023);
    lemma_powmod_step(17, 21, 135023, 174763, false, 109132);
    lemma_powmod_step(17, 42, 109132, 174763, true, 57448);
    lemma_powmod_step(17, 85, 57448, 174763, false, 48212);
    lemma_powmod_step(17, 170, 48212, 174763, true, 134696);
    lemma_powmod_step(17, 341, 134696, 174763, false, 166334);
    lemma_powmod_step(17, 682, 166334, 174763, true, 29604);
    lemma_powmod_step(17, 1365, 29604, 174763, false, 135134);
    lemma_powmod_step(17, 2730, 135134, 174763, true, 110202);
    lemma_powmod_step(17, 5461, 110202, 174763, false, 25171);
    lemma_powmod_step(17, 10922, 25171, 174763, true, 28644);
    lemma_powmod_step(17, 21845, 28644, 174763, false, 141214);
    lemma_powmod_step(17, 43690, 141214, 174763, true, 174762);
}

/// 17^58254 mod 174763.
proof fn lemma_pow_174763_17_58254()
    ensures
        pow(17, 58254) % 174763 == 91079,
{
    lemma_powmod_start(17, 174763);
    lemma_powmod_step(17, 1, 17, 174763, true, 4913);
    lemma_powmod_step(17, 3, 4913, 174763, true, 169912);
    lemma_powmod_step(17, 7, 169912, 174763, false, 113959);
    lemma_powmod_step(17, 14, 113959, 174763, false, 15151);
    lemma_powmod_step(17, 28, 15151, 174763, false, 88982);
    lemma_powmod_step(17, 56, 88982, 174763, true, 74908);
    lemma_powmod_step(17, 113, 74908, 174763, true, 5124);
    lemma_powmod_step(17, 227, 5124, 174763, true, 171453);
    lemma_powmod_step(17, 455, 171453, 174763, false, 120794);
    lemma_powmod_step(17, 910, 120794, 174763, false, 52803);
    lemma_powmod_step(17, 1820, 52803, 174763, false, 162670);
    lemma_powmod_step(17, 3640, 162670, 174763, true, 87358);
    lemma_powmod_step(17, 7281, 87358, 174763, true, 53079);
    lemma_powmod_step(17, 14563, 53079, 174763, true, 91080);
    lemma_powmod_step(17, 29127, 91080, 174763, false, 91079);
}

/// 17^24966 mod 174763.
proof fn lemma_pow_174763_17_24966()
    ensures
        pow(17, 24966) % 174763 == 101386,
{
    lemma_powmod_start(17, 174763);
    lemma_powmod_step(17, 1, 17, 174763, true, 4913);
    lemma_powmod_step(17, 3, 4913, 174763, false, 20275);
    lemma_powmod_step(17, 6, 20275, 174763, false, 33049);
    lemma_powmod_step(17, 12, 33049, 174763, false, 142414);
    lemma_powmod_step(17, 24, 142414, 174763, false, 151720);
    lemma_powmod_step(17, 48, 151720, 174763, true, 148483);
    lemma_powmod_step(17, 97, 148483, 174763, true, 99697);
    lemma_powmod_step(17, 195, 99697, 174763, false, 20947);
    lemma_powmod_step(17, 390, 20947, 174763, false, 121679);
    lemma_powmod_step(17, 780, 121679, 174763, false, 32444);
    lemma_powmod_step(17, 1560, 32444, 174763, false, 15587);
    lemma_powmod_step(17, 3120, 15587, 174763, true, 53694);
    lemma_powmod_step(17, 6241, 53694, 174763, true, 16751);
    lemma_powmod_step(17, 12483, 16751, 174763, false, 101386);
}

/// 17^9198 mod 174763.
proof fn lemma_pow_174763_17_9198()
    ensures
        pow(17, 9198) % 174763 == 174755,
{
    lemma_powmod_start(17, 174763);
    lemma_powmod_step(17, 1, 17, 174763, false, 289);
    lemma_powmod_step(17, 2, 289, 174763, false, 83521);
    lemma_powmod_step(17, 4, 83521, 174763, false, 92296);
    lemma_powmod_step(17, 8, 92296, 174763, true, 114678);
    lemma_powmod_step(17, 17, 114678, 174763, true, 77722);
    lemma_powmod_step(17, 35, 77722, 174763, true, 95687);
    lemma_powmod_step(17, 71, 95687, 174763, true, 66575);
    lemma_powmod_step(17, 143, 66575, 174763, true, 76516);
    lemma_powmod_step(17, 287, 76516, 174763, false, 137756);
    lemma_powmod_step(17, 574, 137756, 174763, true, 54736);
    lemma_powmod_step(17, 1149, 54736, 174763, true, 100401);
    lemma_powmod_step(17, 2299, 100401, 174763, true, 2048);
    lemma_powmod_step(17, 4599, 2048, 174763, false, 174755);
}

/// 17^2394 mod 174763.
proof fn lemma_pow_174763_17_2394()
    ensures
        pow(17, 2394) % 174763 == 119245,
{
    lemma_powmod_start(17, 174763);
    lemma_powmod_step(17, 1, 17, 174763, false, 289);
    lemma_powmod_step(17, 2, 289, 174763, false, 83521);
    lemma_powmod_step(17, 4, 83521, 174763, true, 170928);
    lemma_powmod_step(17, 9, 170928, 174763, false, 27133);
    lemma_powmod_step(17, 18, 27133, 174763, true, 91994);
    lemma_powmod_step(17, 37, 91994, 174763, false, 172524);
    lemma_powmod_step(17, 74, 172524, 174763, true, 113476);
    lemma_powmod_step(17, 149, 113476, 174763, true, 131437);
    lemma_powmod_step(17, 299, 131437, 174763, false, 12893);
    lemma_powmod_step(17, 598, 12893, 174763, true, 157686);
    lemma_powmod_step(17, 1197, 157686, 174763, false, 119245);
}

/// The prime factors of 174763 - 1, with multiplicity.
pub open spec fn factors_174763() -> Seq<int> {
    seq![2int] + (seq![3int] + (seq![3int] + (seq![7int] + (seq![19int] + (seq![73int] + (Seq::<int>::empty()))))))
}

/// 174763 is prime: Lucas certificate with witness 17.
pub proof fn lemma_prime_174763()
    ensures
        is_prime(174763),
        lucas_certificate(174763, 17, factors_174763()),
{
    let fl = factors_174763();
    lemma_pow_174763_17_174762();
    lemma_pow_174763_17_87381();
    lemma_prime_two();
    lemma_pow_174763_17_58254();
    lemma_prime_3();
    lemma_pow_174763_17_24966();
    lemma_prime_7();
    lemma_pow_174763_17_9198();
    lemma_prime_19();
    lemma_pow_174763_17_2394();
    lemma_prime_73();
    lemma_product_prepend(2, seq![3int] + (seq![3int] + (seq![7int] + (seq![19int] + (seq![73int] + (Seq::<int>::empty()))))));
    lemma_product_prepend(3, seq![3int] + (seq![7int] + (seq![19int] + (seq![73int] + (Seq::<int>::empty())))));
    lemma_product_prepend(3, seq![7int] + (seq![19int] + (seq![73int] + (Seq::<int>::empty()))));
    lemma_product_prepend(7, seq![19int] + (seq![73int] + (Seq::<int>::empty())));
    lemma_product_prepend(19, seq![73int] + (Seq::<int>::empty()));
    lemma_product_prepend(73, Seq::<int>::empty());
    assert forall|i: int| 0 <= i < fl.len() implies is_prime(#[trigger] fl[i]) && pow(17, ((174763 - 1) / fl[i]) as nat) % 174763 != 1 by {
        if i == 0 {
            assert(fl[0] == 2);
            assert((174763 - 1) / fl[0] == 87381);
        } else if i == 1 {
            assert(fl[1] == 3);
            assert((174763 - 1) / fl[1] == 58254);
        } else if i == 2 {
            assert(fl[2] == 3);
            assert((174763 - 1) / fl[2] == 58254);
        } else if i == 3 {
            assert(fl[3] == 7);
            assert((174763 - 1) / fl[3] == 24966);
        } else if i == 4 {
            assert(fl[4] == 19);
            assert((174763 - 1) / fl[4] == 9198);
        } else if i == 5 {
            assert(fl[5] == 73);
            assert((174763 - 1) / fl[5] == 2394);
        }
    }
    lemma_lucas(174763, 17, fl);
}

/// 5^649656 mod 649657.
proof fn lemma_pow_649657_5_649656()
    ensures
        pow(5, 649656) % 649657 == 1,
{
    lemma_powmod_start(5, 649657);
    lemma_powmod_step(5, 1, 5, 649657, false, 25);
    lemma_powmod_step(5, 2, 25, 649657, false, 625);
    lemma_powmod_step(5, 4, 625, 649657, true, 4154);
    lemma_powmod_step(5, 9, 4154, 649657, true, 523856);
    lemma_powmod_step(5, 19, 523856, 649657, true, 585748);
    lemma_powmod_step(5, 39, 585748, 649657, true, 483267);
    lemma_powmod_step(5, 79, 483267, 649657, false, 499045);
    lemma_powmod_step(5, 158, 499045, 649657, true, 155032);
    lemma_powmod_step(5, 317, 155032, 649657, false, 210652);
    lemma_powmod_step(5, 634, 210652, 649657, false, 93376);
    lemma_powmod_step(5, 1268, 93376, 649657, true, 153895);
    lemma_powmod_step(5, 2537, 153895, 649657, true, 176479);
    lemma_powmod_step(5, 5075, 176479, 649657, false, 280861);
    lemma_powmod_step(5, 10150, 280861, 649657, true, 595678);
    lemma_powmod_step(5, 20301, 595678, 649657, true, 103980);
    lemma_powmod_step(5, 40603, 103980, 649657, true, 593373);
    lemma_powmod_step(5, 81207, 593373, 649657, false, 161124);
    lemma_powmod_step(5, 162414, 161124, 649657, false, 649656);
    lemma_powmod_step(5, 324828, 649656, 649657, false, 1);
}

/// 5^324828 mod 649657.
proof fn lemma_pow_649657_5_324828()
    ensures
        pow(5, 324828) % 649657 == 649656,
{
    lemma_powmod_start(5, 649657);
    lemma_powmod_step(5, 1, 5, 649657, false, 25);
    lemma_powmod_step(5, 2, 25, 649657, false, 625);
    lemma_powmod_step(5, 4, 625, 649657, true, 4154);
    lemma_powmod_step(5, 9, 4154, 649657, true, 523856);
    lemma_powmod_step(5, 19, 523856, 649657, true, 585748);
    lemma_powmod_step(5, 39, 585748, 649657, true, 483267);
    lemma_powmod_step(5, 79, 483267, 649657, false, 499045);
    lemma_powmod_step(5, 158, 499045, 649657, true, 155032);
    lemma_powmod_step(5, 317, 155032, 649657, false, 210652);
    lemma_powmod_step(5, 634, 210652, 649657, false, 93376);
    lemma_powmod_step(5, 1268, 93376, 649657, true, 153895);
    lemma_powmod_step(5, 2537, 153895, 649657, true, 176479);
    lemma_powmod_step(5, 5075, 176479, 649657, false, 280861);
    lemma_powmod_step(5, 10150, 280861, 649657, true, 595678);
    lemma_powmod_step(5, 20301, 595678, 649657, true, 103980);
    lemma_powmod_step(5, 40603, 103980, 649657, true, 593373);
    lemma_powmod_step(5, 81207, 593373, 649657, false, 161124);
    lemma_powmod_step(5, 162414, 161124, 649657, false, 649656);
}

/// 5^216552 mod 649657.
proof fn lemma_pow_649657_5_216552()
    ensures
        pow(5, 216552) % 649657 == 501475,
{
    lemma_powmod_start(5, 649657);
    lemma_powmod_step(5, 1, 5, 649657, true, 125);
    lemma_powmod_step(5, 3, 125, 649657, false, 15625);
    lemma_powmod_step(5, 6, 15625, 649657, true, 647279);
    lemma_powmod_step(5, 13, 647279, 649657, false, 457628);
    lemma_powmod_step(5, 26, 457628, 649657, false, 605521);
    lemma_powmod_step(5, 52, 605521, 649657, true, 274736);
    lemma_powmod_step(5, 105, 274736, 649657, true, 604040);
    lemma_powmod_step(5, 211, 604040, 649657, false, 59318);
    lemma_powmod_step(5, 422, 59318, 649657, true, 414060);
    lemma_powmod_step(5, 845, 414060, 649657, true, 159587);
    lemma_powmod_step(5, 1691, 159587, 649657, true, 134618);
    lemma_powmod_step(5, 3383, 134618, 649657, true, 418859);
    lemma_powmod_step(5, 6767, 418859, 649657, false, 390403);
    lemma_powmod_step(5, 13534, 390403, 649657, true, 164079);
    lemma_powmod_step(5, 27069, 164079, 649657, false, 132161);
    lemma_powmod_step(5, 54138, 132161, 649657, false, 501476);
    lemma_powmod_step(5, 108276, 501476, 649657, false, 501475);
}

/// 5^92808 mod 649657.
proof fn lemma_pow_649657_5_92808()
    ensures
        pow(5, 92808) % 649657 == 113858,
{
    lemma_powmod_start(5, 649657);
    lemma_powmod_step(5, 1, 5, 649657, false, 25);
    lemma_powmod_step(5, 2, 25, 649657, true, 3125);
    lemma_powmod_step(5, 5, 3125, 649657, true, 103850);
    lemma_powmod_step(5, 11, 103850, 649657, false, 516300);
    lemma_powmod_step(5, 22, 516300, 649657, true, 594341);
    lemma_powmod_step(5, 45, 594341, 649657, false, 625043);
    lemma_powmod_step(5, 90, 625043, 649657, true, 544046);
    lemma_powmod_step(5, 181, 544046, 649657, false, 371945);
    lemma_powmod_step(5, 362, 371945, 649657, true, 270602);
    lemma_powmod_step(5, 725, 270602, 649657, false, 3306);
    lemma_powmod_step(5, 1450, 3306, 649657, false, 535124);
    lemma_powmod_step(5, 2900, 535124, 649657, false, 583602);
    lemma_powmod_step(5, 5800, 583602, 649657, true, 183408);
    lemma_powmod_step(5, 11601, 183408, 649657, false, 554318);
    lemma_powmod_step(5, 23202, 554318, 649657, false, 173834);
    lemma_powmod_step(5, 46404, 173834, 649657, false, 113858);
}

/// 5^504 mod 649657.
proof fn lemma_pow_649657_5_504()
    ensures
        pow(5, 504) % 649657 == 618205,
{
    lemma_powmod_start(5, 649657);
    lemma_powmod_step(5, 1, 5, 649657, true, 125);
    lemma_powmod_step(5, 3, 125, 649657, true, 78125);
    lemma_powmod_step(5, 7, 78125, 649657, true, 590207);
    lemma_powmod_step(5, 15, 590207, 649657, true, 192443);
    lemma_powmod_step(5, 31, 192443, 649657, true, 456192);
    lemma_powmod_step(5, 63, 456192, 649657, false, 17484);
    lemma_powmod_step(5, 126, 17484, 649657, false, 351466);
    lemma_powmod_step(5, 252, 351466, 649657, false, 618205);
}

/// The prime factors of 649657 - 1, with multiplicity.
pub open spec fn factors_649657() -> Seq<int> {
    seq![2int] + (seq![2int] + (seq![2int] + (seq![3int] + (seq![3int] + (seq![7int] + (seq![1289int] + (Seq::<int>::empty())))))))
}

/// 649657 is prime: Lucas certificate with witness 5.
pub proof fn lemma_prime_649657()
    ensures
        is_prime(649657),
        lucas_certificate(649657, 5, factors_649657()),
{
    let fl = factors_649657();
    lemma_pow_649657_5_649656();
    lemma_pow_649657_5_324828();
    lemma_prime_two();
    lemma_pow_649657_5_216552();
    lemma_prime_3();
    lemma_pow_649657_5_92808();
    lemma_prime_7();
    lemma_pow_649657_5_504();
    lemma_prime_1289();
    lemma_product_prepend(2, seq![2int] + (seq![2int] + (seq![3int] + (seq![3int] + (seq![7int] + (seq![1289int] + (Seq::<int>::empty())))))));
    lemma_product_prepend(2, seq![2int] + (seq![3int] + (seq![3int] + (seq![7int] + (seq![1289int] + (Seq::<int>::empty()))))));
    lemma_product_prepend(2, seq![3int] + (seq![3int] + (seq![7int] + (seq![1289int] + (Seq::<int>::empty())))));
    lemma_product_prepend(3, seq![3int] + (seq![7int] + (seq![1289int] + (Seq::<int>::empty()))));
    lemma_product_prepend(3, seq![7int] + (seq![1289int] + (Seq::<int>::empty())));
    lemma_product_prepend(7, seq![1289int] + (Seq::<int>::empty()));
    lemma_product_prepend(1289, Seq::<int>::empty());
    assert forall|i: int| 0 <= i < fl.len() implies is_prime(#[trigger] fl[i]) && pow(5, ((649657 - 1) / fl[i]) as nat) % 649657 != 1 by {
        if i == 0 {
            assert(fl[0] == 2);
            assert((649657 - 1) / fl[0] == 324828);
        } else if i == 1 {
            assert(fl[1] == 2);
            assert((649657 - 1) / fl[1] == 324828);
        } else if i == 2 {
            assert(fl[2] == 2);
            assert((649657 - 1) / fl[2] == 324828);
        } else if i == 3 {
            assert(fl[3] == 3);
            assert((649657 - 1) / fl[3] == 216552);
        } else if i == 4 {
            assert(fl[4] == 3);
            assert((649657 - 1) / fl[4] == 216552);
        } else if i == 5 {
            assert(fl[5] == 7);
            assert((649657 - 1) / fl[5] == 92808);
        } else if i == 6 {
            assert(fl[6] == 1289);
            assert((649657 - 1) / fl[6] == 504);
        }
    }
    lemma_lucas(649657, 5, fl);
}

/// 2^699052 mod 699053.
proof fn lemma_pow_699053_2_699052()
    ensures
        pow(2, 699052) % 699053 == 1,
{
    lemma_powmod_start(2, 699053);
    lemma_powmod_step(2, 1, 2, 699053, false, 4);
    lemma_powmod_step(2, 2, 4, 699053, true, 32);
    lemma_powmod_step(2, 5, 32, 699053, false, 1024);
    lemma_powmod_step(2, 10, 1024, 699053, true, 699046);
    lemma_powmod_step(2, 21, 699046, 699053, false, 49);
    lemma_powmod_step(2, 42, 49, 699053, true, 4802);
    lemma_powmod_step(2, 85, 4802, 699053, false, 689508);
    lemma_powmod_step(2, 170, 689508, 699053, true, 460270);
    lemma_powmod_step(2, 341, 460270, 699053, false, 461250);
    lemma_powmod_step(2, 682, 461250, 699053, true, 49695);
    lemma_powmod_step(2, 1365, 49695, 699053, false, 537829);
    lemma_powmod_step(2, 2730, 537829, 699053, true, 580954);
    lemma_powmod_step(2, 5461, 580954, 699053, false, 567398);
    lemma_powmod_step(2, 10922, 567398, 699053, true, 39780);
    lemma_powmod_step(2, 21845, 39780, 699053, false, 491461);
    lemma_powmod_step(2, 43690, 491461, 699053, true, 535399);
    lemma_powmod_step(2, 87381, 535399, 699053, true, 327307);
    lemma_powmod_step(2, 174763, 327307, 699053, false, 699052);
    lemma_powmod_step(2, 349526, 699052, 699053, false, 1);
}

/// 2^349526 mod 699053.
proof fn lemma_pow_699053_2_349526()
    ensures
        pow(2, 349526) % 699053 == 699052,
{
    lemma_powmod_start(2, 699053);
    lemma_powmod_step(2, 1, 2, 699053, false, 4);
    lemma_powmod_step(2, 2, 4, 699053, true, 32);
    lemma_powmod_step(2, 5, 32, 699053, false, 1024);
    lemma_powmod_step(2, 10, 1024, 699053, true, 699046);
    lemma_powmod_step(2, 21, 699046, 699053, false, 49);
    lemma_powmod_step(2, 42, 49, 699053, true, 4802);
    lemma_powmod_step(2, 85, 4802, 699053, false, 689508);
    lemma_powmod_step(2, 170, 689508, 699053, true, 460270);
    lemma_powmod_step(2, 341, 460270, 699053, false, 461250);
    lemma_powmod_step(2, 682, 461250, 699053, true, 49695);
    lemma_powmod_step(2, 1365, 49695, 699053, false, 537829);
    lemma_powmod_step(2, 2730, 537829, 699053, true, 580954);
    lemma_powmod_step(2, 5461, 580954, 699053, false, 567398);
    lemma_powmod_step(2, 10922, 567398, 699053, true, 39780);
    lemma_powmod_step(2, 21845, 39780, 699053, false, 491461);
    lemma_powmod_step(2, 43690, 491461, 699053, true, 535399);
    lemma_powmod_step(2, 87381, 535399, 699053, true, 327307);
    lemma_powmod_step(2, 174763, 327307, 699053, false, 699052);
}

/// 2^4 mod 699053.
proof fn lemma_pow_699053_2_4()
    ensures
        pow(2, 4) % 699053 == 16,
{
    lemma_powmod_start(2, 699053);
    lemma_powmod_step(2, 1, 2, 699053, false, 4);
    lemma_powmod_step(2, 2, 4, 699053, false, 16);
}

/// The prime factors of 699053 - 1, with multiplicity.
pub open spec fn factors_699053() -> Seq<int> {
    seq![2int] + (seq![2int] + (seq![174763int] + (Seq::<int>::empty())))
}

/// 699053 is prime: Lucas certificate with witness 2.
pub proof fn lemma_prime_699053()
    ensures
        is_prime(699053),
        lucas_certificate(699053, 2, factors_699053()),
{
    let fl = factors_699053();
    lemma_pow_699053_2_699052();
    lemma_pow_699053_2_349526();
    lemma_prime_two();
    lemma_pow_699053_2_4();
    lemma_prime_174763();
    lemma_product_prepend(2, seq![2int] + (seq![174763int] + (Seq::<int>::empty())));
    lemma_product_prepend(2, seq![174763int] + (Seq::<int>::empty()));
    lemma_product_prepend(174763, Seq::<int>::empty());
    assert forall|i: int| 0 <= i < fl.len() implies is_prime(#[trigger] fl[i]) && pow(2, ((699053 - 1) / fl[i]) as nat) % 699053 != 1 by {
        if i == 0 {
            assert(fl[0] == 2);
            assert((699053 - 1) / fl[0] == 349526);
        } else if i == 1 {
            assert(fl[1] == 2);
            assert((699053 - 1) / fl[1] == 349526);
        } else if i == 2 {
            assert(fl[2] == 174763);
            assert((699053 - 1) / fl[2] == 4);
        }
    }
    lemma_lucas(699053, 2, fl);
}

/// 11^77158673928 mod 77158673929.
proof fn lemma_pow_77158673929_11_11f703ee08()
    ensures
        pow(11, 77158673928) % 77158673929 == 1,
{
    lemma_powmod_start(11, 77158673929);
    lemma_powmod_step(11, 1, 11, 77158673929, false, 121);
    lemma_powmod_step(11, 2, 121, 77158673929, false, 14641);
    lemma_powmod_step(11, 4, 14641, 77158673929, false, 214358881);
    lemma_powmod_step(11, 8, 214358881, 77158673929, true, 76734918808);
    lemma_powmod_step(11, 17, 76734918808, 77158673929, true, 20562812176);
    lemma_powmod_step(11, 35, 20562812176, 77158673929, true, 76241822009);
    lemma_powmod_step(11, 71, 76241822009, 77158673929, true, 20449453079);
    lemma_powmod_step(11, 143, 20449453079, 77158673929, true, 38933848452);
    lemma_powmod_step(11, 287, 38933848452, 77158673929, false, 12624021104);
    lemma_powmod_step(11, 574, 12624021104, 77158673929, true, 36244622764);
    lemma_powmod_step(11, 1149, 36244622764, 77158673929, true, 70534208358);
    lemma_powmod_step(11, 2299, 70534208358, 77158673929, true, 56667998335);
    lemma_powmod_step(11, 4599, 56667998335, 77158673929, false, 54399637541);
    lemma_powmod_step(11, 9198, 54399637541, 77158673929, false, 66804936343);
    lemma_powmod_step(11, 18396, 66804936343, 77158673929, false, 46287391365);
    lemma_powmod_step(11, 36792, 46287391365, 77158673929, false, 53548022019);
    lemma_powmod_step(11, 73584, 53548022019, 77158673929, false, 2147695867);
    lemma_powmod_step(11, 147168, 2147695867, 77158673929, false, 4707033543);
    lemma_powmod_step(11, 294336, 4707033543, 77158673929, true, 2109233189);
    lemma_powmod_step(11, 588673, 2109233189, 77158673929, true, 7928187244);
    lemma_powmod_step(11, 1177347, 7928187244, 77158673929, true, 73670891816);
    lemma_powmod_step(11, 2354695, 73670891816, 77158673929, true, 33515961869);
    lemma_powmod_step(11, 4709391, 33515961869, 77158673929, true, 23842738596);
    lemma_powmod_step(11, 9418783, 23842738596, 77158673929, false, 32109272239);
    lemma_powmod_step(11, 18837566, 32109272239, 77158673929, true, 3153606950);
    lemma_powmod_step(11, 37675133, 3153606950, 77158673929, true, 14760749758);
    lemma_powmod_step(11, 75350267, 14760749758, 77158673929, true, 67714342456);
    lemma_powmod_step(11, 150700535, 67714342456, 77158673929, false, 1857182039);
    lemma_powmod_step(11, 301401070, 1857182039, 77158673929, false, 74232109286);
    lemma_powmod_step(11, 602802140, 74232109286, 77158673929, false, 60581595803);
    lemma_powmod_step(11, 1205604280, 60581595803, 77158673929, false, 42462855475);
    lemma_powmod_step(11, 2411208560, 42462855475, 77158673929, false, 43942963207);
    lemma_powmod_step(11, 4822417120, 43942963207, 77158673929, true, 64275072995);
    lemma_powmod_step(11, 9644834241, 64275072995, 77158673929, false, 32352357927);
    lemma_powmod_step(11, 19289668482, 32352357927, 77158673929, false, 77158673928);
    lemma_powmod_step(11, 38579336964, 77158673928, 77158673929, false, 1);
}

/// 11^38579336964 mod 77158673929.
proof fn lemma_pow_77158673929_11_8fb81f704()
    ensures
        pow(11, 38579336964) % 77158673929 == 77158673928,
{
    lemma_powmod_start(11, 77158673929);
    lemma_powmod_step(11, 1, 11, 77158673929, false, 121);
    lemma_powmod_step(11, 2, 121, 77158673929, false, 14641);
    lemma_powmod_step(11, 4, 14641, 77158673929, false, 214358881);
    lemma_powmod_step(11, 8, 214358881, 77158673929, true, 76734918808);
    lemma_powmod_step(11, 17, 76734918808, 77158673929, true, 20562812176);
    lemma_powmod_step(11, 35, 20562812176, 77158673929, true, 76241822009);
    lemma_powmod_step(11, 71, 76241822009, 77158673929, true, 20449453079);
    lemma_powmod_step(11, 143, 20449453079, 77158673929, true, 38933848452);
    lemma_powmod_step(11, 287, 38933848452, 77158673929, false, 12624021104);
    lemma_powmod_step(11, 574, 12624021104, 77158673929, true, 36244622764);
    lemma_powmod_step(11, 1149, 36244622764, 77158673929, true, 70534208358);
    lemma_powmod_step(11, 2299, 70534208358, 77158673929, true, 56667998335);
    lemma_powmod_step(11, 4599, 56667998335, 77158673929, false, 54399637541);
    lemma_powmod_step(11, 9198, 54399637541, 77158673929, false, 66804936343);
    lemma_powmod_step(11, 18396, 66804936343, 77158673929, false, 46287391365);
    lemma_powmod_step(11, 36792, 46287391365, 77158673929, false, 53548022019);
    lemma_powmod_step(11, 73584, 53548022019, 77158673929, false, 2147695867);
    lemma_powmod_step(11, 147168, 2147695867, 77158673929, false, 4707033543);
    lemma_powmod_step(11, 294336, 4707033543, 77158673929, true, 2109233189);
    lemma_powmod_step(11, 588673, 2109233189, 77158673929, true, 7928187244);
    lemma_powmod_step(11, 1177347, 7928187244, 77158673929, true, 73670891816);
    lemma_powmod_step(11, 2354695, 73670891816, 77158673929, true, 33515961869);
    lemma_powmod_step(11, 4709391, 33515961869, 77158673929, true, 23842738596);
    lemma_powmod_step(11, 9418783, 23842738596, 77158673929, false, 32109272239);
    lemma_powmod_step(11, 18837566, 32109272239, 77158673929, true, 3153606950);
    lemma_powmod_step(11, 37675133, 3153606950, 77158673929, true, 14760749758);
    lemma_powmod_step(11, 75350267, 14760749758, 77158673929, true, 67714342456);
    lemma_powmod_step(11, 150700535, 67714342456, 77158673929, false, 1857182039);
    lemma_powmod_step(11, 301401070, 1857182039, 77158673929, false, 74232109286);
    lemma_powmod_step(11, 602802140, 74232109286, 77158673929, false, 60581595803);
    lemma_powmod_step(11, 1205604280, 60581595803, 77158673929, false, 42462855475);
    lemma_powmod_step(11, 2411208560, 42462855475, 77158673929, false, 43942963207);
    lemma_powmod_step(11, 4822417120, 43942963207, 77158673929, true, 64275072995);
    lemma_powmod_step(11, 9644834241, 64275072995, 77158673929, false, 32352357927);
    lemma_powmod_step(11, 19289668482, 32352357927, 77158673929, false, 77158673928);
}

/// 11^25719557976 mod 77158673929.
proof fn lemma_pow_77158673929_11_5fd014f58()
    ensures
        pow(11, 25719557976) % 77158673929 == 2097151,
{
    lemma_powmod_start(11, 77158673929);
    lemma_powmod_step(11, 1, 11, 77158673929, false, 121);
    lemma_powmod_step(11, 2, 121, 77158673929, true, 161051);
    lemma_powmod_step(11, 5, 161051, 77158673929, true, 53835648824);
    lemma_powmod_step(11, 11, 53835648824, 77158673929, true, 45851415289);
    lemma_powmod_step(11, 23, 45851415289, 77158673929, true, 13607630561);
    lemma_powmod_step(11, 47, 13607630561, 77158673929, true, 73921011061);
    lemma_powmod_step(11, 95, 73921011061, 77158673929, true, 31900285079);
    lemma_powmod_step(11, 191, 31900285079, 77158673929, true, 34835762756);
    lemma_powmod_step(11, 383, 34835762756, 77158673929, false, 65878785391);
    lemma_powmod_step(11, 766, 65878785391, 77158673929, true, 21741553389);
    lemma_powmod_step(11, 1533, 21741553389, 77158673929, false, 59478063797);
    lemma_powmod_step(11, 3066, 59478063797, 77158673929, false, 14061683252);
    lemma_powmod_step(11, 6132, 14061683252, 77158673929, false, 33535630845);
    lemma_powmod_step(11, 12264, 33535630845, 77158673929, false, 41817025793);
    lemma_powmod_step(11, 24528, 41817025793, 77158673929, false, 21357407255);
    lemma_powmod_step(11, 49056, 21357407255, 77158673929, false, 27904288014);
    lemma_powmod_step(11, 98112, 27904288014, 77158673929, false, 37668953706);
    lemma_powmod_step(11, 196224, 37668953706, 77158673929, true, 73425271520);
    lemma_powmod_step(11, 392449, 73425271520, 77158673929, false, 2819435976);
    lemma_powmod_step(11, 784898, 2819435976, 77158673929, true, 39096031227);
    lemma_powmod_step(11, 1569797, 39096031227, 77158673929, false, 71882713974);
    lemma_powmod_step(11, 3139594, 71882713974, 77158673929, false, 39289151008);
    lemma_powmod_step(11, 6279188, 39289151008, 77158673929, true, 13736140418);
    lemma_powmod_step(11, 12558377, 13736140418, 77158673929, true, 14986550871);
    lemma_powmod_step(11, 25116755, 14986550871, 77158673929, true, 52751507514);
    lemma_powmod_step(11, 50233511, 52751507514, 77158673929, true, 24214105953);
    lemma_powmod_step(11, 100467023, 24214105953, 77158673929, false, 44417679911);
    lemma_powmod_step(11, 200934046, 44417679911, 77158673929, true, 76858631747);
    lemma_powmod_step(11, 401868093, 76858631747, 77158673929, false, 42379290729);
    lemma_powmod_step(11, 803736186, 42379290729, 77158673929, true, 37725743534);
    lemma_powmod_step(11, 1607472373, 37725743534, 77158673929, true, 10564834501);
    lemma_powmod_step(11, 3214944747, 10564834501, 77158673929, false, 2649673735);
    lemma_powmod_step(11, 6429889494, 2649673735, 77158673929, false, 2097152);
    lemma_powmod_step(11, 12859778988, 2097152, 77158673929, false, 2097151);
}

/// 11^11022667704 mod 77158673929.
proof fn lemma_pow_77158673929_11_291008fb8()
    ensures
        pow(11, 11022667704) % 77158673929 == 8589930496,
{
    lemma_powmod_start(11, 77158673929);
    lemma_powmod_step(11, 1, 11, 77158673929, false, 121);
    lemma_powmod_step(11, 2, 121, 77158673929, true, 161051);
    lemma_powmod_step(11, 5, 161051, 77158673929, false, 25937424601);
    lemma_powmod_step(11, 10, 25937424601, 77158673929, false, 53251325381);
    lemma_powmod_step(11, 20, 53251325381, 77158673929, true, 45807293327);
    lemma_powmod_step(11, 41, 45807293327, 77158673929, false, 53937216570);
    lemma_powmod_step(11, 82, 53937216570, 77158673929, false, 70476435115);
    lemma_powmod_step(11, 164, 70476435115, 77158673929, false, 6332204385);
    lemma_powmod_step(11, 328, 6332204385, 77158673929, true, 60106490591);
    lemma_powmod_step(11, 657, 60106490591, 77158673929, false, 15841349426);
    lemma_powmod_step(11, 1314, 15841349426, 77158673929, false, 12130733113);
    lemma_powmod_step(11, 2628, 12130733113, 77158673929, false, 520506250);
    lemma_powmod_step(11, 5256, 520506250, 77158673929, false, 44632882303);
    lemma_powmod_step(11, 10512, 44632882303, 77158673929, false, 17683827930);
    lemma_powmod_step(11, 21024, 17683827930, 77158673929, false, 13692699374);
    lemma_powmod_step(11, 42048, 13692699374, 77158673929, false, 19328120267);
    lemma_powmod_step(11, 84096, 19328120267, 77158673929, false, 20418215714);
    lemma_powmod_step(11, 168192, 20418215714, 77158673929, true, 15518623333);
    lemma_powmod_step(11, 336385, 15518623333, 77158673929, false, 32270290580);
    lemma_powmod_step(11, 672770, 32270290580, 77158673929, false, 5970142844);
    lemma_powmod_step(11, 1345540, 5970142844, 77158673929, false, 40679619809);
    lemma_powmod_step(11, 2691080, 40679619809, 77158673929, true, 69985653052);
    lemma_powmod_step(11, 5382161, 69985653052, 77158673929, true, 33918584261);
    lemma_powmod_step(11, 10764323, 33918584261, 77158673929, true, 27940375812);
    lemma_powmod_step(11, 21528647, 27940375812, 77158673929, true, 38404272604);
    lemma_powmod_step(11, 43057295, 38404272604, 77158673929, true, 17268986310);
    lemma_powmod_step(11, 86114591, 17268986310, 77158673929, false, 4338800390);
    lemma_powmod_step(11, 172229182, 4338800390, 77158673929, true, 11795278578);
    lemma_powmod_step(11, 344458365, 11795278578, 77158673929, true, 50814045181);
    lemma_powmod_step(11, 688916731, 50814045181, 77158673929, true, 59409562688);
    lemma_powmod_step(11, 1377833463, 59409562688, 77158673929, false, 55961284049);
    lemma_powmod_step(11, 2755666926, 55961284049, 77158673929, false, 134217728);
    lemma_powmod_step(11, 5511333852, 134217728, 77158673929, false, 8589930496);
}

/// 11^1056968136 mod 77158673929.
proof fn lemma_pow_77158673929_11_3f000dc8()
    ensures
        pow(11, 1056968136) % 77158673929 == 73884964140,
{
    lemma_powmod_start(11, 77158673929);
    lemma_powmod_step(11, 1, 11, 77158673929, true, 1331);
    lemma_powmod_step(11, 3, 1331, 77158673929, true, 19487171);
    lemma_powmod_step(11, 7, 19487171, 77158673929, true, 31880247449);
    lemma_powmod_step(11, 15, 31880247449, 77158673929, true, 4660120932);
    lemma_powmod_step(11, 31, 4660120932, 77158673929, true, 47185381091);
    lemma_powmod_step(11, 63, 47185381091, 77158673929, false, 32587659011);
    lemma_powmod_step(11, 126, 32587659011, 77158673929, false, 48175067126);
    lemma_powmod_step(11, 252, 48175067126, 77158673929, false, 869932810);
    lemma_powmod_step(11, 504, 869932810, 77158673929, false, 17804514040);
    lemma_powmod_step(11, 1008, 17804514040, 77158673929, false, 50001668214);
    lemma_powmod_step(11, 2016, 50001668214, 77158673929, false, 73088908528);
    lemma_powmod_step(11, 4032, 73088908528, 77158673929, false, 62577919479);
    lemma_powmod_step(11, 8064, 62577919479, 77158673929, false, 32202090605);
    lemma_powmod_step(11, 16128, 32202090605, 77158673929, false, 29570763893);
    lemma_powmod_step(11, 32256, 29570763893, 77158673929, false, 53160369265);
    lemma_powmod_step(11, 64512, 53160369265, 77158673929, false, 43275309775);
    lemma_powmod_step(11, 129024, 43275309775, 77158673929, false, 39673487110);
    lemma_powmod_step(11, 258048, 39673487110, 77158673929, true, 49771201297);
    lemma_powmod_step(11, 516097, 49771201297, 77158673929, true, 31350741589);
    lemma_powmod_step(11, 1032195, 31350741589, 77158673929, false, 1879473781);
    lemma_powmod_step(11, 2064390, 1879473781, 77158673929, true, 25175927465);
    lemma_powmod_step(11, 4128781, 25175927465, 77158673929, true, 11744936188);
    lemma_powmod_step(11, 8257563, 11744936188, 77158673929, true, 63050563181);
    lemma_powmod_step(11, 16515127, 63050563181, 77158673929, false, 5926967270);
    lemma_powmod_step(11, 33030254, 5926967270, 77158673929, false, 64580299623);
    lemma_powmod_step(11, 66060508, 64580299623, 77158673929, true, 58276742838);
    lemma_powmod_step(11, 132121017, 58276742838, 77158673929, false, 70095840393);
    lemma_powmod_step(11, 264242034, 70095840393, 77158673929, false, 75378761397);
    lemma_powmod_step(11, 528484068, 75378761397, 77158673929, false, 73884964140);
}

/// 11^110376 mod 77158673929.
proof fn lemma_pow_77158673929_11_110376()
    ensures
        pow(11, 110376) % 77158673929 == 43682531219,
{
    lemma_powmod_start(11, 77158673929);
    lemma_powmod_step(11, 1, 11, 77158673929, true, 1331);
    lemma_powmod_step(11, 3, 1331, 77158673929, false, 1771561);
    lemma_powmod_step(11, 6, 1771561, 77158673929, true, 32784897668);
    lemma_powmod_step(11, 13, 32784897668, 77158673929, false, 72881345749);
    lemma_powmod_step(11, 26, 72881345749, 77158673929, true, 63108638251);
    lemma_powmod_step(11, 53, 63108638251, 77158673929, true, 59080133843);
    lemma_powmod_step(11, 107, 59080133843, 77158673929, true, 63093087293);
    lemma_powmod_step(11, 215, 63093087293, 77158673929, true, 16782890312);
    lemma_powmod_step(11, 431, 16782890312, 77158673929, false, 13411113511);
    lemma_powmod_step(11, 862, 13411113511, 77158673929, false, 20195194244);
    lemma_powmod_step(11, 1724, 20195194244, 77158673929, true, 44343113176);
    lemma_powmod_step(11, 3449, 44343113176, 77158673929, false, 73350407470);
    lemma_powmod_step(11, 6898, 73350407470, 77158673929, true, 5406806383);
    lemma_powmod_step(11, 13797, 5406806383, 77158673929, false, 25556437341);
    lemma_powmod_step(11, 27594, 25556437341, 77158673929, false, 10076600815);
    lemma_powmod_step(11, 55188, 10076600815, 77158673929, false, 43682531219);
}

/// The prime factors of 77158673929 - 1, with multiplicity.
pub open spec fn factors_77158673929() -> Seq<int> {
    seq![2int] + (seq![2int] + (seq![2int] + (seq![3int] + (seq![3int] + (seq![3int] + (seq![7int] + (seq![73int] + (seq![699053int] + (Seq::<int>::empty())))))))))
}

/// 77158673929 is prime: Lucas certificate with witness 11.
pub proof fn lemma_prime_77158673929()
    ensures
        is_prime(77158673929),
        lucas_certificate(77158673929, 11, factors_77158673929()),
{
    let fl = factors_77158673929();
    lemma_pow_77158673929_11_11f703ee08();
    lemma_pow_77158673929_11_8fb81f704();
    lemma_prime_two();
    lemma_pow_77158673929_11_5fd014f58();
    lemma_prime_3();
    lemma_pow_77158673929_11_291008fb8();
    lemma_prime_7();
    lemma_pow_77158673929_11_3f000dc8();
    lemma_prime_73();
    lemma_pow_77158673929_11_110376();
    lemma_prime_699053();
    lemma_product_prepend(2, seq![2int] + (seq![2int] + (seq![3int] + (seq![3int] + (seq![3int] + (seq![7int] + (seq![73int] + (seq![699053int] + (Seq::<int>::empty())))))))));
    lemma_product_prepend(2, seq![2int] + (seq![3int] + (seq![3int] + (seq![3int] + (seq![7int] + (seq![73int] + (seq![699053int] + (Seq::<int>::empty()))))))));
    lemma_product_prepend(2, seq![3int] + (seq![3int] + (seq![3int] + (seq![7int] + (seq![73int] + (seq![699053int] + (Seq::<int>::empty())))))));
    lemma_product_prepend(3, seq![3int] + (seq![3int] + (seq![7int] + (seq![73int] + (seq![699053int] + (Seq::<int>::empty()))))));
    lemma_product_prepend(3, seq![3int] + (seq![7int] + (seq![73int] + (seq![699053int] + (Seq::<int>::empty())))));
    lemma_product_prepend(3, seq![7int] + (seq![73int] + (seq![699053int] + (Seq::<int>::empty()))));
    lemma_product_prepend(7, seq![73int] + (seq![699053int] + (Seq::<int>::empty())));
    lemma_product_prepend(73, seq![699053int] + (Seq::<int>::empty()));
    lemma_product_prepend(699053, Seq::<int>::empty());
    assert forall|i: int| 0 <= i < fl.len() implies is_prime(#[trigger] fl[i]) && pow(11, ((77158673929 - 1) / fl[i]) as nat) % 77158673929 != 1 by {
        if i == 0 {
            assert(fl[0] == 2);
            assert((77158673929 - 1) / fl[0] == 38579336964);
        } else if i == 1 {
            assert(fl[1] == 2);
            assert((77158673929 - 1) / fl[1] == 38579336964);
        } else if i == 2 {
            assert(fl[2] == 2);
            assert((77158673929 - 1) / fl[2] == 38579336964);
        } else if i == 3 {
            assert(fl[3] == 3);
            assert((77158673929 - 1) / fl[3] == 25719557976);
        } else if i == 4 {
            assert(fl[4] == 3);
            assert((77158673929 - 1) / fl[4] == 25719557976);
        } else if i == 5 {
            assert(fl[5] == 3);
            assert((77158673929 - 1) / fl[5] == 25719557976);
        } else if i == 6 {
            assert(fl[6] == 7);
            assert((77158673929 - 1) / fl[6] == 11022667704);
        } else if i == 7 {
            assert(fl[7] == 73);
            assert((77158673929 - 1) / fl[7] == 1056968136);
        } else if i == 8 {
            assert(fl[8] == 699053);
            assert((77158673929 - 1) / fl[8] == 110376);
        }
    }
    lemma_lucas(77158673929, 11, fl);
}

/// 22^16561424618040 mod 16561424618041.
proof fn lemma_pow_16561424618041_22_f1001d4d238()
    ensures
        pow(22, 16561424618040) % 16561424618041 == 1,
{
    lemma_powmod_start(22, 16561424618041);
    lemma_powmod_step(22, 1, 22, 16561424618041, true, 10648);
    lemma_powmod_step(22, 3, 10648, 16561424618041, true, 2494357888);
    lemma_powmod_step(22, 7, 2494357888, 16561424618041, true, 9477275513255);
    lemma_powmod_step(22, 15, 9477275513255, 16561424618041, false, 7074843320424);
    lemma_powmod_step(22, 30, 7074843320424, 16561424618041, false, 10588499663221);
    lemma_powmod_step(22, 60, 10588499663221, 16561424618041, false, 12189721379816);
    lemma_powmod_step(22, 120, 12189721379816, 16561424618041, true, 16397870113706);
    lemma_powmod_step(22, 241, 16397870113706, 16561424618041, false, 11162709744671);
    lemma_powmod_step(22, 482, 11162709744671, 16561424618041, false, 3318426507744);
    lemma_powmod_step(22, 964, 3318426507744, 16561424618041, false, 12992874037636);
    lemma_powmod_step(22, 1928, 12992874037636, 16561424618041, false, 3193370004508);
    lemma_powmod_step(22, 3856, 3193370004508, 16561424618041, false, 4531730490570);
    lemma_powmod_step(22, 7712, 4531730490570, 16561424618041, false, 11992051464492);
    lemma_powmod_step(22, 15424, 11992051464492, 16561424618041, false, 13422851089683);
    lemma_powmod_step(22, 30848, 13422851089683, 16561424618041, false, 4145637613592);
    lemma_powmod_step(22, 61696, 4145637613592, 16561424618041, false, 6004942616752);
    lemma_powmod_step(22, 123392, 6004942616752, 16561424618041, false, 13583320917377);
    lemma_powmod_step(22, 246784, 13583320917377, 16561424618041, false, 13433506307641);
    lemma_powmod_step(22, 493568, 13433506307641, 16561424618041, true, 4128857780530);
    lemma_powmod_step(22, 987137, 4128857780530, 16561424618041, true, 10549027783002);
    lemma_powmod_step(22, 1974275, 10549027783002, 16561424618041, true, 4482106453362);
    lemma_powmod_step(22, 3948551, 4482106453362, 16561424618041, false, 13088019443169);
    lemma_powmod_step(22, 7897102, 13088019443169, 16561424618041, true, 14111245774661);
    lemma_powmod_step(22, 15794205, 14111245774661, 16561424618041, false, 11366953256252);
    lemma_powmod_step(22, 31588410, 11366953256252, 16561424618041, true, 5402465957138);
    lemma_powmod_step(22, 63176821, 5402465957138, 16561424618041, false, 6307476536093);
    lemma_powmod_step(22, 126353642, 6307476536093, 16561424618041, false, 4826232903002);
    lemma_powmod_step(22, 252707284, 4826232903002, 16561424618041, true, 10637915907950);
    lemma_powmod_step(22, 505414569, 10637915907950, 16561424618041, true, 7490799797052);
    lemma_powmod_step(22, 1010829139, 7490799797052, 16561424618041, false, 75431630505);
    lemma_powmod_step(22, 2021658278, 75431630505, 16561424618041, true, 1840841594506);
    lemma_powmod_step(22, 4043316557, 1840841594506, 16561424618041, false, 16207359567876);
    lemma_powmod_step(22, 8086633114, 16207359567876, 16561424618041, false, 14891904527684);
    lemma_powmod_step(22, 16173266228, 14891904527684, 16561424618041, true, 1549758382719);
    lemma_powmod_step(22, 32346532457, 1549758382719, 16561424618041, false, 10901068503029);
    lemma_powmod_step(22, 64693064914, 10901068503029, 16561424618041, false, 1752311019184);
    lemma_powmod_step(22, 129386129828, 1752311019184, 16561424618041, false, 4280550282137);
    lemma_powmod_step(22, 258772259656, 4280550282137, 16561424618041, true, 10959538715471);
    lemma_powmod_step(22, 517544519313, 10959538715471, 16561424618041, true, 1576341975477);
    lemma_powmod_step(22, 1035089038627, 1576341975477, 16561424618041, true, 12433768836408);
    lemma_powmod_step(22, 2070178077255, 12433768836408, 16561424618041, false, 5084275862752);
    lemma_powmod_step(22, 4140356154510, 5084275862752, 16561424618041, false, 16561424618040);
    lemma_powmod_step(22, 8280712309020, 16561424618040, 16561424618041, false, 1);
}

/// 22^8280712309020 mod 16561424618041.
proof fn lemma_pow_16561424618041_22_78800ea691c()
    ensures
        pow(22, 8280712309020) % 16561424618041 == 16561424618040,
{
    lemma_powmod_start(22, 16561424618041);
    lemma_powmod_step(22, 1, 22, 16561424618041, true, 10648);
    lemma_powmod_step(22, 3, 10648, 16561424618041, true, 2494357888);
    lemma_powmod_step(22, 7, 2494357888, 16561424618041, true, 9477275513255);
    lemma_powmod_step(22, 15, 9477275513255, 16561424618041, false, 7074843320424);
    lemma_powmod_step(22, 30, 7074843320424, 16561424618041, false, 10588499663221);
    lemma_powmod_step(22, 60, 10588499663221, 16561424618041, false, 12189721379816);
    lemma_powmod_step(22, 120, 12189721379816, 16561424618041, true, 16397870113706);
    lemma_powmod_step(22, 241, 16397870113706, 16561424618041, false, 11162709744671);
    lemma_powmod_step(22, 482, 11162709744671, 16561424618041, false, 3318426507744);
    lemma_powmod_step(22, 964, 3318426507744, 16561424618041, false, 12992874037636);
    lemma_powmod_step(22, 1928, 12992874037636, 16561424618041, false, 3193370004508);
    lemma_powmod_step(22, 3856, 3193370004508, 16561424618041, false, 4531730490570);
    lemma_powmod_step(22, 7712, 4531730490570, 16561424618041, false, 11992051464492);
    lemma_powmod_step(22, 15424, 11992051464492, 16561424618041, false, 13422851089683);
    lemma_powmod_step(22, 30848, 13422851089683, 16561424618041, false, 4145637613592);
    lemma_powmod_step(22, 61696, 4145637613592, 16561424618041, false, 6004942616752);
    lemma_powmod_step(22, 123392, 6004942616752, 16561424618041, false, 13583320917377);
    lemma_powmod_step(22, 246784, 13583320917377, 16561424618041, false, 13433506307641);
    lemma_powmod_step(22, 493568, 13433506307641, 16561424618041, true, 4128857780530);
    lemma_powmod_step(22, 987137, 4128857780530, 16561424618041, true, 10549027783002);
    lemma_powmod_step(22, 1974275, 10549027783002, 16561424618041, true, 4482106453362);
    lemma_powmod_step(22, 3948551, 4482106453362, 16561424618041, false, 13088019443169);
    lemma_powmod_step(22, 7897102, 13088019443169, 16561424618041, true, 14111245774661);
    lemma_powmod_step(22, 15794205, 14111245774661, 16561424618041, false, 11366953256252);
    lemma_powmod_step(22, 31588410, 11366953256252, 16561424618041, true, 5402465957138);
    lemma_powmod_step(22, 63176821, 5402465957138, 16561424618041, false, 6307476536093);
    lemma_powmod_step(22, 126353642, 6307476536093, 16561424618041, false, 4826232903002);
    lemma_powmod_step(22, 252707284, 4826232903002, 16561424618041, true, 10637915907950);
    lemma_powmod_step(22, 505414569, 10637915907950, 16561424618041, true, 7490799797052);
    lemma_powmod_step(22, 1010829139, 7490799797052, 16561424618041, false, 75431630505);
    lemma_powmod_step(22, 2021658278, 75431630505, 16561424618041, true, 1840841594506);
    lemma_powmod_step(22, 4043316557, 1840841594506, 16561424618041, false, 16207359567876);
    lemma_powmod_step(22, 8086633114, 16207359567876, 16561424618041, false, 14891904527684);
    lemma_powmod_step(22, 16173266228, 14891904527684, 16561424618041, true, 1549758382719);
    lemma_powmod_step(22, 32346532457, 1549758382719, 16561424618041, false, 10901068503029);
    lemma_powmod_step(22, 64693064914, 10901068503029, 16561424618041, false, 1752311019184);
    lemma_powmod_step(22, 129386129828, 1752311019184, 16561424618041, false, 4280550282137);
    lemma_powmod_step(22, 258772259656, 4280550282137, 16561424618041, true, 10959538715471);
    lemma_powmod_step(22, 517544519313, 10959538715471, 16561424618041, true, 1576341975477);
    lemma_powmod_step(22, 1035089038627, 1576341975477, 16561424618041, true, 12433768836408);
    lemma_powmod_step(22, 2070178077255, 12433768836408, 16561424618041, false, 5084275862752);
    lemma_powmod_step(22, 4140356154510, 5084275862752, 16561424618041, false, 16561424618040);
}

/// 22^5520474872680 mod 16561424618041.
proof fn lemma_pow_16561424618041_22_50555f19b68()
    ensures
        pow(22, 5520474872680) % 16561424618041 == 15816938623106,
{
    lemma_powmod_start(22, 16561424618041);
    lemma_powmod_step(22, 1, 22, 16561424618041, false, 484);
    lemma_powmod_step(22, 2, 484, 16561424618041, true, 5153632);
    lemma_powmod_step(22, 5, 5153632, 16561424618041, false, 9998498173383);
    lemma_powmod_step(22, 10, 9998498173383, 16561424618041, false, 16524262506395);
    lemma_powmod_step(22, 20, 16524262506395, 16561424618041, false, 6153055399129);
    lemma_powmod_step(22, 40, 6153055399129, 16561424618041, false, 7395788538279);
    lemma_powmod_step(22, 80, 7395788538279, 16561424618041, false, 2629933661532);
    lemma_powmod_step(22, 160, 2629933661532, 16561424618041, true, 15975300334630);
    lemma_powmod_step(22, 321, 15975300334630, 16561424618041, false, 6902724143089);
    lemma_powmod_step(22, 642, 6902724143089, 16561424618041, true, 13370916559537);
    lemma_powmod_step(22, 1285, 13370916559537, 16561424618041, false, 15007908097308);
    lemma_powmod_step(22, 2570, 15007908097308, 16561424618041, true, 15492688075507);
    lemma_powmod_step(22, 5141, 15492688075507, 16561424618041, false, 6361716103716);
    lemma_powmod_step(22, 10282, 6361716103716, 16561424618041, true, 5021159824608);
    lemma_powmod_step(22, 20565, 5021159824608, 16561424618041, false, 342078324648);
    lemma_powmod_step(22, 41130, 342078324648, 16561424618041, true, 8622473342939);
    lemma_powmod_step(22, 82261, 8622473342939, 16561424618041, false, 2306687049380);
    lemma_powmod_step(22, 164522, 2306687049380, 16561424618041, true, 7880203545807);
    lemma_powmod_step(22, 329045, 7880203545807, 16561424618041, true, 6171925562882);
    lemma_powmod_step(22, 658091, 6171925562882, 16561424618041, true, 2319283179143);
    lemma_powmod_step(22, 1316183, 2319283179143, 16561424618041, true, 2631393499448);
    lemma_powmod_step(22, 2632367, 2631393499448, 16561424618041, true, 10362198343751);
    lemma_powmod_step(22, 5264735, 10362198343751, 16561424618041, false, 12005014970227);
    lemma_powmod_step(22, 10529470, 12005014970227, 16561424618041, false, 11835224986376);
    lemma_powmod_step(22, 21058940, 11835224986376, 16561424618041, false, 4290225325418);
    lemma_powmod_step(22, 42117880, 4290225325418, 16561424618041, true, 7862835240894);
    lemma_powmod_step(22, 84235761, 7862835240894, 16561424618041, true, 12138897802166);
    lemma_powmod_step(22, 168471523, 12138897802166, 16561424618041, false, 3146190134768);
    lemma_powmod_step(22, 336943046, 3146190134768, 16561424618041, false, 14577170345661);
    lemma_powmod_step(22, 673886092, 14577170345661, 16561424618041, true, 15992819226419);
    lemma_powmod_step(22, 1347772185, 15992819226419, 16561424618041, true, 13496185514680);
    lemma_powmod_step(22, 2695544371, 13496185514680, 16561424618041, false, 10848591753781);
    lemma_powmod_step(22, 5391088742, 10848591753781, 16561424618041, true, 5337592274319);
    lemma_powmod_step(22, 10782177485, 5337592274319, 16561424618041, true, 5131522737775);
    lemma_powmod_step(22, 21564354971, 5131522737775, 16561424618041, false, 7825931156490);
    lemma_powmod_step(22, 43128709942, 7825931156490, 16561424618041, true, 12585907122180);
    lemma_powmod_step(22, 86257419885, 12585907122180, 16561424618041, true, 15169336740359);
    lemma_powmod_step(22, 172514839771, 15169336740359, 16561424618041, false, 9618130731036);
    lemma_powmod_step(22, 345029679542, 9618130731036, 16561424618041, true, 4716879149850);
    lemma_powmod_step(22, 690059359085, 4716879149850, 16561424618041, false, 9345090762161);
    lemma_powmod_step(22, 1380118718170, 9345090762161, 16561424618041, false, 15816938623107);
    lemma_powmod_step(22, 2760237436340, 15816938623107, 16561424618041, false, 15816938623106);
}

/// 22^3312284923608 mod 16561424618041.
proof fn lemma_pow_16561424618041_22_3033390f6d8()
    ensures
        pow(22, 3312284923608) % 16561424618041 == 9213818117917,
{
    lemma_powmod_start(22, 16561424618041);
    lemma_powmod_step(22, 1, 22, 16561424618041, true, 10648);
    lemma_powmod_step(22, 3, 10648, 16561424618041, false, 113379904);
    lemma_powmod_step(22, 6, 113379904, 16561424618041, false, 3337127449400);
    lemma_powmod_step(22, 12, 3337127449400, 16561424618041, false, 5861723344190);
    lemma_powmod_step(22, 24, 5861723344190, 16561424618041, false, 6450989269228);
    lemma_powmod_step(22, 48, 6450989269228, 16561424618041, false, 4092167970967);
    lemma_powmod_step(22, 96, 4092167970967, 16561424618041, false, 3630128677363);
    lemma_powmod_step(22, 192, 3630128677363, 16561424618041, true, 4171472977009);
    lemma_powmod_step(22, 385, 4171472977009, 16561424618041, true, 5157001318652);
    lemma_powmod_step(22, 771, 5157001318652, 16561424618041, false, 7358072599750);
    lemma_powmod_step(22, 1542, 7358072599750, 16561424618041, false, 12101515554200);
    lemma_powmod_step(22, 3084, 12101515554200, 16561424618041, true, 411424430225);
    lemma_powmod_step(22, 6169, 411424430225, 16561424618041, true, 11766373412388);
    lemma_powmod_step(22, 12339, 11766373412388, 16561424618041, false, 6834266038520);
    lemma_powmod_step(22, 24678, 6834266038520, 16561424618041, false, 16101612160166);
    lemma_powmod_step(22, 49356, 16101612160166, 16561424618041, true, 3046897593723);
    lemma_powmod_step(22, 98713, 3046897593723, 16561424618041, true, 9589054510332);
    lemma_powmod_step(22, 197427, 9589054510332, 16561424618041, true, 2162512910935);
    lemma_powmod_step(22, 394855, 2162512910935, 16561424618041, false, 13507017520380);
    lemma_powmod_step(22, 789710, 13507017520380, 16561424618041, false, 3285253740689);
    lemma_powmod_step(22, 1579420, 3285253740689, 16561424618041, true, 107935573628);
    lemma_powmod_step(22, 3158841, 107935573628, 16561424618041, false, 13850604258528);
    lemma_powmod_step(22, 6317682, 13850604258528, 16561424618041, false, 4124666462198);
    lemma_powmod_step(22, 12635364, 4124666462198, 16561424618041, false, 3596954394248);
    lemma_powmod_step(22, 25270728, 3596954394248, 16561424618041, false, 12940676331684);
    lemma_powmod_step(22, 50541456, 12940676331684, 16561424618041, true, 16193468608865);
    lemma_powmod_step(22, 101082913, 16193468608865, 16561424618041, true, 3912429666101);
    lemma_powmod_step(22, 202165827, 3912429666101, 16561424618041, true, 10424714630846);
    lemma_powmod_step(22, 404331655, 10424714630846, 16561424618041, true, 12755430094995);
    lemma_powmod_step(22, 808663311, 12755430094995, 16561424618041, false, 4599361391353);
    lemma_powmod_step(22, 1617326622, 4599361391353, 16561424618041, true, 2507612129121);
    lemma_powmod_step(22, 3234653245, 2507612129121, 16561424618041, true, 3112045993868);
    lemma_powmod_step(22, 6469306491, 3112045993868, 16561424618041, false, 11330999923880);
    lemma_powmod_step(22, 12938612982, 11330999923880, 16561424618041, true, 3194509815103);
    lemma_powmod_step(22, 25877225965, 3194509815103, 16561424618041, true, 10641109684353);
    lemma_powmod_step(22, 51754451931, 10641109684353, 16561424618041, false, 4111942409936);
    lemma_powmod_step(22, 103508903862, 4111942409936, 16561424618041, true, 6203466063054);
    lemma_powmod_step(22, 207017807725, 6203466063054, 16561424618041, true, 7870383369631);
    lemma_powmod_step(22, 414035615451, 7870383369631, 16561424618041, false, 5916410460492);
    lemma_powmod_step(22, 828071230902, 5916410460492, 16561424618041, false, 1338064881654);
    lemma_powmod_step(22, 1656142461804, 1338064881654, 16561424618041, false, 9213818117917);
}

/// 22^974201448120 mod 16561424618041.
proof fn lemma_pow_16561424618041_22_e2d2ee66b8()
    ensures
        pow(22, 974201448120) % 16561424618041 == 15038696361353,
{
    lemma_powmod_start(22, 16561424618041);
    lemma_powmod_step(22, 1, 22, 16561424618041, true, 10648);
    lemma_powmod_step(22, 3, 10648, 16561424618041, true, 2494357888);
    lemma_powmod_step(22, 7, 2494357888, 16561424618041, false, 8711497559623);
    lemma_powmod_step(22, 14, 8711497559623, 16561424618041, false, 3025785557248);
    lemma_powmod_step(22, 28, 3025785557248, 16561424618041, false, 5588225166414);
    lemma_powmod_step(22, 56, 5588225166414, 16561424618041, true, 489357624370);
    lemma_powmod_step(22, 113, 489357624370, 16561424618041, false, 14975165113297);
    lemma_powmod_step(22, 226, 14975165113297, 16561424618041, true, 12842718606161);
    lemma_powmod_step(22, 453, 12842718606161, 16561424618041, true, 8698284149307);
    lemma_powmod_step(22, 907, 8698284149307, 16561424618041, false, 13492296339364);
    lemma_powmod_step(22, 1814, 13492296339364, 16561424618041, true, 730864238039);
    lemma_powmod_step(22, 3629, 730864238039, 16561424618041, false, 8655986142234);
    lemma_powmod_step(22, 7258, 8655986142234, 16561424618041, false, 4868629676110);
    lemma_powmod_step(22, 14516, 4868629676110, 16561424618041, true, 3851475513609);
    lemma_powmod_step(22, 29033, 3851475513609, 16561424618041, false, 3194567340321);
    lemma_powmod_step(22, 58066, 3194567340321, 16561424618041, true, 9227915873225);
    lemma_powmod_step(22, 116133, 9227915873225, 16561424618041, true, 4238017612075);
    lemma_powmod_step(22, 232267, 4238017612075, 16561424618041, true, 8251276685141);
    lemma_powmod_step(22, 464535, 8251276685141, 16561424618041, false, 6190107725572);
    lemma_powmod_step(22, 929070, 6190107725572, 16561424618041, true, 1838319848525);
    lemma_powmod_step(22, 1858141, 1838319848525, 16561424618041, true, 9634617876006);
    lemma_powmod_step(22, 3716283, 9634617876006, 16561424618041, true, 8435053254700);
    lemma_powmod_step(22, 7432567, 8435053254700, 16561424618041, false, 8336171596265);
    lemma_powmod_step(22, 14865134, 8336171596265, 16561424618041, false, 6377555513046);
    lemma_powmod_step(22, 29730268, 6377555513046, 16561424618041, true, 14871109761041);
    lemma_powmod_step(22, 59460537, 14871109761041, 16561424618041, true, 7113358261557);
    lemma_powmod_step(22, 118921075, 7113358261557, 16561424618041, false, 15251497799124);
    lemma_powmod_step(22, 237842150, 15251497799124, 16561424618041, false, 15991499821217);
    lemma_powmod_step(22, 475684300, 15991499821217, 16561424618041, true, 8797362776407);
    lemma_powmod_step(22, 951368601, 8797362776407, 16561424618041, true, 11150837656103);
    lemma_powmod_step(22, 1902737203, 11150837656103, 16561424618041, false, 10805286817459);
    lemma_powmod_step(22, 3805474406, 10805286817459, 16561424618041, true, 5269088625599);
    lemma_powmod_step(22, 7610948813, 5269088625599, 16561424618041, false, 15378319685241);
    lemma_powmod_step(22, 15221897626, 15378319685241, 16561424618041, true, 6977065140503);
    lemma_powmod_step(22, 30443795253, 6977065140503, 16561424618041, true, 9194931601592);
    lemma_powmod_step(22, 60887590507, 9194931601592, 16561424618041, true, 6360817937941);
    lemma_powmod_step(22, 121775181015, 6360817937941, 16561424618041, false, 1940080932418);
    lemma_powmod_step(22, 243550362030, 1940080932418, 16561424618041, false, 11558910097163);
    lemma_powmod_step(22, 487100724060, 11558910097163, 16561424618041, false, 15038696361353);
}

/// 22^18798438840 mod 16561424618041.
proof fn lemma_pow_16561424618041_22_4607969b8()
    ensures
        pow(22, 18798438840) % 16561424618041 == 7133052550985,
{
    lemma_powmod_start(22, 16561424618041);
    lemma_powmod_step(22, 1, 22, 16561424618041, false, 484);
    lemma_powmod_step(22, 2, 484, 16561424618041, false, 234256);
    lemma_powmod_step(22, 4, 234256, 16561424618041, false, 54875873536);
    lemma_powmod_step(22, 8, 54875873536, 16561424618041, true, 16048153836104);
    lemma_powmod_step(22, 17, 16048153836104, 16561424618041, true, 3334782855598);
    lemma_powmod_step(22, 35, 3334782855598, 16561424618041, false, 3099949242843);
    lemma_powmod_step(22, 70, 3099949242843, 16561424618041, false, 398116530962);
    lemma_powmod_step(22, 140, 398116530962, 16561424618041, false, 9123496752865);
    lemma_powmod_step(22, 280, 9123496752865, 16561424618041, false, 15797500957775);
    lemma_powmod_step(22, 560, 15797500957775, 16561424618041, false, 9370582738337);
    lemma_powmod_step(22, 1120, 9370582738337, 16561424618041, false, 8598348187088);
    lemma_powmod_step(22, 2240, 8598348187088, 16561424618041, true, 16014543345677);
    lemma_powmod_step(22, 4481, 16014543345677, 16561424618041, true, 6285370628286);
    lemma_powmod_step(22, 8963, 6285370628286, 16561424618041, true, 12553505019608);
    lemma_powmod_step(22, 17927, 12553505019608, 16561424618041, true, 12753872844810);
    lemma_powmod_step(22, 35855, 12753872844810, 16561424618041, false, 5335366850257);
    lemma_powmod_step(22, 71710, 5335366850257, 16561424618041, false, 6854301173124);
    lemma_powmod_step(22, 143420, 6854301173124, 16561424618041, true, 6842946200678);
    lemma_powmod_step(22, 286841, 6842946200678, 16561424618041, false, 13033565798404);
    lemma_powmod_step(22, 573682, 13033565798404, 16561424618041, true, 6033703742976);
    lemma_powmod_step(22, 1147365, 6033703742976, 16561424618041, true, 863883333293);
    lemma_powmod_step(22, 2294731, 863883333293, 16561424618041, false, 11294416179592);
    lemma_powmod_step(22, 4589462, 11294416179592, 16561424618041, true, 6341750701134);
    lemma_powmod_step(22, 9178925, 6341750701134, 16561424618041, false, 16451461465818);
    lemma_powmod_step(22, 18357850, 16451461465818, 16561424618041, false, 327831786613);
    lemma_powmod_step(22, 36715700, 327831786613, 16561424618041, true, 14128400544754);
    lemma_powmod_step(22, 73431401, 14128400544754, 16561424618041, true, 1390745847771);
    lemma_powmod_step(22, 146862803, 1390745847771, 16561424618041, false, 12426753861381);
    lemma_powmod_step(22, 293725606, 12426753861381, 16561424618041, true, 16115731867783);
    lemma_powmod_step(22, 587451213, 16115731867783, 16561424618041, true, 9195399934005);
    lemma_powmod_step(22, 1174902427, 9195399934005, 16561424618041, true, 14239232129818);
    lemma_powmod_step(22, 2349804855, 14239232129818, 16561424618041, false, 771969251701);
    lemma_powmod_step(22, 4699609710, 771969251701, 16561424618041, false, 14431888035883);
    lemma_powmod_step(22, 9399219420, 14431888035883, 16561424618041, false, 7133052550985);
}

/// 22^8657305080 mod 16561424618041.
proof fn lemma_pow_16561424618041_22_20403fdf8()
    ensures
        pow(22, 8657305080) % 16561424618041 == 1324755552456,
{
    lemma_powmod_start(22, 16561424618041);
    lemma_powmod_step(22, 1, 22, 16561424618041, false, 484);
    lemma_powmod_step(22, 2, 484, 16561424618041, false, 234256);
    lemma_powmod_step(22, 4, 234256, 16561424618041, false, 54875873536);
    lemma_powmod_step(22, 8, 54875873536, 16561424618041, false, 9762965875118);
    lemma_powmod_step(22, 16, 9762965875118, 16561424618041, false, 12570695768770);
    lemma_powmod_step(22, 32, 12570695768770, 16561424618041, false, 15012063498006);
    lemma_powmod_step(22, 64, 15012063498006, 16561424618041, true, 7617218816591);
    lemma_powmod_step(22, 129, 7617218816591, 16561424618041, false, 12661093048085);
    lemma_powmod_step(22, 258, 12661093048085, 16561424618041, false, 1204864977746);
    lemma_powmod_step(22, 516, 1204864977746, 16561424618041, false, 8470509822747);
    lemma_powmod_step(22, 1032, 8470509822747, 16561424618041, false, 12782572038831);
    lemma_powmod_step(22, 2064, 12782572038831, 16561424618041, false, 16152793363527);
    lemma_powmod_step(22, 4128, 16152793363527, 16561424618041, false, 8482230068214);
    lemma_powmod_step(22, 8256, 8482230068214, 16561424618041, false, 15604979786064);
    lemma_powmod_step(22, 16512, 15604979786064, 16561424618041, false, 14411479465276);
    lemma_powmod_step(22, 33024, 14411479465276, 16561424618041, true, 4248081219546);
    lemma_powmod_step(22, 66049, 4248081219546, 16561424618041, true, 13763899327302);
    lemma_powmod_step(22, 132099, 13763899327302, 16561424618041, true, 2196789652191);
    lemma_powmod_step(22, 264199, 2196789652191, 16561424618041, true, 7185480971786);
    lemma_powmod_step(22, 528399, 7185480971786, 16561424618041, true, 797052793637);
    lemma_powmod_step(22, 1056799, 797052793637, 16561424618041, true, 448669370763);
    lemma_powmod_step(22, 2113599, 448669370763, 16561424618041, true, 1966957205342);
    lemma_powmod_step(22, 4227199, 1966957205342, 16561424618041, true, 10930048075378);
    lemma_powmod_step(22, 8454399, 10930048075378, 16561424618041, false, 11376949804138);
    lemma_powmod_step(22, 16908798, 11376949804138, 16561424618041, true, 2370387089388);
    lemma_powmod_step(22, 33817597, 2370387089388, 16561424618041, true, 7982811190171);
    lemma_powmod_step(22, 67635195, 7982811190171, 16561424618041, true, 10293471477588);
    lemma_powmod_step(22, 135270391, 10293471477588, 16561424618041, true, 10605100501499);
    lemma_powmod_step(22, 270540783, 10605100501499, 16561424618041, true, 15714275538254);
    lemma_powmod_step(22, 541081567, 15714275538254, 16561424618041, true, 11465075655857);
    lemma_powmod_step(22, 1082163135, 11465075655857, 16561424618041, false, 3870016599279);
    lemma_powmod_step(22, 2164326270, 3870016599279, 16561424618041, false, 6670730398690);
    lemma_powmod_step(22, 4328652540, 6670730398690, 16561424618041, false, 1324755552456);
}

/// 22^3438120120 mod 16561424618041.
proof fn lemma_pow_16561424618041_22_cced8cb8()
    ensures
        pow(22, 3438120120) % 16561424618041 == 7785418316743,
{
    lemma_powmod_start(22, 16561424618041);
    lemma_powmod_step(22, 1, 22, 16561424618041, true, 10648);
    lemma_powmod_step(22, 3, 10648, 16561424618041, false, 113379904);
    lemma_powmod_step(22, 6, 113379904, 16561424618041, false, 3337127449400);
    lemma_powmod_step(22, 12, 3337127449400, 16561424618041, true, 13027941245893);
    lemma_powmod_step(22, 25, 13027941245893, 16561424618041, true, 9905847723717);
    lemma_powmod_step(22, 51, 9905847723717, 16561424618041, false, 9234574424970);
    lemma_powmod_step(22, 102, 9234574424970, 16561424618041, false, 10123938937516);
    lemma_powmod_step(22, 204, 10123938937516, 16561424618041, true, 6933285471293);
    lemma_powmod_step(22, 409, 6933285471293, 16561424618041, true, 828754310969);
    lemma_powmod_step(22, 819, 828754310969, 16561424618041, true, 4886540934659);
    lemma_powmod_step(22, 1639, 4886540934659, 16561424618041, false, 3833375801236);
    lemma_powmod_step(22, 3278, 3833375801236, 16561424618041, true, 1219706006199);
    lemma_powmod_step(22, 6557, 1219706006199, 16561424618041, true, 15328925971017);
    lemma_powmod_step(22, 13115, 15328925971017, 16561424618041, false, 8269991535751);
    lemma_powmod_step(22, 26230, 8269991535751, 16561424618041, true, 13705339798103);
    lemma_powmod_step(22, 52461, 13705339798103, 16561424618041, true, 13706773887083);
    lemma_powmod_step(22, 104923, 13706773887083, 16561424618041, false, 9748086807472);
    lemma_powmod_step(22, 209846, 9748086807472, 16561424618041, false, 10356123013229);
    lemma_powmod_step(22, 419692, 10356123013229, 16561424618041, false, 10587542575025);
    lemma_powmod_step(22, 839384, 10587542575025, 16561424618041, true, 8487427859341);
    lemma_powmod_step(22, 1678769, 8487427859341, 16561424618041, true, 3092841581433);
    lemma_powmod_step(22, 3357539, 3092841581433, 16561424618041, false, 14943100169779);
    lemma_powmod_step(22, 6715078, 14943100169779, 16561424618041, false, 14706393875498);
    lemma_powmod_step(22, 13430156, 14706393875498, 16561424618041, true, 5552065011135);
    lemma_powmod_step(22, 26860313, 5552065011135, 16561424618041, false, 12319616170366);
    lemma_powmod_step(22, 53720626, 12319616170366, 16561424618041, true, 7457174463339);
    lemma_powmod_step(22, 107441253, 7457174463339, 16561424618041, true, 11427740098406);
    lemma_powmod_step(22, 214882507, 11427740098406, 16561424618041, true, 1036711044503);
    lemma_powmod_step(22, 429765015, 1036711044503, 16561424618041, false, 15633147472304);
    lemma_powmod_step(22, 859530030, 15633147472304, 16561424618041, false, 12194470771791);
    lemma_powmod_step(22, 1719060060, 12194470771791, 16561424618041, false, 7785418316743);
}

/// The prime factors of 16561424618041 - 1, with multiplicity.
pub open spec fn factors_16561424618041() -> Seq<int> {
    seq![2int] + (seq![2int] + (seq![2int] + (seq![3int] + (seq![5int] + (seq![17int] + (seq![881int] + (seq![1913int] + (seq![4817int] + (Seq::<int>::empty())))))))))
}

/// 16561424618041 is prime: Lucas certificate with witness 22.
pub proof fn lemma_prime_16561424618041()
    ensures
        is_prime(16561424618041),
        lucas_certificate(16561424618041, 22, factors_16561424618041()),
{
    let fl = factors_16561424618041();
    lemma_pow_16561424618041_22_f1001d4d238();
    lemma_pow_16561424618041_22_78800ea691c();
    lemma_prime_two();
    lemma_pow_16561424618041_22_50555f19b68();
    lemma_prime_3();
    lemma_pow_16561424618041_22_3033390f6d8();
    lemma_prime_5();
    lemma_pow_16561424618041_22_e2d2ee66b8();
    lemma_prime_17();
    lemma_pow_16561424618041_22_4607969b8();
    lemma_prime_881();
    lemma_pow_16561424618041_22_20403fdf8();
    lemma_prime_1913();
    lemma_pow_16561424618041_22_cced8cb8();
    lemma_prime_4817();
    lemma_product_prepend(2, seq![2int] + (seq![2int] + (seq![3int] + (seq![5int] + (seq![17int] + (seq![881int] + (seq![1913int] + (seq![4817int] + (Seq::<int>::empty())))))))));
    lemma_product_prepend(2, seq![2int] + (seq![3int] + (seq![5int] + (seq![17int] + (seq![881int] + (seq![1913int] + (seq![4817int] + (Seq::<int>::empty()))))))));
    lemma_product_prepend(2, seq![3int] + (seq![5int] + (seq![17int] + (seq![881int] + (seq![1913int] + (seq![4817int] + (Seq::<int>::empty())))))));
    lemma_product_prepend(3, seq![5int] + (seq![17int] + (seq![881int] + (seq![1913int] + (seq![4817int] + (Seq::<int>::empty()))))));
    lemma_product_prepend(5, seq![17int] + (seq![881int] + (seq![1913int] + (seq![4817int] + (Seq::<int>::empty())))));
    lemma_product_prepend(17, seq![881int] + (seq![1913int] + (seq![4817int] + (Seq::<int>::empty()))));
    lemma_product_prepend(881, seq![1913int] + (seq![4817int] + (Seq::<int>::empty())));
    lemma_product_prepend(1913, seq![4817int] + (Seq::<int>::empty()));
    lemma_product_prepend(4817, Seq::<int>::empty());
    assert forall|i: int| 0 <= i < fl.len() implies is_prime(#[trigger] fl[i]) && pow(22, ((16561424618041 - 1) / fl[i]) as nat) % 16561424618041 != 1 by {
        if i == 0 {
            assert(fl[0] == 2);
            assert((16561424618041 - 1) / fl[0] == 8280712309020);
        } else if i == 1 {
            assert(fl[1] == 2);
            assert((16561424618041 - 1) / fl[1] == 8280712309020);
        } else if i == 2 {
            assert(fl[2] == 2);
            assert((16561424618041 - 1) / fl[2] == 8280712309020);
        } else if i == 3 {
            assert(fl[3] == 3);
            assert((16561424618041 - 1) / fl[3] == 5520474872680);
        } else if i == 4 {
            assert(fl[4] == 5);
            assert((16561424618041 - 1) / fl[4] == 3312284923608);
        } else if i == 5 {
            assert(fl[5] == 17);
            assert((16561424618041 - 1) / fl[5] == 974201448120);
        } else if i == 6 {
            assert(fl[6] == 881);
            assert((16561424618041 - 1) / fl[6] == 18798438840);
        } else if i == 7 {
            assert(fl[7] == 1913);
            assert((16561424618041 - 1) / fl[7] == 8657305080);
        } else if i == 8 {
            assert(fl[8] == 4817);
            assert((16561424618041 - 1) / fl[8] == 3438120120);
        }
    }
    lemma_lucas(16561424618041, 22, fl);
}

/// 7^18446744073709551358 mod 18446744073709551359.
proof fn lemma_pow_p_7_fffffffffffffefe()
    ensures
        pow(7, 18446744073709551358) % 18446744073709551359 == 1,
{
    lemma_powmod_start(7, 18446744073709551359);
    lemma_powmod_step(7, 1, 7, 18446744073709551359, true, 343);
    lemma_powmod_step(7, 3, 343, 18446744073709551359, true, 823543);
    lemma_powmod_step(7, 7, 823543, 18446744073709551359, true, 4747561509943);
    lemma_powmod_step(7, 15, 4747561509943, 18446744073709551359, true, 11037526539650488563);
    lemma_powmod_step(7, 31, 11037526539650488563, 18446744073709551359, true, 2644878139384909158);
    lemma_powmod_step(7, 63, 2644878139384909158, 18446744073709551359, true, 16576655485267657982);
    lemma_powmod_step(7, 127, 16576655485267657982, 18446744073709551359, true, 14753863492635152646);
    lemma_powmod_step(7, 255, 14753863492635152646, 18446744073709551359, true, 243289453103928074);
    lemma_powmod_step(7, 511, 243289453103928074, 18446744073709551359, true, 4219776533095871035);
    lemma_powmod_step(7, 1023, 4219776533095871035, 18446744073709551359, true, 10907630834200398465);
    lemma_powmod_step(7, 2047, 10907630834200398465, 18446744073709551359, true, 7853552374314496872);
    lemma_powmod_step(7, 4095, 7853552374314496872, 18446744073709551359, true, 2804066646464067939);
    lemma_powmod_step(7, 8191, 2804066646464067939, 18446744073709551359, true, 5156310838129535586);
    lemma_powmod_step(7, 16383, 5156310838129535586, 18446744073709551359, true, 15166577130821391320);
    lemma_powmod_step(7, 32767, 15166577130821391320, 18446744073709551359, true, 4174256023043040391);
    lemma_powmod_step(7, 65535, 4174256023043040391, 18446744073709551359, true, 5950652759662190522);
    lemma_powmod_step(7, 131071, 5950652759662190522, 18446744073709551359, true, 15719296146571774116);
    lemma_powmod_step(7, 262143, 15719296146571774116, 18446744073709551359, true, 11097426167028082440);
    lemma_powmod_step(7, 524287, 11097426167028082440, 18446744073709551359, true, 58517866074152683);
    lemma_powmod_step(7, 1048575, 58517866074152683, 18446744073709551359, true, 8609745828087216737);
    lemma_powmod_step(7, 2097151, 8609745828087216737, 18446744073709551359, true, 16991132296232426849);
    lemma_powmod_step(7, 4194303, 16991132296232426849, 18446744073709551359, true, 6505807096003753872);
    lemma_powmod_step(7, 8388607, 6505807096003753872, 18446744073709551359, true, 14270410686232373079);
    lemma_powmod_step(7, 16777215, 14270410686232373079, 18446744073709551359, true, 15747018835694302782);
    lemma_powmod_step(7, 33554431, 15747018835694302782, 18446744073709551359, true, 286640548615353738);
    lemma_powmod_step(7, 67108863, 286640548615353738, 18446744073709551359, true, 17049744663300092792);
    lemma_powmod_step(7, 134217727, 17049744663300092792, 18446744073709551359, true, 11703662846290184137);
    lemma_powmod_step(7, 268435455, 11703662846290184137, 18446744073709551359, true, 13993799224797074846);
    lemma_powmod_step(7, 536870911, 13993799224797074846, 18446744073709551359, true, 9358478667368648271);
    lemma_powmod_step(7, 1073741823, 9358478667368648271, 18446744073709551359, true, 11649007454225894017);
    lemma_powmod_step(7, 2147483647, 11649007454225894017, 18446744073709551359, true, 4407267502699224666);
    lemma_powmod_step(7, 4294967295, 4407267502699224666, 18446744073709551359, true, 14154517844777051257);
    lemma_powmod_step(7, 8589934591, 14154517844777051257, 18446744073709551359, true, 10990646567641124767);
    lemma_powmod_step(7, 17179869183, 10990646567641124767, 18446744073709551359, true, 6053250112404001434);
    lemma_powmod_step(7, 34359738367, 6053250112404001434, 18446744073709551359, true, 3472722894932300095);
    lemma_powmod_step(7, 68719476735, 3472722894932300095, 18446744073709551359, true, 2008883154499212737);
    lemma_powmod_step(7, 137438953471, 2008883154499212737, 18446744073709551359, true, 378676158257236050);
    lemma_powmod_step(7, 274877906943, 378676158257236050, 18446744073709551359, true, 5354044974692152189);
    lemma_powmod_step(7, 549755813887, 5354044974692152189, 18446744073709551359, true, 1660788782261831644);
    lemma_powmod_step(7, 1099511627775, 1660788782261831644, 18446744073709551359, true, 9003799660570748660);
    lemma_powmod_step(7, 2199023255551, 9003799660570748660, 18446744073709551359, true, 14603345893354328831);
    lemma_powmod_step(7, 4398046511103, 14603345893354328831, 18446744073709551359, true, 10182142851442778338);
    lemma_powmod_step(7, 8796093022207, 10182142851442778338, 18446744073709551359, true, 17166103445310039779);
    lemma_powmod_step(7, 17592186044415, 17166103445310039779, 18446744073709551359, true, 16138590244155992018);
    lemma_powmod_step(7, 35184372088831, 16138590244155992018, 18446744073709551359, true, 15401700596657979036);
    lemma_powmod_step(7, 70368744177663, 15401700596657979036, 18446744073709551359, true, 18099441983955210999);
    lemma_powmod_step(7, 140737488355327, 18099441983955210999, 18446744073709551359, true, 6044945385721638111);
    lemma_powmod_step(7, 281474976710655, 6044945385721638111, 18446744073709551359, true, 3992224759958170363);
    lemma_powmod_step(7, 562949953421311, 3992224759958170363, 18446744073709551359, true, 15779544910997599159);
    lemma_powmod_step(7, 1125899906842623, 15779544910997599159, 18446744073709551359, true, 12893474389296327733);
    lemma_powmod_step(7, 2251799813685247, 12893474389296327733, 18446744073709551359, true, 16832533655765212181);
    lemma_powmod_step(7, 4503599627370495, 16832533655765212181, 18446744073709551359, true, 2153521270500638538);
    lemma_powmod_step(7, 9007199254740991, 2153521270500638538, 18446744073709551359, true, 12711174268576976375);
    lemma_powmod_step(7, 18014398509481983, 12711174268576976375, 18446744073709551359, true, 3985803167073524893);
    lemma_powmod_step(7, 36028797018963967, 3985803167073524893, 18446744073709551359, false, 2633405138137376938);
    lemma_powmod_step(7, 72057594037927934, 2633405138137376938, 18446744073709551359, true, 2330186298028949077);
    lemma_powmod_step(7, 144115188075855869, 2330186298028949077, 18446744073709551359, true, 1026428829323628875);
    lemma_powmod_step(7, 288230376151711739, 1026428829323628875, 18446744073709551359, true, 3129876481285240777);
    lemma_powmod_step(7, 576460752303423479, 3129876481285240777, 18446744073709551359, true, 11696971034380199063);
    lemma_powmod_step(7, 1152921504606846959, 11696971034380199063, 18446744073709551359, true, 8032608771732526380);
    lemma_powmod_step(7, 2305843009213693919, 8032608771732526380, 18446744073709551359, true, 4972833704411400530);
    lemma_powmod_step(7, 4611686018427387839, 4972833704411400530, 18446744073709551359, true, 18446744073709551358);
    lemma_powmod_step(7, 9223372036854775679, 18446744073709551358, 18446744073709551359, false, 1);
}

/// 7^9223372036854775679 mod 18446744073709551359.
proof fn lemma_pow_p_7_7fffffffffffff7f()
    ensures
        pow(7, 9223372036854775679) % 18446744073709551359 == 18446744073709551358,
{
    lemma_powmod_start(7, 18446744073709551359);
    lemma_powmod_step(7, 1, 7, 18446744073709551359, true, 343);
    lemma_powmod_step(7, 3, 343, 18446744073709551359, true, 823543);
    lemma_powmod_step(7, 7, 823543, 18446744073709551359, true, 4747561509943);
    lemma_powmod_step(7, 15, 4747561509943, 18446744073709551359, true, 11037526539650488563);
    lemma_powmod_step(7, 31, 11037526539650488563, 18446744073709551359, true, 2644878139384909158);
    lemma_powmod_step(7, 63, 2644878139384909158, 18446744073709551359, true, 16576655485267657982);
    lemma_powmod_step(7, 127, 16576655485267657982, 18446744073709551359, true, 14753863492635152646);
    lemma_powmod_step(7, 255, 14753863492635152646, 18446744073709551359, true, 243289453103928074);
    lemma_powmod_step(7, 511, 243289453103928074, 18446744073709551359, true, 4219776533095871035);
    lemma_powmod_step(7, 1023, 4219776533095871035, 18446744073709551359, true, 10907630834200398465);
    lemma_powmod_step(7, 2047, 10907630834200398465, 18446744073709551359, true, 7853552374314496872);
    lemma_powmod_step(7, 4095, 7853552374314496872, 18446744073709551359, true, 2804066646464067939);
    lemma_powmod_step(7, 8191, 2804066646464067939, 18446744073709551359, true, 5156310838129535586);
    lemma_powmod_step(7, 16383, 5156310838129535586, 18446744073709551359, true, 15166577130821391320);
    lemma_powmod_step(7, 32767, 15166577130821391320, 18446744073709551359, true, 4174256023043040391);
    lemma_powmod_step(7, 65535, 4174256023043040391, 18446744073709551359, true, 5950652759662190522);
    lemma_powmod_step(7, 131071, 5950652759662190522, 18446744073709551359, true, 15719296146571774116);
    lemma_powmod_step(7, 262143, 15719296146571774116, 18446744073709551359, true, 11097426167028082440);
    lemma_powmod_step(7, 524287, 11097426167028082440, 18446744073709551359, true, 58517866074152683);
    lemma_powmod_step(7, 1048575, 58517866074152683, 18446744073709551359, true, 8609745828087216737);
    lemma_powmod_step(7, 2097151, 8609745828087216737, 18446744073709551359, true, 16991132296232426849);
    lemma_powmod_step(7, 4194303, 16991132296232426849, 18446744073709551359, true, 6505807096003753872);
    lemma_powmod_step(7, 8388607, 6505807096003753872, 18446744073709551359, true, 14270410686232373079);
    lemma_powmod_step(7, 16777215, 14270410686232373079, 18446744073709551359, true, 15747018835694302782);
    lemma_powmod_step(7, 33554431, 15747018835694302782, 18446744073709551359, true, 286640548615353738);
    lemma_powmod_step(7, 67108863, 286640548615353738, 18446744073709551359, true, 17049744663300092792);
    lemma_powmod_step(7, 134217727, 17049744663300092792, 18446744073709551359, true, 11703662846290184137);
    lemma_powmod_step(7, 268435455, 11703662846290184137, 18446744073709551359, true, 13993799224797074846);
    lemma_powmod_step(7, 536870911, 13993799224797074846, 18446744073709551359, true, 9358478667368648271);
    lemma_powmod_step(7, 1073741823, 9358478667368648271, 18446744073709551359, true, 11649007454225894017);
    lemma_powmod_step(7, 2147483647, 11649007454225894017, 18446744073709551359, true, 4407267502699224666);
    lemma_powmod_step(7, 4294967295, 4407267502699224666, 18446744073709551359, true, 14154517844777051257);
    lemma_powmod_step(7, 8589934591, 14154517844777051257, 18446744073709551359, true, 10990646567641124767);
    lemma_powmod_step(7, 17179869183, 10990646567641124767, 18446744073709551359, true, 6053250112404001434);
    lemma_powmod_step(7, 34359738367, 6053250112404001434, 18446744073709551359, true, 3472722894932300095);
    lemma_powmod_step(7, 68719476735, 3472722894932300095, 18446744073709551359, true, 2008883154499212737);
    lemma_powmod_step(7, 137438953471, 2008883154499212737, 18446744073709551359, true, 378676158257236050);
    lemma_powmod_step(7, 274877906943, 378676158257236050, 18446744073709551359, true, 5354044974692152189);
    lemma_powmod_step(7, 549755813887, 5354044974692152189, 18446744073709551359, true, 1660788782261831644);
    lemma_powmod_step(7, 1099511627775, 1660788782261831644, 18446744073709551359, true, 9003799660570748660);
    lemma_powmod_step(7, 2199023255551, 9003799660570748660, 18446744073709551359, true, 14603345893354328831);
    lemma_powmod_step(7, 4398046511103, 14603345893354328831, 18446744073709551359, true, 10182142851442778338);
    lemma_powmod_step(7, 8796093022207, 10182142851442778338, 18446744073709551359, true, 17166103445310039779);
    lemma_powmod_step(7, 17592186044415, 17166103445310039779, 18446744073709551359, true, 16138590244155992018);
    lemma_powmod_step(7, 35184372088831, 16138590244155992018, 18446744073709551359, true, 15401700596657979036);
    lemma_powmod_step(7, 70368744177663, 15401700596657979036, 18446744073709551359, true, 18099441983955210999);
    lemma_powmod_step(7, 140737488355327, 18099441983955210999, 18446744073709551359, true, 6044945385721638111);
    lemma_powmod_step(7, 281474976710655, 6044945385721638111, 18446744073709551359, true, 3992224759958170363);
    lemma_powmod_step(7, 562949953421311, 3992224759958170363, 18446744073709551359, true, 15779544910997599159);
    lemma_powmod_step(7, 1125899906842623, 15779544910997599159, 18446744073709551359, true, 12893474389296327733);
    lemma_powmod_step(7, 2251799813685247, 12893474389296327733, 18446744073709551359, true, 16832533655765212181);
    lemma_powmod_step(7, 4503599627370495, 16832533655765212181, 18446744073709551359, true, 2153521270500638538);
    lemma_powmod_step(7, 9007199254740991, 2153521270500638538, 18446744073709551359, true, 12711174268576976375);
    lemma_powmod_step(7, 18014398509481983, 12711174268576976375, 18446744073709551359, true, 3985803167073524893);
    lemma_powmod_step(7, 36028797018963967, 3985803167073524893, 18446744073709551359, false, 2633405138137376938);
    lemma_powmod_step(7, 72057594037927934, 2633405138137376938, 18446744073709551359, true, 2330186298028949077);
    lemma_powmod_step(7, 144115188075855869, 2330186298028949077, 18446744073709551359, true, 1026428829323628875);
    lemma_powmod_step(7, 288230376151711739, 1026428829323628875, 18446744073709551359, true, 3129876481285240777);
    lemma_powmod_step(7, 576460752303423479, 3129876481285240777, 18446744073709551359, true, 11696971034380199063);
    lemma_powmod_step(7, 1152921504606846959, 11696971034380199063, 18446744073709551359, true, 8032608771732526380);
    lemma_powmod_step(7, 2305843009213693919, 8032608771732526380, 18446744073709551359, true, 4972833704411400530);
    lemma_powmod_step(7, 4611686018427387839, 4972833704411400530, 18446744073709551359, true, 18446744073709551358);
}

/// 7^1676976733973595578 mod 18446744073709551359.
proof fn lemma_pow_p_7_1745d1745d1745ba()
    ensures
        pow(7, 1676976733973595578) % 18446744073709551359 == 551480478716151621,
{
    lemma_powmod_start(7, 18446744073709551359);
    lemma_powmod_step(7, 1, 7, 18446744073709551359, false, 49);
    lemma_powmod_step(7, 2, 49, 18446744073709551359, true, 16807);
    lemma_powmod_step(7, 5, 16807, 18446744073709551359, true, 1977326743);
    lemma_powmod_step(7, 11, 1977326743, 18446744073709551359, true, 8922003266371364984);
    lemma_powmod_step(7, 23, 8922003266371364984, 18446744073709551359, false, 2915810476307121690);
    lemma_powmod_step(7, 46, 2915810476307121690, 18446744073709551359, true, 15446088879566555961);
    lemma_powmod_step(7, 93, 15446088879566555961, 18446744073709551359, false, 7011769594363675670);
    lemma_powmod_step(7, 186, 7011769594363675670, 18446744073709551359, false, 16994297427818571922);
    lemma_powmod_step(7, 372, 16994297427818571922, 18446744073709551359, false, 18143203667886452379);
    lemma_powmod_step(7, 744, 18143203667886452379, 18446744073709551359, true, 15847009064838578388);
    lemma_powmod_step(7, 1489, 15847009064838578388, 18446744073709551359, false, 6079980780063131544);
    lemma_powmod_step(7, 2978, 6079980780063131544, 18446744073709551359, true, 15373988176678291583);
    lemma_powmod_step(7, 5957, 15373988176678291583, 18446744073709551359, true, 11975196139733948308);
    lemma_powmod_step(7, 11915, 11975196139733948308, 18446744073709551359, true, 2163743278374865015);
    lemma_powmod_step(7, 23831, 2163743278374865015, 18446744073709551359, false, 10225663186601718320);
    lemma_powmod_step(7, 47662, 10225663186601718320, 18446744073709551359, true, 10179007378665280388);
    lemma_powmod_step(7, 95325, 10179007378665280388, 18446744073709551359, false, 10684741159343751015);
    lemma_powmod_step(7, 190650, 10684741159343751015, 18446744073709551359, false, 18132194882473364501);
    lemma_powmod_step(7, 381300, 18132194882473364501, 18446744073709551359, false, 16894201151757572720);
    lemma_powmod_step(7, 762600, 16894201151757572720, 18446744073709551359, true, 15607888977101125059);
    lemma_powmod_step(7, 1525201, 15607888977101125059, 18446744073709551359, false, 11750736043017350253);
    lemma_powmod_step(7, 3050402, 11750736043017350253, 18446744073709551359, true, 13738466797663574364);
    lemma_powmod_step(7, 6100805, 13738466797663574364, 18446744073709551359, true, 1182398358531847971);
    lemma_powmod_step(7, 12201611, 1182398358531847971, 18446744073709551359, true, 1358350622111427522);
    lemma_powmod_step(7, 24403223, 1358350622111427522, 18446744073709551359, false, 7851137357252242865);
    lemma_powmod_step(7, 48806446, 7851137357252242865, 18446744073709551359, true, 3728407078753027618);
    lemma_powmod_step(7, 97612893, 3728407078753027618, 18446744073709551359, false, 2925490725535208045);
    lemma_powmod_step(7, 195225786, 2925490725535208045, 18446744073709551359, false, 16684627745127925569);
    lemma_powmod_step(7, 390451572, 16684627745127925569, 18446744073709551359, false, 7881964477015423917);
    lemma_powmod_step(7, 780903144, 7881964477015423917, 18446744073709551359, true, 15410171264396378456);
    lemma_powmod_step(7, 1561806289, 15410171264396378456, 18446744073709551359, false, 17765849261701680927);
    lemma_powmod_step(7, 3123612578, 17765849261701680927, 18446744073709551359, true, 11072595713976799287);
    lemma_powmod_step(7, 6247225157, 11072595713976799287, 18446744073709551359, true, 17391862991997935977);
    lemma_powmod_step(7, 12494450315, 17391862991997935977, 18446744073709551359, true, 15746518056512245604);
    lemma_powmod_step(7, 24988900631, 15746518056512245604, 18446744073709551359, false, 12672177945821385601);
    lemma_powmod_step(7, 49977801262, 12672177945821385601, 18446744073709551359, true, 13385976052405035700);
    lemma_powmod_step(7, 99955602525, 13385976052405035700, 18446744073709551359, false, 4804212925008574078);
    lemma_powmod_step(7, 199911205050, 4804212925008574078, 18446744073709551359, false, 3939312799611037988);
    lemma_powmod_step(7, 399822410100, 3939312799611037988, 18446744073709551359, false, 3020167773274014545);
    lemma_powmod_step(7, 799644820200, 3020167773274014545, 18446744073709551359, true, 13007636846452536968);
    lemma_powmod_step(7, 1599289640401, 13007636846452536968, 18446744073709551359, false, 11904782441255205304);
    lemma_powmod_step(7, 3198579280802, 11904782441255205304, 18446744073709551359, true, 15170602428137098689);
    lemma_powmod_step(7, 6397158561605, 15170602428137098689, 18446744073709551359, true, 12394756594502043469);
    lemma_powmod_step(7, 12794317123211, 12394756594502043469, 18446744073709551359, true, 1675500761439375984);
    lemma_powmod_step(7, 25588634246423, 1675500761439375984, 18446744073709551359, false, 9547919249046394463);
    lemma_powmod_step(7, 51177268492846, 9547919249046394463, 18446744073709551359, true, 427882588870725778);
    lemma_powmod_step(7, 102354536985693, 427882588870725778, 18446744073709551359, false, 18165652590379469682);
    lemma_powmod_step(7, 204709073971386, 18165652590379469682, 18446744073709551359, false, 3264110413653368372);
    lemma_powmod_step(7, 409418147942772, 3264110413653368372, 18446744073709551359, false, 5457474077312466899);
    lemma_powmod_step(7, 818836295885544, 5457474077312466899, 18446744073709551359, true, 18422177605141982041);
    lemma_powmod_step(7, 1637672591771089, 18422177605141982041, 18446744073709551359, false, 2748341356625814459);
    lemma_powmod_step(7, 3275345183542178, 2748341356625814459, 18446744073709551359, true, 3584073605932390105);
    lemma_powmod_step(7, 6550690367084357, 3584073605932390105, 18446744073709551359, true, 8690805983912023291);
    lemma_powmod_step(7, 13101380734168715, 8690805983912023291, 18446744073709551359, false, 1801652896166629284);
    lemma_powmod_step(7, 26202761468337430, 1801652896166629284, 18446744073709551359, true, 6090304519628607311);
    lemma_powmod_step(7, 52405522936674861, 6090304519628607311, 18446744073709551359, true, 7398504694511370454);
    lemma_powmod_step(7, 104811045873349723, 7398504694511370454, 18446744073709551359, true, 6674374011399123220);
    lemma_powmod_step(7, 209622091746699447, 6674374011399123220, 18446744073709551359, false, 6001912400399417463);
    lemma_powmod_step(7, 419244183493398894, 6001912400399417463, 18446744073709551359, true, 13317400247843060975);
    lemma_powmod_step(7, 838488366986797789, 13317400247843060975, 18446744073709551359, false, 551480478716151621);
}

/// 7^93638294790403814 mod 18446744073709551359.
proof fn lemma_pow_p_7_14cab88725af6e6()
    ensures
        pow(7, 93638294790403814) % 18446744073709551359 == 18183884068171542645,
{
    lemma_powmod_start(7, 18446744073709551359);
    lemma_powmod_step(7, 1, 7, 18446744073709551359, false, 49);
    lemma_powmod_step(7, 2, 49, 18446744073709551359, true, 16807);
    lemma_powmod_step(7, 5, 16807, 18446744073709551359, false, 282475249);
    lemma_powmod_step(7, 10, 282475249, 18446744073709551359, false, 79792266297612001);
    lemma_powmod_step(7, 20, 79792266297612001, 18446744073709551359, true, 12470686141248541064);
    lemma_powmod_step(7, 41, 12470686141248541064, 18446744073709551359, true, 4417359648328858088);
    lemma_powmod_step(7, 83, 4417359648328858088, 18446744073709551359, false, 1544994755405688958);
    lemma_powmod_step(7, 166, 1544994755405688958, 18446744073709551359, false, 15493996760630386525);
    lemma_powmod_step(7, 332, 15493996760630386525, 18446744073709551359, true, 9507105780199631061);
    lemma_powmod_step(7, 665, 9507105780199631061, 18446744073709551359, false, 9735979579880892937);
    lemma_powmod_step(7, 1330, 9735979579880892937, 18446744073709551359, true, 10734484201972306969);
    lemma_powmod_step(7, 2661, 10734484201972306969, 18446744073709551359, false, 2758470392578429466);
    lemma_powmod_step(7, 5322, 2758470392578429466, 18446744073709551359, true, 5136543541925077009);
    lemma_powmod_step(7, 10645, 5136543541925077009, 18446744073709551359, false, 12050852246377606404);
    lemma_powmod_step(7, 21290, 12050852246377606404, 18446744073709551359, true, 15098876425205288206);
    lemma_powmod_step(7, 42581, 15098876425205288206, 18446744073709551359, true, 9206735118888071940);
    lemma_powmod_step(7, 85163, 9206735118888071940, 18446744073709551359, true, 9894782431338397019);
    lemma_powmod_step(7, 170327, 9894782431338397019, 18446744073709551359, false, 16670708422607977795);
    lemma_powmod_step(7, 340654, 16670708422607977795, 18446744073709551359, false, 4643233423366847539);
    lemma_powmod_step(7, 681308, 4643233423366847539, 18446744073709551359, false, 12113968892920987815);
    lemma_powmod_step(7, 1362616, 12113968892920987815, 18446744073709551359, true, 5790363595300155820);
    lemma_powmod_step(7, 2725233, 5790363595300155820, 18446744073709551359, false, 1561072138015884205);
    lemma_powmod_step(7, 5450466, 1561072138015884205, 18446744073709551359, false, 7505385088292749696);
    lemma_powmod_step(7, 10900932, 7505385088292749696, 18446744073709551359, false, 13117175802473486902);
    lemma_powmod_step(7, 21801864, 13117175802473486902, 18446744073709551359, false, 4220214181430088257);
    lemma_powmod_step(7, 43603728, 4220214181430088257, 18446744073709551359, true, 3090576027807211515);
    lemma_powmod_step(7, 87207457, 3090576027807211515, 18446744073709551359, true, 14642757278569295702);
    lemma_powmod_step(7, 174414915, 14642757278569295702, 18446744073709551359, true, 4077506891921027325);
    lemma_powmod_step(7, 348829831, 4077506891921027325, 18446744073709551359, false, 13060917881293328833);
    lemma_powmod_step(7, 697659662, 13060917881293328833, 18446744073709551359, false, 440286847716082148);
    lemma_powmod_step(7, 1395319324, 440286847716082148, 18446744073709551359, true, 15042012471158381124);
    lemma_powmod_step(7, 2790638649, 15042012471158381124, 18446744073709551359, false, 5629390841510228578);
    lemma_powmod_step(7, 5581277298, 5629390841510228578, 18446744073709551359, false, 1023283065193488783);
    lemma_powmod_step(7, 11162554596, 1023283065193488783, 18446744073709551359, true, 6031938517897268240);
    lemma_powmod_step(7, 22325109193, 6031938517897268240, 18446744073709551359, false, 1491938790075438563);
    lemma_powmod_step(7, 44650218386, 1491938790075438563, 18446744073709551359, true, 3748666141862895130);
    lemma_powmod_step(7, 89300436773, 3748666141862895130, 18446744073709551359, true, 16324314983848554471);
    lemma_powmod_step(7, 178600873547, 16324314983848554471, 18446744073709551359, false, 13450054300624469027);
    lemma_powmod_step(7, 357201747094, 13450054300624469027, 18446744073709551359, true, 11085384301462737484);
    lemma_powmod_step(7, 714403494189, 11085384301462737484, 18446744073709551359, false, 11102976435692578139);
    lemma_powmod_step(7, 1428806988378, 11102976435692578139, 18446744073709551359, true, 15021312297108232846);
    lemma_powmod_step(7, 2857613976757, 15021312297108232846, 18446744073709551359, true, 15050763586335876110);
    lemma_powmod_step(7, 5715227953515, 15050763586335876110, 18446744073709551359, true, 5841079478493404890);
    lemma_powmod_step(7, 11430455907031, 5841079478493404890, 18446744073709551359, true, 5973450042148834588);
    lemma_powmod_step(7, 22860911814063, 5973450042148834588, 18446744073709551359, false, 14008799821249134089);
    lemma_powmod_step(7, 45721823628126, 14008799821249134089, 18446744073709551359, true, 11379226591502701463);
    lemma_powmod_step(7, 91443647256253, 11379226591502701463, 18446744073709551359, true, 3082572072063050738);
    lemma_powmod_step(7, 182887294512507, 3082572072063050738, 18446744073709551359, false, 2747375861414417893);
    lemma_powmod_step(7, 365774589025014, 2747375861414417893, 18446744073709551359, true, 17043489961625879347);
    lemma_powmod_step(7, 731549178050029, 17043489961625879347, 18446744073709551359, true, 5768042418611450448);
    lemma_powmod_step(7, 1463098356100059, 5768042418611450448, 18446744073709551359, true, 15092191639755849664);
    lemma_powmod_step(7, 2926196712200119, 15092191639755849664, 18446744073709551359, false, 4372093765772114622);
    lemma_powmod_step(7, 5852393424400238, 4372093765772114622, 18446744073709551359, false, 12435567119554091479);
    lemma_powmod_step(7, 11704786848800476, 12435567119554091479, 18446744073709551359, true, 16932554962282724287);
    lemma_powmod_step(7, 23409573697600953, 16932554962282724287, 18446744073709551359, true, 12511899094922418231);
    lemma_powmod_step(7, 46819147395201907, 12511899094922418231, 18446744073709551359, false, 18183884068171542645);
}

/// 7^71777214294589694 mod 18446744073709551359.
proof fn lemma_pow_p_7_ff00ff00ff00fe()
    ensures
        pow(7, 71777214294589694) % 18446744073709551359 == 18131942315876480809,
{
    lemma_powmod_start(7, 18446744073709551359);
    lemma_powmod_step(7, 1, 7, 18446744073709551359, true, 343);
    lemma_powmod_step(7, 3, 343, 18446744073709551359, true, 823543);
    lemma_powmod_step(7, 7, 823543, 18446744073709551359, true, 4747561509943);
    lemma_powmod_step(7, 15, 4747561509943, 18446744073709551359, true, 11037526539650488563);
    lemma_powmod_step(7, 31, 11037526539650488563, 18446744073709551359, true, 2644878139384909158);
    lemma_powmod_step(7, 63, 2644878139384909158, 18446744073709551359, true, 16576655485267657982);
    lemma_powmod_step(7, 127, 16576655485267657982, 18446744073709551359, true, 14753863492635152646);
    lemma_powmod_step(7, 255, 14753863492635152646, 18446744073709551359, false, 15846250556480176604);
    lemma_powmod_step(7, 510, 15846250556480176604, 18446744073709551359, false, 11951594638182554731);
    lemma_powmod_step(7, 1020, 11951594638182554731, 18446744073709551359, false, 7492337780596692625);
    lemma_powmod_step(7, 2040, 7492337780596692625, 18446744073709551359, false, 14430653304795936882);
    lemma_powmod_step(7, 4080, 14430653304795936882, 18446744073709551359, false, 16300741935224845663);
    lemma_powmod_step(7, 8160, 16300741935224845663, 18446744073709551359, false, 13039042730079850214);
    lemma_powmod_step(7, 16320, 13039042730079850214, 18446744073709551359, false, 9192287256914999344);
    lemma_powmod_step(7, 32640, 9192287256914999344, 18446744073709551359, false, 11752073072495738330);
    lemma_powmod_step(7, 65280, 11752073072495738330, 18446744073709551359, true, 831946715551024007);
    lemma_powmod_step(7, 130561, 831946715551024007, 18446744073709551359, true, 10778640988676434316);
    lemma_powmod_step(7, 261123, 10778640988676434316, 18446744073709551359, true, 12525412056314894782);
    lemma_powmod_step(7, 522247, 12525412056314894782, 18446744073709551359, true, 5245137488069465442);
    lemma_powmod_step(7, 1044495, 5245137488069465442, 18446744073709551359, true, 11629034056941437966);
    lemma_powmod_step(7, 2088991, 11629034056941437966, 18446744073709551359, true, 1554746825549643289);
    lemma_powmod_step(7, 4177983, 1554746825549643289, 18446744073709551359, true, 260180472905568358);
    lemma_powmod_step(7, 8355967, 260180472905568358, 18446744073709551359, true, 1204454580301767326);
    lemma_powmod_step(7, 16711935, 1204454580301767326, 18446744073709551359, false, 18378337868116499144);
    lemma_powmod_step(7, 33423870, 18378337868116499144, 18446744073709551359, false, 8103697040703341218);
    lemma_powmod_step(7, 66847740, 8103697040703341218, 18446744073709551359, false, 4366935761384139414);
    lemma_powmod_step(7, 133695480, 4366935761384139414, 18446744073709551359, false, 1431668176829693694);
    lemma_powmod_step(7, 267390960, 1431668176829693694, 18446744073709551359, false, 4524363967368734898);
    lemma_powmod_step(7, 534781920, 4524363967368734898, 18446744073709551359, false, 13946363582345362072);
    lemma_powmod_step(7, 1069563840, 13946363582345362072, 18446744073709551359, false, 5836995087447292785);
    lemma_powmod_step(7, 2139127680, 5836995087447292785, 18446744073709551359, false, 9244230205369151458);
    lemma_powmod_step(7, 4278255360, 9244230205369151458, 18446744073709551359, true, 1165538283934602021);
    lemma_powmod_step(7, 8556510721, 1165538283934602021, 18446744073709551359, true, 17811634741470845488);
    lemma_powmod_step(7, 17113021443, 17811634741470845488, 18446744073709551359, true, 14393839078807356298);
    lemma_powmod_step(7, 34226042887, 14393839078807356298, 18446744073709551359, true, 4398145414132129917);
    lemma_powmod_step(7, 68452085775, 4398145414132129917, 18446744073709551359, true, 11574973115156013847);
    lemma_powmod_step(7, 136904171551, 11574973115156013847, 18446744073709551359, true, 952595570349666664);
    lemma_powmod_step(7, 273808343103, 952595570349666664, 18446744073709551359, true, 11631606976193877339);
    lemma_powmod_step(7, 547616686207, 11631606976193877339, 18446744073709551359, true, 14352681538994669382);
    lemma_powmod_step(7, 1095233372415, 14352681538994669382, 18446744073709551359, false, 13537500566063790720);
    lemma_powmod_step(7, 2190466744830, 13537500566063790720, 18446744073709551359, false, 16597179968165323107);
    lemma_powmod_step(7, 4380933489660, 16597179968165323107, 18446744073709551359, false, 8681375294148258310);
    lemma_powmod_step(7, 8761866979320, 8681375294148258310, 18446744073709551359, false, 1178559146009650354);
    lemma_powmod_step(7, 17523733958640, 1178559146009650354, 18446744073709551359, false, 15295934661753049457);
    lemma_powmod_step(7, 35047467917280, 15295934661753049457, 18446744073709551359, false, 13098142114190178569);
    lemma_powmod_step(7, 70094935834560, 13098142114190178569, 18446744073709551359, false, 14222077219502274562);
    lemma_powmod_step(7, 140189871669120, 14222077219502274562, 18446744073709551359, false, 14046664185818056018);
    lemma_powmod_step(7, 280379743338240, 14046664185818056018, 18446744073709551359, true, 11800077351937387253);
    lemma_powmod_step(7, 560759486676481, 11800077351937387253, 18446744073709551359, true, 12098234045953660054);
    lemma_powmod_step(7, 1121518973352963, 12098234045953660054, 18446744073709551359, true, 16761964216199471933);
    lemma_powmod_step(7, 2243037946705927, 16761964216199471933, 18446744073709551359, true, 4136443724345307795);
    lemma_powmod_step(7, 4486075893411855, 4136443724345307795, 18446744073709551359, true, 18311402695077591817);
    lemma_powmod_step(7, 8972151786823711, 18311402695077591817, 18446744073709551359, true, 6198152902836920830);
    lemma_powmod_step(7, 17944303573647423, 6198152902836920830, 18446744073709551359, true, 17885911101207178668);
    lemma_powmod_step(7, 35888607147294847, 17885911101207178668, 18446744073709551359, false, 18131942315876480809);
}

/// 7^1113838 mod 18446744073709551359.
proof fn lemma_pow_p_7_10feee()
    ensures
        pow(7, 1113838) % 18446744073709551359 == 18433165761898847542,
{
    lemma_powmod_start(7, 18446744073709551359);
    lemma_powmod_step(7, 1, 7, 18446744073709551359, false, 49);
    lemma_powmod_step(7, 2, 49, 18446744073709551359, false, 2401);
    lemma_powmod_step(7, 4, 2401, 18446744073709551359, false, 5764801);
    lemma_powmod_step(7, 8, 5764801, 18446744073709551359, false, 33232930569601);
    lemma_powmod_step(7, 16, 33232930569601, 18446744073709551359, true, 5883222305296950176);
    lemma_powmod_step(7, 33, 5883222305296950176, 18446744073709551359, true, 4672451307081220862);
    lemma_powmod_step(7, 67, 4672451307081220862, 18446744073709551359, true, 12947051141752257880);
    lemma_powmod_step(7, 135, 12947051141752257880, 18446744073709551359, true, 16696898572588308631);
    lemma_powmod_step(7, 271, 16696898572588308631, 18446744073709551359, true, 14431275078726763083);
    lemma_powmod_step(7, 543, 14431275078726763083, 18446744073709551359, true, 9403325233952781846);
    lemma_powmod_step(7, 1087, 9403325233952781846, 18446744073709551359, true, 1077554335294217109);
    lemma_powmod_step(7, 2175, 1077554335294217109, 18446744073709551359, false, 13406673435459030348);
    lemma_powmod_step(7, 4350, 13406673435459030348, 18446744073709551359, true, 14983098186525868914);
    lemma_powmod_step(7, 8701, 14983098186525868914, 18446744073709551359, true, 6153765429622075450);
    lemma_powmod_step(7, 17403, 6153765429622075450, 18446744073709551359, true, 1229594850801042002);
    lemma_powmod_step(7, 34807, 1229594850801042002, 18446744073709551359, false, 5735334434022553860);
    lemma_powmod_step(7, 69614, 5735334434022553860, 18446744073709551359, true, 13304373722366836041);
    lemma_powmod_step(7, 139229, 13304373722366836041, 18446744073709551359, true, 15982742183440570661);
    lemma_powmod_step(7, 278459, 15982742183440570661, 18446744073709551359, true, 11718852228209179340);
    lemma_powmod_step(7, 556919, 11718852228209179340, 18446744073709551359, false, 18433165761898847542);
}

/// The prime factors of 18446744073709551359 - 1, with multiplicity.
pub open spec fn factors_p() -> Seq<int> {
    seq![2int] + (seq![11int] + (seq![197int] + (seq![257int] + (seq![16561424618041int] + (Seq::<int>::empty())))))
}

/// 18446744073709551359 is prime: Lucas certificate with witness 7.
pub proof fn lemma_prime_p()
    ensures
        is_prime(18446744073709551359),
        lucas_certificate(18446744073709551359, 7, factors_p()),
{
    let fl = factors_p();
    lemma_pow_p_7_fffffffffffffefe();
    lemma_pow_p_7_7fffffffffffff7f();
    lemma_prime_two();
    lemma_pow_p_7_1745d1745d1745ba();
    lemma_prime_11();
    lemma_pow_p_7_14cab88725af6e6();
    lemma_prime_197();
    lemma_pow_p_7_ff00ff00ff00fe();
    lemma_prime_257();
    lemma_pow_p_7_10feee();
    lemma_prime_16561424618041();
    lemma_product_prepend(2, seq![11int] + (seq![197int] + (seq![257int] + (seq![16561424618041int] + (Seq::<int>::empty())))));
    lemma_product_prepend(11, seq![197int] + (seq![257int] + (seq![16561424618041int] + (Seq::<int>::empty()))));
    lemma_product_prepend(197, seq![257int] + (seq![16561424618041int] + (Seq::<int>::empty())));
    lemma_product_prepend(257, seq![16561424618041int] + (Seq::<int>::empty()));
    lemma_product_prepend(16561424618041, Seq::<int>::empty());
    assert forall|i: int| 0 <= i < fl.len() implies is_prime(#[trigger] fl[i]) && pow(7, ((18446744073709551359 - 1) / fl[i]) as nat) % 18446744073709551359 != 1 by {
        if i == 0 {
            assert(fl[0] == 2);
            assert((18446744073709551359 - 1) / fl[0] == 9223372036854775679);
        } else if i == 1 {
            assert(fl[1] == 11);
            assert((18446744073709551359 - 1) / fl[1] == 1676976733973595578);
        } else if i == 2 {
            assert(fl[2] == 197);
            assert((18446744073709551359 - 1) / fl[2] == 93638294790403814);
        } else if i == 3 {
            assert(fl[3] == 257);
            assert((18446744073709551359 - 1) / fl[3] == 71777214294589694);
        } else if i == 4 {
            assert(fl[4] == 16561424618041);
            assert((18446744073709551359 - 1) / fl[4] == 1113838);
        }
    }
    lemma_lucas(18446744073709551359, 7, fl);
}

/// 43^170141183460469231731687303715884105726 mod 170141183460469231731687303715884105727.
proof fn lemma_pow_q_43_7ffffffffffffffffffffffffffffffe()
    ensures
        pow(43, 170141183460469231731687303715884105726) % 170141183460469231731687303715884105727 == 1,
{
    lemma_powmod_start(43, 170141183460469231731687303715884105727);
    lemma_powmod_step(43, 1, 43, 170141183460469231731687303715884105727, true, 79507);
    lemma_powmod_step(43, 3, 79507, 170141183460469231731687303715884105727, true, 271818611107);
    lemma_powmod_step(43, 7, 271818611107, 170141183460469231731687303715884105727, true, 3177070365797955661914307);
    lemma_powmod_step(43, 15, 3177070365797955661914307, 170141183460469231731687303715884105727, true, 56568070023695359990500550327218479315);
    lemma_powmod_step(43, 31, 56568070023695359990500550327218479315, 170141183460469231731687303715884105727, true, 61960166551741667787739981081338320860);
    lemma_powmod_step(43, 63, 61960166551741667787739981081338320860, 170141183460469231731687303715884105727, true, 58375632151053414357643159980486117466);
    lemma_powmod_step(43, 127, 58375632151053414357643159980486117466, 170141183460469231731687303715884105727, true, 119262445052343785175618024440886006444);
    lemma_powmod_step(43, 255, 119262445052343785175618024440886006444, 170141183460469231731687303715884105727, true, 52175705694797586812492262130533497521);
    lemma_powmod_step(43, 511, 52175705694797586812492262130533497521, 170141183460469231731687303715884105727, true, 95774030102515046384173703573323339402);
    lemma_powmod_step(43, 1023, 95774030102515046384173703573323339402, 170141183460469231731687303715884105727, true, 166169191506816855562576256557490244648);
    lemma_powmod_step(43, 2047, 166169191506816855562576256557490244648, 170141183460469231731687303715884105727, true, 148025477903940845575196845658253669416);
    lemma_powmod_step(43, 4095, 148025477903940845575196845658253669416, 170141183460469231731687303715884105727, true, 111344140379421719232727878559938701781);
    lemma_powmod_step(43, 8191, 111344140379421719232727878559938701781, 170141183460469231731687303715884105727, true, 25624989453420039361189377107306591530);
    lemma_powmod_step(43, 16383, 25624989453420039361189377107306591530, 170141183460469231731687303715884105727, true, 13536668934747398752617946967960204254);
    lemma_powmod_step(43, 32767, 13536668934747398752617946967960204254, 170141183460469231731687303715884105727, true, 11154126904421174707802609550849548204);
    lemma_powmod_step(43, 65535, 11154126904421174707802609550849548204, 170141183460469231731687303715884105727, true, 72911873577050727845128014200970233359);
    lemma_powmod_step(43, 131071, 72911873577050727845128014200970233359, 170141183460469231731687303715884105727, true, 71455031214082449480392106703997506084);
    lemma_powmod_step(43, 262143, 71455031214082449480392106703997506084, 170141183460469231731687303715884105727, true, 122348492262964286127650001747178933229);
    lemma_powmod_step(43, 524287, 122348492262964286127650001747178933229, 170141183460469231731687303715884105727, true, 98878806350035536809194488770530716128);
    lemma_powmod_step(43, 1048575, 98878806350035536809194488770530716128, 170141183460469231731687303715884105727, true, 146868329185458133476197648487782595119);
    lemma_powmod_step(43, 2097151, 146868329185458133476197648487782595119, 170141183460469231731687303715884105727, true, 51488503944750459389634110865692265291);
    lemma_powmod_step(43, 4194303, 51488503944750459389634110865692265291, 170141183460469231731687303715884105727, true, 57589584595150171262691681572633345647);
    lemma_powmod_step(43, 8388607, 57589584595150171262691681572633345647, 170141183460469231731687303715884105727, true, 137714831221465791400374300672919602764);
    lemma_powmod_step(43, 16777215, 137714831221465791400374300672919602764, 170141183460469231731687303715884105727, true, 128798933105292187210892759332229748298);
    lemma_powmod_step(43, 33554431, 128798933105292187210892759332229748298, 170141183460469231731687303715884105727, true, 35940995488564934216070975784159467518);
    lemma_powmod_step(43, 67108863, 35940995488564934216070975784159467518, 170141183460469231731687303715884105727, true, 136528662153028636685768595427665383365);
    lemma_powmod_step(43, 134217727, 136528662153028636685768595427665383365, 170141183460469231731687303715884105727, true, 154201522509155740817943335436205856018);
    lemma_powmod_step(43, 268435455, 154201522509155740817943335436205856018, 170141183460469231731687303715884105727, true, 44800457768943692928459622549229197413);
    lemma_powmod_step(43, 536870911, 44800457768943692928459622549229197413, 170141183460469231731687303715884105727, true, 3628007683774020503416495822775819549);
    lemma_powmod_step(43, 1073741823, 3628007683774020503416495822775819549, 170141183460469231731687303715884105727, true, 74939550061831661560824364006437114221);
    lemma_powmod_step(43, 2147483647, 74939550061831661560824364006437114221, 170141183460469231731687303715884105727, true, 55394215472090089199619997750620821969);
    lemma_powmod_step(43, 4294967295, 55394215472090089199619997750620821969, 170141183460469231731687303715884105727, true, 7920475494712364689478783711246979117);
    lemma_powmod_step(43, 8589934591, 7920475494712364689478783711246979117, 170141183460469231731687303715884105727, true, 76300895228901126294776937894991391908);
    lemma_powmod_step(43, 17179869183, 76300895228901126294776937894991391908, 170141183460469231731687303715884105727, true, 85021543538926035857965082269504914751);
    lemma_powmod_step(43, 34359738367, 85021543538926035857965082269504914751, 170141183460469231731687303715884105727, true, 12483256301404763469369281397415793117);
    lemma_powmod_step(43, 68719476735, 12483256301404763469369281397415793117, 170141183460469231731687303715884105727, true, 48847864744578708955543912909047255830);
    lemma_powmod_step(43, 137438953471, 48847864744578708955543912909047255830, 170141183460469231731687303715884105727, true, 70631268315305597540627983464231077996);
    lemma_powmod_step(43, 274877906943, 70631268315305597540627983464231077996, 170141183460469231731687303715884105727, true, 115614853526131875707738898302565117016);
    lemma_powmod_step(43, 549755813887, 115614853526131875707738898302565117016, 170141183460469231731687303715884105727, true, 166288646842520936936266564222402815777);
    lemma_powmod_step(43, 1099511627775, 166288646842520936936266564222402815777, 170141183460469231731687303715884105727, true, 150165835890053185098356073442869155579);
    lemma_powmod_step(43, 2199023255551, 150165835890053185098356073442869155579, 170141183460469231731687303715884105727, true, 66177288564363721486584133756789093523);
    lemma_powmod_step(43, 4398046511103, 66177288564363721486584133756789093523, 170141183460469231731687303715884105727, true, 125271628904234031748837259731669898194);
    lemma_powmod_step(43, 8796093022207, 125271628904234031748837259731669898194, 170141183460469231731687303715884105727, true, 113409050406791693810256686568099336098);
    lemma_powmod_step(43, 17592186044415, 113409050406791693810256686568099336098, 170141183460469231731687303715884105727, true, 34917592858583070081244906115852767540);
    lemma_powmod_step(43, 35184372088831, 34917592858583070081244906115852767540, 170141183460469231731687303715884105727, true, 12087492648732798294497581921612585);
    lemma_powmod_step(43, 70368744177663, 12087492648732798294497581921612585, 170141183460469231731687303715884105727, true, 78176147943275379662763007611126102763);
    lemma_powmod_step(43, 140737488355327, 78176147943275379662763007611126102763, 170141183460469231731687303715884105727, true, 48849205712902226006418956857567455224);
    lemma_powmod_step(43, 281474976710655, 48849205712902226006418956857567455224, 170141183460469231731687303715884105727, true, 91142824554104546209440267276786314166);
    lemma_powmod_step(43, 562949953421311, 91142824554104546209440267276786314166, 170141183460469231731687303715884105727, true, 113307513976167966183767365682075769450);
    lemma_powmod_step(43, 1125899906842623, 113307513976167966183767365682075769450, 170141183460469231731687303715884105727, true, 66435468498305421894346453398192067017);
    lemma_powmod_step(43, 2251799813685247, 66435468498305421894346453398192067017, 170141183460469231731687303715884105727, true, 7622065191874701072838973058270105510);
    lemma_powmod_step(43, 4503599627370495, 7622065191874701072838973058270105510, 170141183460469231731687303715884105727, true, 162765330756351535601040277246467657271);
    lemma_powmod_step(43, 9007199254740991, 162765330756351535601040277246467657271, 170141183460469231731687303715884105727, true, 113635760041654429446495112655851952310);
    lemma_powmod_step(43, 18014398509481983, 113635760041654429446495112655851952310, 170141183460469231731687303715884105727, true, 10259657087520175495115185174019815742);
    lemma_powmod_step(43, 36028797018963967, 10259657087520175495115185174019815742, 170141183460469231731687303715884105727, true, 49202694794314544928414657749986141439);
    lemma_powmod_step(43, 72057594037927935, 49202694794314544928414657749986141439, 170141183460469231731687303715884105727, true, 64143010902392020907235715367694422991);
    lemma_powmod_step(43, 144115188075855871, 64143010902392020907235715367694422991, 170141183460469231731687303715884105727, true, 18581424964371967529687305517710482574);
    lemma_powmod_step(43, 288230376151711743, 18581424964371967529687305517710482574, 170141183460469231731687303715884105727, true, 63961933772060054940266144316768990399);
    lemma_powmod_step(43, 576460752303423487, 63961933772060054940266144316768990399, 170141183460469231731687303715884105727, true, 158051982916107690129822352607205350254);
    lemma_powmod_step(43, 1152921504606846975, 158051982916107690129822352607205350254, 170141183460469231731687303715884105727, true, 73716876846302724326157393512561658336);
    lemma_powmod_step(43, 2305843009213693951, 73716876846302724326157393512561658336, 170141183460469231731687303715884105727, true, 129731567068878583126771581655202520485);
    lemma_powmod_step(43, 4611686018427387903, 129731567068878583126771581655202520485, 170141183460469231731687303715884105727, true, 128267133807234941747365005056077993697);
    lemma_powmod_step(43, 9223372036854775807, 128267133807234941747365005056077993697, 170141183460469231731687303715884105727, true, 18524392888157535484761145789945927787);
    lemma_powmod_step(43, 18446744073709551615, 18524392888157535484761145789945927787, 170141183460469231731687303715884105727, true, 169137214693436208324777024149973360084);
    lemma_powmod_step(43, 36893488147419103231, 169137214693436208324777024149973360084, 170141183460469231731687303715884105727, true, 84206902351430951130494829500284070343);
    lemma_powmod_step(43, 73786976294838206463, 84206902351430951130494829500284070343, 170141183460469231731687303715884105727, true, 157409933146512978486235537408166907153);
    lemma_powmod_step(43, 147573952589676412927, 157409933146512978486235537408166907153, 170141183460469231731687303715884105727, true, 58833768967779051393110366867300497000);
    lemma_powmod_step(43, 295147905179352825855, 58833768967779051393110366867300497000, 170141183460469231731687303715884105727, true, 100659749739037297302090166451217136);
    lemma_powmod_step(43, 590295810358705651711, 100659749739037297302090166451217136, 170141183460469231731687303715884105727, true, 150858285265448372361069742376821729908);
    lemma_powmod_step(43, 1180591620717411303423, 150858285265448372361069742376821729908, 170141183460469231731687303715884105727, true, 77022401203106128477776983708169914323);
    lemma_powmod_step(43, 2361183241434822606847, 77022401203106128477776983708169914323, 170141183460469231731687303715884105727, true, 111334019114587680175762747335577961173);
    lemma_powmod_step(43, 4722366482869645213695, 111334019114587680175762747335577961173, 170141183460469231731687303715884105727, true, 124851052791398338172377432118746821776);
    lemma_powmod_step(43, 9444732965739290427391, 124851052791398338172377432118746821776, 170141183460469231731687303715884105727, true, 3626440595889798956112396854462571228);
    lemma_powmod_step(43, 18889465931478580854783, 3626440595889798956112396854462571228, 170141183460469231731687303715884105727, true, 80005422359967542739875108751015168340);
    lemma_powmod_step(43, 37778931862957161709567, 80005422359967542739875108751015168340, 170141183460469231731687303715884105727, true, 152862474767353921195799076542781421953);
    lemma_powmod_step(43, 75557863725914323419135, 152862474767353921195799076542781421953, 170141183460469231731687303715884105727, true, 41418451302770144331904703239491319993);
    lemma_powmod_step(43, 151115727451828646838271, 41418451302770144331904703239491319993, 170141183460469231731687303715884105727, true, 141010792162174095680762040195020708802);
    lemma_powmod_step(43, 302231454903657293676543, 141010792162174095680762040195020708802, 170141183460469231731687303715884105727, true, 123033855369953811369355293327148037517);
    lemma_powmod_step(43, 604462909807314587353087, 123033855369953811369355293327148037517, 170141183460469231731687303715884105727, true, 39287435768234703272772921729450823967);
    lemma_powmod_step(43, 1208925819614629174706175, 39287435768234703272772921729450823967, 170141183460469231731687303715884105727, true, 166036959714245969183140184987863991237);
    lemma_powmod_step(43, 2417851639229258349412351, 166036959714245969183140184987863991237, 170141183460469231731687303715884105727, true, 88345429904876255400559498222617229439);
    lemma_powmod_step(43, 4835703278458516698824703, 88345429904876255400559498222617229439, 170141183460469231731687303715884105727, true, 23421100805305670192887174935168319385);
    lemma_powmod_step(43, 9671406556917033397649407, 23421100805305670192887174935168319385, 170141183460469231731687303715884105727, true, 93699352149503829141618058053362483122);
    lemma_powmod_step(43, 19342813113834066795298815, 93699352149503829141618058053362483122, 170141183460469231731687303715884105727, true, 37713598745328210673080325656621368167);
    lemma_powmod_step(43, 38685626227668133590597631, 37713598745328210673080325656621368167, 170141183460469231731687303715884105727, true, 32412368368375091642722499327753815240);
    lemma_powmod_step(43, 77371252455336267181195263, 32412368368375091642722499327753815240, 170141183460469231731687303715884105727, true, 165209901001501898905468728523125575749);
    lemma_powmod_step(43, 154742504910672534362390527, 165209901001501898905468728523125575749, 170141183460469231731687303715884105727, true, 153156515554266463463007822659633833277);
    lemma_powmod_step(43, 309485009821345068724781055, 153156515554266463463007822659633833277, 170141183460469231731687303715884105727, true, 106559360178677919295859756717778822190);
    lemma_powmod_step(43, 618970019642690137449562111, 106559360178677919295859756717778822190, 170141183460469231731687303715884105727, true, 58117828415879906108174055385551979058);
    lemma_powmod_step(43, 1237940039285380274899124223, 58117828415879906108174055385551979058, 170141183460469231731687303715884105727, true, 3841934387073633065158291664031153845);
    lemma_powmod_step(43, 2475880078570760549798248447, 3841934387073633065158291664031153845, 170141183460469231731687303715884105727, true, 104022937768919245854712153407079386455);
    lemma_powmod_step(43, 4951760157141521099596496895, 104022937768919245854712153407079386455, 170141183460469231731687303715884105727, true, 48868678432133389647533694110557347370);
    lemma_powmod_step(43, 9903520314283042199192993791, 48868678432133389647533694110557347370, 170141183460469231731687303715884105727, true, 12438116887495513404892028847759090390);
    lemma_powmod_step(43, 19807040628566084398385987583, 12438116887495513404892028847759090390, 170141183460469231731687303715884105727, true, 161415063130667923028932575033089088576);
    lemma_powmod_step(43, 39614081257132168796771975167, 161415063130667923028932575033089088576, 170141183460469231731687303715884105727, true, 97830088843294230082835727708207329901);
    lemma_powmod_step(43, 79228162514264337593543950335, 97830088843294230082835727708207329901, 170141183460469231731687303715884105727, true, 162636020996139945307113159425589018624);
    lemma_powmod_step(43, 158456325028528675187087900671, 162636020996139945307113159425589018624, 170141183460469231731687303715884105727, true, 32996891853004899122980317325129754195);
    lemma_powmod_step(43, 316912650057057350374175801343, 32996891853004899122980317325129754195, 170141183460469231731687303715884105727, true, 105442432097100402184263246850649896528);
    lemma_powmod_step(43, 633825300114114700748351602687, 105442432097100402184263246850649896528, 170141183460469231731687303715884105727, true, 154834744824312780996148827410460042462);
    lemma_powmod_step(43, 1267650600228229401496703205375, 154834744824312780996148827410460042462, 170141183460469231731687303715884105727, true, 92624280399288563700101566946848020482);
    lemma_powmod_step(43, 2535301200456458802993406410751, 92624280399288563700101566946848020482, 170141183460469231731687303715884105727, true, 72793827331891401996431044884295686613);
    lemma_powmod_step(43, 5070602400912917605986812821503, 72793827331891401996431044884295686613, 170141183460469231731687303715884105727, true, 750064203646069821580218903936736952);
    lemma_powmod_step(43, 10141204801825835211973625643007, 750064203646069821580218903936736952, 170141183460469231731687303715884105727, true, 144146388439200812830279387970661394741);
    lemma_powmod_step(43, 20282409603651670423947251286015, 144146388439200812830279387970661394741, 170141183460469231731687303715884105727, true, 20761911633154228817114617268148862436);
    lemma_powmod_step(43, 40564819207303340847894502572031, 20761911633154228817114617268148862436, 170141183460469231731687303715884105727, true, 162361400963645925127777963489183967333);
    lemma_powmod_step(43, 81129638414606681695789005144063, 162361400963645925127777963489183967333, 170141183460469231731687303715884105727, true, 60718729130049332760908249203406955855);
    lemma_powmod_step(43, 162259276829213363391578010288127, 60718729130049332760908249203406955855, 170141183460469231731687303715884105727, true, 152793311198027638248184387192221246156);
    lemma_powmod_step(43, 324518553658426726783156020576255, 152793311198027638248184387192221246156, 170141183460469231731687303715884105727, true, 18933894460821357181705467656047965998);
    lemma_powmod_step(43, 649037107316853453566312041152511, 18933894460821357181705467656047965998, 170141183460469231731687303715884105727, true, 4508225565154808138224386449336026601);
    lemma_powmod_step(43, 1298074214633706907132624082305023, 4508225565154808138224386449336026601, 170141183460469231731687303715884105727, true, 97462740068878861837045792709879725211);
    lemma_powmod_step(43, 2596148429267413814265248164610047, 97462740068878861837045792709879725211, 170141183460469231731687303715884105727, true, 145889712287083048913091573036136312440);
    lemma_powmod_step(43, 5192296858534827628530496329220095, 145889712287083048913091573036136312440, 170141183460469231731687303715884105727, true, 5199831989408359989969892233482978795);
    lemma_powmod_step(43, 10384593717069655257060992658440191, 5199831989408359989969892233482978795, 170141183460469231731687303715884105727, true, 96806524622651543975576573672666057910);
    lemma_powmod_step(43, 20769187434139310514121985316880383, 96806524622651543975576573672666057910, 170141183460469231731687303715884105727, true, 78048426757691615455212622924438972865);
    lemma_powmod_step(43, 41538374868278621028243970633760767, 78048426757691615455212622924438972865, 170141183460469231731687303715884105727, true, 50017135682483274071183350536255015639);
    lemma_powmod_step(43, 83076749736557242056487941267521535, 50017135682483274071183350536255015639, 170141183460469231731687303715884105727, true, 73565947718235075354698410064721987297);
    lemma_powmod_step(43, 166153499473114484112975882535043071, 73565947718235075354698410064721987297, 170141183460469231731687303715884105727, true, 55060031853648400016348970174583676192);
    lemma_powmod_step(43, 332306998946228968225951765070086143, 55060031853648400016348970174583676192, 170141183460469231731687303715884105727, true, 140706876573680649025373565729105613805);
    lemma_powmod_step(43, 664613997892457936451903530140172287, 140706876573680649025373565729105613805, 170141183460469231731687303715884105727, true, 55251205259300629173548583641705986415);
    lemma_powmod_step(43, 1329227995784915872903807060280344575, 55251205259300629173548583641705986415, 170141183460469231731687303715884105727, true, 74585868103907880933065484308366876368);
    lemma_powmod_step(43, 2658455991569831745807614120560689151, 74585868103907880933065484308366876368, 170141183460469231731687303715884105727, true, 95402789904748143187415917212008101822);
    lemma_powmod_step(43, 5316911983139663491615228241121378303, 95402789904748143187415917212008101822, 170141183460469231731687303715884105727, true, 85885649268677716044155665641858902412);
    lemma_powmod_step(43, 10633823966279326983230456482242756607, 85885649268677716044155665641858902412, 170141183460469231731687303715884105727, true, 27903316220380121255565622761880584345);
    lemma_powmod_step(43, 21267647932558653966460912964485513215, 27903316220380121255565622761880584345, 170141183460469231731687303715884105727, true, 21437436323531581146437925376388006152);
    lemma_powmod_step(43, 42535295865117307932921825928971026431, 21437436323531581146437925376388006152, 170141183460469231731687303715884105727, true, 170141183460469231731687303715884105726);
    lemma_powmod_step(43, 85070591730234615865843651857942052863, 170141183460469231731687303715884105726, 170141183460469231731687303715884105727, false, 1);
}

/// 43^85070591730234615865843651857942052863 mod 170141183460469231731687303715884105727.
proof fn lemma_pow_q_43_3fffffffffffffffffffffffffffffff()
    ensures
        pow(43, 85070591730234615865843651857942052863) % 170141183460469231731687303715884105727 == 170141183460469231731687303715884105726,
{
    lemma_powmod_start(43, 170141183460469231731687303715884105727);
    lemma_powmod_step(43, 1, 43, 170141183460469231731687303715884105727, true, 79507);
    lemma_powmod_step(43, 3, 79507, 170141183460469231731687303715884105727, true, 271818611107);
    lemma_powmod_step(43, 7, 271818611107, 170141183460469231731687303715884105727, true, 3177070365797955661914307);
    lemma_powmod_step(43, 15, 3177070365797955661914307, 170141183460469231731687303715884105727, true, 56568070023695359990500550327218479315);
    lemma_powmod_step(43, 31, 56568070023695359990500550327218479315, 170141183460469231731687303715884105727, true, 61960166551741667787739981081338320860);
    lemma_powmod_step(43, 63, 61960166551741667787739981081338320860, 170141183460469231731687303715884105727, true, 58375632151053414357643159980486117466);
    lemma_powmod_step(43, 127, 58375632151053414357643159980486117466, 170141183460469231731687303715884105727, true, 119262445052343785175618024440886006444);
    lemma_powmod_step(43, 255, 119262445052343785175618024440886006444, 170141183460469231731687303715884105727, true, 52175705694797586812492262130533497521);
    lemma_powmod_step(43, 511, 52175705694797586812492262130533497521, 170141183460469231731687303715884105727, true, 95774030102515046384173703573323339402);
    lemma_powmod_step(43, 1023, 95774030102515046384173703573323339402, 170141183460469231731687303715884105727, true, 166169191506816855562576256557490244648);
    lemma_powmod_step(43, 2047, 166169191506816855562576256557490244648, 170141183460469231731687303715884105727, true, 148025477903940845575196845658253669416);
    lemma_powmod_step(43, 4095, 148025477903940845575196845658253669416, 170141183460469231731687303715884105727, true, 111344140379421719232727878559938701781);
    lemma_powmod_step(43, 8191, 111344140379421719232727878559938701781, 170141183460469231731687303715884105727, true, 25624989453420039361189377107306591530);
    lemma_powmod_step(43, 16383, 25624989453420039361189377107306591530, 170141183460469231731687303715884105727, true, 13536668934747398752617946967960204254);
    lemma_powmod_step(43, 32767, 13536668934747398752617946967960204254, 170141183460469231731687303715884105727, true, 11154126904421174707802609550849548204);
    lemma_powmod_step(43, 65535, 11154126904421174707802609550849548204, 170141183460469231731687303715884105727, true, 72911873577050727845128014200970233359);
    lemma_powmod_step(43, 131071, 72911873577050727845128014200970233359, 170141183460469231731687303715884105727, true, 71455031214082449480392106703997506084);
    lemma_powmod_step(43, 262143, 71455031214082449480392106703997506084, 170141183460469231731687303715884105727, true, 122348492262964286127650001747178933229);
    lemma_powmod_step(43, 524287, 122348492262964286127650001747178933229, 170141183460469231731687303715884105727, true, 98878806350035536809194488770530716128);
    lemma_powmod_step(43, 1048575, 98878806350035536809194488770530716128, 170141183460469231731687303715884105727, true, 146868329185458133476197648487782595119);
    lemma_powmod_step(43, 2097151, 146868329185458133476197648487782595119, 170141183460469231731687303715884105727, true, 51488503944750459389634110865692265291);
    lemma_powmod_step(43, 4194303, 51488503944750459389634110865692265291, 170141183460469231731687303715884105727, true, 57589584595150171262691681572633345647);
    lemma_powmod_step(43, 8388607, 57589584595150171262691681572633345647, 170141183460469231731687303715884105727, true, 137714831221465791400374300672919602764);
    lemma_powmod_step(43, 16777215, 137714831221465791400374300672919602764, 170141183460469231731687303715884105727, true, 128798933105292187210892759332229748298);
    lemma_powmod_step(43, 33554431, 128798933105292187210892759332229748298, 170141183460469231731687303715884105727, true, 35940995488564934216070975784159467518);
    lemma_powmod_step(43, 67108863, 35940995488564934216070975784159467518, 170141183460469231731687303715884105727, true, 136528662153028636685768595427665383365);
    lemma_powmod_step(43, 134217727, 136528662153028636685768595427665383365, 170141183460469231731687303715884105727, true, 154201522509155740817943335436205856018);
    lemma_powmod_step(43, 268435455, 154201522509155740817943335436205856018, 170141183460469231731687303715884105727, true, 44800457768943692928459622549229197413);
    lemma_powmod_step(43, 536870911, 44800457768943692928459622549229197413, 170141183460469231731687303715884105727, true, 3628007683774020503416495822775819549);
    lemma_powmod_step(43, 1073741823, 3628007683774020503416495822775819549, 170141183460469231731687303715884105727, true, 74939550061831661560824364006437114221);
    lemma_powmod_step(43, 2147483647, 74939550061831661560824364006437114221, 170141183460469231731687303715884105727, true, 55394215472090089199619997750620821969);
    lemma_powmod_step(43, 4294967295, 55394215472090089199619997750620821969, 170141183460469231731687303715884105727, true, 7920475494712364689478783711246979117);
    lemma_powmod_step(43, 8589934591, 7920475494712364689478783711246979117, 170141183460469231731687303715884105727, true, 76300895228901126294776937894991391908);
    lemma_powmod_step(43, 17179869183, 76300895228901126294776937894991391908, 170141183460469231731687303715884105727, true, 85021543538926035857965082269504914751);
    lemma_powmod_step(43, 34359738367, 85021543538926035857965082269504914751, 170141183460469231731687303715884105727, true, 12483256301404763469369281397415793117);
    lemma_powmod_step(43, 68719476735, 12483256301404763469369281397415793117, 170141183460469231731687303715884105727, true, 48847864744578708955543912909047255830);
    lemma_powmod_step(43, 137438953471, 48847864744578708955543912909047255830, 170141183460469231731687303715884105727, true, 70631268315305597540627983464231077996);
    lemma_powmod_step(43, 274877906943, 70631268315305597540627983464231077996, 170141183460469231731687303715884105727, true, 115614853526131875707738898302565117016);
    lemma_powmod_step(43, 549755813887, 115614853526131875707738898302565117016, 170141183460469231731687303715884105727, true, 166288646842520936936266564222402815777);
    lemma_powmod_step(43, 1099511627775, 166288646842520936936266564222402815777, 170141183460469231731687303715884105727, true, 150165835890053185098356073442869155579);
    lemma_powmod_step(43, 2199023255551, 150165835890053185098356073442869155579, 170141183460469231731687303715884105727, true, 66177288564363721486584133756789093523);
    lemma_powmod_step(43, 4398046511103, 66177288564363721486584133756789093523, 170141183460469231731687303715884105727, true, 125271628904234031748837259731669898194);
    lemma_powmod_step(43, 8796093022207, 125271628904234031748837259731669898194, 170141183460469231731687303715884105727, true, 113409050406791693810256686568099336098);
    lemma_powmod_step(43, 17592186044415, 113409050406791693810256686568099336098, 170141183460469231731687303715884105727, true, 34917592858583070081244906115852767540);
    lemma_powmod_step(43, 35184372088831, 34917592858583070081244906115852767540, 170141183460469231731687303715884105727, true, 12087492648732798294497581921612585);
    lemma_powmod_step(43, 70368744177663, 12087492648732798294497581921612585, 170141183460469231731687303715884105727, true, 78176147943275379662763007611126102763);
    lemma_powmod_step(43, 140737488355327, 78176147943275379662763007611126102763, 170141183460469231731687303715884105727, true, 48849205712902226006418956857567455224);
    lemma_powmod_step(43, 281474976710655, 48849205712902226006418956857567455224, 170141183460469231731687303715884105727, true, 91142824554104546209440267276786314166);
    lemma_powmod_step(43, 562949953421311, 91142824554104546209440267276786314166, 170141183460469231731687303715884105727, true, 113307513976167966183767365682075769450);
    lemma_powmod_step(43, 1125899906842623, 113307513976167966183767365682075769450, 170141183460469231731687303715884105727, true, 66435468498305421894346453398192067017);
    lemma_powmod_step(43, 2251799813685247, 66435468498305421894346453398192067017, 170141183460469231731687303715884105727, true, 7622065191874701072838973058270105510);
    lemma_powmod_step(43, 4503599627370495, 7622065191874701072838973058270105510, 170141183460469231731687303715884105727, true, 162765330756351535601040277246467657271);
    lemma_powmod_step(43, 9007199254740991, 162765330756351535601040277246467657271, 170141183460469231731687303715884105727, true, 113635760041654429446495112655851952310);
    lemma_powmod_step(43, 18014398509481983, 113635760041654429446495112655851952310, 170141183460469231731687303715884105727, true, 10259657087520175495115185174019815742);
    lemma_powmod_step(43, 36028797018963967, 10259657087520175495115185174019815742, 170141183460469231731687303715884105727, true, 49202694794314544928414657749986141439);
    lemma_powmod_step(43, 72057594037927935, 49202694794314544928414657749986141439, 170141183460469231731687303715884105727, true, 64143010902392020907235715367694422991);
    lemma_powmod_step(43, 144115188075855871, 64143010902392020907235715367694422991, 170141183460469231731687303715884105727, true, 18581424964371967529687305517710482574);
    lemma_powmod_step(43, 288230376151711743, 18581424964371967529687305517710482574, 170141183460469231731687303715884105727, true, 63961933772060054940266144316768990399);
    lemma_powmod_step(43, 576460752303423487, 63961933772060054940266144316768990399, 170141183460469231731687303715884105727, true, 158051982916107690129822352607205350254);
    lemma_powmod_step(43, 1152921504606846975, 158051982916107690129822352607205350254, 170141183460469231731687303715884105727, true, 73716876846302724326157393512561658336);
    lemma_powmod_step(43, 2305843009213693951, 73716876846302724326157393512561658336, 170141183460469231731687303715884105727, true, 129731567068878583126771581655202520485);
    lemma_powmod_step(43, 4611686018427387903, 129731567068878583126771581655202520485, 170141183460469231731687303715884105727, true, 128267133807234941747365005056077993697);
    lemma_powmod_step(43, 9223372036854775807, 128267133807234941747365005056077993697, 170141183460469231731687303715884105727, true, 18524392888157535484761145789945927787);
    lemma_powmod_step(43, 18446744073709551615, 18524392888157535484761145789945927787, 170141183460469231731687303715884105727, true, 169137214693436208324777024149973360084);
    lemma_powmod_step(43, 36893488147419103231, 169137214693436208324777024149973360084, 170141183460469231731687303715884105727, true, 84206902351430951130494829500284070343);
    lemma_powmod_step(43, 73786976294838206463, 84206902351430951130494829500284070343, 170141183460469231731687303715884105727, true, 157409933146512978486235537408166907153);
    lemma_powmod_step(43, 147573952589676412927, 157409933146512978486235537408166907153, 170141183460469231731687303715884105727, true, 58833768967779051393110366867300497000);
    lemma_powmod_step(43, 295147905179352825855, 58833768967779051393110366867300497000, 170141183460469231731687303715884105727, true, 100659749739037297302090166451217136);
    lemma_powmod_step(43, 590295810358705651711, 100659749739037297302090166451217136, 170141183460469231731687303715884105727, true, 150858285265448372361069742376821729908);
    lemma_powmod_step(43, 1180591620717411303423, 150858285265448372361069742376821729908, 170141183460469231731687303715884105727, true, 77022401203106128477776983708169914323);
    lemma_powmod_step(43, 2361183241434822606847, 77022401203106128477776983708169914323, 170141183460469231731687303715884105727, true, 111334019114587680175762747335577961173);
    lemma_powmod_step(43, 4722366482869645213695, 111334019114587680175762747335577961173, 170141183460469231731687303715884105727, true, 124851052791398338172377432118746821776);
    lemma_powmod_step(43, 9444732965739290427391, 124851052791398338172377432118746821776, 170141183460469231731687303715884105727, true, 3626440595889798956112396854462571228);
    lemma_powmod_step(43, 18889465931478580854783, 3626440595889798956112396854462571228, 170141183460469231731687303715884105727, true, 80005422359967542739875108751015168340);
    lemma_powmod_step(43, 37778931862957161709567, 80005422359967542739875108751015168340, 170141183460469231731687303715884105727, true, 152862474767353921195799076542781421953);
    lemma_powmod_step(43, 75557863725914323419135, 152862474767353921195799076542781421953, 170141183460469231731687303715884105727, true, 41418451302770144331904703239491319993);
    lemma_powmod_step(43, 151115727451828646838271, 41418451302770144331904703239491319993, 170141183460469231731687303715884105727, true, 141010792162174095680762040195020708802);
    lemma_powmod_step(43, 302231454903657293676543, 141010792162174095680762040195020708802, 170141183460469231731687303715884105727, true, 123033855369953811369355293327148037517);
    lemma_powmod_step(43, 604462909807314587353087, 123033855369953811369355293327148037517, 170141183460469231731687303715884105727, true, 39287435768234703272772921729450823967);
    lemma_powmod_step(43, 1208925819614629174706175, 39287435768234703272772921729450823967, 170141183460469231731687303715884105727, true, 166036959714245969183140184987863991237);
    lemma_powmod_step(43, 2417851639229258349412351, 166036959714245969183140184987863991237, 170141183460469231731687303715884105727, true, 88345429904876255400559498222617229439);
    lemma_powmod_step(43, 4835703278458516698824703, 88345429904876255400559498222617229439, 170141183460469231731687303715884105727, true, 23421100805305670192887174935168319385);
    lemma_powmod_step(43, 9671406556917033397649407, 23421100805305670192887174935168319385, 170141183460469231731687303715884105727, true, 93699352149503829141618058053362483122);
    lemma_powmod_step(43, 19342813113834066795298815, 93699352149503829141618058053362483122, 170141183460469231731687303715884105727, true, 37713598745328210673080325656621368167);
    lemma_powmod_step(43, 38685626227668133590597631, 37713598745328210673080325656621368167, 170141183460469231731687303715884105727, true, 32412368368375091642722499327753815240);
    lemma_powmod_step(43, 77371252455336267181195263, 32412368368375091642722499327753815240, 170141183460469231731687303715884105727, true, 165209901001501898905468728523125575749);
    lemma_powmod_step(43, 154742504910672534362390527, 165209901001501898905468728523125575749, 170141183460469231731687303715884105727, true, 153156515554266463463007822659633833277);
    lemma_powmod_step(43, 309485009821345068724781055, 153156515554266463463007822659633833277, 170141183460469231731687303715884105727, true, 106559360178677919295859756717778822190);
    lemma_powmod_step(43, 618970019642690137449562111, 106559360178677919295859756717778822190, 170141183460469231731687303715884105727, true, 58117828415879906108174055385551979058);
    lemma_powmod_step(43, 1237940039285380274899124223, 58117828415879906108174055385551979058, 170141183460469231731687303715884105727, true, 3841934387073633065158291664031153845);
    lemma_powmod_step(43, 2475880078570760549798248447, 3841934387073633065158291664031153845, 170141183460469231731687303715884105727, true, 104022937768919245854712153407079386455);
    lemma_powmod_step(43, 4951760157141521099596496895, 104022937768919245854712153407079386455, 170141183460469231731687303715884105727, true, 48868678432133389647533694110557347370);
    lemma_powmod_step(43, 9903520314283042199192993791, 48868678432133389647533694110557347370, 170141183460469231731687303715884105727, true, 12438116887495513404892028847759090390);
    lemma_powmod_step(43, 19807040628566084398385987583, 12438116887495513404892028847759090390, 170141183460469231731687303715884105727, true, 161415063130667923028932575033089088576);
    lemma_powmod_step(43, 39614081257132168796771975167, 161415063130667923028932575033089088576, 170141183460469231731687303715884105727, true, 97830088843294230082835727708207329901);
    lemma_powmod_step(43, 79228162514264337593543950335, 97830088843294230082835727708207329901, 170141183460469231731687303715884105727, true, 162636020996139945307113159425589018624);
    lemma_powmod_step(43, 158456325028528675187087900671, 162636020996139945307113159425589018624, 170141183460469231731687303715884105727, true, 32996891853004899122980317325129754195);
    lemma_powmod_step(43, 316912650057057350374175801343, 32996891853004899122980317325129754195, 170141183460469231731687303715884105727, true, 105442432097100402184263246850649896528);
    lemma_powmod_step(43, 633825300114114700748351602687, 105442432097100402184263246850649896528, 170141183460469231731687303715884105727, true, 154834744824312780996148827410460042462);
    lemma_powmod_step(43, 1267650600228229401496703205375, 154834744824312780996148827410460042462, 170141183460469231731687303715884105727, true, 92624280399288563700101566946848020482);
    lemma_powmod_step(43, 2535301200456458802993406410751, 92624280399288563700101566946848020482, 170141183460469231731687303715884105727, true, 72793827331891401996431044884295686613);
    lemma_powmod_step(43, 5070602400912917605986812821503, 72793827331891401996431044884295686613, 170141183460469231731687303715884105727, true, 750064203646069821580218903936736952);
    lemma_powmod_step(43, 10141204801825835211973625643007, 750064203646069821580218903936736952, 170141183460469231731687303715884105727, true, 144146388439200812830279387970661394741);
    lemma_powmod_step(43, 20282409603651670423947251286015, 144146388439200812830279387970661394741, 170141183460469231731687303715884105727, true, 20761911633154228817114617268148862436);
    lemma_powmod_step(43, 40564819207303340847894502572031, 20761911633154228817114617268148862436, 170141183460469231731687303715884105727, true, 162361400963645925127777963489183967333);
    lemma_powmod_step(43, 81129638414606681695789005144063, 162361400963645925127777963489183967333, 170141183460469231731687303715884105727, true, 60718729130049332760908249203406955855);
    lemma_powmod_step(43, 162259276829213363391578010288127, 60718729130049332760908249203406955855, 170141183460469231731687303715884105727, true, 152793311198027638248184387192221246156);
    lemma_powmod_step(43, 324518553658426726783156020576255, 152793311198027638248184387192221246156, 170141183460469231731687303715884105727, true, 18933894460821357181705467656047965998);
    lemma_powmod_step(43, 649037107316853453566312041152511, 18933894460821357181705467656047965998, 170141183460469231731687303715884105727, true, 4508225565154808138224386449336026601);
    lemma_powmod_step(43, 1298074214633706907132624082305023, 4508225565154808138224386449336026601, 170141183460469231731687303715884105727, true, 97462740068878861837045792709879725211);
    lemma_powmod_step(43, 2596148429267413814265248164610047, 97462740068878861837045792709879725211, 170141183460469231731687303715884105727, true, 145889712287083048913091573036136312440);
    lemma_powmod_step(43, 5192296858534827628530496329220095, 145889712287083048913091573036136312440, 170141183460469231731687303715884105727, true, 5199831989408359989969892233482978795);
    lemma_powmod_step(43, 10384593717069655257060992658440191, 5199831989408359989969892233482978795, 170141183460469231731687303715884105727, true, 96806524622651543975576573672666057910);
    lemma_powmod_step(43, 20769187434139310514121985316880383, 96806524622651543975576573672666057910, 170141183460469231731687303715884105727, true, 78048426757691615455212622924438972865);
    lemma_powmod_step(43, 41538374868278621028243970633760767, 78048426757691615455212622924438972865, 170141183460469231731687303715884105727, true, 50017135682483274071183350536255015639);
    lemma_powmod_step(43, 83076749736557242056487941267521535, 50017135682483274071183350536255015639, 170141183460469231731687303715884105727, true, 73565947718235075354698410064721987297);
    lemma_powmod_step(43, 166153499473114484112975882535043071, 73565947718235075354698410064721987297, 170141183460469231731687303715884105727, true, 55060031853648400016348970174583676192);
    lemma_powmod_step(43, 332306998946228968225951765070086143, 55060031853648400016348970174583676192, 170141183460469231731687303715884105727, true, 140706876573680649025373565729105613805);
    lemma_powmod_step(43, 664613997892457936451903530140172287, 140706876573680649025373565729105613805, 170141183460469231731687303715884105727, true, 55251205259300629173548583641705986415);
    lemma_powmod_step(43, 1329227995784915872903807060280344575, 55251205259300629173548583641705986415, 170141183460469231731687303715884105727, true, 74585868103907880933065484308366876368);
    lemma_powmod_step(43, 2658455991569831745807614120560689151, 74585868103907880933065484308366876368, 170141183460469231731687303715884105727, true, 95402789904748143187415917212008101822);
    lemma_powmod_step(43, 5316911983139663491615228241121378303, 95402789904748143187415917212008101822, 170141183460469231731687303715884105727, true, 85885649268677716044155665641858902412);
    lemma_powmod_step(43, 10633823966279326983230456482242756607, 85885649268677716044155665641858902412, 170141183460469231731687303715884105727, true, 27903316220380121255565622761880584345);
    lemma_powmod_step(43, 21267647932558653966460912964485513215, 27903316220380121255565622761880584345, 170141183460469231731687303715884105727, true, 21437436323531581146437925376388006152);
    lemma_powmod_step(43, 42535295865117307932921825928971026431, 21437436323531581146437925376388006152, 170141183460469231731687303715884105727, true, 170141183460469231731687303715884105726);
}

/// 43^56713727820156410577229101238628035242 mod 170141183460469231731687303715884105727.
proof fn lemma_pow_q_43_2aaaaaaaaaaaaaaaaaaaaaaaaaaaaaaa()
    ensures
        pow(43, 56713727820156410577229101238628035242) % 170141183460469231731687303715884105727 == 45732286665397639494243842614078445557,
{
    lemma_powmod_start(43, 170141183460469231731687303715884105727);
    lemma_powmod_step(43, 1, 43, 170141183460469231731687303715884105727, false, 1849);
    lemma_powmod_step(43, 2, 1849, 170141183460469231731687303715884105727, true, 147008443);
    lemma_powmod_step(43, 5, 147008443, 170141183460469231731687303715884105727, false, 21611482313284249);
    lemma_powmod_step(43, 10, 21611482313284249, 170141183460469231731687303715884105727, true, 20083415214428110320965436874242043);
    lemma_powmod_step(43, 21, 20083415214428110320965436874242043, 170141183460469231731687303715884105727, false, 30174526697519155357760656077710411648);
    lemma_powmod_step(43, 42, 30174526697519155357760656077710411648, 170141183460469231731687303715884105727, true, 137819571430262256200614251292207509414);
    lemma_powmod_step(43, 85, 137819571430262256200614251292207509414, 170141183460469231731687303715884105727, false, 115324910066139083475241959099114591811);
    lemma_powmod_step(43, 170, 115324910066139083475241959099114591811, 170141183460469231731687303715884105727, true, 167275294062332357434229324957670119625);
    lemma_powmod_step(43, 341, 167275294062332357434229324957670119625, 170141183460469231731687303715884105727, false, 77472857120246634981817696465398235108);
    lemma_powmod_step(43, 682, 77472857120246634981817696465398235108, 170141183460469231731687303715884105727, true, 152878144236945059663011697747028480);
    lemma_powmod_step(43, 1365, 152878144236945059663011697747028480, 170141183460469231731687303715884105727, false, 33238932377601081287347915751301662739);
    lemma_powmod_step(43, 2730, 33238932377601081287347915751301662739, 170141183460469231731687303715884105727, true, 39851709064041062965706294141608507511);
    lemma_powmod_step(43, 5461, 39851709064041062965706294141608507511, 170141183460469231731687303715884105727, false, 71852097739186031243527815456727872215);
    lemma_powmod_step(43, 10922, 71852097739186031243527815456727872215, 170141183460469231731687303715884105727, true, 44342085549228408095298574865895049148);
    lemma_powmod_step(43, 21845, 44342085549228408095298574865895049148, 170141183460469231731687303715884105727, false, 111549373847031593875784491446500428876);
    lemma_powmod_step(43, 43690, 111549373847031593875784491446500428876, 170141183460469231731687303715884105727, true, 47049921732026721826127958622554152821);
    lemma_powmod_step(43, 87381, 47049921732026721826127958622554152821, 170141183460469231731687303715884105727, false, 99791889295973998149974088791147952942);
    lemma_powmod_step(43, 174762, 99791889295973998149974088791147952942, 170141183460469231731687303715884105727, true, 70087299058066464243733522425894918095);
    lemma_powmod_step(43, 349525, 70087299058066464243733522425894918095, 170141183460469231731687303715884105727, false, 125031517941023642116784800214943306733);
    lemma_powmod_step(43, 699050, 125031517941023642116784800214943306733, 170141183460469231731687303715884105727, true, 118720840064880445060847075458171066289);
    lemma_powmod_step(43, 1398101, 118720840064880445060847075458171066289, 170141183460469231731687303715884105727, false, 15757347819689068148884834777913846612);
    lemma_powmod_step(43, 2796202, 15757347819689068148884834777913846612, 170141183460469231731687303715884105727, true, 75019881900072491434939803283186131116);
    lemma_powmod_step(43, 5592405, 75019881900072491434939803283186131116, 170141183460469231731687303715884105727, false, 149886486532388984438169101143126771892);
    lemma_powmod_step(43, 11184810, 149886486532388984438169101143126771892, 170141183460469231731687303715884105727, true, 111976449197912297287262460249311744162);
    lemma_powmod_step(43, 22369621, 111976449197912297287262460249311744162, 170141183460469231731687303715884105727, false, 92995728214088542695615076909225031343);
    lemma_powmod_step(43, 44739242, 92995728214088542695615076909225031343, 170141183460469231731687303715884105727, true, 27994106953231492743568921357859255404);
    lemma_powmod_step(43, 89478485, 27994106953231492743568921357859255404, 170141183460469231731687303715884105727, false, 85537449899581258701722863021261788241);
    lemma_powmod_step(43, 178956970, 85537449899581258701722863021261788241, 170141183460469231731687303715884105727, true, 163592003143589784789301990710391418834);
    lemma_powmod_step(43, 357913941, 163592003143589784789301990710391418834, 170141183460469231731687303715884105727, false, 108686047809239833936372696140901175268);
    lemma_powmod_step(43, 715827882, 108686047809239833936372696140901175268, 170141183460469231731687303715884105727, true, 63693902127125333364507541794400792357);
    lemma_powmod_step(43, 1431655765, 63693902127125333364507541794400792357, 170141183460469231731687303715884105727, false, 145944820612460486282356395926147979906);
    lemma_powmod_step(43, 2863311530, 145944820612460486282356395926147979906, 170141183460469231731687303715884105727, true, 8324263397133763670803147422581261122);
    lemma_powmod_step(43, 5726623061, 8324263397133763670803147422581261122, 170141183460469231731687303715884105727, false, 151833547561028657909974350149063961529);
    lemma_powmod_step(43, 11453246122, 151833547561028657909974350149063961529, 170141183460469231731687303715884105727, true, 97200190400772156308235001958512224948);
    lemma_powmod_step(43, 22906492245, 97200190400772156308235001958512224948, 170141183460469231731687303715884105727, false, 57953095384873195489476392073298803614);
    lemma_powmod_step(43, 45812984490, 57953095384873195489476392073298803614, 170141183460469231731687303715884105727, true, 105775430434469475809029414926652409942);
    lemma_powmod_step(43, 91625968981, 105775430434469475809029414926652409942, 170141183460469231731687303715884105727, false, 55805655781137812788665983986613380071);
    lemma_powmod_step(43, 183251937962, 55805655781137812788665983986613380071, 170141183460469231731687303715884105727, true, 3523143614009992570042868967177440838);
    lemma_powmod_step(43, 366503875925, 3523143614009992570042868967177440838, 170141183460469231731687303715884105727, false, 131385709817494337264584505393638784534);
    lemma_powmod_step(43, 733007751850, 131385709817494337264584505393638784534, 170141183460469231731687303715884105727, true, 116838051676289592251606242160241980800);
    lemma_powmod_step(43, 1466015503701, 116838051676289592251606242160241980800, 170141183460469231731687303715884105727, false, 65278013206708023918847168539419123812);
    lemma_powmod_step(43, 2932031007402, 65278013206708023918847168539419123812, 170141183460469231731687303715884105727, true, 97688394590882527136546216004810586654);
    lemma_powmod_step(43, 5864062014805, 97688394590882527136546216004810586654, 170141183460469231731687303715884105727, false, 139180647558851581578779541246417415510);
    lemma_powmod_step(43, 11728124029610, 139180647558851581578779541246417415510, 170141183460469231731687303715884105727, true, 136837931724108834270360392463064800866);
    lemma_powmod_step(43, 23456248059221, 136837931724108834270360392463064800866, 170141183460469231731687303715884105727, false, 31807356292232084732493721175681490347);
    lemma_powmod_step(43, 46912496118442, 31807356292232084732493721175681490347, 170141183460469231731687303715884105727, true, 105948418692784065835367050532911649999);
    lemma_powmod_step(43, 93824992236885, 105948418692784065835367050532911649999, 170141183460469231731687303715884105727, false, 78854936058830169475338415657162040779);
    lemma_powmod_step(43, 187649984473770, 78854936058830169475338415657162040779, 170141183460469231731687303715884105727, true, 42924227566512647168821867586306525039);
    lemma_powmod_step(43, 375299968947541, 42924227566512647168821867586306525039, 170141183460469231731687303715884105727, false, 30412172756777649938723973745194829032);
    lemma_powmod_step(43, 750599937895082, 30412172756777649938723973745194829032, 170141183460469231731687303715884105727, true, 166371932706421798919720482248967307199);
    lemma_powmod_step(43, 1501199875790165, 166371932706421798919720482248967307199, 170141183460469231731687303715884105727, false, 102423256928271890031719162336963823354);
    lemma_powmod_step(43, 3002399751580330, 102423256928271890031719162336963823354, 170141183460469231731687303715884105727, true, 97841521214951486714838368316006527998);
    lemma_powmod_step(43, 6004799503160661, 97841521214951486714838368316006527998, 170141183460469231731687303715884105727, false, 151949993145272900781369082101501264566);
    lemma_powmod_step(43, 12009599006321322, 151949993145272900781369082101501264566, 170141183460469231731687303715884105727, true, 39157929988542905789266867069064268454);
    lemma_powmod_step(43, 24019198012642645, 39157929988542905789266867069064268454, 170141183460469231731687303715884105727, false, 73740547017484675638024379422628473669);
    lemma_powmod_step(43, 48038396025285290, 73740547017484675638024379422628473669, 170141183460469231731687303715884105727, true, 66781027328633338680944242824398438802);
    lemma_powmod_step(43, 96076792050570581, 66781027328633338680944242824398438802, 170141183460469231731687303715884105727, false, 41919369702497558290132402354837351752);
    lemma_powmod_step(43, 192153584101141162, 41919369702497558290132402354837351752, 170141183460469231731687303715884105727, true, 157754216638553724566518457270464786967);
    lemma_powmod_step(43, 384307168202282325, 157754216638553724566518457270464786967, 170141183460469231731687303715884105727, false, 33102406170149934043957608673668982179);
    lemma_powmod_step(43, 768614336404564650, 33102406170149934043957608673668982179, 170141183460469231731687303715884105727, true, 68211805396644501703348306137226971338);
    lemma_powmod_step(43, 1537228672809129301, 68211805396644501703348306137226971338, 170141183460469231731687303715884105727, false, 168842044221082517891066268202680650867);
    lemma_powmod_step(43, 3074457345618258602, 168842044221082517891066268202680650867, 170141183460469231731687303715884105727, true, 119116651771809843037320814149154047143);
    lemma_powmod_step(43, 6148914691236517205, 119116651771809843037320814149154047143, 170141183460469231731687303715884105727, false, 122244044719555043884508591688167079218);
    lemma_powmod_step(43, 12297829382473034410, 122244044719555043884508591688167079218, 170141183460469231731687303715884105727, true, 19790836745535832350956591042151613312);
    lemma_powmod_step(43, 24595658764946068821, 19790836745535832350956591042151613312, 170141183460469231731687303715884105727, false, 21550808152543218230111150992643266789);
    lemma_powmod_step(43, 49191317529892137642, 21550808152543218230111150992643266789, 170141183460469231731687303715884105727, true, 38974806923598375942058757175046435589);
    lemma_powmod_step(43, 98382635059784275285, 38974806923598375942058757175046435589, 170141183460469231731687303715884105727, false, 67860358144037843270500365178107149100);
    lemma_powmod_step(43, 196765270119568550570, 67860358144037843270500365178107149100, 170141183460469231731687303715884105727, true, 48772889822535210938120253435040555945);
    lemma_powmod_step(43, 393530540239137101141, 48772889822535210938120253435040555945, 170141183460469231731687303715884105727, false, 155514643438341904728129245219586507979);
    lemma_powmod_step(43, 787061080478274202282, 155514643438341904728129245219586507979, 170141183460469231731687303715884105727, true, 119759940252703488569057392828982782607);
    lemma_powmod_step(43, 1574122160956548404565, 119759940252703488569057392828982782607, 170141183460469231731687303715884105727, false, 158537817915141743673824377523457277027);
    lemma_powmod_step(43, 3148244321913096809130, 158537817915141743673824377523457277027, 170141183460469231731687303715884105727, true, 98285982257496831606590112403511515279);
    lemma_powmod_step(43, 6296488643826193618261, 98285982257496831606590112403511515279, 170141183460469231731687303715884105727, false, 33197989525315602542981597745744921253);
    lemma_powmod_step(43, 12592977287652387236522, 33197989525315602542981597745744921253, 170141183460469231731687303715884105727, true, 28345493372066818006752393579042695164);
    lemma_powmod_step(43, 25185954575304774473045, 28345493372066818006752393579042695164, 170141183460469231731687303715884105727, false, 169819309406237686756930743119289223290);
    lemma_powmod_step(43, 50371909150609548946090, 169819309406237686756930743119289223290, 170141183460469231731687303715884105727, true, 148754696782742187236157344202441780519);
    lemma_powmod_step(43, 100743818301219097892181, 148754696782742187236157344202441780519, 170141183460469231731687303715884105727, false, 81973784694670058596075178183578638926);
    lemma_powmod_step(43, 201487636602438195784362, 81973784694670058596075178183578638926, 170141183460469231731687303715884105727, true, 74863302757626581881367936917946703465);
    lemma_powmod_step(43, 402975273204876391568725, 74863302757626581881367936917946703465, 170141183460469231731687303715884105727, false, 26472548128532705031520489842539765660);
    lemma_powmod_step(43, 805950546409752783137450, 26472548128532705031520489842539765660, 170141183460469231731687303715884105727, true, 143983903516626316472010390212046176620);
    lemma_powmod_step(43, 1611901092819505566274901, 143983903516626316472010390212046176620, 170141183460469231731687303715884105727, false, 96143532440270618722141041228428555799);
    lemma_powmod_step(43, 3223802185639011132549802, 96143532440270618722141041228428555799, 170141183460469231731687303715884105727, true, 169503362052210602173624350890828994127);
    lemma_powmod_step(43, 6447604371278022265099605, 169503362052210602173624350890828994127, 170141183460469231731687303715884105727, false, 99117186105911447689623216366347237938);
    lemma_powmod_step(43, 12895208742556044530199210, 99117186105911447689623216366347237938, 170141183460469231731687303715884105727, true, 68015617129905064005535008557447544042);
    lemma_powmod_step(43, 25790417485112089060398421, 68015617129905064005535008557447544042, 170141183460469231731687303715884105727, false, 106595435863916993087395386541620887041);
    lemma_powmod_step(43, 51580834970224178120796842, 106595435863916993087395386541620887041, 170141183460469231731687303715884105727, true, 81319843045085829702415831525262072173);
    lemma_powmod_step(43, 103161669940448356241593685, 81319843045085829702415831525262072173, 170141183460469231731687303715884105727, false, 33351520820946048725909985765263417841);
    lemma_powmod_step(43, 206323339880896712483187370, 33351520820946048725909985765263417841, 170141183460469231731687303715884105727, true, 49478978293746829029464663657414759672);
    lemma_powmod_step(43, 412646679761793424966374741, 49478978293746829029464663657414759672, 170141183460469231731687303715884105727, false, 149821663493081532621180441403091569721);
    lemma_powmod_step(43, 825293359523586849932749482, 149821663493081532621180441403091569721, 170141183460469231731687303715884105727, true, 147618916406154932526454436013807604834);
    lemma_powmod_step(43, 1650586719047173699865498965, 147618916406154932526454436013807604834, 170141183460469231731687303715884105727, false, 98862630112922234047891346570071028514);
    lemma_powmod_step(43, 3301173438094347399730997930, 98862630112922234047891346570071028514, 170141183460469231731687303715884105727, true, 10109597226964233932368825509190177610);
    lemma_powmod_step(43, 6602346876188694799461995861, 10109597226964233932368825509190177610, 170141183460469231731687303715884105727, false, 52462204179327381918707467526820661871);
    lemma_powmod_step(43, 13204693752377389598923991722, 52462204179327381918707467526820661871, 170141183460469231731687303715884105727, true, 96641257028365865443555482632154648526);
    lemma_powmod_step(43, 26409387504754779197847983445, 96641257028365865443555482632154648526, 170141183460469231731687303715884105727, false, 36098480500448501689552231134001775662);
    lemma_powmod_step(43, 52818775009509558395695966890, 36098480500448501689552231134001775662, 170141183460469231731687303715884105727, true, 139104436164243948828425961793363846184);
    lemma_powmod_step(43, 105637550019019116791391933781, 139104436164243948828425961793363846184, 170141183460469231731687303715884105727, false, 57966125908628234507337272990877685363);
    lemma_powmod_step(43, 211275100038038233582783867562, 57966125908628234507337272990877685363, 170141183460469231731687303715884105727, true, 65919475603237868683512395817068159073);
    lemma_powmod_step(43, 422550200076076467165567735125, 65919475603237868683512395817068159073, 170141183460469231731687303715884105727, false, 37028070032941692701751183257033924869);
    lemma_powmod_step(43, 845100400152152934331135470250, 37028070032941692701751183257033924869, 170141183460469231731687303715884105727, true, 88780390172849732948483538027717507071);
    lemma_powmod_step(43, 1690200800304305868662270940501, 88780390172849732948483538027717507071, 170141183460469231731687303715884105727, false, 49510663241908477891159780299432965791);
    lemma_powmod_step(43, 3380401600608611737324541881002, 49510663241908477891159780299432965791, 170141183460469231731687303715884105727, true, 104214376766183544033073643647327124618);
    lemma_powmod_step(43, 6760803201217223474649083762005, 104214376766183544033073643647327124618, 170141183460469231731687303715884105727, false, 29641866984844808123807359787635818988);
    lemma_powmod_step(43, 13521606402434446949298167524010, 29641866984844808123807359787635818988, 170141183460469231731687303715884105727, true, 47655195171018116589063912742522289016);
    lemma_powmod_step(43, 27043212804868893898596335048021, 47655195171018116589063912742522289016, 170141183460469231731687303715884105727, false, 157549267800486311019624536469128299431);
    lemma_powmod_step(43, 54086425609737787797192670096042, 157549267800486311019624536469128299431, 170141183460469231731687303715884105727, true, 159872243944726785959222062148389610861);
    lemma_powmod_step(43, 108172851219475575594385340192085, 159872243944726785959222062148389610861, 170141183460469231731687303715884105727, false, 42431050978001932586581530680338269454);
    lemma_powmod_step(43, 216345702438951151188770680384170, 42431050978001932586581530680338269454, 170141183460469231731687303715884105727, true, 94075856576141127264043022475294003100);
    lemma_powmod_step(43, 432691404877902302377541360768341, 94075856576141127264043022475294003100, 170141183460469231731687303715884105727, false, 74808777599316570739323970631250824474);
    lemma_powmod_step(43, 865382809755804604755082721536682, 74808777599316570739323970631250824474, 170141183460469231731687303715884105727, true, 160540990291649440561264198120868430856);
    lemma_powmod_step(43, 1730765619511609209510165443073365, 160540990291649440561264198120868430856, 170141183460469231731687303715884105727, false, 10983843348233187352508023413173681983);
    lemma_powmod_step(43, 3461531239023218419020330886146730, 10983843348233187352508023413173681983, 170141183460469231731687303715884105727, true, 58717380658697154019244922969932908188);
    lemma_powmod_step(43, 6923062478046436838040661772293461, 58717380658697154019244922969932908188, 170141183460469231731687303715884105727, false, 142990683181192251247418888087569138014);
    lemma_powmod_step(43, 13846124956092873676081323544586922, 142990683181192251247418888087569138014, 170141183460469231731687303715884105727, true, 36441378955575715378373652403342384007);
    lemma_powmod_step(43, 27692249912185747352162647089173845, 36441378955575715378373652403342384007, 170141183460469231731687303715884105727, false, 147173246573015446471789511467179162823);
    lemma_powmod_step(43, 55384499824371494704325294178347690, 147173246573015446471789511467179162823, 170141183460469231731687303715884105727, true, 96968858057658380554301528558615918065);
    lemma_powmod_step(43, 110768999648742989408650588356695381, 96968858057658380554301528558615918065, 170141183460469231731687303715884105727, false, 138144399626856298884040827275503893345);
    lemma_powmod_step(43, 221537999297485978817301176713390762, 138144399626856298884040827275503893345, 170141183460469231731687303715884105727, true, 152060360581720941063286464715633482732);
    lemma_powmod_step(43, 443075998594971957634602353426781525, 152060360581720941063286464715633482732, 170141183460469231731687303715884105727, false, 5638308203667665029641172705665183418);
    lemma_powmod_step(43, 886151997189943915269204706853563050, 5638308203667665029641172705665183418, 170141183460469231731687303715884105727, true, 117460646928424841978896933537432236160);
    lemma_powmod_step(43, 1772303994379887830538409413707126101, 117460646928424841978896933537432236160, 170141183460469231731687303715884105727, false, 103832237333009378683459051334109183734);
    lemma_powmod_step(43, 3544607988759775661076818827414252202, 103832237333009378683459051334109183734, 170141183460469231731687303715884105727, true, 85062689825160793179893999554571174734);
    lemma_powmod_step(43, 7089215977519551322153637654828504405, 85062689825160793179893999554571174734, 170141183460469231731687303715884105727, false, 137442492475535283266300281249958879184);
    lemma_powmod_step(43, 14178431955039102644307275309657008810, 137442492475535283266300281249958879184, 170141183460469231731687303715884105727, true, 45732286665397639494243842614078445558);
    lemma_powmod_step(43, 28356863910078205288614550619314017621, 45732286665397639494243842614078445558, 170141183460469231731687303715884105727, false, 45732286665397639494243842614078445557);
}

/// 43^24305883351495604533098186245126300818 mod 170141183460469231731687303715884105727.
proof fn lemma_pow_q_43_12492492492492492492492492492492()
    ensures
        pow(43, 24305883351495604533098186245126300818) % 170141183460469231731687303715884105727 == 140288290858193893367233929291106695296,
{
    lemma_powmod_start(43, 170141183460469231731687303715884105727);
    lemma_powmod_step(43, 1, 43, 170141183460469231731687303715884105727, false, 1849);
    lemma_powmod_step(43, 2, 1849, 170141183460469231731687303715884105727, false, 3418801);
    lemma_powmod_step(43, 4, 3418801, 170141183460469231731687303715884105727, true, 502592611936843);
    lemma_powmod_step(43, 9, 502592611936843, 170141183460469231731687303715884105727, false, 252599333573498060811820806649);
    lemma_powmod_step(43, 18, 252599333573498060811820806649, 170141183460469231731687303715884105727, false, 79348411757947569618018410364671506625);
    lemma_powmod_step(43, 36, 79348411757947569618018410364671506625, 170141183460469231731687303715884105727, true, 32838115492033605208074010328946656288);
    lemma_powmod_step(43, 73, 32838115492033605208074010328946656288, 170141183460469231731687303715884105727, false, 96882619716186523249475082004567258192);
    lemma_powmod_step(43, 146, 96882619716186523249475082004567258192, 170141183460469231731687303715884105727, false, 145143422757032585360592641358751246698);
    lemma_powmod_step(43, 292, 145143422757032585360592641358751246698, 170141183460469231731687303715884105727, true, 157413591592342304858077717346650329056);
    lemma_powmod_step(43, 585, 157413591592342304858077717346650329056, 170141183460469231731687303715884105727, false, 127904787402540532902144499688646217840);
    lemma_powmod_step(43, 1170, 127904787402540532902144499688646217840, 170141183460469231731687303715884105727, false, 130515169517788696914403544635258896514);
    lemma_powmod_step(43, 2340, 130515169517788696914403544635258896514, 170141183460469231731687303715884105727, true, 79234462463814652508511342123035768058);
    lemma_powmod_step(43, 4681, 79234462463814652508511342123035768058, 170141183460469231731687303715884105727, false, 119458736687997330338438044329486338955);
    lemma_powmod_step(43, 9362, 119458736687997330338438044329486338955, 170141183460469231731687303715884105727, false, 127660145451012959894726696142742030690);
    lemma_powmod_step(43, 18724, 127660145451012959894726696142742030690, 170141183460469231731687303715884105727, true, 42597394864116199759799216739765961461);
    lemma_powmod_step(43, 37449, 42597394864116199759799216739765961461, 170141183460469231731687303715884105727, false, 55966394624611084553342846316734246411);
    lemma_powmod_step(43, 74898, 55966394624611084553342846316734246411, 170141183460469231731687303715884105727, false, 127909149248389373134125544342898472147);
    lemma_powmod_step(43, 149796, 127909149248389373134125544342898472147, 170141183460469231731687303715884105727, true, 148749646226629506400860064839979199181);
    lemma_powmod_step(43, 299593, 148749646226629506400860064839979199181, 170141183460469231731687303715884105727, false, 35939469360140100136852815632090163699);
    lemma_powmod_step(43, 599186, 35939469360140100136852815632090163699, 170141183460469231731687303715884105727, false, 5533654414776732811942949111071831726);
    lemma_powmod_step(43, 1198372, 5533654414776732811942949111071831726, 170141183460469231731687303715884105727, true, 9652956461935668042335064994863986955);
    lemma_powmod_step(43, 2396745, 9652956461935668042335064994863986955, 170141183460469231731687303715884105727, false, 123729011370597487309685852678254702621);
    lemma_powmod_step(43, 4793490, 123729011370597487309685852678254702621, 170141183460469231731687303715884105727, false, 18406045255016789270934197276975002383);
    lemma_powmod_step(43, 9586980, 18406045255016789270934197276975002383, 170141183460469231731687303715884105727, true, 89816575655843939668051418211328275327);
    lemma_powmod_step(43, 19173961, 89816575655843939668051418211328275327, 170141183460469231731687303715884105727, false, 7526159367150117309696893353103354062);
    lemma_powmod_step(43, 38347922, 7526159367150117309696893353103354062, 170141183460469231731687303715884105727, false, 57844700111407123984314506046324619828);
    lemma_powmod_step(43, 76695844, 57844700111407123984314506046324619828, 170141183460469231731687303715884105727, true, 102375636125252548931232430426404552946);
    lemma_powmod_step(43, 153391689, 102375636125252548931232430426404552946, 170141183460469231731687303715884105727, false, 86914512634991549977667190647175544580);
    lemma_powmod_step(43, 306783378, 86914512634991549977667190647175544580, 170141183460469231731687303715884105727, false, 67974291670841267482576668560964222240);
    lemma_powmod_step(43, 613566756, 67974291670841267482576668560964222240, 170141183460469231731687303715884105727, true, 16590786156664846257143358927850553383);
    lemma_powmod_step(43, 1227133513, 16590786156664846257143358927850553383, 170141183460469231731687303715884105727, false, 45858391112223315468735675494438605846);
    lemma_powmod_step(43, 2454267026, 45858391112223315468735675494438605846, 170141183460469231731687303715884105727, false, 123802191957799976411458402255139170715);
    lemma_powmod_step(43, 4908534052, 123802191957799976411458402255139170715, 170141183460469231731687303715884105727, true, 21931328795397365107898442790027332047);
    lemma_powmod_step(43, 9817068105, 21931328795397365107898442790027332047, 170141183460469231731687303715884105727, false, 51231966663797238184841339323809111763);
    lemma_powmod_step(43, 19634136210, 51231966663797238184841339323809111763, 170141183460469231731687303715884105727, false, 39986504809960007056237598053833824114);
    lemma_powmod_step(43, 39268272420, 39986504809960007056237598053833824114, 170141183460469231731687303715884105727, true, 155805225504946163537919830982169330582);
    lemma_powmod_step(43, 78536544841, 155805225504946163537919830982169330582, 170141183460469231731687303715884105727, false, 71326814480307074722372958422590312808);
    lemma_powmod_step(43, 157073089682, 71326814480307074722372958422590312808, 170141183460469231731687303715884105727, false, 69776351775338778929555353756771095356);
    lemma_powmod_step(43, 314146179364, 69776351775338778929555353756771095356, 170141183460469231731687303715884105727, true, 39778236172128160644839750486173650978);
    lemma_powmod_step(43, 628292358729, 39778236172128160644839750486173650978, 170141183460469231731687303715884105727, false, 156874247253668256621038846732976757835);
    lemma_powmod_step(43, 1256584717458, 156874247253668256621038846732976757835, 170141183460469231731687303715884105727, false, 24161925197988872575283926713240522066);
    lemma_powmod_step(43, 2513169434916, 24161925197988872575283926713240522066, 170141183460469231731687303715884105727, true, 5519351104214856226106830582206924000);
    lemma_powmod_step(43, 5026338869833, 5519351104214856226106830582206924000, 170141183460469231731687303715884105727, false, 1002805636924371498595851366154045721);
    lemma_powmod_step(43, 10052677739666, 1002805636924371498595851366154045721, 170141183460469231731687303715884105727, false, 85900296378750563549634292968801463710);
    lemma_powmod_step(43, 20105355479332, 85900296378750563549634292968801463710, 170141183460469231731687303715884105727, true, 160940686266439924535551164548468970327);
    lemma_powmod_step(43, 40210710958665, 160940686266439924535551164548468970327, 170141183460469231731687303715884105727, false, 164406165288328652833891108145643057961);
    lemma_powmod_step(43, 80421421917330, 164406165288328652833891108145643057961, 170141183460469231731687303715884105727, false, 103132743603605413871160032044630537089);
    lemma_powmod_step(43, 160842843834660, 103132743603605413871160032044630537089, 170141183460469231731687303715884105727, true, 152787171913920540809012937037354056321);
    lemma_powmod_step(43, 321685687669321, 152787171913920540809012937037354056321, 170141183460469231731687303715884105727, false, 96150331181357256744778086964112653140);
    lemma_powmod_step(43, 643371375338642, 96150331181357256744778086964112653140, 170141183460469231731687303715884105727, false, 55589643460594510985599274049738142643);
    lemma_powmod_step(43, 1286742750677284, 55589643460594510985599274049738142643, 170141183460469231731687303715884105727, true, 141639566969548023631953214690866678202);
    lemma_powmod_step(43, 2573485501354569, 141639566969548023631953214690866678202, 170141183460469231731687303715884105727, false, 157128501874995364618215289313898102431);
    lemma_powmod_step(43, 5146971002709138, 157128501874995364618215289313898102431, 170141183460469231731687303715884105727, false, 45070251557873447334723544930722301050);
    lemma_powmod_step(43, 10293942005418276, 45070251557873447334723544930722301050, 170141183460469231731687303715884105727, true, 160505945448462216229216139164657631102);
    lemma_powmod_step(43, 20587884010836553, 160505945448462216229216139164657631102, 170141183460469231731687303715884105727, false, 2934307992185707688325321172161081590);
    lemma_powmod_step(43, 41175768021673106, 2934307992185707688325321172161081590, 170141183460469231731687303715884105727, false, 136555892253015204277699401920496204755);
    lemma_powmod_step(43, 82351536043346212, 136555892253015204277699401920496204755, 170141183460469231731687303715884105727, true, 67507121211478776198272195862261429269);
    lemma_powmod_step(43, 164703072086692425, 67507121211478776198272195862261429269, 170141183460469231731687303715884105727, false, 158738833137316952147599716731359661742);
    lemma_powmod_step(43, 329406144173384850, 158738833137316952147599716731359661742, 170141183460469231731687303715884105727, false, 124853674859593013107902680444865881046);
    lemma_powmod_step(43, 658812288346769700, 124853674859593013107902680444865881046, 170141183460469231731687303715884105727, true, 147732485263459579349959198629354791928);
    lemma_powmod_step(43, 1317624576693539401, 147732485263459579349959198629354791928, 170141183460469231731687303715884105727, false, 49010327641730679989711216463542533763);
    lemma_powmod_step(43, 2635249153387078802, 49010327641730679989711216463542533763, 170141183460469231731687303715884105727, false, 108361386841951758362940159319898628633);
    lemma_powmod_step(43, 5270498306774157604, 108361386841951758362940159319898628633, 170141183460469231731687303715884105727, true, 137481522890786654802246905451580299598);
    lemma_powmod_step(43, 10540996613548315209, 137481522890786654802246905451580299598, 170141183460469231731687303715884105727, false, 77970628179981770454461521352296966706);
    lemma_powmod_step(43, 21081993227096630418, 77970628179981770454461521352296966706, 170141183460469231731687303715884105727, false, 78460425545177240098349827830884901203);
    lemma_powmod_step(43, 42163986454193260836, 78460425545177240098349827830884901203, 170141183460469231731687303715884105727, true, 92411015975733457729199001687838728730);
    lemma_powmod_step(43, 84327972908386521673, 92411015975733457729199001687838728730, 170141183460469231731687303715884105727, false, 82428950026224191867689760038669885216);
    lemma_powmod_step(43, 168655945816773043346, 82428950026224191867689760038669885216, 170141183460469231731687303715884105727, false, 108121343706137074917339613592627475299);
    lemma_powmod_step(43, 337311891633546086692, 108121343706137074917339613592627475299, 170141183460469231731687303715884105727, true, 22939572137825142280839247822761692274);
    lemma_powmod_step(43, 674623783267092173385, 22939572137825142280839247822761692274, 170141183460469231731687303715884105727, false, 93408031613930106061255932167275241510);
    lemma_powmod_step(43, 1349247566534184346770, 93408031613930106061255932167275241510, 170141183460469231731687303715884105727, false, 9988775092041032163316893779366116583);
    lemma_powmod_step(43, 2698495133068368693540, 9988775092041032163316893779366116583, 170141183460469231731687303715884105727, true, 86002125489239460082130610739782484350);
    lemma_powmod_step(43, 5396990266136737387081, 86002125489239460082130610739782484350, 170141183460469231731687303715884105727, false, 94317002214460225278930269206920434368);
    lemma_powmod_step(43, 10793980532273474774162, 94317002214460225278930269206920434368, 170141183460469231731687303715884105727, false, 84618777348438013726227584330241962561);
    lemma_powmod_step(43, 21587961064546949548324, 84618777348438013726227584330241962561, 170141183460469231731687303715884105727, true, 67326619169228158807613741876569818098);
    lemma_powmod_step(43, 43175922129093899096649, 67326619169228158807613741876569818098, 170141183460469231731687303715884105727, false, 5372297184927303512501865106310072566);
    lemma_powmod_step(43, 86351844258187798193298, 5372297184927303512501865106310072566, 170141183460469231731687303715884105727, false, 166026788266942948950474328634988558568);
    lemma_powmod_step(43, 172703688516375596386596, 166026788266942948950474328634988558568, 170141183460469231731687303715884105727, true, 51659172660871893827619026242696525493);
    lemma_powmod_step(43, 345407377032751192773193, 51659172660871893827619026242696525493, 170141183460469231731687303715884105727, false, 168604851181328703191486151880584440902);
    lemma_powmod_step(43, 690814754065502385546386, 168604851181328703191486151880584440902, 170141183460469231731687303715884105727, false, 87565563525773599752430858915944976941);
    lemma_powmod_step(43, 1381629508131004771092772, 87565563525773599752430858915944976941, 170141183460469231731687303715884105727, true, 98351038593206141038223224695554758146);
    lemma_powmod_step(43, 2763259016262009542185545, 98351038593206141038223224695554758146, 170141183460469231731687303715884105727, false, 33106580897632792004539094980065817136);
    lemma_powmod_step(43, 5526518032524019084371090, 33106580897632792004539094980065817136, 170141183460469231731687303715884105727, false, 120458064124150243860378108585166537093);
    lemma_powmod_step(43, 11053036065048038168742180, 120458064124150243860378108585166537093, 170141183460469231731687303715884105727, true, 114105026421516341838820908046014452020);
    lemma_powmod_step(43, 22106072130096076337484361, 114105026421516341838820908046014452020, 170141183460469231731687303715884105727, false, 81963852761356931565760541571275034029);
    lemma_powmod_step(43, 44212144260192152674968722, 81963852761356931565760541571275034029, 170141183460469231731687303715884105727, false, 79165671799506302631759511198979004517);
    lemma_powmod_step(43, 88424288520384305349937444, 79165671799506302631759511198979004517, 170141183460469231731687303715884105727, true, 124423692912796633784344793805906985276);
    lemma_powmod_step(43, 176848577040768610699874889, 124423692912796633784344793805906985276, 170141183460469231731687303715884105727, false, 78936434759781551474429449091115296664);
    lemma_powmod_step(43, 353697154081537221399749778, 78936434759781551474429449091115296664, 170141183460469231731687303715884105727, false, 100402239741144633571796756184575110347);
    lemma_powmod_step(43, 707394308163074442799499556, 100402239741144633571796756184575110347, 170141183460469231731687303715884105727, true, 3732364744121332848053877343101666571);
    lemma_powmod_step(43, 1414788616326148885598999113, 3732364744121332848053877343101666571, 170141183460469231731687303715884105727, false, 101594511803134835629585433389646624282);
    lemma_powmod_step(43, 2829577232652297771197998226, 101594511803134835629585433389646624282, 170141183460469231731687303715884105727, false, 123691776023823780700900378843792102712);
    lemma_powmod_step(43, 5659154465304595542395996452, 123691776023823780700900378843792102712, 170141183460469231731687303715884105727, true, 8252439956395667444573564991796768217);
    lemma_powmod_step(43, 11318308930609191084791992905, 8252439956395667444573564991796768217, 170141183460469231731687303715884105727, false, 3938585006321721285548734201876096610);
    lemma_powmod_step(43, 22636617861218382169583985810, 3938585006321721285548734201876096610, 170141183460469231731687303715884105727, false, 81206055492449994615671934690509638936);
    lemma_powmod_step(43, 45273235722436764339167971620, 81206055492449994615671934690509638936, 170141183460469231731687303715884105727, true, 18171410752079307114499030574531306123);
    lemma_powmod_step(43, 90546471444873528678335943241, 18171410752079307114499030574531306123, 170141183460469231731687303715884105727, false, 75180227804668798711563577293777773148);
    lemma_powmod_step(43, 181092942889747057356671886482, 75180227804668798711563577293777773148, 170141183460469231731687303715884105727, false, 123621181932893081630502510360801170321);
    lemma_powmod_step(43, 362185885779494114713343772964, 123621181932893081630502510360801170321, 170141183460469231731687303715884105727, true, 50435387342025140393156282716635358190);
    lemma_powmod_step(43, 724371771558988229426687545929, 50435387342025140393156282716635358190, 170141183460469231731687303715884105727, false, 123254316682406615365600301014320432094);
    lemma_powmod_step(43, 1448743543117976458853375091858, 123254316682406615365600301014320432094, 170141183460469231731687303715884105727, false, 169965620092026096974789375132341366947);
    lemma_powmod_step(43, 2897487086235952917706750183716, 169965620092026096974789375132341366947, 170141183460469231731687303715884105727, true, 92727107129135603057733849593858929627);
    lemma_powmod_step(43, 5794974172471905835413500367433, 92727107129135603057733849593858929627, 170141183460469231731687303715884105727, false, 3546418590643323425208522506324845607);
    lemma_powmod_step(43, 11589948344943811670827000734866, 3546418590643323425208522506324845607, 170141183460469231731687303715884105727, false, 12199137423960296040644977165692495675);
    lemma_powmod_step(43, 23179896689887623341654001469732, 12199137423960296040644977165692495675, 170141183460469231731687303715884105727, true, 32805043385333058735651588797800527067);
    lemma_powmod_step(43, 46359793379775246683308002939465, 32805043385333058735651588797800527067, 170141183460469231731687303715884105727, false, 139128796527304603819554819009748713108);
    lemma_powmod_step(43, 92719586759550493366616005878930, 139128796527304603819554819009748713108, 170141183460469231731687303715884105727, false, 139624793761898003930515432098188559874);
    lemma_powmod_step(43, 185439173519100986733232011757860, 139624793761898003930515432098188559874, 170141183460469231731687303715884105727, true, 38258551702155933940715785356323418880);
    lemma_powmod_step(43, 370878347038201973466464023515721, 38258551702155933940715785356323418880, 170141183460469231731687303715884105727, false, 12934518249286493448818333740096534247);
    lemma_powmod_step(43, 741756694076403946932928047031442, 12934518249286493448818333740096534247, 170141183460469231731687303715884105727, false, 157770911484123596307849842962741851627);
    lemma_powmod_step(43, 1483513388152807893865856094062884, 157770911484123596307849842962741851627, 170141183460469231731687303715884105727, true, 148917890719884363104813920331122179136);
    lemma_powmod_step(43, 2967026776305615787731712188125769, 148917890719884363104813920331122179136, 170141183460469231731687303715884105727, false, 101485928134428378490977921136003313764);
    lemma_powmod_step(43, 5934053552611231575463424376251538, 101485928134428378490977921136003313764, 170141183460469231731687303715884105727, false, 102338828948579858486083458755045486700);
    lemma_powmod_step(43, 11868107105222463150926848752503076, 102338828948579858486083458755045486700, 170141183460469231731687303715884105727, true, 92156912570072087761588565754677854846);
    lemma_powmod_step(43, 23736214210444926301853697505006153, 92156912570072087761588565754677854846, 170141183460469231731687303715884105727, false, 130163879428811338574312457400376355383);
    lemma_powmod_step(43, 47472428420889852603707395010012306, 130163879428811338574312457400376355383, 170141183460469231731687303715884105727, false, 63864569163253208909208579916868207868);
    lemma_powmod_step(43, 94944856841779705207414790020024612, 63864569163253208909208579916868207868, 170141183460469231731687303715884105727, true, 144234103592922240391149133069846028457);
    lemma_powmod_step(43, 189889713683559410414829580040049225, 144234103592922240391149133069846028457, 170141183460469231731687303715884105727, false, 155441806475295539423820910156965966490);
    lemma_powmod_step(43, 379779427367118820829659160080098450, 155441806475295539423820910156965966490, 170141183460469231731687303715884105727, false, 92676051181491088019101170779191281234);
    lemma_powmod_step(43, 759558854734237641659318320160196900, 92676051181491088019101170779191281234, 170141183460469231731687303715884105727, true, 105185851251950738247735746853381431497);
    lemma_powmod_step(43, 1519117709468475283318636640320393801, 105185851251950738247735746853381431497, 170141183460469231731687303715884105727, false, 45785139989220456317792284224686917266);
    lemma_powmod_step(43, 3038235418936950566637273280640787602, 45785139989220456317792284224686917266, 170141183460469231731687303715884105727, false, 92059645957104073216920699748276725559);
    lemma_powmod_step(43, 6076470837873901133274546561281575204, 92059645957104073216920699748276725559, 170141183460469231731687303715884105727, true, 31427236117229361655936570179778280491);
    lemma_powmod_step(43, 12152941675747802266549093122563150409, 31427236117229361655936570179778280491, 170141183460469231731687303715884105727, false, 140288290858193893367233929291106695296);
}

/// 43^8954799129498380617457226511362321354 mod 170141183460469231731687303715884105727.
proof fn lemma_pow_q_43_6bca1af286bca1af286bca1af286bca()
    ensures
        pow(43, 8954799129498380617457226511362321354) % 170141183460469231731687303715884105727 == 135637860480549721617051963495725392232,
{
    lemma_powmod_start(43, 170141183460469231731687303715884105727);
    lemma_powmod_step(43, 1, 43, 170141183460469231731687303715884105727, true, 79507);
    lemma_powmod_step(43, 3, 79507, 170141183460469231731687303715884105727, false, 6321363049);
    lemma_powmod_step(43, 6, 6321363049, 170141183460469231731687303715884105727, true, 1718264124282290785243);
    lemma_powmod_step(43, 13, 1718264124282290785243, 170141183460469231731687303715884105727, false, 141785389525524709121037619088543994145);
    lemma_powmod_step(43, 26, 141785389525524709121037619088543994145, 170141183460469231731687303715884105727, true, 19019825969624933575039643439987501447);
    lemma_powmod_step(43, 53, 19019825969624933575039643439987501447, 170141183460469231731687303715884105727, true, 33763808352772969691837434325291913188);
    lemma_powmod_step(43, 107, 33763808352772969691837434325291913188, 170141183460469231731687303715884105727, true, 41069568445274085816339346028813176725);
    lemma_powmod_step(43, 215, 41069568445274085816339346028813176725, 170141183460469231731687303715884105727, true, 128870963168882616347379991749803660039);
    lemma_powmod_step(43, 431, 128870963168882616347379991749803660039, 170141183460469231731687303715884105727, false, 55580980083267805232304933536061608155);
    lemma_powmod_step(43, 862, 55580980083267805232304933536061608155, 170141183460469231731687303715884105727, false, 165552463918108325066099901226487245313);
    lemma_powmod_step(43, 1724, 165552463918108325066099901226487245313, 170141183460469231731687303715884105727, true, 100785632983275591770706232020697867254);
    lemma_powmod_step(43, 3449, 100785632983275591770706232020697867254, 170141183460469231731687303715884105727, false, 47195814868122304014692480225404583477);
    lemma_powmod_step(43, 6898, 47195814868122304014692480225404583477, 170141183460469231731687303715884105727, true, 131008352947867108453635786806899233119);
    lemma_powmod_step(43, 13797, 131008352947867108453635786806899233119, 170141183460469231731687303715884105727, false, 117806877314375397427157598703281489311);
    lemma_powmod_step(43, 27594, 117806877314375397427157598703281489311, 170141183460469231731687303715884105727, false, 48101339411762686892263355221122305922);
    lemma_powmod_step(43, 55188, 48101339411762686892263355221122305922, 170141183460469231731687303715884105727, false, 60745887951988823657699176645950122860);
    lemma_powmod_step(43, 110376, 60745887951988823657699176645950122860, 170141183460469231731687303715884105727, false, 135220917493301383118786752696231179873);
    lemma_powmod_step(43, 220752, 135220917493301383118786752696231179873, 170141183460469231731687303715884105727, true, 56431262391274673624748123768878923874);
    lemma_powmod_step(43, 441505, 56431262391274673624748123768878923874, 170141183460469231731687303715884105727, true, 6386250208974588055706716364334164122);
    lemma_powmod_step(43, 883011, 6386250208974588055706716364334164122, 170141183460469231731687303715884105727, false, 30183167037032156774072762085222750847);
    lemma_powmod_step(43, 1766022, 30183167037032156774072762085222750847, 170141183460469231731687303715884105727, true, 81668346394772507256790195315518904396);
    lemma_powmod_step(43, 3532045, 81668346394772507256790195315518904396, 170141183460469231731687303715884105727, false, 60139916470596202620651527029639778907);
    lemma_powmod_step(43, 7064090, 60139916470596202620651527029639778907, 170141183460469231731687303715884105727, true, 83635507837675986330748474115372809592);
    lemma_powmod_step(43, 14128181, 83635507837675986330748474115372809592, 170141183460469231731687303715884105727, true, 134766894672206382844259004252273776411);
    lemma_powmod_step(43, 28256363, 134766894672206382844259004252273776411, 170141183460469231731687303715884105727, true, 62347435909859181038733392330532782690);
    lemma_powmod_step(43, 56512727, 62347435909859181038733392330532782690, 170141183460469231731687303715884105727, true, 133306954250801676992283148459059651671);
    lemma_powmod_step(43, 113025455, 133306954250801676992283148459059651671, 170141183460469231731687303715884105727, false, 25842313718784860906339816072990652656);
    lemma_powmod_step(43, 226050910, 25842313718784860906339816072990652656, 170141183460469231731687303715884105727, false, 55982078909537998688665965933394226495);
    lemma_powmod_step(43, 452101820, 55982078909537998688665965933394226495, 170141183460469231731687303715884105727, true, 59000020520639961188135847316326200831);
    lemma_powmod_step(43, 904203641, 59000020520639961188135847316326200831, 170141183460469231731687303715884105727, false, 89104196081652564598465813947929023095);
    lemma_powmod_step(43, 1808407282, 89104196081652564598465813947929023095, 170141183460469231731687303715884105727, true, 156607569898877002954705801268396822293);
    lemma_powmod_step(43, 3616814565, 156607569898877002954705801268396822293, 170141183460469231731687303715884105727, false, 102046020190652345277262348852896868420);
    lemma_powmod_step(43, 7233629130, 102046020190652345277262348852896868420, 170141183460469231731687303715884105727, false, 49254145295354694555406663932338318344);
    lemma_powmod_step(43, 14467258260, 49254145295354694555406663932338318344, 170141183460469231731687303715884105727, false, 151745723944317610115367848865612460185);
    lemma_powmod_step(43, 28934516520, 151745723944317610115367848865612460185, 170141183460469231731687303715884105727, false, 159441589407648721985370475997308070789);
    lemma_powmod_step(43, 57869033040, 159441589407648721985370475997308070789, 170141183460469231731687303715884105727, true, 89369784518136466673981381428042539841);
    lemma_powmod_step(43, 115738066081, 89369784518136466673981381428042539841, 170141183460469231731687303715884105727, true, 122559534553977310622496425872606233715);
    lemma_powmod_step(43, 231476132163, 122559534553977310622496425872606233715, 170141183460469231731687303715884105727, false, 104055216790033775893935889590724209380);
    lemma_powmod_step(43, 462952264326, 104055216790033775893935889590724209380, 170141183460469231731687303715884105727, true, 84967495869505696811271633197954231028);
    lemma_powmod_step(43, 925904528653, 84967495869505696811271633197954231028, 170141183460469231731687303715884105727, false, 126920525303616473439326815445965275372);
    lemma_powmod_step(43, 1851809057306, 126920525303616473439326815445965275372, 170141183460469231731687303715884105727, true, 57981090630479665833456696296927038577);
    lemma_powmod_step(43, 3703618114613, 57981090630479665833456696296927038577, 170141183460469231731687303715884105727, true, 134977427041926297735568471196262259982);
    lemma_powmod_step(43, 7407236229227, 134977427041926297735568471196262259982, 170141183460469231731687303715884105727, true, 57832786095244729566456229016827774413);
    lemma_powmod_step(43, 14814472458455, 57832786095244729566456229016827774413, 170141183460469231731687303715884105727, true, 81193260160352317135100595137568421473);
    lemma_powmod_step(43, 29628944916911, 81193260160352317135100595137568421473, 170141183460469231731687303715884105727, false, 4766919236762566099616310669426965338);
    lemma_powmod_step(43, 59257889833822, 4766919236762566099616310669426965338, 170141183460469231731687303715884105727, false, 114740830153457884614593462182125978244);
    lemma_powmod_step(43, 118515779667644, 114740830153457884614593462182125978244, 170141183460469231731687303715884105727, true, 125928608241978856005860626873787289660);
    lemma_powmod_step(43, 237031559335289, 125928608241978856005860626873787289660, 170141183460469231731687303715884105727, false, 30312686193003646825903994801369921393);
    lemma_powmod_step(43, 474063118670578, 30312686193003646825903994801369921393, 170141183460469231731687303715884105727, true, 162562323411317178696485720158089210942);
    lemma_powmod_step(43, 948126237341157, 162562323411317178696485720158089210942, 170141183460469231731687303715884105727, false, 4769466441571211771071884926641965916);
    lemma_powmod_step(43, 1896252474682314, 4769466441571211771071884926641965916, 170141183460469231731687303715884105727, false, 158286998188373596676740646147746834035);
    lemma_powmod_step(43, 3792504949364628, 158286998188373596676740646147746834035, 170141183460469231731687303715884105727, false, 2140461938841017863595332740702985934);
    lemma_powmod_step(43, 7585009898729256, 2140461938841017863595332740702985934, 170141183460469231731687303715884105727, false, 96632706216625341329560013692682643558);
    lemma_powmod_step(43, 15170019797458512, 96632706216625341329560013692682643558, 170141183460469231731687303715884105727, true, 155083661501825847076469218905042915500);
    lemma_powmod_step(43, 30340039594917025, 155083661501825847076469218905042915500, 170141183460469231731687303715884105727, true, 57853778489633484531210201198132944814);
    lemma_powmod_step(43, 60680079189834051, 57853778489633484531210201198132944814, 170141183460469231731687303715884105727, false, 166267233445410158602967456163555156038);
    lemma_powmod_step(43, 121360158379668102, 166267233445410158602967456163555156038, 170141183460469231731687303715884105727, true, 109546383119922807577747402810673761396);
    lemma_powmod_step(43, 242720316759336205, 109546383119922807577747402810673761396, 170141183460469231731687303715884105727, false, 16878892932101346736888669176423588030);
    lemma_powmod_step(43, 485440633518672410, 16878892932101346736888669176423588030, 170141183460469231731687303715884105727, true, 136534400868640511716434366414098252997);
    lemma_powmod_step(43, 970881267037344821, 136534400868640511716434366414098252997, 170141183460469231731687303715884105727, true, 49406630086126138924303798454881490193);
    lemma_powmod_step(43, 1941762534074689643, 49406630086126138924303798454881490193, 170141183460469231731687303715884105727, true, 93542973793537373648949513834415354820);
    lemma_powmod_step(43, 3883525068149379287, 93542973793537373648949513834415354820, 170141183460469231731687303715884105727, true, 92837929927274434195384301332720847749);
    lemma_powmod_step(43, 7767050136298758575, 92837929927274434195384301332720847749, 170141183460469231731687303715884105727, false, 44448070179964908162632664757310445929);
    lemma_powmod_step(43, 15534100272597517150, 44448070179964908162632664757310445929, 170141183460469231731687303715884105727, false, 81780059603709553844389978844055762385);
    lemma_powmod_step(43, 31068200545195034300, 81780059603709553844389978844055762385, 170141183460469231731687303715884105727, true, 96568872365046065006537095555340892362);
    lemma_powmod_step(43, 62136401090390068601, 96568872365046065006537095555340892362, 170141183460469231731687303715884105727, false, 158131959043152215620237285285314016361);
    lemma_powmod_step(43, 124272802180780137202, 158131959043152215620237285285314016361, 170141183460469231731687303715884105727, true, 68852790132370190640326630919182785299);
    lemma_powmod_step(43, 248545604361560274405, 68852790132370190640326630919182785299, 170141183460469231731687303715884105727, false, 89129509816452691080404734091668502120);
    lemma_powmod_step(43, 497091208723120548810, 89129509816452691080404734091668502120, 170141183460469231731687303715884105727, false, 18183854097111116684638474989170606243);
    lemma_powmod_step(43, 994182417446241097620, 18183854097111116684638474989170606243, 170141183460469231731687303715884105727, false, 95332024665705549287724396505471522426);
    lemma_powmod_step(43, 1988364834892482195240, 95332024665705549287724396505471522426, 170141183460469231731687303715884105727, false, 62969591767570296200727563201660901460);
    lemma_powmod_step(43, 3976729669784964390480, 62969591767570296200727563201660901460, 170141183460469231731687303715884105727, true, 76023558622592168031230922908260455904);
    lemma_powmod_step(43, 7953459339569928780961, 76023558622592168031230922908260455904, 170141183460469231731687303715884105727, true, 58999657289576929589204256033503918251);
    lemma_powmod_step(43, 15906918679139857561923, 58999657289576929589204256033503918251, 170141183460469231731687303715884105727, false, 56586657498847652165718014582232375146);
    lemma_powmod_step(43, 31813837358279715123846, 56586657498847652165718014582232375146, 170141183460469231731687303715884105727, true, 100125007484401418623395804717551039413);
    lemma_powmod_step(43, 63627674716559430247693, 100125007484401418623395804717551039413, 170141183460469231731687303715884105727, false, 78553835964305867619318746037061249670);
    lemma_powmod_step(43, 127255349433118860495386, 78553835964305867619318746037061249670, 170141183460469231731687303715884105727, true, 53089895651831129810018993475008441362);
    lemma_powmod_step(43, 254510698866237720990773, 53089895651831129810018993475008441362, 170141183460469231731687303715884105727, true, 112950948996946654631780733547764280852);
    lemma_powmod_step(43, 509021397732475441981547, 112950948996946654631780733547764280852, 170141183460469231731687303715884105727, true, 80422891276446209323213771603614214395);
    lemma_powmod_step(43, 1018042795464950883963095, 80422891276446209323213771603614214395, 170141183460469231731687303715884105727, true, 41560767226828338166348845855598414710);
    lemma_powmod_step(43, 2036085590929901767926191, 41560767226828338166348845855598414710, 170141183460469231731687303715884105727, false, 18220541908606973565519322093476250321);
    lemma_powmod_step(43, 4072171181859803535852382, 18220541908606973565519322093476250321, 170141183460469231731687303715884105727, false, 59011922315886414902796889155729279955);
    lemma_powmod_step(43, 8144342363719607071704764, 59011922315886414902796889155729279955, 170141183460469231731687303715884105727, true, 65265249236318566638723687648806614324);
    lemma_powmod_step(43, 16288684727439214143409529, 65265249236318566638723687648806614324, 170141183460469231731687303715884105727, false, 87772939638025239269631007574409732481);
    lemma_powmod_step(43, 32577369454878428286819058, 87772939638025239269631007574409732481, 170141183460469231731687303715884105727, true, 47269759843118518959595789982036346809);
    lemma_powmod_step(43, 65154738909756856573638117, 47269759843118518959595789982036346809, 170141183460469231731687303715884105727, false, 96561191127920379021377576073393411034);
    lemma_powmod_step(43, 130309477819513713147276234, 96561191127920379021377576073393411034, 170141183460469231731687303715884105727, false, 149906796572690697891473845446066776108);
    lemma_powmod_step(43, 260618955639027426294552468, 149906796572690697891473845446066776108, 170141183460469231731687303715884105727, false, 88994573078118278349441671049683174603);
    lemma_powmod_step(43, 521237911278054852589104936, 88994573078118278349441671049683174603, 170141183460469231731687303715884105727, false, 134749692733055002396621974818591102892);
    lemma_powmod_step(43, 1042475822556109705178209872, 134749692733055002396621974818591102892, 170141183460469231731687303715884105727, true, 89607058003193736474919691789275240784);
    lemma_powmod_step(43, 2084951645112219410356419745, 89607058003193736474919691789275240784, 170141183460469231731687303715884105727, true, 30470964071176119060404475839622981627);
    lemma_powmod_step(43, 4169903290224438820712839491, 30470964071176119060404475839622981627, 170141183460469231731687303715884105727, false, 167049052264170727232593194990300926006);
    lemma_powmod_step(43, 8339806580448877641425678982, 167049052264170727232593194990300926006, 170141183460469231731687303715884105727, true, 100779856865075545261656459917469643873);
    lemma_powmod_step(43, 16679613160897755282851357965, 100779856865075545261656459917469643873, 170141183460469231731687303715884105727, false, 79847553157617321897673612017231865260);
    lemma_powmod_step(43, 33359226321795510565702715930, 79847553157617321897673612017231865260, 170141183460469231731687303715884105727, true, 150449483381877210645759267139718921950);
    lemma_powmod_step(43, 66718452643591021131405431861, 150449483381877210645759267139718921950, 170141183460469231731687303715884105727, true, 95583834452929803490189583878444268661);
    lemma_powmod_step(43, 133436905287182042262810863723, 95583834452929803490189583878444268661, 170141183460469231731687303715884105727, true, 28893216275982509563167327090347242607);
    lemma_powmod_step(43, 266873810574364084525621727447, 28893216275982509563167327090347242607, 170141183460469231731687303715884105727, true, 159740838765492094137277173230065652840);
    lemma_powmod_step(43, 533747621148728169051243454895, 159740838765492094137277173230065652840, 170141183460469231731687303715884105727, false, 68926092433072228528976648549441257403);
    lemma_powmod_step(43, 1067495242297456338102486909790, 68926092433072228528976648549441257403, 170141183460469231731687303715884105727, false, 168579990458053623864370434923789490705);
    lemma_powmod_step(43, 2134990484594912676204973819580, 168579990458053623864370434923789490705, 170141183460469231731687303715884105727, true, 40046434168312143714963817167480437401);
    lemma_powmod_step(43, 4269980969189825352409947639161, 40046434168312143714963817167480437401, 170141183460469231731687303715884105727, false, 3899024257424171456393288023587362559);
    lemma_powmod_step(43, 8539961938379650704819895278322, 3899024257424171456393288023587362559, 170141183460469231731687303715884105727, true, 110345258826495385608917408370568635764);
    lemma_powmod_step(43, 17079923876759301409639790556645, 110345258826495385608917408370568635764, 170141183460469231731687303715884105727, false, 122374099109363504913036008083827097038);
    lemma_powmod_step(43, 34159847753518602819279581113290, 122374099109363504913036008083827097038, 170141183460469231731687303715884105727, false, 52795637833471939635225699509624699394);
    lemma_powmod_step(43, 68319695507037205638559162226580, 52795637833471939635225699509624699394, 170141183460469231731687303715884105727, false, 90453804702702902457755661901790341205);
    lemma_powmod_step(43, 136639391014074411277118324453160, 90453804702702902457755661901790341205, 170141183460469231731687303715884105727, false, 139489701470658479593514856705529634840);
    lemma_powmod_step(43, 273278782028148822554236648906320, 139489701470658479593514856705529634840, 170141183460469231731687303715884105727, true, 114856447902584275371431770311691081706);
    lemma_powmod_step(43, 546557564056297645108473297812641, 114856447902584275371431770311691081706, 170141183460469231731687303715884105727, true, 159139958173346097038818067325248913009);
    lemma_powmod_step(43, 1093115128112595290216946595625283, 159139958173346097038818067325248913009, 170141183460469231731687303715884105727, false, 36168877064353595781092572713794657412);
    lemma_powmod_step(43, 2186230256225190580433893191250566, 36168877064353595781092572713794657412, 170141183460469231731687303715884105727, true, 166602995820461305481840313491234947078);
    lemma_powmod_step(43, 4372460512450381160867786382501133, 166602995820461305481840313491234947078, 170141183460469231731687303715884105727, false, 38351719547214637194620688829804081083);
    lemma_powmod_step(43, 8744921024900762321735572765002266, 38351719547214637194620688829804081083, 170141183460469231731687303715884105727, true, 101695975750267753321199406840229561554);
    lemma_powmod_step(43, 17489842049801524643471145530004533, 101695975750267753321199406840229561554, 170141183460469231731687303715884105727, true, 18126412029616973629676096915860110148);
    lemma_powmod_step(43, 34979684099603049286942291060009067, 18126412029616973629676096915860110148, 170141183460469231731687303715884105727, true, 103657324494576339645442012262231601407);
    lemma_powmod_step(43, 69959368199206098573884582120018135, 103657324494576339645442012262231601407, 170141183460469231731687303715884105727, true, 140381802957798654247407197020258405836);
    lemma_powmod_step(43, 139918736398412197147769164240036271, 140381802957798654247407197020258405836, 170141183460469231731687303715884105727, false, 69274769484509180200977133041818265950);
    lemma_powmod_step(43, 279837472796824394295538328480072542, 69274769484509180200977133041818265950, 170141183460469231731687303715884105727, false, 121754113599701106125034779268982726557);
    lemma_powmod_step(43, 559674945593648788591076656960145084, 121754113599701106125034779268982726557, 170141183460469231731687303715884105727, true, 169248300430219901000953660797056983538);
    lemma_powmod_step(43, 1119349891187297577182153313920290169, 169248300430219901000953660797056983538, 170141183460469231731687303715884105727, false, 128158212886543095705038663613600994286);
    lemma_powmod_step(43, 2238699782374595154364306627840580338, 128158212886543095705038663613600994286, 170141183460469231731687303715884105727, true, 146610283995688372578796630153329933297);
    lemma_powmod_step(43, 4477399564749190308728613255681160677, 146610283995688372578796630153329933297, 170141183460469231731687303715884105727, false, 135637860480549721617051963495725392232);
}

/// 43^3956771708383005389109007063160095482 mod 170141183460469231731687303715884105727.
proof fn lemma_pow_q_43_2fa0be82fa0be82fa0be82fa0be82fa()
    ensures
        pow(43, 3956771708383005389109007063160095482) % 170141183460469231731687303715884105727 == 88774862635528948722075669308649704181,
{
    lemma_powmod_start(43, 170141183460469231731687303715884105727);
    lemma_powmod_step(43, 1, 43, 170141183460469231731687303715884105727, false, 1849);
    lemma_powmod_step(43, 2, 1849, 170141183460469231731687303715884105727, true, 147008443);
    lemma_powmod_step(43, 5, 147008443, 170141183460469231731687303715884105727, true, 929293739471222707);
    lemma_powmod_step(43, 11, 929293739471222707, 170141183460469231731687303715884105727, true, 37134234731477575983465092780473537507);
    lemma_powmod_step(43, 23, 37134234731477575983465092780473537507, 170141183460469231731687303715884105727, true, 141918610652141781462149602033329966592);
    lemma_powmod_step(43, 47, 141918610652141781462149602033329966592, 170141183460469231731687303715884105727, true, 160042292202710101764921257542788583417);
    lemma_powmod_step(43, 95, 160042292202710101764921257542788583417, 170141183460469231731687303715884105727, false, 41041707929465643273183091515460015011);
    lemma_powmod_step(43, 190, 41041707929465643273183091515460015011, 170141183460469231731687303715884105727, true, 46537383695097347451237844556177867378);
    lemma_powmod_step(43, 381, 46537383695097347451237844556177867378, 170141183460469231731687303715884105727, false, 122267915542492561640669608073776557984);
    lemma_powmod_step(43, 762, 122267915542492561640669608073776557984, 170141183460469231731687303715884105727, false, 111217189954415457757279908567706740702);
    lemma_powmod_step(43, 1524, 111217189954415457757279908567706740702, 170141183460469231731687303715884105727, false, 159918141633763057032009353468314748476);
    lemma_powmod_step(43, 3048, 159918141633763057032009353468314748476, 170141183460469231731687303715884105727, false, 148909687868446300626609028777968517042);
    lemma_powmod_step(43, 6096, 148909687868446300626609028777968517042, 170141183460469231731687303715884105727, false, 157135288740518734684941483722333979387);
    lemma_powmod_step(43, 12192, 157135288740518734684941483722333979387, 170141183460469231731687303715884105727, true, 141238361992735699359520081588516598091);
    lemma_powmod_step(43, 24385, 141238361992735699359520081588516598091, 170141183460469231731687303715884105727, false, 137661915499674000658711372068796048733);
    lemma_powmod_step(43, 48770, 137661915499674000658711372068796048733, 170141183460469231731687303715884105727, true, 33407282767359072516231128349979291423);
    lemma_powmod_step(43, 97541, 33407282767359072516231128349979291423, 170141183460469231731687303715884105727, true, 32096873127686956306612859014534689599);
    lemma_powmod_step(43, 195083, 32096873127686956306612859014534689599, 170141183460469231731687303715884105727, true, 40747134888129428504933366197775702342);
    lemma_powmod_step(43, 390167, 40747134888129428504933366197775702342, 170141183460469231731687303715884105727, true, 37471809918485876321211862306159886354);
    lemma_powmod_step(43, 780335, 37471809918485876321211862306159886354, 170141183460469231731687303715884105727, true, 138919445717053593380637804724693514854);
    lemma_powmod_step(43, 1560671, 138919445717053593380637804724693514854, 170141183460469231731687303715884105727, false, 144978471508683946071396608383683640252);
    lemma_powmod_step(43, 3121342, 144978471508683946071396608383683640252, 170141183460469231731687303715884105727, true, 151903726369389623423941972616715871648);
    lemma_powmod_step(43, 6242685, 151903726369389623423941972616715871648, 170141183460469231731687303715884105727, false, 82265800093382776373295814811956260171);
    lemma_powmod_step(43, 12485370, 82265800093382776373295814811956260171, 170141183460469231731687303715884105727, false, 11436349658304533857439206840101990399);
    lemma_powmod_step(43, 24970740, 11436349658304533857439206840101990399, 170141183460469231731687303715884105727, false, 63209631098404491781932658189048516374);
    lemma_powmod_step(43, 49941480, 63209631098404491781932658189048516374, 170141183460469231731687303715884105727, false, 156814362012556264528683634355116040896);
    lemma_powmod_step(43, 99882960, 156814362012556264528683634355116040896, 170141183460469231731687303715884105727, false, 107862859450064381667217635830103030737);
    lemma_powmod_step(43, 199765920, 107862859450064381667217635830103030737, 170141183460469231731687303715884105727, true, 41497121073466474540939630915274371236);
    lemma_powmod_step(43, 399531841, 41497121073466474540939630915274371236, 170141183460469231731687303715884105727, false, 73139861344944939710914865341182291887);
    lemma_powmod_step(43, 799063682, 73139861344944939710914865341182291887, 170141183460469231731687303715884105727, true, 77533475609127614386186185781870045792);
    lemma_powmod_step(43, 1598127365, 77533475609127614386186185781870045792, 170141183460469231731687303715884105727, true, 50193272176912989875656589490180425521);
    lemma_powmod_step(43, 3196254731, 50193272176912989875656589490180425521, 170141183460469231731687303715884105727, true, 15726922479715559105283058641770880093);
    lemma_powmod_step(43, 6392509463, 15726922479715559105283058641770880093, 170141183460469231731687303715884105727, true, 133090407591987160375506082261046500896);
    lemma_powmod_step(43, 12785018927, 133090407591987160375506082261046500896, 170141183460469231731687303715884105727, true, 157717295173877957792148753854836427225);
    lemma_powmod_step(43, 25570037855, 157717295173877957792148753854836427225, 170141183460469231731687303715884105727, false, 96598117218679298657947848748598186118);
    lemma_powmod_step(43, 51140075710, 96598117218679298657947848748598186118, 170141183460469231731687303715884105727, true, 26072335968236846166266574604186926479);
    lemma_powmod_step(43, 102280151421, 26072335968236846166266574604186926479, 170141183460469231731687303715884105727, false, 86288315706691050680789081088421392344);
    lemma_powmod_step(43, 204560302842, 86288315706691050680789081088421392344, 170141183460469231731687303715884105727, false, 154099527607588186216941636331730977759);
    lemma_powmod_step(43, 409120605684, 154099527607588186216941636331730977759, 170141183460469231731687303715884105727, false, 102202482337610579870025022337882927059);
    lemma_powmod_step(43, 818241211368, 102202482337610579870025022337882927059, 170141183460469231731687303715884105727, false, 156329503891368235931842124306825552609);
    lemma_powmod_step(43, 1636482422736, 156329503891368235931842124306825552609, 170141183460469231731687303715884105727, false, 115695338085084991230770474168777764011);
    lemma_powmod_step(43, 3272964845472, 115695338085084991230770474168777764011, 170141183460469231731687303715884105727, true, 95795351656247052450451793511674020326);
    lemma_powmod_step(43, 6545929690945, 95795351656247052450451793511674020326, 170141183460469231731687303715884105727, false, 91636572035330378429733838556180172708);
    lemma_powmod_step(43, 13091859381890, 91636572035330378429733838556180172708, 170141183460469231731687303715884105727, true, 81574546049298567208460356501458940927);
    lemma_powmod_step(43, 26183718763781, 81574546049298567208460356501458940927, 170141183460469231731687303715884105727, true, 35167279634662858021576751725173919036);
    lemma_powmod_step(43, 52367437527563, 35167279634662858021576751725173919036, 170141183460469231731687303715884105727, true, 64472672606054031708846646476796772608);
    lemma_powmod_step(43, 104734875055127, 64472672606054031708846646476796772608, 170141183460469231731687303715884105727, true, 138685067241536042911193660646764867517);
    lemma_powmod_step(43, 209469750110255, 138685067241536042911193660646764867517, 170141183460469231731687303715884105727, true, 73977130315321506434101593771478943379);
    lemma_powmod_step(43, 418939500220511, 73977130315321506434101593771478943379, 170141183460469231731687303715884105727, false, 44236393545851125451356610820884622323);
    lemma_powmod_step(43, 837879000441022, 44236393545851125451356610820884622323, 170141183460469231731687303715884105727, true, 49045241252412425575833497852004977673);
    lemma_powmod_step(43, 1675758000882045, 49045241252412425575833497852004977673, 170141183460469231731687303715884105727, false, 70135284033093601732254205817717723631);
    lemma_powmod_step(43, 3351516001764090, 70135284033093601732254205817717723631, 170141183460469231731687303715884105727, false, 5760882021241237176472227501109043482);
    lemma_powmod_step(43, 6703032003528180, 5760882021241237176472227501109043482, 170141183460469231731687303715884105727, false, 148847520478999806871100317824421376557);
    lemma_powmod_step(43, 13406064007056360, 148847520478999806871100317824421376557, 170141183460469231731687303715884105727, false, 19654926049103948104434442749461366819);
    lemma_powmod_step(43, 26812128014112720, 19654926049103948104434442749461366819, 170141183460469231731687303715884105727, false, 68736804767204262195063967446031604268);
    lemma_powmod_step(43, 53624256028225440, 68736804767204262195063967446031604268, 170141183460469231731687303715884105727, true, 156783315116271780650817757459738062282);
    lemma_powmod_step(43, 107248512056450881, 156783315116271780650817757459738062282, 170141183460469231731687303715884105727, false, 35738316524672635390767266532688411262);
    lemma_powmod_step(43, 214497024112901762, 35738316524672635390767266532688411262, 170141183460469231731687303715884105727, true, 85165084747318955127015068631319814933);
    lemma_powmod_step(43, 428994048225803525, 85165084747318955127015068631319814933, 170141183460469231731687303715884105727, true, 4378885197632692547221652796279476217);
    lemma_powmod_step(43, 857988096451607051, 4378885197632692547221652796279476217, 170141183460469231731687303715884105727, true, 75621904627019230281090942370586155379);
    lemma_powmod_step(43, 1715976192903214103, 75621904627019230281090942370586155379, 170141183460469231731687303715884105727, true, 143045530457248257237689296204221261189);
    lemma_powmod_step(43, 3431952385806428207, 143045530457248257237689296204221261189, 170141183460469231731687303715884105727, true, 136524014868457890655329466625184193153);
    lemma_powmod_step(43, 6863904771612856415, 136524014868457890655329466625184193153, 170141183460469231731687303715884105727, false, 91123822226349533932622767910300400565);
    lemma_powmod_step(43, 13727809543225712830, 91123822226349533932622767910300400565, 170141183460469231731687303715884105727, true, 8681733799970867234868095434869594089);
    lemma_powmod_step(43, 27455619086451425661, 8681733799970867234868095434869594089, 170141183460469231731687303715884105727, false, 108725380365126808608568000325976122025);
    lemma_powmod_step(43, 54911238172902851322, 108725380365126808608568000325976122025, 170141183460469231731687303715884105727, false, 115821554721399502176428533378852463198);
    lemma_powmod_step(43, 109822476345805702644, 115821554721399502176428533378852463198, 170141183460469231731687303715884105727, false, 44535692578930879291755141503188619690);
    lemma_powmod_step(43, 219644952691611405288, 44535692578930879291755141503188619690, 170141183460469231731687303715884105727, false, 55321313326090741003287093385838792081);
    lemma_powmod_step(43, 439289905383222810576, 55321313326090741003287093385838792081, 170141183460469231731687303715884105727, false, 69058323582500292302761554805103134329);
    lemma_powmod_step(43, 878579810766445621152, 69058323582500292302761554805103134329, 170141183460469231731687303715884105727, true, 35372175360241477698783982130528067722);
    lemma_powmod_step(43, 1757159621532891242305, 35372175360241477698783982130528067722, 170141183460469231731687303715884105727, false, 38386157650402505189355338091613040919);
    lemma_powmod_step(43, 3514319243065782484610, 38386157650402505189355338091613040919, 170141183460469231731687303715884105727, true, 166372906150091475140506563300081708598);
    lemma_powmod_step(43, 7028638486131564969221, 166372906150091475140506563300081708598, 170141183460469231731687303715884105727, true, 104680184906980315458086522756317784991);
    lemma_powmod_step(43, 14057276972263129938443, 104680184906980315458086522756317784991, 170141183460469231731687303715884105727, true, 10823082040867680887098672300141904690);
    lemma_powmod_step(43, 28114553944526259876887, 10823082040867680887098672300141904690, 170141183460469231731687303715884105727, true, 10882996590877990987423938561677248788);
    lemma_powmod_step(43, 56229107889052519753775, 10882996590877990987423938561677248788, 170141183460469231731687303715884105727, true, 34188157422307533070438280641094030555);
    lemma_powmod_step(43, 112458215778105039507551, 34188157422307533070438280641094030555, 170141183460469231731687303715884105727, false, 79444880578208587916200625478621202517);
    lemma_powmod_step(43, 224916431556210079015102, 79444880578208587916200625478621202517, 170141183460469231731687303715884105727, true, 95919583953715459510732475630407810677);
    lemma_powmod_step(43, 449832863112420158030205, 95919583953715459510732475630407810677, 170141183460469231731687303715884105727, false, 90811579694555101686301411507939685035);
    lemma_powmod_step(43, 899665726224840316060410, 90811579694555101686301411507939685035, 170141183460469231731687303715884105727, false, 49528944242552286816320699837085310813);
    lemma_powmod_step(43, 1799331452449680632120820, 49528944242552286816320699837085310813, 170141183460469231731687303715884105727, false, 19794734113254846044013791737496635479);
    lemma_powmod_step(43, 3598662904899361264241640, 19794734113254846044013791737496635479, 170141183460469231731687303715884105727, false, 2870313829846521528887802618475128355);
    lemma_powmod_step(43, 7197325809798722528483280, 2870313829846521528887802618475128355, 170141183460469231731687303715884105727, false, 150844087253185326852169789126769272956);
    lemma_powmod_step(43, 14394651619597445056966560, 150844087253185326852169789126769272956, 170141183460469231731687303715884105727, true, 159907750470007058814963391001906441490);
    lemma_powmod_step(43, 28789303239194890113933121, 159907750470007058814963391001906441490, 170141183460469231731687303715884105727, false, 23161363003101611295273424244724971444);
    lemma_powmod_step(43, 57578606478389780227866242, 23161363003101611295273424244724971444, 170141183460469231731687303715884105727, true, 66068904209963436889157073437240295300);
    lemma_powmod_step(43, 115157212956779560455732485, 66068904209963436889157073437240295300, 170141183460469231731687303715884105727, true, 67831672314532555757734103115119555279);
    lemma_powmod_step(43, 230314425913559120911464971, 67831672314532555757734103115119555279, 170141183460469231731687303715884105727, true, 71239738582834724410733440887537943010);
    lemma_powmod_step(43, 460628851827118241822929943, 71239738582834724410733440887537943010, 170141183460469231731687303715884105727, true, 160973233165374741892304809355154110293);
    lemma_powmod_step(43, 921257703654236483645859887, 160973233165374741892304809355154110293, 170141183460469231731687303715884105727, true, 143286160316376846241288166927171943683);
    lemma_powmod_step(43, 1842515407308472967291719775, 143286160316376846241288166927171943683, 170141183460469231731687303715884105727, false, 137416872902517968702902312036586590224);
    lemma_powmod_step(43, 3685030814616945934583439550, 137416872902517968702902312036586590224, 170141183460469231731687303715884105727, true, 168163782281482469862273794657564570889);
    lemma_powmod_step(43, 7370061629233891869166879101, 168163782281482469862273794657564570889, 170141183460469231731687303715884105727, false, 28931322079887271675620707164016915000);
    lemma_powmod_step(43, 14740123258467783738333758202, 28931322079887271675620707164016915000, 170141183460469231731687303715884105727, false, 40497859724300453794168775800225345426);
    lemma_powmod_step(43, 29480246516935567476667516404, 40497859724300453794168775800225345426, 170141183460469231731687303715884105727, false, 7218511886543026468029800873374772287);
    lemma_powmod_step(43, 58960493033871134953335032808, 7218511886543026468029800873374772287, 170141183460469231731687303715884105727, false, 165699263762142807808960849416617494386);
    lemma_powmod_step(43, 117920986067742269906670065616, 165699263762142807808960849416617494386, 170141183460469231731687303715884105727, false, 15047855799367603144485646421377296221);
    lemma_powmod_step(43, 235841972135484539813340131232, 15047855799367603144485646421377296221, 170141183460469231731687303715884105727, true, 129315837080492975893272482254844108979);
    lemma_powmod_step(43, 471683944270969079626680262465, 129315837080492975893272482254844108979, 170141183460469231731687303715884105727, false, 43712517365318557618935858456297953457);
    lemma_powmod_step(43, 943367888541938159253360524930, 43712517365318557618935858456297953457, 170141183460469231731687303715884105727, true, 50933623366799732786494611818939114631);
    lemma_powmod_step(43, 1886735777083876318506721049861, 50933623366799732786494611818939114631, 170141183460469231731687303715884105727, true, 137251488951690962566249013074609486051);
    lemma_powmod_step(43, 3773471554167752637013442099723, 137251488951690962566249013074609486051, 170141183460469231731687303715884105727, true, 119648746334660187510143824465185722358);
    lemma_powmod_step(43, 7546943108335505274026884199447, 119648746334660187510143824465185722358, 170141183460469231731687303715884105727, true, 164550756382165467074446023826677190158);
    lemma_powmod_step(43, 15093886216671010548053768398895, 164550756382165467074446023826677190158, 170141183460469231731687303715884105727, true, 119775342553592906939612960937184229785);
    lemma_powmod_step(43, 30187772433342021096107536797791, 119775342553592906939612960937184229785, 170141183460469231731687303715884105727, false, 46301819859885884597990914744747048758);
    lemma_powmod_step(43, 60375544866684042192215073595582, 46301819859885884597990914744747048758, 170141183460469231731687303715884105727, true, 146030856740835837651915638479933837530);
    lemma_powmod_step(43, 120751089733368084384430147191165, 146030856740835837651915638479933837530, 170141183460469231731687303715884105727, false, 36453278105825389527685229983446206698);
    lemma_powmod_step(43, 241502179466736168768860294382330, 36453278105825389527685229983446206698, 170141183460469231731687303715884105727, false, 57207819038598600061260083141380371015);
    lemma_powmod_step(43, 483004358933472337537720588764660, 57207819038598600061260083141380371015, 170141183460469231731687303715884105727, false, 45117682847086585136637860889696309068);
    lemma_powmod_step(43, 966008717866944675075441177529320, 45117682847086585136637860889696309068, 170141183460469231731687303715884105727, false, 46972733270313131322205632990355496017);
    lemma_powmod_step(43, 1932017435733889350150882355058640, 46972733270313131322205632990355496017, 170141183460469231731687303715884105727, false, 137958091576341582373931996797569579384);
    lemma_powmod_step(43, 3864034871467778700301764710117280, 137958091576341582373931996797569579384, 170141183460469231731687303715884105727, true, 114640811772481849526670214727036056202);
    lemma_powmod_step(43, 7728069742935557400603529420234561, 114640811772481849526670214727036056202, 170141183460469231731687303715884105727, false, 166351946148806663754112614284950922147);
    lemma_powmod_step(43, 15456139485871114801207058840469122, 166351946148806663754112614284950922147, 170141183460469231731687303715884105727, true, 55721005224593610048282419784182915061);
    lemma_powmod_step(43, 30912278971742229602414117680938245, 55721005224593610048282419784182915061, 170141183460469231731687303715884105727, true, 159267058944361625529385518590918604536);
    lemma_powmod_step(43, 61824557943484459204828235361876491, 159267058944361625529385518590918604536, 170141183460469231731687303715884105727, true, 12312924237452060948701170679677075377);
    lemma_powmod_step(43, 123649115886968918409656470723752983, 12312924237452060948701170679677075377, 170141183460469231731687303715884105727, true, 169259037818907475870447288242691014760);
    lemma_powmod_step(43, 247298231773937836819312941447505967, 169259037818907475870447288242691014760, 170141183460469231731687303715884105727, true, 146165679737909719518015679127713062827);
    lemma_powmod_step(43, 494596463547875673638625882895011935, 146165679737909719518015679127713062827, 170141183460469231731687303715884105727, false, 150893889063634013309113179702979683286);
    lemma_powmod_step(43, 989192927095751347277251765790023870, 150893889063634013309113179702979683286, 170141183460469231731687303715884105727, true, 153226007148064020036915797979666227736);
    lemma_powmod_step(43, 1978385854191502694554503531580047741, 153226007148064020036915797979666227736, 170141183460469231731687303715884105727, false, 88774862635528948722075669308649704181);
}

/// 43^2330701143294099064817634297477864462 mod 170141183460469231731687303715884105727.
proof fn lemma_pow_q_43_1c0e070381c0e070381c0e070381c0e()
    ensures
        pow(43, 2330701143294099064817634297477864462) % 170141183460469231731687303715884105727 == 56792469864250676510438613997511014270,
{
    lemma_powmod_start(43, 170141183460469231731687303715884105727);
    lemma_powmod_step(43, 1, 43, 170141183460469231731687303715884105727, true, 79507);
    lemma_powmod_step(43, 3, 79507, 170141183460469231731687303715884105727, true, 271818611107);
    lemma_powmod_step(43, 7, 271818611107, 170141183460469231731687303715884105727, false, 73885357344138503765449);
    lemma_powmod_step(43, 14, 73885357344138503765449, 170141183460469231731687303715884105727, false, 143762703572570298000109972256322354525);
    lemma_powmod_step(43, 28, 143762703572570298000109972256322354525, 170141183460469231731687303715884105727, false, 164605953779531351171862860024229950780);
    lemma_powmod_step(43, 56, 164605953779531351171862860024229950780, 170141183460469231731687303715884105727, false, 80668386490097570200264044894454861160);
    lemma_powmod_step(43, 112, 80668386490097570200264044894454861160, 170141183460469231731687303715884105727, false, 141848283802030613169992594077877008107);
    lemma_powmod_step(43, 224, 141848283802030613169992594077877008107, 170141183460469231731687303715884105727, false, 101024679547658531613797616815141980905);
    lemma_powmod_step(43, 448, 101024679547658531613797616815141980905, 170141183460469231731687303715884105727, true, 154579949439551925088345299871133999662);
    lemma_powmod_step(43, 897, 154579949439551925088345299871133999662, 170141183460469231731687303715884105727, true, 63408188529725140674094686625176529547);
    lemma_powmod_step(43, 1795, 63408188529725140674094686625176529547, 170141183460469231731687303715884105727, true, 81326726717945036718811202076729830534);
    lemma_powmod_step(43, 3591, 81326726717945036718811202076729830534, 170141183460469231731687303715884105727, false, 140344192951401962086502901779060434373);
    lemma_powmod_step(43, 7182, 140344192951401962086502901779060434373, 170141183460469231731687303715884105727, false, 21419212557593114907802115481879029518);
    lemma_powmod_step(43, 14364, 21419212557593114907802115481879029518, 170141183460469231731687303715884105727, false, 21046156907158079601739878089818851053);
    lemma_powmod_step(43, 28728, 21046156907158079601739878089818851053, 170141183460469231731687303715884105727, false, 123782901540001761237708954447724196072);
    lemma_powmod_step(43, 57456, 123782901540001761237708954447724196072, 170141183460469231731687303715884105727, false, 67682476392393193548130399197722788326);
    lemma_powmod_step(43, 114912, 67682476392393193548130399197722788326, 170141183460469231731687303715884105727, false, 15698716782910025516698710350255956165);
    lemma_powmod_step(43, 229824, 15698716782910025516698710350255956165, 170141183460469231731687303715884105727, true, 78931782890497594537830737887351630094);
    lemma_powmod_step(43, 459649, 78931782890497594537830737887351630094, 170141183460469231731687303715884105727, true, 69856666813476334722863557437835822925);
    lemma_powmod_step(43, 919299, 69856666813476334722863557437835822925, 170141183460469231731687303715884105727, true, 165468487869302017736232957363611874085);
    lemma_powmod_step(43, 1838599, 165468487869302017736232957363611874085, 170141183460469231731687303715884105727, false, 155391283726924476392053626223188683713);
    lemma_powmod_step(43, 3677198, 155391283726924476392053626223188683713, 170141183460469231731687303715884105727, false, 67526786991312839137599534984554661221);
    lemma_powmod_step(43, 7354396, 67526786991312839137599534984554661221, 170141183460469231731687303715884105727, false, 55984639077908108967128498795565674378);
    lemma_powmod_step(43, 14708792, 55984639077908108967128498795565674378, 170141183460469231731687303715884105727, false, 95055072650128725007954710357872494956);
    lemma_powmod_step(43, 29417584, 95055072650128725007954710357872494956, 170141183460469231731687303715884105727, false, 42679417286839183994195730196881734717);
    lemma_powmod_step(43, 58835168, 42679417286839183994195730196881734717, 170141183460469231731687303715884105727, false, 97454536980337261268843939027055130506);
    lemma_powmod_step(43, 117670336, 97454536980337261268843939027055130506, 170141183460469231731687303715884105727, true, 128366192446470188390175586502639614143);
    lemma_powmod_step(43, 235340673, 128366192446470188390175586502639614143, 170141183460469231731687303715884105727, true, 85619112880479391004161028831823844914);
    lemma_powmod_step(43, 470681347, 85619112880479391004161028831823844914, 170141183460469231731687303715884105727, true, 105386352944802873516931707532887081409);
    lemma_powmod_step(43, 941362695, 105386352944802873516931707532887081409, 170141183460469231731687303715884105727, false, 49932157680436536419178532805239750023);
    lemma_powmod_step(43, 1882725390, 49932157680436536419178532805239750023, 170141183460469231731687303715884105727, false, 40152910386566004036812622574555713746);
    lemma_powmod_step(43, 3765450780, 40152910386566004036812622574555713746, 170141183460469231731687303715884105727, false, 111246177328826647352191984289502674681);
    lemma_powmod_step(43, 7530901560, 111246177328826647352191984289502674681, 170141183460469231731687303715884105727, false, 60120702264065162645589996903680662208);
    lemma_powmod_step(43, 15061803120, 60120702264065162645589996903680662208, 170141183460469231731687303715884105727, false, 4791708311355693237851826988127764852);
    lemma_powmod_step(43, 30123606240, 4791708311355693237851826988127764852, 170141183460469231731687303715884105727, false, 132931677292132797180886443268718246355);
    lemma_powmod_step(43, 60247212480, 132931677292132797180886443268718246355, 170141183460469231731687303715884105727, true, 140993005980468735900937562974934882903);
    lemma_powmod_step(43, 120494424961, 140993005980468735900937562974934882903, 170141183460469231731687303715884105727, true, 33748186601807024273782858338626124349);
    lemma_powmod_step(43, 240988849923, 33748186601807024273782858338626124349, 170141183460469231731687303715884105727, true, 127382910305665099789612777597812151673);
    lemma_powmod_step(43, 481977699847, 127382910305665099789612777597812151673, 170141183460469231731687303715884105727, false, 163214215682034477420301976055869592978);
    lemma_powmod_step(43, 963955399694, 163214215682034477420301976055869592978, 170141183460469231731687303715884105727, false, 102934700588878941977238660507473418724);
    lemma_powmod_step(43, 1927910799388, 102934700588878941977238660507473418724, 170141183460469231731687303715884105727, false, 42364723633790050297024971025208438354);
    lemma_powmod_step(43, 3855821598776, 42364723633790050297024971025208438354, 170141183460469231731687303715884105727, false, 89155945124374365339964709363154430000);
    lemma_powmod_step(43, 7711643197552, 89155945124374365339964709363154430000, 170141183460469231731687303715884105727, false, 143856738168479348118778314026402312951);
    lemma_powmod_step(43, 15423286395104, 143856738168479348118778314026402312951, 170141183460469231731687303715884105727, false, 122295682027736692371469219158589443290);
    lemma_powmod_step(43, 30846572790208, 122295682027736692371469219158589443290, 170141183460469231731687303715884105727, true, 127969771004784527278448989306733546988);
    lemma_powmod_step(43, 61693145580417, 127969771004784527278448989306733546988, 170141183460469231731687303715884105727, true, 4438526846461141979431974592210747835);
    lemma_powmod_step(43, 123386291160835, 4438526846461141979431974592210747835, 170141183460469231731687303715884105727, true, 48503638423362024822600236954194327473);
    lemma_powmod_step(43, 246772582321671, 48503638423362024822600236954194327473, 170141183460469231731687303715884105727, false, 73611956194853691088460142019665539815);
    lemma_powmod_step(43, 493545164643342, 73611956194853691088460142019665539815, 170141183460469231731687303715884105727, false, 12760905895797679315531301528095092542);
    lemma_powmod_step(43, 987090329286684, 12760905895797679315531301528095092542, 170141183460469231731687303715884105727, false, 114436935274491874518296344680556530267);
    lemma_powmod_step(43, 1974180658573368, 114436935274491874518296344680556530267, 170141183460469231731687303715884105727, false, 26230948388402144585228782814269944734);
    lemma_powmod_step(43, 3948361317146736, 26230948388402144585228782814269944734, 170141183460469231731687303715884105727, false, 142384430430074850658501378631328592033);
    lemma_powmod_step(43, 7896722634293472, 142384430430074850658501378631328592033, 170141183460469231731687303715884105727, false, 131053436233393507427399321802299376684);
    lemma_powmod_step(43, 15793445268586944, 131053436233393507427399321802299376684, 170141183460469231731687303715884105727, true, 36289687080107626759713862745216684893);
    lemma_powmod_step(43, 31586890537173889, 36289687080107626759713862745216684893, 170141183460469231731687303715884105727, true, 31334472029591702812230475395585063108);
    lemma_powmod_step(43, 63173781074347779, 31334472029591702812230475395585063108, 170141183460469231731687303715884105727, true, 90806766166693506232475262539717746027);
    lemma_powmod_step(43, 126347562148695559, 90806766166693506232475262539717746027, 170141183460469231731687303715884105727, false, 144968870588094466221357220468315889639);
    lemma_powmod_step(43, 252695124297391118, 144968870588094466221357220468315889639, 170141183460469231731687303715884105727, false, 70112814210390450968200264105752514997);
    lemma_powmod_step(43, 505390248594782236, 70112814210390450968200264105752514997, 170141183460469231731687303715884105727, false, 146157521741857041116730214537087496697);
    lemma_powmod_step(43, 1010780497189564472, 146157521741857041116730214537087496697, 170141183460469231731687303715884105727, false, 46963571609133707053635010783738768005);
    lemma_powmod_step(43, 2021560994379128944, 46963571609133707053635010783738768005, 170141183460469231731687303715884105727, false, 149540202620456322696232569186146882991);
    lemma_powmod_step(43, 4043121988758257888, 149540202620456322696232569186146882991, 170141183460469231731687303715884105727, false, 1589923213051445655623833010508642585);
    lemma_powmod_step(43, 8086243977516515776, 1589923213051445655623833010508642585, 170141183460469231731687303715884105727, true, 46398184015395636365927007020973010063);
    lemma_powmod_step(43, 16172487955033031553, 46398184015395636365927007020973010063, 170141183460469231731687303715884105727, true, 101725642624840181078113866661488550559);
    lemma_powmod_step(43, 32344975910066063107, 101725642624840181078113866661488550559, 170141183460469231731687303715884105727, true, 14336070905316879655930288123304412126);
    lemma_powmod_step(43, 64689951820132126215, 14336070905316879655930288123304412126, 170141183460469231731687303715884105727, false, 94327033824510381410214884931892723786);
    lemma_powmod_step(43, 129379903640264252430, 94327033824510381410214884931892723786, 170141183460469231731687303715884105727, false, 157646708221508283042631279752405260555);
    lemma_powmod_step(43, 258759807280528504860, 157646708221508283042631279752405260555, 170141183460469231731687303715884105727, false, 12745700347231771298453310062429858355);
    lemma_powmod_step(43, 517519614561057009720, 12745700347231771298453310062429858355, 170141183460469231731687303715884105727, false, 96461407088578279297510507892389034629);
    lemma_powmod_step(43, 1035039229122114019440, 96461407088578279297510507892389034629, 170141183460469231731687303715884105727, false, 81562505286837789016274334475170438590);
    lemma_powmod_step(43, 2070078458244228038880, 81562505286837789016274334475170438590, 170141183460469231731687303715884105727, false, 166779029494210776248829656288488843456);
    lemma_powmod_step(43, 4140156916488456077760, 166779029494210776248829656288488843456, 170141183460469231731687303715884105727, true, 74643644633461334811548601566490556856);
    lemma_powmod_step(43, 8280313832976912155521, 74643644633461334811548601566490556856, 170141183460469231731687303715884105727, true, 146785566533988671348016201708403472173);
    lemma_powmod_step(43, 16560627665953824311043, 146785566533988671348016201708403472173, 170141183460469231731687303715884105727, true, 169102400029681117002010316515153327159);
    lemma_powmod_step(43, 33121255331907648622087, 169102400029681117002010316515153327159, 170141183460469231731687303715884105727, false, 23344465340459818321544483861851427485);
    lemma_powmod_step(43, 66242510663815297244174, 23344465340459818321544483861851427485, 170141183460469231731687303715884105727, false, 70845812132169605215785890683285123542);
    lemma_powmod_step(43, 132485021327630594488348, 70845812132169605215785890683285123542, 170141183460469231731687303715884105727, false, 18552838451487766286013267468153065572);
    lemma_powmod_step(43, 264970042655261188976696, 18552838451487766286013267468153065572, 170141183460469231731687303715884105727, false, 99095297602631217088038858687117069491);
    lemma_powmod_step(43, 529940085310522377953392, 99095297602631217088038858687117069491, 170141183460469231731687303715884105727, false, 70931876871416107175559580896112056810);
    lemma_powmod_step(43, 1059880170621044755906784, 70931876871416107175559580896112056810, 170141183460469231731687303715884105727, false, 100638316705551018284587146113878044490);
    lemma_powmod_step(43, 2119760341242089511813568, 100638316705551018284587146113878044490, 170141183460469231731687303715884105727, true, 119072463375002514864559219185646966159);
    lemma_powmod_step(43, 4239520682484179023627137, 119072463375002514864559219185646966159, 170141183460469231731687303715884105727, true, 110118670193630055766374552622603149081);
    lemma_powmod_step(43, 8479041364968358047254275, 110118670193630055766374552622603149081, 170141183460469231731687303715884105727, true, 100560301438208702301827157915172377930);
    lemma_powmod_step(43, 16958082729936716094508551, 100560301438208702301827157915172377930, 170141183460469231731687303715884105727, false, 37165245402124410489797410342073320908);
    lemma_powmod_step(43, 33916165459873432189017102, 37165245402124410489797410342073320908, 170141183460469231731687303715884105727, false, 163531522066917351840350882693134210240);
    lemma_powmod_step(43, 67832330919746864378034204, 163531522066917351840350882693134210240, 170141183460469231731687303715884105727, false, 105678704048222953762826367964589143981);
    lemma_powmod_step(43, 135664661839493728756068408, 105678704048222953762826367964589143981, 170141183460469231731687303715884105727, false, 118447608829457232316389945947223580472);
    lemma_powmod_step(43, 271329323678987457512136816, 118447608829457232316389945947223580472, 170141183460469231731687303715884105727, false, 118436057480056249781614022525071295714);
    lemma_powmod_step(43, 542658647357974915024273632, 118436057480056249781614022525071295714, 170141183460469231731687303715884105727, false, 113629565066014313178913585889427707217);
    lemma_powmod_step(43, 1085317294715949830048547264, 113629565066014313178913585889427707217, 170141183460469231731687303715884105727, true, 120753837731568196235582545980642894772);
    lemma_powmod_step(43, 2170634589431899660097094529, 120753837731568196235582545980642894772, 170141183460469231731687303715884105727, true, 69080256944468698836295161847605898042);
    lemma_powmod_step(43, 4341269178863799320194189059, 69080256944468698836295161847605898042, 170141183460469231731687303715884105727, true, 20985369208840726347576273379591603001);
    lemma_powmod_step(43, 8682538357727598640388378119, 20985369208840726347576273379591603001, 170141183460469231731687303715884105727, false, 153731027414233451625573750496190229363);
    lemma_powmod_step(43, 17365076715455197280776756238, 153731027414233451625573750496190229363, 170141183460469231731687303715884105727, false, 150709822316062333612176409297600950464);
    lemma_powmod_step(43, 34730153430910394561553512476, 150709822316062333612176409297600950464, 170141183460469231731687303715884105727, false, 162548541248688112382313982770499939538);
    lemma_powmod_step(43, 69460306861820789123107024952, 162548541248688112382313982770499939538, 170141183460469231731687303715884105727, false, 59636684949415427951705662446476595288);
    lemma_powmod_step(43, 138920613723641578246214049904, 59636684949415427951705662446476595288, 170141183460469231731687303715884105727, false, 113070783814303292292665841990497853418);
    lemma_powmod_step(43, 277841227447283156492428099808, 113070783814303292292665841990497853418, 170141183460469231731687303715884105727, false, 119006406555993532466624617865324347266);
    lemma_powmod_step(43, 555682454894566312984856199616, 119006406555993532466624617865324347266, 170141183460469231731687303715884105727, true, 26217118481749082981010394894262445045);
    lemma_powmod_step(43, 1111364909789132625969712399233, 26217118481749082981010394894262445045, 170141183460469231731687303715884105727, true, 8004209480758850252449630320437515694);
    lemma_powmod_step(43, 2222729819578265251939424798467, 8004209480758850252449630320437515694, 170141183460469231731687303715884105727, true, 107142709285994575346908519656291457568);
    lemma_powmod_step(43, 4445459639156530503878849596935, 107142709285994575346908519656291457568, 170141183460469231731687303715884105727, false, 134698229603248715726862888247232325626);
    lemma_powmod_step(43, 8890919278313061007757699193870, 134698229603248715726862888247232325626, 170141183460469231731687303715884105727, false, 152200733494061131634254815562765428676);
    lemma_powmod_step(43, 17781838556626122015515398387740, 152200733494061131634254815562765428676, 170141183460469231731687303715884105727, false, 143140289628741213491262251971608049622);
    lemma_powmod_step(43, 35563677113252244031030796775480, 143140289628741213491262251971608049622, 170141183460469231731687303715884105727, false, 58458493049816916151365133986674533785);
    lemma_powmod_step(43, 71127354226504488062061593550960, 58458493049816916151365133986674533785, 170141183460469231731687303715884105727, false, 12807609548488148767865330994976015733);
    lemma_powmod_step(43, 142254708453008976124123187101920, 12807609548488148767865330994976015733, 170141183460469231731687303715884105727, false, 163437513665956770322662006095619958310);
    lemma_powmod_step(43, 284509416906017952248246374203840, 163437513665956770322662006095619958310, 170141183460469231731687303715884105727, true, 72794891487982900419499205185008424787);
    lemma_powmod_step(43, 569018833812035904496492748407681, 72794891487982900419499205185008424787, 170141183460469231731687303715884105727, true, 98682053162555183559351833370030264667);
    lemma_powmod_step(43, 1138037667624071808992985496815363, 98682053162555183559351833370030264667, 170141183460469231731687303715884105727, true, 133985967493640218071422367037156024240);
    lemma_powmod_step(43, 2276075335248143617985970993630727, 133985967493640218071422367037156024240, 170141183460469231731687303715884105727, false, 76134592650104425451478884745419292179);
    lemma_powmod_step(43, 4552150670496287235971941987261454, 76134592650104425451478884745419292179, 170141183460469231731687303715884105727, false, 162619610131701688904171818667394668643);
    lemma_powmod_step(43, 9104301340992574471943883974522908, 162619610131701688904171818667394668643, 170141183460469231731687303715884105727, false, 73194688758971400111399830785692758394);
    lemma_powmod_step(43, 18208602681985148943887767949045816, 73194688758971400111399830785692758394, 170141183460469231731687303715884105727, false, 75687453359811585447995358609662862139);
    lemma_powmod_step(43, 36417205363970297887775535898091632, 75687453359811585447995358609662862139, 170141183460469231731687303715884105727, false, 167154192286628351385404191711002511393);
    lemma_powmod_step(43, 72834410727940595775551071796183264, 167154192286628351385404191711002511393, 170141183460469231731687303715884105727, false, 98438081501862862898691288710134363920);
    lemma_powmod_step(43, 145668821455881191551102143592366528, 98438081501862862898691288710134363920, 170141183460469231731687303715884105727, true, 90696461143474858668368302329250499702);
    lemma_powmod_step(43, 291337642911762383102204287184733057, 90696461143474858668368302329250499702, 170141183460469231731687303715884105727, true, 64042007734254136432722988767338791092);
    lemma_powmod_step(43, 582675285823524766204408574369466115, 64042007734254136432722988767338791092, 170141183460469231731687303715884105727, true, 54783276622998567349656429423819141396);
    lemma_powmod_step(43, 1165350571647049532408817148738932231, 54783276622998567349656429423819141396, 170141183460469231731687303715884105727, false, 56792469864250676510438613997511014270);
}

/// 43^1339694357956450643556592942644756738 mod 170141183460469231731687303715884105727.
proof fn lemma_pow_q_43_1020408102040810204081020408102()
    ensures
        pow(43, 1339694357956450643556592942644756738) % 170141183460469231731687303715884105727 == 309485009821345068724781056,
{
    lemma_powmod_start(43, 170141183460469231731687303715884105727);
    lemma_powmod_step(43, 1, 43, 170141183460469231731687303715884105727, false, 1849);
    lemma_powmod_step(43, 2, 1849, 170141183460469231731687303715884105727, false, 3418801);
    lemma_powmod_step(43, 4, 3418801, 170141183460469231731687303715884105727, false, 11688200277601);
    lemma_powmod_step(43, 8, 11688200277601, 170141183460469231731687303715884105727, false, 136614025729312093462315201);
    lemma_powmod_step(43, 16, 136614025729312093462315201, 170141183460469231731687303715884105727, false, 50450442572331235347901412048017130367);
    lemma_powmod_step(43, 32, 50450442572331235347901412048017130367, 170141183460469231731687303715884105727, false, 112169409817853238897509630759286211075);
    lemma_powmod_step(43, 64, 112169409817853238897509630759286211075, 170141183460469231731687303715884105727, true, 67033533360270229392452248048308163716);
    lemma_powmod_step(43, 129, 67033533360270229392452248048308163716, 170141183460469231731687303715884105727, false, 60923341286574319197145831586618071671);
    lemma_powmod_step(43, 258, 60923341286574319197145831586618071671, 170141183460469231731687303715884105727, false, 153502079231072557033571885311184158473);
    lemma_powmod_step(43, 516, 153502079231072557033571885311184158473, 170141183460469231731687303715884105727, false, 144280721134182275101976459076768713024);
    lemma_powmod_step(43, 1032, 144280721134182275101976459076768713024, 170141183460469231731687303715884105727, false, 166681661150451478692409204801768188165);
    lemma_powmod_step(43, 2064, 166681661150451478692409204801768188165, 170141183460469231731687303715884105727, false, 38172125214493005311760950293579110483);
    lemma_powmod_step(43, 4128, 38172125214493005311760950293579110483, 170141183460469231731687303715884105727, false, 67122922398680463444721758299404584972);
    lemma_powmod_step(43, 8256, 67122922398680463444721758299404584972, 170141183460469231731687303715884105727, true, 9327852874888106384779142733323104277);
    lemma_powmod_step(43, 16513, 9327852874888106384779142733323104277, 170141183460469231731687303715884105727, false, 140682772416906217411793281397837027796);
    lemma_powmod_step(43, 33026, 140682772416906217411793281397837027796, 170141183460469231731687303715884105727, false, 89125251610937027674230638800290499057);
    lemma_powmod_step(43, 66052, 89125251610937027674230638800290499057, 170141183460469231731687303715884105727, false, 15832040719026515994856955786224317913);
    lemma_powmod_step(43, 132104, 15832040719026515994856955786224317913, 170141183460469231731687303715884105727, false, 62623876569102322160999716789634509545);
    lemma_powmod_step(43, 264208, 62623876569102322160999716789634509545, 170141183460469231731687303715884105727, false, 29382616838452916576151792661479364722);
    lemma_powmod_step(43, 528416, 29382616838452916576151792661479364722, 170141183460469231731687303715884105727, false, 22469485506154044861854199793662452267);
    lemma_powmod_step(43, 1056832, 22469485506154044861854199793662452267, 170141183460469231731687303715884105727, true, 43987550292629613032404527809889091496);
    lemma_powmod_step(43, 2113665, 43987550292629613032404527809889091496, 170141183460469231731687303715884105727, false, 72113820037471739614443193174865379325);
    lemma_powmod_step(43, 4227330, 72113820037471739614443193174865379325, 170141183460469231731687303715884105727, false, 155217964364660185359748154769158774868);
    lemma_powmod_step(43, 8454660, 155217964364660185359748154769158774868, 170141183460469231731687303715884105727, false, 85468764317691696638213495655556975737);
    lemma_powmod_step(43, 16909320, 85468764317691696638213495655556975737, 170141183460469231731687303715884105727, false, 144227650179566745111648461299589359037);
    lemma_powmod_step(43, 33818640, 144227650179566745111648461299589359037, 170141183460469231731687303715884105727, false, 38755531676820853916405191883002627506);
    lemma_powmod_step(43, 67637280, 38755531676820853916405191883002627506, 170141183460469231731687303715884105727, false, 152030091078947114127556460031275488153);
    lemma_powmod_step(43, 135274560, 152030091078947114127556460031275488153, 170141183460469231731687303715884105727, true, 109849225718838145395739981317356284015);
    lemma_powmod_step(43, 270549121, 109849225718838145395739981317356284015, 170141183460469231731687303715884105727, false, 106313210103717601563158139644093318559);
    lemma_powmod_step(43, 541098242, 106313210103717601563158139644093318559, 170141183460469231731687303715884105727, false, 66005174095178773329898544982931926427);
    lemma_powmod_step(43, 1082196484, 66005174095178773329898544982931926427, 170141183460469231731687303715884105727, false, 169854781784408500889611353369905363257);
    lemma_powmod_step(43, 2164392968, 169854781784408500889611353369905363257, 170141183460469231731687303715884105727, false, 132035403176755808452348339465979983273);
    lemma_powmod_step(43, 4328785936, 132035403176755808452348339465979983273, 170141183460469231731687303715884105727, false, 133708366813250628403410195360341940788);
    lemma_powmod_step(43, 8657571872, 133708366813250628403410195360341940788, 170141183460469231731687303715884105727, false, 142248073285644301211790304908909570813);
    lemma_powmod_step(43, 17315143744, 142248073285644301211790304908909570813, 170141183460469231731687303715884105727, true, 164449470186152327829420959162899420791);
    lemma_powmod_step(43, 34630287489, 164449470186152327829420959162899420791, 170141183460469231731687303715884105727, false, 156249139671000671260245063734643527444);
    lemma_powmod_step(43, 69260574978, 156249139671000671260245063734643527444, 170141183460469231731687303715884105727, false, 160479337106413821269571780352916851262);
    lemma_powmod_step(43, 138521149956, 160479337106413821269571780352916851262, 170141183460469231731687303715884105727, false, 117061507312066348486137346982363818960);
    lemma_powmod_step(43, 277042299912, 117061507312066348486137346982363818960, 170141183460469231731687303715884105727, false, 95587685901572134582860333247108120417);
    lemma_powmod_step(43, 554084599824, 95587685901572134582860333247108120417, 170141183460469231731687303715884105727, false, 63397023645995744457219615079333694260);
    lemma_powmod_step(43, 1108169199648, 63397023645995744457219615079333694260, 170141183460469231731687303715884105727, false, 32838606488408050917637614629578418047);
    lemma_powmod_step(43, 2216338399296, 32838606488408050917637614629578418047, 170141183460469231731687303715884105727, true, 118199310466486164594922672587999096999);
    lemma_powmod_step(43, 4432676798593, 118199310466486164594922672587999096999, 170141183460469231731687303715884105727, false, 64572115301120007976172930771082394106);
    lemma_powmod_step(43, 8865353597186, 64572115301120007976172930771082394106, 170141183460469231731687303715884105727, false, 24110616734156793942270495851816105687);
    lemma_powmod_step(43, 17730707194372, 24110616734156793942270495851816105687, 170141183460469231731687303715884105727, false, 155704502918965493518040770738291350108);
    lemma_powmod_step(43, 35461414388744, 155704502918965493518040770738291350108, 170141183460469231731687303715884105727, false, 80028421778776357687677328540594191486);
    lemma_powmod_step(43, 70922828777488, 80028421778776357687677328540594191486, 170141183460469231731687303715884105727, false, 50901793824539199876226312371481850590);
    lemma_powmod_step(43, 141845657554976, 50901793824539199876226312371481850590, 170141183460469231731687303715884105727, false, 91599249117574137239858036851354541344);
    lemma_powmod_step(43, 283691315109952, 91599249117574137239858036851354541344, 170141183460469231731687303715884105727, true, 162736821153708685612369106866666623839);
    lemma_powmod_step(43, 567382630219905, 162736821153708685612369106866666623839, 170141183460469231731687303715884105727, false, 101733657334319541184371647158865137265);
    lemma_powmod_step(43, 1134765260439810, 101733657334319541184371647158865137265, 170141183460469231731687303715884105727, false, 27693400558473493316529885509731388717);
    lemma_powmod_step(43, 2269530520879620, 27693400558473493316529885509731388717, 170141183460469231731687303715884105727, false, 100845619230512054767080914809518288427);
    lemma_powmod_step(43, 4539061041759240, 100845619230512054767080914809518288427, 170141183460469231731687303715884105727, false, 51902060049664411067000988519670901359);
    lemma_powmod_step(43, 9078122083518480, 51902060049664411067000988519670901359, 170141183460469231731687303715884105727, false, 134835117735356584616031543889248711948);
    lemma_powmod_step(43, 18156244167036960, 134835117735356584616031543889248711948, 170141183460469231731687303715884105727, false, 38001889006975285014831544427710230828);
    lemma_powmod_step(43, 36312488334073920, 38001889006975285014831544427710230828, 170141183460469231731687303715884105727, true, 58463896252512983419823363620464032187);
    lemma_powmod_step(43, 72624976668147841, 58463896252512983419823363620464032187, 170141183460469231731687303715884105727, false, 3859943974463051156630122442700689897);
    lemma_powmod_step(43, 145249953336295682, 3859943974463051156630122442700689897, 170141183460469231731687303715884105727, false, 12946952938348998986833540861335185668);
    lemma_powmod_step(43, 290499906672591364, 12946952938348998986833540861335185668, 170141183460469231731687303715884105727, false, 11207882394587863171463831247298827040);
    lemma_powmod_step(43, 580999813345182728, 11207882394587863171463831247298827040, 170141183460469231731687303715884105727, false, 28288695118365309275356240956747265852);
    lemma_powmod_step(43, 1161999626690365456, 28288695118365309275356240956747265852, 170141183460469231731687303715884105727, false, 136856152116331694514241318784333453629);
    lemma_powmod_step(43, 2323999253380730912, 136856152116331694514241318784333453629, 170141183460469231731687303715884105727, false, 146418833905655078584673184878201175952);
    lemma_powmod_step(43, 4647998506761461824, 146418833905655078584673184878201175952, 170141183460469231731687303715884105727, true, 11518904814213244295818118884690541332);
    lemma_powmod_step(43, 9295997013522923649, 11518904814213244295818118884690541332, 170141183460469231731687303715884105727, false, 109695157865842943172529183160457964795);
    lemma_powmod_step(43, 18591994027045847298, 109695157865842943172529183160457964795, 170141183460469231731687303715884105727, false, 5695178626808920411144469623383975275);
    lemma_powmod_step(43, 37183988054091694596, 5695178626808920411144469623383975275, 170141183460469231731687303715884105727, false, 106671510852967820257490841050054075312);
    lemma_powmod_step(43, 74367976108183389192, 106671510852967820257490841050054075312, 170141183460469231731687303715884105727, false, 11382778104875713335335806917552174693);
    lemma_powmod_step(43, 148735952216366778384, 11382778104875713335335806917552174693, 170141183460469231731687303715884105727, false, 166603877054735169199221058054269320106);
    lemma_powmod_step(43, 297471904432733556768, 166603877054735169199221058054269320106, 170141183460469231731687303715884105727, false, 61732470867592432888153491858335371258);
    lemma_powmod_step(43, 594943808865467113536, 61732470867592432888153491858335371258, 170141183460469231731687303715884105727, true, 82230620430570264561739006055502367223);
    lemma_powmod_step(43, 1189887617730934227073, 82230620430570264561739006055502367223, 170141183460469231731687303715884105727, false, 132128509510776374951312812732060090758);
    lemma_powmod_step(43, 2379775235461868454146, 132128509510776374951312812732060090758, 170141183460469231731687303715884105727, false, 33249792915140013847018196582704416264);
    lemma_powmod_step(43, 4759550470923736908292, 33249792915140013847018196582704416264, 170141183460469231731687303715884105727, false, 164927686663063892493081802842795795160);
    lemma_powmod_step(43, 9519100941847473816584, 164927686663063892493081802842795795160, 170141183460469231731687303715884105727, false, 81075935613193365915707334225280936555);
    lemma_powmod_step(43, 19038201883694947633168, 81075935613193365915707334225280936555, 170141183460469231731687303715884105727, false, 40029846033982283590381633644346036589);
    lemma_powmod_step(43, 38076403767389895266336, 40029846033982283590381633644346036589, 170141183460469231731687303715884105727, false, 21855487589145409521652266877260267270);
    lemma_powmod_step(43, 76152807534779790532672, 21855487589145409521652266877260267270, 170141183460469231731687303715884105727, true, 68335172871046796353947169140390409756);
    lemma_powmod_step(43, 152305615069559581065345, 68335172871046796353947169140390409756, 170141183460469231731687303715884105727, false, 145537034018726149009420321988333437878);
    lemma_powmod_step(43, 304611230139119162130690, 145537034018726149009420321988333437878, 170141183460469231731687303715884105727, false, 79257396714086744330306456252596656389);
    lemma_powmod_step(43, 609222460278238324261380, 79257396714086744330306456252596656389, 170141183460469231731687303715884105727, false, 24384930556220893263912763230882479058);
    lemma_powmod_step(43, 1218444920556476648522760, 24384930556220893263912763230882479058, 170141183460469231731687303715884105727, false, 81621564503012347406694692910284249873);
    lemma_powmod_step(43, 2436889841112953297045520, 81621564503012347406694692910284249873, 170141183460469231731687303715884105727, false, 153328527670947470449446112273721184195);
    lemma_powmod_step(43, 4873779682225906594091040, 153328527670947470449446112273721184195, 170141183460469231731687303715884105727, false, 17609916807905252748226408626290583231);
    lemma_powmod_step(43, 9747559364451813188182080, 17609916807905252748226408626290583231, 170141183460469231731687303715884105727, true, 151113611050191131075828995406694746491);
    lemma_powmod_step(43, 19495118728903626376364161, 151113611050191131075828995406694746491, 170141183460469231731687303715884105727, false, 9648267664332419003593607480685210162);
    lemma_powmod_step(43, 38990237457807252752728322, 9648267664332419003593607480685210162, 170141183460469231731687303715884105727, false, 135125034126517768043016397344330342362);
    lemma_powmod_step(43, 77980474915614505505456644, 135125034126517768043016397344330342362, 170141183460469231731687303715884105727, false, 55233459589232241670888769569686416757);
    lemma_powmod_step(43, 155960949831229011010913288, 55233459589232241670888769569686416757, 170141183460469231731687303715884105727, false, 163311629857306956923298097071900363028);
    lemma_powmod_step(43, 311921899662458022021826576, 163311629857306956923298097071900363028, 170141183460469231731687303715884105727, false, 39858898017832916222736107059884144475);
    lemma_powmod_step(43, 623843799324916044043653152, 39858898017832916222736107059884144475, 170141183460469231731687303715884105727, false, 8089045160954426577770939505435068872);
    lemma_powmod_step(43, 1247687598649832088087306304, 8089045160954426577770939505435068872, 170141183460469231731687303715884105727, true, 114305067813726924747997514864031977154);
    lemma_powmod_step(43, 2495375197299664176174612609, 114305067813726924747997514864031977154, 170141183460469231731687303715884105727, false, 39063157367080326850596575579716887923);
    lemma_powmod_step(43, 4990750394599328352349225218, 39063157367080326850596575579716887923, 170141183460469231731687303715884105727, false, 88246233218150336686366588679273329548);
    lemma_powmod_step(43, 9981500789198656704698450436, 88246233218150336686366588679273329548, 170141183460469231731687303715884105727, false, 162014594085225179975652493719729407424);
    lemma_powmod_step(43, 19963001578397313409396900872, 162014594085225179975652493719729407424, 170141183460469231731687303715884105727, false, 17310682051495239633078881753245124405);
    lemma_powmod_step(43, 39926003156794626818793801744, 17310682051495239633078881753245124405, 170141183460469231731687303715884105727, false, 55053426235945696261663337232769031388);
    lemma_powmod_step(43, 79852006313589253637587603488, 55053426235945696261663337232769031388, 170141183460469231731687303715884105727, false, 124846323697714046909408368760704162254);
    lemma_powmod_step(43, 159704012627178507275175206976, 124846323697714046909408368760704162254, 170141183460469231731687303715884105727, true, 168646042997708144812703884243077057775);
    lemma_powmod_step(43, 319408025254357014550350413953, 168646042997708144812703884243077057775, 170141183460469231731687303715884105727, false, 124426682678182017483450215060418101336);
    lemma_powmod_step(43, 638816050508714029100700827906, 124426682678182017483450215060418101336, 170141183460469231731687303715884105727, false, 22574763747830611420823032713495430559);
    lemma_powmod_step(43, 1277632101017428058201401655812, 22574763747830611420823032713495430559, 170141183460469231731687303715884105727, false, 131954694891055277320636138977646969339);
    lemma_powmod_step(43, 2555264202034856116402803311624, 131954694891055277320636138977646969339, 170141183460469231731687303715884105727, false, 43019946380344582370434950258816738760);
    lemma_powmod_step(43, 5110528404069712232805606623248, 43019946380344582370434950258816738760, 170141183460469231731687303715884105727, false, 151243276583158557776146028599427659626);
    lemma_powmod_step(43, 10221056808139424465611213246496, 151243276583158557776146028599427659626, 170141183460469231731687303715884105727, false, 10720156516896361235538616957337800367);
    lemma_powmod_step(43, 20442113616278848931222426492992, 10720156516896361235538616957337800367, 170141183460469231731687303715884105727, true, 135269049747187302311009638123371044033);
    lemma_powmod_step(43, 40884227232557697862444852985985, 135269049747187302311009638123371044033, 170141183460469231731687303715884105727, false, 2241283221251387983162778762303689066);
    lemma_powmod_step(43, 81768454465115395724889705971970, 2241283221251387983162778762303689066, 170141183460469231731687303715884105727, false, 90954726907076095589788008370970171000);
    lemma_powmod_step(43, 163536908930230791449779411943940, 90954726907076095589788008370970171000, 170141183460469231731687303715884105727, false, 55719927212289578433716014970465256061);
    lemma_powmod_step(43, 327073817860461582899558823887880, 55719927212289578433716014970465256061, 170141183460469231731687303715884105727, false, 145241720987505604211609337810386394502);
    lemma_powmod_step(43, 654147635720923165799117647775760, 145241720987505604211609337810386394502, 170141183460469231731687303715884105727, false, 38971382908403680597902156675580177912);
    lemma_powmod_step(43, 1308295271441846331598235295551520, 38971382908403680597902156675580177912, 170141183460469231731687303715884105727, false, 51943850554831430101460916634412455664);
    lemma_powmod_step(43, 2616590542883692663196470591103040, 51943850554831430101460916634412455664, 170141183460469231731687303715884105727, true, 148958410940448085547138315201748261478);
    lemma_powmod_step(43, 5233181085767385326392941182206081, 148958410940448085547138315201748261478, 170141183460469231731687303715884105727, false, 84913088016357092099352453064946947402);
    lemma_powmod_step(43, 10466362171534770652785882364412162, 84913088016357092099352453064946947402, 170141183460469231731687303715884105727, false, 4319402961016900100934959992120797278);
    lemma_powmod_step(43, 20932724343069541305571764728824324, 4319402961016900100934959992120797278, 170141183460469231731687303715884105727, false, 137416138139198327428566959106391134031);
    lemma_powmod_step(43, 41865448686139082611143529457648648, 137416138139198327428566959106391134031, 170141183460469231731687303715884105727, false, 6778519336973409415873397126588402491);
    lemma_powmod_step(43, 83730897372278165222287058915297296, 6778519336973409415873397126588402491, 170141183460469231731687303715884105727, false, 49786519792288714324546474472819339052);
    lemma_powmod_step(43, 167461794744556330444574117830594592, 49786519792288714324546474472819339052, 170141183460469231731687303715884105727, false, 66866554211841342539986062417134612390);
    lemma_powmod_step(43, 334923589489112660889148235661189184, 66866554211841342539986062417134612390, 170141183460469231731687303715884105727, true, 170141183460469231731687286123698061311);
    lemma_powmod_step(43, 669847178978225321778296471322378369, 170141183460469231731687286123698061311, 170141183460469231731687303715884105727, false, 309485009821345068724781056);
}

/// 43^504869980594864189114799120818647198 mod 170141183460469231731687303715884105727.
proof fn lemma_pow_q_43_613c0309e0184f00c2780613c0309e()
    ensures
        pow(43, 504869980594864189114799120818647198) % 170141183460469231731687303715884105727 == 100565539022940935462077851107895828379,
{
    lemma_powmod_start(43, 170141183460469231731687303715884105727);
    lemma_powmod_step(43, 1, 43, 170141183460469231731687303715884105727, true, 79507);
    lemma_powmod_step(43, 3, 79507, 170141183460469231731687303715884105727, false, 6321363049);
    lemma_powmod_step(43, 6, 6321363049, 170141183460469231731687303715884105727, false, 39959630797262576401);
    lemma_powmod_step(43, 12, 39959630797262576401, 170141183460469231731687303715884105727, false, 65501442309312681703813256117405161258);
    lemma_powmod_step(43, 24, 65501442309312681703813256117405161258, 170141183460469231731687303715884105727, false, 147558836925673492263377257377244863011);
    lemma_powmod_step(43, 48, 147558836925673492263377257377244863011, 170141183460469231731687303715884105727, true, 42680245054984181935184034693630878780);
    lemma_powmod_step(43, 97, 42680245054984181935184034693630878780, 170141183460469231731687303715884105727, false, 39805317620909659887329301183395833635);
    lemma_powmod_step(43, 194, 39805317620909659887329301183395833635, 170141183460469231731687303715884105727, false, 167124883388453565752045466758999503212);
    lemma_powmod_step(43, 388, 167124883388453565752045466758999503212, 170141183460469231731687303715884105727, true, 4730937219145334181318302707648663726);
    lemma_powmod_step(43, 777, 4730937219145334181318302707648663726, 170141183460469231731687303715884105727, true, 84113349969019921890061249827770431072);
    lemma_powmod_step(43, 1555, 84113349969019921890061249827770431072, 170141183460469231731687303715884105727, true, 128492315001773176526515525565448617589);
    lemma_powmod_step(43, 3111, 128492315001773176526515525565448617589, 170141183460469231731687303715884105727, true, 155523933954599896568668309915949318169);
    lemma_powmod_step(43, 6223, 155523933954599896568668309915949318169, 170141183460469231731687303715884105727, false, 9986186170616648144377469086408626930);
    lemma_powmod_step(43, 12446, 9986186170616648144377469086408626930, 170141183460469231731687303715884105727, false, 111974491320487190775194753029949939690);
    lemma_powmod_step(43, 24892, 111974491320487190775194753029949939690, 170141183460469231731687303715884105727, false, 57345166543944225557599568859165661859);
    lemma_powmod_step(43, 49784, 57345166543944225557599568859165661859, 170141183460469231731687303715884105727, false, 143151397298320009446409111610779112592);
    lemma_powmod_step(43, 99568, 143151397298320009446409111610779112592, 170141183460469231731687303715884105727, false, 123411140077140609072876918892772355775);
    lemma_powmod_step(43, 199136, 123411140077140609072876918892772355775, 170141183460469231731687303715884105727, false, 7890880203938721732827739991137551851);
    lemma_powmod_step(43, 398272, 7890880203938721732827739991137551851, 170141183460469231731687303715884105727, false, 159280050736968390209935359814070693666);
    lemma_powmod_step(43, 796544, 159280050736968390209935359814070693666, 170141183460469231731687303715884105727, false, 168245793927059102360805106493041584466);
    lemma_powmod_step(43, 1593088, 168245793927059102360805106493041584466, 170141183460469231731687303715884105727, true, 2586788974228722181483182676623036391);
    lemma_powmod_step(43, 3186177, 2586788974228722181483182676623036391, 170141183460469231731687303715884105727, true, 155444596970321672518206374721473938994);
    lemma_powmod_step(43, 6372355, 155444596970321672518206374721473938994, 170141183460469231731687303715884105727, false, 62047876314292166423074915196710695374);
    lemma_powmod_step(43, 12744710, 62047876314292166423074915196710695374, 170141183460469231731687303715884105727, false, 122641060692112417815859946311590583483);
    lemma_powmod_step(43, 25489420, 122641060692112417815859946311590583483, 170141183460469231731687303715884105727, false, 129599773591544065580016378255953556000);
    lemma_powmod_step(43, 50978840, 129599773591544065580016378255953556000, 170141183460469231731687303715884105727, false, 92179062824265026945202334257339690616);
    lemma_powmod_step(43, 101957680, 92179062824265026945202334257339690616, 170141183460469231731687303715884105727, true, 140588593684529496019343123303582121148);
    lemma_powmod_step(43, 203915361, 140588593684529496019343123303582121148, 170141183460469231731687303715884105727, false, 75521598471259031522287874715843884620);
    lemma_powmod_step(43, 407830722, 75521598471259031522287874715843884620, 170141183460469231731687303715884105727, false, 39183904121653303506614870912496407575);
    lemma_powmod_step(43, 815661444, 39183904121653303506614870912496407575, 170141183460469231731687303715884105727, true, 122414188619793429424004833596915847152);
    lemma_powmod_step(43, 1631322889, 122414188619793429424004833596915847152, 170141183460469231731687303715884105727, true, 6395799658964406623953883315074949679);
    lemma_powmod_step(43, 3262645779, 6395799658964406623953883315074949679, 170141183460469231731687303715884105727, true, 95753737707475770737865182415404686266);
    lemma_powmod_step(43, 6525291559, 95753737707475770737865182415404686266, 170141183460469231731687303715884105727, true, 20778011195314693824281737733162866308);
    lemma_powmod_step(43, 13050583119, 20778011195314693824281737733162866308, 170141183460469231731687303715884105727, false, 143241799584086147086188298420310189535);
    lemma_powmod_step(43, 26101166238, 143241799584086147086188298420310189535, 170141183460469231731687303715884105727, false, 24028226412072159330000239507671398509);
    lemma_powmod_step(43, 52202332476, 24028226412072159330000239507671398509, 170141183460469231731687303715884105727, false, 45290765250530002496946940464517996354);
    lemma_powmod_step(43, 104404664952, 45290765250530002496946940464517996354, 170141183460469231731687303715884105727, false, 167415047426604669998794756441370009088);
    lemma_powmod_step(43, 208809329904, 167415047426604669998794756441370009088, 170141183460469231731687303715884105727, false, 19053016244301910563009983038979426915);
    lemma_powmod_step(43, 417618659808, 19053016244301910563009983038979426915, 170141183460469231731687303715884105727, false, 165044769775539602279491590456481087722);
    lemma_powmod_step(43, 835237319616, 165044769775539602279491590456481087722, 170141183460469231731687303715884105727, false, 68892607712030884574369168078688334653);
    lemma_powmod_step(43, 1670474639232, 68892607712030884574369168078688334653, 170141183460469231731687303715884105727, false, 76268334072553014138017866738409900997);
    lemma_powmod_step(43, 3340949278464, 76268334072553014138017866738409900997, 170141183460469231731687303715884105727, true, 23610455874728397916282940872999726195);
    lemma_powmod_step(43, 6681898556929, 23610455874728397916282940872999726195, 170141183460469231731687303715884105727, true, 71576079408034636972144637038642748392);
    lemma_powmod_step(43, 13363797113859, 71576079408034636972144637038642748392, 170141183460469231731687303715884105727, false, 2282703124564555721251927356020211122);
    lemma_powmod_step(43, 26727594227718, 2282703124564555721251927356020211122, 170141183460469231731687303715884105727, false, 9793970848510187235613710752178770952);
    lemma_powmod_step(43, 53455188455436, 9793970848510187235613710752178770952, 170141183460469231731687303715884105727, false, 70898013125759306661273329732289450644);
    lemma_powmod_step(43, 106910376910872, 70898013125759306661273329732289450644, 170141183460469231731687303715884105727, false, 66635961363352806632766680309038935869);
    lemma_powmod_step(43, 213820753821744, 66635961363352806632766680309038935869, 170141183460469231731687303715884105727, true, 43990052966525282379311978576024356946);
    lemma_powmod_step(43, 427641507643489, 43990052966525282379311978576024356946, 170141183460469231731687303715884105727, false, 77889549594726657613697850450328297245);
    lemma_powmod_step(43, 855283015286978, 77889549594726657613697850450328297245, 170141183460469231731687303715884105727, false, 64699698790136057559009066581574454378);
    lemma_powmod_step(43, 1710566030573956, 64699698790136057559009066581574454378, 170141183460469231731687303715884105727, true, 39902023558378141106651142289952491318);
    lemma_powmod_step(43, 3421132061147913, 39902023558378141106651142289952491318, 170141183460469231731687303715884105727, true, 8301232463108092249024476348673647038);
    lemma_powmod_step(43, 6842264122295827, 8301232463108092249024476348673647038, 170141183460469231731687303715884105727, true, 20495429180789916242862746070519917203);
    lemma_powmod_step(43, 13684528244591655, 20495429180789916242862746070519917203, 170141183460469231731687303715884105727, true, 119794608230887956547396624079344462132);
    lemma_powmod_step(43, 27369056489183311, 119794608230887956547396624079344462132, 170141183460469231731687303715884105727, false, 896459701604674765725702223114397132);
    lemma_powmod_step(43, 54738112978366622, 896459701604674765725702223114397132, 170141183460469231731687303715884105727, false, 108881972116121555112874579826715281274);
    lemma_powmod_step(43, 109476225956733244, 108881972116121555112874579826715281274, 170141183460469231731687303715884105727, false, 132129893858114636586035080536434822257);
    lemma_powmod_step(43, 218952451913466488, 132129893858114636586035080536434822257, 170141183460469231731687303715884105727, false, 55846537072096496430860958954879244880);
    lemma_powmod_step(43, 437904903826932976, 55846537072096496430860958954879244880, 170141183460469231731687303715884105727, false, 168023341912779534276008236522199386607);
    lemma_powmod_step(43, 875809807653865952, 168023341912779534276008236522199386607, 170141183460469231731687303715884105727, false, 111519826253039258350557979683286412363);
    lemma_powmod_step(43, 1751619615307731904, 111519826253039258350557979683286412363, 170141183460469231731687303715884105727, false, 161361770596576723167387716433150686845);
    lemma_powmod_step(43, 3503239230615463808, 161361770596576723167387716433150686845, 170141183460469231731687303715884105727, false, 44703014673894927676847941411312605745);
    lemma_powmod_step(43, 7006478461230927616, 44703014673894927676847941411312605745, 170141183460469231731687303715884105727, true, 15977084079072933155486190697007374639);
    lemma_powmod_step(43, 14012956922461855233, 15977084079072933155486190697007374639, 170141183460469231731687303715884105727, true, 47964343837816763434356357856186062550);
    lemma_powmod_step(43, 28025913844923710467, 47964343837816763434356357856186062550, 170141183460469231731687303715884105727, false, 153835751947449407703212578888854093130);
    lemma_powmod_step(43, 56051827689847420934, 153835751947449407703212578888854093130, 170141183460469231731687303715884105727, false, 160475747600226099821944412677610813826);
    lemma_powmod_step(43, 112103655379694841868, 160475747600226099821944412677610813826, 170141183460469231731687303715884105727, false, 72930338248041303897828171896770633143);
    lemma_powmod_step(43, 224207310759389683736, 72930338248041303897828171896770633143, 170141183460469231731687303715884105727, false, 122693055526962588681708721713548983425);
    lemma_powmod_step(43, 448414621518779367472, 122693055526962588681708721713548983425, 170141183460469231731687303715884105727, true, 41141225613975704085651497852245056540);
    lemma_powmod_step(43, 896829243037558734945, 41141225613975704085651497852245056540, 170141183460469231731687303715884105727, false, 153550031106724122370700463150052384392);
    lemma_powmod_step(43, 1793658486075117469890, 153550031106724122370700463150052384392, 170141183460469231731687303715884105727, false, 67155411380730587365288669334314470400);
    lemma_powmod_step(43, 3587316972150234939780, 67155411380730587365288669334314470400, 170141183460469231731687303715884105727, true, 64462908538264826331567589456268389875);
    lemma_powmod_step(43, 7174633944300469879561, 64462908538264826331567589456268389875, 170141183460469231731687303715884105727, true, 156261207423010645795435521152530540957);
    lemma_powmod_step(43, 14349267888600939759123, 156261207423010645795435521152530540957, 170141183460469231731687303715884105727, true, 141648060728920410066004062909824239405);
    lemma_powmod_step(43, 28698535777201879518247, 141648060728920410066004062909824239405, 170141183460469231731687303715884105727, true, 164296331730485265036999170118234835390);
    lemma_powmod_step(43, 57397071554403759036495, 164296331730485265036999170118234835390, 170141183460469231731687303715884105727, false, 161985500921444794136782342018535777142);
    lemma_powmod_step(43, 114794143108807518072990, 161985500921444794136782342018535777142, 170141183460469231731687303715884105727, false, 89410222810355861608381539941041850163);
    lemma_powmod_step(43, 229588286217615036145980, 89410222810355861608381539941041850163, 170141183460469231731687303715884105727, false, 23801203568911991407908450147952803166);
    lemma_powmod_step(43, 459176572435230072291960, 23801203568911991407908450147952803166, 170141183460469231731687303715884105727, false, 46071657344417707621526109666696282027);
    lemma_powmod_step(43, 918353144870460144583920, 46071657344417707621526109666696282027, 170141183460469231731687303715884105727, false, 152375707663074236149154801430985627867);
    lemma_powmod_step(43, 1836706289740920289167840, 152375707663074236149154801430985627867, 170141183460469231731687303715884105727, false, 38748563593341702060552207692070650443);
    lemma_powmod_step(43, 3673412579481840578335680, 38748563593341702060552207692070650443, 170141183460469231731687303715884105727, false, 11530280273297131176248654356446320552);
    lemma_powmod_step(43, 7346825158963681156671360, 11530280273297131176248654356446320552, 170141183460469231731687303715884105727, false, 135105062966924437649120259111061169225);
    lemma_powmod_step(43, 14693650317927362313342720, 135105062966924437649120259111061169225, 170141183460469231731687303715884105727, true, 7197232988991821581733169979082556013);
    lemma_powmod_step(43, 29387300635854724626685441, 7197232988991821581733169979082556013, 170141183460469231731687303715884105727, true, 28140373424753630959762520090845597022);
    lemma_powmod_step(43, 58774601271709449253370883, 28140373424753630959762520090845597022, 170141183460469231731687303715884105727, false, 102665300898527282936181591870287144352);
    lemma_powmod_step(43, 117549202543418898506741766, 102665300898527282936181591870287144352, 170141183460469231731687303715884105727, false, 82657773869757831182583490106092596634);
    lemma_powmod_step(43, 235098405086837797013483532, 82657773869757831182583490106092596634, 170141183460469231731687303715884105727, false, 37426994088633607720970134999844418429);
    lemma_powmod_step(43, 470196810173675594026967064, 37426994088633607720970134999844418429, 170141183460469231731687303715884105727, false, 66856091828913618558240510709437332987);
    lemma_powmod_step(43, 940393620347351188053934128, 66856091828913618558240510709437332987, 170141183460469231731687303715884105727, true, 125376757522971512277958735827473715193);
    lemma_powmod_step(43, 1880787240694702376107868257, 125376757522971512277958735827473715193, 170141183460469231731687303715884105727, false, 166520565580001379977189351591273973378);
    lemma_powmod_step(43, 3761574481389404752215736514, 166520565580001379977189351591273973378, 170141183460469231731687303715884105727, false, 74955287686931999055214222663417531030);
    lemma_powmod_step(43, 7523148962778809504431473028, 74955287686931999055214222663417531030, 170141183460469231731687303715884105727, true, 38054325494799949093739218635759503248);
    lemma_powmod_step(43, 15046297925557619008862946057, 38054325494799949093739218635759503248, 170141183460469231731687303715884105727, true, 90991492586418619368206273266673147150);
    lemma_powmod_step(43, 30092595851115238017725892115, 90991492586418619368206273266673147150, 170141183460469231731687303715884105727, true, 56129685002207784652971460389561211852);
    lemma_powmod_step(43, 60185191702230476035451784231, 56129685002207784652971460389561211852, 170141183460469231731687303715884105727, true, 159338429139704427944246038315398061900);
    lemma_powmod_step(43, 120370383404460952070903568463, 159338429139704427944246038315398061900, 170141183460469231731687303715884105727, false, 131985614447059450363661546473578102806);
    lemma_powmod_step(43, 240740766808921904141807136926, 131985614447059450363661546473578102806, 170141183460469231731687303715884105727, false, 70787650723430674163554244416109369899);
    lemma_powmod_step(43, 481481533617843808283614273852, 70787650723430674163554244416109369899, 170141183460469231731687303715884105727, false, 115719348838300793533609844287887026999);
    lemma_powmod_step(43, 962963067235687616567228547704, 115719348838300793533609844287887026999, 170141183460469231731687303715884105727, false, 123884213940186651246367169404116316913);
    lemma_powmod_step(43, 1925926134471375233134457095408, 123884213940186651246367169404116316913, 170141183460469231731687303715884105727, false, 137631186454045753816679459088673856327);
    lemma_powmod_step(43, 3851852268942750466268914190816, 137631186454045753816679459088673856327, 170141183460469231731687303715884105727, false, 89314606273646740383069933095963829618);
    lemma_powmod_step(43, 7703704537885500932537828381632, 89314606273646740383069933095963829618, 170141183460469231731687303715884105727, false, 52512899255096227090356011205632897935);
    lemma_powmod_step(43, 15407409075771001865075656763264, 52512899255096227090356011205632897935, 170141183460469231731687303715884105727, false, 96163337199328183724931489658054642226);
    lemma_powmod_step(43, 30814818151542003730151313526528, 96163337199328183724931489658054642226, 170141183460469231731687303715884105727, true, 91632653302985823639418575490025921472);
    lemma_powmod_step(43, 61629636303084007460302627053057, 91632653302985823639418575490025921472, 170141183460469231731687303715884105727, true, 137388690615835077560866509895903363858);
    lemma_powmod_step(43, 123259272606168014920605254106115, 137388690615835077560866509895903363858, 170141183460469231731687303715884105727, false, 141951232419498933400495205581460977268);
    lemma_powmod_step(43, 246518545212336029841210508212230, 141951232419498933400495205581460977268, 170141183460469231731687303715884105727, false, 61299979500626485075794268978565994149);
    lemma_powmod_step(43, 493037090424672059682421016424460, 61299979500626485075794268978565994149, 170141183460469231731687303715884105727, false, 161522773523314989881309605350209970880);
    lemma_powmod_step(43, 986074180849344119364842032848920, 161522773523314989881309605350209970880, 170141183460469231731687303715884105727, false, 81804694195504768048670237426823914680);
    lemma_powmod_step(43, 1972148361698688238729684065697840, 81804694195504768048670237426823914680, 170141183460469231731687303715884105727, true, 64321617949007776160983719139062949581);
    lemma_powmod_step(43, 3944296723397376477459368131395681, 64321617949007776160983719139062949581, 170141183460469231731687303715884105727, false, 123838777031609977981041013660671365703);
    lemma_powmod_step(43, 7888593446794752954918736262791362, 123838777031609977981041013660671365703, 170141183460469231731687303715884105727, false, 94619615339354758290545679351367796658);
    lemma_powmod_step(43, 15777186893589505909837472525582724, 94619615339354758290545679351367796658, 170141183460469231731687303715884105727, true, 129350457503380389197214616181675619497);
    lemma_powmod_step(43, 31554373787179011819674945051165449, 129350457503380389197214616181675619497, 170141183460469231731687303715884105727, true, 40082506294299992080751902153984782660);
    lemma_powmod_step(43, 63108747574358023639349890102330899, 40082506294299992080751902153984782660, 170141183460469231731687303715884105727, true, 133214165399242273206224382161788940869);
    lemma_powmod_step(43, 126217495148716047278699780204661799, 133214165399242273206224382161788940869, 170141183460469231731687303715884105727, true, 137298690711668262132864715072888978546);
    lemma_powmod_step(43, 252434990297432094557399560409323599, 137298690711668262132864715072888978546, 170141183460469231731687303715884105727, false, 100565539022940935462077851107895828379);
}

/// 43^31397155095122574595255084649544954 mod 170141183460469231731687303715884105727.
proof fn lemma_pow_q_43_60bffcfa00182fff3e80060bffcfa()
    ensures
        pow(43, 31397155095122574595255084649544954) % 170141183460469231731687303715884105727 == 50495238238025519279885904268452502600,
{
    lemma_powmod_start(43, 170141183460469231731687303715884105727);
    lemma_powmod_step(43, 1, 43, 170141183460469231731687303715884105727, true, 79507);
    lemma_powmod_step(43, 3, 79507, 170141183460469231731687303715884105727, false, 6321363049);
    lemma_powmod_step(43, 6, 6321363049, 170141183460469231731687303715884105727, false, 39959630797262576401);
    lemma_powmod_step(43, 12, 39959630797262576401, 170141183460469231731687303715884105727, false, 65501442309312681703813256117405161258);
    lemma_powmod_step(43, 24, 65501442309312681703813256117405161258, 170141183460469231731687303715884105727, false, 147558836925673492263377257377244863011);
    lemma_powmod_step(43, 48, 147558836925673492263377257377244863011, 170141183460469231731687303715884105727, false, 76171226297765106624121925704544857851);
    lemma_powmod_step(43, 96, 76171226297765106624121925704544857851, 170141183460469231731687303715884105727, true, 135455943145973570668946456454033847171);
    lemma_powmod_step(43, 193, 135455943145973570668946456454033847171, 170141183460469231731687303715884105727, false, 102046271583336053177101989174666624472);
    lemma_powmod_step(43, 386, 102046271583336053177101989174666624472, 170141183460469231731687303715884105727, true, 142468964649262474194630182783197869192);
    lemma_powmod_step(43, 773, 142468964649262474194630182783197869192, 170141183460469231731687303715884105727, true, 158366161151935488834372951624488961594);
    lemma_powmod_step(43, 1547, 158366161151935488834372951624488961594, 170141183460469231731687303715884105727, true, 71958853484765010043734054359928446618);
    lemma_powmod_step(43, 3095, 71958853484765010043734054359928446618, 170141183460469231731687303715884105727, true, 85757915768722739963215934176397305011);
    lemma_powmod_step(43, 6191, 85757915768722739963215934176397305011, 170141183460469231731687303715884105727, true, 34116555002090888837343375162127035985);
    lemma_powmod_step(43, 12383, 34116555002090888837343375162127035985, 170141183460469231731687303715884105727, true, 22947302631990484689113528022230280284);
    lemma_powmod_step(43, 24767, 22947302631990484689113528022230280284, 170141183460469231731687303715884105727, true, 36492825285439187226239277851501445325);
    lemma_powmod_step(43, 49535, 36492825285439187226239277851501445325, 170141183460469231731687303715884105727, true, 47544565547475872121838657308018365762);
    lemma_powmod_step(43, 99071, 47544565547475872121838657308018365762, 170141183460469231731687303715884105727, true, 11817690405856164156965549599090221112);
    lemma_powmod_step(43, 198143, 11817690405856164156965549599090221112, 170141183460469231731687303715884105727, true, 65742492769208411836969869530838236047);
    lemma_powmod_step(43, 396287, 65742492769208411836969869530838236047, 170141183460469231731687303715884105727, true, 128033547296891298267144874769196307545);
    lemma_powmod_step(43, 792575, 128033547296891298267144874769196307545, 170141183460469231731687303715884105727, true, 11533241340303027001432686968937294294);
    lemma_powmod_step(43, 1585151, 11533241340303027001432686968937294294, 170141183460469231731687303715884105727, false, 116596849999369137692505354710538404773);
    lemma_powmod_step(43, 3170302, 116596849999369137692505354710538404773, 170141183460469231731687303715884105727, false, 123281011112118393096164367708165555886);
    lemma_powmod_step(43, 6340604, 123281011112118393096164367708165555886, 170141183460469231731687303715884105727, true, 39401571870500424768419003871368959928);
    lemma_powmod_step(43, 12681209, 39401571870500424768419003871368959928, 170141183460469231731687303715884105727, true, 155633781840018757247488866570619282621);
    lemma_powmod_step(43, 25362419, 155633781840018757247488866570619282621, 170141183460469231731687303715884105727, true, 145809381617817585830399011517505564574);
    lemma_powmod_step(43, 50724839, 145809381617817585830399011517505564574, 170141183460469231731687303715884105727, true, 68660776121546398006188532413850385456);
    lemma_powmod_step(43, 101449679, 68660776121546398006188532413850385456, 170141183460469231731687303715884105727, true, 91604046784807770576784177747480229540);
    lemma_powmod_step(43, 202899359, 91604046784807770576784177747480229540, 170141183460469231731687303715884105727, false, 87857555864800658757628111396733826368);
    lemma_powmod_step(43, 405798718, 87857555864800658757628111396733826368, 170141183460469231731687303715884105727, true, 98601821725867566247431708207513288862);
    lemma_powmod_step(43, 811597437, 98601821725867566247431708207513288862, 170141183460469231731687303715884105727, false, 84584095681779224416700765156509020496);
    lemma_powmod_step(43, 1623194874, 84584095681779224416700765156509020496, 170141183460469231731687303715884105727, false, 75905404256261370771403308959339039102);
    lemma_powmod_step(43, 3246389748, 75905404256261370771403308959339039102, 170141183460469231731687303715884105727, false, 161570692131609669837252936376854345433);
    lemma_powmod_step(43, 6492779496, 161570692131609669837252936376854345433, 170141183460469231731687303715884105727, false, 103813738246784643528805484898628316117);
    lemma_powmod_step(43, 12985558992, 103813738246784643528805484898628316117, 170141183460469231731687303715884105727, false, 14701242835558940710572215760015115797);
    lemma_powmod_step(43, 25971117984, 14701242835558940710572215760015115797, 170141183460469231731687303715884105727, false, 53529174028200672996220110055783886502);
    lemma_powmod_step(43, 51942235968, 53529174028200672996220110055783886502, 170141183460469231731687303715884105727, false, 135926007421324350521539314525865985179);
    lemma_powmod_step(43, 103884471936, 135926007421324350521539314525865985179, 170141183460469231731687303715884105727, false, 89327207370313450312336563080700196847);
    lemma_powmod_step(43, 207768943872, 89327207370313450312336563080700196847, 170141183460469231731687303715884105727, false, 7090890521978232116219942414231281880);
    lemma_powmod_step(43, 415537887744, 7090890521978232116219942414231281880, 170141183460469231731687303715884105727, false, 158701661917278745679236969608146921030);
    lemma_powmod_step(43, 831075775488, 158701661917278745679236969608146921030, 170141183460469231731687303715884105727, false, 3110242158894774214976435882855906996);
    lemma_powmod_step(43, 1662151550976, 3110242158894774214976435882855906996, 170141183460469231731687303715884105727, false, 164897630887266718442155798220166858885);
    lemma_powmod_step(43, 3324303101952, 164897630887266718442155798220166858885, 170141183460469231731687303715884105727, true, 14536923756093631821445779493405703048);
    lemma_powmod_step(43, 6648606203905, 14536923756093631821445779493405703048, 170141183460469231731687303715884105727, true, 62356579472549232638478898899741086618);
    lemma_powmod_step(43, 13297212407811, 62356579472549232638478898899741086618, 170141183460469231731687303715884105727, false, 143864075747917176688745837167641530566);
    lemma_powmod_step(43, 26594424815622, 143864075747917176688745837167641530566, 170141183460469231731687303715884105727, false, 3893941691184934323460271411322266154);
    lemma_powmod_step(43, 53188849631244, 3893941691184934323460271411322266154, 170141183460469231731687303715884105727, false, 69652632065414643709186371848761774546);
    lemma_powmod_step(43, 106377699262488, 69652632065414643709186371848761774546, 170141183460469231731687303715884105727, false, 26945553984671124314608915302918827214);
    lemma_powmod_step(43, 212755398524976, 26945553984671124314608915302918827214, 170141183460469231731687303715884105727, false, 60989834594423928450487772937976207105);
    lemma_powmod_step(43, 425510797049952, 60989834594423928450487772937976207105, 170141183460469231731687303715884105727, true, 21334459884203077998742264876628495341);
    lemma_powmod_step(43, 851021594099905, 21334459884203077998742264876628495341, 170141183460469231731687303715884105727, false, 10783950415591567865275777185042181779);
    lemma_powmod_step(43, 1702043188199810, 10783950415591567865275777185042181779, 170141183460469231731687303715884105727, true, 151413303079055724143672697799014756501);
    lemma_powmod_step(43, 3404086376399621, 151413303079055724143672697799014756501, 170141183460469231731687303715884105727, true, 34731724505847138469883941396170959001);
    lemma_powmod_step(43, 6808172752799243, 34731724505847138469883941396170959001, 170141183460469231731687303715884105727, true, 117423962935312074063272586412486576901);
    lemma_powmod_step(43, 13616345505598487, 117423962935312074063272586412486576901, 170141183460469231731687303715884105727, true, 113456128063954559156765433569238280659);
    lemma_powmod_step(43, 27232691011196975, 113456128063954559156765433569238280659, 170141183460469231731687303715884105727, true, 84274424090990696531212568618206059376);
    lemma_powmod_step(43, 54465382022393951, 84274424090990696531212568618206059376, 170141183460469231731687303715884105727, true, 143641988289816199387775796465428211644);
    lemma_powmod_step(43, 108930764044787903, 143641988289816199387775796465428211644, 170141183460469231731687303715884105727, true, 50828467253829298556468230885628242594);
    lemma_powmod_step(43, 217861528089575807, 50828467253829298556468230885628242594, 170141183460469231731687303715884105727, true, 163439379231574364179218504654680355985);
    lemma_powmod_step(43, 435723056179151615, 163439379231574364179218504654680355985, 170141183460469231731687303715884105727, true, 169100028193138698252242238635257309210);
    lemma_powmod_step(43, 871446112358303231, 169100028193138698252242238635257309210, 170141183460469231731687303715884105727, true, 52295283855138580176555019447277992166);
    lemma_powmod_step(43, 1742892224716606463, 52295283855138580176555019447277992166, 170141183460469231731687303715884105727, true, 62080746976658339704910088653359443823);
    lemma_powmod_step(43, 3485784449433212927, 62080746976658339704910088653359443823, 170141183460469231731687303715884105727, true, 11435478705599856168872643546786039935);
    lemma_powmod_step(43, 6971568898866425855, 11435478705599856168872643546786039935, 170141183460469231731687303715884105727, false, 78300179359397189973244747592150215843);
    lemma_powmod_step(43, 13943137797732851710, 78300179359397189973244747592150215843, 170141183460469231731687303715884105727, false, 73546946797307594206038317019140560685);
    lemma_powmod_step(43, 27886275595465703420, 73546946797307594206038317019140560685, 170141183460469231731687303715884105727, true, 19154896183589663484306675440180932602);
    lemma_powmod_step(43, 55772551190931406841, 19154896183589663484306675440180932602, 170141183460469231731687303715884105727, true, 73104979980747067698593040388665676636);
    lemma_powmod_step(43, 111545102381862813683, 73104979980747067698593040388665676636, 170141183460469231731687303715884105727, true, 84396930956079895156473689802268350462);
    lemma_powmod_step(43, 223090204763725627367, 84396930956079895156473689802268350462, 170141183460469231731687303715884105727, true, 4724696482386667738823294619199937712);
    lemma_powmod_step(43, 446180409527451254735, 4724696482386667738823294619199937712, 170141183460469231731687303715884105727, true, 89569039330725556663591751960512597695);
    lemma_powmod_step(43, 892360819054902509471, 89569039330725556663591751960512597695, 170141183460469231731687303715884105727, false, 87136074037620898651841924604639687182);
    lemma_powmod_step(43, 1784721638109805018942, 87136074037620898651841924604639687182, 170141183460469231731687303715884105727, true, 168708885642133477356245068250678801178);
    lemma_powmod_step(43, 3569443276219610037885, 168708885642133477356245068250678801178, 170141183460469231731687303715884105727, false, 8401731851491713282035426726659781866);
    lemma_powmod_step(43, 7138886552439220075770, 8401731851491713282035426726659781866, 170141183460469231731687303715884105727, false, 110877612216840460233306336046555905935);
    lemma_powmod_step(43, 14277773104878440151540, 110877612216840460233306336046555905935, 170141183460469231731687303715884105727, false, 45642201014858189829588139147144626436);
    lemma_powmod_step(43, 28555546209756880303080, 45642201014858189829588139147144626436, 170141183460469231731687303715884105727, false, 152277950426364424329071749008671157404);
    lemma_powmod_step(43, 57111092419513760606160, 152277950426364424329071749008671157404, 170141183460469231731687303715884105727, false, 8153960109336077665383036097302573566);
    lemma_powmod_step(43, 114222184839027521212320, 8153960109336077665383036097302573566, 170141183460469231731687303715884105727, false, 18960331721277440119008086384463522692);
    lemma_powmod_step(43, 228444369678055042424640, 18960331721277440119008086384463522692, 170141183460469231731687303715884105727, false, 2213860999953103387869290793110361883);
    lemma_powmod_step(43, 456888739356110084849280, 2213860999953103387869290793110361883, 170141183460469231731687303715884105727, false, 33367023395064409748361431266705440158);
    lemma_powmod_step(43, 913777478712220169698560, 33367023395064409748361431266705440158, 170141183460469231731687303715884105727, false, 18198447063612910927037034334418529128);
    lemma_powmod_step(43, 1827554957424440339397120, 18198447063612910927037034334418529128, 170141183460469231731687303715884105727, false, 130411668627411185078545174461820583988);
    lemma_powmod_step(43, 3655109914848880678794240, 130411668627411185078545174461820583988, 170141183460469231731687303715884105727, false, 45035221455168166703019689565095270449);
    lemma_powmod_step(43, 7310219829697761357588480, 45035221455168166703019689565095270449, 170141183460469231731687303715884105727, false, 159583276613065466499352647550559623850);
    lemma_powmod_step(43, 14620439659395522715176960, 159583276613065466499352647550559623850, 170141183460469231731687303715884105727, true, 118148542792192458684390642238949871678);
    lemma_powmod_step(43, 29240879318791045430353921, 118148542792192458684390642238949871678, 170141183460469231731687303715884105727, true, 56952590543689928632139913281659537193);
    lemma_powmod_step(43, 58481758637582090860707843, 56952590543689928632139913281659537193, 170141183460469231731687303715884105727, false, 73601464485658662030718567315194431072);
    lemma_powmod_step(43, 116963517275164181721415686, 73601464485658662030718567315194431072, 170141183460469231731687303715884105727, false, 74374161999873122804359118477266452378);
    lemma_powmod_step(43, 233927034550328363442831372, 74374161999873122804359118477266452378, 170141183460469231731687303715884105727, false, 139463248808287964049659867745863214579);
    lemma_powmod_step(43, 467854069100656726885662744, 139463248808287964049659867745863214579, 170141183460469231731687303715884105727, false, 107752758500108369459903838296256500241);
    lemma_powmod_step(43, 935708138201313453771325488, 107752758500108369459903838296256500241, 170141183460469231731687303715884105727, false, 75991170915258757884172624547971274788);
    lemma_powmod_step(43, 1871416276402626907542650976, 75991170915258757884172624547971274788, 170141183460469231731687303715884105727, true, 49854622016090179816841933284111153546);
    lemma_powmod_step(43, 3742832552805253815085301953, 49854622016090179816841933284111153546, 170141183460469231731687303715884105727, false, 169592221438431666391996374129029794073);
    lemma_powmod_step(43, 7485665105610507630170603906, 169592221438431666391996374129029794073, 170141183460469231731687303715884105727, true, 2299547146510314427787038029026510695);
    lemma_powmod_step(43, 14971330211221015260341207813, 2299547146510314427787038029026510695, 170141183460469231731687303715884105727, true, 167206269302795190922118324125562102416);
    lemma_powmod_step(43, 29942660422442030520682415627, 167206269302795190922118324125562102416, 170141183460469231731687303715884105727, true, 67481855392833357560427683186375446710);
    lemma_powmod_step(43, 59885320844884061041364831255, 67481855392833357560427683186375446710, 170141183460469231731687303715884105727, true, 106301235263909135274527974346541463563);
    lemma_powmod_step(43, 119770641689768122082729662511, 106301235263909135274527974346541463563, 170141183460469231731687303715884105727, true, 147998508262669699184909686854816107709);
    lemma_powmod_step(43, 239541283379536244165459325023, 147998508262669699184909686854816107709, 170141183460469231731687303715884105727, true, 136362171534455604693853498101768995901);
    lemma_powmod_step(43, 479082566759072488330918650047, 136362171534455604693853498101768995901, 170141183460469231731687303715884105727, true, 2961573109626763885020121623817615749);
    lemma_powmod_step(43, 958165133518144976661837300095, 2961573109626763885020121623817615749, 170141183460469231731687303715884105727, true, 133226085937379453837476991011562808214);
    lemma_powmod_step(43, 1916330267036289953323674600191, 133226085937379453837476991011562808214, 170141183460469231731687303715884105727, true, 122744136170853673880530258940654318826);
    lemma_powmod_step(43, 3832660534072579906647349200383, 122744136170853673880530258940654318826, 170141183460469231731687303715884105727, true, 113057028971659594362199194381749300658);
    lemma_powmod_step(43, 7665321068145159813294698400767, 113057028971659594362199194381749300658, 170141183460469231731687303715884105727, true, 111250838479907115447097442796320118073);
    lemma_powmod_step(43, 15330642136290319626589396801535, 111250838479907115447097442796320118073, 170141183460469231731687303715884105727, true, 46922064580803419603555926709742972042);
    lemma_powmod_step(43, 30661284272580639253178793603071, 46922064580803419603555926709742972042, 170141183460469231731687303715884105727, false, 35795143801145234293219498729271495745);
    lemma_powmod_step(43, 61322568545161278506357587206142, 35795143801145234293219498729271495745, 170141183460469231731687303715884105727, false, 6177187573010291511402837120340892957);
    lemma_powmod_step(43, 122645137090322557012715174412284, 6177187573010291511402837120340892957, 170141183460469231731687303715884105727, true, 12501783563896682146020118794406822931);
    lemma_powmod_step(43, 245290274180645114025430348824569, 12501783563896682146020118794406822931, 170141183460469231731687303715884105727, true, 15616826489225441234530002309945031539);
    lemma_powmod_step(43, 490580548361290228050860697649139, 15616826489225441234530002309945031539, 170141183460469231731687303715884105727, true, 50745104396718374137042824161251900454);
    lemma_powmod_step(43, 981161096722580456101721395298279, 50745104396718374137042824161251900454, 170141183460469231731687303715884105727, true, 129594032777208147852184108001228173250);
    lemma_powmod_step(43, 1962322193445160912203442790596559, 129594032777208147852184108001228173250, 170141183460469231731687303715884105727, true, 98571181992344984935367498805157423150);
    lemma_powmod_step(43, 3924644386890321824406885581193119, 98571181992344984935367498805157423150, 170141183460469231731687303715884105727, false, 2257996760295482116675575651201386215);
    lemma_powmod_step(43, 7849288773780643648813771162386238, 2257996760295482116675575651201386215, 170141183460469231731687303715884105727, true, 112808122693887012427624678583010051464);
    lemma_powmod_step(43, 15698577547561287297627542324772477, 112808122693887012427624678583010051464, 170141183460469231731687303715884105727, false, 50495238238025519279885904268452502600);
}

/// 43^1834663440271620084019186556777598 mod 170141183460469231731687303715884105727.
proof fn lemma_pow_q_43_5a74b54c5a3f0000b4e96a98b47e()
    ensures
        pow(43, 1834663440271620084019186556777598) % 170141183460469231731687303715884105727 == 10505919411115761463603776916828528380,
{
    lemma_powmod_start(43, 170141183460469231731687303715884105727);
    lemma_powmod_step(43, 1, 43, 170141183460469231731687303715884105727, false, 1849);
    lemma_powmod_step(43, 2, 1849, 170141183460469231731687303715884105727, true, 147008443);
    lemma_powmod_step(43, 5, 147008443, 170141183460469231731687303715884105727, true, 929293739471222707);
    lemma_powmod_step(43, 11, 929293739471222707, 170141183460469231731687303715884105727, false, 863586854220408743801513785592407849);
    lemma_powmod_step(43, 22, 863586854220408743801513785592407849, 170141183460469231731687303715884105727, true, 95407347039317612685500376555808146836);
    lemma_powmod_step(43, 45, 95407347039317612685500376555808146836, 170141183460469231731687303715884105727, false, 154949257301401088675229097965418936768);
    lemma_powmod_step(43, 90, 154949257301401088675229097965418936768, 170141183460469231731687303715884105727, false, 125849073697110853080204586385295220858);
    lemma_powmod_step(43, 180, 125849073697110853080204586385295220858, 170141183460469231731687303715884105727, true, 145163516823563109645529552281481184764);
    lemma_powmod_step(43, 361, 145163516823563109645529552281481184764, 170141183460469231731687303715884105727, true, 89629869287500496105485365901625815079);
    lemma_powmod_step(43, 723, 89629869287500496105485365901625815079, 170141183460469231731687303715884105727, true, 53556836007727690336062384361153499501);
    lemma_powmod_step(43, 1447, 53556836007727690336062384361153499501, 170141183460469231731687303715884105727, false, 15580764582435371188801134507897373162);
    lemma_powmod_step(43, 2894, 15580764582435371188801134507897373162, 170141183460469231731687303715884105727, true, 10342423047234885051894202116619462084);
    lemma_powmod_step(43, 5789, 10342423047234885051894202116619462084, 170141183460469231731687303715884105727, false, 26836949143273925465000629074537991110);
    lemma_powmod_step(43, 11578, 26836949143273925465000629074537991110, 170141183460469231731687303715884105727, false, 128368275449321606279854757379691480822);
    lemma_powmod_step(43, 23156, 128368275449321606279854757379691480822, 170141183460469231731687303715884105727, true, 126593277495560722644290289915459298674);
    lemma_powmod_step(43, 46313, 126593277495560722644290289915459298674, 170141183460469231731687303715884105727, false, 117787721094711214560147735712590721313);
    lemma_powmod_step(43, 92626, 117787721094711214560147735712590721313, 170141183460469231731687303715884105727, true, 78899169393048241107073936138944082919);
    lemma_powmod_step(43, 185253, 78899169393048241107073936138944082919, 170141183460469231731687303715884105727, true, 162844525883239681198451472750050944625);
    lemma_powmod_step(43, 370507, 162844525883239681198451472750050944625, 170141183460469231731687303715884105727, false, 42900319709277804345160602423259541437);
    lemma_powmod_step(43, 741014, 42900319709277804345160602423259541437, 170141183460469231731687303715884105727, true, 26233091405665850172503825075369814592);
    lemma_powmod_step(43, 1482029, 26233091405665850172503825075369814592, 170141183460469231731687303715884105727, false, 34305888548414587138679817053930780256);
    lemma_powmod_step(43, 2964058, 34305888548414587138679817053930780256, 170141183460469231731687303715884105727, true, 119355269781054504405498147568844669403);
    lemma_powmod_step(43, 5928117, 119355269781054504405498147568844669403, 170141183460469231731687303715884105727, false, 100731383941336595885403224158876637016);
    lemma_powmod_step(43, 11856234, 100731383941336595885403224158876637016, 170141183460469231731687303715884105727, true, 105803393931142327194556711101920094348);
    lemma_powmod_step(43, 23712469, 105803393931142327194556711101920094348, 170141183460469231731687303715884105727, false, 8946214635400007787642220349900101420);
    lemma_powmod_step(43, 47424938, 8946214635400007787642220349900101420, 170141183460469231731687303715884105727, false, 74005554978702638903419231170318625439);
    lemma_powmod_step(43, 94849876, 74005554978702638903419231170318625439, 170141183460469231731687303715884105727, true, 153810614903585231931160687204462527147);
    lemma_powmod_step(43, 189699753, 153810614903585231931160687204462527147, 170141183460469231731687303715884105727, true, 113188886443148951426521119906053538322);
    lemma_powmod_step(43, 379399507, 113188886443148951426521119906053538322, 170141183460469231731687303715884105727, false, 111277795463898512680167633569181460599);
    lemma_powmod_step(43, 758799014, 111277795463898512680167633569181460599, 170141183460469231731687303715884105727, false, 138051574437656106753158432825775815877);
    lemma_powmod_step(43, 1517598028, 138051574437656106753158432825775815877, 170141183460469231731687303715884105727, false, 119597667971263734766507399521913580425);
    lemma_powmod_step(43, 3035196056, 119597667971263734766507399521913580425, 170141183460469231731687303715884105727, true, 51904311359806905662133768785741730383);
    lemma_powmod_step(43, 6070392113, 51904311359806905662133768785741730383, 170141183460469231731687303715884105727, false, 168758678573372856526446385765623505337);
    lemma_powmod_step(43, 12140784226, 168758678573372856526446385765623505337, 170141183460469231731687303715884105727, true, 35761815612469837204397751493098309737);
    lemma_powmod_step(43, 24281568453, 35761815612469837204397751493098309737, 170141183460469231731687303715884105727, true, 58041819069476196596795620438646160664);
    lemma_powmod_step(43, 48563136907, 58041819069476196596795620438646160664, 170141183460469231731687303715884105727, false, 38830709058593296634194373626454322994);
    lemma_powmod_step(43, 97126273814, 38830709058593296634194373626454322994, 170141183460469231731687303715884105727, true, 158164348068121174634503206996993955375);
    lemma_powmod_step(43, 194252547629, 158164348068121174634503206996993955375, 170141183460469231731687303715884105727, false, 111008855954389265106814729182931357103);
    lemma_powmod_step(43, 388505095258, 111008855954389265106814729182931357103, 170141183460469231731687303715884105727, false, 62883398519384893908489948585313706646);
    lemma_powmod_step(43, 777010190516, 62883398519384893908489948585313706646, 170141183460469231731687303715884105727, false, 119318853410696288869102687804152495466);
    lemma_powmod_step(43, 1554020381032, 119318853410696288869102687804152495466, 170141183460469231731687303715884105727, true, 1770324216075868433847976153242484229);
    lemma_powmod_step(43, 3108040762065, 1770324216075868433847976153242484229, 170141183460469231731687303715884105727, true, 65426262386704370155308972868793834700);
    lemma_powmod_step(43, 6216081524131, 65426262386704370155308972868793834700, 170141183460469231731687303715884105727, true, 27188951386201711198673863998718739272);
    lemma_powmod_step(43, 12432163048263, 27188951386201711198673863998718739272, 170141183460469231731687303715884105727, true, 60201163677189325650428178705697252073);
    lemma_powmod_step(43, 24864326096527, 60201163677189325650428178705697252073, 170141183460469231731687303715884105727, true, 118420612269181175230779641408628379348);
    lemma_powmod_step(43, 49728652193055, 118420612269181175230779641408628379348, 170141183460469231731687303715884105727, true, 56206168546695393885219835400601951576);
    lemma_powmod_step(43, 99457304386111, 56206168546695393885219835400601951576, 170141183460469231731687303715884105727, false, 111401010736460489901195797627154189919);
    lemma_powmod_step(43, 198914608772222, 111401010736460489901195797627154189919, 170141183460469231731687303715884105727, false, 35696863972807115299737304303188366498);
    lemma_powmod_step(43, 397829217544444, 35696863972807115299737304303188366498, 170141183460469231731687303715884105727, false, 131185995722962908431429328491934027988);
    lemma_powmod_step(43, 795658435088888, 131185995722962908431429328491934027988, 170141183460469231731687303715884105727, false, 105976465184588986634264888028314134921);
    lemma_powmod_step(43, 1591316870177776, 105976465184588986634264888028314134921, 170141183460469231731687303715884105727, false, 116728114276115620680818847247425595831);
    lemma_powmod_step(43, 3182633740355552, 116728114276115620680818847247425595831, 170141183460469231731687303715884105727, false, 147369571614175811857462640410663858585);
    lemma_powmod_step(43, 6365267480711104, 147369571614175811857462640410663858585, 170141183460469231731687303715884105727, false, 74329285453387060853741687138987853512);
    lemma_powmod_step(43, 12730534961422208, 74329285453387060853741687138987853512, 170141183460469231731687303715884105727, false, 19171160210802784486407723962138848565);
    lemma_powmod_step(43, 25461069922844416, 19171160210802784486407723962138848565, 170141183460469231731687303715884105727, false, 122264508907829730791987313131841306267);
    lemma_powmod_step(43, 50922139845688832, 122264508907829730791987313131841306267, 170141183460469231731687303715884105727, false, 92983541979911745074099069475168050829);
    lemma_powmod_step(43, 101844279691377664, 92983541979911745074099069475168050829, 170141183460469231731687303715884105727, false, 158773859857271599008229385019009226972);
    lemma_powmod_step(43, 203688559382755328, 158773859857271599008229385019009226972, 170141183460469231731687303715884105727, false, 134160913201321696330306569432354387119);
    lemma_powmod_step(43, 407377118765510656, 134160913201321696330306569432354387119, 170141183460469231731687303715884105727, false, 12360112145417031221404641806959440045);
    lemma_powmod_step(43, 814754237531021312, 12360112145417031221404641806959440045, 170141183460469231731687303715884105727, false, 80905383001134265517582548513409426706);
    lemma_powmod_step(43, 1629508475062042624, 80905383001134265517582548513409426706, 170141183460469231731687303715884105727, false, 14629190055322126088255265537967614564);
    lemma_powmod_step(43, 3259016950124085248, 14629190055322126088255265537967614564, 170141183460469231731687303715884105727, false, 32618818367753611680530165163561641910);
    lemma_powmod_step(43, 6518033900248170496, 32618818367753611680530165163561641910, 170141183460469231731687303715884105727, true, 86732269094242137876284997348957540964);
    lemma_powmod_step(43, 13036067800496340993, 86732269094242137876284997348957540964, 170141183460469231731687303715884105727, false, 139271034018524450091383365749668107321);
    lemma_powmod_step(43, 26072135600992681986, 139271034018524450091383365749668107321, 170141183460469231731687303715884105727, true, 111145520772357854792364733330915464483);
    lemma_powmod_step(43, 52144271201985363973, 111145520772357854792364733330915464483, 170141183460469231731687303715884105727, true, 143393575201494871419226387294111896388);
    lemma_powmod_step(43, 104288542403970727947, 143393575201494871419226387294111896388, 170141183460469231731687303715884105727, false, 6983702585578043568826963190487813724);
    lemma_powmod_step(43, 208577084807941455894, 6983702585578043568826963190487813724, 170141183460469231731687303715884105727, true, 9939222157914107496661192708333530789);
    lemma_powmod_step(43, 417154169615882911789, 9939222157914107496661192708333530789, 170141183460469231731687303715884105727, false, 55425965128300555981986894932670523172);
    lemma_powmod_step(43, 834308339231765823578, 55425965128300555981986894932670523172, 170141183460469231731687303715884105727, false, 26388884389116018609833267942307540437);
    lemma_powmod_step(43, 1668616678463531647156, 26388884389116018609833267942307540437, 170141183460469231731687303715884105727, true, 163580376135041654516528684046068036499);
    lemma_powmod_step(43, 3337233356927063294313, 163580376135041654516528684046068036499, 170141183460469231731687303715884105727, true, 98455863631907453538666575301579132559);
    lemma_powmod_step(43, 6674466713854126588627, 98455863631907453538666575301579132559, 170141183460469231731687303715884105727, true, 111767559825800668291414335768444685721);
    lemma_powmod_step(43, 13348933427708253177255, 111767559825800668291414335768444685721, 170141183460469231731687303715884105727, false, 54285772320810853737198665911728343781);
    lemma_powmod_step(43, 26697866855416506354510, 54285772320810853737198665911728343781, 170141183460469231731687303715884105727, true, 125668065663281034058504166523659229657);
    lemma_powmod_step(43, 53395733710833012709021, 125668065663281034058504166523659229657, 170141183460469231731687303715884105727, false, 109911960541603317966364289564620598075);
    lemma_powmod_step(43, 106791467421666025418042, 109911960541603317966364289564620598075, 170141183460469231731687303715884105727, false, 39166855490789322645504174901344851025);
    lemma_powmod_step(43, 213582934843332050836084, 39166855490789322645504174901344851025, 170141183460469231731687303715884105727, true, 109812794866675281539404748663778555961);
    lemma_powmod_step(43, 427165869686664101672169, 109812794866675281539404748663778555961, 170141183460469231731687303715884105727, false, 72709663125652678125023294413806150623);
    lemma_powmod_step(43, 854331739373328203344338, 72709663125652678125023294413806150623, 170141183460469231731687303715884105727, true, 34827063975825523820730538273921316671);
    lemma_powmod_step(43, 1708663478746656406688677, 34827063975825523820730538273921316671, 170141183460469231731687303715884105727, true, 141394321030086566000566021321371529271);
    lemma_powmod_step(43, 3417326957493312813377355, 141394321030086566000566021321371529271, 170141183460469231731687303715884105727, false, 76761080734535329496609211420003851224);
    lemma_powmod_step(43, 6834653914986625626754710, 76761080734535329496609211420003851224, 170141183460469231731687303715884105727, true, 35032965774554658185822400217040466926);
    lemma_powmod_step(43, 13669307829973251253509421, 35032965774554658185822400217040466926, 170141183460469231731687303715884105727, false, 125158189231940867489207682910444879512);
    lemma_powmod_step(43, 27338615659946502507018842, 125158189231940867489207682910444879512, 170141183460469231731687303715884105727, true, 53678915642315560199220487795278345298);
    lemma_powmod_step(43, 54677231319893005014037685, 53678915642315560199220487795278345298, 170141183460469231731687303715884105727, false, 54556701401162164405476093959015454539);
    lemma_powmod_step(43, 109354462639786010028075370, 54556701401162164405476093959015454539, 170141183460469231731687303715884105727, true, 164797005085456158651674715085732226910);
    lemma_powmod_step(43, 218708925279572020056150741, 164797005085456158651674715085732226910, 170141183460469231731687303715884105727, false, 103297068691246251555546598248565034493);
    lemma_powmod_step(43, 437417850559144040112301482, 103297068691246251555546598248565034493, 170141183460469231731687303715884105727, false, 31287242601158360100265050417689068916);
    lemma_powmod_step(43, 874835701118288080224602964, 31287242601158360100265050417689068916, 170141183460469231731687303715884105727, true, 36810872791377437751441264227168634114);
    lemma_powmod_step(43, 1749671402236576160449205929, 36810872791377437751441264227168634114, 170141183460469231731687303715884105727, true, 138940849603392919236962897035304010861);
    lemma_powmod_step(43, 3499342804473152320898411859, 138940849603392919236962897035304010861, 170141183460469231731687303715884105727, false, 111482303372411429383860092501154285789);
    lemma_powmod_step(43, 6998685608946304641796823718, 111482303372411429383860092501154285789, 170141183460469231731687303715884105727, false, 152021381181420841536328664051979635165);
    lemma_powmod_step(43, 13997371217892609283593647436, 152021381181420841536328664051979635165, 170141183460469231731687303715884105727, false, 67534473008187706106934323714955903483);
    lemma_powmod_step(43, 27994742435785218567187294872, 67534473008187706106934323714955903483, 170141183460469231731687303715884105727, true, 131259311468698877833213777288265651023);
    lemma_powmod_step(43, 55989484871570437134374589745, 131259311468698877833213777288265651023, 170141183460469231731687303715884105727, false, 47136207230173883665878594636900780242);
    lemma_powmod_step(43, 111978969743140874268749179490, 47136207230173883665878594636900780242, 170141183460469231731687303715884105727, true, 19190405527745450917798914344754692727);
    lemma_powmod_step(43, 223957939486281748537498358981, 19190405527745450917798914344754692727, 170141183460469231731687303715884105727, true, 88503089248186826164786487265860360920);
    lemma_powmod_step(43, 447915878972563497074996717963, 88503089248186826164786487265860360920, 170141183460469231731687303715884105727, false, 45791058837617134386015852843297060040);
    lemma_powmod_step(43, 895831757945126994149993435926, 45791058837617134386015852843297060040, 170141183460469231731687303715884105727, true, 29100683960339532147243279802786565792);
    lemma_powmod_step(43, 1791663515890253988299986871853, 29100683960339532147243279802786565792, 170141183460469231731687303715884105727, false, 106256623316236870803064656680976543507);
    lemma_powmod_step(43, 3583327031780507976599973743706, 106256623316236870803064656680976543507, 170141183460469231731687303715884105727, false, 84161372814851795263423151511481955741);
    lemma_powmod_step(43, 7166654063561015953199947487412, 84161372814851795263423151511481955741, 170141183460469231731687303715884105727, false, 162657910086772280572540791210087276463);
    lemma_powmod_step(43, 14333308127122031906399894974824, 162657910086772280572540791210087276463, 170141183460469231731687303715884105727, true, 159112649461052389538502928668474103025);
    lemma_powmod_step(43, 28666616254244063812799789949649, 159112649461052389538502928668474103025, 170141183460469231731687303715884105727, true, 99844006166411133571726238178363319526);
    lemma_powmod_step(43, 57333232508488127625599579899299, 99844006166411133571726238178363319526, 170141183460469231731687303715884105727, true, 117332501957966775824653333164490326977);
    lemma_powmod_step(43, 114666465016976255251199159798599, 117332501957966775824653333164490326977, 170141183460469231731687303715884105727, true, 165023417203600932580420240966128198033);
    lemma_powmod_step(43, 229332930033952510502398319597199, 165023417203600932580420240966128198033, 170141183460469231731687303715884105727, true, 52417056519507085709359913578397589064);
    lemma_powmod_step(43, 458665860067905021004796639194399, 52417056519507085709359913578397589064, 170141183460469231731687303715884105727, true, 100965672462508217762356460232090454581);
    lemma_powmod_step(43, 917331720135810042009593278388799, 100965672462508217762356460232090454581, 170141183460469231731687303715884105727, false, 10505919411115761463603776916828528380);
}

/// 43^261893866240907481535159790036718 mod 170141183460469231731687303715884105727.
proof fn lemma_pow_q_43_ce990b8b377000019d3217166ee()
    ensures
        pow(43, 261893866240907481535159790036718) % 170141183460469231731687303715884105727 == 165934787046051256941382364823655994977,
{
    lemma_powmod_start(43, 170141183460469231731687303715884105727);
    lemma_powmod_step(43, 1, 43, 170141183460469231731687303715884105727, true, 79507);
    lemma_powmod_step(43, 3, 79507, 170141183460469231731687303715884105727, false, 6321363049);
    lemma_powmod_step(43, 6, 6321363049, 170141183460469231731687303715884105727, false, 39959630797262576401);
    lemma_powmod_step(43, 12, 39959630797262576401, 170141183460469231731687303715884105727, true, 94303083932937605556973153594276242462);
    lemma_powmod_step(43, 25, 94303083932937605556973153594276242462, 170141183460469231731687303715884105727, true, 45283116326944557569261867534697116019);
    lemma_powmod_step(43, 51, 45283116326944557569261867534697116019, 170141183460469231731687303715884105727, true, 37487245476750097070095372228737433443);
    lemma_powmod_step(43, 103, 37487245476750097070095372228737433443, 170141183460469231731687303715884105727, false, 142699854400488751029958235279549286708);
    lemma_powmod_step(43, 206, 142699854400488751029958235279549286708, 170141183460469231731687303715884105727, true, 131651504005409779946319407004020833584);
    lemma_powmod_step(43, 413, 131651504005409779946319407004020833584, 170141183460469231731687303715884105727, false, 162231276393402453864079451342065026906);
    lemma_powmod_step(43, 826, 162231276393402453864079451342065026906, 170141183460469231731687303715884105727, false, 138780257210814424875084388879061530686);
    lemma_powmod_step(43, 1652, 138780257210814424875084388879061530686, 170141183460469231731687303715884105727, true, 24187417857685692854078130294451180230);
    lemma_powmod_step(43, 3305, 24187417857685692854078130294451180230, 170141183460469231731687303715884105727, true, 121301750547038406420696904195154376170);
    lemma_powmod_step(43, 6611, 121301750547038406420696904195154376170, 170141183460469231731687303715884105727, false, 159025710811472957188150050329827928497);
    lemma_powmod_step(43, 13222, 159025710811472957188150050329827928497, 170141183460469231731687303715884105727, false, 20967051321984719544824659587736965455);
    lemma_powmod_step(43, 26444, 20967051321984719544824659587736965455, 170141183460469231731687303715884105727, true, 148076179851698951900267078036826295675);
    lemma_powmod_step(43, 52889, 148076179851698951900267078036826295675, 170141183460469231731687303715884105727, false, 1557455095340745191623489575961467764);
    lemma_powmod_step(43, 105778, 1557455095340745191623489575961467764, 170141183460469231731687303715884105727, false, 72853165153672114268647752725912385988);
    lemma_powmod_step(43, 211556, 72853165153672114268647752725912385988, 170141183460469231731687303715884105727, false, 13036005377769479171736622628372886844);
    lemma_powmod_step(43, 423112, 13036005377769479171736622628372886844, 170141183460469231731687303715884105727, false, 32458720068544318882949417488811366671);
    lemma_powmod_step(43, 846224, 32458720068544318882949417488811366671, 170141183460469231731687303715884105727, true, 65622226120275304299722490184385501131);
    lemma_powmod_step(43, 1692449, 65622226120275304299722490184385501131, 170141183460469231731687303715884105727, false, 64523827823670154132756850998319393053);
    lemma_powmod_step(43, 3384898, 64523827823670154132756850998319393053, 170141183460469231731687303715884105727, true, 46478220009858216174411137597076812225);
    lemma_powmod_step(43, 6769797, 46478220009858216174411137597076812225, 170141183460469231731687303715884105727, true, 152779401609131340477016757490035819927);
    lemma_powmod_step(43, 13539595, 152779401609131340477016757490035819927, 170141183460469231731687303715884105727, true, 56343508908539302153306491955105360846);
    lemma_powmod_step(43, 27079191, 56343508908539302153306491955105360846, 170141183460469231731687303715884105727, false, 104605231043226718279685080332678606343);
    lemma_powmod_step(43, 54158382, 104605231043226718279685080332678606343, 170141183460469231731687303715884105727, false, 100735483967063339942752301248472893265);
    lemma_powmod_step(43, 108316764, 100735483967063339942752301248472893265, 170141183460469231731687303715884105727, false, 120296266865399990357075867406491668781);
    lemma_powmod_step(43, 216633528, 120296266865399990357075867406491668781, 170141183460469231731687303715884105727, true, 85337880117351527054823605991550351995);
    lemma_powmod_step(43, 433267057, 85337880117351527054823605991550351995, 170141183460469231731687303715884105727, false, 129244061965190195364090913711305816462);
    lemma_powmod_step(43, 866534114, 129244061965190195364090913711305816462, 170141183460469231731687303715884105727, true, 46660776377756068092511622108529545018);
    lemma_powmod_step(43, 1733068229, 46660776377756068092511622108529545018, 170141183460469231731687303715884105727, true, 42547427534694236235334527318012519232);
    lemma_powmod_step(43, 3466136459, 42547427534694236235334527318012519232, 170141183460469231731687303715884105727, false, 6055149701395128099686320744063331348);
    lemma_powmod_step(43, 6932272918, 6055149701395128099686320744063331348, 170141183460469231731687303715884105727, false, 60353057203090898420704205134725328743);
    lemma_powmod_step(43, 13864545836, 60353057203090898420704205134725328743, 170141183460469231731687303715884105727, true, 65389918576365876525090773651657548773);
    lemma_powmod_step(43, 27729091673, 65389918576365876525090773651657548773, 170141183460469231731687303715884105727, true, 113781194085043336268677317817051090308);
    lemma_powmod_step(43, 55458183347, 113781194085043336268677317817051090308, 170141183460469231731687303715884105727, false, 160601708703945116898101535951040046380);
    lemma_powmod_step(43, 110916366694, 160601708703945116898101535951040046380, 170141183460469231731687303715884105727, true, 13446508157179283236181432035187129368);
    lemma_powmod_step(43, 221832733389, 13446508157179283236181432035187129368, 170141183460469231731687303715884105727, true, 88200182570765723224960527704576069100);
    lemma_powmod_step(43, 443665466779, 88200182570765723224960527704576069100, 170141183460469231731687303715884105727, true, 102681480530711536794970054854315672909);
    lemma_powmod_step(43, 887330933559, 102681480530711536794970054854315672909, 170141183460469231731687303715884105727, false, 151072223772184418776569341702420572976);
    lemma_powmod_step(43, 1774661867118, 151072223772184418776569341702420572976, 170141183460469231731687303715884105727, true, 27884538099730230998289063174609703598);
    lemma_powmod_step(43, 3549323734237, 27884538099730230998289063174609703598, 170141183460469231731687303715884105727, true, 62515992290567905700828165525462629276);
    lemma_powmod_step(43, 7098647468475, 62515992290567905700828165525462629276, 170141183460469231731687303715884105727, true, 168435536090370477889727061591651383857);
    lemma_powmod_step(43, 14197294936951, 168435536090370477889727061591651383857, 170141183460469231731687303715884105727, false, 153899910472471066691104590954574664944);
    lemma_powmod_step(43, 28394589873902, 153899910472471066691104590954574664944, 170141183460469231731687303715884105727, false, 41284601543246941573792266115117107800);
    lemma_powmod_step(43, 56789179747804, 41284601543246941573792266115117107800, 170141183460469231731687303715884105727, false, 58836127316435785453630507778201257882);
    lemma_powmod_step(43, 113578359495608, 58836127316435785453630507778201257882, 170141183460469231731687303715884105727, false, 147889532815397497241244594339807491750);
    lemma_powmod_step(43, 227156718991216, 147889532815397497241244594339807491750, 170141183460469231731687303715884105727, false, 74189405030270873127955379528328045759);
    lemma_powmod_step(43, 454313437982432, 74189405030270873127955379528328045759, 170141183460469231731687303715884105727, false, 160426775263887716387742057541321334783);
    lemma_powmod_step(43, 908626875964864, 160426775263887716387742057541321334783, 170141183460469231731687303715884105727, false, 86604135259263385878916825524173811697);
    lemma_powmod_step(43, 1817253751929728, 86604135259263385878916825524173811697, 170141183460469231731687303715884105727, false, 135586284043632206667212015644991517471);
    lemma_powmod_step(43, 3634507503859456, 135586284043632206667212015644991517471, 170141183460469231731687303715884105727, false, 169481776162410816487728075130762610225);
    lemma_powmod_step(43, 7269015007718912, 169481776162410816487728075130762610225, 170141183460469231731687303715884105727, false, 68006130930938832221520259297208162734);
    lemma_powmod_step(43, 14538030015437824, 68006130930938832221520259297208162734, 170141183460469231731687303715884105727, false, 153313386091420884390914590629038660130);
    lemma_powmod_step(43, 29076060030875648, 153313386091420884390914590629038660130, 170141183460469231731687303715884105727, false, 69023668990838240329770998870968111792);
    lemma_powmod_step(43, 58152120061751296, 69023668990838240329770998870968111792, 170141183460469231731687303715884105727, false, 104593103561338539329223001338420667446);
    lemma_powmod_step(43, 116304240123502592, 104593103561338539329223001338420667446, 170141183460469231731687303715884105727, false, 58903304253721034113758514546549716701);
    lemma_powmod_step(43, 232608480247005184, 58903304253721034113758514546549716701, 170141183460469231731687303715884105727, false, 82838939700267939897054647632242314436);
    lemma_powmod_step(43, 465216960494010368, 82838939700267939897054647632242314436, 170141183460469231731687303715884105727, false, 72859864187093270284282590887059443423);
    lemma_powmod_step(43, 930433920988020736, 72859864187093270284282590887059443423, 170141183460469231731687303715884105727, false, 165210913075024738664192611726080263695);
    lemma_powmod_step(43, 1860867841976041472, 165210913075024738664192611726080263695, 170141183460469231731687303715884105727, false, 60226573204253800218463780327845437965);
    lemma_powmod_step(43, 3721735683952082944, 60226573204253800218463780327845437965, 170141183460469231731687303715884105727, false, 118552686811955668575706920633461371806);
    lemma_powmod_step(43, 7443471367904165888, 118552686811955668575706920633461371806, 170141183460469231731687303715884105727, true, 168519251774012223978945211892253949253);
    lemma_powmod_step(43, 14886942735808331777, 168519251774012223978945211892253949253, 170141183460469231731687303715884105727, true, 57722611597634366410344507484108883768);
    lemma_powmod_step(43, 29773885471616663555, 57722611597634366410344507484108883768, 170141183460469231731687303715884105727, false, 138319185365034079586332147836643754912);
    lemma_powmod_step(43, 59547770943233327110, 138319185365034079586332147836643754912, 170141183460469231731687303715884105727, false, 62541650573209022590377158998263560718);
    lemma_powmod_step(43, 119095541886466654220, 62541650573209022590377158998263560718, 170141183460469231731687303715884105727, true, 123527057694508134545725707726564004873);
    lemma_powmod_step(43, 238191083772933308441, 123527057694508134545725707726564004873, 170141183460469231731687303715884105727, true, 39473551651541760434663616975703019242);
    lemma_powmod_step(43, 476382167545866616883, 39473551651541760434663616975703019242, 170141183460469231731687303715884105727, true, 155412119161259448699722571436061165301);
    lemma_powmod_step(43, 952764335091733233767, 155412119161259448699722571436061165301, 170141183460469231731687303715884105727, false, 94078389002715666795764790173719403035);
    lemma_powmod_step(43, 1905528670183466467534, 94078389002715666795764790173719403035, 170141183460469231731687303715884105727, true, 93092064825641379001127723661043588561);
    lemma_powmod_step(43, 3811057340366932935069, 93092064825641379001127723661043588561, 170141183460469231731687303715884105727, false, 114826914578292798314248847880353639705);
    lemma_powmod_step(43, 7622114680733865870138, 114826914578292798314248847880353639705, 170141183460469231731687303715884105727, false, 42600679668337361646950911915507968310);
    lemma_powmod_step(43, 15244229361467731740276, 42600679668337361646950911915507968310, 170141183460469231731687303715884105727, true, 20607527018368791967302205512730026140);
    lemma_powmod_step(43, 30488458722935463480553, 20607527018368791967302205512730026140, 170141183460469231731687303715884105727, true, 117084520377213840990527647976487198557);
    lemma_powmod_step(43, 60976917445870926961107, 117084520377213840990527647976487198557, 170141183460469231731687303715884105727, false, 101836966282233457487070058310488480);
    lemma_powmod_step(43, 121953834891741853922214, 101836966282233457487070058310488480, 170141183460469231731687303715884105727, false, 17698927703165188978717420291673112101);
    lemma_powmod_step(43, 243907669783483707844428, 17698927703165188978717420291673112101, 170141183460469231731687303715884105727, true, 6894933124345272904248059492995707378);
    lemma_powmod_step(43, 487815339566967415688857, 6894933124345272904248059492995707378, 170141183460469231731687303715884105727, false, 79141745035018967007160877479960769650);
    lemma_powmod_step(43, 975630679133934831377714, 79141745035018967007160877479960769650, 170141183460469231731687303715884105727, false, 76855644113127376848097813619016773093);
    lemma_powmod_step(43, 1951261358267869662755428, 76855644113127376848097813619016773093, 170141183460469231731687303715884105727, false, 125929781635366298374205375020676400593);
    lemma_powmod_step(43, 3902522716535739325510856, 125929781635366298374205375020676400593, 170141183460469231731687303715884105727, false, 114864609028486788438380042452513926726);
    lemma_powmod_step(43, 7805045433071478651021712, 114864609028486788438380042452513926726, 170141183460469231731687303715884105727, true, 12781026257882483682501652417564974396);
    lemma_powmod_step(43, 15610090866142957302043425, 12781026257882483682501652417564974396, 170141183460469231731687303715884105727, false, 158634755535809553135264726153078360961);
    lemma_powmod_step(43, 31220181732285914604086850, 158634755535809553135264726153078360961, 170141183460469231731687303715884105727, true, 115563684328604873419597440379536650775);
    lemma_powmod_step(43, 62440363464571829208173701, 115563684328604873419597440379536650775, 170141183460469231731687303715884105727, true, 27318147711534669243461696522708647402);
    lemma_powmod_step(43, 124880726929143658416347403, 27318147711534669243461696522708647402, 170141183460469231731687303715884105727, true, 162310846870924140819114818145819906846);
    lemma_powmod_step(43, 249761453858287316832694807, 162310846870924140819114818145819906846, 170141183460469231731687303715884105727, false, 65194520233664557406724958213336434709);
    lemma_powmod_step(43, 499522907716574633665389614, 65194520233664557406724958213336434709, 170141183460469231731687303715884105727, false, 59156667711307833071414286692594957831);
    lemma_powmod_step(43, 999045815433149267330779228, 59156667711307833071414286692594957831, 170141183460469231731687303715884105727, false, 57511040754181795971778432580210618372);
    lemma_powmod_step(43, 1998091630866298534661558456, 57511040754181795971778432580210618372, 170141183460469231731687303715884105727, true, 13508929115861800908198960305549003752);
    lemma_powmod_step(43, 3996183261732597069323116913, 13508929115861800908198960305549003752, 170141183460469231731687303715884105727, false, 33395281889664337915766709743768498334);
    lemma_powmod_step(43, 7992366523465194138646233826, 33395281889664337915766709743768498334, 170141183460469231731687303715884105727, true, 163072571214217278356777099439918871719);
    lemma_powmod_step(43, 15984733046930388277292467653, 163072571214217278356777099439918871719, 170141183460469231731687303715884105727, true, 73074925504581521549490938078463957017);
    lemma_powmod_step(43, 31969466093860776554584935307, 73074925504581521549490938078463957017, 170141183460469231731687303715884105727, false, 46754272845640956447529245952486091574);
    lemma_powmod_step(43, 63938932187721553109169870614, 46754272845640956447529245952486091574, 170141183460469231731687303715884105727, false, 42189072824880963847303199938751353481);
    lemma_powmod_step(43, 127877864375443106218339741228, 42189072824880963847303199938751353481, 170141183460469231731687303715884105727, true, 153437960529874303784852977443828212079);
    lemma_powmod_step(43, 255755728750886212436679482457, 153437960529874303784852977443828212079, 170141183460469231731687303715884105727, true, 131204853198775833277833494448318828395);
    lemma_powmod_step(43, 511511457501772424873358964915, 131204853198775833277833494448318828395, 170141183460469231731687303715884105727, false, 165621816464524860709067314483313639057);
    lemma_powmod_step(43, 1023022915003544849746717929830, 165621816464524860709067314483313639057, 170141183460469231731687303715884105727, true, 66142544018008468250618822953426611724);
    lemma_powmod_step(43, 2046045830007089699493435859661, 66142544018008468250618822953426611724, 170141183460469231731687303715884105727, true, 8250195135238897710732281110110493180);
    lemma_powmod_step(43, 4092091660014179398986871719323, 8250195135238897710732281110110493180, 170141183460469231731687303715884105727, true, 160155232342663930579772396074903818871);
    lemma_powmod_step(43, 8184183320028358797973743438647, 160155232342663930579772396074903818871, 170141183460469231731687303715884105727, false, 64543090790571465760340380121069929809);
    lemma_powmod_step(43, 16368366640056717595947486877294, 64543090790571465760340380121069929809, 170141183460469231731687303715884105727, true, 146251696260441244103975815772097868339);
    lemma_powmod_step(43, 32736733280113435191894973754589, 146251696260441244103975815772097868339, 170141183460469231731687303715884105727, true, 19035451606373448827503501053062317877);
    lemma_powmod_step(43, 65473466560226870383789947509179, 19035451606373448827503501053062317877, 170141183460469231731687303715884105727, true, 166981857895712004645315719569671685385);
    lemma_powmod_step(43, 130946933120453740767579895018359, 166981857895712004645315719569671685385, 170141183460469231731687303715884105727, false, 165934787046051256941382364823655994977);
}

/// 43^2205081746441495815869431694 mod 170141183460469231731687303715884105727.
proof fn lemma_pow_q_43_7200038fffffffff1bfff8e()
    ensures
        pow(43, 2205081746441495815869431694) % 170141183460469231731687303715884105727 == 77459540161799953506571231391757981395,
{
    lemma_powmod_start(43, 170141183460469231731687303715884105727);
    lemma_powmod_step(43, 1, 43, 170141183460469231731687303715884105727, true, 79507);
    lemma_powmod_step(43, 3, 79507, 170141183460469231731687303715884105727, true, 271818611107);
    lemma_powmod_step(43, 7, 271818611107, 170141183460469231731687303715884105727, false, 73885357344138503765449);
    lemma_powmod_step(43, 14, 73885357344138503765449, 170141183460469231731687303715884105727, false, 143762703572570298000109972256322354525);
    lemma_powmod_step(43, 28, 143762703572570298000109972256322354525, 170141183460469231731687303715884105727, true, 102267490640609599390923528690639548733);
    lemma_powmod_step(43, 57, 102267490640609599390923528690639548733, 170141183460469231731687303715884105727, false, 112169908819360303330140954732561667988);
    lemma_powmod_step(43, 114, 112169908819360303330140954732561667988, 170141183460469231731687303715884105727, false, 21269859057700599772466907549017031785);
    lemma_powmod_step(43, 228, 21269859057700599772466907549017031785, 170141183460469231731687303715884105727, false, 78779874457796764401038003454030335903);
    lemma_powmod_step(43, 456, 78779874457796764401038003454030335903, 170141183460469231731687303715884105727, false, 96901621053072208757756497789696419430);
    lemma_powmod_step(43, 912, 96901621053072208757756497789696419430, 170141183460469231731687303715884105727, false, 53888059643203374232586387934653148616);
    lemma_powmod_step(43, 1824, 53888059643203374232586387934653148616, 170141183460469231731687303715884105727, false, 96077497514411737872504565910276805317);
    lemma_powmod_step(43, 3648, 96077497514411737872504565910276805317, 170141183460469231731687303715884105727, false, 148962301397858888572475177564490606472);
    lemma_powmod_step(43, 7296, 148962301397858888572475177564490606472, 170141183460469231731687303715884105727, false, 143843814309174377904950215823429594011);
    lemma_powmod_step(43, 14592, 143843814309174377904950215823429594011, 170141183460469231731687303715884105727, false, 164392077884454681167046580357811670479);
    lemma_powmod_step(43, 29184, 164392077884454681167046580357811670479, 170141183460469231731687303715884105727, false, 13349195866427798786982690526839834622);
    lemma_powmod_step(43, 58368, 13349195866427798786982690526839834622, 170141183460469231731687303715884105727, false, 100053087903584422835169008896902444043);
    lemma_powmod_step(43, 116736, 100053087903584422835169008896902444043, 170141183460469231731687303715884105727, false, 114881861666022745133093024627165341534);
    lemma_powmod_step(43, 233472, 114881861666022745133093024627165341534, 170141183460469231731687303715884105727, false, 156744988341760991319622780241788236593);
    lemma_powmod_step(43, 466944, 156744988341760991319622780241788236593, 170141183460469231731687303715884105727, false, 39618704269704804851543209024849266851);
    lemma_powmod_step(43, 933888, 39618704269704804851543209024849266851, 170141183460469231731687303715884105727, false, 125537621302859620445343694299208414641);
    lemma_powmod_step(43, 1867776, 125537621302859620445343694299208414641, 170141183460469231731687303715884105727, true, 141362208494557914828667243179968696649);
    lemma_powmod_step(43, 3735553, 141362208494557914828667243179968696649, 170141183460469231731687303715884105727, true, 118895841427514075872110948891098349044);
    lemma_powmod_step(43, 7471107, 118895841427514075872110948891098349044, 170141183460469231731687303715884105727, true, 134032117844269068267091501915995057462);
    lemma_powmod_step(43, 14942215, 134032117844269068267091501915995057462, 170141183460469231731687303715884105727, false, 136288321011508924841226096920186713984);
    lemma_powmod_step(43, 29884430, 136288321011508924841226096920186713984, 170141183460469231731687303715884105727, false, 44379928972591868575154993798909982913);
    lemma_powmod_step(43, 59768860, 44379928972591868575154993798909982913, 170141183460469231731687303715884105727, false, 15477800287724567806865357838028913146);
    lemma_powmod_step(43, 119537720, 15477800287724567806865357838028913146, 170141183460469231731687303715884105727, true, 121786693210516515711328342220615613738);
    lemma_powmod_step(43, 239075441, 121786693210516515711328342220615613738, 170141183460469231731687303715884105727, true, 103849270224176761969640330023257661524);
    lemma_powmod_step(43, 478150883, 103849270224176761969640330023257661524, 170141183460469231731687303715884105727, true, 76354871598242098052911501198428502707);
    lemma_powmod_step(43, 956301767, 76354871598242098052911501198428502707, 170141183460469231731687303715884105727, true, 54033040454283005191064015984341097962);
    lemma_powmod_step(43, 1912603535, 54033040454283005191064015984341097962, 170141183460469231731687303715884105727, true, 5993891813900592255870161278472846503);
    lemma_powmod_step(43, 3825207071, 5993891813900592255870161278472846503, 170141183460469231731687303715884105727, true, 123797540932400635245126961322804199217);
    lemma_powmod_step(43, 7650414143, 123797540932400635245126961322804199217, 170141183460469231731687303715884105727, true, 112954752286562426168559226003257072528);
    lemma_powmod_step(43, 15300828287, 112954752286562426168559226003257072528, 170141183460469231731687303715884105727, true, 120226411025526514769495730554868009398);
    lemma_powmod_step(43, 30601656575, 120226411025526514769495730554868009398, 170141183460469231731687303715884105727, true, 28013985552346418282705939863589164134);
    lemma_powmod_step(43, 61203313151, 28013985552346418282705939863589164134, 170141183460469231731687303715884105727, true, 50450687101392251471920193746994510931);
    lemma_powmod_step(43, 122406626303, 50450687101392251471920193746994510931, 170141183460469231731687303715884105727, true, 107999697198040197314896936864585029069);
    lemma_powmod_step(43, 244813252607, 107999697198040197314896936864585029069, 170141183460469231731687303715884105727, true, 49680494651375006658849096817180039980);
    lemma_powmod_step(43, 489626505215, 49680494651375006658849096817180039980, 170141183460469231731687303715884105727, true, 81593938873240688379480491979980315837);
    lemma_powmod_step(43, 979253010431, 81593938873240688379480491979980315837, 170141183460469231731687303715884105727, true, 120725980408891934629603311930977291409);
    lemma_powmod_step(43, 1958506020863, 120725980408891934629603311930977291409, 170141183460469231731687303715884105727, true, 4052894981686260454989500302297644277);
    lemma_powmod_step(43, 3917012041727, 4052894981686260454989500302297644277, 170141183460469231731687303715884105727, true, 22335971061806744230135255389473197173);
    lemma_powmod_step(43, 7834024083455, 22335971061806744230135255389473197173, 170141183460469231731687303715884105727, true, 109784322449153551651044274624995964673);
    lemma_powmod_step(43, 15668048166911, 109784322449153551651044274624995964673, 170141183460469231731687303715884105727, true, 86604753936363825840292453322735274706);
    lemma_powmod_step(43, 31336096333823, 86604753936363825840292453322735274706, 170141183460469231731687303715884105727, true, 31617394779720145771306395983346257603);
    lemma_powmod_step(43, 62672192667647, 31617394779720145771306395983346257603, 170141183460469231731687303715884105727, true, 53778425294192857858969421905511431613);
    lemma_powmod_step(43, 125344385335295, 53778425294192857858969421905511431613, 170141183460469231731687303715884105727, true, 61548846461149345826648181423907509834);
    lemma_powmod_step(43, 250688770670591, 61548846461149345826648181423907509834, 170141183460469231731687303715884105727, true, 98811753677453099778769729925943089788);
    lemma_powmod_step(43, 501377541341183, 98811753677453099778769729925943089788, 170141183460469231731687303715884105727, true, 79873673013280815425277793074279225891);
    lemma_powmod_step(43, 1002755082682367, 79873673013280815425277793074279225891, 170141183460469231731687303715884105727, true, 11784952832363800114886696034650478245);
    lemma_powmod_step(43, 2005510165364735, 11784952832363800114886696034650478245, 170141183460469231731687303715884105727, true, 47500672844430567463350490805676629487);
    lemma_powmod_step(43, 4011020330729471, 47500672844430567463350490805676629487, 170141183460469231731687303715884105727, true, 68885783657725021989889000495510952828);
    lemma_powmod_step(43, 8022040661458943, 68885783657725021989889000495510952828, 170141183460469231731687303715884105727, true, 72608597160097318271024180642035172901);
    lemma_powmod_step(43, 16044081322917887, 72608597160097318271024180642035172901, 170141183460469231731687303715884105727, true, 92155435830915270019534094067834388366);
    lemma_powmod_step(43, 32088162645835775, 92155435830915270019534094067834388366, 170141183460469231731687303715884105727, true, 128218762409380584813348334493954086724);
    lemma_powmod_step(43, 64176325291671551, 128218762409380584813348334493954086724, 170141183460469231731687303715884105727, true, 136790804082944732984080917543442873373);
    lemma_powmod_step(43, 128352650583343103, 136790804082944732984080917543442873373, 170141183460469231731687303715884105727, true, 85356058932924904307464687686296055499);
    lemma_powmod_step(43, 256705301166686207, 85356058932924904307464687686296055499, 170141183460469231731687303715884105727, true, 133366148931810489898045565880526424351);
    lemma_powmod_step(43, 513410602333372415, 133366148931810489898045565880526424351, 170141183460469231731687303715884105727, true, 71108570585187456229464739238421672173);
    lemma_powmod_step(43, 1026821204666744831, 71108570585187456229464739238421672173, 170141183460469231731687303715884105727, true, 76624490274446649497939006536452567579);
    lemma_powmod_step(43, 2053642409333489663, 76624490274446649497939006536452567579, 170141183460469231731687303715884105727, true, 86909094319601304143103608253239740691);
    lemma_powmod_step(43, 4107284818666979327, 86909094319601304143103608253239740691, 170141183460469231731687303715884105727, true, 114446732762095835968708600007752393824);
    lemma_powmod_step(43, 8214569637333958655, 114446732762095835968708600007752393824, 170141183460469231731687303715884105727, false, 23568625126532664810907411756756476398);
    lemma_powmod_step(43, 16429139274667917310, 23568625126532664810907411756756476398, 170141183460469231731687303715884105727, false, 148357759711979588144801912325135479737);
    lemma_powmod_step(43, 32858278549335834620, 148357759711979588144801912325135479737, 170141183460469231731687303715884105727, false, 107959044214523338726940740662001341361);
    lemma_powmod_step(43, 65716557098671669240, 107959044214523338726940740662001341361, 170141183460469231731687303715884105727, true, 13496303185370806992419724302092480631);
    lemma_powmod_step(43, 131433114197343338481, 13496303185370806992419724302092480631, 170141183460469231731687303715884105727, true, 169215031217272069058405664728900612806);
    lemma_powmod_step(43, 262866228394686676963, 169215031217272069058405664728900612806, 170141183460469231731687303715884105727, false, 136097383107535941882000350489569884938);
    lemma_powmod_step(43, 525732456789373353926, 136097383107535941882000350489569884938, 170141183460469231731687303715884105727, true, 21382848052663290576158863297298953131);
    lemma_powmod_step(43, 1051464913578746707853, 21382848052663290576158863297298953131, 170141183460469231731687303715884105727, true, 169539151076914106064711478829623789181);
    lemma_powmod_step(43, 2102929827157493415707, 169539151076914106064711478829623789181, 170141183460469231731687303715884105727, true, 6430731772598922510159101714399975025);
    lemma_powmod_step(43, 4205859654314986831415, 6430731772598922510159101714399975025, 170141183460469231731687303715884105727, true, 94571329295987764282904495779526238225);
    lemma_powmod_step(43, 8411719308629973662831, 94571329295987764282904495779526238225, 170141183460469231731687303715884105727, true, 65995906798254355906454169506607335652);
    lemma_powmod_step(43, 16823438617259947325663, 65995906798254355906454169506607335652, 170141183460469231731687303715884105727, true, 166739380054457286562799927936763565023);
    lemma_powmod_step(43, 33646877234519894651327, 166739380054457286562799927936763565023, 170141183460469231731687303715884105727, true, 62170649826827052430346933220028078315);
    lemma_powmod_step(43, 67293754469039789302655, 62170649826827052430346933220028078315, 170141183460469231731687303715884105727, true, 75787009623876887907959794702045301495);
    lemma_powmod_step(43, 134587508938079578605311, 75787009623876887907959794702045301495, 170141183460469231731687303715884105727, true, 17287057286971346927432558197125044362);
    lemma_powmod_step(43, 269175017876159157210623, 17287057286971346927432558197125044362, 170141183460469231731687303715884105727, true, 83626675733743720484205420926002487605);
    lemma_powmod_step(43, 538350035752318314421247, 83626675733743720484205420926002487605, 170141183460469231731687303715884105727, true, 99261267537167984694204142336079887146);
    lemma_powmod_step(43, 1076700071504636628842495, 99261267537167984694204142336079887146, 170141183460469231731687303715884105727, true, 15945007275391231864338508403842779326);
    lemma_powmod_step(43, 2153400143009273257684991, 15945007275391231864338508403842779326, 170141183460469231731687303715884105727, true, 156386712901685025349338163929147180476);
    lemma_powmod_step(43, 4306800286018546515369983, 156386712901685025349338163929147180476, 170141183460469231731687303715884105727, true, 22466736464232424202324037299234402296);
    lemma_powmod_step(43, 8613600572037093030739967, 22466736464232424202324037299234402296, 170141183460469231731687303715884105727, true, 25514991411749300450180256757564286304);
    lemma_powmod_step(43, 17227201144074186061479935, 25514991411749300450180256757564286304, 170141183460469231731687303715884105727, false, 152592092960517132997474174244042946235);
    lemma_powmod_step(43, 34454402288148372122959870, 152592092960517132997474174244042946235, 170141183460469231731687303715884105727, false, 81595837938951372568263017557247465931);
    lemma_powmod_step(43, 68908804576296744245919740, 81595837938951372568263017557247465931, 170141183460469231731687303715884105727, false, 95740971886648128164512060764938777329);
    lemma_powmod_step(43, 137817609152593488491839480, 95740971886648128164512060764938777329, 170141183460469231731687303715884105727, true, 91318229268756991961678160291018296560);
    lemma_powmod_step(43, 275635218305186976983678961, 91318229268756991961678160291018296560, 170141183460469231731687303715884105727, true, 26463090802108049664242350334767500866);
    lemma_powmod_step(43, 551270436610373953967357923, 26463090802108049664242350334767500866, 170141183460469231731687303715884105727, true, 147496064944910566934944543435506853329);
    lemma_powmod_step(43, 1102540873220747907934715847, 147496064944910566934944543435506853329, 170141183460469231731687303715884105727, false, 77459540161799953506571231391757981395);
}

/// The prime factors of 170141183460469231731687303715884105727 - 1, with multiplicity.
pub open spec fn factors_q() -> Seq<int> {
    seq![2int] + (seq![3int] + (seq![3int] + (seq![3int] + (seq![7int] + (seq![7int] + (seq![19int] + (seq![43int] + (seq![73int] + (seq![127int] + (seq![337int] + (seq![5419int] + (seq![92737int] + (seq![649657int] + (seq![77158673929int] + (Seq::<int>::empty())))))))))))))))
}

/// 170141183460469231731687303715884105727 is prime: Lucas certificate with witness 43.
pub proof fn lemma_prime_q()
    ensures
        is_prime(170141183460469231731687303715884105727),
        lucas_certificate(170141183460469231731687303715884105727, 43, factors_q()),
{
    let fl = factors_q();
    lemma_pow_q_43_7ffffffffffffffffffffffffffffffe();
    lemma_pow_q_43_3fffffffffffffffffffffffffffffff();
    lemma_prime_two();
    lemma_pow_q_43_2aaaaaaaaaaaaaaaaaaaaaaaaaaaaaaa();
    lemma_prime_3();
    lemma_pow_q_43_12492492492492492492492492492492();
    lemma_prime_7();
    lemma_pow_q_43_6bca1af286bca1af286bca1af286bca();
    lemma_prime_19();
    lemma_pow_q_43_2fa0be82fa0be82fa0be82fa0be82fa();
    lemma_prime_43();
    lemma_pow_q_43_1c0e070381c0e070381c0e070381c0e();
    lemma_prime_73();
    lemma_pow_q_43_1020408102040810204081020408102();
    lemma_prime_127();
    lemma_pow_q_43_613c0309e0184f00c2780613c0309e();
    lemma_prime_337();
    lemma_pow_q_43_60bffcfa00182fff3e80060bffcfa();
    lemma_prime_5419();
    lemma_pow_q_43_5a74b54c5a3f0000b4e96a98b47e();
    lemma_prime_92737();
    lemma_pow_q_43_ce990b8b377000019d3217166ee();
    lemma_prime_649657();
    lemma_pow_q_43_7200038fffffffff1bfff8e();
    lemma_prime_77158673929();
    lemma_product_prepend(2, seq![3int] + (seq![3int] + (seq![3int] + (seq![7int] + (seq![7int] + (seq![19int] + (seq![43int] + (seq![73int] + (seq![127int] + (seq![337int] + (seq![5419int] + (seq![92737int] + (seq![649657int] + (seq![77158673929int] + (Seq::<int>::empty())))))))))))))));
    lemma_product_prepend(3, seq![3int] + (seq![3int] + (seq![7int] + (seq![7int] + (seq![19int] + (seq![43int] + (seq![73int] + (seq![127int] + (seq![337int] + (seq![5419int] + (seq![92737int] + (seq![649657int] + (seq![77158673929int] + (Seq::<int>::empty()))))))))))))));
    lemma_product_prepend(3, seq![3int] + (seq![7int] + (seq![7int] + (seq![19int] + (seq![43int] + (seq![73int] + (seq![127int] + (seq![337int] + (seq![5419int] + (seq![92737int] + (seq![649657int] + (seq![77158673929int] + (Seq::<int>::empty())))))))))))));
    lemma_product_prepend(3, seq![7int] + (seq![7int] + (seq![19int] + (seq![43int] + (seq![73int] + (seq![127int] + (seq![337int] + (seq![5419int] + (seq![92737int] + (seq![649657int] + (seq![77158673929int] + (Seq::<int>::empty()))))))))))));
    lemma_product_prepend(7, seq![7int] + (seq![19int] + (seq![43int] + (seq![73int] + (seq![127int] + (seq![337int] + (seq![5419int] + (seq![92737int] + (seq![649657int] + (seq![77158673929int] + (Seq::<int>::empty())))))))))));
    lemma_product_prepend(7, seq![19int] + (seq![43int] + (seq![73int] + (seq![127int] + (seq![337int] + (seq![5419int] + (seq![92737int] + (seq![649657int] + (seq![77158673929int] + (Seq::<int>::empty()))))))))));
    lemma_product_prepend(19, seq![43int] + (seq![73int] + (seq![127int] + (seq![337int] + (seq![5419int] + (seq![92737int] + (seq![649657int] + (seq![77158673929int] + (Seq::<int>::empty())))))))));
    lemma_product_prepend(43, seq![73int] + (seq![127int] + (seq![337int] + (seq![5419int] + (seq![92737int] + (seq![649657int] + (seq![77158673929int] + (Seq::<int>::empty()))))))));
    lemma_product_prepend(73, seq![127int] + (seq![337int] + (seq![5419int] + (seq![92737int] + (seq![649657int] + (seq![77158673929int] + (Seq::<int>::empty())))))));
    lemma_product_prepend(127, seq![337int] + (seq![5419int] + (seq![92737int] + (seq![649657int] + (seq![77158673929int] + (Seq::<int>::empty()))))));
    lemma_product_prepend(337, seq![5419int] + (seq![92737int] + (seq![649657int] + (seq![77158673929int] + (Seq::<int>::empty())))));
    lemma_product_prepend(5419, seq![92737int] + (seq![649657int] + (seq![77158673929int] + (Seq::<int>::empty()))));
    lemma_product_prepend(92737, seq![649657int] + (seq![77158673929int] + (Seq::<int>::empty())));
    lemma_product_prepend(649657, seq![77158673929int] + (Seq::<int>::empty()));
    lemma_product_prepend(77158673929, Seq::<int>::empty());
    assert forall|i: int| 0 <= i < fl.len() implies is_prime(#[trigger] fl[i]) && pow(43, ((170141183460469231731687303715884105727 - 1) / fl[i]) as nat) % 170141183460469231731687303715884105727 != 1 by {
        if i == 0 {
            assert(fl[0] == 2);
            assert((170141183460469231731687303715884105727 - 1) / fl[0] == 85070591730234615865843651857942052863);
        } else if i == 1 {
            assert(fl[1] == 3);
            assert((170141183460469231731687303715884105727 - 1) / fl[1] == 56713727820156410577229101238628035242);
        } else if i == 2 {
            assert(fl[2] == 3);
            assert((170141183460469231731687303715884105727 - 1) / fl[2] == 56713727820156410577229101238628035242);
        } else if i == 3 {
            assert(fl[3] == 3);
            assert((170141183460469231731687303715884105727 - 1) / fl[3] == 56713727820156410577229101238628035242);
        } else if i == 4 {
            assert(fl[4] == 7);
            assert((170141183460469231731687303715884105727 - 1) / fl[4] == 24305883351495604533098186245126300818);
        } else if i == 5 {
            assert(fl[5] == 7);
            assert((170141183460469231731687303715884105727 - 1) / fl[5] == 24305883351495604533098186245126300818);
        } else if i == 6 {
            assert(fl[6] == 19);
            assert((170141183460469231731687303715884105727 - 1) / fl[6] == 8954799129498380617457226511362321354);
        } else if i == 7 {
            assert(fl[7] == 43);
            assert((170141183460469231731687303715884105727 - 1) / fl[7] == 3956771708383005389109007063160095482);
        } else if i == 8 {
            assert(fl[8] == 73);
            assert((170141183460469231731687303715884105727 - 1) / fl[8] == 2330701143294099064817634297477864462);
        } else if i == 9 {
            assert(fl[9] == 127);
            assert((170141183460469231731687303715884105727 - 1) / fl[9] == 1339694357956450643556592942644756738);
        } else if i == 10 {
            assert(fl[10] == 337);
            assert((170141183460469231731687303715884105727 - 1) / fl[10] == 504869980594864189114799120818647198);
        } else if i == 11 {
            assert(fl[11] == 5419);
            assert((170141183460469231731687303715884105727 - 1) / fl[11] == 31397155095122574595255084649544954);
        } else if i == 12 {
            assert(fl[12] == 92737);
            assert((170141183460469231731687303715884105727 - 1) / fl[12] == 1834663440271620084019186556777598);
        } else if i == 13 {
            assert(fl[13] == 649657);
            assert((170141183460469231731687303715884105727 - 1) / fl[13] == 261893866240907481535159790036718);
        } else if i == 14 {
            assert(fl[14] == 77158673929);
            assert((170141183460469231731687303715884105727 - 1) / fl[14] == 2205081746441495815869431694);
        }
    }
    lemma_lucas(170141183460469231731687303715884105727, 43, fl);
}

} // verus!
