use std::ops::Neg;
use theta_cgl_rust::gfp::GFp;

// A custom PRNG; not cryptographically secure, but good enough
// for tests.
struct Prng(u128);

impl Prng {
    // A: a randomly selected prime integer.
    // B: a randomly selected odd integer.
    const A: u128 = 87981536952642681582438141175044346919;
    const B: u128 = 331203846847999889118488772711684568729;

    // Get the next pseudo-random 64-bit integer.
    fn next_u64(&mut self) -> u64 {
        self.0 = Prng::A.wrapping_mul(self.0).wrapping_add(Prng::B);
        (self.0 >> 64) as u64
    }
}

fn check_gfp_eq(a: GFp, r: u128) {
    assert!(a.to_u64() == (r % (GFp::MOD as u128)) as u64);
}

fn test_gfp_ops(a: u64, b: u64) {
    let x = GFp::from_u64_reduce(a);
    let y = GFp::from_u64_reduce(b);
    let wa = a as u128;
    let wb = b as u128;
    let small_b = (b & 0xFFFF) as u128;

    check_gfp_eq(x + y, wa + wb);
    check_gfp_eq(x - y, (wa + (GFp::MOD as u128) * 2) - wb);
    check_gfp_eq(-y, (GFp::MOD as u128) * 2 - wb);
    check_gfp_eq(x * y, wa * wb);
    check_gfp_eq(x.mul_small(small_b as u32), wa * small_b);
    check_gfp_eq(x.square(), wa * wa);
    if a == 0 || a == GFp::MOD {
        check_gfp_eq(x.invert(), 0);
    } else {
        check_gfp_eq(x * x.invert(), 1);
    }
    assert!(x.double().equals(&(x + x)) == 0xFFFFFFFF);
    assert!(x.half().double().equals(&x) == 0xFFFFFFFF);
    assert!((x - y).equals(&(y - x).neg()) == 0xFFFFFFFF);
}

#[test]
fn gfp_ops() {
    for i in 0..10 {
        let v: u64 = (i as u64) + GFp::MOD - 5;
        if i <= 4 {
            let (x, c) = GFp::from_u64(v);
            assert!(c == 0xFFFFFFFFFFFFFFFF);
            assert!(x.to_u64() == v);
            let y = GFp::from_u64_reduce(v);
            assert!(y.to_u64() == v);
        } else {
            let v2 = v - GFp::MOD;
            let (x, c) = GFp::from_u64(v);
            assert!(c == 0);
            assert!(x.to_u64() == 0);
            let y = GFp::from_u64_reduce(v);
            assert!(y.to_u64() == v2);
        }
    }

    test_gfp_ops(0, 0);
    test_gfp_ops(0, 1);
    test_gfp_ops(1, 0);
    test_gfp_ops(1, 1);
    test_gfp_ops(0, 0xFFFFFFFFFFFFFFFF);
    test_gfp_ops(0xFFFFFFFFFFFFFFFF, 0);
    test_gfp_ops(0xFFFFFFFFFFFFFFFF, 0xFFFFFFFFFFFFFFFF);
    test_gfp_ops(0, 0xFFFFFFFF00000000);
    test_gfp_ops(0xFFFFFFFF00000000, 0);
    test_gfp_ops(0xFFFFFFFF00000000, 0xFFFFFFFF00000000);
    let mut prng = Prng(0);
    for _ in 0..10000 {
        let a = prng.next_u64();
        let b = prng.next_u64();
        test_gfp_ops(a, b);
    }
    assert!(GFp::zero().legendre() == 0);
    let (s0, c0) = GFp::zero().sqrt();
    check_gfp_eq(s0, 0);
    assert!(c0 == 0xFFFFFFFF);
    for _ in 0..1000 {
        let x = GFp::from_u64_reduce((prng.next_u64() >> 1) + 1).square();
        assert!(x.legendre() == 1);
        let (r1, c1) = x.sqrt();
        assert!(r1.square().equals(&x) == 0xFFFFFFFF);
        assert!(c1 == 0xFFFFFFFF);
        let y = x * GFp::from_u64_reduce(7);
        assert!(y.legendre() == -1);
        let (r2, c2) = y.sqrt();
        assert!(r2.iszero() == 0xFFFFFFFF);
        assert!(c2 == 0);

        let z = x.square();
        let (r3, c3) = z.fourth_root();
        assert!(r3.xsquare(2).equals(&z) == 0xFFFFFFFF);
        assert!(c3 == 0xFFFFFFFF);

        let z4 = z.square();
        let (r3, c3) = z4.eighth_root();
        assert!(r3.xsquare(3).equals(&z4) == 0xFFFFFFFF);
        assert!(c3 == 0xFFFFFFFF);
    }
}

#[test]
fn test_batch_invert_6() {
    let mut prng = Prng(0);
    for _ in 0..100 {
        let mut inputs = [GFp::zero(); 6];
        for i in 0..6 {
            inputs[i] = GFp::from_u64_reduce(prng.next_u64());
        }
        // Introduce some zeros explicitly
        if prng.next_u64() % 4 == 0 {
            inputs[2] = GFp::zero();
        }
        if prng.next_u64() % 4 == 0 {
            inputs[5] = GFp::zero();
        }

        let batch_res = GFp::batch_invert_fixed::<6>(&inputs);
        for i in 0..6 {
            let single_res = inputs[i].invert();
            assert!(batch_res[i].equals(&single_res) == 0xFFFFFFFF);
        }
    }
}

#[test]
fn test_batch_sqrt() {
    let mut prng = Prng(0);
    for _ in 0..100 {
        let mut inputs = [GFp::zero(); 6];
        for i in 0..6 {
            inputs[i] = GFp::from_u64_reduce(prng.next_u64()).square();
        }
        inputs[2] = GFp::zero();

        let results = GFp::batch_sqrt::<6>(&inputs);
        for i in 0..6 {
            let (expected_res, expected_r) = inputs[i].sqrt();
            let (actual_res, actual_r) = results[i];
            assert_eq!(expected_r, actual_r);
            assert!(actual_res.equals(&expected_res) == 0xFFFFFFFF);
        }
    }
}
