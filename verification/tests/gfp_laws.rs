use theta_cgl_rust::gfp::GFp;

const P: u64 = 0xFFFF_FFFF_FFFF_FEFF;

fn elt(v: u64) -> GFp {
    GFp::from_u64_reduce(v)
}

fn sample() -> Vec<GFp> {
    vec![
        elt(1),
        elt(2),
        elt(3),
        elt(12345),
        elt(P - 1),
        elt(P - 2),
        elt(0x0123_4567_89AB_CDEF),
        elt(0xFFFF_FFFF_0000_0000),
    ]
}

#[test]
fn gfp_invert_is_inverse() {
    for x in sample() {
        assert_eq!((x * x.invert()).to_u64(), 1);
        let mut y = x;
        y.set_invert();
        assert_eq!(y.to_u64(), x.invert().to_u64());
    }
    assert_eq!(GFp::zero().invert().to_u64(), 0);
    assert_eq!(elt(2).invert().to_u64(), 0x7FFF_FFFF_FFFF_FF80);
    assert_eq!(elt(3).invert().to_u64(), 6148914691236517120);
}

#[test]
fn gfp_div_then_mul() {
    let xs = sample();
    for x in &xs {
        for y in &xs {
            assert_eq!(((*x / *y) * *y).to_u64(), x.to_u64());
        }
    }
    assert_eq!((elt(7) / GFp::zero()).to_u64(), 0);
}

#[test]
fn gfp_half_is_division_by_two() {
    assert_eq!(GFp::one().half().to_u64(), 0x7FFF_FFFF_FFFF_FF80);
    for x in sample() {
        assert_eq!(x.half().mul2().to_u64(), x.to_u64());
        let mut y = x;
        y.set_half();
        assert_eq!(y.double().to_u64(), x.to_u64());
    }
}

#[test]
fn gfp_legendre_values() {
    assert_eq!(GFp::zero().legendre(), 0);
    assert_eq!(elt(4).legendre(), 1);
    assert_eq!(elt(2).legendre(), 1);
    assert_eq!(GFp::minus_one().legendre(), -1);
    for x in sample() {
        assert_eq!(x.square().legendre(), 1);
        assert_eq!((-x.square()).legendre(), -1);
    }
}

#[test]
fn gfp_sqrt_exact() {
    // The candidate's sign follows the parity of the word that holds it.
    let (y, r) = elt(9).sqrt();
    assert_eq!((y.to_u64(), r), (3, 0xFFFF_FFFF));
    assert_eq!(y.hashcode(), P + 3);
    let (y, r) = elt(81).sqrt();
    assert_eq!((y.to_u64(), r), (9, 0xFFFF_FFFF));
    let (y, r) = elt(4).sqrt();
    assert_eq!((y.to_u64(), r), (P - 2, 0xFFFF_FFFF));
    let (y, r) = elt(16).sqrt();
    assert_eq!((y.to_u64(), r), (P - 4, 0xFFFF_FFFF));
    let (y, r) = GFp::one().sqrt();
    assert_eq!((y.to_u64(), r), (P - 1, 0xFFFF_FFFF));
    let (y, r) = elt(2).sqrt();
    assert_eq!((y.to_u64(), r), (14247396449441763108, 0xFFFF_FFFF));
    let (y, r) = GFp::zero().sqrt();
    assert_eq!((y.to_u64(), r), (0, 0xFFFF_FFFF));
    let (y, r) = GFp::minus_one().sqrt();
    assert_eq!((y.to_u64(), r), (0, 0));
    assert_eq!(y.hashcode(), 0);
}

#[test]
fn gfp_sqrt_of_squares() {
    for x in sample() {
        let (y, r) = x.square().sqrt();
        assert_eq!(r, 0xFFFF_FFFF);
        assert_eq!(y.square().to_u64(), x.square().to_u64());
        let (z, r) = (-x.square()).sqrt();
        assert_eq!(r, 0);
        assert_eq!(z.to_u64(), 0);
    }
}

#[test]
fn gfp_words_kept() {
    // sqrt(9) is held by the word p + 3.
    let (y, _) = elt(9).sqrt();
    let mut z = y;
    z.set_condneg(0);
    assert_eq!(z.hashcode(), P + 3);
    assert_eq!(y.xsquare(0).hashcode(), P + 3);
    z.set_condneg(0xFFFF_FFFF);
    assert_eq!(z.to_u64(), P - 3);
    let (x, c) = GFp::decode(&P.to_le_bytes());
    assert_eq!((x.hashcode(), c), (0, 0));
    let (x, c) = GFp::decode(&[7u8; 3]);
    assert_eq!((x.hashcode(), c), (0, 0));
}

#[test]
fn gfp_fourth_and_eighth_roots() {
    let (y, r) = elt(16).fourth_root();
    assert_eq!((y.to_u64(), r), (2, 0xFFFF_FFFF));
    let (y, r) = elt(81).fourth_root();
    assert_eq!((y.to_u64(), r), (P - 3, 0xFFFF_FFFF));
    let (y, r) = elt(256).eighth_root();
    assert_eq!((y.to_u64(), r), (2, 0xFFFF_FFFF));
    let (y, r) = GFp::minus_one().fourth_root();
    assert_eq!((y.to_u64(), r), (0, 0));
    let (y, r) = GFp::minus_one().eighth_root();
    assert_eq!((y.to_u64(), r), (0, 0));
    for x in sample() {
        let x4 = x.square().square();
        let (y, r) = x4.fourth_root();
        assert_eq!(r, 0xFFFF_FFFF);
        assert_eq!(y.to_u64() & 1, 0);
        assert_eq!(y.square().square().to_u64(), x4.to_u64());
        let x8 = x4.square();
        let (y, r) = x8.eighth_root();
        assert_eq!(r, 0xFFFF_FFFF);
        assert_eq!(y.xsquare(3).to_u64(), x8.to_u64());
    }
}

#[test]
fn gfp_encode_decode_roundtrip() {
    for x in sample() {
        let b = x.encode();
        let (y, c) = GFp::decode(&b);
        assert_eq!(c, u64::MAX);
        assert_eq!(y.to_u64(), x.to_u64());
        assert_eq!(GFp::decode_reduce(&b).to_u64(), x.to_u64());
    }
}

#[test]
fn gfp_decode_rejects() {
    let (x, c) = GFp::decode(&[1u8, 2, 3, 4, 5, 6, 7]);
    assert_eq!((x.to_u64(), c), (0, 0));
    let (x, c) = GFp::decode(&P.to_le_bytes());
    assert_eq!((x.to_u64(), c), (0, 0));
    let (x, c) = GFp::decode(&(P - 1).to_le_bytes());
    assert_eq!((x.to_u64(), c), (P - 1, u64::MAX));
}

#[test]
fn gfp_decode_reduce_exact() {
    assert_eq!(GFp::decode_reduce(&[]).to_u64(), 0);
    assert_eq!(GFp::decode_reduce(&u64::MAX.to_le_bytes()).to_u64(), 256);
    // 2^64 is 257 modulo p.
    let mut b = [0u8; 9];
    b[8] = 1;
    assert_eq!(GFp::decode_reduce(&b).to_u64(), 257);
    // 2^128 is 257^2 modulo p.
    let mut b = [0u8; 17];
    b[16] = 1;
    assert_eq!(GFp::decode_reduce(&b).to_u64(), 257 * 257);
    let mut x = GFp::zero();
    x.set_decode_reduce(&b);
    assert_eq!(x.to_u64(), 257 * 257);
}

#[test]
fn gfp_from_u64_edges() {
    let (x, c) = GFp::from_u64(P);
    assert_eq!((x.to_u64(), c), (0, 0));
    let (x, c) = GFp::from_u64(P - 1);
    assert_eq!((x.to_u64(), c), (P - 1, u64::MAX));
    assert_eq!(GFp::from_u64_reduce(u64::MAX).to_u64(), 256);
}

#[test]
fn gfp_wide_representatives() {
    // Sums and differences of the largest words reduce correctly.
    let a = GFp::minus_one();
    assert_eq!((a + a).to_u64(), P - 2);
    assert_eq!((GFp::zero() - a).to_u64(), 1);
    assert_eq!((a * a).to_u64(), 1);
}

#[test]
fn gfp_batch_invert_with_zeros() {
    let xs = [elt(5), GFp::zero(), elt(P - 1), elt(7), GFp::zero()];
    let ys = GFp::batch_invert_fixed(&xs);
    for i in 0..xs.len() {
        assert_eq!(ys[i].to_u64(), xs[i].invert().to_u64());
    }
    let empty: [GFp; 0] = [];
    let none = GFp::batch_invert_fixed(&empty);
    assert_eq!(none.len(), 0);
}

#[test]
fn gfp_batch_sqrt_matches_sqrt() {
    let xs = [elt(9), GFp::minus_one(), GFp::zero(), elt(16), elt(3)];
    let ys = GFp::batch_sqrt(&xs);
    for i in 0..xs.len() {
        let (y, r) = xs[i].sqrt();
        assert_eq!(ys[i].0.to_u64(), y.to_u64());
        assert_eq!(ys[i].1, r);
    }
}

#[test]
fn gfp_small_multiples() {
    let x = elt(P - 1);
    assert_eq!(x.mul_small(3).to_u64(), P - 3);
    assert_eq!(x.mul4().to_u64(), P - 4);
    assert_eq!(x.mul8().to_u64(), P - 8);
    let mut y = x;
    y.set_mul8();
    assert_eq!(y.to_u64(), P - 8);
}

#[test]
fn gfp_conditional_ops() {
    let a = elt(10);
    let b = elt(20);
    assert_eq!(GFp::select(&a, &b, 0).to_u64(), 10);
    assert_eq!(GFp::select(&a, &b, 0xFFFF_FFFF).to_u64(), 20);
    let mut x = a;
    let mut y = b;
    GFp::condswap(&mut x, &mut y, 0xFFFF_FFFF);
    assert_eq!((x.to_u64(), y.to_u64()), (20, 10));
    GFp::condswap(&mut x, &mut y, 0);
    assert_eq!((x.to_u64(), y.to_u64()), (20, 10));
    let mut z = a;
    z.set_condneg(0xFFFF_FFFF);
    assert_eq!(z.to_u64(), P - 10);
    z.set_condneg(0);
    assert_eq!(z.to_u64(), P - 10);
    assert_eq!(a.equals(&elt(10)), 0xFFFF_FFFF);
    assert_eq!(a.equals(&b), 0);
    assert_eq!(elt(P).iszero(), 0xFFFF_FFFF);
}
