use theta_cgl_rust::gf127::Gf127;

const Q: u128 = (1u128 << 127) - 1;

fn elt(v: u128) -> Gf127 {
    Gf127::w64le(v as u64, (v >> 64) as u64)
}

fn val(x: Gf127) -> u128 {
    u128::from_le_bytes(x.encode())
}

fn sample() -> Vec<Gf127> {
    vec![
        elt(1),
        elt(2),
        elt(3),
        elt(12345),
        elt(Q - 1),
        elt(Q - 2),
        elt(0x0123_4567_89AB_CDEF_FEDC_BA98_7654_3210),
        elt(0x7FFF_FFFF_0000_0000_FFFF_FFFF_0000_0000),
    ]
}

#[test]
fn gf127_invert_is_inverse() {
    for x in sample() {
        assert_eq!(val(x * x.invert()), 1);
        let mut y = x;
        y.set_invert();
        assert_eq!(val(y), val(x.invert()));
    }
    assert_eq!(val(Gf127::zero().invert()), 0);
    assert_eq!(val(elt(2).invert()), 1u128 << 126);
    assert_eq!(val(elt(3).invert()), 113427455640312821154458202477256070485);
}

#[test]
fn gf127_div_then_mul() {
    let xs = sample();
    for x in &xs {
        for y in &xs {
            assert_eq!(val((*x / *y) * *y), val(*x));
            let mut z = *x;
            z.set_div(y);
            assert_eq!(val(z), val(*x / *y));
        }
    }
    assert_eq!(val(elt(7) / Gf127::zero()), 0);
}

#[test]
fn gf127_half_and_third() {
    assert_eq!(val(Gf127::one().half()), 1u128 << 126);
    assert_eq!(val(Gf127::three_inv()), 113427455640312821154458202477256070485);
    for x in sample() {
        assert_eq!(val(x.half().mul2()), val(x));
        assert_eq!(val(x.mul3_inv().mul_small(3)), val(x));
    }
}

#[test]
fn gf127_legendre_values() {
    assert_eq!(Gf127::zero().legendre(), 0);
    assert_eq!(elt(4).legendre(), 1);
    assert_eq!(elt(2).legendre(), 1);
    assert_eq!(elt(3).legendre(), -1);
    assert_eq!(Gf127::minus_one().legendre(), -1);
    for x in sample() {
        assert_eq!(x.square().legendre(), 1);
        assert_eq!((-x.square()).legendre(), -1);
    }
}

#[test]
fn gf127_sqrt_exact() {
    let (y, r) = elt(9).sqrt();
    assert_eq!((val(y), r), (Q - 3, 0xFFFF_FFFF));
    let (y, r) = elt(4).sqrt();
    assert_eq!((val(y), r), (2, 0xFFFF_FFFF));
    let (y, r) = Gf127::zero().sqrt();
    assert_eq!((val(y), r), (0, 0xFFFF_FFFF));
    let (y, r) = elt(3).sqrt();
    assert_eq!((val(y), r), (0, 0));
    let (y, r) = elt(3).sqrt_ext();
    assert_eq!(r, 0);
    assert_ne!(val(y.square()), 3);
}

#[test]
fn gf127_sqrt_of_squares() {
    for x in sample() {
        let (y, r) = x.square().sqrt();
        assert_eq!(r, 0xFFFF_FFFF);
        assert_eq!(val(y) & 1, 0);
        assert_eq!(val(y.square()), val(x.square()));
        let (z, r) = (-x.square()).sqrt();
        assert_eq!((val(z), r), (0, 0));
    }
}

#[test]
fn gf127_fourth_and_eighth_roots() {
    let (y, r) = elt(16).fourth_root();
    assert_eq!((val(y), r), (2, 0xFFFF_FFFF));
    let (y, r) = elt(81).fourth_root();
    assert_eq!((val(y), r), (Q - 3, 0xFFFF_FFFF));
    let (y, r) = elt(256).eighth_root();
    assert_eq!((val(y), r), (2, 0xFFFF_FFFF));
    let (y, r) = elt(3).fourth_root();
    assert_eq!((val(y), r), (0, 0));
    let (y, r) = elt(3).eighth_root();
    assert_eq!((val(y), r), (0, 0));
    for x in sample() {
        let x4 = x.square().square();
        let (y, r) = x4.fourth_root();
        assert_eq!(r, 0xFFFF_FFFF);
        assert_eq!(val(y) & 1, 0);
        assert_eq!(val(y.square().square()), val(x4));
        let x8 = x4.square();
        let (y, r) = x8.eighth_root();
        assert_eq!(r, 0xFFFF_FFFF);
        assert_eq!(val(y.xsquare(3)), val(x8));
    }
}

#[test]
fn gf127_encode_decode_roundtrip() {
    for x in sample() {
        let b = x.encode();
        assert_eq!(b, x.encode16());
        let (y, c) = Gf127::decode(&b);
        assert_eq!(c, 0xFFFF_FFFF);
        assert_eq!(val(y), val(x));
        let (y, c) = Gf127::decode16(&b);
        assert_eq!(c, 0xFFFF_FFFF);
        assert_eq!(val(y), val(x));
        assert_eq!(val(Gf127::decode_reduce(&b)), val(x));
    }
}

#[test]
fn gf127_decode_rejects() {
    let (x, c) = Gf127::decode(&[1u8; 15]);
    assert_eq!((val(x), c), (0, 0));
    let (x, c) = Gf127::decode(&Q.to_le_bytes());
    assert_eq!((val(x), c), (0, 0));
    let (x, c) = Gf127::decode16(&u128::MAX.to_le_bytes());
    assert_eq!((val(x), c), (0, 0));
    let mut z = elt(5);
    let c = z.set_decode_ct(&Q.to_le_bytes());
    assert_eq!((val(z), c), (0, 0));
    let c = z.set_decode_ct(&(Q - 1).to_le_bytes());
    assert_eq!((val(z), c), (Q - 1, 0xFFFF_FFFF));
}

#[test]
fn gf127_words_kept() {
    let (x, c) = Gf127::decode(&Q.to_le_bytes());
    assert_eq!((x.hashcode(), c), (0, 0));
    let (x, c) = Gf127::decode16(&[0xFFu8; 16]);
    assert_eq!((x.hashcode(), c), (0, 0));
    let mut z = elt(5);
    assert_eq!(z.set_decode_ct(&[1u8; 3]), 0);
    assert_eq!(z.hashcode(), 0);
    let y = elt(Q - 7);
    assert_eq!(y.xsquare(0).hashcode(), y.hashcode());
    let mut w = y;
    w.set_condneg(0);
    assert_eq!(w.hashcode(), y.hashcode());
    let (r, c) = elt(3).sqrt();
    assert_eq!((r.hashcode(), c), (0, 0));
    let (r, c) = elt(3).fourth_root();
    assert_eq!((r.hashcode(), c), (0, 0));
    let (r, c) = elt(3).eighth_root();
    assert_eq!((r.hashcode(), c), (0, 0));
    let rs = Gf127::batch_sqrt(&[elt(3), elt(9)]);
    assert_eq!((rs[0].0.hashcode(), rs[0].1), (0, 0));
    assert_eq!(rs[1].1, 0xFFFF_FFFF);
}

#[test]
fn gf127_decode_reduce_exact() {
    assert_eq!(val(Gf127::decode_reduce(&[])), 0);
    assert_eq!(val(Gf127::decode_reduce(&u128::MAX.to_le_bytes())), 1);
    // 2^128 is 2 modulo q.
    let mut b = [0u8; 17];
    b[16] = 1;
    assert_eq!(val(Gf127::decode_reduce(&b)), 2);
    // 2^256 is 4 modulo q.
    let mut b = [0u8; 33];
    b[32] = 1;
    let mut x = Gf127::zero();
    x.set_decode_reduce(&b);
    assert_eq!(val(x), 4);
}

#[test]
fn gf127_word_constructors() {
    assert_eq!(val(Gf127::w64le(u64::MAX, u64::MAX)), 1);
    assert_eq!(val(Gf127::w64be(u64::MAX, u64::MAX)), 1);
    assert_eq!(val(Gf127::from_w64le(5, 1)), (1u128 << 64) + 5);
    assert_eq!(val(Gf127::from_w64be(1, 5)), (1u128 << 64) + 5);
}

#[test]
fn gf127_batch_invert_blocks_with_zeros() {
    let mut xs: Vec<Gf127> = Vec::new();
    for i in 0..450u128 {
        if i % 37 == 0 {
            xs.push(Gf127::zero());
        } else {
            xs.push(elt(i * 0x1_0000_0001 + 17));
        }
    }
    let mut ys = xs.clone();
    Gf127::batch_invert(&mut ys);
    assert_eq!(ys.len(), xs.len());
    for i in 0..xs.len() {
        assert_eq!(val(ys[i]), val(xs[i].invert()));
    }
    let mut empty: Vec<Gf127> = Vec::new();
    Gf127::batch_invert(&mut empty);
    assert!(empty.is_empty());
}

#[test]
fn gf127_batch_fixed_matches_single() {
    let xs = [elt(5), Gf127::zero(), elt(Q - 1), elt(3), elt(9)];
    let ys = Gf127::batch_invert_fixed(&xs);
    let ss = Gf127::batch_sqrt(&xs);
    for i in 0..xs.len() {
        assert_eq!(val(ys[i]), val(xs[i].invert()));
        let (y, r) = xs[i].sqrt();
        assert_eq!((val(ss[i].0), ss[i].1), (val(y), r));
    }
}

#[test]
fn gf127_small_multiples() {
    let x = elt(Q - 1);
    assert_eq!(val(x.mul_small(3)), Q - 3);
    assert_eq!(val(x.mul4()), Q - 4);
    assert_eq!(val(x.mul8()), Q - 8);
    assert_eq!(val(x.mul16()), Q - 16);
    assert_eq!(val(x.mul32()), Q - 32);
    assert_eq!(val(x + x), Q - 2);
    assert_eq!(val(Gf127::zero() - x), 1);
    assert_eq!(val(x * x), 1);
}

#[test]
fn gf127_conditional_ops() {
    let a = elt(10);
    let b = elt(20);
    assert_eq!(val(Gf127::select(&a, &b, 0)), 10);
    assert_eq!(val(Gf127::select(&a, &b, 0xFFFF_FFFF)), 20);
    let mut x = a;
    let mut y = b;
    Gf127::condswap(&mut x, &mut y, 0xFFFF_FFFF);
    assert_eq!((val(x), val(y)), (20, 10));
    let mut z = a;
    z.set_condneg(0xFFFF_FFFF);
    assert_eq!(val(z), Q - 10);
    assert_eq!(a.equals(&elt(10)), 0xFFFF_FFFF);
    assert_eq!(a.equals(&b), 0);
    assert_eq!(elt(Q).iszero(), 0xFFFF_FFFF);
}
