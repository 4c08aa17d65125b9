#![allow(non_snake_case)]

use core::convert::TryFrom;
use num_bigint::{BigInt, Sign};
use sha2::{Digest, Sha256};
use theta_cgl_rust::gf127::Gf127;

// va, vb and vx must be 16 bytes each in length
fn check_gf_ops(va: &[u8], vb: &[u8]) {
    let zp = BigInt::from_slice(
        Sign::Plus,
        &[0xFFFFFFFFu32, 0xFFFFFFFFu32, 0xFFFFFFFFu32, 0x7FFFFFFFu32],
    );
    let zpz = &zp << 64;
    let zp8 = &zp << 8;

    let mut a = Gf127::zero();
    a.set_decode_reduce(va);
    let mut b = Gf127::zero();
    b.set_decode_reduce(vb);
    let za = BigInt::from_bytes_le(Sign::Plus, va);
    let zb = BigInt::from_bytes_le(Sign::Plus, vb);
    let vc = a.encode16();
    let zc = BigInt::from_bytes_le(Sign::Plus, &vc);
    let zd = &za % &zp;
    assert!(zc == zd);

    let a0 = u64::from_le_bytes(*<&[u8; 8]>::try_from(&va[0..8]).unwrap());
    let a1 = u64::from_le_bytes(*<&[u8; 8]>::try_from(&va[8..16]).unwrap());
    let c = Gf127::w64le(a0, a1);
    let vc = c.encode16();
    let zc = BigInt::from_bytes_le(Sign::Plus, &vc);
    let zd = &za % &zp;

    assert!(zc == zd);
    let c = Gf127::w64be(a1, a0);
    let vc = c.encode16();
    let zc = BigInt::from_bytes_le(Sign::Plus, &vc);
    let zd = &za % &zp;
    assert!(zc == zd);

    let c = Gf127::from_w64le(a0, a1);
    let vc = c.encode16();
    let zc = BigInt::from_bytes_le(Sign::Plus, &vc);
    let zd = &za % &zp;
    assert!(zc == zd);

    let c = Gf127::from_w64be(a1, a0);
    let vc = c.encode16();
    let zc = BigInt::from_bytes_le(Sign::Plus, &vc);
    let zd = &za % &zp;
    assert!(zc == zd);

    let c = a + b;
    let vc = c.encode16();
    let zc = BigInt::from_bytes_le(Sign::Plus, &vc);
    let zd = (&za + &zb) % &zp;
    assert!(zc == zd);

    let c = a - b;
    let vc = c.encode16();
    let zc = BigInt::from_bytes_le(Sign::Plus, &vc);
    let zd = ((&zp8 + &za) - &zb) % &zp;
    assert!(zc == zd);

    let c = -a;
    let vc = c.encode16();
    let zc = BigInt::from_bytes_le(Sign::Plus, &vc);
    let zd = (&zp8 - &za) % &zp;
    assert!(zc == zd);

    let c = a * b;
    let vc = c.encode16();
    let zc = BigInt::from_bytes_le(Sign::Plus, &vc);
    let zd = (&za * &zb) % &zp;
    assert!(zc == zd);

    let c = a.half();
    let vc = c.encode16();
    let zc = BigInt::from_bytes_le(Sign::Plus, &vc);
    let zd: BigInt = ((&zp8 + (&zc << 1)) - &za) % &zp;
    assert!(zd.sign() == Sign::NoSign);

    let c = a.mul2();
    let vc = c.encode16();
    let zc = BigInt::from_bytes_le(Sign::Plus, &vc);
    let zd = (&za << 1) % &zp;
    assert!(zc == zd);

    let c = a.mul4();
    let vc = c.encode16();
    let zc = BigInt::from_bytes_le(Sign::Plus, &vc);
    let zd = (&za << 2) % &zp;
    assert!(zc == zd);

    let c = a.mul8();
    let vc = c.encode16();
    let zc = BigInt::from_bytes_le(Sign::Plus, &vc);
    let zd = (&za << 3) % &zp;
    assert!(zc == zd);

    let c = a.mul16();
    let vc = c.encode16();
    let zc = BigInt::from_bytes_le(Sign::Plus, &vc);
    let zd = (&za << 4) % &zp;
    assert!(zc == zd);

    let c = a.mul32();
    let vc = c.encode16();
    let zc = BigInt::from_bytes_le(Sign::Plus, &vc);
    let zd = (&za << 5) % &zp;
    assert!(zc == zd);

    let x = u32::from_le_bytes(*<&[u8; 4]>::try_from(&vb[0..4]).unwrap());
    let c = a.mul_small(x);
    let vc = c.encode16();
    let zc = BigInt::from_bytes_le(Sign::Plus, &vc);
    let zd = ((&za % &zp) * x + &zpz) % &zp;
    assert!(zc == zd);

    let c = a.square();
    let vc = c.encode16();
    let zc = BigInt::from_bytes_le(Sign::Plus, &vc);
    let zd = (&za * &za) % &zp;
    assert!(zc == zd);

    let (e, cc) = Gf127::decode16(va);
    if cc != 0 {
        assert!(cc == 0xFFFFFFFF);
        assert!(e.encode16() == va);
    } else {
        assert!(e.encode16() == [0u8; 16]);
    }

    let c = a / b;
    let d = c * b;
    if b.iszero() != 0 {
        assert!(c.iszero() != 0);
    } else {
        assert!(a.equals(&d) != 0);
    }
}

#[test]
fn Gf127_ops() {
    let mut va = [0u8; 16];
    let mut vb = [0u8; 16];
    check_gf_ops(&va, &vb);
    assert!(Gf127::decode_reduce(&va).iszero() == 0xFFFFFFFF);
    assert!(Gf127::decode_reduce(&va).equals(&Gf127::decode_reduce(&vb)) == 0xFFFFFFFF);
    assert!(Gf127::decode_reduce(&va).legendre() == 0);
    for i in 0..16 {
        va[i] = 0xFFu8;
        vb[i] = 0xFFu8;
    }
    check_gf_ops(&va, &vb);
    assert!(Gf127::decode_reduce(&va).iszero() == 0);
    assert!(Gf127::decode_reduce(&va).equals(&Gf127::decode_reduce(&vb)) == 0xFFFFFFFF);
    for i in 0..2 {
        va[8 * i..8 * i + 8].copy_from_slice(&Gf127::MODULUS[i].to_le_bytes());
    }
    assert!(Gf127::decode_reduce(&va).iszero() == 0xFFFFFFFF);
    let mut sh = Sha256::new();
    for i in 0..1000 {
        sh.update(((2 * i + 0) as u64).to_le_bytes());
        let va = &sh.finalize_reset()[0..16];
        sh.update(((2 * i + 1) as u64).to_le_bytes());
        let vb = &sh.finalize_reset()[0..16];
        check_gf_ops(&va, &vb);
        assert!(Gf127::decode_reduce(&va).iszero() == 0);
        assert!(Gf127::decode_reduce(&va).equals(&Gf127::decode_reduce(&vb)) == 0);
        let s = Gf127::decode_reduce(&va).square();
        let s2 = -s;
        assert!(s.legendre() == 1);
        assert!(s2.legendre() == -1);
        let (t, r) = s.sqrt();
        assert!(r == 0xFFFFFFFF);
        assert!(t.square().equals(&s) == 0xFFFFFFFF);
        assert!((t.encode16()[0] & 1) == 0);
        let (t, r) = s.sqrt_ext();
        assert!(r == 0xFFFFFFFF);
        assert!(t.square().equals(&s) == 0xFFFFFFFF);
        assert!((t.encode16()[0] & 1) == 0);
        let (t2, r) = s2.sqrt();
        assert!(r == 0);
        assert!(t2.iszero() == 0xFFFFFFFF);
        let (t2, r) = s2.sqrt_ext();
        assert!(r == 0);
        assert!(t2.square().equals(&-s2) == 0xFFFFFFFF);

        // test fourth root
        let s = Gf127::decode_reduce(&va).square().square();
        let (t, r) = s.fourth_root();
        assert!(r == 0xFFFFFFFF);
        assert!(t.square().square().equals(&s) == 0xFFFFFFFF);

        // test eighth root
        let s = Gf127::decode_reduce(&va).square().square().square();
        let (t, r) = s.eighth_root();
        assert!(r == 0xFFFFFFFF);
        assert!(t.square().square().square().equals(&s) == 0xFFFFFFFF);
    }
}

#[test]
fn Gf127_batch_invert() {
    let mut xx = [Gf127::zero(); 300];
    let mut sh = Sha256::new();
    for i in 0..300 {
        sh.update((i as u64).to_le_bytes());
        let v = &sh.finalize_reset()[0..16];
        xx[i] = Gf127::decode_reduce(&v);
    }
    xx[120] = Gf127::zero();
    let mut yy = xx;
    Gf127::batch_invert(&mut yy[..]);
    for i in 0..300 {
        if xx[i].iszero() != 0 {
            assert!(yy[i].iszero() == 0xFFFFFFFF);
        } else {
            assert!((xx[i] * yy[i]).equals(&Gf127::one()) == 0xFFFFFFFF);
        }
    }
}

#[test]
fn Gf127_batch_invert_fixed() {
    let mut prng = Sha256::new();
    for _ in 0..10 {
        let mut inputs = [Gf127::zero(); 6];
        for i in 0..6 {
            prng.update((i as u64).to_le_bytes());
            inputs[i] = Gf127::decode_reduce(&prng.finalize_reset());
        }
        // Add a zero
        inputs[2] = Gf127::zero();

        let results = Gf127::batch_invert_fixed::<6>(&inputs);
        for i in 0..6 {
            let expected = inputs[i].invert();
            assert!(results[i].equals(&expected) == 0xFFFFFFFF);
        }
    }
}

#[test]
fn Gf127_batch_sqrt() {
    let mut prng = Sha256::new();
    for _ in 0..10 {
        let mut inputs = [Gf127::zero(); 6];
        for i in 0..6 {
            prng.update((i as u64).to_le_bytes());
            // Square to ensure quadratic residue
            inputs[i] = Gf127::decode_reduce(&prng.finalize_reset()).square();
        }
        // Add a zero
        inputs[4] = Gf127::zero();

        let results = Gf127::batch_sqrt::<6>(&inputs);
        for i in 0..6 {
            let (expected_res, expected_r) = inputs[i].sqrt();
            let (actual_res, actual_r) = results[i];
            assert_eq!(expected_r, actual_r);
            assert!(actual_res.equals(&expected_res) == 0xFFFFFFFF);
        }
    }
}
