use cayley_dickson::Complex;
use cayley_dickson::Conjugable;
use cayley_dickson::Multivector;
use cayley_dickson::Negative;
use cayley_dickson::Null;
use cayley_dickson::Positive;
use cayley_dickson::Ring;
use cayley_dickson::SelfConjugate;
use cayley_dickson::Signature;
use cayley_dickson::from_rect;

#[test]
fn complex_basis() {
    type T = Complex<isize>;
    let i: T = from_rect(0, 1);
    assert_eq!(from_rect::<Negative, isize>(-1, 0), i.mul(&i));
}

#[test]
fn split_complex_basis() {
    type T = Complex<isize, Positive>;
    let i: T = from_rect(0, 1);
    assert_eq!(from_rect::<Positive, isize>(1, 0), i.mul(&i));
}

#[test]
fn dual_basis() {
    type T = Complex<isize, Null>;
    let i: T = from_rect(0, 1);
    assert_eq!(from_rect::<Null, isize>(0, 0), i.mul(&i));
}

#[test]
fn quaternion_basis() {
    type T = Complex<Complex<isize>>;
    let one: T = from_rect(from_rect(1, 0), from_rect(0, 0));
    let i: T = from_rect(from_rect(0, 1), from_rect(0, 0));
    let j: T = from_rect(from_rect(0, 0), from_rect(1, 0));
    let k: T = from_rect(from_rect(0, 0), from_rect(0, 1));
    assert_eq!(
        (
            i.mul(&j),
            j.mul(&k),
            k.mul(&i),
            k.mul(&j),
            j.mul(&i),
            i.mul(&k),
            i.mul(&i),
            j.mul(&j),
            k.mul(&k)
        ),
        (
            k.dup(),
            i.dup(),
            j.dup(),
            i.neg(),
            k.neg(),
            j.neg(),
            one.neg(),
            one.neg(),
            one.neg()
        )
    );
}

#[test]
fn conjugate_is_involution() {
    let q: Complex<Complex<i64>> = from_rect(from_rect(1, -2), from_rect(3, 4));
    assert_eq!(q.conjugate().conjugate(), q);
    let w: SelfConjugate<Complex<i64>> = SelfConjugate(from_rect(5, 6));
    assert_eq!(w.conjugate().conjugate(), w);
    let d: Complex<i64, Null> = from_rect(7, -8);
    assert_eq!(d.conjugate().conjugate(), d);
}

#[test]
fn conjugate_reverses_products() {
    let a: Complex<Complex<i64>> = from_rect(from_rect(1, 2), from_rect(3, -1));
    let b: Complex<Complex<i64>> = from_rect(from_rect(-2, 1), from_rect(0, 4));
    assert_eq!(a.mul(&b).conjugate(), b.conjugate().mul(&a.conjugate()));
}

#[test]
fn wrapped_value_is_self_conjugate() {
    let q: Complex<Complex<i64>> = from_rect(from_rect(1, 2), from_rect(3, 4));
    let w = SelfConjugate(q.dup());
    assert_eq!(w.conjugate(), SelfConjugate(q));
}

#[test]
fn dual_quaternion_units_square_to_zero() {
    // A dual quaternion: a degenerate doubling over a wrapped quaternion.
    type Q = Complex<Complex<i64>>;
    type DQ = Complex<SelfConjugate<Q>, Null>;
    let zero_q: Q = Q::zero();
    let one_q: Q = Q::one();
    let eps: DQ = from_rect(SelfConjugate(zero_q), SelfConjugate(one_q));
    let sq = eps.mul(&eps);
    assert_eq!(sq, DQ::zero());
}

#[test]
fn rect_round_trip() {
    let c: Complex<i64> = Complex::from_rect(-7, 11);
    assert_eq!(c.into_rect(), (-7, 11));
    let d: Complex<i64, Positive> = from_rect(3, -4);
    assert_eq!(d.to_rect(), (3, -4));
}

#[test]
fn scalar_lift_has_zero_imaginary_part() {
    let c: Complex<i64, Null> = Complex::from_scalar(9);
    assert_eq!(c.into_rect(), (9, 0));
}

#[test]
fn complex_arithmetic() {
    let a: Complex<i64> = from_rect(3, 4);
    let b: Complex<i64> = from_rect(1, -2);
    assert_eq!(a.add(&b), from_rect(4, 2));
    assert_eq!(a.sub(&b), from_rect(2, 6));
    assert_eq!(a.neg(), from_rect(-3, -4));
    assert_eq!(a.mul(&b), from_rect(11, -2));
    assert_eq!(Complex::<i64>::zero(), from_rect(0, 0));
    assert_eq!(Complex::<i64>::one(), from_rect(1, 0));
}

#[test]
fn complex_division() {
    let a: Complex<i64> = from_rect(0, 2);
    let b: Complex<i64> = from_rect(1, 1);
    assert_eq!(a.div(&b), from_rect(1, 1));
    let c: Complex<i64> = from_rect(-7, 11);
    let d: Complex<i64> = from_rect(2, -3);
    assert_eq!(c.mul(&d).div(&d), c);
}

#[test]
fn signature_rejects_bad_counts() {
    assert!(Signature::new(3, 2, 2).is_none());
    assert!(Signature::new(70, 0, 0).is_none());
    assert!(Signature::new(3, 3, 0).is_some());
    assert!(Signature::new(0, 0, 0).is_some());
}

#[test]
fn scalar_blade_is_left_identity() {
    let s = Signature::new(4, 2, 1).unwrap();
    for j in 0..16usize {
        assert_eq!(s.blade_product(0, j), Some((false, j)));
    }
}

#[test]
fn blade_squares_follow_signature() {
    // Signature (total 3, negative 2, positive 1): generators 0 and 1
    // square to -1, generator 2 squares to +1.
    let s = Signature::new(3, 2, 1).unwrap();
    assert_eq!(s.blade_product(0b001, 0b001), Some((true, 0)));
    assert_eq!(s.blade_product(0b010, 0b010), Some((true, 0)));
    assert_eq!(s.blade_product(0b100, 0b100), Some((false, 0)));
    // A two-generator blade with both negative generators: two sign flips.
    assert_eq!(s.blade_product(0b011, 0b011), Some((false, 0)));
}

#[test]
fn null_generator_annihilates() {
    // One null generator: the last of the three.
    let s = Signature::new(3, 1, 1).unwrap();
    assert_eq!(s.blade_product(0b100, 0b100), None);
    assert_eq!(s.blade_product(0b101, 0b100), None);
    // Disjoint blades never annihilate.
    assert_eq!(s.blade_product(0b100, 0b011).is_some(), true);
}

#[test]
fn euclidean_3d_basis_vectors() {
    // Ordinary 3D geometric algebra: all three generators square to -1
    // and distinct basis vectors anticommute.
    let s = Signature::new(3, 3, 0).unwrap();
    let blades = [0b001usize, 0b010, 0b100];
    for (idx, &ei) in blades.iter().enumerate() {
        assert_eq!(s.blade_product(ei, ei), Some((true, 0)));
        for &ej in blades.iter().skip(idx + 1) {
            let forward = s.blade_product(ei, ej).unwrap();
            let backward = s.blade_product(ej, ei).unwrap();
            assert_eq!(forward.1, backward.1);
            assert_ne!(forward.0, backward.0);
        }
    }
}

#[test]
fn multivector_basis_anticommutes() {
    let s = Signature::new(3, 3, 0).unwrap();
    let e1 = Multivector::from_coeffs(s, vec![0, 1, 0, 0, 0, 0, 0, 0]).unwrap();
    let e2 = Multivector::from_coeffs(s, vec![0, 0, 1, 0, 0, 0, 0, 0]).unwrap();
    let e12 = e1.mul(&e2);
    let e21 = e2.mul(&e1);
    assert_eq!(e12.coefficient(0b011), 1);
    assert_eq!(e21.coefficient(0b011), -1);
    let sq = e1.mul(&e1);
    for blade in 0..8usize {
        let expected = if blade == 0 { -1 } else { 0 };
        assert_eq!(sq.coefficient(blade), expected);
    }
}

#[test]
fn multivector_identity_and_zero() {
    let s = Signature::new(2, 1, 1).unwrap();
    let one = Multivector::one(s);
    let zero = Multivector::zero(s);
    let v = Multivector::from_coeffs(s, vec![4, -3, 2, 7]).unwrap();
    assert_eq!(v.mul(&one), v);
    assert_eq!(one.mul(&v), v);
    assert_eq!(v.add(&zero), v);
    for blade in 0..4usize {
        assert_eq!(zero.coefficient(blade), 0);
    }
}

#[test]
fn multivector_addition_is_componentwise() {
    let s = Signature::new(2, 2, 0).unwrap();
    let a = Multivector::from_coeffs(s, vec![1, 2, 3, 4]).unwrap();
    let b = Multivector::from_coeffs(s, vec![10, -20, 30, -40]).unwrap();
    let c = a.add(&b);
    assert_eq!(
        (0..4).map(|k| c.coefficient(k)).collect::<Vec<i64>>(),
        vec![11, -18, 33, -36]
    );
}

#[test]
fn multivector_rejects_wrong_length() {
    let s = Signature::new(2, 2, 0).unwrap();
    assert!(Multivector::from_coeffs(s, vec![1, 2, 3]).is_none());
    assert!(Multivector::from_coeffs(s, vec![1, 2, 3, 4]).is_some());
}

#[test]
fn complex_multivectors_agree() {
    // One negative generator is the complex numbers: the doubling engine
    // and the dense algebra compute the same product.
    let s = Signature::new(1, 1, 0).unwrap();
    let a = Multivector::from_coeffs(s, vec![3, 4]).unwrap();
    let b = Multivector::from_coeffs(s, vec![1, -2]).unwrap();
    let p = a.mul(&b);
    let ca: Complex<i64> = from_rect(3, 4);
    let cb: Complex<i64> = from_rect(1, -2);
    let (re, im) = ca.mul(&cb).into_rect();
    assert_eq!((p.coefficient(0), p.coefficient(1)), (re, im));
}
