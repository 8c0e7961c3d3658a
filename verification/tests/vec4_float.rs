//! The container over a 64-bit floating-point scalar.
//!
//! The scalar adapter lives here because the verified library keeps to
//! integer scalars; float arithmetic is delegated wholesale to `f64`, so the
//! adapter inherits its special values: a NaN field compares unequal to
//! itself, which breaks reflexivity of `equals` (documented below, not
//! fixed).

use numeric4::coords::Vec4;
use numeric4::scalar::{Scalar, SignedScalar};

#[derive(Clone, Copy, Debug, PartialEq)]
struct Flt(f64);

// To unverified client code the trait's ghost items appear as ordinary
// items, so the adapter supplies them alongside the executable ones; `f64`
// arithmetic is total, so every guard is simply true.
impl Scalar for Flt {
    fn zero_spec() -> Flt {
        Flt(0.0)
    }

    fn one_spec() -> Flt {
        Flt(1.0)
    }

    fn add_ok(self, _rhs: Flt) -> bool {
        true
    }

    fn sub_ok(self, _rhs: Flt) -> bool {
        true
    }

    fn mul_ok(self, _rhs: Flt) -> bool {
        true
    }

    fn div_ok(self, _rhs: Flt) -> bool {
        true
    }

    fn add_spec(self, rhs: Flt) -> Flt {
        Flt(self.0 + rhs.0)
    }

    fn sub_spec(self, rhs: Flt) -> Flt {
        Flt(self.0 - rhs.0)
    }

    fn mul_spec(self, rhs: Flt) -> Flt {
        Flt(self.0 * rhs.0)
    }

    fn div_spec(self, rhs: Flt) -> Flt {
        Flt(self.0 / rhs.0)
    }

    fn zero() -> Flt {
        Flt(0.0)
    }

    fn one() -> Flt {
        Flt(1.0)
    }

    fn add(self, rhs: Flt) -> Flt {
        Flt(self.0 + rhs.0)
    }

    fn sub(self, rhs: Flt) -> Flt {
        Flt(self.0 - rhs.0)
    }

    fn mul(self, rhs: Flt) -> Flt {
        Flt(self.0 * rhs.0)
    }

    fn div(self, rhs: Flt) -> Flt {
        Flt(self.0 / rhs.0)
    }

    fn eq_value(self, rhs: Flt) -> bool {
        self.0 == rhs.0
    }

    fn lemma_add_zero(self) {
    }

    fn lemma_mul_one(self) {
    }

    fn lemma_sub_self(self) {
    }
}

impl SignedScalar for Flt {
    fn neg_ok(self) -> bool {
        true
    }

    fn neg_spec(self) -> Flt {
        Flt(-self.0)
    }

    fn neg(self) -> Flt {
        Flt(-self.0)
    }

    fn lemma_neg_neg(self) {
    }
}

#[test]
fn vec4_new() {
    let v: Vec4<Flt> = Vec4::new();
    assert_eq!(v.x.0, 0.0);
    assert_eq!(v.y.0, 0.0);
    assert_eq!(v.z.0, 0.0);
    assert_eq!(v.w.0, 0.0);
}

#[test]
fn vec4_from() {
    let v: Vec4<Flt> = Vec4::from(Flt(1.0), Flt(2.0), Flt(3.0), Flt(4.0));
    assert_eq!(v.x.0, 1.0);
    assert_eq!(v.y.0, 2.0);
    assert_eq!(v.z.0, 3.0);
    assert_eq!(v.w.0, 4.0);
}

#[test]
fn vec4_zero() {
    let v: Vec4<Flt> = Vec4::zero();
    assert_eq!(v.is_zero(), true);
    assert_eq!(v.is_one(), false);
}

#[test]
fn vec4_one() {
    let v: Vec4<Flt> = Vec4::one();
    assert_eq!(v.is_zero(), false);
    assert_eq!(v.is_one(), true);
}

#[test]
fn vec4_add() {
    let v: Vec4<Flt> = Vec4::from(Flt(1.0), Flt(2.0), Flt(3.0), Flt(4.0));
    let check = v.clone().add(v.clone());
    assert_eq!(check.x.0, 2.0);
    assert_eq!(check.y.0, 4.0);
    assert_eq!(check.z.0, 6.0);
    assert_eq!(check.w.0, 8.0);
}

#[test]
fn vec4_add_assign() {
    let mut v: Vec4<Flt> = Vec4::from(Flt(1.0), Flt(2.0), Flt(3.0), Flt(4.0));
    v.add_assign(v.clone());
    assert_eq!(v.x.0, 2.0);
    assert_eq!(v.y.0, 4.0);
    assert_eq!(v.z.0, 6.0);
    assert_eq!(v.w.0, 8.0);
}

#[test]
fn vec4_sub() {
    let v: Vec4<Flt> = Vec4::from(Flt(1.0), Flt(2.0), Flt(3.0), Flt(4.0));
    let check = v.clone().sub(v.clone());
    assert_eq!(check.x.0, 0.0);
    assert_eq!(check.y.0, 0.0);
    assert_eq!(check.z.0, 0.0);
    assert_eq!(check.w.0, 0.0);
}

#[test]
fn vec4_sub_assign() {
    let mut v: Vec4<Flt> = Vec4::from(Flt(1.0), Flt(2.0), Flt(3.0), Flt(4.0));
    v.sub_assign(v.clone());
    assert_eq!(v.x.0, 0.0);
    assert_eq!(v.y.0, 0.0);
    assert_eq!(v.z.0, 0.0);
    assert_eq!(v.w.0, 0.0);
}

#[test]
fn vec4_mul() {
    let v: Vec4<Flt> = Vec4::from(Flt(1.50), Flt(2.0), Flt(3.0), Flt(4.0));
    let check = v.clone().mul(v.clone());
    assert_eq!(check.x.0, 2.25);
    assert_eq!(check.y.0, 4.0);
    assert_eq!(check.z.0, 9.0);
    assert_eq!(check.w.0, 16.0);
}

#[test]
fn vec4_mul_assign() {
    let mut v: Vec4<Flt> = Vec4::from(Flt(1.50), Flt(2.0), Flt(3.0), Flt(4.0));
    v.mul_assign(v.clone());
    assert_eq!(v.x.0, 2.25);
    assert_eq!(v.y.0, 4.0);
    assert_eq!(v.z.0, 9.0);
    assert_eq!(v.w.0, 16.0);
}

#[test]
fn vec4_neg() {
    let v: Vec4<Flt> = Vec4::from(Flt(1.0), Flt(2.0), Flt(3.0), Flt(4.0));
    let check = v.neg();
    assert_eq!(check.x.0, -1.0);
    assert_eq!(check.y.0, -2.0);
    assert_eq!(check.z.0, -3.0);
    assert_eq!(check.w.0, -4.0);
}

#[test]
fn vec4_div() {
    let v: Vec4<Flt> = Vec4::from(Flt(1.0), Flt(2.0), Flt(3.0), Flt(4.0));
    let d: Vec4<Flt> = Vec4::from(Flt(2.0), Flt(2.0), Flt(2.0), Flt(2.0));
    let check = v.div(d);
    assert_eq!(check.x.0, 0.5);
    assert_eq!(check.y.0, 1.0);
    assert_eq!(check.z.0, 1.5);
    assert_eq!(check.w.0, 2.0);
}

#[test]
fn vec4_div_assign() {
    let mut v: Vec4<Flt> = Vec4::from(Flt(1.0), Flt(2.0), Flt(3.0), Flt(4.0));
    let d: Vec4<Flt> = Vec4::from(Flt(2.0), Flt(2.0), Flt(2.0), Flt(2.0));
    v.div_assign(d);
    assert_eq!(v.x.0, 0.5);
    assert_eq!(v.y.0, 1.0);
    assert_eq!(v.z.0, 1.5);
    assert_eq!(v.w.0, 2.0);
}

#[test]
fn zero_and_one_differ() {
    let z: Vec4<Flt> = Vec4::zero();
    let o: Vec4<Flt> = Vec4::one();
    assert!(!z.equals(&o));
    assert!(z != o);
    let made: Vec4<Flt> = Vec4::from(Flt(0.0), Flt(0.0), Flt(0.0), Flt(0.0));
    assert!(z.equals(&made));
    assert_eq!(z, made);
}

#[test]
fn set_zero_and_set_one_in_place() {
    let mut v: Vec4<Flt> = Vec4::from(Flt(1.0), Flt(2.0), Flt(3.0), Flt(4.0));
    v.set_zero();
    assert!(v.is_zero());
    v.set_one();
    assert!(v.is_one());
}

#[test]
fn equals_is_reflexive_on_ordinary_values() {
    let v: Vec4<Flt> = Vec4::from(Flt(1.0), Flt(2.0), Flt(3.0), Flt(4.0));
    assert!(v.equals(&v));
}

/// A NaN field is unequal to itself under `f64` equality, so `equals` loses
/// reflexivity there; the container inherits this from the scalar rather
/// than papering over it.
#[test]
fn nan_field_breaks_reflexivity() {
    let v: Vec4<Flt> = Vec4::from(Flt(f64::NAN), Flt(0.0), Flt(0.0), Flt(0.0));
    assert!(!v.equals(&v));
    assert!(!v.is_zero());
}
