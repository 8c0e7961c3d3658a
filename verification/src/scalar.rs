//! Ring-like scalar capability traits.
//!
//! A scalar type supplies an additive identity, a multiplicative identity,
//! the four elementwise arithmetic operations and equality. Negation is a
//! separate, stricter capability ([`SignedScalar`]): a type may be a
//! [`Scalar`] without supporting it.
//!
//! Each executable operation comes with a guard (`add_ok`, `div_ok`, ...)
//! saying on which operand pairs the operation is defined; outside the guard
//! the scalar's operation would fail (overflow, or a failing division), so
//! callers must establish the guard first. Division by zero in particular is
//! never defined for the integer scalars here.

use vstd::prelude::*;

verus! {

use vstd::arithmetic::div_mod::{
    lemma_div_basics, lemma_div_decreases, lemma_div_nonincreasing, lemma_div_pos_is_pos,
};

/// The minimal arithmetic capability a scalar type must offer: identities
/// for addition and multiplication, the four elementwise operations with
/// their definedness guards, and equality.
///
/// Every implementation must also prove the three algebraic laws at the
/// bottom of the trait: adding the additive identity is the identity map,
/// multiplying by the multiplicative identity is the identity map, and
/// subtracting a value from itself yields the additive identity.
pub trait Scalar: Sized + Copy {
    /// The additive identity of the scalar type.
    spec fn zero_spec() -> Self;

    /// The multiplicative identity of the scalar type.
    spec fn one_spec() -> Self;

    /// Whether `self + rhs` is defined (for bounded integers: in range).
    spec fn add_ok(self, rhs: Self) -> bool;

    /// Whether `self - rhs` is defined.
    spec fn sub_ok(self, rhs: Self) -> bool;

    /// Whether `self * rhs` is defined.
    spec fn mul_ok(self, rhs: Self) -> bool;

    /// Whether `self / rhs` is defined (a zero divisor is never accepted
    /// by the integer scalars).
    spec fn div_ok(self, rhs: Self) -> bool;

    /// The value of `self + rhs`, meaningful where `add_ok` holds.
    spec fn add_spec(self, rhs: Self) -> Self;

    /// The value of `self - rhs`, meaningful where `sub_ok` holds.
    spec fn sub_spec(self, rhs: Self) -> Self;

    /// The value of `self * rhs`, meaningful where `mul_ok` holds.
    spec fn mul_spec(self, rhs: Self) -> Self;

    /// The value of `self / rhs`, meaningful where `div_ok` holds.
    spec fn div_spec(self, rhs: Self) -> Self;

    /// Returns the additive identity.
    fn zero() -> (r: Self)
        ensures
            r == Self::zero_spec(),
    ;

    /// Returns the multiplicative identity.
    fn one() -> (r: Self)
        ensures
            r == Self::one_spec(),
    ;

    /// Scalar addition.
    fn add(self, rhs: Self) -> (r: Self)
        requires
            self.add_ok(rhs),
        ensures
            r == self.add_spec(rhs),
    ;

    /// Scalar subtraction.
    fn sub(self, rhs: Self) -> (r: Self)
        requires
            self.sub_ok(rhs),
        ensures
            r == self.sub_spec(rhs),
    ;

    /// Scalar multiplication.
    fn mul(self, rhs: Self) -> (r: Self)
        requires
            self.mul_ok(rhs),
        ensures
            r == self.mul_spec(rhs),
    ;

    /// Scalar division.
    fn div(self, rhs: Self) -> (r: Self)
        requires
            self.div_ok(rhs),
        ensures
            r == self.div_spec(rhs),
    ;

    /// The scalar type's own equality test. The contract ties it to
    /// mathematical (structural) equality, so a type with values that
    /// compare unequal to themselves cannot honor this trait.
    fn eq_value(self, rhs: Self) -> (r: bool)
        ensures
            r == (self == rhs),
    ;

    /// Law: the additive identity is neutral for addition.
    proof fn lemma_add_zero(self)
        ensures
            self.add_ok(Self::zero_spec()),
            self.add_spec(Self::zero_spec()) == self,
    ;

    /// Law: the multiplicative identity is neutral for multiplication.
    proof fn lemma_mul_one(self)
        ensures
            self.mul_ok(Self::one_spec()),
            self.mul_spec(Self::one_spec()) == self,
    ;

    /// Law: subtracting a value from itself gives the additive identity.
    proof fn lemma_sub_self(self)
        ensures
            self.sub_ok(self),
            self.sub_spec(self) == Self::zero_spec(),
    ;
}

/// The additional capability of negation. Kept apart from [`Scalar`] on
/// purpose: the four elementwise operations do not need it, and unsigned
/// scalars cannot offer it.
pub trait SignedScalar: Scalar {
    /// Whether `-self` is defined (for bounded integers: in range).
    spec fn neg_ok(self) -> bool;

    /// The value of `-self`, meaningful where `neg_ok` holds.
    spec fn neg_spec(self) -> Self;

    /// Scalar negation.
    fn neg(self) -> (r: Self)
        requires
            self.neg_ok(),
        ensures
            r == self.neg_spec(),
    ;

    /// Law: negation is an involution wherever it is defined.
    proof fn lemma_neg_neg(self)
        requires
            self.neg_ok(),
        ensures
            self.neg_spec().neg_ok(),
            self.neg_spec().neg_spec() == self,
    ;
}

/// Division truncated toward zero, as the signed machine integers compute
/// it, written over the Euclidean `/` of nonnegative operands.
pub open spec fn div_trunc(x: int, d: int) -> int {
    if x == 0 {
        0
    } else if x > 0 && d > 0 {
        x / d
    } else if x < 0 && d < 0 {
        (x * -1) / (d * -1)
    } else if x < 0 {
        ((x * -1) / d) * -1
    } else {
        (x / (d * -1)) * -1
    }
}

/// The truncated quotient of two `i64` values stays in `i64` range, as long
/// as the divisor is nonzero and the pair is not the one overflowing case.
proof fn lemma_div_trunc_in_range(x: int, d: int)
    requires
        i64::MIN <= x <= i64::MAX,
        i64::MIN <= d <= i64::MAX,
        d != 0,
        !(x == i64::MIN && d == -1),
    ensures
        i64::MIN <= div_trunc(x, d) <= i64::MAX,
{
    if x == 0 {
    } else if x > 0 && d > 0 {
        lemma_div_pos_is_pos(x, d);
        lemma_div_nonincreasing(x, d);
    } else if x < 0 && d < 0 {
        let n = x * -1;
        let p = d * -1;
        lemma_div_pos_is_pos(n, p);
        if p == 1 {
            lemma_div_basics(n);
        } else {
            lemma_div_decreases(n, p);
        }
    } else if x < 0 {
        let n = x * -1;
        lemma_div_pos_is_pos(n, d);
        lemma_div_nonincreasing(n, d);
    } else {
        let p = d * -1;
        lemma_div_pos_is_pos(x, p);
        lemma_div_nonincreasing(x, p);
    }
}

impl Scalar for i64 {
    open spec fn zero_spec() -> i64 {
        0i64
    }

    open spec fn one_spec() -> i64 {
        1i64
    }

    open spec fn add_ok(self, rhs: i64) -> bool {
        i64::MIN <= self + rhs <= i64::MAX
    }

    open spec fn sub_ok(self, rhs: i64) -> bool {
        i64::MIN <= self - rhs <= i64::MAX
    }

    open spec fn mul_ok(self, rhs: i64) -> bool {
        i64::MIN <= self * rhs <= i64::MAX
    }

    open spec fn div_ok(self, rhs: i64) -> bool {
        rhs != 0 && !(self == i64::MIN && rhs == -1)
    }

    open spec fn add_spec(self, rhs: i64) -> i64 {
        (self + rhs) as i64
    }

    open spec fn sub_spec(self, rhs: i64) -> i64 {
        (self - rhs) as i64
    }

    open spec fn mul_spec(self, rhs: i64) -> i64 {
        (self * rhs) as i64
    }

    open spec fn div_spec(self, rhs: i64) -> i64 {
        div_trunc(self as int, rhs as int) as i64
    }

    fn zero() -> i64 {
        0
    }

    fn one() -> i64 {
        1
    }

    fn add(self, rhs: i64) -> i64 {
        self + rhs
    }

    fn sub(self, rhs: i64) -> i64 {
        self - rhs
    }

    fn mul(self, rhs: i64) -> i64 {
        self * rhs
    }

    fn div(self, rhs: i64) -> (r: i64) {
        proof {
            lemma_div_trunc_in_range(self as int, rhs as int);
        }
        let q = self.checked_div(rhs);
        match q {
            Some(v) => v,
            None => {
                proof {
                    assert(false);
                }
                0
            },
        }
    }

    fn eq_value(self, rhs: i64) -> bool {
        self == rhs
    }

    proof fn lemma_add_zero(self) {
    }

    proof fn lemma_mul_one(self) {
    }

    proof fn lemma_sub_self(self) {
    }
}

impl SignedScalar for i64 {
    open spec fn neg_ok(self) -> bool {
        self != i64::MIN
    }

    open spec fn neg_spec(self) -> i64 {
        (0 - self) as i64
    }

    fn neg(self) -> i64 {
        0i64 - self
    }

    proof fn lemma_neg_neg(self) {
    }
}

impl Scalar for u64 {
    open spec fn zero_spec() -> u64 {
        0u64
    }

    open spec fn one_spec() -> u64 {
        1u64
    }

    open spec fn add_ok(self, rhs: u64) -> bool {
        self + rhs <= u64::MAX
    }

    open spec fn sub_ok(self, rhs: u64) -> bool {
        rhs <= self
    }

    open spec fn mul_ok(self, rhs: u64) -> bool {
        self * rhs <= u64::MAX
    }

    open spec fn div_ok(self, rhs: u64) -> bool {
        rhs != 0
    }

    open spec fn add_spec(self, rhs: u64) -> u64 {
        (self + rhs) as u64
    }

    open spec fn sub_spec(self, rhs: u64) -> u64 {
        (self - rhs) as u64
    }

    open spec fn mul_spec(self, rhs: u64) -> u64 {
        (self * rhs) as u64
    }

    open spec fn div_spec(self, rhs: u64) -> u64 {
        self / rhs
    }

    fn zero() -> u64 {
        0
    }

    fn one() -> u64 {
        1
    }

    fn add(self, rhs: u64) -> u64 {
        self + rhs
    }

    fn sub(self, rhs: u64) -> u64 {
        self - rhs
    }

    fn mul(self, rhs: u64) -> u64 {
        self * rhs
    }

    fn div(self, rhs: u64) -> u64 {
        self / rhs
    }

    fn eq_value(self, rhs: u64) -> bool {
        self == rhs
    }

    proof fn lemma_add_zero(self) {
    }

    proof fn lemma_mul_one(self) {
    }

    proof fn lemma_sub_self(self) {
    }
}

} // verus!
