//! A generic four-component numeric container with elementwise arithmetic.

use vstd::prelude::*;

use crate::scalar::{Scalar, SignedScalar};

verus! {

/// Four independent scalars of one type, with elementwise arithmetic.
///
/// The container imposes no coordinate-space meaning on the fields; every
/// operation lifts the scalar operation to each field independently.
#[derive(Clone, Copy, Debug)]
pub struct Vec4<T: Scalar> {
    pub x: T,
    pub y: T,
    pub z: T,
    pub w: T,
}

impl<T: Scalar> Vec4<T> {
    /// The tuple whose four fields are the scalar additive identity.
    pub open spec fn zero_spec() -> Self {
        Vec4 {
            x: T::zero_spec(),
            y: T::zero_spec(),
            z: T::zero_spec(),
            w: T::zero_spec(),
        }
    }

    /// Returns a tuple with every field set to the additive identity.
    pub fn new() -> (r: Self)
        ensures
            r == Self::zero_spec(),
    {
        Vec4 { x: T::zero(), y: T::zero(), z: T::zero(), w: T::zero() }
    }

    /// Returns a tuple with the given field values, accepted verbatim.
    pub fn from(x: T, y: T, z: T, w: T) -> (r: Self)
        ensures
            r == (Vec4 { x, y, z, w }),
    {
        Vec4 { x, y, z, w }
    }

    /// The tuple whose four fields are the scalar multiplicative identity.
    pub open spec fn one_spec() -> Self {
        Vec4 { x: T::one_spec(), y: T::one_spec(), z: T::one_spec(), w: T::one_spec() }
    }

    /// Whether every field holds the scalar additive identity.
    pub open spec fn is_zero_spec(self) -> bool {
        self == Self::zero_spec()
    }

    /// Whether every field holds the scalar multiplicative identity.
    pub open spec fn is_one_spec(self) -> bool {
        self == Self::one_spec()
    }

    /// Whether elementwise addition is defined on this pair of tuples.
    pub open spec fn add_ok(self, rhs: Self) -> bool {
        self.x.add_ok(rhs.x) && self.y.add_ok(rhs.y) && self.z.add_ok(rhs.z) && self.w.add_ok(
            rhs.w,
        )
    }

    /// Whether elementwise subtraction is defined on this pair of tuples.
    pub open spec fn sub_ok(self, rhs: Self) -> bool {
        self.x.sub_ok(rhs.x) && self.y.sub_ok(rhs.y) && self.z.sub_ok(rhs.z) && self.w.sub_ok(
            rhs.w,
        )
    }

    /// Whether elementwise multiplication is defined on this pair of tuples.
    pub open spec fn mul_ok(self, rhs: Self) -> bool {
        self.x.mul_ok(rhs.x) && self.y.mul_ok(rhs.y) && self.z.mul_ok(rhs.z) && self.w.mul_ok(
            rhs.w,
        )
    }

    /// Whether elementwise division is defined on this pair of tuples: the
    /// scalar division must be defined on all four field pairs, so a caller
    /// with a strict integer scalar must keep every divisor field nonzero.
    pub open spec fn div_ok(self, rhs: Self) -> bool {
        self.x.div_ok(rhs.x) && self.y.div_ok(rhs.y) && self.z.div_ok(rhs.z) && self.w.div_ok(
            rhs.w,
        )
    }

    /// The elementwise sum.
    pub open spec fn add_spec(self, rhs: Self) -> Self {
        Vec4 {
            x: self.x.add_spec(rhs.x),
            y: self.y.add_spec(rhs.y),
            z: self.z.add_spec(rhs.z),
            w: self.w.add_spec(rhs.w),
        }
    }

    /// The elementwise difference.
    pub open spec fn sub_spec(self, rhs: Self) -> Self {
        Vec4 {
            x: self.x.sub_spec(rhs.x),
            y: self.y.sub_spec(rhs.y),
            z: self.z.sub_spec(rhs.z),
            w: self.w.sub_spec(rhs.w),
        }
    }

    /// The elementwise (Hadamard) product; no cross-field interaction.
    pub open spec fn mul_spec(self, rhs: Self) -> Self {
        Vec4 {
            x: self.x.mul_spec(rhs.x),
            y: self.y.mul_spec(rhs.y),
            z: self.z.mul_spec(rhs.z),
            w: self.w.mul_spec(rhs.w),
        }
    }

    /// The elementwise quotient.
    pub open spec fn div_spec(self, rhs: Self) -> Self {
        Vec4 {
            x: self.x.div_spec(rhs.x),
            y: self.y.div_spec(rhs.y),
            z: self.z.div_spec(rhs.z),
            w: self.w.div_spec(rhs.w),
        }
    }

    /// Returns the identity element for elementwise addition.
    pub fn zero() -> (r: Self)
        ensures
            r == Self::zero_spec(),
    {
        Vec4 { x: T::zero(), y: T::zero(), z: T::zero(), w: T::zero() }
    }

    /// Resets every field to the additive identity in place.
    pub fn set_zero(&mut self)
        ensures
            *final(self) == Self::zero_spec(),
    {
        self.x = T::zero();
        self.y = T::zero();
        self.z = T::zero();
        self.w = T::zero();
    }

    /// True iff all four fields equal the scalar additive identity.
    pub fn is_zero(&self) -> (r: bool)
        ensures
            r == self.is_zero_spec(),
    {
        self.x.eq_value(T::zero()) && self.y.eq_value(T::zero()) && self.z.eq_value(T::zero())
            && self.w.eq_value(T::zero())
    }

    /// Returns the identity element for elementwise multiplication.
    pub fn one() -> (r: Self)
        ensures
            r == Self::one_spec(),
    {
        Vec4 { x: T::one(), y: T::one(), z: T::one(), w: T::one() }
    }

    /// Resets every field to the multiplicative identity in place.
    pub fn set_one(&mut self)
        ensures
            *final(self) == Self::one_spec(),
    {
        self.x = T::one();
        self.y = T::one();
        self.z = T::one();
        self.w = T::one();
    }

    /// True iff all four fields equal the scalar multiplicative identity.
    pub fn is_one(&self) -> (r: bool)
        ensures
            r == self.is_one_spec(),
    {
        self.x.eq_value(T::one()) && self.y.eq_value(T::one()) && self.z.eq_value(T::one())
            && self.w.eq_value(T::one())
    }

    /// Elementwise addition: field `i` of the result is `self.i + rhs.i`.
    pub fn add(self, rhs: Self) -> (r: Self)
        requires
            self.add_ok(rhs),
        ensures
            r == self.add_spec(rhs),
    {
        Vec4 {
            x: self.x.add(rhs.x),
            y: self.y.add(rhs.y),
            z: self.z.add(rhs.z),
            w: self.w.add(rhs.w),
        }
    }

    /// In-place addition; leaves the same value the non-mutating [`Vec4::add`]
    /// returns on the old value.
    pub fn add_assign(&mut self, rhs: Self)
        requires
            old(self).add_ok(rhs),
        ensures
            *final(self) == old(self).add_spec(rhs),
    {
        self.x = self.x.add(rhs.x);
        self.y = self.y.add(rhs.y);
        self.z = self.z.add(rhs.z);
        self.w = self.w.add(rhs.w);
    }

    /// Elementwise subtraction: field `i` of the result is `self.i - rhs.i`.
    pub fn sub(self, rhs: Self) -> (r: Self)
        requires
            self.sub_ok(rhs),
        ensures
            r == self.sub_spec(rhs),
    {
        Vec4 {
            x: self.x.sub(rhs.x),
            y: self.y.sub(rhs.y),
            z: self.z.sub(rhs.z),
            w: self.w.sub(rhs.w),
        }
    }

    /// In-place subtraction; leaves the same value the non-mutating
    /// [`Vec4::sub`] returns on the old value.
    pub fn sub_assign(&mut self, rhs: Self)
        requires
            old(self).sub_ok(rhs),
        ensures
            *final(self) == old(self).sub_spec(rhs),
    {
        self.x = self.x.sub(rhs.x);
        self.y = self.y.sub(rhs.y);
        self.z = self.z.sub(rhs.z);
        self.w = self.w.sub(rhs.w);
    }

    /// Elementwise (Hadamard) product: field `i` of the result is
    /// `self.i * rhs.i`; this is not a dot product.
    pub fn mul(self, rhs: Self) -> (r: Self)
        requires
            self.mul_ok(rhs),
        ensures
            r == self.mul_spec(rhs),
    {
        Vec4 {
            x: self.x.mul(rhs.x),
            y: self.y.mul(rhs.y),
            z: self.z.mul(rhs.z),
            w: self.w.mul(rhs.w),
        }
    }

    /// In-place multiplication; leaves the same value the non-mutating
    /// [`Vec4::mul`] returns on the old value.
    pub fn mul_assign(&mut self, rhs: Self)
        requires
            old(self).mul_ok(rhs),
        ensures
            *final(self) == old(self).mul_spec(rhs),
    {
        self.x = self.x.mul(rhs.x);
        self.y = self.y.mul(rhs.y);
        self.z = self.z.mul(rhs.z);
        self.w = self.w.mul(rhs.w);
    }

    /// Elementwise division: field `i` of the result is `self.i / rhs.i`.
    /// Callers with a strict integer scalar must establish `div_ok`, which
    /// keeps every divisor field nonzero.
    pub fn div(self, rhs: Self) -> (r: Self)
        requires
            self.div_ok(rhs),
        ensures
            r == self.div_spec(rhs),
    {
        Vec4 {
            x: self.x.div(rhs.x),
            y: self.y.div(rhs.y),
            z: self.z.div(rhs.z),
            w: self.w.div(rhs.w),
        }
    }

    /// In-place division; leaves the same value the non-mutating [`Vec4::div`]
    /// returns on the old value.
    pub fn div_assign(&mut self, rhs: Self)
        requires
            old(self).div_ok(rhs),
        ensures
            *final(self) == old(self).div_spec(rhs),
    {
        self.x = self.x.div(rhs.x);
        self.y = self.y.div(rhs.y);
        self.z = self.z.div(rhs.z);
        self.w = self.w.div(rhs.w);
    }

    /// Structural equality: true iff all four corresponding fields are equal
    /// under the scalar type's own equality.
    pub fn equals(&self, other: &Self) -> (r: bool)
        ensures
            r == (*self == *other),
    {
        self.x.eq_value(other.x) && self.y.eq_value(other.y) && self.z.eq_value(other.z)
            && self.w.eq_value(other.w)
    }
}

impl<T: Scalar> PartialEq for Vec4<T> {
    /// The `==` operator, agreeing with [`Vec4::equals`].
    fn eq(&self, other: &Self) -> (r: bool) {
        self.equals(other)
    }
}

impl<T: Scalar> vstd::std_specs::cmp::PartialEqSpecImpl for Vec4<T> {
    open spec fn obeys_eq_spec() -> bool {
        true
    }

    open spec fn eq_spec(&self, other: &Self) -> bool {
        *self == *other
    }
}

/// Law: the default-constructed tuple and the additive identity tuple both
/// satisfy the zero predicate, for every scalar type. [`Vec4::new`] and
/// [`Vec4::zero`] both return `zero_spec`, so this covers them both.
pub proof fn lemma_zero_is_zero<T: Scalar>()
    ensures
        Vec4::<T>::zero_spec().is_zero_spec(),
{
}

/// Law: the multiplicative identity tuple satisfies the one predicate, for
/// every scalar type.
pub proof fn lemma_one_is_one<T: Scalar>()
    ensures
        Vec4::<T>::one_spec().is_one_spec(),
{
}

/// Law: wherever the scalar identities differ, the additive identity tuple
/// does not satisfy the one predicate and the multiplicative identity tuple
/// does not satisfy the zero predicate.
pub proof fn lemma_identities_distinct<T: Scalar>()
    requires
        T::zero_spec() != T::one_spec(),
    ensures
        !Vec4::<T>::zero_spec().is_one_spec(),
        !Vec4::<T>::one_spec().is_zero_spec(),
{
}

/// Law: the additive identity tuple is neutral for elementwise addition;
/// the addition is defined on every tuple paired with it.
pub proof fn lemma_add_zero_identity<T: Scalar>(v: Vec4<T>)
    ensures
        v.add_ok(Vec4::<T>::zero_spec()),
        v.add_spec(Vec4::<T>::zero_spec()) == v,
{
    v.x.lemma_add_zero();
    v.y.lemma_add_zero();
    v.z.lemma_add_zero();
    v.w.lemma_add_zero();
}

/// Law: the multiplicative identity tuple is neutral for the elementwise
/// product; the product is defined on every tuple paired with it.
pub proof fn lemma_mul_one_identity<T: Scalar>(v: Vec4<T>)
    ensures
        v.mul_ok(Vec4::<T>::one_spec()),
        v.mul_spec(Vec4::<T>::one_spec()) == v,
{
    v.x.lemma_mul_one();
    v.y.lemma_mul_one();
    v.z.lemma_mul_one();
    v.w.lemma_mul_one();
}

/// Law: subtracting a tuple from itself is always defined and yields the
/// additive identity tuple.
pub proof fn lemma_sub_self_is_zero<T: Scalar>(v: Vec4<T>)
    ensures
        v.sub_ok(v),
        v.sub_spec(v) == Vec4::<T>::zero_spec(),
{
    v.x.lemma_sub_self();
    v.y.lemma_sub_self();
    v.z.lemma_sub_self();
    v.w.lemma_sub_self();
}

/// Law: elementwise negation is an involution wherever it is defined.
pub proof fn lemma_neg_involution<T: SignedScalar>(v: Vec4<T>)
    requires
        v.neg_ok(),
    ensures
        v.neg_spec().neg_ok(),
        v.neg_spec().neg_spec() == v,
{
    v.x.lemma_neg_neg();
    v.y.lemma_neg_neg();
    v.z.lemma_neg_neg();
    v.w.lemma_neg_neg();
}

/// Law: the equality that [`Vec4::equals`] decides is an equivalence
/// relation: reflexive, symmetric, and transitive. This is the structural
/// equality of ghost values; an unverified scalar whose own equality departs
/// from it (a value unequal to itself, as a floating-point not-a-number is)
/// falls outside the [`Scalar`] contract and loses reflexivity.
pub proof fn lemma_equals_equivalence<T: Scalar>(a: Vec4<T>, b: Vec4<T>, c: Vec4<T>)
    ensures
        a == a,
        (a == b) ==> (b == a),
        ((a == b) && (b == c)) ==> (a == c),
{
}

impl<T: SignedScalar> Vec4<T> {
    /// Whether elementwise negation is defined on this tuple.
    pub open spec fn neg_ok(self) -> bool {
        self.x.neg_ok() && self.y.neg_ok() && self.z.neg_ok() && self.w.neg_ok()
    }

    /// The elementwise negation.
    pub open spec fn neg_spec(self) -> Self {
        Vec4 {
            x: self.x.neg_spec(),
            y: self.y.neg_spec(),
            z: self.z.neg_spec(),
            w: self.w.neg_spec(),
        }
    }

    /// Elementwise negation: field `i` of the result is `-self.i`. Only
    /// scalars with the stricter [`SignedScalar`] capability offer this.
    pub fn neg(self) -> (r: Self)
        requires
            self.neg_ok(),
        ensures
            r == self.neg_spec(),
    {
        Vec4 {
            x: self.x.neg(),
            y: self.y.neg(),
            z: self.z.neg(),
            w: self.w.neg(),
        }
    }
}

} // verus!
