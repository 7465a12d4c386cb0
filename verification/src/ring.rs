//! The ring interface that every algebra level implements, the conjugation
//! trait, and the generator-sign dispatch.
//!
//! A `Ring` is any type whose values are modelled by a [`Model`] tree with
//! leaves bounded by the type's own machine range.  The base rings are the
//! signed machine integers; each Cayley-Dickson doubling level implements the
//! same trait again, so the whole tower is built from one interface.
use vstd::prelude::*;

use crate::model::Model;
use crate::model::Tag;

verus! {

pub trait Ring: Sized {
    /// The model tree of this value.
    spec fn model(&self) -> Model;

    /// The smallest leaf value this type can hold.
    spec fn min_val() -> int;

    /// The largest leaf value this type can hold.
    spec fn max_val() -> int;

    /// Any two values of one ring type share one tree shape, and every value
    /// is level-wise uniform: the algebra is fixed by the type, never by the
    /// value.
    proof fn lemma_models_compatible(&self, other: &Self)
        ensures
            self.model().shape() == other.model().shape(),
            self.model().uniform(),
    ;

    /// The additive identity.
    fn zero() -> (r: Self)
        ensures
            r.model().is_zero(),
    ;

    /// The multiplicative identity.
    fn one() -> (r: Self)
        ensures
            r.model().is_one(),
    ;

    /// The additive identity of the same algebra as `self`.
    fn zero_like(&self) -> (r: Self)
        ensures
            r.model() == self.model().zero_like(),
    ;

    /// An identical copy.
    fn dup(&self) -> (r: Self)
        ensures
            r.model() == self.model(),
    ;

    fn add(&self, other: &Self) -> (r: Self)
        requires
            self.model().can_add(other.model(), Self::min_val(), Self::max_val()),
        ensures
            r.model() == self.model().add(other.model()),
    ;

    fn sub(&self, other: &Self) -> (r: Self)
        requires
            self.model().can_sub(other.model(), Self::min_val(), Self::max_val()),
        ensures
            r.model() == self.model().sub(other.model()),
    ;

    fn neg(&self) -> (r: Self)
        requires
            self.model().can_neg(Self::min_val(), Self::max_val()),
        ensures
            r.model() == self.model().neg(),
    ;

    fn mul(&self, other: &Self) -> (r: Self)
        requires
            self.model().can_mul(other.model(), Self::min_val(), Self::max_val()),
        ensures
            r.model() == self.model().mul(other.model()),
    ;

    /// Division.  That no leaf divides by zero is a precondition, as is the
    /// absence of overflow anywhere in the computation; within it, each leaf
    /// divides with Rust's truncating semantics.
    fn div(&self, other: &Self) -> (r: Self)
        requires
            self.model().can_div(other.model(), Self::min_val(), Self::max_val()),
        ensures
            r.model() == self.model().div(other.model()),
    ;
}

/// A type whose values can be conjugated.  On the base rings conjugation is
/// the identity; on a doubled pair it negates the imaginary half and recurses
/// on the real one.
pub trait Conjugable: Ring {
    fn conjugate(&self) -> (r: Self)
        requires
            self.model().can_conjugate(Self::min_val(), Self::max_val()),
        ensures
            r.model() == self.model().conjugate(),
    ;
}

/// One generator-sign choice, selected at the type level: the marker type
/// says what the new generator of a doubling level squares to, and `sign`
/// applies that square's effect to a ring value.
pub trait Sign<A: Ring> {
    spec fn tag() -> Tag;

    fn sign(a: A) -> (r: A)
        requires
            a.model().can_apply_sign(Self::tag(), A::min_val(), A::max_val()),
        ensures
            r.model() == a.model().applied_sign(Self::tag()),
    ;
}

/// The elliptic choice: the generator squares to `-1`.
#[derive(Clone, Copy, Debug, PartialEq, Eq)]
pub struct Negative;

/// The hyperbolic (split) choice: the generator squares to `+1`.
#[derive(Clone, Copy, Debug, PartialEq, Eq)]
pub struct Positive;

/// The degenerate (dual) choice: the generator squares to `0`.
#[derive(Clone, Copy, Debug, PartialEq, Eq)]
pub struct Null;

impl<A: Ring> Sign<A> for Negative {
    open spec fn tag() -> Tag {
        Tag::Negative
    }

    fn sign(a: A) -> (r: A) {
        a.neg()
    }
}

impl<A: Ring> Sign<A> for Positive {
    open spec fn tag() -> Tag {
        Tag::Positive
    }

    fn sign(a: A) -> (r: A) {
        a
    }
}

impl<A: Ring> Sign<A> for Null {
    open spec fn tag() -> Tag {
        Tag::Null
    }

    fn sign(a: A) -> (r: A) {
        a.zero_like()
    }
}

impl Ring for i64 {
    open spec fn model(&self) -> Model {
        Model::scalar(*self as int)
    }

    open spec fn min_val() -> int {
        i64::MIN as int
    }

    open spec fn max_val() -> int {
        i64::MAX as int
    }

    proof fn lemma_models_compatible(&self, other: &Self) {
    }

    fn zero() -> (r: Self) {
        0
    }

    fn one() -> (r: Self) {
        1
    }

    fn zero_like(&self) -> (r: Self) {
        0
    }

    fn dup(&self) -> (r: Self) {
        *self
    }

    fn add(&self, other: &Self) -> (r: Self) {
        *self + *other
    }

    fn sub(&self, other: &Self) -> (r: Self) {
        *self - *other
    }

    fn neg(&self) -> (r: Self) {
        -*self
    }

    fn mul(&self, other: &Self) -> (r: Self) {
        *self * *other
    }

    fn div(&self, other: &Self) -> (r: Self) {
        self.checked_div(*other).unwrap()
    }
}

impl Conjugable for i64 {
    fn conjugate(&self) -> (r: Self) {
        *self
    }
}

impl Ring for isize {
    open spec fn model(&self) -> Model {
        Model::scalar(*self as int)
    }

    open spec fn min_val() -> int {
        isize::MIN as int
    }

    open spec fn max_val() -> int {
        isize::MAX as int
    }

    proof fn lemma_models_compatible(&self, other: &Self) {
    }

    fn zero() -> (r: Self) {
        0
    }

    fn one() -> (r: Self) {
        1
    }

    fn zero_like(&self) -> (r: Self) {
        0
    }

    fn dup(&self) -> (r: Self) {
        *self
    }

    fn add(&self, other: &Self) -> (r: Self) {
        *self + *other
    }

    fn sub(&self, other: &Self) -> (r: Self) {
        *self - *other
    }

    fn neg(&self) -> (r: Self) {
        -*self
    }

    fn mul(&self, other: &Self) -> (r: Self) {
        *self * *other
    }

    fn div(&self, other: &Self) -> (r: Self) {
        self.checked_div(*other).unwrap()
    }
}

impl Conjugable for isize {
    fn conjugate(&self) -> (r: Self) {
        *self
    }
}

} // verus!
