//! The opacity wrapper: a value that conjugation leaves untouched.
//!
//! Wrapping one half of a doubled pair stops the outer doubling from
//! conjugating it, which is how compound types such as dual quaternions are
//! assembled: a `Null`-tagged doubling over a wrapped quaternion.
use vstd::prelude::*;

use crate::model::Model;
use crate::ring::Conjugable;
use crate::ring::Ring;

verus! {

/// Wraps a ring value so that `conjugate` returns it unchanged, whatever the
/// wrapped ring's own conjugation does; every other ring operation passes
/// through to the wrapped value.
#[derive(Debug, PartialEq, Eq, PartialOrd, Ord, Hash)]
pub struct SelfConjugate<A>(pub A);

impl<A: Ring> Ring for SelfConjugate<A> {
    closed spec fn model(&self) -> Model {
        Model::wrapped(self.0.model())
    }

    open spec fn min_val() -> int {
        A::min_val()
    }

    open spec fn max_val() -> int {
        A::max_val()
    }

    proof fn lemma_models_compatible(&self, other: &Self) {
        self.0.lemma_models_compatible(&other.0);
    }

    fn zero() -> (r: Self) {
        SelfConjugate(A::zero())
    }

    fn one() -> (r: Self) {
        SelfConjugate(A::one())
    }

    fn zero_like(&self) -> (r: Self) {
        SelfConjugate(self.0.zero_like())
    }

    fn dup(&self) -> (r: Self) {
        SelfConjugate(self.0.dup())
    }

    fn add(&self, other: &Self) -> (r: Self) {
        SelfConjugate(self.0.add(&other.0))
    }

    fn sub(&self, other: &Self) -> (r: Self) {
        SelfConjugate(self.0.sub(&other.0))
    }

    fn neg(&self) -> (r: Self) {
        SelfConjugate(self.0.neg())
    }

    fn mul(&self, other: &Self) -> (r: Self) {
        SelfConjugate(self.0.mul(&other.0))
    }

    fn div(&self, other: &Self) -> (r: Self) {
        SelfConjugate(self.0.div(&other.0))
    }
}

impl<A: Ring> Conjugable for SelfConjugate<A> {
    fn conjugate(&self) -> (r: Self) {
        SelfConjugate(self.0.dup())
    }
}

} // verus!
