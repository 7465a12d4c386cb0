//! The Cayley-Dickson construction: an ordered pair over a base ring,
//! carrying the generator-sign tag of its level as a type parameter.
//!
//! Applying the construction repeatedly builds the classical tower: complex
//! numbers over the integers, quaternions over those, octonions over those;
//! choosing `Positive` or `Null` at a level yields the split or dual variant
//! of that level instead.
use core::marker::PhantomData;

use vstd::prelude::*;

use crate::model::Model;
use crate::ring::Conjugable;
use crate::ring::Negative;
use crate::ring::Ring;
use crate::ring::Sign;

verus! {

/// One doubling level: the pair `(re, im)` over the ring `A`, with the
/// generator-sign tag `S` fixed at the type level, elliptic by default.
#[derive(Debug, PartialEq, Eq)]
pub struct Complex<A: Ring, S: Sign<A> = Negative> {
    re: A,
    im: A,
    sign: PhantomData<S>,
}

impl<A: Conjugable, S: Sign<A>> Complex<A, S> {
    /// The value with the given rectangular components, as a spec-level
    /// function of them.
    pub closed spec fn spec_from_rect(re: A, im: A) -> Complex<A, S> {
        Complex { re, im, sign: PhantomData }
    }

    /// The rectangular components, as a spec-level function of the value.
    pub closed spec fn spec_rect(self) -> (A, A) {
        (self.re, self.im)
    }

    /// Builds the pair with the given rectangular components.
    pub fn from_rect(re: A, im: A) -> (r: Self)
        ensures
            r == Self::spec_from_rect(re, im),
            r.model() == Model::pair(S::tag(), re.model(), im.model()),
    {
        Complex { re, im, sign: PhantomData }
    }

    /// Takes the pair apart into its rectangular components.
    pub fn into_rect(self) -> (r: (A, A))
        ensures
            r == self.spec_rect(),
            self.model() == Model::pair(S::tag(), r.0.model(), r.1.model()),
    {
        (self.re, self.im)
    }

    /// Takes the pair apart into its rectangular components; an older name
    /// for `into_rect`.
    pub fn to_rect(self) -> (r: (A, A))
        ensures
            r == self.spec_rect(),
            self.model() == Model::pair(S::tag(), r.0.model(), r.1.model()),
    {
        self.into_rect()
    }

    /// Lifts a bare ring value: the real part is the value, the imaginary
    /// part its degenerate sign-image, which is its algebra's zero.
    pub fn from_scalar(x: A) -> (r: Self)
        ensures
            r.model() == Model::pair(S::tag(), x.model(), x.model().zero_like()),
    {
        let z = x.zero_like();
        Complex { re: x, im: z, sign: PhantomData }
    }
}

/// The round trip stated by the two rectangular contracts: taking apart what
/// `from_rect` built returns exactly the components it was given.
pub proof fn lemma_rect_round_trip<A: Conjugable, S: Sign<A>>(a: A, b: A)
    ensures
        Complex::<A, S>::spec_from_rect(a, b).spec_rect() == (a, b),
{
}

/// Builds a doubled pair with the given rectangular components.
pub fn from_rect<S: Sign<A>, A: Conjugable>(re: A, im: A) -> (r: Complex<A, S>)
    ensures
        r == Complex::<A, S>::spec_from_rect(re, im),
        r.model() == Model::pair(S::tag(), re.model(), im.model()),
{
    Complex::from_rect(re, im)
}

impl<A: Conjugable, S: Sign<A>> Ring for Complex<A, S> {
    closed spec fn model(&self) -> Model {
        Model::pair(S::tag(), self.re.model(), self.im.model())
    }

    open spec fn min_val() -> int {
        A::min_val()
    }

    open spec fn max_val() -> int {
        A::max_val()
    }

    proof fn lemma_models_compatible(&self, other: &Self) {
        self.re.lemma_models_compatible(&other.re);
        self.im.lemma_models_compatible(&other.im);
        self.re.lemma_models_compatible(&self.im);
    }

    fn zero() -> (r: Self) {
        Complex { re: A::zero(), im: A::zero(), sign: PhantomData }
    }

    fn one() -> (r: Self) {
        Complex { re: A::one(), im: A::zero(), sign: PhantomData }
    }

    fn zero_like(&self) -> (r: Self) {
        Complex { re: self.re.zero_like(), im: self.im.zero_like(), sign: PhantomData }
    }

    fn dup(&self) -> (r: Self) {
        Complex { re: self.re.dup(), im: self.im.dup(), sign: PhantomData }
    }

    fn add(&self, other: &Self) -> (r: Self) {
        Complex {
            re: self.re.add(&other.re),
            im: self.im.add(&other.im),
            sign: PhantomData,
        }
    }

    fn sub(&self, other: &Self) -> (r: Self) {
        Complex {
            re: self.re.sub(&other.re),
            im: self.im.sub(&other.im),
            sign: PhantomData,
        }
    }

    fn neg(&self) -> (r: Self) {
        Complex { re: self.re.neg(), im: self.im.neg(), sign: PhantomData }
    }

    fn mul(&self, other: &Self) -> (r: Self) {
        let ac = self.re.mul(&other.re);
        let dcj = other.im.conjugate();
        let dcb = dcj.mul(&self.im);
        let sterm = S::sign(dcb);
        let first = ac.add(&sterm);
        let da = other.im.mul(&self.re);
        let ccj = other.re.conjugate();
        let bcc = self.im.mul(&ccj);
        let second = da.add(&bcc);
        Complex { re: first, im: second, sign: PhantomData }
    }

    fn div(&self, other: &Self) -> (r: Self) {
        let oc = other.conjugate();
        let num = self.mul(&oc);
        let den = other.mul(&oc);
        Complex {
            re: num.re.div(&den.re),
            im: num.im.div(&den.re),
            sign: PhantomData,
        }
    }
}

impl<A: Conjugable, S: Sign<A>> Conjugable for Complex<A, S> {
    fn conjugate(&self) -> (r: Self) {
        Complex { re: self.re.conjugate(), im: self.im.neg(), sign: PhantomData }
    }
}

} // verus!
