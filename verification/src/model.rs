//! The mathematical model of a hypercomplex value.
//!
//! A value of any algebra built by Cayley-Dickson doubling is modelled as a
//! finite tree: a bare ring element is a `Scalar` leaf holding an unbounded
//! integer, one doubling step is a `Pair` carrying the generator-sign tag of
//! that level, and the conjugation-opaque wrapper is `Wrapped`.  All contracts
//! of the executable types speak about these trees, so the doubling rules are
//! stated once, here, independently of any machine integer type.
use vstd::prelude::*;

verus! {

/// What a generator squares to: `-1` (elliptic), `+1` (hyperbolic/split),
/// or `0` (degenerate/dual).
#[derive(PartialEq, Eq, Structural)]
pub enum Tag {
    Negative,
    Positive,
    Null,
}

/// The model tree of a hypercomplex value.
pub enum Model {
    Scalar { value: int },
    Pair { tag: Tag, re: Box<Model>, im: Box<Model> },
    Wrapped { inner: Box<Model> },
}

/// The bare structure of a model tree: its constructors and tags, with the
/// leaf values forgotten.  Two values of one algebra always share a shape.
pub enum Shape {
    Leaf,
    Doubled { tag: Tag, re: Box<Shape>, im: Box<Shape> },
    Opaque { inner: Box<Shape> },
}

/// Rust's truncating integer division (rounding toward zero), as a function
/// on unbounded integers; `/` on `int` alone is Euclidean.
pub open spec fn tdiv(x: int, d: int) -> int {
    if x == 0 {
        0
    } else if x > 0 && d > 0 {
        x / d
    } else if x < 0 && d < 0 {
        (x * -1) / (d * -1)
    } else if x < 0 {
        ((x * -1) / d) * -1
    } else {
        (x / (d * -1)) * -1
    }
}

pub open spec fn in_range(lo: int, hi: int, v: int) -> bool {
    lo <= v <= hi
}

/// The larger of the two heights: the measure that the product and the
/// quotient recurse on.
pub open spec fn taller(a: Model, b: Model) -> nat {
    if a.height() >= b.height() {
        a.height()
    } else {
        b.height()
    }
}

impl Model {
    pub open spec fn scalar(v: int) -> Model {
        Model::Scalar { value: v }
    }

    pub open spec fn pair(t: Tag, re: Model, im: Model) -> Model {
        Model::Pair { tag: t, re: Box::new(re), im: Box::new(im) }
    }

    pub open spec fn wrapped(inner: Model) -> Model {
        Model::Wrapped { inner: Box::new(inner) }
    }

    /// The number of doubling or wrapping levels above the leaves.
    pub open spec fn height(self) -> nat
        decreases self,
    {
        match self {
            Model::Scalar { .. } => 0,
            Model::Pair { re, im, .. } => {
                let hr = re.height();
                let hi = im.height();
                1 + if hr >= hi {
                    hr
                } else {
                    hi
                }
            },
            Model::Wrapped { inner } => 1 + inner.height(),
        }
    }

    pub open spec fn shape(self) -> Shape
        decreases self,
    {
        match self {
            Model::Scalar { .. } => Shape::Leaf,
            Model::Pair { tag, re, im } => Shape::Doubled {
                tag,
                re: Box::new(re.shape()),
                im: Box::new(im.shape()),
            },
            Model::Wrapped { inner } => Shape::Opaque { inner: Box::new(inner.shape()) },
        }
    }

    /// Holds when, at every doubling level, the two halves of the pair have
    /// the same shape -- as they always do in a value of a real algebra,
    /// where both halves belong to one ring type.
    pub open spec fn uniform(self) -> bool
        decreases self,
    {
        match self {
            Model::Scalar { .. } => true,
            Model::Pair { re, im, .. } => re.shape() == im.shape() && re.uniform()
                && im.uniform(),
            Model::Wrapped { inner } => inner.uniform(),
        }
    }

    /// Holds when no conjugation-opaque wrapper occurs anywhere in the tree.
    pub open spec fn wrap_free(self) -> bool
        decreases self,
    {
        match self {
            Model::Scalar { .. } => true,
            Model::Pair { re, im, .. } => re.wrap_free() && im.wrap_free(),
            Model::Wrapped { .. } => false,
        }
    }

    /// All leaves are zero: the additive identity of the algebra.
    pub open spec fn is_zero(self) -> bool
        decreases self,
    {
        match self {
            Model::Scalar { value } => value == 0,
            Model::Pair { re, im, .. } => re.is_zero() && im.is_zero(),
            Model::Wrapped { inner } => inner.is_zero(),
        }
    }

    /// The multiplicative identity: one on the scalar axis, zero elsewhere.
    pub open spec fn is_one(self) -> bool
        decreases self,
    {
        match self {
            Model::Scalar { value } => value == 1,
            Model::Pair { re, im, .. } => re.is_one() && im.is_zero(),
            Model::Wrapped { inner } => inner.is_one(),
        }
    }

    /// The zero of the same algebra: the shape kept, every leaf zeroed.
    pub open spec fn zero_like(self) -> Model
        decreases self,
    {
        match self {
            Model::Scalar { .. } => Model::scalar(0),
            Model::Pair { tag, re, im } => Model::pair(tag, re.zero_like(), im.zero_like()),
            Model::Wrapped { inner } => Model::wrapped(inner.zero_like()),
        }
    }

    /// Component-wise addition.  On trees of different constructors (which a
    /// single algebra never produces) it falls back to the left operand.
    pub open spec fn add(self, other: Model) -> Model
        decreases self,
    {
        match (self, other) {
            (Model::Scalar { value: x }, Model::Scalar { value: y }) => Model::scalar(x + y),
            (
                Model::Pair { tag, re, im },
                Model::Pair { re: re2, im: im2, .. },
            ) => Model::pair(tag, re.add(*re2), im.add(*im2)),
            (Model::Wrapped { inner }, Model::Wrapped { inner: inner2 }) => Model::wrapped(
                inner.add(*inner2),
            ),
            _ => self,
        }
    }

    /// Component-wise subtraction; same fallback as `add`.
    pub open spec fn sub(self, other: Model) -> Model
        decreases self,
    {
        match (self, other) {
            (Model::Scalar { value: x }, Model::Scalar { value: y }) => Model::scalar(x - y),
            (
                Model::Pair { tag, re, im },
                Model::Pair { re: re2, im: im2, .. },
            ) => Model::pair(tag, re.sub(*re2), im.sub(*im2)),
            (Model::Wrapped { inner }, Model::Wrapped { inner: inner2 }) => Model::wrapped(
                inner.sub(*inner2),
            ),
            _ => self,
        }
    }

    /// Component-wise negation.
    pub open spec fn neg(self) -> Model
        decreases self,
    {
        match self {
            Model::Scalar { value } => Model::scalar(-value),
            Model::Pair { tag, re, im } => Model::pair(tag, re.neg(), im.neg()),
            Model::Wrapped { inner } => Model::wrapped(inner.neg()),
        }
    }

    /// Conjugation: the identity on leaves, `(conj(a), -b)` on a doubled
    /// pair, and the identity on a wrapped value.
    pub open spec fn conjugate(self) -> Model
        decreases self,
    {
        match self {
            Model::Scalar { value } => Model::scalar(value),
            Model::Pair { tag, re, im } => Model::pair(tag, re.conjugate(), im.neg()),
            Model::Wrapped { inner } => Model::Wrapped { inner },
        }
    }

    /// The effect of squaring a generator with tag `t`, applied to `self`:
    /// negation for `Negative`, the identity for `Positive`, and the
    /// shape-preserving zero for `Null`.
    pub open spec fn applied_sign(self, t: Tag) -> Model {
        match t {
            Tag::Negative => self.neg(),
            Tag::Positive => self,
            Tag::Null => self.zero_like(),
        }
    }
}

pub proof fn lemma_height_neg(m: Model)
    ensures
        m.neg().height() == m.height(),
    decreases m,
{
    match m {
        Model::Scalar { .. } => {},
        Model::Pair { tag, re, im } => {
            lemma_height_neg(*re);
            lemma_height_neg(*im);
        },
        Model::Wrapped { inner } => {
            lemma_height_neg(*inner);
        },
    }
}

pub proof fn lemma_height_zero_like(m: Model)
    ensures
        m.zero_like().height() == m.height(),
    decreases m,
{
    match m {
        Model::Scalar { .. } => {},
        Model::Pair { tag, re, im } => {
            lemma_height_zero_like(*re);
            lemma_height_zero_like(*im);
        },
        Model::Wrapped { inner } => {
            lemma_height_zero_like(*inner);
        },
    }
}

pub proof fn lemma_height_conjugate(m: Model)
    ensures
        m.conjugate().height() == m.height(),
    decreases m,
{
    match m {
        Model::Scalar { .. } => {},
        Model::Pair { tag, re, im } => {
            lemma_height_conjugate(*re);
            lemma_height_neg(*im);
        },
        Model::Wrapped { .. } => {},
    }
}

pub proof fn lemma_height_applied_sign(t: Tag, m: Model)
    ensures
        m.applied_sign(t).height() == m.height(),
{
    match t {
        Tag::Negative => lemma_height_neg(m),
        Tag::Positive => {},
        Tag::Null => lemma_height_zero_like(m),
    }
}

pub proof fn lemma_height_add(a: Model, b: Model)
    ensures
        a.add(b).height() == a.height(),
    decreases a,
{
    match (a, b) {
        (Model::Pair { tag, re, im }, Model::Pair { re: re2, im: im2, .. }) => {
            lemma_height_add(*re, *re2);
            lemma_height_add(*im, *im2);
        },
        (Model::Wrapped { inner }, Model::Wrapped { inner: inner2 }) => {
            lemma_height_add(*inner, *inner2);
        },
        _ => {},
    }
}

impl Model {
    /// The Cayley-Dickson product.  On a doubled pair the rule is
    /// `(a,b)*(c,d) = (a*c + sign(conj(d)*b), d*a + b*conj(c))`, where `sign`
    /// is the generator-sign effect of this level's tag; a wrapped value
    /// multiplies component-wise, and leaves multiply as integers.  On trees
    /// of different constructors it falls back to the left operand.
    pub open spec fn mul(self, other: Model) -> Model
        decreases taller(self, other),
        via Self::mul_decreases
    {
        match (self, other) {
            (Model::Scalar { value: x }, Model::Scalar { value: y }) => Model::scalar(x * y),
            (Model::Pair { tag, re: a, im: b }, Model::Pair { re: c, im: d, .. }) => {
                let first = a.mul(*c).add(d.conjugate().mul(*b).applied_sign(tag));
                let second = d.mul(*a).add(b.mul(c.conjugate()));
                Model::pair(tag, first, second)
            },
            (Model::Wrapped { inner }, Model::Wrapped { inner: inner2 }) => Model::wrapped(
                inner.mul(*inner2),
            ),
            _ => self,
        }
    }

    #[via_fn]
    proof fn mul_decreases(self, other: Model) {
        match (self, other) {
            (Model::Pair { tag, re: a, im: b }, Model::Pair { re: c, im: d, .. }) => {
                lemma_height_conjugate(*d);
                lemma_height_conjugate(*c);
            },
            _ => {},
        }
    }
}

pub proof fn lemma_height_mul(a: Model, b: Model)
    ensures
        a.mul(b).height() <= taller(a, b),
    decreases taller(a, b),
{
    match (a, b) {
        (Model::Pair { tag, re: p, im: q }, Model::Pair { re: r, im: s, .. }) => {
            lemma_height_conjugate(*s);
            lemma_height_conjugate(*r);
            lemma_height_mul(*p, *r);
            lemma_height_mul(s.conjugate(), *q);
            lemma_height_mul(*s, *p);
            lemma_height_mul(*q, r.conjugate());
            lemma_height_applied_sign(tag, s.conjugate().mul(*q));
            lemma_height_add(p.mul(*r), s.conjugate().mul(*q).applied_sign(tag));
            lemma_height_add(s.mul(*p), q.mul(r.conjugate()));
        },
        (Model::Wrapped { inner }, Model::Wrapped { inner: inner2 }) => {
            lemma_height_mul(*inner, *inner2);
        },
        _ => {},
    }
}

impl Model {
    /// Division: on a doubled pair, multiply numerator and denominator by the
    /// denominator's conjugate and divide each numerator component by the
    /// scalar-slot component of the result; leaves divide by Rust's
    /// truncating integer division.
    pub open spec fn div(self, other: Model) -> Model
        decreases taller(self, other),
        via Self::div_decreases
    {
        match (self, other) {
            (Model::Scalar { value: x }, Model::Scalar { value: y }) => Model::scalar(
                tdiv(x, y),
            ),
            (Model::Pair { tag, re: a, im: b }, Model::Pair { .. }) => {
                let num = self.mul(other.conjugate());
                let den = other.mul(other.conjugate());
                match (num, den) {
                    (
                        Model::Pair { re: p, im: q, .. },
                        Model::Pair { re: n, .. },
                    ) => Model::pair(tag, p.div(*n), q.div(*n)),
                    _ => self,
                }
            },
            (Model::Wrapped { inner }, Model::Wrapped { inner: inner2 }) => Model::wrapped(
                inner.div(*inner2),
            ),
            _ => self,
        }
    }

    #[via_fn]
    proof fn div_decreases(self, other: Model) {
        match (self, other) {
            (Model::Pair { .. }, Model::Pair { .. }) => {
                lemma_height_conjugate(other);
                lemma_height_mul(self, other.conjugate());
                lemma_height_mul(other, other.conjugate());
            },
            _ => {},
        }
    }
}

impl Model {
    /// The negation of every leaf stays within `[lo, hi]`.
    pub open spec fn can_neg(self, lo: int, hi: int) -> bool
        decreases self,
    {
        match self {
            Model::Scalar { value } => in_range(lo, hi, -value),
            Model::Pair { re, im, .. } => re.can_neg(lo, hi) && im.can_neg(lo, hi),
            Model::Wrapped { inner } => inner.can_neg(lo, hi),
        }
    }

    /// Every leaf negated by conjugation stays within `[lo, hi]`.
    pub open spec fn can_conjugate(self, lo: int, hi: int) -> bool
        decreases self,
    {
        match self {
            Model::Scalar { .. } => true,
            Model::Pair { re, im, .. } => re.can_conjugate(lo, hi) && im.can_neg(lo, hi),
            Model::Wrapped { .. } => true,
        }
    }

    pub open spec fn can_apply_sign(self, t: Tag, lo: int, hi: int) -> bool {
        match t {
            Tag::Negative => self.can_neg(lo, hi),
            Tag::Positive => true,
            Tag::Null => true,
        }
    }

    /// Every leaf sum stays within `[lo, hi]`.
    pub open spec fn can_add(self, other: Model, lo: int, hi: int) -> bool
        decreases self,
    {
        match (self, other) {
            (Model::Scalar { value: x }, Model::Scalar { value: y }) => in_range(lo, hi, x + y),
            (Model::Pair { re, im, .. }, Model::Pair { re: re2, im: im2, .. }) => re.can_add(
                *re2,
                lo,
                hi,
            ) && im.can_add(*im2, lo, hi),
            (Model::Wrapped { inner }, Model::Wrapped { inner: inner2 }) => inner.can_add(
                *inner2,
                lo,
                hi,
            ),
            _ => true,
        }
    }

    /// Every leaf difference stays within `[lo, hi]`.
    pub open spec fn can_sub(self, other: Model, lo: int, hi: int) -> bool
        decreases self,
    {
        match (self, other) {
            (Model::Scalar { value: x }, Model::Scalar { value: y }) => in_range(lo, hi, x - y),
            (Model::Pair { re, im, .. }, Model::Pair { re: re2, im: im2, .. }) => re.can_sub(
                *re2,
                lo,
                hi,
            ) && im.can_sub(*im2, lo, hi),
            (Model::Wrapped { inner }, Model::Wrapped { inner: inner2 }) => inner.can_sub(
                *inner2,
                lo,
                hi,
            ),
            _ => true,
        }
    }

    /// Every intermediate value of the Cayley-Dickson product, in the order
    /// the product computes them, stays within `[lo, hi]`.
    pub open spec fn can_mul(self, other: Model, lo: int, hi: int) -> bool
        decreases taller(self, other),
        via Self::can_mul_decreases
    {
        match (self, other) {
            (Model::Scalar { value: x }, Model::Scalar { value: y }) => in_range(lo, hi, x * y),
            (Model::Pair { tag, re: a, im: b }, Model::Pair { re: c, im: d, .. }) => {
                let ac = a.mul(*c);
                let dcj = d.conjugate();
                let dcb = dcj.mul(*b);
                let sterm = dcb.applied_sign(tag);
                let da = d.mul(*a);
                let ccj = c.conjugate();
                let bcc = b.mul(ccj);
                &&& a.can_mul(*c, lo, hi)
                &&& d.can_conjugate(lo, hi)
                &&& dcj.can_mul(*b, lo, hi)
                &&& dcb.can_apply_sign(tag, lo, hi)
                &&& ac.can_add(sterm, lo, hi)
                &&& d.can_mul(*a, lo, hi)
                &&& c.can_conjugate(lo, hi)
                &&& b.can_mul(ccj, lo, hi)
                &&& da.can_add(bcc, lo, hi)
            },
            (Model::Wrapped { inner }, Model::Wrapped { inner: inner2 }) => inner.can_mul(
                *inner2,
                lo,
                hi,
            ),
            _ => true,
        }
    }

    #[via_fn]
    proof fn can_mul_decreases(self, other: Model, lo: int, hi: int) {
        match (self, other) {
            (Model::Pair { re: a, im: b, .. }, Model::Pair { re: c, im: d, .. }) => {
                lemma_height_conjugate(*d);
                lemma_height_conjugate(*c);
            },
            _ => {},
        }
    }

    /// Every intermediate value of division, in the order it computes them,
    /// stays within `[lo, hi]`, and no leaf divides by zero.
    pub open spec fn can_div(self, other: Model, lo: int, hi: int) -> bool
        decreases taller(self, other),
        via Self::can_div_decreases
    {
        match (self, other) {
            (Model::Scalar { value: x }, Model::Scalar { value: y }) => y != 0 && in_range(
                lo,
                hi,
                tdiv(x, y),
            ),
            (Model::Pair { .. }, Model::Pair { .. }) => {
                let num = self.mul(other.conjugate());
                let den = other.mul(other.conjugate());
                &&& other.can_conjugate(lo, hi)
                &&& self.can_mul(other.conjugate(), lo, hi)
                &&& other.can_mul(other.conjugate(), lo, hi)
                &&& match (num, den) {
                    (
                        Model::Pair { re: p, im: q, .. },
                        Model::Pair { re: n, .. },
                    ) => p.can_div(*n, lo, hi) && q.can_div(*n, lo, hi),
                    _ => true,
                }
            },
            (Model::Wrapped { inner }, Model::Wrapped { inner: inner2 }) => inner.can_div(
                *inner2,
                lo,
                hi,
            ),
            _ => true,
        }
    }

    #[via_fn]
    proof fn can_div_decreases(self, other: Model, lo: int, hi: int) {
        match (self, other) {
            (Model::Pair { .. }, Model::Pair { .. }) => {
                lemma_height_conjugate(other);
                lemma_height_mul(self, other.conjugate());
                lemma_height_mul(other, other.conjugate());
            },
            _ => {},
        }
    }
}

} // verus!
