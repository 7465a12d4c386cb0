//! The algebraic laws of the doubling construction, stated and proved over
//! the model trees that every contract of the library speaks of.
use vstd::prelude::*;

use crate::model::Model;
use crate::model::Tag;
use crate::model::lemma_height_conjugate;
use crate::model::taller;

verus! {

/// Negation is an involution.
pub proof fn lemma_neg_involution(m: Model)
    ensures
        m.neg().neg() == m,
    decreases m,
{
    match m {
        Model::Scalar { .. } => {},
        Model::Pair { tag, re, im } => {
            lemma_neg_involution(*re);
            lemma_neg_involution(*im);
        },
        Model::Wrapped { inner } => {
            lemma_neg_involution(*inner);
        },
    }
}

/// Conjugation is an involution: `conjugate(conjugate(x)) == x` for every
/// doubled-pair, wrapped, or bare value.
pub proof fn lemma_conjugate_involution(m: Model)
    ensures
        m.conjugate().conjugate() == m,
    decreases m,
{
    match m {
        Model::Scalar { .. } => {},
        Model::Pair { tag, re, im } => {
            lemma_conjugate_involution(*re);
            lemma_neg_involution(*im);
        },
        Model::Wrapped { .. } => {},
    }
}

pub proof fn lemma_shape_neg(m: Model)
    ensures
        m.neg().shape() == m.shape(),
    decreases m,
{
    match m {
        Model::Scalar { .. } => {},
        Model::Pair { tag, re, im } => {
            lemma_shape_neg(*re);
            lemma_shape_neg(*im);
        },
        Model::Wrapped { inner } => {
            lemma_shape_neg(*inner);
        },
    }
}

pub proof fn lemma_shape_zero_like(m: Model)
    ensures
        m.zero_like().shape() == m.shape(),
    decreases m,
{
    match m {
        Model::Scalar { .. } => {},
        Model::Pair { tag, re, im } => {
            lemma_shape_zero_like(*re);
            lemma_shape_zero_like(*im);
        },
        Model::Wrapped { inner } => {
            lemma_shape_zero_like(*inner);
        },
    }
}

pub proof fn lemma_shape_conjugate(m: Model)
    ensures
        m.conjugate().shape() == m.shape(),
    decreases m,
{
    match m {
        Model::Scalar { .. } => {},
        Model::Pair { tag, re, im } => {
            lemma_shape_conjugate(*re);
            lemma_shape_neg(*im);
        },
        Model::Wrapped { .. } => {},
    }
}

pub proof fn lemma_shape_applied_sign(t: Tag, m: Model)
    ensures
        m.applied_sign(t).shape() == m.shape(),
{
    match t {
        Tag::Negative => lemma_shape_neg(m),
        Tag::Positive => {},
        Tag::Null => lemma_shape_zero_like(m),
    }
}

pub proof fn lemma_shape_add(a: Model, b: Model)
    ensures
        a.add(b).shape() == a.shape(),
    decreases a,
{
    match (a, b) {
        (Model::Pair { re, im, .. }, Model::Pair { re: re2, im: im2, .. }) => {
            lemma_shape_add(*re, *re2);
            lemma_shape_add(*im, *im2);
        },
        (Model::Wrapped { inner }, Model::Wrapped { inner: inner2 }) => {
            lemma_shape_add(*inner, *inner2);
        },
        _ => {},
    }
}

/// Negation keeps level-wise uniformity.
pub proof fn lemma_uniform_neg(m: Model)
    requires
        m.uniform(),
    ensures
        m.neg().uniform(),
    decreases m,
{
    match m {
        Model::Scalar { .. } => {},
        Model::Pair { tag, re, im } => {
            lemma_uniform_neg(*re);
            lemma_uniform_neg(*im);
            lemma_shape_neg(*re);
            lemma_shape_neg(*im);
        },
        Model::Wrapped { inner } => {
            lemma_uniform_neg(*inner);
        },
    }
}

/// Conjugation keeps level-wise uniformity.
pub proof fn lemma_uniform_conjugate(m: Model)
    requires
        m.uniform(),
    ensures
        m.conjugate().uniform(),
    decreases m,
{
    match m {
        Model::Scalar { .. } => {},
        Model::Pair { tag, re, im } => {
            lemma_uniform_conjugate(*re);
            lemma_uniform_neg(*im);
            lemma_shape_conjugate(*re);
            lemma_shape_neg(*im);
        },
        Model::Wrapped { .. } => {},
    }
}

/// The product of two same-shaped, uniform values keeps their shape.
pub proof fn lemma_shape_mul(a: Model, b: Model)
    requires
        a.shape() == b.shape(),
        a.uniform(),
        b.uniform(),
    ensures
        a.mul(b).shape() == a.shape(),
    decreases taller(a, b),
{
    match (a, b) {
        (Model::Pair { tag, re: p, im: q }, Model::Pair { re: r, im: s, .. }) => {
            lemma_height_conjugate(*s);
            lemma_height_conjugate(*r);
            lemma_shape_conjugate(*s);
            lemma_shape_conjugate(*r);
            lemma_uniform_conjugate(*s);
            lemma_uniform_conjugate(*r);
            lemma_shape_mul(*p, *r);
            lemma_shape_mul(s.conjugate(), *q);
            lemma_shape_mul(*s, *p);
            lemma_shape_mul(*q, r.conjugate());
            lemma_shape_applied_sign(tag, s.conjugate().mul(*q));
            lemma_shape_add(p.mul(*r), s.conjugate().mul(*q).applied_sign(tag));
            lemma_shape_add(s.mul(*p), q.mul(r.conjugate()));
        },
        (Model::Wrapped { inner }, Model::Wrapped { inner: inner2 }) => {
            lemma_shape_mul(*inner, *inner2);
        },
        _ => {},
    }
}

/// The zero of an algebra is its own negation.
pub proof fn lemma_neg_zero_like(m: Model)
    ensures
        m.zero_like().neg() == m.zero_like(),
    decreases m,
{
    match m {
        Model::Scalar { .. } => {},
        Model::Pair { tag, re, im } => {
            lemma_neg_zero_like(*re);
            lemma_neg_zero_like(*im);
        },
        Model::Wrapped { inner } => {
            lemma_neg_zero_like(*inner);
        },
    }
}

/// The zero of an algebra is its own conjugate.
pub proof fn lemma_conjugate_zero_like(m: Model)
    ensures
        m.zero_like().conjugate() == m.zero_like(),
    decreases m,
{
    match m {
        Model::Scalar { .. } => {},
        Model::Pair { tag, re, im } => {
            lemma_conjugate_zero_like(*re);
            lemma_neg_zero_like(*im);
        },
        Model::Wrapped { .. } => {},
    }
}

/// Negation does not change which algebra's zero a value maps to.
pub proof fn lemma_zero_like_neg(m: Model)
    ensures
        m.neg().zero_like() == m.zero_like(),
    decreases m,
{
    match m {
        Model::Scalar { .. } => {},
        Model::Pair { tag, re, im } => {
            lemma_zero_like_neg(*re);
            lemma_zero_like_neg(*im);
        },
        Model::Wrapped { inner } => {
            lemma_zero_like_neg(*inner);
        },
    }
}

/// Conjugation does not change which algebra's zero a value maps to.
pub proof fn lemma_zero_like_conjugate(m: Model)
    ensures
        m.conjugate().zero_like() == m.zero_like(),
    decreases m,
{
    match m {
        Model::Scalar { .. } => {},
        Model::Pair { tag, re, im } => {
            lemma_zero_like_conjugate(*re);
            lemma_zero_like_neg(*im);
        },
        Model::Wrapped { .. } => {},
    }
}

/// Conjugation and negation commute.
pub proof fn lemma_conjugate_neg(m: Model)
    ensures
        m.neg().conjugate() == m.conjugate().neg(),
    decreases m,
{
    match m {
        Model::Scalar { .. } => {},
        Model::Pair { tag, re, im } => {
            lemma_conjugate_neg(*re);
        },
        Model::Wrapped { .. } => {},
    }
}

/// Conjugation distributes over addition.
pub proof fn lemma_conjugate_add(a: Model, b: Model)
    ensures
        a.add(b).conjugate() == a.conjugate().add(b.conjugate()),
    decreases a,
{
    match (a, b) {
        (Model::Pair { re, im, .. }, Model::Pair { re: re2, im: im2, .. }) => {
            lemma_conjugate_add(*re, *re2);
            lemma_neg_add(*im, *im2);
        },
        _ => {},
    }
}

/// Negation distributes over addition.
pub proof fn lemma_neg_add(a: Model, b: Model)
    ensures
        a.add(b).neg() == a.neg().add(b.neg()),
    decreases a,
{
    match (a, b) {
        (Model::Pair { re, im, .. }, Model::Pair { re: re2, im: im2, .. }) => {
            lemma_neg_add(*re, *re2);
            lemma_neg_add(*im, *im2);
        },
        (Model::Wrapped { inner }, Model::Wrapped { inner: inner2 }) => {
            lemma_neg_add(*inner, *inner2);
        },
        _ => {},
    }
}

/// Addition of same-shaped values is commutative.
pub proof fn lemma_add_comm(a: Model, b: Model)
    requires
        a.shape() == b.shape(),
    ensures
        a.add(b) == b.add(a),
    decreases a,
{
    match (a, b) {
        (Model::Pair { re, im, .. }, Model::Pair { re: re2, im: im2, .. }) => {
            lemma_add_comm(*re, *re2);
            lemma_add_comm(*im, *im2);
        },
        (Model::Wrapped { inner }, Model::Wrapped { inner: inner2 }) => {
            lemma_add_comm(*inner, *inner2);
        },
        _ => {},
    }
}

/// The generator-sign effect commutes with negation.
pub proof fn lemma_applied_sign_neg(t: Tag, m: Model)
    ensures
        m.neg().applied_sign(t) == m.applied_sign(t).neg(),
{
    match t {
        Tag::Negative => {},
        Tag::Positive => {},
        Tag::Null => {
            lemma_zero_like_neg(m);
            lemma_neg_zero_like(m);
        },
    }
}

/// The generator-sign effect commutes with conjugation.
pub proof fn lemma_applied_sign_conjugate(t: Tag, m: Model)
    ensures
        m.conjugate().applied_sign(t) == m.applied_sign(t).conjugate(),
{
    match t {
        Tag::Negative => {
            lemma_conjugate_neg(m);
        },
        Tag::Positive => {},
        Tag::Null => {
            lemma_zero_like_conjugate(m);
            lemma_conjugate_zero_like(m);
        },
    }
}

/// Negation keeps a tree free of opacity wrappers.
pub proof fn lemma_wrap_free_neg(m: Model)
    requires
        m.wrap_free(),
    ensures
        m.neg().wrap_free(),
    decreases m,
{
    match m {
        Model::Scalar { .. } => {},
        Model::Pair { tag, re, im } => {
            lemma_wrap_free_neg(*re);
            lemma_wrap_free_neg(*im);
        },
        Model::Wrapped { .. } => {},
    }
}

/// Conjugation keeps a tree free of opacity wrappers.
pub proof fn lemma_wrap_free_conjugate(m: Model)
    requires
        m.wrap_free(),
    ensures
        m.conjugate().wrap_free(),
    decreases m,
{
    match m {
        Model::Scalar { .. } => {},
        Model::Pair { tag, re, im } => {
            lemma_wrap_free_conjugate(*re);
            lemma_wrap_free_neg(*im);
        },
        Model::Wrapped { .. } => {},
    }
}

/// Negating either factor of a product of same-shaped, uniform values
/// negates the product.
pub proof fn lemma_mul_neg(a: Model, b: Model)
    requires
        a.shape() == b.shape(),
        a.uniform(),
        b.uniform(),
    ensures
        a.neg().mul(b) == a.mul(b).neg(),
        a.mul(b.neg()) == a.mul(b).neg(),
    decreases taller(a, b),
{
    match (a, b) {
        (Model::Scalar { value: x }, Model::Scalar { value: y }) => {
            assert((-x) * y == -(x * y)) by (nonlinear_arith);
            assert(x * (-y) == -(x * y)) by (nonlinear_arith);
        },
        (Model::Pair { tag, re: p, im: q }, Model::Pair { re: r, im: s, .. }) => {
            lemma_height_conjugate(*s);
            lemma_height_conjugate(*r);
            lemma_shape_conjugate(*s);
            lemma_shape_conjugate(*r);
            lemma_uniform_conjugate(*s);
            lemma_uniform_conjugate(*r);
            lemma_mul_neg(*p, *r);
            lemma_mul_neg(s.conjugate(), *q);
            lemma_mul_neg(*s, *p);
            lemma_mul_neg(*q, r.conjugate());
            lemma_conjugate_neg(*s);
            lemma_conjugate_neg(*r);
            let sq = s.conjugate().mul(*q);
            lemma_applied_sign_neg(tag, sq);
            lemma_neg_add(p.mul(*r), sq.applied_sign(tag));
            lemma_neg_add(s.mul(*p), q.mul(r.conjugate()));
            assert(a.neg() == Model::pair(tag, p.neg(), q.neg()));
            assert(b.neg() == Model::pair(tag, r.neg(), s.neg()));
            assert(p.neg().mul(*r) == p.mul(*r).neg());
            assert(s.conjugate().mul(q.neg()) == sq.neg());
            assert(sq.neg().applied_sign(tag) == sq.applied_sign(tag).neg());
            assert(s.mul(p.neg()) == s.mul(*p).neg());
            assert(q.neg().mul(r.conjugate()) == q.mul(r.conjugate()).neg());
            assert(a.neg().mul(b) == Model::pair(
                tag,
                p.neg().mul(*r).add(s.conjugate().mul(q.neg()).applied_sign(tag)),
                s.mul(p.neg()).add(q.neg().mul(r.conjugate())),
            ));
            assert(a.mul(b).neg() == Model::pair(
                tag,
                p.mul(*r).neg().add(sq.applied_sign(tag).neg()),
                s.mul(*p).neg().add(q.mul(r.conjugate()).neg()),
            ));
            assert(p.mul(r.neg()) == p.mul(*r).neg());
            assert(s.neg().conjugate() == s.conjugate().neg());
            assert(s.conjugate().neg().mul(*q) == sq.neg());
            assert(s.neg().mul(*p) == s.mul(*p).neg());
            assert(q.mul(r.neg().conjugate()) == q.mul(r.conjugate().neg()));
            assert(q.mul(r.conjugate().neg()) == q.mul(r.conjugate()).neg());
            assert(a.mul(b.neg()) == Model::pair(
                tag,
                p.mul(r.neg()).add(s.neg().conjugate().mul(*q).applied_sign(tag)),
                s.neg().mul(*p).add(q.mul(r.neg().conjugate())),
            ));
        },
        (Model::Wrapped { inner }, Model::Wrapped { inner: inner2 }) => {
            lemma_mul_neg(*inner, *inner2);
        },
        _ => {},
    }
}

/// Conjugation is an anti-automorphism of every wrapper-free doubled
/// algebra: `conjugate(a*b) == conjugate(b)*conjugate(a)`.  An opacity
/// wrapper around a non-commutative ring breaks the law, so wrapped trees
/// are excluded.
pub proof fn lemma_conjugate_antiautomorphism(a: Model, b: Model)
    requires
        a.shape() == b.shape(),
        a.uniform(),
        b.uniform(),
        a.wrap_free(),
        b.wrap_free(),
    ensures
        a.mul(b).conjugate() == b.conjugate().mul(a.conjugate()),
    decreases taller(a, b),
{
    match (a, b) {
        (Model::Scalar { value: x }, Model::Scalar { value: y }) => {
            assert(x * y == y * x) by (nonlinear_arith);
        },
        (Model::Pair { tag, re: p, im: q }, Model::Pair { re: r, im: s, .. }) => {
            lemma_height_conjugate(*s);
            lemma_height_conjugate(*r);
            lemma_shape_conjugate(*s);
            lemma_shape_conjugate(*r);
            lemma_shape_neg(*s);
            lemma_shape_neg(*q);
            lemma_uniform_conjugate(*s);
            lemma_uniform_conjugate(*r);
            lemma_uniform_conjugate(*q);
            lemma_uniform_neg(*s);
            lemma_wrap_free_conjugate(*s);
            lemma_wrap_free_conjugate(*q);
            // First components.
            lemma_conjugate_add(p.mul(*r), s.conjugate().mul(*q).applied_sign(tag));
            lemma_conjugate_antiautomorphism(*p, *r);
            lemma_applied_sign_conjugate(tag, s.conjugate().mul(*q));
            lemma_conjugate_antiautomorphism(s.conjugate(), *q);
            lemma_conjugate_involution(*s);
            lemma_conjugate_neg(*q);
            lemma_mul_neg(q.conjugate(), s.neg());
            lemma_mul_neg(q.conjugate(), *s);
            lemma_neg_involution(q.conjugate().mul(*s));
            // Second components.
            lemma_neg_add(s.mul(*p), q.mul(r.conjugate()));
            lemma_mul_neg(*q, r.conjugate());
            lemma_conjugate_involution(*p);
            lemma_mul_neg(*s, *p);
            lemma_shape_mul(*s, *p);
            lemma_shape_mul(*q, r.conjugate());
            lemma_shape_neg(s.mul(*p));
            lemma_shape_neg(q.mul(r.conjugate()));
            lemma_add_comm(s.mul(*p).neg(), q.mul(r.conjugate()).neg());
        },
        _ => {},
    }
}

} // verus!
