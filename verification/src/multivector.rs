//! The dense multivector algebra of an arbitrary signature: one ring
//! coefficient per basis blade, multiplied through the blade product.
use vstd::prelude::*;

use crate::blade::Signature;
use crate::blade::lemma_blade_self_product;
use crate::blade::lemma_scalar_blade_product;
use crate::blade::neg_mask;
use crate::blade::null_mask;
use crate::blade::pc;
use crate::blade::spec_blade_product;

verus! {

pub open spec fn in_i64(v: int) -> bool {
    i64::MIN <= v <= i64::MAX
}

pub open spec fn int_view(v: Seq<i64>) -> Seq<int> {
    Seq::new(v.len(), |k: int| v[k] as int)
}

/// The first step of the product: `a` scaled by `b`'s scalar coefficient,
/// which seeds every `blade * scalar` contribution.
pub open spec fn seed(a: Seq<int>, b0: int) -> Seq<int> {
    Seq::new(a.len(), |k: int| a[k] * b0)
}

/// One accumulation step: the contribution of `a[i] * b[j]`, added to or
/// subtracted from the target blade's slot, or dropped when the blade
/// product annihilates.
pub open spec fn step(
    s: Signature,
    a: Seq<int>,
    b: Seq<int>,
    acc: Seq<int>,
    j: int,
    i: int,
) -> Seq<int> {
    match spec_blade_product(s, i as usize, j as usize) {
        Option::None => acc,
        Option::Some((neg, t)) => acc.update(
            t as int,
            if neg {
                acc[t as int] - a[i] * b[j]
            } else {
                acc[t as int] + a[i] * b[j]
            },
        ),
    }
}

/// The accumulator after the contributions of column `j` for rows `0..i`,
/// starting from `start`.
pub open spec fn inner(
    s: Signature,
    a: Seq<int>,
    b: Seq<int>,
    start: Seq<int>,
    j: int,
    i: int,
) -> Seq<int>
    decreases i,
{
    if i <= 0 {
        start
    } else {
        step(s, a, b, inner(s, a, b, start, j, i - 1), j, i - 1)
    }
}

/// The accumulator after the seed and the full columns `1..j`.
pub open spec fn outer(s: Signature, a: Seq<int>, b: Seq<int>, j: int) -> Seq<int>
    decreases j,
{
    if j <= 1 {
        seed(a, b[0])
    } else {
        inner(s, a, b, outer(s, a, b, j - 1), j - 1, a.len() as int)
    }
}

/// The product of two multivector coefficient sequences under signature
/// `s`: the seed by `b`'s scalar slot, then every other pair's
/// contribution through the blade product.
pub open spec fn spec_mul(s: Signature, a: Seq<int>, b: Seq<int>) -> Seq<int> {
    outer(s, a, b, b.len() as int)
}

pub open spec fn seed_fits(a: Seq<int>, b0: int) -> bool {
    forall|k: int| 0 <= k < a.len() ==> in_i64(#[trigger] a[k] * b0)
}

pub open spec fn step_fits(
    s: Signature,
    a: Seq<int>,
    b: Seq<int>,
    acc: Seq<int>,
    j: int,
    i: int,
) -> bool {
    match spec_blade_product(s, i as usize, j as usize) {
        Option::None => true,
        Option::Some((neg, t)) => in_i64(a[i] * b[j]) && in_i64(
            if neg {
                acc[t as int] - a[i] * b[j]
            } else {
                acc[t as int] + a[i] * b[j]
            },
        ),
    }
}

pub open spec fn inner_fits(
    s: Signature,
    a: Seq<int>,
    b: Seq<int>,
    start: Seq<int>,
    j: int,
    i: int,
) -> bool
    decreases i,
{
    i <= 0 || (inner_fits(s, a, b, start, j, i - 1) && step_fits(
        s,
        a,
        b,
        inner(s, a, b, start, j, i - 1),
        j,
        i - 1,
    ))
}

pub open spec fn outer_fits(s: Signature, a: Seq<int>, b: Seq<int>, j: int) -> bool
    decreases j,
{
    if j <= 1 {
        seed_fits(a, b[0])
    } else {
        outer_fits(s, a, b, j - 1) && inner_fits(
            s,
            a,
            b,
            outer(s, a, b, j - 1),
            j - 1,
            a.len() as int,
        )
    }
}

/// Every intermediate coefficient of the product stays within `i64`.
pub open spec fn spec_mul_fits(s: Signature, a: Seq<int>, b: Seq<int>) -> bool {
    outer_fits(s, a, b, b.len() as int)
}

proof fn lemma_outer_fits_down(s: Signature, a: Seq<int>, b: Seq<int>, hi: int, lo: int)
    requires
        outer_fits(s, a, b, hi),
        lo <= hi,
    ensures
        outer_fits(s, a, b, lo),
    decreases hi - lo,
{
    if lo < hi && hi > 1 {
        lemma_outer_fits_down(s, a, b, hi - 1, lo);
    }
}

proof fn lemma_inner_fits_down(
    s: Signature,
    a: Seq<int>,
    b: Seq<int>,
    start: Seq<int>,
    j: int,
    hi: int,
    lo: int,
)
    requires
        inner_fits(s, a, b, start, j, hi),
        lo <= hi,
    ensures
        inner_fits(s, a, b, start, j, lo),
    decreases hi - lo,
{
    if lo < hi && hi > 0 {
        lemma_inner_fits_down(s, a, b, start, j, hi - 1, lo);
    }
}

/// Under the signature with one negative generator -- the complex numbers --
/// the dense blade algebra computes exactly the elliptic doubling rule:
/// `(a0, a1) * (b0, b1) = (a0*b0 - a1*b1, a1*b0 + a0*b1)`.  The pairwise
/// doubling engine and the bitmask product agree on this algebra.
pub proof fn lemma_complex_signature_matches_doubling(s: Signature, a: Seq<int>, b: Seq<int>)
    requires
        s.wf(),
        s.total() == 1,
        s.negative() == 1,
        a.len() == 2,
        b.len() == 2,
    ensures
        spec_mul(s, a, b) =~= seq![a[0] * b[0] - a[1] * b[1], a[1] * b[0] + a[0] * b[1]],
{
    assert(((1usize << 1u32) - 1) as usize == 1usize) by (bit_vector);
    assert(1usize & !1usize == 0usize) by (bit_vector);
    assert(1usize & 1usize & 1usize == 1usize) by (bit_vector);
    assert(1usize & 1usize == 1usize) by (bit_vector);
    assert(1usize ^ 1usize == 0usize) by (bit_vector);
    assert((1usize >> 0u32) & 1 == 1) by (bit_vector);
    assert(1usize & 0usize == 0usize) by (bit_vector);
    assert(null_mask(s) == 0usize);
    assert(neg_mask(s) == 1usize);
    lemma_scalar_blade_product(s, 1);
    assert(spec_blade_product(s, 0, 1) == Some((false, 1usize)));
    lemma_blade_self_product(s, 1);
    assert(pc(1usize, 1) == 1) by {
        reveal_with_fuel(pc, 2);
    }
    assert(spec_blade_product(s, 1, 1) == Some((true, 0usize)));
    reveal_with_fuel(outer, 3);
    reveal_with_fuel(inner, 4);
    let sd = seed(a, b[0]);
    assert(sd.len() == 2);
    assert(sd[0] == a[0] * b[0]);
    assert(sd[1] == a[1] * b[0]);
    assert(outer(s, a, b, 1) == sd);
    let after0 = step(s, a, b, sd, 1, 0);
    assert(after0 =~= sd.update(1, a[1] * b[0] + a[0] * b[1]));
    let after1 = step(s, a, b, after0, 1, 1);
    assert(after1 =~= after0.update(0, a[0] * b[0] - a[1] * b[1]));
    assert(spec_mul(s, a, b) == after1);
}

/// A dense multivector: a signature and one coefficient per basis blade.
#[derive(Debug, PartialEq, Eq)]
pub struct Multivector {
    sig: Signature,
    coeffs: Vec<i64>,
}

impl Multivector {
    pub closed spec fn sig(&self) -> Signature {
        self.sig
    }

    pub closed spec fn coeffs(&self) -> Seq<int> {
        int_view(self.coeffs@)
    }

    pub open spec fn wf(&self) -> bool {
        self.sig().wf() && self.coeffs().len() == (1usize << self.sig().total())
    }

    /// Builds a multivector from its coefficients, one per blade index;
    /// a vector whose length is not the signature's blade count is
    /// rejected.
    pub fn from_coeffs(sig: Signature, coeffs: Vec<i64>) -> (r: Option<Multivector>)
        requires
            sig.wf(),
        ensures
            r is Some <==> coeffs@.len() == (1usize << sig.total()),
            r matches Some(m) ==> m.wf() && m.sig() == sig && m.coeffs() == int_view(coeffs@),
    {
        if coeffs.len() == sig.blade_count() {
            Some(Multivector { sig, coeffs })
        } else {
            None
        }
    }

    /// The coefficient of one basis blade.
    pub fn coefficient(&self, blade: usize) -> (r: i64)
        requires
            self.wf(),
            blade < (1usize << self.sig().total()),
        ensures
            r as int == self.coeffs()[blade as int],
    {
        self.coeffs[blade]
    }

    /// The zero multivector of a signature.
    pub fn zero(sig: Signature) -> (r: Multivector)
        requires
            sig.wf(),
        ensures
            r.wf(),
            r.sig() == sig,
            r.coeffs() =~= Seq::new((1usize << sig.total()) as nat, |k: int| 0int),
    {
        let n = sig.blade_count();
        let mut coeffs: Vec<i64> = Vec::new();
        let mut k: usize = 0;
        while k < n
            invariant
                k <= n,
                coeffs@.len() == k,
                forall|t: int| 0 <= t < k ==> coeffs@[t] == 0i64,
            decreases n - k,
        {
            coeffs.push(0);
            k = k + 1;
        }
        Multivector { sig, coeffs }
    }

    /// The multiplicative identity of a signature: one on the scalar
    /// blade, zero elsewhere.
    pub fn one(sig: Signature) -> (r: Multivector)
        requires
            sig.wf(),
        ensures
            r.wf(),
            r.sig() == sig,
            r.coeffs() =~= Seq::new(
                (1usize << sig.total()) as nat,
                |k: int| if k == 0 {
                    1int
                } else {
                    0int
                },
            ),
    {
        let n = sig.blade_count();
        proof {
            assert(forall|k: u32| k < 32 ==> (1usize << k) >= 1) by (bit_vector);
        }
        let mut coeffs: Vec<i64> = Vec::new();
        coeffs.push(1);
        let mut k: usize = 1;
        while k < n
            invariant
                1 <= k <= n,
                coeffs@.len() == k,
                coeffs@[0] == 1i64,
                forall|t: int| 1 <= t < k ==> coeffs@[t] == 0i64,
            decreases n - k,
        {
            coeffs.push(0);
            k = k + 1;
        }
        Multivector { sig, coeffs }
    }

    /// Component-wise addition of two multivectors of one signature.
    pub fn add(&self, other: &Multivector) -> (r: Multivector)
        requires
            self.wf(),
            other.wf(),
            self.sig() == other.sig(),
            forall|k: int|
                0 <= k < self.coeffs().len() ==> in_i64(
                    #[trigger] self.coeffs()[k] + other.coeffs()[k],
                ),
        ensures
            r.wf(),
            r.sig() == self.sig(),
            r.coeffs() =~= Seq::new(
                self.coeffs().len(),
                |k: int| self.coeffs()[k] + other.coeffs()[k],
            ),
    {
        let n = self.coeffs.len();
        let mut coeffs: Vec<i64> = Vec::new();
        let mut k: usize = 0;
        while k < n
            invariant
                k <= n,
                n == self.coeffs@.len(),
                n == other.coeffs@.len(),
                coeffs@.len() == k,
                forall|k2: int|
                    0 <= k2 < n ==> in_i64(#[trigger] self.coeffs()[k2] + other.coeffs()[k2]),
                forall|t: int|
                    0 <= t < k ==> coeffs@[t] as int == self.coeffs()[t] + other.coeffs()[t],
            decreases n - k,
        {
            proof {
                assert(self.coeffs()[k as int] == self.coeffs@[k as int] as int);
                assert(other.coeffs()[k as int] == other.coeffs@[k as int] as int);
            }
            coeffs.push(self.coeffs[k] + other.coeffs[k]);
            k = k + 1;
        }
        Multivector { sig: self.sig, coeffs }
    }

    /// The product of two multivectors of one signature: `self` scaled by
    /// `other`'s scalar coefficient, then, for every other blade pair, the
    /// signed contribution that the blade product dictates, skipping
    /// annihilated pairs.
    pub fn mul(&self, other: &Multivector) -> (r: Multivector)
        requires
            self.wf(),
            other.wf(),
            self.sig() == other.sig(),
            spec_mul_fits(self.sig(), self.coeffs(), other.coeffs()),
        ensures
            r.wf(),
            r.sig() == self.sig(),
            r.coeffs() == spec_mul(self.sig(), self.coeffs(), other.coeffs()),
    {
        let ghost s = self.sig();
        let ghost av = self.coeffs();
        let ghost bv = other.coeffs();
        let ghost tt = s.total();
        let n = self.coeffs.len();
        proof {
            assert(forall|k: u32| k < 32 ==> (1usize << k) >= 1) by (bit_vector);
            lemma_outer_fits_down(s, av, bv, bv.len() as int, 1);
            assert(bv[0] == other.coeffs@[0] as int);
        }
        let b0 = other.coeffs[0];
        let mut out: Vec<i64> = Vec::new();
        let mut k: usize = 0;
        while k < n
            invariant
                k <= n,
                n == av.len(),
                n == self.coeffs@.len(),
                av == self.coeffs(),
                seed_fits(av, b0 as int),
                out@.len() == k,
                forall|t: int| 0 <= t < k ==> out@[t] as int == av[t] * (b0 as int),
            decreases n - k,
        {
            proof {
                assert(av[k as int] == self.coeffs@[k as int] as int);
            }
            out.push(self.coeffs[k] * b0);
            k = k + 1;
        }
        proof {
            assert(int_view(out@) =~= seed(av, bv[0]));
        }
        let mut j: usize = 1;
        while j < n
            invariant
                1 <= j <= n,
                n == av.len(),
                n == bv.len(),
                n == self.coeffs@.len(),
                n == other.coeffs@.len(),
                n == (1usize << tt),
                tt == s.total(),
                s == self.sig(),
                s == self.sig,
                s.wf(),
                av == self.coeffs(),
                bv == other.coeffs(),
                spec_mul_fits(s, av, bv),
                out@.len() == n,
                int_view(out@) == outer(s, av, bv, j as int),
            decreases n - j,
        {
            let ghost start = outer(s, av, bv, j as int);
            proof {
                lemma_outer_fits_down(s, av, bv, bv.len() as int, j as int + 1);
            }
            let mut i: usize = 0;
            while i < n
                invariant
                    i <= n,
                    1 <= j < n,
                    n == av.len(),
                    n == bv.len(),
                    n == self.coeffs@.len(),
                    n == other.coeffs@.len(),
                    n == (1usize << tt),
                    tt == s.total(),
                    s == self.sig(),
                    s == self.sig,
                    s.wf(),
                    av == self.coeffs(),
                    bv == other.coeffs(),
                    start == outer(s, av, bv, j as int),
                    inner_fits(s, av, bv, start, j as int, n as int),
                    out@.len() == n,
                    int_view(out@) == inner(s, av, bv, start, j as int, i as int),
                decreases n - i,
            {
                proof {
                    lemma_inner_fits_down(s, av, bv, start, j as int, n as int, i as int + 1);
                    assert(av[i as int] == self.coeffs@[i as int] as int);
                    assert(bv[j as int] == other.coeffs@[j as int] as int);
                }
                match self.sig.blade_product(i, j) {
                    Option::None => {},
                    Option::Some((neg, t)) => {
                        proof {
                            assert(i < (1usize << tt) && j < (1usize << tt) ==> (i ^ j) < (
                            1usize << tt)) by (bit_vector);
                            assert(int_view(out@)[t as int] == out@[t as int] as int);
                        }
                        let p = self.coeffs[i] * other.coeffs[j];
                        if neg {
                            out[t] = out[t] - p;
                        } else {
                            out[t] = out[t] + p;
                        }
                    },
                }
                proof {
                    assert(int_view(out@) =~= inner(s, av, bv, start, j as int, i as int + 1));
                }
                i = i + 1;
            }
            j = j + 1;
            proof {
                assert(int_view(out@) == outer(s, av, bv, j as int));
            }
        }
        proof {
            assert(int_view(out@) == spec_mul(s, av, bv));
        }
        Multivector { sig: self.sig, coeffs: out }
    }
}

} // verus!
