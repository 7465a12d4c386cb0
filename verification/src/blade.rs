//! The basis-blade product of an arbitrary-signature algebra.
//!
//! A basis blade is a bitmask over the generators: bit `g` set means
//! generator `g` participates.  Multiplying two blades either annihilates
//! (a null generator squared) or yields the symmetric-difference blade with
//! a sign, the parity of three counts: one flip per negative generator
//! squared, the transpositions that restore the left blade's canonical
//! order, and the transpositions that merge the two generator sequences.
use vstd::arithmetic::div_mod::lemma_mod_multiples_vanish;
use vstd::prelude::*;

verus! {

/// The largest generator count an algebra may declare; it keeps every blade
/// index, mask and coefficient-table length comfortably inside `usize`.
pub const MAX_GENERATORS: u32 = 16;

/// An algebra signature: how many generators there are in total, and how
/// many of them square to `-1` and to `+1`; the rest square to `0`.
/// A signature whose counts exceed its total is rejected at construction
/// and cannot be represented.
#[derive(Clone, Copy, Debug, PartialEq, Eq, Structural)]
pub struct Signature {
    total: u32,
    negative: u32,
    positive: u32,
}

impl Signature {
    /// The number of generators.
    pub closed spec fn total(&self) -> u32 {
        self.total
    }

    /// How many generators square to `-1`.
    pub closed spec fn negative(&self) -> u32 {
        self.negative
    }

    /// How many generators square to `+1`.
    pub closed spec fn positive(&self) -> u32 {
        self.positive
    }

    pub open spec fn wf(&self) -> bool {
        self.negative() + self.positive() <= self.total() && self.total() <= MAX_GENERATORS
    }

    /// Builds a signature; counts that exceed the total, or a total beyond
    /// `MAX_GENERATORS`, are rejected.
    pub fn new(total: u32, negative: u32, positive: u32) -> (r: Option<Signature>)
        ensures
            r is Some <==> (negative + positive <= total && total <= MAX_GENERATORS),
            r matches Some(s) ==> s.total() == total && s.negative() == negative && s.positive()
                == positive && s.wf(),
    {
        if total <= MAX_GENERATORS && negative <= total && positive <= total - negative {
            Some(Signature { total, negative, positive })
        } else {
            None
        }
    }

    /// The number of generators, as a value.
    pub fn generators(&self) -> (r: u32)
        ensures
            r == self.total(),
    {
        self.total
    }

    /// The number of basis blades: two to the number of generators.
    pub fn blade_count(&self) -> (r: usize)
        requires
            self.wf(),
        ensures
            r == (1usize << self.total()),
    {
        1usize << self.total
    }
}

/// The mask of the low `k` generator bits.
pub open spec fn low_mask(k: u32) -> usize {
    ((1usize << k) - 1) as usize
}

/// The mask of the generators that square to `-1`.
pub open spec fn neg_mask(s: Signature) -> usize {
    low_mask(s.negative())
}

/// The mask of the generators that square to `0`.
pub open spec fn null_mask(s: Signature) -> usize {
    low_mask(s.total()) & !low_mask((s.negative() + s.positive()) as u32)
}

/// Whether bit `b` of `x` is set.
pub open spec fn bit(x: usize, b: u32) -> bool {
    (x >> b) & 1 == 1
}

/// How many of the low `k` bits of `x` are set.
pub open spec fn pc(x: usize, k: u32) -> nat
    decreases k,
{
    if k == 0 {
        0
    } else {
        pc(x, (k - 1) as u32) + if bit(x, (k - 1) as u32) {
            1nat
        } else {
            0nat
        }
    }
}

/// How many pairs of generators, one from blade `i` and one from blade `j`,
/// stand in descending order: the transpositions that merge the two
/// generator sequences, counted over the low `k` bits.
pub open spec fn inv(i: usize, j: usize, k: u32) -> nat
    decreases k,
{
    if k == 0 {
        0
    } else {
        inv(i, j, (k - 1) as u32) + if bit(i, (k - 1) as u32) {
            pc(j, (k - 1) as u32)
        } else {
            0nat
        }
    }
}

/// The number of transpositions that reverse a sequence of `n` generators:
/// `n` choose two.
pub open spec fn choose2(n: nat) -> nat
    decreases n,
{
    if n == 0 {
        0
    } else {
        choose2((n - 1) as nat) + ((n - 1) as nat)
    }
}

/// The three sign contributions of the product of blades `i` and `j`:
/// negative generators squared, the reversal of the left blade's canonical
/// order, and the merge transpositions.
pub open spec fn blade_sign_count(s: Signature, i: usize, j: usize) -> nat {
    pc(i & j & neg_mask(s), s.total()) + choose2(pc(i, s.total())) + inv(i, j, s.total())
}

/// Whether the product of blades `i` and `j` carries a minus sign.
pub open spec fn blade_sign_is_negative(s: Signature, i: usize, j: usize) -> bool {
    blade_sign_count(s, i, j) % 2 == 1
}

/// The product of basis blades `i` and `j` under signature `s`: `None` when
/// a null generator appears in both (the product is zero), otherwise the
/// sign and the symmetric-difference blade.
pub open spec fn spec_blade_product(s: Signature, i: usize, j: usize) -> Option<(bool, usize)> {
    if i & j & null_mask(s) != 0 {
        None
    } else {
        Some((blade_sign_is_negative(s, i, j), i ^ j))
    }
}

/// Counts the set bits of `x` below bit `k`.
fn popcount_below(x: usize, k: u32) -> (r: u32)
    requires
        k <= 32,
    ensures
        r == pc(x, k),
        r <= k,
{
    let mut c: u32 = 0;
    let mut b: u32 = 0;
    while b < k
        invariant
            b <= k,
            k <= 32,
            c == pc(x, b),
            c <= b,
        decreases k - b,
    {
        if (x >> b) & 1 == 1 {
            c = c + 1;
        }
        b = b + 1;
    }
    c
}

/// Counts the descending pairs between blades `i` and `j` below bit `k`.
fn inversions_below(i: usize, j: usize, k: u32) -> (r: u32)
    requires
        k <= 32,
    ensures
        r == inv(i, j, k),
        r <= k * 64,
{
    let mut c: u32 = 0;
    let mut b: u32 = 0;
    while b < k
        invariant
            b <= k,
            k <= 32,
            c == inv(i, j, b),
            c <= b * 64,
        decreases k - b,
    {
        if (i >> b) & 1 == 1 {
            c = c + popcount_below(j, b);
        }
        b = b + 1;
    }
    c
}

/// Computes `n` choose two.
fn choose2_of(n: u32) -> (r: u32)
    requires
        n <= 64,
    ensures
        r == choose2(n as nat),
        r <= n * 64,
{
    let mut c: u32 = 0;
    let mut t: u32 = 0;
    while t < n
        invariant
            t <= n,
            n <= 64,
            c == choose2(t as nat),
            c <= t * 64,
        decreases n - t,
    {
        c = c + t;
        t = t + 1;
    }
    c
}

impl Signature {
    /// The product of basis blades `i` and `j`: `None` when a null
    /// generator appears in both, else the sign (`true` for negative) and
    /// the resulting blade.
    pub fn blade_product(&self, i: usize, j: usize) -> (r: Option<(bool, usize)>)
        requires
            self.wf(),
            i < (1usize << self.total()),
            j < (1usize << self.total()),
        ensures
            r == spec_blade_product(*self, i, j),
    {
        let total = self.total;
        proof {
            assert(forall|k: u32| k < 32 ==> (1usize << k) >= 1) by (bit_vector);
        }
        let nmask = ((1usize << self.negative) - 1) as usize;
        let zmask = (((1usize << total) - 1) as usize) & !(((1usize << (self.negative
            + self.positive)) - 1) as usize);
        if i & j & zmask != 0 {
            None
        } else {
            let c1 = popcount_below(i & j & nmask, total);
            let c2 = choose2_of(popcount_below(i, total));
            let c3 = inversions_below(i, j, total);
            let negative_sign = (c1 + c2 + c3) % 2 == 1;
            Some((negative_sign, i ^ j))
        }
    }
}

pub proof fn lemma_pc_of_zero(k: u32)
    ensures
        pc(0, k) == 0,
    decreases k,
{
    if k > 0 {
        lemma_pc_of_zero((k - 1) as u32);
        assert(!bit(0, (k - 1) as u32)) by (bit_vector);
    }
}

pub proof fn lemma_inv_zero_left(j: usize, k: u32)
    ensures
        inv(0, j, k) == 0,
    decreases k,
{
    if k > 0 {
        lemma_inv_zero_left(j, (k - 1) as u32);
        assert(!bit(0, (k - 1) as u32)) by (bit_vector);
    }
}

/// Merging a blade's generator sequence with itself takes as many
/// transpositions as reversing it.
pub proof fn lemma_inv_self(i: usize, k: u32)
    ensures
        inv(i, i, k) == choose2(pc(i, k)),
    decreases k,
{
    if k > 0 {
        lemma_inv_self(i, (k - 1) as u32);
    }
}

/// The scalar blade is a left identity of the blade product: multiplying
/// blade `0` by any blade `j` yields `j` itself, positively.
pub proof fn lemma_scalar_blade_product(s: Signature, j: usize)
    requires
        s.wf(),
    ensures
        spec_blade_product(s, 0, j) == Some((false, j)),
{
    let nullm = null_mask(s);
    let negm = neg_mask(s);
    assert(0usize & j & nullm == 0) by (bit_vector);
    assert(0usize ^ j == j) by (bit_vector);
    assert(0usize & j & negm == 0) by (bit_vector);
    lemma_pc_of_zero(s.total());
    lemma_inv_zero_left(j, s.total());
}

/// A blade that holds no null generator, multiplied by itself, yields the
/// scalar blade with a sign given purely by the signature parity: one flip
/// per negative generator it contains.
pub proof fn lemma_blade_self_product(s: Signature, i: usize)
    requires
        s.wf(),
        i & null_mask(s) == 0,
    ensures
        spec_blade_product(s, i, i) == Some(
            (pc(i & neg_mask(s), s.total()) % 2 == 1, 0usize),
        ),
{
    let nullm = null_mask(s);
    let negm = neg_mask(s);
    assert(i & i & nullm == i & nullm) by (bit_vector);
    assert(i ^ i == 0) by (bit_vector);
    assert(i & i & negm == i & negm) by (bit_vector);
    lemma_inv_self(i, s.total());
    let base = pc(i & negm, s.total());
    let half = choose2(pc(i, s.total()));
    assert(blade_sign_count(s, i, i) == base + 2 * half);
    lemma_mod_multiples_vanish(half as int, base as int, 2);
}

} // verus!
