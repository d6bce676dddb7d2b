//! Fixed-dimension vectors of exact scalars.
//!
//! A [`Vector<D>`] holds one [`Rat`] per spatial axis; its view is the
//! sequence of the components' mathematical values. All arithmetic is
//! component-wise — no axis ever couples with another.

use vstd::prelude::*;

use crate::rat::{
    add_fits, div_fits, mul_fits, ratio_add, ratio_div, ratio_mul, ratio_wf, ratio_zero,
    lemma_pos_mul_pos, lemma_ratio_div_wf, Rat, Ratio,
};

verus! {

/// A well-formed sequence of ratios: every element has a positive denominator.
pub open spec fn seq_wf(v: Seq<Ratio>) -> bool {
    forall|i: int| 0 <= i < v.len() ==> ratio_wf(#[trigger] v[i])
}

/// Component-wise sum of two equal-length sequences.
pub open spec fn seq_add(a: Seq<Ratio>, b: Seq<Ratio>) -> Seq<Ratio> {
    Seq::new(a.len(), |i: int| ratio_add(a[i], b[i]))
}

/// Every component multiplied by the scalar `s`.
pub open spec fn seq_scale(v: Seq<Ratio>, s: Ratio) -> Seq<Ratio> {
    Seq::new(v.len(), |i: int| ratio_mul(v[i], s))
}

/// Every component divided by the scalar `s`.
pub open spec fn seq_div(v: Seq<Ratio>, s: Ratio) -> Seq<Ratio> {
    Seq::new(v.len(), |i: int| ratio_div(v[i], s))
}

/// Every component is the exact zero ratio.
pub open spec fn seq_is_zero(v: Seq<Ratio>) -> bool {
    forall|i: int| 0 <= i < v.len() ==> #[trigger] v[i] == ratio_zero()
}

pub open spec fn seq_add_fits(a: Seq<Ratio>, b: Seq<Ratio>) -> bool {
    forall|i: int| 0 <= i < a.len() ==> add_fits(#[trigger] a[i], b[i])
}

pub open spec fn seq_scale_fits(v: Seq<Ratio>, s: Ratio) -> bool {
    forall|i: int| 0 <= i < v.len() ==> mul_fits(#[trigger] v[i], s)
}

pub open spec fn seq_div_fits(v: Seq<Ratio>, s: Ratio) -> bool {
    forall|i: int| 0 <= i < v.len() ==> div_fits(#[trigger] v[i], s)
}

/// A `D`-dimensional vector of exact scalars.
#[derive(Clone, Debug)]
pub struct Vector<const D: usize> {
    components: Vec<Rat>,
}

impl<const D: usize> View for Vector<D> {
    type V = Seq<Ratio>;

    open spec fn view(&self) -> Seq<Ratio> {
        Seq::new(self.comps().len(), |i: int| self.comps()[i]@)
    }
}

impl<const D: usize> Vector<D> {
    /// The stored components themselves, one executable scalar per axis.
    pub closed spec fn comps(self) -> Seq<Rat> {
        self.components@
    }

    /// Exactly `D` components, each with a positive denominator.
    pub open spec fn wf(self) -> bool {
        &&& self.comps().len() == D
        &&& forall|i: int| 0 <= i < D ==> (#[trigger] self.comps()[i]).wf()
    }

    /// Builds a vector from one scalar per axis.
    pub fn new(components: [Rat; D]) -> (r: Vector<D>)
        requires
            forall|i: int| 0 <= i < D ==> (#[trigger] components@[i]).wf(),
        ensures
            r.wf(),
            r.comps() == components@,
    {
        let mut v: Vec<Rat> = Vec::new();
        let mut i: usize = 0;
        while i < D
            invariant
                i <= D,
                v@.len() == i,
                forall|j: int| 0 <= j < i ==> v@[j] == components@[j],
                forall|j: int| 0 <= j < D ==> (#[trigger] components@[j]).wf(),
            decreases D - i,
        {
            v.push(components[i]);
            i = i + 1;
        }
        proof {
            assert(v@ =~= components@);
        }
        Vector { components: v }
    }

    /// The vector whose every component is the exact zero scalar.
    pub fn zero() -> (r: Vector<D>)
        ensures
            r.wf(),
            seq_is_zero(r@),
    {
        let mut v: Vec<Rat> = Vec::new();
        let mut i: usize = 0;
        while i < D
            invariant
                i <= D,
                v@.len() == i,
                forall|j: int| 0 <= j < i ==> (#[trigger] v@[j]).wf() && v@[j]@ == ratio_zero(),
            decreases D - i,
        {
            v.push(Rat::zero());
            i = i + 1;
        }
        Vector { components: v }
    }

    /// Reads the component of one axis.
    pub fn get(&self, i: usize) -> (r: &Rat)
        requires
            self.wf(),
            i < D,
        ensures
            *r == self.comps()[i as int],
            r@ == self@[i as int],
    {
        &self.components[i]
    }

    /// Replaces the component of one axis.
    pub fn set(&mut self, i: usize, r: Rat)
        requires
            old(self).wf(),
            i < D,
            r.wf(),
        ensures
            final(self).wf(),
            final(self).comps() == old(self).comps().update(i as int, r),
            final(self)@ == old(self)@.update(i as int, r@),
    {
        self.components.set(i, r);
        proof {
            assert(final(self)@ =~= old(self)@.update(i as int, r@));
        }
    }

    /// Component-wise sum.
    pub fn add(&self, rhs: &Vector<D>) -> (r: Vector<D>)
        requires
            self.wf(),
            rhs.wf(),
            seq_add_fits(self@, rhs@),
        ensures
            r.wf(),
            r@ == seq_add(self@, rhs@),
    {
        let mut v: Vec<Rat> = Vec::new();
        let mut i: usize = 0;
        while i < D
            invariant
                i <= D,
                self.wf(),
                rhs.wf(),
                seq_add_fits(self@, rhs@),
                v@.len() == i,
                forall|j: int| 0 <= j < i ==>
                    (#[trigger] v@[j]).wf() && v@[j]@ == ratio_add(self@[j], rhs@[j]),
            decreases D - i,
        {
            let a = self.components[i];
            let b = rhs.components[i];
            proof {
                assert(a@ == self@[i as int]);
                assert(b@ == rhs@[i as int]);
            }
            v.push(a.add(b));
            i = i + 1;
        }
        let r = Vector { components: v };
        proof {
            assert(r@ =~= seq_add(self@, rhs@));
        }
        r
    }

    /// Every component multiplied by the scalar `s`.
    pub fn scale(&self, s: Rat) -> (r: Vector<D>)
        requires
            self.wf(),
            s.wf(),
            seq_scale_fits(self@, s@),
        ensures
            r.wf(),
            r@ == seq_scale(self@, s@),
    {
        let mut v: Vec<Rat> = Vec::new();
        let mut i: usize = 0;
        while i < D
            invariant
                i <= D,
                self.wf(),
                s.wf(),
                seq_scale_fits(self@, s@),
                v@.len() == i,
                forall|j: int| 0 <= j < i ==>
                    (#[trigger] v@[j]).wf() && v@[j]@ == ratio_mul(self@[j], s@),
            decreases D - i,
        {
            let a = self.components[i];
            proof {
                assert(a@ == self@[i as int]);
            }
            v.push(a.mul(s));
            i = i + 1;
        }
        let r = Vector { components: v };
        proof {
            assert(r@ =~= seq_scale(self@, s@));
        }
        r
    }

    /// Every component divided by the strictly positive scalar `s`.
    pub fn div_scalar(&self, s: Rat) -> (r: Vector<D>)
        requires
            self.wf(),
            s.wf(),
            s@.num > 0,
            seq_div_fits(self@, s@),
        ensures
            r.wf(),
            r@ == seq_div(self@, s@),
    {
        let mut v: Vec<Rat> = Vec::new();
        let mut i: usize = 0;
        while i < D
            invariant
                i <= D,
                self.wf(),
                s.wf(),
                s@.num > 0,
                seq_div_fits(self@, s@),
                v@.len() == i,
                forall|j: int| 0 <= j < i ==>
                    (#[trigger] v@[j]).wf() && v@[j]@ == ratio_div(self@[j], s@),
            decreases D - i,
        {
            let a = self.components[i];
            proof {
                assert(a@ == self@[i as int]);
            }
            v.push(a.div(s));
            i = i + 1;
        }
        let r = Vector { components: v };
        proof {
            assert(r@ =~= seq_div(self@, s@));
        }
        r
    }
}

/// A vector's view carries its well-formedness.
pub proof fn lemma_vector_view_wf<const D: usize>(v: Vector<D>)
    requires
        v.wf(),
    ensures
        v@.len() == D,
        seq_wf(v@),
{
    assert forall|i: int| 0 <= i < v@.len() implies ratio_wf(#[trigger] v@[i]) by {
        assert(v@[i] == v.comps()[i]@);
    }
}

/// And conversely: a well-formed view means a well-formed vector.
pub proof fn lemma_vector_wf<const D: usize>(v: Vector<D>)
    requires
        v@.len() == D,
        seq_wf(v@),
    ensures
        v.wf(),
{
    assert forall|i: int| 0 <= i < D implies (#[trigger] v.comps()[i]).wf() by {
        assert(v@[i] == v.comps()[i]@);
        assert(ratio_wf(v@[i]));
    }
}

/// Well-formedness of the component-wise operations.
pub proof fn lemma_seq_add_wf(a: Seq<Ratio>, b: Seq<Ratio>)
    requires
        seq_wf(a),
        seq_wf(b),
        a.len() == b.len(),
    ensures
        seq_wf(seq_add(a, b)),
{
    assert forall|i: int| 0 <= i < seq_add(a, b).len() implies ratio_wf(#[trigger] seq_add(a, b)[i]) by {
        lemma_pos_mul_pos(a[i].den, b[i].den);
    }
}

pub proof fn lemma_seq_scale_wf(v: Seq<Ratio>, s: Ratio)
    requires
        seq_wf(v),
        ratio_wf(s),
    ensures
        seq_wf(seq_scale(v, s)),
{
    assert forall|i: int| 0 <= i < seq_scale(v, s).len() implies ratio_wf(#[trigger] seq_scale(v, s)[i]) by {
        lemma_pos_mul_pos(v[i].den, s.den);
    }
}

pub proof fn lemma_seq_div_wf(v: Seq<Ratio>, s: Ratio)
    requires
        seq_wf(v),
        ratio_wf(s),
        s.num > 0,
    ensures
        seq_wf(seq_div(v, s)),
{
    assert forall|i: int| 0 <= i < seq_div(v, s).len() implies ratio_wf(#[trigger] seq_div(v, s)[i]) by {
        lemma_ratio_div_wf(v[i], s);
    }
}

} // verus!
