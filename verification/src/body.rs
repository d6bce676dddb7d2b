//! Rigid-body kinematic state: the derivative chains.
//!
//! A [`Body<D, ORD>`] owns, for every order `0..=ORD`, one spatial and one
//! angular `D`-dimensional state vector (order 0 is position, 1 velocity,
//! 2 acceleration, 3 jerk, ...), plus one strictly positive scalar mass that
//! also serves as the rotational inertia for the angular chain.
//!
//! The chain's transition rule is: order `k` is advanced by
//! `time_step * (order k + 1)`. Injecting a new acceleration into a chain of
//! maximum order `ORD >= 2` overwrites order 2 with the new value and then
//! advances each order from `ORD - 1` down to 2 from the derivative above
//! it ([`chain_inject`]); at `ORD == 2` this degenerates to the plain
//! overwrite of the stored acceleration.

use vstd::prelude::*;

use crate::rat::{ratio_wf, Rat, Ratio};
use crate::vector::{
    lemma_seq_add_wf, lemma_seq_scale_wf, lemma_vector_view_wf, lemma_vector_wf,
    seq_add, seq_add_fits, seq_div, seq_div_fits, seq_is_zero, seq_scale, seq_scale_fits, seq_wf,
    Vector,
};

verus! {

/// The mathematical state of a body: a mass and the two derivative chains,
/// each a sequence of state vectors indexed by order.
#[verifier::ext_equal]
pub struct BodyModel {
    pub mass: Ratio,
    pub spatial: Seq<Seq<Ratio>>,
    pub angular: Seq<Seq<Ratio>>,
}

/// A chain tracks orders `0..=ord`, each a well-formed `d`-dimensional vector.
pub open spec fn chain_wf(c: Seq<Seq<Ratio>>, d: int, ord: int) -> bool {
    &&& c.len() == ord + 1
    &&& forall|k: int| 0 <= k <= ord ==> (#[trigger] c[k]).len() == d && seq_wf(c[k])
}

pub open spec fn body_model_wf(b: BodyModel, d: int, ord: int) -> bool {
    &&& ratio_wf(b.mass)
    &&& b.mass.num > 0
    &&& chain_wf(b.spatial, d, ord)
    &&& chain_wf(b.angular, d, ord)
}

/// The chain after Euler-advancing every order from the top of the chain
/// down to order `k`: descending, order `j` gains `time_step` times the
/// already advanced order `j + 1`.
pub open spec fn cascade_from(chain: Seq<Seq<Ratio>>, dt: Ratio, k: int) -> Seq<Seq<Ratio>>
    decreases chain.len() - k,
{
    if k < 0 || k + 1 >= chain.len() {
        chain
    } else {
        let c = cascade_from(chain, dt, k + 1);
        c.update(k, seq_add(c[k], seq_scale(c[k + 1], dt)))
    }
}

/// The chain after receiving a new acceleration: order 2 is overwritten with
/// `a`, then every order from the top down to 2 is advanced from the
/// derivative above it.
pub open spec fn chain_inject(chain: Seq<Seq<Ratio>>, a: Seq<Ratio>, dt: Ratio) -> Seq<Seq<Ratio>> {
    cascade_from(chain.update(2, a), dt, 2)
}

/// Machine limit: every product and sum formed while cascading `chain` fits
/// in the scalar's `i64` fields.
pub open spec fn cascade_fits(chain: Seq<Seq<Ratio>>, dt: Ratio) -> bool {
    forall|k: int| 2 <= k && k + 1 < chain.len() ==> {
        let c = #[trigger] cascade_from(chain, dt, k + 1);
        seq_scale_fits(c[k + 1], dt) && seq_add_fits(c[k], seq_scale(c[k + 1], dt))
    }
}

/// Cascading preserves the chain's length, its entries below `k` and at the
/// top, and well-formedness.
pub proof fn lemma_cascade_from_props(chain: Seq<Seq<Ratio>>, dt: Ratio, k: int, d: int)
    requires
        ratio_wf(dt),
        forall|j: int| 0 <= j < chain.len() ==> (#[trigger] chain[j]).len() == d && seq_wf(chain[j]),
    ensures
        cascade_from(chain, dt, k).len() == chain.len(),
        forall|j: int|
            0 <= j < chain.len() && (j < k || j >= chain.len() - 1)
                ==> #[trigger] cascade_from(chain, dt, k)[j] == chain[j],
        forall|j: int|
            0 <= j < chain.len()
                ==> (#[trigger] cascade_from(chain, dt, k)[j]).len() == d
                    && seq_wf(cascade_from(chain, dt, k)[j]),
    decreases chain.len() - k,
{
    if k < 0 || k + 1 >= chain.len() {
    } else {
        lemma_cascade_from_props(chain, dt, k + 1, d);
        let c = cascade_from(chain, dt, k + 1);
        lemma_seq_scale_wf(c[k + 1], dt);
        lemma_seq_add_wf(c[k], seq_scale(c[k + 1], dt));
    }
}

/// Explicit-Euler integration of a velocity from a force: `v + (f/m) * dt`.
pub open spec fn integrate_velocity(v: Seq<Ratio>, f: Seq<Ratio>, m: Ratio, dt: Ratio) -> Seq<Ratio> {
    seq_add(v, seq_scale(seq_div(f, m), dt))
}

/// Machine limit for one first-order integration step.
pub open spec fn first_ord_fits(f: Seq<Ratio>, v: Seq<Ratio>, m: Ratio, dt: Ratio) -> bool {
    &&& seq_div_fits(f, m)
    &&& seq_scale_fits(seq_div(f, m), dt)
    &&& seq_add_fits(v, seq_scale(seq_div(f, m), dt))
}

/// What a first-order force application does to a body: explicit-Euler
/// integration of the spatial velocity; everything else is untouched.
pub open spec fn spec_apply_1st_spatial(b: BodyModel, f: Seq<Ratio>, dt: Ratio) -> BodyModel {
    BodyModel {
        mass: b.mass,
        spatial: b.spatial.update(1, integrate_velocity(b.spatial[1], f, b.mass, dt)),
        angular: b.angular,
    }
}

/// The angular counterpart: explicit-Euler integration of the angular velocity.
pub open spec fn spec_apply_1st_angular(b: BodyModel, f: Seq<Ratio>, dt: Ratio) -> BodyModel {
    BodyModel {
        mass: b.mass,
        spatial: b.spatial,
        angular: b.angular.update(1, integrate_velocity(b.angular[1], f, b.mass, dt)),
    }
}

/// What a second-order force application does: the stored spatial
/// acceleration is overwritten with `f / m`; nothing is integrated.
pub open spec fn spec_apply_2nd_spatial(b: BodyModel, f: Seq<Ratio>) -> BodyModel {
    BodyModel {
        mass: b.mass,
        spatial: b.spatial.update(2, seq_div(f, b.mass)),
        angular: b.angular,
    }
}

pub open spec fn spec_apply_2nd_angular(b: BodyModel, f: Seq<Ratio>) -> BodyModel {
    BodyModel {
        mass: b.mass,
        spatial: b.spatial,
        angular: b.angular.update(2, seq_div(f, b.mass)),
    }
}

/// What a higher-order force application does: `f / m` is injected into the
/// spatial chain and cascaded through the tracked higher derivatives.
pub open spec fn spec_apply_higher_spatial(b: BodyModel, f: Seq<Ratio>, dt: Ratio) -> BodyModel {
    BodyModel {
        mass: b.mass,
        spatial: chain_inject(b.spatial, seq_div(f, b.mass), dt),
        angular: b.angular,
    }
}

pub open spec fn spec_apply_higher_angular(b: BodyModel, f: Seq<Ratio>, dt: Ratio) -> BodyModel {
    BodyModel {
        mass: b.mass,
        spatial: b.spatial,
        angular: chain_inject(b.angular, seq_div(f, b.mass), dt),
    }
}

/// The mathematical value of one derivative chain.
pub open spec fn chain_view<const D: usize>(c: Seq<Vector<D>>) -> Seq<Seq<Ratio>> {
    Seq::new(c.len(), |k: int| c[k]@)
}

/// A rigid body of dimension `D` that tracks derivatives up to order `ORD`.
#[derive(Clone, Debug)]
pub struct Body<const D: usize, const ORD: usize> {
    mass: Rat,
    spatial: Vec<Vector<D>>,
    angular: Vec<Vector<D>>,
}

impl<const D: usize, const ORD: usize> View for Body<D, ORD> {
    type V = BodyModel;

    closed spec fn view(&self) -> BodyModel {
        BodyModel {
            mass: self.mass@,
            spatial: chain_view(self.spatial@),
            angular: chain_view(self.angular@),
        }
    }
}

impl<const D: usize, const ORD: usize> Body<D, ORD> {
    pub open spec fn wf(self) -> bool {
        body_model_wf(self@, D as int, ORD as int)
    }

    /// A body at rest: every tracked derivative of both chains is zero.
    pub fn new(mass: Rat) -> (r: Body<D, ORD>)
        requires
            mass.wf(),
            mass@.num > 0,
            ORD < usize::MAX,
        ensures
            r.wf(),
            r@.mass == mass@,
            forall|k: int| 0 <= k <= ORD ==> seq_is_zero(#[trigger] r@.spatial[k]),
            forall|k: int| 0 <= k <= ORD ==> seq_is_zero(#[trigger] r@.angular[k]),
    {
        let mut spatial: Vec<Vector<D>> = Vec::new();
        let mut angular: Vec<Vector<D>> = Vec::new();
        let mut k: usize = 0;
        while k < ORD + 1
            invariant
                ORD < usize::MAX,
                k <= ORD + 1,
                spatial@.len() == k,
                angular@.len() == k,
                forall|j: int| 0 <= j < k ==> (#[trigger] spatial@[j]).wf() && seq_is_zero(spatial@[j]@),
                forall|j: int| 0 <= j < k ==> (#[trigger] angular@[j]).wf() && seq_is_zero(angular@[j]@),
            decreases ORD + 1 - k,
        {
            spatial.push(Vector::zero());
            angular.push(Vector::zero());
            k = k + 1;
        }
        let r = Body { mass, spatial, angular };
        proof {
            assert forall|j: int| 0 <= j <= ORD implies
                (#[trigger] r@.spatial[j]).len() == D && seq_wf(r@.spatial[j]) && seq_is_zero(r@.spatial[j]) by {
                lemma_vector_view_wf(r.spatial@[j]);
            }
            assert forall|j: int| 0 <= j <= ORD implies
                (#[trigger] r@.angular[j]).len() == D && seq_wf(r@.angular[j]) && seq_is_zero(r@.angular[j]) by {
                lemma_vector_view_wf(r.angular@[j]);
            }
        }
        r
    }

    /// The body's scalar mass (moment of inertia, for the angular chain).
    pub fn mass(&self) -> (r: &Rat)
        requires
            self.wf(),
        ensures
            r.wf(),
            r@ == self@.mass,
    {
        &self.mass
    }

    /// Reads the spatial state vector of one order.
    pub fn spatial_state(&self, order: usize) -> (r: &Vector<D>)
        requires
            self.wf(),
            order <= ORD,
        ensures
            r.wf(),
            r@ == self@.spatial[order as int],
    {
        proof {
            assert(self@.spatial[order as int] == self.spatial@[order as int]@);
            lemma_vector_wf(self.spatial@[order as int]);
        }
        &self.spatial[order]
    }

    /// Reads the angular state vector of one order.
    pub fn angular_state(&self, order: usize) -> (r: &Vector<D>)
        requires
            self.wf(),
            order <= ORD,
        ensures
            r.wf(),
            r@ == self@.angular[order as int],
    {
        proof {
            assert(self@.angular[order as int] == self.angular@[order as int]@);
            lemma_vector_wf(self.angular@[order as int]);
        }
        &self.angular[order]
    }

    /// Replaces the spatial state vector of one order.
    pub fn set_spatial_state(&mut self, order: usize, v: Vector<D>)
        requires
            old(self).wf(),
            order <= ORD,
            v.wf(),
        ensures
            final(self).wf(),
            final(self)@ == (BodyModel {
                mass: old(self)@.mass,
                spatial: old(self)@.spatial.update(order as int, v@),
                angular: old(self)@.angular,
            }),
    {
        self.spatial.set(order, v);
        proof {
            assert(self@.spatial =~~= old(self)@.spatial.update(order as int, v@));
            lemma_vector_view_wf(v);
        }
    }

    /// Replaces the angular state vector of one order.
    pub fn set_angular_state(&mut self, order: usize, v: Vector<D>)
        requires
            old(self).wf(),
            order <= ORD,
            v.wf(),
        ensures
            final(self).wf(),
            final(self)@ == (BodyModel {
                mass: old(self)@.mass,
                spatial: old(self)@.spatial,
                angular: old(self)@.angular.update(order as int, v@),
            }),
    {
        self.angular.set(order, v);
        proof {
            assert(self@.angular =~~= old(self)@.angular.update(order as int, v@));
            lemma_vector_view_wf(v);
        }
    }

    /// Injects a new acceleration into the spatial chain and cascades the
    /// Euler update through every tracked higher derivative.
    pub fn update_spatial_acceleration(&mut self, new_value: Vector<D>, time_step: Rat)
        requires
            ORD >= 2,
            old(self).wf(),
            new_value.wf(),
            time_step.wf(),
            cascade_fits(old(self)@.spatial.update(2, new_value@), time_step@),
        ensures
            final(self).wf(),
            final(self)@ == (BodyModel {
                mass: old(self)@.mass,
                spatial: chain_inject(old(self)@.spatial, new_value@, time_step@),
                angular: old(self)@.angular,
            }),
    {
        proof {
            assert forall|j: int| 0 <= j < self.spatial@.len() implies (#[trigger] self.spatial@[j]).wf() by {
                assert(self@.spatial[j] == self.spatial@[j]@);
                lemma_vector_wf(self.spatial@[j]);
            }
            assert(chain_view(self.spatial@) =~~= self@.spatial);
        }
        inject_acceleration(&mut self.spatial, new_value, time_step);
        proof {
            lemma_chain_inject_wf(old(self)@.spatial, new_value@, time_step@, D as int);
        }
    }

    /// Injects a new angular acceleration into the angular chain and cascades
    /// the Euler update through every tracked higher derivative.
    pub fn update_angular_acceleration(&mut self, new_value: Vector<D>, time_step: Rat)
        requires
            ORD >= 2,
            old(self).wf(),
            new_value.wf(),
            time_step.wf(),
            cascade_fits(old(self)@.angular.update(2, new_value@), time_step@),
        ensures
            final(self).wf(),
            final(self)@ == (BodyModel {
                mass: old(self)@.mass,
                spatial: old(self)@.spatial,
                angular: chain_inject(old(self)@.angular, new_value@, time_step@),
            }),
    {
        proof {
            assert forall|j: int| 0 <= j < self.angular@.len() implies (#[trigger] self.angular@[j]).wf() by {
                assert(self@.angular[j] == self.angular@[j]@);
                lemma_vector_wf(self.angular@[j]);
            }
            assert(chain_view(self.angular@) =~~= self@.angular);
        }
        inject_acceleration(&mut self.angular, new_value, time_step);
        proof {
            lemma_chain_inject_wf(old(self)@.angular, new_value@, time_step@, D as int);
        }
    }
}

/// An injected chain stays well formed.
proof fn lemma_chain_inject_wf(chain: Seq<Seq<Ratio>>, a: Seq<Ratio>, dt: Ratio, d: int)
    requires
        ratio_wf(dt),
        chain.len() >= 3,
        a.len() == d,
        seq_wf(a),
        forall|j: int| 0 <= j < chain.len() ==> (#[trigger] chain[j]).len() == d && seq_wf(chain[j]),
    ensures
        chain_inject(chain, a, dt).len() == chain.len(),
        forall|j: int|
            0 <= j < chain.len()
                ==> (#[trigger] chain_inject(chain, a, dt)[j]).len() == d
                    && seq_wf(chain_inject(chain, a, dt)[j]),
        forall|j: int|
            0 <= j < 2 ==> #[trigger] chain_inject(chain, a, dt)[j] == chain[j],
{
    let inj = chain.update(2, a);
    lemma_cascade_from_props(inj, dt, 2, d);
}

/// The single cascading implementation shared by the spatial and the angular
/// chain: overwrite order 2, then advance each order from the top down to 2
/// from the derivative above it.
fn inject_acceleration<const D: usize>(chain: &mut Vec<Vector<D>>, new_value: Vector<D>, time_step: Rat)
    requires
        old(chain)@.len() >= 3,
        forall|j: int| 0 <= j < old(chain)@.len() ==> (#[trigger] old(chain)@[j]).wf(),
        new_value.wf(),
        time_step.wf(),
        cascade_fits(chain_view(old(chain)@).update(2, new_value@), time_step@),
    ensures
        final(chain)@.len() == old(chain)@.len(),
        forall|j: int| 0 <= j < final(chain)@.len() ==> (#[trigger] final(chain)@[j]).wf(),
        chain_view(final(chain)@) == chain_inject(chain_view(old(chain)@), new_value@, time_step@),
{
    let ghost inj = chain_view(old(chain)@).update(2, new_value@);
    let len = chain.len();
    chain.set(2, new_value);
    proof {
        assert(chain_view(chain@) =~~= inj);
    }
    let mut k: usize = len - 2;
    while k >= 2
        invariant
            len == chain@.len(),
            len >= 3,
            1 <= k <= len - 2,
            time_step.wf(),
            inj.len() == len,
            cascade_fits(inj, time_step@),
            forall|j: int| 0 <= j < len ==> (#[trigger] chain@[j]).wf(),
            chain_view(chain@) == cascade_from(inj, time_step@, k + 1),
        decreases k,
    {
        let ghost c = cascade_from(inj, time_step@, k as int + 1);
        proof {
            assert(chain@[k + 1]@ == chain_view(chain@)[k as int + 1]);
            assert(chain@[k as int]@ == chain_view(chain@)[k as int]);
        }
        let upper: &Vector<D> = &chain[k + 1];
        let delta = upper.scale(time_step);
        let lower: &Vector<D> = &chain[k];
        let updated = lower.add(&delta);
        chain.set(k, updated);
        proof {
            assert(chain_view(chain@) =~~= c.update(
                k as int,
                seq_add(c[k as int], seq_scale(c[k as int + 1], time_step@)),
            ));
            assert(chain_view(chain@) == cascade_from(inj, time_step@, k as int));
        }
        k = k - 1;
    }
    proof {
        assert(chain_view(chain@) == cascade_from(inj, time_step@, 2));
    }
}

} // verus!
