//! Linear forces.
//!
//! A [`Force<D>`] is a `D`-dimensional vector of applied linear force. It is
//! read-only input to integration: applying it computes the acceleration
//! `a = F / m` component-wise and writes it into the body's spatial
//! derivative chain by the rule matching the body's maximum tracked order.
//! Dimension and order mismatches are rejected statically: every entry point
//! carries the `D >= k` or `ORD >= k` bound it needs as a verified
//! precondition, so no runtime error path exists.

use vstd::prelude::*;

use crate::body::{
    cascade_fits, first_ord_fits, spec_apply_1st_spatial, spec_apply_2nd_spatial,
    spec_apply_higher_spatial, Body,
};
use crate::rat::{ratio_zero, Rat, Ratio};
use crate::vector::{seq_div, seq_div_fits, seq_is_zero, Vector};

verus! {

/// A `D`-dimensional applied linear force.
#[derive(Clone, Debug)]
pub struct Force<const D: usize> {
    pub vector: Vector<D>,
}

impl<const D: usize> View for Force<D> {
    type V = Seq<Ratio>;

    open spec fn view(&self) -> Seq<Ratio> {
        self.vector@
    }
}

impl<const D: usize> Force<D> {
    pub open spec fn wf(self) -> bool {
        self.vector.wf()
    }

    /// The stored components, one executable scalar per axis.
    pub open spec fn comps(self) -> Seq<Rat> {
        self.vector.comps()
    }

    /// Builds a force from one scalar component per axis.
    pub fn new(force: [Rat; D]) -> (r: Force<D>)
        requires
            forall|i: int| 0 <= i < D ==> (#[trigger] force@[i]).wf(),
        ensures
            r.wf(),
            r.comps() == force@,
    {
        Force { vector: Vector::new(force) }
    }

    /// The force along the first axis; only a vector of dimension at least 1
    /// has it.
    pub fn x(&self) -> (r: &Rat)
        requires
            self.wf(),
            D >= 1,
        ensures
            *r == self.comps()[0],
            r@ == self@[0],
    {
        self.vector.get(0)
    }

    /// The force along the second axis; only a vector of dimension at least 2
    /// has it.
    pub fn y(&self) -> (r: &Rat)
        requires
            self.wf(),
            D >= 2,
        ensures
            *r == self.comps()[1],
            r@ == self@[1],
    {
        self.vector.get(1)
    }

    /// The force along the third axis; only a vector of dimension at least 3
    /// has it.
    pub fn z(&self) -> (r: &Rat)
        requires
            self.wf(),
            D >= 3,
        ensures
            *r == self.comps()[2],
            r@ == self@[2],
    {
        self.vector.get(2)
    }

    /// Applies the force to a body that tracks only position and velocity:
    /// `a = F / m` is computed component-wise and the velocity advances by
    /// `a * time_step`; the acceleration is transient and not stored.
    pub fn apply_1st_ord(&self, body: &mut Body<D, 1>, time_step: Rat)
        requires
            self.wf(),
            old(body).wf(),
            time_step.wf(),
            first_ord_fits(self@, old(body)@.spatial[1], old(body)@.mass, time_step@),
        ensures
            final(body).wf(),
            final(body)@ == spec_apply_1st_spatial(old(body)@, self@, time_step@),
    {
        let m = *body.mass();
        let acceleration = self.vector.div_scalar(m);  // a = F / m
        let delta = acceleration.scale(time_step);
        let velocity = body.spatial_state(1).add(&delta);  // v = v + a * time_step
        body.set_spatial_state(1, velocity);
    }

    /// Applies the force to a body that tracks up to acceleration: the stored
    /// acceleration is overwritten with `F / m`; the velocity is untouched.
    pub fn apply_2nd_ord(&self, body: &mut Body<D, 2>)
        requires
            self.wf(),
            old(body).wf(),
            seq_div_fits(self@, old(body)@.mass),
        ensures
            final(body).wf(),
            final(body)@ == spec_apply_2nd_spatial(old(body)@, self@),
    {
        let m = *body.mass();
        let acceleration = self.vector.div_scalar(m);  // a = F / m
        body.set_spatial_state(2, acceleration);
    }

    /// Applies the force to a body that tracks three or more derivative
    /// orders: `F / m` is injected into the spatial chain and the Euler
    /// update cascades through every tracked higher derivative.
    pub fn apply<const ORD: usize>(&self, body: &mut Body<D, ORD>, time_step: Rat)
        requires
            ORD >= 3,
            self.wf(),
            old(body).wf(),
            time_step.wf(),
            seq_div_fits(self@, old(body)@.mass),
            cascade_fits(
                old(body)@.spatial.update(2, seq_div(self@, old(body)@.mass)),
                time_step@,
            ),
        ensures
            final(body).wf(),
            final(body)@ == spec_apply_higher_spatial(old(body)@, self@, time_step@),
    {
        let m = *body.mass();
        let acceleration = self.vector.div_scalar(m);  // a = F / m
        body.update_spatial_acceleration(acceleration, time_step);
    }
}

impl<const D: usize> Default for Force<D> {
    /// The zero force: every component is the exact zero scalar.
    fn default() -> (r: Force<D>)
        ensures
            r.wf(),
            seq_is_zero(r@),
            forall|i: int| 0 <= i < D ==> (#[trigger] r.comps()[i])@ == ratio_zero(),
    {
        let r = Force { vector: Vector::zero() };
        proof {
            assert forall|i: int| 0 <= i < D implies (#[trigger] r.comps()[i])@ == ratio_zero() by {
                assert(r@[i] == r.comps()[i]@);
            }
        }
        r
    }
}

impl<const D: usize> From<Vector<D>> for Force<D> {
    /// Wraps an already-built vector.
    fn from(force: Vector<D>) -> (r: Force<D>) {
        Force { vector: force }
    }
}

impl<const D: usize> vstd::std_specs::convert::FromSpecImpl<Vector<D>> for Force<D> {
    open spec fn obeys_from_spec() -> bool {
        true
    }

    open spec fn from_spec(force: Vector<D>) -> Force<D> {
        Force { vector: force }
    }
}

pub type Force1D = Force<1>;

pub type Force2D = Force<2>;

pub type Force3D = Force<3>;

pub type Force4D = Force<4>;

} // verus!
