//! Rotational forces.
//!
//! A [`Torque<D>`] is the angular analogue of a force: the same vector
//! shape and the same integration rules, applied to the body's angular
//! derivative chain, with the body's one scalar mass standing in for the
//! rotational inertia. Named axes use rotational labels (`u`, `v`, `w`) to
//! avoid confusion with the linear axes.

use vstd::prelude::*;

use crate::body::{
    cascade_fits, first_ord_fits, spec_apply_1st_angular, spec_apply_2nd_angular,
    spec_apply_higher_angular, Body,
};
use crate::rat::{ratio_zero, Rat, Ratio};
use crate::vector::{seq_div, seq_div_fits, seq_is_zero, Vector};

verus! {

/// A `D`-dimensional applied rotational force.
#[derive(Clone, Debug)]
pub struct Torque<const D: usize> {
    pub vector: Vector<D>,
}

impl<const D: usize> View for Torque<D> {
    type V = Seq<Ratio>;

    open spec fn view(&self) -> Seq<Ratio> {
        self.vector@
    }
}

impl<const D: usize> Torque<D> {
    pub open spec fn wf(self) -> bool {
        self.vector.wf()
    }

    /// The stored components, one executable scalar per axis.
    pub open spec fn comps(self) -> Seq<Rat> {
        self.vector.comps()
    }

    /// Builds a torque from one scalar component per axis.
    pub fn new(torque: [Rat; D]) -> (r: Torque<D>)
        requires
            forall|i: int| 0 <= i < D ==> (#[trigger] torque@[i]).wf(),
        ensures
            r.wf(),
            r.comps() == torque@,
    {
        Torque { vector: Vector::new(torque) }
    }

    /// The torque about the first axis; only a vector of dimension at least 1
    /// has it.
    pub fn u(&self) -> (r: &Rat)
        requires
            self.wf(),
            D >= 1,
        ensures
            *r == self.comps()[0],
            r@ == self@[0],
    {
        self.vector.get(0)
    }

    /// The torque about the second axis; only a vector of dimension at least
    /// 2 has it.
    pub fn v(&self) -> (r: &Rat)
        requires
            self.wf(),
            D >= 2,
        ensures
            *r == self.comps()[1],
            r@ == self@[1],
    {
        self.vector.get(1)
    }

    /// The torque about the third axis; only a vector of dimension at least 3
    /// has it.
    pub fn w(&self) -> (r: &Rat)
        requires
            self.wf(),
            D >= 3,
        ensures
            *r == self.comps()[2],
            r@ == self@[2],
    {
        self.vector.get(2)
    }

    /// Applies the torque to a body that tracks only orientation and angular
    /// velocity: `a = T / m` is computed component-wise and the angular
    /// velocity advances by `a * time_step`; the angular acceleration is
    /// transient and not stored.
    pub fn apply_1st_ord(&self, body: &mut Body<D, 1>, time_step: Rat)
        requires
            self.wf(),
            old(body).wf(),
            time_step.wf(),
            first_ord_fits(self@, old(body)@.angular[1], old(body)@.mass, time_step@),
        ensures
            final(body).wf(),
            final(body)@ == spec_apply_1st_angular(old(body)@, self@, time_step@),
    {
        let m = *body.mass();
        let acceleration = self.vector.div_scalar(m);  // a = T / m
        let delta = acceleration.scale(time_step);
        let velocity = body.angular_state(1).add(&delta);  // v = v + a * time_step
        body.set_angular_state(1, velocity);
    }

    /// Applies the torque to a body that tracks up to angular acceleration:
    /// the stored angular acceleration is overwritten with `T / m`; the
    /// angular velocity is untouched.
    pub fn apply_2nd_ord(&self, body: &mut Body<D, 2>)
        requires
            self.wf(),
            old(body).wf(),
            seq_div_fits(self@, old(body)@.mass),
        ensures
            final(body).wf(),
            final(body)@ == spec_apply_2nd_angular(old(body)@, self@),
    {
        let m = *body.mass();
        let acceleration = self.vector.div_scalar(m);  // a = T / m
        body.set_angular_state(2, acceleration);
    }

    /// Applies the torque to a body that tracks three or more derivative
    /// orders: `T / m` is injected into the angular chain and the Euler
    /// update cascades through every tracked higher derivative.
    pub fn apply<const ORD: usize>(&self, body: &mut Body<D, ORD>, time_step: Rat)
        requires
            ORD >= 3,
            self.wf(),
            old(body).wf(),
            time_step.wf(),
            seq_div_fits(self@, old(body)@.mass),
            cascade_fits(
                old(body)@.angular.update(2, seq_div(self@, old(body)@.mass)),
                time_step@,
            ),
        ensures
            final(body).wf(),
            final(body)@ == spec_apply_higher_angular(old(body)@, self@, time_step@),
    {
        let m = *body.mass();
        let acceleration = self.vector.div_scalar(m);  // a = T / m
        body.update_angular_acceleration(acceleration, time_step);
    }
}

impl<const D: usize> Default for Torque<D> {
    /// The zero torque: every component is the exact zero scalar.
    fn default() -> (r: Torque<D>)
        ensures
            r.wf(),
            seq_is_zero(r@),
            forall|i: int| 0 <= i < D ==> (#[trigger] r.comps()[i])@ == ratio_zero(),
    {
        let r = Torque { vector: Vector::zero() };
        proof {
            assert forall|i: int| 0 <= i < D implies (#[trigger] r.comps()[i])@ == ratio_zero() by {
                assert(r@[i] == r.comps()[i]@);
            }
        }
        r
    }
}

impl<const D: usize> From<Vector<D>> for Torque<D> {
    /// Wraps an already-built vector.
    fn from(torque: Vector<D>) -> (r: Torque<D>) {
        Torque { vector: torque }
    }
}

impl<const D: usize> vstd::std_specs::convert::FromSpecImpl<Vector<D>> for Torque<D> {
    open spec fn obeys_from_spec() -> bool {
        true
    }

    open spec fn from_spec(torque: Vector<D>) -> Torque<D> {
        Torque { vector: torque }
    }
}

pub type Torque1D = Torque<1>;

pub type Torque2D = Torque<2>;

pub type Torque3D = Torque<3>;

pub type Torque4D = Torque<4>;

} // verus!
