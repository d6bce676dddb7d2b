//! The laws of the integration rules, proved once and for all inputs.
//!
//! Each proof function here states one behavioural guarantee of the
//! integrators over the same specification functions that the executable
//! entry points are verified against, so the guarantee carries to every
//! call of `apply_1st_ord` and `apply_2nd_ord` on `Force` and `Torque`.

use vstd::prelude::*;

use crate::body::{
    body_model_wf, integrate_velocity, spec_apply_1st_angular, spec_apply_1st_spatial,
    spec_apply_2nd_angular, spec_apply_2nd_spatial, BodyModel,
};
use crate::rat::{
    lemma_ratio_add_zero, lemma_ratio_div_wf, lemma_ratio_div_zero_num, lemma_ratio_eq_zeros,
    lemma_ratio_mul_wf, lemma_ratio_mul_zero_num, ratio_add, ratio_div, ratio_eq, ratio_from_int,
    ratio_mul, ratio_wf, Ratio,
};
use crate::vector::{
    lemma_seq_add_wf, lemma_seq_div_wf, lemma_seq_scale_wf, seq_div, seq_scale, seq_wf,
};

verus! {

/// The velocity gained in one first-order step: `(f / m) * dt`, per axis.
spec fn step_increment(fi: Ratio, m: Ratio, dt: Ratio) -> Ratio {
    ratio_mul(ratio_div(fi, m), dt)
}

/// `n` repeated first-order force applications with the same force and step.
pub open spec fn iter_apply_1st_spatial(b: BodyModel, f: Seq<Ratio>, dt: Ratio, n: nat) -> BodyModel
    decreases n,
{
    if n == 0 {
        b
    } else {
        spec_apply_1st_spatial(iter_apply_1st_spatial(b, f, dt, (n - 1) as nat), f, dt)
    }
}

/// `n` repeated first-order torque applications with the same torque and step.
pub open spec fn iter_apply_1st_angular(b: BodyModel, f: Seq<Ratio>, dt: Ratio, n: nat) -> BodyModel
    decreases n,
{
    if n == 0 {
        b
    } else {
        spec_apply_1st_angular(iter_apply_1st_angular(b, f, dt, (n - 1) as nat), f, dt)
    }
}

/// One accumulation step: if `x` equals `c * n` in value, then `x + c`
/// equals `c * (n + 1)` in value.
proof fn lemma_accumulate(x: Ratio, c: Ratio, n: int)
    by (nonlinear_arith)
    requires
        ratio_eq(x, ratio_mul(c, ratio_from_int(n))),
    ensures
        ratio_eq(ratio_add(x, c), ratio_mul(c, ratio_from_int(n + 1))),
{
}

/// Regrouping: `((dv * dt) * n)` and `(dv * (n * dt))` are the same value.
proof fn lemma_regroup(x: Ratio, dv: Ratio, dt: Ratio, n: int)
    by (nonlinear_arith)
    requires
        ratio_eq(x, ratio_mul(ratio_mul(dv, dt), ratio_from_int(n))),
    ensures
        ratio_eq(x, ratio_mul(dv, ratio_mul(ratio_from_int(n), dt))),
{
}

/// A first-order application preserves well-formedness, the mass, the
/// position, and the whole other chain.
pub proof fn lemma_apply_1st_spatial_wf(b: BodyModel, f: Seq<Ratio>, dt: Ratio, d: int, ord: int)
    requires
        body_model_wf(b, d, ord),
        ord >= 1,
        seq_wf(f),
        f.len() == d,
        ratio_wf(dt),
    ensures
        body_model_wf(spec_apply_1st_spatial(b, f, dt), d, ord),
        spec_apply_1st_spatial(b, f, dt).mass == b.mass,
        spec_apply_1st_spatial(b, f, dt).spatial[0] == b.spatial[0],
        spec_apply_1st_spatial(b, f, dt).spatial[1] == integrate_velocity(b.spatial[1], f, b.mass, dt),
        spec_apply_1st_spatial(b, f, dt).angular == b.angular,
{
    lemma_seq_div_wf(f, b.mass);
    lemma_seq_scale_wf(seq_div(f, b.mass), dt);
    lemma_seq_add_wf(b.spatial[1], seq_scale(seq_div(f, b.mass), dt));
}

pub proof fn lemma_apply_1st_angular_wf(b: BodyModel, f: Seq<Ratio>, dt: Ratio, d: int, ord: int)
    requires
        body_model_wf(b, d, ord),
        ord >= 1,
        seq_wf(f),
        f.len() == d,
        ratio_wf(dt),
    ensures
        body_model_wf(spec_apply_1st_angular(b, f, dt), d, ord),
        spec_apply_1st_angular(b, f, dt).mass == b.mass,
        spec_apply_1st_angular(b, f, dt).angular[0] == b.angular[0],
        spec_apply_1st_angular(b, f, dt).angular[1] == integrate_velocity(b.angular[1], f, b.mass, dt),
        spec_apply_1st_angular(b, f, dt).spatial == b.spatial,
{
    lemma_seq_div_wf(f, b.mass);
    lemma_seq_scale_wf(seq_div(f, b.mass), dt);
    lemma_seq_add_wf(b.angular[1], seq_scale(seq_div(f, b.mass), dt));
}

/// Law: for every dimension and a zero-valued force, a first-order
/// application leaves the velocity unchanged in value (additive identity);
/// the position, the mass and the angular chain are untouched outright.
pub proof fn lemma_zero_force_keeps_velocity(b: BodyModel, f: Seq<Ratio>, dt: Ratio, d: int)
    requires
        body_model_wf(b, d, 1),
        seq_wf(f),
        f.len() == d,
        forall|i: int| 0 <= i < d ==> f[i].num == 0,
        ratio_wf(dt),
    ensures
        forall|i: int| 0 <= i < d ==> ratio_eq(
            #[trigger] spec_apply_1st_spatial(b, f, dt).spatial[1][i],
            b.spatial[1][i],
        ),
        spec_apply_1st_spatial(b, f, dt).spatial[0] == b.spatial[0],
        spec_apply_1st_spatial(b, f, dt).mass == b.mass,
        spec_apply_1st_spatial(b, f, dt).angular == b.angular,
{
    let after = spec_apply_1st_spatial(b, f, dt);
    assert forall|i: int| 0 <= i < d implies ratio_eq(#[trigger] after.spatial[1][i], b.spatial[1][i]) by {
        let a = ratio_div(f[i], b.mass);
        let s = ratio_mul(a, dt);
        lemma_ratio_div_wf(f[i], b.mass);
        lemma_ratio_mul_wf(a, dt);
        assert(after.spatial[1][i] == ratio_add(b.spatial[1][i], s));
        lemma_ratio_div_zero_num(f[i], b.mass);
        lemma_ratio_mul_zero_num(a, dt);
        lemma_ratio_add_zero(b.spatial[1][i], s);
    }
}

/// Law: the angular twin — a zero-valued torque leaves the angular velocity
/// unchanged in value.
pub proof fn lemma_zero_torque_keeps_velocity(b: BodyModel, f: Seq<Ratio>, dt: Ratio, d: int)
    requires
        body_model_wf(b, d, 1),
        seq_wf(f),
        f.len() == d,
        forall|i: int| 0 <= i < d ==> f[i].num == 0,
        ratio_wf(dt),
    ensures
        forall|i: int| 0 <= i < d ==> ratio_eq(
            #[trigger] spec_apply_1st_angular(b, f, dt).angular[1][i],
            b.angular[1][i],
        ),
        spec_apply_1st_angular(b, f, dt).angular[0] == b.angular[0],
        spec_apply_1st_angular(b, f, dt).mass == b.mass,
        spec_apply_1st_angular(b, f, dt).spatial == b.spatial,
{
    let after = spec_apply_1st_angular(b, f, dt);
    assert forall|i: int| 0 <= i < d implies ratio_eq(#[trigger] after.angular[1][i], b.angular[1][i]) by {
        let a = ratio_div(f[i], b.mass);
        let s = ratio_mul(a, dt);
        lemma_ratio_div_wf(f[i], b.mass);
        lemma_ratio_mul_wf(a, dt);
        assert(after.angular[1][i] == ratio_add(b.angular[1][i], s));
        lemma_ratio_div_zero_num(f[i], b.mass);
        lemma_ratio_mul_zero_num(a, dt);
        lemma_ratio_add_zero(b.angular[1][i], s);
    }
}

/// Law: for every positive time step and constant force, `n` repeated
/// first-order applications to a body starting at rest leave the velocity at
/// `(f / m) * (n * dt)` in value, on every axis (linear accumulation of the
/// explicit-Euler rule).
pub proof fn lemma_rest_accumulates_linearly(b: BodyModel, f: Seq<Ratio>, dt: Ratio, d: int, n: nat)
    requires
        body_model_wf(b, d, 1),
        seq_wf(f),
        f.len() == d,
        ratio_wf(dt),
        dt.num > 0,
        forall|i: int| 0 <= i < d ==> b.spatial[1][i].num == 0,
    ensures
        forall|i: int| 0 <= i < d ==> ratio_eq(
            #[trigger] iter_apply_1st_spatial(b, f, dt, n).spatial[1][i],
            ratio_mul(ratio_div(f[i], b.mass), ratio_mul(ratio_from_int(n as int), dt)),
        ),
{
    lemma_iter_1st_spatial_props(b, f, dt, d, n);
    let after = iter_apply_1st_spatial(b, f, dt, n);
    assert forall|i: int| 0 <= i < d implies ratio_eq(
        #[trigger] after.spatial[1][i],
        ratio_mul(ratio_div(f[i], b.mass), ratio_mul(ratio_from_int(n as int), dt)),
    ) by {
        lemma_regroup(after.spatial[1][i], ratio_div(f[i], b.mass), dt, n as int);
    }
}

/// Law: the angular twin of the linear accumulation law.
pub proof fn lemma_rest_accumulates_linearly_angular(b: BodyModel, f: Seq<Ratio>, dt: Ratio, d: int, n: nat)
    requires
        body_model_wf(b, d, 1),
        seq_wf(f),
        f.len() == d,
        ratio_wf(dt),
        dt.num > 0,
        forall|i: int| 0 <= i < d ==> b.angular[1][i].num == 0,
    ensures
        forall|i: int| 0 <= i < d ==> ratio_eq(
            #[trigger] iter_apply_1st_angular(b, f, dt, n).angular[1][i],
            ratio_mul(ratio_div(f[i], b.mass), ratio_mul(ratio_from_int(n as int), dt)),
        ),
{
    lemma_iter_1st_angular_props(b, f, dt, d, n);
    let after = iter_apply_1st_angular(b, f, dt, n);
    assert forall|i: int| 0 <= i < d implies ratio_eq(
        #[trigger] after.angular[1][i],
        ratio_mul(ratio_div(f[i], b.mass), ratio_mul(ratio_from_int(n as int), dt)),
    ) by {
        lemma_regroup(after.angular[1][i], ratio_div(f[i], b.mass), dt, n as int);
    }
}

proof fn lemma_iter_1st_spatial_props(b: BodyModel, f: Seq<Ratio>, dt: Ratio, d: int, n: nat)
    requires
        body_model_wf(b, d, 1),
        seq_wf(f),
        f.len() == d,
        ratio_wf(dt),
        forall|i: int| 0 <= i < d ==> b.spatial[1][i].num == 0,
    ensures
        body_model_wf(iter_apply_1st_spatial(b, f, dt, n), d, 1),
        iter_apply_1st_spatial(b, f, dt, n).mass == b.mass,
        forall|i: int| 0 <= i < d ==> ratio_eq(
            #[trigger] iter_apply_1st_spatial(b, f, dt, n).spatial[1][i],
            ratio_mul(step_increment(f[i], b.mass, dt), ratio_from_int(n as int)),
        ),
    decreases n,
{
    let cur = iter_apply_1st_spatial(b, f, dt, n);
    if n == 0 {
        assert forall|i: int| 0 <= i < d implies ratio_eq(
            #[trigger] cur.spatial[1][i],
            ratio_mul(step_increment(f[i], b.mass, dt), ratio_from_int(0)),
        ) by {
            lemma_ratio_mul_zero_num(step_increment(f[i], b.mass, dt), ratio_from_int(0));
            lemma_ratio_eq_zeros(b.spatial[1][i], ratio_mul(step_increment(f[i], b.mass, dt), ratio_from_int(0)));
        }
    } else {
        let prev = iter_apply_1st_spatial(b, f, dt, (n - 1) as nat);
        lemma_iter_1st_spatial_props(b, f, dt, d, (n - 1) as nat);
        lemma_apply_1st_spatial_wf(prev, f, dt, d, 1);
        assert forall|i: int| 0 <= i < d implies ratio_eq(
            #[trigger] cur.spatial[1][i],
            ratio_mul(step_increment(f[i], b.mass, dt), ratio_from_int(n as int)),
        ) by {
            let c = step_increment(f[i], b.mass, dt);
            assert(cur.spatial[1][i] == ratio_add(prev.spatial[1][i], c));
            lemma_accumulate(prev.spatial[1][i], c, n as int - 1);
        }
    }
}

proof fn lemma_iter_1st_angular_props(b: BodyModel, f: Seq<Ratio>, dt: Ratio, d: int, n: nat)
    requires
        body_model_wf(b, d, 1),
        seq_wf(f),
        f.len() == d,
        ratio_wf(dt),
        forall|i: int| 0 <= i < d ==> b.angular[1][i].num == 0,
    ensures
        body_model_wf(iter_apply_1st_angular(b, f, dt, n), d, 1),
        iter_apply_1st_angular(b, f, dt, n).mass == b.mass,
        forall|i: int| 0 <= i < d ==> ratio_eq(
            #[trigger] iter_apply_1st_angular(b, f, dt, n).angular[1][i],
            ratio_mul(step_increment(f[i], b.mass, dt), ratio_from_int(n as int)),
        ),
    decreases n,
{
    let cur = iter_apply_1st_angular(b, f, dt, n);
    if n == 0 {
        assert forall|i: int| 0 <= i < d implies ratio_eq(
            #[trigger] cur.angular[1][i],
            ratio_mul(step_increment(f[i], b.mass, dt), ratio_from_int(0)),
        ) by {
            lemma_ratio_mul_zero_num(step_increment(f[i], b.mass, dt), ratio_from_int(0));
            lemma_ratio_eq_zeros(b.angular[1][i], ratio_mul(step_increment(f[i], b.mass, dt), ratio_from_int(0)));
        }
    } else {
        let prev = iter_apply_1st_angular(b, f, dt, (n - 1) as nat);
        lemma_iter_1st_angular_props(b, f, dt, d, (n - 1) as nat);
        lemma_apply_1st_angular_wf(prev, f, dt, d, 1);
        assert forall|i: int| 0 <= i < d implies ratio_eq(
            #[trigger] cur.angular[1][i],
            ratio_mul(step_increment(f[i], b.mass, dt), ratio_from_int(n as int)),
        ) by {
            let c = step_increment(f[i], b.mass, dt);
            assert(cur.angular[1][i] == ratio_add(prev.angular[1][i], c));
            lemma_accumulate(prev.angular[1][i], c, n as int - 1);
        }
    }
}

/// Law: the second-order rule is an idempotent overwrite — applying the same
/// force twice leaves exactly the state of applying it once.
pub proof fn lemma_apply_2nd_spatial_idempotent(b: BodyModel, f: Seq<Ratio>, d: int, ord: int)
    requires
        body_model_wf(b, d, ord),
        ord >= 2,
    ensures
        spec_apply_2nd_spatial(spec_apply_2nd_spatial(b, f), f) == spec_apply_2nd_spatial(b, f),
{
    let once = spec_apply_2nd_spatial(b, f);
    let twice = spec_apply_2nd_spatial(once, f);
    assert(twice.spatial =~~= once.spatial);
    assert(twice =~~= once);
}

/// Law: the angular twin — the same torque applied twice by the second-order
/// rule leaves exactly the state of applying it once.
pub proof fn lemma_apply_2nd_angular_idempotent(b: BodyModel, f: Seq<Ratio>, d: int, ord: int)
    requires
        body_model_wf(b, d, ord),
        ord >= 2,
    ensures
        spec_apply_2nd_angular(spec_apply_2nd_angular(b, f), f) == spec_apply_2nd_angular(b, f),
{
    let once = spec_apply_2nd_angular(b, f);
    let twice = spec_apply_2nd_angular(once, f);
    assert(twice.angular =~~= once.angular);
    assert(twice =~~= once);
}

} // verus!
