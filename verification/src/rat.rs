//! Exact rational scalars.
//!
//! The integration rules of this crate are stated over mathematical
//! rationals: [`Ratio`] is the specification-level value (a pair of
//! unbounded integers with a positive denominator), and [`Rat`] is the
//! executable scalar that carries such a value in two `i64` fields.
//! Two rationals are equal in value ([`ratio_eq`]) when they agree after
//! cross-multiplication; the executable pairs themselves are not
//! normalised.

use vstd::prelude::*;

verus! {

/// The mathematical value of a scalar: the rational number `num / den`.
pub struct Ratio {
    pub num: int,
    pub den: int,
}

/// A ratio is well formed when its denominator is positive.
pub open spec fn ratio_wf(r: Ratio) -> bool {
    r.den > 0
}

pub open spec fn ratio_zero() -> Ratio {
    Ratio { num: 0, den: 1 }
}

pub open spec fn ratio_from_int(n: int) -> Ratio {
    Ratio { num: n, den: 1 }
}

pub open spec fn ratio_add(a: Ratio, b: Ratio) -> Ratio {
    Ratio { num: a.num * b.den + b.num * a.den, den: a.den * b.den }
}

pub open spec fn ratio_mul(a: Ratio, b: Ratio) -> Ratio {
    Ratio { num: a.num * b.num, den: a.den * b.den }
}

pub open spec fn ratio_div(a: Ratio, b: Ratio) -> Ratio {
    Ratio { num: a.num * b.den, den: a.den * b.num }
}

/// Value equality: `a/b == c/d` exactly when `a*d == c*b`.
pub open spec fn ratio_eq(a: Ratio, b: Ratio) -> bool {
    a.num * b.den == b.num * a.den
}

pub open spec fn in_i64(x: int) -> bool {
    i64::MIN <= x <= i64::MAX
}

/// The products and the sum formed by `ratio_add` fit in `i64`.
pub open spec fn add_fits(a: Ratio, b: Ratio) -> bool {
    &&& in_i64(a.num * b.den)
    &&& in_i64(b.num * a.den)
    &&& in_i64(a.num * b.den + b.num * a.den)
    &&& in_i64(a.den * b.den)
}

/// The products formed by `ratio_mul` fit in `i64`.
pub open spec fn mul_fits(a: Ratio, b: Ratio) -> bool {
    &&& in_i64(a.num * b.num)
    &&& in_i64(a.den * b.den)
}

/// The products formed by `ratio_div` fit in `i64`.
pub open spec fn div_fits(a: Ratio, b: Ratio) -> bool {
    &&& in_i64(a.num * b.den)
    &&& in_i64(a.den * b.num)
}

/// An exact executable scalar: the rational number `num / den`.
#[derive(Clone, Copy, Debug, PartialEq, Eq, Structural)]
pub struct Rat {
    num: i64,
    den: i64,
}

impl View for Rat {
    type V = Ratio;

    closed spec fn view(&self) -> Ratio {
        Ratio { num: self.num as int, den: self.den as int }
    }
}

impl Rat {
    /// Well-formed scalars keep a positive denominator.
    pub open spec fn wf(self) -> bool {
        ratio_wf(self@)
    }

    /// The scalar `num / den`.
    pub fn new(num: i64, den: i64) -> (r: Rat)
        requires
            den > 0,
        ensures
            r.wf(),
            r@ == (Ratio { num: num as int, den: den as int }),
    {
        Rat { num, den }
    }

    /// The scalar `n / 1`.
    pub fn from_int(n: i64) -> (r: Rat)
        ensures
            r.wf(),
            r@ == ratio_from_int(n as int),
    {
        Rat { num: n, den: 1 }
    }

    /// The additive identity `0 / 1`.
    pub fn zero() -> (r: Rat)
        ensures
            r.wf(),
            r@ == ratio_zero(),
    {
        Rat { num: 0, den: 1 }
    }

    pub fn add(self, rhs: Rat) -> (r: Rat)
        requires
            self.wf(),
            rhs.wf(),
            add_fits(self@, rhs@),
        ensures
            r.wf(),
            r@ == ratio_add(self@, rhs@),
    {
        proof {
            lemma_pos_mul_pos(self@.den, rhs@.den);
        }
        Rat { num: self.num * rhs.den + rhs.num * self.den, den: self.den * rhs.den }
    }

    pub fn mul(self, rhs: Rat) -> (r: Rat)
        requires
            self.wf(),
            rhs.wf(),
            mul_fits(self@, rhs@),
        ensures
            r.wf(),
            r@ == ratio_mul(self@, rhs@),
    {
        proof {
            lemma_pos_mul_pos(self@.den, rhs@.den);
        }
        Rat { num: self.num * rhs.num, den: self.den * rhs.den }
    }

    /// Division by a strictly positive scalar.
    pub fn div(self, rhs: Rat) -> (r: Rat)
        requires
            self.wf(),
            rhs.wf(),
            rhs@.num > 0,
            div_fits(self@, rhs@),
        ensures
            r.wf(),
            r@ == ratio_div(self@, rhs@),
    {
        proof {
            lemma_pos_mul_pos(self@.den, rhs@.num);
        }
        Rat { num: self.num * rhs.den, den: self.den * rhs.num }
    }

    /// Decides value equality of two scalars, whatever their denominators.
    pub fn eq_val(self, rhs: Rat) -> (r: bool)
        requires
            self.wf(),
            rhs.wf(),
        ensures
            r == ratio_eq(self@, rhs@),
    {
        proof {
            lemma_i64_mul_in_i128(self@.num, rhs@.den);
            lemma_i64_mul_in_i128(rhs@.num, self@.den);
        }
        (self.num as i128) * (rhs.den as i128) == (rhs.num as i128) * (self.den as i128)
    }

    /// Decides whether the scalar's value is zero.
    pub fn is_zero(self) -> (r: bool)
        ensures
            r == (self@.num == 0),
    {
        self.num == 0
    }
}

pub proof fn lemma_pos_mul_pos(a: int, b: int)
    by (nonlinear_arith)
    requires
        a > 0,
        b > 0,
    ensures
        a * b > 0,
{
}

pub proof fn lemma_i64_mul_in_i128(a: int, b: int)
    by (nonlinear_arith)
    requires
        i64::MIN <= a <= i64::MAX,
        i64::MIN <= b <= i64::MAX,
    ensures
        i128::MIN <= a * b <= i128::MAX,
{
}

/// Adding a zero-valued scalar does not change a scalar's value.
pub proof fn lemma_ratio_add_zero(v: Ratio, z: Ratio)
    by (nonlinear_arith)
    requires
        ratio_wf(v),
        ratio_wf(z),
        z.num == 0,
    ensures
        ratio_eq(ratio_add(v, z), v),
{
}

/// A zero-valued operand gives a zero-valued product or quotient.
pub proof fn lemma_ratio_div_zero_num(a: Ratio, b: Ratio)
    by (nonlinear_arith)
    requires
        a.num == 0,
    ensures
        ratio_div(a, b).num == 0,
{
}

pub proof fn lemma_ratio_mul_zero_num(a: Ratio, b: Ratio)
    by (nonlinear_arith)
    requires
        a.num == 0 || b.num == 0,
    ensures
        ratio_mul(a, b).num == 0,
{
}

/// Two rationals with zero numerators are equal in value.
pub proof fn lemma_ratio_eq_zeros(a: Ratio, b: Ratio)
    by (nonlinear_arith)
    requires
        a.num == 0,
        b.num == 0,
    ensures
        ratio_eq(a, b),
{
}

/// Well-formedness of the arithmetic results.
pub proof fn lemma_ratio_mul_wf(a: Ratio, b: Ratio)
    by (nonlinear_arith)
    requires
        ratio_wf(a),
        ratio_wf(b),
    ensures
        ratio_wf(ratio_mul(a, b)),
{
}

pub proof fn lemma_ratio_div_wf(a: Ratio, b: Ratio)
    by (nonlinear_arith)
    requires
        ratio_wf(a),
        ratio_wf(b),
        b.num > 0,
    ensures
        ratio_wf(ratio_div(a, b)),
{
}

} // verus!
