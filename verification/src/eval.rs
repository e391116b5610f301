//! Forward-mode automatic differentiation: one recursive walk of an
//! expression produces its value and its first derivative at a point,
//! both as exact fixed-point numbers.

use vstd::prelude::*;
use crate::expr::{FN, poly_spec};
use crate::fixnum::{Fx, SCALE, in_range, mul_units};

verus! {

/// A dual number: the value and the first derivative of an expression at a
/// point.
#[derive(Clone, Copy, Debug, PartialEq, Eq, Structural)]
pub struct AD {
    /// The value of the expression at the point.
    pub v: Fx,
    /// The first derivative of the expression at the point.
    pub d: Fx,
}

/// The unit count of the value of `f` at the point with unit count `x`:
/// the variable is the point itself, a constant is itself, a sum adds the
/// children's values exactly, and a product multiplies them with the
/// fixed-point rounding.
pub open spec fn eval_v(f: FN, x: int) -> int
    decreases f,
{
    match f {
        FN::Var => x,
        FN::Const(k) => k@,
        FN::Plus(a, b) => eval_v(*a, x) + eval_v(*b, x),
        FN::Mult(a, b) => mul_units(eval_v(*a, x), eval_v(*b, x)),
    }
}

/// The unit count of the first derivative of `f` at the point with unit
/// count `x`: the variable has derivative one, a constant zero, a sum adds
/// the children's derivatives, and a product follows the product rule.
pub open spec fn eval_d(f: FN, x: int) -> int
    decreases f,
{
    match f {
        FN::Var => SCALE as int,
        FN::Const(_) => 0,
        FN::Plus(a, b) => eval_d(*a, x) + eval_d(*b, x),
        FN::Mult(a, b) => mul_units(eval_d(*a, x), eval_v(*b, x)) + mul_units(
            eval_d(*b, x),
            eval_v(*a, x),
        ),
    }
}

/// Whether every intermediate value and derivative met while evaluating `f`
/// at `x` stays inside the fixed-point range.
pub open spec fn eval_fits(f: FN, x: int) -> bool
    decreases f,
{
    match f {
        FN::Var => true,
        FN::Const(_) => true,
        FN::Plus(a, b) => eval_fits(*a, x) && eval_fits(*b, x) && in_range(
            eval_v(*a, x) + eval_v(*b, x),
        ) && in_range(eval_d(*a, x) + eval_d(*b, x)),
        FN::Mult(a, b) => eval_fits(*a, x) && eval_fits(*b, x) && in_range(
            mul_units(eval_v(*a, x), eval_v(*b, x)),
        ) && in_range(mul_units(eval_d(*a, x), eval_v(*b, x))) && in_range(
            mul_units(eval_d(*b, x), eval_v(*a, x)),
        ) && in_range(
            mul_units(eval_d(*a, x), eval_v(*b, x)) + mul_units(eval_d(*b, x), eval_v(*a, x)),
        ),
    }
}

/// At every point, a constant evaluates to itself with derivative zero, and
/// the variable evaluates to the point itself with derivative one.
pub proof fn lemma_eval_leaf(f: FN, x: int)
    ensures
        f matches FN::Const(k) ==> eval_v(f, x) == k@ && eval_d(f, x) == 0,
        f is Var ==> eval_v(f, x) == x && eval_d(f, x) == SCALE,
{
}

/// The empty coefficient sequence denotes the zero polynomial: at every
/// point it evaluates to zero with derivative zero, within range.
pub proof fn lemma_poly_empty(x: int)
    ensures
        eval_fits(poly_spec(Seq::<Fx>::empty()), x),
        eval_v(poly_spec(Seq::<Fx>::empty()), x) == 0,
        eval_d(poly_spec(Seq::<Fx>::empty()), x) == 0,
{
}

/// A single coefficient denotes a constant polynomial: at every point it
/// evaluates to that coefficient with derivative zero, within range.
pub proof fn lemma_poly_single(c: Fx, x: int)
    ensures
        eval_fits(poly_spec(seq![c]), x),
        eval_v(poly_spec(seq![c]), x) == c@,
        eval_d(poly_spec(seq![c]), x) == 0,
{
}

/// Linearity of evaluation: at every point, the value of a sum is the exact
/// sum of the children's values, and its derivative is the exact sum of the
/// children's derivatives.
pub proof fn lemma_sum_linear(f: FN, x: int)
    ensures
        f matches FN::Plus(a, b) ==> eval_v(f, x) == eval_v(*a, x) + eval_v(*b, x) && eval_d(
            f,
            x,
        ) == eval_d(*a, x) + eval_d(*b, x),
{
}

/// The product rule: at every point, the derivative of a product is the
/// first child's derivative times the second child's value plus the second
/// child's derivative times the first child's value, each product carrying
/// the fixed-point rounding.
pub proof fn lemma_product_rule(f: FN, x: int)
    ensures
        f matches FN::Mult(a, b) ==> eval_v(f, x) == mul_units(eval_v(*a, x), eval_v(*b, x))
            && eval_d(f, x) == mul_units(eval_d(*a, x), eval_v(*b, x)) + mul_units(
            eval_d(*b, x),
            eval_v(*a, x),
        ),
{
}

/// Evaluation is a pure function of the expression and the point: any two
/// results meeting the evaluator's contract for the same arguments are one
/// and the same dual number.
pub proof fn lemma_eval_deterministic(f: FN, x: int, r1: AD, r2: AD)
    requires
        r1.v@ == eval_v(f, x),
        r1.d@ == eval_d(f, x),
        r2.v@ == eval_v(f, x),
        r2.d@ == eval_d(f, x),
    ensures
        r1 == r2,
{
}

/// Evaluates `f` and its derivative at `x`, reporting `None` exactly when
/// some intermediate result leaves the fixed-point range.
pub fn ad_checked(f: &FN, x: Fx) -> (r: Option<AD>)
    ensures
        r is Some <==> eval_fits(*f, x@),
        r matches Some(c) ==> c.v@ == eval_v(*f, x@) && c.d@ == eval_d(*f, x@),
    decreases *f,
{
    match f {
        FN::Var => Some(AD { v: x, d: Fx { units: SCALE } }),
        FN::Const(k) => Some(AD { v: *k, d: Fx { units: 0 } }),
        FN::Plus(a, b) => {
            match (ad_checked(a, x), ad_checked(b, x)) {
                (Some(ca), Some(cb)) => {
                    match (ca.v.try_add(cb.v), ca.d.try_add(cb.d)) {
                        (Some(vv), Some(dd)) => Some(AD { v: vv, d: dd }),
                        _ => None,
                    }
                },
                _ => None,
            }
        },
        FN::Mult(a, b) => {
            match (ad_checked(a, x), ad_checked(b, x)) {
                (Some(ca), Some(cb)) => {
                    match (ca.v.try_mul(cb.v), ca.d.try_mul(cb.v), cb.d.try_mul(ca.v)) {
                        (Some(vv), Some(t1), Some(t2)) => {
                            match t1.try_add(t2) {
                                Some(dd) => Some(AD { v: vv, d: dd }),
                                None => None,
                            }
                        },
                        _ => None,
                    }
                },
                _ => None,
            }
        },
    }
}

/// Evaluates `f` and its derivative at `x`, for a point at which every
/// intermediate result is known to fit.
pub fn ad(f: &FN, x: Fx) -> (r: AD)
    requires
        eval_fits(*f, x@),
    ensures
        r.v@ == eval_v(*f, x@),
        r.d@ == eval_d(*f, x@),
{
    match ad_checked(f, x) {
        Some(c) => c,
        None => vstd::pervasive::unreached(),
    }
}

} // verus!
