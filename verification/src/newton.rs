//! Newton-Raphson root finding driven by the dual evaluator: repeat
//! `x := x - f(x)/f'(x)` until `|f(x)|` is within the tolerance, a failure
//! is detected, or the step limit is reached.

use vstd::prelude::*;
use crate::expr::FN;
use crate::eval::{ad_checked, eval_v, eval_d, eval_fits};
use crate::fixnum::{Fx, div_units, in_range, mag};

verus! {

/// The largest number of update steps the iteration may take.
pub const STEP_LIMIT: u32 = 1000;

/// Why the root finder gave up.
#[derive(Clone, Copy, Debug, PartialEq, Eq, Structural)]
pub enum RootError {
    /// The tolerance handed in was not positive.
    InvalidArgument,
    /// The derivative at the current candidate is exactly zero, so no
    /// Newton step exists.
    DerivativeZero,
    /// The iteration did not converge within the step limit.
    StepLimitExceeded,
    /// An evaluation or an update step left the fixed-point range.
    Overflow,
}

/// Whether the value of `f` at `x` is within the tolerance `eps`.
pub open spec fn converged(f: FN, x: int, eps: int) -> bool {
    mag(eval_v(f, x)) <= eps
}

/// The unit count of the candidate after one Newton update at `x`.
pub open spec fn newton_step(f: FN, x: int) -> int {
    x - div_units(eval_v(f, x), eval_d(f, x))
}

/// Whether the Newton update at `x` stays inside the fixed-point range.
pub open spec fn step_in_range(f: FN, x: int) -> bool {
    in_range(div_units(eval_v(f, x), eval_d(f, x))) && in_range(newton_step(f, x))
}

/// The outcome of the iteration started at `x` with `fuel` update steps
/// still allowed: the checks of one round are, in order, that the
/// evaluation fits, that the candidate has converged, that the derivative
/// is nonzero, that the update stays in range, and that a step is still
/// allowed.
pub open spec fn nr_spec(f: FN, x: int, eps: int, fuel: nat) -> Result<int, RootError>
    decreases fuel,
{
    if !eval_fits(f, x) {
        Result::Err(RootError::Overflow)
    } else if converged(f, x, eps) {
        Result::Ok(x)
    } else if eval_d(f, x) == 0 {
        Result::Err(RootError::DerivativeZero)
    } else if !step_in_range(f, x) {
        Result::Err(RootError::Overflow)
    } else if fuel == 0 {
        Result::Err(RootError::StepLimitExceeded)
    } else {
        nr_spec(f, newton_step(f, x), eps, (fuel - 1) as nat)
    }
}

/// The unit counts of a root finder's result.
pub open spec fn result_units(r: Result<Fx, RootError>) -> Result<int, RootError> {
    match r {
        Result::Ok(x) => Result::Ok(x@),
        Result::Err(e) => Result::Err(e),
    }
}

/// The iteration never reports a bad tolerance: that is checked before it
/// starts.
proof fn lemma_nr_spec_no_invalid(f: FN, x: int, eps: int, fuel: nat)
    ensures
        nr_spec(f, x, eps, fuel) != Result::<int, RootError>::Err(RootError::InvalidArgument),
    decreases fuel,
{
    if eval_fits(f, x) && !converged(f, x, eps) && eval_d(f, x) != 0 && step_in_range(f, x)
        && fuel > 0 {
        lemma_nr_spec_no_invalid(f, newton_step(f, x), eps, (fuel - 1) as nat);
    }
}

/// A successful outcome of the iteration is a candidate whose evaluation
/// fits and whose value is within the tolerance.
pub proof fn lemma_nr_spec_ok(f: FN, x: int, eps: int, fuel: nat)
    ensures
        nr_spec(f, x, eps, fuel) matches Result::Ok(root) ==> eval_fits(f, root) && converged(
            f,
            root,
            eps,
        ),
    decreases fuel,
{
    if eval_fits(f, x) && !converged(f, x, eps) && eval_d(f, x) != 0 && step_in_range(f, x)
        && fuel > 0 {
        lemma_nr_spec_ok(f, newton_step(f, x), eps, (fuel - 1) as nat);
    }
}

/// A constant expression whose magnitude exceeds the tolerance has no
/// root to find: from every starting point and with any step allowance the
/// iteration stops at once with a zero derivative, and never claims a root.
pub proof fn lemma_constant_no_root(k: Fx, x0: int, eps: int, fuel: nat)
    requires
        0 < eps < mag(k@),
    ensures
        nr_spec(FN::Const(k), x0, eps, fuel) == Result::<int, RootError>::Err(
            RootError::DerivativeZero,
        ),
{
}

/// Finds a candidate root of `f` by Newton-Raphson iteration from `x0`,
/// accepting any point whose value has magnitude at most `epsilon`.
pub fn nr_root(epsilon: Fx, x0: Fx, f: &FN) -> (r: Result<Fx, RootError>)
    ensures
        epsilon@ <= 0 <==> r == Result::<Fx, RootError>::Err(RootError::InvalidArgument),
        epsilon@ > 0 ==> result_units(r) == nr_spec(*f, x0@, epsilon@, STEP_LIMIT as nat),
        r matches Result::Ok(root) ==> eval_fits(*f, root@) && mag(eval_v(*f, root@))
            <= epsilon@,
{
    if epsilon.units <= 0 {
        return Result::Err(RootError::InvalidArgument);
    }
    proof {
        lemma_nr_spec_no_invalid(*f, x0@, epsilon@, STEP_LIMIT as nat);
        lemma_nr_spec_ok(*f, x0@, epsilon@, STEP_LIMIT as nat);
    }
    let mut x = x0;
    let mut steps: u32 = 0;
    loop
        invariant
            steps <= STEP_LIMIT,
            epsilon@ > 0,
            nr_spec(*f, x0@, epsilon@, STEP_LIMIT as nat) == nr_spec(
                *f,
                x@,
                epsilon@,
                (STEP_LIMIT - steps) as nat,
            ),
            nr_spec(*f, x0@, epsilon@, STEP_LIMIT as nat) != Result::<int, RootError>::Err(
                RootError::InvalidArgument,
            ),
            nr_spec(*f, x0@, epsilon@, STEP_LIMIT as nat) matches Result::Ok(root)
                ==> eval_fits(*f, root) && converged(*f, root, epsilon@),
        decreases STEP_LIMIT - steps,
    {
        let c = match ad_checked(f, x) {
            Some(c) => c,
            None => {
                return Result::Err(RootError::Overflow);
            },
        };
        if c.v.abs_le(epsilon) {
            return Result::Ok(x);
        }
        if c.d.units == 0 {
            return Result::Err(RootError::DerivativeZero);
        }
        let q = match c.v.try_div(c.d) {
            Some(q) => q,
            None => {
                return Result::Err(RootError::Overflow);
            },
        };
        let xn = match x.try_sub(q) {
            Some(xn) => xn,
            None => {
                return Result::Err(RootError::Overflow);
            },
        };
        if steps == STEP_LIMIT {
            return Result::Err(RootError::StepLimitExceeded);
        }
        x = xn;
        steps = steps + 1;
    }
}

} // verus!
