//! Symbolic functions of one real variable: an owned expression tree whose
//! leaves are the variable or a fixed-point constant and whose interior nodes
//! are sums and products.

use vstd::prelude::*;
use crate::fixnum::Fx;

verus! {

/// A symbolic function of one variable.
#[derive(Debug)]
pub enum FN {
    /// The free variable `x`.
    Var,
    /// A literal number.
    Const(Fx),
    /// The sum of the two children.
    Plus(Box<FN>, Box<FN>),
    /// The product of the two children.
    Mult(Box<FN>, Box<FN>),
}

/// The variable leaf.
pub fn var() -> (r: FN)
    ensures
        r == FN::Var,
{
    FN::Var
}

/// A constant leaf.
pub fn cnst(i: Fx) -> (r: FN)
    ensures
        r == FN::Const(i),
{
    FN::Const(i)
}

/// The sum of two expressions, taking ownership of both.
pub fn plus(x: FN, y: FN) -> (r: FN)
    ensures
        r == FN::Plus(Box::new(x), Box::new(y)),
{
    FN::Plus(Box::new(x), Box::new(y))
}

/// The product of two expressions, taking ownership of both.
pub fn mult(x: FN, y: FN) -> (r: FN)
    ensures
        r == FN::Mult(Box::new(x), Box::new(y)),
{
    FN::Mult(Box::new(x), Box::new(y))
}

/// The Horner-form expression for the polynomial with the given
/// coefficients, most significant first: an empty sequence denotes the zero
/// polynomial, and each further coefficient `c` turns an accumulator `acc`
/// into `acc * x + c`.
pub open spec fn poly_spec(s: Seq<Fx>) -> FN
    decreases s.len(),
{
    if s.len() == 0 {
        FN::Const(Fx { units: 0 })
    } else if s.len() == 1 {
        FN::Const(s[0])
    } else {
        FN::Plus(
            Box::new(FN::Mult(Box::new(poly_spec(s.drop_last())), Box::new(FN::Var))),
            Box::new(FN::Const(s.last())),
        )
    }
}

/// Builds the Horner-form polynomial expression from coefficients given most
/// significant first.
pub fn polynomial(v: &Vec<Fx>) -> (r: FN)
    ensures
        r == poly_spec(v@),
{
    if v.len() > 0 {
        let mut acc = cnst(v[0]);
        let mut i: usize = 1;
        proof {
            assert(v@.take(1) =~= seq![v@[0]]);
        }
        while i < v.len()
            invariant
                1 <= i <= v@.len(),
                acc == poly_spec(v@.take(i as int)),
            decreases v@.len() - i,
        {
            acc = plus(mult(acc, var()), cnst(v[i]));
            proof {
                assert(v@.take(i + 1).drop_last() =~= v@.take(i as int));
                assert(v@.take(i + 1).last() == v@[i as int]);
            }
            i = i + 1;
        }
        proof {
            assert(v@.take(v@.len() as int) =~= v@);
        }
        acc
    } else {
        cnst(Fx::zero())
    }
}

} // verus!
