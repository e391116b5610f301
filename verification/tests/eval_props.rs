use symroot::expr::{cnst, mult, plus, polynomial, var, FN};
use symroot::eval::{ad, ad_checked};
use symroot::fixnum::{Fx, SCALE};

fn fi(i: i64) -> Fx {
    Fx::from_int(i).unwrap()
}

#[test]
fn constant_evaluates_to_itself() {
    let k = fi(42);
    for xi in [-3i64, 0, 7, 1000] {
        let c = ad(&cnst(k), fi(xi));
        assert_eq!(c.v, k);
        assert_eq!(c.d.units, 0);
    }
}

#[test]
fn variable_evaluates_to_the_point() {
    for xi in [-3i64, 0, 7, 1000] {
        let x = fi(xi);
        let c = ad(&var(), x);
        assert_eq!(c.v, x);
        assert_eq!(c.d, Fx::one());
    }
}

#[test]
fn sum_is_linear() {
    // a = 3x + 5, b = x * x
    let a = polynomial(&vec![fi(3), fi(5)]);
    let b = mult(var(), var());
    let x = fi(2);
    let ca = ad(&a, x);
    let cb = ad(&b, x);
    let a2 = polynomial(&vec![fi(3), fi(5)]);
    let b2 = mult(var(), var());
    let cs = ad(&plus(a2, b2), x);
    assert_eq!(cs.v, ca.v.try_add(cb.v).unwrap());
    assert_eq!(cs.d, ca.d.try_add(cb.d).unwrap());
    assert_eq!(cs.v, fi(15));
    assert_eq!(cs.d, fi(7));
}

#[test]
fn product_rule_holds() {
    // a = 3x + 5, b = x * x, at a non-integer point
    let half = Fx::from_units(SCALE / 2);
    let x = fi(2).try_add(half).unwrap();
    let a = polynomial(&vec![fi(3), fi(5)]);
    let b = mult(var(), var());
    let ca = ad(&a, x);
    let cb = ad(&b, x);
    let a2 = polynomial(&vec![fi(3), fi(5)]);
    let b2 = mult(var(), var());
    let cp = ad(&mult(a2, b2), x);
    assert_eq!(cp.v, ca.v.try_mul(cb.v).unwrap());
    let t1 = ca.d.try_mul(cb.v).unwrap();
    let t2 = cb.d.try_mul(ca.v).unwrap();
    assert_eq!(cp.d, t1.try_add(t2).unwrap());
}

#[test]
fn empty_polynomial_is_zero_everywhere() {
    let p = polynomial(&vec![]);
    for xi in [-100i64, -1, 0, 1, 100] {
        let c = ad(&p, fi(xi));
        assert_eq!(c.v.units, 0);
        assert_eq!(c.d.units, 0);
    }
}

#[test]
fn single_coefficient_polynomial_is_constant() {
    let k = fi(-9);
    let p = polynomial(&vec![k]);
    for xi in [-100i64, -1, 0, 1, 100] {
        let c = ad(&p, fi(xi));
        assert_eq!(c.v, k);
        assert_eq!(c.d.units, 0);
    }
}

#[test]
fn polynomial_builds_horner_form() {
    // [a, b] must become (a * x) + b, the two-coefficient Horner step.
    let p = polynomial(&vec![fi(3), fi(5)]);
    match p {
        FN::Plus(l, r) => {
            match (*l, *r) {
                (FN::Mult(acc, x), FN::Const(b)) => {
                    assert!(matches!(*acc, FN::Const(a) if a == fi(3)));
                    assert!(matches!(*x, FN::Var));
                    assert_eq!(b, fi(5));
                }
                _ => panic!("inner shape is not a Horner step"),
            }
        }
        _ => panic!("outer node is not a sum"),
    }
}

#[test]
fn quadratic_value_and_derivative() {
    // f(x) = 3x^2 + 5x - 7 at x = 2: f = 15, f' = 17
    let f = polynomial(&vec![fi(3), fi(5), fi(-7)]);
    let c = ad(&f, fi(2));
    assert_eq!(c.v, fi(15));
    assert_eq!(c.d, fi(17));
}

#[test]
fn evaluation_is_idempotent() {
    let f = polynomial(&vec![fi(3), fi(5), fi(-7)]);
    let half = Fx::from_units(SCALE / 2);
    let x = fi(-2).try_sub(half).unwrap();
    let first = ad(&f, x);
    let second = ad(&f, x);
    assert_eq!(first, second);
    assert_eq!(first.v.units, second.v.units);
    assert_eq!(first.d.units, second.d.units);
}

#[test]
fn overflowing_evaluation_is_reported() {
    let big = fi((1 << 31) - 1);
    let e = mult(cnst(big), cnst(big));
    assert!(ad_checked(&e, fi(0)).is_none());
    let fine = mult(cnst(fi(3)), cnst(fi(5)));
    let c = ad_checked(&fine, fi(0)).unwrap();
    assert_eq!(c.v, fi(15));
    assert_eq!(c.d.units, 0);
}
