//! Fixed-point numbers: a real value is represented by its count of 2^-32
//! units, stored in an `i64`. Sums and differences are exact; products and
//! quotients are truncated toward zero to the nearest unit. Operations that
//! could leave the `i64` range report that instead of wrapping.

use vstd::prelude::*;

verus! {

/// One whole unit: the representation of the real number 1.
pub const SCALE: i64 = 0x1_0000_0000;

/// A fixed-point number; `units` counts multiples of 2^-32.
#[derive(Clone, Copy, Debug, PartialEq, Eq, Structural)]
pub struct Fx {
    pub units: i64,
}

impl View for Fx {
    type V = int;

    open spec fn view(&self) -> int {
        self.units as int
    }
}

/// Whether a unit count fits in the `i64` representation.
pub open spec fn in_range(v: int) -> bool {
    i64::MIN <= v <= i64::MAX
}

/// The magnitude of an integer.
pub open spec fn mag(a: int) -> int {
    if a >= 0 {
        a
    } else {
        -a
    }
}

/// Division truncated toward zero, the rounding used by products and
/// quotients of fixed-point numbers.
pub open spec fn tdiv(a: int, b: int) -> int
    recommends
        b != 0,
{
    if (a >= 0) == (b >= 0) {
        mag(a) / mag(b)
    } else {
        -(mag(a) / mag(b))
    }
}

/// The unit count of the product of two fixed-point numbers.
pub open spec fn mul_units(a: int, b: int) -> int {
    tdiv(a * b, SCALE as int)
}

/// The unit count of the quotient of two fixed-point numbers.
pub open spec fn div_units(a: int, b: int) -> int
    recommends
        b != 0,
{
    tdiv(a * (SCALE as int), b)
}

/// The magnitude of a product is the product of the magnitudes, and the
/// product's sign follows the signs of the factors.
proof fn lemma_mag_product(a: int, b: int)
    ensures
        mag(a) * mag(b) == mag(a * b),
        ((a >= 0) == (b >= 0)) ==> a * b >= 0,
        ((a >= 0) != (b >= 0)) ==> a * b <= 0,
{
    if a >= 0 && b >= 0 {
        assert(a * b >= 0) by (nonlinear_arith)
            requires
                a >= 0,
                b >= 0,
        ;
    } else if a < 0 && b < 0 {
        assert((-a) * (-b) == a * b && a * b >= 0) by (nonlinear_arith)
            requires
                a < 0,
                b < 0,
        ;
    } else if a < 0 {
        assert((-a) * b == -(a * b) && a * b <= 0) by (nonlinear_arith)
            requires
                a < 0,
                b >= 0,
        ;
    } else {
        assert(a * (-b) == -(a * b) && a * b <= 0) by (nonlinear_arith)
            requires
                a >= 0,
                b < 0,
        ;
    }
}

impl Fx {
    /// The number zero.
    pub fn zero() -> (r: Fx)
        ensures
            r@ == 0,
    {
        Fx { units: 0 }
    }

    /// The number one.
    pub fn one() -> (r: Fx)
        ensures
            r@ == SCALE,
    {
        Fx { units: SCALE }
    }

    /// The fixed-point representation of a whole number, where it fits.
    pub fn from_int(i: i64) -> (r: Option<Fx>)
        ensures
            r matches Some(s) ==> s@ == i * SCALE,
            r is Some <==> in_range(i * SCALE),
    {
        proof {
            assert(i128::MIN <= i * (SCALE as int) <= i128::MAX) by (nonlinear_arith)
                requires
                    i64::MIN <= i <= i64::MAX,
            ;
        }
        let w: i128 = (i as i128) * (SCALE as i128);
        if i64::MIN as i128 <= w && w <= i64::MAX as i128 {
            Some(Fx { units: w as i64 })
        } else {
            None
        }
    }

    /// The number made of a raw unit count.
    pub fn from_units(u: i64) -> (r: Fx)
        ensures
            r@ == u,
    {
        Fx { units: u }
    }

    /// The exact sum, or `None` where it leaves the representable range.
    pub fn try_add(self, o: Fx) -> (r: Option<Fx>)
        ensures
            r matches Some(s) ==> s@ == self@ + o@,
            r is Some <==> in_range(self@ + o@),
    {
        let w: i128 = (self.units as i128) + (o.units as i128);
        if i64::MIN as i128 <= w && w <= i64::MAX as i128 {
            Some(Fx { units: w as i64 })
        } else {
            None
        }
    }

    /// The exact difference, or `None` where it leaves the representable range.
    pub fn try_sub(self, o: Fx) -> (r: Option<Fx>)
        ensures
            r matches Some(s) ==> s@ == self@ - o@,
            r is Some <==> in_range(self@ - o@),
    {
        let w: i128 = (self.units as i128) - (o.units as i128);
        if i64::MIN as i128 <= w && w <= i64::MAX as i128 {
            Some(Fx { units: w as i64 })
        } else {
            None
        }
    }

    /// The product truncated toward zero to the nearest unit, or `None`
    /// where it leaves the representable range.
    pub fn try_mul(self, o: Fx) -> (r: Option<Fx>)
        ensures
            r matches Some(s) ==> s@ == mul_units(self@, o@),
            r is Some <==> in_range(mul_units(self@, o@)),
    {
        let a = self.units;
        let b = o.units;
        let ma: u128 = if a >= 0 {
            a as u128
        } else {
            (-(a as i128)) as u128
        };
        let mb: u128 = if b >= 0 {
            b as u128
        } else {
            (-(b as i128)) as u128
        };
        proof {
            lemma_mag_product(a as int, b as int);
            assert(ma * mb <= 0x8000_0000_0000_0000u128 * 0x8000_0000_0000_0000u128)
                by (nonlinear_arith)
                requires
                    ma <= 0x8000_0000_0000_0000u128,
                    mb <= 0x8000_0000_0000_0000u128,
            ;
        }
        let p: u128 = ma * mb;
        let q: u128 = p / (SCALE as u128);
        if (a < 0) != (b < 0) {
            if q <= 0x8000_0000_0000_0000u128 {
                Some(Fx { units: (-(q as i128)) as i64 })
            } else {
                None
            }
        } else {
            if q <= 0x7fff_ffff_ffff_ffffu128 {
                Some(Fx { units: q as i64 })
            } else {
                None
            }
        }
    }

    /// The quotient truncated toward zero to the nearest unit, or `None`
    /// where it leaves the representable range.
    pub fn try_div(self, o: Fx) -> (r: Option<Fx>)
        requires
            o@ != 0,
        ensures
            r matches Some(s) ==> s@ == div_units(self@, o@),
            r is Some <==> in_range(div_units(self@, o@)),
    {
        let a = self.units;
        let b = o.units;
        let ma: u128 = if a >= 0 {
            a as u128
        } else {
            (-(a as i128)) as u128
        };
        let mb: u128 = if b >= 0 {
            b as u128
        } else {
            (-(b as i128)) as u128
        };
        proof {
            lemma_mag_product(a as int, SCALE as int);
            assert(mag(a as int) * (SCALE as int) == mag(a as int * (SCALE as int)));
        }
        let p: u128 = ma * (SCALE as u128);
        let q: u128 = p / mb;
        if (a < 0) != (b < 0) {
            if q <= 0x8000_0000_0000_0000u128 {
                Some(Fx { units: (-(q as i128)) as i64 })
            } else {
                None
            }
        } else {
            if q <= 0x7fff_ffff_ffff_ffffu128 {
                Some(Fx { units: q as i64 })
            } else {
                None
            }
        }
    }

    /// Whether the magnitude of this number is at most `bound`.
    pub fn abs_le(self, bound: Fx) -> (r: bool)
        ensures
            r == (mag(self@) <= bound@),
    {
        if self.units >= 0 {
            self.units <= bound.units
        } else {
            -(self.units as i128) <= bound.units as i128
        }
    }
}

} // verus!
