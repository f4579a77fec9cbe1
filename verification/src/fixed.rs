//! Fixed-point scalars: one engineering unit (a millimetre, a newton, a
//! second) is `FIX_SCALE` micro-units, held in an `i64`.

use vstd::prelude::*;

verus! {

/// Micro-units per engineering unit.
pub const FIX_SCALE: i64 = 1_000_000;

/// Largest magnitude, in micro-units, that the library ever carries in a
/// `Fix`: a thousand million units, far beyond any reachable pose or force.
pub const FIX_LIM: i64 = 1_000_000_000_000_000;

/// A fixed-point scalar in micro-units.
#[derive(Clone, Copy, PartialEq, Eq, Structural, Debug)]
pub struct Fix {
    pub micros: i64,
}

impl View for Fix {
    type V = int;

    open spec fn view(&self) -> int {
        self.micros as int
    }
}

/// Whether a mathematical value is within the range the library carries.
pub open spec fn fits_fix(x: int) -> bool {
    -(FIX_LIM as int) <= x <= FIX_LIM as int
}

/// Division truncating toward zero, the rounding that every scaled
/// operation of the library uses; meaningful for `b > 0`.
pub open spec fn div_tz(a: int, b: int) -> int
    recommends
        b > 0,
{
    if a >= 0 {
        a / b
    } else {
        -((-a) / b)
    }
}

/// A gain applied to a value: the product of two micro-unit scalars,
/// rescaled back to micro-units, truncated toward zero.
pub open spec fn gmul(g: int, v: int) -> int {
    div_tz(g * v, FIX_SCALE as int)
}

impl Fix {
    /// Whether this scalar is within the library's working range.
    pub open spec fn valid(self) -> bool {
        fits_fix(self@)
    }

    /// The scalar holding exactly `micros` micro-units.
    pub fn from_micros(micros: i64) -> (r: Fix)
        ensures
            r@ == micros as int,
    {
        Fix { micros }
    }

    /// The scalar for a whole number of engineering units.
    pub fn from_units(units: i64) -> (r: Fix)
        requires
            -1_000_000_000 <= units <= 1_000_000_000,
        ensures
            r@ == units * FIX_SCALE as int,
            r.valid(),
    {
        Fix { micros: units * FIX_SCALE }
    }

    /// The zero scalar.
    pub fn zero() -> (r: Fix)
        ensures
            r@ == 0,
            r.valid(),
    {
        Fix { micros: 0 }
    }

    /// Sum of two scalars; `None` when the sum leaves the working range.
    pub fn plus(self, other: Fix) -> (r: Option<Fix>)
        requires
            self.valid(),
            other.valid(),
        ensures
            r is Some <==> fits_fix(self@ + other@),
            r is Some ==> r->Some_0@ == self@ + other@ && r->Some_0.valid(),
    {
        let s: i64 = self.micros + other.micros;
        if -FIX_LIM <= s && s <= FIX_LIM {
            Some(Fix { micros: s })
        } else {
            None
        }
    }

    /// Difference of two scalars; `None` when it leaves the working range.
    pub fn minus(self, other: Fix) -> (r: Option<Fix>)
        requires
            self.valid(),
            other.valid(),
        ensures
            r is Some <==> fits_fix(self@ - other@),
            r is Some ==> r->Some_0@ == self@ - other@ && r->Some_0.valid(),
    {
        let d: i64 = self.micros - other.micros;
        if -FIX_LIM <= d && d <= FIX_LIM {
            Some(Fix { micros: d })
        } else {
            None
        }
    }

    /// The scalar with the opposite sign.
    pub fn neg(self) -> (r: Fix)
        requires
            self.valid(),
        ensures
            r@ == -self@,
            r.valid(),
    {
        Fix { micros: -self.micros }
    }
}

/// Truncating division of a possibly negative product by a positive divisor,
/// carried out on magnitudes so that the rounding is exactly `div_tz`.
pub fn div_i128_tz(a: i128, b: u64) -> (r: i128)
    requires
        b > 0,
        -0x4000_0000_0000_0000_0000_0000_0000_0000 < a,
    ensures
        r == div_tz(a as int, b as int),
{
    if a >= 0 {
        let q: u128 = (a as u128) / (b as u128);
        q as i128
    } else {
        let m: u128 = (-a) as u128;
        let q: u128 = m / (b as u128);
        -(q as i128)
    }
}

/// `gmul` of two in-range scalars; `None` when the result leaves the range.
pub fn mul_gain(g: Fix, v: Fix) -> (r: Option<Fix>)
    requires
        g.valid(),
        v.valid(),
    ensures
        r is Some <==> fits_fix(gmul(g@, v@)),
        r is Some ==> r->Some_0@ == gmul(g@, v@) && r->Some_0.valid(),
{
    proof {
        assert((-(FIX_LIM as int)) * (FIX_LIM as int) <= g@ * v@ <= (FIX_LIM as int) * (
        FIX_LIM as int)) by (nonlinear_arith)
            requires
                fits_fix(g@),
                fits_fix(v@),
        ;
    }
    let p: i128 = (g.micros as i128) * (v.micros as i128);
    let q: i128 = div_i128_tz(p, 1_000_000);
    if -(FIX_LIM as i128) <= q && q <= FIX_LIM as i128 {
        Some(Fix { micros: q as i64 })
    } else {
        None
    }
}

} // verus!
