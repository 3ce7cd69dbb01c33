//! Integer scaling between layout units and physical pixels.
//!
//! The UI toolkit lays widgets out in layout units; the window and the GPU
//! count physical pixels.  A [`Scale`] is the exact ratio between the two, so
//! that every conversion is integer arithmetic with one rounding step.

use vstd::prelude::*;
use vstd::arithmetic::div_mod::{lemma_div_is_ordered, lemma_fundamental_div_mod_converse};

verus! {

/// The integer nearest to `a / b`, ties rounded away from zero.
pub open spec fn round_div(a: int, b: int) -> int
    recommends
        b > 0,
{
    if a >= 0 {
        (a + b / 2) / b
    } else {
        -((b / 2 - a) / b)
    }
}

/// `x` held between `lo` and `hi`.
pub open spec fn clamp(x: int, lo: int, hi: int) -> int
    recommends
        lo <= hi,
{
    if x < lo {
        lo
    } else if x > hi {
        hi
    } else {
        x
    }
}

/// Rounding division never decreases when the dividend grows.
pub proof fn lemma_round_div_monotone(a1: int, a2: int, b: int)
    requires
        b > 0,
        a1 <= a2,
    ensures
        round_div(a1, b) <= round_div(a2, b),
{
    if a1 >= 0 {
        lemma_div_is_ordered(a1 + b / 2, a2 + b / 2, b);
    } else if a2 < 0 {
        lemma_div_is_ordered(b / 2 - a2, b / 2 - a1, b);
    } else {
        lemma_div_is_ordered(0, b / 2 - a1, b);
        lemma_div_is_ordered(0, a2 + b / 2, b);
    }
}

/// Rounding division is exact on multiples of the divisor.
pub proof fn lemma_round_div_exact(k: int, b: int)
    requires
        b > 0,
    ensures
        round_div(k * b, b) == k,
{
    let a = k * b;
    if k >= 0 {
        assert(a >= 0) by (nonlinear_arith)
            requires
                a == k * b,
                k >= 0,
                b > 0,
        ;
        lemma_fundamental_div_mod_converse(a + b / 2, b, k, b / 2);
    } else {
        assert(a < 0 && -a == (-k) * b) by (nonlinear_arith)
            requires
                a == k * b,
                k < 0,
                b > 0,
        ;
        lemma_fundamental_div_mod_converse(b / 2 - a, b, -k, b / 2);
    }
}

/// Rounding division keeps the sign of the dividend and never moves away
/// from zero past it.
pub proof fn lemma_round_div_bounds(a: int, b: int)
    requires
        b > 0,
    ensures
        a >= 0 ==> 0 <= round_div(a, b) <= a,
        a <= 0 ==> a <= round_div(a, b) <= 0,
{
    let m = if a >= 0 { a } else { -a };
    let h = b / 2;
    let q = (m + h) / b;
    lemma_div_is_ordered(0, m + h, b);
    assert(q <= m) by (nonlinear_arith)
        requires
            q == (m + h) / b,
            m >= 0,
            b > 0,
            0 <= h < b,
    {
        assert(m + h == b * ((m + h) / b) + (m + h) % b);
        assert((m + h) % b >= 0);
        if q > m {
            assert(b * q >= b * (m + 1));
            assert(b * (m + 1) == b * m + b);
            assert(b * m >= m);
        }
    }
}

/// How many physical pixels a number of layout units spans.
///
/// With one layout unit per point, three pixels to two units is a scale
/// factor of 1.5; finer units keep positions between points exact.
#[derive(Clone, Copy, Debug, PartialEq, Eq)]
pub struct Scale {
    pixels: u32,
    units: u32,
}

impl Scale {
    /// Both sides of the ratio are positive.
    #[verifier::type_invariant]
    pub closed spec fn wf(self) -> bool {
        self.pixels > 0 && self.units > 0
    }

    /// The pixel side of the ratio.
    pub closed spec fn pixels(self) -> int {
        self.pixels as int
    }

    /// The layout-unit side of the ratio.
    pub closed spec fn units(self) -> int {
        self.units as int
    }

    /// A well-formed scale is one with positive sides, and the sides fit 32
    /// bits.
    pub broadcast proof fn lemma_sides(self)
        ensures
            #[trigger] self.wf() <==> (self.pixels() > 0 && self.units() > 0),
            0 <= self.pixels() <= u32::MAX,
            0 <= self.units() <= u32::MAX,
    {
    }

    /// The physical position of layout position `x`.
    pub open spec fn to_pixels(self, x: int) -> int {
        round_div(x * self.pixels(), self.units())
    }

    /// The layout position of physical position `p`.
    pub open spec fn to_units(self, p: int) -> int {
        round_div(p * self.units(), self.pixels())
    }

    /// The scale of `pixels` physical pixels to `units` layout units, if both
    /// are positive.
    pub fn new(pixels: u32, units: u32) -> (r: Option<Scale>)
        ensures
            r is Some <==> (pixels > 0 && units > 0),
            r matches Some(s) ==> s.wf() && s.pixels() == pixels && s.units() == units,
    {
        if pixels > 0 && units > 0 {
            Some(Scale { pixels, units })
        } else {
            None
        }
    }

    /// The scale of `pixels` physical pixels to `units` layout units, with
    /// a side of zero taken for one.
    pub fn at_least_one(pixels: u32, units: u32) -> (s: Scale)
        ensures
            s.wf(),
            s.pixels() == (if pixels == 0 { 1 } else { pixels as int }),
            s.units() == (if units == 0 { 1 } else { units as int }),
    {
        Scale {
            pixels: if pixels == 0 { 1 } else { pixels },
            units: if units == 0 { 1 } else { units },
        }
    }

    /// One pixel per layout unit.
    pub fn identity() -> (s: Scale)
        ensures
            s.wf(),
            s.pixels() == 1,
            s.units() == 1,
    {
        Scale { pixels: 1, units: 1 }
    }

    /// The pixel side of the ratio.
    pub fn pixel_side(&self) -> (r: u32)
        ensures
            r == self.pixels(),
            r > 0,
    {
        proof {
            use_type_invariant(self);
        }
        self.pixels
    }

    /// The layout-unit side of the ratio.
    pub fn unit_side(&self) -> (r: u32)
        ensures
            r == self.units(),
            r > 0,
    {
        proof {
            use_type_invariant(self);
        }
        self.units
    }

    /// The layout position of a physical position.
    pub fn position_to_units(&self, p: i32) -> (r: i64)
        ensures
            r == self.to_units(p as int),
    {
        proof {
            use_type_invariant(self);
        }
        if p >= 0 {
            let q: u128 = rounded_ratio(p as u64, self.units, self.pixels);
            proof {
                lemma_product_bound(p as int, self.units as int, 0x8000_0000, 0xffff_ffff);
            }
            q as i64
        } else {
            let m: u64 = (-(p as i64)) as u64;
            let q: u128 = rounded_ratio(m, self.units, self.pixels);
            proof {
                lemma_product_bound(m as int, self.units as int, 0x8000_0000, 0xffff_ffff);
                assert(p * self.units() == -(m * self.units())) by (nonlinear_arith)
                    requires
                        p == -m,
                ;
                lemma_product_sign(m as int, self.units as int);
            }
            -(q as i64)
        }
    }

    /// The extent in layout units of an extent in physical pixels.
    pub fn extent_to_units(&self, extent: u32) -> (r: u64)
        ensures
            r == self.to_units(extent as int),
    {
        proof {
            use_type_invariant(self);
        }
        let q: u128 = rounded_ratio(extent as u64, self.units, self.pixels);
        proof {
            lemma_product_bound(extent as int, self.units as int, 0xffff_ffff, 0xffff_ffff);
        }
        q as u64
    }

    /// The physical position of layout position `x`, held between `lo` and
    /// `hi`.
    pub fn clamped_to_pixels(&self, x: i64, lo: u32, hi: u32) -> (r: u32)
        requires
            lo <= hi,
        ensures
            r == clamp(self.to_pixels(x as int), lo as int, hi as int),
    {
        proof {
            use_type_invariant(self);
        }
        if x <= 0 {
            proof {
                lemma_product_sign(-(x as int), self.pixels as int);
                assert(x * self.pixels() == -((-x) * self.pixels())) by (nonlinear_arith);
                lemma_round_div_bounds(x * self.pixels(), self.units());
            }
            lo
        } else {
            let q: u128 = rounded_ratio(x as u64, self.pixels, self.units);
            if q < lo as u128 {
                lo
            } else if q > hi as u128 {
                hi
            } else {
                q as u32
            }
        }
    }
}

/// A product of non-negative factors is non-negative.
proof fn lemma_product_sign(m: int, f: int)
    requires
        m >= 0,
        f >= 0,
    ensures
        m * f >= 0,
{
    assert(m * f >= 0) by (nonlinear_arith)
        requires
            m >= 0,
            f >= 0,
    ;
}

/// A product of bounded non-negative factors is bounded by the product of
/// the bounds.
proof fn lemma_product_bound(m: int, f: int, m_max: int, f_max: int)
    requires
        0 <= m <= m_max,
        0 <= f <= f_max,
    ensures
        0 <= m * f <= m_max * f_max,
{
    assert(0 <= m * f <= m_max * f_max) by (nonlinear_arith)
        requires
            0 <= m <= m_max,
            0 <= f <= f_max,
    ;
}

/// `m * mul / div`, rounded to the nearest integer.
fn rounded_ratio(m: u64, mul: u32, div: u32) -> (q: u128)
    requires
        div > 0,
    ensures
        q == round_div(m * mul, div as int),
        q <= m * mul,
{
    proof {
        lemma_product_bound(m as int, mul as int, 0xffff_ffff_ffff_ffff, 0xffff_ffff);
        lemma_round_div_bounds(m * mul, div as int);
    }
    let product: u128 = (m as u128) * (mul as u128);
    let dividend: u128 = product + (div / 2) as u128;
    dividend / (div as u128)
}

} // verus!
