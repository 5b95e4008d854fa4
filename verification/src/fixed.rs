//! Signed fixed-point numbers with six decimal places.
//!
//! A [`Fixed`] holds its value as a count of millionths in an `i64`. All
//! operations saturate at the ends of the `i64` range instead of overflowing,
//! and products and quotients round towards negative infinity.

use vstd::arithmetic::div_mod::lemma_fundamental_div_mod;
use vstd::arithmetic::div_mod::lemma_fundamental_div_mod_converse;
use vstd::prelude::*;

verus! {

/// Number of raw steps in one whole unit.
pub const SCALE: i64 = 1_000_000;

/// The nearest value to `v` that an `i64` can hold.
pub open spec fn saturate(v: int) -> int {
    if v < i64::MIN as int {
        i64::MIN as int
    } else if v > i64::MAX as int {
        i64::MAX as int
    } else {
        v
    }
}

/// The nearest value to `v` in `lo..=hi`.
pub open spec fn clamp_int(v: int, lo: int, hi: int) -> int {
    if v < lo {
        lo
    } else if v > hi {
        hi
    } else {
        v
    }
}

/// A number with six decimal places; `raw` counts millionths.
#[derive(Clone, Copy, Debug, PartialEq, Eq, Structural)]
pub struct Fixed {
    pub raw: i64,
}

impl View for Fixed {
    type V = int;

    /// The value in millionths.
    open spec fn view(&self) -> int {
        self.raw as int
    }
}

/// The fixed-point number with `raw` millionths, for `raw` within `i64`.
pub open spec fn fixed(raw: int) -> Fixed {
    Fixed { raw: raw as i64 }
}

impl Fixed {
    /// The whole number `n`, saturated.
    pub open spec fn whole(n: int) -> Fixed {
        fixed(saturate(n * SCALE))
    }

    /// `self + rhs`, saturated.
    pub open spec fn sum(self, rhs: Fixed) -> Fixed {
        fixed(saturate(self@ + rhs@))
    }

    /// `self - rhs`, saturated.
    pub open spec fn difference(self, rhs: Fixed) -> Fixed {
        fixed(saturate(self@ - rhs@))
    }

    /// `self * rhs`, rounded down to a millionth and saturated.
    pub open spec fn product(self, rhs: Fixed) -> Fixed {
        fixed(saturate((self@ * rhs@) / (SCALE as int)))
    }

    /// `self / rhs` for a positive `rhs`, rounded down to a millionth and
    /// saturated.
    pub open spec fn quotient(self, rhs: Fixed) -> Fixed
        recommends
            rhs@ > 0,
    {
        fixed(saturate((self@ * SCALE) / rhs@))
    }

    /// `self` limited to `lo..=hi`.
    pub open spec fn clamped(self, lo: Fixed, hi: Fixed) -> Fixed
        recommends
            lo@ <= hi@,
    {
        fixed(clamp_int(self@, lo@, hi@))
    }

    /// The larger of `self` and `other`.
    pub open spec fn larger(self, other: Fixed) -> Fixed {
        if self@ >= other@ {
            self
        } else {
            other
        }
    }

    /// The largest whole number not above `self`.
    pub open spec fn floor(self) -> int {
        self@ / (SCALE as int)
    }

    /// The number with `raw` millionths.
    pub fn from_raw(raw: i64) -> (r: Fixed)
        ensures
            r@ == raw,
    {
        Fixed { raw }
    }

    /// The whole number `n`; saturates where `n` millions do not fit.
    pub fn from_int(n: i64) -> (r: Fixed)
        ensures
            r == Fixed::whole(n as int),
    {
        proof {
            lemma_product_fits(n as int, SCALE as int);
        }
        let wide: i128 = (n as i128) * (SCALE as i128);
        Fixed { raw: narrow(wide) }
    }

    /// The whole number `n`; saturates where `n` millions do not fit.
    pub fn from_u64(n: u64) -> (r: Fixed)
        ensures
            r == Fixed::whole(n as int),
    {
        if n > i64::MAX as u64 {
            Fixed { raw: i64::MAX }
        } else {
            Fixed::from_int(n as i64)
        }
    }

    /// Saturating addition.
    pub fn saturating_add(self, rhs: Fixed) -> (r: Fixed)
        ensures
            r == self.sum(rhs),
    {
        let wide: i128 = (self.raw as i128) + (rhs.raw as i128);
        Fixed { raw: narrow(wide) }
    }

    /// Saturating subtraction.
    pub fn saturating_sub(self, rhs: Fixed) -> (r: Fixed)
        ensures
            r == self.difference(rhs),
    {
        let wide: i128 = (self.raw as i128) - (rhs.raw as i128);
        Fixed { raw: narrow(wide) }
    }

    /// Saturating multiplication, rounding down.
    pub fn saturating_mul(self, rhs: Fixed) -> (r: Fixed)
        ensures
            r == self.product(rhs),
    {
        proof {
            lemma_product_fits(self.raw as int, rhs.raw as int);
        }
        let wide: i128 = (self.raw as i128) * (rhs.raw as i128);
        Fixed { raw: narrow(floor_div(wide, SCALE as i128)) }
    }

    /// Saturating division by a positive number, rounding down.
    pub fn saturating_div(self, rhs: Fixed) -> (r: Fixed)
        requires
            rhs@ > 0,
        ensures
            r == self.quotient(rhs),
    {
        proof {
            lemma_product_fits(self.raw as int, SCALE as int);
        }
        let wide: i128 = (self.raw as i128) * (SCALE as i128);
        Fixed { raw: narrow(floor_div(wide, rhs.raw as i128)) }
    }

    /// `self` limited to `lo..=hi`.
    pub fn clamp(self, lo: Fixed, hi: Fixed) -> (r: Fixed)
        requires
            lo@ <= hi@,
        ensures
            r == self.clamped(lo, hi),
            lo@ <= r@ <= hi@,
    {
        if self.raw < lo.raw {
            lo
        } else if self.raw > hi.raw {
            hi
        } else {
            self
        }
    }

    /// The larger of `self` and `other`.
    pub fn max(self, other: Fixed) -> (r: Fixed)
        ensures
            r == self.larger(other),
            r@ >= self@,
            r@ >= other@,
    {
        if self.raw >= other.raw {
            self
        } else {
            other
        }
    }

    /// The whole part, rounded down.
    pub fn floor_units(self) -> (n: i64)
        ensures
            n == self.floor(),
    {
        let q: i128 = floor_div(self.raw as i128, SCALE as i128);
        q as i64
    }
}

/// The nearest `i64` to `v`.
fn narrow(v: i128) -> (r: i64)
    ensures
        r == saturate(v as int),
{
    if v < i64::MIN as i128 {
        i64::MIN
    } else if v > i64::MAX as i128 {
        i64::MAX
    } else {
        v as i64
    }
}

/// `n / d` rounded towards negative infinity.
fn floor_div(n: i128, d: i128) -> (q: i128)
    requires
        0 < d <= i64::MAX,
        -0x4000_0000_0000_0000_0000_0000_0000_0000 <= n <= 0x4000_0000_0000_0000_0000_0000_0000_0000,
    ensures
        q == (n as int) / (d as int),
{
    if n >= 0 {
        n / d
    } else {
        let m: i128 = -n;
        let c: i128 = (m + d - 1) / d;
        proof {
            let t = (m + d - 1) as int;
            let r = c * d - m;
            lemma_fundamental_div_mod(t, d as int);
            assert(0 <= r < d && n == (-c) * d + r) by (nonlinear_arith)
                requires
                    t == d * c + t % (d as int),
                    0 <= t % (d as int) < d,
                    t == m + d - 1,
                    r == c * d - m,
                    n == -m,
            ;
            lemma_fundamental_div_mod_converse(n as int, d as int, -c as int, r as int);
        }
        -c
    }
}

/// A product of two `i64` values fits well inside an `i128`.
pub proof fn lemma_product_fits(a: int, b: int)
    requires
        i64::MIN <= a <= i64::MAX,
        i64::MIN <= b <= i64::MAX,
    ensures
        -0x4000_0000_0000_0000_0000_0000_0000_0000 <= a * b <= 0x4000_0000_0000_0000_0000_0000_0000_0000,
{
    assert(-0x4000_0000_0000_0000_0000_0000_0000_0000 <= a * b
        <= 0x4000_0000_0000_0000_0000_0000_0000_0000) by (nonlinear_arith)
        requires
            -0x8000_0000_0000_0000 <= a <= 0x8000_0000_0000_0000,
            -0x8000_0000_0000_0000 <= b <= 0x8000_0000_0000_0000,
    ;
}

} // verus!
