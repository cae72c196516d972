//! Integers of up to 129 bits, kept as a sign and a 128-bit magnitude.
//!
//! The terms of a controller step are products and sums of 64-bit values and
//! do not fit any machine integer. Every operation here returns the exact
//! result where its magnitude fits 128 bits and the nearest end of that range
//! where it does not, so that a final clamp into 64-bit bounds is exact.

use crate::model::quotient;
use crate::util::{clamp, limit_range};
use vstd::prelude::*;

verus! {

/// The largest magnitude that a [`Wide`] holds: `2^128 - 1`.
pub(crate) open spec fn wide_max() -> int {
    0xffff_ffff_ffff_ffff_ffff_ffff_ffff_ffff
}

/// `x` brought into the range of a [`Wide`].
pub(crate) open spec fn saturate_wide(x: int) -> int {
    clamp(-wide_max(), wide_max(), x)
}

/// A signed integer of magnitude below `2^128`.
#[derive(Clone, Copy)]
pub(crate) struct Wide {
    negative: bool,
    magnitude: u128,
}

impl View for Wide {
    type V = int;

    /// The integer that the pair stands for. Zero has two representations.
    closed spec fn view(&self) -> int {
        if self.negative {
            -(self.magnitude as int)
        } else {
            self.magnitude as int
        }
    }
}

/// `|k|` as an unsigned value.
fn magnitude_of(k: i128) -> (m: u128)
    ensures
        m == if k >= 0 { k as int } else { -(k as int) },
{
    if k >= 0 {
        k as u128
    } else {
        (-(k + 1)) as u128 + 1
    }
}

impl Wide {
    /// The value `x`, exactly.
    pub(crate) fn new(x: i128) -> (w: Wide)
        ensures
            w@ == x,
    {
        Wide { negative: x < 0, magnitude: magnitude_of(x) }
    }

    /// `self * k`, saturated.
    pub(crate) fn times(self, k: i64) -> (w: Wide)
        ensures
            w@ == saturate_wide(self@ * k),
    {
        let km = magnitude_of(k as i128);
        let negative = self.negative != (k < 0);
        proof {
            lemma_product_magnitude(self@, k as int, self.magnitude as int, km as int);
        }
        match self.magnitude.checked_mul(km) {
            Some(magnitude) => Wide { negative, magnitude },
            None => Wide { negative, magnitude: u128::MAX },
        }
    }

    /// `self / d`, rounded toward zero.
    pub(crate) fn over(self, d: i64) -> (w: Wide)
        requires
            d > 0,
        ensures
            w@ == quotient(self@, d as int),
    {
        Wide { negative: self.negative, magnitude: self.magnitude / (d as u128) }
    }

    /// `self + other`, saturated.
    pub(crate) fn plus(self, other: Wide) -> (w: Wide)
        ensures
            w@ == saturate_wide(self@ + other@),
    {
        if self.negative == other.negative {
            match self.magnitude.checked_add(other.magnitude) {
                Some(magnitude) => Wide { negative: self.negative, magnitude },
                None => Wide { negative: self.negative, magnitude: u128::MAX },
            }
        } else if self.magnitude >= other.magnitude {
            Wide { negative: self.negative, magnitude: self.magnitude - other.magnitude }
        } else {
            Wide { negative: other.negative, magnitude: other.magnitude - self.magnitude }
        }
    }

    /// `self` saturated into `[lo, hi]`, by the rule of [`limit_range`].
    pub(crate) fn clamp_into(self, lo: i64, hi: i64) -> (r: i64)
        ensures
            r == clamp(lo as int, hi as int, self@),
    {
        if !self.negative {
            if self.magnitude > i64::MAX as u128 {
                hi
            } else {
                limit_range(lo, hi, self.magnitude as i64)
            }
        } else if self.magnitude > 0x8000_0000_0000_0000u128 {
            lo
        } else {
            limit_range(lo, hi, (-(self.magnitude as i128)) as i64)
        }
    }
}

/// The magnitude of a product is the product of the magnitudes, and its sign
/// is negative only where exactly one factor is.
proof fn lemma_product_magnitude(a: int, b: int, am: int, bm: int)
    by (nonlinear_arith)
    requires
        am == if a >= 0 { a } else { -a },
        bm == if b >= 0 { b } else { -b },
    ensures
        am * bm == if (a < 0) != (b < 0) { -(a * b) } else { a * b },
        am * bm >= 0,
{
}

} // verus!
