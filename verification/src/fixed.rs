//! Fixed-point numbers for layout metrics.
//!
//! Every length, ratio and factor of the text layout is a [`Fixed`]: an integer
//! count of 1/65536ths. Products and quotients are rounded to the nearest
//! representable value, ties away from zero, and every operation reports a
//! result that does not fit instead of wrapping.

use vstd::prelude::*;

verus! {

/// The raw value of the number one.
pub const UNIT: i64 = 65536;

/// The raw value of one half.
pub const HALF: i64 = 32768;

/// The raw distance between two neighbours of the layout grid: 1/32 of a unit.
pub const GRID_STEP: i64 = 2048;

/// A fixed-point number with sixteen fractional bits: it stands for `raw / 65536`.
#[derive(Clone, Copy, Debug, PartialEq, Eq, Hash, Structural)]
pub struct Fixed {
    pub raw: i64,
}

/// The distance of `x` from zero.
pub open spec fn magnitude(x: int) -> int {
    if x < 0 {
        -x
    } else {
        x
    }
}

/// `n / d` rounded to the nearest integer, a tie going away from zero.
pub open spec fn round_ratio(n: int, d: int) -> int
    recommends
        d != 0,
{
    let q = (2 * magnitude(n) + magnitude(d)) / (2 * magnitude(d));
    if (n < 0) != (d < 0) {
        -q
    } else {
        q
    }
}

/// Whether `x` can be the raw value of a [`Fixed`].
pub open spec fn fits(x: int) -> bool {
    i64::MIN <= x <= i64::MAX
}

/// The number with raw value `x`, if there is one.
pub open spec fn checked(x: int) -> Option<Fixed> {
    if fits(x) {
        Some(Fixed { raw: x as i64 })
    } else {
        None
    }
}

/// The raw value of the sum.
pub open spec fn sum_raw(a: Fixed, b: Fixed) -> int {
    a.raw + b.raw
}

/// The raw value of the difference.
pub open spec fn difference_raw(a: Fixed, b: Fixed) -> int {
    a.raw - b.raw
}

/// The raw value of the rounded product.
pub open spec fn product_raw(a: Fixed, b: Fixed) -> int {
    round_ratio(a.raw * b.raw, UNIT as int)
}

/// The raw value of the rounded quotient.
pub open spec fn quotient_raw(a: Fixed, b: Fixed) -> int
    recommends
        b.raw != 0,
{
    round_ratio(a.raw * UNIT, b.raw as int)
}

/// The raw value of the multiple of `step` that is nearest to `a`.
pub open spec fn rounded_raw(a: Fixed, step: int) -> int
    recommends
        step > 0,
{
    round_ratio(a.raw as int, step) * step
}

/// The rounded ratio is the whole number nearest to the ratio: `q` is the
/// magnitude of the rounded ratio of `n` and `d` where `q * |d|` is within
/// half of `|d|` of `|n|`, the upper end left out. The sign is that of the
/// ratio.
pub proof fn lemma_round_ratio_is_nearest(n: int, d: int, q: int)
    requires
        d != 0,
        2 * magnitude(d) * q <= 2 * magnitude(n) + magnitude(d) < 2 * magnitude(d) * (q + 1),
    ensures
        round_ratio(n, d) == if (n < 0) != (d < 0) {
            -q
        } else {
            q
        },
{
    let m = magnitude(n);
    let e = magnitude(d);
    assert((2 * m + e) / (2 * e) == q) by (nonlinear_arith)
        requires
            e >= 1,
            2 * e * q <= 2 * m + e < 2 * e * (q + 1),
    {
        let k = (2 * m + e) / (2 * e);
        let r = (2 * m + e) % (2 * e);
        assert(2 * m + e == (2 * e) * k + r);
        assert(0 <= r < 2 * e);
        if k < q {
            assert((2 * e) * (k + 1) <= (2 * e) * q);
        }
        if k > q {
            assert((2 * e) * (q + 1) <= (2 * e) * k);
        }
    }
}

/// The magnitude of a rounded ratio is the rounded ratio of the magnitudes,
/// and never above the magnitude of the numerator.
pub proof fn lemma_round_ratio_bound(n: int, d: int)
    requires
        d != 0,
    ensures
        magnitude(round_ratio(n, d)) == (2 * magnitude(n) + magnitude(d)) / (2 * magnitude(d)),
        magnitude(round_ratio(n, d)) <= magnitude(n),
        n == 0 ==> round_ratio(n, d) == 0,
{
    let m = magnitude(n);
    let e = magnitude(d);
    let q = (2 * m + e) / (2 * e);
    assert(q >= 0 && q <= m) by (nonlinear_arith)
        requires
            q == (2 * m + e) / (2 * e),
            m >= 0,
            e >= 1,
    {
        if m == 0 {
            assert((2 * m + e) / (2 * e) == 0);
        } else {
            assert(2 * m + e <= 2 * e * m + e);
            assert((2 * e * m + e) / (2 * e) == m);
        }
    }
}

/// Rounding to a multiple of the step moves a value by at most the step.
pub proof fn lemma_rounded_raw_bound(a: Fixed, step: int)
    requires
        step > 0,
    ensures
        magnitude(rounded_raw(a, step)) <= magnitude(a.raw as int) + step,
        rounded_raw(a, step) % step == 0,
{
    let m = magnitude(a.raw as int);
    let q = (2 * m + step) / (2 * step);
    lemma_round_ratio_bound(a.raw as int, step);
    assert(q * step <= m + step && q >= 0) by (nonlinear_arith)
        requires
            q == (2 * m + step) / (2 * step),
            m >= 0,
            step > 0,
    {
        assert(q * (2 * step) <= 2 * m + step);
    }
    let r = round_ratio(a.raw as int, step);
    assert(magnitude(r) == q);
    assert(magnitude(r * step) == q * step) by (nonlinear_arith)
        requires
            magnitude(r) == q,
            step > 0,
    {
    }
    assert((r * step) % step == 0) by (nonlinear_arith)
        requires
            step > 0,
    {
    }
}

/// `n / d` rounded to the nearest integer, where `n` is given by its sign and
/// its magnitude.
fn rounded_quotient(negative: bool, numerator: u128, d: i64) -> (r: Option<i64>)
    requires
        d != 0,
        numerator <= 0x4000_0000_0000_0000_0000_0000_0000_0000,
        negative ==> numerator != 0,
    ensures
        r matches Some(q) ==> q == round_ratio(
            if negative {
                -(numerator as int)
            } else {
                numerator as int
            },
            d as int,
        ),
        r is Some <==> fits(
            round_ratio(
                if negative {
                    -(numerator as int)
                } else {
                    numerator as int
                },
                d as int,
            ),
        ),
{
    let divisor: u128 = if d < 0 {
        (-(d as i128)) as u128
    } else {
        d as u128
    };
    let q: u128 = (2 * numerator + divisor) / (2 * divisor);
    if negative != (d < 0) {
        if q <= 0x8000_0000_0000_0000 {
            Some((-(q as i128)) as i64)
        } else {
            None
        }
    } else {
        if q <= 0x7fff_ffff_ffff_ffff {
            Some(q as i64)
        } else {
            None
        }
    }
}

impl Fixed {
    /// The number zero.
    pub fn zero() -> (r: Fixed)
        ensures
            r.raw == 0,
    {
        Fixed { raw: 0 }
    }

    /// The whole number `n`.
    pub fn from_int(n: i32) -> (r: Fixed)
        ensures
            r.raw == n * UNIT,
    {
        Fixed { raw: (n as i64) * UNIT }
    }

    /// The number that stands for `raw / 65536`.
    pub fn from_raw(raw: i64) -> (r: Fixed)
        ensures
            r.raw == raw,
    {
        Fixed { raw }
    }

    /// `self + rhs`, unless the sum does not fit.
    pub fn checked_add(self, rhs: Fixed) -> (r: Option<Fixed>)
        ensures
            r == checked(sum_raw(self, rhs)),
    {
        let sum: i128 = self.raw as i128 + rhs.raw as i128;
        if -0x8000_0000_0000_0000 <= sum && sum <= 0x7fff_ffff_ffff_ffff {
            Some(Fixed { raw: sum as i64 })
        } else {
            None
        }
    }

    /// `self - rhs`, unless the difference does not fit.
    pub fn checked_sub(self, rhs: Fixed) -> (r: Option<Fixed>)
        ensures
            r == checked(difference_raw(self, rhs)),
    {
        let difference: i128 = self.raw as i128 - rhs.raw as i128;
        if -0x8000_0000_0000_0000 <= difference && difference <= 0x7fff_ffff_ffff_ffff {
            Some(Fixed { raw: difference as i64 })
        } else {
            None
        }
    }

    /// `self * rhs` rounded to the nearest representable value, unless that
    /// does not fit.
    pub fn checked_mul(self, rhs: Fixed) -> (r: Option<Fixed>)
        ensures
            r == checked(product_raw(self, rhs)),
    {
        let a: u128 = if self.raw < 0 {
            (-(self.raw as i128)) as u128
        } else {
            self.raw as u128
        };
        let b: u128 = if rhs.raw < 0 {
            (-(rhs.raw as i128)) as u128
        } else {
            rhs.raw as u128
        };
        assert(a * b <= 0x4000_0000_0000_0000_0000_0000_0000_0000 && a * b == magnitude(
            self.raw * rhs.raw,
        ) && (self.raw * rhs.raw < 0 <==> (self.raw < 0) != (rhs.raw < 0) && a * b != 0))
            by (nonlinear_arith)
            requires
                a == magnitude(self.raw as int),
                b == magnitude(rhs.raw as int),
                a <= 0x8000_0000_0000_0000,
                b <= 0x8000_0000_0000_0000,
        {
        }
        let product: u128 = a * b;
        let negative = (self.raw < 0) != (rhs.raw < 0) && product != 0;
        match rounded_quotient(negative, product, UNIT) {
            Some(raw) => Some(Fixed { raw }),
            None => None,
        }
    }

    /// `self / rhs` rounded to the nearest representable value, unless `rhs`
    /// is zero or the quotient does not fit.
    pub fn checked_div(self, rhs: Fixed) -> (r: Option<Fixed>)
        ensures
            r == if rhs.raw == 0 {
                None
            } else {
                checked(quotient_raw(self, rhs))
            },
    {
        if rhs.raw == 0 {
            return None;
        }
        let a: u128 = if self.raw < 0 {
            (-(self.raw as i128)) as u128
        } else {
            self.raw as u128
        };
        let numerator: u128 = a * 65536;
        match rounded_quotient(self.raw < 0, numerator, rhs.raw) {
            Some(raw) => Some(Fixed { raw }),
            None => None,
        }
    }

    /// The multiple of `step` that is nearest to `self`, a tie going away from
    /// zero, unless it does not fit.
    pub fn checked_round_to(self, step: i64) -> (r: Option<Fixed>)
        requires
            step > 0,
        ensures
            r == checked(rounded_raw(self, step as int)),
    {
        let a: u128 = if self.raw < 0 {
            (-(self.raw as i128)) as u128
        } else {
            self.raw as u128
        };
        proof {
            lemma_round_ratio_bound(self.raw as int, step as int);
        }
        match rounded_quotient(self.raw < 0, a, step) {
            Some(q) => {
                assert(-0x8000_0000_0000_0000 * 0x8000_0000_0000_0000 <= q * step
                    <= 0x8000_0000_0000_0000 * 0x8000_0000_0000_0000) by (nonlinear_arith)
                    requires
                        -0x8000_0000_0000_0000 <= q <= 0x7fff_ffff_ffff_ffff,
                        0 < step <= 0x7fff_ffff_ffff_ffff,
                {
                }
                let multiple: i128 = (q as i128) * (step as i128);
                if -0x8000_0000_0000_0000 <= multiple && multiple <= 0x7fff_ffff_ffff_ffff {
                    Some(Fixed { raw: multiple as i64 })
                } else {
                    None
                }
            },
            None => {
                assert(false);
                None
            },
        }
    }

    /// The nearest whole number, unless it does not fit.
    pub fn checked_round(self) -> (r: Option<Fixed>)
        ensures
            r == checked(rounded_raw(self, UNIT as int)),
    {
        self.checked_round_to(UNIT)
    }

    /// The nearest point of the layout grid, unless it does not fit.
    pub fn checked_round_to_grid(self) -> (r: Option<Fixed>)
        ensures
            r == checked(rounded_raw(self, GRID_STEP as int)),
    {
        self.checked_round_to(GRID_STEP)
    }

    /// `self / n` for a whole number `n` above zero, rounded to the nearest
    /// representable value.
    pub fn div_int(self, n: i64) -> (r: Fixed)
        requires
            n > 0,
        ensures
            r.raw == round_ratio(self.raw as int, n as int),
    {
        let a: u128 = if self.raw < 0 {
            (-(self.raw as i128)) as u128
        } else {
            self.raw as u128
        };
        proof {
            lemma_round_ratio_bound(self.raw as int, n as int);
        }
        match rounded_quotient(self.raw < 0, a, n) {
            Some(raw) => Fixed { raw },
            None => {
                assert(false);
                Fixed { raw: 0 }
            },
        }
    }

    /// Whether `self` is below `rhs`.
    pub fn less_than(self, rhs: Fixed) -> (r: bool)
        ensures
            r == (self.raw < rhs.raw),
    {
        self.raw < rhs.raw
    }

    /// The smaller of the two numbers.
    pub fn min(self, rhs: Fixed) -> (r: Fixed)
        ensures
            r.raw == if self.raw <= rhs.raw {
                self.raw
            } else {
                rhs.raw
            },
    {
        if self.raw <= rhs.raw {
            self
        } else {
            rhs
        }
    }
}

} // verus!
