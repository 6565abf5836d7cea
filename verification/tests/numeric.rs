use glyph_fonts::numeric::{inverse_lerp, lerp, remap, remap_clamp, NumExt, One};
use std::ops::{Add, Div, Mul, Sub};

/// A number with a fractional part, for which the library has no unit of its own.
#[derive(Clone, Copy, Debug, PartialEq, PartialOrd)]
struct Real64(f64);

impl One for Real64 {
    const ONE: Self = Real64(1.0);
}

impl Add for Real64 {
    type Output = Real64;

    fn add(self, rhs: Real64) -> Real64 {
        Real64(self.0 + rhs.0)
    }
}

impl Sub for Real64 {
    type Output = Real64;

    fn sub(self, rhs: Real64) -> Real64 {
        Real64(self.0 - rhs.0)
    }
}

impl Mul for Real64 {
    type Output = Real64;

    fn mul(self, rhs: Real64) -> Real64 {
        Real64(self.0 * rhs.0)
    }
}

impl Div for Real64 {
    type Output = Real64;

    fn div(self, rhs: Real64) -> Real64 {
        Real64(self.0 / rhs.0)
    }
}

fn range(start: f64, end: f64) -> std::ops::RangeInclusive<Real64> {
    Real64(start)..=Real64(end)
}

#[test]
fn test_remap() {
    assert_eq!(remap_clamp(Real64(1.0), range(0.0, 1.0), range(0.0, 16.0)), Real64(16.0));
    assert_eq!(remap_clamp(Real64(1.0), range(1.0, 0.0), range(16.0, 0.0)), Real64(16.0));
    assert_eq!(remap_clamp(Real64(0.5), range(1.0, 0.0), range(16.0, 0.0)), Real64(8.0));
}

#[test]
fn lerp_follows_the_fraction() {
    assert_eq!(lerp(range(1.0, 5.0), Real64(0.0)), Real64(1.0));
    assert_eq!(lerp(range(1.0, 5.0), Real64(0.5)), Real64(3.0));
    assert_eq!(lerp(range(1.0, 5.0), Real64(1.0)), Real64(5.0));
    assert_eq!(lerp(range(1.0, 5.0), Real64(2.0)), Real64(9.0));
    assert_eq!(lerp(1i32..=5i32, 2i32), 9);
    assert_eq!(lerp(1u8..=5u8, 1u8), 5);
}

#[test]
fn inverse_lerp_finds_the_fraction() {
    assert_eq!(inverse_lerp(range(1.0, 5.0), Real64(1.0)), Some(Real64(0.0)));
    assert_eq!(inverse_lerp(range(1.0, 5.0), Real64(3.0)), Some(Real64(0.5)));
    assert_eq!(inverse_lerp(range(1.0, 5.0), Real64(5.0)), Some(Real64(1.0)));
    assert_eq!(inverse_lerp(range(1.0, 5.0), Real64(9.0)), Some(Real64(2.0)));
    assert_eq!(inverse_lerp(range(1.0, 1.0), Real64(3.0)), None);
    assert_eq!(inverse_lerp(10i64..=20i64, 30i64), Some(2));
    assert_eq!(inverse_lerp(7u16..=7u16, 9u16), None);
}

#[test]
fn remap_carries_a_value_over() {
    assert_eq!(remap(Real64(3.0), range(1.0, 5.0), range(10.0, 50.0)), Real64(30.0));
    assert_eq!(remap(Real64(9.0), range(1.0, 5.0), range(10.0, 50.0)), Real64(90.0));
    assert_eq!(remap(3i64, 1..=5, 10..=50), 10);
    assert_eq!(remap(5i64, 1..=5, 10..=50), 50);
}

#[test]
fn remap_clamp_stays_in_range() {
    assert_eq!(remap_clamp(Real64(-3.0), range(0.0, 1.0), range(0.0, 16.0)), Real64(0.0));
    assert_eq!(remap_clamp(Real64(7.0), range(0.0, 1.0), range(0.0, 16.0)), Real64(16.0));
    assert_eq!(remap_clamp(Real64(0.25), range(0.0, 1.0), range(0.0, 16.0)), Real64(4.0));
    assert_eq!(remap_clamp(-5i32, 0..=10, 100..=200), 100);
    assert_eq!(remap_clamp(15i32, 0..=10, 100..=200), 200);
    assert_eq!(remap_clamp(10i32, 10..=0, 200..=100), 200);
}

#[test]
fn at_least_and_at_most_pick_a_bound() {
    assert_eq!(3u8.at_least(5), 5);
    assert_eq!(7u8.at_least(5), 7);
    assert_eq!(3i64.at_most(5), 3);
    assert_eq!(7i64.at_most(5), 5);
    assert_eq!(Real64(0.5).at_least(Real64(1.5)), Real64(1.5));
    assert_eq!(Real64(0.5).at_most(Real64(1.5)), Real64(0.5));
    assert_eq!(2.5f32.at_least(1.0), 2.5);
    assert_eq!(2.5f32.at_most(1.0), 1.0);
}

#[test]
fn one_is_the_unit() {
    assert_eq!(<u8 as One>::ONE, 1);
    assert_eq!(<i128 as One>::ONE, 1);
    assert_eq!(<usize as One>::ONE, 1);
}
