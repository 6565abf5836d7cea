//! The metrics of a typeface at one size, derived once when a font is made.

use crate::fixed::{checked, difference_raw, product_raw, quotient_raw, rounded_raw, sum_raw};
use crate::fixed::{Fixed, GRID_STEP, HALF, UNIT};
use vstd::prelude::*;

verus! {

/// The largest magnitude, as a raw value, of the vertical offset of a font.
pub const MAX_OFFSET: i64 = 0x4000_0000_0000_0000;

/// What a typeface says of a line of text at the size at which it is asked
/// (unit: pixels).
#[derive(Clone, Copy, Debug, PartialEq, Eq, Structural)]
pub struct LineMetrics {
    /// How far the tallest glyphs rise above the baseline.
    pub ascent: Fixed,
    /// How far the deepest glyphs reach below the baseline: a negative number.
    pub descent: Fixed,
    /// The room between the descent of one line and the ascent of the next.
    pub line_gap: Fixed,
}

/// Adjustments to how a typeface is shown.
#[derive(Clone, Copy, Debug, PartialEq, Eq, Structural)]
pub struct FontTweak {
    /// Scales the glyphs, which are then centred again in the row. Default: 1.
    pub scale: Fixed,
    /// Shifts the glyphs down by this share of their size. Default: 0.
    pub y_offset_factor: Fixed,
    /// Shifts the glyphs down by this length (unit: points). Default: 0.
    pub y_offset: Fixed,
    /// Shifts the baseline down by this share of the size, without moving
    /// the glyphs. Default: 0.
    pub baseline_offset_factor: Fixed,
}

/// The tweak that changes nothing.
pub open spec fn no_tweak() -> FontTweak {
    FontTweak {
        scale: Fixed { raw: UNIT },
        y_offset_factor: Fixed { raw: 0 },
        y_offset: Fixed { raw: 0 },
        baseline_offset_factor: Fixed { raw: 0 },
    }
}

impl Default for FontTweak {
    fn default() -> (r: FontTweak)
        ensures
            r == no_tweak(),
    {
        FontTweak {
            scale: Fixed::from_int(1),
            y_offset_factor: Fixed::zero(),
            y_offset: Fixed::zero(),
            baseline_offset_factor: Fixed::zero(),
        }
    }
}

/// The metrics of a font: a typeface at one size on one screen.
#[derive(Clone, Copy, Debug, PartialEq, Eq, Structural)]
pub struct FontMetrics {
    /// The height at which glyphs are rasterized: a whole number of pixels.
    pub scale_in_pixels: u32,
    /// The height of a row of text (unit: points): a point of the layout grid.
    pub row_height: Fixed,
    /// How far every glyph is moved down (unit: points): a whole number of pixels.
    pub y_offset: Fixed,
    /// The distance from the top of a row to the baseline (unit: points).
    pub ascent: Fixed,
    /// How many pixels make a point.
    pub pixels_per_point: Fixed,
}

impl FontMetrics {
    /// Whether a font can have the metrics: a point has more than no pixels,
    /// and the offset of the glyphs is within its limit.
    pub open spec fn wf(self) -> bool {
        &&& self.pixels_per_point.raw > 0
        &&& -MAX_OFFSET <= self.y_offset.raw <= MAX_OFFSET
    }
}

/// The sum, where both numbers exist and their sum fits.
pub open spec fn plus(a: Option<Fixed>, b: Option<Fixed>) -> Option<Fixed> {
    if a is Some && b is Some {
        checked(sum_raw(a->0, b->0))
    } else {
        None
    }
}

/// The difference, where both numbers exist and their difference fits.
pub open spec fn minus(a: Option<Fixed>, b: Option<Fixed>) -> Option<Fixed> {
    if a is Some && b is Some {
        checked(difference_raw(a->0, b->0))
    } else {
        None
    }
}

/// The rounded product, where both numbers exist and their product fits.
pub open spec fn times(a: Option<Fixed>, b: Option<Fixed>) -> Option<Fixed> {
    if a is Some && b is Some {
        checked(product_raw(a->0, b->0))
    } else {
        None
    }
}

/// The rounded quotient, where both numbers exist, the second is not zero and
/// their quotient fits.
pub open spec fn over(a: Option<Fixed>, b: Option<Fixed>) -> Option<Fixed> {
    if a is Some && b is Some && (b->0).raw != 0 {
        checked(quotient_raw(a->0, b->0))
    } else {
        None
    }
}

/// The nearest multiple of `step`, where the number exists and the multiple fits.
pub open spec fn round_to(a: Option<Fixed>, step: int) -> Option<Fixed> {
    if a is Some {
        checked(rounded_raw(a->0, step))
    } else {
        None
    }
}

/// The whole number of pixels that a length in pixels is cut to: none for a
/// length below zero, and the largest count that there is for one above it.
pub open spec fn whole_pixels(length: Fixed) -> u32 {
    if length.raw <= 0 {
        0
    } else if (length.raw as int) / (UNIT as int) > u32::MAX {
        u32::MAX
    } else {
        ((length.raw as int) / (UNIT as int)) as u32
    }
}

/// A length in pixels as a length in points, rounded to the layout grid.
pub open spec fn grid_points(pixels: Fixed, pixels_per_point: Fixed) -> Option<Fixed> {
    round_to(over(Some(pixels), Some(pixels_per_point)), GRID_STEP as int)
}

/// The height of the glyphs, in pixels, once the tweak has scaled it.
pub open spec fn tweaked_scale(scale_in_pixels: Fixed, tweak: FontTweak) -> Option<Fixed> {
    times(Some(scale_in_pixels), Some(tweak.scale))
}

/// How far the tweak moves the baseline down (unit: points): its share of the
/// tweaked size, rounded to the layout grid.
pub open spec fn baseline_offset(
    pixels_per_point: Fixed,
    scale_in_pixels: Fixed,
    tweak: FontTweak,
) -> Option<Fixed> {
    let scale_in_points = over(tweaked_scale(scale_in_pixels, tweak), Some(pixels_per_point));
    round_to(times(scale_in_points, Some(tweak.baseline_offset_factor)), GRID_STEP as int)
}

/// How far the glyphs are moved down (unit: points), before that is rounded
/// to whole pixels: what the tweak asks for, rounded to the layout grid, less
/// half of what the tweak's scale takes from the height of the glyphs, so
/// that scaled glyphs stay centred.
pub open spec fn centred_offset(
    pixels_per_point: Fixed,
    scale_in_pixels: Fixed,
    line: LineMetrics,
    tweak: FontTweak,
) -> Option<Fixed> {
    let scale_in_points = over(tweaked_scale(scale_in_pixels, tweak), Some(pixels_per_point));
    let asked = round_to(
        plus(times(scale_in_points, Some(tweak.y_offset_factor)), Some(tweak.y_offset)),
        GRID_STEP as int,
    );
    let height = plus(
        grid_points(line.ascent, pixels_per_point),
        grid_points(line.descent, pixels_per_point),
    );
    let shrunk = times(
        times(minus(Some(Fixed { raw: UNIT }), Some(tweak.scale)), Some(Fixed { raw: HALF })),
        height,
    );
    minus(asked, shrunk)
}

/// A length in points moved to the nearest whole number of pixels.
pub open spec fn pixel_aligned(points: Option<Fixed>, pixels_per_point: Fixed) -> Option<Fixed> {
    over(round_to(times(points, Some(pixels_per_point)), UNIT as int), Some(pixels_per_point))
}

/// The metrics of a font, or nothing where one of them cannot be represented.
///
/// Ascent, descent and line gap are taken to points and rounded to the layout
/// grid; the row height is ascent less descent plus line gap. The size at
/// which glyphs are rasterized is the size asked for times the tweak's scale,
/// rounded to a whole number of pixels. The ascent that is reported includes
/// the tweak's shift of the baseline.
pub open spec fn derived_metrics(
    pixels_per_point: Fixed,
    scale_in_pixels: Fixed,
    line: LineMetrics,
    tweak: FontTweak,
) -> Option<FontMetrics> {
    let ascent = grid_points(line.ascent, pixels_per_point);
    let descent = grid_points(line.descent, pixels_per_point);
    let line_gap = grid_points(line.line_gap, pixels_per_point);
    let scale = round_to(tweaked_scale(scale_in_pixels, tweak), UNIT as int);
    let y_offset = pixel_aligned(
        centred_offset(pixels_per_point, scale_in_pixels, line, tweak),
        pixels_per_point,
    );
    let row_height = plus(minus(ascent, descent), line_gap);
    let reported_ascent = plus(ascent, baseline_offset(pixels_per_point, scale_in_pixels, tweak));
    if scale is Some && y_offset is Some && row_height is Some && reported_ascent is Some
        && -MAX_OFFSET <= (y_offset->0).raw <= MAX_OFFSET {
        Some(
            FontMetrics {
                scale_in_pixels: whole_pixels(scale->0),
                row_height: row_height->0,
                y_offset: y_offset->0,
                ascent: reported_ascent->0,
                pixels_per_point,
            },
        )
    } else {
        None
    }
}

/// The whole number of pixels that a length in pixels is cut to.
fn to_whole_pixels(length: Fixed) -> (r: u32)
    ensures
        r == whole_pixels(length),
{
    if length.raw <= 0 {
        0
    } else if length.raw / UNIT > 0xffff_ffff {
        0xffff_ffff
    } else {
        (length.raw / UNIT) as u32
    }
}

/// A length in pixels as a length in points, rounded to the layout grid.
fn to_grid_points(pixels: Fixed, pixels_per_point: Fixed) -> (r: Option<Fixed>)
    ensures
        r == grid_points(pixels, pixels_per_point),
{
    match pixels.checked_div(pixels_per_point) {
        Some(points) => points.checked_round_to_grid(),
        None => None,
    }
}

/// The metrics of a font from what the typeface says of a line at the size
/// asked for, or nothing where one of them cannot be represented.
pub fn derive_metrics(
    pixels_per_point: Fixed,
    scale_in_pixels: Fixed,
    line: LineMetrics,
    tweak: FontTweak,
) -> (r: Option<FontMetrics>)
    ensures
        r == derived_metrics(pixels_per_point, scale_in_pixels, line, tweak),
{
    let ascent = match to_grid_points(line.ascent, pixels_per_point) {
        Some(v) => v,
        None => return None,
    };
    let descent = match to_grid_points(line.descent, pixels_per_point) {
        Some(v) => v,
        None => return None,
    };
    let line_gap = match to_grid_points(line.line_gap, pixels_per_point) {
        Some(v) => v,
        None => return None,
    };
    // Tweak the scale as the user desired.
    let tweaked = match scale_in_pixels.checked_mul(tweak.scale) {
        Some(v) => v,
        None => return None,
    };
    let scale_in_points = match tweaked.checked_div(pixels_per_point) {
        Some(v) => v,
        None => return None,
    };
    let baseline = match scale_in_points.checked_mul(tweak.baseline_offset_factor) {
        Some(v) => v,
        None => return None,
    };
    let baseline = match baseline.checked_round_to_grid() {
        Some(v) => v,
        None => return None,
    };
    let asked = match scale_in_points.checked_mul(tweak.y_offset_factor) {
        Some(v) => v,
        None => return None,
    };
    let asked = match asked.checked_add(tweak.y_offset) {
        Some(v) => v,
        None => return None,
    };
    let asked = match asked.checked_round_to_grid() {
        Some(v) => v,
        None => return None,
    };
    // Centre scaled glyphs properly.
    let height = match ascent.checked_add(descent) {
        Some(v) => v,
        None => return None,
    };
    let shrink = match Fixed::from_int(1).checked_sub(tweak.scale) {
        Some(v) => v,
        None => return None,
    };
    let shrink = match shrink.checked_mul(Fixed::from_raw(HALF)) {
        Some(v) => v,
        None => return None,
    };
    let shrunk = match shrink.checked_mul(height) {
        Some(v) => v,
        None => return None,
    };
    let offset = match asked.checked_sub(shrunk) {
        Some(v) => v,
        None => return None,
    };
    // A whole number of pixels gives even kerning.
    let scale = match tweaked.checked_round() {
        Some(v) => v,
        None => return None,
    };
    // Round to the closest pixel.
    let offset = match offset.checked_mul(pixels_per_point) {
        Some(v) => v,
        None => return None,
    };
    let offset = match offset.checked_round() {
        Some(v) => v,
        None => return None,
    };
    let y_offset = match offset.checked_div(pixels_per_point) {
        Some(v) => v,
        None => return None,
    };
    let row_height = match ascent.checked_sub(descent) {
        Some(v) => v,
        None => return None,
    };
    let row_height = match row_height.checked_add(line_gap) {
        Some(v) => v,
        None => return None,
    };
    let reported_ascent = match ascent.checked_add(baseline) {
        Some(v) => v,
        None => return None,
    };
    if y_offset.raw < -MAX_OFFSET || y_offset.raw > MAX_OFFSET {
        return None;
    }
    Some(
        FontMetrics {
            scale_in_pixels: to_whole_pixels(scale),
            row_height,
            y_offset,
            ascent: reported_ascent,
            pixels_per_point,
        },
    )
}

} // verus!
