//! What a rasterizer makes of one glyph.

use crate::fixed::Fixed;
use vstd::prelude::*;

verus! {

/// The largest magnitude, as a raw value, of the advance of a rasterized
/// glyph: 32768 pixels.
pub const MAX_RASTER_ADVANCE: i64 = 0x8000_0000;

/// The box of whole pixels that holds the outline of a glyph, relative to the
/// pen: y grows downwards, so a glyph that stands on the baseline has a
/// negative `min_y`.
#[derive(Clone, Copy, Debug, PartialEq, Eq, Structural)]
pub struct PixelBounds {
    /// The left edge.
    pub min_x: i16,
    /// The top edge.
    pub min_y: i16,
    /// The width in pixels.
    pub width: u16,
    /// The height in pixels.
    pub height: u16,
}

/// Whether the three values describe a rasterized glyph: the advance is within
/// its limit, and there is one coverage value for each pixel of the box, or
/// none where the glyph has no outline.
pub open spec fn is_raster(advance_width: Fixed, bounds: Option<PixelBounds>, coverage: Seq<u8>) -> bool {
    &&& -MAX_RASTER_ADVANCE <= advance_width.raw <= MAX_RASTER_ADVANCE
    &&& coverage.len() == match bounds {
        Some(b) => b.width * b.height,
        None => 0,
    }
}

/// One glyph as the rasterizer made it at the size of a font.
pub struct RasterGlyph {
    advance_width: Fixed,
    bounds: Option<PixelBounds>,
    coverage: Vec<u8>,
}

impl RasterGlyph {
    #[verifier::type_invariant]
    spec fn well_formed(&self) -> bool {
        is_raster(self.advance_width, self.bounds, self.coverage@)
    }

    /// How far the pen moves after the glyph (unit: pixels).
    pub closed spec fn spec_advance_width(&self) -> Fixed {
        self.advance_width
    }

    /// The box of the outline, if the glyph has one.
    pub closed spec fn spec_bounds(&self) -> Option<PixelBounds> {
        self.bounds
    }

    /// How much of each pixel of the box the outline covers, row after row
    /// from the top: 0 for none of it, 255 for all of it.
    pub closed spec fn spec_coverage(&self) -> Seq<u8> {
        self.coverage@
    }

    /// A rasterized glyph, or nothing where the values do not describe one.
    pub fn new(advance_width: Fixed, bounds: Option<PixelBounds>, coverage: Vec<u8>) -> (r: Option<
        RasterGlyph,
    >)
        ensures
            r is Some <==> is_raster(advance_width, bounds, coverage@),
            r matches Some(glyph) ==> {
                &&& glyph.spec_advance_width() == advance_width
                &&& glyph.spec_bounds() == bounds
                &&& glyph.spec_coverage() == coverage@
            },
    {
        if advance_width.raw < -MAX_RASTER_ADVANCE || advance_width.raw > MAX_RASTER_ADVANCE {
            return None;
        }
        let expected: usize = match bounds {
            Some(b) => {
                assert(b.width * b.height <= 65535 * 65535) by (nonlinear_arith)
                    requires
                        0 <= b.width <= 65535,
                        0 <= b.height <= 65535,
                {
                }
                (b.width as u64 * b.height as u64) as usize
            },
            None => 0,
        };
        if coverage.len() != expected {
            return None;
        }
        Some(RasterGlyph { advance_width, bounds, coverage })
    }

    /// How far the pen moves after the glyph (unit: pixels).
    pub fn advance_width(&self) -> (r: Fixed)
        ensures
            r == self.spec_advance_width(),
            -MAX_RASTER_ADVANCE <= r.raw <= MAX_RASTER_ADVANCE,
    {
        proof {
            use_type_invariant(self);
        }
        self.advance_width
    }

    /// The box of the outline, if the glyph has one.
    pub fn bounds(&self) -> (r: Option<PixelBounds>)
        ensures
            r == self.spec_bounds(),
    {
        self.bounds
    }

    /// The coverage values of the box.
    pub fn coverage(&self) -> (r: &Vec<u8>)
        ensures
            r@ == self.spec_coverage(),
            is_raster(self.spec_advance_width(), self.spec_bounds(), r@),
    {
        proof {
            use_type_invariant(self);
        }
        &self.coverage
    }
}

} // verus!
