//! What a resolved character is: its advance and its place in the texture atlas.

use crate::fixed::Fixed;
use vstd::prelude::*;

verus! {

/// A vector of two layout lengths.
#[derive(Clone, Copy, Debug, PartialEq, Eq, Structural)]
pub struct Vec2 {
    pub x: Fixed,
    pub y: Fixed,
}

/// Where the pixels of a glyph lie in the atlas, and where they go relative to
/// the pen.
#[derive(Clone, Copy, Debug, PartialEq, Eq)]
pub struct UvRect {
    /// Where the top left corner of the pixels goes, relative to the pen (unit: points).
    pub offset: Vec2,
    /// Size of the pixels on screen (unit: points). The height is not the row height.
    pub size: Vec2,
    /// Top left texel of the glyph in the atlas.
    pub min: [u16; 2],
    /// Bottom right texel (exclusive).
    pub max: [u16; 2],
}

/// A rectangle of no texels at the origin, with no offset and no size.
pub open spec fn empty_uv_rect() -> UvRect {
    UvRect {
        offset: Vec2 { x: Fixed { raw: 0 }, y: Fixed { raw: 0 } },
        size: Vec2 { x: Fixed { raw: 0 }, y: Fixed { raw: 0 } },
        min: [0u16, 0u16],
        max: [0u16, 0u16],
    }
}

impl UvRect {
    /// Whether the rectangle covers no texel at all: its two corners coincide.
    pub open spec fn spec_is_nothing(&self) -> bool {
        self.min[0] == self.max[0] && self.min[1] == self.max[1]
    }

    /// Whether the rectangle covers no texel at all, as that of a space does.
    pub fn is_nothing(&self) -> (r: bool)
        ensures
            r == self.spec_is_nothing(),
    {
        self.min[0] == self.max[0] && self.min[1] == self.max[1]
    }

    /// Whether two rectangles are the same in every field.
    pub fn same(&self, other: &UvRect) -> (r: bool)
        ensures
            r == (*self == *other),
    {
        let r = self.offset == other.offset && self.size == other.size && self.min[0]
            == other.min[0] && self.min[1] == other.min[1] && self.max[0] == other.max[0]
            && self.max[1] == other.max[1];
        proof {
            if r {
                assert(self.min =~= other.min);
                assert(self.max =~= other.max);
            }
        }
        r
    }
}

impl Default for UvRect {
    fn default() -> (r: UvRect)
        ensures
            r == empty_uv_rect(),
    {
        UvRect {
            offset: Vec2 { x: Fixed::zero(), y: Fixed::zero() },
            size: Vec2 { x: Fixed::zero(), y: Fixed::zero() },
            min: [0, 0],
            max: [0, 0],
        }
    }
}

/// A character as one typeface renders it at one scale.
#[derive(Clone, Copy, Debug, PartialEq, Eq)]
pub struct GlyphInfo {
    /// The typeface's own number for the glyph, used to look up kerning.
    /// Different characters may share it, and 0 stands for "no glyph".
    pub id: u16,
    /// How far the pen moves (unit: points).
    pub advance_width: Fixed,
    /// Texture coordinates.
    pub uv_rect: UvRect,
}

/// A glyph of no width that shows nothing.
pub open spec fn invisible_glyph() -> GlyphInfo {
    GlyphInfo { id: 0, advance_width: Fixed { raw: 0 }, uv_rect: empty_uv_rect() }
}

impl GlyphInfo {
    /// Whether two glyphs are the same in every field.
    pub fn same(&self, other: &GlyphInfo) -> (r: bool)
        ensures
            r == (*self == *other),
    {
        self.id == other.id && self.advance_width == other.advance_width && self.uv_rect.same(
            &other.uv_rect,
        )
    }
}

impl Default for GlyphInfo {
    /// Basically a zero-width space.
    fn default() -> (r: GlyphInfo)
        ensures
            r == invisible_glyph(),
    {
        GlyphInfo { id: 0, advance_width: Fixed::zero(), uv_rect: UvRect::default() }
    }
}

} // verus!
