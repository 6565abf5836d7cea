//! One typeface at one size.
//!
//! A [`FontImpl`] resolves single characters to glyphs and remembers each
//! answer. It does not rasterize: where a glyph has to be drawn first,
//! [`FontImpl::glyph_info`] says which one, and [`FontImpl::allocate_glyph`]
//! takes what the rasterizer made of it, puts its pixels into the atlas and
//! remembers the glyph.

use crate::atlas::{TextureAtlas, MAX_ATLAS_SIDE};
use crate::cache::{empty_map, map_get, map_insert, new_map, CharMap};
use crate::chars::{builtin_font_name, invisible_char, suppressed_char};
use crate::chars::{is_builtin_font_name, is_invisible, is_suppressed, TAB_SIZE, THIN_SPACE};
use crate::fixed::{checked, lemma_round_ratio_bound, magnitude, quotient_raw, round_ratio};
use crate::fixed::{Fixed, UNIT};
use crate::glyph::{empty_uv_rect, invisible_glyph, GlyphInfo, UvRect, Vec2};
use crate::metrics::{derive_metrics, derived_metrics, FontMetrics, FontTweak, LineMetrics};
use crate::raster::{PixelBounds, RasterGlyph};
use crate::typeface::{characters, glyph_id, typeface_characters, typeface_glyph_id};
use vstd::prelude::*;

verus! {

/// The largest magnitude, as a raw value, of the advance of a glyph that was
/// rasterized, in points.
pub const MAX_GLYPH_ADVANCE: i64 = 0x1_0000_0000_0000;

/// The largest magnitude, as a raw value, of a length in pixels that a font
/// takes to points: 65536 pixels.
pub const MAX_PIXEL_LENGTH: i64 = 0x1_0000_0000;

/// Why a font cannot be made.
#[derive(Clone, Copy, Debug, PartialEq, Eq, Structural)]
pub enum FontError {
    /// The size in pixels is not above zero.
    InvalidScale,
    /// The number of pixels in a point is not above zero.
    InvalidPixelsPerPoint,
    /// One of the metrics of the font is too large to be represented.
    MetricsOutOfRange,
}

/// What a font says of a character.
#[derive(Clone, Copy, Debug, PartialEq, Eq)]
pub enum Lookup {
    /// The character resolves to this glyph.
    Found(GlyphInfo),
    /// The font has no glyph for the character: another font may have one.
    Missing,
    /// The glyph of `chr`, which the typeface knows as `glyph_id`, has to be
    /// rasterized and handed to [`FontImpl::allocate_glyph`] before the font
    /// can answer.
    Rasterize { chr: char, glyph_id: u16 },
}

/// Whether a tab or a thin space: the characters whose glyph is that of the
/// space with another advance.
pub open spec fn is_widened_space(c: char) -> bool {
    c == '\t' || c == THIN_SPACE
}

/// The glyph of a tab or of a thin space, made from that of the space: a tab
/// advances as far as [`TAB_SIZE`] spaces; a thin space advances by a sixth of
/// the row height, but by no more than half a space. Both show what the space
/// shows.
pub open spec fn widened_space(c: char, space: GlyphInfo, row_height: Fixed) -> GlyphInfo {
    let advance = if c == '\t' {
        TAB_SIZE * space.advance_width.raw
    } else {
        let sixth = round_ratio(row_height.raw as int, 6);
        let half = round_ratio(space.advance_width.raw as int, 2);
        if sixth <= half {
            sixth
        } else {
            half
        }
    };
    GlyphInfo { id: space.id, advance_width: Fixed { raw: advance as i64 }, uv_rect: space.uv_rect }
}

/// What a font says of a character that it has not resolved yet and does not
/// ignore, leaving aside what it makes of the space, where the typeface knows
/// the glyph of the character as `glyph_id`: an invisible character is the
/// glyph of no width; a character without a glyph in the typeface, which is
/// one with the glyph 0, is missing; any other has to be rasterized.
pub open spec fn uncached_lookup(c: char, glyph_id: u16) -> Lookup {
    if is_invisible(c) {
        Lookup::Found(invisible_glyph())
    } else if glyph_id == 0 {
        Lookup::Missing
    } else {
        Lookup::Rasterize { chr: c, glyph_id }
    }
}

/// A length in pixels as a length in points.
pub open spec fn in_points(pixels: int, pixels_per_point: Fixed) -> Fixed {
    Fixed { raw: round_ratio(pixels * UNIT * UNIT, pixels_per_point.raw as int) as i64 }
}

/// Where the pixels of a glyph are and where they go: the box of the outline
/// in points, moved down by the font's offset, and the region of the atlas at
/// `pos` that is as large as the box.
pub open spec fn placed_uv_rect(metrics: FontMetrics, bounds: PixelBounds, pos: (usize, usize)) -> UvRect {
    UvRect {
        offset: Vec2 {
            x: in_points(bounds.min_x as int, metrics.pixels_per_point),
            y: Fixed {
                raw: (in_points(bounds.min_y as int, metrics.pixels_per_point).raw
                    + metrics.y_offset.raw) as i64,
            },
        },
        size: Vec2 {
            x: in_points(bounds.width as int, metrics.pixels_per_point),
            y: in_points(bounds.height as int, metrics.pixels_per_point),
        },
        min: [pos.0 as u16, pos.1 as u16],
        max: [(pos.0 + bounds.width) as u16, (pos.1 + bounds.height) as u16],
    }
}

/// Whether a glyph with this box takes a region of the atlas: it has an
/// outline, and the box of the outline is not empty.
pub open spec fn needs_region(bounds: Option<PixelBounds>) -> bool {
    bounds matches Some(b) && b.width > 0 && b.height > 0
}

/// The glyph that a font makes of a rasterized glyph whose pixels went to the
/// region of the atlas at `pos`, or to none.
pub open spec fn rasterized_glyph(
    metrics: FontMetrics,
    glyph_id: u16,
    advance_in_pixels: Fixed,
    bounds: Option<PixelBounds>,
    pos: Option<(usize, usize)>,
) -> GlyphInfo {
    GlyphInfo {
        id: glyph_id,
        advance_width: Fixed {
            raw: quotient_raw(advance_in_pixels, metrics.pixels_per_point) as i64,
        },
        uv_rect: if needs_region(bounds) && pos is Some {
            placed_uv_rect(metrics, bounds->0, pos->0)
        } else {
            empty_uv_rect()
        },
    }
}

/// The characters of `chars` that a font with this filter shows, in their order.
pub open spec fn shown_characters(chars: Seq<char>, filtered: bool) -> Seq<char>
    decreases chars.len(),
{
    if chars.len() == 0 {
        Seq::empty()
    } else {
        let before = shown_characters(chars.drop_last(), filtered);
        if filtered && is_suppressed(chars.last()) {
            before
        } else {
            before.push(chars.last())
        }
    }
}

/// What a font is made of and what it has resolved: the state that its
/// answers depend on.
pub struct FontImplState {
    /// The name of the typeface.
    pub name: Seq<char>,
    /// The typeface.
    pub typeface: ab_glyph::FontArc,
    /// The metrics of the font.
    pub metrics: FontMetrics,
    /// The glyph of each character that the font has resolved so far.
    pub cache: Map<char, GlyphInfo>,
}

impl FontImplState {
    /// The invariant of a font. A point has more than no pixels, and the
    /// offset of the glyphs and the advance of the space are within their
    /// limits. Of what the font has resolved: no character is one that the
    /// font ignores; an invisible character has the glyph of no width; the
    /// space has a glyph in the typeface; and a tab or a thin space is made
    /// from the space, unless the typeface has no space.
    pub open spec fn wf(self) -> bool {
        &&& self.metrics.wf()
        &&& self.cache.contains_key(' ') ==> {
            &&& -MAX_GLYPH_ADVANCE <= self.cache[' '].advance_width.raw <= MAX_GLYPH_ADVANCE
            &&& typeface_glyph_id(self.typeface, ' ') != 0
        }
        &&& forall|c: char| #[trigger]
            self.cache.contains_key(c) ==> {
                &&& !self.ignores(c)
                &&& is_invisible(c) ==> self.cache[c] == invisible_glyph()
                &&& is_widened_space(c) ==> if self.cache.contains_key(' ') {
                    self.cache[c] == widened_space(c, self.cache[' '], self.metrics.row_height)
                } else {
                    typeface_glyph_id(self.typeface, ' ') == 0
                }
            }
    }

    /// Whether the font never shows the character, whatever the typeface
    /// holds: a built-in typeface never shows the suppressed code points.
    pub open spec fn ignores(self, c: char) -> bool {
        is_builtin_font_name(self.name) && is_suppressed(c)
    }

    /// What the font says of a character, leaving aside what it makes of the
    /// space, where the typeface knows the glyph of the character as
    /// `glyph_id`.
    pub open spec fn direct_given(self, c: char, glyph_id: u16) -> Lookup {
        if self.cache.contains_key(c) {
            Lookup::Found(self.cache[c])
        } else if self.ignores(c) {
            Lookup::Missing
        } else {
            uncached_lookup(c, glyph_id)
        }
    }

    /// What the font says of a character, where the typeface knows the glyph
    /// of the character as `glyph_id` and that of the space as
    /// `space_glyph_id`, 0 standing for no glyph. The first of these that
    /// applies decides: a character resolved before is its glyph from then; an
    /// ignored one is missing; a tab or a thin space is made from the glyph of
    /// the space, as soon as the space resolves; an invisible character is the
    /// glyph of no width; a character without a glyph in the typeface is
    /// missing; any other has to be rasterized.
    pub open spec fn lookup_given(self, c: char, glyph_id: u16, space_glyph_id: u16) -> Lookup {
        if self.cache.contains_key(c) {
            Lookup::Found(self.cache[c])
        } else if self.ignores(c) {
            Lookup::Missing
        } else if is_widened_space(c) {
            match self.direct_given(' ', space_glyph_id) {
                Lookup::Found(space) => Lookup::Found(
                    widened_space(c, space, self.metrics.row_height),
                ),
                Lookup::Rasterize { chr, glyph_id } => Lookup::Rasterize { chr, glyph_id },
                Lookup::Missing => uncached_lookup(c, glyph_id),
            }
        } else {
            uncached_lookup(c, glyph_id)
        }
    }

    /// The font once it was asked for a character: the glyph that it found is
    /// remembered, and nothing else changes.
    pub open spec fn after_lookup_given(
        self,
        c: char,
        glyph_id: u16,
        space_glyph_id: u16,
    ) -> FontImplState {
        match self.lookup_given(c, glyph_id, space_glyph_id) {
            Lookup::Found(glyph) => self.with_glyph(c, glyph),
            _ => self,
        }
    }

    /// What the font says of a character that it has not resolved yet and
    /// does not ignore, leaving aside what it makes of the space.
    pub open spec fn uncached(self, c: char) -> Lookup {
        uncached_lookup(c, typeface_glyph_id(self.typeface, c))
    }

    /// What the font says of a character, leaving aside what it makes of the
    /// space.
    pub open spec fn direct(self, c: char) -> Lookup {
        self.direct_given(c, typeface_glyph_id(self.typeface, c))
    }

    /// What the font says of a character: what [`Self::lookup_given`] says of
    /// it with the glyphs that the typeface has for the character and for the
    /// space.
    pub open spec fn lookup(self, c: char) -> Lookup {
        self.lookup_given(
            c,
            typeface_glyph_id(self.typeface, c),
            typeface_glyph_id(self.typeface, ' '),
        )
    }

    /// The font with one more glyph resolved.
    pub open spec fn with_glyph(self, c: char, glyph: GlyphInfo) -> FontImplState {
        FontImplState { cache: self.cache.insert(c, glyph), ..self }
    }

    /// The font once it was asked for a character: the glyph that it found is
    /// remembered, and nothing else changes.
    pub open spec fn after_lookup(self, c: char) -> FontImplState {
        match self.lookup(c) {
            Lookup::Found(glyph) => self.with_glyph(c, glyph),
            _ => self,
        }
    }

    /// The glyph that the font makes of a rasterized glyph for a character
    /// that it has not resolved, where `atlas` is the atlas before the
    /// pixels of the glyph go into it.
    pub open spec fn allocated_glyph(
        self,
        glyph_id: u16,
        raster: &RasterGlyph,
        atlas: &TextureAtlas,
    ) -> GlyphInfo {
        let bounds = raster.spec_bounds();
        let place = atlas.placement((bounds->0).width as nat, (bounds->0).height as nat);
        rasterized_glyph(
            self.metrics,
            glyph_id,
            raster.spec_advance_width(),
            bounds,
            if takes_region(raster, atlas) {
                Some((place.0 as usize, place.1 as usize))
            } else {
                None
            },
        )
    }

    /// Whether the font has asked for the glyph of the character itself to be
    /// rasterized.
    pub open spec fn wants(self, chr: char) -> bool {
        self.lookup(chr) matches Lookup::Rasterize { chr: wanted, .. } && wanted == chr
    }

    /// What the font answers when it is handed a rasterized glyph for a
    /// character: the glyph that it makes of it, if it has asked for it; the
    /// glyph that the character has without it, if it has one; and else
    /// nothing.
    pub open spec fn allocated(
        self,
        chr: char,
        raster: &RasterGlyph,
        atlas: &TextureAtlas,
    ) -> Option<GlyphInfo> {
        match self.lookup(chr) {
            Lookup::Found(glyph) => Some(glyph),
            Lookup::Missing => None,
            Lookup::Rasterize { chr: wanted, glyph_id } => if wanted == chr {
                Some(self.allocated_glyph(glyph_id, raster, atlas))
            } else {
                None
            },
        }
    }

    /// The font once it was handed a rasterized glyph for a character: it
    /// remembers the glyph that it answers with.
    pub open spec fn after_allocate(
        self,
        chr: char,
        raster: &RasterGlyph,
        atlas: &TextureAtlas,
    ) -> FontImplState {
        match self.allocated(chr, raster, atlas) {
            Some(glyph) => self.with_glyph(chr, glyph),
            None => self,
        }
    }
}

/// Whether the atlas hands out a region for the rasterized glyph: the box of
/// the glyph's outline is not empty and not larger than the atlas.
pub open spec fn takes_region(raster: &RasterGlyph, atlas: &TextureAtlas) -> bool {
    let bounds = raster.spec_bounds();
    needs_region(bounds) && atlas.can_hold((bounds->0).width as nat, (bounds->0).height as nat)
}

/// What a font says of a character that it has not resolved yet and does not
/// ignore, leaving aside what it makes of the space, where the typeface knows
/// the glyph of the character as `glyph_id`.
pub fn lookup_uncached(c: char, glyph_id: u16) -> (r: Lookup)
    ensures
        r == uncached_lookup(c, glyph_id),
{
    if invisible_char(c) {
        Lookup::Found(GlyphInfo::default())
    } else if glyph_id == 0 {
        // The typeface has no glyph for the character.
        Lookup::Missing
    } else {
        Lookup::Rasterize { chr: c, glyph_id }
    }
}

/// The characters of `listed` that a font shows: all of them, but for the
/// suppressed code points where the font filters.
pub fn shown_of(listed: &Vec<char>, filtered: bool) -> (r: Vec<char>)
    ensures
        r@ == shown_characters(listed@, filtered),
{
    let mut shown: Vec<char> = Vec::new();
    let mut i: usize = 0;
    while i < listed.len()
        invariant
            i <= listed.len(),
            shown@ == shown_characters(listed@.take(i as int), filtered),
        decreases listed.len() - i,
    {
        let chr = listed[i];
        assert(listed@.take(i + 1).drop_last() == listed@.take(i as int));
        if !(filtered && suppressed_char(chr)) {
            shown.push(chr);
        }
        i += 1;
    }
    assert(listed@.take(i as int) == listed@);
    shown
}

/// A length in pixels as a length in points.
fn to_points(pixels: Fixed, pixels_per_point: Fixed) -> (r: Fixed)
    requires
        pixels_per_point.raw > 0,
        -MAX_PIXEL_LENGTH <= pixels.raw <= MAX_PIXEL_LENGTH,
    ensures
        r.raw == quotient_raw(pixels, pixels_per_point),
        -MAX_GLYPH_ADVANCE <= r.raw <= MAX_GLYPH_ADVANCE,
{
    proof {
        lemma_round_ratio_bound(pixels.raw * UNIT, pixels_per_point.raw as int);
    }
    match pixels.checked_div(pixels_per_point) {
        Some(points) => points,
        None => {
            assert(false);
            Fixed::zero()
        },
    }
}

/// The glyph that a font with these metrics makes of a rasterized glyph whose
/// pixels went to the region of the atlas at `pos`, or to none: the advance
/// and the box of the outline are taken from pixels to points, and the box is
/// moved down by the offset of the font.
pub fn glyph_of(
    metrics: &FontMetrics,
    glyph_id: u16,
    raster: &RasterGlyph,
    pos: Option<(usize, usize)>,
) -> (r: GlyphInfo)
    requires
        metrics.wf(),
        pos matches Some(p) ==> {
            &&& raster.spec_bounds() is Some
            &&& p.0 + (raster.spec_bounds()->0).width <= MAX_ATLAS_SIDE
            &&& p.1 + (raster.spec_bounds()->0).height <= MAX_ATLAS_SIDE
        },
    ensures
        r == rasterized_glyph(
            *metrics,
            glyph_id,
            raster.spec_advance_width(),
            raster.spec_bounds(),
            pos,
        ),
        -MAX_GLYPH_ADVANCE <= r.advance_width.raw <= MAX_GLYPH_ADVANCE,
{
    let pixels_per_point = metrics.pixels_per_point;
    let advance_width = to_points(raster.advance_width(), pixels_per_point);
    let uv_rect = match (raster.bounds(), pos) {
        (Some(bounds), Some(pos)) => {
            if bounds.width == 0 || bounds.height == 0 {
                UvRect::default()
            } else {
                let offset_x = to_points(Fixed::from_int(bounds.min_x as i32), pixels_per_point);
                let offset_y = to_points(Fixed::from_int(bounds.min_y as i32), pixels_per_point);
                let width = to_points(Fixed::from_int(bounds.width as i32), pixels_per_point);
                let height = to_points(Fixed::from_int(bounds.height as i32), pixels_per_point);
                let placed = UvRect {
                    offset: Vec2 {
                        x: offset_x,
                        y: Fixed::from_raw(offset_y.raw + metrics.y_offset.raw),
                    },
                    size: Vec2 { x: width, y: height },
                    min: [pos.0 as u16, pos.1 as u16],
                    max: [
                        (pos.0 + bounds.width as usize) as u16,
                        (pos.1 + bounds.height as usize) as u16,
                    ],
                };
                proof {
                    let wanted = placed_uv_rect(*metrics, bounds, pos);
                    assert(placed.min =~= wanted.min);
                    assert(placed.max =~= wanted.max);
                }
                placed
            }
        },
        _ => UvRect::default(),
    };
    GlyphInfo { id: glyph_id, advance_width, uv_rect }
}

/// A typeface at one size. Lengths are in points unless they say otherwise.
pub struct FontImpl {
    name: String,
    typeface: ab_glyph::FontArc,
    /// Whether the typeface is a built-in one, whose glyphs are filtered.
    filtered: bool,
    metrics: FontMetrics,
    glyph_info_cache: CharMap<GlyphInfo>,
}

impl View for FontImpl {
    type V = FontImplState;

    closed spec fn view(&self) -> FontImplState {
        FontImplState {
            name: self.name@,
            typeface: self.typeface,
            metrics: self.metrics,
            cache: self.glyph_info_cache@,
        }
    }
}

impl FontImpl {
    /// The invariant of a font.
    pub closed spec fn wf(&self) -> bool {
        &&& self@.wf()
        &&& self.filtered == is_builtin_font_name(self.name@)
    }

    /// A font in good order has a state in good order.
    pub proof fn lemma_wf(&self)
        requires
            self.wf(),
        ensures
            self@.wf(),
    {
    }

    /// A font of the typeface at `scale_in_pixels`, for a screen with
    /// `pixels_per_point` pixels in every point. `line` is what the typeface
    /// says of a line at that size. The font has resolved nothing yet.
    ///
    /// Fails where the size or the number of pixels in a point is not above
    /// zero, and where a metric of the font cannot be represented.
    pub fn new(
        pixels_per_point: Fixed,
        name: String,
        typeface: ab_glyph::FontArc,
        scale_in_pixels: Fixed,
        line: LineMetrics,
        tweak: FontTweak,
    ) -> (r: Result<FontImpl, FontError>)
        ensures
            match r {
                Ok(font) => {
                    &&& scale_in_pixels.raw > 0
                    &&& pixels_per_point.raw > 0
                    &&& derived_metrics(pixels_per_point, scale_in_pixels, line, tweak) == Some(
                        font@.metrics,
                    )
                    &&& font.wf()
                    &&& font@.name == name@
                    &&& font@.typeface == typeface
                    &&& font@.cache == empty_map::<GlyphInfo>()
                },
                Err(FontError::InvalidScale) => scale_in_pixels.raw <= 0,
                Err(FontError::InvalidPixelsPerPoint) => scale_in_pixels.raw > 0
                    && pixels_per_point.raw <= 0,
                Err(FontError::MetricsOutOfRange) => scale_in_pixels.raw > 0 && pixels_per_point.raw
                    > 0 && derived_metrics(pixels_per_point, scale_in_pixels, line, tweak) is None,
            },
    {
        if scale_in_pixels.raw <= 0 {
            return Err(FontError::InvalidScale);
        }
        if pixels_per_point.raw <= 0 {
            return Err(FontError::InvalidPixelsPerPoint);
        }
        let metrics = match derive_metrics(pixels_per_point, scale_in_pixels, line, tweak) {
            Some(metrics) => metrics,
            None => return Err(FontError::MetricsOutOfRange),
        };
        let filtered = builtin_font_name(name.as_str());
        Ok(FontImpl { name, typeface, filtered, metrics, glyph_info_cache: new_map() })
    }

    /// The typeface.
    pub fn typeface(&self) -> (r: &ab_glyph::FontArc)
        ensures
            *r == self@.typeface,
    {
        &self.typeface
    }

    /// The name of the typeface.
    pub fn name(&self) -> (r: &String)
        ensures
            r@ == self@.name,
    {
        &self.name
    }

    /// The size at which the glyphs of the font are rasterized: a whole
    /// number of pixels, so that kerning stays even.
    pub fn scale_in_pixels(&self) -> (r: u32)
        ensures
            r == self@.metrics.scale_in_pixels,
    {
        self.metrics.scale_in_pixels
    }

    /// Height of one row of text, in points: a point of the layout grid.
    pub fn row_height(&self) -> (r: Fixed)
        ensures
            r == self@.metrics.row_height,
    {
        self.metrics.row_height
    }

    /// How many pixels make a point.
    pub fn pixels_per_point(&self) -> (r: Fixed)
        ensures
            r == self@.metrics.pixels_per_point,
    {
        self.metrics.pixels_per_point
    }

    /// The distance from the top of a row to the baseline, in points.
    pub fn ascent(&self) -> (r: Fixed)
        ensures
            r == self@.metrics.ascent,
    {
        self.metrics.ascent
    }

    /// Whether the font never shows the character: code points that the
    /// fonts above this one replace by the replacement character.
    pub fn ignore_character(&self, chr: char) -> (r: bool)
        requires
            self.wf(),
        ensures
            r == self@.ignores(chr),
    {
        self.filtered && suppressed_char(chr)
    }

    /// The characters that the typeface lists and the font shows, in the
    /// order of the typeface.
    pub fn characters(&self) -> (r: Vec<char>)
        requires
            self.wf(),
        ensures
            r@ == shown_characters(
                typeface_characters(self@.typeface),
                is_builtin_font_name(self@.name),
            ),
    {
        let listed = characters(&self.typeface);
        shown_of(&listed, self.filtered)
    }

    /// What the font says of the space, which it leaves as it is: the space
    /// is not invisible, so nothing is remembered that was not before.
    fn space_info(&self, space_glyph_id: u16) -> (r: Lookup)
        requires
            self.wf(),
        ensures
            r == self@.direct_given(' ', space_glyph_id),
            r matches Lookup::Found(space) ==> -MAX_GLYPH_ADVANCE <= space.advance_width.raw
                <= MAX_GLYPH_ADVANCE,
    {
        if let Some(glyph_info) = map_get(&self.glyph_info_cache, ' ') {
            return Lookup::Found(glyph_info);
        }
        if self.ignore_character(' ') {
            return Lookup::Missing;
        }
        lookup_uncached(' ', space_glyph_id)
    }

    /// Resolves a character of which the typeface has said which glyph it
    /// has for it, and which for the space, and remembers the glyph if there
    /// is one. A glyph of 0 stands for none.
    pub fn glyph_info_given(&mut self, c: char, glyph_id: u16, space_glyph_id: u16) -> (r: Lookup)
        requires
            old(self).wf(),
        ensures
            final(self).wf(),
            r == old(self)@.lookup_given(c, glyph_id, space_glyph_id),
            final(self)@ == old(self)@.after_lookup_given(c, glyph_id, space_glyph_id),
    {
        if let Some(glyph_info) = map_get(&self.glyph_info_cache, c) {
            assert(self@.cache.insert(c, glyph_info) =~= self@.cache);
            return Lookup::Found(glyph_info);
        }
        if self.ignore_character(c) {
            // Shows as the replacement character, unless another font has it.
            return Lookup::Missing;
        }
        if c == '\t' || c == THIN_SPACE {
            match self.space_info(space_glyph_id) {
                Lookup::Found(space) => {
                    let advance_width = if c == '\t' {
                        Fixed::from_raw(TAB_SIZE * space.advance_width.raw)
                    } else {
                        let em = self.metrics.row_height;
                        em.div_int(6).min(space.advance_width.div_int(2))
                    };
                    let glyph_info = GlyphInfo { advance_width, ..space };
                    map_insert(&mut self.glyph_info_cache, c, glyph_info);
                    return Lookup::Found(glyph_info);
                },
                Lookup::Rasterize { chr, glyph_id } => {
                    return Lookup::Rasterize { chr, glyph_id };
                },
                Lookup::Missing => {},
            }
        }
        let found = lookup_uncached(c, glyph_id);
        if let Lookup::Found(glyph_info) = found {
            map_insert(&mut self.glyph_info_cache, c, glyph_info);
        }
        found
    }

    /// Resolves a character, and remembers the glyph if there is one.
    ///
    /// A character that the font has resolved before gives the same glyph
    /// again, and the typeface is not asked. Where the answer is
    /// [`Lookup::Rasterize`], nothing has changed: ask again once the glyph
    /// that it names has gone through [`FontImpl::allocate_glyph`].
    pub fn glyph_info(&mut self, c: char) -> (r: Lookup)
        requires
            old(self).wf(),
        ensures
            final(self).wf(),
            r == old(self)@.lookup(c),
            final(self)@ == old(self)@.after_lookup(c),
    {
        if let Some(glyph_info) = map_get(&self.glyph_info_cache, c) {
            assert(self@.cache.insert(c, glyph_info) =~= self@.cache);
            return Lookup::Found(glyph_info);
        }
        let id = glyph_id(&self.typeface, c);
        let space_id = if c == '\t' || c == THIN_SPACE {
            glyph_id(&self.typeface, ' ')
        } else {
            id
        };
        self.glyph_info_given(c, id, space_id)
    }

    /// Takes the glyph that the rasterizer made for `chr`, puts its pixels
    /// into the atlas and remembers the glyph.
    ///
    /// The font takes the glyph only if it has asked for it: the answer of
    /// [`FontImpl::glyph_info`] for `chr` is to rasterize `chr`. Then the
    /// atlas hands out one region, as large as the box of the glyph's
    /// outline, unless the box is empty or larger than the atlas; a glyph
    /// without a region shows nothing, and advances as the typeface says. A
    /// character that resolves without the rasterizer has its glyph from
    /// there, and a character that the font has no glyph for has none: the
    /// atlas then stays as it is.
    pub fn allocate_glyph(
        &mut self,
        chr: char,
        raster: &RasterGlyph,
        atlas: &mut TextureAtlas,
    ) -> (r: Option<GlyphInfo>)
        requires
            old(self).wf(),
            old(atlas).wf(),
        ensures
            final(self).wf(),
            final(atlas).wf(),
            r == old(self)@.allocated(chr, raster, old(atlas)),
            final(self)@ == old(self)@.after_allocate(chr, raster, old(atlas)),
            if old(self)@.wants(chr) && takes_region(raster, old(atlas)) {
                final(atlas).holds_glyph(
                    old(atlas),
                    (raster.spec_bounds()->0).width as usize,
                    (raster.spec_bounds()->0).height as usize,
                    raster.spec_coverage(),
                )
            } else {
                *final(atlas) == *old(atlas)
            },
    {
        let glyph_id = match self.glyph_info(chr) {
            Lookup::Found(glyph_info) => {
                assert(self@.cache.insert(chr, glyph_info) =~= self@.cache);
                return Some(glyph_info);
            },
            Lookup::Missing => {
                return None;
            },
            Lookup::Rasterize { chr: wanted, glyph_id } => {
                if wanted != chr {
                    return None;
                }
                glyph_id
            },
        };
        let pos = match raster.bounds() {
            Some(bounds) => {
                if bounds.width == 0 || bounds.height == 0 {
                    None
                } else {
                    let width = bounds.width as usize;
                    let height = bounds.height as usize;
                    let pos = atlas.allocate(width, height);
                    if let Some(pos) = pos {
                        atlas.blit(pos, width, height, raster.coverage());
                    }
                    pos
                }
            },
            None => None,
        };
        let glyph_info = glyph_of(&self.metrics, glyph_id, raster, pos);
        map_insert(&mut self.glyph_info_cache, chr, glyph_info);
        Some(glyph_info)
    }

    /// Kerning between two glyphs of the typeface at the size of the font, in
    /// points, from the kerning in pixels that the typeface gives for them.
    #[inline]
    pub fn pair_kerning(&self, kerning_in_pixels: Fixed) -> (r: Option<Fixed>)
        requires
            self.wf(),
        ensures
            r == checked(quotient_raw(kerning_in_pixels, self@.metrics.pixels_per_point)),
    {
        kerning_in_pixels.checked_div(self.metrics.pixels_per_point)
    }
}

} // verus!
