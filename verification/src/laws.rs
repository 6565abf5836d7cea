//! What holds of fonts in every state.

use crate::atlas::TextureAtlas;
use crate::chars::{is_builtin_font_name, is_invisible, is_suppressed};
use crate::chars::{FALLBACK_REPLACEMENT_CHAR, PRIMARY_REPLACEMENT_CHAR, TAB_SIZE, THIN_SPACE};
use crate::fixed::{lemma_round_ratio_bound, lemma_rounded_raw_bound, round_ratio};
use crate::fixed::{Fixed, GRID_STEP};
use crate::metrics::{derived_metrics, over, round_to, times, tweaked_scale};
use crate::metrics::{FontTweak, LineMetrics};
use crate::font::{FontState, RasterRequest, Step};
use crate::font_impl::{widened_space, FontImplState, Lookup};
use crate::glyph::{empty_uv_rect, invisible_glyph, GlyphInfo};
use crate::raster::RasterGlyph;
use crate::typeface::typeface_glyph_id;
use vstd::prelude::*;

verus! {

/// A font that is asked for a character a second time gives the answer of the
/// first time, and is left as the first time left it.
pub proof fn lemma_lookup_twice(font: FontImplState, c: char)
    ensures
        font.after_lookup(c).lookup(c) == font.lookup(c),
        font.after_lookup(c).after_lookup(c) == font.after_lookup(c),
{
    let after = font.after_lookup(c);
    if font.lookup(c) is Found {
        assert(after.cache.insert(c, font.lookup(c)->Found_0) =~= after.cache);
    }
}

/// What a font has resolved stays resolved, to the same glyph, whatever the
/// font is asked for and whatever it is handed.
pub proof fn lemma_font_remembers(
    font: FontImplState,
    c: char,
    other: char,
    raster: &RasterGlyph,
    atlas: &TextureAtlas,
)
    requires
        font.cache.contains_key(c),
    ensures
        font.lookup(c) == Lookup::Found(font.cache[c]),
        font.after_lookup(other).cache.contains_key(c),
        font.after_lookup(other).cache[c] == font.cache[c],
        font.after_allocate(other, raster, atlas).cache.contains_key(c),
        font.after_allocate(other, raster, atlas).cache[c] == font.cache[c],
{
}

/// The metrics, the name and the typeface of a font never change.
pub proof fn lemma_font_keeps_metrics(
    font: FontImplState,
    c: char,
    raster: &RasterGlyph,
    atlas: &TextureAtlas,
)
    ensures
        font.after_lookup(c).metrics == font.metrics,
        font.after_lookup(c).name == font.name,
        font.after_lookup(c).typeface == font.typeface,
        font.after_allocate(c, raster, atlas).metrics == font.metrics,
        font.after_allocate(c, raster, atlas).name == font.name,
        font.after_allocate(c, raster, atlas).typeface == font.typeface,
{
}

/// Where the space resolves in a font, the tab does too: it advances as far as
/// [`TAB_SIZE`] spaces, and shows what the space shows.
pub proof fn lemma_tab_is_spaces(font: FontImplState)
    requires
        font.wf(),
        font.lookup(' ') is Found,
    ensures
        font.lookup('\t') is Found,
        font.lookup('\t')->Found_0.advance_width.raw == TAB_SIZE * font.lookup(
            ' ',
        )->Found_0.advance_width.raw,
        font.lookup('\t')->Found_0.uv_rect == font.lookup(' ')->Found_0.uv_rect,
{
    assert(font.cache.contains_key(' '));
    if font.cache.contains_key('\t') {
        assert(font.cache['\t'] == widened_space(
            '\t',
            font.cache[' '],
            font.metrics.row_height,
        ));
    }
}

/// Where the space resolves in a font, the thin space does too: it advances by
/// a sixth of the row height or by half a space, whichever is less, and shows
/// what the space shows.
pub proof fn lemma_thin_space_is_part_of_space(font: FontImplState)
    requires
        font.wf(),
        font.lookup(' ') is Found,
    ensures
        font.lookup(THIN_SPACE) is Found,
        ({
            let sixth = round_ratio(font.metrics.row_height.raw as int, 6);
            let half = round_ratio(font.lookup(' ')->Found_0.advance_width.raw as int, 2);
            font.lookup(THIN_SPACE)->Found_0.advance_width.raw == if sixth <= half {
                sixth
            } else {
                half
            }
        }),
        font.lookup(THIN_SPACE)->Found_0.uv_rect == font.lookup(' ')->Found_0.uv_rect,
{
    assert(font.cache.contains_key(' '));
    lemma_round_ratio_fits(font.metrics.row_height.raw as int, 6);
    lemma_round_ratio_fits(font.cache[' '].advance_width.raw as int, 2);
    if font.cache.contains_key(THIN_SPACE) {
        assert(font.cache[THIN_SPACE] == widened_space(
            THIN_SPACE,
            font.cache[' '],
            font.metrics.row_height,
        ));
    }
}

/// A value divided by a whole number above zero is no further from zero than
/// the value.
pub proof fn lemma_round_ratio_fits(n: int, d: int)
    requires
        d > 0,
        i64::MIN <= n <= i64::MAX,
    ensures
        i64::MIN <= round_ratio(n, d) <= i64::MAX,
{
    lemma_round_ratio_bound(n, d);
}

/// A font with the name of a built-in typeface has no glyph for a suppressed
/// code point, whatever its typeface holds: another font or the replacement
/// glyph stands in.
pub proof fn lemma_builtin_font_suppresses(font: FontImplState, c: char)
    requires
        font.wf(),
        is_builtin_font_name(font.name),
        is_suppressed(c),
    ensures
        font.lookup(c) is Missing,
{
}

/// A font with another name resolves a suppressed code point as it does any
/// other character: where its typeface has a glyph for it, the glyph is
/// shown.
pub proof fn lemma_other_font_shows(font: FontImplState, c: char)
    requires
        font.wf(),
        !is_builtin_font_name(font.name),
        is_suppressed(c),
        typeface_glyph_id(font.typeface, c) != 0,
    ensures
        font.lookup(c) == if font.cache.contains_key(c) {
            Lookup::Found(font.cache[c])
        } else {
            Lookup::Rasterize { chr: c, glyph_id: typeface_glyph_id(font.typeface, c) }
        },
{
}

/// An invisible character resolves in every font, to a glyph that does not
/// advance and shows nothing.
pub proof fn lemma_invisible_is_nothing(font: FontImplState, c: char)
    requires
        font.wf(),
        is_invisible(c),
    ensures
        font.lookup(c) == Lookup::Found(invisible_glyph()),
        invisible_glyph().advance_width.raw == 0,
        invisible_glyph().uv_rect.spec_is_nothing(),
{
}

/// A font asks for a glyph to be rasterized only as long as the character
/// has none: once it was handed the glyph, it never asks for it again, so the
/// atlas hands out at most one region for each character of each font.
pub proof fn lemma_rasterized_once(
    font: FontImplState,
    chr: char,
    raster: &RasterGlyph,
    atlas: &TextureAtlas,
)
    requires
        font.wants(chr),
    ensures
        !font.cache.contains_key(chr),
        font.after_allocate(chr, raster, atlas).cache.contains_key(chr),
        !font.after_allocate(chr, raster, atlas).wants(chr),
        font.after_allocate(chr, raster, atlas).lookup(chr) == Lookup::Found(
            font.after_allocate(chr, raster, atlas).cache[chr],
        ),
{
}

/// The glyph that a font asks for is one that it takes: where the font says
/// that a glyph has to be rasterized, it has asked for the glyph of that
/// character itself, which is not resolved yet and is not the glyph 0.
pub proof fn lemma_font_takes_what_it_asks_for(font: FontImplState, c: char)
    requires
        font.lookup(c) is Rasterize,
    ensures
        font.wants(font.lookup(c)->chr),
        !font.cache.contains_key(font.lookup(c)->chr),
        font.lookup(c)->glyph_id == typeface_glyph_id(font.typeface, font.lookup(c)->chr),
        font.lookup(c)->glyph_id != 0,
{
}

/// The glyph that an operation of the fonts asks for is one that the font at
/// its index takes: once it was handed in, that font has resolved the
/// character, so that the operation goes further when it is called again.
pub proof fn lemma_fonts_take_what_they_ask_for(
    fonts: FontState,
    c: char,
    raster: &RasterGlyph,
    atlas: &TextureAtlas,
)
    requires
        fonts.wf(),
        fonts.glyph_info(c).1 is Rasterize,
    ensures
        fonts.glyph_info(c).0.wants(fonts.glyph_info(c).1->Rasterize_0),
        ({
            let request = fonts.glyph_info(c).1->Rasterize_0;
            let after = fonts.glyph_info(c).0.after_allocate(request, raster, atlas);
            after.fonts[request.font_index as int].cache.contains_key(request.chr)
        }),
{
    let (settled, step) = fonts.settle_replacement();
    let (first, primary) = fonts.fallback(PRIMARY_REPLACEMENT_CHAR);
    lemma_fallback_keeps_metrics(fonts, PRIMARY_REPLACEMENT_CHAR);
    lemma_fallback_keeps_metrics(first, FALLBACK_REPLACEMENT_CHAR);
    if step is Rasterize {
        if primary is Rasterize {
            lemma_fallback_asks_what_is_wanted(fonts, PRIMARY_REPLACEMENT_CHAR);
        } else {
            lemma_fallback_asks_what_is_wanted(first, FALLBACK_REPLACEMENT_CHAR);
        }
    } else {
        lemma_fallback_asks_what_is_wanted(settled, c);
    }
}

/// Where asking the fonts for a character ends with a glyph to rasterize, a
/// font has asked for that glyph, and nothing has changed.
pub proof fn lemma_fallback_asks_what_is_wanted(fonts: FontState, c: char)
    requires
        fonts.fonts.len() <= usize::MAX,
        fonts.fallback(c).1 is Rasterize,
    ensures
        fonts.fallback(c).0 == fonts,
        fonts.wants(fonts.fallback(c).1->Rasterize_0),
{
    lemma_first_answer_in_range(fonts, c, 0);
    let i = fonts.first_answer(c, 0);
    lemma_font_takes_what_it_asks_for(fonts.fonts[i], c);
}

/// The first font, in the order of the fonts, that has a glyph for a
/// character decides: where every font before the font at `index` says that
/// the character is missing and that font has a glyph, the character resolves
/// to that glyph and that index, and this pair is what is remembered.
pub proof fn lemma_first_font_wins(fonts: FontState, c: char, index: int, glyph: GlyphInfo)
    requires
        fonts.replacement is Some,
        !fonts.cache.contains_key(c),
        0 <= index < fonts.fonts.len(),
        forall|i: int| 0 <= i < index ==> (#[trigger] fonts.fonts[i]).lookup(c) is Missing,
        fonts.fonts[index].lookup(c) == Lookup::Found(glyph),
    ensures
        fonts.glyph_info(c).1 == Step::Done((index as usize, glyph)),
        fonts.glyph_info(c).0.cache == fonts.cache.insert(c, (index as usize, glyph)),
{
    lemma_first_answer(fonts, c, 0, index);
}

/// The first font at or after `from` that has an answer is the one at `index`
/// where the fonts between the two have none and that one has.
pub proof fn lemma_first_answer(fonts: FontState, c: char, from: int, index: int)
    requires
        0 <= from <= index < fonts.fonts.len(),
        forall|i: int| from <= i < index ==> (#[trigger] fonts.fonts[i]).lookup(c) is Missing,
        !(fonts.fonts[index].lookup(c) is Missing),
    ensures
        fonts.first_answer(c, from) == index,
    decreases index - from,
{
    if from < index {
        assert(fonts.fonts[from].lookup(c) is Missing);
        lemma_first_answer(fonts, c, from + 1, index);
    }
}

/// No font at or after `from` has an answer where each of them says that the
/// character is missing.
pub proof fn lemma_no_answer(fonts: FontState, c: char, from: int)
    requires
        0 <= from <= fonts.fonts.len(),
        forall|i: int| from <= i < fonts.fonts.len() ==> (#[trigger] fonts.fonts[i]).lookup(c) is Missing,
    ensures
        fonts.first_answer(c, from) == fonts.fonts.len(),
    decreases fonts.fonts.len() - from,
{
    if from < fonts.fonts.len() {
        assert(fonts.fonts[from].lookup(c) is Missing);
        lemma_no_answer(fonts, c, from + 1);
    }
}

/// A character that no font has resolves to the replacement glyph, so it
/// counts as one that cannot be shown.
pub proof fn lemma_missing_is_replaced(fonts: FontState, c: char)
    requires
        fonts.replacement is Some,
        !fonts.cache.contains_key(c),
        forall|i: int| 0 <= i < fonts.fonts.len() ==> (#[trigger] fonts.fonts[i]).lookup(c) is Missing,
    ensures
        fonts.glyph_info(c).1 == Step::Done(fonts.replacement->0),
        fonts.glyph_info(c).0.cache == fonts.cache.insert(c, fonts.replacement->0),
        fonts.has_glyph(c).1 == Step::Done(false),
{
    lemma_no_answer(fonts, c, 0);
}

/// Where no font has a glyph for a character nor for either replacement
/// character, the character cannot be shown, and the rectangle of its pixels
/// is the empty one.
pub proof fn lemma_nothing_to_show(fonts: FontState, c: char)
    requires
        fonts.replacement is None,
        !fonts.cache.contains_key(c),
        forall|i: int|
            0 <= i < fonts.fonts.len() ==> {
                &&& (#[trigger] fonts.fonts[i]).lookup(c) is Missing
                &&& fonts.fonts[i].lookup(PRIMARY_REPLACEMENT_CHAR) is Missing
                &&& fonts.fonts[i].lookup(FALLBACK_REPLACEMENT_CHAR) is Missing
            },
    ensures
        fonts.has_glyph(c).1 == Step::Done(false),
        fonts.has_glyph(c).0.lacks_replacement,
        fonts.has_glyph(c).0.cache.contains_key(c),
        fonts.has_glyph(c).0.cache[c].1.uv_rect == empty_uv_rect(),
        empty_uv_rect().spec_is_nothing(),
{
    lemma_no_answer(fonts, PRIMARY_REPLACEMENT_CHAR, 0);
    lemma_no_answer(fonts, FALLBACK_REPLACEMENT_CHAR, 0);
    let settled = fonts.settle_replacement().0;
    assert(settled == fonts.without_replacement());
    assert(settled.fonts == fonts.fonts);
    lemma_missing_is_replaced(settled, c);
}

/// A character that has resolved resolves to the same glyph from then on, and
/// the fonts are left as they are.
pub proof fn lemma_glyph_info_twice(fonts: FontState, c: char)
    ensures
        fonts.glyph_info(c).1 is Done ==> fonts.glyph_info(c).0.glyph_info(c) == fonts.glyph_info(
            c,
        ),
{
    let (settled, step) = fonts.settle_replacement();
    if step is Done {
        let (after, found) = settled.resolve(c);
        if found is Done {
            assert(after.replacement is Some);
            assert(after.cache.contains_key(c));
            assert(after.cache[c] == found->Done_0);
        }
    }
}

/// What the fonts have resolved for a character stays resolved, to the same
/// glyph, whatever else is resolved and whatever glyph is handed in.
pub proof fn lemma_fonts_remember(
    fonts: FontState,
    c: char,
    other: char,
    request: RasterRequest,
    raster: &RasterGlyph,
    atlas: &TextureAtlas,
)
    requires
        fonts.wf(),
        fonts.cache.contains_key(c),
    ensures
        fonts.glyph_info(other).0.cache.contains_key(c),
        fonts.glyph_info(other).0.cache[c] == fonts.cache[c],
        fonts.after_allocate(request, raster, atlas).cache == fonts.cache,
        fonts.replacement is Some ==> fonts.glyph_info(c) == (fonts, Step::Done(fonts.cache[c])),
{
}

/// The height of a row and the number of pixels in a point never change.
pub proof fn lemma_row_height_stays(
    fonts: FontState,
    c: char,
    request: RasterRequest,
    raster: &RasterGlyph,
    atlas: &TextureAtlas,
)
    ensures
        fonts.glyph_info(c).0.row_height() == fonts.row_height(),
        fonts.glyph_info(c).0.pixels_per_point() == fonts.pixels_per_point(),
        fonts.after_allocate(request, raster, atlas).row_height() == fonts.row_height(),
        fonts.after_allocate(request, raster, atlas).pixels_per_point() == fonts.pixels_per_point(),
{
    lemma_fallback_keeps_metrics(fonts, PRIMARY_REPLACEMENT_CHAR);
    let first = fonts.fallback(PRIMARY_REPLACEMENT_CHAR).0;
    lemma_fallback_keeps_metrics(first, FALLBACK_REPLACEMENT_CHAR);
    let settled = fonts.settle_replacement().0;
    lemma_fallback_keeps_metrics(settled, c);
}

/// Asking the fonts for a character leaves their number and the metrics of
/// each as they are.
pub proof fn lemma_fallback_keeps_metrics(fonts: FontState, c: char)
    ensures
        fonts.fallback(c).0.fonts.len() == fonts.fonts.len(),
        forall|i: int|
            0 <= i < fonts.fonts.len() ==> (#[trigger] fonts.fallback(c).0.fonts[i]).metrics
                == fonts.fonts[i].metrics,
{
    lemma_first_answer_in_range(fonts, c, 0);
}

/// The index of the first font that has an answer is not before the font at
/// which the search starts and not after the last font.
pub proof fn lemma_first_answer_in_range(fonts: FontState, c: char, from: int)
    requires
        0 <= from <= fonts.fonts.len(),
    ensures
        from <= fonts.first_answer(c, from) <= fonts.fonts.len(),
    decreases fonts.fonts.len() - from,
{
    if from < fonts.fonts.len() && fonts.fonts[from].lookup(c) is Missing {
        lemma_first_answer_in_range(fonts, c, from + 1);
    }
}

/// The height of a row is a point of the layout grid, and so is the ascent:
/// each is a sum of lengths that were rounded to the grid.
pub proof fn lemma_row_height_on_grid(
    pixels_per_point: Fixed,
    scale_in_pixels: Fixed,
    line: LineMetrics,
    tweak: FontTweak,
)
    requires
        derived_metrics(pixels_per_point, scale_in_pixels, line, tweak) is Some,
    ensures
        derived_metrics(pixels_per_point, scale_in_pixels, line, tweak)->0.row_height.raw
            % GRID_STEP == 0,
        derived_metrics(pixels_per_point, scale_in_pixels, line, tweak)->0.ascent.raw % GRID_STEP
            == 0,
{
    lemma_on_grid(over(Some(line.ascent), Some(pixels_per_point)));
    lemma_on_grid(over(Some(line.descent), Some(pixels_per_point)));
    lemma_on_grid(over(Some(line.line_gap), Some(pixels_per_point)));
    let scale_in_points = over(tweaked_scale(scale_in_pixels, tweak), Some(pixels_per_point));
    lemma_on_grid(times(scale_in_points, Some(tweak.baseline_offset_factor)));
}

/// A length that was rounded to the layout grid is a point of the grid.
pub proof fn lemma_on_grid(length: Option<Fixed>)
    ensures
        round_to(length, GRID_STEP as int) matches Some(rounded) ==> rounded.raw % GRID_STEP == 0,
{
    if length is Some {
        lemma_rounded_raw_bound(length->0, GRID_STEP as int);
    }
}

} // verus!
