//! Several fonts behind one: a primary font and its fallbacks.
//!
//! A [`Font`] asks its fonts for a character in their order and remembers the
//! first glyph that one of them has. The library does not rasterize, so every
//! operation that resolves characters answers with a [`Step`]: it is done, or a
//! glyph has to be rasterized first. In that case hand the glyph to
//! [`Font::allocate_glyph`] and call the operation again: what was resolved
//! before is remembered, so the second call goes further than the first.

use crate::atlas::TextureAtlas;
use crate::cache::{empty_map, map_get, map_insert, new_map, CharMap};
use crate::chars::{DEGREE_SIGN, FALLBACK_REPLACEMENT_CHAR};
use crate::chars::{FIRST_ASCII, LAST_ASCII, PASSWORD_REPLACEMENT_CHAR};
use crate::chars::PRIMARY_REPLACEMENT_CHAR;
use crate::fixed::{Fixed, UNIT};
use crate::font_impl::{takes_region, FontImpl, FontImplState, Lookup};
use crate::glyph::{empty_uv_rect, invisible_glyph, GlyphInfo, UvRect};
use crate::index::{character_index, index_view, keyed_by_characters, list_font};
use crate::index::lemma_character_index_stays;
use crate::metrics::pixel_aligned;
use crate::raster::RasterGlyph;
use std::collections::BTreeMap;
use vstd::prelude::*;

verus! {

/// A glyph that has to be rasterized: that of `chr` in the font at
/// `font_index`, whose typeface knows it as `glyph_id`.
#[derive(Clone, Copy, Debug, PartialEq, Eq, Structural)]
pub struct RasterRequest {
    pub font_index: usize,
    pub chr: char,
    pub glyph_id: u16,
}

/// How far an operation came.
#[derive(Debug, PartialEq, Eq)]
pub enum Step<T> {
    /// The operation is done, and this is its result.
    Done(T),
    /// The operation needs this glyph rasterized before it can go on.
    Rasterize(RasterRequest),
}

/// A glyph together with the index of the font that it comes from.
pub type IndexedGlyph = (usize, GlyphInfo);

/// What the answers of a [`Font`] depend on: its fonts, what it has resolved,
/// and the glyph that it shows for a character that no font has.
pub struct FontState {
    /// The fonts, the primary one first.
    pub fonts: Seq<FontImplState>,
    /// The glyph of each character resolved so far, with the font it is from.
    pub cache: Map<char, IndexedGlyph>,
    /// The replacement glyph, once it is settled.
    pub replacement: Option<IndexedGlyph>,
    /// Whether the replacement glyph was settled without any font having a
    /// glyph for a replacement character.
    pub lacks_replacement: bool,
}

/// The character at `i` of the characters that are worth resolving ahead of
/// time: the printable characters of ASCII, then the degree sign, then the
/// character that stands for one of a password.
pub open spec fn common_character(i: int) -> char {
    if i < LAST_ASCII - FIRST_ASCII + 1 {
        ((FIRST_ASCII + i) as u8) as char
    } else if i == LAST_ASCII - FIRST_ASCII + 1 {
        DEGREE_SIGN
    } else {
        PASSWORD_REPLACEMENT_CHAR
    }
}

/// The characters that are worth resolving ahead of time.
pub open spec fn common_characters() -> Seq<char> {
    Seq::new((LAST_ASCII - FIRST_ASCII + 3) as nat, |i: int| common_character(i))
}

impl FontState {
    /// Every font is in good order, and every glyph that is remembered names
    /// a font that is there (or the first, where none is).
    pub open spec fn fonts_wf(self) -> bool {
        &&& self.fonts.len() <= usize::MAX
        &&& forall|i: int| 0 <= i < self.fonts.len() ==> (#[trigger] self.fonts[i]).wf()
        &&& forall|c: char|
            self.cache.contains_key(c) ==> self.names_font((#[trigger] self.cache[c]).0)
        &&& self.replacement matches Some(pair) ==> self.names_font(pair.0)
        &&& self.fonts.len() == 0 ==> self.replacement is Some
    }

    /// The invariant: the fonts are in good order, and nothing is remembered
    /// before the replacement glyph is settled.
    pub open spec fn wf(self) -> bool {
        &&& self.fonts_wf()
        &&& self.replacement is None ==> self.cache == empty_map::<IndexedGlyph>()
    }

    /// Whether `index` is that of one of the fonts, or 0 where there is none.
    pub open spec fn names_font(self, index: usize) -> bool {
        index < self.fonts.len() || index == 0
    }

    /// The index of the first font at or after `from` that has more to say of
    /// the character than that it is missing, or the number of fonts where
    /// none has.
    pub open spec fn first_answer(self, c: char, from: int) -> int
        decreases self.fonts.len() - from,
    {
        if from < 0 || from >= self.fonts.len() {
            self.fonts.len() as int
        } else if self.fonts[from].lookup(c) is Missing {
            self.first_answer(c, from + 1)
        } else {
            from
        }
    }

    /// Asks the fonts in their order for a character that is not resolved
    /// yet. The first font that has a glyph decides: the glyph is remembered,
    /// by that font and here, with the index of the font. Where the first
    /// font that has an answer needs a glyph rasterized, nothing changes.
    /// Where no font has an answer there is no glyph, and nothing changes.
    pub open spec fn fallback(self, c: char) -> (FontState, Step<Option<IndexedGlyph>>) {
        let i = self.first_answer(c, 0);
        if i >= self.fonts.len() {
            (self, Step::Done(None))
        } else {
            match self.fonts[i].lookup(c) {
                Lookup::Found(glyph) => (
                    FontState {
                        fonts: self.fonts.update(i, self.fonts[i].after_lookup(c)),
                        cache: self.cache.insert(c, (i as usize, glyph)),
                        ..self
                    },
                    Step::Done(Some((i as usize, glyph))),
                ),
                Lookup::Rasterize { chr, glyph_id } => (
                    self,
                    Step::Rasterize(RasterRequest { font_index: i as usize, chr, glyph_id }),
                ),
                Lookup::Missing => (self, Step::Done(None)),
            }
        }
    }

    /// The state with the replacement glyph settled.
    pub open spec fn with_replacement(self, pair: IndexedGlyph) -> FontState {
        FontState { replacement: Some(pair), ..self }
    }

    /// The state with the replacement glyph settled as the glyph of no width
    /// from the first font, for want of any other.
    pub open spec fn without_replacement(self) -> FontState {
        FontState { replacement: Some((0, invisible_glyph())), lacks_replacement: true, ..self }
    }

    /// Settles the replacement glyph, if it is not settled yet: it is the
    /// glyph of the white square where a font has one, else that of the
    /// question mark where a font has one, else the glyph of no width from the
    /// first font.
    pub open spec fn settle_replacement(self) -> (FontState, Step<()>) {
        if self.replacement is Some {
            (self, Step::Done(()))
        } else {
            let (first, primary) = self.fallback(PRIMARY_REPLACEMENT_CHAR);
            match primary {
                Step::Rasterize(request) => (first, Step::Rasterize(request)),
                Step::Done(Some(pair)) => (first.with_replacement(pair), Step::Done(())),
                Step::Done(None) => {
                    let (second, secondary) = first.fallback(FALLBACK_REPLACEMENT_CHAR);
                    match secondary {
                        Step::Rasterize(request) => (second, Step::Rasterize(request)),
                        Step::Done(Some(pair)) => (second.with_replacement(pair), Step::Done(())),
                        Step::Done(None) => (second.without_replacement(), Step::Done(())),
                    }
                },
            }
        }
    }

    /// Resolves a character once the replacement glyph is settled: a
    /// character resolved before has its glyph from then; else the fonts are
    /// asked in their order; a character that no font has resolves to the
    /// replacement glyph, which is remembered for it as any other would be.
    pub open spec fn resolve(self, c: char) -> (FontState, Step<IndexedGlyph>) {
        if self.cache.contains_key(c) {
            (self, Step::Done(self.cache[c]))
        } else {
            let (next, found) = self.fallback(c);
            match found {
                Step::Rasterize(request) => (next, Step::Rasterize(request)),
                Step::Done(Some(pair)) => (next, Step::Done(pair)),
                Step::Done(None) => (
                    FontState { cache: next.cache.insert(c, next.replacement->0), ..next },
                    Step::Done(next.replacement->0),
                ),
            }
        }
    }

    /// Resolves a character: settles the replacement glyph, then resolves.
    pub open spec fn glyph_info(self, c: char) -> (FontState, Step<IndexedGlyph>) {
        let (settled, step) = self.settle_replacement();
        match step {
            Step::Rasterize(request) => (settled, Step::Rasterize(request)),
            Step::Done(_) => settled.resolve(c),
        }
    }

    /// Whether a character can be shown: it resolves to something else than
    /// the replacement glyph.
    pub open spec fn has_glyph(self, c: char) -> (FontState, Step<bool>) {
        let (next, step) = self.glyph_info(c);
        match step {
            Step::Rasterize(request) => (next, Step::Rasterize(request)),
            Step::Done(pair) => (next, Step::Done(pair != next.replacement->0)),
        }
    }

    /// Whether every one of the characters can be shown. The characters are
    /// resolved in their order, up to the first that cannot be shown.
    pub open spec fn has_glyphs(self, chars: Seq<char>) -> (FontState, Step<bool>)
        decreases chars.len(),
    {
        if chars.len() == 0 {
            (self, Step::Done(true))
        } else {
            let (next, step) = self.has_glyph(chars[0]);
            match step {
                Step::Done(true) => next.has_glyphs(chars.drop_first()),
                _ => (next, step),
            }
        }
    }

    /// Resolves the characters in their order.
    pub open spec fn preload(self, chars: Seq<char>) -> (FontState, Step<()>)
        decreases chars.len(),
    {
        if chars.len() == 0 {
            (self, Step::Done(()))
        } else {
            let (next, step) = self.glyph_info(chars[0]);
            match step {
                Step::Rasterize(request) => (next, Step::Rasterize(request)),
                Step::Done(_) => next.preload(chars.drop_first()),
            }
        }
    }

    /// The state once the font at `font_index` has been handed a rasterized
    /// glyph. Nothing changes where there is no such font.
    pub open spec fn after_allocate(
        self,
        request: RasterRequest,
        raster: &RasterGlyph,
        atlas: &TextureAtlas,
    ) -> FontState {
        if request.font_index < self.fonts.len() {
            FontState {
                fonts: self.fonts.update(
                    request.font_index as int,
                    self.fonts[request.font_index as int].after_allocate(
                        request.chr,
                        raster,
                        atlas,
                    ),
                ),
                ..self
            }
        } else {
            self
        }
    }

    /// Whether the request is for a glyph that one of the fonts has asked for.
    pub open spec fn wants(self, request: RasterRequest) -> bool {
        request.font_index < self.fonts.len() && self.fonts[request.font_index as int].wants(
            request.chr,
        )
    }

    /// The height of a row of text: that of the first font, and zero where
    /// there is no font.
    pub open spec fn row_height(self) -> Fixed {
        if self.fonts.len() == 0 {
            Fixed { raw: 0 }
        } else {
            self.fonts[0].metrics.row_height
        }
    }

    /// How many pixels make a point: as many as for the first font, and one
    /// where there is no font.
    pub open spec fn pixels_per_point(self) -> Fixed {
        if self.fonts.len() == 0 {
            Fixed { raw: UNIT }
        } else {
            self.fonts[0].metrics.pixels_per_point
        }
    }
}

/// The states of the fonts, in their order.
pub open spec fn font_states(fonts: Seq<FontImpl>) -> Seq<FontImplState> {
    fonts.map_values(|font: FontImpl| font@)
}

/// A primary font and its fallbacks, for example for symbols and emojis.
pub struct Font {
    fonts: Vec<FontImpl>,
    /// Which fonts list which character. Made when it is first asked for.
    characters: Option<BTreeMap<u32, Vec<String>>>,
    replacement_glyph: Option<IndexedGlyph>,
    lacks_replacement: bool,
    pixels_per_point: Fixed,
    row_height: Fixed,
    glyph_info_cache: CharMap<IndexedGlyph>,
}

impl View for Font {
    type V = FontState;

    closed spec fn view(&self) -> FontState {
        FontState {
            fonts: font_states(self.fonts@),
            cache: self.glyph_info_cache@,
            replacement: self.replacement_glyph,
            lacks_replacement: self.lacks_replacement,
        }
    }
}

impl Font {
    /// The invariant of the fonts, but for what holds before the replacement
    /// glyph is settled.
    pub closed spec fn fonts_wf(&self) -> bool {
        &&& self@.fonts_wf()
        &&& forall|i: int| 0 <= i < self.fonts@.len() ==> (#[trigger] self.fonts@[i]).wf()
        &&& self.row_height == self@.row_height()
        &&& self.pixels_per_point == self@.pixels_per_point()
        &&& self.characters matches Some(index) ==> {
            &&& index_view(index@) == character_index(self@.fonts)
            &&& keyed_by_characters(index@)
        }
    }

    /// The invariant of the fonts.
    pub closed spec fn wf(&self) -> bool {
        &&& self.fonts_wf()
        &&& self@.wf()
    }

    /// Fonts in good order have a state in good order.
    pub proof fn lemma_wf(&self)
        requires
            self.wf(),
        ensures
            self@.wf(),
    {
    }

    /// The fonts in their order of fallback, with nothing resolved here yet.
    /// There may be none: every character then resolves to the glyph of no
    /// width.
    pub fn new(fonts: Vec<FontImpl>) -> (r: Font)
        requires
            forall|i: int| 0 <= i < fonts@.len() ==> (#[trigger] fonts@[i]).wf(),
        ensures
            r.wf(),
            r@.fonts == font_states(fonts@),
            r@.cache == empty_map::<IndexedGlyph>(),
            r@.replacement == if fonts@.len() == 0 {
                Some((0usize, invisible_glyph()))
            } else {
                None
            },
            !r@.lacks_replacement,
    {
        if fonts.len() == 0 {
            return Font {
                fonts,
                characters: None,
                replacement_glyph: Some((0, GlyphInfo::default())),
                lacks_replacement: false,
                pixels_per_point: Fixed::from_int(1),
                row_height: Fixed::zero(),
                glyph_info_cache: new_map(),
            };
        }
        proof {
            fonts@[0].lemma_wf();
            assert forall|i: int| 0 <= i < fonts@.len() implies (#[trigger] font_states(
                fonts@,
            )[i]).wf() by {
                fonts@[i].lemma_wf();
            }
        }
        let pixels_per_point = fonts[0].pixels_per_point();
        let row_height = fonts[0].row_height();
        Font {
            fonts,
            characters: None,
            replacement_glyph: None,
            lacks_replacement: false,
            pixels_per_point,
            row_height,
            glyph_info_cache: new_map(),
        }
    }

    /// Asks the fonts in their order for a character that is not resolved yet.
    fn glyph_info_no_cache_or_fallback(&mut self, c: char) -> (r: Step<Option<IndexedGlyph>>)
        requires
            old(self).fonts_wf(),
        ensures
            final(self).fonts_wf(),
            (final(self)@, r) == old(self)@.fallback(c),
            final(self)@.fonts.len() == old(self)@.fonts.len(),
    {
        let mut font_index: usize = 0;
        while font_index < self.fonts.len()
            invariant
                font_index <= self.fonts@.len(),
                self.fonts_wf(),
                self@ == old(self)@,
                old(self)@.first_answer(c, 0) == old(self)@.first_answer(c, font_index as int),
            decreases self.fonts@.len() - font_index,
        {
            let ghost before = self@;
            let ghost fonts_before = self.fonts@;
            match self.fonts[font_index].glyph_info(c) {
                Lookup::Found(glyph_info) => {
                    map_insert(&mut self.glyph_info_cache, c, (font_index, glyph_info));
                    proof {
                        assert(self@.fonts =~= before.fonts.update(
                            font_index as int,
                            before.fonts[font_index as int].after_lookup(c),
                        ));
                        assert forall|i: int| 0 <= i < self@.fonts.len() implies (
                        #[trigger] self@.fonts[i]).wf() by {
                            self.fonts@[i].lemma_wf();
                        }
                        assert forall|i: int| 0 <= i < self.fonts@.len() implies (
                        #[trigger] self.fonts@[i]).wf() by {
                            if i != font_index {
                                assert(self.fonts@[i] == fonts_before[i]);
                            }
                        }
                        assert forall|d: char| self@.cache.contains_key(d) implies self@.names_font(
                            (#[trigger] self@.cache[d]).0,
                        ) by {
                            if d != c {
                                assert(before.cache.contains_key(d));
                                assert(before.names_font(before.cache[d].0));
                            }
                        }
                        assert(self@.fonts[0].metrics == before.fonts[0].metrics);
                        lemma_character_index_stays(before.fonts, self@.fonts);
                    }
                    return Step::Done(Some((font_index, glyph_info)));
                },
                Lookup::Rasterize { chr, glyph_id } => {
                    proof {
                        assert(self@.fonts =~= before.fonts);
                    }
                    return Step::Rasterize(RasterRequest { font_index, chr, glyph_id });
                },
                Lookup::Missing => {
                    proof {
                        assert(self@.fonts =~= before.fonts);
                    }
                },
            }
            font_index += 1;
        }
        Step::Done(None)
    }

    /// Settles the replacement glyph, if it is not settled yet: the glyph that
    /// is shown for a character that no font has. Every operation that
    /// resolves a character does this first.
    pub fn settle_replacement(&mut self) -> (r: Step<()>)
        requires
            old(self).wf(),
        ensures
            final(self).wf(),
            (final(self)@, r) == old(self)@.settle_replacement(),
            r is Done ==> final(self)@.replacement is Some,
            final(self)@.fonts.len() == old(self)@.fonts.len(),
    {
        if self.replacement_glyph.is_some() {
            return Step::Done(());
        }
        match self.glyph_info_no_cache_or_fallback(PRIMARY_REPLACEMENT_CHAR) {
            Step::Rasterize(request) => {
                return Step::Rasterize(request);
            },
            Step::Done(Some(pair)) => {
                proof {
                    assert(self@.cache.contains_key(PRIMARY_REPLACEMENT_CHAR));
                    assert(self@.names_font(self@.cache[PRIMARY_REPLACEMENT_CHAR].0));
                }
                self.replacement_glyph = Some(pair);
                return Step::Done(());
            },
            Step::Done(None) => {},
        }
        match self.glyph_info_no_cache_or_fallback(FALLBACK_REPLACEMENT_CHAR) {
            Step::Rasterize(request) => Step::Rasterize(request),
            Step::Done(Some(pair)) => {
                proof {
                    assert(self@.cache.contains_key(FALLBACK_REPLACEMENT_CHAR));
                    assert(self@.names_font(self@.cache[FALLBACK_REPLACEMENT_CHAR].0));
                }
                self.replacement_glyph = Some(pair);
                Step::Done(())
            },
            Step::Done(None) => {
                // No font has a replacement character: an empty glyph is shown.
                self.replacement_glyph = Some((0, GlyphInfo::default()));
                self.lacks_replacement = true;
                Step::Done(())
            },
        }
    }

    /// Resolves a character to a glyph and the index of the font that it is
    /// from, and remembers both. A character that no font has resolves to the
    /// replacement glyph: the line feed, for one.
    pub fn glyph_info(&mut self, c: char) -> (r: Step<IndexedGlyph>)
        requires
            old(self).wf(),
        ensures
            final(self).wf(),
            (final(self)@, r) == old(self)@.glyph_info(c),
            r matches Step::Done(pair) ==> {
                &&& final(self)@.cache.contains_key(c)
                &&& final(self)@.cache[c] == pair
                &&& final(self)@.replacement is Some
            },
            final(self)@.fonts.len() == old(self)@.fonts.len(),
    {
        match self.settle_replacement() {
            Step::Rasterize(request) => {
                return Step::Rasterize(request);
            },
            Step::Done(_) => {},
        }
        if let Some(font_index_glyph_info) = map_get(&self.glyph_info_cache, c) {
            return Step::Done(font_index_glyph_info);
        }
        match self.glyph_info_no_cache_or_fallback(c) {
            Step::Rasterize(request) => Step::Rasterize(request),
            Step::Done(Some(font_index_glyph_info)) => Step::Done(font_index_glyph_info),
            Step::Done(None) => {
                let font_index_glyph_info = match self.replacement_glyph {
                    Some(pair) => pair,
                    None => (0, GlyphInfo::default()),
                };
                map_insert(&mut self.glyph_info_cache, c, font_index_glyph_info);
                Step::Done(font_index_glyph_info)
            },
        }
    }

    /// Hands the glyph that a step asked for to the font that it is for,
    /// which puts its pixels into the atlas and remembers it. Returns the
    /// glyph that the font has for the character from now on, or nothing
    /// where the request names no font, or a glyph that the font has no use
    /// for.
    pub fn allocate_glyph(
        &mut self,
        request: RasterRequest,
        raster: &RasterGlyph,
        atlas: &mut TextureAtlas,
    ) -> (r: Option<GlyphInfo>)
        requires
            old(self).wf(),
            old(atlas).wf(),
        ensures
            final(self).wf(),
            final(atlas).wf(),
            final(self)@ == old(self)@.after_allocate(request, raster, old(atlas)),
            r == if request.font_index < old(self)@.fonts.len() {
                old(self)@.fonts[request.font_index as int].allocated(
                    request.chr,
                    raster,
                    old(atlas),
                )
            } else {
                None
            },
            if old(self)@.wants(request) && takes_region(raster, old(atlas)) {
                final(atlas).holds_glyph(
                    old(atlas),
                    (raster.spec_bounds()->0).width as usize,
                    (raster.spec_bounds()->0).height as usize,
                    raster.spec_coverage(),
                )
            } else {
                *final(atlas) == *old(atlas)
            },
    {
        if request.font_index >= self.fonts.len() {
            return None;
        }
        let ghost before = self@;
        let ghost fonts_before = self.fonts@;
        let glyph = self.fonts[request.font_index].allocate_glyph(request.chr, raster, atlas);
        proof {
            assert(self@.fonts =~= before.fonts.update(
                request.font_index as int,
                before.fonts[request.font_index as int].after_allocate(
                    request.chr,
                    raster,
                    old(atlas),
                ),
            ));
            assert forall|i: int| 0 <= i < self@.fonts.len() implies (#[trigger] self@.fonts[i]).wf() by {
                self.fonts@[i].lemma_wf();
            }
            assert forall|i: int| 0 <= i < self.fonts@.len() implies (#[trigger] self.fonts@[i]).wf() by {
                if i != request.font_index {
                    assert(self.fonts@[i] == fonts_before[i]);
                }
            }
            assert(self@.fonts[0].metrics == before.fonts[0].metrics);
            lemma_character_index_stays(before.fonts, self@.fonts);
        }
        glyph
    }

    /// Height of one row of text, in points: a point of the layout grid.
    pub fn row_height(&self) -> (r: Fixed)
        requires
            self.wf(),
        ensures
            r == self@.row_height(),
    {
        self.row_height
    }

    /// Where the pixels of the character are, if it was resolved before, and
    /// the empty rectangle if it was not.
    pub fn uv_rect(&self, c: char) -> (r: UvRect)
        ensures
            r == if self@.cache.contains_key(c) {
                self@.cache[c].1.uv_rect
            } else {
                empty_uv_rect()
            },
    {
        match map_get(&self.glyph_info_cache, c) {
            Some(gi) => gi.1.uv_rect,
            None => UvRect::default(),
        }
    }

    /// Width of this character in points.
    pub fn glyph_width(&mut self, c: char) -> (r: Step<Fixed>)
        requires
            old(self).wf(),
        ensures
            final(self).wf(),
            final(self)@ == old(self)@.glyph_info(c).0,
            r == match old(self)@.glyph_info(c).1 {
                Step::Done(pair) => Step::Done(pair.1.advance_width),
                Step::Rasterize(request) => Step::Rasterize(request),
            },
    {
        match self.glyph_info(c) {
            Step::Done(pair) => Step::Done(pair.1.advance_width),
            Step::Rasterize(request) => Step::Rasterize(request),
        }
    }

    /// Can we display this glyph? Not if it is the replacement glyph, so the
    /// answer is no for the replacement character itself.
    pub fn has_glyph(&mut self, c: char) -> (r: Step<bool>)
        requires
            old(self).wf(),
        ensures
            final(self).wf(),
            (final(self)@, r) == old(self)@.has_glyph(c),
    {
        match self.glyph_info(c) {
            Step::Done(pair) => {
                let same = match self.replacement_glyph {
                    Some(replacement) => pair.0 == replacement.0 && pair.1.same(&replacement.1),
                    None => false,
                };
                Step::Done(!same)
            },
            Step::Rasterize(request) => Step::Rasterize(request),
        }
    }

    /// Can we display all the glyphs in this text?
    pub fn has_glyphs(&mut self, s: &str) -> (r: Step<bool>)
        requires
            old(self).wf(),
        ensures
            final(self).wf(),
            (final(self)@, r) == old(self)@.has_glyphs(s@),
    {
        assert(s@.skip(0) =~= s@);
        for c in iter: s.chars()
            invariant
                self.wf(),
                iter.seq() == s@,
                old(self)@.has_glyphs(s@) == self@.has_glyphs(s@.skip(iter.index())),
        {
            let ghost rest = s@.skip(iter.index());
            assert(rest[0] == c);
            assert(rest.drop_first() == s@.skip(iter.index() + 1));
            match self.has_glyph(c) {
                Step::Done(true) => {},
                Step::Done(false) => {
                    return Step::Done(false);
                },
                Step::Rasterize(request) => {
                    return Step::Rasterize(request);
                },
            }
        }
        Step::Done(true)
    }

    /// Resolves every character of the text, so that it need not be done
    /// when the text is first shown.
    pub fn preload_characters(&mut self, s: &str) -> (r: Step<()>)
        requires
            old(self).wf(),
        ensures
            final(self).wf(),
            (final(self)@, r) == old(self)@.preload(s@),
    {
        assert(s@.skip(0) =~= s@);
        for c in iter: s.chars()
            invariant
                self.wf(),
                iter.seq() == s@,
                old(self)@.preload(s@) == self@.preload(s@.skip(iter.index())),
        {
            let ghost rest = s@.skip(iter.index());
            assert(rest[0] == c);
            assert(rest.drop_first() == s@.skip(iter.index() + 1));
            match self.glyph_info(c) {
                Step::Done(_) => {},
                Step::Rasterize(request) => {
                    return Step::Rasterize(request);
                },
            }
        }
        Step::Done(())
    }

    /// Resolves the printable characters of ASCII and a few more that user
    /// interfaces show often, so that it need not be done when they are
    /// first shown.
    pub fn preload_common_characters(&mut self) -> (r: Step<()>)
        requires
            old(self).wf(),
        ensures
            final(self).wf(),
            (final(self)@, r) == old(self)@.preload(common_characters()),
    {
        let ghost all = common_characters();
        assert(all.skip(0) =~= all);
        // The printable characters of ASCII, which leaves out the control codes.
        let mut code: u8 = FIRST_ASCII;
        while code <= LAST_ASCII
            invariant
                FIRST_ASCII <= code <= LAST_ASCII + 1,
                self.wf(),
                all == common_characters(),
                old(self)@.preload(all) == self@.preload(all.skip(code - FIRST_ASCII)),
            decreases LAST_ASCII + 1 - code,
        {
            let ghost rest = all.skip(code - FIRST_ASCII);
            assert(rest[0] == code as char);
            assert(rest.drop_first() == all.skip(code - FIRST_ASCII + 1));
            match self.glyph_info(code as char) {
                Step::Done(_) => {},
                Step::Rasterize(request) => {
                    return Step::Rasterize(request);
                },
            }
            code += 1;
        }
        let ghost degree = all.skip(LAST_ASCII - FIRST_ASCII + 1);
        let ghost before_degree = self@;
        assert(degree[0] == DEGREE_SIGN);
        assert(degree.drop_first() == all.skip(LAST_ASCII - FIRST_ASCII + 2));
        match self.glyph_info(DEGREE_SIGN) {
            Step::Done(_) => {},
            Step::Rasterize(request) => {
                return Step::Rasterize(request);
            },
        }
        assert(before_degree.preload(degree) == self@.preload(degree.drop_first()));
        let ghost password = all.skip(LAST_ASCII - FIRST_ASCII + 2);
        let ghost before_password = self@;
        assert(password[0] == PASSWORD_REPLACEMENT_CHAR);
        assert(password.drop_first().len() == 0);
        let r = match self.glyph_info(PASSWORD_REPLACEMENT_CHAR) {
            Step::Done(_) => Step::Done(()),
            Step::Rasterize(request) => Step::Rasterize(request),
        };
        assert(r is Done ==> self@.preload(password.drop_first()) == (self@, r));
        assert(before_password.preload(password) == (self@, r));
        r
    }

    /// A length moved to the nearest whole number of pixels, unless that
    /// cannot be represented.
    pub fn round_to_pixel(&self, point: Fixed) -> (r: Option<Fixed>)
        requires
            self.wf(),
        ensures
            r == pixel_aligned(Some(point), self@.pixels_per_point()),
    {
        let pixels = match point.checked_mul(self.pixels_per_point) {
            Some(pixels) => pixels,
            None => return None,
        };
        match pixels.checked_round() {
            Some(whole) => whole.checked_div(self.pixels_per_point),
            None => None,
        }
    }

    /// The distance from the top of a row to the baseline, in points: that
    /// of the first font, and the height of a row where there is no font.
    pub fn ascent(&self) -> (r: Fixed)
        requires
            self.wf(),
        ensures
            r == if self@.fonts.len() == 0 {
                self@.row_height()
            } else {
                self@.fonts[0].metrics.ascent
            },
    {
        if self.fonts.len() == 0 {
            self.row_height
        } else {
            self.fonts[0].ascent()
        }
    }

    /// The glyph of a character and the index of the font that has it: no
    /// index and the replacement glyph where there is no font, and else what
    /// the character resolves to.
    pub fn font_impl_and_glyph_info(&mut self, c: char) -> (r: Step<(Option<usize>, GlyphInfo)>)
        requires
            old(self).wf(),
        ensures
            final(self).wf(),
            old(self)@.fonts.len() == 0 ==> final(self)@ == old(self)@ && r == Step::Done(
                (None::<usize>, (old(self)@.replacement->0).1),
            ),
            old(self)@.fonts.len() > 0 ==> final(self)@ == old(self)@.glyph_info(c).0 && r
                == match old(self)@.glyph_info(c).1 {
                Step::Done(pair) => Step::Done((Some(pair.0), pair.1)),
                Step::Rasterize(request) => Step::Rasterize(request),
            },
            r matches Step::Done((Some(index), _)) ==> index < final(self)@.fonts.len(),
    {
        if self.fonts.len() == 0 {
            let glyph = match self.replacement_glyph {
                Some(pair) => pair.1,
                None => GlyphInfo::default(),
            };
            return Step::Done((None, glyph));
        }
        match self.glyph_info(c) {
            Step::Done(pair) => {
                proof {
                    assert(self@.names_font(self@.cache[c].0));
                }
                Step::Done((Some(pair.0), pair.1))
            },
            Step::Rasterize(request) => Step::Rasterize(request),
        }
    }

    /// All the characters that the fonts show, each with the names of the
    /// fonts that show it, by code point. The index is made when it is first
    /// asked for, which takes a walk through every typeface.
    pub fn characters(&mut self) -> (r: &BTreeMap<u32, Vec<String>>)
        requires
            old(self).wf(),
        ensures
            final(self).wf(),
            final(self)@ == old(self)@,
            index_view(r@) == character_index(old(self)@.fonts),
            keyed_by_characters(r@),
    {
        if self.characters.is_none() {
            let mut index: BTreeMap<u32, Vec<String>> = BTreeMap::new();
            let mut i: usize = 0;
            assert(index_view(index@) =~= character_index(self@.fonts.take(0)));
            while i < self.fonts.len()
                invariant
                    i <= self.fonts@.len(),
                    self.wf(),
                    self@ == old(self)@,
                    self.characters is None,
                    index_view(index@) == character_index(self@.fonts.take(i as int)),
                    keyed_by_characters(index@),
                decreases self.fonts@.len() - i,
            {
                let chars = self.fonts[i].characters();
                assert(self@.fonts.take(i + 1).drop_last() == self@.fonts.take(i as int));
                list_font(&mut index, self.fonts[i].name(), &chars);
                i += 1;
            }
            assert(self@.fonts.take(i as int) == self@.fonts);
            self.characters = Some(index);
        }
        match &self.characters {
            Some(index) => index,
            None => unreached(),
        }
    }

    /// Gives the fonts back, with all that they have resolved.
    pub fn into_fonts(self) -> (r: Vec<FontImpl>)
        requires
            self.wf(),
        ensures
            font_states(r@) == self@.fonts,
            forall|i: int| 0 <= i < r@.len() ==> (#[trigger] r@[i]).wf(),
    {
        self.fonts
    }

    /// The fonts in their order of fallback.
    pub fn fonts(&self) -> (r: &Vec<FontImpl>)
        ensures
            font_states(r@) == self@.fonts,
    {
        &self.fonts
    }

    /// Whether the replacement glyph had to be the glyph of no width,
    /// because no font has a glyph for a replacement character.
    pub fn lacks_replacement(&self) -> (r: bool)
        ensures
            r == self@.lacks_replacement,
    {
        self.lacks_replacement
    }
}

} // verus!
