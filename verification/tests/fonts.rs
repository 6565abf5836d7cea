use ab_glyph::{Font, FontArc, ScaleFont};
use glyph_fonts::atlas::TextureAtlas;
use glyph_fonts::chars::{PASSWORD_REPLACEMENT_CHAR, PRIMARY_REPLACEMENT_CHAR, THIN_SPACE};
use glyph_fonts::fixed::Fixed;
use glyph_fonts::font;
use glyph_fonts::font::{RasterRequest, Step};
use glyph_fonts::font_impl::{FontError, FontImpl, Lookup};
use glyph_fonts::glyph::{GlyphInfo, UvRect};
use glyph_fonts::metrics::{FontTweak, LineMetrics};
use glyph_fonts::raster::{PixelBounds, RasterGlyph};

// ----------------------------------------------------------------------------
// A typeface made by hand: 1024 units per em, 768 above the baseline and 256
// below it, and a line gap of 128. Every outline is a rectangle.

struct TestGlyph {
    chr: char,
    advance: u16,
    /// x_min, y_min, x_max, y_max in font units, for a glyph with an outline.
    outline: Option<(i16, i16, i16, i16)>,
}

fn glyph(chr: char, advance: u16) -> TestGlyph {
    TestGlyph { chr, advance, outline: Some((128, 0, 640, 768)) }
}

fn blank(chr: char, advance: u16) -> TestGlyph {
    TestGlyph { chr, advance, outline: None }
}

fn be16(out: &mut Vec<u8>, value: u16) {
    out.extend_from_slice(&value.to_be_bytes());
}

fn be16s(out: &mut Vec<u8>, value: i16) {
    out.extend_from_slice(&value.to_be_bytes());
}

fn be32(out: &mut Vec<u8>, value: u32) {
    out.extend_from_slice(&value.to_be_bytes());
}

/// The bytes of a TrueType font with glyph 0 for no character and glyph
/// `i + 1` for the character of `glyphs[i]`.
fn font_bytes(glyphs: &[TestGlyph]) -> Vec<u8> {
    let glyph_count = glyphs.len() as u16 + 1;

    let mut head = Vec::new();
    be32(&mut head, 0x0001_0000); // version
    be32(&mut head, 0x0001_0000); // revision
    be32(&mut head, 0); // checksum adjustment
    be32(&mut head, 0x5F0F_3CF5); // magic number
    be16(&mut head, 0); // flags
    be16(&mut head, 1024); // units per em
    head.extend_from_slice(&[0u8; 16]); // created, modified
    be16s(&mut head, 0); // x min
    be16s(&mut head, -256); // y min
    be16s(&mut head, 1024); // x max
    be16s(&mut head, 768); // y max
    be16(&mut head, 0); // mac style
    be16(&mut head, 8); // lowest size
    be16s(&mut head, 2); // direction hint
    be16(&mut head, 1); // long offsets in loca
    be16(&mut head, 0); // glyph data format

    let mut hhea = Vec::new();
    be32(&mut hhea, 0x0001_0000);
    be16s(&mut hhea, 768); // ascender
    be16s(&mut hhea, -256); // descender
    be16s(&mut hhea, 128); // line gap
    hhea.extend_from_slice(&[0u8; 24]);
    be16(&mut hhea, glyph_count); // number of metrics

    let mut maxp = Vec::new();
    be32(&mut maxp, 0x0000_5000);
    be16(&mut maxp, glyph_count);

    let mut hmtx = Vec::new();
    be16(&mut hmtx, 512);
    be16s(&mut hmtx, 0);
    for g in glyphs {
        be16(&mut hmtx, g.advance);
        be16s(&mut hmtx, 0);
    }

    let mut order: Vec<usize> = (0..glyphs.len()).collect();
    order.sort_by_key(|&i| glyphs[i].chr as u32);
    let mut cmap = Vec::new();
    be16(&mut cmap, 0); // version
    be16(&mut cmap, 1); // one subtable
    be16(&mut cmap, 0); // platform: Unicode
    be16(&mut cmap, 4); // encoding: full repertoire
    be32(&mut cmap, 12); // offset of the subtable
    be16(&mut cmap, 12); // format 12
    be16(&mut cmap, 0);
    be32(&mut cmap, 16 + 12 * glyphs.len() as u32); // length
    be32(&mut cmap, 0); // language
    be32(&mut cmap, glyphs.len() as u32); // groups
    for &i in &order {
        be32(&mut cmap, glyphs[i].chr as u32);
        be32(&mut cmap, glyphs[i].chr as u32);
        be32(&mut cmap, i as u32 + 1);
    }

    let mut glyf = Vec::new();
    let mut loca = Vec::new();
    be32(&mut loca, 0);
    be32(&mut loca, 0); // glyph 0 is empty
    for g in glyphs {
        if let Some((x_min, y_min, x_max, y_max)) = g.outline {
            be16s(&mut glyf, 1); // one contour
            be16s(&mut glyf, x_min);
            be16s(&mut glyf, y_min);
            be16s(&mut glyf, x_max);
            be16s(&mut glyf, y_max);
            be16(&mut glyf, 3); // the contour ends at point 3
            be16(&mut glyf, 0); // no instructions
            glyf.extend_from_slice(&[1u8; 4]); // four points on the curve
            for dx in [x_min, x_max - x_min, 0, x_min - x_max] {
                be16s(&mut glyf, dx);
            }
            for dy in [y_min, 0, y_max - y_min, 0] {
                be16s(&mut glyf, dy);
            }
            while glyf.len() % 4 != 0 {
                glyf.push(0);
            }
        }
        be32(&mut loca, glyf.len() as u32);
    }
    if glyf.is_empty() {
        glyf.extend_from_slice(&[0u8; 4]);
    }

    let tables: [(&[u8; 4], Vec<u8>); 7] = [
        (b"cmap", cmap),
        (b"glyf", glyf),
        (b"head", head),
        (b"hhea", hhea),
        (b"hmtx", hmtx),
        (b"loca", loca),
        (b"maxp", maxp),
    ];
    let mut out = Vec::new();
    be32(&mut out, 0x0001_0000);
    be16(&mut out, tables.len() as u16);
    be16(&mut out, 64);
    be16(&mut out, 2);
    be16(&mut out, 48);
    let mut offset = 12 + 16 * tables.len();
    for (tag, data) in &tables {
        out.extend_from_slice(&tag[..]);
        be32(&mut out, 0);
        be32(&mut out, offset as u32);
        be32(&mut out, data.len() as u32);
        offset += (data.len() + 3) / 4 * 4;
    }
    for (_, data) in &tables {
        out.extend_from_slice(data);
        while out.len() % 4 != 0 {
            out.push(0);
        }
    }
    out
}

fn typeface(glyphs: &[TestGlyph]) -> FontArc {
    FontArc::try_from_vec(font_bytes(glyphs)).expect("the font is valid")
}

/// Space, `A`, `B`, `?` and the white square.
fn latin() -> FontArc {
    typeface(&[
        blank(' ', 512),
        glyph('A', 768),
        glyph('B', 640),
        glyph('?', 512),
        glyph(PRIMARY_REPLACEMENT_CHAR, 1024),
    ])
}

fn fixed(value: f32) -> Fixed {
    Fixed::from_raw((value as f64 * 65536.0).round() as i64)
}

fn value(number: Fixed) -> f64 {
    number.raw as f64 / 65536.0
}

fn font_impl(name: &str, typeface: FontArc, scale: f32, pixels_per_point: f32) -> FontImpl {
    let scaled = typeface.as_scaled(scale);
    let line = LineMetrics {
        ascent: fixed(scaled.ascent()),
        descent: fixed(scaled.descent()),
        line_gap: fixed(scaled.line_gap()),
    };
    FontImpl::new(
        fixed(pixels_per_point),
        name.to_owned(),
        typeface,
        fixed(scale),
        line,
        FontTweak::default(),
    )
    .expect("the font can be made")
}

fn rasterize(typeface: &FontArc, glyph_id: u16, scale_in_pixels: u32) -> RasterGlyph {
    let id = ab_glyph::GlyphId(glyph_id);
    let scale = scale_in_pixels as f32;
    let advance = typeface.as_scaled(scale).h_advance(id);
    let glyph = id.with_scale_and_position(scale, ab_glyph::point(0.0, 0.0));
    match typeface.outline_glyph(glyph) {
        Some(outlined) => {
            let bb = outlined.px_bounds();
            let width = bb.width() as usize;
            let height = bb.height() as usize;
            let mut coverage = vec![0u8; width * height];
            outlined.draw(|x, y, v| {
                coverage[y as usize * width + x as usize] = (v.clamp(0.0, 1.0) * 255.0).round() as u8;
            });
            let bounds = PixelBounds {
                min_x: bb.min.x as i16,
                min_y: bb.min.y as i16,
                width: width as u16,
                height: height as u16,
            };
            RasterGlyph::new(fixed(advance), Some(bounds), coverage).expect("a valid glyph")
        }
        None => RasterGlyph::new(fixed(advance), None, Vec::new()).expect("a valid glyph"),
    }
}

/// Asks one font until it has an answer that needs no rasterizing.
fn lookup(font: &mut FontImpl, atlas: &mut TextureAtlas, c: char) -> Option<GlyphInfo> {
    loop {
        match font.glyph_info(c) {
            Lookup::Found(glyph) => return Some(glyph),
            Lookup::Missing => return None,
            Lookup::Rasterize { chr, glyph_id } => {
                let raster = rasterize(font.typeface(), glyph_id, font.scale_in_pixels());
                assert!(font.allocate_glyph(chr, &raster, atlas).is_some());
            }
        }
    }
}

/// Runs an operation of the fonts until it is done.
fn run<T>(
    fonts: &mut font::Font,
    atlas: &mut TextureAtlas,
    mut operation: impl FnMut(&mut font::Font) -> Step<T>,
) -> T {
    loop {
        match operation(fonts) {
            Step::Done(result) => return result,
            Step::Rasterize(request) => {
                let raster = {
                    let font = &fonts.fonts()[request.font_index];
                    rasterize(font.typeface(), request.glyph_id, font.scale_in_pixels())
                };
                assert!(fonts.allocate_glyph(request, &raster, atlas).is_some());
            }
        }
    }
}

fn atlas() -> TextureAtlas {
    TextureAtlas::new(256, 64).expect("the size is valid")
}

// ----------------------------------------------------------------------------
// One font.

#[test]
fn a_font_has_the_metrics_of_its_typeface() {
    let font = font_impl("Custom", latin(), 20.0, 1.0);
    assert_eq!(font.scale_in_pixels(), 20);
    assert_eq!(value(font.pixels_per_point()), 1.0);
    assert_eq!(value(font.ascent()), 15.0);
    // ascent 15, descent -5, line gap 2.5
    assert_eq!(value(font.row_height()), 22.5);
    assert_eq!(font.name(), "Custom");
}

#[test]
fn metrics_are_rounded_to_the_grid_in_points() {
    // At 1.5 pixels per point: ascent 15 px = 10 pt, descent -5 px = -3.3333 pt,
    // which the grid of 1/32 pt takes to -107/32, and line gap 2.5 px = 1.6667 pt,
    // which it takes to 53/32.
    let font = font_impl("Custom", latin(), 20.0, 1.5);
    assert_eq!(value(font.ascent()), 10.0);
    assert_eq!(value(font.row_height()), 10.0 + 107.0 / 32.0 + 53.0 / 32.0);
    assert_eq!(font.scale_in_pixels(), 20);
}

#[test]
fn the_tweak_scales_centres_and_shifts() {
    let typeface = latin();
    let scaled = typeface.as_scaled(20.0);
    let line = LineMetrics {
        ascent: fixed(scaled.ascent()),
        descent: fixed(scaled.descent()),
        line_gap: fixed(scaled.line_gap()),
    };
    let tweak = FontTweak {
        scale: fixed(0.5),
        y_offset_factor: fixed(0.25),
        y_offset: fixed(1.0),
        baseline_offset_factor: fixed(-0.125),
    };
    let font = FontImpl::new(fixed(2.0), "Custom".to_owned(), typeface, fixed(20.0), line, tweak)
        .expect("the font can be made");
    // 20 px * 0.5 = 10 px
    assert_eq!(font.scale_in_pixels(), 10);
    // ascent 7.5 pt, baseline offset 5 pt * -0.125 = -0.625 pt
    assert_eq!(value(font.ascent()), 7.5 - 0.625);
    // ascent 7.5, descent -2.5, line gap 1.25
    assert_eq!(value(font.row_height()), 11.25);

    // The offset asked for is 5 pt * 0.25 + 1 = 2.25 pt. Half of the scale that
    // is missing, 0.25, of the height 7.5 + -2.5 = 5 pt is taken off: 1 pt.
    // The glyph of `A` starts 15 * 0.5 = 7.5 px above the baseline, which is
    // 8 whole pixels and 4 pt.
    let mut atlas = atlas();
    let mut font = font;
    let a = lookup(&mut font, &mut atlas, 'A').expect("the typeface has an A");
    assert_eq!(value(a.uv_rect.offset.y), -4.0 + 1.0);
}

#[test]
fn a_font_needs_a_size_and_a_ratio_above_zero() {
    let line = LineMetrics { ascent: fixed(15.0), descent: fixed(-5.0), line_gap: fixed(2.5) };
    let tweak = FontTweak::default();
    let made = |pixels_per_point, scale| {
        FontImpl::new(pixels_per_point, "Custom".to_owned(), latin(), scale, line, tweak).err()
    };
    assert_eq!(made(fixed(1.0), fixed(0.0)), Some(FontError::InvalidScale));
    assert_eq!(made(fixed(1.0), fixed(-3.0)), Some(FontError::InvalidScale));
    assert_eq!(made(fixed(0.0), fixed(20.0)), Some(FontError::InvalidPixelsPerPoint));
    assert_eq!(made(fixed(-1.0), fixed(20.0)), Some(FontError::InvalidPixelsPerPoint));
    // The size is tested first.
    assert_eq!(made(fixed(0.0), fixed(0.0)), Some(FontError::InvalidScale));
    assert_eq!(made(Fixed::from_raw(1), Fixed::from_raw(i64::MAX)), Some(FontError::MetricsOutOfRange));
    assert_eq!(made(fixed(1.0), fixed(20.0)), None);
}

#[test]
fn the_typeface_says_which_glyph_to_rasterize() {
    let mut font = font_impl("Custom", latin(), 20.0, 1.0);
    assert_eq!(font.glyph_info('A'), Lookup::Rasterize { chr: 'A', glyph_id: 2 });
    assert_eq!(font.glyph_info('B'), Lookup::Rasterize { chr: 'B', glyph_id: 3 });
    assert_eq!(font.glyph_info(' '), Lookup::Rasterize { chr: ' ', glyph_id: 1 });
    assert_eq!(font.glyph_info('C'), Lookup::Missing);
    assert_eq!(font.glyph_info('\n'), Lookup::Missing);
}

#[test]
fn a_rasterized_glyph_is_placed_in_the_atlas() {
    let mut atlas = atlas();
    let mut font = font_impl("Custom", latin(), 20.0, 1.0);
    let a = lookup(&mut font, &mut atlas, 'A').expect("the typeface has an A");
    assert_eq!(a.id, 2);
    // 768 units of 1024 at 20 px
    assert_eq!(value(a.advance_width), 15.0);
    // The outline spans 2.5 to 12.5 px and 15 px above the baseline to it.
    assert_eq!(a.uv_rect.min, [0, 0]);
    assert_eq!(a.uv_rect.max, [11, 15]);
    assert_eq!(value(a.uv_rect.offset.x), 2.0);
    assert_eq!(value(a.uv_rect.offset.y), -15.0);
    assert_eq!(value(a.uv_rect.size.x), 11.0);
    assert_eq!(value(a.uv_rect.size.y), 15.0);
    assert!(!a.uv_rect.is_nothing());
    assert_eq!(atlas.allocations(), 1);
    // The middle of the glyph is covered, the first column only by half.
    assert_eq!(atlas.pixel(5, 7), 255);
    assert_eq!(atlas.pixel(0, 7), 128);
    assert_eq!(atlas.pixel(11, 7), 0);
    assert_eq!(atlas.pixel(5, 15), 0);

    let b = lookup(&mut font, &mut atlas, 'B').expect("the typeface has a B");
    assert_eq!(b.id, 3);
    assert_eq!(b.uv_rect.min, [12, 0]);
    assert_eq!(b.uv_rect.max, [23, 15]);
    assert_eq!(atlas.allocations(), 2);
}

#[test]
fn sizes_are_in_points() {
    let mut atlas = atlas();
    let mut font = font_impl("Custom", latin(), 20.0, 2.0);
    let a = lookup(&mut font, &mut atlas, 'A').expect("the typeface has an A");
    assert_eq!(value(a.advance_width), 7.5);
    assert_eq!(a.uv_rect.max, [11, 15]);
    assert_eq!(value(a.uv_rect.offset.x), 1.0);
    assert_eq!(value(a.uv_rect.offset.y), -7.5);
    assert_eq!(value(a.uv_rect.size.x), 5.5);
    assert_eq!(value(a.uv_rect.size.y), 7.5);
    assert_eq!(font.pair_kerning(fixed(3.0)).map(value), Some(1.5));
    assert_eq!(font.pair_kerning(fixed(-1.0)).map(value), Some(-0.5));
}

#[test]
fn a_glyph_without_outline_takes_no_room_in_the_atlas() {
    let mut atlas = atlas();
    let mut font = font_impl("Custom", latin(), 20.0, 1.0);
    let space = lookup(&mut font, &mut atlas, ' ').expect("the typeface has a space");
    assert_eq!(space.id, 1);
    assert_eq!(value(space.advance_width), 10.0);
    assert!(space.uv_rect.is_nothing());
    assert_eq!(space.uv_rect, UvRect::default());
    assert_eq!(atlas.allocations(), 0);
}

#[test]
fn a_glyph_larger_than_the_atlas_shows_nothing() {
    let mut atlas = TextureAtlas::new(8, 8).expect("the size is valid");
    let mut font = font_impl("Custom", latin(), 20.0, 1.0);
    let a = lookup(&mut font, &mut atlas, 'A').expect("the typeface has an A");
    assert_eq!(value(a.advance_width), 15.0);
    assert!(a.uv_rect.is_nothing());
    assert_eq!(atlas.allocations(), 0);
}

#[test]
fn resolving_twice_gives_the_same_glyph() {
    let mut atlas = atlas();
    let mut font = font_impl("Custom", latin(), 20.0, 1.0);
    let first = lookup(&mut font, &mut atlas, 'A');
    let second = lookup(&mut font, &mut atlas, 'A');
    assert!(first.is_some());
    assert_eq!(first, second);
    assert_eq!(font.glyph_info('A'), Lookup::Found(first.unwrap()));
    assert_eq!(lookup(&mut font, &mut atlas, 'C'), None);
    assert_eq!(lookup(&mut font, &mut atlas, 'C'), None);
}

#[test]
fn the_atlas_allocates_once_for_a_character() {
    let mut atlas = atlas();
    let mut font = font_impl("Custom", latin(), 20.0, 1.0);
    for _ in 0..5 {
        assert!(lookup(&mut font, &mut atlas, 'A').is_some());
    }
    assert_eq!(atlas.allocations(), 1);
    // A glyph that is handed in again changes nothing.
    let raster = rasterize(font.typeface(), 2, 20);
    let again = font.allocate_glyph('A', &raster, &mut atlas);
    assert_eq!(again, lookup(&mut font, &mut atlas, 'A'));
    assert_eq!(atlas.allocations(), 1);
}

#[test]
fn a_font_takes_only_the_glyph_that_it_asked_for() {
    let mut atlas = atlas();
    let mut font = font_impl("Custom", latin(), 20.0, 1.0);
    let raster = rasterize(font.typeface(), 2, 20);
    // The typeface has no glyph for `C`.
    assert_eq!(font.allocate_glyph('C', &raster, &mut atlas), None);
    // A tab is made from the space, which has to be rasterized first.
    assert_eq!(font.allocate_glyph('\t', &raster, &mut atlas), None);
    assert_eq!(atlas.allocations(), 0);
    assert_eq!(font.glyph_info('\t'), Lookup::Rasterize { chr: ' ', glyph_id: 1 });
    // An invisible character has its glyph without the rasterizer.
    assert_eq!(font.allocate_glyph('\r', &raster, &mut atlas), Some(GlyphInfo::default()));
    assert_eq!(atlas.allocations(), 0);
}

#[test]
fn a_tab_is_four_spaces_wide() {
    let mut atlas = atlas();
    let mut font = font_impl("Custom", latin(), 20.0, 1.0);
    assert_eq!(font.glyph_info('\t'), Lookup::Rasterize { chr: ' ', glyph_id: 1 });
    let tab = lookup(&mut font, &mut atlas, '\t').expect("the tab resolves");
    let space = lookup(&mut font, &mut atlas, ' ').expect("the space resolves");
    assert_eq!(value(space.advance_width), 10.0);
    assert_eq!(value(tab.advance_width), 40.0);
    assert_eq!(tab.uv_rect, space.uv_rect);
    assert_eq!(tab.id, space.id);
}

#[test]
fn a_thin_space_is_a_sixth_of_the_row_or_half_a_space() {
    let mut atlas = atlas();
    // The row is 22.5 high and the space 10 wide: a sixth of the row is less.
    let mut font = font_impl("Custom", latin(), 20.0, 1.0);
    let thin = lookup(&mut font, &mut atlas, THIN_SPACE).expect("the thin space resolves");
    let space = lookup(&mut font, &mut atlas, ' ').expect("the space resolves");
    assert_eq!(value(thin.advance_width), 3.75);
    assert_eq!(thin.uv_rect, space.uv_rect);

    // With a space of 5 pixels, half a space is less.
    let narrow = typeface(&[blank(' ', 256)]);
    let mut font = font_impl("Custom", narrow, 20.0, 1.0);
    let thin = lookup(&mut font, &mut atlas, THIN_SPACE).expect("the thin space resolves");
    assert_eq!(value(thin.advance_width), 2.5);
}

#[test]
fn without_a_space_the_tab_is_a_glyph_of_its_own() {
    let mut atlas = atlas();
    let mut font = font_impl("Custom", typeface(&[glyph('A', 768)]), 20.0, 1.0);
    assert_eq!(lookup(&mut font, &mut atlas, '\t'), None);
    assert_eq!(lookup(&mut font, &mut atlas, THIN_SPACE), None);

    let mut font = font_impl("Custom", typeface(&[glyph('\t', 1024)]), 20.0, 1.0);
    let tab = lookup(&mut font, &mut atlas, '\t').expect("the typeface has a tab");
    assert_eq!(tab.id, 1);
    assert_eq!(value(tab.advance_width), 20.0);
}

#[test]
fn invisible_characters_have_no_width() {
    let mut atlas = atlas();
    // The typeface has a glyph for the zero width space, which is not used.
    let mut font = font_impl("Custom", typeface(&[glyph('\u{200B}', 768)]), 20.0, 1.0);
    for c in ['\r', '\u{200B}', '\u{200F}', '\u{202A}', '\u{2060}', '\u{2066}', '\u{206F}', '\u{FEFF}'] {
        assert_eq!(font.glyph_info(c), Lookup::Found(GlyphInfo::default()));
        let found = lookup(&mut font, &mut atlas, c).expect("an invisible character resolves");
        assert_eq!(found.advance_width.raw, 0);
        assert!(found.uv_rect.is_nothing());
    }
    assert_eq!(atlas.allocations(), 0);
    // U+2065 is not one of them.
    assert_eq!(font.glyph_info('\u{2065}'), Lookup::Missing);
}

#[test]
fn a_builtin_font_suppresses_some_code_points() {
    let suppressed = ['\u{534D}', '\u{5350}', '\u{E0FF}', '\u{EFFD}', '\u{F0FF}', '\u{F200}'];
    let glyphs = || {
        let mut glyphs: Vec<TestGlyph> = suppressed.iter().map(|&c| glyph(c, 768)).collect();
        glyphs.push(glyph('A', 768));
        typeface(&glyphs)
    };
    for name in ["Ubuntu-Light", "NotoEmoji-Regular", "emoji-icon-font", "Hack"] {
        let mut font = font_impl(name, glyphs(), 20.0, 1.0);
        for c in suppressed {
            assert!(font.ignore_character(c));
            assert_eq!(font.glyph_info(c), Lookup::Missing);
        }
        assert!(!font.ignore_character('A'));
        assert_eq!(font.glyph_info('A'), Lookup::Rasterize { chr: 'A', glyph_id: 7 });
        assert_eq!(font.characters(), vec!['A']);
    }
    for name in ["Custom", "hack", "Hack ", ""] {
        let mut font = font_impl(name, glyphs(), 20.0, 1.0);
        for (i, c) in suppressed.into_iter().enumerate() {
            assert!(!font.ignore_character(c));
            assert_eq!(font.glyph_info(c), Lookup::Rasterize { chr: c, glyph_id: i as u16 + 1 });
        }
        assert_eq!(font.characters(), vec!['A', '\u{534D}', '\u{5350}', '\u{E0FF}', '\u{EFFD}', '\u{F0FF}', '\u{F200}']);
    }
}

#[test]
fn a_font_lists_the_characters_of_its_typeface() {
    let font = font_impl("Custom", latin(), 20.0, 1.0);
    assert_eq!(font.characters(), vec![' ', '?', 'A', 'B', PRIMARY_REPLACEMENT_CHAR]);
    let font = font_impl("Custom", typeface(&[]), 20.0, 1.0);
    assert_eq!(font.characters(), Vec::<char>::new());
}

// ----------------------------------------------------------------------------
// Several fonts.

/// `A` and the space.
fn first() -> FontImpl {
    font_impl("First", typeface(&[blank(' ', 512), glyph('A', 768)]), 20.0, 1.0)
}

/// `A`, `X` and the question mark, at another size.
fn second() -> FontImpl {
    font_impl("Second", typeface(&[glyph('A', 1024), glyph('X', 640), glyph('?', 512)]), 16.0, 1.0)
}

#[test]
fn the_first_font_that_has_a_glyph_wins() {
    let mut atlas = atlas();
    let mut fonts = font::Font::new(vec![first(), second()]);
    // Both have an `A`: the first font decides.
    let (index, a) = run(&mut fonts, &mut atlas, |f| f.glyph_info('A'));
    assert_eq!(index, 0);
    assert_eq!(value(a.advance_width), 15.0);
    // Only the second has an `X`.
    let (index, x) = run(&mut fonts, &mut atlas, |f| f.glyph_info('X'));
    assert_eq!(index, 1);
    assert_eq!(x.id, 2);
    assert_eq!(value(x.advance_width), 10.0);
    assert_eq!(fonts.uv_rect('X'), x.uv_rect);
    assert_eq!(fonts.fonts()[1].characters(), vec!['?', 'A', 'X']);
    // The pair is what is remembered.
    assert_eq!(fonts.glyph_info('X'), Step::Done((1, x)));
    assert_eq!(run(&mut fonts, &mut atlas, |f| f.glyph_width('X')), x.advance_width);
    assert_eq!(run(&mut fonts, &mut atlas, |f| f.font_impl_and_glyph_info('X')), (Some(1), x));
    assert_eq!(run(&mut fonts, &mut atlas, |f| f.has_glyph('X')), true);
}

#[test]
fn the_replacement_is_the_square_or_the_question_mark() {
    let mut atlas = atlas();
    // Only the second font has a question mark, and none has the square.
    let mut fonts = font::Font::new(vec![first(), second()]);
    let (index, missing) = run(&mut fonts, &mut atlas, |f| f.glyph_info('Y'));
    assert_eq!(index, 1);
    assert_eq!(missing.id, 3);
    assert!(!fonts.lacks_replacement());
    assert_eq!(run(&mut fonts, &mut atlas, |f| f.has_glyph('Y')), false);
    assert_eq!(fonts.uv_rect('Y'), missing.uv_rect);
    assert!(!fonts.uv_rect('Y').is_nothing());
    // The replacement character itself counts as one that cannot be shown.
    assert_eq!(run(&mut fonts, &mut atlas, |f| f.has_glyph('?')), false);

    // With the square in a font, the square is the replacement.
    let mut fonts = font::Font::new(vec![first(), font_impl("Latin", latin(), 20.0, 1.0)]);
    let (index, missing) = run(&mut fonts, &mut atlas, |f| f.glyph_info('Y'));
    assert_eq!(index, 1);
    assert_eq!(missing.id, 5);
    assert_eq!(run(&mut fonts, &mut atlas, |f| f.has_glyph(PRIMARY_REPLACEMENT_CHAR)), false);
    assert_eq!(run(&mut fonts, &mut atlas, |f| f.has_glyph('?')), true);
}

#[test]
fn without_a_replacement_a_missing_character_shows_nothing() {
    let mut atlas = atlas();
    let mut fonts = font::Font::new(vec![first(), first()]);
    assert_eq!(run(&mut fonts, &mut atlas, |f| f.has_glyph('Y')), false);
    assert_eq!(fonts.uv_rect('Y'), UvRect::default());
    assert!(fonts.uv_rect('Y').is_nothing());
    assert!(fonts.lacks_replacement());
    assert_eq!(run(&mut fonts, &mut atlas, |f| f.glyph_info('Y')), (0, GlyphInfo::default()));
    assert_eq!(run(&mut fonts, &mut atlas, |f| f.glyph_width('Y')), Fixed::zero());
    assert_eq!(run(&mut fonts, &mut atlas, |f| f.has_glyph('A')), true);
    // An invisible character resolves to the very glyph that stands in for a
    // missing one, so it counts as one that cannot be shown.
    assert_eq!(run(&mut fonts, &mut atlas, |f| f.has_glyph('\r')), false);
}

#[test]
fn no_fonts_resolve_everything_to_nothing() {
    let mut atlas = atlas();
    let mut fonts = font::Font::new(Vec::new());
    assert_eq!(fonts.row_height(), Fixed::zero());
    assert_eq!(fonts.ascent(), Fixed::zero());
    assert_eq!(fonts.glyph_info('A'), Step::Done((0, GlyphInfo::default())));
    assert_eq!(fonts.glyph_width('A'), Step::Done(Fixed::zero()));
    assert_eq!(fonts.has_glyph('A'), Step::Done(false));
    assert_eq!(fonts.has_glyphs("AB"), Step::Done(false));
    assert_eq!(fonts.has_glyphs(""), Step::Done(true));
    assert_eq!(fonts.preload_characters("hello"), Step::Done(()));
    assert_eq!(fonts.preload_common_characters(), Step::Done(()));
    assert_eq!(fonts.font_impl_and_glyph_info('A'), Step::Done((None, GlyphInfo::default())));
    assert_eq!(fonts.uv_rect('A'), UvRect::default());
    assert!(fonts.characters().is_empty());
    assert!(!fonts.lacks_replacement());
    assert_eq!(fonts.round_to_pixel(fixed(1.3)).map(value), Some(1.0));
    let request = RasterRequest { font_index: 0, chr: 'A', glyph_id: 1 };
    let raster = RasterGlyph::new(fixed(1.0), None, Vec::new()).expect("a valid glyph");
    assert_eq!(fonts.allocate_glyph(request, &raster, &mut atlas), None);
    assert_eq!(atlas.allocations(), 0);
}

#[test]
fn the_fonts_have_the_metrics_of_the_first() {
    let fonts = font::Font::new(vec![second(), first()]);
    // ascent 12 px, descent -4 px, line gap 2 px
    assert_eq!(value(fonts.row_height()), 18.0);
    assert_eq!(value(fonts.ascent()), 12.0);
    let fonts = font::Font::new(vec![font_impl("Custom", latin(), 20.0, 1.5)]);
    // 1.3 pt are 1.95 px, which is 2 px, which is 1.3333 pt
    assert_eq!(fonts.round_to_pixel(fixed(1.3)), Some(Fixed::from_raw(87381)));
    assert_eq!(fonts.round_to_pixel(fixed(-1.3)), Some(Fixed::from_raw(-87381)));
    assert_eq!(fonts.round_to_pixel(Fixed::from_raw(i64::MAX)), None);
}

#[test]
fn a_step_asks_for_one_glyph_at_a_time() {
    let mut atlas = atlas();
    let mut fonts = font::Font::new(vec![first(), second()]);
    // The replacement glyph is settled first: the question mark of the second font.
    let request = RasterRequest { font_index: 1, chr: '?', glyph_id: 3 };
    assert_eq!(fonts.glyph_info('A'), Step::Rasterize(request));
    let raster = rasterize(fonts.fonts()[1].typeface(), 3, 16);
    let question = fonts.allocate_glyph(request, &raster, &mut atlas).expect("the font asked");
    assert_eq!(question.id, 3);
    // Then the character that was asked for.
    let request = RasterRequest { font_index: 0, chr: 'A', glyph_id: 2 };
    assert_eq!(fonts.glyph_info('A'), Step::Rasterize(request));
    assert_eq!(fonts.uv_rect('A'), UvRect::default());
    let raster = rasterize(fonts.fonts()[0].typeface(), 2, 20);
    let a = fonts.allocate_glyph(request, &raster, &mut atlas).expect("the font asked");
    assert_eq!(fonts.glyph_info('A'), Step::Done((0, a)));
    assert_eq!(fonts.uv_rect('A'), a.uv_rect);
    assert_eq!(atlas.allocations(), 2);
    // A request for a font that is not there is refused.
    let request = RasterRequest { font_index: 2, chr: 'X', glyph_id: 2 };
    assert_eq!(fonts.allocate_glyph(request, &raster, &mut atlas), None);
    assert_eq!(atlas.allocations(), 2);
}

#[test]
fn has_glyphs_wants_every_character() {
    let mut atlas = atlas();
    let mut fonts = font::Font::new(vec![first(), second()]);
    assert_eq!(run(&mut fonts, &mut atlas, |f| f.has_glyphs("AX A")), true);
    assert_eq!(run(&mut fonts, &mut atlas, |f| f.has_glyphs("")), true);
    assert_eq!(run(&mut fonts, &mut atlas, |f| f.has_glyphs("AXY")), false);
    assert_eq!(run(&mut fonts, &mut atlas, |f| f.has_glyphs("A\nX")), false);
    // The characters after the first that cannot be shown are not resolved.
    let mut fonts = font::Font::new(vec![first(), second()]);
    assert_eq!(run(&mut fonts, &mut atlas, |f| f.has_glyphs("YX")), false);
    assert_eq!(fonts.uv_rect('X'), UvRect::default());
    assert!(!fonts.uv_rect('Y').is_nothing());
}

#[test]
fn characters_can_be_resolved_ahead_of_time() {
    let mut atlas = atlas();
    let mut fonts = font::Font::new(vec![first(), second()]);
    run(&mut fonts, &mut atlas, |f| f.preload_characters("XA"));
    assert!(!fonts.uv_rect('X').is_nothing());
    assert!(!fonts.uv_rect('A').is_nothing());
    let before = atlas.allocations();
    assert_eq!(fonts.glyph_info('X').map_done(), true);
    assert_eq!(fonts.glyph_info('A').map_done(), true);
    assert_eq!(atlas.allocations(), before);

    let mut atlas = TextureAtlas::new(512, 512).expect("the size is valid");
    let mut fonts = font::Font::new(vec![font_impl("Custom", latin(), 20.0, 1.0)]);
    run(&mut fonts, &mut atlas, |f| f.preload_common_characters());
    // `A`, `B`, the question mark and the white square, which stands in for the rest.
    assert_eq!(atlas.allocations(), 4);
    for c in [' ', '!', 'A', 'B', 'z', '~', '\u{00B0}', PASSWORD_REPLACEMENT_CHAR] {
        assert_eq!(fonts.glyph_info(c).map_done(), true);
    }
    assert!(fonts.uv_rect(' ').is_nothing());
    assert_eq!(fonts.uv_rect('z'), fonts.uv_rect(PRIMARY_REPLACEMENT_CHAR));
    assert_eq!(fonts.uv_rect('\u{007F}'), UvRect::default());
    assert_eq!(atlas.allocations(), 4);
}

trait MapDone {
    fn map_done(&self) -> bool;
}

impl<T> MapDone for Step<T> {
    fn map_done(&self) -> bool {
        matches!(self, Step::Done(_))
    }
}

#[test]
fn the_index_lists_the_fonts_of_each_character() {
    let mut fonts = font::Font::new(vec![first(), second(), font_impl("Hack", latin(), 20.0, 1.0)]);
    let names = |names: &[&str]| names.iter().map(|name| name.to_string()).collect::<Vec<_>>();
    let index = fonts.characters().clone();
    assert_eq!(index.len(), 6);
    assert_eq!(index[&(' ' as u32)], names(&["First", "Hack"]));
    assert_eq!(index[&('A' as u32)], names(&["First", "Second", "Hack"]));
    assert_eq!(index[&('B' as u32)], names(&["Hack"]));
    assert_eq!(index[&('X' as u32)], names(&["Second"]));
    assert_eq!(index[&('?' as u32)], names(&["Second", "Hack"]));
    assert_eq!(index[&(PRIMARY_REPLACEMENT_CHAR as u32)], names(&["Hack"]));
    assert_eq!(index.get(&('Y' as u32)), None);
    // The index is made once.
    assert_eq!(fonts.characters(), &index);
}

#[test]
fn the_fonts_can_be_taken_back() {
    let mut atlas = atlas();
    let mut fonts = font::Font::new(vec![first(), second()]);
    let (_, x) = run(&mut fonts, &mut atlas, |f| f.glyph_info('X'));
    let mut taken = fonts.into_fonts();
    assert_eq!(taken.len(), 2);
    assert_eq!(taken[1].name(), "Second");
    // What a font has resolved stays with it.
    assert_eq!(taken[1].glyph_info('X'), Lookup::Found(x));
    assert_eq!(taken[0].glyph_info('X'), Lookup::Missing);
}

#[test]
fn an_end_to_end_scenario() {
    let mut atlas = atlas();
    let mut fonts = font::Font::new(vec![font_impl("Custom", latin(), 20.0, 1.0)]);
    assert!(run(&mut fonts, &mut atlas, |f| f.glyph_width('A')).raw > 0);
    assert!(!fonts.uv_rect('A').is_nothing());
    // ascent 15, descent -5, line gap 2.5, each on the grid of 1/32
    assert_eq!(value(fonts.row_height()), 15.0 + 5.0 + 2.5);
    assert_eq!(fonts.row_height().raw % 2048, 0);
}

#[test]
fn a_font_decides_on_what_the_typeface_has() {
    let mut atlas = atlas();
    let mut font = font_impl("Hack", latin(), 20.0, 1.0);
    assert_eq!(font.glyph_info_given('A', 2, 1), Lookup::Rasterize { chr: 'A', glyph_id: 2 });
    assert_eq!(font.glyph_info_given('A', 0, 1), Lookup::Missing);
    assert_eq!(font.glyph_info_given('\u{534D}', 9, 1), Lookup::Missing);
    assert_eq!(font.glyph_info_given('\r', 9, 1), Lookup::Found(GlyphInfo::default()));
    // A tab waits for the space, and is a glyph of its own without one.
    assert_eq!(font.glyph_info_given('\t', 0, 1), Lookup::Rasterize { chr: ' ', glyph_id: 1 });
    assert_eq!(font.glyph_info_given('\t', 0, 0), Lookup::Missing);
    assert_eq!(font.glyph_info_given('\t', 5, 0), Lookup::Rasterize { chr: '\t', glyph_id: 5 });
    assert_eq!(font.glyph_info_given(THIN_SPACE, 5, 3), Lookup::Rasterize { chr: ' ', glyph_id: 3 });
    // Once the space has resolved, the typeface is not needed for the tab.
    let space = lookup(&mut font, &mut atlas, ' ').expect("the typeface has a space");
    let tab = GlyphInfo { advance_width: Fixed::from_raw(4 * space.advance_width.raw), ..space };
    assert_eq!(font.glyph_info_given('\t', 0, 0), Lookup::Found(tab));
    assert_eq!(font.glyph_info_given('\t', 5, 7), Lookup::Found(tab));
    assert_eq!(font.glyph_info_given(' ', 0, 0), Lookup::Found(space));
}

#[test]
fn the_replacement_can_be_settled_ahead_of_time() {
    let mut atlas = atlas();
    let mut fonts = font::Font::new(vec![first(), second()]);
    let request = RasterRequest { font_index: 1, chr: '?', glyph_id: 3 };
    assert_eq!(fonts.settle_replacement(), Step::Rasterize(request));
    run(&mut fonts, &mut atlas, |f| f.settle_replacement());
    assert_eq!(atlas.allocations(), 1);
    assert!(!fonts.lacks_replacement());
    // The replacement character is resolved with it, and nothing else.
    assert!(!fonts.uv_rect('?').is_nothing());
    assert_eq!(fonts.settle_replacement(), Step::Done(()));
    assert_eq!(run(&mut fonts, &mut atlas, |f| f.glyph_info('Y')), (1, fonts_glyph(&mut fonts, '?')));
    assert_eq!(atlas.allocations(), 1);

    let mut fonts = font::Font::new(vec![first()]);
    assert_eq!(fonts.settle_replacement(), Step::Done(()));
    assert!(fonts.lacks_replacement());
    assert_eq!(fonts.uv_rect(PRIMARY_REPLACEMENT_CHAR), UvRect::default());
}

fn fonts_glyph(fonts: &mut font::Font, c: char) -> GlyphInfo {
    match fonts.glyph_info(c) {
        Step::Done((_, glyph)) => glyph,
        Step::Rasterize(request) => panic!("{c:?} needs {request:?}"),
    }
}
