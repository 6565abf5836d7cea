//! What the library asks of a decoded typeface.
//!
//! The typeface is an `ab_glyph::FontArc`. Nothing is proved of the two calls
//! below: their results are given names, and the library's contracts speak of
//! those names.

use ab_glyph::Font;
use vstd::prelude::*;

verus! {

/// A decoded typeface, shared and immutable. The library never looks inside it.
#[verifier::external_type_specification]
#[verifier::external_body]
pub struct ExFontArc(ab_glyph::FontArc);

/// The glyph identifier that the typeface's character map gives to `c`, which
/// is 0 where the typeface has no glyph for it.
pub uninterp spec fn typeface_glyph_id(typeface: ab_glyph::FontArc, c: char) -> u16;

/// The characters of the pairs that the typeface's character map lists, in
/// the order in which it lists them.
pub uninterp spec fn typeface_characters(typeface: ab_glyph::FontArc) -> Seq<char>;

/// `ab_glyph::Font::glyph_id`: looks the character up in the typeface's
/// character map. The result depends on the typeface and the character alone;
/// it is 0 where the map has no entry.
#[verifier::external_body]
pub(crate) fn glyph_id(typeface: &ab_glyph::FontArc, c: char) -> (id: u16)
    ensures
        id == typeface_glyph_id(*typeface, c),
{
    typeface.glyph_id(c).0
}

/// `ab_glyph::Font::codepoint_ids`: walks the typeface's character map, which
/// yields one pair of glyph identifier and character for each glyph that a
/// character reaches. The wrapper keeps the character of each pair, in the
/// order of the walk, which depends on the typeface alone.
#[verifier::external_body]
pub(crate) fn characters(typeface: &ab_glyph::FontArc) -> (chars: Vec<char>)
    ensures
        chars@ == typeface_characters(*typeface),
{
    typeface.codepoint_ids().map(|(_, chr)| chr).collect()
}

} // verus!
