//! Which fonts show which character.

use crate::chars::is_builtin_font_name;
use crate::font_impl::{shown_characters, FontImplState};
use crate::typeface::typeface_characters;
use std::collections::BTreeMap;
use vstd::prelude::*;

verus! {

/// The index with one more font listed for a character.
pub open spec fn listed(
    index: Map<char, Seq<Seq<char>>>,
    c: char,
    name: Seq<char>,
) -> Map<char, Seq<Seq<char>>> {
    index.insert(
        c,
        if index.contains_key(c) {
            index[c].push(name)
        } else {
            seq![name]
        },
    )
}

/// The index with one more font listed for each of the characters, once for
/// each time that the character occurs.
pub open spec fn listed_all(
    index: Map<char, Seq<Seq<char>>>,
    chars: Seq<char>,
    name: Seq<char>,
) -> Map<char, Seq<Seq<char>>>
    decreases chars.len(),
{
    if chars.len() == 0 {
        index
    } else {
        listed(listed_all(index, chars.drop_last(), name), chars.last(), name)
    }
}

/// Which fonts show which character: for each character that a font shows,
/// the names of the fonts that show it, in the order of the fonts.
pub open spec fn character_index(fonts: Seq<FontImplState>) -> Map<char, Seq<Seq<char>>>
    decreases fonts.len(),
{
    if fonts.len() == 0 {
        Map::empty()
    } else {
        listed_all(
            character_index(fonts.drop_last()),
            shown_characters(
                typeface_characters(fonts.last().typeface),
                is_builtin_font_name(fonts.last().name),
            ),
            fonts.last().name,
        )
    }
}

/// Which fonts show which character depends on the names and the typefaces of
/// the fonts alone, not on what they have resolved.
pub proof fn lemma_character_index_stays(before: Seq<FontImplState>, after: Seq<FontImplState>)
    requires
        before.len() == after.len(),
        forall|i: int|
            0 <= i < before.len() ==> (#[trigger] before[i]).name == after[i].name
                && before[i].typeface == after[i].typeface,
    ensures
        character_index(before) == character_index(after),
    decreases before.len(),
{
    if before.len() > 0 {
        assert(before.last().name == after.last().name);
        assert(before.last().typeface == after.last().typeface);
        assert forall|i: int| 0 <= i < before.drop_last().len() implies (
        #[trigger] before.drop_last()[i]).name == after.drop_last()[i].name
            && before.drop_last()[i].typeface == after.drop_last()[i].typeface by {
            assert(before.drop_last()[i] == before[i]);
        }
        lemma_character_index_stays(before.drop_last(), after.drop_last());
    }
}

/// Whether the number is the code point of a character.
pub open spec fn is_code_point(code: u32) -> bool {
    (code as char) as u32 == code
}

/// Whether every key of the index is the code point of a character.
pub open spec fn keyed_by_characters(index: Map<u32, Vec<String>>) -> bool {
    forall|code: u32| #[trigger] index.contains_key(code) ==> is_code_point(code)
}

/// Two characters with one code point are one character.
pub proof fn lemma_code_point_names_character(c: char, d: char)
    ensures
        c as u32 == d as u32 <==> c == d,
        is_code_point(c as u32),
{
    assert((c as u32) as char == c);
    assert((d as u32) as char == d);
}

/// The characters of each name.
pub open spec fn names_view(names: Seq<String>) -> Seq<Seq<char>> {
    names.map_values(|name: String| name@)
}

/// An index that is keyed by code point, as one that is keyed by character.
pub open spec fn index_view(index: Map<u32, Vec<String>>) -> Map<char, Seq<Seq<char>>> {
    Map::new(|c: char| index.contains_key(c as u32), |c: char| names_view(index[c as u32]@))
}

/// Lists one more name under a key of the index.
fn list_name(index: &mut BTreeMap<u32, Vec<String>>, key: u32, name: String)
    ensures
        final(index)@.dom() == old(index)@.dom().insert(key),
        final(index)@[key]@ == if old(index)@.contains_key(key) {
            old(index)@[key]@.push(name)
        } else {
            seq![name]
        },
        forall|other: u32|
            other != key && old(index)@.contains_key(other) ==> final(index)@[other] == old(
                index,
            )@[other],
{
    broadcast use vstd::laws_cmp::group_laws_cmp;

    let mut names = match index.remove(&key) {
        Some(names) => names,
        None => Vec::new(),
    };
    names.push(name);
    index.insert(key, names);
}

/// Lists a font under each of the characters that it shows, once for each
/// time that the character occurs.
pub fn list_font(index: &mut BTreeMap<u32, Vec<String>>, name: &String, chars: &Vec<char>)
    requires
        keyed_by_characters(old(index)@),
    ensures
        keyed_by_characters(final(index)@),
        index_view(final(index)@) == listed_all(index_view(old(index)@), chars@, name@),
{
    let ghost start = index_view(index@);
    assert(chars@.take(0) =~= Seq::<char>::empty());
    let mut j: usize = 0;
    while j < chars.len()
        invariant
            j <= chars@.len(),
            start == index_view(old(index)@),
            index_view(index@) == listed_all(start, chars@.take(j as int), name@),
            keyed_by_characters(index@),
        decreases chars@.len() - j,
    {
        let chr = chars[j];
        let key = chr as u32;
        let ghost before = index@;
        assert(chars@.take(j + 1).drop_last() == chars@.take(j as int));
        let font_name = name.clone();
        list_name(index, key, font_name);
        proof {
            let wanted = listed(index_view(before), chr, name@);
            if before.contains_key(key) {
                assert(names_view(before[key]@.push(font_name)) =~= names_view(before[key]@).push(
                    name@,
                ));
            } else {
                assert(names_view(seq![font_name]) =~= seq![name@]);
            }
            assert forall|c: char| #[trigger]
                index_view(index@).contains_key(c) <==> wanted.contains_key(c) by {
                lemma_code_point_names_character(c, chr);
            }
            assert forall|c: char| #[trigger]
                index_view(index@).contains_key(c) implies index_view(index@)[c] == wanted[c] by {
                lemma_code_point_names_character(c, chr);
            }
            assert(index_view(index@) =~= wanted);
            lemma_code_point_names_character(chr, chr);
        }
        j += 1;
    }
    assert(chars@.take(j as int) == chars@);
}

} // verus!
