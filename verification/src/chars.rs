//! The characters that text layout treats specially.

use vstd::prelude::*;

verus! {

/// How many spaces wide a horizontal tab is.
pub const TAB_SIZE: i64 = 4;

/// The thin space, often used to group the digits of a number: 1 234 567.
pub const THIN_SPACE: char = '\u{2009}';

/// The character shown in place of one that no typeface can show: a white
/// medium square.
pub const PRIMARY_REPLACEMENT_CHAR: char = '\u{25FB}';

/// The character shown where not even the white square can be shown.
pub const FALLBACK_REPLACEMENT_CHAR: char = '?';

/// The character shown in place of each character of a password: a bullet.
pub const PASSWORD_REPLACEMENT_CHAR: char = '\u{2022}';

/// The degree sign.
pub const DEGREE_SIGN: char = '\u{00B0}';

/// The first printable character of ASCII, the space.
pub const FIRST_ASCII: u8 = 32;

/// The last printable character of ASCII, the tilde.
pub const LAST_ASCII: u8 = 126;

/// The code points that never show and never take room: the carriage return
/// and the format characters that join, order or shape their neighbours.
pub open spec fn is_invisible(c: char) -> bool {
    let code = c as u32;
    ||| code == 0x000D
    ||| 0x200B <= code <= 0x200F
    ||| 0x202A <= code <= 0x202E
    ||| 0x2060 <= code <= 0x2064
    ||| 0x2066 <= code <= 0x206F
    ||| code == 0xFEFF
}

/// Whether the code point is always invisible and of zero width.
pub fn invisible_char(c: char) -> (r: bool)
    ensures
        r == is_invisible(c),
{
    if c == '\r' {
        // The carriage return of a Windows line end must never show.
        return true;
    }
    match c {
        '\u{200B}' // ZERO WIDTH SPACE
        | '\u{200C}' // ZERO WIDTH NON-JOINER
        | '\u{200D}' // ZERO WIDTH JOINER
        | '\u{200E}' // LEFT-TO-RIGHT MARK
        | '\u{200F}' // RIGHT-TO-LEFT MARK
        | '\u{202A}' // LEFT-TO-RIGHT EMBEDDING
        | '\u{202B}' // RIGHT-TO-LEFT EMBEDDING
        | '\u{202C}' // POP DIRECTIONAL FORMATTING
        | '\u{202D}' // LEFT-TO-RIGHT OVERRIDE
        | '\u{202E}' // RIGHT-TO-LEFT OVERRIDE
        | '\u{2060}' // WORD JOINER
        | '\u{2061}' // FUNCTION APPLICATION
        | '\u{2062}' // INVISIBLE TIMES
        | '\u{2063}' // INVISIBLE SEPARATOR
        | '\u{2064}' // INVISIBLE PLUS
        | '\u{2066}' // LEFT-TO-RIGHT ISOLATE
        | '\u{2067}' // RIGHT-TO-LEFT ISOLATE
        | '\u{2068}' // FIRST STRONG ISOLATE
        | '\u{2069}' // POP DIRECTIONAL ISOLATE
        | '\u{206A}' // INHIBIT SYMMETRIC SWAPPING
        | '\u{206B}' // ACTIVATE SYMMETRIC SWAPPING
        | '\u{206C}' // INHIBIT ARABIC FORM SHAPING
        | '\u{206D}' // ACTIVATE ARABIC FORM SHAPING
        | '\u{206E}' // NATIONAL DIGIT SHAPES
        | '\u{206F}' // NOMINAL DIGIT SHAPES
        | '\u{FEFF}' // ZERO WIDTH NO-BREAK SPACE
        => true,
        _ => false,
    }
}

/// The code points that a built-in typeface draws but that must never show: a
/// religious symbol with a second, nefarious reading, in both its directions,
/// and four private-use code points that one built-in typeface fills with its
/// maker's signs.
pub open spec fn is_suppressed(c: char) -> bool {
    ||| c == '\u{534D}'
    ||| c == '\u{5350}'
    ||| c == '\u{E0FF}'
    ||| c == '\u{EFFD}'
    ||| c == '\u{F0FF}'
    ||| c == '\u{F200}'
}

/// Whether a built-in typeface must not show the code point.
pub fn suppressed_char(c: char) -> (r: bool)
    ensures
        r == is_suppressed(c),
{
    c == '\u{534D}' || c == '\u{5350}' || c == '\u{E0FF}' || c == '\u{EFFD}' || c == '\u{F0FF}'
        || c == '\u{F200}'
}

/// Whether `name` is the name of one of the built-in typefaces.
pub open spec fn is_builtin_font_name(name: Seq<char>) -> bool {
    ||| name == "Ubuntu-Light"@
    ||| name == "NotoEmoji-Regular"@
    ||| name == "emoji-icon-font"@
    ||| name == "Hack"@
}

/// Whether `name` is the name of one of the built-in typefaces, whose glyphs
/// are filtered.
pub fn builtin_font_name(name: &str) -> (r: bool)
    ensures
        r == is_builtin_font_name(name@),
{
    str_equal(name, "Ubuntu-Light") || str_equal(name, "NotoEmoji-Regular") || str_equal(
        name,
        "emoji-icon-font",
    ) || str_equal(name, "Hack")
}

/// Whether two strings hold the same characters.
fn str_equal(a: &str, b: &str) -> (r: bool)
    ensures
        r == (a@ == b@),
{
    let n = a.unicode_len();
    if n != b.unicode_len() {
        return false;
    }
    let mut i: usize = 0;
    while i < n
        invariant
            n == a@.len(),
            n == b@.len(),
            i <= n,
            forall|j: int| 0 <= j < i ==> a@[j] == b@[j],
        decreases n - i,
    {
        if a.get_char(i) != b.get_char(i) {
            return false;
        }
        i += 1;
    }
    assert(a@ =~= b@);
    true
}

} // verus!
