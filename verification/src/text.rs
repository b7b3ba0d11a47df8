//! The text model: a run of text is a sequence of 16-bit code units.
//! Characters are decoded UTF-16 style (a high/low surrogate pair forms one
//! character, a lone surrogate decodes to the replacement character). The
//! font's tables cover 16-bit codes only: a character beyond that range is
//! out of scope and resolves to no glyph and no kerning pair.

use vstd::prelude::*;

verus! {

/// Whether `u` is a high (leading) surrogate code unit.
pub open spec fn is_high_surrogate(u: u16) -> bool {
    0xD800 <= u < 0xDC00
}

/// Whether `u` is a low (trailing) surrogate code unit.
pub open spec fn is_low_surrogate(u: u16) -> bool {
    0xDC00 <= u < 0xE000
}

/// Number of code units (1 or 2) taken by the character that starts at
/// index `i` of `s`, reading only the window `[i, to)`.
pub open spec fn step_at(s: Seq<u16>, to: int, i: int) -> int {
    if is_high_surrogate(s[i]) && i + 1 < to && is_low_surrogate(s[i + 1]) {
        2
    } else {
        1
    }
}

/// The code point of the character that starts at index `i` of `s`, within
/// the window `[i, to)`: a surrogate pair decodes to its supplementary
/// code point; a lone surrogate stands for the replacement character; any
/// other unit is its own code.
pub open spec fn char_at(s: Seq<u16>, to: int, i: int) -> u32 {
    let u = s[i];
    if is_high_surrogate(u) && i + 1 < to && is_low_surrogate(s[i + 1]) {
        (0x10000 + (u - 0xD800) * 0x400 + (s[i + 1] - 0xDC00)) as u32
    } else if is_high_surrogate(u) || is_low_surrogate(u) {
        0xFFFD
    } else {
        u as u32
    }
}

/// Decode the character starting at index `i` within the window `[i, to)`
/// of `text`: its code point and the number of units it takes.
pub fn decode_at(text: &[u16], i: usize, to: usize) -> (r: (u32, usize))
    requires
        i < to <= text@.len(),
    ensures
        r.0 == char_at(text@, to as int, i as int),
        r.1 == step_at(text@, to as int, i as int),
{
    let u = text[i];
    if 0xD800 <= u && u < 0xDC00 {
        if i + 1 < to {
            let v = text[i + 1];
            if 0xDC00 <= v && v < 0xE000 {
                let cp: u32 = 0x10000 + ((u - 0xD800) as u32) * 0x400 + ((v - 0xDC00) as u32);
                return (cp, 2);
            }
        }
        (0xFFFD, 1)
    } else if 0xDC00 <= u && u < 0xE000 {
        (0xFFFD, 1)
    } else {
        (u as u32, 1)
    }
}

/// Whether a character lies within the 16-bit code range a font's tables
/// cover. Code points beyond it are out of scope: they resolve to no
/// glyph and take part in no kerning pair.
pub open spec fn in_code_range(c: char) -> bool {
    c as u32 <= 0xFFFF
}

/// The 16-bit code of a character within the range (meaningless outside
/// it; lookups reject such characters first).
pub open spec fn bmp_code(c: char) -> u16 {
    (c as u32) as u16
}

/// The word separator: the ASCII space code unit.
pub open spec fn is_space_unit(u: u16) -> bool {
    u == 32
}

/// Whether every unit of `s` in `[from, to)` is a space.
pub open spec fn all_spaces(s: Seq<u16>, from: int, to: int) -> bool {
    forall|k: int| from <= k < to ==> is_space_unit(s[k])
}

/// Index of the first space at or after `from` in `s`, or `s.len()` if
/// there is none: the end of the word that starts at `from`.
pub open spec fn next_space(s: Seq<u16>, from: int) -> int
    decreases s.len() - from,
{
    if from >= s.len() {
        s.len() as int
    } else if is_space_unit(s[from]) {
        from
    } else {
        next_space(s, from + 1)
    }
}

/// `next_space` yields the end of a word: it is in range, nothing before it
/// (at or after `from`) is a space, and it either is the text's end or
/// points at a space.
pub proof fn lemma_next_space(s: Seq<u16>, from: int)
    requires
        0 <= from <= s.len(),
    ensures
        from <= next_space(s, from) <= s.len(),
        forall|k: int| from <= k < next_space(s, from) ==> !is_space_unit(s[k]),
        next_space(s, from) < s.len() ==> is_space_unit(s[next_space(s, from)]),
    decreases s.len() - from,
{
    if from < s.len() && !is_space_unit(s[from]) {
        lemma_next_space(s, from + 1);
    }
}

/// Whether the prefix `[0, to)` of `text` is all spaces — what is left of
/// a line so far after trimming, when deciding whether it still counts as
/// the start of a line.
pub fn prefix_is_blank(text: &[u16], to: usize) -> (r: bool)
    requires
        to <= text@.len(),
    ensures
        r == all_spaces(text@, 0, to as int),
{
    let mut i: usize = 0;
    while i < to
        invariant
            i <= to <= text@.len(),
            forall|k: int| 0 <= k < i ==> is_space_unit(text@[k]),
        decreases to - i,
    {
        if text[i] != 32 {
            return false;
        }
        i = i + 1;
    }
    true
}

/// Find the end of the word that starts at `from`: the first space at or
/// after `from`, or the text's length if there is none.
pub fn find_word_end(text: &[u16], from: usize) -> (r: usize)
    requires
        from <= text@.len(),
    ensures
        r == next_space(text@, from as int),
{
    let mut i = from;
    let n = text.len();
    while i < n
        invariant
            from <= i <= n,
            n == text@.len(),
            next_space(text@, from as int) == next_space(text@, i as int),
        decreases n - i,
    {
        if text[i] == 32 {
            return i;
        }
        i = i + 1;
    }
    i
}

} // verus!
