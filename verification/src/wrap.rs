//! The line wrapper: given a line of text, find the first breakpoint
//! within it — greedy and word-granular, with a character-level fallback
//! for a word too wide to fit even on an empty line.

use vstd::prelude::*;
use crate::font::Font;
use crate::layout::{advance_at, eval_fits, i32_ok, placed_at, spec_measure_width};
use crate::params::EvalParameters;
use crate::text::{all_spaces, next_space, step_at};
use crate::twips::{clamp_i32, trunc_div, Twips};

verus! {

/// End of the window measured for the word starting at `ws`: the word
/// plus one trailing space when one follows it (the separator's own
/// width), or the text's end for the last word.
pub open spec fn word_measure_end(s: Seq<u16>, ws: int) -> int {
    let we = next_space(s, ws);
    if we + 1 <= s.len() {
        we + 1
    } else {
        s.len() as int
    }
}

/// The index the character-level fallback returns for the over-wide word
/// at `ws`, with `rem` twips of room. It mirrors the scanning loop: `b`
/// is the end of the prefix measured last (`0` before any was), `prev_b`
/// the end of the prefix measured before that; prefixes grow one
/// character at a time over the text from `ws` to its end, and only
/// prefixes short of the last character's start are ever measured. The
/// scan stops at the first prefix whose width reaches `rem` and returns
/// the end of the one measured before it; if every measured prefix stays
/// short of `rem`, it returns the start of the last character.
pub open spec fn char_fallback(
    f: Font,
    s: Seq<u16>,
    p: EvalParameters,
    ws: int,
    rem: int,
    prev_b: int,
    b: int,
) -> int
    decreases s.len() - ws - b,
{
    let m = if b == 0 {
        0
    } else {
        spec_measure_width(f, s, p, ws, ws + b, false)
    };
    if m >= rem {
        ws + prev_b
    } else if 0 <= b && ws + b < s.len() && ws + b + step_at(s, s.len() as int, ws + b)
        < s.len() {
        // Another prefix end exists short of the last character's start:
        // measure it next. (The lower bound on `b` only keeps the
        // recursion well-founded.)
        char_fallback(f, s, p, ws, rem, b, b + step_at(s, s.len() as int, ws + b))
    } else {
        ws + b
    }
}

/// Where the scan for a breakpoint lands from the word at `ws` on, with
/// `line_end` units already accepted on the line, `rem` twips of room
/// left, and `start` telling whether nothing but spaces has been accepted
/// yet. One word at a time: a word (measured with its separator) wider
/// than the room breaks the line — at the character fallback when the
/// line is still at its start, else before the word; otherwise the word
/// is accepted and the scan moves past its separator, until the last
/// word is consumed with nothing left to break.
pub open spec fn wrap_from(
    f: Font,
    s: Seq<u16>,
    p: EvalParameters,
    ws: int,
    line_end: int,
    rem: int,
    start: bool,
) -> Option<int>
    decreases s.len() + 1 - ws,
{
    let we = next_space(s, ws);
    let m = spec_measure_width(f, s, p, ws, word_measure_end(s, ws), false);
    if start && m > rem {
        Some(char_fallback(f, s, p, ws, rem, 0, 0))
    } else if m > rem {
        Some(line_end)
    } else {
        let start2 = start && all_spaces(s, 0, we);
        let rem2 = rem - m;
        if rem2 < 0 {
            // Mirrors the scan's guard against the accepted word
            // exhausting the budget; an accepted word measures at most
            // the room, so this arm never fires.
            Some(we)
        } else if we >= s.len() {
            None
        } else if ws <= we {
            // A word's end never lies before its start; the guard only
            // keeps the recursion well-founded.
            wrap_from(f, s, p, we + 1, we, rem2, start2)
        } else {
            None
        }
    }
}

/// The first breakpoint of `text` under `width` twips of line, of which
/// `offset` are already consumed: break index `0` when there is no room
/// at all, otherwise whatever the word scan finds, and `None` when the
/// whole text fits.
pub open spec fn spec_wrap_line(
    f: Font,
    s: Seq<u16>,
    p: EvalParameters,
    width: int,
    offset: int,
    start: bool,
) -> Option<int> {
    if width - offset < 0 {
        Some(0)
    } else {
        wrap_from(f, s, p, 0, 0, width - offset, start)
    }
}

/// Whether every measurement the wrapper can make over `s` stays within
/// the `i32` range: the bound `measure` needs, for every window of `s`.
pub open spec fn wrap_fits(f: Font, s: Seq<u16>, p: EvalParameters) -> bool {
    forall|a: int, b: int| 0 <= a <= b <= s.len() ==> eval_fits(f, s, p, b, a, 0, 0)
}

/// `wrap_fits` from a uniform advance bound, over every window of the
/// text at once: every placed glyph's advance at most `a` twips in
/// magnitude, and the text's length times `a` within range.
pub proof fn lemma_wrap_fits_bounded(f: Font, s: Seq<u16>, p: EvalParameters, a: int)
    requires
        0 <= a,
        forall|b: int, k: int|
            0 <= k < b <= s.len() && placed_at(f, s, b, k) ==> -a <= #[trigger] advance_at(
                f,
                s,
                b,
                k,
                p,
            ) <= a,
        s.len() * a <= i32::MAX,
    ensures
        wrap_fits(f, s, p),
{
    assert forall|aa: int, b: int| 0 <= aa <= b <= s.len() implies eval_fits(
        f,
        s,
        p,
        b,
        aa,
        0,
        0,
    ) by {
        vstd::arithmetic::mul::lemma_mul_inequality(b - aa, s.len() as int, a);
        vstd::arithmetic::mul::lemma_mul_nonnegative(b - aa, a);
        crate::layout::lemma_eval_fits_bounded(f, s, p, b, aa, 0, 0, a);
    }
}

/// `wrap_fits` discharged from plain bounds alone: a well-formed font
/// whose kerning adjustments all lie within `[kmin, kmax]`, a
/// non-negative height, and a bound `a` at least the magnitude of both
/// scaled extreme advances, small enough that the text's length times it
/// stays within range.
pub proof fn lemma_wrap_fits_from_table_bounds(
    f: Font,
    s: Seq<u16>,
    p: EvalParameters,
    kmin: int,
    kmax: int,
    a: int,
)
    requires
        f.wf(),
        0 <= p.height.0,
        kmin <= 0 <= kmax,
        forall|l: u16, r: u16| kmin <= #[trigger] f.spec_kerning_offset(l, r) <= kmax,
        -a <= clamp_i32(trunc_div(kmin * p.height.0, f.scale as int)) + p.letter_spacing.0,
        clamp_i32(trunc_div((0xFFFF + kmax) * p.height.0, f.scale as int))
            + p.letter_spacing.0 <= a,
        s.len() * a <= i32::MAX,
    ensures
        wrap_fits(f, s, p),
{
    vstd::arithmetic::mul::lemma_mul_inequality(kmin, 0xFFFF + kmax, p.height.0 as int);
    crate::twips::lemma_trunc_div_ordered(
        kmin * p.height.0,
        (0xFFFF + kmax) * p.height.0,
        f.scale as int,
    );
    assert forall|b: int, k: int|
        0 <= k < b <= s.len() && placed_at(f, s, b, k) implies -a <= #[trigger] advance_at(
        f,
        s,
        b,
        k,
        p,
    ) <= a by {
        crate::layout::lemma_advance_at_bounds(f, s, b, k, p, kmin, kmax);
    }
    lemma_wrap_fits_bounded(f, s, p, a);
}

/// The character fallback never lands before the word it scans.
pub proof fn lemma_char_fallback_ge(
    f: Font,
    s: Seq<u16>,
    p: EvalParameters,
    ws: int,
    rem: int,
    prev_b: int,
    b: int,
)
    requires
        0 <= prev_b,
        0 <= b,
    ensures
        char_fallback(f, s, p, ws, rem, prev_b, b) >= ws,
    decreases s.len() - ws - b,
{
    let len = s.len() as int;
    let m = if b == 0 {
        0
    } else {
        spec_measure_width(f, s, p, ws, ws + b, false)
    };
    if m >= rem {
    } else if 0 <= b && ws + b < len && ws + b + step_at(s, len, ws + b) < len {
        lemma_char_fallback_ge(f, s, p, ws, rem, b, b + step_at(s, len, ws + b));
    }
}

/// Maximality of the character fallback, from a state whose measured
/// prefix (ending at `b`) still fits strictly: the scan returns the end
/// of a prefix that fits strictly within the room, past the word's start,
/// and the prefix one character longer — when the scan could measure it —
/// reaches the room.
pub proof fn lemma_char_fallback_from(
    f: Font,
    s: Seq<u16>,
    p: EvalParameters,
    ws: int,
    rem: int,
    prev_b: int,
    b: int,
)
    requires
        0 <= ws,
        0 < b,
        ws + b < s.len(),
        spec_measure_width(f, s, p, ws, ws + b, false) < rem,
    ensures
        ({
            let r = char_fallback(f, s, p, ws, rem, prev_b, b);
            &&& ws < r < s.len()
            &&& spec_measure_width(f, s, p, ws, r, false) < rem
            &&& (r + step_at(s, s.len() as int, r) < s.len()
                ==> spec_measure_width(
                f,
                s,
                p,
                ws,
                r + step_at(s, s.len() as int, r),
                false,
            ) >= rem)
        }),
    decreases s.len() - ws - b,
{
    let len = s.len() as int;
    let step = step_at(s, len, ws + b);
    if ws + b + step < len {
        let b2 = b + step;
        let m2 = spec_measure_width(f, s, p, ws, ws + b2, false);
        if m2 >= rem {
            assert(char_fallback(f, s, p, ws, rem, b, b2) == ws + b);
        } else {
            lemma_char_fallback_from(f, s, p, ws, rem, b, b2);
        }
    }
}

/// Overlong single word at the start of a line (the character fallback
/// from its first measurable prefix): provided the word's first character
/// alone fits strictly within the room, the returned index is strictly
/// greater than the word's start, the prefix it cuts measures strictly
/// under the room, and the prefix one character longer — when the scan
/// could measure one — reaches the room. (Widths are compared with the
/// literal strict `<` of the scan: a prefix exactly as wide as the room
/// counts as not fitting; and the scan never measures past the start of
/// the text's last character.)
pub proof fn lemma_char_fallback_largest_prefix(
    f: Font,
    s: Seq<u16>,
    p: EvalParameters,
    ws: int,
    rem: int,
)
    requires
        0 <= ws < s.len(),
        ws + step_at(s, s.len() as int, ws) < s.len(),
        spec_measure_width(f, s, p, ws, ws + step_at(s, s.len() as int, ws), false) < rem,
    ensures
        ({
            let r = char_fallback(f, s, p, ws, rem, 0, 0);
            &&& ws < r < s.len()
            &&& spec_measure_width(f, s, p, ws, r, false) < rem
            &&& (r + step_at(s, s.len() as int, r) < s.len()
                ==> spec_measure_width(
                f,
                s,
                p,
                ws,
                r + step_at(s, s.len() as int, r),
                false,
            ) >= rem)
        }),
{
    let len = s.len() as int;
    let step0 = step_at(s, len, ws);
    crate::layout::lemma_max_right_ge_acc(f, s, p, ws + step0, ws, 0, 0, false);
    assert(char_fallback(f, s, p, ws, rem, 0, 0) == char_fallback(f, s, p, ws, rem, 0, step0));
    lemma_char_fallback_from(f, s, p, ws, rem, 0, step0);
}

/// Zero-room case: when more of the line is already consumed than the
/// line is wide, the wrapper pushes everything to the next line and
/// breaks at index zero, whatever the text. (When offset and width are
/// exactly equal the room is zero but not negative, and a text that
/// measures nothing — an empty one, say — still fits; so equality is
/// left out here.)
pub proof fn lemma_wrap_line_zero_room(
    f: Font,
    s: Seq<u16>,
    p: EvalParameters,
    width: int,
    offset: int,
    start: bool,
)
    requires
        offset > width,
    ensures
        spec_wrap_line(f, s, p, width, offset, start) == Some(0int),
{
}

/// Progress of the word scan: from a state that still is at the start of
/// its line only if nothing but spaces was accepted (`start` implies the
/// scan is past index zero or at the very first word), a break at index
/// zero can only come from the character fallback of the very first
/// word, and that one makes progress whenever the text's first character
/// alone fits strictly.
proof fn lemma_wrap_from_progress(
    f: Font,
    s: Seq<u16>,
    p: EvalParameters,
    ws: int,
    le: int,
    rem: int,
    start: bool,
)
    requires
        0 <= ws <= s.len(),
        0 <= rem,
        0 <= le,
        le < ws || (ws == 0 && le == 0),
        !start ==> 1 <= le,
        ws == 0 && 0 < s.len() ==> spec_measure_width(
            f,
            s,
            p,
            0,
            step_at(s, s.len() as int, 0),
            false,
        ) < rem,
    ensures
        wrap_from(f, s, p, ws, le, rem, start) != Some(0int),
    decreases s.len() + 1 - ws,
{
    let len = s.len() as int;
    crate::text::lemma_next_space(s, ws);
    let we = next_space(s, ws);
    let wme = word_measure_end(s, ws);
    let m = spec_measure_width(f, s, p, ws, wme, false);
    crate::layout::lemma_max_right_ge_acc(f, s, p, wme, ws, 0, 0, false);
    if start && m > rem {
        if ws == 0 {
            if len == 0 {
                assert(m == 0);
            } else {
                let step0 = step_at(s, len, 0);
                crate::layout::lemma_max_right_ge_acc(f, s, p, step0, 0, 0, 0, false);
                if step0 < len {
                    lemma_char_fallback_largest_prefix(f, s, p, 0, rem);
                } else {
                    // The first character reaches the text's end, so the
                    // word's measured window is the first character's own
                    // window and the two measures coincide — against the
                    // arm's premise.
                    if s[0] == 32 {
                        assert(we == 0);
                        assert(step0 == 1 && len == 1);
                        assert(wme == 1);
                    } else {
                        if step0 == 1 {
                            assert(len == 1);
                            assert(we == 1) by {
                                if we < 1 {
                                    assert(crate::text::is_space_unit(s[we]));
                                }
                            }
                            assert(wme == 1);
                        } else {
                            assert(len == 2);
                            assert(crate::text::is_high_surrogate(s[0])
                                && crate::text::is_low_surrogate(s[1]));
                            assert(we == 2) by {
                                if we < 2 {
                                    assert(crate::text::is_space_unit(s[we]));
                                }
                            }
                            assert(wme == 2);
                        }
                    }
                    assert(m < rem);
                }
            }
        } else {
            lemma_char_fallback_ge(f, s, p, ws, rem, 0, 0);
        }
    } else if m > rem {
    } else {
        let rem2 = rem - m;
        if rem2 < 0 {
        } else if we >= len {
        } else {
            let start2 = start && all_spaces(s, 0, we);
            if start && !start2 {
                assert(!all_spaces(s, 0, we));
                assert(we >= 1) by {
                    if we == 0 {
                        assert(all_spaces(s, 0, 0));
                    }
                }
            }
            lemma_wrap_from_progress(f, s, p, we + 1, we, rem2, start2);
        }
    }
}

/// Wrapping a remainder that begins a fresh line (offset zero, marked as
/// the start of its line) never re-breaks at index zero — each call
/// makes progress — provided the width is non-degenerate: non-negative,
/// and strictly wider than the remainder's first character measured
/// alone.
pub proof fn lemma_wrap_line_progress(f: Font, s: Seq<u16>, p: EvalParameters, w: int)
    requires
        0 <= w,
        0 < s.len() ==> spec_measure_width(f, s, p, 0, step_at(s, s.len() as int, 0), false)
            < w,
    ensures
        spec_wrap_line(f, s, p, w, 0, true) != Some(0int),
{
    lemma_wrap_from_progress(f, s, p, 0, 0, w, true);
}

impl Font {
    /// The character-level scan for a word at `ws` too wide for an empty
    /// line: measure growing prefixes of the text from `ws` on (starting
    /// after the first character, since a single character always fits as
    /// a degenerate case) until one reaches the remaining room, and
    /// return the end of the prefix measured before it.
    fn wrap_char_fallback(
        &self,
        text: &[u16],
        ws: usize,
        rem: i32,
        params: EvalParameters,
    ) -> (r: usize)
        requires
            self.wf(),
            ws <= text@.len(),
            wrap_fits(*self, text@, params),
        ensures
            r == char_fallback(*self, text@, params, ws as int, rem as int, 0, 0),
            r <= text@.len(),
    {
        let len = text.len();
        let mut prev_b: usize = 0;
        let mut b: usize = 0;
        let mut last: i32 = 0;
        while last < rem
            invariant
                self.wf(),
                wrap_fits(*self, text@, params),
                len == text@.len(),
                prev_b <= b,
                ws + b <= len,
                last as int == (if b == 0 {
                    0
                } else {
                    spec_measure_width(*self, text@, params, ws as int, ws + b, false)
                }),
                char_fallback(*self, text@, params, ws as int, rem as int, 0, 0)
                    == char_fallback(
                    *self,
                    text@,
                    params,
                    ws as int,
                    rem as int,
                    prev_b as int,
                    b as int,
                ),
            decreases len - ws - b,
        {
            if ws + b < len {
                let step = crate::text::decode_at(text, ws + b, len).1;
                if step < len - (ws + b) {
                    prev_b = b;
                    b = b + step;
                    proof {
                        assert(eval_fits(
                            *self,
                            text@,
                            params,
                            ws + b as int,
                            ws as int,
                            0,
                            0,
                        ));
                    }
                    last = self.measure_range(text, ws, ws + b, params, false).0.get();
                } else {
                    return ws + b;
                }
            } else {
                return ws + b;
            }
        }
        ws + prev_b
    }

    /// Given a line of text, find the first breakpoint within the text.
    ///
    /// This function assumes only the space character is valid whitespace
    /// to split words on, and will not attempt to break words that are
    /// longer than `width`, nor will it break at newlines.
    ///
    /// The given `offset` determines the start of the initial line, while
    /// the `width` indicates how long the line is supposed to be. Be
    /// careful to note that it is possible for this function to return
    /// `0`; that indicates that the string itself cannot fit on the line
    /// and should break onto the next one.
    ///
    /// This function yields `None` if the line is not broken.
    pub fn wrap_line(
        &self,
        text: &[u16],
        params: EvalParameters,
        width: Twips,
        offset: Twips,
        is_start_of_line: bool,
    ) -> (r: Option<usize>)
        requires
            self.wf(),
            i32_ok(width.0 - offset.0),
            wrap_fits(*self, text@, params),
        ensures
            r is Some <==> spec_wrap_line(
                *self,
                text@,
                params,
                width.0 as int,
                offset.0 as int,
                is_start_of_line,
            ) is Some,
            r is Some ==> r->0 as int == spec_wrap_line(
                *self,
                text@,
                params,
                width.0 as int,
                offset.0 as int,
                is_start_of_line,
            )->0,
            r is Some ==> r->0 <= text@.len(),
    {
        let len = text.len();
        let mut remaining_width: i32 = width.get() - offset.get();
        if remaining_width < 0 {
            return Some(0);
        }
        let mut line_end: usize = 0;
        let mut is_start = is_start_of_line;
        let mut ws: usize = 0;
        loop
            invariant
                self.wf(),
                wrap_fits(*self, text@, params),
                len == text@.len(),
                ws <= len,
                line_end <= len,
                0 <= remaining_width,
                spec_wrap_line(
                    *self,
                    text@,
                    params,
                    width.0 as int,
                    offset.0 as int,
                    is_start_of_line,
                ) == wrap_from(
                    *self,
                    text@,
                    params,
                    ws as int,
                    line_end as int,
                    remaining_width as int,
                    is_start,
                ),
            decreases len + 1 - ws,
        {
            let we = crate::text::find_word_end(text, ws);
            proof {
                crate::text::lemma_next_space(text@, ws as int);
            }
            let measure_end = if we < len {
                we + 1
            } else {
                len
            };
            proof {
                assert(eval_fits(
                    *self,
                    text@,
                    params,
                    measure_end as int,
                    ws as int,
                    0,
                    0,
                ));
            }
            let word_width = self.measure_range(text, ws, measure_end, params, false).0;
            if is_start && word_width.get() > remaining_width {
                // Failsafe for if we get a word wider than the field.
                return Some(self.wrap_char_fallback(text, ws, remaining_width, params));
            } else if word_width.get() > remaining_width {
                // The word is wider than our remaining width: return the
                // end of the line.
                return Some(line_end);
            } else {
                // Space remains for our current word: move up the word
                // pointer.
                line_end = we;
                is_start = is_start && crate::text::prefix_is_blank(text, line_end);
                // If the additional space were to cause an overflow, then
                // return now.
                remaining_width = remaining_width - word_width.get();
                if remaining_width < 0 {
                    return Some(we);
                }
                if we >= len {
                    return None;
                }
                ws = we + 1;
            }
        }
    }
}

} // verus!
