//! The layout evaluator: walks a run of text character by character,
//! resolves each to a glyph, and accumulates kerning-adjusted, scaled
//! advances. Measurement folds the same walk into extents.
//!
//! All spec functions work over an index window `[i, to)` of the unit
//! sequence, so that measuring a subrange of a run needs no sequence
//! slicing.

use vstd::prelude::*;
use crate::font::Font;
use crate::params::EvalParameters;
use crate::text::{char_at, step_at};
use crate::twips::{clamp_i32, floor_to_pixel, trunc_div, Twips};

verus! {

/// Whether `v` lies within the `i32` range.
pub open spec fn i32_ok(v: int) -> bool {
    i32::MIN <= v <= i32::MAX
}

/// Whether the character at `i` (window ending at `to`) resolves to a
/// glyph of the font. Characters that do not — among them every code
/// point beyond the 16-bit range the font's tables cover — are silently
/// skipped: no advance, no placement.
pub open spec fn placed_at(f: Font, s: Seq<u16>, to: int, i: int) -> bool {
    f.resolves(char_at(s, to, i))
}

/// The code point of the character following the one at `i`, for the
/// kerning look-ahead: the NUL code when the character at `i` is the
/// window's last.
pub open spec fn next_char_at(s: Seq<u16>, to: int, i: int) -> u32 {
    let next = i + step_at(s, to, i);
    if next < to {
        char_at(s, to, next)
    } else {
        0u32
    }
}

/// The EM-square advance of the glyph placed at `i`: the glyph's own
/// advance width plus, when kerning is requested and the font has kerning
/// pairs, the font's adjustment for the pair of this character and the
/// next one (the NUL code standing in at the window's end; a pair with a
/// code point beyond the 16-bit range adjusts nothing).
pub open spec fn em_advance_at(
    f: Font,
    s: Seq<u16>,
    to: int,
    i: int,
    p: EvalParameters,
) -> int {
    let cp = char_at(s, to, i);
    f.glyph_advance(f.glyph_index_for(cp as u16)) + (if p.kerning && f.spec_has_kerning() {
        f.spec_kerning_offset_cp(cp, next_char_at(s, to, i))
    } else {
        0
    })
}

/// The advance in twips of the glyph placed at `i`: the EM advance scaled
/// by `height / scale` truncating toward zero and saturated to the `i32`
/// range, plus the letter spacing (applied after scaling, uniformly).
pub open spec fn advance_at(f: Font, s: Seq<u16>, to: int, i: int, p: EvalParameters) -> int {
    clamp_i32(trunc_div(em_advance_at(f, s, to, i, p) * p.height.0, f.scale as int))
        + p.letter_spacing.0
}

/// Whether every twip value the walk over the window `[i, to)` produces
/// stays within the `i32` range, starting from cursor `x` with the run's
/// origin at `tx0`: every placed glyph's advance, every cursor value after
/// a placement, and every reported translation.
pub open spec fn eval_fits(
    f: Font,
    s: Seq<u16>,
    p: EvalParameters,
    to: int,
    i: int,
    tx0: int,
    x: int,
) -> bool
    decreases to - i,
{
    if i < 0 || i >= to {
        true
    } else {
        let step = step_at(s, to, i);
        if placed_at(f, s, to, i) {
            let adv = advance_at(f, s, to, i, p);
            &&& i32_ok(adv)
            &&& i32_ok(x + adv)
            &&& i32_ok(tx0 + x)
            &&& eval_fits(f, s, p, to, i + step, tx0, x + adv)
        } else {
            eval_fits(f, s, p, to, i + step, tx0, x)
        }
    }
}

/// The measured width of the window `[i, to)` from cursor `x`: the running
/// maximum, starting at `acc`, of each placed glyph's right edge (its
/// cursor plus its advance), each candidate first rounded down to a whole
/// pixel when `round` is set.
pub open spec fn max_right(
    f: Font,
    s: Seq<u16>,
    p: EvalParameters,
    to: int,
    i: int,
    x: int,
    acc: int,
    round: bool,
) -> int
    decreases to - i,
{
    if i < 0 || i >= to {
        acc
    } else {
        let step = step_at(s, to, i);
        if placed_at(f, s, to, i) {
            let adv = advance_at(f, s, to, i, p);
            let cand = if round {
                clamp_i32(floor_to_pixel(x + adv))
            } else {
                x + adv
            };
            let acc2 = if cand > acc {
                cand
            } else {
                acc
            };
            max_right(f, s, p, to, i + step, x + adv, acc2, round)
        } else {
            max_right(f, s, p, to, i + step, x, acc, round)
        }
    }
}

/// Whether any character of the window `[i, to)` resolves to a glyph.
pub open spec fn any_placed(f: Font, s: Seq<u16>, to: int, i: int) -> bool
    decreases to - i,
{
    if i < 0 || i >= to {
        false
    } else {
        placed_at(f, s, to, i) || any_placed(f, s, to, i + step_at(s, to, i))
    }
}

/// The measured width of the window `[from, to)`: the maximum right edge
/// over its placed glyphs, starting from zero.
pub open spec fn spec_measure_width(
    f: Font,
    s: Seq<u16>,
    p: EvalParameters,
    from: int,
    to: int,
    round: bool,
) -> int {
    max_right(f, s, p, to, from, 0, 0, round)
}

/// The vertical candidate every placed glyph reports during measurement:
/// the evaluation height, rounded down to a whole pixel when `round` is
/// set.
pub open spec fn height_candidate(p: EvalParameters, round: bool) -> int {
    if round {
        clamp_i32(floor_to_pixel(p.height.0 as int))
    } else {
        p.height.0 as int
    }
}

/// The measured height of the window `[from, to)`: an empty window still
/// reserves a line's worth of vertical space; a window with at least one
/// placed glyph reports the (possibly rounded) evaluation height; one
/// whose characters all lack glyphs reports zero.
pub open spec fn spec_measure_height(
    f: Font,
    s: Seq<u16>,
    p: EvalParameters,
    from: int,
    to: int,
    round: bool,
) -> int {
    if from >= to {
        if p.height.0 > 0 {
            p.height.0 as int
        } else {
            0
        }
    } else if any_placed(f, s, to, from) {
        if height_candidate(p, round) > 0 {
            height_candidate(p, round)
        } else {
            0
        }
    } else {
        0
    }
}

/// One glyph the evaluator placed: where it stands in the text, which
/// glyph it is, and where it lands on the line. The renderer-side caller
/// derives the glyph's transform from `tx`, `ty` and the scale factor
/// `params.height / font.scale`.
#[derive(Clone, Copy, PartialEq, Eq, Structural, Debug)]
pub struct GlyphPlacement {
    /// Unit position of the character within the run.
    pub pos: usize,

    /// Index of the glyph in the font's glyph table.
    pub glyph_index: usize,

    /// The horizontal cursor before this glyph, from the run's origin.
    pub x: Twips,

    /// The scaled, kerned advance of this glyph, letter spacing included.
    pub advance: Twips,

    /// Horizontal translation of this glyph: the origin plus `x`.
    pub tx: Twips,

    /// Vertical translation of this glyph: the origin plus the
    /// evaluation height (baseline placement); the same for every glyph
    /// of the run.
    pub ty: Twips,
}

/// The sequence of placements the walk over the window `[i, to)` produces
/// starting from cursor `x`, with run origin `tx0` and constant vertical
/// translation `ty`.
pub open spec fn placements_from(
    f: Font,
    s: Seq<u16>,
    p: EvalParameters,
    to: int,
    i: int,
    x: int,
    tx0: int,
    ty: int,
) -> Seq<GlyphPlacement>
    decreases to - i,
{
    if i < 0 || i >= to {
        Seq::empty()
    } else {
        let step = step_at(s, to, i);
        if placed_at(f, s, to, i) {
            let adv = advance_at(f, s, to, i, p);
            let e = GlyphPlacement {
                pos: i as usize,
                glyph_index: f.glyph_index_for(char_at(s, to, i) as u16) as usize,
                x: Twips(x as i32),
                advance: Twips(adv as i32),
                tx: Twips((tx0 + x) as i32),
                ty: Twips(ty as i32),
            };
            seq![e] + placements_from(f, s, p, to, i + step, x + adv, tx0, ty)
        } else {
            placements_from(f, s, p, to, i + step, x, tx0, ty)
        }
    }
}

impl Font {
    /// The advance of the character starting at `i` of the window
    /// `[i, to)`, exactly as `advance_at` gives it, or `None` when the
    /// character resolves to no glyph. Also returns the number of units
    /// the character takes.
    fn glyph_advance_at(
        &self,
        text: &[u16],
        to: usize,
        i: usize,
        params: EvalParameters,
    ) -> (r: (Option<i64>, usize))
        requires
            self.wf(),
            i < to <= text@.len(),
        ensures
            r.1 == step_at(text@, to as int, i as int),
            r.0 is Some <==> placed_at(*self, text@, to as int, i as int),
            r.0 is Some ==> r.0->0 == advance_at(*self, text@, to as int, i as int, params),
    {
        let (cp, step) = crate::text::decode_at(text, i, to);
        if cp > 0xFFFF {
            return (None, step);
        }
        let code: u16 = cp as u16;
        if !self.code_point_to_glyph.contains_key(&code) {
            return (None, step);
        }
        let index: usize = *self.code_point_to_glyph.get(&code).unwrap();
        let mut em: i64 = self.glyphs[index].source().advance as i64;
        if params.kerning && self.has_kerning_info() {
            let next = i + step;
            let next_cp: u32 = if next < to {
                crate::text::decode_at(text, next, to).0
            } else {
                0
            };
            let kern: Twips = if next_cp <= 0xFFFF {
                self.kerning_offset_by_codes(code, next_cp as u16)
            } else {
                Twips(0)
            };
            em = em + kern.get() as i64;
        }
        let scaled: i32 = crate::twips::scale_to_height(em, params.height.get() as i64, self.scale);
        let advance: i64 = scaled as i64 + params.letter_spacing.get() as i64;
        (Some(advance), step)
    }

    /// Measure the metrics (width and height) of the window `[from, to)`
    /// of a run of text. The `round` flag rounds each candidate extent
    /// down to the nearest whole pixel before taking the maximum.
    pub fn measure_range(
        &self,
        text: &[u16],
        from: usize,
        to: usize,
        params: EvalParameters,
        round: bool,
    ) -> (r: (Twips, Twips))
        requires
            self.wf(),
            from <= to <= text@.len(),
            eval_fits(*self, text@, params, to as int, from as int, 0, 0),
        ensures
            r.0.0 == spec_measure_width(*self, text@, params, from as int, to as int, round),
            r.1.0 == spec_measure_height(*self, text@, params, from as int, to as int, round),
            0 <= r.0.0,
    {
        let mut width: i32 = 0;
        let mut height: i32 = 0;
        let mut saw_glyph = false;
        let mut x: i64 = 0;
        let mut i = from;
        while i < to
            invariant
                self.wf(),
                from <= i <= to <= text@.len(),
                i32_ok(x as int),
                0 <= width,
                eval_fits(*self, text@, params, to as int, i as int, 0, x as int),
                max_right(
                    *self,
                    text@,
                    params,
                    to as int,
                    from as int,
                    0,
                    0,
                    round,
                ) == max_right(*self, text@, params, to as int, i as int, x as int, width as int, round),
                any_placed(*self, text@, to as int, from as int) == (saw_glyph || any_placed(
                    *self,
                    text@,
                    to as int,
                    i as int,
                )),
                height == (if saw_glyph {
                    if height_candidate(params, round) > 0 {
                        height_candidate(params, round)
                    } else {
                        0
                    }
                } else {
                    0
                }),
            decreases to - i,
        {
            let (advance, step) = self.glyph_advance_at(text, to, i, params);
            match advance {
                Some(adv) => {
                    let right: i64 = x + adv;
                    let cand: i32 = if round {
                        crate::twips::round_down_to_pixel(Twips(right as i32)).get()
                    } else {
                        right as i32
                    };
                    if cand > width {
                        width = cand;
                    }
                    let h_cand: i32 = if round {
                        crate::twips::round_down_to_pixel(params.height).get()
                    } else {
                        params.height.get()
                    };
                    if h_cand > height {
                        height = h_cand;
                    }
                    saw_glyph = true;
                    x = right;
                },
                None => {},
            }
            i = i + step;
        }
        if from == to {
            let h = params.height.get();
            if h > height {
                height = h;
            }
        }
        (Twips(width), Twips(height))
    }

    /// Evaluate this font against a particular run of text on a
    /// glyph-by-glyph basis: the series of glyph placements necessary to
    /// render the text on a single horizontal line, in strictly
    /// increasing text order, one per resolvable character.
    ///
    /// `origin_x`/`origin_y` are the translation of the base transform
    /// the run starts from; the vertical translation is advanced by the
    /// evaluation height (baseline placement) for every glyph. The
    /// output is a pure function of the text, the origin, the parameters
    /// and the font's immutable tables.
    pub fn evaluate(
        &self,
        text: &[u16],
        origin_x: Twips,
        origin_y: Twips,
        params: EvalParameters,
    ) -> (r: Vec<GlyphPlacement>)
        requires
            self.wf(),
            eval_fits(*self, text@, params, text@.len() as int, 0, origin_x.0 as int, 0),
            i32_ok(origin_y.0 + params.height.0),
        ensures
            r@ == placements_from(
                *self,
                text@,
                params,
                text@.len() as int,
                0,
                0,
                origin_x.0 as int,
                origin_y.0 + params.height.0,
            ),
    {
        let to = text.len();
        let ty: i32 = ((origin_y.get() as i64) + (params.height.get() as i64)) as i32;
        let ghost total = placements_from(
            *self,
            text@,
            params,
            to as int,
            0,
            0,
            origin_x.0 as int,
            origin_y.0 + params.height.0,
        );
        let mut out: Vec<GlyphPlacement> = Vec::new();
        let mut x: i64 = 0;
        let mut i: usize = 0;
        while i < to
            invariant
                self.wf(),
                i <= to == text@.len(),
                i32_ok(x as int),
                eval_fits(*self, text@, params, to as int, i as int, origin_x.0 as int, x as int),
                ty as int == origin_y.0 + params.height.0,
                total == out@ + placements_from(
                    *self,
                    text@,
                    params,
                    to as int,
                    i as int,
                    x as int,
                    origin_x.0 as int,
                    ty as int,
                ),
            decreases to - i,
        {
            let ghost rest = placements_from(
                *self,
                text@,
                params,
                to as int,
                i as int,
                x as int,
                origin_x.0 as int,
                ty as int,
            );
            let (advance, step) = self.glyph_advance_at(text, to, i, params);
            match advance {
                Some(adv) => {
                    let (cp, _) = crate::text::decode_at(text, i, to);
                    let code: u16 = cp as u16;
                    let glyph_index: usize = *self.code_point_to_glyph.get(&code).unwrap();
                    let tx: i32 = ((origin_x.get() as i64) + x) as i32;
                    let placement = GlyphPlacement {
                        pos: i,
                        glyph_index,
                        x: Twips(x as i32),
                        advance: Twips(adv as i32),
                        tx: Twips(tx),
                        ty: Twips(ty),
                    };
                    out.push(placement);
                    proof {
                        let after = placements_from(
                            *self,
                            text@,
                            params,
                            to as int,
                            i + step_at(text@, to as int, i as int),
                            x + adv,
                            origin_x.0 as int,
                            ty as int,
                        );
                        assert(rest == seq![placement] + after);
                        assert(out@ =~= (out@.drop_last() + seq![placement]));
                        assert((out@.drop_last() + (seq![placement] + after)) =~= (out@ + after));
                    }
                    x = x + adv;
                },
                None => {},
            }
            i = i + step;
        }
        proof {
            assert(out@ + Seq::<GlyphPlacement>::empty() =~= out@);
        }
        out
    }

    /// Measure a particular run's metrics (width and height).
    ///
    /// The `round` flag causes the returned coordinates to be rounded
    /// down to the nearest pixel.
    pub fn measure(&self, text: &[u16], params: EvalParameters, round: bool) -> (r: (Twips, Twips))
        requires
            self.wf(),
            eval_fits(*self, text@, params, text@.len() as int, 0, 0, 0),
        ensures
            r.0.0 == spec_measure_width(*self, text@, params, 0, text@.len() as int, round),
            r.1.0 == spec_measure_height(*self, text@, params, 0, text@.len() as int, round),
            0 <= r.0.0,
    {
        self.measure_range(text, 0, text.len(), params, round)
    }
}

/// The running maximum a measurement folds never drops below where it
/// starts.
pub proof fn lemma_max_right_ge_acc(
    f: Font,
    s: Seq<u16>,
    p: EvalParameters,
    to: int,
    i: int,
    x: int,
    acc: int,
    round: bool,
)
    ensures
        max_right(f, s, p, to, i, x, acc, round) >= acc,
    decreases to - i,
{
    if !(i < 0 || i >= to) {
        let step = step_at(s, to, i);
        if placed_at(f, s, to, i) {
            let adv = advance_at(f, s, to, i, p);
            let cand = if round {
                clamp_i32(floor_to_pixel(x + adv))
            } else {
                x + adv
            };
            let acc2 = if cand > acc {
                cand
            } else {
                acc
            };
            lemma_max_right_ge_acc(f, s, p, to, i + step, x + adv, acc2, round);
        } else {
            lemma_max_right_ge_acc(f, s, p, to, i + step, x, acc, round);
        }
    }
}

/// Bounds on an advance from plain bounds on the font's tables and
/// parameters: a glyph's own advance width is a 16-bit quantity, so when
/// every kerning adjustment lies within `[kmin, kmax]` (a range that must
/// include zero, the absent-pair adjustment), the EM sum lies within
/// `[kmin, 0xFFFF + kmax]` and the advance between the correspondingly
/// scaled extremes. This is the pointwise step towards discharging
/// `eval_fits` from simple bounds.
pub proof fn lemma_advance_at_bounds(
    f: Font,
    s: Seq<u16>,
    to: int,
    i: int,
    p: EvalParameters,
    kmin: int,
    kmax: int,
)
    requires
        f.wf(),
        0 <= p.height.0,
        kmin <= 0 <= kmax,
        forall|l: u16, r: u16| kmin <= #[trigger] f.spec_kerning_offset(l, r) <= kmax,
    ensures
        clamp_i32(trunc_div(kmin * p.height.0, f.scale as int)) + p.letter_spacing.0
            <= advance_at(f, s, to, i, p),
        advance_at(f, s, to, i, p) <= clamp_i32(
            trunc_div((0xFFFF + kmax) * p.height.0, f.scale as int),
        ) + p.letter_spacing.0,
{
    let em = em_advance_at(f, s, to, i, p);
    let h = p.height.0 as int;
    let d = f.scale as int;
    assert(kmin <= em <= 0xFFFF + kmax);
    vstd::arithmetic::mul::lemma_mul_inequality(kmin, em, h);
    vstd::arithmetic::mul::lemma_mul_inequality(em, 0xFFFF + kmax, h);
    crate::twips::lemma_trunc_div_ordered(kmin * h, em * h, d);
    crate::twips::lemma_trunc_div_ordered(em * h, (0xFFFF + kmax) * h, d);
}

/// `eval_fits` from a uniform advance bound: when every placed glyph of
/// the window advances by at most `a` twips in magnitude, and the
/// window's length times `a` leaves headroom around the starting cursor
/// and the origin, every value the walk produces stays within the `i32`
/// range.
pub proof fn lemma_eval_fits_bounded(
    f: Font,
    s: Seq<u16>,
    p: EvalParameters,
    to: int,
    i: int,
    tx0: int,
    x: int,
    a: int,
)
    requires
        0 <= a,
        forall|k: int|
            i <= k < to && placed_at(f, s, to, k) ==> -a <= #[trigger] advance_at(
                f,
                s,
                to,
                k,
                p,
            ) <= a,
        -(i32::MAX as int) <= x - (to - i) * a,
        x + (to - i) * a <= i32::MAX,
        -(i32::MAX as int) <= tx0 + x - (to - i) * a,
        tx0 + x + (to - i) * a <= i32::MAX,
    ensures
        eval_fits(f, s, p, to, i, tx0, x),
    decreases to - i,
{
    if !(i < 0 || i >= to) {
        let step = step_at(s, to, i);
        let n = to - i;
        vstd::arithmetic::mul::lemma_mul_inequality(to - (i + step), n - 1, a);
        vstd::arithmetic::mul::lemma_mul_inequality(n - 1, n, a);
        vstd::arithmetic::mul::lemma_mul_nonnegative(n - 1, a);
        vstd::arithmetic::mul::lemma_mul_nonnegative(n, a);
        assert((n - 1) * a + a == n * a) by (nonlinear_arith);
        if placed_at(f, s, to, i) {
            let adv = advance_at(f, s, to, i, p);
            lemma_eval_fits_bounded(f, s, p, to, i + step, tx0, x + adv, a);
        } else {
            lemma_eval_fits_bounded(f, s, p, to, i + step, tx0, x, a);
        }
    }
}

/// Empty-line height floor: measuring an empty run, without rounding,
/// reports exactly the evaluation height — an empty line still reserves
/// a line's worth of vertical space. (A negative height is floored to
/// zero instead, so it is left out here.)
pub proof fn lemma_measure_empty_height(f: Font, s: Seq<u16>, p: EvalParameters)
    requires
        s.len() == 0,
        0 <= p.height.0,
    ensures
        spec_measure_height(f, s, p, 0, 0, false) == p.height.0,
        spec_measure_width(f, s, p, 0, 0, false) == 0,
{
}

/// What kerning contributes to an advance. When kerning is enabled and
/// the font has kerning pairs at all, the EM advance of a glyph is its
/// own advance width plus the font's adjustment for the pair of this
/// character and the next (zero when that pair is absent from the
/// table); when kerning is disabled, or the font defines no pairs, the
/// adjustment contributes nothing even if present in the table. The
/// twip advance then scales that one EM sum by `height / scale`,
/// truncating, and adds the letter spacing — the adjustment is scaled
/// identically with the base advance, not separately.
pub proof fn lemma_kerning_contribution(
    f: Font,
    s: Seq<u16>,
    to: int,
    i: int,
    p: EvalParameters,
)
    ensures
        p.kerning && f.spec_has_kerning() ==> em_advance_at(f, s, to, i, p) == f.glyph_advance(
            f.glyph_index_for(char_at(s, to, i) as u16),
        ) + f.spec_kerning_offset_cp(char_at(s, to, i), next_char_at(s, to, i)),
        !(p.kerning && f.spec_has_kerning()) ==> em_advance_at(f, s, to, i, p)
            == f.glyph_advance(f.glyph_index_for(char_at(s, to, i) as u16)),
        advance_at(f, s, to, i, p) == clamp_i32(
            trunc_div(em_advance_at(f, s, to, i, p) * p.height.0, f.scale as int),
        ) + p.letter_spacing.0,
{
}

} // verus!
