//! The font record: immutable per-font data built once from an
//! already-parsed font source — the glyph table, the code-point map, the
//! kerning table, the scale constant chosen by the source format's
//! version, and the vertical metrics.

use vstd::prelude::*;
use std::collections::HashMap;
use crate::descriptor::FontDescriptor;
use crate::glyph::{Glyph, GlyphSource};
use crate::text::{bmp_code, in_code_range};
use crate::twips::{clamp_i32, scale_to_height, trunc_div, Twips};

verus! {

broadcast use vstd::std_specs::hash::group_hash_axioms;

/// One record of a font's kerning table: a horizontal adjustment applied
/// between a specific ordered pair of character codes.
#[derive(Clone, Copy, PartialEq, Eq, Structural, Debug)]
pub struct KerningPair {
    /// Code of the left character of the pair.
    pub left_code: u16,

    /// Code of the right character of the pair.
    pub right_code: u16,

    /// The adjustment, in twips, added to the left glyph's advance.
    pub adjustment: Twips,
}

/// The optional layout block of a font source: vertical metrics in
/// EM-square units and the kerning records.
pub struct FontLayoutSource {
    /// Distance from the top of each glyph to the baseline.
    pub ascent: u16,

    /// Distance from the baseline to the bottom of each glyph.
    pub descent: u16,

    /// Distance between the bottom of any one glyph and the top of another.
    pub leading: i16,

    /// The kerning records, in definition order; a later record for the
    /// same pair overrides an earlier one.
    pub kerning: Vec<KerningPair>,
}

/// An already-parsed font source: the glyph definitions in order, the
/// optional layout block, and the format version that fixes the scale
/// constant.
pub struct FontSource {
    /// The glyph definitions, in definition order.
    pub glyphs: Vec<GlyphSource>,

    /// The layout block, if the source has one.
    pub layout: Option<FontLayoutSource>,

    /// The version of the font definition in the source format.
    pub version: u8,
}

/// The key under which the kerning adjustment of the ordered pair
/// `(left, right)` is stored.
pub open spec fn pair_key(left: u16, right: u16) -> u32 {
    (left * 0x10000 + right) as u32
}

/// Two distinct ordered pairs never share a key.
pub proof fn lemma_pair_key_injective(l1: u16, r1: u16, l2: u16, r2: u16)
    ensures
        pair_key(l1, r1) == pair_key(l2, r2) ==> l1 == l2 && r1 == r2,
{
}

/// The kerning adjustment a record list gives to the ordered pair
/// `(l, r)`: that of the last record for the pair, or zero if none.
pub open spec fn kern_from_list(ks: Seq<KerningPair>, l: u16, r: u16) -> int
    decreases ks.len(),
{
    if ks.len() == 0 {
        0
    } else if ks.last().left_code == l && ks.last().right_code == r {
        ks.last().adjustment.0 as int
    } else {
        kern_from_list(ks.drop_last(), l, r)
    }
}

/// The kerning adjustment a pair-keyed map gives to the ordered pair
/// `(l, r)`: the stored value, or zero if the pair is absent.
pub open spec fn kern_from_map(m: Map<u32, Twips>, l: u16, r: u16) -> int {
    if m.contains_key(pair_key(l, r)) {
        m[pair_key(l, r)].0 as int
    } else {
        0
    }
}

/// The font record. Built once by `from_source`, read-only thereafter
/// (except for the per-glyph caches).
pub struct Font {
    /// The list of glyphs defined in the font, in definition order.
    pub glyphs: Vec<Glyph>,

    /// A map from a 16-bit character code to an index into `glyphs`.
    pub code_point_to_glyph: HashMap<u16, usize>,

    /// The scaling applied to the font height to render at the proper
    /// size: how many EM-square units make up the reference height. Fixed
    /// at construction from the source format's version.
    pub scale: u32,

    /// Kerning information: maps a pair of character codes (keyed by
    /// `pair_key`) to a horizontal offset value.
    pub kerning_pairs: HashMap<u32, Twips>,

    /// The distance from the top of each glyph to the baseline of the
    /// font, in EM-square coordinates.
    pub ascent: u16,

    /// The distance from the baseline of the font to the bottom of each
    /// glyph, in EM-square coordinates.
    pub descent: u16,

    /// The distance between the bottom of any one glyph and the top of
    /// another, in EM-square coordinates.
    pub leading: i16,

    /// The identity of the font.
    pub descriptor: FontDescriptor,
}

impl Font {
    /// Well-formedness: the scale constant is one of the two the format
    /// defines, and the code-point map sends every key to a valid index
    /// of a glyph that carries that very code.
    pub open spec fn wf(self) -> bool {
        &&& (self.scale == 1024 || self.scale == 20480)
        &&& forall|c: u16| #[trigger] self.code_point_to_glyph@.contains_key(c) ==> {
            &&& self.code_point_to_glyph@[c] < self.glyphs@.len()
            &&& self.glyphs@[self.code_point_to_glyph@[c] as int].spec_source().code == c
        }
    }

    /// Whether the font has a glyph for the character code `c`.
    pub open spec fn has_glyph_for(self, c: u16) -> bool {
        self.code_point_to_glyph@.contains_key(c)
    }

    /// Index of the glyph the font renders for code `c` (meaningful when
    /// `has_glyph_for(c)`).
    pub open spec fn glyph_index_for(self, c: u16) -> int {
        self.code_point_to_glyph@[c] as int
    }

    /// Advance width, in EM-square units, of the glyph at index `idx`.
    pub open spec fn glyph_advance(self, idx: int) -> int {
        self.glyphs@[idx].spec_source().advance as int
    }

    /// The kerning adjustment this font defines for the ordered pair of
    /// codes `(l, r)`, or zero if it defines none.
    pub open spec fn spec_kerning_offset(self, l: u16, r: u16) -> int {
        kern_from_map(self.kerning_pairs@, l, r)
    }

    /// Whether the font defines any kerning pair at all.
    pub open spec fn spec_has_kerning(self) -> bool {
        exists|k: u32| self.kerning_pairs@.contains_key(k)
    }

    /// Whether a character, given by its code point, resolves to a glyph
    /// of this font: code points beyond the 16-bit range the tables cover
    /// are out of scope and resolve to none.
    pub open spec fn resolves(self, cp: u32) -> bool {
        cp <= 0xFFFF && self.has_glyph_for(cp as u16)
    }

    /// The kerning adjustment for an ordered pair of code points: zero
    /// when either lies beyond the 16-bit range the table covers.
    pub open spec fn spec_kerning_offset_cp(self, l: u32, r: u32) -> int {
        if l <= 0xFFFF && r <= 0xFFFF {
            self.spec_kerning_offset(l as u16, r as u16)
        } else {
            0
        }
    }

    /// Build a font record from an already-parsed source. Glyphs get
    /// increasing indices in definition order; the code-point map sends
    /// each code to the last glyph defined for it; the kerning map keeps
    /// the last record of each pair; the scale constant is fixed by the
    /// source's version (later format versions store coordinates at
    /// twenty times the scale of the earlier ones).
    pub fn from_source(source: FontSource, descriptor: FontDescriptor) -> (r: Font)
        ensures
            r.wf(),
            r.descriptor == descriptor,
            r.scale == (if source.version >= 3 { 20480u32 } else { 1024u32 }),
            r.ascent == (if source.layout is Some { source.layout->0.ascent } else { 0u16 }),
            r.descent == (if source.layout is Some { source.layout->0.descent } else { 0u16 }),
            r.leading == (if source.layout is Some { source.layout->0.leading } else { 0i16 }),
            r.glyphs@.len() == source.glyphs@.len(),
            forall|i: int| 0 <= i < source.glyphs@.len() ==> {
                &&& (#[trigger] r.glyphs@[i]).spec_source() == source.glyphs@[i]
                &&& r.glyphs@[i].spec_shape() is None
                &&& r.glyphs@[i].spec_handle() is None
            },
            forall|c: u16| #[trigger] r.has_glyph_for(c) <==> exists|i: int|
                0 <= i < source.glyphs@.len() && (#[trigger] source.glyphs@[i].code) == c,
            forall|c: u16| #[trigger] r.has_glyph_for(c) ==> {
                let idx = r.glyph_index_for(c);
                &&& 0 <= idx < source.glyphs@.len()
                &&& source.glyphs@[idx].code == c
                &&& forall|j: int| idx < j < source.glyphs@.len()
                    ==> source.glyphs@[j].code != c
            },
            forall|l: u16, rr: u16| #[trigger] r.spec_kerning_offset(l, rr) == (
            if source.layout is Some {
                kern_from_list(source.layout->0.kerning@, l, rr)
            } else {
                0
            }),
            r.spec_has_kerning() <==> (source.layout is Some
                && source.layout->0.kerning@.len() != 0),
    {
        let FontSource { glyphs: mut source_glyphs, layout, version } = source;
        let ghost all_sources = source_glyphs@;

        let mut glyphs: Vec<Glyph> = Vec::new();
        let mut code_point_to_glyph: HashMap<u16, usize> = HashMap::new();
        let n = source_glyphs.len();
        let mut i: usize = 0;
        while i < n
            invariant
                i <= n,
                n == all_sources.len(),
                source_glyphs@ == all_sources.subrange(i as int, n as int),
                glyphs@.len() == i,
                forall|k: int| 0 <= k < i ==> {
                    &&& (#[trigger] glyphs@[k]).spec_source() == all_sources[k]
                    &&& glyphs@[k].spec_shape() is None
                    &&& glyphs@[k].spec_handle() is None
                },
                forall|c: u16| #[trigger] code_point_to_glyph@.contains_key(c) <==> exists|k: int|
                    0 <= k < i && (#[trigger] all_sources[k].code) == c,
                forall|c: u16| #[trigger] code_point_to_glyph@.contains_key(c) ==> {
                    let idx = code_point_to_glyph@[c] as int;
                    &&& 0 <= idx < i
                    &&& all_sources[idx].code == c
                    &&& forall|j: int| idx < j < i ==> all_sources[j].code != c
                },
            decreases n - i,
        {
            let glyph_source = source_glyphs.remove(0);
            proof {
                assert(glyph_source == all_sources[i as int]);
                assert(source_glyphs@ =~= all_sources.subrange(i as int + 1, n as int));
            }
            let code = glyph_source.code;
            code_point_to_glyph.insert(code, i);
            glyphs.push(Glyph::new(glyph_source));
            proof {
                assert forall|c: u16| #[trigger] code_point_to_glyph@.contains_key(c)
                    implies exists|k: int|
                    0 <= k < i + 1 && (#[trigger] all_sources[k].code) == c by {
                    if c == code {
                        assert(all_sources[i as int].code == c);
                    }
                }
            }
            i = i + 1;
        }

        let mut kerning_pairs: HashMap<u32, Twips> = HashMap::new();
        let mut ascent: u16 = 0;
        let mut descent: u16 = 0;
        let mut leading: i16 = 0;
        match layout {
            Some(lay) => {
                ascent = lay.ascent;
                descent = lay.descent;
                leading = lay.leading;
                let records = lay.kerning;
                let m = records.len();
                let mut j: usize = 0;
                while j < m
                    invariant
                        j <= m,
                        m == records@.len(),
                        forall|l: u16, rr: u16| #[trigger] kern_from_map(
                            kerning_pairs@,
                            l,
                            rr,
                        ) == kern_from_list(records@.subrange(0, j as int), l, rr),
                        forall|kk: u32| #[trigger] kerning_pairs@.contains_key(kk)
                            ==> exists|t: int|
                            0 <= t < j && pair_key(
                                (#[trigger] records@[t]).left_code,
                                records@[t].right_code,
                            ) == kk,
                        j > 0 ==> kerning_pairs@.contains_key(pair_key(
                            records@[0].left_code,
                            records@[0].right_code,
                        )),
                    decreases m - j,
                {
                    let record = records[j];
                    let ghost pre = kerning_pairs@;
                    let key: u32 = (record.left_code as u32) * 0x10000 + (record.right_code as u32);
                    proof {
                        assert(record.left_code * 0x10000 + record.right_code < 0x1_0000_0000);
                        assert(key == pair_key(record.left_code, record.right_code));
                    }
                    kerning_pairs.insert(key, record.adjustment);
                    proof {
                        let sub1 = records@.subrange(0, j as int + 1);
                        assert(sub1.drop_last() =~= records@.subrange(0, j as int));
                        assert(sub1.last() == records@[j as int]);
                        assert(kerning_pairs@ == pre.insert(key, record.adjustment));
                        assert forall|l: u16, rr: u16| #[trigger] kern_from_map(
                            kerning_pairs@,
                            l,
                            rr,
                        ) == kern_from_list(sub1, l, rr) by {
                            if l == record.left_code && rr == record.right_code {
                                assert(pair_key(l, rr) == key);
                                assert(kerning_pairs@.contains_key(key));
                                assert(kerning_pairs@[key] == record.adjustment);
                            } else {
                                lemma_pair_key_injective(
                                    l,
                                    rr,
                                    record.left_code,
                                    record.right_code,
                                );
                                assert(pair_key(l, rr) != key);
                                assert(kern_from_map(kerning_pairs@, l, rr) == kern_from_map(
                                    pre,
                                    l,
                                    rr,
                                ));
                            }
                        }
                        assert forall|kk: u32| #[trigger] kerning_pairs@.contains_key(kk)
                            implies exists|t: int|
                            0 <= t < j + 1 && pair_key(
                                (#[trigger] records@[t]).left_code,
                                records@[t].right_code,
                            ) == kk by {
                            if kk == key {
                                assert(0 <= j < j + 1 && pair_key(
                                    records@[j as int].left_code,
                                    records@[j as int].right_code,
                                ) == kk);
                            } else {
                                assert(pre.contains_key(kk));
                            }
                        }
                        if j == 0 {
                            assert(records@[0] == record);
                        }
                    }
                    j = j + 1;
                }
            },
            None => {},
        }

        let font = Font {
            glyphs,
            code_point_to_glyph,
            scale: if version >= 3 {
                20480
            } else {
                1024
            },
            kerning_pairs,
            ascent,
            descent,
            leading,
            descriptor,
        };
        proof {
            if source.layout is Some && source.layout->0.kerning@.len() != 0 {
                let ks = source.layout->0.kerning@;
                assert(ks.subrange(0, ks.len() as int) =~= ks);
                assert(font.kerning_pairs@.contains_key(pair_key(
                    ks[0].left_code,
                    ks[0].right_code,
                )));
            }
            if source.layout is Some {
                let ks = source.layout->0.kerning@;
                assert(ks.subrange(0, ks.len() as int) =~= ks);
            }
        }
        font
    }

    /// Returns whether this font contains glyph shapes. If not, text set
    /// in it should fall back to a device font.
    pub fn has_glyphs(&self) -> (r: bool)
        ensures
            r == (self.glyphs@.len() != 0),
    {
        !self.glyphs.is_empty()
    }

    /// Returns a glyph entry by index; `None` when the index is out of
    /// range of the glyph table.
    pub fn get_glyph(&self, i: usize) -> (r: Option<&Glyph>)
        ensures
            r is Some <==> i < self.glyphs@.len(),
            r is Some ==> *r->0 == self.glyphs@[i as int],
    {
        if i < self.glyphs.len() {
            Some(&self.glyphs[i])
        } else {
            None
        }
    }

    /// Returns the glyph entry for a character: `Some` exactly when the
    /// character's code point fits the 16-bit range and is a key of the
    /// code-point map, and then the glyph that map entry points at —
    /// which carries that very code. A character beyond the range is out
    /// of scope and is treated as not found.
    pub fn get_glyph_for_char(&self, c: char) -> (r: Option<&Glyph>)
        requires
            self.wf(),
        ensures
            r is Some <==> in_code_range(c) && self.has_glyph_for(bmp_code(c)),
            r is Some ==> *r->0 == self.glyphs@[self.glyph_index_for(bmp_code(c))],
            r is Some ==> r->0.spec_source().code == bmp_code(c),
    {
        let cp = c as u32;
        if cp > 0xFFFF {
            return None;
        }
        let code_point: u16 = cp as u16;
        match self.code_point_to_glyph.get(&code_point) {
            Some(index) => self.get_glyph(*index),
            None => None,
        }
    }

    /// Determine if this font contains glyphs for every character within
    /// a given run of text (decode failures standing for the replacement
    /// character; a character beyond the 16-bit code range resolves to no
    /// glyph).
    pub fn has_glyphs_for_str(&self, text: &[u16]) -> (r: bool)
        ensures
            r == has_all_glyphs(*self, text@, 0),
    {
        let n = text.len();
        let mut i: usize = 0;
        while i < n
            invariant
                i <= n,
                n == text@.len(),
                has_all_glyphs(*self, text@, 0) == has_all_glyphs(*self, text@, i as int),
            decreases n - i,
        {
            let (cp, step) = crate::text::decode_at(text, i, n);
            if cp > 0xFFFF {
                return false;
            }
            let code: u16 = cp as u16;
            if !self.code_point_to_glyph.contains_key(&code) {
                return false;
            }
            i = i + step;
        }
        true
    }

    /// Given a pair of characters, the offset that should be applied to
    /// the advance value between them: the font's kerning adjustment for
    /// the pair, or zero twips if it defines none — and zero whenever
    /// either character lies beyond the 16-bit range the table covers.
    pub fn get_kerning_offset(&self, left: char, right: char) -> (r: Twips)
        ensures
            r.0 == (if in_code_range(left) && in_code_range(right) {
                self.spec_kerning_offset(bmp_code(left), bmp_code(right))
            } else {
                0
            }),
    {
        let l = left as u32;
        let rr = right as u32;
        if l > 0xFFFF || rr > 0xFFFF {
            return Twips(0);
        }
        self.kerning_offset_by_codes(l as u16, rr as u16)
    }

    /// The kerning offset for an ordered pair of 16-bit codes, or zero
    /// twips if the font defines none for it.
    pub fn kerning_offset_by_codes(&self, left_code: u16, right_code: u16) -> (r: Twips)
        ensures
            r.0 == self.spec_kerning_offset(left_code, right_code),
    {
        let key: u32 = (left_code as u32) * 0x10000 + (right_code as u32);
        proof {
            assert(key == pair_key(left_code, right_code));
        }
        match self.kerning_pairs.get(&key) {
            Some(t) => *t,
            None => Twips(0),
        }
    }

    /// Return the leading for this font at a given height: the EM-square
    /// leading scaled by `height / scale`, truncated toward zero.
    pub fn get_leading_for_height(&self, height: Twips) -> (r: Twips)
        requires
            self.wf(),
        ensures
            r.0 == clamp_i32(trunc_div(self.leading * height.0, self.scale as int)),
    {
        Twips(scale_to_height(self.leading as i64, height.0 as i64, self.scale))
    }

    /// Get the baseline from the top of the glyph at a given height: the
    /// EM-square ascent scaled by `height / scale`, truncated toward zero.
    pub fn get_baseline_for_height(&self, height: Twips) -> (r: Twips)
        requires
            self.wf(),
        ensures
            r.0 == clamp_i32(trunc_div(self.ascent * height.0, self.scale as int)),
    {
        Twips(scale_to_height(self.ascent as i64, height.0 as i64, self.scale))
    }

    /// Get the descent from the baseline to the bottom of the glyph at a
    /// given height: the EM-square descent scaled by `height / scale`,
    /// truncated toward zero.
    pub fn get_descent_for_height(&self, height: Twips) -> (r: Twips)
        requires
            self.wf(),
        ensures
            r.0 == clamp_i32(trunc_div(self.descent * height.0, self.scale as int)),
    {
        Twips(scale_to_height(self.descent as i64, height.0 as i64, self.scale))
    }

    /// Returns whether this font contains kerning information.
    pub fn has_kerning_info(&self) -> (r: bool)
        ensures
            r == self.spec_has_kerning(),
    {
        let empty = self.kerning_pairs.is_empty();
        proof {
            if self.spec_has_kerning() {
                let k = choose|k: u32| self.kerning_pairs@.contains_key(k);
                assert(self.kerning_pairs@.dom().contains(k));
            } else {
                assert(self.kerning_pairs@.dom() =~= Set::<u32>::empty());
            }
        }
        !empty
    }

    /// How many EM-square units make up the reference height of this
    /// font's coordinates.
    pub fn scale(&self) -> (r: u32)
        ensures
            r == self.scale,
    {
        self.scale
    }

    /// The identity of the font.
    pub fn descriptor(&self) -> (r: &FontDescriptor)
        ensures
            *r == self.descriptor,
    {
        &self.descriptor
    }
}

/// Whether the font has a glyph for every character of `s` from unit
/// index `i` on.
pub open spec fn has_all_glyphs(f: Font, s: Seq<u16>, i: int) -> bool
    decreases s.len() - i,
{
    if i < 0 || i >= s.len() {
        true
    } else {
        f.resolves(crate::text::char_at(s, s.len() as int, i)) && has_all_glyphs(
            f,
            s,
            i + crate::text::step_at(s, s.len() as int, i),
        )
    }
}

/// Whether the character walk over `s` (window ending at `to`) that
/// starts at unit index `j` reaches unit index `i`: the positions so
/// reached from zero are exactly the characters of the run.
pub open spec fn scan_reaches(s: Seq<u16>, to: int, j: int, i: int) -> bool
    decreases to - j,
{
    j == i || (j < i && j < to && scan_reaches(s, to, j + crate::text::step_at(s, to, j), i))
}

/// One half of what `has_glyphs_for_str` means: when it holds of a run,
/// every character of the run — every position the character walk
/// reaches — resolves to a glyph, so the per-character lookup succeeds
/// there.
pub proof fn lemma_has_all_glyphs_at(f: Font, s: Seq<u16>, j: int, i: int)
    requires
        0 <= j,
        has_all_glyphs(f, s, j),
        scan_reaches(s, s.len() as int, j, i),
        i < s.len(),
    ensures
        f.resolves(crate::text::char_at(s, s.len() as int, i)),
    decreases s.len() - j,
{
    if j != i {
        lemma_has_all_glyphs_at(f, s, j + crate::text::step_at(s, s.len() as int, j), i);
    }
}

/// The other half: when every character of the run — every position the
/// character walk reaches — resolves to a glyph, `has_glyphs_for_str`
/// holds of it.
pub proof fn lemma_all_chars_have_glyphs(f: Font, s: Seq<u16>, j: int)
    requires
        0 <= j,
        forall|i: int|
            j <= i < s.len() && scan_reaches(s, s.len() as int, j, i) ==> f.resolves(
                crate::text::char_at(s, s.len() as int, i),
            ),
    ensures
        has_all_glyphs(f, s, j),
    decreases s.len() - j,
{
    let len = s.len() as int;
    if j < len {
        let step = crate::text::step_at(s, len, j);
        assert(scan_reaches(s, len, j, j));
        assert forall|i: int|
            j + step <= i < len && scan_reaches(s, len, j + step, i) implies f.resolves(
            crate::text::char_at(s, len, i),
        ) by {
            assert(scan_reaches(s, len, j, i));
        }
        lemma_all_chars_have_glyphs(f, s, j + step);
    }
}

} // verus!
