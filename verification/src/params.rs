//! Parameters necessary to evaluate a font over a run of text.

use vstd::prelude::*;
use crate::twips::Twips;

verus! {

/// The slice of a text span's formatting that layout consumes: the font
/// size, the extra letter spacing, and whether font kerning may be used.
/// The style collaborator that produces it is responsible for converting
/// fractional pixel sizes to twips.
#[derive(Clone, Copy, PartialEq, Eq, Structural, Debug)]
pub struct TextSpan {
    /// The font size of the span.
    pub size: Twips,

    /// Additional spacing inserted after every glyph of the span.
    pub letter_spacing: Twips,

    /// Whether the span allows use of font-provided kerning metrics.
    pub kerning: bool,
}

/// Parameters necessary to evaluate a font.
#[derive(Clone, Copy, PartialEq, Eq, Structural, Debug)]
pub struct EvalParameters {
    /// The height of each glyph, equivalent to a font size.
    pub height: Twips,

    /// Additional letter spacing to be added to or removed from each glyph
    /// after normal or kerned glyph advances are applied.
    pub letter_spacing: Twips,

    /// Whether or not to allow use of font-provided kerning metrics.
    ///
    /// Fonts can optionally add or remove additional spacing between
    /// specific pairs of letters, separate from the ordinary width between
    /// glyphs. This parameter allows enabling or disabling that feature.
    pub kerning: bool,
}

impl EvalParameters {
    /// Construct eval parameters from their individual parts.
    pub fn from_parts(height: Twips, letter_spacing: Twips, kerning: bool) -> (r: Self)
        ensures
            r == (EvalParameters { height, letter_spacing, kerning }),
    {
        Self { height, letter_spacing, kerning }
    }

    /// Convert the formatting on a text span over to font evaluation
    /// parameters.
    pub fn from_span(span: &TextSpan) -> (r: Self)
        ensures
            r == (EvalParameters {
                height: span.size,
                letter_spacing: span.letter_spacing,
                kerning: span.kerning,
            }),
    {
        Self { height: span.size, letter_spacing: span.letter_spacing, kerning: span.kerning }
    }

    /// Get the height that the font would be evaluated at.
    pub fn height(&self) -> (r: Twips)
        ensures
            r == self.height,
    {
        self.height
    }
}

} // verus!
