//! A font/glyph model and text-layout engine for a legacy vector-graphics
//! document format: glyph lookup by code point, kerning-adjusted advances,
//! text measurement, and greedy line wrapping with a character-level
//! fallback for over-wide words.

pub mod descriptor;
pub mod font;
pub mod glyph;
pub mod layout;
pub mod params;
pub mod render;
pub mod text;
pub mod twips;
pub mod wrap;

pub use descriptor::FontDescriptor;
pub use font::{Font, FontLayoutSource, FontSource, KerningPair};
pub use glyph::{Glyph, GlyphSource, ShapeHandle};
pub use layout::GlyphPlacement;
pub use params::{EvalParameters, TextSpan};
pub use render::{TextGridFit, TextRenderSettings};
pub use twips::{round_down_to_pixel, Twips};
