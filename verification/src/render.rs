//! The render-mode descriptor: which text rendering engine a text field
//! should use, and the retained anti-aliasing parameters.

use vstd::prelude::*;

verus! {

/// A hint for aligning glyph outlines to pixel boundaries.
#[derive(Clone, Copy, PartialEq, Eq, Structural, Debug)]
pub enum TextGridFit {
    NoFit,
    Pixel,
    SubPixel,
}

/// The text rendering engine that a text field should use, with the
/// parameters the advanced engine is configured by.
///
/// `thickness` and `sharpness` are retained as the raw bit patterns of
/// the 32-bit float values the settings record carries: this core only
/// stores and returns them, and never computes with them, so switching
/// engines or replacing one parameter preserves the others bit for bit.
#[derive(Clone, PartialEq, Eq, Structural, Debug)]
pub enum TextRenderSettings {
    /// This text should render with the standard rendering engine.
    ///
    /// `grid_fit`, `thickness`, and `sharpness` are present because they
    /// are retained when switching from `Advanced` to `Normal` rendering
    /// and vice versa. They are not used in `Normal` rendering.
    Normal { grid_fit: TextGridFit, thickness: u32, sharpness: u32 },

    /// This text should render with the advanced rendering engine, whose
    /// parameters also affect hit-testing behavior.
    Advanced { grid_fit: TextGridFit, thickness: u32, sharpness: u32 },
}

impl TextRenderSettings {
    /// The grid-fit hint, whichever engine is selected.
    pub open spec fn spec_grid_fit(self) -> TextGridFit {
        match self {
            TextRenderSettings::Normal { grid_fit, .. } => grid_fit,
            TextRenderSettings::Advanced { grid_fit, .. } => grid_fit,
        }
    }

    /// The retained thickness bits, whichever engine is selected.
    pub open spec fn spec_thickness(self) -> u32 {
        match self {
            TextRenderSettings::Normal { thickness, .. } => thickness,
            TextRenderSettings::Advanced { thickness, .. } => thickness,
        }
    }

    /// The retained sharpness bits, whichever engine is selected.
    pub open spec fn spec_sharpness(self) -> u32 {
        match self {
            TextRenderSettings::Normal { sharpness, .. } => sharpness,
            TextRenderSettings::Advanced { sharpness, .. } => sharpness,
        }
    }

    /// Whether the advanced engine is selected.
    pub fn is_advanced(&self) -> (r: bool)
        ensures
            r == (self is Advanced),
    {
        matches!(self, TextRenderSettings::Advanced { .. })
    }

    /// Switch to the advanced engine, carrying every parameter over
    /// unchanged.
    pub fn with_advanced_rendering(self) -> (r: Self)
        ensures
            r == (TextRenderSettings::Advanced {
                grid_fit: self.spec_grid_fit(),
                thickness: self.spec_thickness(),
                sharpness: self.spec_sharpness(),
            }),
    {
        match self {
            TextRenderSettings::Advanced { .. } => self,
            TextRenderSettings::Normal { grid_fit, thickness, sharpness } => {
                TextRenderSettings::Advanced { grid_fit, thickness, sharpness }
            },
        }
    }

    /// Switch to the standard engine, carrying every parameter over
    /// unchanged.
    pub fn with_normal_rendering(self) -> (r: Self)
        ensures
            r == (TextRenderSettings::Normal {
                grid_fit: self.spec_grid_fit(),
                thickness: self.spec_thickness(),
                sharpness: self.spec_sharpness(),
            }),
    {
        match self {
            TextRenderSettings::Normal { .. } => self,
            TextRenderSettings::Advanced { grid_fit, thickness, sharpness } => {
                TextRenderSettings::Normal { grid_fit, thickness, sharpness }
            },
        }
    }

    /// The retained sharpness, as the bit pattern of its 32-bit float.
    pub fn sharpness(&self) -> (r: u32)
        ensures
            r == self.spec_sharpness(),
    {
        match self {
            TextRenderSettings::Normal { sharpness, .. } => *sharpness,
            TextRenderSettings::Advanced { sharpness, .. } => *sharpness,
        }
    }

    /// Replace the sharpness, preserving the engine selection and the
    /// other parameters.
    pub fn with_sharpness(self, sharpness: u32) -> (r: Self)
        ensures
            r is Advanced <==> self is Advanced,
            r.spec_grid_fit() == self.spec_grid_fit(),
            r.spec_thickness() == self.spec_thickness(),
            r.spec_sharpness() == sharpness,
    {
        match self {
            TextRenderSettings::Normal { grid_fit, thickness, sharpness: _ } => {
                TextRenderSettings::Normal { grid_fit, thickness, sharpness }
            },
            TextRenderSettings::Advanced { grid_fit, thickness, sharpness: _ } => {
                TextRenderSettings::Advanced { grid_fit, thickness, sharpness }
            },
        }
    }

    /// The retained thickness, as the bit pattern of its 32-bit float.
    pub fn thickness(&self) -> (r: u32)
        ensures
            r == self.spec_thickness(),
    {
        match self {
            TextRenderSettings::Normal { thickness, .. } => *thickness,
            TextRenderSettings::Advanced { thickness, .. } => *thickness,
        }
    }

    /// Replace the thickness, preserving the engine selection and the
    /// other parameters.
    pub fn with_thickness(self, thickness: u32) -> (r: Self)
        ensures
            r is Advanced <==> self is Advanced,
            r.spec_grid_fit() == self.spec_grid_fit(),
            r.spec_thickness() == thickness,
            r.spec_sharpness() == self.spec_sharpness(),
    {
        match self {
            TextRenderSettings::Normal { grid_fit, thickness: _, sharpness } => {
                TextRenderSettings::Normal { grid_fit, thickness, sharpness }
            },
            TextRenderSettings::Advanced { grid_fit, thickness: _, sharpness } => {
                TextRenderSettings::Advanced { grid_fit, thickness, sharpness }
            },
        }
    }

    /// The grid-fit hint.
    pub fn grid_fit(&self) -> (r: TextGridFit)
        ensures
            r == self.spec_grid_fit(),
    {
        match self {
            TextRenderSettings::Normal { grid_fit, .. } => *grid_fit,
            TextRenderSettings::Advanced { grid_fit, .. } => *grid_fit,
        }
    }

    /// Replace the grid-fit hint, preserving the engine selection and
    /// the other parameters.
    pub fn with_grid_fit(self, grid_fit: TextGridFit) -> (r: Self)
        ensures
            r is Advanced <==> self is Advanced,
            r.spec_grid_fit() == grid_fit,
            r.spec_thickness() == self.spec_thickness(),
            r.spec_sharpness() == self.spec_sharpness(),
    {
        match self {
            TextRenderSettings::Normal { grid_fit: _, thickness, sharpness } => {
                TextRenderSettings::Normal { grid_fit, thickness, sharpness }
            },
            TextRenderSettings::Advanced { grid_fit: _, thickness, sharpness } => {
                TextRenderSettings::Advanced { grid_fit, thickness, sharpness }
            },
        }
    }
}

impl Default for TextRenderSettings {
    /// The default: the standard engine, pixel grid fit, zero thickness
    /// and sharpness.
    fn default() -> (r: Self)
        ensures
            r == (TextRenderSettings::Normal {
                grid_fit: TextGridFit::Pixel,
                thickness: 0u32,
                sharpness: 0u32,
            }),
    {
        TextRenderSettings::Normal { grid_fit: TextGridFit::Pixel, thickness: 0, sharpness: 0 }
    }
}

} // verus!
