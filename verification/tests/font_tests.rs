//! Glyph lookup, measurement, metrics, kerning, caches, and the small
//! value types.

use font_layout::descriptor::FontDescriptor;
use font_layout::font::{Font, FontLayoutSource, FontSource, KerningPair};
use font_layout::glyph::{Glyph, GlyphSource, ShapeHandle};
use font_layout::params::{EvalParameters, TextSpan};
use font_layout::render::{TextGridFit, TextRenderSettings};
use font_layout::twips::{round_down_to_pixel, Twips};

fn swf_glyph(code: u16, advance: u16) -> swf::Glyph {
    swf::Glyph { shape_records: Vec::new(), code, advance, bounds: None }
}

fn letter_font() -> Font {
    let mut glyphs = Vec::new();
    let mut codes: Vec<u16> = vec![32];
    for c in 97u16..123u16 {
        codes.push(c);
    }
    for code in codes {
        glyphs.push(GlyphSource { code, advance: 512, record: swf_glyph(code, 512) });
    }
    let source = FontSource {
        glyphs,
        layout: Some(FontLayoutSource {
            ascent: 600,
            descent: 200,
            leading: 50,
            kerning: Vec::new(),
        }),
        version: 1,
    };
    Font::from_source(source, FontDescriptor::from_parts("TestFont", false, false))
}

fn kerned_font() -> Font {
    // 'A' and 'V', 512 EM units each, with a -64 EM kerning adjustment
    // for the pair (A, V); a later format version, so scale 20480.
    let glyphs = vec![
        GlyphSource { code: 65, advance: 512, record: swf_glyph(65, 512) },
        GlyphSource { code: 86, advance: 512, record: swf_glyph(86, 512) },
    ];
    let source = FontSource {
        glyphs,
        layout: Some(FontLayoutSource {
            ascent: 0,
            descent: 0,
            leading: 0,
            kerning: vec![KerningPair { left_code: 65, right_code: 86, adjustment: Twips::new(-64) }],
        }),
        version: 3,
    };
    Font::from_source(source, FontDescriptor::from_parts("Kerned", false, false))
}

fn units(text: &str) -> Vec<u16> {
    text.bytes().map(|b| b as u16).collect()
}

fn params_12px() -> EvalParameters {
    EvalParameters::from_parts(Twips::from_pixels(12), Twips::from_pixels(0), true)
}

#[test]
fn glyph_lookup_by_char() {
    let font = letter_font();
    let glyph = font.get_glyph_for_char('a').expect("glyph for 'a'");
    assert_eq!(97, glyph.source.code);
    assert_eq!(512, glyph.source.advance);
    assert!(font.get_glyph_for_char('A').is_none());
    assert!(font.get_glyph_for_char('\u{1F600}').is_none());
}

#[test]
fn glyph_lookup_by_index() {
    let font = letter_font();
    assert_eq!(32, font.get_glyph(0).expect("glyph 0").source.code);
    assert_eq!(97, font.get_glyph(1).expect("glyph 1").source.code);
    assert!(font.get_glyph(27).is_none());
    assert!(font.has_glyphs());
}

#[test]
fn later_glyph_for_same_code_wins() {
    let glyphs = vec![
        GlyphSource { code: 65, advance: 512, record: swf_glyph(65, 512) },
        GlyphSource { code: 65, advance: 300, record: swf_glyph(65, 300) },
    ];
    let source = FontSource { glyphs, layout: None, version: 1 };
    let font = Font::from_source(source, FontDescriptor::from_parts("Dup", false, false));
    let glyph = font.get_glyph_for_char('A').expect("glyph for 'A'");
    assert_eq!(300, glyph.source.advance);
}

#[test]
fn empty_font_has_no_glyphs() {
    let source = FontSource { glyphs: Vec::new(), layout: None, version: 1 };
    let font = Font::from_source(source, FontDescriptor::from_parts("Empty", false, false));
    assert!(!font.has_glyphs());
    assert!(!font.has_kerning_info());
    assert_eq!(1024, font.scale());
}

#[test]
fn has_glyphs_for_str_checks_every_char() {
    let font = letter_font();
    assert!(font.has_glyphs_for_str(&units("abc xyz")));
    assert!(!font.has_glyphs_for_str(&units("abc0")));
    assert!(font.has_glyphs_for_str(&[]));
    // A lone surrogate stands for the replacement character, which the
    // font has no glyph for.
    assert!(!font.has_glyphs_for_str(&[0xD800]));
}

#[test]
fn supplementary_chars_resolve_to_no_glyph() {
    // The pair D835 DC00 decodes to U+1D400, beyond the 16-bit range the
    // font's tables cover: it resolves to no glyph even in a font that
    // holds the low sixteen bits of that code point, and it contributes
    // no width. A lone surrogate stands for the replacement character,
    // which is looked up normally.
    let glyphs = vec![
        GlyphSource { code: 0xD400, advance: 512, record: swf_glyph(0xD400, 512) },
        GlyphSource { code: 0xFFFD, advance: 512, record: swf_glyph(0xFFFD, 512) },
    ];
    let source = FontSource { glyphs, layout: None, version: 1 };
    let font = Font::from_source(source, FontDescriptor::from_parts("Pair", false, false));
    assert!(font.get_glyph_for_char('\u{1D400}').is_none());
    assert!(!font.has_glyphs_for_str(&[0xD835, 0xDC00]));
    assert!(font.has_glyphs_for_str(&[0xD835]));
    let params = EvalParameters::from_parts(Twips::from_pixels(12), Twips::from_pixels(0), true);
    let (width, height) = font.measure(&[0xD835, 0xDC00], params, false);
    assert_eq!(Twips::new(0), width);
    assert_eq!(Twips::new(0), height);
    assert_eq!(0, font.evaluate(&[0xD835, 0xDC00], Twips::new(0), Twips::new(0), params).len());
}

#[test]
fn measure_empty_line_reserves_height() {
    let font = letter_font();
    let (width, height) = font.measure(&[], params_12px(), false);
    assert_eq!(Twips::new(0), width);
    assert_eq!(Twips::from_pixels(12), height);
}

#[test]
fn measure_simple_run() {
    let font = letter_font();
    let (width, height) = font.measure(&units("abc"), params_12px(), false);
    // Each glyph advances floor(512 * 240 / 1024) = 120 twips.
    assert_eq!(Twips::new(360), width);
    assert_eq!(Twips::new(240), height);
}

#[test]
fn measure_skips_unresolved_chars() {
    let font = letter_font();
    let (width, height) = font.measure(&units("a0b"), params_12px(), false);
    assert_eq!(Twips::new(240), width);
    assert_eq!(Twips::new(240), height);
    // A run of nothing but unresolved characters has no extent at all.
    let (w2, h2) = font.measure(&units("00"), params_12px(), false);
    assert_eq!(Twips::new(0), w2);
    assert_eq!(Twips::new(0), h2);
}

#[test]
fn measure_with_rounding_floors_to_pixels() {
    let font = letter_font();
    // At 250 twips of height each advance is floor(512 * 250 / 1024) =
    // 125 twips; rounding floors each extent to a whole pixel.
    let params = EvalParameters::from_parts(Twips::new(250), Twips::new(0), true);
    let (width, height) = font.measure(&units("ab"), params, true);
    assert_eq!(Twips::new(240), width);
    assert_eq!(Twips::new(240), height);
    let (w2, h2) = font.measure(&units("ab"), params, false);
    assert_eq!(Twips::new(250), w2);
    assert_eq!(Twips::new(250), h2);
}

#[test]
fn measure_applies_letter_spacing_after_scaling() {
    let font = letter_font();
    let params = EvalParameters::from_parts(Twips::from_pixels(12), Twips::new(7), true);
    let (width, _) = font.measure(&units("ab"), params, false);
    assert_eq!(Twips::new(254), width);
}

#[test]
fn kerning_adjusts_adjacent_pair() {
    let font = kerned_font();
    assert!(font.has_kerning_info());
    // At a height equal to the scale constant the EM values pass
    // through unscaled: 512 - 64 for the kerned 'A', then 512.
    let params = EvalParameters::from_parts(Twips::new(20480), Twips::new(0), true);
    let (width, _) = font.measure(&units("AV"), params, false);
    assert_eq!(Twips::new(960), width);
    // Reversed, the pair is absent and nothing is adjusted.
    let (w2, _) = font.measure(&units("VA"), params, false);
    assert_eq!(Twips::new(1024), w2);
}

#[test]
fn kerning_disabled_contributes_nothing() {
    let font = kerned_font();
    let params = EvalParameters::from_parts(Twips::new(20480), Twips::new(0), false);
    let (width, _) = font.measure(&units("AV"), params, false);
    assert_eq!(Twips::new(1024), width);
}

#[test]
fn kerning_offset_lookup() {
    let font = kerned_font();
    assert_eq!(Twips::new(-64), font.get_kerning_offset('A', 'V'));
    assert_eq!(Twips::new(0), font.get_kerning_offset('V', 'A'));
    let plain = letter_font();
    assert_eq!(Twips::new(0), plain.get_kerning_offset('a', 'b'));
    assert!(!plain.has_kerning_info());
}

#[test]
fn evaluate_places_each_resolvable_glyph() {
    let font = letter_font();
    let placements = font.evaluate(
        &units("a0b"),
        Twips::new(10),
        Twips::new(20),
        params_12px(),
    );
    assert_eq!(2, placements.len());
    assert_eq!(0, placements[0].pos);
    assert_eq!(1, placements[0].glyph_index);
    assert_eq!(Twips::new(0), placements[0].x);
    assert_eq!(Twips::new(120), placements[0].advance);
    assert_eq!(Twips::new(10), placements[0].tx);
    assert_eq!(Twips::new(260), placements[0].ty);
    assert_eq!(2, placements[1].pos);
    assert_eq!(2, placements[1].glyph_index);
    assert_eq!(Twips::new(120), placements[1].x);
    assert_eq!(Twips::new(130), placements[1].tx);
    assert_eq!(Twips::new(260), placements[1].ty);
}

#[test]
fn metrics_scale_with_height() {
    let font = letter_font();
    let height = Twips::from_pixels(12);
    assert_eq!(Twips::new(140), font.get_baseline_for_height(height));
    assert_eq!(Twips::new(46), font.get_descent_for_height(height));
    assert_eq!(Twips::new(11), font.get_leading_for_height(height));
}

#[test]
fn negative_leading_truncates_toward_zero() {
    let glyphs = vec![GlyphSource { code: 65, advance: 512, record: swf_glyph(65, 512) }];
    let source = FontSource {
        glyphs,
        layout: Some(FontLayoutSource {
            ascent: 0,
            descent: 0,
            leading: -50,
            kerning: Vec::new(),
        }),
        version: 1,
    };
    let font = Font::from_source(source, FontDescriptor::from_parts("Neg", false, false));
    assert_eq!(Twips::new(-11), font.get_leading_for_height(Twips::from_pixels(12)));
}

#[test]
fn font_without_layout_has_zero_metrics() {
    let glyphs = vec![GlyphSource { code: 65, advance: 512, record: swf_glyph(65, 512) }];
    let source = FontSource { glyphs, layout: None, version: 3 };
    let font = Font::from_source(source, FontDescriptor::from_parts("Bare", false, false));
    assert_eq!(20480, font.scale());
    assert_eq!(Twips::new(0), font.get_baseline_for_height(Twips::from_pixels(12)));
    assert_eq!(Twips::new(0), font.get_descent_for_height(Twips::from_pixels(12)));
    assert_eq!(Twips::new(0), font.get_leading_for_height(Twips::from_pixels(12)));
    assert!(!font.has_kerning_info());
}

#[test]
fn round_down_to_pixel_floors() {
    assert_eq!(Twips::new(40), round_down_to_pixel(Twips::new(40)));
    assert_eq!(Twips::new(0), round_down_to_pixel(Twips::new(19)));
    assert_eq!(Twips::new(-20), round_down_to_pixel(Twips::new(-1)));
    assert_eq!(Twips::new(-20), round_down_to_pixel(Twips::new(-20)));
}

#[test]
fn descriptor_truncates_name_at_nul() {
    let desc = FontDescriptor::from_parts("Arial\0Extra", true, false);
    assert_eq!("Arial", desc.class());
    assert!(desc.bold());
    assert!(!desc.italic());
    let plain = FontDescriptor::from_parts("Times", false, true);
    assert_eq!("Times", plain.class());
    assert!(plain.italic());
}

#[test]
fn descriptor_is_returned_by_font() {
    let font = letter_font();
    assert_eq!("TestFont", font.descriptor().class());
}

#[test]
fn eval_parameters_from_span() {
    let span = TextSpan {
        size: Twips::from_pixels(12),
        letter_spacing: Twips::new(5),
        kerning: true,
    };
    let params = EvalParameters::from_span(&span);
    assert_eq!(Twips::from_pixels(12), params.height());
    let direct = EvalParameters::from_parts(Twips::from_pixels(12), Twips::new(5), true);
    assert_eq!(direct, params);
}

#[test]
fn glyph_handle_cache_populates_once() {
    let mut glyph = Glyph::new(GlyphSource { code: 65, advance: 512, record: swf_glyph(65, 512) });
    assert!(glyph.cached_handle().is_none());
    glyph.install_handle(ShapeHandle(7));
    assert_eq!(Some(ShapeHandle(7)), glyph.cached_handle());
    glyph.install_handle(ShapeHandle(9));
    assert_eq!(Some(ShapeHandle(7)), glyph.cached_handle());
}

#[test]
fn glyph_shape_cache_populates_once() {
    let mut glyph = Glyph::new(GlyphSource { code: 65, advance: 512, record: swf_glyph(65, 512) });
    assert!(glyph.cached_shape().is_none());
    glyph.install_shape(test_shape(1));
    assert_eq!(1, glyph.cached_shape().expect("cached shape").id);
    glyph.install_shape(test_shape(2));
    assert_eq!(1, glyph.cached_shape().expect("cached shape").id);
}

fn test_shape(id: u16) -> swf::Shape {
    let empty_rect = swf::Rectangle {
        x_min: swf::Twips::ZERO,
        x_max: swf::Twips::ZERO,
        y_min: swf::Twips::ZERO,
        y_max: swf::Twips::ZERO,
    };
    swf::Shape {
        version: 1,
        id,
        shape_bounds: empty_rect.clone(),
        edge_bounds: empty_rect,
        flags: swf::ShapeFlag::empty(),
        styles: swf::ShapeStyles { fill_styles: Vec::new(), line_styles: Vec::new() },
        shape: Vec::new(),
    }
}

#[test]
fn render_settings_default_and_switching() {
    let default = TextRenderSettings::default();
    assert!(!default.is_advanced());
    assert_eq!(TextGridFit::Pixel, default.grid_fit());
    assert_eq!(0, default.thickness());
    assert_eq!(0, default.sharpness());

    let advanced = default.with_advanced_rendering();
    assert!(advanced.is_advanced());
    assert_eq!(TextGridFit::Pixel, advanced.grid_fit());

    let back = advanced.with_normal_rendering();
    assert!(!back.is_advanced());
    assert_eq!(TextRenderSettings::default(), back);
}

#[test]
fn render_settings_replace_one_field() {
    let settings = TextRenderSettings::default()
        .with_sharpness(0x3F800000)
        .with_thickness(0x40000000)
        .with_grid_fit(TextGridFit::SubPixel);
    assert!(!settings.is_advanced());
    assert_eq!(0x3F800000, settings.sharpness());
    assert_eq!(0x40000000, settings.thickness());
    assert_eq!(TextGridFit::SubPixel, settings.grid_fit());

    let advanced = settings.with_advanced_rendering();
    assert_eq!(0x3F800000, advanced.sharpness());
    assert_eq!(0x40000000, advanced.thickness());
    assert_eq!(TextGridFit::SubPixel, advanced.grid_fit());
}
