//! Line-wrapping behaviour over a fixed-advance test font: every glyph
//! (space and lower-case letters) advances 512 EM units, so at a height
//! of 12 pixels (240 twips, scale 1024) each character is 120 twips wide.

use font_layout::descriptor::FontDescriptor;
use font_layout::font::{Font, FontLayoutSource, FontSource};
use font_layout::glyph::GlyphSource;
use font_layout::params::EvalParameters;
use font_layout::twips::Twips;

fn swf_glyph(code: u16, advance: u16) -> swf::Glyph {
    swf::Glyph { shape_records: Vec::new(), code, advance, bounds: None }
}

fn test_font() -> Font {
    let mut glyphs = Vec::new();
    let mut codes: Vec<u16> = vec![32];
    for c in 97u16..123u16 {
        codes.push(c);
    }
    for code in codes {
        glyphs.push(GlyphSource { code, advance: 512, record: swf_glyph(code, 512) });
    }
    let source = FontSource {
        glyphs,
        layout: Some(FontLayoutSource {
            ascent: 600,
            descent: 200,
            leading: 50,
            kerning: Vec::new(),
        }),
        version: 1,
    };
    Font::from_source(source, FontDescriptor::from_parts("TestFont", false, false))
}

fn units(text: &str) -> Vec<u16> {
    text.bytes().map(|b| b as u16).collect()
}

fn params_12px() -> EvalParameters {
    EvalParameters::from_parts(Twips::from_pixels(12), Twips::from_pixels(0), true)
}

#[test]
fn wrap_line_no_breakpoint() {
    let df = test_font();
    let params = params_12px();
    let string = units("abcdefghijklmnopqrstuv");
    let breakpoint = df.wrap_line(
        &string,
        params,
        Twips::from_pixels(200),
        Twips::from_pixels(0),
        true,
    );

    assert_eq!(None, breakpoint);
}

#[test]
fn wrap_line_breakpoint_every_word() {
    let df = test_font();
    let params = params_12px();
    let string = units("abcd efgh ijkl mnop");
    let mut last_bp = 0;
    let breakpoint = df.wrap_line(
        &string,
        params,
        Twips::from_pixels(35),
        Twips::from_pixels(0),
        true,
    );

    assert_eq!(Some(4), breakpoint);

    last_bp += breakpoint.unwrap() + 1;

    let breakpoint2 = df.wrap_line(
        &string[last_bp..],
        params,
        Twips::from_pixels(35),
        Twips::from_pixels(0),
        true,
    );

    assert_eq!(Some(4), breakpoint2);

    last_bp += breakpoint2.unwrap() + 1;

    let breakpoint3 = df.wrap_line(
        &string[last_bp..],
        params,
        Twips::from_pixels(35),
        Twips::from_pixels(0),
        true,
    );

    assert_eq!(Some(4), breakpoint3);

    last_bp += breakpoint3.unwrap() + 1;

    let breakpoint4 = df.wrap_line(
        &string[last_bp..],
        params,
        Twips::from_pixels(35),
        Twips::from_pixels(0),
        true,
    );

    assert_eq!(None, breakpoint4);
}

#[test]
fn wrap_line_breakpoint_no_room() {
    let df = test_font();
    let params = params_12px();
    let string = units("abcd efgh ijkl mnop");
    let breakpoint = df.wrap_line(
        &string,
        params,
        Twips::from_pixels(30),
        Twips::from_pixels(29),
        false,
    );

    assert_eq!(Some(0), breakpoint);
}

#[test]
fn wrap_line_breakpoint_irregular_sized_words() {
    let df = test_font();
    let params = params_12px();
    let string = units("abcdi j kl mnop q rstuv");
    let mut last_bp = 0;
    let breakpoint = df.wrap_line(
        &string,
        params,
        Twips::from_pixels(37),
        Twips::from_pixels(0),
        true,
    );

    assert_eq!(Some(5), breakpoint);

    last_bp += breakpoint.unwrap() + 1;

    let breakpoint2 = df.wrap_line(
        &string[last_bp..],
        params,
        Twips::from_pixels(37),
        Twips::from_pixels(0),
        true,
    );

    assert_eq!(Some(4), breakpoint2);

    last_bp += breakpoint2.unwrap() + 1;

    let breakpoint3 = df.wrap_line(
        &string[last_bp..],
        params,
        Twips::from_pixels(37),
        Twips::from_pixels(0),
        true,
    );

    assert_eq!(Some(4), breakpoint3);

    last_bp += breakpoint3.unwrap() + 1;

    let breakpoint4 = df.wrap_line(
        &string[last_bp..],
        params,
        Twips::from_pixels(37),
        Twips::from_pixels(0),
        true,
    );

    assert_eq!(Some(1), breakpoint4);

    last_bp += breakpoint4.unwrap() + 1;

    let breakpoint5 = df.wrap_line(
        &string[last_bp..],
        params,
        Twips::from_pixels(37),
        Twips::from_pixels(0),
        true,
    );

    assert_eq!(None, breakpoint5);
}

#[test]
fn wrap_line_zero_room_when_offset_exceeds_width() {
    let df = test_font();
    let params = params_12px();
    let string = units("a");
    let breakpoint = df.wrap_line(
        &string,
        params,
        Twips::from_pixels(30),
        Twips::from_pixels(31),
        true,
    );

    assert_eq!(Some(0), breakpoint);
}

#[test]
fn wrap_line_overlong_word_char_fallback() {
    let df = test_font();
    let params = params_12px();
    // One word of eight 120-twip characters (960 twips) against 500
    // twips of room: the fallback scans prefixes and cuts after the
    // last one measuring strictly under 500 twips ("abcd", 480).
    let string = units("abcdefgh");
    let breakpoint = df.wrap_line(&string, params, Twips::new(500), Twips::new(0), true);

    assert_eq!(Some(4), breakpoint);
}

#[test]
fn wrap_line_overlong_word_first_char_too_wide() {
    let df = test_font();
    let params = params_12px();
    // Even the first character (120 twips) reaches the 100 twips of
    // room, so the fallback cannot make progress and breaks at zero.
    let string = units("abcdefgh");
    let breakpoint = df.wrap_line(&string, params, Twips::new(100), Twips::new(0), true);

    assert_eq!(Some(0), breakpoint);
}

#[test]
fn wrap_line_empty_text_fits() {
    let df = test_font();
    let params = params_12px();
    let string: Vec<u16> = Vec::new();
    let breakpoint = df.wrap_line(
        &string,
        params,
        Twips::from_pixels(30),
        Twips::from_pixels(30),
        true,
    );

    assert_eq!(None, breakpoint);
}

#[test]
fn wrap_line_word_exactly_filling_room_fits() {
    let df = test_font();
    let params = params_12px();
    // "abcd" with its separator measures 600 twips: the checks use a
    // strict comparison, so a word exactly as wide as the room fits.
    let string = units("abcd x");
    let breakpoint = df.wrap_line(&string, params, Twips::new(600), Twips::new(0), true);

    assert_eq!(Some(4), breakpoint);
}
