//! Tests of the color conversion and the style translation: the opacity
//! round trip, pen and brush derivation, and the font parameter mapping.

use plotters_wxdragon::backend::WxBackend;
use plotters_wxdragon::color::Rgba;
use plotters_wxdragon::style::{
    point_size, BrushStyleKind, FontFamily, FontStyle, LineStyle, NativeFontFamily,
    NativeFontStyle, NativeFontWeight, PenStyleKind, TextStyle,
};
use plotters_wxdragon::text::{HPos, Rotation, VPos};

/// The abstract-to-native opacity conversion the unverified shell performs:
/// the unit-interval opacity scaled by 255 and rounded to nearest.
fn alpha_to_channel(alpha: f64) -> u8 {
    (alpha * 255.0).round() as u8
}

#[test]
fn color_round_trip_preserves_every_channel_value() {
    for c in 0u16..=255 {
        let c = c as u8;
        // native -> abstract: the channel becomes the fraction c / 255.
        let alpha = c as f64 / 255.0;
        // abstract -> native again: rounding must give back the channel.
        assert_eq!(alpha_to_channel(alpha), c);
    }
}

#[test]
fn color_conversion_is_accurate_to_half_a_channel_step() {
    let mut alpha = 0.0f64;
    while alpha <= 1.0 {
        let c = alpha_to_channel(alpha);
        let back = c as f64 / 255.0;
        assert!((alpha - back).abs() <= 0.5 / 255.0 + 1e-12);
        alpha += 0.001;
    }
}

#[test]
fn color_conversion_rounds_to_nearest() {
    assert_eq!(alpha_to_channel(0.0), 0);
    assert_eq!(alpha_to_channel(1.0), 255);
    assert_eq!(alpha_to_channel(0.5), 128);
    // 0.6 * 255 = 153.0 exactly.
    assert_eq!(alpha_to_channel(0.6), 153);
    // Just below and above a rounding boundary: 0.5 / 255 = 0.00196...
    assert_eq!(alpha_to_channel(0.0019), 0);
    assert_eq!(alpha_to_channel(0.0020), 1);
}

#[test]
fn white_is_fully_opaque() {
    assert_eq!(Rgba::white(), Rgba { r: 255, g: 255, b: 255, a: 255 });
}

#[test]
fn pen_keeps_color_and_width_and_is_solid() {
    let (b, _) = WxBackend::new();
    let style = LineStyle { color: Rgba { r: 10, g: 20, b: 30, a: 255 }, stroke_width: 3 };
    let pen = b.set_pen_style(&style);
    assert_eq!(pen.color, style.color);
    assert_eq!(pen.width, 3);
    assert_eq!(pen.style, PenStyleKind::Solid);
}

#[test]
fn brush_is_solid_when_filling_and_transparent_otherwise() {
    let (b, _) = WxBackend::new();
    let color = Rgba { r: 1, g: 2, b: 3, a: 4 };
    let solid = b.set_brush_style(true, color);
    assert_eq!(solid.style, BrushStyleKind::Solid);
    assert_eq!(solid.color, color);
    let hollow = b.set_brush_style(false, color);
    assert_eq!(hollow.style, BrushStyleKind::Transparent);
    assert_eq!(hollow.color, color);
}

#[test]
fn point_size_is_three_fifths_rounded() {
    assert_eq!(point_size(32), 19); // 19.2 rounds down
    assert_eq!(point_size(33), 20); // 19.8 rounds up
    assert_eq!(point_size(10), 6);
    assert_eq!(point_size(5), 3);
    assert_eq!(point_size(1), 1); // 0.6 rounds up
    assert_eq!(point_size(0), 0);
}

fn text_style(family: FontFamily, style: FontStyle) -> TextStyle {
    TextStyle {
        color: Rgba { r: 0, g: 0, b: 0, a: 255 },
        size: 32,
        family,
        style,
        h_pos: HPos::Left,
        v_pos: VPos::Top,
        rotation: Rotation::Rotate0,
    }
}

#[test]
fn font_family_mapping() {
    let (b, _) = WxBackend::new();
    let mono = b.set_font_style(&text_style(FontFamily::Monospace, FontStyle::Normal));
    assert_eq!(mono.font.family, NativeFontFamily::Teletype);
    assert_eq!(mono.font.face_name, "None");
    let sans = b.set_font_style(&text_style(FontFamily::SansSerif, FontStyle::Normal));
    assert_eq!(sans.font.family, NativeFontFamily::Swiss);
    assert_eq!(sans.font.face_name, "None");
    let serif = b.set_font_style(&text_style(FontFamily::Serif, FontStyle::Normal));
    assert_eq!(serif.font.family, NativeFontFamily::Roman);
    assert_eq!(serif.font.face_name, "None");
    let named =
        b.set_font_style(&text_style(FontFamily::Name("Courier New".to_owned()), FontStyle::Normal));
    assert_eq!(named.font.family, NativeFontFamily::Default);
    assert_eq!(named.font.face_name, "Courier New");
}

#[test]
fn font_style_and_weight_mapping() {
    let (b, _) = WxBackend::new();
    let bold = b.set_font_style(&text_style(FontFamily::Monospace, FontStyle::Bold));
    assert_eq!(bold.font.style, NativeFontStyle::Normal);
    assert_eq!(bold.font.weight, NativeFontWeight::Bold);
    let italic = b.set_font_style(&text_style(FontFamily::Monospace, FontStyle::Italic));
    assert_eq!(italic.font.style, NativeFontStyle::Italic);
    assert_eq!(italic.font.weight, NativeFontWeight::Normal);
    let normal = b.set_font_style(&text_style(FontFamily::Monospace, FontStyle::Normal));
    assert_eq!(normal.font.style, NativeFontStyle::Normal);
    assert_eq!(normal.font.weight, NativeFontWeight::Normal);
    let oblique = b.set_font_style(&text_style(FontFamily::Monospace, FontStyle::Oblique));
    assert_eq!(oblique.font.style, NativeFontStyle::Slant);
    assert_eq!(oblique.font.weight, NativeFontWeight::Normal);
    assert!(!bold.font.underlined);
    assert!(!italic.font.underlined);
}

#[test]
fn font_point_size_uses_the_calibration_coefficient() {
    let (b, _) = WxBackend::new();
    let calls = b.set_font_style(&text_style(FontFamily::Monospace, FontStyle::Normal));
    // size 32 at the reference resolution: 32 * 3/5 = 19.2, rounded to 19.
    assert_eq!(calls.font.point_size, 19);
}

#[test]
fn text_background_follows_the_canvas_background() {
    let (mut b, _) = WxBackend::new();
    let white = b.set_font_style(&text_style(FontFamily::Monospace, FontStyle::Normal));
    assert_eq!(white.text_background, Rgba { r: 255, g: 255, b: 255, a: 255 });
    let navy = Rgba { r: 0, g: 0, b: 96, a: 255 };
    b.set_background_color(navy);
    let dark = b.set_font_style(&text_style(FontFamily::Monospace, FontStyle::Normal));
    assert_eq!(dark.text_background, navy);
    assert_eq!(dark.text_foreground, Rgba { r: 0, g: 0, b: 0, a: 255 });
}
