//! Style translation: abstract stroke, fill and font descriptors mapped to
//! the parameters of the native resource-setting calls.
//!
//! Each draw call on the backend derives these descriptors afresh from the
//! abstract style it was given, so the native pen, brush and font always
//! reflect the most recently supplied style and never a stale one.

use vstd::prelude::*;
use crate::color::Rgba;
use crate::text::{HPos, Rotation, VPos};

verus! {

/// The abstract stroke style a draw call carries: a color and a stroke
/// width in pixels.
#[derive(Clone, Copy, Debug, PartialEq, Eq, Structural)]
pub struct LineStyle {
    pub color: Rgba,
    pub stroke_width: u32,
}

/// Native pen line style. Only solid pens are required of this adapter: an
/// abstract dash pattern, if any, is ignored (a documented limitation).
#[derive(Clone, Copy, Debug, PartialEq, Eq, Structural)]
pub enum PenStyleKind {
    Solid,
}

/// The arguments of the native set-pen call.
#[derive(Clone, Copy, Debug, PartialEq, Eq, Structural)]
pub struct PenCall {
    pub color: Rgba,
    pub width: i32,
    pub style: PenStyleKind,
}

/// Native brush style: a solid fill, or a fully transparent brush so that
/// only outlines are drawn.
#[derive(Clone, Copy, Debug, PartialEq, Eq, Structural)]
pub enum BrushStyleKind {
    Solid,
    Transparent,
}

/// The arguments of the native set-brush call.
#[derive(Clone, Copy, Debug, PartialEq, Eq, Structural)]
pub struct BrushCall {
    pub color: Rgba,
    pub style: BrushStyleKind,
}

/// The pen a stroke style translates to: same color, the stroke width as a
/// native signed integer, and always a solid line.
pub open spec fn pen_of(style: LineStyle) -> PenCall {
    PenCall { color: style.color, width: style.stroke_width as i32, style: PenStyleKind::Solid }
}

/// The brush a fill request translates to: a solid brush of the given color
/// when filling, a fully transparent brush otherwise.
pub open spec fn brush_of(fill: bool, color: Rgba) -> BrushCall {
    BrushCall {
        color,
        style: if fill {
            BrushStyleKind::Solid
        } else {
            BrushStyleKind::Transparent
        },
    }
}

/// Abstract font family, as the plotting side describes it: one of three
/// generic families, or an explicit face name.
#[derive(Clone, Debug)]
pub enum FontFamily {
    Monospace,
    SansSerif,
    Serif,
    Name(String),
}

/// Abstract font style variant, as the plotting side describes it.
#[derive(Clone, Copy, Debug, PartialEq, Eq, Structural)]
pub enum FontStyle {
    Normal,
    Oblique,
    Italic,
    Bold,
}

/// Native generic font family.
#[derive(Clone, Copy, Debug, PartialEq, Eq, Structural)]
pub enum NativeFontFamily {
    /// No generic family; the face name decides.
    Default,
    /// Fixed-pitch family.
    Teletype,
    /// Generic sans-serif family.
    Swiss,
    /// Generic serif family.
    Roman,
}

/// Native font slant.
#[derive(Clone, Copy, Debug, PartialEq, Eq, Structural)]
pub enum NativeFontStyle {
    Normal,
    Italic,
    Slant,
}

/// Native font weight.
#[derive(Clone, Copy, Debug, PartialEq, Eq, Structural)]
pub enum NativeFontWeight {
    Normal,
    Bold,
}

/// The parameters of the native font-construction call.
#[derive(Clone, Debug, PartialEq, Eq)]
pub struct FontSpec {
    pub point_size: i32,
    pub family: NativeFontFamily,
    pub style: NativeFontStyle,
    pub weight: NativeFontWeight,
    pub underlined: bool,
    pub face_name: String,
}

/// The abstract text style a text call carries: color, logical size, family
/// and style of the font, plus the anchor alignment and rotation.
#[derive(Clone, Debug)]
pub struct TextStyle {
    pub color: Rgba,
    /// Logical font size in the plotting side's units.
    pub size: u32,
    pub family: FontFamily,
    pub style: FontStyle,
    pub h_pos: HPos,
    pub v_pos: VPos,
    pub rotation: Rotation,
}

/// The native point size for a logical size: the size scaled by 3/5 and
/// rounded to the nearest integer. The empirical 3/5 coefficient bridges the
/// constant factor by which native font-size semantics and the plotting
/// side's logical units disagree at the reference resolution of 96 dots per
/// inch; it must be kept exactly for rendering to match established
/// reference output.
pub open spec fn spec_point_size(size: int) -> int {
    (6 * size + 5) / 10
}

/// The native generic family an abstract family maps to. An explicit face
/// name takes priority: it rides on the default family.
pub open spec fn native_family(f: FontFamily) -> NativeFontFamily {
    match f {
        FontFamily::Monospace => NativeFontFamily::Teletype,
        FontFamily::SansSerif => NativeFontFamily::Swiss,
        FontFamily::Serif => NativeFontFamily::Roman,
        FontFamily::Name(_) => NativeFontFamily::Default,
    }
}

/// The face name handed to the native font builder: the explicit name when
/// one is given, and the fixed placeholder `"None"` for the generic
/// families.
pub open spec fn native_face(f: FontFamily) -> Seq<char> {
    match f {
        FontFamily::Name(name) => name@,
        _ => "None"@,
    }
}

/// The native slant an abstract style variant maps to.
pub open spec fn native_slant(s: FontStyle) -> NativeFontStyle {
    match s {
        FontStyle::Bold => NativeFontStyle::Normal,
        FontStyle::Italic => NativeFontStyle::Italic,
        FontStyle::Normal => NativeFontStyle::Normal,
        FontStyle::Oblique => NativeFontStyle::Slant,
    }
}

/// The native weight an abstract style variant maps to: bold for bold,
/// normal for everything else.
pub open spec fn native_weight(s: FontStyle) -> NativeFontWeight {
    match s {
        FontStyle::Bold => NativeFontWeight::Bold,
        _ => NativeFontWeight::Normal,
    }
}

/// Computes the native point size for a logical size.
pub fn point_size(size: u32) -> (r: i32)
    requires
        spec_point_size(size as int) <= i32::MAX,
    ensures
        r == spec_point_size(size as int),
{
    let wide: u64 = 6 * (size as u64) + 5;
    (wide / 10) as i32
}

/// Derives the parameters of the native font-construction call from an
/// abstract text style. Underlining is always disabled: the abstract side
/// has no such attribute.
pub fn font_spec(style: &TextStyle) -> (r: FontSpec)
    requires
        spec_point_size(style.size as int) <= i32::MAX,
    ensures
        r.point_size == spec_point_size(style.size as int),
        r.family == native_family(style.family),
        r.face_name@ == native_face(style.family),
        r.style == native_slant(style.style),
        r.weight == native_weight(style.style),
        r.underlined == false,
{
    let size: i32 = point_size(style.size);
    let (family, face_name): (NativeFontFamily, String) = match &style.family {
        FontFamily::Monospace => (NativeFontFamily::Teletype, "None".to_owned()),
        FontFamily::SansSerif => (NativeFontFamily::Swiss, "None".to_owned()),
        FontFamily::Serif => (NativeFontFamily::Roman, "None".to_owned()),
        FontFamily::Name(name) => (NativeFontFamily::Default, name.clone()),
    };
    let (slant, weight): (NativeFontStyle, NativeFontWeight) = match style.style {
        FontStyle::Bold => (NativeFontStyle::Normal, NativeFontWeight::Bold),
        FontStyle::Italic => (NativeFontStyle::Italic, NativeFontWeight::Normal),
        FontStyle::Normal => (NativeFontStyle::Normal, NativeFontWeight::Normal),
        FontStyle::Oblique => (NativeFontStyle::Slant, NativeFontWeight::Normal),
    };
    FontSpec {
        point_size: size,
        family,
        style: slant,
        weight,
        underlined: false,
        face_name,
    }
}

} // verus!
