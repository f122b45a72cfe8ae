//! The backend adapter: per-session canvas state and the translation of each
//! abstract drawing primitive into an exact description of the native
//! device-context calls to issue.
//!
//! The adapter works in immediate mode: each method returns the full
//! arguments of the native calls for that one primitive, and the unverified
//! shell performs them right away against the borrowed device context.
//! Nothing is buffered across calls; the only state carried through a
//! session is the canvas background, which the text facet reads so that text
//! backgrounds always match the last-set canvas background.

use vstd::prelude::*;
use crate::color::Rgba;
use crate::style::{
    brush_of, font_spec, native_face, native_family, native_slant, native_weight, pen_of,
    spec_point_size, BrushCall, BrushStyleKind, FontSpec, LineStyle, PenCall, PenStyleKind,
    TextStyle,
};
use crate::text::{origin_x, origin_y, native_angle, place_text, TextPlacement};
use crate::{Error, ErrorKind};

verus! {

/// Native background mode: whether text glyphs are drawn over a solid
/// background rectangle or straight onto the canvas.
#[derive(Clone, Copy, Debug, PartialEq, Eq, Structural)]
pub enum BackgroundMode {
    Transparent,
    Solid,
}

/// Native polygon fill rule. The adapter always fills with the odd-even
/// rule; the winding rule exists on the native side but is never requested.
#[derive(Clone, Copy, Debug, PartialEq, Eq, Structural)]
pub enum PolygonFillMode {
    OddEven,
    Winding,
}

/// A point in the native point-list form.
#[derive(Clone, Copy, Debug, PartialEq, Eq, Structural)]
pub struct DcPoint {
    pub x: i32,
    pub y: i32,
}

/// The calls that start a session: the background color and mode to set on
/// the device context, after which the surface is cleared, so every session
/// starts from a deterministic canvas whatever the context was used for
/// before.
#[derive(Clone, Copy, Debug, PartialEq, Eq, Structural)]
pub struct SessionInit {
    pub background: Rgba,
    pub mode: BackgroundMode,
}

/// The native calls for one pixel: select a pen, draw a point.
#[derive(Clone, Copy, Debug, PartialEq, Eq, Structural)]
pub struct PixelCall {
    pub pen: PenCall,
    pub x: i32,
    pub y: i32,
}

/// The native calls for one line segment: select a pen, draw a line.
#[derive(Clone, Copy, Debug, PartialEq, Eq, Structural)]
pub struct LineCall {
    pub pen: PenCall,
    pub x1: i32,
    pub y1: i32,
    pub x2: i32,
    pub y2: i32,
}

/// The native calls for an open path: select a pen, draw a poly-line through
/// the given points at the given offset.
#[derive(Clone, Debug, PartialEq, Eq)]
pub struct PathCall {
    pub pen: PenCall,
    pub points: Vec<DcPoint>,
    pub x_offset: i32,
    pub y_offset: i32,
}

/// The native calls for a circle: select a pen and a brush, draw a circle.
#[derive(Clone, Copy, Debug, PartialEq, Eq, Structural)]
pub struct CircleCall {
    pub pen: PenCall,
    pub brush: BrushCall,
    pub x: i32,
    pub y: i32,
    pub radius: i32,
}

/// The native calls for a rectangle: select a pen and a brush, draw a
/// rectangle given by its origin and extent.
#[derive(Clone, Copy, Debug, PartialEq, Eq, Structural)]
pub struct RectCall {
    pub pen: PenCall,
    pub brush: BrushCall,
    pub x: i32,
    pub y: i32,
    pub width: i32,
    pub height: i32,
}

/// The native calls for a filled polygon: select a pen and a solid brush,
/// draw a polygon through the given points with the given fill rule.
#[derive(Clone, Debug, PartialEq, Eq)]
pub struct PolygonCall {
    pub pen: PenCall,
    pub brush: BrushCall,
    pub points: Vec<DcPoint>,
    pub x_offset: i32,
    pub y_offset: i32,
    pub fill_mode: PolygonFillMode,
}

/// The native calls that prepare the device context for text: the text
/// background and foreground colors to set, and the parameters of the font
/// to construct and select. Constructing the font is the one step that can
/// fail on the native side.
#[derive(Clone, Debug, PartialEq, Eq)]
pub struct FontCalls {
    pub text_background: Rgba,
    pub text_foreground: Rgba,
    pub font: FontSpec,
}

/// The native call that blits an already-constructed bitmap: where to draw
/// it, and that it is drawn opaque (transparency compositing is a documented
/// limitation of this adapter).
#[derive(Clone, Copy, Debug, PartialEq, Eq, Structural)]
pub struct BitmapCall {
    pub x: i32,
    pub y: i32,
    pub transparent: bool,
}

/// The backend adapter's per-session state. The unverified shell pairs one
/// value of this with one borrowed native device context; the fields mirror
/// the background state the adapter has set on that context, which is the
/// only drawing state read back by later calls.
#[derive(Clone, Copy, Debug, PartialEq, Eq, Structural)]
pub struct WxBackend {
    pub background: Rgba,
    pub background_mode: BackgroundMode,
}

impl WxBackend {
    /// Starts a drawing session: the new adapter state together with the
    /// calls that bring the device context to the known starting state,
    /// white background and transparent background mode, after which the
    /// surface is cleared.
    pub fn new() -> (r: (WxBackend, SessionInit))
        ensures
            r.0.background == (Rgba { r: 255, g: 255, b: 255, a: 255 }),
            r.0.background_mode is Transparent,
            r.1.background == r.0.background,
            r.1.mode == r.0.background_mode,
    {
        let background = Rgba::white();
        let state = WxBackend { background, background_mode: BackgroundMode::Transparent };
        let init = SessionInit { background, mode: BackgroundMode::Transparent };
        (state, init)
    }

    /// Records the background color the shell sets on the device context.
    /// This affects the global background and the fill color behind text.
    pub fn set_background_color(&mut self, color: Rgba)
        ensures
            final(self).background == color,
            final(self).background_mode == old(self).background_mode,
    {
        self.background = color;
    }

    /// Records the background mode the shell sets on the device context.
    /// Solid mode gives text a solid background fill; transparent mode, the
    /// default, draws glyphs straight onto the canvas.
    pub fn set_background_mode(&mut self, mode: BackgroundMode)
        ensures
            final(self).background_mode == mode,
            final(self).background == old(self).background,
    {
        self.background_mode = mode;
    }

    /// The pen for an abstract stroke style: same color, integer width,
    /// always a solid line.
    pub fn set_pen_style(&self, style: &LineStyle) -> (r: PenCall)
        ensures
            r == pen_of(*style),
    {
        PenCall { color: style.color, width: style.stroke_width as i32, style: PenStyleKind::Solid }
    }

    /// The brush for a fill request: solid in the given color when filling,
    /// fully transparent otherwise so that only outlines appear.
    pub fn set_brush_style(&self, fill: bool, color: Rgba) -> (r: BrushCall)
        ensures
            r == brush_of(fill, color),
    {
        if fill {
            BrushCall { color, style: BrushStyleKind::Solid }
        } else {
            BrushCall { color, style: BrushStyleKind::Transparent }
        }
    }

    /// The calls that prepare text drawing for an abstract text style. The
    /// text background is the canvas background this adapter last set — not
    /// a fixed value — and the text foreground is the style's color.
    pub fn set_font_style(&self, style: &TextStyle) -> (r: FontCalls)
        requires
            spec_point_size(style.size as int) <= i32::MAX,
        ensures
            r.text_background == self.background,
            r.text_foreground == style.color,
            r.font.point_size == spec_point_size(style.size as int),
            r.font.family == native_family(style.family),
            r.font.face_name@ == native_face(style.family),
            r.font.style == native_slant(style.style),
            r.font.weight == native_weight(style.style),
            r.font.underlined == false,
    {
        let font = font_spec(style);
        FontCalls { text_background: self.background, text_foreground: style.color, font }
    }

    /// The size of the native surface, converted to unsigned pixel extents.
    /// The shell re-queries the surface on every call, since it may have
    /// been resized; nothing is cached here.
    pub fn get_size(&self, native_width: i32, native_height: i32) -> (r: (u32, u32))
        ensures
            r.0 == native_width as u32,
            r.1 == native_height as u32,
    {
        (native_width as u32, native_height as u32)
    }

    /// The measured text extent, converted to unsigned pixel extents. The
    /// shell obtains the native extent after performing the font calls for
    /// the same style, since the native measurement uses the currently
    /// selected font.
    pub fn estimate_text_size(&self, native_extent: (i32, i32)) -> (r: (u32, u32))
        ensures
            r.0 == native_extent.0 as u32,
            r.1 == native_extent.1 as u32,
    {
        (native_extent.0 as u32, native_extent.1 as u32)
    }

    /// Accepting a preparation request is always fine: the adapter draws
    /// immediately and has nothing to prepare, so the call has no native
    /// effect and never errors, however often it is repeated.
    pub fn ensure_prepared(&self) -> (r: Result<(), Error>)
        ensures
            r is Ok,
    {
        Ok(())
    }

    /// Presenting is likewise a no-op: every draw call was already issued to
    /// the native surface, so there is nothing to flush, no native effect,
    /// and never an error, however often the call is repeated.
    pub fn present(&self) -> (r: Result<(), Error>)
        ensures
            r is Ok,
    {
        Ok(())
    }

    /// One pixel: a one-pixel-wide solid pen of the given color, and a point
    /// at the given position.
    pub fn draw_pixel(&self, point: (i32, i32), color: Rgba) -> (r: PixelCall)
        ensures
            r.pen == (PenCall { color, width: 1, style: PenStyleKind::Solid }),
            r.x == point.0,
            r.y == point.1,
    {
        let pen = PenCall { color, width: 1, style: PenStyleKind::Solid };
        PixelCall { pen, x: point.0, y: point.1 }
    }

    /// One line segment from `from` to `to` with the stroke style's pen.
    pub fn draw_line(&self, from: (i32, i32), to: (i32, i32), style: &LineStyle) -> (r: LineCall)
        ensures
            r.pen == pen_of(*style),
            r.x1 == from.0,
            r.y1 == from.1,
            r.x2 == to.0,
            r.y2 == to.1,
    {
        let pen = self.set_pen_style(style);
        LineCall { pen, x1: from.0, y1: from.1, x2: to.0, y2: to.1 }
    }

    /// An open path through the given points, drawn with the stroke style's
    /// pen as one native poly-line at offset zero.
    pub fn draw_path(&self, path: &Vec<(i32, i32)>, style: &LineStyle) -> (r: PathCall)
        ensures
            r.pen == pen_of(*style),
            r.x_offset == 0,
            r.y_offset == 0,
            r.points@.len() == path@.len(),
            forall|i: int|
                0 <= i < path@.len() ==> r.points@[i] == (DcPoint {
                    x: path@[i].0,
                    y: path@[i].1,
                }),
    {
        let pen = self.set_pen_style(style);
        let points = convert_points(path);
        PathCall { pen, points, x_offset: 0, y_offset: 0 }
    }

    /// A circle of the given center and radius, outlined with the stroke
    /// style's pen and filled, or left hollow, by the brush.
    pub fn draw_circle(&self, center: (i32, i32), radius: u32, style: &LineStyle, fill: bool) -> (r:
        CircleCall)
        ensures
            r.pen == pen_of(*style),
            r.brush == brush_of(fill, style.color),
            r.x == center.0,
            r.y == center.1,
            r.radius == radius as i32,
    {
        let pen = self.set_pen_style(style);
        let brush = self.set_brush_style(fill, style.color);
        CircleCall { pen, brush, x: center.0, y: center.1, radius: radius as i32 }
    }

    /// A rectangle given by two corners, translated to the native
    /// origin-and-extent form: the extent is exactly the coordinate-wise
    /// difference of the corners. The caller supplies the corners in order;
    /// for swapped corners the native behavior is unspecified, so they are
    /// excluded here.
    pub fn draw_rect(
        &self,
        upper_left: (i32, i32),
        bottom_right: (i32, i32),
        style: &LineStyle,
        fill: bool,
    ) -> (r: RectCall)
        requires
            upper_left.0 <= bottom_right.0,
            upper_left.1 <= bottom_right.1,
            bottom_right.0 - upper_left.0 <= i32::MAX,
            bottom_right.1 - upper_left.1 <= i32::MAX,
        ensures
            r.pen == pen_of(*style),
            r.brush == brush_of(fill, style.color),
            r.x == upper_left.0,
            r.y == upper_left.1,
            r.width == bottom_right.0 - upper_left.0,
            r.height == bottom_right.1 - upper_left.1,
    {
        let pen = self.set_pen_style(style);
        let brush = self.set_brush_style(fill, style.color);
        let width: i32 = bottom_right.0 - upper_left.0;
        let height: i32 = bottom_right.1 - upper_left.1;
        RectCall { pen, brush, x: upper_left.0, y: upper_left.1, width, height }
    }

    /// A filled polygon through the given vertices: the stroke style's pen
    /// for the outline, a solid brush of the same color for the interior,
    /// and always the odd-even fill rule, at offset zero.
    pub fn fill_polygon(&self, vert: &Vec<(i32, i32)>, style: &LineStyle) -> (r: PolygonCall)
        ensures
            r.pen == pen_of(*style),
            r.brush == brush_of(true, style.color),
            r.x_offset == 0,
            r.y_offset == 0,
            r.fill_mode is OddEven,
            r.points@.len() == vert@.len(),
            forall|i: int|
                0 <= i < vert@.len() ==> r.points@[i] == (DcPoint {
                    x: vert@[i].0,
                    y: vert@[i].1,
                }),
    {
        let pen = self.set_pen_style(style);
        let brush = self.set_brush_style(true, style.color);
        let points = convert_points(vert);
        PolygonCall {
            pen,
            brush,
            points,
            x_offset: 0,
            y_offset: 0,
            fill_mode: PolygonFillMode::OddEven,
        }
    }

    /// Where to issue the native text draw for text of measured unrotated
    /// extent `extent`, anchored at `pos` under the style's alignment and
    /// rotation. The shell measures the extent with the font calls of the
    /// same style already performed, then draws at the returned origin,
    /// rotated when an angle is present.
    pub fn draw_text(&self, style: &TextStyle, pos: (i32, i32), extent: (u32, u32)) -> (r:
        TextPlacement)
        requires
            extent.0 <= i32::MAX,
            extent.1 <= i32::MAX,
            i32::MIN <= origin_x(
                style.h_pos,
                style.v_pos,
                style.rotation,
                extent.0 as int,
                extent.1 as int,
                pos.0 as int,
            ) <= i32::MAX,
            i32::MIN <= origin_y(
                style.h_pos,
                style.v_pos,
                style.rotation,
                extent.0 as int,
                extent.1 as int,
                pos.1 as int,
            ) <= i32::MAX,
        ensures
            r.x == origin_x(
                style.h_pos,
                style.v_pos,
                style.rotation,
                extent.0 as int,
                extent.1 as int,
                pos.0 as int,
            ),
            r.y == origin_y(
                style.h_pos,
                style.v_pos,
                style.rotation,
                extent.0 as int,
                extent.1 as int,
                pos.1 as int,
            ),
            r.angle_degrees == native_angle(style.rotation),
    {
        place_text(style.h_pos, style.v_pos, style.rotation, pos, extent.0, extent.1)
    }

    /// The outcome of blitting a bitmap, given whether the native bitmap
    /// could be constructed from the raw pixel buffer. On success the bitmap
    /// is drawn at the given position, opaque; otherwise the bitmap error is
    /// reported and nothing is drawn.
    pub fn blit_bitmap(&self, pos: (i32, i32), created: bool) -> (r: Result<BitmapCall, Error>)
        ensures
            created ==> r == Ok::<BitmapCall, Error>(
                BitmapCall { x: pos.0, y: pos.1, transparent: false },
            ),
            !created ==> r == Err::<BitmapCall, Error>(Error(ErrorKind::CreateBitmap)),
    {
        if created {
            Ok(BitmapCall { x: pos.0, y: pos.1, transparent: false })
        } else {
            Err(Error(ErrorKind::CreateBitmap))
        }
    }
}

/// The outcome of constructing the native font for a text or measure call:
/// success when the native side produced a font, and the font error — the
/// only error path in style translation — when it did not.
pub fn font_creation_result(created: bool) -> (r: Result<(), Error>)
    ensures
        created ==> r == Ok::<(), Error>(()),
        !created ==> r == Err::<(), Error>(Error(ErrorKind::CreateFont)),
{
    if created {
        Ok(())
    } else {
        Err(Error(ErrorKind::CreateFont))
    }
}

/// Converts an abstract coordinate list into native point structures, one
/// for one and in order.
fn convert_points(coords: &Vec<(i32, i32)>) -> (r: Vec<DcPoint>)
    ensures
        r@.len() == coords@.len(),
        forall|i: int|
            0 <= i < coords@.len() ==> r@[i] == (DcPoint { x: coords@[i].0, y: coords@[i].1 }),
{
    let mut points: Vec<DcPoint> = Vec::new();
    let mut idx: usize = 0;
    while idx < coords.len()
        invariant
            idx <= coords@.len(),
            points@.len() == idx,
            forall|i: int|
                0 <= i < idx ==> points@[i] == (DcPoint { x: coords@[i].0, y: coords@[i].1 }),
        decreases coords@.len() - idx,
    {
        let p = coords[idx];
        points.push(DcPoint { x: p.0, y: p.1 });
        idx += 1;
    }
    points
}

} // verus!
