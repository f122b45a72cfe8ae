//! Text placement: anchor and rotation correction.
//!
//! The native text-drawing call places the glyph's top-left corner at the
//! given coordinate and rotates the glyph about that corner; the plotting
//! side instead gives an anchor point, a horizontal and vertical alignment
//! relative to the unrotated bounding box, and a clockwise rotation in
//! quarter turns. This module computes the drawing origin the native call
//! must receive so that the aligned corner of the (possibly rotated) glyph
//! box lands exactly on the anchor point, and translates the clockwise
//! rotation into the native counter-clockwise angle.
//!
//! Coordinates follow the native surface convention: origin at the top left,
//! `y` increasing downward, the same on both sides.

use vstd::prelude::*;

verus! {

/// Horizontal alignment of the anchor point within the unrotated glyph box.
#[derive(Clone, Copy, Debug, PartialEq, Eq, Structural)]
pub enum HPos {
    Left,
    Center,
    Right,
}

/// Vertical alignment of the anchor point within the unrotated glyph box.
#[derive(Clone, Copy, Debug, PartialEq, Eq, Structural)]
pub enum VPos {
    Top,
    Center,
    Bottom,
}

/// Clockwise text rotation in quarter turns, the abstract side's convention.
#[derive(Clone, Copy, Debug, PartialEq, Eq, Structural)]
pub enum Rotation {
    Rotate0,
    Rotate90,
    Rotate180,
    Rotate270,
}

/// Where the native text draw must be issued: the drawing origin for the
/// glyph's top-left corner, and the angle to hand to the rotated-text entry
/// point, if any. An absent angle means the plain draw-text call is used.
#[derive(Clone, Copy, Debug, PartialEq, Eq)]
pub struct TextPlacement {
    pub x: i32,
    pub y: i32,
    /// Native rotation angle in degrees, counter-clockwise positive.
    pub angle_degrees: Option<i32>,
}

/// Unrotated horizontal offset from the anchor point to the drawing origin.
pub open spec fn h_offset(h: HPos, w: int) -> int {
    match h {
        HPos::Left => 0,
        HPos::Center => -(w / 2),
        HPos::Right => -w,
    }
}

/// Unrotated vertical offset from the anchor point to the drawing origin.
pub open spec fn v_offset(v: VPos, h: int) -> int {
    match v {
        VPos::Top => 0,
        VPos::Center => -(h / 2),
        VPos::Bottom => -h,
    }
}

/// The x component of a vector rotated clockwise by `r` quarter turns, in
/// screen coordinates (`y` downward).
pub open spec fn rotate_cw_x(r: Rotation, dx: int, dy: int) -> int {
    match r {
        Rotation::Rotate0 => dx,
        Rotation::Rotate90 => -dy,
        Rotation::Rotate180 => -dx,
        Rotation::Rotate270 => dy,
    }
}

/// The y component of a vector rotated clockwise by `r` quarter turns, in
/// screen coordinates (`y` downward).
pub open spec fn rotate_cw_y(r: Rotation, dx: int, dy: int) -> int {
    match r {
        Rotation::Rotate0 => dy,
        Rotation::Rotate90 => dx,
        Rotation::Rotate180 => -dy,
        Rotation::Rotate270 => -dx,
    }
}

/// The x coordinate of the native drawing origin for text of unrotated
/// extent `w` by `h`, anchored at `px` with alignment `hp`/`vp` and rotation
/// `r`. The alignment offset is computed in the unrotated frame and then
/// rotated, because the native call rotates the glyph about its own drawing
/// origin after placement.
pub open spec fn origin_x(hp: HPos, vp: VPos, r: Rotation, w: int, h: int, px: int) -> int {
    px + rotate_cw_x(r, h_offset(hp, w), v_offset(vp, h))
}

/// The y coordinate of the native drawing origin; see [`origin_x`].
pub open spec fn origin_y(hp: HPos, vp: VPos, r: Rotation, w: int, h: int, py: int) -> int {
    py + rotate_cw_y(r, h_offset(hp, w), v_offset(vp, h))
}

/// The angle handed to the native rotated-text call: the abstract side
/// rotates clockwise, the native side counter-clockwise, so the angle is
/// negated. No rotation uses the plain draw-text entry point instead.
pub open spec fn native_angle(r: Rotation) -> Option<i32> {
    match r {
        Rotation::Rotate0 => None,
        Rotation::Rotate90 => Some(-90i32),
        Rotation::Rotate180 => Some(-180i32),
        Rotation::Rotate270 => Some(-270i32),
    }
}

/// Computes the native draw call for text of measured unrotated extent
/// `width` by `height`, to be anchored at `pos` with alignment `hp`/`vp` and
/// clockwise rotation `r`.
pub fn place_text(hp: HPos, vp: VPos, r: Rotation, pos: (i32, i32), width: u32, height: u32) -> (t:
    TextPlacement)
    requires
        width <= i32::MAX,
        height <= i32::MAX,
        i32::MIN <= origin_x(hp, vp, r, width as int, height as int, pos.0 as int) <= i32::MAX,
        i32::MIN <= origin_y(hp, vp, r, width as int, height as int, pos.1 as int) <= i32::MAX,
    ensures
        t.x == origin_x(hp, vp, r, width as int, height as int, pos.0 as int),
        t.y == origin_y(hp, vp, r, width as int, height as int, pos.1 as int),
        t.angle_degrees == native_angle(r),
{
    let w: i32 = width as i32;
    let h: i32 = height as i32;
    let dx: i32 = match hp {
        HPos::Left => 0,
        HPos::Center => -(w / 2),
        HPos::Right => -w,
    };
    let dy: i32 = match vp {
        VPos::Top => 0,
        VPos::Center => -(h / 2),
        VPos::Bottom => -h,
    };
    let (rx, ry): (i32, i32) = match r {
        Rotation::Rotate0 => (dx, dy),
        Rotation::Rotate90 => (-dy, dx),
        Rotation::Rotate180 => (-dx, -dy),
        Rotation::Rotate270 => (dy, -dx),
    };
    let angle: Option<i32> = match r {
        Rotation::Rotate0 => None,
        Rotation::Rotate90 => Some(-90),
        Rotation::Rotate180 => Some(-180),
        Rotation::Rotate270 => Some(-270),
    };
    TextPlacement { x: pos.0 + rx, y: pos.1 + ry, angle_degrees: angle }
}

/// The x coordinate, within the unrotated glyph box, of the point the
/// alignment asks to pin on the anchor.
pub open spec fn anchor_local_x(h: HPos, w: int) -> int {
    match h {
        HPos::Left => 0,
        HPos::Center => w / 2,
        HPos::Right => w,
    }
}

/// The y coordinate, within the unrotated glyph box, of the point the
/// alignment asks to pin on the anchor.
pub open spec fn anchor_local_y(v: VPos, h: int) -> int {
    match v {
        VPos::Top => 0,
        VPos::Center => h / 2,
        VPos::Bottom => h,
    }
}

/// The placement law: for every alignment combination and every quarter-turn
/// rotation, the glyph-local point selected by the alignment, carried through
/// the native rotation about the drawing origin, lands exactly on the anchor
/// point. The native call maps a glyph-local point `(ax, ay)` to
/// `origin + rotate_cw(r, (ax, ay))`, so this says the aligned corner of the
/// rotated glyph box coincides with the requested position.
pub proof fn lemma_anchor_alignment(hp: HPos, vp: VPos, r: Rotation, w: int, h: int, px: int, py: int)
    requires
        w >= 0,
        h >= 0,
    ensures
        origin_x(hp, vp, r, w, h, px) + rotate_cw_x(r, anchor_local_x(hp, w), anchor_local_y(vp, h))
            == px,
        origin_y(hp, vp, r, w, h, py) + rotate_cw_y(r, anchor_local_x(hp, w), anchor_local_y(vp, h))
            == py,
{
}

} // verus!
