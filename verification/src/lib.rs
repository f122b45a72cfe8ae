//! A backend adapter that lets a 2-D plotting library render onto the drawing
//! surface of a native desktop GUI toolkit.
//!
//! The verified core translates abstract drawing commands (pixels, lines,
//! rectangles, circles, polygons, text, bitmaps) into exact descriptions of
//! the native device-context calls to issue: which pen, brush and font to
//! select, and where each primitive lands. The unverified shell around this
//! crate performs those calls against the toolkit.

use vstd::prelude::*;

pub mod backend;
pub mod color;
pub mod style;
pub mod text;

verus! {

/// The two ways a drawing call can fail: native font construction and native
/// bitmap construction. Every other native call is treated as infallible by
/// this layer.
#[derive(Clone, Copy, Debug, PartialEq, Eq, Structural)]
pub enum ErrorKind {
    /// The native font object could not be constructed from the requested
    /// parameters.
    CreateFont,
    /// The native bitmap could not be constructed from the raw pixel buffer.
    CreateBitmap,
}

/// An error raised while drawing on a [`backend::WxBackend`].
#[derive(Clone, Copy, Debug, PartialEq, Eq, Structural)]
pub struct Error(pub ErrorKind);

} // verus!
