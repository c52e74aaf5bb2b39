//! Paint state, sampling options and rectangles, as plain values.

use vstd::prelude::*;

verus! {

/// Opaque black, as 0xAARRGGBB.
pub const BLACK: u32 = 0xFF00_0000;

/// Opaque white, as 0xAARRGGBB: what a software canvas is cleared to.
pub const WHITE: u32 = 0xFFFF_FFFF;

/// Opaque red, as 0xAARRGGBB: what a GPU canvas is cleared to, so that output
/// shows which backend produced it.
pub const RED: u32 = 0xFFFF_0000;

/// How a drawn source combines with what the surface already holds.
#[derive(Clone, Copy, Debug, PartialEq, Eq, Structural)]
pub enum BlendMode {
    Clear,
    Src,
    Dst,
    SrcOver,
}

/// The style that draws are issued with.
#[derive(Clone, Copy, Debug, PartialEq, Eq, Structural)]
pub struct Paint {
    /// Fill colour, as 0xAARRGGBB.
    pub color: u32,
    /// Stroke width in whole pixels.
    pub stroke_width: u32,
    pub blend_mode: BlendMode,
}

/// The paint every canvas starts with: solid black, one pixel wide, source over.
pub open spec fn default_paint() -> Paint {
    Paint { color: BLACK, stroke_width: 1, blend_mode: BlendMode::SrcOver }
}

impl Paint {
    /// Solid black fill, stroke width one, source-over blending.
    pub fn solid_black() -> (r: Paint)
        ensures
            r == default_paint(),
    {
        Paint { color: BLACK, stroke_width: 1, blend_mode: BlendMode::SrcOver }
    }
}

/// Filtering within one mipmap level.
#[derive(Clone, Copy, Debug, PartialEq, Eq, Structural)]
pub enum FilterMode {
    Nearest,
    Linear,
}

/// How a mipmap level is chosen.
#[derive(Clone, Copy, Debug, PartialEq, Eq, Structural)]
pub enum MipmapMode {
    Disabled,
    Nearest,
    Linear,
}

/// Resampling policy for an image drawn at another size than its own.
#[derive(Clone, Copy, Debug, PartialEq, Eq, Structural)]
pub struct SamplingOptions {
    pub filter: FilterMode,
    pub mipmap: MipmapMode,
}

/// Linear filtering with the nearest mipmap level: keeps fine detail such as
/// rendered text readable when an image is shrunk, without heavy blur.
pub open spec fn downscale_sampling() -> SamplingOptions {
    SamplingOptions { filter: FilterMode::Linear, mipmap: MipmapMode::Nearest }
}

impl SamplingOptions {
    /// The sampling that scaled image draws use.
    pub fn for_downscale() -> (r: SamplingOptions)
        ensures
            r == downscale_sampling(),
    {
        SamplingOptions { filter: FilterMode::Linear, mipmap: MipmapMode::Nearest }
    }
}

/// An axis-aligned rectangle in pixel coordinates; `right` and `bottom` are
/// exclusive.
#[derive(Clone, Copy, Debug, PartialEq, Eq, Structural)]
pub struct Rect {
    pub left: i64,
    pub top: i64,
    pub right: i64,
    pub bottom: i64,
}

impl Rect {
    pub open spec fn width_spec(self) -> int {
        self.right - self.left
    }

    pub open spec fn height_spec(self) -> int {
        self.bottom - self.top
    }
}

} // verus!
