//! A drawing surface that runs on a GPU backend when one can be set up and on
//! a software raster otherwise, and blits raw BGRA pixel buffers onto it at an
//! integer downscale.
//!
//! The library owns the decisions: which backend a canvas has, which colour it
//! was cleared to, when an image can be built from raw bytes, and where a
//! scaled image lands. Rasterising the recorded draws is left to a rendering
//! engine outside the library.

pub mod paint;
pub mod image;
pub mod canvas;

pub use paint::{BlendMode, FilterMode, MipmapMode, Paint, Rect, SamplingOptions};
pub use image::{Image, ImageView};
pub use canvas::{Backing, Canvas, CanvasError, CanvasView, ImageDraw};
