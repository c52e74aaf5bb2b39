//! Images built from raw BGRA bytes.

use vstd::prelude::*;

verus! {

/// The largest side, in pixels, that an image or a surface may have.
pub const MAX_SIDE: u32 = 0x7FFF_FFFF;

/// Bytes per pixel of the BGRA, premultiplied-alpha format.
pub const BYTES_PER_PIXEL: u32 = 4;

/// Whether `len` raw bytes make a `w` by `h` BGRA image: both sides positive and
/// at most `MAX_SIDE`, and exactly four bytes per pixel with no row padding.
pub open spec fn raster_fits(w: u32, h: u32, len: int) -> bool {
    &&& 0 < w <= MAX_SIDE
    &&& 0 < h <= MAX_SIDE
    &&& len == w as int * h as int * BYTES_PER_PIXEL as int
}

/// What an image is: its size and its pixel bytes, row after row.
pub struct ImageView {
    pub width: u32,
    pub height: u32,
    pub pixels: Seq<u8>,
}

impl ImageView {
    pub open spec fn wf(self) -> bool {
        raster_fits(self.width, self.height, self.pixels.len() as int)
    }
}

/// A drawable frame: BGRA pixels with premultiplied alpha, rows of
/// `4 * width` bytes. It owns a copy of the bytes it was built from, so it
/// never refers to a caller's buffer.
pub struct Image {
    width: u32,
    height: u32,
    pixels: Vec<u8>,
}

impl View for Image {
    type V = ImageView;

    closed spec fn view(&self) -> ImageView {
        ImageView { width: self.width, height: self.height, pixels: self.pixels@ }
    }
}

impl Image {
    /// Every image has a positive size within bounds and four bytes per pixel.
    pub closed spec fn wf(&self) -> bool {
        self@.wf()
    }

    /// Builds a `w` by `h` image from a copy of `pixels`; `None` where the bytes
    /// do not make such an image.
    pub fn from_raster_data(w: u32, h: u32, pixels: &[u8]) -> (r: Option<Image>)
        ensures
            r.is_some() <==> raster_fits(w, h, pixels@.len() as int),
            r matches Some(img) ==> img.wf() && img@ == (ImageView { width: w, height: h, pixels: pixels@ }),
    {
        if w == 0 || h == 0 || w > MAX_SIDE || h > MAX_SIDE {
            return None;
        }
        proof {
            assert((w as int) * (h as int) * 4 <= 0x7FFF_FFFF * 0x7FFF_FFFF * 4) by (nonlinear_arith)
                requires
                    w <= 0x7FFF_FFFF,
                    h <= 0x7FFF_FFFF,
            ;
        }
        let expected: u128 = (w as u128) * (h as u128) * (BYTES_PER_PIXEL as u128);
        if pixels.len() as u128 != expected {
            return None;
        }
        let copy = vstd::slice::slice_to_vec(pixels);
        Some(Image { width: w, height: h, pixels: copy })
    }

    pub fn width(&self) -> (r: u32)
        ensures
            r == self@.width,
    {
        self.width
    }

    pub fn height(&self) -> (r: u32)
        ensures
            r == self@.height,
    {
        self.height
    }

    /// Bytes from the start of one row to the start of the next.
    pub fn row_bytes(&self) -> (r: u64)
        requires
            self.wf(),
        ensures
            r == self@.width as int * BYTES_PER_PIXEL as int,
    {
        (self.width as u64) * (BYTES_PER_PIXEL as u64)
    }

    pub fn pixels(&self) -> (r: &[u8])
        ensures
            r@ == self@.pixels,
    {
        self.pixels.as_slice()
    }
}

} // verus!
