//! The canvas: backend selection, its paint state, and scaled image draws.

use vstd::prelude::*;
use vstd::arithmetic::div_mod::{
    lemma_basic_div, lemma_div_by_multiple, lemma_div_is_ordered, lemma_div_is_ordered_by_denominator,
    lemma_div_pos_is_pos, lemma_fundamental_div_mod,
};
use crate::image::{raster_fits, Image, ImageView, MAX_SIDE};
use crate::paint::{default_paint, downscale_sampling, Paint, Rect, SamplingOptions, RED, WHITE};

verus! {

/// Where a canvas renders: on a GPU backend or on a software raster. Chosen
/// once, when the canvas is made.
#[derive(Clone, Copy, Debug, PartialEq, Eq, Structural)]
pub enum Backing {
    Cpu,
    Gpu,
}

/// Why a canvas could not be made, or a draw was skipped.
#[derive(Clone, Copy, Debug, PartialEq, Eq, Structural)]
pub enum CanvasError {
    /// No GPU device was found; the caller falls back to a software canvas.
    DeviceUnavailable,
    /// The GPU surface could not be allocated; the caller falls back too.
    SurfaceAllocationFailure,
    /// The raw bytes do not make an image of the given size.
    ImageDecodeFailure,
    /// A scale of zero: the destination size would divide by zero.
    InvalidScale,
    /// Neither an image nor raw bytes were given.
    MissingSource,
}

/// One image blit as issued to the surface.
#[derive(Clone, Copy, Debug, PartialEq, Eq, Structural)]
pub struct ImageDraw {
    /// Size of the source image; all of it is drawn.
    pub src_width: u32,
    pub src_height: u32,
    /// Where it lands on the surface.
    pub dst: Rect,
    pub sampling: SamplingOptions,
    pub paint: Paint,
}

/// What a canvas is: its backend, its size, its paint, the colour it was
/// cleared to, and every image draw issued on it since, in order.
pub struct CanvasView {
    pub backing: Backing,
    pub width: u32,
    pub height: u32,
    pub paint: Paint,
    pub background: u32,
    pub draws: Seq<ImageDraw>,
}

impl CanvasView {
    /// The same canvas with one more draw issued on it.
    pub open spec fn with_draw(self, d: ImageDraw) -> CanvasView {
        CanvasView { draws: self.draws.push(d), ..self }
    }
}

/// A canvas as it stands right after construction.
pub open spec fn fresh_canvas(backing: Backing, width: u32, height: u32, background: u32) -> CanvasView {
    CanvasView { backing, width, height, paint: default_paint(), background, draws: seq![] }
}

/// Sides that a surface can be allocated with.
pub open spec fn surface_fits(width: u32, height: u32) -> bool {
    0 < width <= MAX_SIDE && 0 < height <= MAX_SIDE
}

/// Where an `iw` by `ih` image drawn at `(x, y)` with divisor `scale` lands:
/// its sides are divided by `scale`, rounding down.
pub open spec fn dest_rect(x: i32, y: i32, iw: u32, ih: u32, scale: u32) -> Rect
    recommends
        scale > 0,
{
    Rect {
        left: x as i64,
        top: y as i64,
        right: (x as int + iw as int / scale as int) as i64,
        bottom: (y as int + ih as int / scale as int) as i64,
    }
}

/// The draw that blits `img` at `(x, y)` with divisor `scale` and `paint`.
pub open spec fn draw_of(paint: Paint, img: ImageView, x: i32, y: i32, scale: u32) -> ImageDraw {
    ImageDraw {
        src_width: img.width,
        src_height: img.height,
        dst: dest_rect(x, y, img.width, img.height, scale),
        sampling: downscale_sampling(),
        paint,
    }
}

/// The bytes of an optional raw buffer.
pub open spec fn bytes_of(pixels: Option<&[u8]>) -> Option<Seq<u8>> {
    match pixels {
        Some(p) => Some(p@),
        None => None,
    }
}

/// What an optional image is.
pub open spec fn view_of(image: Option<Image>) -> Option<ImageView> {
    match image {
        Some(i) => Some(i@),
        None => None,
    }
}

/// The image that a raw draw uses: the given image if there is one, else the
/// `w` by `h` image that the raw bytes make. A zero scale is refused first.
pub open spec fn source_image(
    w: u32,
    h: u32,
    scale: u32,
    pixels: Option<Seq<u8>>,
    image: Option<ImageView>,
) -> Result<ImageView, CanvasError> {
    if scale == 0 {
        Err(CanvasError::InvalidScale)
    } else {
        match image {
            Some(i) => Ok(i),
            None => match pixels {
                Some(p) => if raster_fits(w, h, p.len() as int) {
                    Ok(ImageView { width: w, height: h, pixels: p })
                } else {
                    Err(CanvasError::ImageDecodeFailure)
                },
                None => Err(CanvasError::MissingSource),
            },
        }
    }
}

/// The last draw of a sequence, if there is one.
pub open spec fn last_of(draws: Seq<ImageDraw>) -> Option<ImageDraw> {
    if draws.len() == 0 {
        None
    } else {
        Some(draws.last())
    }
}

/// A drawing surface with its paint. The pixels themselves live in the
/// rendering engine; the canvas keeps the draw last issued, for the engine to
/// carry out, and the whole sequence of draws as ghost state.
pub struct Canvas {
    backing: Backing,
    width: u32,
    height: u32,
    paint: Paint,
    background: u32,
    last_draw: Option<ImageDraw>,
    draws: Ghost<Seq<ImageDraw>>,
}

impl View for Canvas {
    type V = CanvasView;

    closed spec fn view(&self) -> CanvasView {
        CanvasView {
            backing: self.backing,
            width: self.width,
            height: self.height,
            paint: self.paint,
            background: self.background,
            draws: self.draws@,
        }
    }
}

impl Canvas {
    /// The size is one a surface can have, and the draw kept for the engine
    /// is the last one issued.
    pub closed spec fn wf(&self) -> bool {
        &&& surface_fits(self.width, self.height)
        &&& self.last_draw == last_of(self.draws@)
    }

    /// A software canvas, cleared to white. It cannot fail.
    pub fn new(width: u32, height: u32) -> (r: Canvas)
        requires
            surface_fits(width, height),
        ensures
            r.wf(),
            r@ == fresh_canvas(Backing::Cpu, width, height, WHITE),
    {
        Canvas {
            backing: Backing::Cpu,
            width,
            height,
            paint: Paint::solid_black(),
            background: WHITE,
            last_draw: None,
            draws: Ghost(Seq::empty()),
        }
    }

    /// A GPU canvas, cleared to red, given whether a GPU device was found and
    /// whether a surface of this size was allocated on it. Says which of the
    /// two steps failed, if one did.
    pub fn try_new_metal(width: u32, height: u32, device_found: bool, surface_allocated: bool) -> (r: Result<Canvas, CanvasError>)
        ensures
            !device_found ==> r matches Err(CanvasError::DeviceUnavailable),
            device_found && !(surface_allocated && surface_fits(width, height))
                ==> r matches Err(CanvasError::SurfaceAllocationFailure),
            device_found && surface_allocated && surface_fits(width, height) ==> (r matches Ok(c)
                && c.wf() && c@ == fresh_canvas(Backing::Gpu, width, height, RED)),
    {
        if !device_found {
            return Err(CanvasError::DeviceUnavailable);
        }
        if !surface_allocated || width == 0 || height == 0 || width > MAX_SIDE || height > MAX_SIDE {
            return Err(CanvasError::SurfaceAllocationFailure);
        }
        Ok(Canvas {
            backing: Backing::Gpu,
            width,
            height,
            paint: Paint::solid_black(),
            background: RED,
            last_draw: None,
            draws: Ghost(Seq::empty()),
        })
    }

    /// A GPU canvas, or nothing where no device was found or no surface could
    /// be allocated; the caller then falls back to `new`.
    pub fn new_metal(width: u32, height: u32, device_found: bool, surface_allocated: bool) -> (r: Option<Canvas>)
        ensures
            r.is_some() <==> device_found && surface_allocated && surface_fits(width, height),
            r matches Some(c) ==> c.wf() && c@ == fresh_canvas(Backing::Gpu, width, height, RED),
    {
        match Canvas::try_new_metal(width, height, device_found, surface_allocated) {
            Ok(c) => Some(c),
            Err(_) => None,
        }
    }

    /// Draws all of `image` at `(x, y)` with its sides divided by `scale`,
    /// using the canvas's paint. A zero scale is refused: nothing is drawn and
    /// the result is `false`.
    pub fn draw_image_scale(&mut self, image: &Image, x: i32, y: i32, scale: u32) -> (r: bool)
        requires
            old(self).wf(),
        ensures
            final(self).wf(),
            r == (scale != 0),
            r ==> final(self)@ == old(self)@.with_draw(draw_of(old(self)@.paint, image@, x, y, scale)),
            !r ==> final(self)@ == old(self)@,
    {
        if scale == 0 {
            return false;
        }
        let dst = scaled_rect(x, y, image.width(), image.height(), scale);
        let d = ImageDraw {
            src_width: image.width(),
            src_height: image.height(),
            dst,
            sampling: SamplingOptions::for_downscale(),
            paint: self.paint,
        };
        self.last_draw = Some(d);
        self.draws = Ghost(self.draws@.push(d));
        true
    }

    /// Draws an image at `(x, y)` scaled down by `scale`: `image` if given,
    /// else the `w` by `h` image made from a copy of `pixels`. Returns the image
    /// drawn, for the caller to pass back on a later call; `None` where the
    /// scale is zero, the bytes make no such image, or neither was given, and
    /// then nothing is drawn.
    pub fn draw_raw_rgb_scale(
        &mut self,
        x: i32,
        y: i32,
        w: u32,
        h: u32,
        scale: u32,
        pixels: Option<&[u8]>,
        image: Option<Image>,
    ) -> (r: Option<Image>)
        requires
            old(self).wf(),
            image matches Some(i) ==> i.wf(),
        ensures
            final(self).wf(),
            match source_image(w, h, scale, bytes_of(pixels), view_of(image)) {
                Ok(iv) => r matches Some(img) && img.wf() && img@ == iv
                    && final(self)@ == old(self)@.with_draw(draw_of(old(self)@.paint, iv, x, y, scale)),
                Err(_) => r is None && final(self)@ == old(self)@,
            },
    {
        match prepare_image(w, h, scale, pixels, image) {
            Ok(img) => {
                self.draw_image_scale(&img, x, y, scale);
                Some(img)
            },
            Err(_) => None,
        }
    }

    pub fn width(&self) -> (r: usize)
        ensures
            r == self@.width,
    {
        self.width as usize
    }

    pub fn height(&self) -> (r: usize)
        ensures
            r == self@.height,
    {
        self.height as usize
    }

    pub fn backing(&self) -> (r: Backing)
        ensures
            r == self@.backing,
    {
        self.backing
    }

    /// The colour the surface was cleared to, as 0xAARRGGBB.
    pub fn background(&self) -> (r: u32)
        ensures
            r == self@.background,
    {
        self.background
    }

    pub fn paint(&self) -> (r: Paint)
        ensures
            r == self@.paint,
    {
        self.paint
    }

    /// The draw issued last, for the rendering engine to carry out.
    pub fn last_draw(&self) -> (r: Option<ImageDraw>)
        requires
            self.wf(),
        ensures
            r == last_of(self@.draws),
    {
        self.last_draw
    }
}

/// Checks the arguments of a raw draw and picks or builds its image.
pub fn prepare_image(
    w: u32,
    h: u32,
    scale: u32,
    pixels: Option<&[u8]>,
    image: Option<Image>,
) -> (r: Result<Image, CanvasError>)
    requires
        image matches Some(i) ==> i.wf(),
    ensures
        match r {
            Ok(img) => img.wf() && source_image(w, h, scale, bytes_of(pixels), view_of(image)) == Ok::<ImageView, CanvasError>(img@),
            Err(e) => source_image(w, h, scale, bytes_of(pixels), view_of(image)) == Err::<ImageView, CanvasError>(e),
        },
{
    if scale == 0 {
        return Err(CanvasError::InvalidScale);
    }
    match image {
        Some(img) => Ok(img),
        None => match pixels {
            Some(p) => match Image::from_raster_data(w, h, p) {
                Some(img) => Ok(img),
                None => Err(CanvasError::ImageDecodeFailure),
            },
            None => Err(CanvasError::MissingSource),
        },
    }
}

/// The destination of a scaled draw.
pub fn scaled_rect(x: i32, y: i32, iw: u32, ih: u32, scale: u32) -> (r: Rect)
    requires
        scale > 0,
    ensures
        r == dest_rect(x, y, iw, ih, scale),
{
    let dw: u32 = iw / scale;
    let dh: u32 = ih / scale;
    Rect { left: x as i64, top: y as i64, right: x as i64 + dw as i64, bottom: y as i64 + dh as i64 }
}

/// The destination of a scaled draw is the image's size divided by the scale.
proof fn lemma_dest_size(x: i32, y: i32, iw: u32, ih: u32, scale: u32)
    requires
        scale > 0,
    ensures
        dest_rect(x, y, iw, ih, scale).width_spec() == iw as int / scale as int,
        dest_rect(x, y, iw, ih, scale).height_spec() == ih as int / scale as int,
{
    lemma_div_pos_is_pos(iw as int, scale as int);
    lemma_div_pos_is_pos(ih as int, scale as int);
    lemma_div_is_ordered_by_denominator(iw as int, 1, scale as int);
    lemma_div_is_ordered_by_denominator(ih as int, 1, scale as int);
}

/// With a side of at least `s1 * s2`, dividing by the larger `s2` gives strictly less.
proof fn lemma_div_strictly_smaller(n: int, s1: int, s2: int)
    requires
        0 < s1 < s2,
        n >= s1 * s2,
    ensures
        n / s2 < n / s1,
{
    lemma_div_is_ordered(s1 * s2, n, s2);
    lemma_div_by_multiple(s1, s2);
    let q = n / s2;
    lemma_fundamental_div_mod(n, s2);
    assert(n >= (q + 1) * s1) by (nonlinear_arith)
        requires
            q >= s1,
            s2 >= s1 + 1,
            n >= s2 * q,
            s1 > 0,
    ;
    lemma_div_is_ordered((q + 1) * s1, n, s1);
    lemma_div_by_multiple(q + 1, s1);
}

/// A larger scale never gives a larger destination. A side of at least the
/// product of the two scales shrinks strictly, and a side shorter than the
/// scale shrinks to zero.
pub proof fn lemma_dest_shrinks_with_scale(x: i32, y: i32, iw: u32, ih: u32, s1: u32, s2: u32)
    requires
        0 < s1 < s2,
    ensures
        dest_rect(x, y, iw, ih, s2).width_spec() <= dest_rect(x, y, iw, ih, s1).width_spec(),
        dest_rect(x, y, iw, ih, s2).height_spec() <= dest_rect(x, y, iw, ih, s1).height_spec(),
        iw >= s1 * s2 ==> dest_rect(x, y, iw, ih, s2).width_spec() < dest_rect(x, y, iw, ih, s1).width_spec(),
        ih >= s1 * s2 ==> dest_rect(x, y, iw, ih, s2).height_spec() < dest_rect(x, y, iw, ih, s1).height_spec(),
        iw < s2 ==> dest_rect(x, y, iw, ih, s2).width_spec() == 0,
        ih < s2 ==> dest_rect(x, y, iw, ih, s2).height_spec() == 0,
{
    lemma_dest_size(x, y, iw, ih, s1);
    lemma_dest_size(x, y, iw, ih, s2);
    lemma_div_is_ordered_by_denominator(iw as int, s1 as int, s2 as int);
    lemma_div_is_ordered_by_denominator(ih as int, s1 as int, s2 as int);
    if iw >= s1 * s2 {
        lemma_div_strictly_smaller(iw as int, s1 as int, s2 as int);
    }
    if ih >= s1 * s2 {
        lemma_div_strictly_smaller(ih as int, s1 as int, s2 as int);
    }
    if iw < s2 {
        lemma_basic_div(iw as int, s2 as int);
    }
    if ih < s2 {
        lemma_basic_div(ih as int, s2 as int);
    }
}

/// A raw draw at scale one of a buffer of exactly `4 * w * h` bytes uses a
/// `w` by `h` image of those bytes and covers `w` by `h` pixels.
pub proof fn lemma_unscaled_raw_draw(paint: Paint, x: i32, y: i32, w: u32, h: u32, pixels: Seq<u8>)
    requires
        surface_fits(w, h),
        pixels.len() == 4 * w * h,
    ensures
        source_image(w, h, 1, Some(pixels), None) == Ok::<ImageView, CanvasError>(ImageView { width: w, height: h, pixels }),
        draw_of(paint, ImageView { width: w, height: h, pixels }, x, y, 1).dst.width_spec() == w,
        draw_of(paint, ImageView { width: w, height: h, pixels }, x, y, 1).dst.height_spec() == h,
{
    assert(pixels.len() == w as int * h as int * 4) by (nonlinear_arith)
        requires
            pixels.len() == 4 * w * h,
    ;
    lemma_dest_size(x, y, w, h, 1);
}

/// Drawing again with the image that a raw draw returned, at the same place
/// and scale, needs no raw bytes and ignores the size passed: it issues the
/// very draw the first call issued, to the same destination.
pub proof fn lemma_reuse_repeats_draw(
    c: CanvasView,
    x: i32,
    y: i32,
    w: u32,
    h: u32,
    scale: u32,
    pixels: Seq<u8>,
    w2: u32,
    h2: u32,
)
    requires
        source_image(w, h, scale, Some(pixels), None) is Ok,
    ensures
        ({
            let first = source_image(w, h, scale, Some(pixels), None)->Ok_0;
            let c1 = c.with_draw(draw_of(c.paint, first, x, y, scale));
            &&& source_image(w2, h2, scale, None, Some(first)) == Ok::<ImageView, CanvasError>(first)
            &&& c1.with_draw(draw_of(c1.paint, first, x, y, scale)).draws.last() == c1.draws.last()
            &&& c1.draws.last().dst == dest_rect(x, y, w, h, scale)
        }),
{
}

} // verus!
