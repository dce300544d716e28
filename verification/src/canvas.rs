//! The pixel canvas: an RGB raster kept in an `image::ImageBuffer`.
//!
//! The buffer itself is opaque to the verifier. What it holds is named by
//! three uninterpreted functions, and every operation on it goes through a
//! small trusted wrapper whose contract restates what the `image` crate's
//! source shows of the method it calls.

use vstd::prelude::*;
use image::ImageBuffer;
use image::Rgb;

verus! {

/// An RGB raster with 8 bits per channel, stored row by row.
#[verifier::external_body]
pub struct Canvas {
    buffer: ImageBuffer<Rgb<u8>, Vec<u8>>,
}

/// Width in pixels, as `ImageBuffer::width` reports it.
pub uninterp spec fn canvas_width(canvas: Canvas) -> u32;

/// Height in pixels, as `ImageBuffer::height` reports it.
pub uninterp spec fn canvas_height(canvas: Canvas) -> u32;

/// The colour of each pixel, keyed by `(x, y)` with `(0, 0)` at the top left.
pub uninterp spec fn canvas_pixels(canvas: Canvas) -> Map<(int, int), (u8, u8, u8)>;

/// The mathematical content of a canvas.
pub struct Raster {
    pub width: nat,
    pub height: nat,
    pub pixels: Map<(int, int), (u8, u8, u8)>,
}

/// `bytes` starts with the row-major RGB encoding of a `width` by `height`
/// image whose pixels are `pixels`: pixel `(x, y)` occupies the three bytes
/// from offset `3 * (y * width + x)` on.
pub open spec fn spec_encodes(
    width: nat,
    height: nat,
    pixels: Map<(int, int), (u8, u8, u8)>,
    bytes: Seq<u8>,
) -> bool {
    &&& 3 * width * height <= bytes.len()
    &&& forall|x: int, y: int|
        0 <= x < width && 0 <= y < height ==> #[trigger] pixels[(x, y)] == (
            bytes[3 * (y * width + x)],
            bytes[3 * (y * width + x) + 1],
            bytes[3 * (y * width + x) + 2],
        )
}

impl Raster {
    /// `(x, y)` names a pixel of the raster.
    pub open spec fn contains(self, x: int, y: int) -> bool {
        0 <= x < self.width && 0 <= y < self.height
    }

    /// `bytes` starts with the row-major RGB encoding of the raster.
    pub open spec fn encoded_in(self, bytes: Seq<u8>) -> bool {
        spec_encodes(self.width, self.height, self.pixels, bytes)
    }
}

impl View for Canvas {
    type V = Raster;

    open spec fn view(&self) -> Raster {
        Raster {
            width: canvas_width(*self) as nat,
            height: canvas_height(*self) as nat,
            pixels: canvas_pixels(*self),
        }
    }
}

/// A vector can hold the bytes of a `width` by `height` image.
pub open spec fn spec_allocatable(width: nat, height: nat) -> bool {
    &&& 3 * width <= usize::MAX
    &&& 3 * width * height <= isize::MAX
}

/// `len` bytes are enough for a `width` by `height` image.
pub open spec fn spec_covers(width: nat, height: nat, len: nat) -> bool {
    &&& 3 * width <= usize::MAX
    &&& 3 * width * height <= len
}

/// The colour a fresh canvas is filled with.
pub open spec fn spec_white() -> (u8, u8, u8) {
    (255u8, 255u8, 255u8)
}

/// `ImageBuffer::from_pixel`: a buffer of the given size with every pixel set
/// to `fill`. The call panics where the byte length, computed as three times
/// the width times the height, overflows `usize` on the way, or where it is
/// more than a vector can hold; the precondition rules both out.
#[verifier::external_body]
fn filled(width: u32, height: u32, fill: (u8, u8, u8)) -> (canvas: Canvas)
    requires
        spec_allocatable(width as nat, height as nat),
    ensures
        canvas_width(canvas) == width,
        canvas_height(canvas) == height,
        forall|x: int, y: int|
            0 <= x < width && 0 <= y < height ==> #[trigger] canvas_pixels(canvas)[(x, y)] == fill,
{
    Canvas { buffer: ImageBuffer::from_pixel(width, height, Rgb([fill.0, fill.1, fill.2])) }
}

/// `ImageBuffer::width`.
#[verifier::external_body]
fn width_of(canvas: &Canvas) -> (w: u32)
    ensures
        w == canvas_width(*canvas),
{
    canvas.buffer.width()
}

/// `ImageBuffer::height`.
#[verifier::external_body]
fn height_of(canvas: &Canvas) -> (h: u32)
    ensures
        h == canvas_height(*canvas),
{
    canvas.buffer.height()
}

/// `ImageBuffer::get_pixel`: the pixel at `(x, y)`. The call panics outside
/// the image, which the precondition rules out.
#[verifier::external_body]
fn get(canvas: &Canvas, x: u32, y: u32) -> (color: (u8, u8, u8))
    requires
        x < canvas_width(*canvas),
        y < canvas_height(*canvas),
    ensures
        color == canvas_pixels(*canvas)[(x as int, y as int)],
{
    let pixel = canvas.buffer.get_pixel(x, y);
    (pixel.0[0], pixel.0[1], pixel.0[2])
}

/// `ImageBuffer::put_pixel`: overwrites the pixel at `(x, y)` and nothing
/// else. The call panics outside the image, which the precondition rules out.
#[verifier::external_body]
fn put(canvas: &mut Canvas, x: u32, y: u32, color: (u8, u8, u8))
    requires
        x < canvas_width(*old(canvas)),
        y < canvas_height(*old(canvas)),
    ensures
        canvas_width(*final(canvas)) == canvas_width(*old(canvas)),
        canvas_height(*final(canvas)) == canvas_height(*old(canvas)),
        canvas_pixels(*final(canvas)) == canvas_pixels(*old(canvas)).insert(
            (x as int, y as int),
            color,
        ),
{
    canvas.buffer.put_pixel(x, y, Rgb([color.0, color.1, color.2]))
}

/// `ImageBuffer::into_raw`: the underlying byte vector, which starts with
/// the pixels row by row, three bytes each.
#[verifier::external_body]
fn raw_of(canvas: Canvas) -> (bytes: Vec<u8>)
    ensures
        spec_encodes(
            canvas_width(canvas) as nat,
            canvas_height(canvas) as nat,
            canvas_pixels(canvas),
            bytes@,
        ),
{
    canvas.buffer.into_raw()
}

/// `ImageBuffer::from_raw`: adopts `bytes` as the pixels of an image of the
/// given size, row by row, three bytes each; `None` where `bytes` is shorter
/// than the image, or where three times the width already overflows `usize`.
#[verifier::external_body]
fn wrap(width: u32, height: u32, bytes: Vec<u8>) -> (r: Option<Canvas>)
    ensures
        r.is_some() <==> spec_covers(width as nat, height as nat, bytes@.len()),
        r matches Some(canvas) ==> canvas_width(canvas) == width && canvas_height(canvas) == height
            && spec_encodes(width as nat, height as nat, canvas_pixels(canvas), bytes@),
{
    match ImageBuffer::from_raw(width, height, bytes) {
        Some(buffer) => Some(Canvas { buffer }),
        None => None,
    }
}

impl Canvas {
    /// A white canvas of the given size, or `None` where a vector cannot hold
    /// its bytes.
    pub fn white(width: u32, height: u32) -> (r: Option<Canvas>)
        ensures
            r.is_some() <==> spec_allocatable(width as nat, height as nat),
            r matches Some(canvas) ==> canvas@.width == width && canvas@.height == height
                && forall|x: int, y: int|
                canvas@.contains(x, y) ==> #[trigger] canvas@.pixels[(x, y)] == spec_white(),
    {
        let w: u64 = width as u64;
        let h: u64 = height as u64;
        assert(w * h <= 0xFFFF_FFFF * 0xFFFF_FFFF) by (nonlinear_arith)
            requires
                w <= 0xFFFF_FFFF,
                h <= 0xFFFF_FFFF,
        ;
        let area: u64 = w * h;
        assert(3 * width * height == 3 * area) by (nonlinear_arith)
            requires
                area == width * height,
        ;
        if 3 * w <= usize::MAX as u64 && area <= (isize::MAX as u64) / 3 {
            Some(filled(width, height, (255, 255, 255)))
        } else {
            None
        }
    }

    /// Width in pixels.
    pub fn width(&self) -> (w: u32)
        ensures
            w == self@.width,
    {
        width_of(self)
    }

    /// Height in pixels.
    pub fn height(&self) -> (h: u32)
        ensures
            h == self@.height,
    {
        height_of(self)
    }

    /// The colour at `(x, y)`, or `None` outside the canvas.
    pub fn pixel(&self, x: u32, y: u32) -> (r: Option<(u8, u8, u8)>)
        ensures
            self@.contains(x as int, y as int) ==> r == Some(self@.pixels[(x as int, y as int)]),
            !self@.contains(x as int, y as int) ==> r.is_none(),
    {
        if x < width_of(self) && y < height_of(self) {
            Some(get(self, x, y))
        } else {
            None
        }
    }

    /// Sets the colour at `(x, y)`. Returns `false`, leaving the canvas as it
    /// was, where `(x, y)` lies outside it.
    pub fn set_pixel(&mut self, x: u32, y: u32, color: (u8, u8, u8)) -> (done: bool)
        ensures
            done == old(self)@.contains(x as int, y as int),
            final(self)@.width == old(self)@.width,
            final(self)@.height == old(self)@.height,
            done ==> final(self)@.pixels == old(self)@.pixels.insert((x as int, y as int), color),
            !done ==> final(self)@.pixels == old(self)@.pixels,
    {
        if x < width_of(self) && y < height_of(self) {
            put(self, x, y, color);
            true
        } else {
            false
        }
    }

    /// Gives up the canvas for its bytes: the pixels row by row, three bytes
    /// each.
    pub fn into_raw(self) -> (bytes: Vec<u8>)
        ensures
            self@.encoded_in(bytes@),
    {
        raw_of(self)
    }

    /// Builds a canvas of the given size over `bytes`, read as pixels row by
    /// row, three bytes each; `None` where `bytes` is too short.
    pub fn from_raw(width: u32, height: u32, bytes: Vec<u8>) -> (r: Option<Canvas>)
        ensures
            r.is_some() <==> spec_covers(width as nat, height as nat, bytes@.len()),
            r matches Some(canvas) ==> canvas@.width == width && canvas@.height == height
                && canvas@.encoded_in(bytes@),
    {
        wrap(width, height, bytes)
    }
}

} // verus!
