//! The pixel buffer of the `image` crate, as the rasterizer sees it.
//!
//! The buffer itself is opaque here. Its contents are spoken of through two
//! names: its size, and the colour of each of its pixels. The contracts of
//! `new_canvas`, `put_pixel`, `dimensions` and `get_pixel` are taken on trust
//! from the source of `image`; the rest of the library is proved against
//! them.

use vstd::prelude::*;
use image::{ImageBuffer, Rgb};
use crate::utils::Color;

verus! {

/// An RGB pixel buffer of 8-bit channels: an `ImageBuffer<Rgb<u8>, Vec<u8>>`
/// of the `image` crate, whose inside is hidden from the proofs.
#[verifier::external_body]
pub struct Canvas {
    buffer: ImageBuffer<Rgb<u8>, Vec<u8>>,
}

/// Width and height of a buffer, in this order.
pub uninterp spec fn canvas_size(img: Canvas) -> (nat, nat);

/// The pixels of a buffer: the channels `(red, green, blue)` at each
/// position `(x, y)` with `x` below the width and `y` below the height.
pub uninterp spec fn canvas_pixels(img: Canvas) -> Map<(nat, nat), (u8, u8, u8)>;

/// The positions inside a canvas of the given size.
pub open spec fn positions(width: nat, height: nat) -> Set<(nat, nat)> {
    Set::new(|p: (nat, nat)| p.0 < width && p.1 < height)
}

/// The pixels of a canvas of the given size that is black all over.
pub open spec fn blank_pixels(width: nat, height: nat) -> Map<(nat, nat), (u8, u8, u8)> {
    Map::new(|p: (nat, nat)| p.0 < width && p.1 < height, |p: (nat, nat)| (0u8, 0u8, 0u8))
}

/// `ImageBuffer::new`: a buffer of the given size whose samples are all zero.
/// It panics when three times the pixel count does not fit the length of a
/// vector, so such sizes are left out. A size that fits and that the
/// machine has no memory for ends the process.
#[verifier::external_body]
pub(crate) fn new_canvas(width: u32, height: u32) -> (img: Canvas)
    requires
        3 * width * height <= isize::MAX,
    ensures
        canvas_size(img) == (width as nat, height as nat),
        canvas_pixels(img) == blank_pixels(width as nat, height as nat),
{
    Canvas { buffer: ImageBuffer::new(width, height) }
}

/// `ImageBuffer::put_pixel`: sets the pixel at `(x, y)` and leaves the size
/// and every other pixel as they were. It panics on a position outside the
/// buffer, so such positions are left out.
#[verifier::external_body]
pub(crate) fn put_pixel(img: &mut Canvas, x: u32, y: u32, color: Color)
    requires
        x < canvas_size(*old(img)).0,
        y < canvas_size(*old(img)).1,
    ensures
        canvas_size(*final(img)) == canvas_size(*old(img)),
        canvas_pixels(*final(img)) == canvas_pixels(*old(img)).insert(
            (x as nat, y as nat),
            color.channels(),
        ),
{
    img.buffer.put_pixel(x, y, Rgb([color.r, color.g, color.b]))
}

/// `ImageBuffer::dimensions`: the width and the height of the buffer.
#[verifier::external_body]
pub(crate) fn dimensions(img: &Canvas) -> (d: (u32, u32))
    ensures
        canvas_size(*img) == (d.0 as nat, d.1 as nat),
{
    img.buffer.dimensions()
}

/// `ImageBuffer::get_pixel`: the pixel at `(x, y)`. It panics on a position
/// outside the buffer, so such positions are left out.
#[verifier::external_body]
pub(crate) fn get_pixel(img: &Canvas, x: u32, y: u32) -> (color: Color)
    requires
        x < canvas_size(*img).0,
        y < canvas_size(*img).1,
    ensures
        color.channels() == canvas_pixels(*img)[(x as nat, y as nat)],
{
    let p = img.buffer.get_pixel(x, y);
    Color { r: p.0[0], g: p.0[1], b: p.0[2] }
}

impl Canvas {
    /// The canvas holds a pixel at each position inside its size, and at no
    /// other.
    pub open spec fn wf(self) -> bool {
        canvas_pixels(self).dom() == positions(canvas_size(self).0, canvas_size(self).1)
    }

    /// The width of the canvas, in pixels.
    pub fn width(&self) -> (w: u32)
        ensures
            w == canvas_size(*self).0,
    {
        dimensions(self).0
    }

    /// The height of the canvas, in pixels.
    pub fn height(&self) -> (h: u32)
        ensures
            h == canvas_size(*self).1,
    {
        dimensions(self).1
    }

    /// The colour at `(x, y)`, or `None` for a position outside the canvas.
    pub fn pixel(&self, x: u32, y: u32) -> (found: Option<Color>)
        ensures
            found is Some <==> x < canvas_size(*self).0 && y < canvas_size(*self).1,
            found is Some ==> found->0.channels() == canvas_pixels(*self)[(x as nat, y as nat)],
    {
        let (w, h) = dimensions(self);
        if x < w && y < h {
            Some(get_pixel(self, x, y))
        } else {
            None
        }
    }
}

} // verus!
