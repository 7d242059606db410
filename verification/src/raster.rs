//! The raster that a render fills: eight-bit RGB pixels, row by row.

use image::{Rgb, RgbImage};
use vstd::prelude::*;

verus! {

/// A raster of eight-bit RGB pixels, kept in an `image::RgbImage`.
#[verifier::external_body]
pub struct Raster {
    inner: RgbImage,
}

/// The number of pixels in a row of the raster.
pub uninterp spec fn raster_width(r: Raster) -> int;

/// The number of rows of the raster.
pub uninterp spec fn raster_height(r: Raster) -> int;

/// The bytes of the raster: three for each pixel, red first, the pixels row
/// by row from the first row.
pub uninterp spec fn raster_bytes(r: Raster) -> Seq<u8>;

/// Where the first byte of the pixel in column `x` of row `y` stands.
pub open spec fn spec_offset(width: int, x: int, y: int) -> int {
    3 * (y * width + x)
}

/// The bytes with the three bytes from `offset` on replaced by `rgb`.
pub open spec fn spec_put(bytes: Seq<u8>, offset: int, rgb: Seq<u8>) -> Seq<u8> {
    bytes.update(offset, rgb[0]).update(offset + 1, rgb[1]).update(offset + 2, rgb[2])
}

/// Calls `image::ImageBuffer::new`, which makes a buffer of the given size
/// with every byte zero. It panics where the byte count does not fit a
/// vector, which `requires` leaves out.
#[verifier::external_body]
fn raster_new(width: u32, height: u32) -> (r: Raster)
    requires
        3 * width * height <= isize::MAX,
    ensures
        raster_width(r) == width,
        raster_height(r) == height,
        raster_bytes(r) == Seq::new((3 * width * height) as nat, |i: int| 0u8),
{
    Raster { inner: RgbImage::new(width, height) }
}

/// Calls `image::ImageBuffer::width`, which gives the width that the buffer
/// was made with.
#[verifier::external_body]
fn raster_width_of(r: &Raster) -> (w: u32)
    ensures
        w == raster_width(*r),
{
    r.inner.width()
}

/// Calls `image::ImageBuffer::height`, which gives the height that the
/// buffer was made with.
#[verifier::external_body]
fn raster_height_of(r: &Raster) -> (h: u32)
    ensures
        h == raster_height(*r),
{
    r.inner.height()
}

/// Calls `image::ImageBuffer::put_pixel`, which writes the pixel's three
/// bytes at its place and leaves the size and every other byte as they
/// were. It panics outside the raster, which `requires` leaves out.
#[verifier::external_body]
fn raster_put(r: &mut Raster, x: u32, y: u32, rgb: [u8; 3])
    requires
        x < raster_width(*old(r)),
        y < raster_height(*old(r)),
    ensures
        raster_width(*final(r)) == raster_width(*old(r)),
        raster_height(*final(r)) == raster_height(*old(r)),
        raster_bytes(*final(r)) == spec_put(
            raster_bytes(*old(r)),
            spec_offset(raster_width(*old(r)), x as int, y as int),
            rgb@,
        ),
{
    r.inner.put_pixel(x, y, Rgb(rgb));
}

/// Calls `image::ImageBuffer::get_pixel`, which reads the pixel's three
/// bytes at its place. It panics outside the raster, which `requires`
/// leaves out.
#[verifier::external_body]
fn raster_get(r: &Raster, x: u32, y: u32) -> (rgb: [u8; 3])
    requires
        x < raster_width(*r),
        y < raster_height(*r),
    ensures
        rgb@ == raster_bytes(*r).subrange(
            spec_offset(raster_width(*r), x as int, y as int),
            spec_offset(raster_width(*r), x as int, y as int) + 3,
        ),
{
    r.inner.get_pixel(x, y).0
}

/// Calls `image::ImageBuffer::as_raw`, which lends the buffer's bytes, and
/// copies them.
#[verifier::external_body]
fn raster_to_vec(r: &Raster) -> (bytes: Vec<u8>)
    ensures
        bytes@ == raster_bytes(*r),
{
    r.inner.as_raw().clone()
}

impl Raster {
    pub open spec fn spec_width(self) -> int {
        raster_width(self)
    }

    pub open spec fn spec_height(self) -> int {
        raster_height(self)
    }

    /// The raster holds three bytes for each of its pixels.
    pub open spec fn wf(self) -> bool {
        raster_bytes(self).len() == 3 * raster_width(self) * raster_height(self)
    }

    /// The three bytes of the pixel in column `x` of row `y`.
    pub open spec fn spec_pixel(self, x: int, y: int) -> Seq<u8> {
        raster_bytes(self).subrange(
            spec_offset(raster_width(self), x, y),
            spec_offset(raster_width(self), x, y) + 3,
        )
    }

    /// A raster of the given size with every pixel black.
    pub fn new(width: u32, height: u32) -> (r: Raster)
        requires
            3 * width * height <= isize::MAX,
        ensures
            r.wf(),
            r.spec_width() == width,
            r.spec_height() == height,
            forall|x: int, y: int|
                0 <= x < width && 0 <= y < height ==> #[trigger] r.spec_pixel(x, y) == seq![
                    0u8,
                    0u8,
                    0u8,
                ],
    {
        let r = raster_new(width, height);
        assert forall|x: int, y: int| 0 <= x < width && 0 <= y < height implies #[trigger] r.spec_pixel(
            x,
            y,
        ) == seq![0u8, 0u8, 0u8] by {
            lemma_offset_in_range(width as int, height as int, x, y);
            assert(r.spec_pixel(x, y) =~= seq![0u8, 0u8, 0u8]);
        }
        r
    }

    pub fn width(&self) -> (w: u32)
        ensures
            w == self.spec_width(),
    {
        raster_width_of(self)
    }

    pub fn height(&self) -> (h: u32)
        ensures
            h == self.spec_height(),
    {
        raster_height_of(self)
    }

    /// The pixel in column `x` of row `y`.
    pub fn pixel(&self, x: u32, y: u32) -> (rgb: [u8; 3])
        requires
            x < self.spec_width(),
            y < self.spec_height(),
        ensures
            rgb@ == self.spec_pixel(x as int, y as int),
    {
        raster_get(self, x, y)
    }

    /// Sets the pixel in column `x` of row `y` and leaves every other pixel
    /// as it was.
    pub fn put(&mut self, x: u32, y: u32, rgb: [u8; 3])
        requires
            old(self).wf(),
            x < old(self).spec_width(),
            y < old(self).spec_height(),
        ensures
            final(self).wf(),
            final(self).spec_width() == old(self).spec_width(),
            final(self).spec_height() == old(self).spec_height(),
            final(self).spec_pixel(x as int, y as int) == rgb@,
            forall|x2: int, y2: int|
                0 <= x2 < old(self).spec_width() && 0 <= y2 < old(self).spec_height() && (x2 != x
                    || y2 != y) ==> #[trigger] final(self).spec_pixel(x2, y2) == old(
                    self,
                ).spec_pixel(x2, y2),
    {
        let ghost before = *self;
        raster_put(self, x, y, rgb);
        proof {
            let w = raster_width(before);
            let h = raster_height(before);
            lemma_offset_in_range(w, h, x as int, y as int);
            assert(self.spec_pixel(x as int, y as int) =~= rgb@);
            assert forall|x2: int, y2: int|
                0 <= x2 < w && 0 <= y2 < h && (x2 != x || y2 != y) implies #[trigger] self.spec_pixel(
                x2,
                y2,
            ) == before.spec_pixel(x2, y2) by {
                lemma_offset_in_range(w, h, x2, y2);
                lemma_offsets_apart(w, x as int, y as int, x2, y2);
                assert(self.spec_pixel(x2, y2) =~= before.spec_pixel(x2, y2));
            }
        }
    }

    /// The bytes of the raster: three for each pixel, red first, the pixels
    /// row by row from the first row.
    pub fn to_bytes(&self) -> (bytes: Vec<u8>)
        ensures
            bytes@ == raster_bytes(*self),
    {
        raster_to_vec(self)
    }
}

/// The three bytes of a pixel of the raster lie within its bytes.
pub proof fn lemma_offset_in_range(width: int, height: int, x: int, y: int)
    requires
        0 <= x < width,
        0 <= y < height,
    ensures
        0 <= spec_offset(width, x, y),
        spec_offset(width, x, y) + 3 <= 3 * width * height,
{
    assert(y * width + x + 1 <= width * height && 0 <= y * width) by (nonlinear_arith)
        requires
            0 <= x < width,
            0 <= y < height,
    ;
    assert(3 * width * height == 3 * (width * height)) by (nonlinear_arith);
}

/// Two pixels of a raster do not share a byte.
pub proof fn lemma_offsets_apart(width: int, x1: int, y1: int, x2: int, y2: int)
    requires
        0 <= x1 < width,
        0 <= x2 < width,
        0 <= y1,
        0 <= y2,
        x1 != x2 || y1 != y2,
    ensures
        spec_offset(width, x1, y1) + 3 <= spec_offset(width, x2, y2) || spec_offset(width, x2, y2)
            + 3 <= spec_offset(width, x1, y1),
{
    if y1 < y2 {
        assert(y1 * width + x1 + 1 <= y2 * width + x2) by (nonlinear_arith)
            requires
                0 <= x1 < width,
                0 <= x2,
                y1 + 1 <= y2,
        ;
    } else if y2 < y1 {
        assert(y2 * width + x2 + 1 <= y1 * width + x1) by (nonlinear_arith)
            requires
                0 <= x2 < width,
                0 <= x1,
                y2 + 1 <= y1,
        ;
    }
}

} // verus!
