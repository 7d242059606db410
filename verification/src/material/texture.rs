//! Surface colourings.

use crate::color::Color;
use crate::fixed::{trunc_div, Fixed, ONE_RAW};
use crate::vec3::Vec3;
use vstd::prelude::*;

verus! {

/// Raw steps in half a turn of the checker pattern: pi, rounded down.
pub const PI_RAW: i64 = 205887;

/// The sign of the sine of `y`, taking `PI_RAW` steps for half a turn: `1`,
/// `-1`, or `0` at a whole multiple of half a turn.
pub open spec fn spec_sine_sign(y: Fixed) -> int {
    let m = y@ % (2 * PI_RAW);
    if m == 0 || m == PI_RAW {
        0
    } else if m < PI_RAW {
        1
    } else {
        -1
    }
}

/// The sign of the sine of `y`.
pub fn sine_sign(y: Fixed) -> (s: i8)
    ensures
        s == spec_sine_sign(y),
{
    let turn: i128 = 2 * (PI_RAW as i128);
    let raw: i128 = y.raw() as i128;
    let m: i128 = if raw >= 0 {
        raw % turn
    } else {
        let k: i128 = (-raw) % turn;
        if k == 0 {
            0
        } else {
            turn - k
        }
    };
    assert(m == raw % turn);
    if m == 0 || m == PI_RAW as i128 {
        0
    } else if m < PI_RAW as i128 {
        1
    } else {
        -1
    }
}

/// One colour everywhere.
#[derive(Clone, Copy, Debug)]
pub struct ColorTexture {
    pub color: Color,
}

impl ColorTexture {
    pub fn new(color: Color) -> (t: ColorTexture)
        ensures
            t.color == color,
    {
        ColorTexture { color }
    }

    pub fn value(&self, u: Fixed, v: Fixed, p: Vec3) -> (c: Color)
        ensures
            c == self.color,
    {
        self.color
    }
}

/// Two colourings that alternate in space, `freq` turns per unit.
#[derive(Debug)]
pub struct CheckerTexture {
    pub odd: Box<Texture>,
    pub even: Box<Texture>,
    pub freq: Fixed,
}

impl CheckerTexture {
    /// The point lies in an odd cell: the product of the sines of the three
    /// scaled coordinates is negative.
    pub open spec fn spec_is_odd(self, p: Vec3) -> bool {
        spec_sine_sign(p.x.spec_mul(self.freq)) * spec_sine_sign(p.y.spec_mul(self.freq))
            * spec_sine_sign(p.z.spec_mul(self.freq)) < 0
    }

    pub fn new(odd: Box<Texture>, even: Box<Texture>, freq: Fixed) -> (t: CheckerTexture)
        ensures
            t.odd == odd,
            t.even == even,
            t.freq == freq,
    {
        CheckerTexture { odd, even, freq }
    }

    pub fn is_odd(&self, p: Vec3) -> (b: bool)
        ensures
            b == self.spec_is_odd(p),
    {
        let sx: i8 = sine_sign(p.x.mul(self.freq));
        let sy: i8 = sine_sign(p.y.mul(self.freq));
        let sz: i8 = sine_sign(p.z.mul(self.freq));
        assert(sx * sy * sz == (sx * sy) * sz);
        assert(-1 <= sx * sy <= 1 && -1 <= (sx * sy) * sz <= 1) by (nonlinear_arith)
            requires
                -1 <= sx <= 1,
                -1 <= sy <= 1,
                -1 <= sz <= 1,
        ;
        sx * sy * sz < 0
    }
}

/// A raster of colours, row by row from the top.
#[derive(Debug)]
pub struct ImageTexture {
    pixels: Vec<Color>,
    width: usize,
    height: usize,
}

/// The index on an axis of `len` cells that a coordinate stands for: itself
/// where it is a cell, the last cell where it is negative or beyond.
pub open spec fn spec_axis_index(i: int, len: int) -> int {
    if 0 <= i < len {
        i
    } else {
        len - 1
    }
}

impl ImageTexture {
    #[verifier::type_invariant]
    spec fn wf(self) -> bool {
        &&& self.width > 0
        &&& self.height > 0
        &&& self.pixels@.len() == self.width * self.height
    }

    pub closed spec fn spec_width(self) -> int {
        self.width as int
    }

    pub closed spec fn spec_height(self) -> int {
        self.height as int
    }

    pub closed spec fn spec_pixels(self) -> Seq<Color> {
        self.pixels@
    }

    /// The colour of the cell that the coordinates stand for.
    pub open spec fn spec_sample(self, u: int, v: int) -> Color {
        self.spec_pixels()[spec_axis_index(u, self.spec_width()) + self.spec_width()
            * spec_axis_index(v, self.spec_height())]
    }

    /// The colour at the surface coordinates, each scaled by the raster's
    /// size and rounded toward zero.
    pub open spec fn spec_value(self, u: Fixed, v: Fixed) -> Color {
        self.spec_sample(
            trunc_div(u@ * self.spec_width(), ONE_RAW as int),
            trunc_div(v@ * self.spec_height(), ONE_RAW as int),
        )
    }

    /// The raster of the given pixels, where `width` and `height` are not
    /// zero and the pixels fill it.
    pub fn from_pixels(pixels: Vec<Color>, width: usize, height: usize) -> (t: Option<ImageTexture>)
        ensures
            t is Some <==> width > 0 && height > 0 && pixels@.len() == width * height,
            t matches Some(img) ==> img.spec_pixels() == pixels@ && img.spec_width() == width
                && img.spec_height() == height,
    {
        let count: usize = pixels.len();
        if width == 0 || height == 0 {
            return None;
        }
        match width.checked_mul(height) {
            Some(n) => {
                if count == n {
                    Some(ImageTexture { pixels, width, height })
                } else {
                    None
                }
            },
            None => None,
        }
    }

    pub fn width(&self) -> (w: usize)
        ensures
            w == self.spec_width(),
            w > 0,
    {
        proof {
            use_type_invariant(self);
        }
        self.width
    }

    pub fn height(&self) -> (h: usize)
        ensures
            h == self.spec_height(),
            h > 0,
    {
        proof {
            use_type_invariant(self);
        }
        self.height
    }

    /// The colour of the cell in column `tu` of row `tv`.
    fn cell(&self, tu: usize, tv: usize) -> (c: Color)
        requires
            tu < self.spec_width(),
            tv < self.spec_height(),
        ensures
            c == self.spec_pixels()[tu + self.spec_width() * tv],
    {
        proof {
            use_type_invariant(self);
        }
        let count: usize = self.pixels.len();
        assert(tu + self.width * tv < self.width * self.height && 0 <= self.width * tv) by (nonlinear_arith)
            requires
                tu < self.width,
                tv < self.height,
        ;
        self.pixels[tu + self.width * tv]
    }

    pub fn sample(&self, u: i64, v: i64) -> (c: Color)
        ensures
            c == self.spec_sample(u as int, v as int),
    {
        let tu: usize = axis_index(u as i128, self.width());
        let tv: usize = axis_index(v as i128, self.height());
        self.cell(tu, tv)
    }

    pub fn value(&self, u: Fixed, v: Fixed, p: Vec3) -> (c: Color)
        ensures
            c == self.spec_value(u, v),
    {
        let tu: usize = axis_index(scaled(u, self.width()), self.width());
        let tv: usize = axis_index(scaled(v, self.height()), self.height());
        self.cell(tu, tv)
    }
}

/// The cell on an axis of `len` cells that the coordinate `i` stands for.
fn axis_index(i: i128, len: usize) -> (t: usize)
    requires
        len > 0,
    ensures
        t == spec_axis_index(i as int, len as int),
{
    if 0 <= i && i < len as i128 {
        i as usize
    } else {
        len - 1
    }
}

/// `t` times `len`, rounded toward zero.
fn scaled(t: Fixed, len: usize) -> (q: i128)
    ensures
        q == trunc_div(t@ * len, ONE_RAW as int),
{
    let a: i128 = t.raw() as i128;
    let b: i128 = len as i128;
    assert(-0x8000_0000_0000_0000_0000_0000_0000_0000 <= a * b
        <= 0x7fff_ffff_ffff_ffff_0000_0000_0000_0000) by (nonlinear_arith)
        requires
            -0x8000_0000_0000_0000 <= a <= 0x7fff_ffff_ffff_ffff,
            0 <= b <= 0x1_0000_0000_0000_0000,
    ;
    (a * b) / (ONE_RAW as i128)
}

/// A colouring of a surface.
#[derive(Debug)]
pub enum Texture {
    Color(ColorTexture),
    Checker(CheckerTexture),
    Image(ImageTexture),
}

impl Texture {
    /// The colour at the surface coordinates `(u, v)` and the point `p`.
    pub open spec fn spec_value(self, u: Fixed, v: Fixed, p: Vec3) -> Color
        decreases self,
    {
        match self {
            Texture::Color(t) => t.color,
            Texture::Checker(t) => if t.spec_is_odd(p) {
                t.odd.spec_value(u, v, p)
            } else {
                t.even.spec_value(u, v, p)
            },
            Texture::Image(t) => t.spec_value(u, v),
        }
    }

    pub fn value(&self, u: Fixed, v: Fixed, p: Vec3) -> (c: Color)
        ensures
            c == self.spec_value(u, v, p),
        decreases self,
    {
        match self {
            Texture::Color(t) => t.value(u, v, p),
            Texture::Checker(t) => if t.is_odd(p) {
                t.odd.value(u, v, p)
            } else {
                t.even.value(u, v, p)
            },
            Texture::Image(t) => t.value(u, v, p),
        }
    }
}

} // verus!
