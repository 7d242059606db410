//! Linear RGB colours and their eight-bit encoding.

use crate::fixed::{floor_sqrt, lemma_floor_sqrt_exists, trunc_div, Fixed, ONE_RAW};
use crate::ppm::{push_line, spec_line};
use crate::utils::random;
use vstd::prelude::*;

verus! {

/// A colour of three linear channels; one is full intensity.
#[derive(Clone, Copy, Debug, PartialEq, Eq, Structural)]
pub struct Color {
    pub r: Fixed,
    pub g: Fixed,
    pub b: Fixed,
}

/// The byte that encodes a channel: 256 times the channel, rounded toward
/// zero, and clamped into `0..=255`.
pub open spec fn spec_channel_byte(c: Fixed) -> u8 {
    let scaled = trunc_div(c@, 256);
    if scaled < 0 {
        0u8
    } else if scaled > 255 {
        255u8
    } else {
        scaled as u8
    }
}

/// Encodes one channel as a byte.
pub fn channel_byte(c: Fixed) -> (b: u8)
    ensures
        b == spec_channel_byte(c),
{
    let scaled: i64 = c.raw() / 256;
    if scaled < 0 {
        0
    } else if scaled > 255 {
        255
    } else {
        scaled as u8
    }
}

impl Color {
    /// The line of the colour in a plain-text pixel map: the three bytes in
    /// decimal, red first, with a space between them and a line feed after
    /// them.
    pub open spec fn spec_to_string(self) -> Seq<char> {
        spec_line(spec_channel_byte(self.r), spec_channel_byte(self.g), spec_channel_byte(self.b))
    }

    /// The colour that a pixel shows for the sum of `samples_per_pixel`
    /// samples: their mean, encoded for display with gamma two.
    pub open spec fn spec_mean_gamma(self, samples_per_pixel: u32) -> Color {
        self.spec_div_scalar(Fixed::spec_from_u32(samples_per_pixel)).spec_linear2gamma()
    }

    pub open spec fn spec_new(r: Fixed, g: Fixed, b: Fixed) -> Color {
        Color { r, g, b }
    }

    pub open spec fn spec_black() -> Color {
        Color { r: Fixed::spec_zero(), g: Fixed::spec_zero(), b: Fixed::spec_zero() }
    }

    pub open spec fn spec_white() -> Color {
        Color { r: Fixed::spec_one(), g: Fixed::spec_one(), b: Fixed::spec_one() }
    }

    pub open spec fn spec_add(self, rhs: Color) -> Color {
        Color { r: self.r.spec_add(rhs.r), g: self.g.spec_add(rhs.g), b: self.b.spec_add(rhs.b) }
    }

    pub open spec fn spec_sub(self, rhs: Color) -> Color {
        Color { r: self.r.spec_sub(rhs.r), g: self.g.spec_sub(rhs.g), b: self.b.spec_sub(rhs.b) }
    }

    /// Channel by channel product.
    pub open spec fn spec_mul(self, rhs: Color) -> Color {
        Color { r: self.r.spec_mul(rhs.r), g: self.g.spec_mul(rhs.g), b: self.b.spec_mul(rhs.b) }
    }

    /// Channel by channel quotient.
    pub open spec fn spec_div(self, rhs: Color) -> Color {
        Color { r: self.r.spec_div(rhs.r), g: self.g.spec_div(rhs.g), b: self.b.spec_div(rhs.b) }
    }

    pub open spec fn spec_add_scalar(self, k: Fixed) -> Color {
        Color { r: self.r.spec_add(k), g: self.g.spec_add(k), b: self.b.spec_add(k) }
    }

    pub open spec fn spec_sub_scalar(self, k: Fixed) -> Color {
        Color { r: self.r.spec_sub(k), g: self.g.spec_sub(k), b: self.b.spec_sub(k) }
    }

    pub open spec fn spec_scale(self, k: Fixed) -> Color {
        Color { r: self.r.spec_mul(k), g: self.g.spec_mul(k), b: self.b.spec_mul(k) }
    }

    pub open spec fn spec_div_scalar(self, k: Fixed) -> Color {
        Color { r: self.r.spec_div(k), g: self.g.spec_div(k), b: self.b.spec_div(k) }
    }

    /// `self + (c - self) t`.
    pub open spec fn spec_lerp(self, c: Color, t: Fixed) -> Color {
        self.spec_add(c.spec_sub(self).spec_scale(t))
    }

    /// The display encoding for gamma two: the square root of each channel.
    pub open spec fn spec_linear2gamma(self) -> Color {
        Color { r: self.r.spec_sqrt(), g: self.g.spec_sqrt(), b: self.b.spec_sqrt() }
    }

    /// The inverse of the display encoding for gamma two: the square of each
    /// channel.
    pub open spec fn spec_gamma2linear(self) -> Color {
        Color { r: self.r.spec_mul(self.r), g: self.g.spec_mul(self.g), b: self.b.spec_mul(self.b) }
    }

    /// The three bytes that encode the colour.
    pub open spec fn spec_to_rgb(self) -> Seq<u8> {
        seq![spec_channel_byte(self.r), spec_channel_byte(self.g), spec_channel_byte(self.b)]
    }

    /// Every channel is at least zero and below one.
    pub open spec fn in_unit_cube(self) -> bool {
        &&& 0 <= self.r@ < ONE_RAW
        &&& 0 <= self.g@ < ONE_RAW
        &&& 0 <= self.b@ < ONE_RAW
    }

    pub fn new(r: Fixed, g: Fixed, b: Fixed) -> (c: Color)
        ensures
            c == Color::spec_new(r, g, b),
    {
        Color { r, g, b }
    }

    pub fn black() -> (c: Color)
        ensures
            c == Color::spec_black(),
    {
        Color { r: Fixed::zero(), g: Fixed::zero(), b: Fixed::zero() }
    }

    pub fn white() -> (c: Color)
        ensures
            c == Color::spec_white(),
    {
        Color { r: Fixed::one(), g: Fixed::one(), b: Fixed::one() }
    }

    pub fn red() -> (c: Color)
        ensures
            c == Color::spec_new(Fixed::spec_one(), Fixed::spec_zero(), Fixed::spec_zero()),
    {
        Color { r: Fixed::one(), g: Fixed::zero(), b: Fixed::zero() }
    }

    pub fn green() -> (c: Color)
        ensures
            c == Color::spec_new(Fixed::spec_zero(), Fixed::spec_one(), Fixed::spec_zero()),
    {
        Color { r: Fixed::zero(), g: Fixed::one(), b: Fixed::zero() }
    }

    pub fn blue() -> (c: Color)
        ensures
            c == Color::spec_new(Fixed::spec_zero(), Fixed::spec_zero(), Fixed::spec_one()),
    {
        Color { r: Fixed::zero(), g: Fixed::zero(), b: Fixed::one() }
    }

    /// A colour of three random channels, each at least zero and below one.
    pub fn random() -> (c: Color)
        ensures
            c.in_unit_cube(),
    {
        let r = random();
        let g = random();
        let b = random();
        Color { r, g, b }
    }

    pub fn add(self, rhs: Color) -> (c: Color)
        ensures
            c == self.spec_add(rhs),
    {
        Color { r: self.r.add(rhs.r), g: self.g.add(rhs.g), b: self.b.add(rhs.b) }
    }

    pub fn sub(self, rhs: Color) -> (c: Color)
        ensures
            c == self.spec_sub(rhs),
    {
        Color { r: self.r.sub(rhs.r), g: self.g.sub(rhs.g), b: self.b.sub(rhs.b) }
    }

    pub fn mul(self, rhs: Color) -> (c: Color)
        ensures
            c == self.spec_mul(rhs),
    {
        Color { r: self.r.mul(rhs.r), g: self.g.mul(rhs.g), b: self.b.mul(rhs.b) }
    }

    pub fn div(self, rhs: Color) -> (c: Color)
        ensures
            c == self.spec_div(rhs),
    {
        Color { r: self.r.div(rhs.r), g: self.g.div(rhs.g), b: self.b.div(rhs.b) }
    }

    pub fn add_scalar(self, k: Fixed) -> (c: Color)
        ensures
            c == self.spec_add_scalar(k),
    {
        Color { r: self.r.add(k), g: self.g.add(k), b: self.b.add(k) }
    }

    pub fn sub_scalar(self, k: Fixed) -> (c: Color)
        ensures
            c == self.spec_sub_scalar(k),
    {
        Color { r: self.r.sub(k), g: self.g.sub(k), b: self.b.sub(k) }
    }

    /// The colour with every channel multiplied by `k`.
    pub fn scale(self, k: Fixed) -> (c: Color)
        ensures
            c == self.spec_scale(k),
    {
        Color { r: self.r.mul(k), g: self.g.mul(k), b: self.b.mul(k) }
    }

    pub fn div_scalar(self, k: Fixed) -> (c: Color)
        ensures
            c == self.spec_div_scalar(k),
    {
        Color { r: self.r.div(k), g: self.g.div(k), b: self.b.div(k) }
    }

    pub fn add_assign(&mut self, rhs: Color)
        ensures
            *final(self) == old(self).spec_add(rhs),
    {
        *self = self.add(rhs);
    }

    pub fn sub_assign(&mut self, rhs: Color)
        ensures
            *final(self) == old(self).spec_sub(rhs),
    {
        *self = self.sub(rhs);
    }

    pub fn mul_assign(&mut self, rhs: Color)
        ensures
            *final(self) == old(self).spec_mul(rhs),
    {
        *self = self.mul(rhs);
    }

    pub fn div_assign(&mut self, rhs: Color)
        ensures
            *final(self) == old(self).spec_div(rhs),
    {
        *self = self.div(rhs);
    }

    /// The colour at the fraction `t` of the way from `self` to `c`.
    pub fn lerp(&self, c: Color, t: Fixed) -> (m: Color)
        ensures
            m == self.spec_lerp(c, t),
    {
        self.add(c.sub(*self).scale(t))
    }

    pub fn linear2gamma(&self) -> (c: Color)
        ensures
            c == self.spec_linear2gamma(),
    {
        Color { r: self.r.sqrt(), g: self.g.sqrt(), b: self.b.sqrt() }
    }

    pub fn gamma2linear(&self) -> (c: Color)
        ensures
            c == self.spec_gamma2linear(),
    {
        Color { r: self.r.mul(self.r), g: self.g.mul(self.g), b: self.b.mul(self.b) }
    }

    /// The line of the colour in a plain-text pixel map.
    pub fn to_string(&self) -> (s: String)
        ensures
            s@ == self.spec_to_string(),
    {
        let mut out = String::new();
        push_line(&mut out, channel_byte(self.r), channel_byte(self.g), channel_byte(self.b));
        assert(out@ =~= self.spec_to_string());
        out
    }

    /// The line, in a plain-text pixel map, of the pixel whose samples sum
    /// to this colour.
    pub fn to_string_gamma(&self, samples_per_pixel: u32) -> (s: String)
        ensures
            s@ == self.spec_mean_gamma(samples_per_pixel).spec_to_string(),
    {
        self.div_scalar(Fixed::from_u32(samples_per_pixel)).linear2gamma().to_string()
    }

    /// The three bytes, red first, that encode the colour.
    pub fn to_rgb(&self) -> (rgb: [u8; 3])
        ensures
            rgb@ == self.spec_to_rgb(),
    {
        let rgb = [channel_byte(self.r), channel_byte(self.g), channel_byte(self.b)];
        assert(rgb@ =~= self.spec_to_rgb());
        rgb
    }
}

/// The square of the square root of a number that is not negative is not
/// above the number, and 65536 times their difference in steps is below
/// `2 s + 65536`, where `s` is the step count of the square root.
pub proof fn lemma_sqrt_then_square(c: Fixed)
    requires
        c@ >= 0,
    ensures
        c.spec_sqrt().spec_mul(c.spec_sqrt())@ <= c@,
        ONE_RAW * (c@ - c.spec_sqrt().spec_mul(c.spec_sqrt())@) < 2 * c.spec_sqrt()@ + ONE_RAW,
{
    if c.raw > 0 {
        let n = c@ * ONE_RAW as int;
        lemma_floor_sqrt_exists(n);
        let s = floor_sqrt(n);
        assert(s < 0x100_0000_0000) by (nonlinear_arith)
            requires
                0 <= s,
                s * s <= n,
                n < 0x1_0000_0000_0000_0000_0000,
        ;
        assert(c.spec_sqrt()@ == s);
        let q = (s * s) / (ONE_RAW as int);
        assert(0 <= s * s) by (nonlinear_arith);
        assert(q <= c@ && ONE_RAW * q > s * s - ONE_RAW && q >= 0) by (nonlinear_arith)
            requires
                q == (s * s) / (ONE_RAW as int),
                ONE_RAW == 65536,
                0 <= s * s <= c@ * 65536,
        ;
        assert(n < s * s + 2 * s + 1) by (nonlinear_arith)
            requires
                n < (s + 1) * (s + 1),
        ;
    } else {
        assert(0int * 0int == 0);
    }
}

/// Encoding a colour for display and decoding it again gives it back to
/// within two steps: where every channel is at least zero and at most one,
/// each channel of the result is not above the channel it came from and
/// less than three steps below it.
pub proof fn lemma_gamma_round_trip(c: Color)
    requires
        0 <= c.r@ <= ONE_RAW,
        0 <= c.g@ <= ONE_RAW,
        0 <= c.b@ <= ONE_RAW,
    ensures
        ({
            let back = c.spec_linear2gamma().spec_gamma2linear();
            &&& c.r@ - 3 < back.r@ <= c.r@
            &&& c.g@ - 3 < back.g@ <= c.g@
            &&& c.b@ - 3 < back.b@ <= c.b@
        }),
{
    lemma_channel_round_trip(c.r);
    lemma_channel_round_trip(c.g);
    lemma_channel_round_trip(c.b);
}

/// The round trip of one channel that is at least zero and at most one.
proof fn lemma_channel_round_trip(c: Fixed)
    requires
        0 <= c@ <= ONE_RAW,
    ensures
        c@ - 3 < c.spec_sqrt().spec_mul(c.spec_sqrt())@ <= c@,
{
    lemma_sqrt_then_square(c);
    if c.raw > 0 {
        let n = c@ * ONE_RAW as int;
        lemma_floor_sqrt_exists(n);
        let s = floor_sqrt(n);
        assert(s <= ONE_RAW) by (nonlinear_arith)
            requires
                0 <= s,
                s * s <= n,
                n <= ONE_RAW * ONE_RAW,
                ONE_RAW == 65536,
        ;
    }
}

} // verus!
