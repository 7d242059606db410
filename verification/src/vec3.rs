//! Three-component vectors over fixed-point scalars.

use crate::fixed::{
    lemma_mul_neg, lemma_mul_one, lemma_sqrt_one, lemma_square_nonneg, Fixed, MAX_RAW, ONE_RAW,
};
use crate::utils::random;
use vstd::prelude::*;

verus! {

/// Two components closer than this many raw steps count as equal in
/// `Vec3::is_close`.
pub const TOLERANCE_RAW: i64 = 8;

/// A vector, or a point, of three fixed-point components.
#[derive(Clone, Copy, Debug, PartialEq, Eq, Structural)]
pub struct Vec3 {
    pub x: Fixed,
    pub y: Fixed,
    pub z: Fixed,
}

impl Vec3 {
    pub open spec fn spec_new(x: Fixed, y: Fixed, z: Fixed) -> Vec3 {
        Vec3 { x, y, z }
    }

    pub open spec fn spec_zeros() -> Vec3 {
        Vec3 { x: Fixed::spec_zero(), y: Fixed::spec_zero(), z: Fixed::spec_zero() }
    }

    pub open spec fn spec_ones() -> Vec3 {
        Vec3 { x: Fixed::spec_one(), y: Fixed::spec_one(), z: Fixed::spec_one() }
    }

    pub open spec fn spec_neg(self) -> Vec3 {
        Vec3 { x: self.x.spec_neg(), y: self.y.spec_neg(), z: self.z.spec_neg() }
    }

    pub open spec fn spec_add(self, rhs: Vec3) -> Vec3 {
        Vec3 { x: self.x.spec_add(rhs.x), y: self.y.spec_add(rhs.y), z: self.z.spec_add(rhs.z) }
    }

    pub open spec fn spec_sub(self, rhs: Vec3) -> Vec3 {
        Vec3 { x: self.x.spec_sub(rhs.x), y: self.y.spec_sub(rhs.y), z: self.z.spec_sub(rhs.z) }
    }

    /// Component by component product.
    pub open spec fn spec_mul(self, rhs: Vec3) -> Vec3 {
        Vec3 { x: self.x.spec_mul(rhs.x), y: self.y.spec_mul(rhs.y), z: self.z.spec_mul(rhs.z) }
    }

    /// Component by component quotient.
    pub open spec fn spec_div(self, rhs: Vec3) -> Vec3 {
        Vec3 { x: self.x.spec_div(rhs.x), y: self.y.spec_div(rhs.y), z: self.z.spec_div(rhs.z) }
    }

    pub open spec fn spec_add_scalar(self, k: Fixed) -> Vec3 {
        Vec3 { x: self.x.spec_add(k), y: self.y.spec_add(k), z: self.z.spec_add(k) }
    }

    pub open spec fn spec_sub_scalar(self, k: Fixed) -> Vec3 {
        Vec3 { x: self.x.spec_sub(k), y: self.y.spec_sub(k), z: self.z.spec_sub(k) }
    }

    pub open spec fn spec_scale(self, k: Fixed) -> Vec3 {
        Vec3 { x: self.x.spec_mul(k), y: self.y.spec_mul(k), z: self.z.spec_mul(k) }
    }

    pub open spec fn spec_div_scalar(self, k: Fixed) -> Vec3 {
        Vec3 { x: self.x.spec_div(k), y: self.y.spec_div(k), z: self.z.spec_div(k) }
    }

    /// Sum of the three component products, each rounded on its own.
    pub open spec fn spec_dot(self, rhs: Vec3) -> Fixed {
        self.x.spec_mul(rhs.x).spec_add(self.y.spec_mul(rhs.y)).spec_add(self.z.spec_mul(rhs.z))
    }

    pub open spec fn spec_cross(self, rhs: Vec3) -> Vec3 {
        Vec3 {
            x: self.y.spec_mul(rhs.z).spec_sub(self.z.spec_mul(rhs.y)),
            y: self.z.spec_mul(rhs.x).spec_sub(self.x.spec_mul(rhs.z)),
            z: self.x.spec_mul(rhs.y).spec_sub(self.y.spec_mul(rhs.x)),
        }
    }

    pub open spec fn spec_norm_squared(self) -> Fixed {
        self.spec_dot(self)
    }

    pub open spec fn spec_norm(self) -> Fixed {
        self.spec_norm_squared().spec_sqrt()
    }

    /// The vector divided by its own length.
    pub open spec fn spec_as_unit(self) -> Vec3 {
        self.spec_div_scalar(self.spec_norm())
    }

    /// Every component is within `TOLERANCE_RAW` steps of `k`.
    pub open spec fn spec_is_close(self, k: Fixed) -> bool {
        &&& -(TOLERANCE_RAW as int) < self.x@ - k@ < TOLERANCE_RAW as int
        &&& -(TOLERANCE_RAW as int) < self.y@ - k@ < TOLERANCE_RAW as int
        &&& -(TOLERANCE_RAW as int) < self.z@ - k@ < TOLERANCE_RAW as int
    }

    /// Every component is at least zero and below one.
    pub open spec fn in_unit_cube(self) -> bool {
        &&& 0 <= self.x@ < ONE_RAW
        &&& 0 <= self.y@ < ONE_RAW
        &&& 0 <= self.z@ < ONE_RAW
    }

    pub open spec fn spec_reflect(self, n: Vec3) -> Vec3 {
        spec_reflect(self, n)
    }

    pub open spec fn spec_refract(self, n: Vec3, ratio: Fixed) -> Vec3 {
        spec_refract(self, n, ratio)
    }

    pub fn new(e0: Fixed, e1: Fixed, e2: Fixed) -> (v: Vec3)
        ensures
            v == Vec3::spec_new(e0, e1, e2),
    {
        Vec3 { x: e0, y: e1, z: e2 }
    }

    pub fn zeros() -> (v: Vec3)
        ensures
            v == Vec3::spec_zeros(),
    {
        Vec3 { x: Fixed::zero(), y: Fixed::zero(), z: Fixed::zero() }
    }

    pub fn ones() -> (v: Vec3)
        ensures
            v == Vec3::spec_ones(),
    {
        Vec3 { x: Fixed::one(), y: Fixed::one(), z: Fixed::one() }
    }

    /// A vector of three random components, each at least zero and below one.
    pub fn rand() -> (v: Vec3)
        ensures
            v.in_unit_cube(),
    {
        let x = random();
        let y = random();
        let z = random();
        Vec3 { x, y, z }
    }

    pub fn x(&self) -> (r: &Fixed)
        ensures
            *r == self.x,
    {
        &self.x
    }

    pub fn y(&self) -> (r: &Fixed)
        ensures
            *r == self.y,
    {
        &self.y
    }

    pub fn z(&self) -> (r: &Fixed)
        ensures
            *r == self.z,
    {
        &self.z
    }

    pub fn neg(self) -> (v: Vec3)
        ensures
            v == self.spec_neg(),
    {
        Vec3 { x: self.x.neg(), y: self.y.neg(), z: self.z.neg() }
    }

    pub fn add(self, rhs: Vec3) -> (v: Vec3)
        ensures
            v == self.spec_add(rhs),
    {
        Vec3 { x: self.x.add(rhs.x), y: self.y.add(rhs.y), z: self.z.add(rhs.z) }
    }

    pub fn sub(self, rhs: Vec3) -> (v: Vec3)
        ensures
            v == self.spec_sub(rhs),
    {
        Vec3 { x: self.x.sub(rhs.x), y: self.y.sub(rhs.y), z: self.z.sub(rhs.z) }
    }

    pub fn mul(self, rhs: Vec3) -> (v: Vec3)
        ensures
            v == self.spec_mul(rhs),
    {
        Vec3 { x: self.x.mul(rhs.x), y: self.y.mul(rhs.y), z: self.z.mul(rhs.z) }
    }

    pub fn div(self, rhs: Vec3) -> (v: Vec3)
        ensures
            v == self.spec_div(rhs),
    {
        Vec3 { x: self.x.div(rhs.x), y: self.y.div(rhs.y), z: self.z.div(rhs.z) }
    }

    pub fn add_scalar(self, k: Fixed) -> (v: Vec3)
        ensures
            v == self.spec_add_scalar(k),
    {
        Vec3 { x: self.x.add(k), y: self.y.add(k), z: self.z.add(k) }
    }

    pub fn sub_scalar(self, k: Fixed) -> (v: Vec3)
        ensures
            v == self.spec_sub_scalar(k),
    {
        Vec3 { x: self.x.sub(k), y: self.y.sub(k), z: self.z.sub(k) }
    }

    /// The vector with every component multiplied by `k`.
    pub fn scale(self, k: Fixed) -> (v: Vec3)
        ensures
            v == self.spec_scale(k),
    {
        Vec3 { x: self.x.mul(k), y: self.y.mul(k), z: self.z.mul(k) }
    }

    pub fn div_scalar(self, k: Fixed) -> (v: Vec3)
        ensures
            v == self.spec_div_scalar(k),
    {
        Vec3 { x: self.x.div(k), y: self.y.div(k), z: self.z.div(k) }
    }

    pub fn add_assign(&mut self, rhs: Vec3)
        ensures
            *final(self) == old(self).spec_add(rhs),
    {
        *self = self.add(rhs);
    }

    pub fn sub_assign(&mut self, rhs: Vec3)
        ensures
            *final(self) == old(self).spec_sub(rhs),
    {
        *self = self.sub(rhs);
    }

    pub fn mul_assign(&mut self, rhs: Vec3)
        ensures
            *final(self) == old(self).spec_mul(rhs),
    {
        *self = self.mul(rhs);
    }

    pub fn div_assign(&mut self, rhs: Vec3)
        ensures
            *final(self) == old(self).spec_div(rhs),
    {
        *self = self.div(rhs);
    }

    pub fn dot(&self, rhs: Vec3) -> (d: Fixed)
        ensures
            d == self.spec_dot(rhs),
    {
        self.x.mul(rhs.x).add(self.y.mul(rhs.y)).add(self.z.mul(rhs.z))
    }

    pub fn cross(&self, rhs: Vec3) -> (v: Vec3)
        ensures
            v == self.spec_cross(rhs),
    {
        Vec3 {
            x: self.y.mul(rhs.z).sub(self.z.mul(rhs.y)),
            y: self.z.mul(rhs.x).sub(self.x.mul(rhs.z)),
            z: self.x.mul(rhs.y).sub(self.y.mul(rhs.x)),
        }
    }

    pub fn reflect(&self, n: Vec3) -> (v: Vec3)
        ensures
            v == self.spec_reflect(n),
    {
        reflect(*self, n)
    }

    pub fn refract(&self, n: Vec3, ratio: Fixed) -> (v: Vec3)
        ensures
            v == self.spec_refract(n, ratio),
    {
        refract(*self, n, ratio)
    }

    pub fn norm_squared(&self) -> (d: Fixed)
        ensures
            d == self.spec_norm_squared(),
    {
        self.dot(*self)
    }

    pub fn norm(&self) -> (d: Fixed)
        ensures
            d == self.spec_norm(),
    {
        self.norm_squared().sqrt()
    }

    pub fn as_unit(&self) -> (v: Vec3)
        ensures
            v == self.spec_as_unit(),
    {
        self.div_scalar(self.norm())
    }

    /// A random vector of the unit cube's positive corner, divided by its
    /// length.
    pub fn rand_unit() -> (v: Vec3)
        ensures
            exists|c: Vec3| c.in_unit_cube() && v == c.spec_as_unit(),
    {
        let c = Vec3::rand();
        c.as_unit()
    }

    pub fn is_close(&self, k: Fixed) -> (b: bool)
        ensures
            b == self.spec_is_close(k),
    {
        let t: i128 = TOLERANCE_RAW as i128;
        let c: i128 = k.raw as i128;
        let dx: i128 = self.x.raw as i128 - c;
        let dy: i128 = self.y.raw as i128 - c;
        let dz: i128 = self.z.raw as i128 - c;
        -t < dx && dx < t && -t < dy && dy < t && -t < dz && dz < t
    }
}

/// `v . n`.
pub open spec fn spec_dot(v1: Vec3, v2: Vec3) -> Fixed {
    v1.spec_dot(v2)
}

/// `v x n`.
pub open spec fn spec_cross(v1: Vec3, v2: Vec3) -> Vec3 {
    v1.spec_cross(v2)
}

/// The mirror image of `v` at a surface of normal `n`: `v - 2 (v . n) n`.
pub open spec fn spec_reflect(v: Vec3, n: Vec3) -> Vec3 {
    v.spec_sub(n.spec_scale(v.spec_dot(n)).spec_scale(Fixed::spec_from_int(2)))
}

/// The cosine that `spec_refract` works with: `min(-v . n, 1)`.
pub open spec fn spec_cos_theta(v: Vec3, n: Vec3) -> Fixed {
    v.spec_neg().spec_dot(n).spec_min(Fixed::spec_one())
}

/// The part of the refracted direction across the normal:
/// `ratio (v + cos_theta n)`.
pub open spec fn spec_refract_perp(v: Vec3, n: Vec3, ratio: Fixed) -> Vec3 {
    v.spec_add(n.spec_scale(spec_cos_theta(v, n))).spec_scale(ratio)
}

/// The part of the refracted direction along the normal:
/// `-sqrt(|1 - |perp|^2|) n`.
pub open spec fn spec_refract_parallel(perp: Vec3, n: Vec3) -> Vec3 {
    n.spec_scale(Fixed::spec_one().spec_sub(perp.spec_norm_squared()).spec_abs().spec_sqrt().spec_neg())
}

/// The direction of `v` after it passes a surface of normal `n` between
/// media whose refractive indices have the given ratio.
pub open spec fn spec_refract(v: Vec3, n: Vec3, ratio: Fixed) -> Vec3 {
    let perp = spec_refract_perp(v, n, ratio);
    perp.spec_add(spec_refract_parallel(perp, n))
}

pub fn dot(v1: Vec3, v2: Vec3) -> (d: Fixed)
    ensures
        d == spec_dot(v1, v2),
{
    v1.dot(v2)
}

pub fn cross(v1: Vec3, v2: Vec3) -> (v: Vec3)
    ensures
        v == spec_cross(v1, v2),
{
    v1.cross(v2)
}

pub fn reflect(v1: Vec3, v2: Vec3) -> (v: Vec3)
    ensures
        v == spec_reflect(v1, v2),
{
    v1.sub(v2.scale(dot(v1, v2)).scale(Fixed::from_int(2)))
}

pub fn refract(v1: Vec3, v2: Vec3, ratio: Fixed) -> (v: Vec3)
    ensures
        v == spec_refract(v1, v2, ratio),
{
    let cos_theta = dot(v1.neg(), v2).min(Fixed::one());
    let r_out_perp = v1.add(v2.scale(cos_theta)).scale(ratio);
    let r_out_parallel = v2.scale(Fixed::one().sub(r_out_perp.norm_squared()).abs().sqrt().neg());
    r_out_perp.add(r_out_parallel)
}

/// A squared length is never negative.
pub proof fn lemma_norm_squared_nonneg(v: Vec3)
    ensures
        v.spec_norm_squared()@ >= 0,
{
    lemma_square_nonneg(v.x);
    lemma_square_nonneg(v.y);
    lemma_square_nonneg(v.z);
}

/// The dot product with the negative of a vector is the negative of the dot
/// product.
pub proof fn lemma_dot_neg(d: Vec3, o: Vec3)
    requires
        o.x@ >= -MAX_RAW,
        o.y@ >= -MAX_RAW,
        o.z@ >= -MAX_RAW,
    ensures
        d.spec_dot(o.spec_neg()) == d.spec_dot(o).spec_neg(),
{
    lemma_mul_neg(d.x, o.x);
    lemma_mul_neg(d.y, o.y);
    lemma_mul_neg(d.z, o.z);
}

/// A component of a vector of length one lies within two units of zero.
proof fn lemma_unit_component(x: Fixed, rest: int)
    requires
        x.spec_mul(x)@ + rest <= ONE_RAW,
        rest >= 0,
    ensures
        -2 * ONE_RAW < x@ < 2 * ONE_RAW,
{
    let p = x@ * x@;
    assert(p >= 0) by (nonlinear_arith)
        requires
            p == x@ * x@,
    ;
    if p / (ONE_RAW as int) > ONE_RAW {
    }
    assert(p < 2 * 65536 * 65536) by (nonlinear_arith)
        requires
            p / 65536 <= 65536,
            p >= 0,
    ;
    assert(-2 * 65536 < x@ < 2 * 65536) by (nonlinear_arith)
        requires
            x@ * x@ < 2 * 65536 * 65536,
    ;
}

/// A ray that meets a surface head-on passes it unbent where both sides
/// have the same refractive index: for a normal `n` of length one, the
/// direction `-n` is refracted to `-n` at the ratio one.
pub proof fn lemma_refract_head_on(n: Vec3)
    requires
        n.spec_norm_squared() == Fixed::spec_one(),
    ensures
        spec_refract(n.spec_neg(), n, Fixed::spec_one()) == n.spec_neg(),
        spec_cos_theta(n.spec_neg(), n) == Fixed::spec_one(),
{
    lemma_square_nonneg(n.x);
    lemma_square_nonneg(n.y);
    lemma_square_nonneg(n.z);
    lemma_unit_component(n.x, n.y.spec_mul(n.y)@ + n.z.spec_mul(n.z)@);
    lemma_unit_component(n.y, n.x.spec_mul(n.x)@ + n.z.spec_mul(n.z)@);
    lemma_unit_component(n.z, n.x.spec_mul(n.x)@ + n.y.spec_mul(n.y)@);
    let v = n.spec_neg();
    assert(v.spec_neg() == n);
    assert(spec_cos_theta(v, n) == Fixed::spec_one());
    lemma_mul_one(n.x);
    lemma_mul_one(n.y);
    lemma_mul_one(n.z);
    assert(n.spec_scale(Fixed::spec_one()) == n);
    assert(v.spec_add(n) == Vec3::spec_zeros());
    let zero = Fixed::spec_zero();
    lemma_mul_one(zero);
    assert(zero@ * zero@ == 0) by (nonlinear_arith)
        requires
            zero@ == 0,
    ;
    let perp = spec_refract_perp(v, n, Fixed::spec_one());
    assert(perp == Vec3::spec_zeros());
    assert(perp.spec_norm_squared() == zero);
    lemma_sqrt_one();
    let k = Fixed::spec_one().spec_neg();
    lemma_mul_neg(n.x, Fixed::spec_one());
    lemma_mul_neg(n.y, Fixed::spec_one());
    lemma_mul_neg(n.z, Fixed::spec_one());
    assert(n.spec_scale(k) == v);
    assert(spec_refract_parallel(perp, n) == v);
}

/// At the ratio one, whatever the angle, the part of the refracted direction
/// across the normal is that of the direction itself: `v + cos_theta n`.
pub proof fn lemma_ratio_one_keeps_perp(v: Vec3, n: Vec3)
    ensures
        spec_refract_perp(v, n, Fixed::spec_one()) == v.spec_add(
            n.spec_scale(spec_cos_theta(v, n)),
        ),
{
    let sum = v.spec_add(n.spec_scale(spec_cos_theta(v, n)));
    lemma_mul_one(sum.x);
    lemma_mul_one(sum.y);
    lemma_mul_one(sum.z);
}

} // verus!
