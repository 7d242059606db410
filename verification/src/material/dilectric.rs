//! Clear surfaces that refract.

use crate::color::Color;
use crate::fixed::{lemma_mul_one, trunc_div, Fixed, ONE_RAW};
use crate::material::scatter::{Sample, ScatterInfo};
use crate::ray::Ray;
use crate::shape::HitRecord;
use crate::vec3::{
    dot, lemma_refract_head_on, reflect, refract, spec_cos_theta, spec_reflect, spec_refract, Vec3,
};
use vstd::prelude::*;

verus! {

/// `x` to the fifth power, multiplied up from the left.
pub open spec fn spec_pow5(x: Fixed) -> Fixed {
    x.spec_mul(x).spec_mul(x).spec_mul(x).spec_mul(x)
}

/// Schlick's approximation of the share of light that a surface of the
/// refractive index `ref_idx` mirrors at the given cosine:
/// `r0 + (1 - r0) (1 - cosine)^5`, with `r0 = ((1 - ref_idx) / (1 + ref_idx))^2`.
pub open spec fn spec_reflectance(cosine: Fixed, ref_idx: Fixed) -> Fixed {
    let one = Fixed::spec_one();
    let q = one.spec_sub(ref_idx).spec_div(one.spec_add(ref_idx));
    let r0 = q.spec_mul(q);
    r0.spec_add(one.spec_sub(r0).spec_mul(spec_pow5(one.spec_sub(cosine))))
}

pub fn reflectance(cosine: Fixed, ref_idx: Fixed) -> (r: Fixed)
    ensures
        r == spec_reflectance(cosine, ref_idx),
{
    let one = Fixed::one();
    let q = one.sub(ref_idx).div(one.add(ref_idx));
    let r0 = q.mul(q);
    let x = one.sub(cosine);
    r0.add(one.sub(r0).mul(x.mul(x).mul(x).mul(x).mul(x)))
}

/// A clear material of the refractive index `ir`.
#[derive(Clone, Copy, Debug, PartialEq, Eq, Structural)]
pub struct Dilectric {
    pub ir: Fixed,
}

impl Dilectric {
    /// The ratio of the refractive indices on the ray's way: `1 / ir` into
    /// the material, `ir` out of it.
    pub open spec fn spec_ratio(self, front_face: bool) -> Fixed {
        if front_face {
            Fixed::spec_one().spec_div(self.ir)
        } else {
            self.ir
        }
    }

    /// No refracted ray exists: `ratio sin_theta > 1`, with
    /// `sin_theta = sqrt(1 - cos_theta^2)`.
    pub open spec fn spec_cannot_refract(ratio: Fixed, cos_theta: Fixed) -> bool {
        let one = Fixed::spec_one();
        let sin_theta = one.spec_sub(cos_theta.spec_mul(cos_theta)).spec_sqrt();
        ratio.spec_mul(sin_theta)@ > one@
    }

    /// The ray is mirrored: no refracted ray exists, or the mirrored share
    /// exceeds the draw.
    pub open spec fn spec_reflects(self, ray: Ray, info: HitRecord, draw: Fixed) -> bool {
        let cos_theta = spec_cos_theta(ray.direction.spec_as_unit(), info.normal);
        Self::spec_cannot_refract(self.spec_ratio(info.front_face), cos_theta) || spec_reflectance(
            cos_theta,
            self.ir,
        )@ > draw@
    }

    pub open spec fn spec_direction(self, ray: Ray, info: HitRecord, draw: Fixed) -> Vec3 {
        let unit_dir = ray.direction.spec_as_unit();
        if self.spec_reflects(ray, info, draw) {
            spec_reflect(unit_dir, info.normal)
        } else {
            spec_refract(unit_dir, info.normal, self.spec_ratio(info.front_face))
        }
    }

    pub open spec fn spec_scatter(self, ray: Ray, info: HitRecord, draw: Fixed) -> Option<
        ScatterInfo,
    > {
        Some(
            ScatterInfo {
                ray: Ray { origin: info.p, direction: self.spec_direction(ray, info, draw) },
                albedo: Color::spec_white(),
            },
        )
    }

    pub fn new(ir: Fixed) -> (m: Dilectric)
        ensures
            m.ir == ir,
    {
        Dilectric { ir }
    }

    /// Scatters with the random draw: mirrors or refracts, and keeps all
    /// light.
    pub fn scatter_with(&self, ray: &Ray, info: &HitRecord, draw: Fixed) -> (r: Option<ScatterInfo>)
        ensures
            r == self.spec_scatter(*ray, *info, draw),
    {
        let one = Fixed::one();
        let refraction_ratio = if info.front_face {
            one.div(self.ir)
        } else {
            self.ir
        };
        let unit_dir = ray.direction().as_unit();
        let cos_theta = dot(unit_dir.neg(), info.normal).min(one);
        let sin_theta = one.sub(cos_theta.mul(cos_theta)).sqrt();
        let cannot_refract = one.lt(refraction_ratio.mul(sin_theta));
        let direction = if cannot_refract || draw.lt(reflectance(cos_theta, self.ir)) {
            reflect(unit_dir, info.normal)
        } else {
            refract(unit_dir, info.normal, refraction_ratio)
        };
        Some(ScatterInfo::new(Ray::new(info.p, direction), Color::white()))
    }

    /// Scatters with a fresh random draw.
    pub fn scatter(&self, ray: &Ray, info: &HitRecord) -> (r: Option<ScatterInfo>)
        ensures
            exists|sample: Sample|
                sample.is_drawn() && r == self.spec_scatter(*ray, *info, sample.draw),
    {
        let sample = Sample::random();
        let r = self.scatter_with(ray, info, sample.draw);
        assert(sample.is_drawn() && r == self.spec_scatter(*ray, *info, sample.draw));
        r
    }
}

/// A clear material of the refractive index one does not bend a ray that
/// meets it head-on: where the ray's unit direction is the negative of a
/// normal of length one, the scattered direction is that unit direction,
/// whatever the draw is.
pub proof fn lemma_index_one_head_on(m: Dilectric, ray: Ray, info: HitRecord, draw: Fixed)
    requires
        m.ir == Fixed::spec_one(),
        info.normal.spec_norm_squared() == Fixed::spec_one(),
        ray.direction.spec_as_unit() == info.normal.spec_neg(),
        draw@ >= 0,
    ensures
        m.spec_direction(ray, info, draw) == ray.direction.spec_as_unit(),
{
    lemma_refract_head_on(info.normal);
    let one = Fixed::spec_one();
    let zero = Fixed::spec_zero();
    lemma_mul_one(one);
    lemma_mul_one(zero);
    assert(one.spec_div(one) == one) by {
        assert(trunc_div(one@ * ONE_RAW as int, one@) == ONE_RAW) by (nonlinear_arith)
            requires
                one@ == 65536,
                ONE_RAW == 65536,
        ;
    }
    assert(m.spec_ratio(info.front_face) == one);
    assert(zero@ * zero@ == 0);
    assert(one.spec_sub(one) == zero);
    assert(zero.spec_sqrt() == zero);
    assert(!Dilectric::spec_cannot_refract(one, one));
    assert(zero.spec_div(one.spec_add(one)) == zero) by {
        assert(trunc_div(0int, 131072int) == 0);
    }
    assert(spec_pow5(zero) == zero);
    assert(spec_reflectance(one, one) == zero);
}

} // verus!
