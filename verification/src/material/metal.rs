//! Mirroring surfaces.

use crate::fixed::Fixed;
use crate::material::scatter::{Sample, ScatterInfo};
use crate::material::texture::Texture;
use crate::ray::Ray;
use crate::shape::HitRecord;
use crate::vec3::{reflect, spec_reflect, Vec3};
use vstd::prelude::*;

verus! {

/// A surface that mirrors, blurred by `fuzz`.
#[derive(Debug)]
pub struct Metal {
    pub albedo: Texture,
    pub fuzz: Fixed,
}

impl Metal {
    /// The scattered direction: the mirror image of the ray's unit
    /// direction, plus `fuzz` times the random direction.
    pub open spec fn spec_direction(self, ray: Ray, normal: Vec3, unit: Vec3) -> Vec3 {
        spec_reflect(ray.direction.spec_as_unit(), normal).spec_add(unit.spec_scale(self.fuzz))
    }

    /// The scatter, or none where the scattered direction does not leave the
    /// surface.
    pub open spec fn spec_scatter(self, ray: Ray, info: HitRecord, unit: Vec3) -> Option<
        ScatterInfo,
    > {
        let direction = self.spec_direction(ray, info.normal, unit);
        if direction.spec_dot(info.normal)@ > 0 {
            Some(
                ScatterInfo {
                    ray: Ray { origin: info.p, direction },
                    albedo: self.albedo.spec_value(info.u, info.v, info.p),
                },
            )
        } else {
            None
        }
    }

    pub fn new(albedo: Texture, fuzz: Fixed) -> (m: Metal)
        ensures
            m.albedo == albedo,
            m.fuzz == fuzz,
    {
        Metal { albedo, fuzz }
    }

    /// Scatters with the random direction `unit`. Absorbs the ray exactly
    /// when the blurred mirror image points into the surface.
    pub fn scatter_with(&self, ray: &Ray, info: &HitRecord, unit: Vec3) -> (r: Option<ScatterInfo>)
        ensures
            r == self.spec_scatter(*ray, *info, unit),
            r is None <==> self.spec_direction(*ray, info.normal, unit).spec_dot(info.normal)@ <= 0,
    {
        let mut reflected = reflect(ray.direction().as_unit(), info.normal);
        reflected.add_assign(unit.scale(self.fuzz));
        if Fixed::zero().lt(reflected.dot(info.normal)) {
            let albedo = self.albedo.value(info.u, info.v, info.p);
            Some(ScatterInfo::new(Ray::new(info.p, reflected), albedo))
        } else {
            None
        }
    }

    /// Scatters with a fresh random direction.
    pub fn scatter(&self, ray: &Ray, info: &HitRecord) -> (r: Option<ScatterInfo>)
        ensures
            exists|sample: Sample|
                sample.is_drawn() && r == self.spec_scatter(*ray, *info, sample.unit),
    {
        let sample = Sample::random();
        let r = self.scatter_with(ray, info, sample.unit);
        assert(sample.is_drawn() && r == self.spec_scatter(*ray, *info, sample.unit));
        r
    }
}

/// Without fuzz the scattered direction is the mirror image of the ray's
/// unit direction, whatever the random direction is.
pub proof fn lemma_no_fuzz_mirrors(m: Metal, ray: Ray, normal: Vec3, unit: Vec3)
    requires
        m.fuzz == Fixed::spec_zero(),
    ensures
        m.spec_direction(ray, normal, unit) == spec_reflect(ray.direction.spec_as_unit(), normal),
{
    assert(unit.x@ * 0 == 0 && unit.y@ * 0 == 0 && unit.z@ * 0 == 0);
    assert(unit.spec_scale(m.fuzz) == Vec3::spec_zeros());
}

} // verus!
