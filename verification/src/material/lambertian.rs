//! Diffuse surfaces.

use crate::fixed::Fixed;
use crate::material::scatter::{Sample, ScatterInfo};
use crate::material::texture::Texture;
use crate::ray::Ray;
use crate::shape::HitRecord;
use crate::vec3::Vec3;
use vstd::prelude::*;

verus! {

/// A surface that scatters in every direction about the normal.
#[derive(Debug)]
pub struct Lambertian {
    pub albedo: Texture,
}

impl Lambertian {
    /// The scattered direction: the normal plus the random direction, or the
    /// bare normal where that sum is close to zero.
    pub open spec fn spec_direction(normal: Vec3, unit: Vec3) -> Vec3 {
        if normal.spec_add(unit).spec_is_close(Fixed::spec_zero()) {
            normal
        } else {
            normal.spec_add(unit)
        }
    }

    pub open spec fn spec_scatter(self, info: HitRecord, unit: Vec3) -> Option<ScatterInfo> {
        Some(
            ScatterInfo {
                ray: Ray { origin: info.p, direction: Self::spec_direction(info.normal, unit) },
                albedo: self.albedo.spec_value(info.u, info.v, info.p),
            },
        )
    }

    pub fn new(albedo: Texture) -> (m: Lambertian)
        ensures
            m.albedo == albedo,
    {
        Lambertian { albedo }
    }

    /// Scatters with the random direction `unit`. Never absorbs.
    pub fn scatter_with(&self, info: &HitRecord, unit: Vec3) -> (r: Option<ScatterInfo>)
        ensures
            r == self.spec_scatter(*info, unit),
    {
        let mut scatter_dir = info.normal.add(unit);
        if scatter_dir.is_close(Fixed::zero()) {
            scatter_dir = info.normal;
        }
        let albedo = self.albedo.value(info.u, info.v, info.p);
        Some(ScatterInfo::new(Ray::new(info.p, scatter_dir), albedo))
    }

    /// Scatters with a fresh random direction.
    pub fn scatter(&self, ray: &Ray, info: &HitRecord) -> (r: Option<ScatterInfo>)
        ensures
            exists|sample: Sample| sample.is_drawn() && r == self.spec_scatter(*info, sample.unit),
    {
        let sample = Sample::random();
        let r = self.scatter_with(info, sample.unit);
        assert(sample.is_drawn() && r == self.spec_scatter(*info, sample.unit));
        r
    }
}

/// Where the normal is not the zero vector, a diffuse surface never
/// scatters along the zero vector, whatever the random direction is.
pub proof fn lemma_direction_not_zero(normal: Vec3, unit: Vec3)
    requires
        normal != Vec3::spec_zeros(),
    ensures
        Lambertian::spec_direction(normal, unit) != Vec3::spec_zeros(),
{
}

/// A diffuse surface scatters every ray that hits it.
pub proof fn lemma_always_scatters(m: Lambertian, info: HitRecord, unit: Vec3)
    ensures
        m.spec_scatter(info, unit) is Some,
{
}

} // verus!
