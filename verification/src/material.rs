//! Materials: how a surface answers a ray that hits it.

pub mod dilectric;
pub mod lambertian;
pub mod metal;
pub mod scatter;
pub mod texture;

use crate::color::Color;
use crate::fixed::Fixed;
use crate::material::dilectric::{reflectance, spec_reflectance, Dilectric};
use crate::material::lambertian::Lambertian;
use crate::material::metal::Metal;
use crate::material::scatter::{Sample, ScatterInfo};
use crate::ray::Ray;
use crate::shape::HitRecord;
use crate::vec3::Vec3;
use vstd::prelude::*;

verus! {

/// The material of a surface.
#[derive(Debug)]
pub enum Material {
    Lambertian(Lambertian),
    Metal(Metal),
    Dilectric(Dilectric),
}

impl Material {
    /// What the material makes of a ray that hits it, given the random
    /// numbers of the scatter: the scattered ray and its attenuation, or
    /// none where the ray is absorbed.
    pub open spec fn spec_scatter(self, ray: Ray, info: HitRecord, sample: Sample) -> Option<
        ScatterInfo,
    > {
        match self {
            Material::Lambertian(m) => m.spec_scatter(info, sample.unit),
            Material::Metal(m) => m.spec_scatter(ray, info, sample.unit),
            Material::Dilectric(m) => m.spec_scatter(ray, info, sample.draw),
        }
    }

    /// The light that the surface gives off by itself: none.
    pub fn emitted(&self, u: Fixed, v: Fixed, p: Vec3) -> (c: Color)
        ensures
            c == Color::spec_black(),
    {
        Color::black()
    }

    /// Scatters with the given random numbers.
    pub fn scatter_with(&self, ray: &Ray, info: &HitRecord, sample: &Sample) -> (r: Option<
        ScatterInfo,
    >)
        ensures
            r == self.spec_scatter(*ray, *info, *sample),
    {
        match self {
            Material::Lambertian(m) => m.scatter_with(info, sample.unit),
            Material::Metal(m) => m.scatter_with(ray, info, sample.unit),
            Material::Dilectric(m) => m.scatter_with(ray, info, sample.draw),
        }
    }

    /// Scatters with fresh random numbers.
    pub fn scatter(&self, ray: &Ray, info: &HitRecord) -> (r: Option<ScatterInfo>)
        ensures
            exists|sample: Sample| sample.is_drawn() && r == self.spec_scatter(*ray, *info, sample),
    {
        let sample = Sample::random();
        let r = self.scatter_with(ray, info, &sample);
        assert(sample.is_drawn() && r == self.spec_scatter(*ray, *info, sample));
        r
    }

    /// The share of light that a surface of the refractive index `ref_idx`
    /// mirrors at the given cosine.
    pub fn reflectance(&self, cosine: Fixed, ref_idx: Fixed) -> (r: Fixed)
        ensures
            r == spec_reflectance(cosine, ref_idx),
    {
        reflectance(cosine, ref_idx)
    }
}

} // verus!
