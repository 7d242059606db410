//! What a scatter takes from chance and what it gives back.

use crate::color::Color;
use crate::fixed::{Fixed, ONE_RAW};
use crate::ray::Ray;
use crate::utils::random;
use crate::vec3::Vec3;
use vstd::prelude::*;

verus! {

/// The scattered ray and how much of each channel it keeps.
#[derive(Clone, Copy, Debug, PartialEq, Eq, Structural)]
pub struct ScatterInfo {
    pub ray: Ray,
    pub albedo: Color,
}

impl ScatterInfo {
    pub fn new(ray: Ray, albedo: Color) -> (s: ScatterInfo)
        ensures
            s.ray == ray,
            s.albedo == albedo,
    {
        ScatterInfo { ray, albedo }
    }
}

/// The random numbers of one scatter: a direction and a draw.
#[derive(Clone, Copy, Debug, PartialEq, Eq, Structural)]
pub struct Sample {
    pub unit: Vec3,
    pub draw: Fixed,
}

impl Sample {
    /// The direction is a point of the unit cube's positive corner divided
    /// by its length, and the draw is at least zero and below one.
    pub open spec fn is_drawn(self) -> bool {
        &&& exists|c: Vec3| c.in_unit_cube() && self.unit == c.spec_as_unit()
        &&& 0 <= self.draw@ < ONE_RAW
    }

    pub fn new(unit: Vec3, draw: Fixed) -> (s: Sample)
        ensures
            s.unit == unit,
            s.draw == draw,
    {
        Sample { unit, draw }
    }

    /// Fresh random numbers for one scatter.
    pub fn random() -> (s: Sample)
        ensures
            s.is_drawn(),
    {
        let unit = Vec3::rand_unit();
        let draw = random();
        Sample { unit, draw }
    }
}

} // verus!
