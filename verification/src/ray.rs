//! Rays.

use crate::fixed::Fixed;
use crate::vec3::Vec3;
use vstd::prelude::*;

verus! {

/// The half line `origin + t direction`.
#[derive(Clone, Copy, Debug, PartialEq, Eq, Structural)]
pub struct Ray {
    pub origin: Vec3,
    pub direction: Vec3,
}

impl Ray {
    /// `origin + t direction`.
    pub open spec fn spec_at(self, time: Fixed) -> Vec3 {
        self.origin.spec_add(self.direction.spec_scale(time))
    }

    pub fn new(origin: Vec3, direction: Vec3) -> (r: Ray)
        ensures
            r.origin == origin,
            r.direction == direction,
    {
        Ray { origin, direction }
    }

    /// The point of the ray at the parameter `time`.
    pub fn at(&self, time: Fixed) -> (p: Vec3)
        ensures
            p == self.spec_at(time),
    {
        self.origin.add(self.direction.scale(time))
    }

    pub fn origin(&self) -> (o: &Vec3)
        ensures
            *o == self.origin,
    {
        &self.origin
    }

    pub fn direction(&self) -> (d: &Vec3)
        ensures
            *d == self.direction,
    {
        &self.direction
    }
}

} // verus!
