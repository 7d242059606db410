//! Ranges of the ray parameter.

use crate::fixed::{Fixed, MAX_RAW};
use vstd::prelude::*;

verus! {

/// The range from `min` to `max` of the ray parameter.
#[derive(Clone, Copy, Debug, PartialEq, Eq, Structural)]
pub struct Interval {
    pub min: Fixed,
    pub max: Fixed,
}

impl Interval {
    /// `min <= x <= max`.
    pub open spec fn spec_contains(self, x: Fixed) -> bool {
        self.min@ <= x@ <= self.max@
    }

    /// `min < x < max`.
    pub open spec fn spec_surrounds(self, x: Fixed) -> bool {
        self.min@ < x@ < self.max@
    }

    pub open spec fn spec_clamp(self, x: Fixed) -> Fixed {
        if x@ < self.min@ {
            self.min
        } else if x@ > self.max@ {
            self.max
        } else {
            x
        }
    }

    /// The range with the same lower bound and the upper bound `max`.
    pub open spec fn spec_up_to(self, max: Fixed) -> Interval {
        Interval { min: self.min, max }
    }

    /// The range of what lies ahead of a ray: from zero to the largest
    /// number.
    pub open spec fn spec_new() -> Interval {
        Interval { min: Fixed::spec_zero(), max: Fixed { raw: MAX_RAW } }
    }

    /// The range that holds no number: from the largest number down to the
    /// smallest.
    pub fn empty() -> (i: Interval)
        ensures
            i.min@ == MAX_RAW,
            i.max@ == -MAX_RAW,
            forall|x: Fixed| !i.spec_contains(x),
    {
        Interval { min: Fixed::from_raw(MAX_RAW), max: Fixed::from_raw(-MAX_RAW) }
    }

    /// The range from the smallest number that arithmetic gives to the
    /// largest.
    pub fn universe() -> (i: Interval)
        ensures
            i.min@ == -MAX_RAW,
            i.max@ == MAX_RAW,
    {
        Interval { min: Fixed::from_raw(-MAX_RAW), max: Fixed::from_raw(MAX_RAW) }
    }

    /// The range of what lies ahead of a ray: from zero to the largest
    /// number.
    pub fn new() -> (i: Interval)
        ensures
            i == Interval::spec_new(),
    {
        Interval { min: Fixed::zero(), max: Fixed::from_raw(MAX_RAW) }
    }

    pub fn from_val(min: Fixed, max: Fixed) -> (i: Interval)
        ensures
            i.min == min,
            i.max == max,
    {
        Interval { min, max }
    }

    /// `max - min`.
    pub fn size(&self) -> (d: Fixed)
        ensures
            d == self.max.spec_sub(self.min),
    {
        self.max.sub(self.min)
    }

    pub fn contains(&self, x: Fixed) -> (b: bool)
        ensures
            b == self.spec_contains(x),
    {
        self.min.le(x) && x.le(self.max)
    }

    pub fn surrounds(&self, x: Fixed) -> (b: bool)
        ensures
            b == self.spec_surrounds(x),
    {
        self.min.lt(x) && x.lt(self.max)
    }

    pub fn clamp(&self, x: Fixed) -> (r: Fixed)
        ensures
            r == self.spec_clamp(x),
    {
        if x.lt(self.min) {
            self.min
        } else if self.max.lt(x) {
            self.max
        } else {
            x
        }
    }
}

} // verus!
