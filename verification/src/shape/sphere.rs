//! Spheres.

use crate::fixed::{lemma_div_monotone, lemma_sqrt_nonneg, Fixed};
use crate::interval::Interval;
use crate::material::Material;
use crate::ray::Ray;
use crate::shape::HitRecord;
use crate::vec3::{lemma_dot_neg, lemma_norm_squared_nonneg, Vec3};
use std::sync::Arc;
use vstd::prelude::*;

verus! {

/// The sphere around `center` of the given radius. Spheres may share one
/// material.
#[derive(Debug)]
pub struct Sphere {
    pub center: Vec3,
    pub radius: Fixed,
    pub material: Arc<Material>,
}

impl Sphere {
    /// From the centre to the ray's origin.
    pub open spec fn spec_oc(&self, ray: Ray) -> Vec3 {
        ray.origin.spec_sub(self.center)
    }

    /// The quadratic's leading coefficient: `|d|^2`.
    pub open spec fn spec_a(&self, ray: Ray) -> Fixed {
        ray.direction.spec_norm_squared()
    }

    /// Half the quadratic's middle coefficient: `oc . d`.
    pub open spec fn spec_half_b(&self, ray: Ray) -> Fixed {
        self.spec_oc(ray).spec_dot(ray.direction)
    }

    /// The quadratic's constant: `|oc|^2 - r^2`.
    pub open spec fn spec_c(&self, ray: Ray) -> Fixed {
        self.spec_oc(ray).spec_norm_squared().spec_sub(self.radius.spec_mul(self.radius))
    }

    /// A quarter of the quadratic's discriminant: `half_b^2 - a c`.
    pub open spec fn spec_discriminant(&self, ray: Ray) -> Fixed {
        self.spec_half_b(ray).spec_mul(self.spec_half_b(ray)).spec_sub(
            self.spec_a(ray).spec_mul(self.spec_c(ray)),
        )
    }

    /// The smaller root: `(-half_b - sqrt(D)) / a`.
    pub open spec fn spec_near_root(&self, ray: Ray) -> Fixed {
        self.spec_half_b(ray).spec_neg().spec_sub(self.spec_discriminant(ray).spec_sqrt()).spec_div(
            self.spec_a(ray),
        )
    }

    /// The larger root: `(-half_b + sqrt(D)) / a`.
    pub open spec fn spec_far_root(&self, ray: Ray) -> Fixed {
        self.spec_half_b(ray).spec_neg().spec_add(self.spec_discriminant(ray).spec_sqrt()).spec_div(
            self.spec_a(ray),
        )
    }

    /// The ray parameter of the hit: the smaller root where the interval
    /// surrounds it, else the larger where the interval surrounds that;
    /// none where the discriminant is negative.
    pub open spec fn spec_root(&self, ray: Ray, interval: Interval) -> Option<Fixed> {
        if self.spec_discriminant(ray)@ < 0 {
            None
        } else if interval.spec_surrounds(self.spec_near_root(ray)) {
            Some(self.spec_near_root(ray))
        } else if interval.spec_surrounds(self.spec_far_root(ray)) {
            Some(self.spec_far_root(ray))
        } else {
            None
        }
    }

    /// The outward normal at a point of the surface: `(p - center) / r`.
    pub open spec fn spec_outward_normal(&self, p: Vec3) -> Vec3 {
        p.spec_sub(self.center).spec_div_scalar(self.radius)
    }

    /// The record of the hit at the ray parameter `t`.
    pub open spec fn spec_record_at<'a>(&'a self, ray: Ray, t: Fixed) -> HitRecord<'a> {
        let p = ray.spec_at(t);
        let outward = self.spec_outward_normal(p);
        let front_face = ray.direction.spec_dot(outward)@ < 0;
        HitRecord {
            t,
            p,
            normal: if front_face {
                outward
            } else {
                outward.spec_neg()
            },
            front_face,
            material: &*self.material,
            u: Fixed::spec_zero(),
            v: Fixed::spec_zero(),
        }
    }

    /// The hit of the ray on the sphere within the interval.
    pub open spec fn spec_hit<'a>(&'a self, ray: Ray, interval: Interval) -> Option<HitRecord<'a>> {
        match self.spec_root(ray, interval) {
            Some(t) => Some(self.spec_record_at(ray, t)),
            None => None,
        }
    }

    pub fn new(center: Vec3, radius: Fixed, material: Arc<Material>) -> (s: Sphere)
        ensures
            s.center == center,
            s.radius == radius,
            s.material == material,
    {
        Sphere { center, radius, material }
    }

    /// The ray parameter at which the ray hits the sphere within the
    /// interval.
    pub fn root(&self, ray: &Ray, interval: Interval) -> (t: Option<Fixed>)
        ensures
            t == self.spec_root(*ray, interval),
    {
        let oc = ray.origin().sub(self.center);
        let a = ray.direction().norm_squared();
        let half_b = oc.dot(*ray.direction());
        let c = oc.norm_squared().sub(self.radius.mul(self.radius));
        let discriminant = half_b.mul(half_b).sub(a.mul(c));
        if discriminant.lt(Fixed::zero()) {
            return None;
        }
        let sqrtd = discriminant.sqrt();
        let near = half_b.neg().sub(sqrtd).div(a);
        if interval.surrounds(near) {
            return Some(near);
        }
        let far = half_b.neg().add(sqrtd).div(a);
        if interval.surrounds(far) {
            Some(far)
        } else {
            None
        }
    }

    /// The hit of the ray on the sphere within the interval: at the smallest
    /// root of `|ray.at(t) - center|^2 = r^2` that the interval surrounds.
    /// The surface coordinates of the record are left at zero.
    pub fn hit<'a>(&'a self, ray: &Ray, interval: Interval) -> (r: Option<HitRecord<'a>>)
        ensures
            r == self.spec_hit(*ray, interval),
    {
        match self.root(ray, interval) {
            Some(t) => {
                let mut record = HitRecord::new(&*self.material);
                record.t = t;
                record.p = ray.at(t);
                let outward_normal = record.p.sub(self.center).div_scalar(self.radius);
                record.set_face_normal(ray, outward_normal);
                Some(record)
            },
            None => None,
        }
    }
}

/// The smaller root is not above the larger.
pub proof fn lemma_roots_ordered(s: &Sphere, ray: Ray)
    ensures
        s.spec_near_root(ray)@ <= s.spec_far_root(ray)@,
{
    let half_b = s.spec_half_b(ray);
    let sqrtd = s.spec_discriminant(ray).spec_sqrt();
    lemma_sqrt_nonneg(s.spec_discriminant(ray));
    lemma_norm_squared_nonneg(ray.direction);
    lemma_div_monotone(
        half_b.spec_neg().spec_sub(sqrtd),
        half_b.spec_neg().spec_add(sqrtd),
        s.spec_a(ray),
    );
}

/// A ray with a negative discriminant, one that passes the centre at more
/// than the radius, hits the sphere in no interval.
pub proof fn lemma_miss_in_every_interval(s: &Sphere, ray: Ray, interval: Interval)
    requires
        s.spec_discriminant(ray)@ < 0,
    ensures
        s.spec_hit(ray, interval) is None,
{
}

/// A hit lies strictly inside the interval, at a root of the quadratic, and
/// its point is the ray's point at that parameter.
pub proof fn lemma_hit_in_interval(s: &Sphere, ray: Ray, interval: Interval)
    ensures
        s.spec_hit(ray, interval) matches Some(h) ==> {
            &&& interval.spec_surrounds(h.t)
            &&& h.t == s.spec_near_root(ray) || h.t == s.spec_far_root(ray)
            &&& h.p == ray.spec_at(h.t)
            &&& s.spec_discriminant(ray)@ >= 0
        },
{
}

/// Lowering the interval's upper bound to `closest` keeps a hit below
/// `closest` as it is and drops any other.
pub proof fn lemma_hit_narrowed(s: &Sphere, ray: Ray, interval: Interval, closest: Fixed)
    requires
        closest@ <= interval.max@,
    ensures
        s.spec_hit(ray, interval.spec_up_to(closest)) == (match s.spec_hit(ray, interval) {
            Some(h) => if h.t@ < closest@ {
                Some(h)
            } else {
                None
            },
            None => None,
        }),
{
    lemma_roots_ordered(s, ray);
}

/// The normal of a hit is turned against the ray, and the hit counts as
/// from the front exactly where the outward normal already was.
pub proof fn lemma_normal_opposes_ray(s: &Sphere, ray: Ray, interval: Interval)
    ensures
        s.spec_hit(ray, interval) matches Some(h) ==> {
            &&& ray.direction.spec_dot(h.normal)@ <= 0
            &&& h.front_face <==> ray.direction.spec_dot(s.spec_outward_normal(h.p))@ < 0
            &&& h.front_face ==> h.normal == s.spec_outward_normal(h.p)
            &&& !h.front_face ==> h.normal == s.spec_outward_normal(h.p).spec_neg()
        },
{
    if let Some(h) = s.spec_hit(ray, interval) {
        lemma_dot_neg(ray.direction, s.spec_outward_normal(h.p));
    }
}

} // verus!
