//! Shapes, hit records, and the nearest hit among a list of shapes.

pub mod sphere;

use crate::fixed::Fixed;
use crate::interval::Interval;
use crate::material::Material;
use crate::ray::Ray;
use crate::shape::sphere::{lemma_hit_narrowed, Sphere};
use crate::vec3::Vec3;
use vstd::prelude::*;

verus! {

/// Where and how a ray meets a surface.
#[derive(Debug)]
pub struct HitRecord<'a> {
    /// The ray parameter of the hit.
    pub t: Fixed,
    /// The point of the hit.
    pub p: Vec3,
    /// The surface normal at the point, turned against the ray.
    pub normal: Vec3,
    /// The ray came from outside the surface.
    pub front_face: bool,
    /// The material of the surface.
    pub material: &'a Material,
    /// The surface coordinates of the point.
    pub u: Fixed,
    pub v: Fixed,
}

impl<'a> HitRecord<'a> {
    /// The record with the normal set from the outward normal of the
    /// surface: turned against the ray's direction.
    pub open spec fn spec_set_face_normal(self, ray: Ray, outward_normal: Vec3) -> HitRecord<'a> {
        let front_face = ray.direction.spec_dot(outward_normal)@ < 0;
        HitRecord {
            t: self.t,
            p: self.p,
            normal: if front_face {
                outward_normal
            } else {
                outward_normal.spec_neg()
            },
            front_face,
            material: self.material,
            u: self.u,
            v: self.v,
        }
    }

    /// A record at the origin with every number zero, facing front.
    pub fn new(material: &'a Material) -> (r: HitRecord<'a>)
        ensures
            r.t == Fixed::spec_zero(),
            r.p == Vec3::spec_zeros(),
            r.normal == Vec3::spec_zeros(),
            r.front_face,
            r.material == material,
            r.u == Fixed::spec_zero(),
            r.v == Fixed::spec_zero(),
    {
        HitRecord {
            t: Fixed::zero(),
            p: Vec3::zeros(),
            normal: Vec3::zeros(),
            front_face: true,
            material,
            u: Fixed::zero(),
            v: Fixed::zero(),
        }
    }

    pub fn set_face_normal(&mut self, ray: &Ray, outward_normal: Vec3)
        ensures
            *final(self) == old(self).spec_set_face_normal(*ray, outward_normal),
    {
        self.front_face = ray.direction().dot(outward_normal).lt(Fixed::zero());
        if self.front_face {
            self.normal = outward_normal;
        } else {
            self.normal = outward_normal.neg();
        }
    }
}

/// A surface that a ray can hit.
#[derive(Debug)]
pub enum Shape {
    Sphere(Sphere),
}

impl Shape {
    /// The hit of the ray on the shape within the interval, if there is one.
    pub open spec fn spec_hit<'a>(&'a self, ray: Ray, interval: Interval) -> Option<HitRecord<'a>> {
        match self {
            Shape::Sphere(s) => s.spec_hit(ray, interval),
        }
    }

    pub fn hit<'a>(&'a self, ray: &Ray, interval: Interval) -> (r: Option<HitRecord<'a>>)
        ensures
            r == self.spec_hit(*ray, interval),
    {
        match self {
            Shape::Sphere(s) => s.hit(ray, interval),
        }
    }
}

/// Of two hits the one with the smaller ray parameter; the first of them
/// where the parameters are equal.
pub open spec fn spec_nearer<'a>(best: Option<HitRecord<'a>>, next: Option<HitRecord<'a>>) -> Option<
    HitRecord<'a>,
> {
    match (best, next) {
        (Some(b), Some(n)) => if n.t@ < b.t@ {
            Some(n)
        } else {
            Some(b)
        },
        (Some(b), None) => Some(b),
        (None, n) => n,
    }
}

/// The nearest of the first `n` of the given hits.
pub open spec fn spec_nearest_of<'a>(hits: Seq<Option<HitRecord<'a>>>, n: int) -> Option<
    HitRecord<'a>,
>
    decreases n,
{
    if n <= 0 {
        None
    } else {
        spec_nearer(spec_nearest_of(hits, n - 1), hits[n - 1])
    }
}

/// The shapes of a scene, in the order in which they were added.
#[derive(Debug)]
pub struct ShapeList {
    pub objects: Vec<Shape>,
}

impl ShapeList {
    /// The hit of each shape on its own, each of them asked for its hit
    /// within the whole interval.
    pub open spec fn spec_hits<'a>(&'a self, ray: Ray, interval: Interval) -> Seq<
        Option<HitRecord<'a>>,
    > {
        Seq::new(self.objects@.len(), |k: int| self.objects@[k].spec_hit(ray, interval))
    }

    /// The nearest hit among the first `n` shapes.
    pub open spec fn spec_nearest<'a>(&'a self, ray: Ray, interval: Interval, n: int) -> Option<
        HitRecord<'a>,
    > {
        spec_nearest_of(self.spec_hits(ray, interval), n)
    }

    /// The nearest hit among all shapes.
    pub open spec fn spec_hit<'a>(&'a self, ray: Ray, interval: Interval) -> Option<HitRecord<'a>> {
        self.spec_nearest(ray, interval, self.objects@.len() as int)
    }

    pub fn new() -> (l: ShapeList)
        ensures
            l.objects@ == Seq::<Shape>::empty(),
    {
        ShapeList { objects: Vec::new() }
    }

    pub fn push(&mut self, object: Shape)
        ensures
            final(self).objects@ == old(self).objects@.push(object),
    {
        self.objects.push(object);
    }

    /// The nearest hit of the ray within the interval. One pass: each shape
    /// is asked only for a hit nearer than the best so far.
    pub fn hit<'a>(&'a self, ray: &Ray, interval: Interval) -> (r: Option<HitRecord<'a>>)
        ensures
            r == self.spec_hit(*ray, interval),
    {
        let mut hit_info: Option<HitRecord<'a>> = None;
        let mut closest_so_far = interval.max;
        let mut i: usize = 0;
        while i < self.objects.len()
            invariant
                i <= self.objects@.len(),
                hit_info == self.spec_nearest(*ray, interval, i as int),
                closest_so_far == (match hit_info {
                    Some(h) => h.t,
                    None => interval.max,
                }),
                closest_so_far@ <= interval.max@,
            decreases self.objects@.len() - i,
        {
            proof {
                lemma_shape_hit_narrowed(&self.objects@[i as int], *ray, interval, closest_so_far);
            }
            if let Some(info) = self.objects[i].hit(
                ray,
                Interval::from_val(interval.min, closest_so_far),
            ) {
                closest_so_far = info.t;
                hit_info = Some(info);
            }
            i += 1;
        }
        hit_info
    }
}

/// Lowering the interval's upper bound to `closest` keeps a shape's hit
/// below `closest` as it is and drops any other.
pub proof fn lemma_shape_hit_narrowed(s: &Shape, ray: Ray, interval: Interval, closest: Fixed)
    requires
        closest@ <= interval.max@,
    ensures
        s.spec_hit(ray, interval.spec_up_to(closest)) == (match s.spec_hit(ray, interval) {
            Some(h) => if h.t@ < closest@ {
                Some(h)
            } else {
                None
            },
            None => None,
        }),
{
    match s {
        Shape::Sphere(sphere) => lemma_hit_narrowed(sphere, ray, interval, closest),
    }
}

/// The nearest of the first `n` hits is one of them, and none of them has a
/// smaller ray parameter. There is no nearest hit exactly where none of
/// them is a hit.
pub proof fn lemma_nearest_is_least(hits: Seq<Option<HitRecord>>, n: int)
    requires
        0 <= n <= hits.len(),
    ensures
        match spec_nearest_of(hits, n) {
            Some(best) => {
                &&& exists|k: int| 0 <= k < n && #[trigger] hits[k] == Some(best)
                &&& forall|k: int|
                    0 <= k < n ==> (#[trigger] hits[k] matches Some(h) ==> best.t@ <= h.t@)
            },
            None => forall|k: int| 0 <= k < n ==> #[trigger] hits[k] is None,
        },
    decreases n,
{
    if n > 0 {
        lemma_nearest_is_least(hits, n - 1);
        match spec_nearest_of(hits, n) {
            Some(best) => {
                if spec_nearest_of(hits, n - 1) == Some(best) {
                    let k = choose|k: int| 0 <= k < n - 1 && #[trigger] hits[k] == Some(best);
                    assert(0 <= k < n && hits[k] == Some(best));
                } else {
                    assert(hits[n - 1] == Some(best));
                }
            },
            None => {},
        }
    }
}

/// The hit of a list of shapes is the hit of one of them, and none of them
/// has a hit at a smaller ray parameter. The list is not hit exactly where
/// none of its shapes is.
pub proof fn lemma_list_hit_is_least(list: &ShapeList, ray: Ray, interval: Interval)
    ensures
        match list.spec_hit(ray, interval) {
            Some(best) => {
                &&& exists|k: int|
                    0 <= k < list.objects@.len() && #[trigger] list.spec_hits(ray, interval)[k]
                        == Some(best)
                &&& forall|k: int|
                    0 <= k < list.objects@.len() ==> (#[trigger] list.spec_hits(
                        ray,
                        interval,
                    )[k] matches Some(h) ==> best.t@ <= h.t@)
            },
            None => forall|k: int|
                0 <= k < list.objects@.len() ==> #[trigger] list.spec_hits(ray, interval)[k] is None,
        },
{
    lemma_nearest_is_least(list.spec_hits(ray, interval), list.objects@.len() as int);
}

} // verus!
