//! The camera: from pixels to rays.

pub mod params;

use crate::camera::params::{DefocusParams, FOVParams, PixelParams, PixelSample};
use crate::fixed::Fixed;
use crate::ray::Ray;
use crate::vec3::Vec3;
use vstd::prelude::*;

verus! {

/// A camera: where it stands, its viewport, its pixel grid and its defocus
/// disk.
#[derive(Clone, Copy, Debug, PartialEq, Eq, Structural)]
pub struct Camera {
    /// Where the camera stands.
    pub origin: Vec3,
    /// The viewport's edge along a row.
    pub u: Vec3,
    /// The viewport's edge along a column.
    pub v: Vec3,
    /// The viewport's corner at column 0 of row 0.
    pub w: Vec3,
    /// The image's width in pixels.
    pub width: u32,
    /// The image's height in pixels.
    pub height: u32,
    pub pixel: PixelParams,
    pub defocus: DefocusParams,
}

impl Camera {
    /// The camera at the origin with the viewport of the corner `w` and the
    /// edges `u` and `v`, without a defocus disk.
    pub open spec fn spec_new(u: Vec3, v: Vec3, w: Vec3, width: u32, height: u32) -> Camera {
        Camera {
            origin: Vec3::spec_zeros(),
            u,
            v,
            w,
            width,
            height,
            pixel: PixelParams::spec_from_viewport(w, u, v, width, height),
            defocus: DefocusParams {
                defocus_tan: Fixed::spec_zero(),
                defocus_disk_u: Vec3::spec_zeros(),
                defocus_disk_v: Vec3::spec_zeros(),
            },
        }
    }

    /// The camera at `origin` that looks at `lookat`, with the viewport one
    /// unit ahead, `2 half_h` high and as wide as the image's shape asks.
    /// `half_h` is the tangent of half the vertical field of view. The
    /// viewport's rows run upward from the lower left corner.
    pub open spec fn spec_from_lookat(
        origin: Vec3,
        lookat: Vec3,
        vup: Vec3,
        half_h: Fixed,
        width: u32,
        height: u32,
    ) -> Camera {
        let half_w = Fixed::spec_from_u32(width).spec_div(Fixed::spec_from_u32(height)).spec_mul(
            half_h,
        );
        let w = origin.spec_sub(lookat).spec_as_unit();
        let u = vup.spec_cross(w).spec_as_unit();
        let v = w.spec_cross(u);
        let uw = u.spec_scale(half_w);
        let vh = v.spec_scale(half_h);
        let edge_u = uw.spec_scale(Fixed::spec_from_int(2));
        let edge_v = vh.spec_scale(Fixed::spec_from_int(2));
        let corner = origin.spec_sub(uw).spec_sub(vh).spec_sub(w);
        Camera {
            origin,
            u: edge_u,
            v: edge_v,
            w: corner,
            width,
            height,
            pixel: PixelParams::spec_from_viewport(corner, edge_u, edge_v, width, height),
            defocus: DefocusParams {
                defocus_tan: Fixed::spec_zero(),
                defocus_disk_u: Vec3::spec_zeros(),
                defocus_disk_v: Vec3::spec_zeros(),
            },
        }
    }

    /// The camera that is set up from `fov`, with a defocus disk of the
    /// half angle whose tangent is `defocus_tan`. The viewport lies at the
    /// focus distance, and its rows run downward from the upper left corner.
    pub open spec fn spec_from_fov(fov: FOVParams, defocus_tan: Fixed) -> Camera {
        Camera {
            origin: fov.center,
            u: fov.spec_edge_u(),
            v: fov.spec_edge_v(),
            w: fov.spec_corner(),
            width: fov.width,
            height: fov.height,
            pixel: PixelParams::spec_from_fov(fov),
            defocus: DefocusParams::spec_from_fov(fov, defocus_tan),
        }
    }

    /// The ray from the camera through the viewport's point at the
    /// fractions `s` and `t` of its edges: toward `w + s u + t v`.
    pub open spec fn spec_ray(self, s: Fixed, t: Fixed) -> Ray {
        Ray {
            origin: self.origin,
            direction: self.w.spec_add(self.u.spec_scale(s)).spec_add(self.v.spec_scale(t)).spec_sub(
                self.origin,
            ),
        }
    }

    /// The ray through the pixel in column `i` of row `j` for the given
    /// random numbers: from its starting point on the defocus disk toward
    /// its point in the pixel.
    pub open spec fn spec_get_ray(self, i: u32, j: u32, sample: PixelSample) -> Ray {
        let origin = self.defocus.spec_ray_origin(self.origin, sample.lens_x, sample.lens_y);
        Ray {
            origin,
            direction: self.pixel.spec_sample_point(i, j, sample.dx, sample.dy).spec_sub(origin),
        }
    }

    pub fn new(u: Vec3, v: Vec3, w: Vec3, width: u32, height: u32) -> (c: Camera)
        ensures
            c == Camera::spec_new(u, v, w, width, height),
    {
        Camera {
            origin: Vec3::zeros(),
            u,
            v,
            w,
            width,
            height,
            pixel: PixelParams::from_viewport(w, u, v, width, height),
            defocus: DefocusParams::new(),
        }
    }

    pub fn from_lookat(
        origin: Vec3,
        lookat: Vec3,
        vup: Vec3,
        half_h: Fixed,
        width: u32,
        height: u32,
    ) -> (c: Camera)
        ensures
            c == Camera::spec_from_lookat(origin, lookat, vup, half_h, width, height),
    {
        let half_w = Fixed::from_u32(width).div(Fixed::from_u32(height)).mul(half_h);
        let w = origin.sub(lookat).as_unit();
        let u = vup.cross(w).as_unit();
        let v = w.cross(u);
        let uw = u.scale(half_w);
        let vh = v.scale(half_h);
        let edge_u = uw.scale(Fixed::from_int(2));
        let edge_v = vh.scale(Fixed::from_int(2));
        let corner = origin.sub(uw).sub(vh).sub(w);
        Camera {
            origin,
            u: edge_u,
            v: edge_v,
            w: corner,
            width,
            height,
            pixel: PixelParams::from_viewport(corner, edge_u, edge_v, width, height),
            defocus: DefocusParams::new(),
        }
    }

    pub fn from_fov(fov: &FOVParams, defocus_tan: Fixed) -> (c: Camera)
        ensures
            c == Camera::spec_from_fov(*fov, defocus_tan),
    {
        let w = fov.look_from.sub(fov.look_at).as_unit();
        let u = fov.v_up.cross(w).as_unit();
        let v = w.cross(u);
        let viewport_height = Fixed::from_int(2).mul(fov.half_height).mul(fov.focus_distance);
        let viewport_width = viewport_height.mul(fov.aspect_ratio);
        let edge_u = u.scale(viewport_width);
        let edge_v = v.neg().scale(viewport_height);
        let corner = fov.center.sub(w.scale(fov.focus_distance)).sub(
            edge_u.scale(Fixed::half()),
        ).sub(edge_v.scale(Fixed::half()));
        let radius = fov.focus_distance.mul(defocus_tan);
        Camera {
            origin: fov.center,
            u: edge_u,
            v: edge_v,
            w: corner,
            width: fov.width,
            height: fov.height,
            pixel: PixelParams::from_viewport(corner, edge_u, edge_v, fov.width, fov.height),
            defocus: DefocusParams {
                defocus_tan,
                defocus_disk_u: u.scale(radius),
                defocus_disk_v: v.scale(radius),
            },
        }
    }

    pub fn ray(&self, s: Fixed, t: Fixed) -> (r: Ray)
        ensures
            r == self.spec_ray(s, t),
    {
        Ray {
            origin: self.origin,
            direction: self.w.add(self.u.scale(s)).add(self.v.scale(t)).sub(self.origin),
        }
    }

    /// The ray through a pixel for the given random numbers.
    pub fn get_ray_with(&self, i: u32, j: u32, sample: &PixelSample) -> (r: Ray)
        ensures
            r == self.spec_get_ray(i, j, *sample),
    {
        let origin = self.defocus.ray_origin(self.origin, sample.lens_x, sample.lens_y);
        let point = self.pixel.sample_point(i, j, sample.dx, sample.dy);
        Ray { origin, direction: point.sub(origin) }
    }

    /// A ray through a pixel, with fresh random numbers.
    pub fn get_ray(&self, i: u32, j: u32) -> (r: Ray)
        ensures
            exists|sample: PixelSample| sample.is_drawn() && r == self.spec_get_ray(i, j, sample),
    {
        let sample = PixelSample::random();
        let r = self.get_ray_with(i, j, &sample);
        assert(sample.is_drawn() && r == self.spec_get_ray(i, j, sample));
        r
    }
}

} // verus!
