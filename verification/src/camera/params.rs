//! What a camera is set up from and what is derived from it.

use crate::fixed::{Fixed, ONE_RAW};
use crate::utils::random;
use crate::vec3::Vec3;
use vstd::prelude::*;

verus! {

/// The setup of a camera. In place of the vertical field of view it holds
/// `half_height`, the tangent of half that angle.
#[derive(Clone, Copy, Debug, PartialEq, Eq, Structural)]
pub struct FOVParams {
    pub width: u32,
    pub height: u32,
    pub max_depth: u32,
    pub aspect_ratio: Fixed,
    pub half_height: Fixed,
    pub focus_distance: Fixed,
    pub center: Vec3,
    pub v_up: Vec3,
    pub look_from: Vec3,
    pub look_at: Vec3,
}

impl FOVParams {
    /// The basis vector against the viewing direction.
    pub open spec fn spec_basis_w(self) -> Vec3 {
        self.look_from.spec_sub(self.look_at).spec_as_unit()
    }

    /// The basis vector to the right.
    pub open spec fn spec_basis_u(self) -> Vec3 {
        self.v_up.spec_cross(self.spec_basis_w()).spec_as_unit()
    }

    /// The basis vector upward.
    pub open spec fn spec_basis_v(self) -> Vec3 {
        self.spec_basis_w().spec_cross(self.spec_basis_u())
    }

    /// The height of the viewport at the focus distance:
    /// `2 half_height focus_distance`.
    pub open spec fn spec_viewport_height(self) -> Fixed {
        Fixed::spec_from_int(2).spec_mul(self.half_height).spec_mul(self.focus_distance)
    }

    /// The width of the viewport: its height times the aspect ratio.
    pub open spec fn spec_viewport_width(self) -> Fixed {
        self.spec_viewport_height().spec_mul(self.aspect_ratio)
    }

    /// The viewport's edge along a row, left to right.
    pub open spec fn spec_edge_u(self) -> Vec3 {
        self.spec_basis_u().spec_scale(self.spec_viewport_width())
    }

    /// The viewport's edge along a column, top to bottom.
    pub open spec fn spec_edge_v(self) -> Vec3 {
        self.spec_basis_v().spec_neg().spec_scale(self.spec_viewport_height())
    }

    /// The viewport's upper left corner:
    /// `center - focus_distance w - edge_u / 2 - edge_v / 2`.
    pub open spec fn spec_corner(self) -> Vec3 {
        self.center.spec_sub(self.spec_basis_w().spec_scale(self.focus_distance)).spec_sub(
            self.spec_edge_u().spec_scale(Fixed::spec_half()),
        ).spec_sub(self.spec_edge_v().spec_scale(Fixed::spec_half()))
    }

    /// A square image of a hundred pixels a side, seen from one unit before
    /// the origin with a field of view of a right angle.
    pub fn new() -> (p: FOVParams)
        ensures
            p == (FOVParams {
                width: 100,
                height: 100,
                max_depth: 10,
                aspect_ratio: Fixed::spec_one(),
                half_height: Fixed::spec_one(),
                focus_distance: Fixed::spec_zero(),
                center: Vec3::spec_zeros(),
                v_up: Vec3::spec_new(Fixed::spec_zero(), Fixed::spec_one(), Fixed::spec_zero()),
                look_from: Vec3::spec_new(
                    Fixed::spec_zero(),
                    Fixed::spec_zero(),
                    Fixed::spec_one().spec_neg(),
                ),
                look_at: Vec3::spec_zeros(),
            }),
    {
        FOVParams {
            width: 100,
            height: 100,
            max_depth: 10,
            aspect_ratio: Fixed::one(),
            half_height: Fixed::one(),
            focus_distance: Fixed::zero(),
            center: Vec3::zeros(),
            v_up: Vec3::new(Fixed::zero(), Fixed::one(), Fixed::zero()),
            look_from: Vec3::new(Fixed::zero(), Fixed::zero(), Fixed::one().neg()),
            look_at: Vec3::zeros(),
        }
    }
}

/// The grid of pixel centres on the viewport.
#[derive(Clone, Copy, Debug, PartialEq, Eq, Structural)]
pub struct PixelParams {
    /// The centre of the pixel in column 0 of row 0.
    pub pixel00_loc: Vec3,
    /// From a pixel centre to the next in its row.
    pub pixel_delta_u: Vec3,
    /// From a pixel centre to the next in its column.
    pub pixel_delta_v: Vec3,
}

impl PixelParams {
    /// The grid of `width` by `height` pixels on the viewport with the
    /// given corner and edges: the deltas are the edges divided by the pixel
    /// counts, and the first centre lies half a delta from the corner along
    /// both edges.
    pub open spec fn spec_from_viewport(
        corner: Vec3,
        edge_u: Vec3,
        edge_v: Vec3,
        width: u32,
        height: u32,
    ) -> PixelParams {
        let pixel_delta_u = edge_u.spec_div_scalar(Fixed::spec_from_u32(width));
        let pixel_delta_v = edge_v.spec_div_scalar(Fixed::spec_from_u32(height));
        PixelParams {
            pixel00_loc: corner.spec_add(
                pixel_delta_u.spec_add(pixel_delta_v).spec_scale(Fixed::spec_half()),
            ),
            pixel_delta_u,
            pixel_delta_v,
        }
    }

    /// The grid of the camera that is set up from `fov`.
    pub open spec fn spec_from_fov(fov: FOVParams) -> PixelParams {
        Self::spec_from_viewport(
            fov.spec_corner(),
            fov.spec_edge_u(),
            fov.spec_edge_v(),
            fov.width,
            fov.height,
        )
    }

    /// The point of the viewport at `i + dx` pixels along a row and
    /// `j + dy` pixels along a column from the first pixel's centre.
    pub open spec fn spec_sample_point(self, i: u32, j: u32, dx: Fixed, dy: Fixed) -> Vec3 {
        self.pixel00_loc.spec_add(
            self.pixel_delta_u.spec_scale(Fixed::spec_from_u32(i).spec_add(dx)),
        ).spec_add(self.pixel_delta_v.spec_scale(Fixed::spec_from_u32(j).spec_add(dy)))
    }

    /// A grid with every vector zero.
    pub fn new() -> (p: PixelParams)
        ensures
            p.pixel00_loc == Vec3::spec_zeros(),
            p.pixel_delta_u == Vec3::spec_zeros(),
            p.pixel_delta_v == Vec3::spec_zeros(),
    {
        PixelParams {
            pixel00_loc: Vec3::zeros(),
            pixel_delta_u: Vec3::zeros(),
            pixel_delta_v: Vec3::zeros(),
        }
    }

    pub fn from_viewport(corner: Vec3, edge_u: Vec3, edge_v: Vec3, width: u32, height: u32) -> (p:
        PixelParams)
        ensures
            p == PixelParams::spec_from_viewport(corner, edge_u, edge_v, width, height),
    {
        let pixel_delta_u = edge_u.div_scalar(Fixed::from_u32(width));
        let pixel_delta_v = edge_v.div_scalar(Fixed::from_u32(height));
        PixelParams {
            pixel00_loc: corner.add(pixel_delta_u.add(pixel_delta_v).scale(Fixed::half())),
            pixel_delta_u,
            pixel_delta_v,
        }
    }

    pub fn sample_point(&self, i: u32, j: u32, dx: Fixed, dy: Fixed) -> (p: Vec3)
        ensures
            p == self.spec_sample_point(i, j, dx, dy),
    {
        self.pixel00_loc.add(self.pixel_delta_u.scale(Fixed::from_u32(i).add(dx))).add(
            self.pixel_delta_v.scale(Fixed::from_u32(j).add(dy)),
        )
    }
}

/// The disk that rays start from, for depth of field. In place of the
/// defocus angle it holds `defocus_tan`, the tangent of half that angle.
#[derive(Clone, Copy, Debug, PartialEq, Eq, Structural)]
pub struct DefocusParams {
    pub defocus_tan: Fixed,
    /// The disk's radius to the right.
    pub defocus_disk_u: Vec3,
    /// The disk's radius upward.
    pub defocus_disk_v: Vec3,
}

impl DefocusParams {
    /// The disk of the camera that is set up from `fov`, of the radius
    /// `focus_distance defocus_tan`.
    pub open spec fn spec_from_fov(fov: FOVParams, defocus_tan: Fixed) -> DefocusParams {
        let radius = fov.focus_distance.spec_mul(defocus_tan);
        DefocusParams {
            defocus_tan,
            defocus_disk_u: fov.spec_basis_u().spec_scale(radius),
            defocus_disk_v: fov.spec_basis_v().spec_scale(radius),
        }
    }

    /// Where a ray starts: at `center` where the disk has no size, else at
    /// the disk's point `(lens_x, lens_y)`.
    pub open spec fn spec_ray_origin(self, center: Vec3, lens_x: Fixed, lens_y: Fixed) -> Vec3 {
        if self.defocus_tan@ <= 0 {
            center
        } else {
            center.spec_add(self.defocus_disk_u.spec_scale(lens_x)).spec_add(
                self.defocus_disk_v.spec_scale(lens_y),
            )
        }
    }

    /// No disk: every ray starts at the camera's centre.
    pub fn new() -> (p: DefocusParams)
        ensures
            p.defocus_tan == Fixed::spec_zero(),
            p.defocus_disk_u == Vec3::spec_zeros(),
            p.defocus_disk_v == Vec3::spec_zeros(),
    {
        DefocusParams {
            defocus_tan: Fixed::zero(),
            defocus_disk_u: Vec3::zeros(),
            defocus_disk_v: Vec3::zeros(),
        }
    }

    pub fn ray_origin(&self, center: Vec3, lens_x: Fixed, lens_y: Fixed) -> (o: Vec3)
        ensures
            o == self.spec_ray_origin(center, lens_x, lens_y),
    {
        if self.defocus_tan.le(Fixed::zero()) {
            center
        } else {
            center.add(self.defocus_disk_u.scale(lens_x)).add(self.defocus_disk_v.scale(lens_y))
        }
    }
}

/// The random numbers of one camera ray: where in the pixel it passes and
/// where on the defocus disk it starts.
#[derive(Clone, Copy, Debug, PartialEq, Eq, Structural)]
pub struct PixelSample {
    pub dx: Fixed,
    pub dy: Fixed,
    pub lens_x: Fixed,
    pub lens_y: Fixed,
}

/// How often `PixelSample::random` draws a point of the square before it
/// settles for the disk's centre.
pub const DISK_TRIES: u32 = 32;

impl PixelSample {
    /// The point lies inside the unit disk.
    pub open spec fn in_unit_disk(x: Fixed, y: Fixed) -> bool {
        x.spec_mul(x).spec_add(y.spec_mul(y))@ < ONE_RAW
    }

    /// The offsets are at least minus a half and below a half, and the
    /// starting point lies inside the unit disk.
    pub open spec fn is_drawn(self) -> bool {
        &&& -(ONE_RAW / 2) <= self.dx@ < ONE_RAW / 2
        &&& -(ONE_RAW / 2) <= self.dy@ < ONE_RAW / 2
        &&& Self::in_unit_disk(self.lens_x, self.lens_y)
    }

    /// The centre of the pixel and of the disk.
    pub open spec fn spec_center() -> PixelSample {
        PixelSample {
            dx: Fixed::spec_zero(),
            dy: Fixed::spec_zero(),
            lens_x: Fixed::spec_zero(),
            lens_y: Fixed::spec_zero(),
        }
    }

    pub fn center() -> (s: PixelSample)
        ensures
            s == PixelSample::spec_center(),
            s.is_drawn(),
    {
        PixelSample {
            dx: Fixed::zero(),
            dy: Fixed::zero(),
            lens_x: Fixed::zero(),
            lens_y: Fixed::zero(),
        }
    }

    /// Fresh random numbers for one camera ray: the sample that
    /// `from_draws` makes of two draws for the offsets and of at most
    /// `DISK_TRIES` pairs of draws for the starting point, each draw at least
    /// zero and below one.
    pub fn random() -> (s: PixelSample)
        ensures
            s.is_drawn(),
            exists|dx: Fixed, dy: Fixed, pairs: Seq<(Fixed, Fixed)>|
                #![trigger PixelSample::spec_from_draws(dx, dy, pairs)]
                {
                    &&& PixelSample::are_draws(dx, dy, pairs)
                    &&& pairs.len() <= DISK_TRIES
                    &&& s == PixelSample::spec_from_draws(dx, dy, pairs)
                },
    {
        let dx = random();
        let dy = random();
        let ghost mut seen: Seq<(Fixed, Fixed)> = Seq::empty();
        let mut lens: (Fixed, Fixed) = (Fixed::zero(), Fixed::zero());
        let mut tries: u32 = 0;
        while tries < DISK_TRIES
            invariant_except_break
                seen.len() == tries,
                lens == (Fixed::spec_zero(), Fixed::spec_zero()),
                forall|k: int| 0 <= k < seen.len() ==> !PixelSample::spec_accepts(#[trigger] seen[k]),
                PixelSample::spec_lens(seen) == (Fixed::spec_zero(), Fixed::spec_zero()),
            invariant
                tries <= DISK_TRIES,
                forall|k: int|
                    0 <= k < seen.len() ==> 0 <= (#[trigger] seen[k]).0@ < ONE_RAW && 0 <= seen[k].1@
                        < ONE_RAW,
            ensures
                seen.len() <= DISK_TRIES,
                lens == PixelSample::spec_lens(seen),
            decreases DISK_TRIES - tries,
        {
            let a = random();
            let b = random();
            proof {
                lemma_after_rejected(seen, (a, b));
                seen = seen.push((a, b));
            }
            if PixelSample::accepts(a, b) {
                lens = (PixelSample::spread(a), PixelSample::spread(b));
                assert(lens == PixelSample::spec_lens(seq![(a, b)])) by {
                    assert(seq![(a, b)][0] == (a, b));
                }
                break ;
            }
            proof {
                lemma_all_rejected(seen);
            }
            tries += 1;
        }
        proof {
            lemma_lens_in_disk(seen);
        }
        let s = PixelSample { dx: PixelSample::offset(dx), dy: PixelSample::offset(dy), lens_x: lens.0, lens_y: lens.1 };
        assert(PixelSample::are_draws(dx, dy, seen) && s == PixelSample::spec_from_draws(dx, dy, seen));
        s
    }

    /// The offset within a pixel that a draw stands for: the draw less a
    /// half.
    pub open spec fn spec_offset(draw: Fixed) -> Fixed {
        draw.spec_sub(Fixed::spec_half())
    }

    /// The coordinate on the square around the unit disk that a draw stands
    /// for: twice the draw, less one.
    pub open spec fn spec_spread(draw: Fixed) -> Fixed {
        draw.spec_mul(Fixed::spec_from_int(2)).spec_sub(Fixed::spec_one())
    }

    /// The point that the pair of draws stands for lies inside the unit
    /// disk.
    pub open spec fn spec_accepts(pair: (Fixed, Fixed)) -> bool {
        Self::in_unit_disk(Self::spec_spread(pair.0), Self::spec_spread(pair.1))
    }

    /// The starting point on the unit disk that the pairs of draws make: the
    /// point of the first pair whose point lies inside the disk, the centre
    /// where there is none.
    pub open spec fn spec_lens(pairs: Seq<(Fixed, Fixed)>) -> (Fixed, Fixed)
        decreases pairs.len(),
    {
        if pairs.len() == 0 {
            (Fixed::spec_zero(), Fixed::spec_zero())
        } else if Self::spec_accepts(pairs[0]) {
            (Self::spec_spread(pairs[0].0), Self::spec_spread(pairs[0].1))
        } else {
            Self::spec_lens(pairs.drop_first())
        }
    }

    /// Every one of the draws is at least zero and below one.
    pub open spec fn are_draws(dx: Fixed, dy: Fixed, pairs: Seq<(Fixed, Fixed)>) -> bool {
        &&& 0 <= dx@ < ONE_RAW
        &&& 0 <= dy@ < ONE_RAW
        &&& forall|k: int|
            0 <= k < pairs.len() ==> 0 <= (#[trigger] pairs[k]).0@ < ONE_RAW && 0 <= pairs[k].1@
                < ONE_RAW
    }

    /// The sample that the draws make: the offsets of `dx` and `dy`, and the
    /// starting point of the pairs.
    pub open spec fn spec_from_draws(dx: Fixed, dy: Fixed, pairs: Seq<(Fixed, Fixed)>) -> PixelSample {
        PixelSample {
            dx: Self::spec_offset(dx),
            dy: Self::spec_offset(dy),
            lens_x: Self::spec_lens(pairs).0,
            lens_y: Self::spec_lens(pairs).1,
        }
    }

    pub fn offset(draw: Fixed) -> (d: Fixed)
        ensures
            d == PixelSample::spec_offset(draw),
    {
        draw.sub(Fixed::half())
    }

    pub fn spread(draw: Fixed) -> (d: Fixed)
        ensures
            d == PixelSample::spec_spread(draw),
    {
        draw.mul(Fixed::from_int(2)).sub(Fixed::one())
    }

    /// Whether the point that the two draws stand for lies inside the unit
    /// disk.
    pub fn accepts(a: Fixed, b: Fixed) -> (ok: bool)
        ensures
            ok == PixelSample::spec_accepts((a, b)),
    {
        let x = PixelSample::spread(a);
        let y = PixelSample::spread(b);
        x.mul(x).add(y.mul(y)).lt(Fixed::one())
    }

    /// The sample that the given draws make.
    pub fn from_draws(dx: Fixed, dy: Fixed, pairs: &Vec<(Fixed, Fixed)>) -> (s: PixelSample)
        ensures
            s == PixelSample::spec_from_draws(dx, dy, pairs@),
    {
        let mut lens: (Fixed, Fixed) = (Fixed::zero(), Fixed::zero());
        let mut k: usize = 0;
        assert(pairs@.skip(0) =~= pairs@);
        while k < pairs.len()
            invariant_except_break
                k <= pairs@.len(),
                lens == (Fixed::spec_zero(), Fixed::spec_zero()),
                PixelSample::spec_lens(pairs@) == PixelSample::spec_lens(pairs@.skip(k as int)),
            ensures
                lens == PixelSample::spec_lens(pairs@),
            decreases pairs@.len() - k,
        {
            let pair = pairs[k];
            proof {
                assert(pairs@.skip(k as int)[0] == pair);
                assert(pairs@.skip(k as int).drop_first() =~= pairs@.skip(k + 1));
            }
            if PixelSample::accepts(pair.0, pair.1) {
                lens = (PixelSample::spread(pair.0), PixelSample::spread(pair.1));
                break ;
            }
            k += 1;
        }
        PixelSample { dx: PixelSample::offset(dx), dy: PixelSample::offset(dy), lens_x: lens.0, lens_y: lens.1 }
    }
}

/// Where no pair's point lies inside the disk, the starting point is the
/// centre.
pub proof fn lemma_all_rejected(pairs: Seq<(Fixed, Fixed)>)
    requires
        forall|k: int| 0 <= k < pairs.len() ==> !PixelSample::spec_accepts(#[trigger] pairs[k]),
    ensures
        PixelSample::spec_lens(pairs) == (Fixed::spec_zero(), Fixed::spec_zero()),
    decreases pairs.len(),
{
    if pairs.len() > 0 {
        lemma_all_rejected(pairs.drop_first());
    }
}

/// After pairs whose points all lie outside the disk, the next pair decides
/// the starting point.
pub proof fn lemma_after_rejected(pairs: Seq<(Fixed, Fixed)>, next: (Fixed, Fixed))
    requires
        forall|k: int| 0 <= k < pairs.len() ==> !PixelSample::spec_accepts(#[trigger] pairs[k]),
    ensures
        PixelSample::spec_lens(pairs.push(next)) == PixelSample::spec_lens(seq![next]),
    decreases pairs.len(),
{
    if pairs.len() > 0 {
        lemma_after_rejected(pairs.drop_first(), next);
        assert(pairs.push(next).drop_first() =~= pairs.drop_first().push(next));
        assert(pairs.push(next)[0] == pairs[0]);
    } else {
        assert(pairs.push(next) =~= seq![next]);
    }
}

/// The starting point that pairs of draws make lies inside the unit disk.
pub proof fn lemma_lens_in_disk(pairs: Seq<(Fixed, Fixed)>)
    ensures
        PixelSample::in_unit_disk(PixelSample::spec_lens(pairs).0, PixelSample::spec_lens(pairs).1),
    decreases pairs.len(),
{
    if pairs.len() == 0 {
        assert(0int * 0int == 0);
    } else if !PixelSample::spec_accepts(pairs[0]) {
        lemma_lens_in_disk(pairs.drop_first());
    }
}

} // verus!
