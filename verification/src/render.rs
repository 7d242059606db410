//! The renderer: from a scene and a camera to a raster.

use crate::camera::params::PixelSample;
use crate::camera::Camera;
use crate::color::Color;
use crate::fixed::{Fixed, HALF_RAW, ONE_RAW};
use crate::interval::Interval;
use crate::material::scatter::Sample;
use crate::raster::Raster;
use crate::ray::Ray;
use crate::shape::{Shape, ShapeList};
use crate::vec3::Vec3;
use vstd::prelude::*;

verus! {

/// The green channel of the sky's blue: seven tenths, rounded down.
pub const SKY_GREEN_RAW: i64 = 45875;

/// How a scene is rendered.
#[allow(non_camel_case_types)]
#[derive(Clone, Copy, Debug, PartialEq, Eq, Structural)]
pub enum RenderMode {
    /// One ray through the centre of each pixel.
    BASIC,
    /// Anti-aliasing: the mean of several rays through each pixel.
    AA,
}

/// The random numbers that never matter: a scatter that is never made takes
/// these.
pub open spec fn spec_idle_sample() -> Sample {
    Sample { unit: Vec3::spec_zeros().spec_as_unit(), draw: Fixed::spec_zero() }
}

/// The random numbers of one ray through a pixel: those of the camera ray
/// and those of its scatters, in their order.
#[derive(Debug)]
pub struct PixelDraw {
    pub lens: PixelSample,
    pub scatters: Vec<Sample>,
}

/// What a `PixelDraw` holds.
pub struct DrawView {
    pub lens: PixelSample,
    pub scatters: Seq<Sample>,
}

impl View for PixelDraw {
    type V = DrawView;

    open spec fn view(&self) -> DrawView {
        DrawView { lens: self.lens, scatters: self.scatters@ }
    }
}

impl DrawView {
    /// Every number is one that can be drawn, and there is one sample for
    /// each of `depth` scatters.
    pub open spec fn is_drawn(self, depth: nat) -> bool {
        &&& self.lens.is_drawn()
        &&& self.scatters.len() == depth
        &&& forall|k: int| 0 <= k < self.scatters.len() ==> (#[trigger] self.scatters[k]).is_drawn()
    }
}

/// The bytes that encode a linear colour for display: the square root of
/// each channel, for gamma two, as a byte.
pub open spec fn spec_encode(c: Color) -> Seq<u8> {
    c.spec_linear2gamma().spec_to_rgb()
}

/// Encodes a linear colour for display.
pub fn encode(c: Color) -> (rgb: [u8; 3])
    ensures
        rgb@ == spec_encode(c),
{
    c.linear2gamma().to_rgb()
}

/// A scene to render: a camera and the shapes before it.
#[derive(Debug)]
pub struct Scene {
    pub camera: Camera,
    pub world: ShapeList,
}

impl Scene {
    /// The blue of the sky.
    pub open spec fn spec_sky() -> Color {
        Color { r: Fixed { raw: HALF_RAW }, g: Fixed { raw: SKY_GREEN_RAW }, b: Fixed::spec_one() }
    }

    /// The colour of the sky in the direction `d`: from white at the bottom
    /// to blue at the top, by `t = (y + 1) / 2` for the height `y` of the
    /// unit direction.
    pub open spec fn spec_background(d: Vec3) -> Color {
        let t = Fixed::spec_half().spec_mul(d.spec_as_unit().y.spec_add(Fixed::spec_one()));
        Color::spec_white().spec_lerp(Self::spec_sky(), t)
    }

    /// The light that comes back along the ray, followed for at most
    /// `depth` scatters, the `k`-th of them with the random numbers
    /// `samples[k]`: black where no scatter is left or the material absorbs
    /// the ray, the sky where the ray hits nothing, else the light along the
    /// scattered ray, channel by channel times the attenuation.
    pub open spec fn spec_trace(&self, ray: Ray, depth: nat, samples: Seq<Sample>) -> Color
        decreases depth,
    {
        if depth == 0 {
            Color::spec_black()
        } else {
            match self.world.spec_hit(ray, Interval::spec_new()) {
                None => Self::spec_background(ray.direction),
                Some(info) => match info.material.spec_scatter(ray, info, samples[0]) {
                    None => Color::spec_black(),
                    Some(s) => s.albedo.spec_mul(
                        self.spec_trace(s.ray, (depth - 1) as nat, samples.skip(1)),
                    ),
                },
            }
        }
    }

    /// `c` is what `spec_trace` gives for `depth` drawn samples.
    pub open spec fn is_trace_outcome(&self, ray: Ray, depth: nat, samples: Seq<Sample>, c: Color) -> bool {
        &&& samples.len() == depth
        &&& forall|k: int| 0 <= k < samples.len() ==> (#[trigger] samples[k]).is_drawn()
        &&& c == self.spec_trace(ray, depth, samples)
    }

    /// The light along the camera ray of one draw through the pixel in
    /// column `x` of row `y`.
    pub open spec fn spec_sample_color(&self, x: u32, y: u32, depth: nat, draw: DrawView) -> Color {
        self.spec_trace(self.camera.spec_get_ray(x, y, draw.lens), depth, draw.scatters)
    }

    /// The sum of the light of all draws, added up from the first.
    pub open spec fn spec_sum(&self, x: u32, y: u32, depth: nat, draws: Seq<DrawView>) -> Color
        decreases draws.len(),
    {
        if draws.len() == 0 {
            Color::spec_black()
        } else {
            self.spec_sum(x, y, depth, draws.drop_last()).spec_add(
                self.spec_sample_color(x, y, depth, draws.last()),
            )
        }
    }

    /// The colour of a pixel: the mean of the light of its draws.
    pub open spec fn spec_pixel_color(&self, x: u32, y: u32, depth: nat, draws: Seq<DrawView>) -> Color {
        self.spec_sum(x, y, depth, draws).spec_div_scalar(
            Fixed::spec_from_u32(draws.len() as u32),
        )
    }

    /// `rgb` encodes the pixel in column `x` of row `y` for the given
    /// draws, and the draws are such as the mode makes: one through the
    /// pixel's centre in the basic mode, `samples_per_pixel` in the other,
    /// each with random numbers that can be drawn.
    pub open spec fn is_pixel_outcome(
        &self,
        x: u32,
        y: u32,
        mode: RenderMode,
        samples_per_pixel: u32,
        depth: u32,
        draws: Seq<DrawView>,
        rgb: Seq<u8>,
    ) -> bool {
        &&& draws.len() == (match mode {
            RenderMode::BASIC => 1,
            RenderMode::AA => samples_per_pixel,
        })
        &&& forall|k: int| 0 <= k < draws.len() ==> (#[trigger] draws[k]).is_drawn(depth as nat)
        &&& mode == RenderMode::BASIC ==> draws[0].lens == PixelSample::spec_center()
        &&& rgb == spec_encode(self.spec_pixel_color(x, y, depth as nat, draws))
    }

    /// The raster's pixel in column `x` of row `y` is an outcome of the
    /// render for some draws.
    pub open spec fn pixel_is_rendered(
        &self,
        r: Raster,
        x: int,
        y: int,
        mode: RenderMode,
        samples_per_pixel: u32,
        depth: u32,
    ) -> bool {
        exists|draws: Seq<DrawView>| #[trigger]
            self.is_pixel_outcome(
                x as u32,
                y as u32,
                mode,
                samples_per_pixel,
                depth,
                draws,
                r.spec_pixel(x, y),
            )
    }

    /// The raster has the size of the camera's image, and each of its
    /// pixels is an outcome of the render for some draws.
    pub open spec fn is_render(&self, r: Raster, mode: RenderMode, samples_per_pixel: u32, depth: u32) -> bool {
        &&& r.wf()
        &&& r.spec_width() == self.camera.width
        &&& r.spec_height() == self.camera.height
        &&& forall|x: int, y: int|
            0 <= x < self.camera.width && 0 <= y < self.camera.height ==> #[trigger] self.pixel_is_rendered(
                r,
                x,
                y,
                mode,
                samples_per_pixel,
                depth,
            )
    }

    /// A scene of the camera without any shape.
    pub fn new(camera: Camera) -> (s: Scene)
        ensures
            s.camera == camera,
            s.world.objects@ == Seq::<Shape>::empty(),
    {
        Scene { camera, world: ShapeList::new() }
    }

    /// Adds a shape after those that the scene holds.
    pub fn push(&mut self, object: Shape)
        ensures
            final(self).camera == old(self).camera,
            final(self).world.objects@ == old(self).world.objects@.push(object),
    {
        self.world.push(object);
    }

    pub fn camera(&self) -> (c: &Camera)
        ensures
            *c == self.camera,
    {
        &self.camera
    }

    pub fn width(&self) -> (w: u32)
        ensures
            w == self.camera.width,
    {
        self.camera.width
    }

    pub fn height(&self) -> (h: u32)
        ensures
            h == self.camera.height,
    {
        self.camera.height
    }

    /// The image's width divided by its height.
    pub fn aspect(&self) -> (a: Fixed)
        ensures
            a == Fixed::spec_from_u32(self.camera.width).spec_div(
                Fixed::spec_from_u32(self.camera.height),
            ),
    {
        Fixed::from_u32(self.width()).div(Fixed::from_u32(self.height()))
    }

    /// The colour of the sky in the direction `d`.
    pub fn background(&self, d: Vec3) -> (c: Color)
        ensures
            c == Scene::spec_background(d),
    {
        let t = Fixed::half().mul(d.as_unit().y().add(Fixed::one()));
        let sky = Color::new(Fixed::from_raw(HALF_RAW), Fixed::from_raw(SKY_GREEN_RAW), Fixed::one());
        Color::white().lerp(sky, t)
    }

    /// The light that comes back along the ray, with the random numbers of
    /// the scatters taken from `samples`, from `start` on.
    pub fn trace_with(&self, ray: Ray, depth: u32, samples: &Vec<Sample>, start: usize) -> (c: Color)
        requires
            start + depth <= samples@.len(),
        ensures
            c == self.spec_trace(ray, depth as nat, samples@.skip(start as int)),
        decreases depth,
    {
        if depth == 0 || start >= samples.len() {
            return Color::black();
        }
        match self.world.hit(&ray, Interval::new()) {
            None => self.background(ray.direction),
            Some(info) => match info.material.scatter_with(&ray, &info, &samples[start]) {
                None => Color::black(),
                Some(scattered) => {
                    assert(samples@.skip(start as int).skip(1) =~= samples@.skip(start + 1));
                    scattered.albedo.mul(
                        self.trace_with(scattered.ray, depth - 1, samples, start + 1),
                    )
                },
            },
        }
    }

    /// The light that comes back along the ray, followed for at most
    /// `depth` scatters, each with fresh random numbers.
    pub fn trace(&self, ray: Ray, depth: u32) -> (c: Color)
        ensures
            exists|samples: Seq<Sample>| self.is_trace_outcome(ray, depth as nat, samples, c),
            depth == 0 ==> c == Color::spec_black(),
        decreases depth,
    {
        if depth == 0 {
            assert(self.is_trace_outcome(ray, 0, Seq::<Sample>::empty(), Color::spec_black()));
            return Color::black();
        }
        proof {
            lemma_idle_sample_is_drawn();
        }
        match self.world.hit(&ray, Interval::new()) {
            None => {
                let c = self.background(ray.direction);
                assert(self.is_trace_outcome(
                    ray,
                    depth as nat,
                    Seq::new(depth as nat, |k: int| spec_idle_sample()),
                    c,
                ));
                c
            },
            Some(info) => {
                let sample = Sample::random();
                match info.material.scatter_with(&ray, &info, &sample) {
                    None => {
                        assert(self.is_trace_outcome(
                            ray,
                            depth as nat,
                            seq![sample] + Seq::new((depth - 1) as nat, |k: int| spec_idle_sample()),
                            Color::spec_black(),
                        ));
                        Color::black()
                    },
                    Some(scattered) => {
                        let rest = self.trace(scattered.ray, depth - 1);
                        let c = scattered.albedo.mul(rest);
                        proof {
                            let left: nat = (depth - 1) as nat;
                            let tail = choose|t: Seq<Sample>|
                                #[trigger] self.is_trace_outcome(scattered.ray, left, t, rest);
                            let all = seq![sample] + tail;
                            assert(all.skip(1) =~= tail);
                            assert(self.is_trace_outcome(ray, depth as nat, all, c));
                        }
                        c
                    },
                }
            },
        }
    }

    /// The bytes of the pixel in column `x` of row `y` for the given draws.
    pub fn pixel_with(&self, x: u32, y: u32, depth: u32, draws: &Vec<PixelDraw>) -> (rgb: [u8; 3])
        requires
            draws@.len() <= u32::MAX,
            forall|k: int| 0 <= k < draws@.len() ==> (#[trigger] draws@[k]).scatters@.len() == depth,
        ensures
            rgb@ == spec_encode(
                self.spec_pixel_color(x, y, depth as nat, draws@.map_values(|d: PixelDraw| d@)),
            ),
    {
        let ghost views = draws@.map_values(|d: PixelDraw| d@);
        let mut acc = Color::black();
        let mut k: usize = 0;
        while k < draws.len()
            invariant
                k <= draws@.len(),
                draws@.len() <= u32::MAX,
                views == draws@.map_values(|d: PixelDraw| d@),
                forall|j: int| 0 <= j < draws@.len() ==> (#[trigger] draws@[j]).scatters@.len() == depth,
                acc == self.spec_sum(x, y, depth as nat, views.take(k as int)),
            decreases draws@.len() - k,
        {
            let ray = self.camera.get_ray_with(x, y, &draws[k].lens);
            let c = self.trace_with(ray, depth, &draws[k].scatters, 0);
            proof {
                assert(draws@[k as int].scatters@.skip(0) =~= draws@[k as int].scatters@);
                assert(views.take(k + 1).drop_last() =~= views.take(k as int));
                assert(views.take(k + 1).last() == draws@[k as int]@);
            }
            acc = acc.add(c);
            k += 1;
        }
        assert(views.take(k as int) =~= views);
        encode(acc.div_scalar(Fixed::from_u32(draws.len() as u32)))
    }

    /// The bytes of the pixel in column `x` of row `y`, with fresh random
    /// numbers.
    pub fn pixel(&self, x: u32, y: u32, mode: RenderMode, samples_per_pixel: u32, max_depth: u32) -> (rgb:
        [u8; 3])
        ensures
            exists|draws: Seq<DrawView>| #[trigger]
                self.is_pixel_outcome(x, y, mode, samples_per_pixel, max_depth, draws, rgb@),
    {
        let count: u32 = match mode {
            RenderMode::BASIC => 1,
            RenderMode::AA => samples_per_pixel,
        };
        let ghost depth: nat = max_depth as nat;
        let ghost mut used: Seq<DrawView> = Seq::empty();
        let mut acc = Color::black();
        let mut k: u32 = 0;
        while k < count
            invariant
                k <= count,
                depth == max_depth,
                used.len() == k,
                forall|j: int| 0 <= j < used.len() ==> (#[trigger] used[j]).is_drawn(depth),
                mode == RenderMode::BASIC && k > 0 ==> used[0].lens == PixelSample::spec_center(),
                acc == self.spec_sum(x, y, depth, used),
            decreases count - k,
        {
            let lens = match mode {
                RenderMode::BASIC => PixelSample::center(),
                RenderMode::AA => PixelSample::random(),
            };
            let ray = self.camera.get_ray_with(x, y, &lens);
            let c = self.trace(ray, max_depth);
            proof {
                let scatters = choose|s: Seq<Sample>| #[trigger] self.is_trace_outcome(ray, depth, s, c);
                let next = used.push(DrawView { lens, scatters });
                assert(next.drop_last() =~= used);
                used = next;
            }
            acc = acc.add(c);
            k += 1;
        }
        let rgb = encode(acc.div_scalar(Fixed::from_u32(count)));
        assert(self.is_pixel_outcome(x, y, mode, samples_per_pixel, max_depth, used, rgb@));
        rgb
    }

    /// Fills a raster of the camera's size pixel by pixel.
    fn render_pixels(&self, mode: RenderMode, samples_per_pixel: u32, max_depth: u32) -> (r: Raster)
        requires
            3 * self.camera.width * self.camera.height <= isize::MAX,
        ensures
            self.is_render(r, mode, samples_per_pixel, max_depth),
    {
        let width = self.camera.width;
        let height = self.camera.height;
        let mut img = Raster::new(width, height);
        let mut y: u32 = 0;
        while y < height
            invariant
                y <= height,
                width == self.camera.width,
                height == self.camera.height,
                img.wf(),
                img.spec_width() == width,
                img.spec_height() == height,
                forall|x2: int, y2: int|
                    0 <= x2 < width && 0 <= y2 < y ==> #[trigger] self.pixel_is_rendered(
                        img,
                        x2,
                        y2,
                        mode,
                        samples_per_pixel,
                        max_depth,
                    ),
            decreases height - y,
        {
            let mut x: u32 = 0;
            while x < width
                invariant
                    x <= width,
                    y < height,
                    width == self.camera.width,
                    height == self.camera.height,
                    img.wf(),
                    img.spec_width() == width,
                    img.spec_height() == height,
                    forall|x2: int, y2: int|
                        0 <= x2 < width && (0 <= y2 < y || (y2 == y && x2 < x))
                            ==> #[trigger] self.pixel_is_rendered(
                            img,
                            x2,
                            y2,
                            mode,
                            samples_per_pixel,
                            max_depth,
                        ),
                decreases width - x,
            {
                let rgb = self.pixel(x, y, mode, samples_per_pixel, max_depth);
                let ghost before = img;
                img.put(x, y, rgb);
                proof {
                    let draws = choose|draws: Seq<DrawView>| #[trigger]
                        self.is_pixel_outcome(x, y, mode, samples_per_pixel, max_depth, draws, rgb@);
                    assert(self.is_pixel_outcome(
                        (x as int) as u32,
                        (y as int) as u32,
                        mode,
                        samples_per_pixel,
                        max_depth,
                        draws,
                        img.spec_pixel(x as int, y as int),
                    ));
                    assert forall|x2: int, y2: int|
                        0 <= x2 < width && (0 <= y2 < y || (y2 == y && x2 < x + 1))
                            implies #[trigger] self.pixel_is_rendered(
                        img,
                        x2,
                        y2,
                        mode,
                        samples_per_pixel,
                        max_depth,
                    ) by {
                        if x2 != x || y2 != y {
                            assert(self.pixel_is_rendered(
                                before,
                                x2,
                                y2,
                                mode,
                                samples_per_pixel,
                                max_depth,
                            ));
                            assert(img.spec_pixel(x2, y2) == before.spec_pixel(x2, y2));
                        }
                    }
                }
                x += 1;
            }
            y += 1;
        }
        img
    }

    /// Renders with one ray through the centre of each pixel.
    pub fn render_basic(&self, max_depth: u32) -> (r: Raster)
        requires
            3 * self.camera.width * self.camera.height <= isize::MAX,
        ensures
            self.is_render(r, RenderMode::BASIC, 1, max_depth),
    {
        self.render_pixels(RenderMode::BASIC, 1, max_depth)
    }

    /// Renders with anti-aliasing: the mean of `samples_per_pixel` rays
    /// through each pixel.
    pub fn render_aa(&self, samples_per_pixel: u32, max_depth: u32) -> (r: Raster)
        requires
            3 * self.camera.width * self.camera.height <= isize::MAX,
        ensures
            self.is_render(r, RenderMode::AA, samples_per_pixel, max_depth),
    {
        self.render_pixels(RenderMode::AA, samples_per_pixel, max_depth)
    }

    /// Renders the scene in the given mode.
    pub fn render(&self, mode: RenderMode, samples_per_pixel: u32, max_depth: u32) -> (r: Raster)
        requires
            3 * self.camera.width * self.camera.height <= isize::MAX,
        ensures
            self.is_render(r, mode, samples_per_pixel, max_depth),
    {
        self.render_pixels(mode, samples_per_pixel, max_depth)
    }
}

/// The idle sample is one that can be drawn.
pub proof fn lemma_idle_sample_is_drawn()
    ensures
        spec_idle_sample().is_drawn(),
{
    assert(Vec3::spec_zeros().in_unit_cube());
}

/// With no scatter allowed, the light along every ray is black, whatever
/// the scene holds.
pub proof fn lemma_trace_depth_zero(scene: &Scene, ray: Ray, samples: Seq<Sample>)
    ensures
        scene.spec_trace(ray, 0, samples) == Color::spec_black(),
{
}

/// With no scatter allowed, the light of any draws sums to black.
pub proof fn lemma_sum_depth_zero(scene: &Scene, x: u32, y: u32, draws: Seq<DrawView>)
    ensures
        scene.spec_sum(x, y, 0, draws) == Color::spec_black(),
    decreases draws.len(),
{
    if draws.len() > 0 {
        lemma_sum_depth_zero(scene, x, y, draws.drop_last());
    }
}

/// With no scatter allowed, every pixel of a render is black, whatever the
/// scene holds and however it is rendered.
pub proof fn lemma_depth_zero_is_black(
    scene: &Scene,
    x: u32,
    y: u32,
    mode: RenderMode,
    samples_per_pixel: u32,
    draws: Seq<DrawView>,
    rgb: Seq<u8>,
)
    requires
        scene.is_pixel_outcome(x, y, mode, samples_per_pixel, 0, draws, rgb),
    ensures
        rgb == seq![0u8, 0u8, 0u8],
{
    lemma_sum_depth_zero(scene, x, y, draws);
    let k = Fixed::spec_from_u32(draws.len() as u32);
    let zero = Fixed::spec_zero();
    assert(zero.spec_div(k) == zero) by {
        if k.raw != 0 {
            assert(crate::fixed::trunc_div(0, k@) == 0) by (nonlinear_arith)
                requires
                    k@ != 0,
            ;
        }
    }
    assert(zero.spec_sqrt() == zero);
    assert(crate::color::spec_channel_byte(zero) == 0u8);
    assert(rgb =~= seq![0u8, 0u8, 0u8]);
}

} // verus!
