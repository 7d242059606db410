use raytrs::camera::params::{DefocusParams, FOVParams, PixelParams, PixelSample};
use raytrs::camera::Camera;
use raytrs::fixed::{Fixed, ONE_RAW};
use raytrs::ray::Ray;
use raytrs::vec3::Vec3;

const ONE: i64 = ONE_RAW;

fn f(raw: i64) -> Fixed {
    Fixed::from_raw(raw)
}

fn v(x: i64, y: i64, z: i64) -> Vec3 {
    Vec3::new(f(x), f(y), f(z))
}

fn wide() -> FOVParams {
    let mut p = FOVParams::new();
    p.width = 16;
    p.height = 8;
    p.aspect_ratio = f(2 * ONE);
    p.half_height = f(ONE);
    p.focus_distance = f(ONE);
    p.center = Vec3::zeros();
    p.look_from = Vec3::zeros();
    p.look_at = v(0, 0, -ONE);
    p.v_up = v(0, ONE, 0);
    p
}

fn sample(dx: i64, dy: i64, lens_x: i64, lens_y: i64) -> PixelSample {
    PixelSample { dx: f(dx), dy: f(dy), lens_x: f(lens_x), lens_y: f(lens_y) }
}

#[test]
fn default_setup() {
    let p = FOVParams::new();
    assert_eq!(p.width, 100);
    assert_eq!(p.height, 100);
    assert_eq!(p.max_depth, 10);
    assert_eq!(p.aspect_ratio, f(ONE));
    assert_eq!(p.half_height, f(ONE));
    assert_eq!(p.focus_distance, f(0));
    assert_eq!(p.center, Vec3::zeros());
    assert_eq!(p.v_up, v(0, ONE, 0));
    assert_eq!(p.look_from, v(0, 0, -ONE));
    assert_eq!(p.look_at, Vec3::zeros());
    let g = PixelParams::new();
    assert_eq!(g.pixel00_loc, Vec3::zeros());
    assert_eq!(g.pixel_delta_u, Vec3::zeros());
    assert_eq!(g.pixel_delta_v, Vec3::zeros());
    let d = DefocusParams::new();
    assert_eq!(d.defocus_tan, f(0));
    assert_eq!(d.defocus_disk_u, Vec3::zeros());
    assert_eq!(d.defocus_disk_v, Vec3::zeros());
}

#[test]
fn camera_from_viewport_vectors() {
    let c = Camera::new(v(4 * ONE, 0, 0), v(0, 2 * ONE, 0), v(-2 * ONE, -ONE, -ONE), 400, 200);
    assert_eq!(c.origin, Vec3::zeros());
    assert_eq!(c.u, v(4 * ONE, 0, 0));
    assert_eq!(c.v, v(0, 2 * ONE, 0));
    assert_eq!(c.w, v(-2 * ONE, -ONE, -ONE));
    assert_eq!(c.width, 400);
    assert_eq!(c.height, 200);
    assert_eq!(c.pixel.pixel_delta_u, v(655, 0, 0));
    assert_eq!(c.pixel.pixel_delta_v, v(0, 655, 0));
    assert_eq!(c.pixel.pixel00_loc, v(-2 * ONE + 327, -ONE + 327, -ONE));
    assert_eq!(c.defocus, DefocusParams::new());
    assert_eq!(c.ray(f(0), f(0)), Ray::new(Vec3::zeros(), v(-2 * ONE, -ONE, -ONE)));
    assert_eq!(c.ray(f(ONE / 2), f(ONE / 2)), Ray::new(Vec3::zeros(), v(0, 0, -ONE)));
    assert_eq!(c.ray(f(ONE), f(ONE)), Ray::new(Vec3::zeros(), v(2 * ONE, ONE, -ONE)));
}

#[test]
fn camera_from_lookat() {
    let c = Camera::from_lookat(Vec3::zeros(), v(0, 0, -ONE), v(0, ONE, 0), f(ONE), 200, 100);
    assert_eq!(c.origin, Vec3::zeros());
    assert_eq!(c.u, v(4 * ONE, 0, 0));
    assert_eq!(c.v, v(0, 2 * ONE, 0));
    assert_eq!(c.w, v(-2 * ONE, -ONE, -ONE));
    assert_eq!(c.width, 200);
    assert_eq!(c.height, 100);
    assert_eq!(c.pixel.pixel00_loc, v(-130417, -64881, -ONE));
    assert_eq!(c.pixel.pixel_delta_u, v(1310, 0, 0));
    assert_eq!(c.pixel.pixel_delta_v, v(0, 1310, 0));
    assert_eq!(c.ray(f(ONE / 2), f(ONE / 2)), Ray::new(Vec3::zeros(), v(0, 0, -ONE)));
    assert_eq!(c.ray(f(0), f(0)), Ray::new(Vec3::zeros(), v(-2 * ONE, -ONE, -ONE)));
}

#[test]
fn camera_from_lookat_away_from_the_origin() {
    let c = Camera::from_lookat(v(ONE, ONE, ONE), v(ONE, ONE, 0), v(0, ONE, 0), f(ONE / 2), 100, 100);
    assert_eq!(c.origin, v(ONE, ONE, ONE));
    assert_eq!(c.u, v(ONE, 0, 0));
    assert_eq!(c.v, v(0, ONE, 0));
    assert_eq!(c.w, v(ONE / 2, ONE / 2, 0));
    assert_eq!(c.ray(f(ONE / 2), f(ONE / 2)), Ray::new(v(ONE, ONE, ONE), v(0, 0, -ONE)));
    assert_eq!(c.ray(f(ONE), f(0)), Ray::new(v(ONE, ONE, ONE), v(ONE / 2, -ONE / 2, -ONE)));
}

#[test]
fn camera_from_field_of_view() {
    let c = Camera::from_fov(&wide(), f(0));
    assert_eq!(c.origin, Vec3::zeros());
    assert_eq!(c.u, v(4 * ONE, 0, 0));
    assert_eq!(c.v, v(0, -2 * ONE, 0));
    assert_eq!(c.w, v(-2 * ONE, ONE, -ONE));
    assert_eq!(c.width, 16);
    assert_eq!(c.height, 8);
    assert_eq!(c.pixel.pixel00_loc, v(-122880, 57344, -ONE));
    assert_eq!(c.pixel.pixel_delta_u, v(16384, 0, 0));
    assert_eq!(c.pixel.pixel_delta_v, v(0, -16384, 0));
    assert_eq!(c.defocus, DefocusParams::new());
    assert_eq!(
        PixelParams::from_viewport(c.w, c.u, c.v, 16, 8),
        c.pixel
    );
}

#[test]
fn ray_through_a_pixel_centre() {
    let c = Camera::from_fov(&wide(), f(0));
    let centre = PixelSample::center();
    assert_eq!(centre, sample(0, 0, 0, 0));
    assert_eq!(c.get_ray_with(8, 4, &centre), Ray::new(Vec3::zeros(), v(8192, -8192, -ONE)));
    assert_eq!(c.get_ray_with(0, 0, &centre), Ray::new(Vec3::zeros(), v(-122880, 57344, -ONE)));
    assert_eq!(c.get_ray_with(15, 7, &centre), Ray::new(Vec3::zeros(), v(122880, -57344, -ONE)));
    assert_eq!(c.pixel.sample_point(8, 4, f(0), f(0)), v(8192, -8192, -ONE));
}

#[test]
fn jitter_moves_the_ray_inside_the_pixel() {
    let c = Camera::from_fov(&wide(), f(0));
    assert_eq!(
        c.get_ray_with(3, 2, &sample(ONE / 4, -ONE / 2, 0, 0)),
        Ray::new(Vec3::zeros(), v(-69632, 32768, -ONE))
    );
}

#[test]
fn without_a_defocus_disk_the_lens_point_does_not_matter() {
    let c = Camera::from_fov(&wide(), f(0));
    assert_eq!(
        c.get_ray_with(3, 2, &sample(0, 0, ONE / 2, -ONE / 2)),
        c.get_ray_with(3, 2, &PixelSample::center())
    );
    let back = Camera::from_fov(&wide(), f(-6554));
    assert_eq!(
        back.get_ray_with(3, 2, &sample(0, 0, ONE / 2, -ONE / 2)).origin,
        Vec3::zeros()
    );
}

#[test]
fn defocus_disk_moves_the_origin_of_the_ray() {
    let mut p = wide();
    p.focus_distance = f(2 * ONE);
    let c = Camera::from_fov(&p, f(6554));
    assert_eq!(c.u, v(8 * ONE, 0, 0));
    assert_eq!(c.v, v(0, -4 * ONE, 0));
    assert_eq!(c.w, v(-4 * ONE, 2 * ONE, -2 * ONE));
    assert_eq!(c.defocus.defocus_tan, f(6554));
    assert_eq!(c.defocus.defocus_disk_u, v(13108, 0, 0));
    assert_eq!(c.defocus.defocus_disk_v, v(0, 13108, 0));
    assert_eq!(
        c.get_ray_with(8, 4, &sample(0, 0, ONE / 2, -ONE / 2)),
        Ray::new(v(6554, -6554, 0), v(9830, -9830, -2 * ONE))
    );
    assert_eq!(c.defocus.ray_origin(Vec3::zeros(), f(ONE / 2), f(-ONE / 2)), v(6554, -6554, 0));
    assert_eq!(c.get_ray_with(8, 4, &PixelSample::center()).origin, Vec3::zeros());
}

#[test]
fn drawn_pixel_sample_is_within_the_pixel_and_the_disk() {
    for _ in 0..500 {
        let s = PixelSample::random();
        assert!(-ONE / 2 <= s.dx.raw && s.dx.raw < ONE / 2);
        assert!(-ONE / 2 <= s.dy.raw && s.dy.raw < ONE / 2);
        assert!(s.lens_x.mul(s.lens_x).add(s.lens_y.mul(s.lens_y)).raw < ONE);
    }
}

#[test]
fn random_ray_passes_through_its_pixel() {
    let c = Camera::from_fov(&wide(), f(0));
    let centre = c.get_ray_with(5, 6, &PixelSample::center());
    for _ in 0..200 {
        let r = c.get_ray(5, 6);
        assert_eq!(r.origin, Vec3::zeros());
        assert!((r.direction.x.raw - centre.direction.x.raw).abs() <= 8192);
        assert!((r.direction.y.raw - centre.direction.y.raw).abs() <= 8192);
        assert_eq!(r.direction.z.raw, -ONE);
    }
}

#[test]
fn offset_and_spread_of_a_draw() {
    assert_eq!(PixelSample::offset(f(0)), f(-ONE / 2));
    assert_eq!(PixelSample::offset(f(ONE / 2)), f(0));
    assert_eq!(PixelSample::offset(f(ONE - 1)), f(ONE / 2 - 1));
    assert_eq!(PixelSample::spread(f(0)), f(-ONE));
    assert_eq!(PixelSample::spread(f(ONE / 2)), f(0));
    assert_eq!(PixelSample::spread(f(ONE / 4)), f(-ONE / 2));
    assert_eq!(PixelSample::spread(f(ONE - 1)), f(ONE - 2));
}

#[test]
fn pair_of_draws_is_accepted_inside_the_unit_disk() {
    assert!(PixelSample::accepts(f(ONE / 2), f(ONE / 2)));
    assert!(PixelSample::accepts(f(ONE / 4), f(3 * ONE / 4)));
    assert!(PixelSample::accepts(f(1), f(ONE / 2)));
    assert!(!PixelSample::accepts(f(0), f(ONE / 2)));
    assert!(!PixelSample::accepts(f(0), f(0)));
    assert!(!PixelSample::accepts(f(ONE - 1), f(ONE - 1)));
    assert!(!PixelSample::accepts(f(ONE / 8), f(ONE / 8)));
}

#[test]
fn sample_from_draws_takes_the_first_pair_inside_the_disk() {
    let pairs = vec![
        (f(0), f(0)),
        (f(ONE - 1), f(ONE - 1)),
        (f(ONE / 4), f(3 * ONE / 4)),
        (f(ONE / 2), f(ONE / 2)),
    ];
    assert_eq!(
        PixelSample::from_draws(f(ONE / 4), f(ONE - 1), &pairs),
        sample(-ONE / 4, ONE / 2 - 1, -ONE / 2, ONE / 2)
    );
    assert_eq!(
        PixelSample::from_draws(f(0), f(ONE / 2), &vec![(f(ONE / 2), f(ONE / 2)), (f(ONE / 4), f(ONE / 4))]),
        sample(-ONE / 2, 0, 0, 0)
    );
}

#[test]
fn sample_from_draws_without_a_pair_inside_the_disk_starts_at_the_centre() {
    assert_eq!(PixelSample::from_draws(f(ONE / 2), f(ONE / 2), &Vec::new()), PixelSample::center());
    let outside = vec![(f(0), f(0)), (f(ONE - 1), f(0)), (f(0), f(ONE / 2))];
    assert_eq!(PixelSample::from_draws(f(ONE / 2), f(ONE / 2), &outside), PixelSample::center());
}
