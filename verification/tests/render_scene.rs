use raytrs::camera::params::{FOVParams, PixelSample};
use raytrs::camera::Camera;
use raytrs::color::Color;
use raytrs::fixed::{Fixed, ONE_RAW};
use raytrs::material::dilectric::Dilectric;
use raytrs::material::lambertian::Lambertian;
use raytrs::material::metal::Metal;
use raytrs::material::scatter::Sample;
use raytrs::material::texture::{ColorTexture, Texture};
use raytrs::material::Material;
use raytrs::ray::Ray;
use raytrs::render::{encode, PixelDraw, RenderMode, Scene};
use raytrs::shape::sphere::Sphere;
use raytrs::shape::Shape;
use raytrs::vec3::Vec3;
use std::sync::Arc;

const ONE: i64 = ONE_RAW;

fn f(raw: i64) -> Fixed {
    Fixed::from_raw(raw)
}

fn v(x: i64, y: i64, z: i64) -> Vec3 {
    Vec3::new(f(x), f(y), f(z))
}

fn c(r: i64, g: i64, b: i64) -> Color {
    Color::new(f(r), f(g), f(b))
}

fn camera() -> Camera {
    let mut p = FOVParams::new();
    p.width = 16;
    p.height = 8;
    p.aspect_ratio = f(2 * ONE);
    p.half_height = f(ONE);
    p.focus_distance = f(ONE);
    p.center = Vec3::zeros();
    p.look_from = Vec3::zeros();
    p.look_at = v(0, 0, -ONE);
    p.v_up = v(0, ONE, 0);
    Camera::from_fov(&p, f(0))
}

fn matte(r: i64, g: i64, b: i64) -> Arc<Material> {
    Arc::new(Material::Lambertian(Lambertian::new(Texture::Color(ColorTexture::new(c(r, g, b))))))
}

fn mirror() -> Arc<Material> {
    Arc::new(Material::Metal(Metal::new(Texture::Color(ColorTexture::new(c(ONE / 2, ONE / 2, ONE))), f(0))))
}

fn one_ball() -> Scene {
    let mut s = Scene::new(camera());
    s.push(Shape::Sphere(Sphere::new(v(0, 0, -ONE), f(ONE / 2), matte(ONE / 2, ONE / 2, ONE / 2))));
    s
}

fn crowd() -> Scene {
    let mut s = Scene::new(camera());
    s.push(Shape::Sphere(Sphere::new(v(0, -100 * ONE - ONE / 2, -ONE), f(100 * ONE), matte(ONE / 2, ONE / 2, ONE / 2))));
    s.push(Shape::Sphere(Sphere::new(v(0, 0, -ONE), f(ONE / 2), matte(45875, 19661, 19661))));
    s.push(Shape::Sphere(Sphere::new(v(-ONE, 0, -ONE), f(ONE / 2), Arc::new(Material::Dilectric(Dilectric::new(f(98304)))))));
    s.push(Shape::Sphere(Sphere::new(v(ONE, 0, -ONE), f(ONE / 2), mirror())));
    s
}

#[test]
fn new_scene_holds_the_camera_and_no_shape() {
    let s = Scene::new(camera());
    assert_eq!(*s.camera(), camera());
    assert_eq!(s.world.objects.len(), 0);
    assert_eq!(s.width(), 16);
    assert_eq!(s.height(), 8);
    assert_eq!(s.aspect(), f(2 * ONE));
    assert_eq!(one_ball().world.objects.len(), 1);
    assert_eq!(*one_ball().camera(), camera());
}

#[test]
fn background_fades_from_white_below_to_blue_above() {
    let s = Scene::new(camera());
    assert_eq!(s.background(v(0, ONE, 0)), c(32768, 45875, ONE));
    assert_eq!(s.background(v(0, -ONE, 0)), c(ONE, ONE, ONE));
    assert_eq!(s.background(v(ONE, 0, 0)), c(49152, 55706, ONE));
    assert_eq!(s.background(v(-122880, 57344, -ONE)), c(42914, 51963, ONE));
    assert_eq!(s.background(v(5 * ONE, 0, 0)), s.background(v(ONE, 0, 0)));
}

#[test]
fn encode_takes_the_root_and_scales_to_bytes() {
    assert_eq!(encode(c(ONE / 2, 45875, ONE)), [181, 214, 255]);
    assert_eq!(encode(c(0, -ONE, 4 * ONE)), [0, 0, 255]);
    assert_eq!(encode(c(ONE / 4, 1, ONE - 1)), [128, 1, 255]);
}

#[test]
fn trace_without_bounces_is_black_whatever_the_scene_holds() {
    let rays = [
        Ray::new(Vec3::zeros(), v(0, 0, -ONE)),
        Ray::new(Vec3::zeros(), v(0, ONE, 0)),
        Ray::new(v(ONE, 2 * ONE, 3 * ONE), v(-ONE, 5, 77)),
    ];
    for scene in [Scene::new(camera()), one_ball(), crowd()] {
        for ray in rays {
            assert_eq!(scene.trace(ray, 0), Color::black());
            assert_eq!(scene.trace_with(ray, 0, &Vec::new(), 0), Color::black());
        }
    }
}

#[test]
fn trace_of_a_ray_that_hits_nothing_is_the_background() {
    let scene = one_ball();
    let ray = Ray::new(Vec3::zeros(), v(-122880, 57344, -ONE));
    assert_eq!(scene.trace(ray, 1), c(42914, 51963, ONE));
    assert_eq!(scene.trace(ray, 10), c(42914, 51963, ONE));
    let samples = vec![Sample::new(Vec3::zeros(), f(0)); 3];
    assert_eq!(scene.trace_with(ray, 3, &samples, 0), c(42914, 51963, ONE));
}

#[test]
fn trace_multiplies_the_attenuation_with_the_light_of_the_scattered_ray() {
    let scene = one_ball();
    let ray = Ray::new(Vec3::zeros(), v(0, 0, -ONE));
    let samples = vec![Sample::new(v(0, ONE, 0), f(0)), Sample::new(Vec3::zeros(), f(0))];
    let up_and_back = scene.background(v(0, ONE, ONE));
    assert_eq!(up_and_back, c(37567, 48755, ONE));
    assert_eq!(scene.trace_with(ray, 2, &samples, 0), c(18783, 24377, ONE / 2));
    assert_eq!(scene.trace_with(ray, 1, &samples, 0), Color::black());
    assert_eq!(scene.trace_with(ray, 1, &samples, 1), Color::black());
}

#[test]
fn trace_takes_its_samples_from_the_start_index() {
    let scene = one_ball();
    let ray = Ray::new(Vec3::zeros(), v(0, 0, -ONE));
    let samples = vec![
        Sample::new(v(ONE, 0, 0), f(0)),
        Sample::new(v(0, ONE, 0), f(0)),
        Sample::new(Vec3::zeros(), f(0)),
    ];
    assert_eq!(scene.trace_with(ray, 2, &samples, 1), c(18783, 24377, ONE / 2));
    let other = scene.trace_with(ray, 2, &samples, 0);
    assert_eq!(other, scene.background(v(ONE, 0, ONE)).scale(f(ONE / 2)));
}

#[test]
fn trace_of_an_absorbed_ray_is_black() {
    let mut scene = Scene::new(camera());
    scene.push(Shape::Sphere(Sphere::new(v(0, 0, -ONE), f(ONE / 2), mirror())));
    let grazing = Ray::new(v(0, ONE / 2, 0), v(0, 0, -ONE));
    let samples = vec![Sample::new(Vec3::zeros(), f(0)); 4];
    assert_eq!(scene.trace_with(grazing, 4, &samples, 0), Color::black());
    for _ in 0..20 {
        assert_eq!(scene.trace(grazing, 4), Color::black());
    }
    let head_on = Ray::new(Vec3::zeros(), v(0, 0, -ONE));
    assert_eq!(
        scene.trace_with(head_on, 4, &samples, 0),
        scene.background(v(0, 0, ONE)).mul(c(ONE / 2, ONE / 2, ONE))
    );
}

#[test]
fn pixel_with_draws_is_the_encoded_mean() {
    let scene = one_ball();
    let corner = PixelDraw { lens: PixelSample::center(), scatters: vec![Sample::new(Vec3::zeros(), f(0)); 2] };
    assert_eq!(scene.pixel_with(0, 0, 2, &vec![corner]), [207, 227, 255]);
    let a = PixelDraw {
        lens: PixelSample::center(),
        scatters: vec![Sample::new(v(0, ONE, 0), f(0)), Sample::new(Vec3::zeros(), f(0))],
    };
    let b = PixelDraw {
        lens: PixelSample::center(),
        scatters: vec![Sample::new(v(ONE, 0, 0), f(0)), Sample::new(Vec3::zeros(), f(0))],
    };
    let ray = scene.camera.get_ray_with(8, 4, &PixelSample::center());
    let la = scene.trace_with(ray, 2, &a.scatters, 0);
    let lb = scene.trace_with(ray, 2, &b.scatters, 0);
    let mean = la.add(lb).div_scalar(f(2 * ONE));
    assert_eq!(scene.pixel_with(8, 4, 2, &vec![a, b]), encode(mean));
    assert_eq!(scene.pixel_with(8, 4, 2, &Vec::new()), [0, 0, 0]);
}

#[test]
fn render_without_bounces_is_all_black() {
    for scene in [Scene::new(camera()), one_ball(), crowd()] {
        for mode in [RenderMode::BASIC, RenderMode::AA] {
            let img = scene.render(mode, 3, 0);
            assert_eq!(img.width(), 16);
            assert_eq!(img.height(), 8);
            assert_eq!(img.to_bytes(), vec![0u8; 16 * 8 * 3]);
        }
    }
}

#[test]
fn single_sphere_shows_as_a_disk_before_the_sky() {
    let scene = one_ball();
    let img = scene.render(RenderMode::BASIC, 1, 8);
    assert_eq!(img.width(), 16);
    assert_eq!(img.height(), 8);
    assert_eq!(img.pixel(0, 0), [207, 227, 255]);
    assert_eq!(img.pixel(15, 0), [207, 227, 255]);
    assert_eq!(img.pixel(0, 7), [235, 243, 255]);
    assert_eq!(img.pixel(15, 7), [235, 243, 255]);
    for (x, y) in [(7, 3), (8, 3), (7, 4), (8, 4)] {
        let ray = scene.camera.get_ray_with(x, y, &PixelSample::center());
        let sky = encode(scene.background(ray.direction));
        let got = img.pixel(x, y);
        assert_ne!(got, sky);
        assert!(got[0] <= 181 && got[1] <= 181 && got[2] <= 181);
    }
    for y in 0..8 {
        for x in 0..16 {
            let ray = scene.camera.get_ray_with(x, y, &PixelSample::center());
            if scene.world.hit(&ray, raytrs::interval::Interval::new()).is_none() {
                assert_eq!(img.pixel(x, y), encode(scene.background(ray.direction)));
            }
        }
    }
}

#[test]
fn basic_render_does_not_depend_on_the_sample_count() {
    let scene = Scene::new(camera());
    assert_eq!(
        scene.render(RenderMode::BASIC, 0, 3).to_bytes(),
        scene.render_basic(3).to_bytes()
    );
    assert_eq!(
        scene.render(RenderMode::BASIC, 7, 3).to_bytes(),
        scene.render_basic(3).to_bytes()
    );
}

#[test]
fn anti_aliased_render_of_the_sky_stays_close_to_the_basic_one() {
    let scene = Scene::new(camera());
    let basic = scene.render_basic(4);
    let aa = scene.render_aa(8, 4);
    assert_eq!(aa.width(), 16);
    assert_eq!(aa.height(), 8);
    for y in 0..8 {
        for x in 0..16 {
            let p = basic.pixel(x, y);
            let q = aa.pixel(x, y);
            for k in 0..3 {
                assert!((p[k] as i32 - q[k] as i32).abs() <= 8);
            }
        }
    }
}

#[test]
fn anti_aliased_render_without_samples_is_black() {
    let scene = one_ball();
    assert_eq!(scene.render_aa(0, 5).to_bytes(), vec![0u8; 16 * 8 * 3]);
    assert_eq!(scene.pixel(3, 3, RenderMode::AA, 0, 5), [0, 0, 0]);
}

#[test]
fn render_of_a_scene_of_every_material_fills_the_raster() {
    let scene = crowd();
    let img = scene.render(RenderMode::AA, 4, 6);
    assert_eq!(img.to_bytes().len(), 16 * 8 * 3);
    assert_eq!(img.width(), 16);
    assert_eq!(img.height(), 8);
    let px = scene.pixel(8, 4, RenderMode::BASIC, 1, 6);
    let sky = encode(scene.background(scene.camera.get_ray_with(8, 4, &PixelSample::center()).direction));
    assert_ne!(px, sky);
}
