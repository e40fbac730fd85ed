use pathtracer::renderer::ray_color;
use pathtracer::{Color, Fx, Hittables, Material, Ray, Renderer, Sampler, SimpleCamera, Sphere, Vec3};

fn v(x: i64, y: i64, z: i64) -> Vec3 {
    Vec3::new(Fx::from_int(x), Fx::from_int(y), Fx::from_int(z))
}

fn small_scene() -> Hittables {
    let mut scene = Hittables::new();
    let albedo = Color::new(Fx::from_raw(32768), Fx::from_raw(45875), Fx::from_raw(16384));
    scene.add(Sphere::new(v(0, 0, -1), Fx::from_raw(32768), Material::Lambertian(albedo)));
    scene.add(Sphere::new(
        v(0, -100, -1),
        Fx::from_int(99),
        Material::Metal(albedo, Fx::from_raw(6553)),
    ));
    scene.add(Sphere::new(v(1, 0, -1), Fx::from_raw(32768), Material::Dielectric(Fx::from_raw(98304))));
    scene
}

fn small_camera() -> SimpleCamera {
    SimpleCamera::new(
        v(0, 0, 0),
        v(0, 0, -1),
        v(0, 1, 0),
        Fx::one(),
        Fx::from_int(16).div(Fx::from_int(9)),
        Fx::from_raw(0),
        Fx::one(),
    )
}

#[test]
fn ray_color_depth_zero_is_black() {
    let scene = small_scene();
    let ray = Ray::new(v(0, 0, 0), v(0, 0, -1));
    let mut sp = Sampler::new(5);
    assert_eq!(ray_color(&ray, &scene, 0, &mut sp), Color::black());
}

#[test]
fn empty_scene_straight_down_is_white() {
    // The gradient parameter is zero for a unit direction with y = -1,
    // which blends to pure white.
    let scene = Hittables::new();
    let ray = Ray::new(v(0, 0, 0), v(0, -1, 0));
    let mut sp = Sampler::new(5);
    assert_eq!(ray_color(&ray, &scene, 50, &mut sp), Color::white());
}

#[test]
fn empty_scene_straight_up_is_sky_blue() {
    let scene = Hittables::new();
    let ray = Ray::new(v(0, 0, 0), v(0, 1, 0));
    let mut sp = Sampler::new(5);
    assert_eq!(ray_color(&ray, &scene, 50, &mut sp), Color::sky_blue());
}

#[test]
fn empty_scene_sideways_is_half_blend() {
    // A horizontal unit direction has y = 0, so the gradient parameter
    // is one half and each channel is the midpoint of white and blue.
    let scene = Hittables::new();
    let ray = Ray::new(v(0, 0, 0), v(1, 0, 0));
    let mut sp = Sampler::new(5);
    let c = ray_color(&ray, &scene, 50, &mut sp);
    assert_eq!(
        c,
        Color::new(Fx::from_raw(49152), Fx::from_raw(55705), Fx::from_raw(65536)),
    );
}

#[test]
fn render_image_same_seed_is_byte_identical() {
    let r = Renderer::new(small_scene(), small_camera()).width(4).num_samples(2);
    let a = r.render_image(42);
    let b = r.render_image(42);
    assert_eq!(a, b);
    // Four columns, two rows, six bytes per pixel.
    assert_eq!(a.len(), 48);
}

#[test]
fn render_row_same_seed_is_byte_identical() {
    let r = Renderer::new(small_scene(), small_camera()).width(4).num_samples(2);
    let a = r.render_row(1, 2, 9);
    let b = r.render_row(1, 2, 9);
    assert_eq!(a, b);
    assert_eq!(a.len(), 24);
}

#[test]
fn image_height_follows_aspect_ratio() {
    let r = Renderer::new(small_scene(), small_camera()).width(800);
    assert_eq!(r.image_height(), 450);
    let r2 = Renderer::new(small_scene(), small_camera()).width(4);
    assert_eq!(r2.image_height(), 2);
}

#[test]
fn write_16_encodes_gamma_and_clamp() {
    // 0.25 encodes through the square root to one half of the 16-bit
    // range; a full channel is clamped just below one; zero stays zero.
    let c = Color::new(Fx::from_raw(16384), Fx::one(), Fx::from_raw(0));
    let mut out = Vec::new();
    c.write_16(&mut out);
    let half16 = (32768u32 * 65535 / 65536) as u16;
    let full16 = (65470u32 * 65535 / 65536) as u16;
    assert_eq!(half16, 32767);
    assert_eq!(full16, 65469);
    assert_eq!(
        out,
        vec![
            (half16 >> 8) as u8,
            half16 as u8,
            (full16 >> 8) as u8,
            full16 as u8,
            0,
            0,
        ],
    );
}

#[test]
fn write_16_sampled_averages_first() {
    // Averaging 1.0 over four samples gives 0.25, which encodes like
    // the direct 0.25 channel.
    let c = Color::new(Fx::one(), Fx::one(), Fx::one());
    let mut out = Vec::new();
    c.write_16_sampled(&mut out, 4);
    assert_eq!(out[0], 0x7f);
    assert_eq!(out[1], 0xff);
}

#[test]
fn pinhole_camera_center_ray() {
    // A pinhole camera looking down -z with a square viewport two
    // units wide at focus distance one: the ray for the image-plane
    // center leaves the origin straight toward -z, whatever the
    // sampler draws, because the lens radius is zero.
    let cam = SimpleCamera::new(
        v(0, 0, 0),
        v(0, 0, -1),
        v(0, 1, 0),
        Fx::one(),
        Fx::one(),
        Fx::from_raw(0),
        Fx::one(),
    );
    let mut sp = Sampler::new(11);
    let half = Fx::from_raw(32768);
    let ray = cam.make_ray(half, half, &mut sp);
    assert_eq!(ray.o, v(0, 0, 0));
    assert_eq!(ray.d, v(0, 0, -1));
}
