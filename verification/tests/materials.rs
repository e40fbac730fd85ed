use pathtracer::material::{reflectance, scatter_dielectric_with, scatter_lambertian_with, scatter_metal_with};
use pathtracer::{Color, Fx, Hit, Material, Ray, Sampler, Vec3};

fn v(x: i64, y: i64, z: i64) -> Vec3 {
    Vec3::new(Fx::from_int(x), Fx::from_int(y), Fx::from_int(z))
}

fn albedo() -> Color {
    Color::new(Fx::from_raw(32768), Fx::from_raw(32768), Fx::from_raw(32768))
}

fn front_hit() -> Hit {
    Hit::new(v(0, 0, -1), v(0, 0, 1), Fx::from_raw(32768), true, Material::Lambertian(albedo()))
}

#[test]
fn lambertian_never_absorbs() {
    let hit = front_hit();
    let ray = Ray::new(v(0, 0, 0), v(0, 0, -1));
    let mat = Material::Lambertian(albedo());
    let mut sp = Sampler::new(7);
    for _ in 0..64 {
        assert!(mat.scatter(&hit, &ray, &mut sp).is_some());
    }
}

#[test]
fn lambertian_cancellation_falls_back_to_normal() {
    // A drawn direction exactly opposite the normal cancels to zero;
    // the scatter direction falls back to the normal itself.
    let hit = front_hit();
    let (scattered, atten) = scatter_lambertian_with(albedo(), &hit, v(0, 0, -1));
    assert_eq!(scattered.d, v(0, 0, 1));
    assert_eq!(atten, albedo());
}

#[test]
fn metal_normal_incidence_succeeds() {
    // Fuzz zero and a head-on ray: the reflection leaves along the
    // normal and the scatter always succeeds.
    let hit = front_hit();
    let ray = Ray::new(v(0, 0, 0), v(0, 0, -1));
    let res = scatter_metal_with(albedo(), Fx::from_raw(0), &hit, &ray, v(0, 0, 0));
    let (scattered, atten) = res.expect("normal incidence must scatter");
    assert_eq!(scattered.d, v(0, 0, 1));
    assert_eq!(atten, albedo());
}

#[test]
fn metal_absorbs_when_reflection_enters_surface() {
    // With the normal facing the other way the reflected direction has
    // a non-positive dot product with it, and the metal absorbs.
    let hit = Hit::new(
        v(0, 0, -1),
        v(0, 0, -1),
        Fx::from_raw(32768),
        true,
        Material::Lambertian(albedo()),
    );
    let ray = Ray::new(v(0, 0, 0), v(0, 0, -1));
    let res = scatter_metal_with(albedo(), Fx::from_raw(0), &hit, &ray, v(0, 0, 0));
    assert!(res.is_none());
}

#[test]
fn metal_scatter_through_sampler_succeeds_head_on() {
    let hit = front_hit();
    let ray = Ray::new(v(0, 0, 0), v(0, 0, -1));
    let mat = Material::Metal(albedo(), Fx::from_raw(0));
    let mut sp = Sampler::new(3);
    let (scattered, _) = mat.scatter(&hit, &ray, &mut sp).expect("must scatter");
    assert_eq!(scattered.d, v(0, 0, 1));
}

#[test]
fn dielectric_normal_incidence_refracts_straight_through() {
    // At normal incidence the sine is zero, so total internal
    // reflection cannot trigger for any index; with a draw of one the
    // Fresnel test also fails, and the ray passes straight through
    // with white attenuation.
    let hit = front_hit();
    let ray = Ray::new(v(0, 0, 0), v(0, 0, -1));
    let (scattered, atten) = scatter_dielectric_with(Fx::from_raw(98304), &hit, &ray, Fx::one());
    assert_eq!(scattered.d, v(0, 0, -1));
    assert_eq!(atten, Color::white());
}

#[test]
fn dielectric_reflects_when_draw_is_low() {
    // A draw below the Fresnel reflectance takes the reflection branch.
    let hit = Hit::new(
        v(0, 0, -1),
        v(0, 0, 1),
        Fx::from_raw(32768),
        true,
        Material::Dielectric(Fx::from_raw(98304)),
    );
    let ray = Ray::new(v(0, 0, 0), v(0, 0, -1));
    let (scattered, _) = scatter_dielectric_with(
        Fx::from_raw(98304),
        &hit,
        &ray,
        Fx::from_raw(0),
    );
    // At normal incidence the reflectance is r0 = 2621 raw > 0, so a
    // zero draw reflects: the direction turns around.
    assert_eq!(scattered.d, v(0, 0, 1));
}

#[test]
fn reflectance_exact_values() {
    // For the inverted index ratio of glass, 1/1.5 = 43690 raw, the
    // base reflectance at normal incidence is 2621 raw (about 0.04),
    // and a grazing ray reflects fully.
    let ratio = Fx::from_raw(43690);
    assert_eq!(reflectance(Fx::one(), ratio), Fx::from_raw(2621));
    assert_eq!(reflectance(Fx::from_raw(0), ratio), Fx::one());
}
