use pathtracer::{Color, Fx, Hittables, Material, Ray, Sphere, Vec3};

fn v(x: i64, y: i64, z: i64) -> Vec3 {
    Vec3::new(Fx::from_int(x), Fx::from_int(y), Fx::from_int(z))
}

fn half() -> Fx {
    Fx::from_raw(32768)
}

fn gray() -> Material {
    Material::Lambertian(Color::new(half(), half(), half()))
}

fn eps() -> Fx {
    Fx::from_raw(1)
}

fn far() -> Fx {
    Fx::from_raw(i64::MAX)
}

#[test]
fn sphere_hit_head_on() {
    // Ray from the origin toward -z against a sphere of radius one half
    // centered one unit away: the hit is at t = 0.5, point (0, 0, -0.5),
    // outward normal (0, 0, 1), struck from the front.
    let sphere = Sphere::new(v(0, 0, -1), half(), gray());
    let ray = Ray::new(v(0, 0, 0), v(0, 0, -1));
    let hit = sphere.intersect(&ray, eps(), far()).expect("must hit");
    assert_eq!(hit.t, half());
    assert_eq!(hit.point, Vec3::new(Fx::from_raw(0), Fx::from_raw(0), Fx::from_raw(-32768)));
    assert_eq!(hit.normal, v(0, 0, 1));
    assert!(hit.front_face);
}

#[test]
fn sphere_miss_negative_discriminant() {
    // A ray pointing away from the sphere entirely: discriminant below
    // zero, no hit.
    let sphere = Sphere::new(v(0, 0, -1), half(), gray());
    let ray = Ray::new(v(0, 0, 0), v(0, 1, 0));
    assert!(sphere.intersect(&ray, eps(), far()).is_none());
}

#[test]
fn origin_on_sphere_pointing_outward_misses() {
    // The ray starts exactly on the unit sphere and points outward:
    // both roots are at or behind the origin, so nothing is hit.
    let sphere = Sphere::new(v(0, 0, 0), Fx::from_int(1), gray());
    let ray = Ray::new(v(0, 0, 1), v(0, 0, 1));
    assert!(sphere.intersect(&ray, eps(), far()).is_none());
}

#[test]
fn composite_returns_closer_hit() {
    // Two spheres along the ray: whichever order they are added in, the
    // composite reports the nearer intersection at t = 0.5.
    let near = Sphere::new(v(0, 0, -1), half(), gray());
    let far_sphere = Sphere::new(v(0, 0, -2), half(), gray());
    let ray = Ray::new(v(0, 0, 0), v(0, 0, -1));

    let mut scene = Hittables::new();
    scene.add(near);
    scene.add(far_sphere);
    let hit = scene.intersect(&ray, eps(), far()).expect("must hit");
    assert_eq!(hit.t, half());

    let mut scene2 = Hittables::new();
    scene2.add(far_sphere);
    scene2.add(near);
    let hit2 = scene2.intersect(&ray, eps(), far()).expect("must hit");
    assert_eq!(hit2.t, half());
}

#[test]
fn hit_from_inside_flips_normal() {
    // A ray starting inside the sphere strikes the far wall from the
    // back: the reported normal faces against the ray.
    let sphere = Sphere::new(v(0, 0, 0), Fx::from_int(1), gray());
    let ray = Ray::new(v(0, 0, 0), v(0, 0, -1));
    let hit = sphere.intersect(&ray, eps(), far()).expect("must hit");
    assert!(!hit.front_face);
    assert_eq!(hit.normal, v(0, 0, 1));
    assert_eq!(hit.t, Fx::from_int(1));
}

#[test]
fn empty_scene_misses() {
    let scene = Hittables::new();
    let ray = Ray::new(v(0, 0, 0), v(0, 0, -1));
    assert!(scene.intersect(&ray, eps(), far()).is_none());
}

#[test]
fn ray_at_evaluates() {
    let ray = Ray::new(v(1, 0, 0), v(0, 2, 0));
    assert_eq!(ray.at(half()), v(1, 1, 0));
}
