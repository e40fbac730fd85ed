use rand::RngCore;
use rand::SeedableRng;

use pathtracer::{Fx, Sampler, Vec3};

#[test]
fn sampler_follows_the_seeded_generator() {
    // The sampler draws exactly the xoshiro256+ stream of its seed.
    let mut sp = Sampler::new(1);
    let mut reference = rand_xoshiro::Xoshiro256Plus::seed_from_u64(1);
    for _ in 0..32 {
        assert_eq!(sp.next_u64(), reference.next_u64());
    }
}

#[test]
fn sampler_same_seed_same_stream() {
    let mut a = Sampler::new(99);
    let mut b = Sampler::new(99);
    for _ in 0..16 {
        assert_eq!(a.next_u64(), b.next_u64());
    }
}

#[test]
fn unit_draw_is_in_range() {
    let mut sp = Sampler::new(2);
    for _ in 0..256 {
        let u = sp.next_unit();
        assert!(0 <= u.raw() && u.raw() < 65536);
    }
}

#[test]
fn symmetric_draw_is_in_range() {
    let mut sp = Sampler::new(2);
    for _ in 0..256 {
        let u = sp.next_symmetric();
        assert!(-65536 <= u.raw() && u.raw() <= 65536);
    }
}

#[test]
fn unit_sphere_draws_stay_inside() {
    let mut sp = Sampler::new(4);
    for _ in 0..64 {
        let p = Vec3::random_in_unit_sphere(&mut sp);
        assert!(p.dot(&p).raw() < 65536);
    }
}

#[test]
fn unit_disk_draws_stay_inside_the_plane() {
    let mut sp = Sampler::new(4);
    for _ in 0..64 {
        let p = Vec3::random_in_unit_disk(&mut sp);
        assert_eq!(p.z, Fx::from_raw(0));
        assert!(p.x.mul(p.x).add(p.y.mul(p.y)).raw() < 65536);
    }
}

#[test]
fn unit_vector_draws_are_roughly_unit() {
    let mut sp = Sampler::new(4);
    for _ in 0..64 {
        let p = Vec3::random_unit_vec(&mut sp);
        let len = p.length().raw();
        // Within one part in a few hundred of unit magnitude.
        assert!(65536 - 600 <= len && len <= 65536 + 600);
    }
}
