use pathtracer::{Fx, Vec3};

fn v(x: i64, y: i64, z: i64) -> Vec3 {
    Vec3::new(Fx::from_int(x), Fx::from_int(y), Fx::from_int(z))
}

#[test]
fn vec_test_dot() {
    let vec1 = v(0, 1, 2);
    let vec2 = v(2, 1, 0);
    assert_eq!(vec1.dot(&vec2), Fx::from_int(1));
    assert_eq!(vec2.dot(&vec1), Fx::from_int(1));
    assert_eq!(vec2.dot(&vec2), Fx::from_int(5));
}

#[test]
fn vec_test_cross() {
    let vec1 = v(0, 1, 2);
    let vec2 = v(2, 1, 0);
    assert_eq!(vec1.cross(&vec2), v(-2, 4, -2));
    assert_eq!(vec2.cross(&vec1), v(2, -4, 2));
}

#[test]
fn vec_test_sub() {
    let vec1 = v(0, 1, 2);
    let vec2 = v(2, 1, 0);
    assert_eq!(vec1.sub(vec2), v(-2, 0, 2));
    assert_eq!(vec2.sub(vec1), v(2, 0, -2));
}

#[test]
fn vec_test_add() {
    let vec1 = v(0, 1, 2);
    let vec2 = v(2, 1, 0);
    assert_eq!(vec1.add(vec2), v(2, 2, 2));
    assert_eq!(vec2.add(vec1), v(2, 2, 2));
}

#[test]
fn vec_test_mul() {
    let vec = v(0, 1, 2);
    assert_eq!(vec.mul(Fx::from_int(5)), v(0, 5, 10));
    assert_eq!(vec.mul(Fx::from_int(5)), v(0, 5, 10));
}

#[test]
fn vec_test_length() {
    // The magnitude of (0, 1, 2) and (2, 1, 0) is the square root of
    // five, which this representation rounds down to 146542 raw units.
    let vec1 = v(0, 1, 2);
    let vec2 = v(2, 1, 0);
    let root5 = Fx::from_raw(146542);
    assert_eq!(vec1.length(), root5);
    assert_eq!(vec2.length(), root5);
}

#[test]
fn vec_test_unit_vec() {
    let vec1 = v(0, 1, 2);
    let vec2 = v(2, 1, 0);
    let norm1 = Vec3::new(Fx::from_raw(0), Fx::from_raw(29308), Fx::from_raw(58617));
    let norm2 = Vec3::new(Fx::from_raw(58617), Fx::from_raw(29308), Fx::from_raw(0));
    assert_eq!(vec1.unit_vec(), norm1);
    assert_eq!(vec2.unit_vec(), norm2);
}

#[test]
fn unit_vec_of_zero_is_zero() {
    assert_eq!(v(0, 0, 0).unit_vec(), v(0, 0, 0));
}

#[test]
fn near_zero_detects_only_zero() {
    assert!(v(0, 0, 0).near_zero());
    assert!(!Vec3::new(Fx::from_raw(1), Fx::from_raw(0), Fx::from_raw(0)).near_zero());
}

#[test]
fn reflect_normal_incidence() {
    let d = v(0, 0, -1);
    let n = v(0, 0, 1);
    assert_eq!(d.reflect(&n), v(0, 0, 1));
}
