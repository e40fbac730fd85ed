use pathtracer::Fx;

#[test]
fn arithmetic_on_integers_is_exact() {
    let two = Fx::from_int(2);
    let three = Fx::from_int(3);
    assert_eq!(two.mul(three), Fx::from_int(6));
    assert_eq!(three.add(two), Fx::from_int(5));
    assert_eq!(two.sub(three), Fx::from_int(-1));
    assert_eq!(three.neg(), Fx::from_int(-3));
    assert_eq!(Fx::from_int(6).div(two), Fx::from_int(3));
}

#[test]
fn division_truncates_toward_zero() {
    let third = Fx::from_int(1).div(Fx::from_int(3));
    assert_eq!(third.raw(), 21845);
    let neg_third = Fx::from_int(-1).div(Fx::from_int(3));
    assert_eq!(neg_third.raw(), -21845);
}

#[test]
fn sqrt_of_exact_squares() {
    assert_eq!(Fx::from_int(9).sqrt(), Fx::from_int(3));
    assert_eq!(Fx::from_raw(16384).sqrt(), Fx::from_raw(32768));
    assert_eq!(Fx::from_raw(0).sqrt(), Fx::from_raw(0));
}

#[test]
fn saturation_at_the_range_edges() {
    let top = Fx::from_raw(i64::MAX);
    assert_eq!(top.add(Fx::one()), top);
    assert_eq!(top.neg().sub(Fx::one()), top.neg());
    assert_eq!(top.mul(Fx::from_int(2)), top);
}

#[test]
fn min_max_abs() {
    let a = Fx::from_int(-2);
    let b = Fx::from_int(5);
    assert_eq!(a.min(b), a);
    assert_eq!(a.max(b), b);
    assert_eq!(a.abs(), Fx::from_int(2));
    assert!(a.lt(b));
    assert!(a.le(a));
}
