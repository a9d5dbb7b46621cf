use pathtrace::fx::Fx;
use pathtrace::sampler::Sampler;
use pathtrace::vec3::Vec3;

fn v3i(x: i64, y: i64, z: i64) -> Vec3 {
    Vec3::new(Fx::from_int(x), Fx::from_int(y), Fx::from_int(z))
}

#[test]
fn test_vector3_add() {
    assert_eq!(v3i(5, 5, 5).add(v3i(5, 5, 5)), v3i(10, 10, 10));
}

#[test]
fn test_vector3_sub() {
    assert_eq!(v3i(5, 5, 5).sub(v3i(5, 5, 5)), v3i(0, 0, 0));
}

#[test]
fn test_vector3_mul() {
    assert_eq!(v3i(5, 5, 5).mul(v3i(5, 5, 5)), v3i(25, 25, 25));
}

#[test]
fn test_vector3_mul_scalar() {
    assert_eq!(v3i(5, 5, 5).scale(Fx::from_int(10)), v3i(50, 50, 50));
}

#[test]
fn test_vector3_squared() {
    let v = v3i(3, 2, 5);
    assert_eq!(v.squared(), Fx::from_int(3 * 3 + 2 * 2 + 5 * 5));
}

#[test]
fn test_vector3_length() {
    // |(3, 2, 5)| = sqrt(38) ~ 6.16441; rounded down at 1/65536 resolution.
    let v = v3i(3, 2, 5);
    assert_eq!(v.length().raw, 403991);
}

#[test]
fn test_vector3_normalize() {
    let v = v3i(3, 2, 5);
    assert_eq!(v.length().raw, 403991);
    let v_normalized = Vec3::normalize(v);
    assert_eq!(
        (v_normalized.x.raw, v_normalized.y.raw, v_normalized.z.raw),
        (31894, 21262, 53156)
    );
    // Unit length up to the scalar's resolution.
    let len = v_normalized.length().raw;
    assert!((len - 65536).abs() <= 4, "normalized length raw {}", len);
}

#[test]
fn test_vector3_cross() {
    let a = v3i(2, 3, 4);
    let b = v3i(5, 6, 7);
    let cross = Vec3::cross(a, b);
    assert_eq!(cross, v3i(-3, 6, -3));
}

#[test]
fn test_vector3_cross_anticommutes() {
    let a = v3i(2, 3, 4);
    let b = v3i(5, 6, 7);
    assert_eq!(Vec3::cross(a, b), Vec3::cross(b, a).neg());
    // On whole-valued vectors the arithmetic is exact, so the cross
    // product is exactly orthogonal to both factors.
    assert_eq!(Vec3::dot(Vec3::cross(a, b), a).raw, 0);
    assert_eq!(Vec3::dot(Vec3::cross(a, b), b).raw, 0);
    // Anticommutativity survives saturation: the scalar's range is
    // symmetric, so a clipped component and its mirror still negate
    // each other exactly.
    let a = Vec3::from_raw(0, i64::MAX, i64::MAX);
    let b = Vec3::from_raw(0, 2, -2);
    assert_eq!(Vec3::cross(a, b), Vec3::cross(b, a).neg());
}

#[test]
fn test_fx_symmetric_range() {
    // The scalar's range is symmetric: the one unpaired i64 value is
    // never produced, so every value's negation is exact.
    assert_eq!(Fx::from_raw(i64::MIN).raw, -i64::MAX);
    assert_eq!(Fx::from_raw(-i64::MAX).raw, -i64::MAX);
    assert_eq!(Fx::from_raw(i64::MAX).neg().neg().raw, i64::MAX);
    let low = Fx::from_raw(-i64::MAX);
    assert_eq!(low.neg().raw, i64::MAX);
    // Saturating arithmetic stops at the symmetric bounds.
    assert_eq!(Fx::from_raw(-i64::MAX).add(Fx::from_int(-1)).raw, -i64::MAX);
    assert_eq!(Fx::from_raw(i64::MAX).add(Fx::from_int(1)).raw, i64::MAX);
}

#[test]
fn test_vector3_dot() {
    assert_eq!(Vec3::dot(v3i(1, 2, 3), v3i(4, -5, 6)), Fx::from_int(4 - 10 + 18));
}

#[test]
fn test_vector3_reflect() {
    // Normal incidence onto the +z facing plane: straight back.
    let r = Vec3::reflect(v3i(0, 0, -1), v3i(0, 0, 1));
    assert_eq!(r, v3i(0, 0, 1));
    // 45 degrees: (1, -1, 0) reflects to (1, 1, 0) about the +y normal.
    let r = Vec3::reflect(v3i(1, -1, 0), v3i(0, 1, 0));
    assert_eq!(r, v3i(1, 1, 0));
}

#[test]
fn test_vector3_refract_straight_through() {
    // At normal incidence a ray passes straight through whatever the ratio.
    let r = Vec3::refract(v3i(0, 0, -1), v3i(0, 0, 1), Fx::from_raw(43690));
    assert_eq!((r.x.raw, r.y.raw), (0, 0));
    assert!((r.z.raw + 65536).abs() <= 4, "refracted z raw {}", r.z.raw);
}

#[test]
fn test_vector3_zero_up_fill() {
    assert_eq!(Vec3::zero(), v3i(0, 0, 0));
    assert_eq!(Vec3::up(), v3i(0, 1, 0));
    assert_eq!(Vec3::fill(Fx::from_int(7)), v3i(7, 7, 7));
}

#[test]
fn test_vector3_random_p_inside_unit_shere() {
    let mut s = Sampler::new(7);
    for _i in 0..10 {
        let rand_p = Vec3::rand_in_unit_sphere(&mut s);
        let sq = rand_p.squared().raw;
        assert!((655..65536).contains(&sq), "sample squared raw {}", sq);
    }
}

#[test]
fn test_vector3_rand_unit_vector_has_unit_length() {
    let mut s = Sampler::new(11);
    for _i in 0..10 {
        let u = Vec3::rand_unit_vector(&mut s);
        let len = u.length().raw;
        assert!((len - 65536).abs() <= 512, "unit vector length raw {}", len);
    }
}

#[test]
fn test_vector3_rand_in_hemispere_sides_with_normal() {
    let normal = v3i(0, 1, 0);
    let mut s = Sampler::new(13);
    for _i in 0..32 {
        let v = Vec3::rand_in_hemispere(normal, &mut s);
        assert!(Vec3::dot(v, normal).raw >= 0);
    }
}
