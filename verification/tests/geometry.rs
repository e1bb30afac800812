use ray_tracer::geometry::{NormalizedVec3, Vec3};

#[test]
fn vec3_add_test() {
    assert_eq!(Vec3::new(1, 2, 3) + Vec3::new(5, 7, 9), Vec3::new(6, 9, 12));
}

#[test]
fn vec3_sub_test() {
    assert_eq!(Vec3::new(1, 2, 3) - Vec3::new(5, 7, 9), Vec3::new(-4, -5, -6));
}

#[test]
fn vec3_mul_test() {
    assert_eq!(Vec3::new(1, 2, 3) * 3, Vec3::new(3, 6, 9));
}

#[test]
fn vec3_div_test() {
    assert_eq!(Vec3::new(3, 7, 11) / 3, Vec3::new(1, 2, 3));
}

#[test]
fn vec3_inner_product_test() {
    assert_eq!(Vec3::new(1, 2, 3).inner_product(Vec3::new(5, 4, 6)), 5 + 8 + 18);
}

#[test]
fn vec3_outer_product_test() {
    assert_eq!(Vec3::new(1, 2, 3).outer_product(Vec3::new(5, 4, 7)), Vec3::new(2, 8, -6));
}

#[test]
fn vec3_util_test() {
    assert_eq!(Vec3::new(1, 2, 3).x(), &1);
    assert_eq!(Vec3::new(1, 2, 3).y(), &2);
    assert_eq!(Vec3::new(1, 2, 3).z(), &3);
}

#[test]
fn vec3_neg_test() {
    assert_eq!(-Vec3::new(1, -2, 3), Vec3::new(-1, 2, -3));
}

#[test]
fn vec3_add_commutative_test() {
    let a = Vec3::new(4, -7, 23);
    let b = Vec3::new(-19, 2, 5);
    assert_eq!(a + b, b + a);
}

#[test]
fn vec3_add_associative_test() {
    let a = Vec3::new(4, -7, 23);
    let b = Vec3::new(-19, 2, 5);
    let c = Vec3::new(8, 0, -31);
    assert_eq!((a + b) + c, a + (b + c));
}

#[test]
fn vec3_cross_orthogonal_test() {
    let a = Vec3::new(3, -5, 7);
    let b = Vec3::new(2, 11, -4);
    let cross = a.outer_product(b);
    assert_eq!(a.inner_product(cross), 0);
    assert_eq!(b.inner_product(cross), 0);
}

#[test]
fn vec3_cross_anticommutative_test() {
    let a = Vec3::new(3, -5, 7);
    let b = Vec3::new(2, 11, -4);
    assert_eq!(a.outer_product(b), -b.outer_product(a));
}

#[test]
fn vec3_squared_len_test() {
    assert_eq!(Vec3::new(1, 2, 3).squared_len(), 14);
    assert_eq!(Vec3::new(0, 0, 0).squared_len(), 0);
    assert_eq!(Vec3::new(-3, 4, 0).squared_len(), 25);
}

#[test]
fn normalized_vec3_new_unit_test() {
    let n = NormalizedVec3::new(1, 0, 0).unwrap();
    assert_eq!(n.vec(), Vec3::new(1, 0, 0));
    let n = NormalizedVec3::new(0, -1, 0).unwrap();
    assert_eq!(n.vec(), Vec3::new(0, -1, 0));
    let n = NormalizedVec3::new(0, 0, 1).unwrap();
    assert_eq!(Vec3::from(n), Vec3::new(0, 0, 1));
}

#[test]
fn normalized_vec3_new_rejects_test() {
    assert!(NormalizedVec3::new(0, 0, 0).is_none());
    assert!(NormalizedVec3::new(1, 1, 0).is_none());
    assert!(NormalizedVec3::new(2, 0, 0).is_none());
    assert!(NormalizedVec3::new(-3, 4, 0).is_none());
}
