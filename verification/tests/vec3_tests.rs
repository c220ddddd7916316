use lmath::vec::{
    BooleanVector, EquableVector, MutableNumericVector, MutableNumericVector3, MutableVector,
    NegVector, NumericVector, NumericVector3, OrdinalVector, ToHomogeneous, Vector, Vector3,
};
use lmath::vec3::{bvec3, ivec3, uvec3, Vec3};
use lmath::vec4::{ivec4, uvec4};

#[test]
fn vec3_cross_of_two_triples() {
    assert_eq!(ivec3::new(1, 2, 3).cross(&ivec3::new(4, 5, 6)), ivec3::new(-3, 6, -3));
}

#[test]
fn vec3_cross_of_basis_vectors_is_right_handed() {
    assert_eq!(ivec3::unit_x().cross(&ivec3::unit_y()), ivec3::unit_z());
    assert_eq!(ivec3::unit_y().cross(&ivec3::unit_z()), ivec3::unit_x());
    assert_eq!(ivec3::unit_z().cross(&ivec3::unit_x()), ivec3::unit_y());
}

#[test]
fn vec3_cross_is_anticommutative() {
    let a = ivec3::new(1, 2, 3);
    let b = ivec3::new(4, 5, 6);
    assert_eq!(a.cross(&b), b.cross(&a).neg());
    let c = ivec3::new(i32::MAX, 65536, -70000);
    let d = ivec3::new(123456, i32::MIN, 99999);
    assert_eq!(c.cross(&d), d.cross(&c).neg());
}

#[test]
fn vec3_cross_self_matches_cross() {
    let a = ivec3::new(3, -3, 1);
    let b = ivec3::new(4, 9, 2);
    let mut m = a;
    m.cross_self(&b);
    assert_eq!(m, a.cross(&b));
    assert_eq!(m, ivec3::new(-15, -2, 39));
}

#[test]
fn vec3_new_from_value_and_index() {
    let v: Vec3<u32> = Vector3::new(1, 2, 3);
    assert_eq!(v, uvec3::new(1, 2, 3));
    assert_eq!((v.index(0), v.index(1), v.index(2)), (1, 2, 3));
    let f = ivec3::from_value(-4);
    for i in 0..3 {
        assert_eq!(f.index(i), -4);
    }
    let b = bvec3::from_value(false);
    for i in 0..3 {
        assert_eq!(b.index(i), false);
    }
    assert_eq!(v.to_vec(), vec![1, 2, 3]);
}

#[test]
fn vec3_index_mut_and_swap() {
    let mut v = ivec3::new(1, 2, 3);
    *v.index_mut(1) = 20;
    assert_eq!(v, ivec3::new(1, 20, 3));
    v.swap(0, 2);
    assert_eq!(v, ivec3::new(3, 20, 1));
    v.swap(1, 1);
    assert_eq!(v, ivec3::new(3, 20, 1));
}

#[test]
fn vec3_zero_identity_and_units() {
    assert!(ivec3::zero().is_zero());
    assert!(!ivec3::identity().is_zero());
    assert!(uvec3::zero().is_zero());
    assert!(!uvec3::identity().is_zero());
    assert_eq!(uvec3::identity(), uvec3::new(1, 1, 1));
    assert_eq!(ivec3::unit_x(), ivec3::new(1, 0, 0));
    assert_eq!(ivec3::unit_y(), ivec3::new(0, 1, 0));
    assert_eq!(ivec3::unit_z(), ivec3::new(0, 0, 1));
}

#[test]
fn vec3_arithmetic_and_dot() {
    let a = ivec3::new(1, 2, 3);
    let b = ivec3::new(4, -5, 6);
    assert_eq!(a.add_v(&b), ivec3::new(5, -3, 9));
    assert_eq!(a.sub_v(&b), ivec3::new(-3, 7, -3));
    assert_eq!(a.mul_v(&b), ivec3::new(4, -10, 18));
    assert_eq!(b.div_v(&a), ivec3::new(4, -2, 2));
    assert_eq!(a.mul_t(-2), ivec3::new(-2, -4, -6));
    assert_eq!(b.div_t(2), ivec3::new(2, -2, 3));
    assert_eq!(a.dot(&b), 12);
    assert_eq!(a.add_v(&b), b.add_v(&a));
    assert_eq!(a.dot(&b), b.dot(&a));
    assert_eq!(a.neg(), ivec3::new(-1, -2, -3));
}

#[test]
fn vec3_in_place_forms_match_value_forms() {
    let a = uvec3::new(7, u32::MAX, 12);
    let b = uvec3::new(2, 3, 5);

    let mut m = a;
    m.mul_self_t(3);
    assert_eq!(m, a.mul_t(3));

    let mut m = a;
    m.div_self_t(3);
    assert_eq!(m, a.div_t(3));

    let mut m = a;
    m.add_self_v(&b);
    assert_eq!(m, a.add_v(&b));
    assert_eq!(m, uvec3::new(9, 2, 17));

    let mut m = a;
    m.sub_self_v(&b);
    assert_eq!(m, a.sub_v(&b));

    let mut m = a;
    m.mul_self_v(&b);
    assert_eq!(m, a.mul_v(&b));

    let mut m = a;
    m.div_self_v(&b);
    assert_eq!(m, a.div_v(&b));

    let mut n = ivec3::new(1, -2, 3);
    n.neg_self();
    assert_eq!(n, ivec3::new(1, -2, 3).neg());
}

#[test]
fn vec3_to_homogeneous_appends_a_zero() {
    assert_eq!(ivec3::new(1, 2, 3).to_homogeneous(), ivec4::new(1, 2, 3, 0));
    assert_eq!(uvec3::new(7, 8, 9).to_homogeneous(), uvec4::new(7, 8, 9, 0));
}

#[test]
fn vec3_comparisons_and_reductions() {
    let a = ivec3::new(1, 5, -3);
    let b = ivec3::new(2, 5, -4);
    assert_eq!(a.less_than(&b), bvec3::new(true, false, false));
    assert_eq!(a.less_than_equal(&b), bvec3::new(true, true, false));
    assert_eq!(a.greater_than(&b), bvec3::new(false, false, true));
    assert_eq!(a.greater_than_equal(&b), bvec3::new(false, true, true));
    assert_eq!(a.equal(&b), bvec3::new(false, true, false));
    assert_eq!(a.not_equal(&b), bvec3::new(true, false, true));
    assert!(a.less_than(&b).any());
    assert!(!a.less_than(&b).all());
    assert_eq!(bvec3::new(true, false, true).not(), bvec3::new(false, true, false));
}

#[test]
fn vec3_dim_and_size() {
    assert_eq!(ivec3::dim(), 3);
    assert_eq!(bvec3::dim(), 3);
    assert_eq!(ivec3::size_of(), 12);
    assert_eq!(uvec3::size_of(), 12);
    assert_eq!(bvec3::size_of(), 3);
    assert_eq!(uvec3::size_of(), std::mem::size_of::<uvec3>());
}
