use lmath::vec::{
    BooleanVector, EquableVector, MutableNumericVector, MutableVector, NegVector, NumericVector,
    NumericVector4, OrdinalVector, Vector, Vector4,
};
use lmath::vec4::{bvec4, ivec4, uvec4, Vec4};

#[test]
fn vec4_new_sets_the_components_in_order() {
    let v = ivec4::new(1, 2, 3, 4);
    assert_eq!((v.x, v.y, v.z, v.w), (1, 2, 3, 4));
    let g: Vec4<u32> = Vector4::new(5, 6, 7, 8);
    assert_eq!(g, uvec4::new(5, 6, 7, 8));
}

#[test]
fn vec4_from_value_fills_every_component() {
    let v = ivec4::from_value(7);
    for i in 0..4 {
        assert_eq!(v.index(i), 7);
    }
    let b = bvec4::from_value(true);
    for i in 0..4 {
        assert_eq!(b.index(i), true);
    }
    let u: Vec4<u32> = Vector::from_value(9);
    assert_eq!(u, uvec4::new(9, 9, 9, 9));
}

#[test]
fn vec4_index_reads_positions_zero_to_three() {
    let v = ivec4::new(10, 20, 30, 40);
    assert_eq!(v.index(0), 10);
    assert_eq!(v.index(1), 20);
    assert_eq!(v.index(2), 30);
    assert_eq!(v.index(3), 40);
}

#[test]
fn vec4_to_vec_is_the_components_in_order() {
    assert_eq!(ivec4::new(1, 2, 3, 4).to_vec(), vec![1, 2, 3, 4]);
    assert_eq!(bvec4::new(true, false, true, false).to_vec(), vec![true, false, true, false]);
}

#[test]
fn vec4_index_mut_writes_one_component() {
    let mut v = ivec4::new(1, 2, 3, 4);
    *v.index_mut(2) = 30;
    assert_eq!(v, ivec4::new(1, 2, 30, 4));
    *v.index_mut(0) = 10;
    *v.index_mut(1) = 20;
    *v.index_mut(3) = 40;
    assert_eq!(v, ivec4::new(10, 20, 30, 40));
}

#[test]
fn vec4_swap_exchanges_two_components() {
    let mut v = ivec4::new(1, 2, 3, 4);
    v.swap(0, 3);
    assert_eq!(v, ivec4::new(4, 2, 3, 1));
    v.swap(2, 1);
    assert_eq!(v, ivec4::new(4, 3, 2, 1));
}

#[test]
fn vec4_swap_of_one_position_changes_nothing() {
    let mut v = ivec4::new(1, 2, 3, 4);
    v.swap(2, 2);
    assert_eq!(v, ivec4::new(1, 2, 3, 4));
}

#[test]
fn vec4_equality_is_structural() {
    assert!(ivec4::new(1, 2, 3, 4) == ivec4::new(1, 2, 3, 4));
    assert!(ivec4::new(1, 2, 3, 4) != ivec4::new(1, 2, 3, 5));
    assert!(ivec4::new(1, 2, 3, 4) != ivec4::new(0, 2, 3, 4));
    assert!(bvec4::new(true, false, true, false) == bvec4::new(true, false, true, false));
}

#[test]
fn vec4_zero_is_zero_and_identity_is_not() {
    assert!(ivec4::zero().is_zero());
    assert!(!ivec4::identity().is_zero());
    assert!(uvec4::zero().is_zero());
    assert!(!uvec4::identity().is_zero());
    assert!(!ivec4::new(0, 0, 0, 1).is_zero());
    assert_eq!(ivec4::identity(), ivec4::new(1, 1, 1, 1));
    assert_eq!(ivec4::zero(), ivec4::new(0, 0, 0, 0));
}

#[test]
fn vec4_unit_vectors_have_one_component_set() {
    assert_eq!(ivec4::unit_x(), ivec4::new(1, 0, 0, 0));
    assert_eq!(ivec4::unit_y(), ivec4::new(0, 1, 0, 0));
    assert_eq!(ivec4::unit_z(), ivec4::new(0, 0, 1, 0));
    assert_eq!(ivec4::unit_w(), ivec4::new(0, 0, 0, 1));
    let u: Vec4<u32> = NumericVector4::unit_w();
    assert_eq!(u, uvec4::unit_w());
    assert_eq!(uvec4::unit_x(), uvec4::new(1, 0, 0, 0));
}

#[test]
fn vec4_scalar_arithmetic() {
    let v = ivec4::new(1, -2, 3, -4);
    assert_eq!(v.mul_t(3), ivec4::new(3, -6, 9, -12));
    assert_eq!(v.div_t(2), ivec4::new(0, -1, 1, -2));
    assert_eq!(uvec4::new(8, 9, 10, 11).div_t(4), uvec4::new(2, 2, 2, 2));
}

#[test]
fn vec4_component_wise_arithmetic() {
    let a = ivec4::new(1, 2, 3, 4);
    let b = ivec4::new(10, -20, 30, -40);
    assert_eq!(a.add_v(&b), ivec4::new(11, -18, 33, -36));
    assert_eq!(a.sub_v(&b), ivec4::new(-9, 22, -27, 44));
    assert_eq!(a.mul_v(&b), ivec4::new(10, -40, 90, -160));
    assert_eq!(b.div_v(&a), ivec4::new(10, -10, 10, -10));
}

#[test]
fn vec4_arithmetic_wraps() {
    let a = ivec4::new(i32::MAX, i32::MIN, 65536, i32::MIN);
    let b = ivec4::new(1, -1, 65536, -1);
    assert_eq!(a.add_v(&b), ivec4::new(i32::MIN, i32::MAX, 131072, i32::MAX));
    assert_eq!(a.mul_v(&b), ivec4::new(i32::MAX, i32::MIN, 0, i32::MIN));
    assert_eq!(a.div_v(&b), ivec4::new(i32::MAX, i32::MIN, 1, i32::MIN));
    assert_eq!(uvec4::new(0, 1, 2, 3).sub_v(&uvec4::new(1, 1, 1, 1)), uvec4::new(u32::MAX, 0, 1, 2));
}

#[test]
fn vec4_dot_with_unit_x_is_the_first_component() {
    assert_eq!(ivec4::new(1, 2, 3, 4).dot(&ivec4::new(1, 0, 0, 0)), 1);
}

#[test]
fn vec4_dot_sums_the_products() {
    assert_eq!(ivec4::new(1, 2, 3, 4).dot(&ivec4::new(5, 6, 7, 8)), 70);
    assert_eq!(uvec4::new(1, 2, 3, 4).dot(&uvec4::new(5, 6, 7, 8)), 70);
    assert_eq!(ivec4::new(65536, 1, 0, 0).dot(&ivec4::new(65536, 1, 0, 0)), 1);
}

#[test]
fn vec4_add_and_dot_commute() {
    let a = ivec4::new(i32::MAX, -7, 3, 100000);
    let b = ivec4::new(5, i32::MIN, -9, 100000);
    assert_eq!(a.add_v(&b), b.add_v(&a));
    assert_eq!(a.dot(&b), b.dot(&a));
}

#[test]
fn vec4_neg_negates_each_component() {
    let v = ivec4::new(1, -2, 0, i32::MIN);
    assert_eq!(v.neg(), ivec4::new(-1, 2, 0, i32::MIN));
}

#[test]
fn vec4_in_place_forms_match_value_forms() {
    let a = ivec4::new(7, -8, i32::MAX, 12);
    let b = ivec4::new(2, 3, 4, -5);

    let mut m = a;
    m.neg_self();
    assert_eq!(m, a.neg());

    let mut m = a;
    m.mul_self_t(3);
    assert_eq!(m, a.mul_t(3));

    let mut m = a;
    m.div_self_t(-3);
    assert_eq!(m, a.div_t(-3));

    let mut m = a;
    m.add_self_v(&b);
    assert_eq!(m, a.add_v(&b));

    let mut m = a;
    m.sub_self_v(&b);
    assert_eq!(m, a.sub_v(&b));

    let mut m = a;
    m.mul_self_v(&b);
    assert_eq!(m, a.mul_v(&b));

    let mut m = a;
    m.div_self_v(&b);
    assert_eq!(m, a.div_v(&b));
    assert_eq!(m, ivec4::new(3, -2, 536870911, -2));
}

#[test]
fn vec4_ordinal_comparisons_are_component_wise() {
    let a = ivec4::new(1, 5, -3, 0);
    let b = ivec4::new(2, 5, -4, 0);
    assert_eq!(a.less_than(&b), bvec4::new(true, false, false, false));
    assert_eq!(a.less_than_equal(&b), bvec4::new(true, true, false, true));
    assert_eq!(a.greater_than(&b), bvec4::new(false, false, true, false));
    assert_eq!(a.greater_than_equal(&b), bvec4::new(false, true, true, true));
    let c = uvec4::new(0, u32::MAX, 3, 4);
    let d = uvec4::new(u32::MAX, 0, 3, 5);
    assert_eq!(c.less_than(&d), bvec4::new(true, false, false, true));
}

#[test]
fn vec4_equal_and_not_equal_are_component_wise() {
    let a = ivec4::new(1, 5, -3, 0);
    let b = ivec4::new(2, 5, -4, 0);
    assert_eq!(a.equal(&b), bvec4::new(false, true, false, true));
    assert_eq!(a.not_equal(&b), bvec4::new(true, false, true, false));
    let p = bvec4::new(true, true, false, false);
    let q = bvec4::new(true, false, true, false);
    assert_eq!(p.equal(&q), bvec4::new(true, false, false, true));
}

#[test]
fn vec4_any_all_not() {
    assert!(bvec4::new(false, false, true, false).any());
    assert!(!bvec4::new(false, false, false, false).any());
    assert!(bvec4::new(true, true, true, true).all());
    assert!(!bvec4::new(true, true, true, false).all());
    assert_eq!(bvec4::new(true, false, true, false).not(), bvec4::new(false, true, false, true));
}

#[test]
fn vec4_dim_and_size() {
    assert_eq!(ivec4::dim(), 4);
    assert_eq!(uvec4::dim(), 4);
    assert_eq!(bvec4::dim(), 4);
    assert_eq!(ivec4::size_of(), 16);
    assert_eq!(uvec4::size_of(), 16);
    assert_eq!(bvec4::size_of(), 4);
    assert_eq!(ivec4::size_of(), std::mem::size_of::<ivec4>());
    assert_eq!(bvec4::size_of(), std::mem::size_of::<bvec4>());
}
