use lmath::vec::{
    MutableNumericVector, MutableNumericVector3, NegVector, NumericVector, NumericVector3, Vector,
};
use lmath::vec2::{bvec2, ivec2, uvec2};
use lmath::vec3::{bvec3, ivec3, uvec3};
use lmath::vec4::{bvec4, ivec4, uvec4};

#[test]
fn from_value_gives_the_value_at_every_position() {
    let values = [i32::MIN, -1, 0, 1, 42, i32::MAX];
    for &v in values.iter() {
        let a = ivec2::from_value(v);
        let b = ivec3::from_value(v);
        let c = ivec4::from_value(v);
        for i in 0..2 {
            assert_eq!(a.index(i), v);
        }
        for i in 0..3 {
            assert_eq!(b.index(i), v);
        }
        for i in 0..4 {
            assert_eq!(c.index(i), v);
        }
    }
    for &v in [0u32, 7, u32::MAX].iter() {
        assert_eq!(uvec2::from_value(v).to_vec(), vec![v; 2]);
        assert_eq!(uvec3::from_value(v).to_vec(), vec![v; 3]);
        assert_eq!(uvec4::from_value(v).to_vec(), vec![v; 4]);
    }
    for &v in [true, false].iter() {
        assert_eq!(bvec2::from_value(v).to_vec(), vec![v; 2]);
        assert_eq!(bvec3::from_value(v).to_vec(), vec![v; 3]);
        assert_eq!(bvec4::from_value(v).to_vec(), vec![v; 4]);
    }
}

#[test]
fn zero_is_zero_and_identity_is_not_in_every_shape() {
    assert!(ivec2::zero().is_zero() && ivec3::zero().is_zero() && ivec4::zero().is_zero());
    assert!(uvec2::zero().is_zero() && uvec3::zero().is_zero() && uvec4::zero().is_zero());
    assert!(!ivec2::identity().is_zero());
    assert!(!ivec3::identity().is_zero());
    assert!(!ivec4::identity().is_zero());
    assert!(!uvec2::identity().is_zero());
    assert!(!uvec3::identity().is_zero());
    assert!(!uvec4::identity().is_zero());
}

#[test]
fn addition_and_dot_commute_on_wrapping_values() {
    let a = uvec4::new(u32::MAX, 65536, 3, 0);
    let b = uvec4::new(2, 65536, u32::MAX, 9);
    assert_eq!(a.add_v(&b), b.add_v(&a));
    assert_eq!(a.add_v(&b), uvec4::new(1, 131072, 2, 9));
    assert_eq!(a.dot(&b), b.dot(&a));
    assert_eq!(a.dot(&b), 4294967291);

    let c = ivec3::new(i32::MIN, i32::MAX, -1);
    let d = ivec3::new(i32::MIN, 2, i32::MAX);
    assert_eq!(c.add_v(&d), d.add_v(&c));
    assert_eq!(c.add_v(&d), ivec3::new(0, i32::MIN + 1, i32::MAX - 1));
    assert_eq!(c.dot(&d), d.dot(&c));
    assert_eq!(c.dot(&d), i32::MAX);
}

#[test]
fn cross_is_the_negative_of_the_swapped_cross() {
    let pairs = [
        (ivec3::new(1, 0, 0), ivec3::new(0, 1, 0)),
        (ivec3::new(1, 2, 3), ivec3::new(4, 5, 6)),
        (ivec3::new(-7, 11, 13), ivec3::new(17, -19, 23)),
        (ivec3::new(i32::MIN, i32::MAX, 1), ivec3::new(3, i32::MIN, i32::MAX)),
        (ivec3::new(0, 0, 0), ivec3::new(9, 9, 9)),
    ];
    for (a, b) in pairs.iter() {
        assert_eq!(a.cross(b), b.cross(a).neg());
    }
    assert_eq!(ivec3::new(-7, 11, 13).cross(&ivec3::new(17, -19, 23)), ivec3::new(500, 382, -54));
}

#[test]
fn in_place_forms_leave_what_value_forms_return() {
    let a = uvec3::new(u32::MAX, 10, 65537);
    let b = uvec3::new(3, 4, 65537);

    let mut m = a;
    m.add_self_v(&b);
    assert_eq!(m, a.add_v(&b));
    assert_eq!(m, uvec3::new(2, 14, 131074));

    let mut m = a;
    m.sub_self_v(&b);
    assert_eq!(m, a.sub_v(&b));
    assert_eq!(m, uvec3::new(u32::MAX - 3, 6, 0));

    let mut m = a;
    m.mul_self_v(&b);
    assert_eq!(m, a.mul_v(&b));
    assert_eq!(m, uvec3::new(u32::MAX - 2, 40, 131073));

    let mut m = a;
    m.div_self_v(&b);
    assert_eq!(m, a.div_v(&b));
    assert_eq!(m, uvec3::new(1431655765, 2, 1));

    let mut m = a;
    m.mul_self_t(2);
    assert_eq!(m, a.mul_t(2));
    assert_eq!(m, uvec3::new(u32::MAX - 1, 20, 131074));

    let mut m = a;
    m.div_self_t(10);
    assert_eq!(m, a.div_t(10));
    assert_eq!(m, uvec3::new(429496729, 1, 6553));

    let mut m = a;
    m.cross_self(&b);
    assert_eq!(m, a.cross(&b));
}

#[test]
fn positions_past_the_last_component_are_refused() {
    let v = ivec4::new(11, 22, 33, 44);
    assert_eq!(v.get(0), Some(11));
    assert_eq!(v.get(1), Some(22));
    assert_eq!(v.get(2), Some(33));
    assert_eq!(v.get(3), Some(44));
    assert_eq!(v.get(4), None);
    assert_eq!(v.get(5), None);
    assert_eq!(v.get(usize::MAX), None);
    assert_eq!(ivec3::new(1, 2, 3).get(2), Some(3));
    assert_eq!(ivec3::new(1, 2, 3).get(3), None);
    assert_eq!(bvec2::new(true, false).get(1), Some(false));
    assert_eq!(bvec2::new(true, false).get(2), None);
}

#[test]
fn every_position_of_a_four_vector_can_be_read() {
    let v = uvec4::new(11, 22, 33, 44);
    let read: Vec<u32> = (0..uvec4::dim()).map(|i| v.index(i)).collect();
    assert_eq!(read, vec![11, 22, 33, 44]);
    assert_eq!(uvec4::dim(), 4);
}
