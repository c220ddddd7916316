//! The vector of three components.

use crate::scalar::{lemma_diff_of_wrapped, lemma_sum_of_wrapped, Number, Scalar, SignedNumber};
use crate::vec::{
    cross_seq, diff_seq, divided_seq, dot_int, eq_seq, le_seq, lt_seq, ne_seq, neg_seq, not_seq,
    prod_seq, quot_seq, scaled_seq, splat, sum_seq, unit_seq, BooleanVector, EquableVector,
    MutableNumericVector, MutableNumericVector3, MutableVector, NegVector, NumericVector,
    NumericVector3, OrdinalVector, ToHomogeneous, Vector, Vector3,
};
use crate::vec4::Vec4;
use vstd::pervasive::unreached;
use vstd::prelude::*;
use vstd::std_specs::cmp::{PartialEqSpec, PartialEqSpecImpl};

verus! {

/// A 3-dimensional vector with the components `x`, `y` and `z`, in
/// that order.
#[derive(Clone, Copy, Debug)]
pub struct Vec3<T> {
    pub x: T,
    pub y: T,
    pub z: T,
}

/// The exact dot product of two triples, written out.
pub proof fn lemma_dot_int_3<T: Number>(a: Seq<T>, b: Seq<T>)
    requires
        a.len() == 3,
        b.len() == 3,
    ensures
        dot_int(a, b) == a[0].val() * b[0].val() + a[1].val() * b[1].val()
            + a[2].val() * b[2].val(),
{
    reveal_with_fuel(dot_int, 4);
}

impl<T: Scalar> PartialEq for Vec3<T> {
    /// Structural equality: all three components are pairwise equal.
    fn eq(&self, other: &Self) -> (r: bool) {
        self.x.same(other.x) && self.y.same(other.y) && self.z.same(other.z)
    }
}

impl<T: Scalar> PartialEqSpecImpl for Vec3<T> {
    open spec fn obeys_eq_spec() -> bool {
        true
    }

    open spec fn eq_spec(&self, other: &Self) -> bool {
        self.x == other.x && self.y == other.y && self.z == other.z
    }
}

impl<T: Scalar> Vector<T> for Vec3<T> {
    open spec fn dim() -> nat {
        3
    }

    open spec fn view(&self) -> Seq<T> {
        seq![self.x, self.y, self.z]
    }

    proof fn lemma_len(&self) {
    }

    proof fn lemma_extensional(&self, other: &Self) {
        assert(self@[0] == self.x && self@[1] == self.y && self@[2] == self.z);
        assert(other@[0] == other.x && other@[1] == other.y && other@[2] == other.z);
    }

    fn from_value(value: T) -> (v: Self) {
        let v = Vec3 { x: value, y: value, z: value };
        assert(v@ =~= splat(3, value));
        v
    }

    fn index(&self, i: usize) -> (r: T) {
        if i == 0 {
            self.x
        } else if i == 1 {
            self.y
        } else if i == 2 {
            self.z
        } else {
            unreached()
        }
    }

    fn get(&self, i: usize) -> (r: Option<T>) {
        if i < 3 {
            Some(self.index(i))
        } else {
            None
        }
    }

    fn to_vec(&self) -> (r: Vec<T>) {
        let r = vec![self.x, self.y, self.z];
        assert(r@ =~= self@);
        r
    }
}

/// Structural equality is equality of the components: `==` holds of two
/// vectors exactly when their component sequences are the same.
pub proof fn lemma_vec3_eq<T: Scalar>(a: Vec3<T>, b: Vec3<T>)
    ensures
        PartialEqSpec::eq_spec(&a, &b) <==> a@ == b@,
{
    if a@ == b@ {
        a.lemma_extensional(&b);
    }
}

impl<T: Scalar> Vector3<T> for Vec3<T> {
    fn new(x: T, y: T, z: T) -> (v: Self) {
        Vec3 { x, y, z }
    }
}

impl<T: Scalar> MutableVector<T> for Vec3<T> {
    fn index_mut(&mut self, i: usize) -> (r: &mut T) {
        if i == 0 {
            assert(forall|t: T| seq![t, self.y, self.z] =~= self@.update(0, t));
            &mut self.x
        } else if i == 1 {
            assert(forall|t: T| seq![self.x, t, self.z] =~= self@.update(1, t));
            &mut self.y
        } else if i == 2 {
            assert(forall|t: T| seq![self.x, self.y, t] =~= self@.update(2, t));
            &mut self.z
        } else {
            unreached()
        }
    }

    fn swap(&mut self, a: usize, b: usize) {
        let at_a = self.index(a);
        let at_b = self.index(b);
        *self.index_mut(a) = at_b;
        *self.index_mut(b) = at_a;
    }
}

impl<T: Number> NumericVector<T> for Vec3<T> {
    fn identity() -> (v: Self) {
        let v = Vec3 { x: T::one(), y: T::one(), z: T::one() };
        assert(v@ =~= splat(3, T::of_int(1)));
        v
    }

    fn zero() -> (v: Self) {
        let v = Vec3 { x: T::zero(), y: T::zero(), z: T::zero() };
        assert(v@ =~= splat(3, T::of_int(0)));
        v
    }

    fn is_zero(&self) -> (r: bool) {
        let zero = T::zero();
        let r = self.x.same(zero) && self.y.same(zero) && self.z.same(zero);
        proof {
            assert(self@[0] == self.x && self@[1] == self.y && self@[2] == self.z);
        }
        r
    }

    fn mul_t(&self, value: T) -> (r: Self) {
        let r = Vec3 {
            x: self.x.mul(value),
            y: self.y.mul(value),
            z: self.z.mul(value),
        };
        assert(r@ =~= scaled_seq(self@, value));
        r
    }

    fn div_t(&self, value: T) -> (r: Self) {
        let r = Vec3 {
            x: self.x.div(value),
            y: self.y.div(value),
            z: self.z.div(value),
        };
        assert(r@ =~= divided_seq(self@, value));
        r
    }

    fn add_v(&self, other: &Self) -> (r: Self) {
        let r = Vec3 {
            x: self.x.add(other.x),
            y: self.y.add(other.y),
            z: self.z.add(other.z),
        };
        assert(r@ =~= sum_seq(self@, other@));
        r
    }

    fn sub_v(&self, other: &Self) -> (r: Self) {
        let r = Vec3 {
            x: self.x.sub(other.x),
            y: self.y.sub(other.y),
            z: self.z.sub(other.z),
        };
        assert(r@ =~= diff_seq(self@, other@));
        r
    }

    fn mul_v(&self, other: &Self) -> (r: Self) {
        let r = Vec3 {
            x: self.x.mul(other.x),
            y: self.y.mul(other.y),
            z: self.z.mul(other.z),
        };
        assert(r@ =~= prod_seq(self@, other@));
        r
    }

    fn div_v(&self, other: &Self) -> (r: Self) {
        assert(other@[0] == other.x && other@[1] == other.y && other@[2] == other.z);
        let r = Vec3 {
            x: self.x.div(other.x),
            y: self.y.div(other.y),
            z: self.z.div(other.z),
        };
        assert(r@ =~= quot_seq(self@, other@));
        r
    }

    fn dot(&self, other: &Self) -> (r: T) {
        proof {
            let mx = self.x.val() * other.x.val();
            let my = self.y.val() * other.y.val();
            let mz = self.z.val() * other.z.val();
            lemma_sum_of_wrapped::<T>(mx, my);
            lemma_sum_of_wrapped::<T>(mx + my, mz);
            lemma_dot_int_3(self@, other@);
        }
        let px = self.x.mul(other.x);
        let py = self.y.mul(other.y);
        let pz = self.z.mul(other.z);
        px.add(py).add(pz)
    }
}

impl<T: SignedNumber> NegVector<T> for Vec3<T> {
    fn neg(&self) -> (r: Self) {
        let r = Vec3 { x: self.x.neg(), y: self.y.neg(), z: self.z.neg() };
        assert(r@ =~= neg_seq(self@));
        r
    }

    fn neg_self(&mut self) {
        self.x = self.x.neg();
        self.y = self.y.neg();
        self.z = self.z.neg();
        assert(self@ =~= neg_seq(old(self)@));
    }
}

impl<T: Number> NumericVector3<T> for Vec3<T> {
    fn unit_x() -> (v: Self) {
        let v = Vec3 { x: T::one(), y: T::zero(), z: T::zero() };
        assert(v@ =~= unit_seq::<T>(3, 0));
        v
    }

    fn unit_y() -> (v: Self) {
        let v = Vec3 { x: T::zero(), y: T::one(), z: T::zero() };
        assert(v@ =~= unit_seq::<T>(3, 1));
        v
    }

    fn unit_z() -> (v: Self) {
        let v = Vec3 { x: T::zero(), y: T::zero(), z: T::one() };
        assert(v@ =~= unit_seq::<T>(3, 2));
        v
    }

    fn cross(&self, other: &Self) -> (r: Self) {
        proof {
            lemma_diff_of_wrapped::<T>(
                self.y.val() * other.z.val(),
                self.z.val() * other.y.val(),
            );
            lemma_diff_of_wrapped::<T>(
                self.z.val() * other.x.val(),
                self.x.val() * other.z.val(),
            );
            lemma_diff_of_wrapped::<T>(
                self.x.val() * other.y.val(),
                self.y.val() * other.x.val(),
            );
        }
        let r = Vec3 {
            x: self.y.mul(other.z).sub(self.z.mul(other.y)),
            y: self.z.mul(other.x).sub(self.x.mul(other.z)),
            z: self.x.mul(other.y).sub(self.y.mul(other.x)),
        };
        assert(r@ =~= cross_seq(self@, other@));
        r
    }
}

impl<T: Number> MutableNumericVector<T> for Vec3<T> {
    fn mul_self_t(&mut self, value: T) {
        self.x = self.x.mul(value);
        self.y = self.y.mul(value);
        self.z = self.z.mul(value);
        assert(self@ =~= scaled_seq(old(self)@, value));
    }

    fn div_self_t(&mut self, value: T) {
        self.x = self.x.div(value);
        self.y = self.y.div(value);
        self.z = self.z.div(value);
        assert(self@ =~= divided_seq(old(self)@, value));
    }

    fn add_self_v(&mut self, other: &Self) {
        self.x = self.x.add(other.x);
        self.y = self.y.add(other.y);
        self.z = self.z.add(other.z);
        assert(self@ =~= sum_seq(old(self)@, other@));
    }

    fn sub_self_v(&mut self, other: &Self) {
        self.x = self.x.sub(other.x);
        self.y = self.y.sub(other.y);
        self.z = self.z.sub(other.z);
        assert(self@ =~= diff_seq(old(self)@, other@));
    }

    fn mul_self_v(&mut self, other: &Self) {
        self.x = self.x.mul(other.x);
        self.y = self.y.mul(other.y);
        self.z = self.z.mul(other.z);
        assert(self@ =~= prod_seq(old(self)@, other@));
    }

    fn div_self_v(&mut self, other: &Self) {
        assert(other@[0] == other.x && other@[1] == other.y && other@[2] == other.z);
        self.x = self.x.div(other.x);
        self.y = self.y.div(other.y);
        self.z = self.z.div(other.z);
        assert(self@ =~= quot_seq(old(self)@, other@));
    }
}

impl<T: Number> MutableNumericVector3<T> for Vec3<T> {
    fn cross_self(&mut self, other: &Self) {
        let r = self.cross(other);
        self.x = r.x;
        self.y = r.y;
        self.z = r.z;
        assert(self@ =~= r@);
    }
}

impl<T: Number> ToHomogeneous<Vec4<T>> for Vec3<T> {
    /// The same components, followed by a zero.
    open spec fn lifted(&self) -> Vec4<T> {
        Vec4 { x: self.x, y: self.y, z: self.z, w: T::of_int(0) }
    }

    fn to_homogeneous(&self) -> (h: Vec4<T>)
        ensures
            h@ == self@.push(T::of_int(0)),
    {
        let h = Vec4 { x: self.x, y: self.y, z: self.z, w: T::zero() };
        assert(h@ =~= self@.push(T::of_int(0)));
        h
    }
}

impl<T: Number> OrdinalVector<T, Vec3<bool>> for Vec3<T> {
    fn less_than(&self, other: &Self) -> (r: Vec3<bool>) {
        let r = Vec3 {
            x: self.x.lt(other.x),
            y: self.y.lt(other.y),
            z: self.z.lt(other.z),
        };
        assert(r@ =~= lt_seq(self@, other@));
        r
    }

    fn less_than_equal(&self, other: &Self) -> (r: Vec3<bool>) {
        let r = Vec3 {
            x: self.x.le(other.x),
            y: self.y.le(other.y),
            z: self.z.le(other.z),
        };
        assert(r@ =~= le_seq(self@, other@));
        r
    }

    fn greater_than(&self, other: &Self) -> (r: Vec3<bool>) {
        let r = Vec3 {
            x: other.x.lt(self.x),
            y: other.y.lt(self.y),
            z: other.z.lt(self.z),
        };
        assert(r@ =~= lt_seq(other@, self@));
        r
    }

    fn greater_than_equal(&self, other: &Self) -> (r: Vec3<bool>) {
        let r = Vec3 {
            x: other.x.le(self.x),
            y: other.y.le(self.y),
            z: other.z.le(self.z),
        };
        assert(r@ =~= le_seq(other@, self@));
        r
    }
}

impl<T: Scalar> EquableVector<T, Vec3<bool>> for Vec3<T> {
    fn equal(&self, other: &Self) -> (r: Vec3<bool>) {
        let r = Vec3 {
            x: self.x.same(other.x),
            y: self.y.same(other.y),
            z: self.z.same(other.z),
        };
        assert(r@ =~= eq_seq(self@, other@));
        r
    }

    fn not_equal(&self, other: &Self) -> (r: Vec3<bool>) {
        let r = Vec3 {
            x: !self.x.same(other.x),
            y: !self.y.same(other.y),
            z: !self.z.same(other.z),
        };
        assert(r@ =~= ne_seq(self@, other@));
        r
    }
}

impl BooleanVector for Vec3<bool> {
    fn any(&self) -> (r: bool) {
        let r = self.x || self.y || self.z;
        proof {
            assert(self@[0] == self.x && self@[1] == self.y && self@[2] == self.z);
        }
        r
    }

    fn all(&self) -> (r: bool) {
        let r = self.x && self.y && self.z;
        proof {
            assert(self@[0] == self.x && self@[1] == self.y && self@[2] == self.z);
        }
        r
    }

    fn not(&self) -> (r: Self) {
        let r = Vec3 { x: !self.x, y: !self.y, z: !self.z };
        assert(r@ =~= not_seq(self@));
        r
    }
}

/// A 3-component Boolean vector.
#[allow(non_camel_case_types)]
pub type bvec3 = Vec3<bool>;

impl Vec3<bool> {
    pub fn new(x: bool, y: bool, z: bool) -> (v: Self)
        ensures
            v@ == seq![x, y, z],
    {
        Vec3 { x, y, z }
    }

    pub fn from_value(value: bool) -> (v: Self)
        ensures
            v@ == splat(3, value),
    {
        Vector::from_value(value)
    }

    /// The number of components.
    pub fn dim() -> (n: usize)
        ensures
            n == 3,
    {
        3
    }

    /// The size of the vector in memory, in bytes: 3 components of 1 each.
    pub fn size_of() -> (n: usize)
        ensures
            n == 3 * 1,
    {
        3
    }
}

/// A 3-component signed integer vector.
#[allow(non_camel_case_types)]
pub type ivec3 = Vec3<i32>;

impl Vec3<i32> {
    pub fn new(x: i32, y: i32, z: i32) -> (v: Self)
        ensures
            v@ == seq![x, y, z],
    {
        Vec3 { x, y, z }
    }

    pub fn from_value(value: i32) -> (v: Self)
        ensures
            v@ == splat(3, value),
    {
        Vector::from_value(value)
    }

    pub fn identity() -> (v: Self)
        ensures
            v@ == splat(3, 1i32),
    {
        NumericVector::identity()
    }

    pub fn zero() -> (v: Self)
        ensures
            v@ == splat(3, 0i32),
    {
        NumericVector::zero()
    }

    pub fn unit_x() -> (v: Self)
        ensures
            v@ == seq![1i32, 0i32, 0i32],
    {
        let v: Self = NumericVector3::unit_x();
        assert(v@ =~= seq![1i32, 0i32, 0i32]);
        v
    }

    pub fn unit_y() -> (v: Self)
        ensures
            v@ == seq![0i32, 1i32, 0i32],
    {
        let v: Self = NumericVector3::unit_y();
        assert(v@ =~= seq![0i32, 1i32, 0i32]);
        v
    }

    pub fn unit_z() -> (v: Self)
        ensures
            v@ == seq![0i32, 0i32, 1i32],
    {
        let v: Self = NumericVector3::unit_z();
        assert(v@ =~= seq![0i32, 0i32, 1i32]);
        v
    }

    /// The number of components.
    pub fn dim() -> (n: usize)
        ensures
            n == 3,
    {
        3
    }

    /// The size of the vector in memory, in bytes: 3 components of 4 each.
    pub fn size_of() -> (n: usize)
        ensures
            n == 3 * 4,
    {
        12
    }
}

/// A 3-component unsigned integer vector.
#[allow(non_camel_case_types)]
pub type uvec3 = Vec3<u32>;

impl Vec3<u32> {
    pub fn new(x: u32, y: u32, z: u32) -> (v: Self)
        ensures
            v@ == seq![x, y, z],
    {
        Vec3 { x, y, z }
    }

    pub fn from_value(value: u32) -> (v: Self)
        ensures
            v@ == splat(3, value),
    {
        Vector::from_value(value)
    }

    pub fn identity() -> (v: Self)
        ensures
            v@ == splat(3, 1u32),
    {
        NumericVector::identity()
    }

    pub fn zero() -> (v: Self)
        ensures
            v@ == splat(3, 0u32),
    {
        NumericVector::zero()
    }

    pub fn unit_x() -> (v: Self)
        ensures
            v@ == seq![1u32, 0u32, 0u32],
    {
        let v: Self = NumericVector3::unit_x();
        assert(v@ =~= seq![1u32, 0u32, 0u32]);
        v
    }

    pub fn unit_y() -> (v: Self)
        ensures
            v@ == seq![0u32, 1u32, 0u32],
    {
        let v: Self = NumericVector3::unit_y();
        assert(v@ =~= seq![0u32, 1u32, 0u32]);
        v
    }

    pub fn unit_z() -> (v: Self)
        ensures
            v@ == seq![0u32, 0u32, 1u32],
    {
        let v: Self = NumericVector3::unit_z();
        assert(v@ =~= seq![0u32, 0u32, 1u32]);
        v
    }

    /// The number of components.
    pub fn dim() -> (n: usize)
        ensures
            n == 3,
    {
        3
    }

    /// The size of the vector in memory, in bytes: 3 components of 4 each.
    pub fn size_of() -> (n: usize)
        ensures
            n == 3 * 4,
    {
        12
    }
}

} // verus!
