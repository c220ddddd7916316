//! The vector of four components.

use crate::scalar::{lemma_sum_of_wrapped, Number, Scalar, SignedNumber};
use crate::vec::{
    diff_seq, divided_seq, dot_int, eq_seq, le_seq, lt_seq, ne_seq, neg_seq, not_seq, prod_seq,
    quot_seq, scaled_seq, splat, sum_seq, unit_seq, BooleanVector, EquableVector,
    MutableNumericVector, MutableVector, NegVector, NumericVector, NumericVector4, OrdinalVector,
    Vector, Vector4,
};
use vstd::pervasive::unreached;
use vstd::prelude::*;
use vstd::std_specs::cmp::{PartialEqSpec, PartialEqSpecImpl};

verus! {

/// A 4-dimensional vector with the components `x`, `y`, `z` and `w`, in
/// that order.
#[derive(Clone, Copy, Debug)]
pub struct Vec4<T> {
    pub x: T,
    pub y: T,
    pub z: T,
    pub w: T,
}

/// The exact dot product of two quadruples, written out.
pub proof fn lemma_dot_int_4<T: Number>(a: Seq<T>, b: Seq<T>)
    requires
        a.len() == 4,
        b.len() == 4,
    ensures
        dot_int(a, b) == a[0].val() * b[0].val() + a[1].val() * b[1].val()
            + a[2].val() * b[2].val() + a[3].val() * b[3].val(),
{
    reveal_with_fuel(dot_int, 5);
}

impl<T: Scalar> PartialEq for Vec4<T> {
    /// Structural equality: all four components are pairwise equal.
    fn eq(&self, other: &Self) -> (r: bool) {
        self.x.same(other.x) && self.y.same(other.y) && self.z.same(other.z)
            && self.w.same(other.w)
    }
}

impl<T: Scalar> PartialEqSpecImpl for Vec4<T> {
    open spec fn obeys_eq_spec() -> bool {
        true
    }

    open spec fn eq_spec(&self, other: &Self) -> bool {
        self.x == other.x && self.y == other.y && self.z == other.z && self.w == other.w
    }
}

impl<T: Scalar> Vector<T> for Vec4<T> {
    open spec fn dim() -> nat {
        4
    }

    open spec fn view(&self) -> Seq<T> {
        seq![self.x, self.y, self.z, self.w]
    }

    proof fn lemma_len(&self) {
    }

    proof fn lemma_extensional(&self, other: &Self) {
        assert(self@[0] == self.x && self@[1] == self.y && self@[2] == self.z
            && self@[3] == self.w);
        assert(other@[0] == other.x && other@[1] == other.y && other@[2] == other.z
            && other@[3] == other.w);
    }

    fn from_value(value: T) -> (v: Self) {
        let v = Vec4 { x: value, y: value, z: value, w: value };
        assert(v@ =~= splat(4, value));
        v
    }

    fn index(&self, i: usize) -> (r: T) {
        if i == 0 {
            self.x
        } else if i == 1 {
            self.y
        } else if i == 2 {
            self.z
        } else if i == 3 {
            self.w
        } else {
            unreached()
        }
    }

    fn get(&self, i: usize) -> (r: Option<T>) {
        if i < 4 {
            Some(self.index(i))
        } else {
            None
        }
    }

    fn to_vec(&self) -> (r: Vec<T>) {
        let r = vec![self.x, self.y, self.z, self.w];
        assert(r@ =~= self@);
        r
    }
}

/// Structural equality is equality of the components: `==` holds of two
/// vectors exactly when their component sequences are the same.
pub proof fn lemma_vec4_eq<T: Scalar>(a: Vec4<T>, b: Vec4<T>)
    ensures
        PartialEqSpec::eq_spec(&a, &b) <==> a@ == b@,
{
    if a@ == b@ {
        a.lemma_extensional(&b);
    }
}

impl<T: Scalar> Vector4<T> for Vec4<T> {
    fn new(x: T, y: T, z: T, w: T) -> (v: Self) {
        Vec4 { x, y, z, w }
    }
}

impl<T: Scalar> MutableVector<T> for Vec4<T> {
    fn index_mut(&mut self, i: usize) -> (r: &mut T) {
        if i == 0 {
            assert(forall|t: T| seq![t, self.y, self.z, self.w] =~= self@.update(0, t));
            &mut self.x
        } else if i == 1 {
            assert(forall|t: T| seq![self.x, t, self.z, self.w] =~= self@.update(1, t));
            &mut self.y
        } else if i == 2 {
            assert(forall|t: T| seq![self.x, self.y, t, self.w] =~= self@.update(2, t));
            &mut self.z
        } else if i == 3 {
            assert(forall|t: T| seq![self.x, self.y, self.z, t] =~= self@.update(3, t));
            &mut self.w
        } else {
            unreached()
        }
    }

    fn swap(&mut self, a: usize, b: usize) {
        let at_a = self.index(a);
        let at_b = self.index(b);
        *self.index_mut(a) = at_b;
        *self.index_mut(b) = at_a;
    }
}

impl<T: Number> NumericVector<T> for Vec4<T> {
    fn identity() -> (v: Self) {
        let v = Vec4 { x: T::one(), y: T::one(), z: T::one(), w: T::one() };
        assert(v@ =~= splat(4, T::of_int(1)));
        v
    }

    fn zero() -> (v: Self) {
        let v = Vec4 { x: T::zero(), y: T::zero(), z: T::zero(), w: T::zero() };
        assert(v@ =~= splat(4, T::of_int(0)));
        v
    }

    fn is_zero(&self) -> (r: bool) {
        let zero = T::zero();
        let r = self.x.same(zero) && self.y.same(zero) && self.z.same(zero) && self.w.same(zero);
        proof {
            assert(self@[0] == self.x && self@[1] == self.y && self@[2] == self.z
                && self@[3] == self.w);
        }
        r
    }

    fn mul_t(&self, value: T) -> (r: Self) {
        let r = Vec4 {
            x: self.x.mul(value),
            y: self.y.mul(value),
            z: self.z.mul(value),
            w: self.w.mul(value),
        };
        assert(r@ =~= scaled_seq(self@, value));
        r
    }

    fn div_t(&self, value: T) -> (r: Self) {
        let r = Vec4 {
            x: self.x.div(value),
            y: self.y.div(value),
            z: self.z.div(value),
            w: self.w.div(value),
        };
        assert(r@ =~= divided_seq(self@, value));
        r
    }

    fn add_v(&self, other: &Self) -> (r: Self) {
        let r = Vec4 {
            x: self.x.add(other.x),
            y: self.y.add(other.y),
            z: self.z.add(other.z),
            w: self.w.add(other.w),
        };
        assert(r@ =~= sum_seq(self@, other@));
        r
    }

    fn sub_v(&self, other: &Self) -> (r: Self) {
        let r = Vec4 {
            x: self.x.sub(other.x),
            y: self.y.sub(other.y),
            z: self.z.sub(other.z),
            w: self.w.sub(other.w),
        };
        assert(r@ =~= diff_seq(self@, other@));
        r
    }

    fn mul_v(&self, other: &Self) -> (r: Self) {
        let r = Vec4 {
            x: self.x.mul(other.x),
            y: self.y.mul(other.y),
            z: self.z.mul(other.z),
            w: self.w.mul(other.w),
        };
        assert(r@ =~= prod_seq(self@, other@));
        r
    }

    fn div_v(&self, other: &Self) -> (r: Self) {
        assert(other@[0] == other.x && other@[1] == other.y && other@[2] == other.z
            && other@[3] == other.w);
        let r = Vec4 {
            x: self.x.div(other.x),
            y: self.y.div(other.y),
            z: self.z.div(other.z),
            w: self.w.div(other.w),
        };
        assert(r@ =~= quot_seq(self@, other@));
        r
    }

    fn dot(&self, other: &Self) -> (r: T) {
        proof {
            let mx = self.x.val() * other.x.val();
            let my = self.y.val() * other.y.val();
            let mz = self.z.val() * other.z.val();
            let mw = self.w.val() * other.w.val();
            lemma_sum_of_wrapped::<T>(mx, my);
            lemma_sum_of_wrapped::<T>(mx + my, mz);
            lemma_sum_of_wrapped::<T>(mx + my + mz, mw);
            lemma_dot_int_4(self@, other@);
        }
        let px = self.x.mul(other.x);
        let py = self.y.mul(other.y);
        let pz = self.z.mul(other.z);
        let pw = self.w.mul(other.w);
        px.add(py).add(pz).add(pw)
    }
}

impl<T: SignedNumber> NegVector<T> for Vec4<T> {
    fn neg(&self) -> (r: Self) {
        let r = Vec4 { x: self.x.neg(), y: self.y.neg(), z: self.z.neg(), w: self.w.neg() };
        assert(r@ =~= neg_seq(self@));
        r
    }

    fn neg_self(&mut self) {
        self.x = self.x.neg();
        self.y = self.y.neg();
        self.z = self.z.neg();
        self.w = self.w.neg();
        assert(self@ =~= neg_seq(old(self)@));
    }
}

impl<T: Number> NumericVector4<T> for Vec4<T> {
    fn unit_x() -> (v: Self) {
        let v = Vec4 { x: T::one(), y: T::zero(), z: T::zero(), w: T::zero() };
        assert(v@ =~= unit_seq::<T>(4, 0));
        v
    }

    fn unit_y() -> (v: Self) {
        let v = Vec4 { x: T::zero(), y: T::one(), z: T::zero(), w: T::zero() };
        assert(v@ =~= unit_seq::<T>(4, 1));
        v
    }

    fn unit_z() -> (v: Self) {
        let v = Vec4 { x: T::zero(), y: T::zero(), z: T::one(), w: T::zero() };
        assert(v@ =~= unit_seq::<T>(4, 2));
        v
    }

    fn unit_w() -> (v: Self) {
        let v = Vec4 { x: T::zero(), y: T::zero(), z: T::zero(), w: T::one() };
        assert(v@ =~= unit_seq::<T>(4, 3));
        v
    }
}

impl<T: Number> MutableNumericVector<T> for Vec4<T> {
    fn mul_self_t(&mut self, value: T) {
        self.x = self.x.mul(value);
        self.y = self.y.mul(value);
        self.z = self.z.mul(value);
        self.w = self.w.mul(value);
        assert(self@ =~= scaled_seq(old(self)@, value));
    }

    fn div_self_t(&mut self, value: T) {
        self.x = self.x.div(value);
        self.y = self.y.div(value);
        self.z = self.z.div(value);
        self.w = self.w.div(value);
        assert(self@ =~= divided_seq(old(self)@, value));
    }

    fn add_self_v(&mut self, other: &Self) {
        self.x = self.x.add(other.x);
        self.y = self.y.add(other.y);
        self.z = self.z.add(other.z);
        self.w = self.w.add(other.w);
        assert(self@ =~= sum_seq(old(self)@, other@));
    }

    fn sub_self_v(&mut self, other: &Self) {
        self.x = self.x.sub(other.x);
        self.y = self.y.sub(other.y);
        self.z = self.z.sub(other.z);
        self.w = self.w.sub(other.w);
        assert(self@ =~= diff_seq(old(self)@, other@));
    }

    fn mul_self_v(&mut self, other: &Self) {
        self.x = self.x.mul(other.x);
        self.y = self.y.mul(other.y);
        self.z = self.z.mul(other.z);
        self.w = self.w.mul(other.w);
        assert(self@ =~= prod_seq(old(self)@, other@));
    }

    fn div_self_v(&mut self, other: &Self) {
        assert(other@[0] == other.x && other@[1] == other.y && other@[2] == other.z
            && other@[3] == other.w);
        self.x = self.x.div(other.x);
        self.y = self.y.div(other.y);
        self.z = self.z.div(other.z);
        self.w = self.w.div(other.w);
        assert(self@ =~= quot_seq(old(self)@, other@));
    }
}

impl<T: Number> OrdinalVector<T, Vec4<bool>> for Vec4<T> {
    fn less_than(&self, other: &Self) -> (r: Vec4<bool>) {
        let r = Vec4 {
            x: self.x.lt(other.x),
            y: self.y.lt(other.y),
            z: self.z.lt(other.z),
            w: self.w.lt(other.w),
        };
        assert(r@ =~= lt_seq(self@, other@));
        r
    }

    fn less_than_equal(&self, other: &Self) -> (r: Vec4<bool>) {
        let r = Vec4 {
            x: self.x.le(other.x),
            y: self.y.le(other.y),
            z: self.z.le(other.z),
            w: self.w.le(other.w),
        };
        assert(r@ =~= le_seq(self@, other@));
        r
    }

    fn greater_than(&self, other: &Self) -> (r: Vec4<bool>) {
        let r = Vec4 {
            x: other.x.lt(self.x),
            y: other.y.lt(self.y),
            z: other.z.lt(self.z),
            w: other.w.lt(self.w),
        };
        assert(r@ =~= lt_seq(other@, self@));
        r
    }

    fn greater_than_equal(&self, other: &Self) -> (r: Vec4<bool>) {
        let r = Vec4 {
            x: other.x.le(self.x),
            y: other.y.le(self.y),
            z: other.z.le(self.z),
            w: other.w.le(self.w),
        };
        assert(r@ =~= le_seq(other@, self@));
        r
    }
}

impl<T: Scalar> EquableVector<T, Vec4<bool>> for Vec4<T> {
    fn equal(&self, other: &Self) -> (r: Vec4<bool>) {
        let r = Vec4 {
            x: self.x.same(other.x),
            y: self.y.same(other.y),
            z: self.z.same(other.z),
            w: self.w.same(other.w),
        };
        assert(r@ =~= eq_seq(self@, other@));
        r
    }

    fn not_equal(&self, other: &Self) -> (r: Vec4<bool>) {
        let r = Vec4 {
            x: !self.x.same(other.x),
            y: !self.y.same(other.y),
            z: !self.z.same(other.z),
            w: !self.w.same(other.w),
        };
        assert(r@ =~= ne_seq(self@, other@));
        r
    }
}

impl BooleanVector for Vec4<bool> {
    fn any(&self) -> (r: bool) {
        let r = self.x || self.y || self.z || self.w;
        proof {
            assert(self@[0] == self.x && self@[1] == self.y && self@[2] == self.z
                && self@[3] == self.w);
        }
        r
    }

    fn all(&self) -> (r: bool) {
        let r = self.x && self.y && self.z && self.w;
        proof {
            assert(self@[0] == self.x && self@[1] == self.y && self@[2] == self.z
                && self@[3] == self.w);
        }
        r
    }

    fn not(&self) -> (r: Self) {
        let r = Vec4 { x: !self.x, y: !self.y, z: !self.z, w: !self.w };
        assert(r@ =~= not_seq(self@));
        r
    }
}

/// A 4-component Boolean vector.
#[allow(non_camel_case_types)]
pub type bvec4 = Vec4<bool>;

impl Vec4<bool> {
    pub fn new(x: bool, y: bool, z: bool, w: bool) -> (v: Self)
        ensures
            v@ == seq![x, y, z, w],
    {
        Vec4 { x, y, z, w }
    }

    pub fn from_value(value: bool) -> (v: Self)
        ensures
            v@ == splat(4, value),
    {
        Vector::from_value(value)
    }

    /// The number of components.
    pub fn dim() -> (n: usize)
        ensures
            n == 4,
    {
        4
    }

    /// The size of the vector in memory, in bytes: 4 components of 1 each.
    pub fn size_of() -> (n: usize)
        ensures
            n == 4 * 1,
    {
        4
    }
}

/// A 4-component signed integer vector.
#[allow(non_camel_case_types)]
pub type ivec4 = Vec4<i32>;

impl Vec4<i32> {
    pub fn new(x: i32, y: i32, z: i32, w: i32) -> (v: Self)
        ensures
            v@ == seq![x, y, z, w],
    {
        Vec4 { x, y, z, w }
    }

    pub fn from_value(value: i32) -> (v: Self)
        ensures
            v@ == splat(4, value),
    {
        Vector::from_value(value)
    }

    pub fn identity() -> (v: Self)
        ensures
            v@ == splat(4, 1i32),
    {
        NumericVector::identity()
    }

    pub fn zero() -> (v: Self)
        ensures
            v@ == splat(4, 0i32),
    {
        NumericVector::zero()
    }

    pub fn unit_x() -> (v: Self)
        ensures
            v@ == seq![1i32, 0i32, 0i32, 0i32],
    {
        let v: Self = NumericVector4::unit_x();
        assert(v@ =~= seq![1i32, 0i32, 0i32, 0i32]);
        v
    }

    pub fn unit_y() -> (v: Self)
        ensures
            v@ == seq![0i32, 1i32, 0i32, 0i32],
    {
        let v: Self = NumericVector4::unit_y();
        assert(v@ =~= seq![0i32, 1i32, 0i32, 0i32]);
        v
    }

    pub fn unit_z() -> (v: Self)
        ensures
            v@ == seq![0i32, 0i32, 1i32, 0i32],
    {
        let v: Self = NumericVector4::unit_z();
        assert(v@ =~= seq![0i32, 0i32, 1i32, 0i32]);
        v
    }

    pub fn unit_w() -> (v: Self)
        ensures
            v@ == seq![0i32, 0i32, 0i32, 1i32],
    {
        let v: Self = NumericVector4::unit_w();
        assert(v@ =~= seq![0i32, 0i32, 0i32, 1i32]);
        v
    }

    /// The number of components.
    pub fn dim() -> (n: usize)
        ensures
            n == 4,
    {
        4
    }

    /// The size of the vector in memory, in bytes: 4 components of 4 each.
    pub fn size_of() -> (n: usize)
        ensures
            n == 4 * 4,
    {
        16
    }
}

/// A 4-component unsigned integer vector.
#[allow(non_camel_case_types)]
pub type uvec4 = Vec4<u32>;

impl Vec4<u32> {
    pub fn new(x: u32, y: u32, z: u32, w: u32) -> (v: Self)
        ensures
            v@ == seq![x, y, z, w],
    {
        Vec4 { x, y, z, w }
    }

    pub fn from_value(value: u32) -> (v: Self)
        ensures
            v@ == splat(4, value),
    {
        Vector::from_value(value)
    }

    pub fn identity() -> (v: Self)
        ensures
            v@ == splat(4, 1u32),
    {
        NumericVector::identity()
    }

    pub fn zero() -> (v: Self)
        ensures
            v@ == splat(4, 0u32),
    {
        NumericVector::zero()
    }

    pub fn unit_x() -> (v: Self)
        ensures
            v@ == seq![1u32, 0u32, 0u32, 0u32],
    {
        let v: Self = NumericVector4::unit_x();
        assert(v@ =~= seq![1u32, 0u32, 0u32, 0u32]);
        v
    }

    pub fn unit_y() -> (v: Self)
        ensures
            v@ == seq![0u32, 1u32, 0u32, 0u32],
    {
        let v: Self = NumericVector4::unit_y();
        assert(v@ =~= seq![0u32, 1u32, 0u32, 0u32]);
        v
    }

    pub fn unit_z() -> (v: Self)
        ensures
            v@ == seq![0u32, 0u32, 1u32, 0u32],
    {
        let v: Self = NumericVector4::unit_z();
        assert(v@ =~= seq![0u32, 0u32, 1u32, 0u32]);
        v
    }

    pub fn unit_w() -> (v: Self)
        ensures
            v@ == seq![0u32, 0u32, 0u32, 1u32],
    {
        let v: Self = NumericVector4::unit_w();
        assert(v@ =~= seq![0u32, 0u32, 0u32, 1u32]);
        v
    }

    /// The number of components.
    pub fn dim() -> (n: usize)
        ensures
            n == 4,
    {
        4
    }

    /// The size of the vector in memory, in bytes: 4 components of 4 each.
    pub fn size_of() -> (n: usize)
        ensures
            n == 4 * 4,
    {
        16
    }
}

} // verus!
