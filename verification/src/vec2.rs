//! The vector of two components.

use crate::scalar::{lemma_diff_of_wrapped, lemma_sum_of_wrapped, Number, Scalar, SignedNumber};
use crate::vec::{
    diff_seq, divided_seq, dot_int, eq_seq, le_seq, lt_seq, ne_seq, neg_seq, not_seq, prod_seq,
    quot_seq, scaled_seq, splat, sum_seq, unit_seq, BooleanVector, EquableVector,
    MutableNumericVector, MutableVector, NegVector, NumericVector, NumericVector2, OrdinalVector,
    ToHomogeneous, Vector, Vector2,
};
use crate::vec3::Vec3;
use vstd::pervasive::unreached;
use vstd::prelude::*;
use vstd::std_specs::cmp::{PartialEqSpec, PartialEqSpecImpl};

verus! {

/// A 2-dimensional vector with the components `x` and `y`, in
/// that order.
#[derive(Clone, Copy, Debug)]
pub struct Vec2<T> {
    pub x: T,
    pub y: T,
}

/// The exact dot product of two pairs, written out.
pub proof fn lemma_dot_int_2<T: Number>(a: Seq<T>, b: Seq<T>)
    requires
        a.len() == 2,
        b.len() == 2,
    ensures
        dot_int(a, b) == a[0].val() * b[0].val() + a[1].val() * b[1].val(),
{
    reveal_with_fuel(dot_int, 3);
}

impl<T: Scalar> PartialEq for Vec2<T> {
    /// Structural equality: all two components are pairwise equal.
    fn eq(&self, other: &Self) -> (r: bool) {
        self.x.same(other.x) && self.y.same(other.y)
    }
}

impl<T: Scalar> PartialEqSpecImpl for Vec2<T> {
    open spec fn obeys_eq_spec() -> bool {
        true
    }

    open spec fn eq_spec(&self, other: &Self) -> bool {
        self.x == other.x && self.y == other.y
    }
}

impl<T: Scalar> Vector<T> for Vec2<T> {
    open spec fn dim() -> nat {
        2
    }

    open spec fn view(&self) -> Seq<T> {
        seq![self.x, self.y]
    }

    proof fn lemma_len(&self) {
    }

    proof fn lemma_extensional(&self, other: &Self) {
        assert(self@[0] == self.x && self@[1] == self.y);
        assert(other@[0] == other.x && other@[1] == other.y);
    }

    fn from_value(value: T) -> (v: Self) {
        let v = Vec2 { x: value, y: value };
        assert(v@ =~= splat(2, value));
        v
    }

    fn index(&self, i: usize) -> (r: T) {
        if i == 0 {
            self.x
        } else if i == 1 {
            self.y
        } else {
            unreached()
        }
    }

    fn get(&self, i: usize) -> (r: Option<T>) {
        if i < 2 {
            Some(self.index(i))
        } else {
            None
        }
    }

    fn to_vec(&self) -> (r: Vec<T>) {
        let r = vec![self.x, self.y];
        assert(r@ =~= self@);
        r
    }
}

/// Structural equality is equality of the components: `==` holds of two
/// vectors exactly when their component sequences are the same.
pub proof fn lemma_vec2_eq<T: Scalar>(a: Vec2<T>, b: Vec2<T>)
    ensures
        PartialEqSpec::eq_spec(&a, &b) <==> a@ == b@,
{
    if a@ == b@ {
        a.lemma_extensional(&b);
    }
}

impl<T: Scalar> Vector2<T> for Vec2<T> {
    fn new(x: T, y: T) -> (v: Self) {
        Vec2 { x, y }
    }
}

impl<T: Scalar> MutableVector<T> for Vec2<T> {
    fn index_mut(&mut self, i: usize) -> (r: &mut T) {
        if i == 0 {
            assert(forall|t: T| seq![t, self.y] =~= self@.update(0, t));
            &mut self.x
        } else if i == 1 {
            assert(forall|t: T| seq![self.x, t] =~= self@.update(1, t));
            &mut self.y
        } else {
            unreached()
        }
    }

    fn swap(&mut self, a: usize, b: usize) {
        let at_a = self.index(a);
        let at_b = self.index(b);
        *self.index_mut(a) = at_b;
        *self.index_mut(b) = at_a;
    }
}

impl<T: Number> NumericVector<T> for Vec2<T> {
    fn identity() -> (v: Self) {
        let v = Vec2 { x: T::one(), y: T::one() };
        assert(v@ =~= splat(2, T::of_int(1)));
        v
    }

    fn zero() -> (v: Self) {
        let v = Vec2 { x: T::zero(), y: T::zero() };
        assert(v@ =~= splat(2, T::of_int(0)));
        v
    }

    fn is_zero(&self) -> (r: bool) {
        let zero = T::zero();
        let r = self.x.same(zero) && self.y.same(zero);
        proof {
            assert(self@[0] == self.x && self@[1] == self.y);
        }
        r
    }

    fn mul_t(&self, value: T) -> (r: Self) {
        let r = Vec2 {
            x: self.x.mul(value),
            y: self.y.mul(value),
        };
        assert(r@ =~= scaled_seq(self@, value));
        r
    }

    fn div_t(&self, value: T) -> (r: Self) {
        let r = Vec2 {
            x: self.x.div(value),
            y: self.y.div(value),
        };
        assert(r@ =~= divided_seq(self@, value));
        r
    }

    fn add_v(&self, other: &Self) -> (r: Self) {
        let r = Vec2 {
            x: self.x.add(other.x),
            y: self.y.add(other.y),
        };
        assert(r@ =~= sum_seq(self@, other@));
        r
    }

    fn sub_v(&self, other: &Self) -> (r: Self) {
        let r = Vec2 {
            x: self.x.sub(other.x),
            y: self.y.sub(other.y),
        };
        assert(r@ =~= diff_seq(self@, other@));
        r
    }

    fn mul_v(&self, other: &Self) -> (r: Self) {
        let r = Vec2 {
            x: self.x.mul(other.x),
            y: self.y.mul(other.y),
        };
        assert(r@ =~= prod_seq(self@, other@));
        r
    }

    fn div_v(&self, other: &Self) -> (r: Self) {
        assert(other@[0] == other.x && other@[1] == other.y);
        let r = Vec2 {
            x: self.x.div(other.x),
            y: self.y.div(other.y),
        };
        assert(r@ =~= quot_seq(self@, other@));
        r
    }

    fn dot(&self, other: &Self) -> (r: T) {
        proof {
            let mx = self.x.val() * other.x.val();
            let my = self.y.val() * other.y.val();
            lemma_sum_of_wrapped::<T>(mx, my);
            lemma_dot_int_2(self@, other@);
        }
        let px = self.x.mul(other.x);
        let py = self.y.mul(other.y);
        px.add(py)
    }
}

impl<T: SignedNumber> NegVector<T> for Vec2<T> {
    fn neg(&self) -> (r: Self) {
        let r = Vec2 { x: self.x.neg(), y: self.y.neg() };
        assert(r@ =~= neg_seq(self@));
        r
    }

    fn neg_self(&mut self) {
        self.x = self.x.neg();
        self.y = self.y.neg();
        assert(self@ =~= neg_seq(old(self)@));
    }
}

impl<T: Number> NumericVector2<T> for Vec2<T> {
    fn unit_x() -> (v: Self) {
        let v = Vec2 { x: T::one(), y: T::zero() };
        assert(v@ =~= unit_seq::<T>(2, 0));
        v
    }

    fn unit_y() -> (v: Self) {
        let v = Vec2 { x: T::zero(), y: T::one() };
        assert(v@ =~= unit_seq::<T>(2, 1));
        v
    }

    fn perp_dot(&self, other: &Self) -> (r: T) {
        proof {
            lemma_diff_of_wrapped::<T>(
                self.x.val() * other.y.val(),
                self.y.val() * other.x.val(),
            );
        }
        self.x.mul(other.y).sub(self.y.mul(other.x))
    }
}

impl<T: Number> MutableNumericVector<T> for Vec2<T> {
    fn mul_self_t(&mut self, value: T) {
        self.x = self.x.mul(value);
        self.y = self.y.mul(value);
        assert(self@ =~= scaled_seq(old(self)@, value));
    }

    fn div_self_t(&mut self, value: T) {
        self.x = self.x.div(value);
        self.y = self.y.div(value);
        assert(self@ =~= divided_seq(old(self)@, value));
    }

    fn add_self_v(&mut self, other: &Self) {
        self.x = self.x.add(other.x);
        self.y = self.y.add(other.y);
        assert(self@ =~= sum_seq(old(self)@, other@));
    }

    fn sub_self_v(&mut self, other: &Self) {
        self.x = self.x.sub(other.x);
        self.y = self.y.sub(other.y);
        assert(self@ =~= diff_seq(old(self)@, other@));
    }

    fn mul_self_v(&mut self, other: &Self) {
        self.x = self.x.mul(other.x);
        self.y = self.y.mul(other.y);
        assert(self@ =~= prod_seq(old(self)@, other@));
    }

    fn div_self_v(&mut self, other: &Self) {
        assert(other@[0] == other.x && other@[1] == other.y);
        self.x = self.x.div(other.x);
        self.y = self.y.div(other.y);
        assert(self@ =~= quot_seq(old(self)@, other@));
    }
}

impl<T: Number> ToHomogeneous<Vec3<T>> for Vec2<T> {
    /// The same components, followed by a zero.
    open spec fn lifted(&self) -> Vec3<T> {
        Vec3 { x: self.x, y: self.y, z: T::of_int(0) }
    }

    fn to_homogeneous(&self) -> (h: Vec3<T>)
        ensures
            h@ == self@.push(T::of_int(0)),
    {
        let h = Vec3 { x: self.x, y: self.y, z: T::zero() };
        assert(h@ =~= self@.push(T::of_int(0)));
        h
    }
}

impl<T: Number> OrdinalVector<T, Vec2<bool>> for Vec2<T> {
    fn less_than(&self, other: &Self) -> (r: Vec2<bool>) {
        let r = Vec2 {
            x: self.x.lt(other.x),
            y: self.y.lt(other.y),
        };
        assert(r@ =~= lt_seq(self@, other@));
        r
    }

    fn less_than_equal(&self, other: &Self) -> (r: Vec2<bool>) {
        let r = Vec2 {
            x: self.x.le(other.x),
            y: self.y.le(other.y),
        };
        assert(r@ =~= le_seq(self@, other@));
        r
    }

    fn greater_than(&self, other: &Self) -> (r: Vec2<bool>) {
        let r = Vec2 {
            x: other.x.lt(self.x),
            y: other.y.lt(self.y),
        };
        assert(r@ =~= lt_seq(other@, self@));
        r
    }

    fn greater_than_equal(&self, other: &Self) -> (r: Vec2<bool>) {
        let r = Vec2 {
            x: other.x.le(self.x),
            y: other.y.le(self.y),
        };
        assert(r@ =~= le_seq(other@, self@));
        r
    }
}

impl<T: Scalar> EquableVector<T, Vec2<bool>> for Vec2<T> {
    fn equal(&self, other: &Self) -> (r: Vec2<bool>) {
        let r = Vec2 {
            x: self.x.same(other.x),
            y: self.y.same(other.y),
        };
        assert(r@ =~= eq_seq(self@, other@));
        r
    }

    fn not_equal(&self, other: &Self) -> (r: Vec2<bool>) {
        let r = Vec2 {
            x: !self.x.same(other.x),
            y: !self.y.same(other.y),
        };
        assert(r@ =~= ne_seq(self@, other@));
        r
    }
}

impl BooleanVector for Vec2<bool> {
    fn any(&self) -> (r: bool) {
        let r = self.x || self.y;
        proof {
            assert(self@[0] == self.x && self@[1] == self.y);
        }
        r
    }

    fn all(&self) -> (r: bool) {
        let r = self.x && self.y;
        proof {
            assert(self@[0] == self.x && self@[1] == self.y);
        }
        r
    }

    fn not(&self) -> (r: Self) {
        let r = Vec2 { x: !self.x, y: !self.y };
        assert(r@ =~= not_seq(self@));
        r
    }
}

/// A 2-component Boolean vector.
#[allow(non_camel_case_types)]
pub type bvec2 = Vec2<bool>;

impl Vec2<bool> {
    pub fn new(x: bool, y: bool) -> (v: Self)
        ensures
            v@ == seq![x, y],
    {
        Vec2 { x, y }
    }

    pub fn from_value(value: bool) -> (v: Self)
        ensures
            v@ == splat(2, value),
    {
        Vector::from_value(value)
    }

    /// The number of components.
    pub fn dim() -> (n: usize)
        ensures
            n == 2,
    {
        2
    }

    /// The size of the vector in memory, in bytes: 2 components of 1 each.
    pub fn size_of() -> (n: usize)
        ensures
            n == 2 * 1,
    {
        2
    }
}

/// A 2-component signed integer vector.
#[allow(non_camel_case_types)]
pub type ivec2 = Vec2<i32>;

impl Vec2<i32> {
    pub fn new(x: i32, y: i32) -> (v: Self)
        ensures
            v@ == seq![x, y],
    {
        Vec2 { x, y }
    }

    pub fn from_value(value: i32) -> (v: Self)
        ensures
            v@ == splat(2, value),
    {
        Vector::from_value(value)
    }

    pub fn identity() -> (v: Self)
        ensures
            v@ == splat(2, 1i32),
    {
        NumericVector::identity()
    }

    pub fn zero() -> (v: Self)
        ensures
            v@ == splat(2, 0i32),
    {
        NumericVector::zero()
    }

    pub fn unit_x() -> (v: Self)
        ensures
            v@ == seq![1i32, 0i32],
    {
        let v: Self = NumericVector2::unit_x();
        assert(v@ =~= seq![1i32, 0i32]);
        v
    }

    pub fn unit_y() -> (v: Self)
        ensures
            v@ == seq![0i32, 1i32],
    {
        let v: Self = NumericVector2::unit_y();
        assert(v@ =~= seq![0i32, 1i32]);
        v
    }

    /// The number of components.
    pub fn dim() -> (n: usize)
        ensures
            n == 2,
    {
        2
    }

    /// The size of the vector in memory, in bytes: 2 components of 4 each.
    pub fn size_of() -> (n: usize)
        ensures
            n == 2 * 4,
    {
        8
    }
}

/// A 2-component unsigned integer vector.
#[allow(non_camel_case_types)]
pub type uvec2 = Vec2<u32>;

impl Vec2<u32> {
    pub fn new(x: u32, y: u32) -> (v: Self)
        ensures
            v@ == seq![x, y],
    {
        Vec2 { x, y }
    }

    pub fn from_value(value: u32) -> (v: Self)
        ensures
            v@ == splat(2, value),
    {
        Vector::from_value(value)
    }

    pub fn identity() -> (v: Self)
        ensures
            v@ == splat(2, 1u32),
    {
        NumericVector::identity()
    }

    pub fn zero() -> (v: Self)
        ensures
            v@ == splat(2, 0u32),
    {
        NumericVector::zero()
    }

    pub fn unit_x() -> (v: Self)
        ensures
            v@ == seq![1u32, 0u32],
    {
        let v: Self = NumericVector2::unit_x();
        assert(v@ =~= seq![1u32, 0u32]);
        v
    }

    pub fn unit_y() -> (v: Self)
        ensures
            v@ == seq![0u32, 1u32],
    {
        let v: Self = NumericVector2::unit_y();
        assert(v@ =~= seq![0u32, 1u32]);
        v
    }

    /// The number of components.
    pub fn dim() -> (n: usize)
        ensures
            n == 2,
    {
        2
    }

    /// The size of the vector in memory, in bytes: 2 components of 4 each.
    pub fn size_of() -> (n: usize)
        ensures
            n == 2 * 4,
    {
        8
    }
}

} // verus!
