//! The capabilities of a vector, one trait each, and the model that their
//! contracts are stated over: the sequence of a vector's components.

use crate::scalar::{
    diff_of, neg_of, prod_of, quot_of, sum_of, wrapped, Number, Scalar, SignedNumber,
};
use vstd::prelude::*;

pub use crate::vec2::{bvec2, ivec2, uvec2, Vec2};
pub use crate::vec3::{bvec3, ivec3, uvec3, Vec3};
pub use crate::vec4::{bvec4, ivec4, uvec4, Vec4};

verus! {

/// `n` copies of one value.
pub open spec fn splat<T>(n: nat, value: T) -> Seq<T> {
    Seq::new(n, |i: int| value)
}

/// The sequence that is `one` at position `axis` and `zero` elsewhere.
pub open spec fn unit_seq<T: Number>(n: nat, axis: int) -> Seq<T> {
    Seq::new(
        n,
        |i: int|
            if i == axis {
                T::of_int(1)
            } else {
                T::of_int(0)
            },
    )
}

/// Component-wise wrapped sum.
pub open spec fn sum_seq<T: Number>(a: Seq<T>, b: Seq<T>) -> Seq<T> {
    Seq::new(a.len(), |i: int| sum_of(a[i], b[i]))
}

/// Component-wise wrapped difference.
pub open spec fn diff_seq<T: Number>(a: Seq<T>, b: Seq<T>) -> Seq<T> {
    Seq::new(a.len(), |i: int| diff_of(a[i], b[i]))
}

/// Component-wise wrapped product.
pub open spec fn prod_seq<T: Number>(a: Seq<T>, b: Seq<T>) -> Seq<T> {
    Seq::new(a.len(), |i: int| prod_of(a[i], b[i]))
}

/// Component-wise wrapped quotient, rounded toward zero.
pub open spec fn quot_seq<T: Number>(a: Seq<T>, b: Seq<T>) -> Seq<T> {
    Seq::new(a.len(), |i: int| quot_of(a[i], b[i]))
}

/// Every component multiplied by one scalar.
pub open spec fn scaled_seq<T: Number>(a: Seq<T>, value: T) -> Seq<T> {
    Seq::new(a.len(), |i: int| prod_of(a[i], value))
}

/// Every component divided by one scalar.
pub open spec fn divided_seq<T: Number>(a: Seq<T>, value: T) -> Seq<T> {
    Seq::new(a.len(), |i: int| quot_of(a[i], value))
}

/// Component-wise wrapped negative.
pub open spec fn neg_seq<T: Number>(a: Seq<T>) -> Seq<T> {
    Seq::new(a.len(), |i: int| neg_of(a[i]))
}

/// Every component is the scalar zero.
pub open spec fn is_zero_seq<T: Number>(a: Seq<T>) -> bool {
    forall|i: int| 0 <= i < a.len() ==> #[trigger] a[i] == T::of_int(0)
}

/// No component stands for zero.
pub open spec fn nonzero_seq<T: Number>(a: Seq<T>) -> bool {
    forall|i: int| 0 <= i < a.len() ==> (#[trigger] a[i]).val() != 0
}

/// The exact sum of the pairwise products of the integers that the
/// components stand for.
pub open spec fn dot_int<T: Number>(a: Seq<T>, b: Seq<T>) -> int
    decreases a.len(),
{
    if a.len() == 0 {
        0
    } else {
        dot_int(a.drop_last(), b.drop_last()) + a.last().val() * b.last().val()
    }
}

/// The dot product: the exact sum of products, wrapped once.
pub open spec fn dot_of<T: Number>(a: Seq<T>, b: Seq<T>) -> T {
    wrapped::<T>(dot_int(a, b))
}

/// The perp-dot product of two pairs: `x1 * y2 - y1 * x2`, wrapped once.
pub open spec fn perp_dot_of<T: Number>(a: Seq<T>, b: Seq<T>) -> T {
    wrapped::<T>(a[0].val() * b[1].val() - a[1].val() * b[0].val())
}

/// The right-handed cross product of two triples, each component wrapped
/// once.
pub open spec fn cross_seq<T: Number>(a: Seq<T>, b: Seq<T>) -> Seq<T> {
    seq![
        wrapped::<T>(a[1].val() * b[2].val() - a[2].val() * b[1].val()),
        wrapped::<T>(a[2].val() * b[0].val() - a[0].val() * b[2].val()),
        wrapped::<T>(a[0].val() * b[1].val() - a[1].val() * b[0].val()),
    ]
}

/// Component-wise `<`.
pub open spec fn lt_seq<T: Number>(a: Seq<T>, b: Seq<T>) -> Seq<bool> {
    Seq::new(a.len(), |i: int| a[i].val() < b[i].val())
}

/// Component-wise `<=`.
pub open spec fn le_seq<T: Number>(a: Seq<T>, b: Seq<T>) -> Seq<bool> {
    Seq::new(a.len(), |i: int| a[i].val() <= b[i].val())
}

/// Component-wise `==`.
pub open spec fn eq_seq<T>(a: Seq<T>, b: Seq<T>) -> Seq<bool> {
    Seq::new(a.len(), |i: int| a[i] == b[i])
}

/// Component-wise `!=`.
pub open spec fn ne_seq<T>(a: Seq<T>, b: Seq<T>) -> Seq<bool> {
    Seq::new(a.len(), |i: int| a[i] != b[i])
}

/// Component-wise logical complement.
pub open spec fn not_seq(a: Seq<bool>) -> Seq<bool> {
    Seq::new(a.len(), |i: int| !a[i])
}

/// Some component is `true`.
pub open spec fn any_of(a: Seq<bool>) -> bool {
    exists|i: int| 0 <= i < a.len() && a[i]
}

/// Every component is `true`.
pub open spec fn all_of(a: Seq<bool>) -> bool {
    forall|i: int| 0 <= i < a.len() ==> a[i]
}

/// The base vector capability: a fixed number of components of one scalar
/// kind, in the order x, y, z, w.
pub trait Vector<T: Scalar>: Sized {
    /// The number of components.
    spec fn dim() -> nat;

    /// The components, in order.
    spec fn view(&self) -> Seq<T>;

    /// A vector has exactly `dim()` components.
    proof fn lemma_len(&self)
        ensures
            self@.len() == Self::dim(),
    ;

    /// A vector is determined by its components.
    proof fn lemma_extensional(&self, other: &Self)
        requires
            self@ == other@,
        ensures
            *self == *other,
    ;

    /// The vector with every component equal to `value`.
    fn from_value(value: T) -> (v: Self)
        ensures
            v@ == splat(Self::dim(), value),
            forall|i: int| 0 <= i < Self::dim() ==> v@[i] == value,
    ;

    /// The component at position `i`, which must be below `dim()`.
    fn index(&self, i: usize) -> (r: T)
        requires
            i < Self::dim(),
        ensures
            r == self@[i as int],
    ;

    /// The component at position `i`, or `None` for a position that the
    /// vector does not have.
    fn get(&self, i: usize) -> (r: Option<T>)
        ensures
            r == if i < Self::dim() {
                Some(self@[i as int])
            } else {
                None
            },
    ;

    /// The components as a contiguous sequence of length `dim()`.
    fn to_vec(&self) -> (r: Vec<T>)
        ensures
            r@ == self@,
    ;
}

/// In-place access to the components.
pub trait MutableVector<T: Scalar>: Vector<T> {
    /// A unique reference to the component at position `i`, which must be
    /// below `dim()`; a write through it changes that component only.
    fn index_mut(&mut self, i: usize) -> (r: &mut T)
        requires
            i < Self::dim(),
        ensures
            *r == old(self)@[i as int],
            final(self)@ == old(self)@.update(i as int, *final(r)),
    ;

    /// Exchanges the components at positions `a` and `b`.
    fn swap(&mut self, a: usize, b: usize)
        requires
            a < Self::dim(),
            b < Self::dim(),
        ensures
            final(self)@ == old(self)@.update(a as int, old(self)@[b as int]).update(
                b as int,
                old(self)@[a as int],
            ),
    ;
}

/// A vector of two components.
pub trait Vector2<T: Scalar>: Vector<T> {
    /// The vector with the components `x` and `y`.
    fn new(x: T, y: T) -> (v: Self)
        ensures
            v@ == seq![x, y],
    ;
}

/// A vector of three components.
pub trait Vector3<T: Scalar>: Vector<T> {
    /// The vector with the components `x`, `y` and `z`.
    fn new(x: T, y: T, z: T) -> (v: Self)
        ensures
            v@ == seq![x, y, z],
    ;
}

/// A vector of four components.
pub trait Vector4<T: Scalar>: Vector<T> {
    /// The vector with the components `x`, `y`, `z` and `w`.
    fn new(x: T, y: T, z: T, w: T) -> (v: Self)
        ensures
            v@ == seq![x, y, z, w],
    ;
}

/// A vector with numeric components. All arithmetic wraps.
pub trait NumericVector<T: Number>: Vector<T> {
    /// The vector with each component set to one.
    fn identity() -> (v: Self)
        ensures
            v@ == splat(Self::dim(), T::of_int(1)),
    ;

    /// The vector with each component set to zero.
    fn zero() -> (v: Self)
        ensures
            v@ == splat(Self::dim(), T::of_int(0)),
    ;

    /// Whether every component is zero.
    fn is_zero(&self) -> (r: bool)
        ensures
            r == is_zero_seq(self@),
    ;

    /// The product of the vector and a scalar.
    fn mul_t(&self, value: T) -> (r: Self)
        ensures
            r@ == scaled_seq(self@, value),
    ;

    /// The quotient of the vector and a scalar, which must not be zero.
    fn div_t(&self, value: T) -> (r: Self)
        requires
            value.val() != 0,
        ensures
            r@ == divided_seq(self@, value),
    ;

    /// Component-wise sum.
    fn add_v(&self, other: &Self) -> (r: Self)
        ensures
            r@ == sum_seq(self@, other@),
    ;

    /// Component-wise difference.
    fn sub_v(&self, other: &Self) -> (r: Self)
        ensures
            r@ == diff_seq(self@, other@),
    ;

    /// Component-wise product.
    fn mul_v(&self, other: &Self) -> (r: Self)
        ensures
            r@ == prod_seq(self@, other@),
    ;

    /// Component-wise quotient; no component of `other` may be zero.
    fn div_v(&self, other: &Self) -> (r: Self)
        requires
            nonzero_seq(other@),
        ensures
            r@ == quot_seq(self@, other@),
    ;

    /// The dot product of the vector and `other`.
    fn dot(&self, other: &Self) -> (r: T)
        ensures
            r == dot_of(self@, other@),
    ;
}

/// Negation, for vectors of signed numbers only.
pub trait NegVector<T: SignedNumber>: NumericVector<T> {
    /// The component-wise negative.
    fn neg(&self) -> (r: Self)
        ensures
            r@ == neg_seq(self@),
    ;

    /// Negates the vector in place.
    fn neg_self(&mut self)
        ensures
            final(self)@ == neg_seq(old(self)@),
    ;
}

/// A vector of two numeric components.
pub trait NumericVector2<T: Number>: NumericVector<T> {
    /// The unit vector along the first axis.
    fn unit_x() -> (v: Self)
        ensures
            v@ == unit_seq::<T>(2, 0),
    ;

    /// The unit vector along the second axis.
    fn unit_y() -> (v: Self)
        ensures
            v@ == unit_seq::<T>(2, 1),
    ;

    /// The perp-dot product of the vector and `other`.
    fn perp_dot(&self, other: &Self) -> (r: T)
        ensures
            r == perp_dot_of(self@, other@),
    ;
}

/// A vector of three numeric components.
pub trait NumericVector3<T: Number>: NumericVector<T> {
    /// The unit vector along the first axis.
    fn unit_x() -> (v: Self)
        ensures
            v@ == unit_seq::<T>(3, 0),
    ;

    /// The unit vector along the second axis.
    fn unit_y() -> (v: Self)
        ensures
            v@ == unit_seq::<T>(3, 1),
    ;

    /// The unit vector along the third axis.
    fn unit_z() -> (v: Self)
        ensures
            v@ == unit_seq::<T>(3, 2),
    ;

    /// The cross product of the vector and `other`.
    fn cross(&self, other: &Self) -> (r: Self)
        ensures
            r@ == cross_seq(self@, other@),
    ;
}

/// A vector of four numeric components.
pub trait NumericVector4<T: Number>: NumericVector<T> {
    /// The unit vector along the first axis.
    fn unit_x() -> (v: Self)
        ensures
            v@ == unit_seq::<T>(4, 0),
    ;

    /// The unit vector along the second axis.
    fn unit_y() -> (v: Self)
        ensures
            v@ == unit_seq::<T>(4, 1),
    ;

    /// The unit vector along the third axis.
    fn unit_z() -> (v: Self)
        ensures
            v@ == unit_seq::<T>(4, 2),
    ;

    /// The unit vector along the fourth axis.
    fn unit_w() -> (v: Self)
        ensures
            v@ == unit_seq::<T>(4, 3),
    ;
}

/// In-place arithmetic. Each method leaves in `self` what the value-returning
/// method of the same name returns.
pub trait MutableNumericVector<T: Number>: MutableVector<T> + NumericVector<T> {
    /// Multiplies the vector by a scalar.
    fn mul_self_t(&mut self, value: T)
        ensures
            final(self)@ == scaled_seq(old(self)@, value),
    ;

    /// Divides the vector by a scalar, which must not be zero.
    fn div_self_t(&mut self, value: T)
        requires
            value.val() != 0,
        ensures
            final(self)@ == divided_seq(old(self)@, value),
    ;

    /// Sets the vector to the component-wise sum.
    fn add_self_v(&mut self, other: &Self)
        ensures
            final(self)@ == sum_seq(old(self)@, other@),
    ;

    /// Sets the vector to the component-wise difference.
    fn sub_self_v(&mut self, other: &Self)
        ensures
            final(self)@ == diff_seq(old(self)@, other@),
    ;

    /// Sets the vector to the component-wise product.
    fn mul_self_v(&mut self, other: &Self)
        ensures
            final(self)@ == prod_seq(old(self)@, other@),
    ;

    /// Sets the vector to the component-wise quotient; no component of
    /// `other` may be zero.
    fn div_self_v(&mut self, other: &Self)
        requires
            nonzero_seq(other@),
        ensures
            final(self)@ == quot_seq(old(self)@, other@),
    ;
}

/// In-place arithmetic on three numeric components.
pub trait MutableNumericVector3<T: Number>: MutableNumericVector<T> {
    /// Sets the vector to the cross product of itself and `other`.
    fn cross_self(&mut self, other: &Self)
        ensures
            final(self)@ == cross_seq(old(self)@, other@),
    ;
}

/// The lift of a vector into the next higher dimension.
pub trait ToHomogeneous<H> {
    /// The vector that `to_homogeneous` returns.
    spec fn lifted(&self) -> H;

    /// The homogeneous coordinate of the vector.
    fn to_homogeneous(&self) -> (h: H)
        ensures
            h == self.lifted(),
    ;
}

/// Component-wise ordering, with a boolean vector as the result.
pub trait OrdinalVector<T: Number, BoolVec: Vector<bool>>: Vector<T> {
    /// Component-wise `self < other`.
    fn less_than(&self, other: &Self) -> (r: BoolVec)
        ensures
            r@ == lt_seq(self@, other@),
    ;

    /// Component-wise `self <= other`.
    fn less_than_equal(&self, other: &Self) -> (r: BoolVec)
        ensures
            r@ == le_seq(self@, other@),
    ;

    /// Component-wise `self > other`.
    fn greater_than(&self, other: &Self) -> (r: BoolVec)
        ensures
            r@ == lt_seq(other@, self@),
    ;

    /// Component-wise `self >= other`.
    fn greater_than_equal(&self, other: &Self) -> (r: BoolVec)
        ensures
            r@ == le_seq(other@, self@),
    ;
}

/// Component-wise equality, with a boolean vector as the result.
pub trait EquableVector<T: Scalar, BoolVec: Vector<bool>>: Vector<T> {
    /// Component-wise `self == other`.
    fn equal(&self, other: &Self) -> (r: BoolVec)
        ensures
            r@ == eq_seq(self@, other@),
    ;

    /// Component-wise `self != other`.
    fn not_equal(&self, other: &Self) -> (r: BoolVec)
        ensures
            r@ == ne_seq(self@, other@),
    ;
}

/// A vector with boolean components.
pub trait BooleanVector: Vector<bool> {
    /// `true` if any component is `true`.
    fn any(&self) -> (r: bool)
        ensures
            r == any_of(self@),
    ;

    /// `true` only if all components are `true`.
    fn all(&self) -> (r: bool)
        ensures
            r == all_of(self@),
    ;

    /// The component-wise logical complement.
    fn not(&self) -> (r: Self)
        ensures
            r@ == not_seq(self@),
    ;
}

} // verus!
