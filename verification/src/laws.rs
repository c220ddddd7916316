//! Laws that relate the operations of a vector to one another.

use crate::scalar::{lemma_neg_of_wrapped, Number, Scalar, SignedNumber};
use crate::vec::{
    cross_seq, dot_int, dot_of, is_zero_seq, neg_seq, splat, sum_seq, NegVector, NumericVector,
    NumericVector3, Vector,
};
use vstd::prelude::*;

verus! {

/// The zero vector is zero: a vector whose components are all the scalar
/// zero, as `zero()` returns it, passes the test that `is_zero()` makes.
pub proof fn lemma_zero_is_zero<T: Number, V: NumericVector<T>>(v: V)
    requires
        v@ == splat(V::dim(), T::of_int(0)),
    ensures
        is_zero_seq(v@),
{
}

/// The identity vector is not zero: a vector of at least one component whose
/// components are all the scalar one, as `identity()` returns it, fails the
/// test that `is_zero()` makes.
pub proof fn lemma_identity_is_not_zero<T: Number, V: NumericVector<T>>(v: V)
    requires
        v@ == splat(V::dim(), T::of_int(1)),
        V::dim() >= 1,
    ensures
        !is_zero_seq(v@),
{
    T::lemma_bounds();
    T::lemma_val_of_int(0);
    T::lemma_val_of_int(1);
    assert(v@[0] == T::of_int(1));
}

/// Component-wise addition is commutative.
pub proof fn lemma_add_v_commutes<T: Number, V: NumericVector<T>>(a: V, b: V)
    ensures
        sum_seq(a@, b@) == sum_seq(b@, a@),
{
    a.lemma_len();
    b.lemma_len();
    assert(sum_seq(a@, b@) =~= sum_seq(b@, a@));
}

/// The exact sum of pairwise products does not depend on the order of the
/// two sequences.
pub proof fn lemma_dot_int_commutes<T: Number>(a: Seq<T>, b: Seq<T>)
    requires
        a.len() == b.len(),
    ensures
        dot_int(a, b) == dot_int(b, a),
    decreases a.len(),
{
    if a.len() > 0 {
        lemma_dot_int_commutes(a.drop_last(), b.drop_last());
        assert(a.last().val() * b.last().val() == b.last().val() * a.last().val())
            by (nonlinear_arith);
    }
}

/// The dot product is commutative.
pub proof fn lemma_dot_commutes<T: Number, V: NumericVector<T>>(a: V, b: V)
    ensures
        dot_of(a@, b@) == dot_of(b@, a@),
{
    a.lemma_len();
    b.lemma_len();
    lemma_dot_int_commutes(a@, b@);
}

/// The cross product is anticommutative: `a.cross(b)` is the negative of
/// `b.cross(a)`.
pub proof fn lemma_cross_anticommutes<T: SignedNumber, V: NumericVector3<T> + NegVector<T>>(
    a: V,
    b: V,
)
    ensures
        cross_seq(a@, b@) == neg_seq(cross_seq(b@, a@)),
{
    let (ax, ay, az) = (a@[0].val(), a@[1].val(), a@[2].val());
    let (bx, by, bz) = (b@[0].val(), b@[1].val(), b@[2].val());
    lemma_neg_of_wrapped::<T>(by * az - bz * ay);
    lemma_neg_of_wrapped::<T>(bz * ax - bx * az);
    lemma_neg_of_wrapped::<T>(bx * ay - by * ax);
    assert(-(by * az - bz * ay) == ay * bz - az * by) by (nonlinear_arith);
    assert(-(bz * ax - bx * az) == az * bx - ax * bz) by (nonlinear_arith);
    assert(-(bx * ay - by * ax) == ax * by - ay * bx) by (nonlinear_arith);
    assert(cross_seq(a@, b@) =~= neg_seq(cross_seq(b@, a@)));
}

/// In-place and value-returning forms agree: the vector that an in-place
/// operation leaves and the vector that the value-returning operation of the
/// same name returns have the same components, and so are the same vector.
pub proof fn lemma_in_place_agrees<T: Scalar, V: Vector<T>>(
    in_place: V,
    by_value: V,
    components: Seq<T>,
)
    requires
        in_place@ == components,
        by_value@ == components,
    ensures
        in_place == by_value,
{
    in_place.lemma_extensional(&by_value);
}

} // verus!
