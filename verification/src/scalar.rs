//! The scalar kinds that vectors are built from.

use vstd::arithmetic::div_mod::{
    lemma_div_nonincreasing, lemma_div_pos_is_pos, lemma_fundamental_div_mod, lemma_mod_bound,
    lemma_mod_multiples_vanish, lemma_small_mod,
};
use vstd::pervasive::unreached;
use vstd::prelude::*;

verus! {

/// The representative of `x` in the range `lo ..= hi`, taken modulo the
/// number of values in that range.
pub open spec fn wrap(x: int, lo: int, hi: int) -> int {
    lo + (x - lo) % (hi - lo + 1)
}

/// Integer division that rounds toward zero.
pub open spec fn trunc_div(x: int, d: int) -> int
    recommends
        d != 0,
{
    if x >= 0 && d > 0 {
        x / d
    } else if x < 0 && d < 0 {
        (-x) / (-d)
    } else if x < 0 {
        -((-x) / d)
    } else {
        -(x / (-d))
    }
}

/// A wrapped value lies in the range.
pub proof fn lemma_wrap_bounds(x: int, lo: int, hi: int)
    requires
        lo <= hi,
    ensures
        lo <= wrap(x, lo, hi) <= hi,
{
    lemma_mod_bound(x - lo, hi - lo + 1);
}

/// A value of the range wraps to itself.
pub proof fn lemma_wrap_fixed(x: int, lo: int, hi: int)
    requires
        lo <= x <= hi,
    ensures
        wrap(x, lo, hi) == x,
{
    lemma_small_mod((x - lo) as nat, (hi - lo + 1) as nat);
}

/// Wrapping removes a whole number of range lengths.
pub proof fn lemma_wrap_offset(x: int, lo: int, hi: int)
    requires
        lo <= hi,
    ensures
        wrap(x, lo, hi) == x - (hi - lo + 1) * ((x - lo) / (hi - lo + 1)),
{
    lemma_fundamental_div_mod(x - lo, hi - lo + 1);
}

/// Values that differ by a whole number of range lengths wrap to the same
/// representative.
pub proof fn lemma_wrap_shift(x: int, k: int, lo: int, hi: int)
    requires
        lo <= hi,
    ensures
        wrap(x + k * (hi - lo + 1), lo, hi) == wrap(x, lo, hi),
{
    let m = hi - lo + 1;
    lemma_mod_multiples_vanish(k, x - lo, m);
    assert(x + k * m - lo == m * k + (x - lo)) by (nonlinear_arith);
}

/// The representative of `x` is the value of the range that differs from it
/// by a whole number of range lengths.
pub proof fn lemma_wrap_is(x: int, y: int, k: int, lo: int, hi: int)
    requires
        lo <= y <= hi,
        x == y + k * (hi - lo + 1),
    ensures
        wrap(x, lo, hi) == y,
{
    lemma_wrap_shift(y, k, lo, hi);
    lemma_wrap_fixed(y, lo, hi);
}

/// In a range that holds zero, the representative is the remainder by the
/// range length, moved down by one length where it lies above the range.
pub proof fn lemma_wrap_remainder(x: int, lo: int, hi: int)
    requires
        lo <= 0 <= hi,
    ensures
        wrap(x, lo, hi) == if x % (hi - lo + 1) > hi {
            x % (hi - lo + 1) - (hi - lo + 1)
        } else {
            x % (hi - lo + 1)
        },
{
    let m = hi - lo + 1;
    let q = x / m;
    let r = x % m;
    lemma_mod_bound(x, m);
    lemma_fundamental_div_mod(x, m);
    if r > hi {
        assert(x == r - m + (q + 1) * m) by (nonlinear_arith)
            requires
                x == m * q + r,
        ;
        lemma_wrap_is(x, r - m, q + 1, lo, hi);
    } else {
        assert(x == r + q * m) by (nonlinear_arith)
            requires
                x == m * q + r,
        ;
        lemma_wrap_is(x, r, q, lo, hi);
    }
}

/// Wrapping the operands of a sum first does not change the wrapped sum.
pub proof fn lemma_wrap_add(x: int, y: int, lo: int, hi: int)
    requires
        lo <= hi,
    ensures
        wrap(wrap(x, lo, hi) + wrap(y, lo, hi), lo, hi) == wrap(x + y, lo, hi),
{
    let m = hi - lo + 1;
    let p = (x - lo) / m;
    let q = (y - lo) / m;
    lemma_wrap_offset(x, lo, hi);
    lemma_wrap_offset(y, lo, hi);
    lemma_wrap_shift(x + y, -(p + q), lo, hi);
    assert((x - m * p) + (y - m * q) == x + y + (-(p + q)) * m) by (nonlinear_arith);
}

/// Wrapping the operands of a difference first does not change the wrapped
/// difference.
pub proof fn lemma_wrap_sub(x: int, y: int, lo: int, hi: int)
    requires
        lo <= hi,
    ensures
        wrap(wrap(x, lo, hi) - wrap(y, lo, hi), lo, hi) == wrap(x - y, lo, hi),
{
    let m = hi - lo + 1;
    let p = (x - lo) / m;
    let q = (y - lo) / m;
    lemma_wrap_offset(x, lo, hi);
    lemma_wrap_offset(y, lo, hi);
    lemma_wrap_shift(x - y, q - p, lo, hi);
    assert((x - m * p) - (y - m * q) == x - y + (q - p) * m) by (nonlinear_arith);
}

/// Wrapping before a negation does not change the wrapped negative.
pub proof fn lemma_wrap_neg(x: int, lo: int, hi: int)
    requires
        lo <= hi,
    ensures
        wrap(-wrap(x, lo, hi), lo, hi) == wrap(-x, lo, hi),
{
    let m = hi - lo + 1;
    let p = (x - lo) / m;
    lemma_wrap_offset(x, lo, hi);
    lemma_wrap_shift(-x, p, lo, hi);
    assert(-(x - m * p) == -x + p * m) by (nonlinear_arith);
}

/// The quotient of a truncating division is no larger in magnitude than the
/// dividend.
pub proof fn lemma_trunc_div_bound(x: int, d: int)
    requires
        d != 0,
    ensures
        x >= 0 ==> -x <= trunc_div(x, d) <= x,
        x < 0 ==> x <= trunc_div(x, d) <= -x,
        x >= 0 && d > 0 ==> 0 <= trunc_div(x, d),
{
    let a = if x >= 0 { x } else { -x };
    let b = if d > 0 { d } else { -d };
    lemma_div_pos_is_pos(a, b);
    lemma_div_nonincreasing(a, b);
}

/// A component type: copied freely and compared exactly.
pub trait Scalar: Copy + Sized {
    /// Exact equality of two scalars.
    fn same(self, other: Self) -> (r: bool)
        ensures
            r == (self == other),
    ;
}

/// A scalar with wrapping integer arithmetic. Each value stands for one
/// integer of the range `min_val() ..= max_val()`, and every operation
/// returns the representative of the exact result in that range.
pub trait Number: Scalar {
    /// The integer that a scalar stands for.
    spec fn val(self) -> int;

    /// The scalar that stands for an integer of the range.
    spec fn of_int(x: int) -> Self;

    /// The least representable integer.
    spec fn min_val() -> int;

    /// The greatest representable integer.
    spec fn max_val() -> int;

    /// Zero and one are representable.
    proof fn lemma_bounds()
        ensures
            Self::min_val() <= 0,
            1 <= Self::max_val(),
    ;

    /// Every scalar stands for an integer of the range.
    proof fn lemma_val_in_range(self)
        ensures
            Self::min_val() <= self.val() <= Self::max_val(),
    ;

    /// A scalar is determined by the integer it stands for.
    proof fn lemma_of_int_val(self)
        ensures
            Self::of_int(self.val()) == self,
    ;

    /// Every integer of the range has a scalar.
    proof fn lemma_val_of_int(x: int)
        requires
            Self::min_val() <= x <= Self::max_val(),
        ensures
            Self::of_int(x).val() == x,
    ;

    /// The scalar zero.
    fn zero() -> (r: Self)
        ensures
            r == Self::of_int(0),
    ;

    /// The scalar one.
    fn one() -> (r: Self)
        ensures
            r == Self::of_int(1),
    ;

    /// The wrapped sum.
    fn add(self, rhs: Self) -> (r: Self)
        ensures
            r == Self::of_int(wrap(self.val() + rhs.val(), Self::min_val(), Self::max_val())),
    ;

    /// The wrapped difference.
    fn sub(self, rhs: Self) -> (r: Self)
        ensures
            r == Self::of_int(wrap(self.val() - rhs.val(), Self::min_val(), Self::max_val())),
    ;

    /// The wrapped product.
    fn mul(self, rhs: Self) -> (r: Self)
        ensures
            r == Self::of_int(wrap(self.val() * rhs.val(), Self::min_val(), Self::max_val())),
    ;

    /// The wrapped quotient, rounded toward zero. The divisor must not be
    /// zero. Only the least value of a signed kind divided by minus one
    /// leaves the range, and wraps to the least value.
    fn div(self, rhs: Self) -> (r: Self)
        requires
            rhs.val() != 0,
        ensures
            r == Self::of_int(
                wrap(trunc_div(self.val(), rhs.val()), Self::min_val(), Self::max_val()),
            ),
    ;

    /// Whether `self` is less than `rhs`.
    fn lt(self, rhs: Self) -> (r: bool)
        ensures
            r == (self.val() < rhs.val()),
    ;

    /// Whether `self` is less than or equal to `rhs`.
    fn le(self, rhs: Self) -> (r: bool)
        ensures
            r == (self.val() <= rhs.val()),
    ;
}

/// A number whose range holds negative integers, and so has a negation.
pub trait SignedNumber: Number {
    /// Minus one is representable.
    proof fn lemma_signed()
        ensures
            Self::min_val() <= -1,
    ;

    /// The wrapped negative. Only the least value leaves the range, and
    /// wraps to itself.
    fn neg(self) -> (r: Self)
        ensures
            r == Self::of_int(wrap(-self.val(), Self::min_val(), Self::max_val())),
    ;
}

/// The scalar that an integer wraps to.
pub open spec fn wrapped<T: Number>(x: int) -> T {
    T::of_int(wrap(x, T::min_val(), T::max_val()))
}

/// The wrapped sum of two scalars.
pub open spec fn sum_of<T: Number>(a: T, b: T) -> T {
    wrapped::<T>(a.val() + b.val())
}

/// The wrapped difference of two scalars.
pub open spec fn diff_of<T: Number>(a: T, b: T) -> T {
    wrapped::<T>(a.val() - b.val())
}

/// The wrapped product of two scalars.
pub open spec fn prod_of<T: Number>(a: T, b: T) -> T {
    wrapped::<T>(a.val() * b.val())
}

/// The wrapped quotient of two scalars, rounded toward zero.
pub open spec fn quot_of<T: Number>(a: T, b: T) -> T
    recommends
        b.val() != 0,
{
    wrapped::<T>(trunc_div(a.val(), b.val()))
}

/// The wrapped negative of a scalar.
pub open spec fn neg_of<T: Number>(a: T) -> T {
    wrapped::<T>(-a.val())
}

/// The scalar that an integer wraps to stands for the wrapped integer.
pub proof fn lemma_wrapped_val<T: Number>(x: int)
    ensures
        wrapped::<T>(x).val() == wrap(x, T::min_val(), T::max_val()),
{
    T::lemma_bounds();
    lemma_wrap_bounds(x, T::min_val(), T::max_val());
    T::lemma_val_of_int(wrap(x, T::min_val(), T::max_val()));
}

/// The sum of two wrapped integers is the wrapping of their sum.
pub proof fn lemma_sum_of_wrapped<T: Number>(x: int, y: int)
    ensures
        sum_of(wrapped::<T>(x), wrapped::<T>(y)) == wrapped::<T>(x + y),
{
    T::lemma_bounds();
    lemma_wrapped_val::<T>(x);
    lemma_wrapped_val::<T>(y);
    lemma_wrap_add(x, y, T::min_val(), T::max_val());
}

/// The difference of two wrapped integers is the wrapping of their
/// difference.
pub proof fn lemma_diff_of_wrapped<T: Number>(x: int, y: int)
    ensures
        diff_of(wrapped::<T>(x), wrapped::<T>(y)) == wrapped::<T>(x - y),
{
    T::lemma_bounds();
    lemma_wrapped_val::<T>(x);
    lemma_wrapped_val::<T>(y);
    lemma_wrap_sub(x, y, T::min_val(), T::max_val());
}

/// The negative of a wrapped integer is the wrapping of its negative.
pub proof fn lemma_neg_of_wrapped<T: Number>(x: int)
    ensures
        neg_of(wrapped::<T>(x)) == wrapped::<T>(-x),
{
    T::lemma_bounds();
    lemma_wrapped_val::<T>(x);
    lemma_wrap_neg(x, T::min_val(), T::max_val());
}

impl Scalar for bool {
    fn same(self, other: bool) -> (r: bool) {
        self == other
    }
}

impl Scalar for i32 {
    fn same(self, other: i32) -> (r: bool) {
        self == other
    }
}

impl Scalar for u32 {
    fn same(self, other: u32) -> (r: bool) {
        self == other
    }
}

impl Number for u32 {
    open spec fn val(self) -> int {
        self as int
    }

    open spec fn of_int(x: int) -> u32 {
        x as u32
    }

    open spec fn min_val() -> int {
        0
    }

    open spec fn max_val() -> int {
        0xffff_ffff
    }

    proof fn lemma_bounds() {
    }

    proof fn lemma_val_in_range(self) {
    }

    proof fn lemma_of_int_val(self) {
    }

    proof fn lemma_val_of_int(x: int) {
    }

    fn zero() -> (r: u32) {
        0
    }

    fn one() -> (r: u32) {
        1
    }

    fn add(self, rhs: u32) -> (r: u32) {
        proof {
            let s = self as int + rhs as int;
            if s > 0xffff_ffff {
                lemma_wrap_is(s, s - 0x1_0000_0000, 1, 0, 0xffff_ffff);
            } else {
                lemma_wrap_fixed(s, 0, 0xffff_ffff);
            }
        }
        self.wrapping_add(rhs)
    }

    fn sub(self, rhs: u32) -> (r: u32) {
        proof {
            let s = self as int - rhs as int;
            if s < 0 {
                lemma_wrap_is(s, s + 0x1_0000_0000, -1, 0, 0xffff_ffff);
            } else {
                lemma_wrap_fixed(s, 0, 0xffff_ffff);
            }
        }
        self.wrapping_sub(rhs)
    }

    fn mul(self, rhs: u32) -> (r: u32) {
        proof {
            let p = self as int * rhs as int;
            assert(0 <= p && p == self as nat * rhs as nat) by (nonlinear_arith)
                requires
                    p == self as int * rhs as int,
                    self >= 0,
                    rhs >= 0,
            ;
            lemma_wrap_remainder(p, 0, 0xffff_ffff);
        }
        self.wrapping_mul(rhs)
    }

    fn div(self, rhs: u32) -> (r: u32) {
        proof {
            lemma_trunc_div_bound(self as int, rhs as int);
            lemma_wrap_fixed(trunc_div(self as int, rhs as int), 0, 0xffff_ffff);
        }
        self / rhs
    }

    fn lt(self, rhs: u32) -> (r: bool) {
        self < rhs
    }

    fn le(self, rhs: u32) -> (r: bool) {
        self <= rhs
    }
}

impl Number for i32 {
    open spec fn val(self) -> int {
        self as int
    }

    open spec fn of_int(x: int) -> i32 {
        x as i32
    }

    open spec fn min_val() -> int {
        -0x8000_0000
    }

    open spec fn max_val() -> int {
        0x7fff_ffff
    }

    proof fn lemma_bounds() {
    }

    proof fn lemma_val_in_range(self) {
    }

    proof fn lemma_of_int_val(self) {
    }

    proof fn lemma_val_of_int(x: int) {
    }

    fn zero() -> (r: i32) {
        0
    }

    fn one() -> (r: i32) {
        1
    }

    fn add(self, rhs: i32) -> (r: i32) {
        proof {
            let s = self as int + rhs as int;
            if s > 0x7fff_ffff {
                lemma_wrap_is(s, s - 0x1_0000_0000, 1, -0x8000_0000, 0x7fff_ffff);
            } else if s < -0x8000_0000 {
                lemma_wrap_is(s, s + 0x1_0000_0000, -1, -0x8000_0000, 0x7fff_ffff);
            } else {
                lemma_wrap_fixed(s, -0x8000_0000, 0x7fff_ffff);
            }
        }
        self.wrapping_add(rhs)
    }

    fn sub(self, rhs: i32) -> (r: i32) {
        proof {
            let s = self as int - rhs as int;
            if s > 0x7fff_ffff {
                lemma_wrap_is(s, s - 0x1_0000_0000, 1, -0x8000_0000, 0x7fff_ffff);
            } else if s < -0x8000_0000 {
                lemma_wrap_is(s, s + 0x1_0000_0000, -1, -0x8000_0000, 0x7fff_ffff);
            } else {
                lemma_wrap_fixed(s, -0x8000_0000, 0x7fff_ffff);
            }
        }
        self.wrapping_sub(rhs)
    }

    fn mul(self, rhs: i32) -> (r: i32) {
        proof {
            let p = self as int * rhs as int;
            lemma_wrap_remainder(p, -0x8000_0000, 0x7fff_ffff);
        }
        self.wrapping_mul(rhs)
    }

    fn div(self, rhs: i32) -> (r: i32) {
        proof {
            let q = trunc_div(self as int, rhs as int);
            lemma_trunc_div_bound(self as int, rhs as int);
            if q > 0x7fff_ffff {
                lemma_wrap_is(q, q - 0x1_0000_0000, 1, -0x8000_0000, 0x7fff_ffff);
            } else {
                lemma_wrap_fixed(q, -0x8000_0000, 0x7fff_ffff);
            }
        }
        match self.checked_div(rhs) {
            Some(q) => q,
            None => if rhs == 0 {
                unreached()
            } else {
                i32::MIN
            },
        }
    }

    fn lt(self, rhs: i32) -> (r: bool) {
        self < rhs
    }

    fn le(self, rhs: i32) -> (r: bool) {
        self <= rhs
    }
}

impl SignedNumber for i32 {
    proof fn lemma_signed() {
    }

    fn neg(self) -> (r: i32) {
        proof {
            let s = -(self as int);
            if s > 0x7fff_ffff {
                lemma_wrap_is(s, s - 0x1_0000_0000, 1, -0x8000_0000, 0x7fff_ffff);
            } else {
                lemma_wrap_fixed(s, -0x8000_0000, 0x7fff_ffff);
            }
        }
        0i32.wrapping_sub(self)
    }
}

} // verus!
