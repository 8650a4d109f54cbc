//! Scalar types that are integers.
//!
//! The primitive signed integers are scalars whose arithmetic is exact and is
//! that of the integers as long as it stays in range. `Integral` says so of a
//! type, and the lemmas of this module carry what is known of the integers over
//! to the formulas of such a type.

use crate::scalar::{
    checked_add,
    checked_div,
    checked_neg,
    checked_sub,
    cofactor_even,
    cofactor_odd,
    dot4,
    exact,
    prod2,
    small,
    Scalar,
};
use vstd::arithmetic::mul::lemma_mul_basics;
use vstd::prelude::*;
use vstd::std_specs::cmp::PartialEqSpec;
use vstd::std_specs::ops::{AddSpec, DivSpec, MulSpec, NegSpec, SubSpec};

verus! {

/// The quotient of two integers, rounded towards zero.
pub open spec fn trunc_div(a: int, b: int) -> int {
    if a >= 0 {
        a / b
    } else {
        -((-a) / b)
    }
}

/// A scalar type whose values are the integers from `lo()` to `hi()`, each once,
/// and whose arithmetic is that of the integers wherever the result is in that
/// range. What is proved of the integers then holds of the type.
pub trait Integral: Scalar {
    /// The integer that a value stands for.
    spec fn val(self) -> int;

    /// The value that stands for the integer `v`.
    spec fn of(v: int) -> Self;

    /// The least integer that the type holds.
    spec fn lo() -> int;

    /// The greatest integer that the type holds.
    spec fn hi() -> int;

    /// The type is what the trait says: its values and the integers of its range
    /// stand for each other, an operation is defined exactly where its result is
    /// in range, and the result is then that of the integers.
    proof fn lemma_integral()
        ensures
            exact::<Self>(),
            Self::lo() <= -128,
            127 <= Self::hi(),
            forall|a: Self|
                Self::lo() <= #[trigger] a.val() <= Self::hi() && Self::of(a.val()) == a,
            forall|v: int| Self::lo() <= v <= Self::hi() ==> (#[trigger] Self::of(v)).val() == v,
            forall|n: int| -128 <= n <= 127 ==> #[trigger] small::<Self>(n) == Self::of(n),
            forall|a: Self, b: Self| #[trigger] a.eq_spec(&b) <==> a == b,
            forall|a: Self, b: Self| #[trigger]
                a.add_req(b) <==> Self::lo() <= a.val() + b.val() <= Self::hi(),
            forall|a: Self, b: Self| #[trigger] a.add_spec(b) == Self::of(a.val() + b.val()),
            forall|a: Self, b: Self| #[trigger]
                a.sub_req(b) <==> Self::lo() <= a.val() - b.val() <= Self::hi(),
            forall|a: Self, b: Self| #[trigger] a.sub_spec(b) == Self::of(a.val() - b.val()),
            forall|a: Self, b: Self| #[trigger]
                a.mul_req(b) <==> Self::lo() <= a.val() * b.val() <= Self::hi(),
            forall|a: Self, b: Self| #[trigger] a.mul_spec(b) == Self::of(a.val() * b.val()),
            forall|a: Self| #[trigger] a.neg_req() <==> Self::lo() <= -a.val() <= Self::hi(),
            forall|a: Self| #[trigger] a.neg_spec() == Self::of(-a.val()),
            forall|a: Self, b: Self| #[trigger]
                a.div_req(b) <==> b.val() != 0 && !(a.val() == Self::lo() && b.val() == -1),
            forall|a: Self, b: Self| #[trigger]
                a.div_spec(b) == Self::of(trunc_div(a.val(), b.val())),
    ;
}

impl Integral for i16 {
    open spec fn val(self) -> int {
        self as int
    }

    open spec fn of(v: int) -> i16 {
        v as i16
    }

    open spec fn lo() -> int {
        i16::MIN as int
    }

    open spec fn hi() -> int {
        i16::MAX as int
    }

    proof fn lemma_integral() {
    }
}

impl Integral for i32 {
    open spec fn val(self) -> int {
        self as int
    }

    open spec fn of(v: int) -> i32 {
        v as i32
    }

    open spec fn lo() -> int {
        i32::MIN as int
    }

    open spec fn hi() -> int {
        i32::MAX as int
    }

    proof fn lemma_integral() {
    }
}

impl Integral for i64 {
    open spec fn val(self) -> int {
        self as int
    }

    open spec fn of(v: int) -> i64 {
        v as i64
    }

    open spec fn lo() -> int {
        i64::MIN as int
    }

    open spec fn hi() -> int {
        i64::MAX as int
    }

    proof fn lemma_integral() {
    }
}

impl Integral for i128 {
    open spec fn val(self) -> int {
        self as int
    }

    open spec fn of(v: int) -> i128 {
        v as i128
    }

    open spec fn lo() -> int {
        i128::MIN as int
    }

    open spec fn hi() -> int {
        i128::MAX as int
    }

    proof fn lemma_integral() {
    }
}

impl Integral for isize {
    open spec fn val(self) -> int {
        self as int
    }

    open spec fn of(v: int) -> isize {
        v as isize
    }

    open spec fn lo() -> int {
        isize::MIN as int
    }

    open spec fn hi() -> int {
        isize::MAX as int
    }

    proof fn lemma_integral() {
    }
}

/// Over an integral type, one and zero are what they are among the integers: a
/// product with one is the other factor, a product with zero is zero, and a sum
/// with zero or a difference from zero is the other term. All of them are
/// defined.
pub proof fn lemma_one_and_zero<T: Integral>(a: T)
    ensures
        prod2(small::<T>(1), a) == Some(a),
        prod2(a, small::<T>(1)) == Some(a),
        prod2(small::<T>(0), a) == Some(small::<T>(0)),
        prod2(a, small::<T>(0)) == Some(small::<T>(0)),
        checked_add(Some(a), Some(small::<T>(0))) == Some(a),
        checked_add(Some(small::<T>(0)), Some(a)) == Some(a),
        checked_sub(Some(a), Some(small::<T>(0))) == Some(a),
{
    T::lemma_integral();
    let one = small::<T>(1);
    let zero = small::<T>(0);
    assert(one.val() == 1 && zero.val() == 0);
    lemma_mul_basics(a.val());
}

/// Over an integral type, the product of a small integer and a value is the
/// product of the two integers.
pub proof fn lemma_small_times<T: Integral>(n: int, a: T)
    requires
        -128 <= n <= 127,
    ensures
        small::<T>(n).val() * a.val() == n * a.val(),
{
    T::lemma_integral();
}

/// Over an integral type, a value that can be negated is the difference of zero
/// and its negation, and the sum of the two, in either order, is zero.
pub proof fn lemma_negation<T: Integral>(a: T)
    requires
        a.neg_req(),
    ensures
        checked_neg(Some(a)) == Some(a.neg_spec()),
        checked_sub(Some(small::<T>(0)), Some(a)) == Some(a.neg_spec()),
        checked_add(Some(a), Some(a.neg_spec())) == Some(small::<T>(0)),
        checked_add(Some(a.neg_spec()), Some(a)) == Some(small::<T>(0)),
{
    T::lemma_integral();
    assert(small::<T>(0).val() == 0);
}

/// Over an integral type, the unit vectors pick components: `dot4` of the
/// `i`-th unit vector and `a`, in either order, is the `i`-th component of `a`.
pub proof fn lemma_dot4_unit<T: Integral>(a: (T, T, T, T))
    ensures
        ({
            let o = small::<T>(1);
            let z = small::<T>(0);
            &&& dot4((o, z, z, z), a) == Some(a.0)
            &&& dot4((z, o, z, z), a) == Some(a.1)
            &&& dot4((z, z, o, z), a) == Some(a.2)
            &&& dot4((z, z, z, o), a) == Some(a.3)
            &&& dot4(a, (o, z, z, z)) == Some(a.0)
            &&& dot4(a, (z, o, z, z)) == Some(a.1)
            &&& dot4(a, (z, z, o, z)) == Some(a.2)
            &&& dot4(a, (z, z, z, o)) == Some(a.3)
        }),
{
    lemma_one_and_zero(a.0);
    lemma_one_and_zero(a.1);
    lemma_one_and_zero(a.2);
    lemma_one_and_zero(a.3);
    lemma_one_and_zero(small::<T>(0));
}

/// Over an integral type, `dot4`, where it is defined, is the sum of the four
/// products of the integers.
pub proof fn lemma_dot4_ints<T: Integral>(a: (T, T, T, T), b: (T, T, T, T))
    ensures
        dot4(a, b) matches Some(r) ==> r.val() == a.0.val() * b.0.val() + a.1.val() * b.1.val()
            + a.2.val() * b.2.val() + a.3.val() * b.3.val(),
{
    T::lemma_integral();
}

/// Over an integral type the two cofactor formulas, where they are defined, are
/// the determinant of the integers and its negation.
pub proof fn lemma_cofactor_ints<T: Integral>(a: T, b: T, c: T, d: T, e: T, f: T, g: T, h: T, i: T)
    ensures
        cofactor_even(a, b, c, d, e, f, g, h, i) matches Some(r) ==> r.val() == a.val() * e.val()
            * i.val() - a.val() * f.val() * h.val() - b.val() * d.val() * i.val() + b.val()
            * f.val() * g.val() + c.val() * d.val() * h.val() - c.val() * e.val() * g.val(),
        cofactor_odd(a, b, c, d, e, f, g, h, i) matches Some(r) ==> -r.val() == a.val() * e.val()
            * i.val() - a.val() * f.val() * h.val() - b.val() * d.val() * i.val() + b.val()
            * f.val() * g.val() + c.val() * d.val() * h.val() - c.val() * e.val() * g.val(),
{
    T::lemma_integral();
}

/// Over an integral type, one divided by one is one and one divided by minus
/// one is minus one: a value `d` that stands for either is not zero and is its
/// own reciprocal.
pub proof fn lemma_reciprocal_of_unit<T: Integral>(d: T)
    requires
        d.val() == 1 || d.val() == -1,
    ensures
        !d.eq_spec(&small::<T>(0)),
        checked_div(Some(small::<T>(1)), Some(d)) == Some(d),
{
    T::lemma_integral();
    assert(small::<T>(1).val() == 1 && small::<T>(0).val() == 0);
    assert(trunc_div(1, d.val()) == d.val());
}

} // verus!
