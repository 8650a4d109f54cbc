//! What points and matrices ask of the type of their components.
//!
//! A component type brings its own `+`, `-`, `*`, `/` and unary `-`. Two things
//! can be known of such a type: that its operators are *exact*, that is, return
//! what their specifications say, as those of the primitive integers do; or that
//! they are *total*, that is, defined on every operand, as those of floating
//! point are. A formula over an exact type has a value wherever each of its steps
//! is defined, and the functions of this module say which value that is. Over a
//! type whose operators are total but not exact, a formula can always be
//! computed, and nothing is said of the result but what does not depend on the
//! arithmetic.

use core::ops::{Add, Div, Mul, Neg, Sub};
use vstd::prelude::*;
use vstd::std_specs::cmp::{PartialEqSpec, PartialOrdIs, PartialOrdSpec};
use vstd::std_specs::convert::FromSpec;
use vstd::std_specs::ops::{AddSpec, DivSpec, MulSpec, NegSpec, SubSpec};

verus! {

/// A component type with the whole arithmetic that the matrix uses: the four
/// operators, unary `-`, `==`, and the small integers as values.
pub trait Scalar: Copy + Add<Output = Self> + Sub<Output = Self> + Mul<Output = Self> + Div<
    Output = Self,
> + Neg<Output = Self> + PartialEq + From<i8> {

}

impl<
    T: Copy + Add<Output = T> + Sub<Output = T> + Mul<Output = T> + Div<Output = T> + Neg<
        Output = T,
    > + PartialEq + From<i8>,
> Scalar for T {

}

/// The operators of `T`, `==` and the conversion from `i8` return what their
/// specifications say.
pub open spec fn exact<T: Scalar>() -> bool {
    &&& T::obeys_add_spec()
    &&& T::obeys_sub_spec()
    &&& T::obeys_mul_spec()
    &&& T::obeys_div_spec()
    &&& T::obeys_neg_spec()
    &&& T::obeys_eq_spec()
    &&& T::obeys_from_spec()
}

/// The operators of `T` are defined on all operands.
pub open spec fn total<T: Scalar>() -> bool {
    &&& forall|a: T, b: T| #[trigger] a.add_req(b)
    &&& forall|a: T, b: T| #[trigger] a.sub_req(b)
    &&& forall|a: T, b: T| #[trigger] a.mul_req(b)
    &&& forall|a: T, b: T| #[trigger] a.div_req(b)
    &&& forall|a: T| #[trigger] a.neg_req()
}

/// Every step of the formula whose value is `v` can be taken: over an exact type
/// the formula has a value, over any other type the operators must be total.
pub open spec fn defined<T: Scalar, R>(v: Option<R>) -> bool {
    if exact::<T>() {
        v is Some
    } else {
        total::<T>()
    }
}

/// `r` is the value of the formula `v`, as far as `T` lets it be known.
pub open spec fn yields<T: Scalar, R>(v: Option<R>, r: R) -> bool {
    exact::<T>() ==> v == Some(r)
}

/// The value of `T` that stands for the small integer `n`, which is one that
/// fits an `i8`.
pub open spec fn small<T: From<i8>>(n: int) -> T {
    T::from_spec(n as i8)
}

/// `+`, `-` and `*` on `T` return what their specifications say.
pub open spec fn ring_exact<T: Add<Output = T> + Sub<Output = T> + Mul<Output = T>>() -> bool {
    T::obeys_add_spec() && T::obeys_sub_spec() && T::obeys_mul_spec()
}

/// `+`, `-` and `*` on `T` are defined on all operands.
pub open spec fn ring_total<T: Add<Output = T> + Sub<Output = T> + Mul<Output = T>>() -> bool {
    &&& forall|a: T, b: T| #[trigger] a.add_req(b)
    &&& forall|a: T, b: T| #[trigger] a.sub_req(b)
    &&& forall|a: T, b: T| #[trigger] a.mul_req(b)
}

/// Every step of the formula whose value is `v` can be taken: over an exact type
/// the formula has a value, over any other type the operators must be total.
pub open spec fn ring_defined<T: Add<Output = T> + Sub<Output = T> + Mul<Output = T>, R>(
    v: Option<R>,
) -> bool {
    if ring_exact::<T>() {
        v is Some
    } else {
        ring_total::<T>()
    }
}

/// `r` is the value of the formula `v`, as far as `T` lets it be known.
pub open spec fn ring_yields<T: Add<Output = T> + Sub<Output = T> + Mul<Output = T>, R>(
    v: Option<R>,
    r: R,
) -> bool {
    ring_exact::<T>() ==> v == Some(r)
}

/// The sum of two values, where both exist and can be added.
pub open spec fn checked_add<T: Add<Output = T>>(a: Option<T>, b: Option<T>) -> Option<T> {
    match (a, b) {
        (Some(x), Some(y)) => if x.add_req(y) {
            Some(x.add_spec(y))
        } else {
            None
        },
        _ => None,
    }
}

/// The difference of two values, where both exist and can be subtracted.
pub open spec fn checked_sub<T: Sub<Output = T>>(a: Option<T>, b: Option<T>) -> Option<T> {
    match (a, b) {
        (Some(x), Some(y)) => if x.sub_req(y) {
            Some(x.sub_spec(y))
        } else {
            None
        },
        _ => None,
    }
}

/// The product of two values, where both exist and can be multiplied.
pub open spec fn checked_mul<T: Mul<Output = T>>(a: Option<T>, b: Option<T>) -> Option<T> {
    match (a, b) {
        (Some(x), Some(y)) => if x.mul_req(y) {
            Some(x.mul_spec(y))
        } else {
            None
        },
        _ => None,
    }
}

/// The quotient of two values, where both exist and can be divided.
pub open spec fn checked_div<T: Div<Output = T>>(a: Option<T>, b: Option<T>) -> Option<T> {
    match (a, b) {
        (Some(x), Some(y)) => if x.div_req(y) {
            Some(x.div_spec(y))
        } else {
            None
        },
        _ => None,
    }
}

/// The negation of a value, where it exists and can be negated.
pub open spec fn checked_neg<T: Neg<Output = T>>(a: Option<T>) -> Option<T> {
    match a {
        Some(x) => if x.neg_req() {
            Some(x.neg_spec())
        } else {
            None
        },
        None => None,
    }
}

/// `a * b`.
pub open spec fn prod2<T: Mul<Output = T>>(a: T, b: T) -> Option<T> {
    checked_mul(Some(a), Some(b))
}

/// `a * b * c`, multiplied from left to right.
pub open spec fn prod3<T: Mul<Output = T>>(a: T, b: T, c: T) -> Option<T> {
    checked_mul(prod2(a, b), Some(c))
}

/// `a * b * c * d`, multiplied from left to right.
pub open spec fn prod4<T: Mul<Output = T>>(a: T, b: T, c: T, d: T) -> Option<T> {
    checked_mul(prod3(a, b, c), Some(d))
}

/// `a1 * b1 + a2 * b2 + a3 * b3 + a4 * b4`, added from left to right.
pub open spec fn dot4<T: Add<Output = T> + Mul<Output = T>>(
    a: (T, T, T, T),
    b: (T, T, T, T),
) -> Option<T> {
    checked_add(
        checked_add(checked_add(prod2(a.0, b.0), prod2(a.1, b.1)), prod2(a.2, b.2)),
        prod2(a.3, b.3),
    )
}

/// `a - b + c - d - e + f`, from left to right.
pub open spec fn sum6_even<T: Add<Output = T> + Sub<Output = T>>(
    a: Option<T>,
    b: Option<T>,
    c: Option<T>,
    d: Option<T>,
    e: Option<T>,
    f: Option<T>,
) -> Option<T> {
    checked_add(checked_sub(checked_sub(checked_add(checked_sub(a, b), c), d), e), f)
}

/// `a - b - c + d + e - f`, from left to right.
pub open spec fn sum6_odd<T: Add<Output = T> + Sub<Output = T>>(
    a: Option<T>,
    b: Option<T>,
    c: Option<T>,
    d: Option<T>,
    e: Option<T>,
    f: Option<T>,
) -> Option<T> {
    checked_sub(checked_add(checked_add(checked_sub(checked_sub(a, b), c), d), e), f)
}

/// The determinant of the three by three matrix with the rows `(a, b, c)`,
/// `(d, e, f)` and `(g, h, i)`, its six products taken in a fixed order:
/// `bfg - ceg + cdh - afh - bdi + aei`.
pub open spec fn cofactor_even<T: Add<Output = T> + Sub<Output = T> + Mul<Output = T>>(
    a: T,
    b: T,
    c: T,
    d: T,
    e: T,
    f: T,
    g: T,
    h: T,
    i: T,
) -> Option<T> {
    sum6_even(
        prod3(b, f, g),
        prod3(c, e, g),
        prod3(c, d, h),
        prod3(a, f, h),
        prod3(b, d, i),
        prod3(a, e, i),
    )
}

/// Minus the determinant of the three by three matrix with the rows `(a, b, c)`,
/// `(d, e, f)` and `(g, h, i)`, its six products taken in a fixed order:
/// `ceg - bfg - cdh + afh + bdi - aei`.
pub open spec fn cofactor_odd<T: Add<Output = T> + Sub<Output = T> + Mul<Output = T>>(
    a: T,
    b: T,
    c: T,
    d: T,
    e: T,
    f: T,
    g: T,
    h: T,
    i: T,
) -> Option<T> {
    sum6_odd(
        prod3(c, e, g),
        prod3(b, f, g),
        prod3(c, d, h),
        prod3(a, f, h),
        prod3(b, d, i),
        prod3(a, e, i),
    )
}

/// The operators of `T` and its `<` return what their specifications say.
pub open spec fn ordered_exact<T: Scalar + PartialOrd>() -> bool {
    exact::<T>() && T::obeys_partial_cmp_spec()
}

/// Whether `a` and `b` are less than `eps` apart: the difference `a - b`,
/// negated where it is below zero, is below `eps`.
pub open spec fn approx_eq_eps_spec<T: Scalar + PartialOrd>(a: T, b: T, eps: T) -> Option<bool> {
    match checked_sub(Some(a), Some(b)) {
        Some(d) => if d.is_lt(&small::<T>(0)) {
            match checked_neg(Some(d)) {
                Some(n) => Some(n.is_lt(&eps)),
                None => None,
            }
        } else {
            Some(d.is_lt(&eps))
        },
        None => None,
    }
}

/// Whether two values are equal up to `eps`: whether they are less than `eps`
/// apart.
pub fn approx_eq_eps<T: Scalar + PartialOrd>(a: T, b: T, eps: T) -> (r: bool)
    requires
        if ordered_exact::<T>() {
            approx_eq_eps_spec(a, b, eps) is Some
        } else {
            total::<T>()
        },
    ensures
        ordered_exact::<T>() ==> approx_eq_eps_spec(a, b, eps) == Some(r),
{
    let d = a - b;
    let distance = if d < T::from(0i8) {
        d.neg()
    } else {
        d
    };
    distance < eps
}

} // verus!
