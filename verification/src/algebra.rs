//! The algebra of four by four matrices of integers.
//!
//! Here the determinant, the adjugate and the product are polynomials in the
//! sixteen entries, and what is proved of them is proved term by term: a
//! product of one sum with a number is spread into its terms, the factors of
//! each term are brought into one order, and what is left is a sum of equal
//! terms on both sides.

use crate::matrix::Matrix4;
use crate::point::{Point2D, Point3D, Point4D};
use vstd::arithmetic::mul::{
    lemma_mul_basics,
    lemma_mul_is_associative,
    lemma_mul_is_commutative,
    lemma_mul_is_distributive_add,
    lemma_mul_is_distributive_add_other_way,
    lemma_mul_is_distributive_sub_other_way,
    lemma_mul_unary_negation,
};
use vstd::prelude::*;

verus! {

/// The determinant of the three by three matrix with the rows `(a, b, c)`,
/// `(d, e, f)` and `(g, h, i)`.
pub open spec fn det3(
    a: int,
    b: int,
    c: int,
    d: int,
    e: int,
    f: int,
    g: int,
    h: int,
    i: int,
) -> int {
    a * e * i - a * f * h - b * d * i + b * f * g + c * d * h - c * e * g
}

/// The determinant of a matrix of integers: the sum over the ways to pick one
/// entry of each row, no two of a column, of the product of the four, with the
/// sign of the permutation.
pub open spec fn det4(m: Matrix4<int>) -> int {
    m.m14 * m.m23 * m.m32 * m.m41
    - m.m13 * m.m24 * m.m32 * m.m41
    - m.m14 * m.m22 * m.m33 * m.m41
    + m.m12 * m.m24 * m.m33 * m.m41
    + m.m13 * m.m22 * m.m34 * m.m41
    - m.m12 * m.m23 * m.m34 * m.m41
    - m.m14 * m.m23 * m.m31 * m.m42
    + m.m13 * m.m24 * m.m31 * m.m42
    + m.m14 * m.m21 * m.m33 * m.m42
    - m.m11 * m.m24 * m.m33 * m.m42
    - m.m13 * m.m21 * m.m34 * m.m42
    + m.m11 * m.m23 * m.m34 * m.m42
    + m.m14 * m.m22 * m.m31 * m.m43
    - m.m12 * m.m24 * m.m31 * m.m43
    - m.m14 * m.m21 * m.m32 * m.m43
    + m.m11 * m.m24 * m.m32 * m.m43
    + m.m12 * m.m21 * m.m34 * m.m43
    - m.m11 * m.m22 * m.m34 * m.m43
    - m.m13 * m.m22 * m.m31 * m.m44
    + m.m12 * m.m23 * m.m31 * m.m44
    + m.m13 * m.m21 * m.m32 * m.m44
    - m.m11 * m.m23 * m.m32 * m.m44
    - m.m12 * m.m21 * m.m33 * m.m44
    + m.m11 * m.m22 * m.m33 * m.m44
}

/// The adjugate of a matrix of integers: the entry in row `i`, column `j` is the
/// determinant of the matrix without its row `j` and its column `i`, negated
/// where `i + j` is odd.
pub open spec fn adj4(m: Matrix4<int>) -> Matrix4<int> {
    Matrix4 {
        m11: det3(
            m.m22, m.m23, m.m24,
            m.m32, m.m33, m.m34,
            m.m42, m.m43, m.m44,
        ),
        m12: -det3(
            m.m12, m.m13, m.m14,
            m.m32, m.m33, m.m34,
            m.m42, m.m43, m.m44,
        ),
        m13: det3(
            m.m12, m.m13, m.m14,
            m.m22, m.m23, m.m24,
            m.m42, m.m43, m.m44,
        ),
        m14: -det3(
            m.m12, m.m13, m.m14,
            m.m22, m.m23, m.m24,
            m.m32, m.m33, m.m34,
        ),
        m21: -det3(
            m.m21, m.m23, m.m24,
            m.m31, m.m33, m.m34,
            m.m41, m.m43, m.m44,
        ),
        m22: det3(
            m.m11, m.m13, m.m14,
            m.m31, m.m33, m.m34,
            m.m41, m.m43, m.m44,
        ),
        m23: -det3(
            m.m11, m.m13, m.m14,
            m.m21, m.m23, m.m24,
            m.m41, m.m43, m.m44,
        ),
        m24: det3(
            m.m11, m.m13, m.m14,
            m.m21, m.m23, m.m24,
            m.m31, m.m33, m.m34,
        ),
        m31: det3(
            m.m21, m.m22, m.m24,
            m.m31, m.m32, m.m34,
            m.m41, m.m42, m.m44,
        ),
        m32: -det3(
            m.m11, m.m12, m.m14,
            m.m31, m.m32, m.m34,
            m.m41, m.m42, m.m44,
        ),
        m33: det3(
            m.m11, m.m12, m.m14,
            m.m21, m.m22, m.m24,
            m.m41, m.m42, m.m44,
        ),
        m34: -det3(
            m.m11, m.m12, m.m14,
            m.m21, m.m22, m.m24,
            m.m31, m.m32, m.m34,
        ),
        m41: -det3(
            m.m21, m.m22, m.m23,
            m.m31, m.m32, m.m33,
            m.m41, m.m42, m.m43,
        ),
        m42: det3(
            m.m11, m.m12, m.m13,
            m.m31, m.m32, m.m33,
            m.m41, m.m42, m.m43,
        ),
        m43: -det3(
            m.m11, m.m12, m.m13,
            m.m21, m.m22, m.m23,
            m.m41, m.m42, m.m43,
        ),
        m44: det3(
            m.m11, m.m12, m.m13,
            m.m21, m.m22, m.m23,
            m.m31, m.m32, m.m33,
        ),
    }
}

/// The product of two matrices of integers: the entry in row `i`, column `j` is
/// row `i` of `a` times column `j` of `b`.
pub open spec fn times(a: Matrix4<int>, b: Matrix4<int>) -> Matrix4<int> {
    Matrix4 {
        m11: a.m11 * b.m11 + a.m12 * b.m21 + a.m13 * b.m31 + a.m14 * b.m41,
        m12: a.m11 * b.m12 + a.m12 * b.m22 + a.m13 * b.m32 + a.m14 * b.m42,
        m13: a.m11 * b.m13 + a.m12 * b.m23 + a.m13 * b.m33 + a.m14 * b.m43,
        m14: a.m11 * b.m14 + a.m12 * b.m24 + a.m13 * b.m34 + a.m14 * b.m44,
        m21: a.m21 * b.m11 + a.m22 * b.m21 + a.m23 * b.m31 + a.m24 * b.m41,
        m22: a.m21 * b.m12 + a.m22 * b.m22 + a.m23 * b.m32 + a.m24 * b.m42,
        m23: a.m21 * b.m13 + a.m22 * b.m23 + a.m23 * b.m33 + a.m24 * b.m43,
        m24: a.m21 * b.m14 + a.m22 * b.m24 + a.m23 * b.m34 + a.m24 * b.m44,
        m31: a.m31 * b.m11 + a.m32 * b.m21 + a.m33 * b.m31 + a.m34 * b.m41,
        m32: a.m31 * b.m12 + a.m32 * b.m22 + a.m33 * b.m32 + a.m34 * b.m42,
        m33: a.m31 * b.m13 + a.m32 * b.m23 + a.m33 * b.m33 + a.m34 * b.m43,
        m34: a.m31 * b.m14 + a.m32 * b.m24 + a.m33 * b.m34 + a.m34 * b.m44,
        m41: a.m41 * b.m11 + a.m42 * b.m21 + a.m43 * b.m31 + a.m44 * b.m41,
        m42: a.m41 * b.m12 + a.m42 * b.m22 + a.m43 * b.m32 + a.m44 * b.m42,
        m43: a.m41 * b.m13 + a.m42 * b.m23 + a.m43 * b.m33 + a.m44 * b.m43,
        m44: a.m41 * b.m14 + a.m42 * b.m24 + a.m43 * b.m34 + a.m44 * b.m44,
    }
}

/// The matrix with `d` on its diagonal and zero elsewhere.
pub open spec fn diagonal(d: int) -> Matrix4<int> {
    Matrix4 {
        m11: d, m12: 0, m13: 0, m14: 0,
        m21: 0, m22: d, m23: 0, m24: 0,
        m31: 0, m32: 0, m33: d, m34: 0,
        m41: 0, m42: 0, m43: 0, m44: d,
    }
}

/// A sum of six terms times a number is the sum of the six products.
proof fn lemma_spread(t1: int, t2: int, t3: int, t4: int, t5: int, t6: int, x: int)
    ensures
        (t1 - t2 - t3 + t4 + t5 - t6) * x == t1 * x - t2 * x - t3 * x + t4 * x + t5 * x - t6 * x,
{
    lemma_mul_is_distributive_sub_other_way(x, t1 - t2 - t3 + t4 + t5, t6);
    lemma_mul_is_distributive_add_other_way(x, t1 - t2 - t3 + t4, t5);
    lemma_mul_is_distributive_add_other_way(x, t1 - t2 - t3, t4);
    lemma_mul_is_distributive_sub_other_way(x, t1 - t2, t3);
    lemma_mul_is_distributive_sub_other_way(x, t1, t2);
}

/// The last two factors of a product change places.
proof fn lemma_swap(p: int, c: int, d: int)
    ensures
        (p * c) * d == (p * d) * c,
{
    lemma_mul_is_associative(p, c, d);
    lemma_mul_is_commutative(c, d);
    lemma_mul_is_associative(p, d, c);
}

/// A product of four factors is the same in every order of the four.
proof fn lemma_reorder(a: int, b: int, c: int, d: int)
    ensures
        a * b * c * d == a * b * d * c,
        a * b * c * d == a * c * b * d,
        a * b * c * d == a * c * d * b,
        a * b * c * d == a * d * b * c,
        a * b * c * d == a * d * c * b,
        a * b * c * d == b * a * c * d,
        a * b * c * d == b * a * d * c,
        a * b * c * d == b * c * a * d,
        a * b * c * d == b * c * d * a,
        a * b * c * d == b * d * a * c,
        a * b * c * d == b * d * c * a,
        a * b * c * d == c * a * b * d,
        a * b * c * d == c * a * d * b,
        a * b * c * d == c * b * a * d,
        a * b * c * d == c * b * d * a,
        a * b * c * d == c * d * a * b,
        a * b * c * d == c * d * b * a,
        a * b * c * d == d * a * b * c,
        a * b * c * d == d * a * c * b,
        a * b * c * d == d * b * a * c,
        a * b * c * d == d * b * c * a,
        a * b * c * d == d * c * a * b,
        a * b * c * d == d * c * b * a,
{
    lemma_mul_is_commutative(a, b);
    lemma_swap(a, b, c);
    lemma_swap(a * b, c, d);
    lemma_swap(b, a, c);
    lemma_swap(b * a, c, d);
    lemma_mul_is_commutative(a, c);
    lemma_swap(a * c, b, d);
    lemma_swap(a, b, d);
    lemma_mul_is_commutative(b, c);
    lemma_swap(b * c, a, d);
    lemma_swap(b, a, d);
    lemma_swap(c * a, b, d);
    lemma_swap(a, c, d);
    lemma_mul_is_commutative(a, d);
    lemma_swap(c * b, a, d);
    lemma_swap(b, c, d);
    lemma_mul_is_commutative(b, d);
    lemma_swap(c, a, d);
    lemma_mul_is_commutative(a, d);
    lemma_swap(c, b, d);
    lemma_mul_is_commutative(b, d);
    lemma_mul_is_commutative(c, d);
    lemma_mul_is_commutative(c, d);
}

/// A determinant of three rows times a number is a sum of six products of four
/// factors, and the number can stand at any of the four places in each.
proof fn lemma_minor_times(
    a: int,
    b: int,
    c: int,
    d: int,
    e: int,
    f: int,
    g: int,
    h: int,
    i: int,
    x: int,
)
    ensures
        det3(a, b, c, d, e, f, g, h, i) * x == x * a * e * i - x * a * f * h - x * b * d * i + x * b
            * f * g + x * c * d * h - x * c * e * g,
        det3(a, b, c, d, e, f, g, h, i) * x == a * x * e * i - a * x * f * h - b * x * d * i + b * x
            * f * g + c * x * d * h - c * x * e * g,
        det3(a, b, c, d, e, f, g, h, i) * x == a * e * x * i - a * f * x * h - b * d * x * i + b * f
            * x * g + c * d * x * h - c * e * x * g,
        det3(a, b, c, d, e, f, g, h, i) * x == a * e * i * x - a * f * h * x - b * d * i * x + b * f
            * g * x + c * d * h * x - c * e * g * x,
        (-det3(a, b, c, d, e, f, g, h, i)) * x == -(det3(a, b, c, d, e, f, g, h, i) * x),
{
    lemma_spread(a * e * i, a * f * h, b * d * i, b * f * g, c * d * h, c * e * g, x);
    lemma_mul_unary_negation(det3(a, b, c, d, e, f, g, h, i), x);
    lemma_reorder(a, e, i, x);
    lemma_reorder(a, f, h, x);
    lemma_reorder(b, d, i, x);
    lemma_reorder(b, f, g, x);
    lemma_reorder(c, d, h, x);
    lemma_reorder(c, e, g, x);
}

/// Row 1 of the adjugate times the matrix.
proof fn lemma_adjugate_times_row1(m: Matrix4<int>)
    ensures
        times(adj4(m), m).m11 == det4(m),
        times(adj4(m), m).m12 == 0,
        times(adj4(m), m).m13 == 0,
        times(adj4(m), m).m14 == 0,
{
    lemma_minor_times(m.m22, m.m23, m.m24, m.m32, m.m33, m.m34, m.m42, m.m43, m.m44, m.m11);
    lemma_minor_times(m.m22, m.m23, m.m24, m.m32, m.m33, m.m34, m.m42, m.m43, m.m44, m.m12);
    lemma_minor_times(m.m22, m.m23, m.m24, m.m32, m.m33, m.m34, m.m42, m.m43, m.m44, m.m13);
    lemma_minor_times(m.m22, m.m23, m.m24, m.m32, m.m33, m.m34, m.m42, m.m43, m.m44, m.m14);
    lemma_minor_times(m.m12, m.m13, m.m14, m.m32, m.m33, m.m34, m.m42, m.m43, m.m44, m.m21);
    lemma_minor_times(m.m12, m.m13, m.m14, m.m32, m.m33, m.m34, m.m42, m.m43, m.m44, m.m22);
    lemma_minor_times(m.m12, m.m13, m.m14, m.m32, m.m33, m.m34, m.m42, m.m43, m.m44, m.m23);
    lemma_minor_times(m.m12, m.m13, m.m14, m.m32, m.m33, m.m34, m.m42, m.m43, m.m44, m.m24);
    lemma_minor_times(m.m12, m.m13, m.m14, m.m22, m.m23, m.m24, m.m42, m.m43, m.m44, m.m31);
    lemma_minor_times(m.m12, m.m13, m.m14, m.m22, m.m23, m.m24, m.m42, m.m43, m.m44, m.m32);
    lemma_minor_times(m.m12, m.m13, m.m14, m.m22, m.m23, m.m24, m.m42, m.m43, m.m44, m.m33);
    lemma_minor_times(m.m12, m.m13, m.m14, m.m22, m.m23, m.m24, m.m42, m.m43, m.m44, m.m34);
    lemma_minor_times(m.m12, m.m13, m.m14, m.m22, m.m23, m.m24, m.m32, m.m33, m.m34, m.m41);
    lemma_minor_times(m.m12, m.m13, m.m14, m.m22, m.m23, m.m24, m.m32, m.m33, m.m34, m.m42);
    lemma_minor_times(m.m12, m.m13, m.m14, m.m22, m.m23, m.m24, m.m32, m.m33, m.m34, m.m43);
    lemma_minor_times(m.m12, m.m13, m.m14, m.m22, m.m23, m.m24, m.m32, m.m33, m.m34, m.m44);
}

/// Row 2 of the adjugate times the matrix.
proof fn lemma_adjugate_times_row2(m: Matrix4<int>)
    ensures
        times(adj4(m), m).m21 == 0,
        times(adj4(m), m).m22 == det4(m),
        times(adj4(m), m).m23 == 0,
        times(adj4(m), m).m24 == 0,
{
    lemma_minor_times(m.m21, m.m23, m.m24, m.m31, m.m33, m.m34, m.m41, m.m43, m.m44, m.m11);
    lemma_minor_times(m.m21, m.m23, m.m24, m.m31, m.m33, m.m34, m.m41, m.m43, m.m44, m.m12);
    lemma_minor_times(m.m21, m.m23, m.m24, m.m31, m.m33, m.m34, m.m41, m.m43, m.m44, m.m13);
    lemma_minor_times(m.m21, m.m23, m.m24, m.m31, m.m33, m.m34, m.m41, m.m43, m.m44, m.m14);
    lemma_minor_times(m.m11, m.m13, m.m14, m.m31, m.m33, m.m34, m.m41, m.m43, m.m44, m.m21);
    lemma_minor_times(m.m11, m.m13, m.m14, m.m31, m.m33, m.m34, m.m41, m.m43, m.m44, m.m22);
    lemma_minor_times(m.m11, m.m13, m.m14, m.m31, m.m33, m.m34, m.m41, m.m43, m.m44, m.m23);
    lemma_minor_times(m.m11, m.m13, m.m14, m.m31, m.m33, m.m34, m.m41, m.m43, m.m44, m.m24);
    lemma_minor_times(m.m11, m.m13, m.m14, m.m21, m.m23, m.m24, m.m41, m.m43, m.m44, m.m31);
    lemma_minor_times(m.m11, m.m13, m.m14, m.m21, m.m23, m.m24, m.m41, m.m43, m.m44, m.m32);
    lemma_minor_times(m.m11, m.m13, m.m14, m.m21, m.m23, m.m24, m.m41, m.m43, m.m44, m.m33);
    lemma_minor_times(m.m11, m.m13, m.m14, m.m21, m.m23, m.m24, m.m41, m.m43, m.m44, m.m34);
    lemma_minor_times(m.m11, m.m13, m.m14, m.m21, m.m23, m.m24, m.m31, m.m33, m.m34, m.m41);
    lemma_minor_times(m.m11, m.m13, m.m14, m.m21, m.m23, m.m24, m.m31, m.m33, m.m34, m.m42);
    lemma_minor_times(m.m11, m.m13, m.m14, m.m21, m.m23, m.m24, m.m31, m.m33, m.m34, m.m43);
    lemma_minor_times(m.m11, m.m13, m.m14, m.m21, m.m23, m.m24, m.m31, m.m33, m.m34, m.m44);
}

/// Row 3 of the adjugate times the matrix.
proof fn lemma_adjugate_times_row3(m: Matrix4<int>)
    ensures
        times(adj4(m), m).m31 == 0,
        times(adj4(m), m).m32 == 0,
        times(adj4(m), m).m33 == det4(m),
        times(adj4(m), m).m34 == 0,
{
    lemma_minor_times(m.m21, m.m22, m.m24, m.m31, m.m32, m.m34, m.m41, m.m42, m.m44, m.m11);
    lemma_minor_times(m.m21, m.m22, m.m24, m.m31, m.m32, m.m34, m.m41, m.m42, m.m44, m.m12);
    lemma_minor_times(m.m21, m.m22, m.m24, m.m31, m.m32, m.m34, m.m41, m.m42, m.m44, m.m13);
    lemma_minor_times(m.m21, m.m22, m.m24, m.m31, m.m32, m.m34, m.m41, m.m42, m.m44, m.m14);
    lemma_minor_times(m.m11, m.m12, m.m14, m.m31, m.m32, m.m34, m.m41, m.m42, m.m44, m.m21);
    lemma_minor_times(m.m11, m.m12, m.m14, m.m31, m.m32, m.m34, m.m41, m.m42, m.m44, m.m22);
    lemma_minor_times(m.m11, m.m12, m.m14, m.m31, m.m32, m.m34, m.m41, m.m42, m.m44, m.m23);
    lemma_minor_times(m.m11, m.m12, m.m14, m.m31, m.m32, m.m34, m.m41, m.m42, m.m44, m.m24);
    lemma_minor_times(m.m11, m.m12, m.m14, m.m21, m.m22, m.m24, m.m41, m.m42, m.m44, m.m31);
    lemma_minor_times(m.m11, m.m12, m.m14, m.m21, m.m22, m.m24, m.m41, m.m42, m.m44, m.m32);
    lemma_minor_times(m.m11, m.m12, m.m14, m.m21, m.m22, m.m24, m.m41, m.m42, m.m44, m.m33);
    lemma_minor_times(m.m11, m.m12, m.m14, m.m21, m.m22, m.m24, m.m41, m.m42, m.m44, m.m34);
    lemma_minor_times(m.m11, m.m12, m.m14, m.m21, m.m22, m.m24, m.m31, m.m32, m.m34, m.m41);
    lemma_minor_times(m.m11, m.m12, m.m14, m.m21, m.m22, m.m24, m.m31, m.m32, m.m34, m.m42);
    lemma_minor_times(m.m11, m.m12, m.m14, m.m21, m.m22, m.m24, m.m31, m.m32, m.m34, m.m43);
    lemma_minor_times(m.m11, m.m12, m.m14, m.m21, m.m22, m.m24, m.m31, m.m32, m.m34, m.m44);
}

/// Row 4 of the adjugate times the matrix.
proof fn lemma_adjugate_times_row4(m: Matrix4<int>)
    ensures
        times(adj4(m), m).m41 == 0,
        times(adj4(m), m).m42 == 0,
        times(adj4(m), m).m43 == 0,
        times(adj4(m), m).m44 == det4(m),
{
    lemma_minor_times(m.m21, m.m22, m.m23, m.m31, m.m32, m.m33, m.m41, m.m42, m.m43, m.m11);
    lemma_minor_times(m.m21, m.m22, m.m23, m.m31, m.m32, m.m33, m.m41, m.m42, m.m43, m.m12);
    lemma_minor_times(m.m21, m.m22, m.m23, m.m31, m.m32, m.m33, m.m41, m.m42, m.m43, m.m13);
    lemma_minor_times(m.m21, m.m22, m.m23, m.m31, m.m32, m.m33, m.m41, m.m42, m.m43, m.m14);
    lemma_minor_times(m.m11, m.m12, m.m13, m.m31, m.m32, m.m33, m.m41, m.m42, m.m43, m.m21);
    lemma_minor_times(m.m11, m.m12, m.m13, m.m31, m.m32, m.m33, m.m41, m.m42, m.m43, m.m22);
    lemma_minor_times(m.m11, m.m12, m.m13, m.m31, m.m32, m.m33, m.m41, m.m42, m.m43, m.m23);
    lemma_minor_times(m.m11, m.m12, m.m13, m.m31, m.m32, m.m33, m.m41, m.m42, m.m43, m.m24);
    lemma_minor_times(m.m11, m.m12, m.m13, m.m21, m.m22, m.m23, m.m41, m.m42, m.m43, m.m31);
    lemma_minor_times(m.m11, m.m12, m.m13, m.m21, m.m22, m.m23, m.m41, m.m42, m.m43, m.m32);
    lemma_minor_times(m.m11, m.m12, m.m13, m.m21, m.m22, m.m23, m.m41, m.m42, m.m43, m.m33);
    lemma_minor_times(m.m11, m.m12, m.m13, m.m21, m.m22, m.m23, m.m41, m.m42, m.m43, m.m34);
    lemma_minor_times(m.m11, m.m12, m.m13, m.m21, m.m22, m.m23, m.m31, m.m32, m.m33, m.m41);
    lemma_minor_times(m.m11, m.m12, m.m13, m.m21, m.m22, m.m23, m.m31, m.m32, m.m33, m.m42);
    lemma_minor_times(m.m11, m.m12, m.m13, m.m21, m.m22, m.m23, m.m31, m.m32, m.m33, m.m43);
    lemma_minor_times(m.m11, m.m12, m.m13, m.m21, m.m22, m.m23, m.m31, m.m32, m.m33, m.m44);
}

/// The adjugate times the matrix is the identity times the determinant.
pub proof fn lemma_adjugate_times(m: Matrix4<int>)
    ensures
        times(adj4(m), m) == diagonal(det4(m)),
{
    lemma_adjugate_times_row1(m);
    lemma_adjugate_times_row2(m);
    lemma_adjugate_times_row3(m);
    lemma_adjugate_times_row4(m);
}

/// The determinant with the factors of each product taken by column instead of
/// by row.
proof fn lemma_determinant_by_columns(m: Matrix4<int>)
    ensures
        det4(m) == {
        m.m41 * m.m32 * m.m23 * m.m14
        - m.m41 * m.m32 * m.m13 * m.m24
        - m.m41 * m.m22 * m.m33 * m.m14
        + m.m41 * m.m12 * m.m33 * m.m24
        + m.m41 * m.m22 * m.m13 * m.m34
        - m.m41 * m.m12 * m.m23 * m.m34
        - m.m31 * m.m42 * m.m23 * m.m14
        + m.m31 * m.m42 * m.m13 * m.m24
        + m.m21 * m.m42 * m.m33 * m.m14
        - m.m11 * m.m42 * m.m33 * m.m24
        - m.m21 * m.m42 * m.m13 * m.m34
        + m.m11 * m.m42 * m.m23 * m.m34
        + m.m31 * m.m22 * m.m43 * m.m14
        - m.m31 * m.m12 * m.m43 * m.m24
        - m.m21 * m.m32 * m.m43 * m.m14
        + m.m11 * m.m32 * m.m43 * m.m24
        + m.m21 * m.m12 * m.m43 * m.m34
        - m.m11 * m.m22 * m.m43 * m.m34
        - m.m31 * m.m22 * m.m13 * m.m44
        + m.m31 * m.m12 * m.m23 * m.m44
        + m.m21 * m.m32 * m.m13 * m.m44
        - m.m11 * m.m32 * m.m23 * m.m44
        - m.m21 * m.m12 * m.m33 * m.m44
        + m.m11 * m.m22 * m.m33 * m.m44
        },
{
    lemma_reorder(m.m14, m.m23, m.m32, m.m41);
    lemma_reorder(m.m13, m.m24, m.m32, m.m41);
    lemma_reorder(m.m14, m.m22, m.m33, m.m41);
    lemma_reorder(m.m12, m.m24, m.m33, m.m41);
    lemma_reorder(m.m13, m.m22, m.m34, m.m41);
    lemma_reorder(m.m12, m.m23, m.m34, m.m41);
    lemma_reorder(m.m14, m.m23, m.m31, m.m42);
    lemma_reorder(m.m13, m.m24, m.m31, m.m42);
    lemma_reorder(m.m14, m.m21, m.m33, m.m42);
    lemma_reorder(m.m11, m.m24, m.m33, m.m42);
    lemma_reorder(m.m13, m.m21, m.m34, m.m42);
    lemma_reorder(m.m11, m.m23, m.m34, m.m42);
    lemma_reorder(m.m14, m.m22, m.m31, m.m43);
    lemma_reorder(m.m12, m.m24, m.m31, m.m43);
    lemma_reorder(m.m14, m.m21, m.m32, m.m43);
    lemma_reorder(m.m11, m.m24, m.m32, m.m43);
    lemma_reorder(m.m12, m.m21, m.m34, m.m43);
    lemma_reorder(m.m11, m.m22, m.m34, m.m43);
    lemma_reorder(m.m13, m.m22, m.m31, m.m44);
    lemma_reorder(m.m12, m.m23, m.m31, m.m44);
    lemma_reorder(m.m13, m.m21, m.m32, m.m44);
    lemma_reorder(m.m11, m.m23, m.m32, m.m44);
    lemma_reorder(m.m12, m.m21, m.m33, m.m44);
    lemma_reorder(m.m11, m.m22, m.m33, m.m44);
}

/// As `lemma_minor_times`, with the number as the first factor and the factors
/// of each product in the order of their columns, the number standing for a
/// fourth column at any of the four places.
proof fn lemma_minor_by_column(
    a: int,
    b: int,
    c: int,
    d: int,
    e: int,
    f: int,
    g: int,
    h: int,
    i: int,
    x: int,
)
    ensures
        x * det3(a, b, c, d, e, f, g, h, i) == x * a * e * i - x * a * h * f - x * d * b * i + x * g
            * b * f + x * d * h * c - x * g * e * c,
        x * det3(a, b, c, d, e, f, g, h, i) == a * x * e * i - a * x * h * f - d * x * b * i + g * x
            * b * f + d * x * h * c - g * x * e * c,
        x * det3(a, b, c, d, e, f, g, h, i) == a * e * x * i - a * h * x * f - d * b * x * i + g * b
            * x * f + d * h * x * c - g * e * x * c,
        x * det3(a, b, c, d, e, f, g, h, i) == a * e * i * x - a * h * f * x - d * b * i * x + g * b
            * f * x + d * h * c * x - g * e * c * x,
        x * (-det3(a, b, c, d, e, f, g, h, i)) == -(x * det3(a, b, c, d, e, f, g, h, i)),
{
    lemma_spread(a * e * i, a * f * h, b * d * i, b * f * g, c * d * h, c * e * g, x);
    lemma_mul_is_commutative(x, det3(a, b, c, d, e, f, g, h, i));
    lemma_mul_unary_negation(x, det3(a, b, c, d, e, f, g, h, i));
    lemma_reorder(a, e, i, x);
    lemma_reorder(a, f, h, x);
    lemma_reorder(b, d, i, x);
    lemma_reorder(b, f, g, x);
    lemma_reorder(c, d, h, x);
    lemma_reorder(c, e, g, x);
}

/// Column 1 of the matrix times the adjugate.
proof fn lemma_times_adjugate_column1(m: Matrix4<int>)
    ensures
        times(m, adj4(m)).m11 == det4(m),
        times(m, adj4(m)).m21 == 0,
        times(m, adj4(m)).m31 == 0,
        times(m, adj4(m)).m41 == 0,
{
    lemma_determinant_by_columns(m);
    lemma_minor_by_column(m.m22, m.m23, m.m24, m.m32, m.m33, m.m34, m.m42, m.m43, m.m44, m.m11);
    lemma_minor_by_column(m.m22, m.m23, m.m24, m.m32, m.m33, m.m34, m.m42, m.m43, m.m44, m.m21);
    lemma_minor_by_column(m.m22, m.m23, m.m24, m.m32, m.m33, m.m34, m.m42, m.m43, m.m44, m.m31);
    lemma_minor_by_column(m.m22, m.m23, m.m24, m.m32, m.m33, m.m34, m.m42, m.m43, m.m44, m.m41);
    lemma_minor_by_column(m.m21, m.m23, m.m24, m.m31, m.m33, m.m34, m.m41, m.m43, m.m44, m.m12);
    lemma_minor_by_column(m.m21, m.m23, m.m24, m.m31, m.m33, m.m34, m.m41, m.m43, m.m44, m.m22);
    lemma_minor_by_column(m.m21, m.m23, m.m24, m.m31, m.m33, m.m34, m.m41, m.m43, m.m44, m.m32);
    lemma_minor_by_column(m.m21, m.m23, m.m24, m.m31, m.m33, m.m34, m.m41, m.m43, m.m44, m.m42);
    lemma_minor_by_column(m.m21, m.m22, m.m24, m.m31, m.m32, m.m34, m.m41, m.m42, m.m44, m.m13);
    lemma_minor_by_column(m.m21, m.m22, m.m24, m.m31, m.m32, m.m34, m.m41, m.m42, m.m44, m.m23);
    lemma_minor_by_column(m.m21, m.m22, m.m24, m.m31, m.m32, m.m34, m.m41, m.m42, m.m44, m.m33);
    lemma_minor_by_column(m.m21, m.m22, m.m24, m.m31, m.m32, m.m34, m.m41, m.m42, m.m44, m.m43);
    lemma_minor_by_column(m.m21, m.m22, m.m23, m.m31, m.m32, m.m33, m.m41, m.m42, m.m43, m.m14);
    lemma_minor_by_column(m.m21, m.m22, m.m23, m.m31, m.m32, m.m33, m.m41, m.m42, m.m43, m.m24);
    lemma_minor_by_column(m.m21, m.m22, m.m23, m.m31, m.m32, m.m33, m.m41, m.m42, m.m43, m.m34);
    lemma_minor_by_column(m.m21, m.m22, m.m23, m.m31, m.m32, m.m33, m.m41, m.m42, m.m43, m.m44);
}

/// Column 2 of the matrix times the adjugate.
proof fn lemma_times_adjugate_column2(m: Matrix4<int>)
    ensures
        times(m, adj4(m)).m12 == 0,
        times(m, adj4(m)).m22 == det4(m),
        times(m, adj4(m)).m32 == 0,
        times(m, adj4(m)).m42 == 0,
{
    lemma_determinant_by_columns(m);
    lemma_minor_by_column(m.m12, m.m13, m.m14, m.m32, m.m33, m.m34, m.m42, m.m43, m.m44, m.m11);
    lemma_minor_by_column(m.m12, m.m13, m.m14, m.m32, m.m33, m.m34, m.m42, m.m43, m.m44, m.m21);
    lemma_minor_by_column(m.m12, m.m13, m.m14, m.m32, m.m33, m.m34, m.m42, m.m43, m.m44, m.m31);
    lemma_minor_by_column(m.m12, m.m13, m.m14, m.m32, m.m33, m.m34, m.m42, m.m43, m.m44, m.m41);
    lemma_minor_by_column(m.m11, m.m13, m.m14, m.m31, m.m33, m.m34, m.m41, m.m43, m.m44, m.m12);
    lemma_minor_by_column(m.m11, m.m13, m.m14, m.m31, m.m33, m.m34, m.m41, m.m43, m.m44, m.m22);
    lemma_minor_by_column(m.m11, m.m13, m.m14, m.m31, m.m33, m.m34, m.m41, m.m43, m.m44, m.m32);
    lemma_minor_by_column(m.m11, m.m13, m.m14, m.m31, m.m33, m.m34, m.m41, m.m43, m.m44, m.m42);
    lemma_minor_by_column(m.m11, m.m12, m.m14, m.m31, m.m32, m.m34, m.m41, m.m42, m.m44, m.m13);
    lemma_minor_by_column(m.m11, m.m12, m.m14, m.m31, m.m32, m.m34, m.m41, m.m42, m.m44, m.m23);
    lemma_minor_by_column(m.m11, m.m12, m.m14, m.m31, m.m32, m.m34, m.m41, m.m42, m.m44, m.m33);
    lemma_minor_by_column(m.m11, m.m12, m.m14, m.m31, m.m32, m.m34, m.m41, m.m42, m.m44, m.m43);
    lemma_minor_by_column(m.m11, m.m12, m.m13, m.m31, m.m32, m.m33, m.m41, m.m42, m.m43, m.m14);
    lemma_minor_by_column(m.m11, m.m12, m.m13, m.m31, m.m32, m.m33, m.m41, m.m42, m.m43, m.m24);
    lemma_minor_by_column(m.m11, m.m12, m.m13, m.m31, m.m32, m.m33, m.m41, m.m42, m.m43, m.m34);
    lemma_minor_by_column(m.m11, m.m12, m.m13, m.m31, m.m32, m.m33, m.m41, m.m42, m.m43, m.m44);
}

/// Column 3 of the matrix times the adjugate.
proof fn lemma_times_adjugate_column3(m: Matrix4<int>)
    ensures
        times(m, adj4(m)).m13 == 0,
        times(m, adj4(m)).m23 == 0,
        times(m, adj4(m)).m33 == det4(m),
        times(m, adj4(m)).m43 == 0,
{
    lemma_determinant_by_columns(m);
    lemma_minor_by_column(m.m12, m.m13, m.m14, m.m22, m.m23, m.m24, m.m42, m.m43, m.m44, m.m11);
    lemma_minor_by_column(m.m12, m.m13, m.m14, m.m22, m.m23, m.m24, m.m42, m.m43, m.m44, m.m21);
    lemma_minor_by_column(m.m12, m.m13, m.m14, m.m22, m.m23, m.m24, m.m42, m.m43, m.m44, m.m31);
    lemma_minor_by_column(m.m12, m.m13, m.m14, m.m22, m.m23, m.m24, m.m42, m.m43, m.m44, m.m41);
    lemma_minor_by_column(m.m11, m.m13, m.m14, m.m21, m.m23, m.m24, m.m41, m.m43, m.m44, m.m12);
    lemma_minor_by_column(m.m11, m.m13, m.m14, m.m21, m.m23, m.m24, m.m41, m.m43, m.m44, m.m22);
    lemma_minor_by_column(m.m11, m.m13, m.m14, m.m21, m.m23, m.m24, m.m41, m.m43, m.m44, m.m32);
    lemma_minor_by_column(m.m11, m.m13, m.m14, m.m21, m.m23, m.m24, m.m41, m.m43, m.m44, m.m42);
    lemma_minor_by_column(m.m11, m.m12, m.m14, m.m21, m.m22, m.m24, m.m41, m.m42, m.m44, m.m13);
    lemma_minor_by_column(m.m11, m.m12, m.m14, m.m21, m.m22, m.m24, m.m41, m.m42, m.m44, m.m23);
    lemma_minor_by_column(m.m11, m.m12, m.m14, m.m21, m.m22, m.m24, m.m41, m.m42, m.m44, m.m33);
    lemma_minor_by_column(m.m11, m.m12, m.m14, m.m21, m.m22, m.m24, m.m41, m.m42, m.m44, m.m43);
    lemma_minor_by_column(m.m11, m.m12, m.m13, m.m21, m.m22, m.m23, m.m41, m.m42, m.m43, m.m14);
    lemma_minor_by_column(m.m11, m.m12, m.m13, m.m21, m.m22, m.m23, m.m41, m.m42, m.m43, m.m24);
    lemma_minor_by_column(m.m11, m.m12, m.m13, m.m21, m.m22, m.m23, m.m41, m.m42, m.m43, m.m34);
    lemma_minor_by_column(m.m11, m.m12, m.m13, m.m21, m.m22, m.m23, m.m41, m.m42, m.m43, m.m44);
}

/// Column 4 of the matrix times the adjugate.
proof fn lemma_times_adjugate_column4(m: Matrix4<int>)
    ensures
        times(m, adj4(m)).m14 == 0,
        times(m, adj4(m)).m24 == 0,
        times(m, adj4(m)).m34 == 0,
        times(m, adj4(m)).m44 == det4(m),
{
    lemma_determinant_by_columns(m);
    lemma_minor_by_column(m.m12, m.m13, m.m14, m.m22, m.m23, m.m24, m.m32, m.m33, m.m34, m.m11);
    lemma_minor_by_column(m.m12, m.m13, m.m14, m.m22, m.m23, m.m24, m.m32, m.m33, m.m34, m.m21);
    lemma_minor_by_column(m.m12, m.m13, m.m14, m.m22, m.m23, m.m24, m.m32, m.m33, m.m34, m.m31);
    lemma_minor_by_column(m.m12, m.m13, m.m14, m.m22, m.m23, m.m24, m.m32, m.m33, m.m34, m.m41);
    lemma_minor_by_column(m.m11, m.m13, m.m14, m.m21, m.m23, m.m24, m.m31, m.m33, m.m34, m.m12);
    lemma_minor_by_column(m.m11, m.m13, m.m14, m.m21, m.m23, m.m24, m.m31, m.m33, m.m34, m.m22);
    lemma_minor_by_column(m.m11, m.m13, m.m14, m.m21, m.m23, m.m24, m.m31, m.m33, m.m34, m.m32);
    lemma_minor_by_column(m.m11, m.m13, m.m14, m.m21, m.m23, m.m24, m.m31, m.m33, m.m34, m.m42);
    lemma_minor_by_column(m.m11, m.m12, m.m14, m.m21, m.m22, m.m24, m.m31, m.m32, m.m34, m.m13);
    lemma_minor_by_column(m.m11, m.m12, m.m14, m.m21, m.m22, m.m24, m.m31, m.m32, m.m34, m.m23);
    lemma_minor_by_column(m.m11, m.m12, m.m14, m.m21, m.m22, m.m24, m.m31, m.m32, m.m34, m.m33);
    lemma_minor_by_column(m.m11, m.m12, m.m14, m.m21, m.m22, m.m24, m.m31, m.m32, m.m34, m.m43);
    lemma_minor_by_column(m.m11, m.m12, m.m13, m.m21, m.m22, m.m23, m.m31, m.m32, m.m33, m.m14);
    lemma_minor_by_column(m.m11, m.m12, m.m13, m.m21, m.m22, m.m23, m.m31, m.m32, m.m33, m.m24);
    lemma_minor_by_column(m.m11, m.m12, m.m13, m.m21, m.m22, m.m23, m.m31, m.m32, m.m33, m.m34);
    lemma_minor_by_column(m.m11, m.m12, m.m13, m.m21, m.m22, m.m23, m.m31, m.m32, m.m33, m.m44);
}

/// The matrix times its adjugate is the identity times the determinant.
pub proof fn lemma_times_adjugate(m: Matrix4<int>)
    ensures
        times(m, adj4(m)) == diagonal(det4(m)),
{
    lemma_times_adjugate_column1(m);
    lemma_times_adjugate_column2(m);
    lemma_times_adjugate_column3(m);
    lemma_times_adjugate_column4(m);
}

/// The matrix with every entry multiplied by `k`.
pub open spec fn scaled(m: Matrix4<int>, k: int) -> Matrix4<int> {
    Matrix4 {
        m11: m.m11 * k, m12: m.m12 * k, m13: m.m13 * k, m14: m.m14 * k,
        m21: m.m21 * k, m22: m.m22 * k, m23: m.m23 * k, m24: m.m24 * k,
        m31: m.m31 * k, m32: m.m32 * k, m33: m.m33 * k, m34: m.m34 * k,
        m41: m.m41 * k, m42: m.m42 * k, m43: m.m43 * k, m44: m.m44 * k,
    }
}

/// A factor of each term on either side of a sum of four products is a factor
/// of the sum.
proof fn lemma_dot_scaled(
    a1: int,
    a2: int,
    a3: int,
    a4: int,
    b1: int,
    b2: int,
    b3: int,
    b4: int,
    k: int,
)
    ensures
        (a1 * k) * b1 + (a2 * k) * b2 + (a3 * k) * b3 + (a4 * k) * b4 == (a1 * b1 + a2 * b2 + a3
            * b3 + a4 * b4) * k,
        a1 * (b1 * k) + a2 * (b2 * k) + a3 * (b3 * k) + a4 * (b4 * k) == (a1 * b1 + a2 * b2 + a3
            * b3 + a4 * b4) * k,
{
    lemma_swap(a1, k, b1);
    lemma_swap(a2, k, b2);
    lemma_swap(a3, k, b3);
    lemma_swap(a4, k, b4);
    lemma_mul_is_associative(a1, b1, k);
    lemma_mul_is_associative(a2, b2, k);
    lemma_mul_is_associative(a3, b3, k);
    lemma_mul_is_associative(a4, b4, k);
    lemma_mul_is_distributive_add_other_way(k, a1 * b1 + a2 * b2 + a3 * b3, a4 * b4);
    lemma_mul_is_distributive_add_other_way(k, a1 * b1 + a2 * b2, a3 * b3);
    lemma_mul_is_distributive_add_other_way(k, a1 * b1, a2 * b2);
}

/// A factor of either matrix is a factor of the product.
pub proof fn lemma_times_scaled(a: Matrix4<int>, b: Matrix4<int>, k: int)
    ensures
        times(scaled(a, k), b) == scaled(times(a, b), k),
        times(a, scaled(b, k)) == scaled(times(a, b), k),
{
    lemma_dot_scaled(a.m11, a.m12, a.m13, a.m14, b.m11, b.m21, b.m31, b.m41, k);
    lemma_dot_scaled(a.m11, a.m12, a.m13, a.m14, b.m12, b.m22, b.m32, b.m42, k);
    lemma_dot_scaled(a.m11, a.m12, a.m13, a.m14, b.m13, b.m23, b.m33, b.m43, k);
    lemma_dot_scaled(a.m11, a.m12, a.m13, a.m14, b.m14, b.m24, b.m34, b.m44, k);
    lemma_dot_scaled(a.m21, a.m22, a.m23, a.m24, b.m11, b.m21, b.m31, b.m41, k);
    lemma_dot_scaled(a.m21, a.m22, a.m23, a.m24, b.m12, b.m22, b.m32, b.m42, k);
    lemma_dot_scaled(a.m21, a.m22, a.m23, a.m24, b.m13, b.m23, b.m33, b.m43, k);
    lemma_dot_scaled(a.m21, a.m22, a.m23, a.m24, b.m14, b.m24, b.m34, b.m44, k);
    lemma_dot_scaled(a.m31, a.m32, a.m33, a.m34, b.m11, b.m21, b.m31, b.m41, k);
    lemma_dot_scaled(a.m31, a.m32, a.m33, a.m34, b.m12, b.m22, b.m32, b.m42, k);
    lemma_dot_scaled(a.m31, a.m32, a.m33, a.m34, b.m13, b.m23, b.m33, b.m43, k);
    lemma_dot_scaled(a.m31, a.m32, a.m33, a.m34, b.m14, b.m24, b.m34, b.m44, k);
    lemma_dot_scaled(a.m41, a.m42, a.m43, a.m44, b.m11, b.m21, b.m31, b.m41, k);
    lemma_dot_scaled(a.m41, a.m42, a.m43, a.m44, b.m12, b.m22, b.m32, b.m42, k);
    lemma_dot_scaled(a.m41, a.m42, a.m43, a.m44, b.m13, b.m23, b.m33, b.m43, k);
    lemma_dot_scaled(a.m41, a.m42, a.m43, a.m44, b.m14, b.m24, b.m34, b.m44, k);
}

/// Where the determinant times `k` is one, the adjugate times `k` is the
/// inverse on either side.
pub proof fn lemma_unimodular(m: Matrix4<int>, k: int)
    requires
        det4(m) * k == 1,
    ensures
        times(scaled(adj4(m), k), m) == diagonal(1),
        times(m, scaled(adj4(m), k)) == diagonal(1),
{
    lemma_times_scaled(adj4(m), m, k);
    lemma_times_scaled(m, adj4(m), k);
    lemma_adjugate_times(m);
    lemma_times_adjugate(m);
    lemma_mul_basics(k);
    let d = det4(m);
    assert(scaled(diagonal(d), k) == diagonal(d * k));
}

/// A product of four factors of which one is zero is zero.
proof fn lemma_zero_factor(a: int, b: int, c: int, d: int)
    ensures
        a == 0 || b == 0 || c == 0 || d == 0 ==> a * b * c * d == 0,
{
    lemma_mul_basics(a);
    lemma_mul_basics(b);
    lemma_mul_basics(c);
    lemma_mul_basics(d);
    lemma_mul_basics(a * b);
    lemma_mul_basics(a * b * c);
}

/// Each of the twenty-four products of the determinant that has a zero among
/// its factors is zero.
proof fn lemma_zero_products(m: Matrix4<int>)
    ensures
        (m.m14 == 0 || m.m23 == 0 || m.m32 == 0 || m.m41 == 0)
            ==> m.m14 * m.m23 * m.m32 * m.m41 == 0,
        (m.m13 == 0 || m.m24 == 0 || m.m32 == 0 || m.m41 == 0)
            ==> m.m13 * m.m24 * m.m32 * m.m41 == 0,
        (m.m14 == 0 || m.m22 == 0 || m.m33 == 0 || m.m41 == 0)
            ==> m.m14 * m.m22 * m.m33 * m.m41 == 0,
        (m.m12 == 0 || m.m24 == 0 || m.m33 == 0 || m.m41 == 0)
            ==> m.m12 * m.m24 * m.m33 * m.m41 == 0,
        (m.m13 == 0 || m.m22 == 0 || m.m34 == 0 || m.m41 == 0)
            ==> m.m13 * m.m22 * m.m34 * m.m41 == 0,
        (m.m12 == 0 || m.m23 == 0 || m.m34 == 0 || m.m41 == 0)
            ==> m.m12 * m.m23 * m.m34 * m.m41 == 0,
        (m.m14 == 0 || m.m23 == 0 || m.m31 == 0 || m.m42 == 0)
            ==> m.m14 * m.m23 * m.m31 * m.m42 == 0,
        (m.m13 == 0 || m.m24 == 0 || m.m31 == 0 || m.m42 == 0)
            ==> m.m13 * m.m24 * m.m31 * m.m42 == 0,
        (m.m14 == 0 || m.m21 == 0 || m.m33 == 0 || m.m42 == 0)
            ==> m.m14 * m.m21 * m.m33 * m.m42 == 0,
        (m.m11 == 0 || m.m24 == 0 || m.m33 == 0 || m.m42 == 0)
            ==> m.m11 * m.m24 * m.m33 * m.m42 == 0,
        (m.m13 == 0 || m.m21 == 0 || m.m34 == 0 || m.m42 == 0)
            ==> m.m13 * m.m21 * m.m34 * m.m42 == 0,
        (m.m11 == 0 || m.m23 == 0 || m.m34 == 0 || m.m42 == 0)
            ==> m.m11 * m.m23 * m.m34 * m.m42 == 0,
        (m.m14 == 0 || m.m22 == 0 || m.m31 == 0 || m.m43 == 0)
            ==> m.m14 * m.m22 * m.m31 * m.m43 == 0,
        (m.m12 == 0 || m.m24 == 0 || m.m31 == 0 || m.m43 == 0)
            ==> m.m12 * m.m24 * m.m31 * m.m43 == 0,
        (m.m14 == 0 || m.m21 == 0 || m.m32 == 0 || m.m43 == 0)
            ==> m.m14 * m.m21 * m.m32 * m.m43 == 0,
        (m.m11 == 0 || m.m24 == 0 || m.m32 == 0 || m.m43 == 0)
            ==> m.m11 * m.m24 * m.m32 * m.m43 == 0,
        (m.m12 == 0 || m.m21 == 0 || m.m34 == 0 || m.m43 == 0)
            ==> m.m12 * m.m21 * m.m34 * m.m43 == 0,
        (m.m11 == 0 || m.m22 == 0 || m.m34 == 0 || m.m43 == 0)
            ==> m.m11 * m.m22 * m.m34 * m.m43 == 0,
        (m.m13 == 0 || m.m22 == 0 || m.m31 == 0 || m.m44 == 0)
            ==> m.m13 * m.m22 * m.m31 * m.m44 == 0,
        (m.m12 == 0 || m.m23 == 0 || m.m31 == 0 || m.m44 == 0)
            ==> m.m12 * m.m23 * m.m31 * m.m44 == 0,
        (m.m13 == 0 || m.m21 == 0 || m.m32 == 0 || m.m44 == 0)
            ==> m.m13 * m.m21 * m.m32 * m.m44 == 0,
        (m.m11 == 0 || m.m23 == 0 || m.m32 == 0 || m.m44 == 0)
            ==> m.m11 * m.m23 * m.m32 * m.m44 == 0,
        (m.m12 == 0 || m.m21 == 0 || m.m33 == 0 || m.m44 == 0)
            ==> m.m12 * m.m21 * m.m33 * m.m44 == 0,
        (m.m11 == 0 || m.m22 == 0 || m.m33 == 0 || m.m44 == 0)
            ==> m.m11 * m.m22 * m.m33 * m.m44 == 0,
{
    lemma_zero_factor(m.m14, m.m23, m.m32, m.m41);
    lemma_zero_factor(m.m13, m.m24, m.m32, m.m41);
    lemma_zero_factor(m.m14, m.m22, m.m33, m.m41);
    lemma_zero_factor(m.m12, m.m24, m.m33, m.m41);
    lemma_zero_factor(m.m13, m.m22, m.m34, m.m41);
    lemma_zero_factor(m.m12, m.m23, m.m34, m.m41);
    lemma_zero_factor(m.m14, m.m23, m.m31, m.m42);
    lemma_zero_factor(m.m13, m.m24, m.m31, m.m42);
    lemma_zero_factor(m.m14, m.m21, m.m33, m.m42);
    lemma_zero_factor(m.m11, m.m24, m.m33, m.m42);
    lemma_zero_factor(m.m13, m.m21, m.m34, m.m42);
    lemma_zero_factor(m.m11, m.m23, m.m34, m.m42);
    lemma_zero_factor(m.m14, m.m22, m.m31, m.m43);
    lemma_zero_factor(m.m12, m.m24, m.m31, m.m43);
    lemma_zero_factor(m.m14, m.m21, m.m32, m.m43);
    lemma_zero_factor(m.m11, m.m24, m.m32, m.m43);
    lemma_zero_factor(m.m12, m.m21, m.m34, m.m43);
    lemma_zero_factor(m.m11, m.m22, m.m34, m.m43);
    lemma_zero_factor(m.m13, m.m22, m.m31, m.m44);
    lemma_zero_factor(m.m12, m.m23, m.m31, m.m44);
    lemma_zero_factor(m.m13, m.m21, m.m32, m.m44);
    lemma_zero_factor(m.m11, m.m23, m.m32, m.m44);
    lemma_zero_factor(m.m12, m.m21, m.m33, m.m44);
    lemma_zero_factor(m.m11, m.m22, m.m33, m.m44);
}

/// A matrix with a row of zeros has the determinant zero.
pub proof fn lemma_zero_row(m: Matrix4<int>)
    requires
        ({
        ||| m.m11 == 0 && m.m12 == 0 && m.m13 == 0 && m.m14 == 0
        ||| m.m21 == 0 && m.m22 == 0 && m.m23 == 0 && m.m24 == 0
        ||| m.m31 == 0 && m.m32 == 0 && m.m33 == 0 && m.m34 == 0
        ||| m.m41 == 0 && m.m42 == 0 && m.m43 == 0 && m.m44 == 0
        }),
    ensures
        det4(m) == 0,
{
    lemma_zero_products(m);
}

/// The point `(x, y, z, w)`, as a row, times the matrix.
pub open spec fn apply(m: Matrix4<int>, p: Point4D<int>) -> Point4D<int> {
    Point4D {
        x: p.x * m.m11 + p.y * m.m21 + p.z * m.m31 + p.w * m.m41,
        y: p.x * m.m12 + p.y * m.m22 + p.z * m.m32 + p.w * m.m42,
        z: p.x * m.m13 + p.y * m.m23 + p.z * m.m33 + p.w * m.m43,
        w: p.x * m.m14 + p.y * m.m24 + p.z * m.m34 + p.w * m.m44,
    }
}

/// A row `(px, py, pz, pw)` times one column of a product of two matrices is
/// the row times the first matrix, times the column of the second.
proof fn lemma_row_times_product(
    px: int,
    py: int,
    pz: int,
    pw: int,
    a11: int,
    a12: int,
    a13: int,
    a14: int,
    a21: int,
    a22: int,
    a23: int,
    a24: int,
    a31: int,
    a32: int,
    a33: int,
    a34: int,
    a41: int,
    a42: int,
    a43: int,
    a44: int,
    b1: int,
    b2: int,
    b3: int,
    b4: int,
)
    ensures
        px * (a11 * b1 + a12 * b2 + a13 * b3 + a14 * b4)
            + py * (a21 * b1 + a22 * b2 + a23 * b3 + a24 * b4)
            + pz * (a31 * b1 + a32 * b2 + a33 * b3 + a34 * b4)
            + pw * (a41 * b1 + a42 * b2 + a43 * b3 + a44 * b4)
            == {
            (px * a11 + py * a21 + pz * a31 + pw * a41) * b1
            + (px * a12 + py * a22 + pz * a32 + pw * a42) * b2
            + (px * a13 + py * a23 + pz * a33 + pw * a43) * b3
            + (px * a14 + py * a24 + pz * a34 + pw * a44) * b4
        },
{
    lemma_mul_is_distributive_add(px, a11 * b1 + a12 * b2 + a13 * b3, a14 * b4);
    lemma_mul_is_distributive_add(px, a11 * b1 + a12 * b2, a13 * b3);
    lemma_mul_is_distributive_add(px, a11 * b1, a12 * b2);
    lemma_mul_is_associative(px, a11, b1);
    lemma_mul_is_associative(px, a12, b2);
    lemma_mul_is_associative(px, a13, b3);
    lemma_mul_is_associative(px, a14, b4);
    lemma_mul_is_distributive_add(py, a21 * b1 + a22 * b2 + a23 * b3, a24 * b4);
    lemma_mul_is_distributive_add(py, a21 * b1 + a22 * b2, a23 * b3);
    lemma_mul_is_distributive_add(py, a21 * b1, a22 * b2);
    lemma_mul_is_associative(py, a21, b1);
    lemma_mul_is_associative(py, a22, b2);
    lemma_mul_is_associative(py, a23, b3);
    lemma_mul_is_associative(py, a24, b4);
    lemma_mul_is_distributive_add(pz, a31 * b1 + a32 * b2 + a33 * b3, a34 * b4);
    lemma_mul_is_distributive_add(pz, a31 * b1 + a32 * b2, a33 * b3);
    lemma_mul_is_distributive_add(pz, a31 * b1, a32 * b2);
    lemma_mul_is_associative(pz, a31, b1);
    lemma_mul_is_associative(pz, a32, b2);
    lemma_mul_is_associative(pz, a33, b3);
    lemma_mul_is_associative(pz, a34, b4);
    lemma_mul_is_distributive_add(pw, a41 * b1 + a42 * b2 + a43 * b3, a44 * b4);
    lemma_mul_is_distributive_add(pw, a41 * b1 + a42 * b2, a43 * b3);
    lemma_mul_is_distributive_add(pw, a41 * b1, a42 * b2);
    lemma_mul_is_associative(pw, a41, b1);
    lemma_mul_is_associative(pw, a42, b2);
    lemma_mul_is_associative(pw, a43, b3);
    lemma_mul_is_associative(pw, a44, b4);
    lemma_mul_is_distributive_add_other_way(b1, px * a11 + py * a21 + pz * a31, pw * a41);
    lemma_mul_is_distributive_add_other_way(b1, px * a11 + py * a21, pz * a31);
    lemma_mul_is_distributive_add_other_way(b1, px * a11, py * a21);
    lemma_mul_is_distributive_add_other_way(b2, px * a12 + py * a22 + pz * a32, pw * a42);
    lemma_mul_is_distributive_add_other_way(b2, px * a12 + py * a22, pz * a32);
    lemma_mul_is_distributive_add_other_way(b2, px * a12, py * a22);
    lemma_mul_is_distributive_add_other_way(b3, px * a13 + py * a23 + pz * a33, pw * a43);
    lemma_mul_is_distributive_add_other_way(b3, px * a13 + py * a23, pz * a33);
    lemma_mul_is_distributive_add_other_way(b3, px * a13, py * a23);
    lemma_mul_is_distributive_add_other_way(b4, px * a14 + py * a24 + pz * a34, pw * a44);
    lemma_mul_is_distributive_add_other_way(b4, px * a14 + py * a24, pz * a34);
    lemma_mul_is_distributive_add_other_way(b4, px * a14, py * a24);
}

/// The product of two matrices moves a point as the first matrix and then the
/// second do.
pub proof fn lemma_apply_times(a: Matrix4<int>, b: Matrix4<int>, p: Point4D<int>)
    ensures
        apply(times(a, b), p) == apply(b, apply(a, p)),
{
    lemma_row_times_product(
        p.x, p.y, p.z, p.w,
        a.m11, a.m12, a.m13, a.m14,
        a.m21, a.m22, a.m23, a.m24,
        a.m31, a.m32, a.m33, a.m34,
        a.m41, a.m42, a.m43, a.m44,
        b.m11, b.m21, b.m31, b.m41,
    );
    lemma_row_times_product(
        p.x, p.y, p.z, p.w,
        a.m11, a.m12, a.m13, a.m14,
        a.m21, a.m22, a.m23, a.m24,
        a.m31, a.m32, a.m33, a.m34,
        a.m41, a.m42, a.m43, a.m44,
        b.m12, b.m22, b.m32, b.m42,
    );
    lemma_row_times_product(
        p.x, p.y, p.z, p.w,
        a.m11, a.m12, a.m13, a.m14,
        a.m21, a.m22, a.m23, a.m24,
        a.m31, a.m32, a.m33, a.m34,
        a.m41, a.m42, a.m43, a.m44,
        b.m13, b.m23, b.m33, b.m43,
    );
    lemma_row_times_product(
        p.x, p.y, p.z, p.w,
        a.m11, a.m12, a.m13, a.m14,
        a.m21, a.m22, a.m23, a.m24,
        a.m31, a.m32, a.m33, a.m34,
        a.m41, a.m42, a.m43, a.m44,
        b.m14, b.m24, b.m34, b.m44,
    );
}

/// A product of three factors is the same in every order of the three.
proof fn lemma_reorder3(a: int, b: int, c: int)
    ensures
        a * b * c == a * c * b,
        a * b * c == b * a * c,
        a * b * c == b * c * a,
        a * b * c == c * a * b,
        a * b * c == c * b * a,
{
    lemma_mul_is_commutative(a, b);
    lemma_swap(a, b, c);
    lemma_swap(b, a, c);
    lemma_mul_is_commutative(a, c);
    lemma_mul_is_commutative(b, c);
}

/// The dot product of two vectors of integers.
pub open spec fn dot3(a: Point3D<int>, b: Point3D<int>) -> int {
    a.x * b.x + a.y * b.y + a.z * b.z
}

/// The cross product of two vectors of integers.
pub open spec fn cross3(a: Point3D<int>, b: Point3D<int>) -> Point3D<int> {
    Point3D { x: a.y * b.z - a.z * b.y, y: a.z * b.x - a.x * b.z, z: a.x * b.y - a.y * b.x }
}

/// The cross product is at right angles to both vectors, and changes sign when
/// the two change places.
pub proof fn lemma_cross3(a: Point3D<int>, b: Point3D<int>)
    ensures
        dot3(cross3(a, b), a) == 0,
        dot3(cross3(a, b), b) == 0,
        cross3(b, a).x == -cross3(a, b).x,
        cross3(b, a).y == -cross3(a, b).y,
        cross3(b, a).z == -cross3(a, b).z,
{
    lemma_mul_is_distributive_sub_other_way(a.x, a.y * b.z, a.z * b.y);
    lemma_mul_is_distributive_sub_other_way(a.y, a.z * b.x, a.x * b.z);
    lemma_mul_is_distributive_sub_other_way(a.z, a.x * b.y, a.y * b.x);
    lemma_mul_is_distributive_sub_other_way(b.x, a.y * b.z, a.z * b.y);
    lemma_mul_is_distributive_sub_other_way(b.y, a.z * b.x, a.x * b.z);
    lemma_mul_is_distributive_sub_other_way(b.z, a.x * b.y, a.y * b.x);
    lemma_reorder3(a.y, b.z, a.x);
    lemma_reorder3(a.z, b.y, a.x);
    lemma_reorder3(a.z, b.x, a.y);
    lemma_reorder3(a.x, b.z, a.y);
    lemma_reorder3(a.x, b.y, a.z);
    lemma_reorder3(a.y, b.x, a.z);
    lemma_reorder3(a.y, b.z, b.x);
    lemma_reorder3(a.z, b.y, b.x);
    lemma_reorder3(a.z, b.x, b.y);
    lemma_reorder3(a.x, b.z, b.y);
    lemma_reorder3(a.x, b.y, b.z);
    lemma_reorder3(a.y, b.x, b.z);
    lemma_mul_is_commutative(a.x, b.y);
    lemma_mul_is_commutative(a.x, b.z);
    lemma_mul_is_commutative(a.y, b.x);
    lemma_mul_is_commutative(a.y, b.z);
    lemma_mul_is_commutative(a.z, b.x);
    lemma_mul_is_commutative(a.z, b.y);
}

/// The point `(x, y, 0, 1)`, as a row, times the matrix, of which the first two
/// components are kept.
pub open spec fn apply2(m: Matrix4<int>, p: Point2D<int>) -> Point2D<int> {
    Point2D { x: p.x * m.m11 + p.y * m.m21 + m.m41, y: p.x * m.m12 + p.y * m.m22 + m.m42 }
}

/// Whether the matrix keeps the plane of the points `(x, y, 0, 1)`: its third
/// column is zero but for `m33`, and its fourth is `(0, 0, m34, 1)`.
pub open spec fn planar(m: Matrix4<int>) -> bool {
    m.m13 == 0 && m.m23 == 0 && m.m43 == 0 && m.m14 == 0 && m.m24 == 0 && m.m44 == 1
}

/// A row `(px, py, 1)` times one column of a product of two matrices of three
/// rows is the row times the first matrix, times the column of the second.
proof fn lemma_row_times_product2(
    px: int,
    py: int,
    a11: int,
    a12: int,
    a21: int,
    a22: int,
    a41: int,
    a42: int,
    b1: int,
    b2: int,
    b4: int,
)
    ensures
        px * (a11 * b1 + a12 * b2) + py * (a21 * b1 + a22 * b2) + (a41 * b1 + a42 * b2 + b4) == (px
            * a11 + py * a21 + a41) * b1 + (px * a12 + py * a22 + a42) * b2 + b4,
{
    lemma_mul_is_distributive_add(px, a11 * b1, a12 * b2);
    lemma_mul_is_distributive_add(py, a21 * b1, a22 * b2);
    lemma_mul_is_associative(px, a11, b1);
    lemma_mul_is_associative(px, a12, b2);
    lemma_mul_is_associative(py, a21, b1);
    lemma_mul_is_associative(py, a22, b2);
    lemma_mul_is_distributive_add_other_way(b1, px * a11 + py * a21, a41);
    lemma_mul_is_distributive_add_other_way(b1, px * a11, py * a21);
    lemma_mul_is_distributive_add_other_way(b2, px * a12 + py * a22, a42);
    lemma_mul_is_distributive_add_other_way(b2, px * a12, py * a22);
}

/// The product of two matrices moves a point of the plane as the first matrix
/// and then the second do, where the first keeps the plane.
pub proof fn lemma_apply2_times(a: Matrix4<int>, b: Matrix4<int>, p: Point2D<int>)
    requires
        planar(a),
    ensures
        apply2(times(a, b), p) == apply2(b, apply2(a, p)),
{
    lemma_row_times_product2(
        p.x, p.y, a.m11, a.m12, a.m21, a.m22, a.m41, a.m42, b.m11, b.m21, b.m41,
    );
    lemma_row_times_product2(
        p.x, p.y, a.m11, a.m12, a.m21, a.m22, a.m41, a.m42, b.m12, b.m22, b.m42,
    );
    lemma_mul_basics(b.m31);
    lemma_mul_basics(b.m32);
    lemma_mul_basics(b.m41);
    lemma_mul_basics(b.m42);
}

/// The rotation about the axis `(x, y, z)` by the angle whose half has the sine
/// `s` and the cosine `c`, as a unit quaternion gives it.
pub open spec fn rotation(x: int, y: int, z: int, s: int, c: int) -> Matrix4<int> {
    let sq = s * s;
    let sc = s * c;
    Matrix4 {
        m11: 1 - 2 * (y * y + z * z) * sq,
        m12: 2 * (x * y * sq - z * sc),
        m13: 2 * (x * z * sq + y * sc),
        m14: 0,
        m21: 2 * (x * y * sq + z * sc),
        m22: 1 - 2 * (x * x + z * z) * sq,
        m23: 2 * (y * z * sq - x * sc),
        m24: 0,
        m31: 2 * (x * z * sq - y * sc),
        m32: 2 * (y * z * sq + x * sc),
        m33: 1 - 2 * (x * x + y * y) * sq,
        m34: 0,
        m41: 0,
        m42: 0,
        m43: 0,
        m44: 1,
    }
}

/// The matrix with `(a, b, c, 1)` on its diagonal and zero elsewhere.
pub open spec fn diagonal3(a: int, b: int, c: int) -> Matrix4<int> {
    Matrix4 {
        m11: a, m12: 0, m13: 0, m14: 0,
        m21: 0, m22: b, m23: 0, m24: 0,
        m31: 0, m32: 0, m33: c, m34: 0,
        m41: 0, m42: 0, m43: 0, m44: 1,
    }
}

/// The determinant of a matrix with zero off its diagonal and one at the end of
/// it is the product of the other three entries of the diagonal.
proof fn lemma_diagonal3_determinant(a: int, b: int, c: int)
    ensures
        det4(diagonal3(a, b, c)) == a * b * c,
{
    lemma_zero_products(diagonal3(a, b, c));
    lemma_mul_basics(a * b * c);
}

/// Three integers whose squares add up to one are a one or a minus one and two
/// zeros.
proof fn lemma_unit_axis(x: int, y: int, z: int)
    by (nonlinear_arith)
    requires
        x * x + y * y + z * z == 1,
    ensures
        (x * x == 1 && y == 0 && z == 0) || (x == 0 && y * y == 1 && z == 0) || (x == 0 && y == 0
            && z * z == 1),
{
}

/// Two integers whose squares add up to one are a one or a minus one and a
/// zero.
proof fn lemma_unit_pair(s: int, c: int)
    by (nonlinear_arith)
    requires
        s * s + c * c == 1,
    ensures
        (s * s == 1 && c == 0) || (s == 0 && c * c == 1),
{
}

/// Of a rotation about an axis along a coordinate, by an angle whose half has
/// the sine or the cosine zero, nothing is left off the diagonal.
proof fn lemma_rotation_is_diagonal(x: int, y: int, z: int, s: int, c: int)
    by (nonlinear_arith)
    requires
        (y == 0 && z == 0) || (x == 0 && z == 0) || (x == 0 && y == 0),
        s == 0 || c == 0,
    ensures
        x * y * (s * s) - z * (s * c) == 0,
        x * z * (s * s) + y * (s * c) == 0,
        x * y * (s * s) + z * (s * c) == 0,
        y * z * (s * s) - x * (s * c) == 0,
        x * z * (s * s) - y * (s * c) == 0,
        y * z * (s * s) + x * (s * c) == 0,
{
}

/// The three entries on the diagonal of such a rotation are all one, or one of
/// them is one and two are minus one: their product is one.
proof fn lemma_rotation_diagonal(xx: int, yy: int, zz: int, sq: int)
    by (nonlinear_arith)
    requires
        (xx == 1 && yy == 0 && zz == 0) || (xx == 0 && yy == 1 && zz == 0) || (xx == 0 && yy == 0
            && zz == 1),
        sq == 0 || sq == 1,
    ensures
        (1 - 2 * (yy + zz) * sq) * (1 - 2 * (xx + zz) * sq) * (1 - 2 * (xx + yy) * sq) == 1,
{
}

/// A rotation about an axis of length one has the determinant one. Among the
/// integers the axes of length one are the six along the coordinates, and the
/// sine and cosine of half the angle are those of a multiple of a quarter turn.
pub proof fn lemma_rotation_determinant(x: int, y: int, z: int, s: int, c: int)
    requires
        x * x + y * y + z * z == 1,
        s * s + c * c == 1,
    ensures
        det4(rotation(x, y, z, s, c)) == 1,
{
    lemma_unit_axis(x, y, z);
    lemma_unit_pair(s, c);
    lemma_rotation_is_diagonal(x, y, z, s, c);
    lemma_mul_basics(x);
    lemma_mul_basics(y);
    lemma_mul_basics(z);
    lemma_mul_basics(s);
    lemma_rotation_diagonal(x * x, y * y, z * z, s * s);
    let a = 1 - 2 * (y * y + z * z) * (s * s);
    let b = 1 - 2 * (x * x + z * z) * (s * s);
    let c3 = 1 - 2 * (x * x + y * y) * (s * s);
    assert(rotation(x, y, z, s, c) == diagonal3(a, b, c3));
    lemma_diagonal3_determinant(a, b, c3);
}

} // verus!
