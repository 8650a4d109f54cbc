//! A four by four matrix for transforms in homogeneous coordinates.

use crate::point::{Point2D, Point4D};
use crate::scalar::{
    approx_eq_eps,
    approx_eq_eps_spec,
    checked_add,
    checked_div,
    checked_mul,
    checked_neg,
    checked_sub,
    cofactor_even,
    cofactor_odd,
    defined,
    dot4,
    exact,
    ordered_exact,
    prod2,
    prod4,
    small,
    total,
    yields,
    Scalar,
};
use core::ops::Neg;
use vstd::prelude::*;
use vstd::std_specs::cmp::PartialEqSpec;

verus! {

/// A matrix of four rows and four columns; `m23` is the entry of row 2, column 3.
/// A point is a row vector and stands to the left of the matrix that transforms
/// it, so a translation has its offsets in row 4.
#[derive(Clone, Copy, Debug, PartialEq)]
pub struct Matrix4<T> {
    pub m11: T,
    pub m12: T,
    pub m13: T,
    pub m14: T,
    pub m21: T,
    pub m22: T,
    pub m23: T,
    pub m24: T,
    pub m31: T,
    pub m32: T,
    pub m33: T,
    pub m34: T,
    pub m41: T,
    pub m42: T,
    pub m43: T,
    pub m44: T,
}

impl<T> Matrix4<T> {
    /// The matrix with the given entries, row by row.
    pub fn new(
        m11: T, m12: T, m13: T, m14: T,
        m21: T, m22: T, m23: T, m24: T,
        m31: T, m32: T, m33: T, m34: T,
        m41: T, m42: T, m43: T, m44: T,
    ) -> (r: Matrix4<T>)
        ensures
            r == (Matrix4 {
                m11, m12, m13, m14,
                m21, m22, m23, m24,
                m31, m32, m33, m34,
                m41, m42, m43, m44,
            }),
    {
        Matrix4 {
            m11, m12, m13, m14,
            m21, m22, m23, m24,
            m31, m32, m33, m34,
            m41, m42, m43, m44,
        }
    }

    /// The matrix of the sixteen entries, where all of them exist.
    pub open spec fn gather(e: Matrix4<Option<T>>) -> Option<Matrix4<T>> {
        if {
            &&& e.m11 is Some && e.m12 is Some && e.m13 is Some && e.m14 is Some
            &&& e.m21 is Some && e.m22 is Some && e.m23 is Some && e.m24 is Some
            &&& e.m31 is Some && e.m32 is Some && e.m33 is Some && e.m34 is Some
            &&& e.m41 is Some && e.m42 is Some && e.m43 is Some && e.m44 is Some
        } {
            Some(
                Matrix4 {
                    m11: e.m11->0, m12: e.m12->0, m13: e.m13->0, m14: e.m14->0,
                    m21: e.m21->0, m22: e.m22->0, m23: e.m23->0, m24: e.m24->0,
                    m31: e.m31->0, m32: e.m32->0, m33: e.m33->0, m34: e.m34->0,
                    m41: e.m41->0, m42: e.m42->0, m43: e.m43->0, m44: e.m44->0,
                },
            )
        } else {
            None
        }
    }

    /// Row 1, from left to right.
    pub open spec fn row1(&self) -> (T, T, T, T) {
        (self.m11, self.m12, self.m13, self.m14)
    }

    /// Row 2, from left to right.
    pub open spec fn row2(&self) -> (T, T, T, T) {
        (self.m21, self.m22, self.m23, self.m24)
    }

    /// Row 3, from left to right.
    pub open spec fn row3(&self) -> (T, T, T, T) {
        (self.m31, self.m32, self.m33, self.m34)
    }

    /// Row 4, from left to right.
    pub open spec fn row4(&self) -> (T, T, T, T) {
        (self.m41, self.m42, self.m43, self.m44)
    }

    /// Column 1, from top to bottom.
    pub open spec fn col1(&self) -> (T, T, T, T) {
        (self.m11, self.m21, self.m31, self.m41)
    }

    /// Column 2, from top to bottom.
    pub open spec fn col2(&self) -> (T, T, T, T) {
        (self.m12, self.m22, self.m32, self.m42)
    }

    /// Column 3, from top to bottom.
    pub open spec fn col3(&self) -> (T, T, T, T) {
        (self.m13, self.m23, self.m33, self.m43)
    }

    /// Column 4, from top to bottom.
    pub open spec fn col4(&self) -> (T, T, T, T) {
        (self.m14, self.m24, self.m34, self.m44)
    }
}

/// The determinant of the three by three matrix with the rows `(a, b, c)`,
/// `(d, e, f)` and `(g, h, i)`.
#[inline]
fn even_cofactor<T: Scalar>(a: T, b: T, c: T, d: T, e: T, f: T, g: T, h: T, i: T) -> (r: T)
    requires
        defined::<T, T>(cofactor_even(a, b, c, d, e, f, g, h, i)),
    ensures
        yields::<T, T>(cofactor_even(a, b, c, d, e, f, g, h, i), r),
{
    b * f * g - c * e * g + c * d * h - a * f * h - b * d * i + a * e * i
}

/// Minus the determinant of the three by three matrix with the rows `(a, b, c)`,
/// `(d, e, f)` and `(g, h, i)`.
#[inline]
fn odd_cofactor<T: Scalar>(a: T, b: T, c: T, d: T, e: T, f: T, g: T, h: T, i: T) -> (r: T)
    requires
        defined::<T, T>(cofactor_odd(a, b, c, d, e, f, g, h, i)),
    ensures
        yields::<T, T>(cofactor_odd(a, b, c, d, e, f, g, h, i), r),
{
    c * e * g - b * f * g - c * d * h + a * f * h + b * d * i - a * e * i
}

impl<T: Scalar> Matrix4<T> {
    /// The matrix that leaves every point where it is.
    pub open spec fn identity_spec() -> Matrix4<T> {
        Matrix4 {
            m11: small::<T>(1), m12: small::<T>(0), m13: small::<T>(0), m14: small::<T>(0),
            m21: small::<T>(0), m22: small::<T>(1), m23: small::<T>(0), m24: small::<T>(0),
            m31: small::<T>(0), m32: small::<T>(0), m33: small::<T>(1), m34: small::<T>(0),
            m41: small::<T>(0), m42: small::<T>(0), m43: small::<T>(0), m44: small::<T>(1),
        }
    }

    /// The identity matrix.
    pub fn identity() -> (r: Matrix4<T>)
        ensures
            yields::<T, Matrix4<T>>(Some(Self::identity_spec()), r),
    {
        Matrix4::new(
            T::from(1i8), T::from(0i8), T::from(0i8), T::from(0i8),
            T::from(0i8), T::from(1i8), T::from(0i8), T::from(0i8),
            T::from(0i8), T::from(0i8), T::from(1i8), T::from(0i8),
            T::from(0i8), T::from(0i8), T::from(0i8), T::from(1i8),
        )
    }

    /// The entry in row `i`, column `j` of the product is row `i` of `self` times
    /// column `j` of `m`: row `i` of the product is the rows of `m` combined with
    /// the entries of row `i` of `self`. The product transforms a point as `self`
    /// does first and `m` does after.
    pub open spec fn mul_spec(&self, m: &Matrix4<T>) -> Option<Matrix4<T>> {
        Self::gather(
            Matrix4 {
                m11: dot4(self.row1(), m.col1()), m12: dot4(self.row1(), m.col2()),
                m13: dot4(self.row1(), m.col3()), m14: dot4(self.row1(), m.col4()),
                m21: dot4(self.row2(), m.col1()), m22: dot4(self.row2(), m.col2()),
                m23: dot4(self.row2(), m.col3()), m24: dot4(self.row2(), m.col4()),
                m31: dot4(self.row3(), m.col1()), m32: dot4(self.row3(), m.col2()),
                m33: dot4(self.row3(), m.col3()), m34: dot4(self.row3(), m.col4()),
                m41: dot4(self.row4(), m.col1()), m42: dot4(self.row4(), m.col2()),
                m43: dot4(self.row4(), m.col3()), m44: dot4(self.row4(), m.col4()),
            },
        )
    }

    /// The product of two matrices: the transform `self` followed by the
    /// transform `m`.
    pub fn mul(&self, m: &Matrix4<T>) -> (r: Matrix4<T>)
        requires
            defined::<T, Matrix4<T>>(self.mul_spec(m)),
        ensures
            yields::<T, Matrix4<T>>(self.mul_spec(m), r),
    {
        Matrix4::new(
            self.m11 * m.m11 + self.m12 * m.m21 + self.m13 * m.m31 + self.m14 * m.m41,
            self.m11 * m.m12 + self.m12 * m.m22 + self.m13 * m.m32 + self.m14 * m.m42,
            self.m11 * m.m13 + self.m12 * m.m23 + self.m13 * m.m33 + self.m14 * m.m43,
            self.m11 * m.m14 + self.m12 * m.m24 + self.m13 * m.m34 + self.m14 * m.m44,
            self.m21 * m.m11 + self.m22 * m.m21 + self.m23 * m.m31 + self.m24 * m.m41,
            self.m21 * m.m12 + self.m22 * m.m22 + self.m23 * m.m32 + self.m24 * m.m42,
            self.m21 * m.m13 + self.m22 * m.m23 + self.m23 * m.m33 + self.m24 * m.m43,
            self.m21 * m.m14 + self.m22 * m.m24 + self.m23 * m.m34 + self.m24 * m.m44,
            self.m31 * m.m11 + self.m32 * m.m21 + self.m33 * m.m31 + self.m34 * m.m41,
            self.m31 * m.m12 + self.m32 * m.m22 + self.m33 * m.m32 + self.m34 * m.m42,
            self.m31 * m.m13 + self.m32 * m.m23 + self.m33 * m.m33 + self.m34 * m.m43,
            self.m31 * m.m14 + self.m32 * m.m24 + self.m33 * m.m34 + self.m34 * m.m44,
            self.m41 * m.m11 + self.m42 * m.m21 + self.m43 * m.m31 + self.m44 * m.m41,
            self.m41 * m.m12 + self.m42 * m.m22 + self.m43 * m.m32 + self.m44 * m.m42,
            self.m41 * m.m13 + self.m42 * m.m23 + self.m43 * m.m33 + self.m44 * m.m43,
            self.m41 * m.m14 + self.m42 * m.m24 + self.m43 * m.m34 + self.m44 * m.m44,
        )
    }

    /// The determinant, as the sum of its twenty-four signed products, each
    /// multiplied from left to right and all added up from left to right.
    pub open spec fn determinant_spec(&self) -> Option<T> {
        let s = prod4(self.m14, self.m23, self.m32, self.m41);
        let s = checked_sub(s, prod4(self.m13, self.m24, self.m32, self.m41));
        let s = checked_sub(s, prod4(self.m14, self.m22, self.m33, self.m41));
        let s = checked_add(s, prod4(self.m12, self.m24, self.m33, self.m41));
        let s = checked_add(s, prod4(self.m13, self.m22, self.m34, self.m41));
        let s = checked_sub(s, prod4(self.m12, self.m23, self.m34, self.m41));
        let s = checked_sub(s, prod4(self.m14, self.m23, self.m31, self.m42));
        let s = checked_add(s, prod4(self.m13, self.m24, self.m31, self.m42));
        let s = checked_add(s, prod4(self.m14, self.m21, self.m33, self.m42));
        let s = checked_sub(s, prod4(self.m11, self.m24, self.m33, self.m42));
        let s = checked_sub(s, prod4(self.m13, self.m21, self.m34, self.m42));
        let s = checked_add(s, prod4(self.m11, self.m23, self.m34, self.m42));
        let s = checked_add(s, prod4(self.m14, self.m22, self.m31, self.m43));
        let s = checked_sub(s, prod4(self.m12, self.m24, self.m31, self.m43));
        let s = checked_sub(s, prod4(self.m14, self.m21, self.m32, self.m43));
        let s = checked_add(s, prod4(self.m11, self.m24, self.m32, self.m43));
        let s = checked_add(s, prod4(self.m12, self.m21, self.m34, self.m43));
        let s = checked_sub(s, prod4(self.m11, self.m22, self.m34, self.m43));
        let s = checked_sub(s, prod4(self.m13, self.m22, self.m31, self.m44));
        let s = checked_add(s, prod4(self.m12, self.m23, self.m31, self.m44));
        let s = checked_add(s, prod4(self.m13, self.m21, self.m32, self.m44));
        let s = checked_sub(s, prod4(self.m11, self.m23, self.m32, self.m44));
        let s = checked_sub(s, prod4(self.m12, self.m21, self.m33, self.m44));
        let s = checked_add(s, prod4(self.m11, self.m22, self.m33, self.m44));
        s
    }

    /// The determinant of the matrix.
    pub fn determinant(&self) -> (r: T)
        requires
            defined::<T, T>(self.determinant_spec()),
        ensures
            yields::<T, T>(self.determinant_spec(), r),
    {
        self.m14 * self.m23 * self.m32 * self.m41 -
        self.m13 * self.m24 * self.m32 * self.m41 -
        self.m14 * self.m22 * self.m33 * self.m41 +
        self.m12 * self.m24 * self.m33 * self.m41 +
        self.m13 * self.m22 * self.m34 * self.m41 -
        self.m12 * self.m23 * self.m34 * self.m41 -
        self.m14 * self.m23 * self.m31 * self.m42 +
        self.m13 * self.m24 * self.m31 * self.m42 +
        self.m14 * self.m21 * self.m33 * self.m42 -
        self.m11 * self.m24 * self.m33 * self.m42 -
        self.m13 * self.m21 * self.m34 * self.m42 +
        self.m11 * self.m23 * self.m34 * self.m42 +
        self.m14 * self.m22 * self.m31 * self.m43 -
        self.m12 * self.m24 * self.m31 * self.m43 -
        self.m14 * self.m21 * self.m32 * self.m43 +
        self.m11 * self.m24 * self.m32 * self.m43 +
        self.m12 * self.m21 * self.m34 * self.m43 -
        self.m11 * self.m22 * self.m34 * self.m43 -
        self.m13 * self.m22 * self.m31 * self.m44 +
        self.m12 * self.m23 * self.m31 * self.m44 +
        self.m13 * self.m21 * self.m32 * self.m44 -
        self.m11 * self.m23 * self.m32 * self.m44 -
        self.m12 * self.m21 * self.m33 * self.m44 +
        self.m11 * self.m22 * self.m33 * self.m44
    }

    /// The adjugate: the entry in row `i`, column `j` is the determinant of what
    /// is left of the matrix without row `j` and column `i`, negated where
    /// `i + j` is odd.
    pub open spec fn adjugate_spec(&self) -> Option<Matrix4<T>> {
        Self::gather(
            Matrix4 {
                m11: cofactor_even(
                    self.m22, self.m23, self.m24,
                    self.m32, self.m33, self.m34,
                    self.m42, self.m43, self.m44,
                ),
                m12: cofactor_odd(
                    self.m12, self.m13, self.m14,
                    self.m32, self.m33, self.m34,
                    self.m42, self.m43, self.m44,
                ),
                m13: cofactor_even(
                    self.m12, self.m13, self.m14,
                    self.m22, self.m23, self.m24,
                    self.m42, self.m43, self.m44,
                ),
                m14: cofactor_odd(
                    self.m12, self.m13, self.m14,
                    self.m22, self.m23, self.m24,
                    self.m32, self.m33, self.m34,
                ),
                m21: cofactor_odd(
                    self.m21, self.m23, self.m24,
                    self.m31, self.m33, self.m34,
                    self.m41, self.m43, self.m44,
                ),
                m22: cofactor_even(
                    self.m11, self.m13, self.m14,
                    self.m31, self.m33, self.m34,
                    self.m41, self.m43, self.m44,
                ),
                m23: cofactor_odd(
                    self.m11, self.m13, self.m14,
                    self.m21, self.m23, self.m24,
                    self.m41, self.m43, self.m44,
                ),
                m24: cofactor_even(
                    self.m11, self.m13, self.m14,
                    self.m21, self.m23, self.m24,
                    self.m31, self.m33, self.m34,
                ),
                m31: cofactor_even(
                    self.m21, self.m22, self.m24,
                    self.m31, self.m32, self.m34,
                    self.m41, self.m42, self.m44,
                ),
                m32: cofactor_odd(
                    self.m11, self.m12, self.m14,
                    self.m31, self.m32, self.m34,
                    self.m41, self.m42, self.m44,
                ),
                m33: cofactor_even(
                    self.m11, self.m12, self.m14,
                    self.m21, self.m22, self.m24,
                    self.m41, self.m42, self.m44,
                ),
                m34: cofactor_odd(
                    self.m11, self.m12, self.m14,
                    self.m21, self.m22, self.m24,
                    self.m31, self.m32, self.m34,
                ),
                m41: cofactor_odd(
                    self.m21, self.m22, self.m23,
                    self.m31, self.m32, self.m33,
                    self.m41, self.m42, self.m43,
                ),
                m42: cofactor_even(
                    self.m11, self.m12, self.m13,
                    self.m31, self.m32, self.m33,
                    self.m41, self.m42, self.m43,
                ),
                m43: cofactor_odd(
                    self.m11, self.m12, self.m13,
                    self.m21, self.m22, self.m23,
                    self.m41, self.m42, self.m43,
                ),
                m44: cofactor_even(
                    self.m11, self.m12, self.m13,
                    self.m21, self.m22, self.m23,
                    self.m31, self.m32, self.m33,
                ),
            },
        )
    }

    /// The identity where the determinant is zero, else the adjugate with each
    /// entry multiplied by `1 / determinant`.
    pub open spec fn invert_spec(&self) -> Option<Matrix4<T>> {
        match self.determinant_spec() {
            Some(det) => if det.eq_spec(&small::<T>(0)) {
                Some(Self::identity_spec())
            } else {
                match (self.adjugate_spec(), checked_div(Some(small::<T>(1)), Some(det))) {
                    (Some(adj), Some(k)) => adj.mul_s_spec(k),
                    _ => None,
                }
            },
            None => None,
        }
    }

    /// The inverse of the matrix. A matrix whose determinant is zero has none:
    /// for such a matrix the result is the identity.
    pub fn invert(&self) -> (r: Matrix4<T>)
        requires
            defined::<T, Matrix4<T>>(self.invert_spec()),
        ensures
            yields::<T, Matrix4<T>>(self.invert_spec(), r),
            exact::<T>() && (self.determinant_spec() matches Some(d) && d.eq_spec(
                &small::<T>(0),
            )) ==> r == Self::identity_spec(),
    {
        let det = self.determinant();

        if det == T::from(0i8) {
            return Matrix4::identity();
        }
        let m = Matrix4::new(
            even_cofactor(
                self.m22, self.m23, self.m24,
                self.m32, self.m33, self.m34,
                self.m42, self.m43, self.m44,
            ),
            odd_cofactor(
                self.m12, self.m13, self.m14,
                self.m32, self.m33, self.m34,
                self.m42, self.m43, self.m44,
            ),
            even_cofactor(
                self.m12, self.m13, self.m14,
                self.m22, self.m23, self.m24,
                self.m42, self.m43, self.m44,
            ),
            odd_cofactor(
                self.m12, self.m13, self.m14,
                self.m22, self.m23, self.m24,
                self.m32, self.m33, self.m34,
            ),
            odd_cofactor(
                self.m21, self.m23, self.m24,
                self.m31, self.m33, self.m34,
                self.m41, self.m43, self.m44,
            ),
            even_cofactor(
                self.m11, self.m13, self.m14,
                self.m31, self.m33, self.m34,
                self.m41, self.m43, self.m44,
            ),
            odd_cofactor(
                self.m11, self.m13, self.m14,
                self.m21, self.m23, self.m24,
                self.m41, self.m43, self.m44,
            ),
            even_cofactor(
                self.m11, self.m13, self.m14,
                self.m21, self.m23, self.m24,
                self.m31, self.m33, self.m34,
            ),
            even_cofactor(
                self.m21, self.m22, self.m24,
                self.m31, self.m32, self.m34,
                self.m41, self.m42, self.m44,
            ),
            odd_cofactor(
                self.m11, self.m12, self.m14,
                self.m31, self.m32, self.m34,
                self.m41, self.m42, self.m44,
            ),
            even_cofactor(
                self.m11, self.m12, self.m14,
                self.m21, self.m22, self.m24,
                self.m41, self.m42, self.m44,
            ),
            odd_cofactor(
                self.m11, self.m12, self.m14,
                self.m21, self.m22, self.m24,
                self.m31, self.m32, self.m34,
            ),
            odd_cofactor(
                self.m21, self.m22, self.m23,
                self.m31, self.m32, self.m33,
                self.m41, self.m42, self.m43,
            ),
            even_cofactor(
                self.m11, self.m12, self.m13,
                self.m31, self.m32, self.m33,
                self.m41, self.m42, self.m43,
            ),
            odd_cofactor(
                self.m11, self.m12, self.m13,
                self.m21, self.m22, self.m23,
                self.m41, self.m42, self.m43,
            ),
            even_cofactor(
                self.m11, self.m12, self.m13,
                self.m21, self.m22, self.m23,
                self.m31, self.m32, self.m33,
            ),
        );

        m.mul_s(T::from(1i8) / det)
    }

    /// Every entry times `x`.
    pub open spec fn mul_s_spec(&self, x: T) -> Option<Matrix4<T>> {
        Self::gather(
            Matrix4 {
                m11: prod2(self.m11, x), m12: prod2(self.m12, x),
                m13: prod2(self.m13, x), m14: prod2(self.m14, x),
                m21: prod2(self.m21, x), m22: prod2(self.m22, x),
                m23: prod2(self.m23, x), m24: prod2(self.m24, x),
                m31: prod2(self.m31, x), m32: prod2(self.m32, x),
                m33: prod2(self.m33, x), m34: prod2(self.m34, x),
                m41: prod2(self.m41, x), m42: prod2(self.m42, x),
                m43: prod2(self.m43, x), m44: prod2(self.m44, x),
            },
        )
    }

    /// The matrix with every entry multiplied by `x`.
    pub fn mul_s(&self, x: T) -> (r: Matrix4<T>)
        requires
            defined::<T, Matrix4<T>>(self.mul_s_spec(x)),
        ensures
            yields::<T, Matrix4<T>>(self.mul_s_spec(x), r),
    {
        Matrix4::new(
            self.m11 * x, self.m12 * x, self.m13 * x, self.m14 * x,
            self.m21 * x, self.m22 * x, self.m23 * x, self.m24 * x,
            self.m31 * x, self.m32 * x, self.m33 * x, self.m34 * x,
            self.m41 * x, self.m42 * x, self.m43 * x, self.m44 * x,
        )
    }

    /// The same matrix but for three entries of the diagonal: `m11` times `x`,
    /// `m22` times `y`, `m33` times `z`.
    pub open spec fn scale_spec(&self, x: T, y: T, z: T) -> Option<Matrix4<T>> {
        Self::gather(
            Matrix4 {
                m11: prod2(self.m11, x), m12: Some(self.m12),
                m13: Some(self.m13), m14: Some(self.m14),
                m21: Some(self.m21), m22: prod2(self.m22, y),
                m23: Some(self.m23), m24: Some(self.m24),
                m31: Some(self.m31), m32: Some(self.m32),
                m33: prod2(self.m33, z), m34: Some(self.m34),
                m41: Some(self.m41), m42: Some(self.m42),
                m43: Some(self.m43), m44: Some(self.m44),
            },
        )
    }

    /// The matrix with the first three entries of its diagonal multiplied by `x`,
    /// `y` and `z`. Every other entry stays as it is.
    pub fn scale(&self, x: T, y: T, z: T) -> (r: Matrix4<T>)
        requires
            defined::<T, Matrix4<T>>(self.scale_spec(x, y, z)),
        ensures
            yields::<T, Matrix4<T>>(self.scale_spec(x, y, z), r),
            r.m12 == self.m12,
            r.m13 == self.m13,
            r.m14 == self.m14,
            r.m21 == self.m21,
            r.m23 == self.m23,
            r.m24 == self.m24,
            r.m31 == self.m31,
            r.m32 == self.m32,
            r.m34 == self.m34,
            r.m41 == self.m41,
            r.m42 == self.m42,
            r.m43 == self.m43,
            r.m44 == self.m44,
    {
        Matrix4::new(
            self.m11 * x, self.m12, self.m13, self.m14,
            self.m21, self.m22 * y, self.m23, self.m24,
            self.m31, self.m32, self.m33 * z, self.m34,
            self.m41, self.m42, self.m43, self.m44,
        )
    }

    /// `(x, y, 0, 1)` times the matrix, of which the first two components are
    /// kept.
    pub open spec fn transform_point_spec(&self, p: &Point2D<T>) -> Option<Point2D<T>> {
        Point2D::gather(
            checked_add(checked_add(prod2(p.x, self.m11), prod2(p.y, self.m21)), Some(self.m41)),
            checked_add(checked_add(prod2(p.x, self.m12), prod2(p.y, self.m22)), Some(self.m42)),
        )
    }

    /// Returns the given point transformed by this matrix.
    #[inline]
    pub fn transform_point(&self, p: &Point2D<T>) -> (r: Point2D<T>)
        requires
            defined::<T, Point2D<T>>(self.transform_point_spec(p)),
        ensures
            yields::<T, Point2D<T>>(self.transform_point_spec(p), r),
    {
        Point2D::new(
            p.x * self.m11 + p.y * self.m21 + self.m41,
            p.x * self.m12 + p.y * self.m22 + self.m42,
        )
    }

    /// The point `(x, y, z, w)`, as a row, times the matrix: each component of
    /// the result is the point times one column.
    pub open spec fn transform_point4d_spec(&self, p: &Point4D<T>) -> Option<Point4D<T>> {
        Point4D::gather(
            checked_add(
                checked_add(
                    checked_add(prod2(p.x, self.m11), prod2(p.y, self.m21)),
                    prod2(p.z, self.m31),
                ),
                prod2(p.w, self.m41),
            ),
            checked_add(
                checked_add(
                    checked_add(prod2(p.x, self.m12), prod2(p.y, self.m22)),
                    prod2(p.z, self.m32),
                ),
                prod2(p.w, self.m42),
            ),
            checked_add(
                checked_add(
                    checked_add(prod2(p.x, self.m13), prod2(p.y, self.m23)),
                    prod2(p.z, self.m33),
                ),
                prod2(p.w, self.m43),
            ),
            checked_add(
                checked_add(
                    checked_add(prod2(p.x, self.m14), prod2(p.y, self.m24)),
                    prod2(p.z, self.m34),
                ),
                prod2(p.w, self.m44),
            ),
        )
    }

    /// Returns the given point transformed by this matrix, in all four
    /// components. A point with `w` of one is moved by row 4 of the matrix, a
    /// direction, with `w` of zero, is not.
    #[inline]
    pub fn transform_point4d(&self, p: &Point4D<T>) -> (r: Point4D<T>)
        requires
            defined::<T, Point4D<T>>(self.transform_point4d_spec(p)),
        ensures
            yields::<T, Point4D<T>>(self.transform_point4d_spec(p), r),
    {
        let x = p.x * self.m11 + p.y * self.m21 + p.z * self.m31 + p.w * self.m41;
        let y = p.x * self.m12 + p.y * self.m22 + p.z * self.m32 + p.w * self.m42;
        let z = p.x * self.m13 + p.y * self.m23 + p.z * self.m33 + p.w * self.m43;
        let w = p.x * self.m14 + p.y * self.m24 + p.z * self.m34 + p.w * self.m44;
        Point4D::new(x, y, z, w)
    }

    /// The sixteen entries, row by row.
    pub fn to_array(&self) -> (r: [T; 16])
        ensures
            r@[0] == self.m11,
            r@[1] == self.m12,
            r@[2] == self.m13,
            r@[3] == self.m14,
            r@[4] == self.m21,
            r@[5] == self.m22,
            r@[6] == self.m23,
            r@[7] == self.m24,
            r@[8] == self.m31,
            r@[9] == self.m32,
            r@[10] == self.m33,
            r@[11] == self.m34,
            r@[12] == self.m41,
            r@[13] == self.m42,
            r@[14] == self.m43,
            r@[15] == self.m44,
    {
        [
            self.m11,
            self.m12,
            self.m13,
            self.m14,
            self.m21,
            self.m22,
            self.m23,
            self.m24,
            self.m31,
            self.m32,
            self.m33,
            self.m34,
            self.m41,
            self.m42,
            self.m43,
            self.m44,
        ]
    }

    /// `self`, then the translation by `(x, y, z)`.
    pub open spec fn translate_spec(&self, x: T, y: T, z: T) -> Option<Matrix4<T>> {
        self.mul_spec(&Self::create_translation_spec(x, y, z))
    }

    /// The transform that does what `self` does and then moves the point by
    /// `(x, y, z)`: the translation comes after `self`.
    pub fn translate(&self, x: T, y: T, z: T) -> (r: Matrix4<T>)
        requires
            defined::<T, Matrix4<T>>(self.translate_spec(x, y, z)),
        ensures
            yields::<T, Matrix4<T>>(self.translate_spec(x, y, z), r),
    {
        let matrix = Matrix4::new(
            T::from(1i8), T::from(0i8), T::from(0i8), T::from(0i8),
            T::from(0i8), T::from(1i8), T::from(0i8), T::from(0i8),
            T::from(0i8), T::from(0i8), T::from(1i8), T::from(0i8),
            x, y, z, T::from(1i8),
        );

        return self.mul(&matrix);
    }

    /// The identity but for row 4, which is `(x, y, z, 1)`.
    pub open spec fn create_translation_spec(x: T, y: T, z: T) -> Matrix4<T> {
        Matrix4 {
            m11: small::<T>(1), m12: small::<T>(0), m13: small::<T>(0), m14: small::<T>(0),
            m21: small::<T>(0), m22: small::<T>(1), m23: small::<T>(0), m24: small::<T>(0),
            m31: small::<T>(0), m32: small::<T>(0), m33: small::<T>(1), m34: small::<T>(0),
            m41: x, m42: y, m43: z, m44: small::<T>(1),
        }
    }

    /// Create a 3d translation matrix
    pub fn create_translation(x: T, y: T, z: T) -> (r: Matrix4<T>)
        ensures
            yields::<T, Matrix4<T>>(Some(Self::create_translation_spec(x, y, z)), r),
            r.m41 == x,
            r.m42 == y,
            r.m43 == z,
    {
        Matrix4::new(
            T::from(1i8), T::from(0i8), T::from(0i8), T::from(0i8),
            T::from(0i8), T::from(1i8), T::from(0i8), T::from(0i8),
            T::from(0i8), T::from(0i8), T::from(1i8), T::from(0i8),
            x, y, z, T::from(1i8),
        )
    }

    /// The matrix with `(x, y, z, 1)` on its diagonal and zero elsewhere.
    pub open spec fn create_scale_spec(x: T, y: T, z: T) -> Matrix4<T> {
        Matrix4 {
            m11: x, m12: small::<T>(0), m13: small::<T>(0), m14: small::<T>(0),
            m21: small::<T>(0), m22: y, m23: small::<T>(0), m24: small::<T>(0),
            m31: small::<T>(0), m32: small::<T>(0), m33: z, m34: small::<T>(0),
            m41: small::<T>(0), m42: small::<T>(0), m43: small::<T>(0), m44: small::<T>(1),
        }
    }

    /// Create a 3d scale matrix
    pub fn create_scale(x: T, y: T, z: T) -> (r: Matrix4<T>)
        ensures
            yields::<T, Matrix4<T>>(Some(Self::create_scale_spec(x, y, z)), r),
            r.m11 == x,
            r.m22 == y,
            r.m33 == z,
    {
        Matrix4::new(
            x, T::from(0i8), T::from(0i8), T::from(0i8),
            T::from(0i8), y, T::from(0i8), T::from(0i8),
            T::from(0i8), T::from(0i8), z, T::from(0i8),
            T::from(0i8), T::from(0i8), T::from(0i8), T::from(1i8),
        )
    }

    /// The projection that takes the box from `left` to `right`, from `bottom` to
    /// `top` and from `near` to `far` to the cube from -1 to 1: each axis is
    /// scaled by two over the length of its side (the third with the sign turned),
    /// and moved by minus the sum of its two limits over that length.
    pub open spec fn ortho_spec(left: T, right: T, bottom: T, top: T, near: T, far: T) -> Option<
        Matrix4<T>,
    > {
        let w = checked_sub(Some(right), Some(left));
        let h = checked_sub(Some(top), Some(bottom));
        let d = checked_sub(Some(far), Some(near));
        Self::gather(
            Matrix4 {
                m11: checked_div(Some(small::<T>(2)), w),
                m12: Some(small::<T>(0)),
                m13: Some(small::<T>(0)),
                m14: Some(small::<T>(0)),
                m21: Some(small::<T>(0)),
                m22: checked_div(Some(small::<T>(2)), h),
                m23: Some(small::<T>(0)),
                m24: Some(small::<T>(0)),
                m31: Some(small::<T>(0)),
                m32: Some(small::<T>(0)),
                m33: checked_div(Some(small::<T>(-2)), d),
                m34: Some(small::<T>(0)),
                m41: checked_neg(checked_div(checked_add(Some(right), Some(left)), w)),
                m42: checked_neg(checked_div(checked_add(Some(top), Some(bottom)), h)),
                m43: checked_neg(checked_div(checked_add(Some(far), Some(near)), d)),
                m44: Some(small::<T>(1)),
            },
        )
    }

    /// The orthographic projection of the box with the given six sides.
    pub fn ortho(left: T, right: T, bottom: T, top: T, near: T, far: T) -> (r: Matrix4<T>)
        requires
            defined::<T, Matrix4<T>>(Self::ortho_spec(left, right, bottom, top, near, far)),
        ensures
            yields::<T, Matrix4<T>>(Self::ortho_spec(left, right, bottom, top, near, far), r),
    {
        let tx = ((right + left) / (right - left)).neg();
        let ty = ((top + bottom) / (top - bottom)).neg();
        let tz = ((far + near) / (far - near)).neg();

        Matrix4::new(
            T::from(2i8) / (right - left), T::from(0i8), T::from(0i8), T::from(0i8),
            T::from(0i8), T::from(2i8) / (top - bottom), T::from(0i8), T::from(0i8),
            T::from(0i8), T::from(0i8), T::from(-2i8) / (far - near), T::from(0i8),
            tx, ty, tz, T::from(1i8),
        )
    }

    /// The rotation about the axis `(x, y, z)` by the angle whose half has the
    /// sine `sin_half` and the cosine `cos_half`, in the form that a unit
    /// quaternion gives. With `sq` the square of the sine and `sc` the sine times
    /// the cosine, the diagonal holds `1 - 2 * (yy + zz) * sq` and its like, and
    /// the entries off it `2 * (x * y * sq - z * sc)` and their like, where `xy`
    /// below stands for `x * y * sq` and `zs` for `z * sc`.
    pub open spec fn create_rotation_spec(x: T, y: T, z: T, sin_half: T, cos_half: T) -> Option<
        Matrix4<T>,
    > {
        let xx = prod2(x, x);
        let yy = prod2(y, y);
        let zz = prod2(z, z);
        let sc = prod2(sin_half, cos_half);
        let sq = prod2(sin_half, sin_half);
        let xy = checked_mul(prod2(x, y), sq);
        let xz = checked_mul(prod2(x, z), sq);
        let yz = checked_mul(prod2(y, z), sq);
        let xs = checked_mul(Some(x), sc);
        let ys = checked_mul(Some(y), sc);
        let zs = checked_mul(Some(z), sc);
        let zero = Some(small::<T>(0));
        let one = Some(small::<T>(1));
        let two = Some(small::<T>(2));
        Self::gather(
            Matrix4 {
                m11: checked_sub(one, checked_mul(checked_mul(two, checked_add(yy, zz)), sq)),
                m12: checked_mul(two, checked_sub(xy, zs)),
                m13: checked_mul(two, checked_add(xz, ys)),
                m14: zero,
                m21: checked_mul(two, checked_add(xy, zs)),
                m22: checked_sub(one, checked_mul(checked_mul(two, checked_add(xx, zz)), sq)),
                m23: checked_mul(two, checked_sub(yz, xs)),
                m24: zero,
                m31: checked_mul(two, checked_sub(xz, ys)),
                m32: checked_mul(two, checked_add(yz, xs)),
                m33: checked_sub(one, checked_mul(checked_mul(two, checked_add(xx, yy)), sq)),
                m34: zero,
                m41: zero,
                m42: zero,
                m43: zero,
                m44: one,
            },
        )
    }

    /// Create a 3d rotation matrix from an axis and the sine and the cosine of
    /// half the angle. The supplied axis must be normalized.
    pub fn create_rotation(x: T, y: T, z: T, sin_half: T, cos_half: T) -> (r: Matrix4<T>)
        requires
            defined::<T, Matrix4<T>>(Self::create_rotation_spec(x, y, z, sin_half, cos_half)),
        ensures
            yields::<T, Matrix4<T>>(Self::create_rotation_spec(x, y, z, sin_half, cos_half), r),
    {
        let xx = x * x;
        let yy = y * y;
        let zz = z * z;

        let sc = sin_half * cos_half;
        let sq = sin_half * sin_half;

        Matrix4::new(
            T::from(1i8) - T::from(2i8) * (yy + zz) * sq,
            T::from(2i8) * (x * y * sq - z * sc),
            T::from(2i8) * (x * z * sq + y * sc),
            T::from(0i8),

            T::from(2i8) * (x * y * sq + z * sc),
            T::from(1i8) - T::from(2i8) * (xx + zz) * sq,
            T::from(2i8) * (y * z * sq - x * sc),
            T::from(0i8),

            T::from(2i8) * (x * z * sq - y * sc),
            T::from(2i8) * (y * z * sq + x * sc),
            T::from(1i8) - T::from(2i8) * (xx + yy) * sq,
            T::from(0i8),

            T::from(0i8),
            T::from(0i8),
            T::from(0i8),
            T::from(1i8),
        )
    }

    /// The identity but for `m12`, which is `sx`, and `m21`, which is `sy`.
    pub open spec fn create_skew_spec(sy: T, sx: T) -> Matrix4<T> {
        Matrix4 {
            m11: small::<T>(1), m12: sx, m13: small::<T>(0), m14: small::<T>(0),
            m21: sy, m22: small::<T>(1), m23: small::<T>(0), m24: small::<T>(0),
            m31: small::<T>(0), m32: small::<T>(0), m33: small::<T>(1), m34: small::<T>(0),
            m41: small::<T>(0), m42: small::<T>(0), m43: small::<T>(0), m44: small::<T>(1),
        }
    }

    /// Create a 2d skew matrix from the tangents of its two angles: `tan_alpha`
    /// is what a point's `y` adds to its `x`, `tan_beta` what its `x` adds to its
    /// `y`.
    pub fn create_skew(tan_alpha: T, tan_beta: T) -> (r: Matrix4<T>)
        ensures
            yields::<T, Matrix4<T>>(Some(Self::create_skew_spec(tan_alpha, tan_beta)), r),
            r.m12 == tan_beta,
            r.m21 == tan_alpha,
    {
        let (sx, sy) = (tan_beta, tan_alpha);
        Matrix4::new(
            T::from(1i8), sx, T::from(0i8), T::from(0i8),
            sy, T::from(1i8), T::from(0i8), T::from(0i8),
            T::from(0i8), T::from(0i8), T::from(1i8), T::from(0i8),
            T::from(0i8), T::from(0i8), T::from(0i8), T::from(1i8),
        )
    }

    /// The identity but for `m34`, which is `-1 / d`.
    pub open spec fn create_perspective_spec(d: T) -> Option<Matrix4<T>> {
        Self::gather(
            Matrix4 {
                m11: Some(small::<T>(1)), m12: Some(small::<T>(0)),
                m13: Some(small::<T>(0)), m14: Some(small::<T>(0)),
                m21: Some(small::<T>(0)), m22: Some(small::<T>(1)),
                m23: Some(small::<T>(0)), m24: Some(small::<T>(0)),
                m31: Some(small::<T>(0)), m32: Some(small::<T>(0)),
                m33: Some(small::<T>(1)), m34: checked_div(Some(small::<T>(-1)), Some(d)),
                m41: Some(small::<T>(0)), m42: Some(small::<T>(0)),
                m43: Some(small::<T>(0)), m44: Some(small::<T>(1)),
            },
        )
    }

    /// Create a simple perspective projection matrix
    pub fn create_perspective(d: T) -> (r: Matrix4<T>)
        requires
            defined::<T, Matrix4<T>>(Self::create_perspective_spec(d)),
        ensures
            yields::<T, Matrix4<T>>(Self::create_perspective_spec(d), r),
    {
        Matrix4::new(
            T::from(1i8), T::from(0i8), T::from(0i8), T::from(0i8),
            T::from(0i8), T::from(1i8), T::from(0i8), T::from(0i8),
            T::from(0i8), T::from(0i8), T::from(1i8), T::from(-1i8) / d,
            T::from(0i8), T::from(0i8), T::from(0i8), T::from(1i8),
        )
    }
}

impl<T: Scalar + PartialOrd> Matrix4<T> {
    /// Whether each entry of `self` is less than `eps` apart from the same entry
    /// of `other`.
    pub open spec fn approx_eq_eps_spec(&self, other: &Matrix4<T>, eps: T) -> Option<bool> {
        if {
            &&& approx_eq_eps_spec(self.m11, other.m11, eps) is Some
            &&& approx_eq_eps_spec(self.m12, other.m12, eps) is Some
            &&& approx_eq_eps_spec(self.m13, other.m13, eps) is Some
            &&& approx_eq_eps_spec(self.m14, other.m14, eps) is Some
            &&& approx_eq_eps_spec(self.m21, other.m21, eps) is Some
            &&& approx_eq_eps_spec(self.m22, other.m22, eps) is Some
            &&& approx_eq_eps_spec(self.m23, other.m23, eps) is Some
            &&& approx_eq_eps_spec(self.m24, other.m24, eps) is Some
            &&& approx_eq_eps_spec(self.m31, other.m31, eps) is Some
            &&& approx_eq_eps_spec(self.m32, other.m32, eps) is Some
            &&& approx_eq_eps_spec(self.m33, other.m33, eps) is Some
            &&& approx_eq_eps_spec(self.m34, other.m34, eps) is Some
            &&& approx_eq_eps_spec(self.m41, other.m41, eps) is Some
            &&& approx_eq_eps_spec(self.m42, other.m42, eps) is Some
            &&& approx_eq_eps_spec(self.m43, other.m43, eps) is Some
            &&& approx_eq_eps_spec(self.m44, other.m44, eps) is Some
        } {
            Some(
                {
                    &&& approx_eq_eps_spec(self.m11, other.m11, eps)->0
                    &&& approx_eq_eps_spec(self.m12, other.m12, eps)->0
                    &&& approx_eq_eps_spec(self.m13, other.m13, eps)->0
                    &&& approx_eq_eps_spec(self.m14, other.m14, eps)->0
                    &&& approx_eq_eps_spec(self.m21, other.m21, eps)->0
                    &&& approx_eq_eps_spec(self.m22, other.m22, eps)->0
                    &&& approx_eq_eps_spec(self.m23, other.m23, eps)->0
                    &&& approx_eq_eps_spec(self.m24, other.m24, eps)->0
                    &&& approx_eq_eps_spec(self.m31, other.m31, eps)->0
                    &&& approx_eq_eps_spec(self.m32, other.m32, eps)->0
                    &&& approx_eq_eps_spec(self.m33, other.m33, eps)->0
                    &&& approx_eq_eps_spec(self.m34, other.m34, eps)->0
                    &&& approx_eq_eps_spec(self.m41, other.m41, eps)->0
                    &&& approx_eq_eps_spec(self.m42, other.m42, eps)->0
                    &&& approx_eq_eps_spec(self.m43, other.m43, eps)->0
                    &&& approx_eq_eps_spec(self.m44, other.m44, eps)->0
                },
            )
        } else {
            None
        }
    }

    /// Whether two matrices are equal up to `eps`, entry by entry.
    pub fn approx_eq_eps(&self, other: &Matrix4<T>, eps: T) -> (r: bool)
        requires
            if ordered_exact::<T>() {
                self.approx_eq_eps_spec(other, eps) is Some
            } else {
                total::<T>()
            },
        ensures
            ordered_exact::<T>() ==> self.approx_eq_eps_spec(other, eps) == Some(r),
    {
        approx_eq_eps(self.m11, other.m11, eps)
            && approx_eq_eps(self.m12, other.m12, eps)
            && approx_eq_eps(self.m13, other.m13, eps)
            && approx_eq_eps(self.m14, other.m14, eps)
            && approx_eq_eps(self.m21, other.m21, eps)
            && approx_eq_eps(self.m22, other.m22, eps)
            && approx_eq_eps(self.m23, other.m23, eps)
            && approx_eq_eps(self.m24, other.m24, eps)
            && approx_eq_eps(self.m31, other.m31, eps)
            && approx_eq_eps(self.m32, other.m32, eps)
            && approx_eq_eps(self.m33, other.m33, eps)
            && approx_eq_eps(self.m34, other.m34, eps)
            && approx_eq_eps(self.m41, other.m41, eps)
            && approx_eq_eps(self.m42, other.m42, eps)
            && approx_eq_eps(self.m43, other.m43, eps)
            && approx_eq_eps(self.m44, other.m44, eps)
    }
}

} // verus!
