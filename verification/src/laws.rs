//! What holds of points and of the matrix over the integers.
//!
//! The laws are stated of the specifications that the functions of the points
//! and of the matrix ensure, for any integral type of scalar. They say what the formulas compute,
//! and so hold of every call whose steps are all in range.

use crate::algebra::{
    adj4,
    apply,
    apply2,
    cross3,
    det4,
    diagonal,
    dot3,
    lemma_adjugate_times,
    lemma_apply2_times,
    lemma_apply_times,
    lemma_cross3,
    lemma_rotation_determinant,
    lemma_times_adjugate,
    lemma_unimodular,
    lemma_zero_row,
    rotation,
    scaled,
    times,
};
use crate::integral::{
    lemma_cofactor_ints,
    lemma_dot4_ints,
    lemma_dot4_unit,
    lemma_negation,
    lemma_one_and_zero,
    lemma_reciprocal_of_unit,
    lemma_small_times,
    Integral,
};
use crate::matrix::Matrix4;
use crate::point::{Point2D, Point3D, Point4D};
use crate::scalar::{prod2, small};
use vstd::arithmetic::mul::{
    lemma_mul_basics,
    lemma_mul_is_associative,
    lemma_mul_is_commutative,
};
use vstd::prelude::*;
use vstd::std_specs::ops::{AddSpec, MulSpec, NegSpec, SubSpec};

verus! {

impl<T: Integral> Matrix4<T> {
    /// The matrix of the integers that the entries stand for.
    pub open spec fn ints(self) -> Matrix4<int> {
        Matrix4 {
            m11: self.m11.val(), m12: self.m12.val(), m13: self.m13.val(), m14: self.m14.val(),
            m21: self.m21.val(), m22: self.m22.val(), m23: self.m23.val(), m24: self.m24.val(),
            m31: self.m31.val(), m32: self.m32.val(), m33: self.m33.val(), m34: self.m34.val(),
            m41: self.m41.val(), m42: self.m42.val(), m43: self.m43.val(), m44: self.m44.val(),
        }
    }
}

impl<T: Integral> Point2D<T> {
    /// The point of the integers that the components stand for.
    pub open spec fn ints(self) -> Point2D<int> {
        Point2D { x: self.x.val(), y: self.y.val() }
    }
}

impl<T: Integral> Point3D<T> {
    /// The point of the integers that the components stand for.
    pub open spec fn ints(self) -> Point3D<int> {
        Point3D { x: self.x.val(), y: self.y.val(), z: self.z.val() }
    }
}

impl<T: Integral> Point4D<T> {
    /// The point of the integers that the components stand for.
    pub open spec fn ints(self) -> Point4D<int> {
        Point4D { x: self.x.val(), y: self.y.val(), z: self.z.val(), w: self.w.val() }
    }
}

/// The dot product and the cross product, where they are defined, are those of
/// the integers.
pub proof fn lemma_dot_cross_ints<T: Integral>(a: Point3D<T>, b: Point3D<T>)
    ensures
        a.dot_spec(b) matches Some(d) ==> d.val() == dot3(a.ints(), b.ints()),
        a.cross_spec(b) matches Some(c) ==> c.ints() == cross3(a.ints(), b.ints()),
{
    T::lemma_integral();
}

/// The cross product of two vectors is at right angles to both: its dot product
/// with either, where the two products are defined, is zero.
pub proof fn law_cross_is_orthogonal<T: Integral>(a: Point3D<T>, b: Point3D<T>)
    requires
        a.cross_spec(b) is Some,
    ensures
        ({
            let c = a.cross_spec(b)->0;
            &&& c.dot_spec(a) is Some ==> c.dot_spec(a) == Some(small::<T>(0))
            &&& c.dot_spec(b) is Some ==> c.dot_spec(b) == Some(small::<T>(0))
        }),
{
    T::lemma_integral();
    let c = a.cross_spec(b)->0;
    lemma_dot_cross_ints(a, b);
    lemma_dot_cross_ints(c, a);
    lemma_dot_cross_ints(c, b);
    lemma_cross3(a.ints(), b.ints());
}

/// The cross product changes sign when the two vectors change places: where
/// `a` cross `b` is defined and can be negated, `b` cross `a` is its negation.
/// So it is for the cross product in the plane.
pub proof fn law_cross_is_antisymmetric<T: Integral>(
    a: Point3D<T>,
    b: Point3D<T>,
    u: Point2D<T>,
    v: Point2D<T>,
)
    ensures
        a.cross_spec(b) matches Some(c) ==> (c.neg_req() ==> b.cross_spec(a) == Some(
            c.neg_spec(),
        )),
        u.cross_spec(v) matches Some(c) ==> (c.neg_req() ==> v.cross_spec(u) == Some(
            c.neg_spec(),
        )),
{
    T::lemma_integral();
    lemma_mul_is_commutative(a.x.val(), b.y.val());
    lemma_mul_is_commutative(a.x.val(), b.z.val());
    lemma_mul_is_commutative(a.y.val(), b.x.val());
    lemma_mul_is_commutative(a.y.val(), b.z.val());
    lemma_mul_is_commutative(a.z.val(), b.x.val());
    lemma_mul_is_commutative(a.z.val(), b.y.val());
    lemma_mul_is_commutative(u.x.val(), v.y.val());
    lemma_mul_is_commutative(u.y.val(), v.x.val());
}

/// The determinant, where it is defined, is the determinant of the integers.
pub proof fn lemma_determinant_ints<T: Integral>(m: Matrix4<T>)
    ensures
        m.determinant_spec() matches Some(d) ==> d.val() == det4(m.ints()),
{
    T::lemma_integral();
}

/// The adjugate, where it is defined, is the adjugate of the integers.
pub proof fn lemma_adjugate_ints<T: Integral>(m: Matrix4<T>)
    ensures
        m.adjugate_spec() matches Some(a) ==> a.ints() == adj4(m.ints()),
{
    lemma_cofactor_ints(m.m22, m.m23, m.m24, m.m32, m.m33, m.m34, m.m42, m.m43, m.m44);
    lemma_cofactor_ints(m.m12, m.m13, m.m14, m.m32, m.m33, m.m34, m.m42, m.m43, m.m44);
    lemma_cofactor_ints(m.m12, m.m13, m.m14, m.m22, m.m23, m.m24, m.m42, m.m43, m.m44);
    lemma_cofactor_ints(m.m12, m.m13, m.m14, m.m22, m.m23, m.m24, m.m32, m.m33, m.m34);
    lemma_cofactor_ints(m.m21, m.m23, m.m24, m.m31, m.m33, m.m34, m.m41, m.m43, m.m44);
    lemma_cofactor_ints(m.m11, m.m13, m.m14, m.m31, m.m33, m.m34, m.m41, m.m43, m.m44);
    lemma_cofactor_ints(m.m11, m.m13, m.m14, m.m21, m.m23, m.m24, m.m41, m.m43, m.m44);
    lemma_cofactor_ints(m.m11, m.m13, m.m14, m.m21, m.m23, m.m24, m.m31, m.m33, m.m34);
    lemma_cofactor_ints(m.m21, m.m22, m.m24, m.m31, m.m32, m.m34, m.m41, m.m42, m.m44);
    lemma_cofactor_ints(m.m11, m.m12, m.m14, m.m31, m.m32, m.m34, m.m41, m.m42, m.m44);
    lemma_cofactor_ints(m.m11, m.m12, m.m14, m.m21, m.m22, m.m24, m.m41, m.m42, m.m44);
    lemma_cofactor_ints(m.m11, m.m12, m.m14, m.m21, m.m22, m.m24, m.m31, m.m32, m.m34);
    lemma_cofactor_ints(m.m21, m.m22, m.m23, m.m31, m.m32, m.m33, m.m41, m.m42, m.m43);
    lemma_cofactor_ints(m.m11, m.m12, m.m13, m.m31, m.m32, m.m33, m.m41, m.m42, m.m43);
    lemma_cofactor_ints(m.m11, m.m12, m.m13, m.m21, m.m22, m.m23, m.m41, m.m42, m.m43);
    lemma_cofactor_ints(m.m11, m.m12, m.m13, m.m21, m.m22, m.m23, m.m31, m.m32, m.m33);
}

/// The product, where it is defined, is the product of the integers, the
/// receiver on the left and the argument on the right.
pub proof fn lemma_mul_ints<T: Integral>(a: Matrix4<T>, b: Matrix4<T>)
    ensures
        a.mul_spec(&b) matches Some(p) ==> p.ints() == times(a.ints(), b.ints()),
{
    lemma_dot4_ints(a.row1(), b.col1());
    lemma_dot4_ints(a.row1(), b.col2());
    lemma_dot4_ints(a.row1(), b.col3());
    lemma_dot4_ints(a.row1(), b.col4());
    lemma_dot4_ints(a.row2(), b.col1());
    lemma_dot4_ints(a.row2(), b.col2());
    lemma_dot4_ints(a.row2(), b.col3());
    lemma_dot4_ints(a.row2(), b.col4());
    lemma_dot4_ints(a.row3(), b.col1());
    lemma_dot4_ints(a.row3(), b.col2());
    lemma_dot4_ints(a.row3(), b.col3());
    lemma_dot4_ints(a.row3(), b.col4());
    lemma_dot4_ints(a.row4(), b.col1());
    lemma_dot4_ints(a.row4(), b.col2());
    lemma_dot4_ints(a.row4(), b.col3());
    lemma_dot4_ints(a.row4(), b.col4());
}

/// The multiple, where it is defined, is the multiple of the integers.
pub proof fn lemma_mul_s_ints<T: Integral>(m: Matrix4<T>, k: T)
    ensures
        m.mul_s_spec(k) matches Some(r) ==> r.ints() == scaled(m.ints(), k.val()),
{
    T::lemma_integral();
}

/// A point moved by the matrix, where that is defined, is the point of the
/// integers moved by the matrix of the integers.
pub proof fn lemma_transform_point4d_ints<T: Integral>(m: Matrix4<T>, p: Point4D<T>)
    ensures
        m.transform_point4d_spec(&p) matches Some(q) ==> q.ints() == apply(m.ints(), p.ints()),
{
    T::lemma_integral();
}

/// A point of the plane moved by the matrix, where that is defined, is the point
/// of the integers moved by the matrix of the integers.
pub proof fn lemma_transform_point_ints<T: Integral>(m: Matrix4<T>, p: Point2D<T>)
    ensures
        m.transform_point_spec(&p) matches Some(q) ==> q.ints() == apply2(m.ints(), p.ints()),
{
    T::lemma_integral();
}

/// The rotation, where it is defined, is the rotation of the integers.
pub proof fn lemma_create_rotation_ints<T: Integral>(x: T, y: T, z: T, s: T, c: T)
    ensures
        Matrix4::create_rotation_spec(x, y, z, s, c) matches Some(r) ==> r.ints() == rotation(
            x.val(),
            y.val(),
            z.val(),
            s.val(),
            c.val(),
        ),
{
    T::lemma_integral();
    if Matrix4::create_rotation_spec(x, y, z, s, c) is Some {
        let xx = x.mul_spec(x);
        let yy = y.mul_spec(y);
        let zz = z.mul_spec(z);
        let sc = s.mul_spec(c);
        let sq = s.mul_spec(s);
        let xy = x.mul_spec(y).mul_spec(sq);
        let xz = x.mul_spec(z).mul_spec(sq);
        let yz = y.mul_spec(z).mul_spec(sq);
        let xs = x.mul_spec(sc);
        let ys = y.mul_spec(sc);
        let zs = z.mul_spec(sc);
        lemma_small_times(2, yy.add_spec(zz));
        lemma_small_times(2, xx.add_spec(zz));
        lemma_small_times(2, xx.add_spec(yy));
        lemma_small_times(2, xy.sub_spec(zs));
        lemma_small_times(2, xy.add_spec(zs));
        lemma_small_times(2, xz.sub_spec(ys));
        lemma_small_times(2, xz.add_spec(ys));
        lemma_small_times(2, yz.sub_spec(xs));
        lemma_small_times(2, yz.add_spec(xs));
    }
}

/// Two matrices of the same integers are the same matrix.
pub proof fn lemma_ints_injective<T: Integral>(a: Matrix4<T>, b: Matrix4<T>)
    ensures
        a.ints() == b.ints() ==> a == b,
{
    T::lemma_integral();
}

/// The identity is neutral: a matrix times the identity, on either side, is the
/// matrix itself, and the product is always defined.
pub proof fn law_mul_identity<T: Integral>(m: Matrix4<T>)
    ensures
        m.mul_spec(&Matrix4::identity_spec()) == Some(m),
        Matrix4::<T>::identity_spec().mul_spec(&m) == Some(m),
{
    lemma_dot4_unit(m.row1());
    lemma_dot4_unit(m.row2());
    lemma_dot4_unit(m.row3());
    lemma_dot4_unit(m.row4());
    lemma_dot4_unit(m.col1());
    lemma_dot4_unit(m.col2());
    lemma_dot4_unit(m.col3());
    lemma_dot4_unit(m.col4());
}

/// The product of two matrices is the one transform after the other:
/// `self.mul(m)` moves a point as `self` does first and `m` does after, wherever
/// the four of them are defined.
pub proof fn law_mul_composes<T: Integral>(a: Matrix4<T>, m: Matrix4<T>, p: Point4D<T>)
    requires
        a.mul_spec(&m) is Some,
        a.transform_point4d_spec(&p) is Some,
        m.transform_point4d_spec(&(a.transform_point4d_spec(&p)->0)) is Some,
        (a.mul_spec(&m)->0).transform_point4d_spec(&p) is Some,
    ensures
        (a.mul_spec(&m)->0).transform_point4d_spec(&p) == m.transform_point4d_spec(
            &(a.transform_point4d_spec(&p)->0),
        ),
{
    T::lemma_integral();
    let both = a.mul_spec(&m)->0;
    let q = a.transform_point4d_spec(&p)->0;
    lemma_mul_ints(a, m);
    lemma_transform_point4d_ints(a, p);
    lemma_transform_point4d_ints(m, q);
    lemma_transform_point4d_ints(both, p);
    lemma_apply_times(a.ints(), m.ints(), p.ints());
    let r1 = both.transform_point4d_spec(&p)->0;
    let r2 = m.transform_point4d_spec(&q)->0;
    assert(r1.ints() == r2.ints());
}

/// The same for a point of the plane, which stands for `(x, y, 0, 1)`, where
/// `self` keeps the plane of such points: its third column is zero but for
/// `m33`, and its fourth is `(0, 0, m34, 1)`.
pub proof fn law_mul_composes_in_the_plane<T: Integral>(
    a: Matrix4<T>,
    m: Matrix4<T>,
    p: Point2D<T>,
)
    requires
        a.m13 == small::<T>(0),
        a.m23 == small::<T>(0),
        a.m43 == small::<T>(0),
        a.m14 == small::<T>(0),
        a.m24 == small::<T>(0),
        a.m44 == small::<T>(1),
        a.mul_spec(&m) is Some,
        a.transform_point_spec(&p) is Some,
        m.transform_point_spec(&(a.transform_point_spec(&p)->0)) is Some,
        (a.mul_spec(&m)->0).transform_point_spec(&p) is Some,
    ensures
        (a.mul_spec(&m)->0).transform_point_spec(&p) == m.transform_point_spec(
            &(a.transform_point_spec(&p)->0),
        ),
{
    T::lemma_integral();
    let both = a.mul_spec(&m)->0;
    let q = a.transform_point_spec(&p)->0;
    lemma_mul_ints(a, m);
    lemma_transform_point_ints(a, p);
    lemma_transform_point_ints(m, q);
    lemma_transform_point_ints(both, p);
    lemma_apply2_times(a.ints(), m.ints(), p.ints());
    let r1 = both.transform_point_spec(&p)->0;
    let r2 = m.transform_point_spec(&q)->0;
    assert(r1.ints() == r2.ints());
}

/// A matrix with a row of zeros is singular: its determinant, where it is
/// defined, is zero, and what `invert` gives for the matrix is the identity.
pub proof fn law_zero_row_is_singular<T: Integral>(m: Matrix4<T>)
    requires
        ({
            let z = small::<T>(0);
            ||| m.m11 == z && m.m12 == z && m.m13 == z && m.m14 == z
            ||| m.m21 == z && m.m22 == z && m.m23 == z && m.m24 == z
            ||| m.m31 == z && m.m32 == z && m.m33 == z && m.m34 == z
            ||| m.m41 == z && m.m42 == z && m.m43 == z && m.m44 == z
        }),
        m.determinant_spec() is Some,
    ensures
        m.determinant_spec() == Some(small::<T>(0)),
        m.invert_spec() == Some(Matrix4::<T>::identity_spec()),
{
    T::lemma_integral();
    lemma_determinant_ints(m);
    lemma_zero_row(m.ints());
}

/// A matrix times its adjugate, on either side, is the determinant on the
/// diagonal and zero elsewhere, wherever the three are defined.
pub proof fn law_adjugate<T: Integral>(m: Matrix4<T>)
    requires
        m.adjugate_spec() is Some,
        m.determinant_spec() is Some,
    ensures
        ({
            let a = m.adjugate_spec()->0;
            let d = m.determinant_spec()->0;
            &&& m.mul_spec(&a) matches Some(p) ==> p.ints() == diagonal(d.val())
            &&& a.mul_spec(&m) matches Some(p) ==> p.ints() == diagonal(d.val())
        }),
{
    let a = m.adjugate_spec()->0;
    lemma_determinant_ints(m);
    lemma_adjugate_ints(m);
    lemma_mul_ints(m, a);
    lemma_mul_ints(a, m);
    lemma_adjugate_times(m.ints());
    lemma_times_adjugate(m.ints());
}

/// The identity stands for the identity of the integers.
pub proof fn lemma_identity_ints<T: Integral>()
    ensures
        Matrix4::<T>::identity_spec().ints() == diagonal(1),
{
    T::lemma_integral();
}

/// The inverse of a matrix whose determinant is one or minus one is its inverse
/// indeed: the product of the two, in either order, is the identity wherever it
/// is defined.
pub proof fn law_invert_unimodular<T: Integral>(m: Matrix4<T>)
    requires
        m.invert_spec() is Some,
        m.determinant_spec() matches Some(d) && (d.val() == 1 || d.val() == -1),
    ensures
        ({
            let inv = m.invert_spec()->0;
            &&& m.mul_spec(&inv) is Some ==> m.mul_spec(&inv) == Some(
                Matrix4::<T>::identity_spec(),
            )
            &&& inv.mul_spec(&m) is Some ==> inv.mul_spec(&m) == Some(
                Matrix4::<T>::identity_spec(),
            )
        }),
{
    let inv = m.invert_spec()->0;
    let d = m.determinant_spec()->0;
    let a = m.adjugate_spec()->0;
    let id = Matrix4::<T>::identity_spec();
    lemma_reciprocal_of_unit(d);
    assert(m.invert_spec() == a.mul_s_spec(d));
    lemma_determinant_ints(m);
    lemma_adjugate_ints(m);
    lemma_mul_s_ints(a, d);
    assert(det4(m.ints()) * d.val() == 1);
    lemma_unimodular(m.ints(), d.val());
    lemma_identity_ints::<T>();
    if m.mul_spec(&inv) is Some {
        lemma_mul_ints(m, inv);
        lemma_ints_injective(m.mul_spec(&inv)->0, id);
    }
    if inv.mul_spec(&m) is Some {
        lemma_mul_ints(inv, m);
        lemma_ints_injective(inv.mul_spec(&m)->0, id);
    }
}

/// A rotation about an axis of length one is undone by its inverse: where the
/// squares of `x`, `y` and `z` add up to one, and so do those of the sine and the
/// cosine of half the angle, the determinant of the rotation is one, and the
/// product of the rotation and its inverse, in either order, is the identity
/// wherever it is defined. Among the integers such an axis lies along a
/// coordinate and such an angle is a multiple of a half turn.
pub proof fn law_rotation_inverse<T: Integral>(x: T, y: T, z: T, s: T, c: T)
    requires
        x.val() * x.val() + y.val() * y.val() + z.val() * z.val() == 1,
        s.val() * s.val() + c.val() * c.val() == 1,
        Matrix4::create_rotation_spec(x, y, z, s, c) is Some,
        (Matrix4::create_rotation_spec(x, y, z, s, c)->0).invert_spec() is Some,
    ensures
        ({
            let r = Matrix4::create_rotation_spec(x, y, z, s, c)->0;
            let inv = r.invert_spec()->0;
            &&& r.determinant_spec() == Some(small::<T>(1))
            &&& r.mul_spec(&inv) is Some ==> r.mul_spec(&inv) == Some(Matrix4::<T>::identity_spec())
            &&& inv.mul_spec(&r) is Some ==> inv.mul_spec(&r) == Some(Matrix4::<T>::identity_spec())
        }),
{
    T::lemma_integral();
    let r = Matrix4::create_rotation_spec(x, y, z, s, c)->0;
    lemma_create_rotation_ints(x, y, z, s, c);
    lemma_rotation_determinant(x.val(), y.val(), z.val(), s.val(), c.val());
    lemma_determinant_ints(r);
    law_invert_unimodular(r);
}

/// Multiplying every entry by `a` and then by `b` is multiplying it by `a * b`:
/// where the first two are defined and `a * b` is, so is the third.
pub proof fn law_mul_s_twice<T: Integral>(m: Matrix4<T>, a: T, b: T)
    requires
        m.mul_s_spec(a) is Some,
        (m.mul_s_spec(a)->0).mul_s_spec(b) is Some,
        prod2(a, b) is Some,
    ensures
        m.mul_s_spec(prod2(a, b)->0) == (m.mul_s_spec(a)->0).mul_s_spec(b),
{
    T::lemma_integral();
    lemma_mul_is_associative(m.m11.val(), a.val(), b.val());
    lemma_mul_is_associative(m.m12.val(), a.val(), b.val());
    lemma_mul_is_associative(m.m13.val(), a.val(), b.val());
    lemma_mul_is_associative(m.m14.val(), a.val(), b.val());
    lemma_mul_is_associative(m.m21.val(), a.val(), b.val());
    lemma_mul_is_associative(m.m22.val(), a.val(), b.val());
    lemma_mul_is_associative(m.m23.val(), a.val(), b.val());
    lemma_mul_is_associative(m.m24.val(), a.val(), b.val());
    lemma_mul_is_associative(m.m31.val(), a.val(), b.val());
    lemma_mul_is_associative(m.m32.val(), a.val(), b.val());
    lemma_mul_is_associative(m.m33.val(), a.val(), b.val());
    lemma_mul_is_associative(m.m34.val(), a.val(), b.val());
    lemma_mul_is_associative(m.m41.val(), a.val(), b.val());
    lemma_mul_is_associative(m.m42.val(), a.val(), b.val());
    lemma_mul_is_associative(m.m43.val(), a.val(), b.val());
    lemma_mul_is_associative(m.m44.val(), a.val(), b.val());
}

/// A translation is undone by the translation the other way, and that is its
/// inverse: the determinant of a translation is one, its inverse is the
/// translation by the negated offsets, and the product of the two, in either
/// order, is the identity. All of this is defined wherever the three offsets
/// can be negated.
pub proof fn law_translation_inverse<T: Integral>(x: T, y: T, z: T)
    requires
        x.neg_req(),
        y.neg_req(),
        z.neg_req(),
    ensures
        ({
            let t = Matrix4::create_translation_spec(x, y, z);
            let back = Matrix4::create_translation_spec(x.neg_spec(), y.neg_spec(), z.neg_spec());
            &&& t.determinant_spec() == Some(small::<T>(1))
            &&& t.invert_spec() == Some(back)
            &&& back.mul_spec(&t) == Some(Matrix4::<T>::identity_spec())
            &&& t.mul_spec(&back) == Some(Matrix4::<T>::identity_spec())
        }),
{
    let zero = small::<T>(0);
    let one = small::<T>(1);
    lemma_one_and_zero(zero);
    lemma_one_and_zero(one);
    lemma_one_and_zero(x);
    lemma_one_and_zero(y);
    lemma_one_and_zero(z);
    lemma_one_and_zero(x.neg_spec());
    lemma_one_and_zero(y.neg_spec());
    lemma_one_and_zero(z.neg_spec());
    lemma_negation(x);
    lemma_negation(y);
    lemma_negation(z);
    T::lemma_integral();
    lemma_reciprocal_of_unit(one);
    let t = Matrix4::create_translation_spec(x, y, z);
    assert(t.determinant_spec() == Some(one));
}

/// The identity is its own inverse.
pub proof fn law_identity_inverse<T: Integral>()
    ensures
        Matrix4::<T>::identity_spec().determinant_spec() == Some(small::<T>(1)),
        Matrix4::<T>::identity_spec().invert_spec() == Some(Matrix4::<T>::identity_spec()),
{
    T::lemma_integral();
    let zero = small::<T>(0);
    law_translation_inverse(zero, zero, zero);
    assert(Matrix4::<T>::identity_spec() == Matrix4::create_translation_spec(zero, zero, zero));
    assert(zero.neg_spec() == zero);
}

/// A point moved by a translation and then by the translation the other way is
/// where it was: wherever the first step is defined, so is the second, and it
/// gives the point back.
pub proof fn law_translation_round_trip<T: Integral>(x: T, y: T, z: T, p: Point2D<T>)
    requires
        x.neg_req(),
        y.neg_req(),
    ensures
        ({
            let t = Matrix4::create_translation_spec(x, y, z);
            let back = Matrix4::create_translation_spec(x.neg_spec(), y.neg_spec(), z.neg_spec());
            t.transform_point_spec(&p) matches Some(q) ==> back.transform_point_spec(&q) == Some(p)
        }),
{
    let t = Matrix4::create_translation_spec(x, y, z);
    lemma_one_and_zero(p.x);
    lemma_one_and_zero(p.y);
    lemma_negation(x);
    lemma_negation(y);
    T::lemma_integral();
    if t.transform_point_spec(&p) is Some {
        let q = t.transform_point_spec(&p)->0;
        lemma_one_and_zero(q.x);
        lemma_one_and_zero(q.y);
    }
}

/// A translation moves points and leaves directions alone: a point whose `w` is
/// zero is given back as it is, whatever the offsets.
pub proof fn law_translation_keeps_directions<T: Integral>(x: T, y: T, z: T, p: Point4D<T>)
    requires
        p.w == small::<T>(0),
    ensures
        Matrix4::create_translation_spec(x, y, z).transform_point4d_spec(&p) == Some(p),
{
    lemma_one_and_zero(p.x);
    lemma_one_and_zero(p.y);
    lemma_one_and_zero(p.z);
    lemma_one_and_zero(x);
    lemma_one_and_zero(y);
    lemma_one_and_zero(z);
    lemma_one_and_zero(small::<T>(0));
    lemma_one_and_zero(small::<T>(1));
}

/// The same in four components, whatever the `w` of the point: where both
/// steps are defined, the second gives the point back.
pub proof fn law_translation_round_trip4d<T: Integral>(x: T, y: T, z: T, p: Point4D<T>)
    requires
        x.neg_req(),
        y.neg_req(),
        z.neg_req(),
    ensures
        ({
            let t = Matrix4::create_translation_spec(x, y, z);
            let back = Matrix4::create_translation_spec(x.neg_spec(), y.neg_spec(), z.neg_spec());
            t.transform_point4d_spec(&p) matches Some(q) ==> (back.transform_point4d_spec(&q)
                matches Some(r) ==> r == p)
        }),
{
    let t = Matrix4::create_translation_spec(x, y, z);
    let back = Matrix4::create_translation_spec(x.neg_spec(), y.neg_spec(), z.neg_spec());
    T::lemma_integral();
    if t.transform_point4d_spec(&p) is Some {
        let q = t.transform_point4d_spec(&p)->0;
        if back.transform_point4d_spec(&q) is Some {
            let r = back.transform_point4d_spec(&q)->0;
            law_translation_inverse(x, y, z);
            lemma_mul_ints(t, back);
            lemma_identity_ints::<T>();
            lemma_transform_point4d_ints(t, p);
            lemma_transform_point4d_ints(back, q);
            lemma_apply_times(t.ints(), back.ints(), p.ints());
            lemma_mul_basics(p.x.val());
            lemma_mul_basics(p.y.val());
            lemma_mul_basics(p.z.val());
            lemma_mul_basics(p.w.val());
            assert(r.ints() == p.ints());
        }
    }
}

} // verus!
