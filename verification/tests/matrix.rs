use euclid::scalar::approx_eq_eps;
use euclid::{Matrix4, Point2D, Point4D};

const EPSILON: f32 = 1.0e-6;

#[test]
pub fn test_ortho() {
    let (left, right, bottom, top) = (0.0f32, 1.0f32, 0.1f32, 1.0f32);
    let (near, far) = (-1.0f32, 1.0f32);
    let result = Matrix4::ortho(left, right, bottom, top, near, far);
    let expected = Matrix4::new(2.0,  0.0,         0.0,  0.0,
                                0.0,  2.22222222,  0.0,  0.0,
                                0.0,  0.0,         -1.0, 0.0,
                                -1.0, -1.22222222, -0.0, 1.0);
    assert!(result.approx_eq_eps(&expected, EPSILON));
}

#[test]
pub fn test_invert_simple() {
    let m1 = Matrix4::<f32>::identity();
    let m2 = m1.invert();
    assert!(m1.approx_eq_eps(&m2, EPSILON));
}

#[test]
pub fn test_invert_scale() {
    let m1 = Matrix4::<f32>::create_scale(1.5, 0.3, 2.1);
    let m2 = m1.invert();
    assert!(m1.mul(&m2).approx_eq_eps(&Matrix4::identity(), EPSILON));
}

#[test]
pub fn test_invert_translate() {
    let m1 = Matrix4::<f32>::create_translation(-132.0, 0.3, 493.0);
    let m2 = m1.invert();
    assert!(m1.mul(&m2).approx_eq_eps(&Matrix4::identity(), EPSILON));
}

#[test]
pub fn test_invert_rotate() {
    let half_theta = 1.57f32 * 0.5;
    let m1 = Matrix4::create_rotation(0.0, 1.0, 0.0, half_theta.sin(), half_theta.cos());
    let m2 = m1.invert();
    assert!(m1.mul(&m2).approx_eq_eps(&Matrix4::identity(), EPSILON));
}

#[test]
pub fn test_invert_transform_point_2d() {
    let m1 = Matrix4::<f32>::create_translation(100.0, 200.0, 0.0);
    let m2 = m1.invert();
    assert!(m1.mul(&m2).approx_eq_eps(&Matrix4::identity(), EPSILON));

    let p1 = Point2D::new(1000.0, 2000.0);
    let p2 = m1.transform_point(&p1);
    assert!(p2.eq(&Point2D::new(1100.0, 2200.0)));

    let p3 = m2.transform_point(&p2);
    assert!(p3.eq(&p1));
}

fn counting() -> Matrix4<i64> {
    Matrix4::new(1, 2, 3, 4, 5, 6, 7, 8, 9, 10, 11, 12, 13, 14, 15, 16)
}

fn unimodular() -> Matrix4<i64> {
    Matrix4::new(2, 1, 0, 0, 1, 1, 0, 0, 0, 0, 1, 3, 0, 0, 0, 1)
}

#[test]
fn new_and_to_array_go_row_by_row() {
    let m = counting();
    assert_eq!((m.m11, m.m12, m.m13, m.m14), (1, 2, 3, 4));
    assert_eq!((m.m21, m.m22, m.m23, m.m24), (5, 6, 7, 8));
    assert_eq!((m.m31, m.m32, m.m33, m.m34), (9, 10, 11, 12));
    assert_eq!((m.m41, m.m42, m.m43, m.m44), (13, 14, 15, 16));
    assert_eq!(m.to_array(), [1, 2, 3, 4, 5, 6, 7, 8, 9, 10, 11, 12, 13, 14, 15, 16]);
}

#[test]
fn identity_is_neutral() {
    let id = Matrix4::<i64>::identity();
    assert_eq!(id.to_array(), [1, 0, 0, 0, 0, 1, 0, 0, 0, 0, 1, 0, 0, 0, 0, 1]);
    assert_eq!(counting().mul(&id), counting());
    assert_eq!(id.mul(&counting()), counting());
    let f = Matrix4::<f32>::new(
        1.5, -2.0, 0.25, 4.0, 0.0, 6.5, 7.0, -8.0, 9.0, 10.0, -11.5, 12.0, 13.0, 14.0, 15.0, 0.5,
    );
    assert_eq!(f.mul(&Matrix4::identity()), f);
    assert_eq!(Matrix4::identity().mul(&f), f);
}

#[test]
fn mul_applies_self_first() {
    let a = counting();
    let b = unimodular();
    let expected = Matrix4::new(
        4, 3, 3, 13, 16, 11, 7, 29, 28, 19, 11, 45, 40, 27, 15, 61,
    );
    assert_eq!(a.mul(&b), expected);
    assert_ne!(b.mul(&a), expected);
    assert_eq!(
        b.mul(&a).to_array(),
        [7, 10, 13, 16, 6, 8, 10, 12, 48, 52, 56, 60, 13, 14, 15, 16]
    );

    let moved = Matrix4::<i64>::create_translation(1, 2, 3);
    let doubled = Matrix4::<i64>::create_scale(2, 2, 2);
    assert_eq!(
        moved.mul(&doubled).to_array(),
        [2, 0, 0, 0, 0, 2, 0, 0, 0, 0, 2, 0, 2, 4, 6, 1]
    );
    assert_eq!(
        doubled.mul(&moved).to_array(),
        [2, 0, 0, 0, 0, 2, 0, 0, 0, 0, 2, 0, 1, 2, 3, 1]
    );
    let in_floats = Matrix4::<f32>::create_translation(1.0, 2.0, 3.0)
        .mul(&Matrix4::create_scale(2.0, 2.0, 2.0));
    assert_eq!(
        in_floats,
        Matrix4::new(
            2.0, 0.0, 0.0, 0.0, 0.0, 2.0, 0.0, 0.0, 0.0, 0.0, 2.0, 0.0, 2.0, 4.0, 6.0, 1.0
        )
    );

    let s = Matrix4::new(2i64, 0, 0, 0, 0, 3, 0, 0, 0, 0, 5, 0, 1, 2, 3, 1);
    let r = Matrix4::new(0i64, 1, 0, 0, -1, 0, 0, 0, 0, 0, 1, 0, 10, 20, 30, 1);
    let both = s.mul(&r);
    assert_eq!(both.to_array(), [0, 2, 0, 0, -3, 0, 0, 0, 0, 0, 5, 0, 8, 21, 33, 1]);
    let p = Point4D::new(1, 2, 3, 1);
    assert_eq!(both.transform_point4d(&p), Point4D::new(2, 23, 48, 1));
    assert_eq!(both.transform_point4d(&p), r.transform_point4d(&s.transform_point4d(&p)));
    assert_eq!(s.transform_point4d(&r.transform_point4d(&p)), Point4D::new(17, 65, 168, 1));
    let d = Point4D::new(1, 2, 3, 0);
    assert_eq!(both.transform_point4d(&d), Point4D::new(-6, 2, 15, 0));
    assert_eq!(both.transform_point4d(&d), r.transform_point4d(&s.transform_point4d(&d)));
    let general = counting().mul(&unimodular());
    let any = Point4D::new(2, -3, 4, 5);
    assert_eq!(
        general.transform_point4d(&any),
        unimodular().transform_point4d(&counting().transform_point4d(&any))
    );

    let flat = Matrix4::new(0i64, 1, 0, 0, -1, 0, 0, 0, 0, 0, 1, 0, 10, 20, 0, 1);
    let q = Point2D::new(1, 2);
    assert_eq!(flat.transform_point(&q), Point2D::new(8, 21));
    assert_eq!(flat.mul(&s).transform_point(&q), Point2D::new(17, 65));
    assert_eq!(flat.mul(&s).transform_point(&q), s.transform_point(&flat.transform_point(&q)));
}

#[test]
fn determinant_of_known_matrices() {
    assert_eq!(counting().determinant(), 0);
    assert_eq!(unimodular().determinant(), 1);
    assert_eq!(Matrix4::<i64>::identity().determinant(), 1);
    assert_eq!(Matrix4::<i64>::create_scale(2, 3, 5).determinant(), 30);
    assert_eq!(
        Matrix4::new(3i64, 0, 2, -1, 1, 2, 0, -2, 4, 0, 6, -3, 5, 0, 2, 0).determinant(),
        20
    );
    assert_eq!(
        Matrix4::new(0i64, 1, 0, 0, 1, 0, 0, 0, 0, 0, 1, 0, 0, 0, 0, 1).determinant(),
        -1
    );
}

#[test]
fn a_singular_matrix_inverts_to_the_identity() {
    let zero_row = Matrix4::<f32>::new(
        1.0, 2.0, 3.0, 4.0, 0.0, 0.0, 0.0, 0.0, 5.0, 6.0, 7.0, 8.0, 9.0, 1.0, 2.0, 3.0,
    );
    assert_eq!(zero_row.determinant(), 0.0);
    assert_eq!(zero_row.invert(), Matrix4::identity());
    assert_eq!(counting().invert(), Matrix4::identity());
    assert_eq!(Matrix4::<i32>::create_scale(0, 1, 1).invert(), Matrix4::identity());
}

#[test]
fn a_unimodular_matrix_has_an_exact_inverse() {
    let m = unimodular();
    let inv = m.invert();
    assert_eq!(inv, Matrix4::new(1, -1, 0, 0, -1, 2, 0, 0, 0, 0, 1, -3, 0, 0, 0, 1));
    assert_eq!(m.mul(&inv), Matrix4::identity());
    assert_eq!(inv.mul(&m), Matrix4::identity());
    let swap = Matrix4::new(0i64, 1, 0, 0, 1, 0, 0, 0, 0, 0, 1, 0, 0, 0, 0, 1);
    assert_eq!(swap.invert(), swap);
    assert_eq!(swap.mul(&swap.invert()), Matrix4::identity());
}

#[test]
fn inverse_of_a_matrix_of_floats() {
    let m = Matrix4::<f32>::new(
        2.0, 0.0, 0.0, 0.0, 0.0, 4.0, 0.0, 0.0, 0.0, 0.0, 8.0, 0.0, 1.0, 2.0, 3.0, 1.0,
    );
    let inv = m.invert();
    let expected = Matrix4::new(
        0.5, 0.0, 0.0, 0.0, 0.0, 0.25, 0.0, 0.0, 0.0, 0.0, 0.125, 0.0, -0.5, -0.5, -0.375, 1.0,
    );
    assert!(inv.approx_eq_eps(&expected, EPSILON));
    assert!(m.mul(&inv).approx_eq_eps(&Matrix4::identity(), EPSILON));
    assert!(inv.mul(&m).approx_eq_eps(&Matrix4::identity(), EPSILON));
}

#[test]
fn a_translation_is_undone_by_its_inverse() {
    let t = Matrix4::<i64>::create_translation(100, 200, -7);
    assert_eq!(t.to_array(), [1, 0, 0, 0, 0, 1, 0, 0, 0, 0, 1, 0, 100, 200, -7, 1]);
    let back = t.invert();
    assert_eq!(back, Matrix4::create_translation(-100, -200, 7));
    assert_eq!(back.mul(&t), Matrix4::identity());
    assert_eq!(t.mul(&back), Matrix4::identity());
    let p = Point2D::new(1000, 2000);
    let q = t.transform_point(&p);
    assert_eq!(q, Point2D::new(1100, 2200));
    assert_eq!(back.transform_point(&q), p);
    let p4 = Point4D::new(1, 2, 3, 1);
    let q4 = t.transform_point4d(&p4);
    assert_eq!(q4, Point4D::new(101, 202, -4, 1));
    assert_eq!(back.transform_point4d(&q4), p4);
}

#[test]
fn translation_of_floats_round_trips() {
    let t = Matrix4::<f32>::create_translation(-132.0, 0.3, 493.0);
    assert!(t.invert().mul(&t).approx_eq_eps(&Matrix4::identity(), EPSILON));
    let p = Point2D::new(3.0f32, -4.0);
    let back = t.invert().transform_point(&t.transform_point(&p));
    assert!(approx_eq_eps(back.x, p.x, 1.0e-4));
    assert!(approx_eq_eps(back.y, p.y, 1.0e-4));
}

#[test]
fn rotations_are_undone_by_their_inverse() {
    let axes = [(1.0f32, 0.0f32, 0.0f32), (0.0, 1.0, 0.0), (0.0, 0.0, 1.0), (0.6, 0.0, 0.8)];
    let angles = [0.0f32, 0.3, 1.57, -2.0, 3.0];
    for &(x, y, z) in axes.iter() {
        for &theta in angles.iter() {
            let half = theta * 0.5;
            let r = Matrix4::create_rotation(x, y, z, half.sin(), half.cos());
            assert!(r.mul(&r.invert()).approx_eq_eps(&Matrix4::identity(), 1.0e-5));
        }
    }
}

#[test]
fn rotation_by_a_half_turn_is_exact() {
    let about_z = Matrix4::<i32>::create_rotation(0, 0, 1, 1, 0);
    assert_eq!(about_z.to_array(), [-1, 0, 0, 0, 0, -1, 0, 0, 0, 0, 1, 0, 0, 0, 0, 1]);
    assert_eq!(about_z.transform_point(&Point2D::new(3, 4)), Point2D::new(-3, -4));
    assert_eq!(about_z.mul(&about_z.invert()), Matrix4::identity());
    let none = Matrix4::<i32>::create_rotation(0, 1, 0, 0, 1);
    assert_eq!(none, Matrix4::identity());
}

#[test]
fn rotation_by_a_quarter_turn_about_z() {
    let half = std::f32::consts::FRAC_PI_4;
    let r = Matrix4::create_rotation(0.0, 0.0, 1.0, half.sin(), half.cos());
    let expected = Matrix4::new(
        0.0, -1.0, 0.0, 0.0, 1.0, 0.0, 0.0, 0.0, 0.0, 0.0, 1.0, 0.0, 0.0, 0.0, 0.0, 1.0,
    );
    assert!(r.approx_eq_eps(&expected, EPSILON));
}

#[test]
fn mul_s_multiplies_every_entry() {
    let m = counting().mul_s(3);
    assert_eq!(m.to_array(), [3, 6, 9, 12, 15, 18, 21, 24, 27, 30, 33, 36, 39, 42, 45, 48]);
    assert_eq!(counting().mul_s(2).mul_s(-5), counting().mul_s(2 * -5));
    let f = Matrix4::<f32>::create_translation(1.5, -2.5, 3.0);
    assert!(f.mul_s(0.5).mul_s(4.0).approx_eq_eps(&f.mul_s(0.5 * 4.0), EPSILON));
}

#[test]
fn scale_touches_three_entries_only() {
    let m = counting().scale(2, 3, 5);
    assert_eq!(m.to_array(), [2, 2, 3, 4, 5, 18, 7, 8, 9, 10, 55, 12, 13, 14, 15, 16]);
    let s = Matrix4::<i64>::create_scale(2, 3, 5);
    assert_eq!(s.to_array(), [2, 0, 0, 0, 0, 3, 0, 0, 0, 0, 5, 0, 0, 0, 0, 1]);
    assert_ne!(m, counting().mul(&s));
    assert_eq!(Matrix4::<i64>::identity().scale(2, 3, 5), s);
}

#[test]
fn transform_point_stands_for_a_point_of_the_plane() {
    let m = counting();
    assert_eq!(m.transform_point(&Point2D::new(2, 3)), Point2D::new(2 + 15 + 13, 4 + 18 + 14));
    assert_eq!(
        m.transform_point4d(&Point4D::new(2, 3, 0, 1)),
        Point4D::new(2 + 15 + 13, 4 + 18 + 14, 6 + 21 + 15, 8 + 24 + 16)
    );
}

#[test]
fn transform_point4d_weighs_row_four_by_w() {
    let m = counting();
    assert_eq!(m.transform_point4d(&Point4D::new(2, 3, 4, 1)), Point4D::new(66, 76, 86, 96));
    assert_eq!(m.transform_point4d(&Point4D::new(2, 3, 4, 0)), Point4D::new(53, 62, 71, 80));
    assert_eq!(
        m.transform_point4d(&Point4D::new(2, 3, 4, 99)),
        Point4D::new(
            2 + 15 + 36 + 99 * 13,
            4 + 18 + 40 + 99 * 14,
            6 + 21 + 44 + 99 * 15,
            8 + 24 + 48 + 99 * 16
        )
    );
    let t = Matrix4::<f32>::create_translation(5.0, 6.0, 7.0);
    let direction = Point4D::new(1.0, 2.0, 3.0, 0.0);
    assert_eq!(t.transform_point4d(&direction), direction);
    let place = Point4D::new(1.0, 2.0, 3.0, 1.0);
    assert_eq!(t.transform_point4d(&place), Point4D::new(6.0, 8.0, 10.0, 1.0));
    let back = Matrix4::<i64>::create_translation(5, 6, 7).invert();
    let far = Point4D::new(1, 2, 3, 4);
    let there = Matrix4::<i64>::create_translation(5, 6, 7).transform_point4d(&far);
    assert_eq!(there, Point4D::new(21, 26, 31, 4));
    assert_eq!(back.transform_point4d(&there), far);
}

#[test]
fn translate_moves_last() {
    let m = Matrix4::<i64>::create_scale(2, 3, 5).translate(10, 20, 30);
    assert_eq!(m.to_array(), [2, 0, 0, 0, 0, 3, 0, 0, 0, 0, 5, 0, 10, 20, 30, 1]);
    assert_eq!(m.transform_point(&Point2D::new(1, 1)), Point2D::new(12, 23));
    assert_eq!(
        m,
        Matrix4::create_scale(2, 3, 5).mul(&Matrix4::create_translation(10, 20, 30))
    );
    let moved_first = Matrix4::<i64>::create_translation(10, 20, 30);
    assert_eq!(
        moved_first.mul(&Matrix4::create_scale(2, 3, 5)).to_array(),
        [2, 0, 0, 0, 0, 3, 0, 0, 0, 0, 5, 0, 20, 60, 150, 1]
    );
    let doubled = Matrix4::<f32>::create_scale(2.0, 2.0, 2.0).translate(1.0, 2.0, 3.0);
    assert_eq!(
        doubled,
        Matrix4::new(
            2.0, 0.0, 0.0, 0.0, 0.0, 2.0, 0.0, 0.0, 0.0, 0.0, 2.0, 0.0, 1.0, 2.0, 3.0, 1.0
        )
    );
}

#[test]
fn skew_holds_the_two_tangents() {
    let m = Matrix4::<i64>::create_skew(2, 3);
    assert_eq!(m.to_array(), [1, 3, 0, 0, 2, 1, 0, 0, 0, 0, 1, 0, 0, 0, 0, 1]);
    assert_eq!(m.transform_point(&Point2D::new(10, 100)), Point2D::new(210, 130));
    let (alpha, beta) = (0.5f32, -0.25f32);
    let f = Matrix4::create_skew(alpha.tan(), beta.tan());
    assert_eq!(f.m12, beta.tan());
    assert_eq!(f.m21, alpha.tan());
}

#[test]
fn perspective_holds_minus_one_over_d() {
    let m = Matrix4::<f32>::create_perspective(4.0);
    assert_eq!(
        m.to_array(),
        [1.0, 0.0, 0.0, 0.0, 0.0, 1.0, 0.0, 0.0, 0.0, 0.0, 1.0, -0.25, 0.0, 0.0, 0.0, 1.0]
    );
    assert_eq!(Matrix4::<i64>::create_perspective(-1).m34, 1);
}

#[test]
fn ortho_of_a_symmetric_box() {
    let m = Matrix4::<f32>::ortho(-2.0, 2.0, -4.0, 4.0, -8.0, 8.0);
    assert_eq!(
        m.to_array(),
        [0.5, 0.0, 0.0, 0.0, 0.0, 0.25, 0.0, 0.0, 0.0, 0.0, -0.125, 0.0, -0.0, -0.0, -0.0, 1.0]
    );
    let i = Matrix4::<i64>::ortho(0, 2, 0, 1, 1, 3);
    assert_eq!(i.to_array(), [1, 0, 0, 0, 0, 2, 0, 0, 0, 0, -1, 0, -1, -1, -2, 1]);
}

#[test]
fn approximate_equality_is_strict_in_the_tolerance() {
    assert!(approx_eq_eps(10, 12, 3));
    assert!(approx_eq_eps(12, 10, 3));
    assert!(!approx_eq_eps(10, 13, 3));
    assert!(!approx_eq_eps(13, 10, 3));
    assert!(!approx_eq_eps(5, 5, 0));
    assert!(approx_eq_eps(1.0f32, 1.0000005, EPSILON));
    assert!(!approx_eq_eps(1.0f32, 1.00001, EPSILON));
    assert!(!approx_eq_eps(f32::NAN, f32::NAN, EPSILON));
    let m = counting();
    let mut near = counting();
    near.m34 += 2;
    assert!(m.approx_eq_eps(&near, 3));
    assert!(!m.approx_eq_eps(&near, 2));
}
