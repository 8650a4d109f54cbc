use euclid::num::Zero;
use euclid::{Length, Point2D, Point3D, Point4D, Size2D, TypedPoint2D};
use num::NumCast;

#[test]
pub fn test_dot_2d() {
    let p1 = Point2D::new(2.0, 7.0);
    let p2 = Point2D::new(13.0, 11.0);
    assert!(p1.dot(p2) == 103.0);
}

#[test]
pub fn test_dot_3d() {
    let p1 = Point3D::new(7.0, 21.0, 32.0);
    let p2 = Point3D::new(43.0, 5.0, 16.0);
    assert!(p1.dot(p2) == 918.0);
}

#[test]
pub fn test_cross_2d() {
    let p1 = Point2D::new(4.0, 7.0);
    let p2 = Point2D::new(13.0, 8.0);
    let r = p1.cross(p2);
    assert!(r == -59.0);
}

#[test]
pub fn test_cross_3d() {
    let p1 = Point3D::new(4.0, 7.0, 9.0);
    let p2 = Point3D::new(13.0, 8.0, 3.0);
    let p3 = p1.cross(p2);
    assert!(p3.x == -51.0);
    assert!(p3.y == 105.0);
    assert!(p3.z == -59.0);
}

#[test]
fn dot_and_cross_of_integers() {
    assert_eq!(Point2D::new(2i64, 7).dot(Point2D::new(13, 11)), 103);
    assert_eq!(Point2D::new(4i64, 7).cross(Point2D::new(13, 8)), -59);
    assert_eq!(Point3D::new(7i32, 21, 32).dot(Point3D::new(43, 5, 16)), 918);
    assert_eq!(Point3D::new(4i32, 7, 9).cross(Point3D::new(13, 8, 3)), Point3D::new(-51, 105, -59));
}

#[test]
fn cross_is_antisymmetric_and_orthogonal() {
    let a = Point3D::new(1i64, 2, 3);
    let b = Point3D::new(-4i64, 5, 6);
    let c = a.cross(b);
    assert_eq!(c, Point3D::new(-3, -18, 13));
    assert_eq!(b.cross(a), -c);
    assert_eq!(c.dot(a), 0);
    assert_eq!(c.dot(b), 0);
    assert_eq!(a.cross(a), Point3D::new(0, 0, 0));
}

#[test]
fn new_keeps_the_components_in_order() {
    let p = Point2D::new(1u8, 2);
    assert_eq!((p.x, p.y), (1, 2));
    let q = Point3D::new("a", "b", "c");
    assert_eq!((q.x, q.y, q.z), ("a", "b", "c"));
    let r = Point4D::new(1i16, 2, 3, 4);
    assert_eq!((r.x, r.y, r.z, r.w), (1, 2, 3, 4));
}

#[test]
fn zero_is_all_zero() {
    assert_eq!(Point2D::<i32>::zero(), Point2D::new(0, 0));
    assert_eq!(Point2D::<u8>::zero(), Point2D::new(0, 0));
    assert_eq!(Point2D::<usize>::zero(), Point2D::new(0, 0));
    assert_eq!(Point3D::<i64>::zero(), Point3D::new(0, 0, 0));
    assert_eq!(Point3D::<u32>::zero(), Point3D::new(0, 0, 0));
    assert_eq!(Point4D::<i8>::zero(), Point4D::new(0, 0, 0, 0));
    assert_eq!(Point4D::<u128>::zero(), Point4D::new(0, 0, 0, 0));
    assert_eq!(<i16 as Zero>::zero(), 0);
    let typed: TypedPoint2D<Inch, u16> = Point2D::zero();
    assert_eq!(typed.to_untyped(), Point2D::new(0, 0));
    assert_eq!(Point2D::new(7, -9) + Point2D::zero(), Point2D::new(7, -9));
}

#[test]
fn points_add_subtract_and_negate_by_component() {
    assert_eq!(Point2D::new(1, 2) + Point2D::new(10, 20), Point2D::new(11, 22));
    assert_eq!(Point2D::new(1, 2) - Point2D::new(10, 20), Point2D::new(-9, -18));
    assert_eq!(-Point2D::new(1, -2), Point2D::new(-1, 2));
    assert_eq!(Point3D::new(1, 2, 3) + Point3D::new(10, 20, 30), Point3D::new(11, 22, 33));
    assert_eq!(Point3D::new(1, 2, 3) - Point3D::new(10, 20, 30), Point3D::new(-9, -18, -27));
    assert_eq!(-Point3D::new(1, -2, 3), Point3D::new(-1, 2, -3));
    assert_eq!(
        Point4D::new(1, 2, 3, 4) + Point4D::new(10, 20, 30, 40),
        Point4D::new(11, 22, 33, 44)
    );
    assert_eq!(
        Point4D::new(1, 2, 3, 4) - Point4D::new(10, 20, 30, 40),
        Point4D::new(-9, -18, -27, -36)
    );
    assert_eq!(-Point4D::new(1.5, -2.0, 0.25, 4.0), Point4D::new(-1.5, 2.0, -0.25, -4.0));
}

#[test]
fn a_point_is_scaled_and_divided_by_a_number() {
    assert_eq!(Point2D::new(3, -4) * 5, Point2D::new(15, -20));
    assert_eq!(Point2D::new(15, -20) / 5, Point2D::new(3, -4));
    assert_eq!(Point2D::new(7, -7) / 2, Point2D::new(3, -3));
    assert_eq!(Point2D::new(1.5f32, 3.0) * 2.0, Point2D::new(3.0, 6.0));
    assert_eq!(Point2D::new(1.5f32, 3.0) / 2.0, Point2D::new(0.75, 1.5));
}

#[test]
fn a_size_moves_a_point() {
    let p = Point2D::new(10, 20);
    let s = Size2D::new(3, 4);
    assert_eq!((s.width, s.height), (3, 4));
    assert_eq!(p.add_size(&s), Point2D::new(13, 24));
    assert_eq!(p + s, Point2D::new(13, 24));
}

struct Inch;

struct Pixel;

#[test]
fn a_unit_is_attached_and_dropped() {
    let p: TypedPoint2D<Inch, i32> = Point2D::typed(3, 4);
    assert_eq!(p.x.get(), 3);
    assert_eq!(p.y.get(), 4);
    assert_eq!(p.to_untyped(), Point2D::new(3, 4));
    let q: TypedPoint2D<Pixel, i32> = Point2D::from_untyped(&Point2D::new(5, 6));
    assert_eq!(q.to_untyped(), Point2D::new(5, 6));
    let l: Length<Pixel, u8> = Length::new(9);
    assert_eq!(l.get(), 9);
    assert_eq!(l.clone().get(), 9);
}

#[test]
fn a_cast_point_needs_both_components() {
    let both: Option<TypedPoint2D<Inch, u8>> =
        Point2D::cast(Some(Length::new(1u8)), Some(Length::new(2u8)));
    assert_eq!(both.map(|p| p.to_untyped()), Some(Point2D::new(1, 2)));
    let no_x: Option<TypedPoint2D<Inch, u8>> = Point2D::cast(None, Some(Length::new(2u8)));
    assert!(no_x.is_none());
    let no_y: Option<TypedPoint2D<Inch, u8>> = Point2D::cast(Some(Length::new(1u8)), None);
    assert!(no_y.is_none());
    let neither: Option<TypedPoint2D<Inch, u8>> = Point2D::cast(None, None);
    assert!(neither.is_none());
}

fn converted<T0: NumCast + Clone, T1: NumCast + Clone>(
    point: &TypedPoint2D<Inch, T0>,
) -> Option<TypedPoint2D<Inch, T1>> {
    Point2D::cast(
        NumCast::from(point.x.get()).map(Length::new),
        NumCast::from(point.y.get()).map(Length::new),
    )
}

#[test]
fn a_point_is_cast_where_both_components_fit() {
    let p: TypedPoint2D<Inch, i32> = Point2D::typed(200, 7);
    let as_bytes: Option<TypedPoint2D<Inch, u8>> = converted(&p);
    assert_eq!(as_bytes.map(|q| q.to_untyped()), Some(Point2D::new(200u8, 7u8)));
    let as_floats: Option<TypedPoint2D<Inch, f32>> = converted(&p);
    assert_eq!(as_floats.map(|q| q.to_untyped()), Some(Point2D::new(200.0f32, 7.0f32)));

    let wide: TypedPoint2D<Inch, i32> = Point2D::typed(300, 7);
    let x_too_large: Option<TypedPoint2D<Inch, u8>> = converted(&wide);
    assert!(x_too_large.is_none());
    let low: TypedPoint2D<Inch, i32> = Point2D::typed(7, -1);
    let y_negative: Option<TypedPoint2D<Inch, usize>> = converted(&low);
    assert!(y_negative.is_none());
    let not_a_number: TypedPoint2D<Inch, f64> = Point2D::typed(1.0, f64::NAN);
    let no_integer: Option<TypedPoint2D<Inch, i64>> = converted(&not_a_number);
    assert!(no_integer.is_none());
}
