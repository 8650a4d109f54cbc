//! Points of two, three and four components.
//!
//! A point is also a vector: points are added, subtracted and negated component
//! by component, and have a dot product and a cross product. Each operation asks
//! of the component type `T` only the arithmetic that it uses.

use crate::length::Length;
use crate::num::Zero;
use crate::scalar::{checked_add, checked_sub, prod2, ring_defined, ring_yields};
use crate::size::Size2D;
use core::ops::{Add, Div, Mul, Neg, Sub};
use vstd::prelude::*;
use vstd::std_specs::ops::{
    AddSpec,
    AddSpecImpl,
    DivSpec,
    DivSpecImpl,
    MulSpec,
    MulSpecImpl,
    NegSpec,
    NegSpecImpl,
    SubSpec,
    SubSpecImpl,
};

verus! {

/// A point in the plane.
#[derive(Clone, Copy, Debug, PartialEq, Eq, Hash)]
pub struct Point2D<T> {
    pub x: T,
    pub y: T,
}

/// A point in the plane whose components are lengths in the unit `Unit`.
pub type TypedPoint2D<Unit, T> = Point2D<Length<Unit, T>>;

/// A point in space.
#[derive(Clone, Copy, Debug, PartialEq, Eq, Hash)]
pub struct Point3D<T> {
    pub x: T,
    pub y: T,
    pub z: T,
}

/// A point in homogeneous coordinates.
#[derive(Clone, Copy, Debug, PartialEq, Eq, Hash)]
pub struct Point4D<T> {
    pub x: T,
    pub y: T,
    pub z: T,
    pub w: T,
}

impl<T> Point2D<T> {
    /// The point `(x, y)`.
    pub fn new(x: T, y: T) -> (r: Point2D<T>)
        ensures
            r.x == x,
            r.y == y,
    {
        Point2D { x: x, y: y }
    }

    /// The point of the two components, where both exist.
    pub open spec fn gather(x: Option<T>, y: Option<T>) -> Option<Point2D<T>> {
        match (x, y) {
            (Some(x), Some(y)) => Some(Point2D { x, y }),
            _ => None,
        }
    }
}

impl<T: Zero> Point2D<T> {
    /// The point whose components are both zero.
    pub fn zero() -> (r: Point2D<T>)
        ensures
            r == (Point2D { x: T::zero_spec(), y: T::zero_spec() }),
    {
        Point2D { x: Zero::zero(), y: Zero::zero() }
    }
}

impl<T: Mul<T, Output = T> + Add<T, Output = T> + Sub<T, Output = T> + Copy> Point2D<T> {
    /// `x1 * x2 + y1 * y2`.
    pub open spec fn dot_spec(self, other: Point2D<T>) -> Option<T> {
        checked_add(prod2(self.x, other.x), prod2(self.y, other.y))
    }

    /// `x1 * y2 - y1 * x2`.
    pub open spec fn cross_spec(self, other: Point2D<T>) -> Option<T> {
        checked_sub(prod2(self.x, other.y), prod2(self.y, other.x))
    }

    /// The dot product: the sum of the products of the components.
    #[inline]
    pub fn dot(self, other: Point2D<T>) -> (r: T)
        requires
            ring_defined::<T, T>(self.dot_spec(other)),
        ensures
            ring_yields::<T, T>(self.dot_spec(other), r),
    {
        self.x * other.x + self.y * other.y
    }

    /// The cross product of two vectors in the plane, a number: the signed area
    /// of the parallelogram that they span.
    #[inline]
    pub fn cross(self, other: Point2D<T>) -> (r: T)
        requires
            ring_defined::<T, T>(self.cross_spec(other)),
        ensures
            ring_yields::<T, T>(self.cross_spec(other), r),
    {
        self.x * other.y - self.y * other.x
    }
}

impl<T: Clone + Add<T, Output = T>> AddSpecImpl for Point2D<T> {
    open spec fn obeys_add_spec() -> bool {
        T::obeys_add_spec()
    }

    open spec fn add_req(self, other: Point2D<T>) -> bool {
        self.x.add_req(other.x) && self.y.add_req(other.y)
    }

    open spec fn add_spec(self, other: Point2D<T>) -> Point2D<T> {
        Point2D { x: self.x.add_spec(other.x), y: self.y.add_spec(other.y) }
    }
}

impl<T: Clone + Add<T, Output = T>> Add for Point2D<T> {
    type Output = Point2D<T>;

    /// The sum, component by component.
    fn add(self, other: Point2D<T>) -> Point2D<T> {
        Point2D::new(self.x + other.x, self.y + other.y)
    }
}

impl<T: Clone + Add<T, Output = T>> AddSpecImpl<Size2D<T>> for Point2D<T> {
    open spec fn obeys_add_spec() -> bool {
        T::obeys_add_spec()
    }

    open spec fn add_req(self, other: Size2D<T>) -> bool {
        self.x.add_req(other.width) && self.y.add_req(other.height)
    }

    open spec fn add_spec(self, other: Size2D<T>) -> Point2D<T> {
        Point2D { x: self.x.add_spec(other.width), y: self.y.add_spec(other.height) }
    }
}

impl<T: Clone + Add<T, Output = T>> Add<Size2D<T>> for Point2D<T> {
    type Output = Point2D<T>;

    /// The point moved by the width along `x` and by the height along `y`.
    fn add(self, other: Size2D<T>) -> Point2D<T> {
        Point2D::new(self.x + other.width, self.y + other.height)
    }
}

impl<T: Copy + Add<T, Output = T>> Point2D<T> {
    /// The point moved by the width along `x` and by the height along `y`.
    pub fn add_size(&self, other: &Size2D<T>) -> (r: Point2D<T>)
        requires
            self.x.add_req(other.width),
            self.y.add_req(other.height),
        ensures
            T::obeys_add_spec() ==> r == (Point2D {
                x: self.x.add_spec(other.width),
                y: self.y.add_spec(other.height),
            }),
    {
        Point2D { x: self.x + other.width, y: self.y + other.height }
    }
}

impl<T: Clone + Sub<T, Output = T>> SubSpecImpl for Point2D<T> {
    open spec fn obeys_sub_spec() -> bool {
        T::obeys_sub_spec()
    }

    open spec fn sub_req(self, other: Point2D<T>) -> bool {
        self.x.sub_req(other.x) && self.y.sub_req(other.y)
    }

    open spec fn sub_spec(self, other: Point2D<T>) -> Point2D<T> {
        Point2D { x: self.x.sub_spec(other.x), y: self.y.sub_spec(other.y) }
    }
}

impl<T: Clone + Sub<T, Output = T>> Sub for Point2D<T> {
    type Output = Point2D<T>;

    /// The difference, component by component.
    fn sub(self, other: Point2D<T>) -> Point2D<T> {
        Point2D::new(self.x - other.x, self.y - other.y)
    }
}

impl<T: Clone + Neg<Output = T>> NegSpecImpl for Point2D<T> {
    open spec fn obeys_neg_spec() -> bool {
        T::obeys_neg_spec()
    }

    open spec fn neg_req(self) -> bool {
        self.x.neg_req() && self.y.neg_req()
    }

    open spec fn neg_spec(self) -> Point2D<T> {
        Point2D { x: self.x.neg_spec(), y: self.y.neg_spec() }
    }
}

impl<T: Clone + Neg<Output = T>> Neg for Point2D<T> {
    type Output = Point2D<T>;

    /// The point with each component negated.
    #[inline]
    fn neg(self) -> Point2D<T> {
        Point2D::new(self.x.neg(), self.y.neg())
    }
}

impl<Scale: Copy, T0: Mul<Scale, Output = T1>, T1: Clone> MulSpecImpl<Scale> for Point2D<T0> {
    open spec fn obeys_mul_spec() -> bool {
        <T0 as MulSpec<Scale>>::obeys_mul_spec()
    }

    open spec fn mul_req(self, scale: Scale) -> bool {
        self.x.mul_req(scale) && self.y.mul_req(scale)
    }

    open spec fn mul_spec(self, scale: Scale) -> Point2D<T1> {
        Point2D { x: self.x.mul_spec(scale), y: self.y.mul_spec(scale) }
    }
}

impl<Scale: Copy, T0: Mul<Scale, Output = T1>, T1: Clone> Mul<Scale> for Point2D<T0> {
    type Output = Point2D<T1>;

    /// The point with each component multiplied by `scale`.
    #[inline]
    fn mul(self, scale: Scale) -> Point2D<T1> {
        Point2D::new(self.x * scale, self.y * scale)
    }
}

impl<Scale: Copy, T0: Div<Scale, Output = T1>, T1: Clone> DivSpecImpl<Scale> for Point2D<T0> {
    open spec fn obeys_div_spec() -> bool {
        <T0 as DivSpec<Scale>>::obeys_div_spec()
    }

    open spec fn div_req(self, scale: Scale) -> bool {
        self.x.div_req(scale) && self.y.div_req(scale)
    }

    open spec fn div_spec(self, scale: Scale) -> Point2D<T1> {
        Point2D { x: self.x.div_spec(scale), y: self.y.div_spec(scale) }
    }
}

impl<Scale: Copy, T0: Div<Scale, Output = T1>, T1: Clone> Div<Scale> for Point2D<T0> {
    type Output = Point2D<T1>;

    /// The point with each component divided by `scale`.
    #[inline]
    fn div(self, scale: Scale) -> Point2D<T1> {
        Point2D::new(self.x / scale, self.y / scale)
    }
}

impl<Unit, T: Clone> Point2D<Length<Unit, T>> {
    /// The point `(x, y)` in the unit `Unit`.
    pub fn typed(x: T, y: T) -> (r: TypedPoint2D<Unit, T>)
        ensures
            r.x.0 == x,
            r.y.0 == y,
    {
        Point2D::new(Length::new(x), Length::new(y))
    }

    /// The same point without its unit.
    pub fn to_untyped(&self) -> (r: Point2D<T>)
        ensures
            cloned(self.x.0, r.x),
            cloned(self.y.0, r.y),
    {
        Point2D::new(self.x.get(), self.y.get())
    }

    /// The point `p`, taken to be in the unit `Unit`.
    pub fn from_untyped(p: &Point2D<T>) -> (r: TypedPoint2D<Unit, T>)
        ensures
            cloned(p.x, r.x.0),
            cloned(p.y, r.y.0),
    {
        Point2D::new(Length::new(p.x.clone()), Length::new(p.y.clone()))
    }
}

impl<Unit, T> Point2D<Length<Unit, T>> {
    /// The point in another number type, made of the two components as each was
    /// converted: there is one exactly if both conversions gave a value.
    pub fn cast(x: Option<Length<Unit, T>>, y: Option<Length<Unit, T>>) -> (r: Option<
        TypedPoint2D<Unit, T>,
    >)
        ensures
            r == Point2D::gather(x, y),
    {
        match (x, y) {
            (Some(x), Some(y)) => Some(Point2D::new(x, y)),
            _ => None,
        }
    }
}

impl<T> Point3D<T> {
    /// The point `(x, y, z)`.
    #[inline]
    pub fn new(x: T, y: T, z: T) -> (r: Point3D<T>)
        ensures
            r.x == x,
            r.y == y,
            r.z == z,
    {
        Point3D { x: x, y: y, z: z }
    }

    /// The point of the three components, where all exist.
    pub open spec fn gather(x: Option<T>, y: Option<T>, z: Option<T>) -> Option<Point3D<T>> {
        match (x, y, z) {
            (Some(x), Some(y), Some(z)) => Some(Point3D { x, y, z }),
            _ => None,
        }
    }
}

impl<T: Zero> Point3D<T> {
    /// The point whose components are all zero.
    #[inline]
    pub fn zero() -> (r: Point3D<T>)
        ensures
            r == (Point3D { x: T::zero_spec(), y: T::zero_spec(), z: T::zero_spec() }),
    {
        Point3D { x: Zero::zero(), y: Zero::zero(), z: Zero::zero() }
    }
}

impl<T: Mul<T, Output = T> + Add<T, Output = T> + Sub<T, Output = T> + Copy> Point3D<T> {
    /// `x1 * x2 + y1 * y2 + z1 * z2`, added from left to right.
    pub open spec fn dot_spec(self, other: Point3D<T>) -> Option<T> {
        checked_add(
            checked_add(prod2(self.x, other.x), prod2(self.y, other.y)),
            prod2(self.z, other.z),
        )
    }

    /// The vector `(y1 * z2 - z1 * y2, z1 * x2 - x1 * z2, x1 * y2 - y1 * x2)`.
    pub open spec fn cross_spec(self, other: Point3D<T>) -> Option<Point3D<T>> {
        Point3D::gather(
            checked_sub(prod2(self.y, other.z), prod2(self.z, other.y)),
            checked_sub(prod2(self.z, other.x), prod2(self.x, other.z)),
            checked_sub(prod2(self.x, other.y), prod2(self.y, other.x)),
        )
    }

    /// The dot product: the sum of the products of the components.
    #[inline]
    pub fn dot(self, other: Point3D<T>) -> (r: T)
        requires
            ring_defined::<T, T>(self.dot_spec(other)),
        ensures
            ring_yields::<T, T>(self.dot_spec(other), r),
    {
        self.x * other.x + self.y * other.y + self.z * other.z
    }

    /// The cross product: the vector at right angles to both, by the right-hand
    /// rule.
    #[inline]
    pub fn cross(self, other: Point3D<T>) -> (r: Point3D<T>)
        requires
            ring_defined::<T, Point3D<T>>(self.cross_spec(other)),
        ensures
            ring_yields::<T, Point3D<T>>(self.cross_spec(other), r),
    {
        Point3D {
            x: self.y * other.z - self.z * other.y,
            y: self.z * other.x - self.x * other.z,
            z: self.x * other.y - self.y * other.x,
        }
    }
}

impl<T: Clone + Add<T, Output = T>> AddSpecImpl for Point3D<T> {
    open spec fn obeys_add_spec() -> bool {
        T::obeys_add_spec()
    }

    open spec fn add_req(self, other: Point3D<T>) -> bool {
        self.x.add_req(other.x) && self.y.add_req(other.y) && self.z.add_req(other.z)
    }

    open spec fn add_spec(self, other: Point3D<T>) -> Point3D<T> {
        Point3D {
            x: self.x.add_spec(other.x),
            y: self.y.add_spec(other.y),
            z: self.z.add_spec(other.z),
        }
    }
}

impl<T: Clone + Add<T, Output = T>> Add for Point3D<T> {
    type Output = Point3D<T>;

    /// The sum, component by component.
    fn add(self, other: Point3D<T>) -> Point3D<T> {
        Point3D::new(self.x + other.x, self.y + other.y, self.z + other.z)
    }
}

impl<T: Clone + Sub<T, Output = T>> SubSpecImpl for Point3D<T> {
    open spec fn obeys_sub_spec() -> bool {
        T::obeys_sub_spec()
    }

    open spec fn sub_req(self, other: Point3D<T>) -> bool {
        self.x.sub_req(other.x) && self.y.sub_req(other.y) && self.z.sub_req(other.z)
    }

    open spec fn sub_spec(self, other: Point3D<T>) -> Point3D<T> {
        Point3D {
            x: self.x.sub_spec(other.x),
            y: self.y.sub_spec(other.y),
            z: self.z.sub_spec(other.z),
        }
    }
}

impl<T: Clone + Sub<T, Output = T>> Sub for Point3D<T> {
    type Output = Point3D<T>;

    /// The difference, component by component.
    fn sub(self, other: Point3D<T>) -> Point3D<T> {
        Point3D::new(self.x - other.x, self.y - other.y, self.z - other.z)
    }
}

impl<T: Clone + Neg<Output = T>> NegSpecImpl for Point3D<T> {
    open spec fn obeys_neg_spec() -> bool {
        T::obeys_neg_spec()
    }

    open spec fn neg_req(self) -> bool {
        self.x.neg_req() && self.y.neg_req() && self.z.neg_req()
    }

    open spec fn neg_spec(self) -> Point3D<T> {
        Point3D { x: self.x.neg_spec(), y: self.y.neg_spec(), z: self.z.neg_spec() }
    }
}

impl<T: Clone + Neg<Output = T>> Neg for Point3D<T> {
    type Output = Point3D<T>;

    /// The point with each component negated.
    #[inline]
    fn neg(self) -> Point3D<T> {
        Point3D::new(self.x.neg(), self.y.neg(), self.z.neg())
    }
}

impl<T> Point4D<T> {
    /// The point `(x, y, z, w)`.
    #[inline]
    pub fn new(x: T, y: T, z: T, w: T) -> (r: Point4D<T>)
        ensures
            r.x == x,
            r.y == y,
            r.z == z,
            r.w == w,
    {
        Point4D { x: x, y: y, z: z, w: w }
    }

    /// The point of the four components, where all exist.
    pub open spec fn gather(x: Option<T>, y: Option<T>, z: Option<T>, w: Option<T>) -> Option<
        Point4D<T>,
    > {
        match (x, y, z, w) {
            (Some(x), Some(y), Some(z), Some(w)) => Some(Point4D { x, y, z, w }),
            _ => None,
        }
    }
}

impl<T: Zero> Point4D<T> {
    /// The point whose components are all zero.
    #[inline]
    pub fn zero() -> (r: Point4D<T>)
        ensures
            r == (Point4D {
                x: T::zero_spec(),
                y: T::zero_spec(),
                z: T::zero_spec(),
                w: T::zero_spec(),
            }),
    {
        Point4D {
            x: Zero::zero(),
            y: Zero::zero(),
            z: Zero::zero(),
            w: Zero::zero()
        }
    }
}

impl<T: Clone + Add<T, Output = T>> AddSpecImpl for Point4D<T> {
    open spec fn obeys_add_spec() -> bool {
        T::obeys_add_spec()
    }

    open spec fn add_req(self, other: Point4D<T>) -> bool {
        &&& self.x.add_req(other.x)
        &&& self.y.add_req(other.y)
        &&& self.z.add_req(other.z)
        &&& self.w.add_req(other.w)
    }

    open spec fn add_spec(self, other: Point4D<T>) -> Point4D<T> {
        Point4D {
            x: self.x.add_spec(other.x),
            y: self.y.add_spec(other.y),
            z: self.z.add_spec(other.z),
            w: self.w.add_spec(other.w),
        }
    }
}

impl<T: Clone + Add<T, Output = T>> Add for Point4D<T> {
    type Output = Point4D<T>;

    /// The sum, component by component.
    fn add(self, other: Point4D<T>) -> Point4D<T> {
        Point4D::new(self.x + other.x, self.y + other.y, self.z + other.z, self.w + other.w)
    }
}

impl<T: Clone + Sub<T, Output = T>> SubSpecImpl for Point4D<T> {
    open spec fn obeys_sub_spec() -> bool {
        T::obeys_sub_spec()
    }

    open spec fn sub_req(self, other: Point4D<T>) -> bool {
        &&& self.x.sub_req(other.x)
        &&& self.y.sub_req(other.y)
        &&& self.z.sub_req(other.z)
        &&& self.w.sub_req(other.w)
    }

    open spec fn sub_spec(self, other: Point4D<T>) -> Point4D<T> {
        Point4D {
            x: self.x.sub_spec(other.x),
            y: self.y.sub_spec(other.y),
            z: self.z.sub_spec(other.z),
            w: self.w.sub_spec(other.w),
        }
    }
}

impl<T: Clone + Sub<T, Output = T>> Sub for Point4D<T> {
    type Output = Point4D<T>;

    /// The difference, component by component.
    fn sub(self, other: Point4D<T>) -> Point4D<T> {
        Point4D::new(self.x - other.x, self.y - other.y, self.z - other.z, self.w - other.w)
    }
}

impl<T: Clone + Neg<Output = T>> NegSpecImpl for Point4D<T> {
    open spec fn obeys_neg_spec() -> bool {
        T::obeys_neg_spec()
    }

    open spec fn neg_req(self) -> bool {
        self.x.neg_req() && self.y.neg_req() && self.z.neg_req() && self.w.neg_req()
    }

    open spec fn neg_spec(self) -> Point4D<T> {
        Point4D {
            x: self.x.neg_spec(),
            y: self.y.neg_spec(),
            z: self.z.neg_spec(),
            w: self.w.neg_spec(),
        }
    }
}

impl<T: Clone + Neg<Output = T>> Neg for Point4D<T> {
    type Output = Point4D<T>;

    /// The point with each component negated.
    #[inline]
    fn neg(self) -> Point4D<T> {
        Point4D::new(self.x.neg(), self.y.neg(), self.z.neg(), self.w.neg())
    }
}

} // verus!
