//! Points of two, three and four components and a four by four transform
//! matrix, over any component type that brings the arithmetic an operation uses.
//!
//! The operations are verified for every component type: none of them fails
//! where its `requires` holds, and over a type whose arithmetic is exact each
//! returns the value that its `_spec` function states. Over the integers the
//! formulas are shown to be what their names say: `laws` holds what is proved of
//! them.

pub mod algebra;
pub mod integral;
pub mod laws;
pub mod length;
pub mod matrix;
pub mod num;
pub mod point;
pub mod scalar;
pub mod size;

pub use length::Length;
pub use matrix::Matrix4;
pub use crate::num::Zero;
pub use point::{Point2D, Point3D, Point4D, TypedPoint2D};
pub use size::Size2D;
