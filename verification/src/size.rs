//! A width and a height.

use vstd::prelude::*;

verus! {

/// The extent of something in two dimensions. It is no point: a point can be
/// moved by it, and that is all the two have to do with each other.
#[derive(Clone, Copy, Debug, PartialEq, Eq, Hash)]
pub struct Size2D<T> {
    pub width: T,
    pub height: T,
}

impl<T> Size2D<T> {
    /// The size with the given width and height.
    pub fn new(width: T, height: T) -> (r: Size2D<T>)
        ensures
            r.width == width,
            r.height == height,
    {
        Size2D { width, height }
    }
}

} // verus!
