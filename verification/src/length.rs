//! A number tagged with the unit it is measured in.

use crate::num::Zero;
use core::marker::PhantomData;
use vstd::prelude::*;

verus! {

/// A value of type `T` in the unit `Unit`. The unit is a type and nothing more:
/// it takes no room and never takes part in a computation, but two lengths in
/// different units are of different types and cannot be mixed by accident.
pub struct Length<Unit, T>(pub T, pub PhantomData<Unit>);

impl<Unit, T> Length<Unit, T> {
    /// The length of `x` units.
    pub fn new(x: T) -> (r: Length<Unit, T>)
        ensures
            r.0 == x,
    {
        Length(x, PhantomData)
    }
}

impl<Unit, T: Clone> Length<Unit, T> {
    /// The number of units, without the tag.
    pub fn get(&self) -> (r: T)
        ensures
            cloned(self.0, r),
    {
        self.0.clone()
    }
}

impl<Unit, T: Clone> Clone for Length<Unit, T> {
    fn clone(&self) -> (r: Length<Unit, T>)
        ensures
            cloned(self.0, r.0),
    {
        Length(self.0.clone(), PhantomData)
    }
}

impl<Unit, T: Copy> Copy for Length<Unit, T> {

}

impl<Unit, T: Zero> Zero for Length<Unit, T> {
    open spec fn zero_spec() -> Length<Unit, T> {
        Length(T::zero_spec(), PhantomData)
    }

    fn zero() -> Length<Unit, T> {
        Length::new(T::zero())
    }
}

} // verus!
