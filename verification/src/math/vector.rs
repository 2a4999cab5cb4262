//! A fixed-length vector of components.

use crate::math::number::Zero;
use vstd::prelude::*;
use vstd::std_specs::convert::FromSpecImpl;

verus! {

/// `U` components of type `T`.
#[derive(Copy)]
pub struct Vector<T, const U: usize> {
    pub data: [T; U],
}

impl<T: Copy, const U: usize> Clone for Vector<T, U> {
    fn clone(&self) -> (r: Self)
        ensures
            r == *self,
    {
        *self
    }
}

impl<T, const U: usize> Vector<T, U> {
    /// The components, in order.
    pub open spec fn view(&self) -> Seq<T> {
        self.data@
    }

    /// The component at `i`.
    pub fn get(&self, i: usize) -> (r: &T)
        requires
            i < U,
        ensures
            *r == self@[i as int],
    {
        &self.data[i]
    }
}

impl<T, const U: usize> From<[T; U]> for Vector<T, U> {
    fn from(data: [T; U]) -> (r: Self) {
        Self { data }
    }
}

impl<T, const U: usize> FromSpecImpl<[T; U]> for Vector<T, U> {
    open spec fn obeys_from_spec() -> bool {
        true
    }

    open spec fn from_spec(data: [T; U]) -> Self {
        Vector { data }
    }
}

impl<T, const U: usize> Default for Vector<T, U> where T: Zero + Copy {
    /// The vector whose every component is zero.
    fn default() -> (r: Self)
        ensures
            r@.len() == U,
            forall|i: int| 0 <= i < U ==> r@[i] == T::zero_value(),
    {
        Self { data: [T::zero();U] }
    }
}

} // verus!
