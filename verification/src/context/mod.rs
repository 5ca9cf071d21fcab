//! Values taken out of a context.

use std::marker::PhantomData;
use vstd::prelude::*;

verus! {

/// A value of type `T` that was taken out of a context of type `C`.
#[derive(Debug)]
pub struct FromContext<T, C> {
    pub data: T,
    from: PhantomData<C>,
}

impl<T, C> View for FromContext<T, C> {
    type V = T;

    /// The value that was taken out.
    closed spec fn view(&self) -> T {
        self.data
    }
}

impl<T, C> FromContext<T, C> {
    /// Marks `data` as taken out of a context of type `C`.
    pub fn new(data: T) -> (taken: Self)
        ensures
            taken@ == data,
    {
        FromContext { data, from: PhantomData }
    }

    /// Hands out the value.
    pub fn into_inner(self) -> (data: T)
        ensures
            data == self@,
    {
        self.data
    }
}

} // verus!
