//! A one-field smart pointer that hands out its contents through `Deref`.

use vstd::prelude::*;

verus! {

/// Holds one value and lets `*` reach it, as `Box` does.
pub struct MyBox<T>(pub T);

impl<T> View for MyBox<T> {
    type V = T;

    /// The value held.
    open spec fn view(&self) -> T {
        self.0
    }
}

impl<T> MyBox<T> {
    /// Wraps `x`.
    pub fn new(x: T) -> (b: MyBox<T>)
        ensures
            b@ == x,
    {
        MyBox(x)
    }
}

impl<T> core::ops::Deref for MyBox<T> {
    type Target = T;

    /// A reference to the value held.
    fn deref(&self) -> (r: &T)
        ensures
            *r == self@,
    {
        &self.0
    }
}

/// Dereferencing a box made by `MyBox::new(x)` gives back `x`: `new`
/// promises `b@ == x` and `deref` promises `*r == b@`.
pub proof fn lemma_deref_new<T>(x: T, b: MyBox<T>, r: T)
    requires
        b@ == x,
        r == b@,
    ensures
        r == x,
{
}

} // verus!
