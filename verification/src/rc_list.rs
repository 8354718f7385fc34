//! A singly linked list of integers whose tails can be shared through `Rc`.

use std::rc::Rc;
use vstd::prelude::*;

verus! {

/// Either a cell holding a number and a shared rest of the list, or the end.
pub enum List {
    Cons(i32, Rc<List>),
    Nil,
}

impl List {
    /// The numbers of the list, front first.
    pub open spec fn values(&self) -> Seq<i32>
        decreases self,
    {
        match self {
            List::Cons(v, rest) => seq![*v] + rest.values(),
            List::Nil => Seq::empty(),
        }
    }
}

impl View for List {
    type V = Seq<i32>;

    open spec fn view(&self) -> Seq<i32> {
        self.values()
    }
}

} // verus!
