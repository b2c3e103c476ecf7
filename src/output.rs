use crate::shared::SharedCell;
use vstd::prelude::*;

verus! {

/// A single configurable return value, shared between clones.
pub struct Output<O> {
    value: SharedCell<O>,
}

impl<O> Output<O> {
    /// The cell holding the value.
    pub closed spec fn cell(&self) -> SharedCell<O> {
        self.value
    }

    pub fn new(value: SharedCell<O>) -> (o: Output<O>)
        ensures
            o.cell() == value,
    {
        Output { value }
    }
}

impl<O: Clone> Output<O> {
    /// Makes `value` the value returned from now on.
    pub fn will_return(&self, value: O) {
        self.value.set(value);
    }
}

impl<O> Clone for Output<O> {
    fn clone(&self) -> (o: Self)
        ensures
            o.cell() == self.cell(),
    {
        Output { value: self.value.clone() }
    }
}

/// A copy of the value that `output` currently holds.
pub fn value_of<O: Clone>(output: Output<O>) -> O {
    output.value.get()
}

} // verus!
