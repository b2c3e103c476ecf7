use vstd::prelude::*;
use vstd::std_specs::cmp::PartialEqSpec;

verus! {

/// An expected input of the older, bare form: one exact value, or any value.
/// It compares as `Matcher` does: `Any` equals everything.
#[derive(Debug, Clone)]
pub enum Input<I> {
    Val(I),
    Any,
}

impl<I: PartialEq> PartialEq for Input<I> {
    fn eq(&self, other: &Input<I>) -> (r: bool) {
        match (self, other) {
            (Input::Val(a), Input::Val(b)) => a == b,
            _ => true,
        }
    }
}

impl<I: PartialEq> vstd::std_specs::cmp::PartialEqSpecImpl for Input<I> {
    open spec fn obeys_eq_spec() -> bool {
        I::obeys_eq_spec()
    }

    open spec fn eq_spec(&self, other: &Input<I>) -> bool {
        match (self, other) {
            (Input::Val(a), Input::Val(b)) => I::eq_spec(a, b),
            _ => true,
        }
    }
}

} // verus!
