use vstd::prelude::*;
use vstd::std_specs::cmp::PartialEqSpec;

verus! {

/// An expected input: either one exact value, or any value at all.
///
/// Two matchers compare equal when both hold values that compare equal, or
/// when either of them is `Any`. This is "does this call satisfy this
/// expectation", not an equivalence: `Any` equals every value.
#[derive(Debug, Clone)]
pub enum Matcher<I> {
    Val(I),
    Any,
}

impl<I: PartialEq> PartialEq for Matcher<I> {
    fn eq(&self, other: &Matcher<I>) -> (r: bool) {
        match (self, other) {
            (Matcher::Val(a), Matcher::Val(b)) => a == b,
            _ => true,
        }
    }
}

impl<I: PartialEq> vstd::std_specs::cmp::PartialEqSpecImpl for Matcher<I> {
    open spec fn obeys_eq_spec() -> bool {
        I::obeys_eq_spec()
    }

    open spec fn eq_spec(&self, other: &Matcher<I>) -> bool {
        match (self, other) {
            (Matcher::Val(a), Matcher::Val(b)) => I::eq_spec(a, b),
            _ => true,
        }
    }
}

/// A comparison between a value and a value of another type.
pub trait MockCompare {
    type Other;

    fn eq(&self, other: &Self::Other) -> bool;
}

/// A matcher that accepts exactly `input`.
pub fn eq<I>(input: I) -> (m: Matcher<I>)
    ensures
        m == Matcher::Val(input),
{
    Matcher::Val(input)
}

/// A matcher that accepts every input.
pub fn any<I>() -> (m: Matcher<I>)
    ensures
        m == Matcher::<I>::Any,
{
    Matcher::Any
}

} // verus!
