use crate::shared::SharedCell;
use vstd::prelude::*;
use vstd::std_specs::cmp::PartialEqSpec;

verus! {

/// How many recorded calls compare equal to `input`.
pub open spec fn occurrences<I: PartialEq>(calls: Seq<I>, input: I) -> nat
    decreases calls.len(),
{
    if calls.len() == 0 {
        0
    } else {
        let rest = occurrences(calls.drop_last(), input);
        if calls.last().eq_spec(&input) {
            rest + 1
        } else {
            rest
        }
    }
}

/// The outcome after asking for exactly `times` calls with `input` against
/// `calls`: any other count fixes the outcome to `false`.
pub open spec fn times_outcome<I: PartialEq>(
    outcome: Option<bool>,
    calls: Seq<I>,
    input: I,
    times: nat,
) -> Option<bool> {
    if occurrences(calls, input) != times {
        Some(false)
    } else {
        outcome
    }
}

/// The verdict read from an outcome: a fixed outcome stands; otherwise it is
/// whether `calls` holds at least one call with `input`.
pub open spec fn verdict<I: PartialEq>(outcome: Option<bool>, calls: Seq<I>, input: I) -> bool {
    match outcome {
        Some(v) => v,
        None => occurrences(calls, input) > 0,
    }
}

/// The history is cumulative and keeps order: after calls with `x`, `y` and
/// `x` again, exactly two calls with `x` and one with `y` are found, and an
/// input `z` that was never passed is not found.
pub proof fn lemma_history_counts<I: PartialEq>(x: I, y: I, z: I)
    requires
        x.eq_spec(&x),
        y.eq_spec(&y),
        !x.eq_spec(&y),
        !y.eq_spec(&x),
        !x.eq_spec(&z),
        !y.eq_spec(&z),
    ensures
        ({
            let calls = Seq::<I>::empty().push(x).push(y).push(x);
            &&& occurrences(calls, x) == 2
            &&& occurrences(calls, y) == 1
            &&& verdict(times_outcome(None, calls, x, 2), calls, x)
            &&& verdict(times_outcome(None, calls, y, 1), calls, y)
            &&& !verdict(None, calls, z)
        }),
{
    let c1 = Seq::<I>::empty().push(x);
    let c2 = c1.push(y);
    let c3 = c2.push(x);
    assert(c1.drop_last() =~= Seq::<I>::empty());
    assert(c2.drop_last() =~= c1);
    assert(c3.drop_last() =~= c2);
    assert(occurrences(Seq::<I>::empty(), x) == 0);
    assert(occurrences(Seq::<I>::empty(), y) == 0);
    assert(occurrences(Seq::<I>::empty(), z) == 0);
    assert(occurrences(c1, x) == 1);
    assert(occurrences(c2, x) == 1);
    assert(occurrences(c1, y) == 0);
    assert(occurrences(c2, y) == 1);
    assert(occurrences(c1, z) == 0);
    assert(occurrences(c2, z) == 0);
}

/// Counts the recorded calls that compare equal to `input`.
pub fn count_calls<I: PartialEq>(calls: &Vec<I>, input: &I) -> (n: usize)
    ensures
        I::obeys_eq_spec() ==> n == occurrences(calls@, *input),
        n <= calls@.len(),
{
    let mut n: usize = 0;
    let mut i: usize = 0;
    while i < calls.len()
        invariant
            i <= calls@.len(),
            n <= i,
            I::obeys_eq_spec() ==> n == occurrences(calls@.subrange(0, i as int), *input),
        decreases calls@.len() - i,
    {
        assert(calls@.subrange(0, i + 1).drop_last() == calls@.subrange(0, i as int));
        if calls[i] == *input {
            n = n + 1;
        }
        i = i + 1;
    }
    assert(calls@.subrange(0, calls@.len() as int) == calls@);
    n
}

/// Whether at least one recorded call compares equal to `input`.
pub fn contains_call<I: PartialEq>(calls: &Vec<I>, input: &I) -> (r: bool)
    ensures
        I::obeys_eq_spec() ==> r == (occurrences(calls@, *input) > 0),
{
    count_calls(calls, input) > 0
}

/// Returns the verdict of `validator`.
pub fn verify<I: PartialEq>(validator: Validator<I>) -> (r: bool)
    ensures
        validator.outcome() matches Some(v) ==> r == v,
        I::obeys_eq_spec() ==> exists|calls: Seq<I>|
            r == verdict(validator.outcome(), calls, validator.expected()),
{
    validator.called()
}

/// A query over a mock's call history: was it called with `input`, and, after
/// `times`, exactly that many times.
pub struct Validator<I> {
    calls: SharedCell<Vec<I>>,
    result: Option<bool>,
    input: I,
}

impl<I> Validator<I> {
    /// The outcome fixed so far, if any.
    pub closed spec fn outcome(&self) -> Option<bool> {
        self.result
    }

    /// The input looked for.
    pub closed spec fn expected(&self) -> I {
        self.input
    }

    /// The call history queried.
    pub closed spec fn history(&self) -> SharedCell<Vec<I>> {
        self.calls
    }

    pub fn new(calls: SharedCell<Vec<I>>, input: I) -> (v: Validator<I>)
        ensures
            v.outcome() is None,
            v.expected() == input,
            v.history() == calls,
    {
        Validator { calls, result: None, input }
    }
}

impl<I: PartialEq> Validator<I> {
    /// The verdict, which is the outcome already settled, or else whether the history
    /// holds a call with the input, which then becomes the outcome.
    pub fn result(&mut self) -> (r: bool)
        ensures
            final(self).expected() == old(self).expected(),
            final(self).history() == old(self).history(),
            final(self).outcome() == Some(r),
            old(self).outcome() matches Some(v) ==> r == v,
            I::obeys_eq_spec() ==> exists|calls: Seq<I>|
                r == verdict(old(self).outcome(), calls, old(self).expected()),
    {
        match self.result {
            Some(v) => {
                assert(v == verdict(old(self).outcome(), Seq::empty(), old(self).expected()));
                v
            },
            None => {
                let (calls, handle) = self.calls.acquire();
                let was_called = contains_call(&calls, &self.input);
                let ghost seen = calls@;
                self.calls.release(calls, handle);
                self.result = Some(was_called);
                assert(I::obeys_eq_spec() ==> was_called == verdict(
                    old(self).outcome(),
                    seen,
                    old(self).expected(),
                ));
                was_called
            },
        }
    }

    /// Asks for exactly `times` calls with the input, counted against the
    /// history as it stands now; any other count fixes the outcome to `false`.
    pub fn times(self, times: usize) -> (r: Validator<I>)
        requires
            times > 0,
        ensures
            r.expected() == self.expected(),
            r.history() == self.history(),
            r.outcome() == self.outcome() || r.outcome() == Some(false),
            I::obeys_eq_spec() ==> exists|calls: Seq<I>|
                r.outcome() == times_outcome(self.outcome(), calls, self.expected(), times as nat),
    {
        let mut this = self;
        let (calls, handle) = this.calls.acquire();
        let times_called = count_calls(&calls, &this.input);
        let ghost seen = calls@;
        this.calls.release(calls, handle);
        if times_called != times {
            this.result = Some(false);
        }
        assert(I::obeys_eq_spec() ==> this.outcome() == times_outcome(
            self.outcome(),
            seen,
            self.expected(),
            times as nat,
        ));
        this
    }

    /// The verdict; see `result`.
    pub fn called(self) -> (r: bool)
        ensures
            self.outcome() matches Some(v) ==> r == v,
            I::obeys_eq_spec() ==> exists|calls: Seq<I>|
                r == verdict(self.outcome(), calls, self.expected()),
    {
        let mut this = self;
        this.result()
    }
}

} // verus!
