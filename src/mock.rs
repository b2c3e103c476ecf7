use crate::given::Given;
use crate::rule::{find_rule, lookup, Rule};
use crate::shared::SharedCell;
use crate::validator::Validator;
use crate::when::When;
use vstd::prelude::*;
use vstd::std_specs::cmp::PartialEqSpec;

verus! {

/// A call that no configured rule answers. It names the mock that received it.
#[derive(Debug, PartialEq, Clone)]
pub struct UnexpectedCall {
    pub mock: String,
}

/// Resolves one call against a rule list and records it: `input` is appended
/// to `calls` whether or not a rule answers it, and the result is a copy of
/// the output of the first rule that answers it, or `None` when none does.
pub fn answer_call<I: PartialEq, O: Clone>(
    rules: &Vec<Rule<I, O>>,
    calls: &mut Vec<I>,
    input: I,
) -> (r: Option<O>)
    ensures
        final(calls)@ == old(calls)@.push(input),
        I::obeys_eq_spec() ==> match lookup(rules@, input) {
            Some(o) => r matches Some(v) && cloned(o, v),
            None => r is None,
        },
{
    let found = find_rule(rules, &input);
    calls.push(input);
    match found {
        Some(i) => Some(rules[i].output.clone()),
        None => None,
    }
}

/// The engine behind one mocked method: configured rules, and the history of
/// the inputs it was called with. Clones share both.
pub struct Mock<I, O> {
    name: String,
    calls: SharedCell<Vec<I>>,
    rules: SharedCell<Vec<Rule<I, O>>>,
}

impl<I, O> Mock<I, O> {
    /// The name that diagnostics give the mock.
    pub closed spec fn name(&self) -> Seq<char> {
        self.name@
    }

    /// The call history, shared with clones and validators.
    pub closed spec fn history(&self) -> SharedCell<Vec<I>> {
        self.calls
    }

    /// The rule list, shared with clones and configurators.
    pub closed spec fn rule_list(&self) -> SharedCell<Vec<Rule<I, O>>> {
        self.rules
    }

    /// A mock with no rule and no recorded call.
    pub fn new(name: String) -> (m: Mock<I, O>)
        ensures
            m.name() == name@,
    {
        Mock { name, calls: SharedCell::new(Vec::new()), rules: SharedCell::new(Vec::new()) }
    }

    /// Starts configuring the answer to calls with `input`.
    pub fn given(&self, input: I) -> (g: Given<I, O>)
        ensures
            g.input() == input,
            g.rule_list() == self.rule_list(),
    {
        Given::new(input, self.rules.clone())
    }

    /// Starts configuring the answer to calls with `input`.
    pub fn when(&self, input: I) -> (w: When<I, O>)
        ensures
            w.input() == input,
            w.rule_list() == self.rule_list(),
    {
        When::new(input, self.rules.clone())
    }

    /// A validator that looks for `input` in this mock's call history.
    pub fn was_called_with(&self, input: I) -> (v: Validator<I>)
        ensures
            v.expected() == input,
            v.outcome() is None,
            v.history() == self.history(),
    {
        Validator::new(self.calls.clone(), input)
    }
}

impl<I: PartialEq, O: Clone> Mock<I, O> {
    /// Answers a call with `input`. Under the rule list's lock and then the
    /// history's, this is `answer_call` on the rules and history held at that
    /// moment: the call is recorded, and the output of the first rule that
    /// answers it is returned, or `UnexpectedCall` when no rule does.
    pub fn called(&self, input: I) -> (r: Result<O, UnexpectedCall>)
        ensures
            r matches Err(e) ==> e.mock@ == self.name(),
    {
        let (rules, rules_handle) = self.rules.acquire();
        let (mut calls, calls_handle) = self.calls.acquire();
        let found = answer_call(&rules, &mut calls, input);
        self.calls.release(calls, calls_handle);
        self.rules.release(rules, rules_handle);
        match found {
            Some(output) => Ok(output),
            None => Err(UnexpectedCall { mock: self.name.clone() }),
        }
    }
}

impl<I, O> Default for Mock<I, O> {
    /// A mock without a name.
    fn default() -> (m: Self)
        ensures
            m.name() == Seq::<char>::empty(),
    {
        Mock::new(String::new())
    }
}

impl<I, O> Clone for Mock<I, O> {
    fn clone(&self) -> (m: Self)
        ensures
            m.name() == self.name(),
            m.history() == self.history(),
            m.rule_list() == self.rule_list(),
    {
        Mock { name: self.name.clone(), calls: self.calls.clone(), rules: self.rules.clone() }
    }
}

} // verus!
