use crate::rule::{set_rule, Rule};
use crate::shared::SharedCell;
use vstd::prelude::*;

verus! {

/// A rule being configured for one input, through `Mock::given`.
pub struct Given<I, O> {
    input: I,
    rules: SharedCell<Vec<Rule<I, O>>>,
}

impl<I, O> Given<I, O> {
    /// The input being configured.
    pub closed spec fn input(&self) -> I {
        self.input
    }

    /// The rule list that the rule goes to.
    pub closed spec fn rule_list(&self) -> SharedCell<Vec<Rule<I, O>>> {
        self.rules
    }

    pub fn new(input: I, rules: SharedCell<Vec<Rule<I, O>>>) -> (g: Self)
        ensures
            g.input() == input,
            g.rule_list() == rules,
    {
        Given { input, rules }
    }
}

impl<I: PartialEq, O> Given<I, O> {
    /// Answers calls with the input by `value`: under the list's lock, the
    /// rule list becomes `with_rule(list, input, value)` (see `set_rule`).
    pub fn will_return(self, value: O) {
        let (mut rules, handle) = self.rules.acquire();
        set_rule(&mut rules, self.input, value);
        self.rules.release(rules, handle);
    }
}

impl<I: PartialEq, O: Default> Given<I, O> {
    /// Answers calls with the input by the output type's default value.
    pub fn will_return_default(self) {
        self.will_return(O::default())
    }
}

} // verus!
