use crate::matcher::Matcher;
use vstd::prelude::*;
use vstd::std_specs::cmp::PartialEqSpec;

verus! {

/// A configured answer: when a call's input compares equal to `input`, the
/// mock returns `output`.
#[derive(Debug, PartialEq, Clone)]
pub struct Rule<I, O> {
    pub input: I,
    pub output: O,
}

impl<I, O> Rule<I, O> {
    pub fn new(input: I, output: O) -> (r: Rule<I, O>)
        ensures
            r == (Rule { input, output }),
    {
        Rule { input, output }
    }
}

/// Whether `rule` answers a call made with `input`: its stored input compares
/// equal to the incoming one.
pub open spec fn answers<I: PartialEq, O>(rule: Rule<I, O>, input: I) -> bool {
    rule.input.eq_spec(&input)
}

/// The position of the first rule of `rules` that answers `input`.
pub open spec fn first_answering<I: PartialEq, O>(rules: Seq<Rule<I, O>>, input: I) -> Option<int>
    decreases rules.len(),
{
    if rules.len() == 0 {
        None
    } else if answers(rules[0], input) {
        Some(0)
    } else {
        match first_answering(rules.drop_first(), input) {
            Some(i) => Some(i + 1),
            None => None,
        }
    }
}

/// The output that the rule list gives for a call with `input`: that of the
/// first rule answering it, if there is one.
pub open spec fn lookup<I: PartialEq, O>(rules: Seq<Rule<I, O>>, input: I) -> Option<O> {
    match first_answering(rules, input) {
        Some(i) => Some(rules[i].output),
        None => None,
    }
}

/// The rule list after configuring `output` for `input`: the first rule whose
/// input compares equal to `input` is replaced in place, or, when there is
/// none, the new rule is appended.
pub open spec fn with_rule<I: PartialEq, O>(rules: Seq<Rule<I, O>>, input: I, output: O) -> Seq<
    Rule<I, O>,
> {
    match first_answering(rules, input) {
        Some(i) => rules.update(i, Rule { input, output }),
        None => rules.push(Rule { input, output }),
    }
}

/// `first_answering` names the first rule that answers, and no rule before it does.
pub proof fn lemma_first_answering<I: PartialEq, O>(rules: Seq<Rule<I, O>>, input: I)
    ensures
        match first_answering(rules, input) {
            Some(i) => {
                &&& 0 <= i < rules.len()
                &&& answers(rules[i], input)
                &&& forall|j: int| 0 <= j < i ==> !answers(#[trigger] rules[j], input)
            },
            None => forall|j: int| 0 <= j < rules.len() ==> !answers(#[trigger] rules[j], input),
        },
    decreases rules.len(),
{
    if rules.len() > 0 && !answers(rules[0], input) {
        let rest = rules.drop_first();
        lemma_first_answering(rest, input);
        match first_answering(rest, input) {
            Some(i) => {
                assert forall|j: int| 0 <= j < i + 1 implies !answers(#[trigger] rules[j], input) by {
                    if j > 0 {
                        assert(rules[j] == rest[j - 1]);
                    }
                }
            },
            None => {
                assert forall|j: int| 0 <= j < rules.len() implies !answers(
                    #[trigger] rules[j],
                    input,
                ) by {
                    if j > 0 {
                        assert(rules[j] == rest[j - 1]);
                    }
                }
            },
        }
    }
}

/// A rule that answers `input` with no answering rule before it is the one
/// `first_answering` names.
pub proof fn lemma_first_answering_at<I: PartialEq, O>(rules: Seq<Rule<I, O>>, input: I, i: int)
    requires
        0 <= i < rules.len(),
        answers(rules[i], input),
        forall|j: int| 0 <= j < i ==> !answers(#[trigger] rules[j], input),
    ensures
        first_answering(rules, input) == Some(i),
{
    lemma_first_answering(rules, input);
    match first_answering(rules, input) {
        Some(k) => {
            if k < i {
                assert(!answers(rules[k], input));
            }
            if k > i {
                assert(!answers(rules[i], input));
            }
        },
        None => {
            assert(!answers(rules[i], input));
        },
    }
}

/// First match wins: when the rule at `i` and a later rule at `k` both answer
/// `input`, and no rule before `i` does, the output comes from the rule at `i`.
pub proof fn lemma_first_match_wins<I: PartialEq, O>(
    rules: Seq<Rule<I, O>>,
    input: I,
    i: int,
    k: int,
)
    requires
        0 <= i < k < rules.len(),
        answers(rules[i], input),
        answers(rules[k], input),
        forall|j: int| 0 <= j < i ==> !answers(#[trigger] rules[j], input),
    ensures
        lookup(rules, input) == Some(rules[i].output),
{
    lemma_first_answering_at(rules, input, i);
}

/// Configuring the same input twice, first with `a` and then with `b`, adds
/// no second rule: the list keeps its length, a call with the input gets `b`,
/// and when no rule answered the input before, exactly one rule for it is added.
pub proof fn lemma_replace_on_equal<I: PartialEq, O>(rules: Seq<Rule<I, O>>, input: I, a: O, b: O)
    requires
        input.eq_spec(&input),
    ensures
        ({
            let once = with_rule(rules, input, a);
            let twice = with_rule(once, input, b);
            &&& twice.len() == once.len()
            &&& lookup(twice, input) == Some(b)
            &&& first_answering(rules, input) is None ==> twice == rules.push(
                Rule { input, output: b },
            )
        }),
{
    lemma_first_answering(rules, input);
    let once = with_rule(rules, input, a);
    let pos = match first_answering(rules, input) {
        Some(i) => i,
        None => rules.len() as int,
    };
    assert forall|j: int| 0 <= j < pos implies !answers(#[trigger] once[j], input) by {
        assert(once[j] == rules[j]);
    }
    lemma_first_answering_at(once, input, pos);
    let twice = with_rule(once, input, b);
    assert forall|j: int| 0 <= j < pos implies !answers(#[trigger] twice[j], input) by {
        assert(twice[j] == once[j]);
    }
    lemma_first_answering_at(twice, input, pos);
    if first_answering(rules, input) is None {
        assert(twice =~= rules.push(Rule { input, output: b }));
    }
}

/// A wildcard rule answers every call that no earlier rule answers.
pub proof fn lemma_wildcard_answers_all<T: PartialEq, O>(
    rules: Seq<Rule<Matcher<T>, O>>,
    i: int,
    input: Matcher<T>,
)
    requires
        0 <= i < rules.len(),
        rules[i].input == Matcher::<T>::Any,
        forall|j: int| 0 <= j < i ==> !answers(#[trigger] rules[j], input),
    ensures
        lookup(rules, input) == Some(rules[i].output),
{
    lemma_first_answering_at(rules, input, i);
}

/// The position of the first rule of `rules` that answers `input`.
pub fn find_rule<I: PartialEq, O>(rules: &Vec<Rule<I, O>>, input: &I) -> (r: Option<usize>)
    ensures
        I::obeys_eq_spec() ==> match r {
            Some(i) => first_answering(rules@, *input) == Some(i as int),
            None => first_answering(rules@, *input) is None,
        },
        r matches Some(i) ==> i < rules@.len(),
{
    let mut i: usize = 0;
    while i < rules.len()
        invariant
            i <= rules@.len(),
            I::obeys_eq_spec() ==> forall|j: int| 0 <= j < i ==> !answers(#[trigger] rules@[j], *input),
        decreases rules@.len() - i,
    {
        if rules[i].input == *input {
            proof {
                if I::obeys_eq_spec() {
                    lemma_first_answering_at(rules@, *input, i as int);
                }
            }
            return Some(i);
        }
        i = i + 1;
    }
    proof {
        if I::obeys_eq_spec() {
            lemma_first_answering(rules@, *input);
            if let Some(k) = first_answering(rules@, *input) {
                assert(!answers(rules@[k], *input));
            }
        }
    }
    None
}

/// Configures `output` for `input`: replaces the first rule whose input
/// compares equal to `input`, in place, or appends a new rule when there is none.
pub fn set_rule<I: PartialEq, O>(rules: &mut Vec<Rule<I, O>>, input: I, output: O)
    ensures
        I::obeys_eq_spec() ==> final(rules)@ == with_rule(old(rules)@, input, output),
        final(rules)@.len() == old(rules)@.len() || final(rules)@.len() == old(rules)@.len() + 1,
{
    match find_rule(rules, &input) {
        Some(i) => {
            rules.set(i, Rule::new(input, output));
        },
        None => {
            rules.push(Rule::new(input, output));
        },
    }
}

} // verus!
