//! A mock engine for tests: a `Mock` answers calls from configured rules,
//! records every call, and hands out `Validator`s that check the history.
pub mod given;
pub mod input;
pub mod matcher;
pub mod mock;
pub mod output;
pub mod return_value;
pub mod rule;
pub mod shared;
pub mod validator;
pub mod when;

pub use crate::given::Given;
pub use crate::input::Input;
pub use crate::matcher::{any, eq, Matcher, MockCompare};
pub use crate::mock::{answer_call, Mock, UnexpectedCall};
pub use crate::output::{value_of, Output};
pub use crate::return_value::ReturnValue;
pub use crate::rule::{find_rule, set_rule, Rule};
pub use crate::shared::SharedCell;
pub use crate::validator::{count_calls, contains_call, verify, Validator};
pub use crate::when::When;
