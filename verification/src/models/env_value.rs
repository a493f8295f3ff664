//! How the value of an environment variable is typed when a configuration is
//! written out. In memory every value is a string.

use vstd::prelude::*;
use crate::helpers::same_text;

verus! {

/// The value of an environment variable as it is written out.
#[derive(Debug, PartialEq, Eq)]
pub enum EnvValue {
    /// The text `true` or `false`.
    Bool(bool),
    /// A text that reads as a 64-bit signed integer.
    Integer(i64),
    /// Any other text.
    Text(String),
}

/// An [`EnvValue`] as plain values.
pub ghost enum EnvValueView {
    Bool(bool),
    Integer(i64),
    Text(Seq<char>),
}

impl View for EnvValue {
    type V = EnvValueView;

    open spec fn view(&self) -> EnvValueView {
        match self {
            EnvValue::Bool(flag) => EnvValueView::Bool(*flag),
            EnvValue::Integer(number) => EnvValueView::Integer(*number),
            EnvValue::Text(text) => EnvValueView::Text(text@),
        }
    }
}

/// The integer that `str::parse::<i64>` reads from a text, or nothing where
/// it refuses the text.
pub uninterp spec fn parsed_i64(text: Seq<char>) -> Option<i64>;

/// The truth value that a text spells: `true`, `false`, or none.
pub open spec fn parsed_bool(text: Seq<char>) -> Option<bool> {
    if text == "true"@ {
        Some(true)
    } else if text == "false"@ {
        Some(false)
    } else {
        None
    }
}

/// The typed value of `text`, given the integer that it reads as, if any: a
/// truth value where it spells one, else that integer, else the text itself.
pub open spec fn typed_value(text: Seq<char>, integer: Option<i64>) -> EnvValueView {
    match parsed_bool(text) {
        Some(flag) => EnvValueView::Bool(flag),
        None => match integer {
            Some(number) => EnvValueView::Integer(number),
            None => EnvValueView::Text(text),
        },
    }
}

/// Calls `str::parse::<i64>` on `text`. The contract names what the call
/// returns and claims nothing else of it: the result is a function of the
/// characters of `text` alone.
#[verifier::external_body]
fn parse_i64(text: &str) -> (integer: Option<i64>)
    ensures
        integer == parsed_i64(text@),
{
    text.parse::<i64>().ok()
}

/// The truth value that `text` spells, if it spells one.
pub fn parse_bool(text: &str) -> (flag: Option<bool>)
    ensures
        flag == parsed_bool(text@),
{
    if same_text(text, "true") {
        Some(true)
    } else if same_text(text, "false") {
        Some(false)
    } else {
        None
    }
}

/// Types `text`, given the integer that it reads as, if any.
pub fn typed_env_value_of(text: &str, integer: Option<i64>) -> (value: EnvValue)
    ensures
        value@ == typed_value(text@, integer),
{
    match parse_bool(text) {
        Some(flag) => EnvValue::Bool(flag),
        None => match integer {
            Some(number) => EnvValue::Integer(number),
            None => EnvValue::Text(text.to_owned()),
        },
    }
}

/// Types the value `text` of an environment variable for writing out: a
/// truth value where it spells one, else an integer where it reads as one,
/// else the text itself.
pub fn typed_env_value(text: &str) -> (value: EnvValue)
    ensures
        value@ == typed_value(text@, parsed_i64(text@)),
{
    typed_env_value_of(text, parse_i64(text))
}

} // verus!
