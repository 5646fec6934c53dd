//! The values that a script computes with.

use vstd::prelude::*;

use crate::strings::{decimal, decimal_string};

verus! {

/// A value of the scripting language.
#[derive(Debug, PartialEq, Eq)]
pub enum Value {
    Null,
    Integer(i64),
    String(String),
}

/// What a `Value` is in a specification: a string is its characters.
pub enum ValueView {
    Null,
    Integer(i64),
    String(Seq<char>),
}

impl View for Value {
    type V = ValueView;

    open spec fn view(&self) -> ValueView {
        match self {
            Value::Null => ValueView::Null,
            Value::Integer(integer) => ValueView::Integer(*integer),
            Value::String(string) => ValueView::String(string@),
        }
    }
}

/// What stands in a text for `value`.
pub open spec fn rendered(value: ValueView) -> Seq<char> {
    match value {
        ValueView::Null => "null"@,
        ValueView::Integer(integer) => decimal(integer as int),
        ValueView::String(string) => string,
    }
}

impl Value {
    /// What stands in a text for this value.
    pub fn to_text(&self) -> (text: String)
        ensures
            text@ == rendered(self@),
    {
        match self {
            Value::Null => String::from_str("null"),
            Value::Integer(integer) => decimal_string(*integer as i128),
            Value::String(string) => string.clone(),
        }
    }
}

impl Clone for Value {
    fn clone(&self) -> (copy: Value)
        ensures
            copy == *self,
    {
        match self {
            Value::Null => Value::Null,
            Value::Integer(integer) => Value::Integer(*integer),
            Value::String(string) => Value::String(string.clone()),
        }
    }
}

impl Default for Value {
    fn default() -> (value: Value)
        ensures
            value == Value::Null,
    {
        Value::Null
    }
}

} // verus!
