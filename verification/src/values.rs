//! Typed parameter values carried alongside a query template.
//!
//! A `Value` is what gets bound to a `?` placeholder. Values are never
//! interpolated into query text; the executor hands them to the database
//! driver one by one, in the order the builder produced them.

use vstd::prelude::*;

verus! {

/// A single bound parameter: text, an integer, or SQL NULL.
#[derive(Debug, PartialEq, Eq)]
pub enum Value {
    Text(String),
    Int(i64),
    Null,
}

/// The mathematical value of a bound parameter.
pub ghost enum ValueV {
    Text(Seq<char>),
    Int(int),
    Null,
}

impl Value {
    /// A copy of this value.
    pub fn duplicate(&self) -> (r: Value)
        ensures
            r == *self,
    {
        match self {
            Value::Text(s) => Value::Text(s.clone()),
            Value::Int(i) => Value::Int(*i),
            Value::Null => Value::Null,
        }
    }
}

impl View for Value {
    type V = ValueV;

    open spec fn view(&self) -> ValueV {
        match self {
            Value::Text(s) => ValueV::Text(s@),
            Value::Int(i) => ValueV::Int(*i as int),
            Value::Null => ValueV::Null,
        }
    }
}

impl DeepView for Value {
    type V = ValueV;

    open spec fn deep_view(&self) -> ValueV {
        self.view()
    }
}

} // verus!
