//! Leaf values carried by settings fields.

use vstd::prelude::*;

verus! {

/// One leaf value of a settings field, as handed over by the command-line parser
/// or by the document deserializer.
#[derive(Debug, PartialEq, Eq)]
pub enum Value {
    Flag(bool),
    Number(i64),
    Text(String),
}

impl Value {
    /// An exact copy of the value.
    pub fn duplicate(&self) -> (r: Value)
        ensures
            r == *self,
    {
        match self {
            Value::Flag(b) => Value::Flag(*b),
            Value::Number(n) => Value::Number(*n),
            Value::Text(s) => Value::Text(s.clone()),
        }
    }
}

} // verus!
