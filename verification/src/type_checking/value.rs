//! The types of values.

use vstd::prelude::*;

use crate::ast::node::{Type, Value};
use crate::type_checking::rules::value_type;

verus! {

impl Value {
    /// The type of the value.
    pub fn get_type(&self) -> (t: Type)
        ensures
            t == value_type(*self),
    {
        match self {
            Value::UInt(_) => Type::UInt,
            Value::Boolean(_) => Type::Boolean,
        }
    }
}

} // verus!
