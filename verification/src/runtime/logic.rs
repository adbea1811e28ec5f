//! Logical operations, defined on the truthiness of any value.

use crate::values::{truthy, Value, ValueModel};
use vstd::prelude::*;

verus! {

/// Logical operations over values. They never fail.
pub struct LogicOps;

impl LogicOps {
    /// Whether the value is falsy.
    pub fn not(v: &Value) -> (r: Value)
        ensures
            r@ == ValueModel::Bool(!truthy(v@)),
    {
        Value::Bool(!v.is_truthy())
    }

    /// Whether both values are truthy.
    pub fn and(l: &Value, r: &Value) -> (res: Value)
        ensures
            res@ == ValueModel::Bool(truthy(l@) && truthy(r@)),
    {
        Value::Bool(l.is_truthy() && r.is_truthy())
    }

    /// Whether at least one of the values is truthy.
    pub fn or(l: &Value, r: &Value) -> (res: Value)
        ensures
            res@ == ValueModel::Bool(truthy(l@) || truthy(r@)),
    {
        Value::Bool(l.is_truthy() || r.is_truthy())
    }
}

} // verus!
