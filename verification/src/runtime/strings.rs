//! String operations. A URL counts as a string; nothing else does.

use crate::errors::{mismatch, outcome, ErrorModel, RuntimeError};
use crate::values::{kind_of, type_label, Value, ValueModel};
use std::sync::Arc;
use vstd::prelude::*;

verus! {

/// The text of a string or URL value; no other value has one.
pub open spec fn text_of(v: ValueModel) -> Option<Seq<char>> {
    match v {
        ValueModel::Str(s) => Some(s),
        ValueModel::Url(s) => Some(s),
        _ => None,
    }
}

/// The error for a string operation that met something else.
pub open spec fn not_a_string(v: ValueModel) -> ErrorModel {
    mismatch("string"@, type_label(kind_of(v)))
}

/// Concatenation: the text of the left operand followed by that of the right
/// one, as a string. The first operand without text is reported.
pub open spec fn concatenation(l: ValueModel, r: ValueModel) -> Result<ValueModel, ErrorModel> {
    match (text_of(l), text_of(r)) {
        (Some(a), Some(b)) => Ok(ValueModel::Str(a + b)),
        (None, _) => Err(not_a_string(l)),
        (_, None) => Err(not_a_string(r)),
    }
}

/// A count as an integer value; a count beyond the largest integer is held
/// at the largest integer.
pub open spec fn count_value(n: nat) -> ValueModel {
    if n <= i64::MAX {
        ValueModel::Int(n as i64)
    } else {
        ValueModel::Int(i64::MAX)
    }
}

/// Length: the number of characters of the text.
pub open spec fn length(v: ValueModel) -> Result<ValueModel, ErrorModel> {
    match text_of(v) {
        Some(s) => Ok(count_value(s.len())),
        None => Err(not_a_string(v)),
    }
}

fn text<'a>(v: &'a Value) -> (r: Option<&'a String>)
    ensures
        match r {
            Some(s) => text_of(v@) == Some(s@),
            None => text_of(v@) is None,
        },
{
    match v {
        Value::String(s) => Some(&**s),
        Value::URL(s) => Some(&**s),
        _ => None,
    }
}

/// Computes [`count_value`].
pub fn count(n: usize) -> (r: Value)
    ensures
        r@ == count_value(n as nat),
{
    if n as u64 <= i64::MAX as u64 {
        Value::Int(n as i64)
    } else {
        Value::Int(i64::MAX)
    }
}

/// String operations over values.
pub struct StringOps;

impl StringOps {
    /// Joins two texts; see [`concatenation`].
    pub fn concat(l: &Value, r: &Value) -> (res: Result<Value, RuntimeError>)
        ensures
            outcome(res) == concatenation(l@, r@),
    {
        match text(l) {
            None => Err(RuntimeError::type_mismatch("string", l.type_of().name())),
            Some(a) => match text(r) {
                None => Err(RuntimeError::type_mismatch("string", r.type_of().name())),
                Some(b) => {
                    let mut joined = a.clone();
                    joined.append(b.as_str());
                    Ok(Value::String(Arc::new(joined)))
                },
            },
        }
    }

    /// Counts the characters of a text; see [`length`].
    pub fn len(v: &Value) -> (res: Result<Value, RuntimeError>)
        ensures
            outcome(res) == length(v@),
    {
        match text(v) {
            None => Err(RuntimeError::type_mismatch("string", v.type_of().name())),
            Some(s) => {
                Ok(count(s.as_str().unicode_len()))
            },
        }
    }
}

} // verus!
