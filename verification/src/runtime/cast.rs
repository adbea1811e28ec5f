//! Coercion of a value to a target type.

use crate::errors::{mismatch, outcome, ErrorModel, RuntimeError};
use crate::float_bits::{ONE_BITS, ZERO_BITS};
use crate::runtime::float_unit::{
    completed, Evaluated, EvaluatedModel, FloatRequest, ReplyModel, RequestModel,
};
use crate::text::{chars_of, decimal, decimal_of, parse_decimal, parse_decimal_of, string_of};
use crate::values::{kind_of, truthy, type_label, Type, Value, ValueModel};
use std::sync::Arc;
use vstd::prelude::*;

verus! {

/// The error for a value that has no coercion to the target type.
pub open spec fn cast_error(v: ValueModel, target: Type) -> ErrorModel {
    mismatch(type_label(target), type_label(kind_of(v)))
}

/// The text of a boolean.
pub open spec fn bool_text(b: bool) -> Seq<char> {
    if b {
        "true"@
    } else {
        "false"@
    }
}

/// The text that stands for a function: an opaque descriptor.
pub open spec fn function_text(name: Seq<char>) -> Seq<char> {
    "function<"@ + name + ">"@
}

/// Coercion to an integer: an integer is itself, a boolean is 0 or 1, a
/// string is read as a decimal numeral, a float is truncated by the host.
pub open spec fn to_int(v: ValueModel) -> Result<EvaluatedModel, ErrorModel> {
    match v {
        ValueModel::Int(n) => Ok(EvaluatedModel::Ready(v)),
        ValueModel::Bool(b) => Ok(EvaluatedModel::Ready(ValueModel::Int(if b { 1 } else { 0 }))),
        ValueModel::Float(bits) => Ok(EvaluatedModel::Deferred(RequestModel::ToInt(bits))),
        ValueModel::Str(s) => match parse_decimal(s) {
            Some(n) => Ok(EvaluatedModel::Ready(ValueModel::Int(n))),
            None => Err(cast_error(v, Type::Int)),
        },
        _ => Err(cast_error(v, Type::Int)),
    }
}

/// Coercion to a float: a float is itself, a boolean is 0.0 or 1.0, an
/// integer is converted and a string is read by the host.
pub open spec fn to_float(v: ValueModel) -> Result<EvaluatedModel, ErrorModel> {
    match v {
        ValueModel::Float(_) => Ok(EvaluatedModel::Ready(v)),
        ValueModel::Bool(b) => Ok(
            EvaluatedModel::Ready(ValueModel::Float(if b { ONE_BITS } else { ZERO_BITS })),
        ),
        ValueModel::Int(n) => Ok(EvaluatedModel::Deferred(RequestModel::FromInt(n))),
        ValueModel::Str(s) => Ok(EvaluatedModel::Deferred(RequestModel::Parse(s))),
        _ => Err(cast_error(v, Type::Float)),
    }
}

/// Coercion to a string, which every value has: a string or URL gives its
/// text, `Empty` the empty text, a boolean `true` or `false`, an integer its
/// decimal numeral, a function its descriptor; a float is written by the
/// host, and so is an array, whose elements may be floats.
pub open spec fn to_text(v: ValueModel) -> Result<EvaluatedModel, ErrorModel> {
    match v {
        ValueModel::Str(s) => Ok(EvaluatedModel::Ready(ValueModel::Str(s))),
        ValueModel::Url(s) => Ok(EvaluatedModel::Ready(ValueModel::Str(s))),
        ValueModel::Empty => Ok(EvaluatedModel::Ready(ValueModel::Str(Seq::empty()))),
        ValueModel::Bool(b) => Ok(EvaluatedModel::Ready(ValueModel::Str(bool_text(b)))),
        ValueModel::Int(n) => Ok(EvaluatedModel::Ready(ValueModel::Str(decimal(n as int)))),
        ValueModel::Function { name, .. } => Ok(
            EvaluatedModel::Ready(ValueModel::Str(function_text(name))),
        ),
        ValueModel::Float(bits) => Ok(EvaluatedModel::Deferred(RequestModel::Format(bits))),
        ValueModel::Array(_) => Ok(EvaluatedModel::Deferred(RequestModel::Render(v))),
    }
}

/// Coercion of `v` to `target`. Only booleans, integers, floats and strings
/// are targets; any other target is a type mismatch.
pub open spec fn cast(v: ValueModel, target: Type) -> Result<EvaluatedModel, ErrorModel> {
    match target {
        Type::Bool => Ok(EvaluatedModel::Ready(ValueModel::Bool(truthy(v)))),
        Type::Int => to_int(v),
        Type::Float => to_float(v),
        Type::String => to_text(v),
        _ => Err(cast_error(v, target)),
    }
}

/// Casting to a boolean or to a string succeeds for every value: it gives a
/// value at once or asks the host, and never fails.
pub proof fn lemma_cast_to_bool_or_string_succeeds(v: ValueModel)
    ensures
        cast(v, Type::Bool) == Ok::<EvaluatedModel, ErrorModel>(
            EvaluatedModel::Ready(ValueModel::Bool(truthy(v))),
        ),
        cast(v, Type::String) is Ok,
{
}

/// A cast gives a value of the target type: the value that it gives at once
/// is of that type, and so is the value that any reply of the host completes
/// its request with.
pub proof fn lemma_cast_gives_the_target_type(v: ValueModel, target: Type, reply: ReplyModel)
    ensures
        cast(v, target) matches Ok(EvaluatedModel::Ready(w)) ==> kind_of(w) == target,
        cast(v, target) matches Ok(EvaluatedModel::Deferred(request)) ==> (completed(
            request,
            reply,
        ) matches Ok(w) ==> kind_of(w) == target),
{
}

/// Only booleans, integers, floats and strings are targets of a cast, and a
/// value without a number, such as a function, an array or `Empty`, is cast
/// to neither an integer nor a float.
pub proof fn lemma_cast_failures(v: ValueModel, target: Type)
    ensures
        target != Type::Bool && target != Type::Int && target != Type::Float && target
            != Type::String ==> cast(v, target) == Err::<EvaluatedModel, ErrorModel>(
            cast_error(v, target),
        ),
        v is Function || v is Array || v is Empty || v is Url ==> cast(v, Type::Int) == Err::<
            EvaluatedModel,
            ErrorModel,
        >(cast_error(v, Type::Int)) && cast(v, Type::Float) == Err::<EvaluatedModel, ErrorModel>(
            cast_error(v, Type::Float),
        ),
{
}

impl Value {
    fn cast_failure(&self, target: Type) -> (e: RuntimeError)
        ensures
            e@ == cast_error(self@, target),
    {
        RuntimeError::TypeMismatch { expected: target.name(), found: self.type_of().name() }
    }

    /// Coerces the value to an integer; see [`to_int`].
    pub fn to_int(&self) -> (r: Result<Evaluated, RuntimeError>)
        ensures
            outcome(r) == to_int(self@),
    {
        match self {
            Value::Int(n) => Ok(Evaluated::Ready(Value::Int(*n))),
            Value::Bool(b) => Ok(Evaluated::Ready(Value::Int(if *b { 1 } else { 0 }))),
            Value::Float(bits) => Ok(Evaluated::Deferred(FloatRequest::ToInt(*bits))),
            Value::String(s) => {
                let chars = chars_of(s.as_str());
                match parse_decimal_of(&chars) {
                    Some(n) => Ok(Evaluated::Ready(Value::Int(n))),
                    None => Err(self.cast_failure(Type::Int)),
                }
            },
            _ => Err(self.cast_failure(Type::Int)),
        }
    }

    /// Coerces the value to a float; see [`to_float`].
    pub fn to_float(&self) -> (r: Result<Evaluated, RuntimeError>)
        ensures
            outcome(r) == to_float(self@),
    {
        match self {
            Value::Float(bits) => Ok(Evaluated::Ready(Value::Float(*bits))),
            Value::Bool(b) => Ok(
                Evaluated::Ready(Value::Float(if *b { ONE_BITS } else { ZERO_BITS })),
            ),
            Value::Int(n) => Ok(Evaluated::Deferred(FloatRequest::FromInt(*n))),
            Value::String(s) => Ok(Evaluated::Deferred(FloatRequest::Parse((**s).clone()))),
            _ => Err(self.cast_failure(Type::Float)),
        }
    }

    /// Coerces the value to a string; see [`to_text`].
    pub fn to_text(&self) -> (r: Result<Evaluated, RuntimeError>)
        ensures
            outcome(r) == to_text(self@),
    {
        match self {
            Value::String(s) => Ok(Evaluated::Ready(Value::String(crate::values::share(s)))),
            Value::URL(s) => Ok(Evaluated::Ready(Value::String(crate::values::share(s)))),
            Value::Empty => Ok(Evaluated::Ready(Value::String(Arc::new(String::new())))),
            Value::Bool(b) => {
                let text = if *b {
                    "true"
                } else {
                    "false"
                };
                Ok(Evaluated::Ready(Value::string(text)))
            },
            Value::Int(n) => {
                let digits = decimal_of(*n);
                Ok(Evaluated::Ready(Value::String(Arc::new(string_of(&digits)))))
            },
            Value::Function(f) => {
                let mut text = "function<".to_owned();
                text.append(f.name.as_str());
                text.append(">");
                Ok(Evaluated::Ready(Value::String(Arc::new(text))))
            },
            Value::Float(bits) => Ok(Evaluated::Deferred(FloatRequest::Format(*bits))),
            Value::Array(_) => Ok(Evaluated::Deferred(FloatRequest::Render(self.clone()))),
        }
    }

    /// Coerces the value to `target`; see [`cast`].
    pub fn cast_to(&self, target: Type) -> (r: Result<Evaluated, RuntimeError>)
        ensures
            outcome(r) == cast(self@, target),
    {
        match target {
            Type::Bool => Ok(Evaluated::Ready(Value::Bool(self.to_bool()))),
            Type::Int => self.to_int(),
            Type::Float => self.to_float(),
            Type::String => self.to_text(),
            _ => Err(self.cast_failure(target)),
        }
    }
}

} // verus!
