//! The boundary to the host's floating-point unit.
//!
//! The machine does no rounding arithmetic of its own. Where an operation on
//! floats needs one (arithmetic, ordering, conversion to and from integers and
//! text, the text of an array, whose elements may be floats), the machine
//! states the work as a [`FloatRequest`] and waits; the host computes it and
//! hands the machine a [`FloatReply`]. What the reply becomes is decided
//! here, by [`complete`].

use crate::errors::{mismatch, outcome, ErrorModel, RuntimeError};
use crate::values::{Value, ValueModel};
use std::sync::Arc;
use vstd::prelude::*;

verus! {

/// The five arithmetic operations on two numbers.
#[derive(Clone, Copy, Debug, PartialEq, Eq, Structural)]
pub enum ArithOp {
    Add,
    Sub,
    Mul,
    Div,
    Mod,
}

/// The four ordering comparisons.
#[derive(Clone, Copy, Debug, PartialEq, Eq, Structural)]
pub enum OrderOp {
    Lt,
    Gt,
    Lte,
    Gte,
}

/// A numeric operand: an integer, or a float as its bit pattern. The host
/// promotes an integer operand to a float before it computes.
#[derive(Clone, Copy, Debug, PartialEq, Eq, Structural)]
pub enum Number {
    Int(i64),
    Float(u64),
}

/// Work for the host's floating-point unit.
#[derive(Debug, PartialEq, Eq)]
pub enum FloatRequest {
    /// Apply `op` to the operands as floats; answered by `Bits`.
    Arithmetic { op: ArithOp, left: Number, right: Number },
    /// Decide `relation` of the operands as floats; answered by `Flag`.
    Compare { relation: OrderOp, left: Number, right: Number },
    /// Convert an integer to the nearest float; answered by `Bits`.
    FromInt(i64),
    /// Truncate a float to an integer; answered by `Int`.
    ToInt(u64),
    /// Read a float from text; answered by `Bits`, or by `Invalid`.
    Parse(String),
    /// Write a float as text; answered by `Text`.
    Format(u64),
    /// Write an array as text, the floats among its elements included;
    /// answered by `Text`.
    Render(Value),
}

/// The mathematical content of a [`FloatRequest`].
pub enum RequestModel {
    Arithmetic { op: ArithOp, left: Number, right: Number },
    Compare { relation: OrderOp, left: Number, right: Number },
    FromInt(i64),
    ToInt(u64),
    Parse(Seq<char>),
    Format(u64),
    Render(ValueModel),
}

impl View for FloatRequest {
    type V = RequestModel;

    open spec fn view(&self) -> RequestModel {
        match self {
            FloatRequest::Arithmetic { op, left, right } => RequestModel::Arithmetic {
                op: *op,
                left: *left,
                right: *right,
            },
            FloatRequest::Compare { relation, left, right } => RequestModel::Compare {
                relation: *relation,
                left: *left,
                right: *right,
            },
            FloatRequest::FromInt(n) => RequestModel::FromInt(*n),
            FloatRequest::ToInt(bits) => RequestModel::ToInt(*bits),
            FloatRequest::Parse(text) => RequestModel::Parse(text@),
            FloatRequest::Format(bits) => RequestModel::Format(*bits),
            FloatRequest::Render(value) => RequestModel::Render(value@),
        }
    }
}

impl Clone for FloatRequest {
    fn clone(&self) -> (r: Self)
        ensures
            r == *self,
    {
        match self {
            FloatRequest::Arithmetic { op, left, right } => FloatRequest::Arithmetic {
                op: *op,
                left: *left,
                right: *right,
            },
            FloatRequest::Compare { relation, left, right } => FloatRequest::Compare {
                relation: *relation,
                left: *left,
                right: *right,
            },
            FloatRequest::FromInt(n) => FloatRequest::FromInt(*n),
            FloatRequest::ToInt(bits) => FloatRequest::ToInt(*bits),
            FloatRequest::Parse(text) => FloatRequest::Parse(text.clone()),
            FloatRequest::Format(bits) => FloatRequest::Format(*bits),
            FloatRequest::Render(value) => FloatRequest::Render(value.clone()),
        }
    }
}

/// What the host answers.
#[derive(Debug, PartialEq, Eq)]
pub enum FloatReply {
    /// A float, as its bit pattern.
    Bits(u64),
    /// The outcome of a comparison.
    Flag(bool),
    /// An integer.
    Int(i64),
    /// A float written as text.
    Text(String),
    /// The text to parse is not a float.
    Invalid,
}

/// The mathematical content of a [`FloatReply`].
pub enum ReplyModel {
    Bits(u64),
    Flag(bool),
    Int(i64),
    Text(Seq<char>),
    Invalid,
}

impl View for FloatReply {
    type V = ReplyModel;

    open spec fn view(&self) -> ReplyModel {
        match self {
            FloatReply::Bits(bits) => ReplyModel::Bits(*bits),
            FloatReply::Flag(flag) => ReplyModel::Flag(*flag),
            FloatReply::Int(n) => ReplyModel::Int(*n),
            FloatReply::Text(text) => ReplyModel::Text(text@),
            FloatReply::Invalid => ReplyModel::Invalid,
        }
    }
}

/// The result of an operation: a value, or work that the host must do first.
#[derive(Debug, PartialEq, Eq)]
pub enum Evaluated {
    Ready(Value),
    Deferred(FloatRequest),
}

/// The mathematical content of an [`Evaluated`].
pub enum EvaluatedModel {
    Ready(ValueModel),
    Deferred(RequestModel),
}

impl View for Evaluated {
    type V = EvaluatedModel;

    open spec fn view(&self) -> EvaluatedModel {
        match self {
            Evaluated::Ready(value) => EvaluatedModel::Ready(value@),
            Evaluated::Deferred(request) => EvaluatedModel::Deferred(request@),
        }
    }
}

/// The error for a reply of the wrong kind.
pub open spec fn unexpected_reply() -> ErrorModel {
    ErrorModel::InvalidOperation {
        operation: "resume"@,
        detail: "the reply does not answer the request"@,
    }
}

/// The value that a reply completes a request with. A reply of the wrong kind
/// is an error, and so is text that is not a float.
pub open spec fn completed(request: RequestModel, reply: ReplyModel) -> Result<
    ValueModel,
    ErrorModel,
> {
    match (request, reply) {
        (RequestModel::Arithmetic { .. }, ReplyModel::Bits(bits)) => Ok(ValueModel::Float(bits)),
        (RequestModel::Compare { .. }, ReplyModel::Flag(flag)) => Ok(ValueModel::Bool(flag)),
        (RequestModel::FromInt(_), ReplyModel::Bits(bits)) => Ok(ValueModel::Float(bits)),
        (RequestModel::ToInt(_), ReplyModel::Int(n)) => Ok(ValueModel::Int(n)),
        (RequestModel::Parse(_), ReplyModel::Bits(bits)) => Ok(ValueModel::Float(bits)),
        (RequestModel::Parse(_), ReplyModel::Invalid) => Err(mismatch("float"@, "string"@)),
        (RequestModel::Format(_), ReplyModel::Text(text)) => Ok(ValueModel::Str(text)),
        (RequestModel::Render(_), ReplyModel::Text(text)) => Ok(ValueModel::Str(text)),
        _ => Err(unexpected_reply()),
    }
}

/// Turns the host's reply to `request` into the value that the waiting
/// instruction produces.
pub fn complete(request: &FloatRequest, reply: FloatReply) -> (r: Result<Value, RuntimeError>)
    ensures
        outcome(r) == completed(request@, reply@),
{
    match (request, reply) {
        (FloatRequest::Arithmetic { .. }, FloatReply::Bits(bits)) => Ok(Value::Float(bits)),
        (FloatRequest::Compare { .. }, FloatReply::Flag(flag)) => Ok(Value::Bool(flag)),
        (FloatRequest::FromInt(_), FloatReply::Bits(bits)) => Ok(Value::Float(bits)),
        (FloatRequest::ToInt(_), FloatReply::Int(n)) => Ok(Value::Int(n)),
        (FloatRequest::Parse(_), FloatReply::Bits(bits)) => Ok(Value::Float(bits)),
        (FloatRequest::Parse(_), FloatReply::Invalid) => Err(
            RuntimeError::type_mismatch("float", "string".to_owned()),
        ),
        (FloatRequest::Format(_), FloatReply::Text(text)) => Ok(Value::String(Arc::new(text))),
        (FloatRequest::Render(_), FloatReply::Text(text)) => Ok(Value::String(Arc::new(text))),
        _ => Err(
            RuntimeError::InvalidOperation {
                operation: "resume".to_owned(),
                detail: "the reply does not answer the request".to_owned(),
            },
        ),
    }
}

} // verus!
