//! Runtime values, their type tags and the constant pool.

use crate::float_bits::{is_zero, zero};
use std::sync::Arc;
use vstd::prelude::*;

verus! {

/// Number of slots in a register file.
pub const MAX_REGISTERS: usize = 256;

/// Largest number of entries a constant pool can hold: indices are 16 bits wide.
pub const MAX_CONSTANTS: usize = 65536;

/// Type tag of a value, also used as the declared type of a register.
#[derive(Clone, Copy, Debug, PartialEq, Eq, Structural)]
pub enum Type {
    Empty,
    Bool,
    Int,
    Float,
    String,
    Function,
    URL,
    Unknown,
}

/// Name of a type tag as it appears in error reports.
pub open spec fn type_label(t: Type) -> Seq<char> {
    match t {
        Type::Empty => "empty"@,
        Type::Bool => "bool"@,
        Type::Int => "int"@,
        Type::Float => "float"@,
        Type::String => "string"@,
        Type::Function => "function"@,
        Type::URL => "url"@,
        Type::Unknown => "unknown"@,
    }
}

/// The tag that a numeric type identifier of the instruction encoding denotes.
pub open spec fn type_of_id(type_id: u16) -> Type {
    if type_id == 0 {
        Type::Empty
    } else if type_id == 1 {
        Type::Bool
    } else if type_id == 2 {
        Type::Int
    } else if type_id == 3 {
        Type::Float
    } else if type_id == 4 {
        Type::String
    } else if type_id == 5 {
        Type::Function
    } else if type_id == 6 {
        Type::URL
    } else {
        Type::Unknown
    }
}

impl Type {
    /// The name of this tag, as a fresh string.
    pub fn name(&self) -> (r: String)
        ensures
            r@ == type_label(*self),
    {
        match self {
            Type::Empty => "empty".to_owned(),
            Type::Bool => "bool".to_owned(),
            Type::Int => "int".to_owned(),
            Type::Float => "float".to_owned(),
            Type::String => "string".to_owned(),
            Type::Function => "function".to_owned(),
            Type::URL => "url".to_owned(),
            Type::Unknown => "unknown".to_owned(),
        }
    }

    /// Decodes a numeric type identifier; identifiers above 6 denote `Unknown`.
    pub fn from_id(type_id: u16) -> (t: Type)
        ensures
            t == type_of_id(type_id),
    {
        match type_id {
            0 => Type::Empty,
            1 => Type::Bool,
            2 => Type::Int,
            3 => Type::Float,
            4 => Type::String,
            5 => Type::Function,
            6 => Type::URL,
            _ => Type::Unknown,
        }
    }
}

/// Descriptor of a callable: its name and the offset of its first instruction.
#[derive(Debug, PartialEq, Eq)]
pub struct FunctionRef {
    pub name: String,
    pub entry: usize,
}

impl Clone for FunctionRef {
    fn clone(&self) -> (r: Self)
        ensures
            r == *self,
    {
        FunctionRef { name: self.name.clone(), entry: self.entry }
    }
}

/// A runtime value.
///
/// Strings, URLs and arrays are immutable buffers behind a reference count, so
/// copying a value between registers never copies the buffer. A float is held
/// as its IEEE-754 binary64 bit pattern.
#[derive(Debug, PartialEq, Eq)]
pub enum Value {
    Empty,
    Bool(bool),
    Int(i64),
    Float(u64),
    String(Arc<String>),
    URL(Arc<String>),
    Function(FunctionRef),
    Array(Arc<Vec<Value>>),
}

/// The mathematical content of a [`Value`].
pub enum ValueModel {
    Empty,
    Bool(bool),
    Int(i64),
    Float(u64),
    Str(Seq<char>),
    Url(Seq<char>),
    Function { name: Seq<char>, entry: usize },
    Array(Seq<ValueModel>),
}

impl Value {
    /// The content of this value, arrays element by element.
    pub open spec fn model(self) -> ValueModel
        decreases self,
    {
        match self {
            Value::Empty => ValueModel::Empty,
            Value::Bool(b) => ValueModel::Bool(b),
            Value::Int(n) => ValueModel::Int(n),
            Value::Float(bits) => ValueModel::Float(bits),
            Value::String(s) => ValueModel::Str(s@),
            Value::URL(s) => ValueModel::Url(s@),
            Value::Function(f) => ValueModel::Function { name: f.name@, entry: f.entry },
            Value::Array(items) => ValueModel::Array(
                Seq::new(
                    items@.len(),
                    |i: int|
                        if 0 <= i < items@.len() {
                            items@[i].model()
                        } else {
                            ValueModel::Empty
                        },
                ),
            ),
        }
    }
}

impl View for Value {
    type V = ValueModel;

    open spec fn view(&self) -> ValueModel {
        self.model()
    }
}

/// The models of a sequence of values, in order.
pub open spec fn models(values: Seq<Value>) -> Seq<ValueModel> {
    Seq::new(values.len(), |i: int| values[i]@)
}

/// The content of an array value is the sequence of its elements' contents.
pub proof fn lemma_array_model(items: Arc<Vec<Value>>)
    ensures
        Value::Array(items)@ == ValueModel::Array(models(items@)),
{
    assert(Value::Array(items)@->Array_0 =~= models(items@));
}

/// Truthiness: `Empty` and `false` are falsy; a number is truthy unless it is
/// zero (either float zero; a NaN is truthy); a string, URL or array is truthy
/// unless it is empty; a function is always truthy.
pub open spec fn truthy(v: ValueModel) -> bool {
    match v {
        ValueModel::Empty => false,
        ValueModel::Bool(b) => b,
        ValueModel::Int(n) => n != 0,
        ValueModel::Float(bits) => !is_zero(bits),
        ValueModel::Str(s) => s.len() > 0,
        ValueModel::Url(s) => s.len() > 0,
        ValueModel::Function { .. } => true,
        ValueModel::Array(items) => items.len() > 0,
    }
}

/// The type tag of a value. An array has no tag of its own and reports `Unknown`.
pub open spec fn kind_of(v: ValueModel) -> Type {
    match v {
        ValueModel::Empty => Type::Empty,
        ValueModel::Bool(_) => Type::Bool,
        ValueModel::Int(_) => Type::Int,
        ValueModel::Float(_) => Type::Float,
        ValueModel::Str(_) => Type::String,
        ValueModel::Url(_) => Type::URL,
        ValueModel::Function { .. } => Type::Function,
        ValueModel::Array(_) => Type::Unknown,
    }
}

/// Hands out another handle to a shared buffer.
///
/// Calls `Arc::clone`, which the standard library documents as making a new
/// pointer to the same allocation: the value pointed to is the one of `a`.
#[verifier::external_body]
pub(crate) fn share<T>(a: &Arc<T>) -> (r: Arc<T>)
    ensures
        r == *a,
{
    Arc::clone(a)
}

impl Clone for Value {
    /// Copies the value; buffers are shared, not copied.
    fn clone(&self) -> (r: Self)
        ensures
            r == *self,
    {
        match self {
            Value::Empty => Value::Empty,
            Value::Bool(b) => Value::Bool(*b),
            Value::Int(n) => Value::Int(*n),
            Value::Float(bits) => Value::Float(*bits),
            Value::String(s) => Value::String(share(s)),
            Value::URL(s) => Value::URL(share(s)),
            Value::Function(f) => Value::Function(f.clone()),
            Value::Array(items) => Value::Array(share(items)),
        }
    }
}

impl Value {
    /// A string value holding a copy of `text`.
    pub fn string(text: &str) -> (r: Value)
        ensures
            r@ == ValueModel::Str(text@),
    {
        Value::String(Arc::new(text.to_owned()))
    }

    /// An array value holding `items`.
    pub fn array(items: Vec<Value>) -> (r: Value)
        ensures
            r@ == ValueModel::Array(models(items@)),
    {
        let shared = Arc::new(items);
        proof {
            lemma_array_model(shared);
        }
        Value::Array(shared)
    }

    /// Whether the value counts as true in a condition.
    pub fn is_truthy(&self) -> (r: bool)
        ensures
            r == truthy(self@),
    {
        match self {
            Value::Empty => false,
            Value::Bool(b) => *b,
            Value::Int(n) => *n != 0,
            Value::Float(bits) => !zero(*bits),
            Value::String(s) => s.as_str().unicode_len() > 0,
            Value::URL(s) => s.as_str().unicode_len() > 0,
            Value::Function(_) => true,
            Value::Array(items) => items.len() > 0,
        }
    }

    /// The coercion to a boolean, which is truthiness.
    pub fn to_bool(&self) -> (r: bool)
        ensures
            r == truthy(self@),
    {
        self.is_truthy()
    }

    /// The type tag of the value.
    pub fn type_of(&self) -> (t: Type)
        ensures
            t == kind_of(self@),
    {
        match self {
            Value::Empty => Type::Empty,
            Value::Bool(_) => Type::Bool,
            Value::Int(_) => Type::Int,
            Value::Float(_) => Type::Float,
            Value::String(_) => Type::String,
            Value::URL(_) => Type::URL,
            Value::Function(_) => Type::Function,
            Value::Array(_) => Type::Unknown,
        }
    }
}

} // verus!
