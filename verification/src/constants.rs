//! The constant pool of a module.

use crate::values::{Value, ValueModel, MAX_CONSTANTS};
use std::sync::Arc;
use vstd::prelude::*;

verus! {

/// A literal embedded in a module. A float is held as its bit pattern.
#[derive(Debug, PartialEq, Eq)]
pub enum ConstantValue {
    Empty,
    Bool(bool),
    Int(i64),
    Float(u64),
    String(String),
}

impl View for ConstantValue {
    type V = ValueModel;

    /// The one value that the constant converts to.
    open spec fn view(&self) -> ValueModel {
        match self {
            ConstantValue::Empty => ValueModel::Empty,
            ConstantValue::Bool(b) => ValueModel::Bool(*b),
            ConstantValue::Int(n) => ValueModel::Int(*n),
            ConstantValue::Float(bits) => ValueModel::Float(*bits),
            ConstantValue::String(s) => ValueModel::Str(s@),
        }
    }
}

impl Clone for ConstantValue {
    fn clone(&self) -> (r: Self)
        ensures
            r == *self,
    {
        match self {
            ConstantValue::Empty => ConstantValue::Empty,
            ConstantValue::Bool(b) => ConstantValue::Bool(*b),
            ConstantValue::Int(n) => ConstantValue::Int(*n),
            ConstantValue::Float(bits) => ConstantValue::Float(*bits),
            ConstantValue::String(s) => ConstantValue::String(s.clone()),
        }
    }
}

impl ConstantValue {
    /// The runtime value of the constant; a string constant gives a fresh
    /// shared string.
    pub fn to_value(&self) -> (v: Value)
        ensures
            v@ == self@,
    {
        match self {
            ConstantValue::Empty => Value::Empty,
            ConstantValue::Bool(b) => Value::Bool(*b),
            ConstantValue::Int(n) => Value::Int(*n),
            ConstantValue::Float(bits) => Value::Float(*bits),
            ConstantValue::String(s) => Value::String(Arc::new(s.clone())),
        }
    }
}

/// An ordered table of constants, indexed by a 16-bit index.
#[derive(Debug)]
pub struct ConstantPool {
    entries: Vec<ConstantValue>,
}

impl View for ConstantPool {
    type V = Seq<ValueModel>;

    /// The values of the constants, by index.
    closed spec fn view(&self) -> Seq<ValueModel> {
        Seq::new(self.entries@.len(), |i: int| self.entries@[i]@)
    }
}

/// The constant at `index`, if the pool has one there.
pub open spec fn constant_at(pool: Seq<ValueModel>, index: u16) -> Option<ValueModel> {
    if index < pool.len() {
        Some(pool[index as int])
    } else {
        None
    }
}

/// The text of the string constant at `index`; `None` where the index is out
/// of range or the constant is no string.
pub open spec fn string_constant(pool: Seq<ValueModel>, index: u16) -> Option<Seq<char>> {
    match constant_at(pool, index) {
        Some(ValueModel::Str(s)) => Some(s),
        _ => None,
    }
}

impl ConstantPool {
    /// An empty pool.
    pub fn new() -> (pool: ConstantPool)
        ensures
            pool@ == Seq::<ValueModel>::empty(),
    {
        let pool = ConstantPool { entries: Vec::new() };
        pool
    }

    /// The number of constants.
    pub fn len(&self) -> (n: usize)
        ensures
            n == self@.len(),
    {
        self.entries.len()
    }

    /// Appends a constant and returns its index, or returns `None` and leaves
    /// the pool as it is when all 65536 indices are taken.
    pub fn add(&mut self, constant: ConstantValue) -> (index: Option<u16>)
        ensures
            match index {
                Some(i) => i == old(self)@.len() && final(self)@ == old(self)@.push(constant@),
                None => old(self)@.len() >= MAX_CONSTANTS && final(self)@ == old(self)@,
            },
    {
        let n = self.entries.len();
        if n >= MAX_CONSTANTS {
            None
        } else {
            self.entries.push(constant);
            Some(n as u16)
        }
    }

    /// The constant at `index`, or `None` where the pool has none there.
    pub fn get(&self, index: u16) -> (c: Option<&ConstantValue>)
        ensures
            match c {
                Some(constant) => constant_at(self@, index) == Some(constant@),
                None => constant_at(self@, index) is None,
            },
    {
        if (index as usize) < self.entries.len() {
            Some(&self.entries[index as usize])
        } else {
            None
        }
    }
}

impl Clone for ConstantPool {
    fn clone(&self) -> (r: Self)
        ensures
            r@ == self@,
    {
        let mut entries: Vec<ConstantValue> = Vec::new();
        let mut i: usize = 0;
        while i < self.entries.len()
            invariant
                i <= self.entries.len(),
                entries@ == self.entries@.take(i as int),
            decreases self.entries.len() - i,
        {
            entries.push(self.entries[i].clone());
            i += 1;
        }
        ConstantPool { entries }
    }
}

impl Default for ConstantPool {
    fn default() -> (pool: ConstantPool)
        ensures
            pool@ == Seq::<ValueModel>::empty(),
    {
        ConstantPool::new()
    }
}

} // verus!
