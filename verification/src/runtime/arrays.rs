//! Array operations. An array is an immutable shared buffer: writing an
//! element makes a new array and leaves the old one as it was.

use crate::errors::{mismatch, outcome, ErrorModel, RuntimeError};
use crate::runtime::strings::{count, count_value};
use crate::text::{decimal, decimal_of, string_of};
use crate::values::{kind_of, lemma_array_model, models, type_label, Value, ValueModel};
use vstd::prelude::*;

verus! {

/// The error for an array of a negative size.
pub open spec fn negative_size(n: i64) -> ErrorModel {
    ErrorModel::InvalidOperation {
        operation: "create array"@,
        detail: "negative size: "@ + decimal(n as int),
    }
}

/// The error for an array larger than the machine can address.
pub open spec fn excessive_size(n: i64) -> ErrorModel {
    ErrorModel::InvalidOperation {
        operation: "create array"@,
        detail: "size too large: "@ + decimal(n as int),
    }
}

/// A new array of `size` elements, all `Empty`.
pub open spec fn new_array(size: ValueModel) -> Result<ValueModel, ErrorModel> {
    match size {
        ValueModel::Int(n) => if n < 0 {
            Err(negative_size(n))
        } else if n > usize::MAX {
            Err(excessive_size(n))
        } else {
            Ok(ValueModel::Array(Seq::new(n as nat, |i: int| ValueModel::Empty)))
        },
        _ => Err(mismatch("integer"@, type_label(kind_of(size)))),
    }
}

/// The place in an array that an index value names, or the error that the
/// pair of array and index gives.
pub open spec fn element_index(array: ValueModel, index: ValueModel) -> Result<int, ErrorModel> {
    match array {
        ValueModel::Array(items) => match index {
            ValueModel::Int(i) => if 0 <= i < items.len() {
                Ok(i as int)
            } else {
                Err(ErrorModel::IndexOutOfBounds { index: i, length: items.len() as usize })
            },
            _ => Err(mismatch("integer index"@, type_label(kind_of(index)))),
        },
        _ => Err(mismatch("array"@, type_label(kind_of(array)))),
    }
}

/// The element of an array at an index.
pub open spec fn array_get(array: ValueModel, index: ValueModel) -> Result<ValueModel, ErrorModel> {
    match element_index(array, index) {
        Ok(i) => Ok(array->Array_0[i]),
        Err(error) => Err(error),
    }
}

/// A new array that differs from `array` at `index` alone, where it holds
/// `value`. The array written to is not changed: whoever else holds it sees
/// what it held.
pub open spec fn array_set(array: ValueModel, index: ValueModel, value: ValueModel) -> Result<
    ValueModel,
    ErrorModel,
> {
    match element_index(array, index) {
        Ok(i) => Ok(ValueModel::Array(array->Array_0.update(i, value))),
        Err(error) => Err(error),
    }
}

/// The number of elements of an array.
pub open spec fn array_len(array: ValueModel) -> Result<ValueModel, ErrorModel> {
    match array {
        ValueModel::Array(items) => Ok(count_value(items.len())),
        _ => Err(mismatch("array"@, type_label(kind_of(array)))),
    }
}

fn size_error(label: &str, n: i64) -> (e: RuntimeError)
    ensures
        e@ == (ErrorModel::InvalidOperation {
            operation: "create array"@,
            detail: label@ + decimal(n as int),
        }),
{
    let mut detail = label.to_owned();
    let digits = string_of(&decimal_of(n));
    detail.append(digits.as_str());
    RuntimeError::InvalidOperation { operation: "create array".to_owned(), detail }
}

fn index_of(array: &Value, index: &Value) -> (r: Result<usize, RuntimeError>)
    ensures
        match r {
            Ok(i) => element_index(array@, index@) == Ok::<int, ErrorModel>(i as int) && array
                is Array && i < array->Array_0@.len(),
            Err(error) => element_index(array@, index@) == Err::<int, ErrorModel>(error@),
        },
{
    match array {
        Value::Array(items) => {
            proof {
                lemma_array_model(*items);
            }
            match index {
                Value::Int(i) => {
                    if *i < 0 || *i as u64 >= items.len() as u64 {
                        Err(RuntimeError::IndexOutOfBounds { index: *i, length: items.len() })
                    } else {
                        Ok(*i as usize)
                    }
                },
                _ => Err(RuntimeError::type_mismatch("integer index", index.type_of().name())),
            }
        },
        _ => Err(RuntimeError::type_mismatch("array", array.type_of().name())),
    }
}

/// Array operations over values.
pub struct ArrayOps;

impl ArrayOps {
    /// Makes an array of `Empty` elements; see [`new_array`].
    pub fn create(size: &Value) -> (r: Result<Value, RuntimeError>)
        ensures
            outcome(r) == new_array(size@),
    {
        match size {
            Value::Int(n) => {
                if *n < 0 {
                    Err(size_error("negative size: ", *n))
                } else if *n as u64 > usize::MAX as u64 {
                    Err(size_error("size too large: ", *n))
                } else {
                    let len = *n as usize;
                    let mut items: Vec<Value> = Vec::new();
                    let mut i: usize = 0;
                    while i < len
                        invariant
                            i <= len,
                            items@.len() == i,
                            forall|k: int| 0 <= k < i ==> items@[k] == Value::Empty,
                        decreases len - i,
                    {
                        items.push(Value::Empty);
                        i += 1;
                    }
                    assert(models(items@) =~= Seq::new(len as nat, |i: int| ValueModel::Empty));
                    Ok(Value::array(items))
                }
            },
            _ => Err(RuntimeError::type_mismatch("integer", size.type_of().name())),
        }
    }

    /// Reads an element; see [`array_get`].
    pub fn get(array: &Value, index: &Value) -> (r: Result<Value, RuntimeError>)
        ensures
            outcome(r) == array_get(array@, index@),
    {
        match index_of(array, index) {
            Ok(i) => match array {
                Value::Array(items) => {
                    proof {
                        lemma_array_model(*items);
                    }
                    Ok(items[i].clone())
                },
                _ => Ok(Value::Empty),
            },
            Err(error) => Err(error),
        }
    }

    /// Makes the array that differs at one index; see [`array_set`].
    pub fn set(array: &Value, index: &Value, value: Value) -> (r: Result<Value, RuntimeError>)
        ensures
            outcome(r) == array_set(array@, index@, value@),
    {
        match index_of(array, index) {
            Ok(i) => match array {
                Value::Array(items) => {
                    let mut copy: Vec<Value> = Vec::new();
                    let mut k: usize = 0;
                    while k < items.len()
                        invariant
                            k <= items.len(),
                            copy@ == items@.take(k as int),
                        decreases items.len() - k,
                    {
                        copy.push(items[k].clone());
                        k += 1;
                    }
                    copy.set(i, value);
                    proof {
                        lemma_array_model(*items);
                        assert(models(copy@) =~= models(items@).update(i as int, value@));
                    }
                    Ok(Value::array(copy))
                },
                _ => Ok(Value::Empty),
            },
            Err(error) => Err(error),
        }
    }

    /// Counts the elements; see [`array_len`].
    pub fn len(array: &Value) -> (r: Result<Value, RuntimeError>)
        ensures
            outcome(r) == array_len(array@),
    {
        match array {
            Value::Array(items) => {
                proof {
                    lemma_array_model(*items);
                }
                Ok(count(items.len()))
            },
            _ => Err(RuntimeError::type_mismatch("array", array.type_of().name())),
        }
    }
}

} // verus!
