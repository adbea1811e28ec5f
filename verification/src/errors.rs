//! Typed failures of loading and running a program.

use vstd::prelude::*;

verus! {

/// A failure raised while an instruction executes. The run loop stops at the
/// first one and rolls nothing back.
#[derive(Debug, PartialEq, Eq)]
pub enum RuntimeError {
    /// `run` was called before any module was loaded.
    ModuleNotLoaded,
    /// A constant index is out of range, or the constant has the wrong kind.
    InvalidConstant(u16),
    /// A call names a function that the module does not define.
    UndefinedFunction(String),
    /// An operand has a type that the operation is not defined for.
    TypeMismatch { expected: String, found: String },
    /// The operation is defined for the operand's type but not for its value.
    InvalidOperation { operation: String, detail: String },
    /// An array index lies outside the array.
    IndexOutOfBounds { index: i64, length: usize },
    /// An assertion instruction found its predicate false.
    AssertionFailed(String),
    /// Division or remainder by zero.
    DivisionByZero,
    /// A call would exceed the bound on the depth of the call stack.
    StackOverflow,
    /// The instruction counter cannot count another instruction.
    InstructionLimit,
}

/// The mathematical content of a [`RuntimeError`].
pub enum ErrorModel {
    ModuleNotLoaded,
    InvalidConstant(u16),
    UndefinedFunction(Seq<char>),
    TypeMismatch { expected: Seq<char>, found: Seq<char> },
    InvalidOperation { operation: Seq<char>, detail: Seq<char> },
    IndexOutOfBounds { index: i64, length: usize },
    AssertionFailed(Seq<char>),
    DivisionByZero,
    StackOverflow,
    InstructionLimit,
}

impl View for RuntimeError {
    type V = ErrorModel;

    open spec fn view(&self) -> ErrorModel {
        match self {
            RuntimeError::ModuleNotLoaded => ErrorModel::ModuleNotLoaded,
            RuntimeError::InvalidConstant(index) => ErrorModel::InvalidConstant(*index),
            RuntimeError::UndefinedFunction(name) => ErrorModel::UndefinedFunction(name@),
            RuntimeError::TypeMismatch { expected, found } => ErrorModel::TypeMismatch {
                expected: expected@,
                found: found@,
            },
            RuntimeError::InvalidOperation { operation, detail } => ErrorModel::InvalidOperation {
                operation: operation@,
                detail: detail@,
            },
            RuntimeError::IndexOutOfBounds { index, length } => ErrorModel::IndexOutOfBounds {
                index: *index,
                length: *length,
            },
            RuntimeError::AssertionFailed(message) => ErrorModel::AssertionFailed(message@),
            RuntimeError::DivisionByZero => ErrorModel::DivisionByZero,
            RuntimeError::StackOverflow => ErrorModel::StackOverflow,
            RuntimeError::InstructionLimit => ErrorModel::InstructionLimit,
        }
    }
}

/// The content of a result: the view of the value, or the view of the error.
pub open spec fn outcome<T: View>(r: Result<T, RuntimeError>) -> Result<T::V, ErrorModel> {
    match r {
        Ok(value) => Ok(value@),
        Err(error) => Err(error@),
    }
}

/// The error for an operand of the wrong type, in the model.
pub open spec fn mismatch(expected: Seq<char>, found: Seq<char>) -> ErrorModel {
    ErrorModel::TypeMismatch { expected, found }
}

impl RuntimeError {
    /// The error for an operand of the wrong type.
    pub fn type_mismatch(expected: &str, found: String) -> (e: RuntimeError)
        ensures
            e@ == mismatch(expected@, found@),
    {
        RuntimeError::TypeMismatch { expected: expected.to_owned(), found }
    }
}

/// A failure of loading a program from its files.
#[derive(Debug, PartialEq, Eq)]
pub enum LoadError {
    /// Reading one of the files failed; the text is the system's report.
    Io(String),
    /// The program file is shorter than its header.
    InvalidFormat,
    /// The program file does not begin with the magic signature.
    InvalidMagic,
    /// The metadata file is present but malformed.
    InvalidMetadata,
}

/// A place in a source text, as the metadata records it.
#[derive(Clone, Copy, Debug, PartialEq, Eq, Structural)]
pub struct SourceLocation {
    pub line: u32,
    pub column: u32,
}

/// One entry of a stack trace.
#[derive(Debug, PartialEq, Eq)]
pub struct StackFrame {
    pub function: String,
    pub pc: usize,
    pub source_location: Option<SourceLocation>,
}

} // verus!
