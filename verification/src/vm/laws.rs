//! Laws of the machine, proved from the definition of its instructions.

use crate::constants::{constant_at, string_constant};
use crate::errors::ErrorModel;
use crate::instructions::Instruction;
use crate::loader::ProgramModel;
use crate::names::{lemma_lookup_bind, lookup};
use crate::runtime::arithmetic::values_equal;
use crate::runtime::arrays::element_index;
use crate::values::{truthy, ValueModel, MAX_REGISTERS};
use crate::vm::registers::{lemma_restored_len, restored};
use crate::vm::semantics::{
    bound, bound_count, call, execute, fail, jump_target, phi_source, proceed,
    resolve, ret, snapshot, step, Machine, MAX_ARGUMENTS,
};
use vstd::prelude::*;

verus! {

/// A register holds what was last written to it, and a write to one register
/// changes no other.
pub proof fn lemma_write_is_visible(m: Machine, r: u8, value: ValueModel, other: u8)
    requires
        m.wf(),
    ensures
        m.write(r, value).wf(),
        m.write(r, value).reg(r) == value,
        other != r ==> m.write(r, value).reg(other) == m.reg(other),
{
}

/// What one instruction writes into a register, the next instruction reads
/// from it: after a constant is loaded into `r`, a move from `r` copies that
/// constant.
pub proof fn lemma_next_instruction_sees_write(
    p: ProgramModel,
    m: Machine,
    r: u8,
    const_idx: u16,
    dst: u8,
)
    requires
        m.wf(),
        constant_at(p.constants, const_idx) is Some,
    ensures
        ({
            let loaded = execute(p, m, Instruction::LoadConstR { dst: r, const_idx });
            let moved = execute(p, loaded.machine, Instruction::MoveR { dst, src: r });
            &&& loaded.result == Ok::<Option<ValueModel>, ErrorModel>(None)
            &&& moved.result == Ok::<Option<ValueModel>, ErrorModel>(None)
            &&& moved.machine.reg(dst) == constant_at(p.constants, const_idx)->0
        }),
{
    reveal(execute);
}

/// The offset by which an instruction jumps on machine `m`, if it is a jump
/// that is taken there: an unconditional jump, a `JumpIfR` whose condition
/// register is truthy, or a `JumpIfNotR` whose condition register is falsy.
pub open spec fn taken_jump(m: Machine, inst: Instruction) -> Option<i32> {
    match inst {
        Instruction::JumpR { offset } => Some(offset),
        Instruction::JumpIfR { cond, offset } => if truthy(m.reg(cond)) {
            Some(offset)
        } else {
            None
        },
        Instruction::JumpIfNotR { cond, offset } => if !truthy(m.reg(cond)) {
            Some(offset)
        } else {
            None
        },
        _ => None,
    }
}

/// Whether an instruction is a conditional jump that is not taken on `m`.
pub open spec fn untaken_jump(m: Machine, inst: Instruction) -> bool {
    match inst {
        Instruction::JumpIfR { cond, .. } => !truthy(m.reg(cond)),
        Instruction::JumpIfNotR { cond, .. } => truthy(m.reg(cond)),
        _ => false,
    }
}

/// Whether a step of `m` executes an instruction: the machine does not wait
/// for the host, its program counter is inside the program, and its
/// instruction counter has room.
pub open spec fn executes(p: ProgramModel, m: Machine) -> bool {
    m.state.pending is None && m.state.pc < p.instructions.len() && m.count < usize::MAX
}

/// Every taken jump is taken from the program counter as it stands after the
/// jump instruction was fetched: the machine continues at the jump's own
/// position plus one plus the offset (where that lies in the range of the
/// program counter; it wraps otherwise). The predecessor mark becomes the
/// jump's own position, and no register changes.
pub proof fn lemma_jump(p: ProgramModel, m: Machine, offset: i32)
    requires
        p.instructions.len() <= usize::MAX,
        executes(p, m),
        taken_jump(m, p.instructions[m.state.pc as int]) == Some(offset),
    ensures
        step(p, m).result == Ok::<Option<ValueModel>, ErrorModel>(None),
        step(p, m).machine.state.predecessor == Some(m.state.pc),
        step(p, m).machine.state.pc == jump_target((m.state.pc + 1) as usize, offset),
        0 <= m.state.pc + 1 + offset <= usize::MAX ==> step(p, m).machine.state.pc == m.state.pc
            + 1 + offset,
        step(p, m).machine.registers == m.registers,
{
    reveal(execute);
}

/// A conditional jump that is not taken moves to the next instruction and
/// leaves the predecessor mark and the registers alone.
pub proof fn lemma_untaken_jump(p: ProgramModel, m: Machine)
    requires
        p.instructions.len() <= usize::MAX,
        executes(p, m),
        untaken_jump(m, p.instructions[m.state.pc as int]),
    ensures
        step(p, m).result == Ok::<Option<ValueModel>, ErrorModel>(None),
        step(p, m).machine.state.predecessor == m.state.predecessor,
        step(p, m).machine.state.pc == m.state.pc + 1,
        step(p, m).machine.registers == m.registers,
{
    reveal(execute);
}

/// Where no pair of a phi instruction names the predecessor, the source
/// lookup finds nothing.
pub proof fn lemma_phi_source_none(sources: Seq<(u8, u16)>, predecessor: usize)
    requires
        forall|i: int| 0 <= i < sources.len() ==> (#[trigger] sources[i]).1 != predecessor,
    ensures
        phi_source(sources, predecessor) is None,
    decreases sources.len(),
{
    if sources.len() > 0 {
        let rest = sources.drop_first();
        assert forall|i: int| 0 <= i < rest.len() implies (#[trigger] rest[i]).1 != predecessor by {}
        lemma_phi_source_none(rest, predecessor);
    }
}

/// A phi instruction reads the source of the first pair that names the
/// predecessor.
pub proof fn lemma_phi_source_first(sources: Seq<(u8, u16)>, predecessor: usize, k: int)
    requires
        0 <= k < sources.len(),
        sources[k].1 == predecessor,
        forall|i: int| 0 <= i < k ==> (#[trigger] sources[i]).1 != predecessor,
    ensures
        phi_source(sources, predecessor) == Some(sources[k].0),
    decreases sources.len(),
{
    if k > 0 {
        let rest = sources.drop_first();
        assert forall|i: int| 0 <= i < k - 1 implies (#[trigger] rest[i]).1 != predecessor by {}
        lemma_phi_source_first(rest, predecessor, k - 1);
    }
}

/// A phi instruction without a pair for the predecessor, or on a machine
/// that has taken no jump yet, changes nothing: its destination keeps its
/// value, and it is no error.
pub proof fn lemma_phi_without_match(
    p: ProgramModel,
    m: Machine,
    dst: u8,
    sources: Vec<(u8, u16)>,
)
    requires
        m.state.predecessor is Some ==> forall|i: int|
            0 <= i < sources@.len() ==> (#[trigger] sources@[i]).1 != m.state.predecessor->0,
    ensures
        execute(p, m, Instruction::PhiR { dst, sources }) == proceed(m),
{
    reveal(execute);
    if m.state.predecessor is Some {
        lemma_phi_source_none(sources@, m.state.predecessor->0);
    }
}

/// Writing an array element puts a new array into the array's register and
/// touches nothing else: every other register, also one that holds the array
/// that was written to, holds what it held.
pub proof fn lemma_array_set_copies(
    p: ProgramModel,
    m: Machine,
    array: u8,
    index: u8,
    value: u8,
    other: u8,
)
    requires
        m.wf(),
        element_index(m.reg(array), m.reg(index)) is Ok,
    ensures
        ({
            let after = execute(p, m, Instruction::ArraySetR { array, index, value });
            let i = element_index(m.reg(array), m.reg(index))->Ok_0;
            &&& after.result == Ok::<Option<ValueModel>, ErrorModel>(None)
            &&& after.machine.reg(array) == ValueModel::Array(
                m.reg(array)->Array_0.update(i, m.reg(value)),
            )
            &&& other != array ==> after.machine.reg(other) == m.reg(other)
            &&& after.machine.state == m.state
        }),
{
    reveal(execute);
}

/// Binding passes the caller's values on: parameter register `i` takes what
/// argument register `args[i]` held before the call, also where that
/// argument register is itself overwritten as a parameter; every register
/// from the `n`-th on keeps its value.
pub proof fn lemma_bound(registers: Seq<ValueModel>, args: Seq<u8>, n: nat, r: int)
    requires
        registers.len() == MAX_REGISTERS,
        n <= MAX_ARGUMENTS,
        0 <= r < registers.len(),
    ensures
        bound(registers, args, n).len() == registers.len(),
        r < n ==> bound(registers, args, n)[r] == registers[args[r] as int],
        r >= n ==> bound(registers, args, n)[r] == registers[r],
{
}

/// Replaying the snapshot of a call gives every register the value it had
/// before the call's arguments were bound, whatever the parameter registers
/// were made to hold since.
pub proof fn lemma_snapshot_restores(
    before: Seq<ValueModel>,
    now: Seq<ValueModel>,
    n: nat,
    r: int,
)
    requires
        before.len() == MAX_REGISTERS,
        now.len() == MAX_REGISTERS,
        n <= MAX_ARGUMENTS,
        0 <= r < MAX_REGISTERS,
    ensures
        restored(now, snapshot(before, n)).len() == MAX_REGISTERS,
        r < n ==> restored(now, snapshot(before, n))[r] == before[r],
        r >= n ==> restored(now, snapshot(before, n))[r] == now[r],
    decreases n,
{
    if n > 0 {
        let whole = snapshot(before, n);
        let head = snapshot(before, (n - 1) as nat);
        assert(whole.drop_last() =~= head);
        lemma_snapshot_restores(before, now, (n - 1) as nat, r);
    }
}

/// Call and return fit together. A call that succeeds gives parameter
/// register `i` what argument register `args[i]` held before the call and
/// leaves every other register alone. Let the callee then do anything that
/// leaves the call's frame on top of the call stack, and return with or
/// without a value. Then the program counter, the frame
/// pointer and the call stack are those of the caller; the destination
/// register holds the returned value, or `Empty`; every bound parameter
/// register but the destination holds what it held before the call; and
/// every other register holds what the callee left in it. In particular,
/// where the callee wrote no register, every register outside the
/// destination holds exactly what it held before the call.
pub proof fn lemma_call_return(
    p: ProgramModel,
    m: Machine,
    func: u8,
    args: Vec<u8>,
    dst: u8,
    callee_end: Machine,
    src: Option<u8>,
    r: u8,
)
    requires
        m.wf(),
        callee_end.wf(),
        execute(p, m, Instruction::CallR { func, args, dst }).result is Ok,
        callee_end.state.frames == execute(
            p,
            m,
            Instruction::CallR { func, args, dst },
        ).machine.state.frames,
    ensures
        ({
            let called = execute(p, m, Instruction::CallR { func, args, dst }).machine;
            let returned = execute(p, callee_end, Instruction::ReturnR { src });
            &&& called.state.frames.len() == m.state.frames.len() + 1
            &&& called.state.pc == resolve(p.functions, m.reg(func))->Ok_0.1
            &&& (r as int) < bound_count(args@) ==> called.reg(r) == m.reg(args@[r as int])
            &&& (r as int) >= bound_count(args@) ==> called.reg(r) == m.reg(r)
            &&& returned.result == Ok::<Option<ValueModel>, ErrorModel>(None)
            &&& returned.machine.state.pc == m.state.pc
            &&& returned.machine.state.fp == m.state.fp
            &&& returned.machine.state.frames == m.state.frames
            &&& returned.machine.reg(dst) == match src {
                Some(s) => callee_end.reg(s),
                None => ValueModel::Empty,
            }
            &&& r != dst && (r as int) < bound_count(args@) ==> returned.machine.reg(r) == m.reg(r)
            &&& r != dst && (r as int) >= bound_count(args@) ==> returned.machine.reg(r)
                == callee_end.reg(r)
        }),
{
    reveal(execute);
    let n = bound_count(args@);
    let called = execute(p, m, Instruction::CallR { func, args, dst }).machine;
    lemma_snapshot_restores(m.registers, callee_end.registers, n, r as int);
    lemma_snapshot_restores(m.registers, callee_end.registers, n, dst as int);
}

/// A call that is followed at once by the callee's return leaves every
/// register but the destination exactly as it was before the call, and the
/// caller where it was.
pub proof fn lemma_call_then_return(
    p: ProgramModel,
    m: Machine,
    func: u8,
    args: Vec<u8>,
    dst: u8,
    src: Option<u8>,
)
    requires
        m.wf(),
        execute(p, m, Instruction::CallR { func, args, dst }).result is Ok,
    ensures
        ({
            let called = execute(p, m, Instruction::CallR { func, args, dst }).machine;
            let returned = execute(p, called, Instruction::ReturnR { src }).machine;
            &&& forall|r: u8| r != dst ==> #[trigger] returned.reg(r) == m.reg(r)
            &&& returned.state.pc == m.state.pc
            &&& returned.state.fp == m.state.fp
            &&& returned.state.frames == m.state.frames
        }),
{
    let called = execute(p, m, Instruction::CallR { func, args, dst }).machine;
    let returned = execute(p, called, Instruction::ReturnR { src }).machine;
    lemma_execute_keeps_registers(p, m, Instruction::CallR { func, args, dst });
    assert forall|r: u8| r != dst implies #[trigger] returned.reg(r) == m.reg(r) by {
        lemma_call_return(p, m, func, args, dst, called, src, r);
    }
    lemma_call_return(p, m, func, args, dst, called, src, dst);
}

/// A return with nothing on the call stack halts the machine and yields the
/// returned value as the result of the program; no register changes.
pub proof fn lemma_top_level_return(p: ProgramModel, m: Machine, src: Option<u8>)
    requires
        m.state.frames.len() == 0,
    ensures
        ({
            let returned = execute(p, m, Instruction::ReturnR { src });
            &&& returned.result == Ok::<Option<ValueModel>, ErrorModel>(
                match src {
                    Some(s) => Some(m.reg(s)),
                    None => None,
                },
            )
            &&& !returned.machine.state.running
            &&& returned.machine.registers == m.registers
        }),
{
    reveal(execute);
}

/// No instruction takes a register away: a machine with its full number of
/// registers has it after any instruction, whether the instruction fails or
/// not.
pub proof fn lemma_execute_keeps_registers(p: ProgramModel, m: Machine, inst: Instruction)
    requires
        m.wf(),
    ensures
        execute(p, m, inst).machine.wf(),
{
    match inst {
        Instruction::CallR { func, args, dst } => {
            let after = match resolve(p.functions, m.reg(func)) {
                Ok(target) => call(m, target, args@, dst),
                Err(error) => fail(m, error),
            };
            assert(execute(p, m, inst) == after) by {
                reveal(execute);
            }
            assert(bound(m.registers, args@, bound_count(args@)).len() == m.registers.len());
        },
        Instruction::ReturnR { src } => {
            let value = match src {
                Some(r) => Some(m.reg(r)),
                None => None,
            };
            assert(execute(p, m, inst) == ret(m, value)) by {
                reveal(execute);
            }
            if m.state.frames.len() > 0 {
                lemma_restored_len(m.registers, m.state.frames.last().saved);
            }
        },
        _ => {
            reveal(execute);
        },
    }
}

/// A global that was stored is loaded again as it was stored, until it is
/// stored anew; and storing one global changes no other.
pub proof fn lemma_global_store_load(
    p: ProgramModel,
    m: Machine,
    src: u8,
    name_idx: u16,
    dst: u8,
    other_idx: u16,
)
    requires
        m.wf(),
        string_constant(p.constants, name_idx) is Some,
        string_constant(p.constants, other_idx) is Some,
    ensures
        ({
            let stored = execute(p, m, Instruction::StoreGlobalR { src, name_idx }).machine;
            let same = execute(p, stored, Instruction::LoadGlobalR { dst, name_idx }).machine;
            let other = execute(p, stored, Instruction::LoadGlobalR { dst, name_idx: other_idx })
                .machine;
            let before = execute(p, m, Instruction::LoadGlobalR { dst, name_idx: other_idx })
                .machine;
            &&& stored.registers == m.registers
            &&& same.reg(dst) == m.reg(src)
            &&& string_constant(p.constants, other_idx) != string_constant(p.constants, name_idx)
                ==> other.reg(dst) == before.reg(dst)
        }),
{
    reveal(execute);
    let name = string_constant(p.constants, name_idx)->0;
    let other = string_constant(p.constants, other_idx)->0;
    lemma_lookup_bind(m.state.globals, name, m.reg(src), other);
}

/// Loading a global that was never stored gives `Empty` and is no error.
pub proof fn lemma_absent_global_is_empty(p: ProgramModel, m: Machine, dst: u8, name_idx: u16)
    requires
        m.wf(),
        string_constant(p.constants, name_idx) is Some,
        lookup(m.state.globals, string_constant(p.constants, name_idx)->0) is None,
    ensures
        execute(p, m, Instruction::LoadGlobalR { dst, name_idx }) == proceed(
            m.write(dst, ValueModel::Empty),
        ),
{
    reveal(execute);
}

/// Equality and inequality never fail, whatever the two registers hold, and
/// one is the negation of the other.
pub proof fn lemma_equality_is_total(p: ProgramModel, m: Machine, dst: u8, left: u8, right: u8)
    requires
        m.wf(),
    ensures
        execute(p, m, Instruction::EqR { dst, left, right }) == proceed(
            m.write(dst, ValueModel::Bool(values_equal(m.reg(left), m.reg(right)))),
        ),
        execute(p, m, Instruction::NeqR { dst, left, right }) == proceed(
            m.write(dst, ValueModel::Bool(!values_equal(m.reg(left), m.reg(right)))),
        ),
{
    reveal(execute);
}

/// The logical instructions never fail, whatever the registers hold: they
/// read truthiness alone.
pub proof fn lemma_logic_is_total(p: ProgramModel, m: Machine, dst: u8, left: u8, right: u8)
    requires
        m.wf(),
    ensures
        execute(p, m, Instruction::NotR { dst, src: left }) == proceed(
            m.write(dst, ValueModel::Bool(!truthy(m.reg(left)))),
        ),
        execute(p, m, Instruction::AndR { dst, left, right }) == proceed(
            m.write(dst, ValueModel::Bool(truthy(m.reg(left)) && truthy(m.reg(right)))),
        ),
        execute(p, m, Instruction::OrR { dst, left, right }) == proceed(
            m.write(dst, ValueModel::Bool(truthy(m.reg(left)) || truthy(m.reg(right)))),
        ),
{
    reveal(execute);
}

} // verus!
