//! What each instruction does, as a function from one machine to the next.
//!
//! The functions here are the definition of the machine. The engine's
//! executable code is proved to compute them.

use crate::constants::{constant_at, string_constant};
use crate::errors::ErrorModel;
use crate::instructions::{AssertType, Instruction};
use crate::loader::ProgramModel;
use crate::names::{bind, lookup};
use crate::runtime::arithmetic::{arithmetic, negation, ordering, values_equal};
use crate::runtime::arrays::{array_get, array_len, array_set, new_array};
use crate::runtime::cast::cast;
use crate::runtime::float_unit::{
    completed, ArithOp, EvaluatedModel, OrderOp, ReplyModel, RequestModel,
};
use crate::runtime::strings::{concatenation, length};
use crate::text::decimal;
use crate::values::{truthy, type_of_id, Type, ValueModel, MAX_REGISTERS};
use crate::vm::registers::restored;
use crate::vm::state::{
    initial_state, scopes_after_exit, FrameModel, PendingModel, StateModel, MAX_CALL_DEPTH,
};
use vstd::prelude::*;

verus! {

/// The number of leading arguments of a call that are bound to parameter
/// registers; further arguments are ignored.
pub const MAX_ARGUMENTS: usize = 16;

/// Something that the machine hands to the host to show.
pub enum OutputModel {
    /// A value to print: in the tagged notation of debugging, or plainly.
    Show { value: ValueModel, tagged: bool },
    /// The machine, in debug mode, is about to execute the instruction at `pc`.
    Trace { pc: usize },
    /// The machine, in debug mode, met a breakpoint at `pc`.
    Breakpoint { pc: usize },
}

/// A machine: registers, state, pending output, instruction counter and mode.
pub struct Machine {
    pub registers: Seq<ValueModel>,
    pub declared: Seq<Type>,
    pub state: StateModel,
    pub output: Seq<OutputModel>,
    pub count: usize,
    pub debug: bool,
}

/// The machine after an instruction or a step, and what the instruction
/// yielded: a value that ends the program, nothing, or an error.
pub struct Outcome {
    pub machine: Machine,
    pub result: Result<Option<ValueModel>, ErrorModel>,
}

impl Machine {
    /// Whether the machine has its full number of registers.
    pub open spec fn wf(self) -> bool {
        self.registers.len() == MAX_REGISTERS && self.declared.len() == MAX_REGISTERS
    }

    /// The value in register `r`.
    pub open spec fn reg(self, r: u8) -> ValueModel {
        self.registers[r as int]
    }

    /// The machine with `value` written into register `r`.
    pub open spec fn write(self, r: u8, value: ValueModel) -> Machine {
        Machine { registers: self.registers.update(r as int, value), ..self }
    }

    /// The machine with its state replaced.
    pub open spec fn with_state(self, state: StateModel) -> Machine {
        Machine { state, ..self }
    }

    /// The machine with one more item of output.
    pub open spec fn emit(self, item: OutputModel) -> Machine {
        Machine { output: self.output.push(item), ..self }
    }

    /// The machine waiting for the host to answer `request` into register `r`.
    pub open spec fn suspend(self, request: RequestModel, r: u8) -> Machine {
        self.with_state(
            StateModel { pending: Some(PendingModel { request, target: r }), ..self.state },
        )
    }
}

/// A machine that has just loaded a module, or has never run: every register
/// `Empty` and undeclared, the state initial.
pub open spec fn fresh_machine(output: Seq<OutputModel>, count: usize, debug: bool) -> Machine {
    Machine {
        registers: Seq::new(MAX_REGISTERS as nat, |i: int| ValueModel::Empty),
        declared: Seq::new(MAX_REGISTERS as nat, |i: int| Type::Unknown),
        state: initial_state(),
        output,
        count,
        debug,
    }
}

/// The instruction is done and the program goes on.
pub open spec fn proceed(m: Machine) -> Outcome {
    Outcome { machine: m, result: Ok(None) }
}

/// The instruction failed; the machine stays as the failure found it.
pub open spec fn fail(m: Machine, error: ErrorModel) -> Outcome {
    Outcome { machine: m, result: Err(error) }
}

/// Stores the result of an operation that cannot defer: the value goes to
/// register `dst`, an error fails the instruction.
pub open spec fn store(m: Machine, dst: u8, r: Result<ValueModel, ErrorModel>) -> Outcome {
    match r {
        Ok(value) => proceed(m.write(dst, value)),
        Err(error) => fail(m, error),
    }
}

/// Settles the result of an operation that may defer to the host: a value
/// goes to register `dst`, a request suspends the machine with `dst` as its
/// target, an error fails the instruction.
pub open spec fn settle(m: Machine, dst: u8, r: Result<EvaluatedModel, ErrorModel>) -> Outcome {
    match r {
        Ok(EvaluatedModel::Ready(value)) => proceed(m.write(dst, value)),
        Ok(EvaluatedModel::Deferred(request)) => proceed(m.suspend(request, dst)),
        Err(error) => fail(m, error),
    }
}

/// Where a jump by `offset` from `pc` lands. The sum is taken in the machine's
/// word: a target outside the range of the program counter wraps around. A
/// target before the first instruction so becomes one near the top of the
/// range, where no program has an instruction.
pub open spec fn jump_target(pc: usize, offset: i32) -> usize {
    if pc + offset < 0 {
        (pc + offset + usize::MAX + 1) as usize
    } else if pc + offset > usize::MAX {
        (pc + offset - usize::MAX - 1) as usize
    } else {
        (pc + offset) as usize
    }
}

/// A taken jump: the program counter, which already points past the jump
/// instruction, moves by `offset`, and the jump instruction's own position
/// becomes the predecessor mark.
pub open spec fn jump(m: Machine, offset: i32) -> Machine {
    m.with_state(
        StateModel {
            predecessor: Some((m.state.pc - 1) as usize),
            pc: jump_target(m.state.pc, offset),
            ..m.state
        },
    )
}

/// The register that a phi instruction reads: the source of the first pair
/// whose block is the predecessor.
pub open spec fn phi_source(sources: Seq<(u8, u16)>, predecessor: usize) -> Option<u8>
    decreases sources.len(),
{
    if sources.len() == 0 {
        None
    } else if sources[0].1 == predecessor {
        Some(sources[0].0)
    } else {
        phi_source(sources.drop_first(), predecessor)
    }
}

/// A phi instruction: with a predecessor mark and a pair for it, the
/// destination takes the value of that pair's source; otherwise nothing
/// changes.
pub open spec fn phi(m: Machine, dst: u8, sources: Seq<(u8, u16)>) -> Machine {
    match m.state.predecessor {
        Some(predecessor) => match phi_source(sources, predecessor) {
            Some(src) => m.write(dst, m.reg(src)),
            None => m,
        },
        None => m,
    }
}

/// Whether an assertion fails on `value`.
pub open spec fn assertion_fails(assert_type: AssertType, value: ValueModel) -> bool {
    match assert_type {
        AssertType::True => !truthy(value),
        AssertType::NonNull => value is Empty,
        AssertType::Range { min, max } => match value {
            ValueModel::Int(n) => n < min || n > max,
            _ => true,
        },
    }
}

/// The name that a call by a number falls back to when no function starts
/// at that offset.
pub open spec fn numbered_name(index: i64) -> Seq<char> {
    "func_"@ + decimal(index as int)
}

/// The name of the first function in the table that starts at `offset`.
pub open spec fn function_at(functions: Seq<(Seq<char>, usize)>, offset: i64) -> Option<Seq<char>>
    decreases functions.len(),
{
    if functions.len() == 0 {
        None
    } else if functions[0].1 == offset {
        Some(functions[0].0)
    } else {
        function_at(functions.drop_first(), offset)
    }
}

/// The function that a named call means: the one of that name.
pub open spec fn resolve_name(functions: Seq<(Seq<char>, usize)>, name: Seq<char>) -> Result<
    (Seq<char>, usize),
    ErrorModel,
> {
    match lookup(functions, name) {
        Some(entry) => Ok((name, entry)),
        None => Err(ErrorModel::UndefinedFunction(name)),
    }
}

/// The function that a call means, by what the callee register holds: a
/// string names the function; an integer is the offset at which a function
/// of the table starts, or failing that the number in the name `func_<n>`;
/// anything else means the function `main`.
pub open spec fn resolve(functions: Seq<(Seq<char>, usize)>, callee: ValueModel) -> Result<
    (Seq<char>, usize),
    ErrorModel,
> {
    match callee {
        ValueModel::Str(name) => resolve_name(functions, name),
        ValueModel::Int(index) => match function_at(functions, index) {
            Some(name) => Ok((name, index as usize)),
            None => resolve_name(functions, numbered_name(index)),
        },
        _ => match lookup(functions, "main"@) {
            Some(entry) => Ok(("main"@, entry)),
            None => Err(ErrorModel::UndefinedFunction("no function specified"@)),
        },
    }
}

/// The number of arguments that a call binds.
pub open spec fn bound_count(args: Seq<u8>) -> nat {
    if args.len() < MAX_ARGUMENTS {
        args.len()
    } else {
        MAX_ARGUMENTS as nat
    }
}

/// The registers after binding the first `n` arguments: parameter register
/// `i` holds what argument register `args[i]` held before the call, for every
/// `i` below `n`, and every other register holds what it held. All arguments
/// are read before any parameter is written, so an argument register that is
/// itself a parameter register still passes on the caller's value.
pub open spec fn bound(registers: Seq<ValueModel>, args: Seq<u8>, n: nat) -> Seq<ValueModel> {
    Seq::new(
        registers.len(),
        |i: int|
            if i < n {
                registers[args[i] as int]
            } else {
                registers[i]
            },
    )
}

/// The snapshot that binding `n` arguments takes: the prior contents of the
/// parameter registers `0` to `n - 1`, in that order.
pub open spec fn snapshot(registers: Seq<ValueModel>, n: nat) -> Seq<(u8, ValueModel)> {
    Seq::new(n, |i: int| (i as u8, registers[i]))
}

/// A call of the function `target`: the frame records where to resume, the
/// snapshot and the destination; the arguments are bound; control moves to
/// the function's entry. A full call stack fails the call before anything
/// changes.
pub open spec fn call(m: Machine, target: (Seq<char>, usize), args: Seq<u8>, dst: u8) -> Outcome {
    if m.state.frames.len() >= MAX_CALL_DEPTH {
        fail(m, ErrorModel::StackOverflow)
    } else {
        let n = bound_count(args);
        let frame = FrameModel {
            return_address: m.state.pc,
            saved_fp: m.state.fp,
            saved: snapshot(m.registers, n),
            function: Some(target),
            result_register: dst,
        };
        proceed(
            Machine {
                registers: bound(m.registers, args, n),
                state: StateModel {
                    frames: m.state.frames.push(frame),
                    pc: target.1,
                    ..m.state
                },
                ..m
            },
        )
    }
}

/// A return. With a frame on the call stack, the frame is popped, the program
/// counter, the frame pointer and the saved registers are restored from it,
/// and the caller's destination register takes the returned value (`Empty`
/// where none is returned); the program goes on. With no frame, the machine
/// halts and the returned value is the result of the program.
pub open spec fn ret(m: Machine, value: Option<ValueModel>) -> Outcome {
    if m.state.frames.len() > 0 {
        let frame = m.state.frames.last();
        proceed(
            Machine {
                registers: restored(m.registers, frame.saved).update(
                    frame.result_register as int,
                    match value {
                        Some(v) => v,
                        None => ValueModel::Empty,
                    },
                ),
                state: StateModel {
                    pc: frame.return_address,
                    fp: frame.saved_fp,
                    frames: m.state.frames.drop_last(),
                    ..m.state
                },
                ..m
            },
        )
    } else {
        Outcome {
            machine: m.with_state(StateModel { running: false, ..m.state }),
            result: Ok(value),
        }
    }
}

/// What a debug print hands to the host: in debug mode the value in tagged
/// notation; otherwise the value plainly, and nothing for `Empty`.
pub open spec fn debug_print(m: Machine, value: ValueModel) -> Machine {
    if m.debug {
        m.emit(OutputModel::Show { value, tagged: true })
    } else if value is Empty {
        m
    } else {
        m.emit(OutputModel::Show { value, tagged: false })
    }
}

/// The global of the given name; a name never stored is `Empty`.
pub open spec fn global(globals: Seq<(Seq<char>, ValueModel)>, name: Seq<char>) -> ValueModel {
    match lookup(globals, name) {
        Some(value) => value,
        None => ValueModel::Empty,
    }
}

/// The effect of one instruction on a machine whose program counter already
/// points past it.
#[verifier::opaque]
pub open spec fn execute(p: ProgramModel, m: Machine, inst: Instruction) -> Outcome {
    match inst {
        Instruction::LoadConstR { dst, const_idx } => match constant_at(p.constants, const_idx) {
            Some(value) => proceed(m.write(dst, value)),
            None => fail(m, ErrorModel::InvalidConstant(const_idx)),
        },
        Instruction::MoveR { dst, src } => proceed(m.write(dst, m.reg(src))),
        Instruction::LoadGlobalR { dst, name_idx } => match string_constant(
            p.constants,
            name_idx,
        ) {
            Some(name) => proceed(m.write(dst, global(m.state.globals, name))),
            None => fail(m, ErrorModel::InvalidConstant(name_idx)),
        },
        Instruction::StoreGlobalR { src, name_idx } => match string_constant(
            p.constants,
            name_idx,
        ) {
            Some(name) => proceed(
                m.with_state(
                    StateModel { globals: bind(m.state.globals, name, m.reg(src)), ..m.state },
                ),
            ),
            None => fail(m, ErrorModel::InvalidConstant(name_idx)),
        },
        Instruction::DefineR { dst, type_id } => proceed(
            Machine { declared: m.declared.update(dst as int, type_of_id(type_id)), ..m },
        ),
        Instruction::CheckTypeR { dst, src, type_id } => proceed(
            m.write(dst, ValueModel::Bool(m.declared[src as int] == type_of_id(type_id))),
        ),
        Instruction::CastR { dst, src, to_type } => settle(
            m,
            dst,
            cast(m.reg(src), type_of_id(to_type)),
        ),
        Instruction::AddR { dst, left, right } => settle(
            m,
            dst,
            arithmetic(ArithOp::Add, m.reg(left), m.reg(right)),
        ),
        Instruction::SubR { dst, left, right } => settle(
            m,
            dst,
            arithmetic(ArithOp::Sub, m.reg(left), m.reg(right)),
        ),
        Instruction::MulR { dst, left, right } => settle(
            m,
            dst,
            arithmetic(ArithOp::Mul, m.reg(left), m.reg(right)),
        ),
        Instruction::DivR { dst, left, right } => settle(
            m,
            dst,
            arithmetic(ArithOp::Div, m.reg(left), m.reg(right)),
        ),
        Instruction::ModR { dst, left, right } => settle(
            m,
            dst,
            arithmetic(ArithOp::Mod, m.reg(left), m.reg(right)),
        ),
        Instruction::NegR { dst, src } => store(m, dst, negation(m.reg(src))),
        Instruction::NotR { dst, src } => proceed(
            m.write(dst, ValueModel::Bool(!truthy(m.reg(src)))),
        ),
        Instruction::AndR { dst, left, right } => proceed(
            m.write(dst, ValueModel::Bool(truthy(m.reg(left)) && truthy(m.reg(right)))),
        ),
        Instruction::OrR { dst, left, right } => proceed(
            m.write(dst, ValueModel::Bool(truthy(m.reg(left)) || truthy(m.reg(right)))),
        ),
        Instruction::EqR { dst, left, right } => proceed(
            m.write(dst, ValueModel::Bool(values_equal(m.reg(left), m.reg(right)))),
        ),
        Instruction::NeqR { dst, left, right } => proceed(
            m.write(dst, ValueModel::Bool(!values_equal(m.reg(left), m.reg(right)))),
        ),
        Instruction::LtR { dst, left, right } => settle(
            m,
            dst,
            ordering(OrderOp::Lt, m.reg(left), m.reg(right)),
        ),
        Instruction::GtR { dst, left, right } => settle(
            m,
            dst,
            ordering(OrderOp::Gt, m.reg(left), m.reg(right)),
        ),
        Instruction::LteR { dst, left, right } => settle(
            m,
            dst,
            ordering(OrderOp::Lte, m.reg(left), m.reg(right)),
        ),
        Instruction::GteR { dst, left, right } => settle(
            m,
            dst,
            ordering(OrderOp::Gte, m.reg(left), m.reg(right)),
        ),
        Instruction::JumpR { offset } => proceed(jump(m, offset)),
        Instruction::JumpIfR { cond, offset } => if truthy(m.reg(cond)) {
            proceed(jump(m, offset))
        } else {
            proceed(m)
        },
        Instruction::JumpIfNotR { cond, offset } => if !truthy(m.reg(cond)) {
            proceed(jump(m, offset))
        } else {
            proceed(m)
        },
        Instruction::CallR { func, args, dst } => match resolve(p.functions, m.reg(func)) {
            Ok(target) => call(m, target, args@, dst),
            Err(error) => fail(m, error),
        },
        Instruction::ReturnR { src } => ret(
            m,
            match src {
                Some(r) => Some(m.reg(r)),
                None => None,
            },
        ),
        Instruction::PhiR { dst, sources } => proceed(phi(m, dst, sources@)),
        Instruction::AssertR { reg, assert_type, msg_idx } => if assertion_fails(
            assert_type,
            m.reg(reg),
        ) {
            match string_constant(p.constants, msg_idx) {
                Some(message) => fail(m, ErrorModel::AssertionFailed(message)),
                None => fail(m, ErrorModel::InvalidConstant(msg_idx)),
            }
        } else {
            proceed(m)
        },
        Instruction::ScopeEnterR { scope_id } => proceed(
            m.with_state(StateModel { scopes: m.state.scopes.push(scope_id), ..m.state }),
        ),
        Instruction::ScopeExitR { scope_id } => proceed(
            m.with_state(
                StateModel { scopes: scopes_after_exit(m.state.scopes, scope_id), ..m.state },
            ),
        ),
        Instruction::ConcatStrR { dst, left, right } => store(
            m,
            dst,
            concatenation(m.reg(left), m.reg(right)),
        ),
        Instruction::StrLenR { dst, str_reg } => store(m, dst, length(m.reg(str_reg))),
        Instruction::NewArrayR { dst, size } => store(m, dst, new_array(m.reg(size))),
        Instruction::ArrayGetR { dst, array, index } => store(
            m,
            dst,
            array_get(m.reg(array), m.reg(index)),
        ),
        Instruction::ArraySetR { array, index, value } => store(
            m,
            array,
            array_set(m.reg(array), m.reg(index), m.reg(value)),
        ),
        Instruction::ArrayLenR { dst, array } => store(m, dst, array_len(m.reg(array))),
        Instruction::DebugPrint { src } => proceed(debug_print(m, m.reg(src))),
        Instruction::BreakPoint => if m.debug {
            proceed(m.emit(OutputModel::Breakpoint { pc: (m.state.pc - 1) as usize }))
        } else {
            proceed(m)
        },
        Instruction::Halt => proceed(m.with_state(StateModel { running: false, ..m.state })),
        Instruction::Nop => proceed(m),
    }
}

/// The error for stepping a machine that waits for the host.
pub open spec fn step_while_pending() -> ErrorModel {
    ErrorModel::InvalidOperation {
        operation: "step"@,
        detail: "a float request is pending"@,
    }
}

/// The error for answering a machine that asked nothing.
pub open spec fn nothing_pending() -> ErrorModel {
    ErrorModel::InvalidOperation {
        operation: "resume"@,
        detail: "no float request is pending"@,
    }
}

/// The machine as an instruction finds it: the program counter and the
/// instruction counter have moved on and, in debug mode, the step is traced.
pub open spec fn fetched(m: Machine) -> Machine {
    let traced = if m.debug {
        m.emit(OutputModel::Trace { pc: m.state.pc })
    } else {
        m
    };
    Machine {
        state: StateModel { pc: (m.state.pc + 1) as usize, ..m.state },
        count: (m.count + 1) as usize,
        ..traced
    }
}

/// One step. A machine that waits for the host cannot step. A machine whose
/// program counter is past the end halts. A machine whose instruction counter
/// cannot count further fails. Otherwise the instruction at the program
/// counter is fetched and executed.
pub open spec fn step(p: ProgramModel, m: Machine) -> Outcome {
    if m.state.pending is Some {
        fail(m, step_while_pending())
    } else if m.state.pc >= p.instructions.len() {
        proceed(m.with_state(StateModel { running: false, ..m.state }))
    } else if m.count == usize::MAX {
        fail(m, ErrorModel::InstructionLimit)
    } else {
        execute(p, fetched(m), p.instructions[m.state.pc as int])
    }
}

/// The host's answer arrives: the waiting instruction completes with the
/// value that the reply gives, or fails with its error. Either way the
/// machine waits no longer.
pub open spec fn resume(m: Machine, reply: ReplyModel) -> Outcome {
    match m.state.pending {
        Some(pending) => {
            let cleared = m.with_state(StateModel { pending: None, ..m.state });
            store(cleared, pending.target, completed(pending.request, reply))
        },
        None => fail(m, nothing_pending()),
    }
}

/// Whether the run loop takes another step: the machine runs, its program
/// counter is inside the program, and it does not wait for the host.
pub open spec fn can_step(p: ProgramModel, m: Machine) -> bool {
    m.state.running && m.state.pc < p.instructions.len() && m.state.pending is None
}

/// The run loop from machine `m`, where `last` is the value of the last
/// return that ended the program so far. It steps while it can, stops at the
/// first error, and yields the last such value.
pub open spec fn run_from(p: ProgramModel, m: Machine, last: Option<ValueModel>) -> Outcome
    decreases usize::MAX - m.count,
{
    if !can_step(p, m) {
        Outcome { machine: m, result: Ok(last) }
    } else {
        let after = step(p, m);
        match after.result {
            Err(_) => after,
            Ok(value) => if after.machine.count > m.count {
                run_from(
                    p,
                    after.machine,
                    if value is Some {
                        value
                    } else {
                        last
                    },
                )
            } else {
                after
            },
        }
    }
}

/// An instruction changes neither the instruction counter nor the debug mode.
pub proof fn lemma_execute_frame(p: ProgramModel, m: Machine, inst: Instruction)
    ensures
        execute(p, m, inst).machine.count == m.count,
        execute(p, m, inst).machine.debug == m.debug,
{
    reveal(execute);
}

/// Every step that does not fail on a machine that can step counts exactly
/// one instruction.
pub proof fn lemma_step_counts(p: ProgramModel, m: Machine)
    requires
        can_step(p, m),
    ensures
        step(p, m).result is Ok ==> step(p, m).machine.count == m.count + 1,
        step(p, m).result is Err ==> m.count == usize::MAX || step(p, m).machine.count == m.count
            + 1,
{
    if m.count < usize::MAX {
        lemma_execute_frame(p, fetched(m), p.instructions[m.state.pc as int]);
    }
}

/// The run loop ends where it can step no further, unless an error ends it:
/// the machine it leaves has halted, has run off its program, or waits for
/// the host. It never takes an instruction off the counter.
pub proof fn lemma_run_ends(p: ProgramModel, m: Machine, last: Option<ValueModel>)
    ensures
        run_from(p, m, last).result is Ok ==> !can_step(p, run_from(p, m, last).machine),
        run_from(p, m, last).machine.count >= m.count,
        !can_step(p, m) ==> run_from(p, m, last) == (Outcome { machine: m, result: Ok(last) }),
    decreases usize::MAX - m.count,
{
    if can_step(p, m) {
        lemma_step_counts(p, m);
        let after = step(p, m);
        if after.result is Ok {
            lemma_run_ends(
                p,
                after.machine,
                if after.result->Ok_0 is Some {
                    after.result->Ok_0
                } else {
                    last
                },
            );
        }
    }
}

} // verus!
