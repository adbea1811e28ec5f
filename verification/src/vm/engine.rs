//! The execution engine: a machine that steps through a loaded module.

use crate::constants::{string_constant, ConstantValue};
use crate::errors::{outcome, ErrorModel, RuntimeError, StackFrame};
use crate::instructions::{AssertType, Instruction};
use crate::loader::{BytecodeModule, MetadataFile, ProgramModel};
use crate::names::NameTable;
use crate::runtime::arithmetic::ArithmeticOps;
use crate::runtime::arrays::ArrayOps;
use crate::runtime::cast::cast;
use crate::runtime::float_unit::{complete, Evaluated, FloatReply, FloatRequest};
use crate::runtime::logic::LogicOps;
use crate::runtime::strings::StringOps;
use crate::text::{decimal_of, string_of};
use crate::values::{share, type_of_id, FunctionRef, Type, Value, ValueModel, MAX_REGISTERS};
use crate::vm::registers::RegisterFile;
use crate::vm::semantics::{
    assertion_fails, bound, bound_count, call, can_step, debug_print, execute, fresh_machine,
    function_at, jump, jump_target, lemma_step_counts, phi_source, resolve, resolve_name,
    resume, ret, run_from, settle, snapshot, step, store, Machine, Outcome, OutputModel,
    MAX_ARGUMENTS,
};
use crate::vm::state::{CallFrame, FrameModel, PendingFloat, VMState, MAX_CALL_DEPTH};
use std::sync::Arc;
use vstd::prelude::*;

verus! {

/// Something that the machine hands to the host to show.
#[derive(Debug, PartialEq, Eq)]
pub enum OutputEvent {
    /// A value to print: in the tagged notation of debugging, or plainly.
    Show { value: Value, tagged: bool },
    /// The machine, in debug mode, is about to execute the instruction at `pc`.
    Trace { pc: usize },
    /// The machine, in debug mode, met a breakpoint at `pc`.
    Breakpoint { pc: usize },
}

impl View for OutputEvent {
    type V = OutputModel;

    open spec fn view(&self) -> OutputModel {
        match self {
            OutputEvent::Show { value, tagged } => OutputModel::Show {
                value: value@,
                tagged: *tagged,
            },
            OutputEvent::Trace { pc } => OutputModel::Trace { pc: *pc },
            OutputEvent::Breakpoint { pc } => OutputModel::Breakpoint { pc: *pc },
        }
    }
}

/// The contents of a list of output events.
pub open spec fn output_model(events: Seq<OutputEvent>) -> Seq<OutputModel> {
    Seq::new(events.len(), |i: int| events[i]@)
}

/// What an instruction or a step yielded, in the model.
pub open spec fn yielded(r: Result<Option<Value>, RuntimeError>) -> Result<
    Option<ValueModel>,
    ErrorModel,
> {
    match r {
        Ok(Some(value)) => Ok(Some(value@)),
        Ok(None) => Ok(None),
        Err(error) => Err(error@),
    }
}

/// The name that a stack trace shows for a frame.
pub open spec fn callee_name(frame: FrameModel) -> Seq<char> {
    match frame.function {
        Some((name, _)) => name,
        None => "anonymous"@,
    }
}

/// The program of a machine that has loaded nothing.
pub open spec fn no_program() -> ProgramModel {
    ProgramModel { instructions: Seq::empty(), constants: Seq::empty(), functions: Seq::empty() }
}


/// Computes [`jump_target`].
fn target_of(pc: usize, offset: i32) -> (target: usize)
    ensures
        target == jump_target(pc, offset),
{
    pc.wrapping_add_signed(offset as isize)
}

/// Computes [`phi_source`].
fn phi_lookup(sources: &Vec<(u8, u16)>, predecessor: usize) -> (r: Option<u8>)
    ensures
        r == phi_source(sources@, predecessor),
{
    let mut i: usize = 0;
    assert(sources@.skip(0) =~= sources@);
    while i < sources.len()
        invariant
            i <= sources.len(),
            phi_source(sources@, predecessor) == phi_source(sources@.skip(i as int), predecessor),
        decreases sources.len() - i,
    {
        let ghost rest = sources@.skip(i as int);
        assert(rest.drop_first() =~= sources@.skip(i + 1));
        if sources[i].1 as usize == predecessor {
            return Some(sources[i].0);
        }
        i += 1;
    }
    None
}

/// Computes [`assertion_fails`].
fn assertion_failed(assert_type: AssertType, value: &Value) -> (r: bool)
    ensures
        r == assertion_fails(assert_type, value@),
{
    match assert_type {
        AssertType::True => !value.is_truthy(),
        AssertType::NonNull => match value {
            Value::Empty => true,
            _ => false,
        },
        AssertType::Range { min, max } => match value {
            Value::Int(n) => *n < min || *n > max,
            _ => true,
        },
    }
}

/// Computes [`function_at`].
fn find_function_at(functions: &NameTable<usize>, offset: i64) -> (r: Option<String>)
    ensures
        match r {
            Some(name) => function_at(functions@, offset) == Some(name@),
            None => function_at(functions@, offset) is None,
        },
{
    let mut i: usize = 0;
    assert(functions@.skip(0) =~= functions@);
    while i < functions.len()
        invariant
            i <= functions@.len(),
            function_at(functions@, offset) == function_at(functions@.skip(i as int), offset),
        decreases functions@.len() - i,
    {
        let ghost rest = functions@.skip(i as int);
        assert(rest.drop_first() =~= functions@.skip(i + 1));
        match functions.entry(i) {
            Some((name, entry)) => {
                if offset >= 0 && *entry as u64 == offset as u64 {
                    return Some(name.clone());
                }
            },
            None => {},
        }
        i += 1;
    }
    None
}

/// Computes [`resolve_name`].
fn find_function(functions: &NameTable<usize>, name: String) -> (r: Result<
    FunctionRef,
    RuntimeError,
>)
    ensures
        match r {
            Ok(f) => resolve_name(functions@, name@) == Ok::<(Seq<char>, usize), ErrorModel>(
                (f.name@, f.entry),
            ),
            Err(error) => resolve_name(functions@, name@) == Err::<
                (Seq<char>, usize),
                ErrorModel,
            >(error@),
        },
{
    match functions.get(&name) {
        Some(entry) => Ok(FunctionRef { name, entry: *entry }),
        None => Err(RuntimeError::UndefinedFunction(name)),
    }
}

/// Computes [`resolve`].
fn resolve_callee(functions: &NameTable<usize>, callee: &Value) -> (r: Result<
    FunctionRef,
    RuntimeError,
>)
    ensures
        match r {
            Ok(f) => resolve(functions@, callee@) == Ok::<(Seq<char>, usize), ErrorModel>(
                (f.name@, f.entry),
            ),
            Err(error) => resolve(functions@, callee@) == Err::<(Seq<char>, usize), ErrorModel>(
                error@,
            ),
        },
{
    match callee {
        Value::String(name) => find_function(functions, (**name).clone()),
        Value::Int(index) => match find_function_at(functions, *index) {
            Some(name) => Ok(FunctionRef { name, entry: *index as usize }),
            None => {
                let mut name = "func_".to_owned();
                let digits = string_of(&decimal_of(*index));
                name.append(digits.as_str());
                find_function(functions, name)
            },
        },
        _ => {
            let name = "main".to_owned();
            match functions.get(&name) {
                Some(entry) => Ok(FunctionRef { name, entry: *entry }),
                None => Err(RuntimeError::UndefinedFunction("no function specified".to_owned())),
            }
        },
    }
}

/// A virtual machine. Each machine owns its registers, its state and its
/// module; independent programs run on independent machines.
#[derive(Debug)]
pub struct VM {
    /// The register file.
    pub registers: RegisterFile,
    /// Program counter, call stack, globals and the rest of the state.
    pub state: VMState,
    /// The loaded module, if any.
    pub module: Option<Arc<BytecodeModule>>,
    /// The metadata that came with the module, if any.
    pub metadata: Option<MetadataFile>,
    /// Whether the machine traces its steps and prints in tagged notation.
    pub debug_mode: bool,
    /// The number of instructions fetched so far.
    pub instruction_count: usize,
    /// What the machine has to show and the host has not taken yet.
    pub output: Vec<OutputEvent>,
}

impl View for VM {
    type V = Machine;

    open spec fn view(&self) -> Machine {
        Machine {
            registers: self.registers@,
            declared: self.registers.declared(),
            state: self.state@,
            output: output_model(self.output@),
            count: self.instruction_count,
            debug: self.debug_mode,
        }
    }
}

impl VM {
    /// Whether the machine's register file is whole.
    pub open spec fn wf(&self) -> bool {
        self.registers.wf()
    }

    /// The program that the machine executes.
    pub open spec fn program(&self) -> ProgramModel {
        match self.module {
            Some(module) => module@,
            None => no_program(),
        }
    }

    /// What the machine is after an operation that yielded `r`.
    pub open spec fn after(&self, r: Result<Option<Value>, RuntimeError>) -> Outcome {
        Outcome { machine: self@, result: yielded(r) }
    }

    /// A machine with no module: every register `Empty`, the state initial,
    /// nothing to show, no instruction counted, debug mode off.
    pub fn new() -> (vm: VM)
        ensures
            vm.wf(),
            vm.module is None,
            vm.metadata is None,
            vm@ == fresh_machine(Seq::empty(), 0, false),
    {
        let vm = VM {
            registers: RegisterFile::new(),
            state: VMState::new(),
            module: None,
            metadata: None,
            debug_mode: false,
            instruction_count: 0,
            output: Vec::new(),
        };
        assert(vm@.output =~= Seq::empty());
        vm
    }

    /// Loads a module, replacing the one loaded before, and resets registers
    /// and state. The machine holds the module as it was given, whole and
    /// unchanged. The instruction counter, the output not yet taken and the
    /// debug mode stay. Loading never fails.
    pub fn load_module(&mut self, module: BytecodeModule, metadata: Option<MetadataFile>) -> (r:
        Result<(), RuntimeError>)
        ensures
            r is Ok,
            final(self).wf(),
            final(self).module matches Some(stored) && *stored == module,
            final(self).program() == module@,
            final(self).metadata == metadata,
            final(self)@ == fresh_machine(old(self)@.output, old(self)@.count, old(self)@.debug),
    {
        self.module = Some(Arc::new(module));
        self.metadata = metadata;
        self.state.reset();
        self.registers.clear();
        Ok(())
    }

    /// Whether the machine's register file is whole, which every operation
    /// on the machine asks for.
    pub fn is_whole(&self) -> (whole: bool)
        ensures
            whole == self.wf(),
    {
        self.registers.is_whole()
    }

    /// Turns debug mode on or off.
    pub fn set_debug(&mut self, debug: bool)
        ensures
            final(self)@ == (Machine { debug, ..old(self)@ }),
            final(self).wf() == old(self).wf(),
            final(self).module == old(self).module,
            final(self).metadata == old(self).metadata,
    {
        self.debug_mode = debug;
    }

    /// The number of instructions fetched so far.
    pub fn instruction_count(&self) -> (n: usize)
        ensures
            n == self@.count,
    {
        self.instruction_count
    }

    /// The text of the string constant at `idx`. An index out of range and a
    /// constant that is no string are both `InvalidConstant(idx)`.
    pub fn get_string_constant(module: &BytecodeModule, idx: u16) -> (r: Result<
        String,
        RuntimeError,
    >)
        ensures
            match r {
                Ok(text) => string_constant(module@.constants, idx) == Some(text@),
                Err(error) => string_constant(module@.constants, idx) is None && error@
                    == ErrorModel::InvalidConstant(idx),
            },
    {
        match module.constants.get(idx) {
            Some(ConstantValue::String(s)) => Ok(s.clone()),
            _ => Err(RuntimeError::InvalidConstant(idx)),
        }
    }

    /// The type that a type identifier denotes.
    pub fn get_type_from_id(type_id: u16) -> (t: Type)
        ensures
            t == type_of_id(type_id),
    {
        Type::from_id(type_id)
    }

    /// Coerces a value to a type; see [`cast`].
    pub fn cast_value(value: &Value, target_type: Type) -> (r: Result<Evaluated, RuntimeError>)
        ensures
            outcome(r) == cast(value@, target_type),
    {
        value.cast_to(target_type)
    }

    fn store(&mut self, dst: u8, r: Result<Value, RuntimeError>) -> (res: Result<
        Option<Value>,
        RuntimeError,
    >)
        requires
            old(self).wf(),
        ensures
            final(self).wf(),
            final(self).module == old(self).module,
            final(self).metadata == old(self).metadata,
            final(self).after(res) == store(old(self)@, dst, outcome(r)),
    {
        match r {
            Ok(value) => {
                self.registers.set(dst, value);
                Ok(None)
            },
            Err(error) => Err(error),
        }
    }

    fn settle(&mut self, dst: u8, r: Result<Evaluated, RuntimeError>) -> (res: Result<
        Option<Value>,
        RuntimeError,
    >)
        requires
            old(self).wf(),
        ensures
            final(self).wf(),
            final(self).module == old(self).module,
            final(self).metadata == old(self).metadata,
            final(self).after(res) == settle(old(self)@, dst, outcome(r)),
    {
        match r {
            Ok(Evaluated::Ready(value)) => {
                self.registers.set(dst, value);
                Ok(None)
            },
            Ok(Evaluated::Deferred(request)) => {
                self.state.pending = Some(PendingFloat { request, target: dst });
                Ok(None)
            },
            Err(error) => Err(error),
        }
    }

    fn jump(&mut self, offset: i32)
        requires
            old(self).wf(),
            old(self).state.pc >= 1,
        ensures
            final(self).wf(),
            final(self).module == old(self).module,
            final(self).metadata == old(self).metadata,
            final(self)@ == jump(old(self)@, offset),
    {
        self.state.predecessor_block = Some(self.state.pc - 1);
        self.state.pc = target_of(self.state.pc, offset);
    }

    fn call(&mut self, target: FunctionRef, args: &Vec<u8>, dst: u8) -> (res: Result<
        Option<Value>,
        RuntimeError,
    >)
        requires
            old(self).wf(),
        ensures
            final(self).wf(),
            final(self).module == old(self).module,
            final(self).metadata == old(self).metadata,
            final(self).after(res) == call(old(self)@, (target.name@, target.entry), args@, dst),
    {
        if self.state.call_stack.len() >= MAX_CALL_DEPTH {
            return Err(RuntimeError::StackOverflow);
        }
        let n: usize = if args.len() < MAX_ARGUMENTS {
            args.len()
        } else {
            MAX_ARGUMENTS
        };
        let entry = target.entry;
        let ghost before = self@;
        proof {
            self.registers.lemma_wf();
        }
        let mut passed: Vec<Value> = Vec::new();
        let mut saved: Vec<(u8, Value)> = Vec::new();
        let mut i: usize = 0;
        while i < n
            invariant
                i <= n,
                n == bound_count(args@),
                before == self@,
                before.registers.len() == MAX_REGISTERS,
                self.wf(),
                passed@.len() == i,
                saved@.len() == i,
                forall|k: int|
                    0 <= k < i ==> (#[trigger] passed@[k])@ == before.registers[args@[k] as int],
                forall|k: int|
                    0 <= k < i ==> #[trigger] saved@[k] == (k as u8, saved@[k].1) && saved@[k].1@
                        == before.registers[k],
            decreases n - i,
        {
            passed.push(self.registers.get(args[i]).clone());
            saved.push((i as u8, self.registers.get(i as u8).clone()));
            i += 1;
        }
        assert(crate::vm::registers::snapshot_model(saved@) =~= snapshot(
            before.registers,
            n as nat,
        ));
        let mut k: usize = 0;
        assert(self@.registers =~= bound(before.registers, args@, 0));
        while k < n
            invariant
                k <= n,
                n == bound_count(args@),
                n == passed@.len(),
                before.registers.len() == MAX_REGISTERS,
                self.wf(),
                self.module == old(self).module,
                self.metadata == old(self).metadata,
                forall|j: int|
                    0 <= j < n ==> (#[trigger] passed@[j])@ == before.registers[args@[j] as int],
                self@ == (Machine { registers: bound(before.registers, args@, k as nat), ..before }),
            decreases n - k,
        {
            self.registers.set(k as u8, passed[k].clone());
            k += 1;
            assert(self@.registers =~= bound(before.registers, args@, k as nat));
        }
        let frame = CallFrame {
            return_address: self.state.pc,
            saved_fp: self.state.fp,
            saved_registers: saved,
            function: Some(target),
            result_register: dst,
        };
        self.state.call_stack.push(frame);
        self.state.pc = entry;
        assert(self@.state.frames =~= before.state.frames.push(frame@));
        Ok(None)
    }

    fn ret(&mut self, value: Option<Value>) -> (res: Result<Option<Value>, RuntimeError>)
        requires
            old(self).wf(),
        ensures
            final(self).wf(),
            final(self).module == old(self).module,
            final(self).metadata == old(self).metadata,
            final(self).after(res) == ret(
                old(self)@,
                match value {
                    Some(v) => Some(v@),
                    None => None,
                },
            ),
    {
        match self.state.pop_frame() {
            Some(frame) => {
                self.state.pc = frame.return_address;
                self.state.fp = frame.saved_fp;
                self.registers.restore_registers(&frame.saved_registers);
                let delivered = match value {
                    Some(v) => v,
                    None => Value::Empty,
                };
                self.registers.set(frame.result_register, delivered);
                Ok(None)
            },
            None => {
                self.state.halt();
                Ok(value)
            },
        }
    }

    fn show(&mut self, value: Value)
        ensures
            final(self).wf() == old(self).wf(),
            final(self).module == old(self).module,
            final(self).metadata == old(self).metadata,
            final(self)@ == debug_print(old(self)@, value@),
    {
        if self.debug_mode {
            self.output.push(OutputEvent::Show { value, tagged: true });
            assert(self@.output =~= old(self)@.output.push(
                OutputModel::Show { value: value@, tagged: true },
            ));
        } else {
            match value {
                Value::Empty => {},
                _ => {
                    self.output.push(OutputEvent::Show { value, tagged: false });
                    assert(self@.output =~= old(self)@.output.push(
                        OutputModel::Show { value: value@, tagged: false },
                    ));
                },
            }
        }
    }

    /// Executes one instruction on a machine whose program counter already
    /// points past it; see [`execute`].
    fn execute_instruction(&mut self, module: &BytecodeModule, inst: &Instruction) -> (res: Result<
        Option<Value>,
        RuntimeError,
    >)
        requires
            old(self).wf(),
            old(self).state.pc >= 1,
        ensures
            final(self).wf(),
            final(self).module == old(self).module,
            final(self).metadata == old(self).metadata,
            final(self).after(res) == execute(module@, old(self)@, *inst),
    {
        reveal(execute);
        match inst {
            Instruction::LoadConstR { dst, const_idx } => match module.constants.get(*const_idx) {
                Some(constant) => {
                    self.registers.set(*dst, constant.to_value());
                    Ok(None)
                },
                None => Err(RuntimeError::InvalidConstant(*const_idx)),
            },
            Instruction::MoveR { dst, src } => {
                let value = self.registers.get(*src).clone();
                self.registers.set(*dst, value);
                Ok(None)
            },
            Instruction::LoadGlobalR { dst, name_idx } => {
                match Self::get_string_constant(module, *name_idx) {
                    Ok(name) => {
                        let value = match self.state.globals.get(&name) {
                            Some(v) => v.clone(),
                            None => Value::Empty,
                        };
                        self.registers.set(*dst, value);
                        Ok(None)
                    },
                    Err(error) => Err(error),
                }
            },
            Instruction::StoreGlobalR { src, name_idx } => {
                match Self::get_string_constant(module, *name_idx) {
                    Ok(name) => {
                        let value = self.registers.get(*src).clone();
                        self.state.globals.insert(name, value);
                        Ok(None)
                    },
                    Err(error) => Err(error),
                }
            },
            Instruction::DefineR { dst, type_id } => {
                self.registers.set_type(*dst, Self::get_type_from_id(*type_id));
                Ok(None)
            },
            Instruction::CheckTypeR { dst, src, type_id } => {
                let matches = self.registers.get_type(*src) == Self::get_type_from_id(*type_id);
                self.registers.set(*dst, Value::Bool(matches));
                Ok(None)
            },
            Instruction::CastR { dst, src, to_type } => {
                let r = Self::cast_value(
                    self.registers.get(*src),
                    Self::get_type_from_id(*to_type),
                );
                self.settle(*dst, r)
            },
            Instruction::AddR { dst, left, right } => {
                let r = ArithmeticOps::add(self.registers.get(*left), self.registers.get(*right));
                self.settle(*dst, r)
            },
            Instruction::SubR { dst, left, right } => {
                let r = ArithmeticOps::sub(self.registers.get(*left), self.registers.get(*right));
                self.settle(*dst, r)
            },
            Instruction::MulR { dst, left, right } => {
                let r = ArithmeticOps::mul(self.registers.get(*left), self.registers.get(*right));
                self.settle(*dst, r)
            },
            Instruction::DivR { dst, left, right } => {
                let r = ArithmeticOps::div(self.registers.get(*left), self.registers.get(*right));
                self.settle(*dst, r)
            },
            Instruction::ModR { dst, left, right } => {
                let r = ArithmeticOps::modulo(
                    self.registers.get(*left),
                    self.registers.get(*right),
                );
                self.settle(*dst, r)
            },
            Instruction::NegR { dst, src } => {
                let r = ArithmeticOps::negate(self.registers.get(*src));
                self.store(*dst, r)
            },
            Instruction::NotR { dst, src } => {
                let value = LogicOps::not(self.registers.get(*src));
                self.registers.set(*dst, value);
                Ok(None)
            },
            Instruction::AndR { dst, left, right } => {
                let value = LogicOps::and(self.registers.get(*left), self.registers.get(*right));
                self.registers.set(*dst, value);
                Ok(None)
            },
            Instruction::OrR { dst, left, right } => {
                let value = LogicOps::or(self.registers.get(*left), self.registers.get(*right));
                self.registers.set(*dst, value);
                Ok(None)
            },
            Instruction::EqR { dst, left, right } => {
                let equal = ArithmeticOps::eq(self.registers.get(*left), self.registers.get(*right));
                self.registers.set(*dst, Value::Bool(equal));
                Ok(None)
            },
            Instruction::NeqR { dst, left, right } => {
                let differ = ArithmeticOps::neq(
                    self.registers.get(*left),
                    self.registers.get(*right),
                );
                self.registers.set(*dst, Value::Bool(differ));
                Ok(None)
            },
            Instruction::LtR { dst, left, right } => {
                let r = ArithmeticOps::lt(self.registers.get(*left), self.registers.get(*right));
                self.settle(*dst, r)
            },
            Instruction::GtR { dst, left, right } => {
                let r = ArithmeticOps::gt(self.registers.get(*left), self.registers.get(*right));
                self.settle(*dst, r)
            },
            Instruction::LteR { dst, left, right } => {
                let r = ArithmeticOps::lte(self.registers.get(*left), self.registers.get(*right));
                self.settle(*dst, r)
            },
            Instruction::GteR { dst, left, right } => {
                let r = ArithmeticOps::gte(self.registers.get(*left), self.registers.get(*right));
                self.settle(*dst, r)
            },
            Instruction::JumpR { offset } => {
                self.jump(*offset);
                Ok(None)
            },
            Instruction::JumpIfR { cond, offset } => {
                if self.registers.get(*cond).is_truthy() {
                    self.jump(*offset);
                }
                Ok(None)
            },
            Instruction::JumpIfNotR { cond, offset } => {
                if !self.registers.get(*cond).is_truthy() {
                    self.jump(*offset);
                }
                Ok(None)
            },
            Instruction::CallR { func, args, dst } => {
                match resolve_callee(&module.function_table, self.registers.get(*func)) {
                    Ok(target) => self.call(target, args, *dst),
                    Err(error) => Err(error),
                }
            },
            Instruction::ReturnR { src } => {
                let value = match src {
                    Some(r) => Some(self.registers.get(*r).clone()),
                    None => None,
                };
                self.ret(value)
            },
            Instruction::PhiR { dst, sources } => {
                match self.state.predecessor_block {
                    Some(predecessor) => match phi_lookup(sources, predecessor) {
                        Some(src) => {
                            let value = self.registers.get(src).clone();
                            self.registers.set(*dst, value);
                        },
                        None => {},
                    },
                    None => {},
                }
                Ok(None)
            },
            Instruction::AssertR { reg, assert_type, msg_idx } => {
                if assertion_failed(*assert_type, self.registers.get(*reg)) {
                    match Self::get_string_constant(module, *msg_idx) {
                        Ok(message) => Err(RuntimeError::AssertionFailed(message)),
                        Err(error) => Err(error),
                    }
                } else {
                    Ok(None)
                }
            },
            Instruction::ScopeEnterR { scope_id } => {
                self.state.enter_scope(*scope_id);
                Ok(None)
            },
            Instruction::ScopeExitR { scope_id } => {
                self.state.exit_scope(*scope_id);
                Ok(None)
            },
            Instruction::ConcatStrR { dst, left, right } => {
                let r = StringOps::concat(self.registers.get(*left), self.registers.get(*right));
                self.store(*dst, r)
            },
            Instruction::StrLenR { dst, str_reg } => {
                let r = StringOps::len(self.registers.get(*str_reg));
                self.store(*dst, r)
            },
            Instruction::NewArrayR { dst, size } => {
                let r = ArrayOps::create(self.registers.get(*size));
                self.store(*dst, r)
            },
            Instruction::ArrayGetR { dst, array, index } => {
                let r = ArrayOps::get(self.registers.get(*array), self.registers.get(*index));
                self.store(*dst, r)
            },
            Instruction::ArraySetR { array, index, value } => {
                let new_value = self.registers.get(*value).clone();
                let r = ArrayOps::set(
                    self.registers.get(*array),
                    self.registers.get(*index),
                    new_value,
                );
                self.store(*array, r)
            },
            Instruction::ArrayLenR { dst, array } => {
                let r = ArrayOps::len(self.registers.get(*array));
                self.store(*dst, r)
            },
            Instruction::DebugPrint { src } => {
                let value = self.registers.get(*src).clone();
                self.show(value);
                Ok(None)
            },
            Instruction::BreakPoint => {
                if self.debug_mode {
                    self.output.push(OutputEvent::Breakpoint { pc: self.state.pc - 1 });
                    assert(self@.output =~= old(self)@.output.push(
                        OutputModel::Breakpoint { pc: (old(self).state.pc - 1) as usize },
                    ));
                }
                Ok(None)
            },
            Instruction::Halt => {
                self.state.halt();
                Ok(None)
            },
            Instruction::Nop => Ok(None),
        }
    }

    /// Executes one instruction: the one at the program counter; see [`step`].
    /// It yields a value only for a return that ends the program.
    pub fn step(&mut self) -> (res: Result<Option<Value>, RuntimeError>)
        requires
            old(self).wf(),
        ensures
            final(self).wf(),
            final(self).module == old(self).module,
            final(self).metadata == old(self).metadata,
            final(self).after(res) == step(old(self).program(), old(self)@),
    {
        if self.state.pending.is_some() {
            return Err(
                RuntimeError::InvalidOperation {
                    operation: "step".to_owned(),
                    detail: "a float request is pending".to_owned(),
                },
            );
        }
        let module = match &self.module {
            Some(loaded) => share(loaded),
            None => {
                self.state.halt();
                return Ok(None);
            },
        };
        let pc = self.state.pc;
        if pc >= module.instructions.len() {
            self.state.halt();
            return Ok(None);
        }
        if self.instruction_count == usize::MAX {
            return Err(RuntimeError::InstructionLimit);
        }
        if self.debug_mode {
            self.output.push(OutputEvent::Trace { pc });
            assert(self@.output =~= old(self)@.output.push(OutputModel::Trace { pc }));
        }
        self.state.pc = pc + 1;
        self.instruction_count = self.instruction_count + 1;
        self.execute_instruction(&*module, &module.instructions[pc])
    }

    /// The floating-point work that the machine waits for, if any.
    pub fn float_request(&self) -> (r: Option<&FloatRequest>)
        ensures
            match r {
                Some(request) => self@.state.pending is Some && self@.state.pending->0.request
                    == request@,
                None => self@.state.pending is None,
            },
    {
        match &self.state.pending {
            Some(pending) => Some(&pending.request),
            None => None,
        }
    }

    /// Hands the machine the host's answer to its float request; see
    /// [`resume`]. The waiting instruction completes or fails, and the
    /// machine waits no longer.
    pub fn resume(&mut self, reply: FloatReply) -> (res: Result<(), RuntimeError>)
        requires
            old(self).wf(),
        ensures
            final(self).wf(),
            final(self).module == old(self).module,
            final(self).metadata == old(self).metadata,
            final(self)@ == resume(old(self)@, reply@).machine,
            match res {
                Ok(_) => resume(old(self)@, reply@).result == Ok::<Option<ValueModel>, ErrorModel>(
                    None,
                ),
                Err(error) => resume(old(self)@, reply@).result == Err::<
                    Option<ValueModel>,
                    ErrorModel,
                >(error@),
            },
    {
        match self.state.pending.take() {
            Some(pending) => {
                match complete(&pending.request, reply) {
                    Ok(value) => {
                        self.registers.set(pending.target, value);
                        Ok(())
                    },
                    Err(error) => Err(error),
                }
            },
            None => Err(
                RuntimeError::InvalidOperation {
                    operation: "resume".to_owned(),
                    detail: "no float request is pending".to_owned(),
                },
            ),
        }
    }

    /// Whether the run loop would take another step; see [`can_step`].
    pub fn can_step(&self) -> (r: bool)
        ensures
            r == can_step(self.program(), self@),
    {
        match &self.module {
            Some(module) => self.state.running && self.state.pc < module.instructions.len()
                && self.state.pending.is_none(),
            None => false,
        }
    }

    /// Runs the machine until it halts, fails or waits for the host; see
    /// [`run_from`]. Without a module it fails with `ModuleNotLoaded` and
    /// changes nothing. Otherwise it yields the value of the return that
    /// ended the program, if one did during this run.
    pub fn run(&mut self) -> (res: Result<Option<Value>, RuntimeError>)
        requires
            old(self).wf(),
        ensures
            final(self).wf(),
            final(self).module == old(self).module,
            final(self).metadata == old(self).metadata,
            old(self).module is None ==> final(self)@ == old(self)@ && yielded(res) == Err::<
                Option<ValueModel>,
                ErrorModel,
            >(ErrorModel::ModuleNotLoaded),
            old(self).module is Some ==> final(self).after(res) == run_from(
                old(self).program(),
                old(self)@,
                None,
            ),
    {
        if self.module.is_none() {
            return Err(RuntimeError::ModuleNotLoaded);
        }
        let mut last_value: Option<Value> = None;
        while self.can_step()
            invariant
                self.wf(),
                self.module == old(self).module,
                self.metadata == old(self).metadata,
                self.module is Some,
                run_from(old(self).program(), old(self)@, None) == run_from(
                    self.program(),
                    self@,
                    yielded(Ok(last_value))->Ok_0,
                ),
            decreases usize::MAX - self.instruction_count,
        {
            proof {
                lemma_step_counts(self.program(), self@);
            }
            match self.step() {
                Ok(value) => {
                    if value.is_some() {
                        last_value = value;
                    }
                },
                Err(error) => {
                    return Err(error);
                },
            }
        }
        Ok(last_value)
    }

    /// Takes what the machine has to show, oldest first, and leaves it with
    /// nothing to show.
    pub fn take_output(&mut self) -> (events: Vec<OutputEvent>)
        ensures
            output_model(events@) == old(self)@.output,
            final(self)@ == (Machine { output: Seq::empty(), ..old(self)@ }),
            final(self).wf() == old(self).wf(),
            final(self).module == old(self).module,
            final(self).metadata == old(self).metadata,
    {
        let mut events: Vec<OutputEvent> = Vec::new();
        std::mem::swap(&mut self.output, &mut events);
        assert(self@.output =~= Seq::empty());
        events
    }

    /// The stack trace of the machine: first the current position, under the
    /// name `main`, then one entry for each frame of the call stack from the
    /// outermost, with the frame's return address under the name of its
    /// callee (`anonymous` where that is not known). No entry has a source
    /// location.
    pub fn build_stack_trace(&self) -> (trace: Vec<StackFrame>)
        ensures
            trace@.len() == self@.state.frames.len() + 1,
            trace@[0].function@ == "main"@,
            trace@[0].pc == self@.state.pc,
            forall|i: int|
                0 <= i < self@.state.frames.len() ==> (#[trigger] trace@[i + 1]).function@
                    == callee_name(self@.state.frames[i]) && trace@[i + 1].pc
                    == self@.state.frames[i].return_address,
            forall|i: int| 0 <= i < trace@.len() ==> (#[trigger] trace@[i]).source_location is None,
    {
        let mut trace: Vec<StackFrame> = Vec::new();
        trace.push(
            StackFrame { function: "main".to_owned(), pc: self.state.pc, source_location: None },
        );
        let mut k: usize = 0;
        while k < self.state.call_stack.len()
            invariant
                k <= self.state.call_stack.len(),
                trace@.len() == k + 1,
                trace@[0].function@ == "main"@,
                trace@[0].pc == self@.state.pc,
                forall|i: int|
                    0 <= i < k ==> (#[trigger] trace@[i + 1]).function@ == callee_name(
                        self@.state.frames[i],
                    ) && trace@[i + 1].pc == self@.state.frames[i].return_address,
                forall|i: int|
                    0 <= i < trace@.len() ==> (#[trigger] trace@[i]).source_location is None,
            decreases self.state.call_stack.len() - k,
        {
            let frame = &self.state.call_stack[k];
            let function = match &frame.function {
                Some(f) => f.name.clone(),
                None => "anonymous".to_owned(),
            };
            trace.push(StackFrame { function, pc: frame.return_address, source_location: None });
            k += 1;
        }
        trace
    }
}

impl Default for VM {
    fn default() -> (vm: VM)
        ensures
            vm.wf(),
            vm@ == fresh_machine(Seq::empty(), 0, false),
    {
        VM::new()
    }
}

} // verus!
