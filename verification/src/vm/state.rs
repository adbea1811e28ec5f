//! The state of a machine besides its registers: program counter, call
//! stack, globals, scopes and the marks that control flow leaves behind.

use crate::errors::{outcome, ErrorModel, RuntimeError};
use crate::names::NameTable;
use crate::runtime::float_unit::{FloatRequest, RequestModel};
use crate::values::{FunctionRef, Value, ValueModel};
use crate::vm::registers::snapshot_model;
use vstd::prelude::*;

verus! {

/// Bound on the depth of the call stack.
pub const MAX_CALL_DEPTH: usize = 1024;

/// What a call saves for its return.
#[derive(Debug)]
pub struct CallFrame {
    /// The program counter to resume at.
    pub return_address: usize,
    /// The caller's frame pointer.
    pub saved_fp: usize,
    /// The prior contents of exactly the registers that argument binding
    /// overwrote, in the order in which it overwrote them.
    pub saved_registers: Vec<(u8, Value)>,
    /// The callee, where it is known.
    pub function: Option<FunctionRef>,
    /// The caller's register that receives the returned value.
    pub result_register: u8,
}

/// The mathematical content of a [`CallFrame`].
pub struct FrameModel {
    pub return_address: usize,
    pub saved_fp: usize,
    pub saved: Seq<(u8, ValueModel)>,
    pub function: Option<(Seq<char>, usize)>,
    pub result_register: u8,
}

impl View for CallFrame {
    type V = FrameModel;

    open spec fn view(&self) -> FrameModel {
        FrameModel {
            return_address: self.return_address,
            saved_fp: self.saved_fp,
            saved: snapshot_model(self.saved_registers@),
            function: match self.function {
                Some(f) => Some((f.name@, f.entry)),
                None => None,
            },
            result_register: self.result_register,
        }
    }
}

impl CallFrame {
    /// A frame that saves no register yet and names no callee.
    pub fn new(return_address: usize, saved_fp: usize, result_register: u8) -> (frame: CallFrame)
        ensures
            frame@ == (FrameModel {
                return_address,
                saved_fp,
                saved: Seq::empty(),
                function: None,
                result_register,
            }),
    {
        let frame = CallFrame {
            return_address,
            saved_fp,
            saved_registers: Vec::new(),
            function: None,
            result_register,
        };
        assert(frame@.saved =~= Seq::empty());
        frame
    }
}

/// An instruction that waits for the host's floating-point unit: the work
/// asked for, and the register that the answer goes to.
#[derive(Debug)]
pub struct PendingFloat {
    pub request: FloatRequest,
    pub target: u8,
}

/// The mathematical content of a [`PendingFloat`].
pub struct PendingModel {
    pub request: RequestModel,
    pub target: u8,
}

impl View for PendingFloat {
    type V = PendingModel;

    open spec fn view(&self) -> PendingModel {
        PendingModel { request: self.request@, target: self.target }
    }
}

/// The state of a machine besides its registers.
#[derive(Debug)]
pub struct VMState {
    /// Index of the next instruction to execute.
    pub pc: usize,
    /// The frame pointer, saved and restored across calls.
    pub fp: usize,
    /// The frames of the calls that have not returned, innermost last.
    pub call_stack: Vec<CallFrame>,
    /// The globals, by name.
    pub globals: NameTable<Value>,
    /// The scopes entered and not left, innermost last.
    pub scopes: Vec<u16>,
    /// The program counter of the last jump taken.
    pub predecessor_block: Option<usize>,
    /// Whether the machine has not halted.
    pub running: bool,
    /// The floating-point work that the machine waits for, if any.
    pub pending: Option<PendingFloat>,
}

/// The mathematical content of a [`VMState`].
pub struct StateModel {
    pub pc: usize,
    pub fp: usize,
    pub frames: Seq<FrameModel>,
    pub globals: Seq<(Seq<char>, ValueModel)>,
    pub scopes: Seq<u16>,
    pub predecessor: Option<usize>,
    pub running: bool,
    pub pending: Option<PendingModel>,
}

/// The contents of a call stack.
pub open spec fn frames_model(frames: Seq<CallFrame>) -> Seq<FrameModel> {
    Seq::new(frames.len(), |i: int| frames[i]@)
}

/// The state of a machine that has just been reset: at instruction 0, with
/// nothing on the call stack, no globals, no scopes, and running.
pub open spec fn initial_state() -> StateModel {
    StateModel {
        pc: 0,
        fp: 0,
        frames: Seq::empty(),
        globals: Seq::empty(),
        scopes: Seq::empty(),
        predecessor: None,
        running: true,
        pending: None,
    }
}

/// The scopes after leaving `scope_id`: the innermost scope is dropped if it
/// is that scope, and nothing changes otherwise.
pub open spec fn scopes_after_exit(scopes: Seq<u16>, scope_id: u16) -> Seq<u16> {
    if scopes.len() > 0 && scopes.last() == scope_id {
        scopes.drop_last()
    } else {
        scopes
    }
}

impl View for VMState {
    type V = StateModel;

    open spec fn view(&self) -> StateModel {
        StateModel {
            pc: self.pc,
            fp: self.fp,
            frames: frames_model(self.call_stack@),
            globals: self.globals@,
            scopes: self.scopes@,
            predecessor: self.predecessor_block,
            running: self.running,
            pending: match self.pending {
                Some(p) => Some(p@),
                None => None,
            },
        }
    }
}

impl VMState {
    /// The state of a machine that has not run yet.
    pub fn new() -> (state: VMState)
        ensures
            state@ == initial_state(),
    {
        let state = VMState {
            pc: 0,
            fp: 0,
            call_stack: Vec::new(),
            globals: NameTable::new(),
            scopes: Vec::new(),
            predecessor_block: None,
            running: true,
            pending: None,
        };
        assert(state@.frames =~= Seq::empty());
        state
    }

    /// Puts the state back to [`initial_state`].
    pub fn reset(&mut self)
        ensures
            final(self)@ == initial_state(),
    {
        *self = VMState::new();
    }

    /// Whether the machine has not halted.
    pub fn is_running(&self) -> (r: bool)
        ensures
            r == self@.running,
    {
        self.running
    }

    /// Halts the machine; nothing else changes.
    pub fn halt(&mut self)
        ensures
            final(self)@ == (StateModel { running: false, ..old(self)@ }),
    {
        self.running = false;
    }

    /// Pushes a frame, or fails with `StackOverflow` and changes nothing when
    /// the call stack already holds `MAX_CALL_DEPTH` frames.
    pub fn push_frame(&mut self, frame: CallFrame) -> (r: Result<(), RuntimeError>)
        ensures
            old(self)@.frames.len() < MAX_CALL_DEPTH ==> r is Ok && final(self)@ == (StateModel {
                frames: old(self)@.frames.push(frame@),
                ..old(self)@
            }),
            old(self)@.frames.len() >= MAX_CALL_DEPTH ==> outcome(r) == Err::<(), ErrorModel>(
                ErrorModel::StackOverflow,
            ) && final(self)@ == old(self)@,
    {
        if self.call_stack.len() >= MAX_CALL_DEPTH {
            Err(RuntimeError::StackOverflow)
        } else {
            self.call_stack.push(frame);
            assert(self@.frames =~= old(self)@.frames.push(frame@));
            Ok(())
        }
    }

    /// Pops the innermost frame, if there is one.
    pub fn pop_frame(&mut self) -> (r: Option<CallFrame>)
        ensures
            match r {
                Some(frame) => old(self)@.frames.len() > 0 && frame@ == old(self)@.frames.last()
                    && final(self)@ == (StateModel {
                    frames: old(self)@.frames.drop_last(),
                    ..old(self)@
                }),
                None => old(self)@.frames.len() == 0 && final(self)@ == old(self)@,
            },
    {
        let r = self.call_stack.pop();
        proof {
            if r is Some {
                assert(self@.frames =~= old(self)@.frames.drop_last());
            }
        }
        r
    }

    /// Enters a scope.
    pub fn enter_scope(&mut self, scope_id: u16)
        ensures
            final(self)@ == (StateModel {
                scopes: old(self)@.scopes.push(scope_id),
                ..old(self)@
            }),
    {
        self.scopes.push(scope_id);
    }

    /// Leaves a scope; see [`scopes_after_exit`].
    pub fn exit_scope(&mut self, scope_id: u16)
        ensures
            final(self)@ == (StateModel {
                scopes: scopes_after_exit(old(self)@.scopes, scope_id),
                ..old(self)@
            }),
    {
        let n = self.scopes.len();
        if n > 0 && self.scopes[n - 1] == scope_id {
            self.scopes.pop();
        }
    }
}

impl Default for VMState {
    fn default() -> (state: VMState)
        ensures
            state@ == initial_state(),
    {
        VMState::new()
    }
}

} // verus!
