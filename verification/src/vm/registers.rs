//! The register file: a fixed number of value slots, each with a declared type.

use crate::values::{Type, Value, ValueModel, MAX_REGISTERS};
use vstd::prelude::*;

verus! {

/// The registers after replaying a snapshot of `(register, value)` pairs in
/// order: each pair writes its value into its register.
pub open spec fn restored(registers: Seq<ValueModel>, saved: Seq<(u8, ValueModel)>) -> Seq<
    ValueModel,
>
    decreases saved.len(),
{
    if saved.len() == 0 {
        registers
    } else {
        restored(registers, saved.drop_last()).update(saved.last().0 as int, saved.last().1)
    }
}

/// Replaying a snapshot keeps the number of registers.
pub proof fn lemma_restored_len(registers: Seq<ValueModel>, saved: Seq<(u8, ValueModel)>)
    requires
        registers.len() == MAX_REGISTERS,
    ensures
        restored(registers, saved).len() == registers.len(),
    decreases saved.len(),
{
    if saved.len() > 0 {
        lemma_restored_len(registers, saved.drop_last());
    }
}

/// The register file of a machine.
#[derive(Debug)]
pub struct RegisterFile {
    values: Vec<Value>,
    types: Vec<Type>,
}

impl View for RegisterFile {
    type V = Seq<ValueModel>;

    /// The values of the registers, by index.
    closed spec fn view(&self) -> Seq<ValueModel> {
        Seq::new(self.values@.len(), |i: int| self.values@[i]@)
    }
}

impl RegisterFile {
    /// The declared types of the registers, by index.
    pub closed spec fn declared(&self) -> Seq<Type> {
        self.types@
    }

    /// Whether the file has its full number of registers.
    pub closed spec fn wf(&self) -> bool {
        self.values@.len() == MAX_REGISTERS && self.types@.len() == MAX_REGISTERS
    }

    /// A well-formed file has `MAX_REGISTERS` values and declared types.
    pub proof fn lemma_wf(&self)
        requires
            self.wf(),
        ensures
            self@.len() == MAX_REGISTERS,
            self.declared().len() == MAX_REGISTERS,
    {
    }

    /// A file whose registers all hold `Empty`, with no type declared.
    pub fn new() -> (file: RegisterFile)
        ensures
            file.wf(),
            file@ == Seq::new(MAX_REGISTERS as nat, |i: int| ValueModel::Empty),
            file.declared() == Seq::new(MAX_REGISTERS as nat, |i: int| Type::Unknown),
    {
        let mut values: Vec<Value> = Vec::new();
        let mut types: Vec<Type> = Vec::new();
        let mut i: usize = 0;
        while i < MAX_REGISTERS
            invariant
                i <= MAX_REGISTERS,
                values@.len() == i,
                types@.len() == i,
                forall|k: int| 0 <= k < i ==> values@[k] == Value::Empty,
                forall|k: int| 0 <= k < i ==> types@[k] == Type::Unknown,
            decreases MAX_REGISTERS - i,
        {
            values.push(Value::Empty);
            types.push(Type::Unknown);
            i += 1;
        }
        let file = RegisterFile { values, types };
        file
    }

    /// Whether the file has its full number of registers. Every file that
    /// this module hands out has.
    pub fn is_whole(&self) -> (whole: bool)
        ensures
            whole == self.wf(),
    {
        self.values.len() == MAX_REGISTERS && self.types.len() == MAX_REGISTERS
    }

    /// The value in register `index`.
    pub fn get(&self, index: u8) -> (v: &Value)
        requires
            self.wf(),
        ensures
            v@ == self@[index as int],
    {
        &self.values[index as usize]
    }

    /// Writes `value` into register `index`; no other register changes.
    pub fn set(&mut self, index: u8, value: Value)
        requires
            old(self).wf(),
        ensures
            final(self).wf(),
            final(self)@ == old(self)@.update(index as int, value@),
            final(self).declared() == old(self).declared(),
    {
        self.values.set(index as usize, value);
    }

    /// The declared type of register `index`.
    pub fn get_type(&self, index: u8) -> (t: Type)
        requires
            self.wf(),
        ensures
            t == self.declared()[index as int],
    {
        self.types[index as usize]
    }

    /// Declares the type of register `index`; its value stays.
    pub fn set_type(&mut self, index: u8, value_type: Type)
        requires
            old(self).wf(),
        ensures
            final(self).wf(),
            final(self)@ == old(self)@,
            final(self).declared() == old(self).declared().update(index as int, value_type),
    {
        self.types.set(index as usize, value_type);
    }

    /// Resets every register to `Empty` with no type declared.
    pub fn clear(&mut self)
        ensures
            final(self).wf(),
            final(self)@ == Seq::new(MAX_REGISTERS as nat, |i: int| ValueModel::Empty),
            final(self).declared() == Seq::new(MAX_REGISTERS as nat, |i: int| Type::Unknown),
    {
        *self = RegisterFile::new();
    }

    /// Replays a snapshot: writes each saved value back into its register, in
    /// the order of the snapshot.
    pub fn restore_registers(&mut self, snapshot: &Vec<(u8, Value)>)
        requires
            old(self).wf(),
        ensures
            final(self).wf(),
            final(self)@ == restored(old(self)@, snapshot_model(snapshot@)),
            final(self).declared() == old(self).declared(),
    {
        let mut i: usize = 0;
        while i < snapshot.len()
            invariant
                i <= snapshot.len(),
                self.wf(),
                self@ == restored(old(self)@, snapshot_model(snapshot@).take(i as int)),
                self.declared() == old(self).declared(),
            decreases snapshot.len() - i,
        {
            let ghost prefix = snapshot_model(snapshot@).take(i + 1);
            assert(prefix.drop_last() =~= snapshot_model(snapshot@).take(i as int));
            self.set(snapshot[i].0, snapshot[i].1.clone());
            i += 1;
        }
        assert(snapshot_model(snapshot@).take(i as int) =~= snapshot_model(snapshot@));
    }
}

/// The content of a snapshot of registers.
pub open spec fn snapshot_model(snapshot: Seq<(u8, Value)>) -> Seq<(u8, ValueModel)> {
    Seq::new(snapshot.len(), |i: int| (snapshot[i].0, snapshot[i].1@))
}

impl Default for RegisterFile {
    fn default() -> (file: RegisterFile)
        ensures
            file.wf(),
    {
        RegisterFile::new()
    }
}

} // verus!
