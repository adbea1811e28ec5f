//! The in-memory form of a program and the check of a program file's header.

use crate::constants::ConstantPool;
use crate::errors::LoadError;
use crate::instructions::Instruction;
use crate::names::NameTable;
use crate::values::ValueModel;
use vstd::prelude::*;

verus! {

/// The least number of bytes of a program file: the length of its header.
pub const HEADER_LENGTH: usize = 24;

/// The four bytes that a program file begins with: `MDBC`.
pub open spec fn magic() -> Seq<u8> {
    seq![0x4d, 0x44, 0x42, 0x43]
}

/// Whether `data` begins with the magic signature.
pub open spec fn has_magic(data: Seq<u8>) -> bool {
    data.len() >= 4 && data.subrange(0, 4) == magic()
}

/// A loaded program. It is not changed once it is loaded.
#[derive(Debug)]
pub struct BytecodeModule {
    /// The name of the module.
    pub name: String,
    /// The version of the file format.
    pub version: u32,
    /// The flags of the file.
    pub flags: u32,
    /// The constants that instructions refer to by index.
    pub constants: ConstantPool,
    /// The instructions, by offset.
    pub instructions: Vec<Instruction>,
    /// The entry offset of each function, by name.
    pub function_table: NameTable<usize>,
    /// The names of the declared globals, in order.
    pub global_names: Vec<String>,
}

/// What execution reads of a module: instructions, constants and functions.
pub struct ProgramModel {
    pub instructions: Seq<Instruction>,
    pub constants: Seq<ValueModel>,
    pub functions: Seq<(Seq<char>, usize)>,
}

impl View for BytecodeModule {
    type V = ProgramModel;

    open spec fn view(&self) -> ProgramModel {
        ProgramModel {
            instructions: self.instructions@,
            constants: self.constants@,
            functions: self.function_table@,
        }
    }
}

impl BytecodeModule {
    /// Whether the module is the one that a bare header describes: named
    /// `main`, of version 1, without flags, and empty.
    pub open spec fn is_bare(&self) -> bool {
        &&& self.name@ == "main"@
        &&& self.version == 1
        &&& self.flags == 0
        &&& self.constants@.len() == 0
        &&& self.instructions@.len() == 0
        &&& self.function_table@.len() == 0
        &&& self.global_names@.len() == 0
    }

    /// An empty module of the given name, of version 1 and without flags.
    pub fn new(name: String) -> (module: BytecodeModule)
        ensures
            module.name == name,
            module.version == 1,
            module.flags == 0,
            module@.constants.len() == 0,
            module@.instructions.len() == 0,
            module@.functions.len() == 0,
            module.global_names@.len() == 0,
    {
        BytecodeModule {
            name,
            version: 1,
            flags: 0,
            constants: ConstantPool::new(),
            instructions: Vec::new(),
            function_table: NameTable::new(),
            global_names: Vec::new(),
        }
    }
}

/// The bytes of a metadata file. The machine carries them and reads nothing
/// in them.
#[derive(Debug, PartialEq, Eq)]
pub struct MetadataFile {
    pub data: Vec<u8>,
}

impl MetadataFile {
    /// Reads a metadata file. The metadata has no layout of its own: every
    /// file is accepted and kept byte for byte.
    pub fn parse(data: &[u8]) -> (r: Result<MetadataFile, LoadError>)
        ensures
            r is Ok,
            r->Ok_0.data@ == data@,
    {
        let mut copy: Vec<u8> = Vec::new();
        let mut i: usize = 0;
        while i < data.len()
            invariant
                i <= data.len(),
                copy@ == data@.take(i as int),
            decreases data.len() - i,
        {
            copy.push(data[i]);
            i += 1;
        }
        Ok(MetadataFile { data: copy })
    }
}

/// Loader of program files.
pub struct BytecodeLoader;

impl BytecodeLoader {
    /// Checks the header of a program file and gives the module it describes.
    ///
    /// A file shorter than the header is `InvalidFormat`, whatever it begins
    /// with. A file of sufficient length that does not begin with the magic
    /// signature is `InvalidMagic`. Nothing after the signature is read: every
    /// other file gives the bare module.
    pub fn parse_bytecode(data: &[u8]) -> (r: Result<BytecodeModule, LoadError>)
        ensures
            data@.len() < HEADER_LENGTH <==> r is Err && r->Err_0 is InvalidFormat,
            data@.len() >= HEADER_LENGTH && !has_magic(data@) <==> r is Err && r->Err_0
                is InvalidMagic,
            data@.len() >= HEADER_LENGTH && has_magic(data@) <==> r is Ok,
            r is Ok ==> r->Ok_0.is_bare(),
    {
        if data.len() < HEADER_LENGTH {
            return Err(LoadError::InvalidFormat);
        }
        if data[0] != 0x4d || data[1] != 0x44 || data[2] != 0x42 || data[3] != 0x43 {
            return Err(LoadError::InvalidMagic);
        }
        assert(data@.subrange(0, 4) =~= magic());
        Ok(BytecodeModule::new("main".to_owned()))
    }
}

} // verus!
