//! Turns the tables of a compiled module back into source text: the
//! module's struct declarations, with their generic parameters named,
//! the modules they refer to written as import tokens, and every field
//! type written out. A module whose tables do not resolve has no text.

use vstd::prelude::*;
use vstd::string::*;
use crate::errors::DisasmError;
use crate::file_format::{self_address, self_name, self_ok, CompiledModule, ModuleId};
use crate::generics::{first_unused, stem_for, Generics};
use crate::imports::{handles_resolve, import_records, Imports};
use crate::module::{block_text, def_texts, defs_ok, Module};

pub mod errors;
pub mod file_format;
pub mod generics;
pub mod imports;
pub mod module;
pub mod resources;
pub mod structs;
pub mod text;

verus! {

/// Number of spaces that one nesting level adds in front of a line.
pub const INDENT: u8 = 4;

/// A value that has a textual form.
pub trait Encode {
    /// The text of the value, written `indent` spaces from the margin.
    spec fn text(&self, indent: u8) -> Seq<char>;

    /// Appends the text of the value to `w`.
    fn encode(&self, w: &mut String, indent: u8)
        ensures
            final(w)@ == old(w)@ + self.text(indent),
    ;
}

/// A transaction script. The textual grammar has no form for it.
#[derive(Debug)]
pub struct Script {}

/// A decoded code unit.
#[derive(Debug)]
pub enum Unit {
    Script(Script),
    Module(Module),
}

/// Every index that the module's text needs resolves: the module's own
/// handle, the other module handles, and the struct definitions.
pub open spec fn module_ok(m: &CompiledModule) -> bool {
    self_ok(m) && handles_resolve(m) && defs_ok(m)
}

/// The text of a module whose generic parameters are named from `stem`.
pub open spec fn module_text(m: &CompiledModule, stem: Seq<char>) -> Seq<char> {
    block_text(
        Some(self_address(m)),
        self_name(m),
        def_texts(m, import_records(m, m.module_handles@.len()), stem),
    )
}

/// What disassembling `m` may give: on a module that resolves, its text
/// under the stem that its identifier pool gets, with some number for
/// the made-up stem; on any other, the error and no text.
pub open spec fn is_disassembly(m: &CompiledModule, r: Result<Seq<char>, DisasmError>) -> bool {
    match r {
        Ok(s) => module_ok(m) && exists|n: u16|
            s == module_text(m, #[trigger] stem_for(m.identifiers@, n)),
        Err(e) => !module_ok(m) && e == DisasmError::StructuralIndex,
    }
}

/// Where the identifier pool leaves one of the letters unused, a module
/// has one disassembly: two runs on it give the same text, or both give
/// the same error.
pub proof fn disassembly_is_determined(
    m: &CompiledModule,
    first: Result<Seq<char>, DisasmError>,
    second: Result<Seq<char>, DisasmError>,
)
    requires
        first_unused(m.identifiers@, 0) is Some,
        is_disassembly(m, first),
        is_disassembly(m, second),
    ensures
        first == second,
{
}

/// A module that does not resolve has no text: its only disassembly is
/// the error.
pub proof fn unresolved_module_has_no_text(m: &CompiledModule, r: Result<Seq<char>, DisasmError>)
    requires
        !module_ok(m),
        is_disassembly(m, r),
    ensures
        r == Err::<Seq<char>, DisasmError>(DisasmError::StructuralIndex),
{
}

impl Unit {
    /// Decodes the unit that `module` holds.
    pub fn new(id: &ModuleId, module: &CompiledModule, imports: &Imports, generics: &Generics) -> (r:
        Result<Unit, DisasmError>)
        ensures
            r is Ok <==> defs_ok(module),
            r matches Err(e) ==> e == DisasmError::StructuralIndex,
            r matches Ok(u) ==> u matches Unit::Module(md) && md.decodes(
                id,
                module,
                imports@,
                *generics,
            ) && md.text(0) == block_text(
                Some(id.address@),
                id.name@,
                def_texts(module, imports@, generics.0.stem()),
            ),
    {
        match Module::new(id, module, imports, generics) {
            Ok(md) => Ok(Unit::Module(md)),
            Err(e) => Err(e),
        }
    }

    /// Appends the unit's text to `writer`. A script is refused, and
    /// `writer` is left as it was.
    pub fn write_code(&self, writer: &mut String) -> (r: Result<(), DisasmError>)
        ensures
            match self {
                Unit::Module(md) => r is Ok && final(writer)@ == old(writer)@ + md.text(0),
                Unit::Script(_) => r == Err::<(), DisasmError>(DisasmError::UnsupportedConstruct)
                    && final(writer)@ == old(writer)@,
            },
    {
        match self {
            Unit::Script(_) => Err(DisasmError::UnsupportedConstruct),
            Unit::Module(md) => {
                md.encode(writer, 0);
                Ok(())
            },
        }
    }

    /// The unit's text.
    pub fn code_string(&self) -> (r: Result<String, DisasmError>)
        ensures
            match self {
                Unit::Module(md) => r matches Ok(s) && s@ == md.text(0),
                Unit::Script(_) => r matches Err(e) && e == DisasmError::UnsupportedConstruct,
            },
    {
        let mut code = String::new();
        match self.write_code(&mut code) {
            Ok(()) => Ok(code),
            Err(e) => Err(e),
        }
    }
}

/// Appends the text of `module` to `writer`, with the generic names that
/// `generics` gives. On an error `writer` is left as it was.
pub fn disasm_with(module: &CompiledModule, generics: &Generics, writer: &mut String) -> (r: Result<
    (),
    DisasmError,
>)
    ensures
        r is Ok <==> module_ok(module),
        r is Ok ==> final(writer)@ == old(writer)@ + module_text(module, generics.0.stem()),
        r matches Err(e) ==> e == DisasmError::StructuralIndex && final(writer)@ == old(writer)@,
{
    let id = match module.self_id() {
        Ok(id) => id,
        Err(e) => {
            return Err(e);
        },
    };
    let imports = match Imports::new(module) {
        Ok(imports) => imports,
        Err(e) => {
            return Err(e);
        },
    };
    let unit = match Unit::new(&id, module, &imports, generics) {
        Ok(unit) => unit,
        Err(e) => {
            return Err(e);
        },
    };
    unit.write_code(writer)
}

/// Appends the text of `module` to `writer`. On an error `writer` is
/// left as it was.
pub fn disasm(module: &CompiledModule, writer: &mut String) -> (r: Result<(), DisasmError>)
    ensures
        r is Ok <==> module_ok(module),
        r is Ok ==> exists|n: u16|
            final(writer)@ == old(writer)@ + module_text(
                module,
                #[trigger] stem_for(module.identifiers@, n),
            ),
        r matches Err(e) ==> e == DisasmError::StructuralIndex && final(writer)@ == old(writer)@,
{
    let generics = Generics::new(module);
    let r = disasm_with(module, &generics, writer);
    proof {
        if r is Ok {
            let n = choose|n: u16| generics.0.stem() == stem_for(module.identifiers@, n);
            assert(writer@ == old(writer)@ + module_text(module, stem_for(module.identifiers@, n)));
        }
    }
    r
}

/// The text of `module`.
pub fn disasm_str(module: &CompiledModule) -> (r: Result<String, DisasmError>)
    ensures
        is_disassembly(
            module,
            match r {
                Ok(s) => Ok(s@),
                Err(e) => Err(e),
            },
        ),
{
    let mut code = String::new();
    match disasm(module, &mut code) {
        Ok(()) => Ok(code),
        Err(e) => Err(e),
    }
}

} // verus!
