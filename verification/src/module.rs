//! A module as a whole: the address block, the module block and the
//! declarations in it.

use vstd::prelude::*;
use vstd::string::*;
use crate::errors::DisasmError;
use crate::file_format::{AccountAddress, CompiledModule, ModuleId};
use crate::generics::Generics;
use crate::imports::{ImportRecord, Imports};
use crate::structs::{decoded_struct_reads_as_definition, def_ok, def_text, StructDef};
use crate::text::{hex, push_hex};
use crate::{Encode, INDENT};

verus! {

/// The first `n` declarations of a module body: each on lines of its
/// own, with one empty line between each two.
pub open spec fn decls_text(decls: Seq<Seq<char>>, n: nat) -> Seq<char>
    decreases n,
{
    if n == 0 {
        Seq::empty()
    } else {
        decls_text(decls, (n - 1) as nat) + if n == 1 {
            Seq::empty()
        } else {
            "\n"@
        } + decls[n - 1] + "\n"@
    }
}

/// A module as it is written: the address block where there is an
/// address, in it the module block, in that the declarations.
pub open spec fn block_text(address: Option<Seq<u8>>, name: Seq<char>, decls: Seq<Seq<char>>) -> Seq<
    char,
> {
    let body = "module "@ + name + " {\n"@ + decls_text(decls, decls.len()) + "}\n"@;
    match address {
        Some(a) => "address 0x"@ + hex(a) + " {\n"@ + body + "}\n"@,
        None => body,
    }
}

/// Every struct definition of the module resolves.
pub open spec fn defs_ok(m: &CompiledModule) -> bool {
    forall|d: int| 0 <= d < m.struct_defs@.len() ==> def_ok(m, &(#[trigger] m.struct_defs@[d]))
}

/// The declarations of the module's struct definitions, in the order of
/// the table, each one level in.
pub open spec fn def_texts(m: &CompiledModule, recs: Seq<ImportRecord>, stem: Seq<char>) -> Seq<
    Seq<char>,
> {
    Seq::new(
        m.struct_defs@.len(),
        |d: int| def_text(m, recs, stem, &m.struct_defs@[d], INDENT as nat),
    )
}

/// The texts of decoded declarations, each one level in.
pub open spec fn struct_texts(structs: Seq<StructDef>) -> Seq<Seq<char>> {
    Seq::new(structs.len(), |d: int| structs[d].text(INDENT))
}

/// A module that is the tables `m` decoded is written as the tables
/// are.
pub proof fn decoded_module_reads_as_tables(
    md: &Module,
    id: &ModuleId,
    m: &CompiledModule,
    recs: Seq<ImportRecord>,
    generics: Generics,
)
    requires
        md.decodes(id, m, recs, generics),
    ensures
        md.text(0) == block_text(
            Some(id.address@),
            id.name@,
            def_texts(m, recs, generics.0.stem()),
        ),
{
    assert forall|d: int| 0 <= d < m.struct_defs@.len() implies (#[trigger] md.structs@[d]).text(
        INDENT,
    ) == def_text(m, recs, generics.0.stem(), &m.struct_defs@[d], INDENT as nat) by {
        decoded_struct_reads_as_definition(
            &md.structs@[d],
            m,
            recs,
            generics,
            &m.struct_defs@[d],
            INDENT,
        );
    }
    assert(struct_texts(md.structs@) =~= def_texts(m, recs, generics.0.stem()));
}

/// A decoded module.
#[derive(Debug)]
pub struct Module {
    pub address: Option<AccountAddress>,
    pub name: String,
    pub structs: Vec<StructDef>,
}

impl Module {
    /// The bytes of the address, where there is one.
    pub open spec fn address_bytes(&self) -> Option<Seq<u8>> {
        match self.address {
            Some(a) => Some(a@),
            None => None,
        }
    }

    /// The module is `m` decoded under the identity `id`: its address and
    /// name are those of `id`, and its declarations are the struct
    /// definitions of `m`, decoded in the order of the table.
    pub open spec fn decodes(
        &self,
        id: &ModuleId,
        m: &CompiledModule,
        recs: Seq<ImportRecord>,
        generics: Generics,
    ) -> bool {
        &&& self.address_bytes() == Some(id.address@)
        &&& self.name@ == id.name@
        &&& self.structs@.len() == m.struct_defs@.len()
        &&& forall|d: int|
            0 <= d < m.struct_defs@.len() ==> (#[trigger] self.structs@[d]).decodes(
                m,
                recs,
                generics,
                &m.struct_defs@[d],
            )
    }

    /// Decodes every struct definition of `module`, in the order of the
    /// table.
    pub fn new(id: &ModuleId, module: &CompiledModule, imports: &Imports, generics: &Generics) -> (r:
        Result<Module, DisasmError>)
        ensures
            r is Ok <==> defs_ok(module),
            r matches Err(e) ==> e == DisasmError::StructuralIndex,
            r matches Ok(md) ==> md.decodes(id, module, imports@, *generics),
            r matches Ok(md) ==> md.text(0) == block_text(
                Some(id.address@),
                id.name@,
                def_texts(module, imports@, generics.0.stem()),
            ),
    {
        let mut structs: Vec<StructDef> = Vec::new();
        let mut d: usize = 0;
        while d < module.struct_defs.len()
            invariant
                d <= module.struct_defs@.len(),
                structs@.len() == d,
                forall|k: int| 0 <= k < d ==> def_ok(module, &(#[trigger] module.struct_defs@[k])),
                forall|k: int|
                    0 <= k < d ==> (#[trigger] structs@[k]).decodes(
                        module,
                        imports@,
                        *generics,
                        &module.struct_defs@[k],
                    ),
                forall|k: int|
                    0 <= k < d ==> (#[trigger] structs@[k]).text(INDENT) == def_text(
                        module,
                        imports@,
                        generics.0.stem(),
                        &module.struct_defs@[k],
                        INDENT as nat,
                    ),
            decreases module.struct_defs@.len() - d,
        {
            match StructDef::new(&module.struct_defs[d], module, generics, imports) {
                Err(e) => {
                    return Err(e);
                },
                Ok(s) => {
                    structs.push(s);
                },
            }
            d += 1;
        }
        assert(struct_texts(structs@) =~= def_texts(module, imports@, generics.0.stem()));
        Ok(Module { address: Some(id.address), name: id.name.clone(), structs })
    }
}

impl Encode for Module {
    open spec fn text(&self, indent: u8) -> Seq<char> {
        block_text(self.address_bytes(), self.name@, struct_texts(self.structs@))
    }

    fn encode(&self, w: &mut String, indent: u8) {
        let ghost decls = struct_texts(self.structs@);
        if let Some(address) = &self.address {
            w.append("address 0x");
            push_hex(w, address.bytes.as_slice());
            w.append(" {\n");
        }
        w.append("module ");
        w.append(self.name.as_str());
        w.append(" {\n");
        let ghost start = w@;
        let mut d: usize = 0;
        while d < self.structs.len()
            invariant
                d <= self.structs@.len(),
                decls == struct_texts(self.structs@),
                w@ == start + decls_text(decls, d as nat),
            decreases self.structs@.len() - d,
        {
            if d != 0 {
                w.append("\n");
            }
            self.structs[d].encode(w, INDENT);
            w.append("\n");
            d += 1;
        }
        w.append("}\n");
        if self.address.is_some() {
            w.append("}\n");
        }
    }
}

} // verus!
