//! The tables of a compiled module, as the disassembler reads them.

use vstd::prelude::*;
use crate::errors::DisasmError;

verus! {

/// Number of bytes in an account address.
pub const ADDRESS_LENGTH: usize = 20;

/// A fixed-width account address.
#[derive(Clone, Copy, Debug)]
pub struct AccountAddress {
    pub bytes: [u8; ADDRESS_LENGTH],
}

impl View for AccountAddress {
    type V = Seq<u8>;

    open spec fn view(&self) -> Seq<u8> {
        self.bytes@
    }
}

impl AccountAddress {
    pub fn new(bytes: [u8; ADDRESS_LENGTH]) -> (r: AccountAddress)
        ensures
            r@ == bytes@,
    {
        AccountAddress { bytes }
    }

    /// Byte-wise comparison of two addresses.
    pub fn same_as(&self, other: &AccountAddress) -> (r: bool)
        ensures
            r == (self@ == other@),
    {
        let mut i: usize = 0;
        while i < ADDRESS_LENGTH
            invariant
                i <= ADDRESS_LENGTH,
                forall|k: int| 0 <= k < i ==> self.bytes@[k] == other.bytes@[k],
            decreases ADDRESS_LENGTH - i,
        {
            if self.bytes[i] != other.bytes[i] {
                return false;
            }
            i += 1;
        }
        assert(self@ =~= other@);
        true
    }
}

/// What may be put in the place of a generic parameter.
#[derive(Clone, Copy, Debug, PartialEq, Eq, Structural)]
pub enum Kind {
    /// Any type.
    All,
    /// Only resource types.
    Resource,
    /// Only copyable types.
    Copyable,
}

/// A reference to a module: its name in the identifier pool and its
/// address in the address pool.
#[derive(Clone, Copy, Debug)]
pub struct ModuleHandle {
    pub address: u16,
    pub name: u16,
}

/// A reference to a struct: the module that owns it, its name, and what
/// its declaration says about it.
#[derive(Clone, Debug)]
pub struct StructHandle {
    pub module: u16,
    pub name: u16,
    pub is_nominal_resource: bool,
    pub type_parameters: Vec<Kind>,
}

/// A type as the binary format writes it.
#[derive(Debug)]
pub enum SignatureToken {
    Bool,
    U8,
    U64,
    U128,
    Address,
    Signer,
    Vector(Box<SignatureToken>),
    /// A struct without type arguments, by its index in the struct handles.
    Struct(u16),
    /// A struct with type arguments.
    StructInstantiation(u16, Vec<SignatureToken>),
    Reference(Box<SignatureToken>),
    MutableReference(Box<SignatureToken>),
    /// A generic parameter of the enclosing struct, by position.
    TypeParameter(u16),
}

/// One declared field: its name in the identifier pool and its type.
#[derive(Debug)]
pub struct FieldDefinition {
    pub name: u16,
    pub signature: SignatureToken,
}

/// The layout of a struct.
#[derive(Debug)]
pub enum StructFieldInformation {
    Native,
    Declared(Vec<FieldDefinition>),
}

/// A struct definition: the handle it defines and its layout.
#[derive(Debug)]
pub struct StructDefinition {
    pub struct_handle: u16,
    pub field_information: StructFieldInformation,
}

/// The tables of one compiled module.
#[derive(Debug)]
pub struct CompiledModule {
    pub identifiers: Vec<String>,
    pub address_identifiers: Vec<AccountAddress>,
    pub module_handles: Vec<ModuleHandle>,
    pub struct_handles: Vec<StructHandle>,
    pub struct_defs: Vec<StructDefinition>,
    /// Which module handle stands for the module itself.
    pub self_module_handle_idx: u16,
}

/// The address and the name of a module.
#[derive(Debug)]
pub struct ModuleId {
    pub address: AccountAddress,
    pub name: String,
}

/// The module's own handle, and the name and the address it points to,
/// resolve.
pub open spec fn self_ok(m: &CompiledModule) -> bool {
    &&& (m.self_module_handle_idx as int) < m.module_handles@.len()
    &&& (m.module_handles@[m.self_module_handle_idx as int].name as int) < m.identifiers@.len()
    &&& (m.module_handles@[m.self_module_handle_idx as int].address as int)
        < m.address_identifiers@.len()
}

/// The module's own name.
pub open spec fn self_name(m: &CompiledModule) -> Seq<char> {
    m.identifiers@[m.module_handles@[m.self_module_handle_idx as int].name as int]@
}

/// The module's own address.
pub open spec fn self_address(m: &CompiledModule) -> Seq<u8> {
    m.address_identifiers@[m.module_handles@[m.self_module_handle_idx as int].address as int]@
}

impl CompiledModule {
    /// The address and the name under which the module is published.
    pub fn self_id(&self) -> (r: Result<ModuleId, DisasmError>)
        ensures
            r is Ok <==> self_ok(self),
            r matches Err(e) ==> e == DisasmError::StructuralIndex,
            r matches Ok(id) ==> id.address@ == self_address(self) && id.name@ == self_name(self),
    {
        if self.self_module_handle_idx as usize >= self.module_handles.len() {
            return Err(DisasmError::StructuralIndex);
        }
        let h = self.module_handles[self.self_module_handle_idx as usize];
        if h.name as usize >= self.identifiers.len() || h.address as usize
            >= self.address_identifiers.len() {
            return Err(DisasmError::StructuralIndex);
        }
        Ok(
            ModuleId {
                address: self.address_identifiers[h.address as usize],
                name: self.identifiers[h.name as usize].clone(),
            },
        )
    }
}

} // verus!
