//! The ways in which disassembly fails.

use vstd::prelude::*;

verus! {

/// Why a compiled unit could not be turned into text.
#[derive(Clone, Copy, Debug, PartialEq, Eq, Structural)]
pub enum DisasmError {
    /// A table index points outside the table it refers to.
    StructuralIndex,
    /// The unit is well formed but the textual grammar has no form for it.
    UnsupportedConstruct,
}

} // verus!
