use disassembler::errors::DisasmError;
use disassembler::file_format::{
    AccountAddress, CompiledModule, FieldDefinition, Kind, ModuleHandle, SignatureToken,
    StructDefinition, StructFieldInformation, StructHandle,
};
use disassembler::generics::{GenericPrefix, Generics};
use disassembler::imports::{ImportName, Imports};
use disassembler::structs::{FType, Field, FullStructName, StructDef};
use disassembler::{disasm, disasm_str, disasm_with, Encode, Script, Unit};

fn address(last: u8) -> AccountAddress {
    let mut bytes = [0u8; 20];
    bytes[19] = last;
    AccountAddress::new(bytes)
}

fn names(list: &[&str]) -> Vec<String> {
    list.iter().map(|s| s.to_string()).collect()
}

/// A module `M` at address 1 with nothing but its own handle.
fn empty_module() -> CompiledModule {
    CompiledModule {
        identifiers: names(&["M"]),
        address_identifiers: vec![address(1)],
        module_handles: vec![ModuleHandle { address: 0, name: 0 }],
        struct_handles: vec![],
        struct_defs: vec![],
        self_module_handle_idx: 0,
    }
}

fn handle(module: u16, name: u16, resource: bool, kinds: Vec<Kind>) -> StructHandle {
    StructHandle { module, name, is_nominal_resource: resource, type_parameters: kinds }
}

fn declared(handle: u16, fields: Vec<(u16, SignatureToken)>) -> StructDefinition {
    StructDefinition {
        struct_handle: handle,
        field_information: StructFieldInformation::Declared(
            fields.into_iter().map(|(name, signature)| FieldDefinition { name, signature }).collect(),
        ),
    }
}

fn native(handle: u16) -> StructDefinition {
    StructDefinition { struct_handle: handle, field_information: StructFieldInformation::Native }
}

fn text_of<T: Encode>(value: &T, indent: u8) -> String {
    let mut out = String::new();
    value.encode(&mut out, indent);
    out
}

const ADDRESS_ONE: &str = "0x0000000000000000000000000000000000000001";

#[test]
fn test_empty_module() {
    let text = disasm_str(&empty_module()).unwrap();
    assert_eq!(text, format!("address {} {{\nmodule M {{\n}}\n}}\n", ADDRESS_ONE));
}

#[test]
fn test_simple_struct() {
    let mut module = empty_module();
    module.identifiers = names(&["Coins", "Coin", "value"]);
    module.struct_handles = vec![handle(0, 1, true, vec![])];
    module.struct_defs = vec![declared(0, vec![(2, SignatureToken::U64)])];
    let text = disasm_str(&module).unwrap();
    assert_eq!(
        text,
        format!(
            "address {} {{\nmodule Coins {{\n    resource struct Coin {{\n        value: u64\n    }}\n}}\n}}\n",
            ADDRESS_ONE
        )
    );
}

#[test]
fn simple_resource_struct_at_the_margin() {
    let mut module = empty_module();
    module.identifiers = names(&["Coins", "Coin", "value"]);
    module.struct_handles = vec![handle(0, 1, true, vec![])];
    module.struct_defs = vec![declared(0, vec![(2, SignatureToken::U64)])];
    let imports = Imports::new(&module).unwrap();
    let generics = Generics::with_fallback(&module, 0);
    let decoded = StructDef::new(&module.struct_defs[0], &module, &generics, &imports).unwrap();
    assert_eq!(text_of(&decoded, 0), "resource struct Coin {\n    value: u64\n}");
}

#[test]
fn native_struct_has_no_field_block() {
    let mut module = empty_module();
    module.identifiers = names(&["M", "Name"]);
    module.struct_handles = vec![handle(0, 1, false, vec![])];
    module.struct_defs = vec![native(0)];
    let imports = Imports::new(&module).unwrap();
    let generics = Generics::with_fallback(&module, 0);
    let decoded = StructDef::new(&module.struct_defs[0], &module, &generics, &imports).unwrap();
    assert!(decoded.is_native);
    assert!(decoded.fields.is_empty());
    assert_eq!(text_of(&decoded, 0), "native struct Name;");
}

#[test]
fn native_wins_over_resource() {
    let mut module = empty_module();
    module.identifiers = names(&["M", "Name"]);
    module.struct_handles = vec![handle(0, 1, true, vec![Kind::Resource])];
    module.struct_defs = vec![native(0)];
    let imports = Imports::new(&module).unwrap();
    let generics = Generics::with_fallback(&module, 0);
    let decoded = StructDef::new(&module.struct_defs[0], &module, &generics, &imports).unwrap();
    assert_eq!(text_of(&decoded, 4), "    native struct Name<T: resource>;");
}

#[test]
fn empty_declared_struct_keeps_its_braces() {
    let mut module = empty_module();
    module.identifiers = names(&["M", "Empty"]);
    module.struct_handles = vec![handle(0, 1, false, vec![])];
    module.struct_defs = vec![declared(0, vec![])];
    let text = disasm_str(&module).unwrap();
    assert_eq!(
        text,
        format!("address {} {{\nmodule M {{\n    struct Empty {{\n    }}\n}}\n}}\n", ADDRESS_ONE)
    );
}

#[test]
fn generic_names_avoid_identifiers() {
    let mut module = empty_module();
    module.identifiers = names(&["M", "T", "Pair", "first", "second"]);
    module.struct_handles = vec![handle(0, 2, false, vec![Kind::All, Kind::Copyable])];
    module.struct_defs = vec![declared(
        0,
        vec![(3, SignatureToken::TypeParameter(0)), (4, SignatureToken::TypeParameter(1))],
    )];
    let generics = Generics::new(&module);
    assert!(matches!(generics.0, GenericPrefix::SimplePrefix("G")));
    let imports = Imports::new(&module).unwrap();
    let decoded = StructDef::new(&module.struct_defs[0], &module, &generics, &imports).unwrap();
    assert_eq!(decoded.type_params.len(), 2);
    assert_eq!(text_of(&decoded.type_params[0].as_name(), 0), "G");
    assert_eq!(text_of(&decoded.type_params[1].as_name(), 0), "G_1");
    assert_eq!(text_of(&decoded.type_params[1], 0), "G_1: copyable");
    assert_eq!(
        text_of(&decoded, 0),
        "struct Pair<G, G_1: copyable> {\n    first: G,\n    second: G_1\n}"
    );
}

#[test]
fn first_letter_is_taken_when_free() {
    let generics = Generics::new(&empty_module());
    assert!(matches!(generics.0, GenericPrefix::SimplePrefix("T")));
    assert_eq!(text_of(&generics, 0), "T");
}

fn crowded_module() -> CompiledModule {
    let mut module = empty_module();
    module.identifiers = names(&[
        "M", "T", "G", "V", "A", "B", "C", "D", "F", "H", "J", "K", "L", "N", "P", "Q", "R", "S",
        "W", "X", "Y", "Z", "Holder", "item",
    ]);
    module.struct_handles = vec![handle(0, 22, false, vec![Kind::Resource])];
    module.struct_defs = vec![declared(0, vec![(23, SignatureToken::TypeParameter(0))])];
    module
}

#[test]
fn made_up_stem_when_every_letter_is_taken() {
    let module = crowded_module();
    let generics = Generics::with_fallback(&module, 4711);
    assert!(matches!(generics.0, GenericPrefix::Generated(4711)));
    assert_eq!(text_of(&generics, 0), "TYPE_4711");
    let mut out = String::from("// ");
    disasm_with(&module, &generics, &mut out).unwrap();
    assert_eq!(
        out,
        format!(
            "// address {} {{\nmodule M {{\n    struct Holder<TYPE_4711: resource> {{\n        item: TYPE_4711\n    }}\n}}\n}}\n",
            ADDRESS_ONE
        )
    );
}

#[test]
fn random_stem_is_a_made_up_name() {
    let module = crowded_module();
    let generics = Generics::new(&module);
    match generics.0 {
        GenericPrefix::Generated(n) => {
            assert_eq!(text_of(&generics, 0), format!("TYPE_{}", n));
        }
        GenericPrefix::SimplePrefix(_) => panic!("every letter is taken"),
    }
    let text = disasm_str(&module).unwrap();
    assert!(text.contains("struct Holder<TYPE_"));
}

/// Module `M` at address 1 that refers to `Foo` at address 2 and to `Foo`
/// at address 3, and to a struct of its own.
fn importing_module() -> CompiledModule {
    CompiledModule {
        identifiers: names(&["M", "Foo", "X", "Y", "Own", "Box", "a", "b", "c", "d"]),
        address_identifiers: vec![address(1), address(2), address(3)],
        module_handles: vec![
            ModuleHandle { address: 0, name: 0 },
            ModuleHandle { address: 1, name: 1 },
            ModuleHandle { address: 2, name: 1 },
            ModuleHandle { address: 1, name: 1 },
        ],
        struct_handles: vec![
            handle(1, 2, false, vec![]),
            handle(2, 3, false, vec![]),
            handle(0, 4, false, vec![]),
            handle(0, 5, false, vec![Kind::All, Kind::All]),
            handle(3, 2, false, vec![]),
        ],
        struct_defs: vec![
            declared(2, vec![]),
            declared(
                3,
                vec![
                    (6, SignatureToken::Struct(0)),
                    (7, SignatureToken::Struct(1)),
                    (8, SignatureToken::Struct(2)),
                    (
                        9,
                        SignatureToken::Vector(Box::new(SignatureToken::StructInstantiation(
                            3,
                            vec![
                                SignatureToken::Reference(Box::new(SignatureToken::Struct(4))),
                                SignatureToken::MutableReference(Box::new(
                                    SignatureToken::TypeParameter(1),
                                )),
                            ],
                        ))),
                    ),
                ],
            ),
        ],
        self_module_handle_idx: 0,
    }
}

#[test]
fn second_address_of_a_name_gets_an_alias() {
    let module = importing_module();
    let imports = Imports::new(&module).unwrap();
    let first = imports.get_import(&address(2), "Foo").unwrap();
    assert!(matches!(&first, ImportName::Name(n) if n == "Foo"));
    let second = imports.get_import(&address(3), "Foo").unwrap();
    assert!(matches!(&second, ImportName::Alias(n, 1) if n == "Foo"));
    assert_eq!(text_of(&second, 0), "Foo1");
    assert!(imports.get_import(&address(1), "M").is_none());
    assert!(imports.get_import(&address(1), "Foo").is_none());

    let text = disasm_str(&module).unwrap();
    let expected = format!(
        "address {} {{\nmodule M {{\n    struct Own {{\n    }}\n\n    struct Box<T, T_1> {{\n        a: Foo::X,\n        b: Foo1::Y,\n        c: Own,\n        d: vector<Box<&Foo::X, &mut T_1>>\n    }}\n}}\n}}\n",
        ADDRESS_ONE
    );
    assert_eq!(text, expected);
}

#[test]
fn third_address_of_a_name_gets_the_next_alias() {
    let mut module = importing_module();
    module.address_identifiers.push(address(4));
    module.module_handles.push(ModuleHandle { address: 3, name: 1 });
    module.module_handles.push(ModuleHandle { address: 3, name: 2 });
    let imports = Imports::new(&module).unwrap();
    let third = imports.get_import(&address(4), "Foo").unwrap();
    assert!(matches!(&third, ImportName::Alias(n, 2) if n == "Foo"));
    let other = imports.get_import(&address(4), "X").unwrap();
    assert!(matches!(&other, ImportName::Name(n) if n == "X"));
}

#[test]
fn primitive_types_have_fixed_keywords() {
    let module = empty_module();
    let imports = Imports::new(&module).unwrap();
    let cases = vec![
        (SignatureToken::Bool, "bool"),
        (SignatureToken::U8, "u8"),
        (SignatureToken::U64, "u64"),
        (SignatureToken::U128, "u128"),
        (SignatureToken::Address, "address"),
        (SignatureToken::Signer, "signer"),
    ];
    for (token, keyword) in cases {
        let decoded =
            StructDef::extract_type_signature(&module, &token, &imports, &Vec::new()).unwrap();
        assert_eq!(text_of(&decoded, 0), keyword);
    }
}

#[test]
fn struct_handle_out_of_bounds_is_an_error() {
    let mut module = empty_module();
    module.identifiers = names(&["M", "S", "f"]);
    module.struct_handles = vec![handle(0, 1, false, vec![])];
    module.struct_defs = vec![declared(0, vec![(2, SignatureToken::Struct(7))])];
    assert_eq!(disasm_str(&module), Err(DisasmError::StructuralIndex));
    let mut out = String::from("kept");
    assert_eq!(disasm(&module, &mut out), Err(DisasmError::StructuralIndex));
    assert_eq!(out, "kept");
}

#[test]
fn generic_parameter_out_of_bounds_is_an_error() {
    let mut module = empty_module();
    module.identifiers = names(&["M", "S", "f"]);
    module.struct_handles = vec![handle(0, 1, false, vec![Kind::All])];
    module.struct_defs = vec![declared(0, vec![(2, SignatureToken::TypeParameter(1))])];
    assert_eq!(disasm_str(&module), Err(DisasmError::StructuralIndex));
}

#[test]
fn identifier_out_of_bounds_is_an_error() {
    let mut module = empty_module();
    module.identifiers = names(&["M", "S"]);
    module.struct_handles = vec![handle(0, 1, false, vec![])];
    module.struct_defs = vec![declared(0, vec![(2, SignatureToken::U8)])];
    assert_eq!(disasm_str(&module), Err(DisasmError::StructuralIndex));
}

#[test]
fn address_out_of_bounds_is_an_error() {
    let mut module = empty_module();
    module.module_handles.push(ModuleHandle { address: 5, name: 0 });
    assert!(matches!(Imports::new(&module), Err(DisasmError::StructuralIndex)));
    assert_eq!(disasm_str(&module), Err(DisasmError::StructuralIndex));
}

#[test]
fn own_handle_out_of_bounds_is_an_error() {
    let mut module = empty_module();
    module.self_module_handle_idx = 3;
    assert!(matches!(module.self_id(), Err(DisasmError::StructuralIndex)));
    assert_eq!(disasm_str(&module), Err(DisasmError::StructuralIndex));
}

#[test]
fn script_is_refused() {
    let unit = Unit::Script(Script {});
    let mut out = String::from("kept");
    assert_eq!(unit.write_code(&mut out), Err(DisasmError::UnsupportedConstruct));
    assert_eq!(out, "kept");
    assert_eq!(unit.code_string(), Err(DisasmError::UnsupportedConstruct));
}

#[test]
fn two_runs_give_the_same_text() {
    let module = importing_module();
    assert_eq!(disasm_str(&module), disasm_str(&module));
}

#[test]
fn hand_built_declaration_renders() {
    let generics = Generics(GenericPrefix::SimplePrefix("T"));
    let decl = StructDef {
        is_nominal_resource: false,
        is_native: false,
        name: "Wrap".to_string(),
        type_params: vec![generics.create_generic(0, Kind::All)],
        fields: vec![
            Field {
                name: "inner".to_string(),
                f_type: FType::StructInst(
                    FullStructName {
                        name: "Cell".to_string(),
                        import: Some(ImportName::Alias("Store".to_string(), 12)),
                    },
                    vec![FType::Generic(generics.create_generic(0, Kind::All))],
                ),
            },
            Field { name: "count".to_string(), f_type: FType::Primitive("u128") },
        ],
    };
    assert_eq!(
        text_of(&decl, 2),
        "  struct Wrap<T> {\n      inner: Store12::Cell<T>,\n      count: u128\n  }"
    );
}

#[test]
fn address_is_written_in_lower_case_hex() {
    let mut module = empty_module();
    let mut bytes = [0u8; 20];
    bytes[0] = 0xAB;
    bytes[1] = 0x0F;
    bytes[19] = 0x9C;
    module.address_identifiers = vec![AccountAddress::new(bytes)];
    let text = disasm_str(&module).unwrap();
    assert!(text.starts_with("address 0xab0f00000000000000000000000000000000009c {\n"));
}

#[test]
fn parameter_positions_are_written_in_decimal() {
    let generics = Generics(GenericPrefix::SimplePrefix("V"));
    assert_eq!(text_of(&generics.create_generic(10, Kind::Resource), 0), "V_10: resource");
    assert_eq!(text_of(&generics.create_generic(205, Kind::All).as_name(), 0), "V_205");
}
