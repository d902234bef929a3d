use disassembler::file_format::{AccountAddress, CompiledModule, ModuleHandle};
use disassembler::generics::{candidate, Generics, CANDIDATES};
use disassembler::imports::Imports;
use disassembler::text::{digit_char, push_decimal, push_hex, push_spaces};
use disassembler::INDENT;

#[test]
fn decimal_of_zero_is_one_digit() {
    let mut out = String::new();
    push_decimal(&mut out, 0);
    assert_eq!(out, "0");
}

#[test]
fn decimal_keeps_what_was_written() {
    let mut out = String::from("n=");
    push_decimal(&mut out, 9);
    push_decimal(&mut out, 10);
    push_decimal(&mut out, 65535);
    assert_eq!(out, "n=91065535");
}

#[test]
fn decimal_of_the_largest_number() {
    let mut out = String::new();
    push_decimal(&mut out, usize::MAX);
    assert_eq!(out, usize::MAX.to_string());
}

#[test]
fn hex_has_two_digits_for_each_byte() {
    let mut out = String::from("0x");
    push_hex(&mut out, &[0x00, 0x0a, 0xa0, 0xff, 0x7b]);
    assert_eq!(out, "0x000aa0ff7b");
    let mut empty = String::new();
    push_hex(&mut empty, &[]);
    assert_eq!(empty, "");
}

#[test]
fn digits_are_lower_case() {
    let all: String = (0u8..16).map(digit_char).collect();
    assert_eq!(all, "0123456789abcdef");
}

#[test]
fn spaces_are_counted() {
    let mut out = String::from("|");
    push_spaces(&mut out, 0);
    push_spaces(&mut out, 3);
    out.push('|');
    assert_eq!(out, "|   |");
    assert_eq!(INDENT, 4);
}

#[test]
fn letters_are_tried_in_a_fixed_order() {
    let letters: Vec<&str> = (0..CANDIDATES).map(candidate).collect();
    assert_eq!(
        letters,
        vec![
            "T", "G", "V", "A", "B", "C", "D", "F", "H", "J", "K", "L", "M", "N", "P", "Q", "R",
            "S", "W", "X", "Y", "Z"
        ]
    );
}

#[test]
fn addresses_compare_byte_by_byte() {
    let mut bytes = [7u8; 20];
    let a = AccountAddress::new(bytes);
    let b = AccountAddress::new(bytes);
    bytes[19] = 8;
    let c = AccountAddress::new(bytes);
    assert!(a.same_as(&b));
    assert!(!a.same_as(&c));
    assert!(!c.same_as(&a));
}

#[test]
fn own_handle_registers_no_import() {
    let module = CompiledModule {
        identifiers: vec!["M".to_string(), "Other".to_string()],
        address_identifiers: vec![AccountAddress::new([1u8; 20]), AccountAddress::new([2u8; 20])],
        module_handles: vec![
            ModuleHandle { address: 1, name: 1 },
            ModuleHandle { address: 0, name: 0 },
        ],
        struct_handles: vec![],
        struct_defs: vec![],
        self_module_handle_idx: 1,
    };
    let imports = Imports::new(&module).unwrap();
    assert!(imports.get_import(&AccountAddress::new([1u8; 20]), "M").is_none());
    assert!(imports.get_import(&AccountAddress::new([2u8; 20]), "Other").is_some());
    let id = module.self_id().unwrap();
    assert_eq!(id.name, "M");
    assert!(id.address.same_as(&AccountAddress::new([1u8; 20])));
    let generics = Generics::new(&module);
    assert_eq!(format!("{:?}", generics.0), "SimplePrefix(\"T\")");
}
