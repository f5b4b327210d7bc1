use vstd::prelude::*;

use crate::pipeline::sample::ValueType;

verus! {

/// The value type that a DWARF base-type name denotes, when the name is one
/// of the common embedded C type names; `None` for any other name.
pub open spec fn spec_known_type(name: Seq<char>) -> Option<ValueType> {
    if name == "float"@ || name == "double"@ {
        Some(ValueType::Float)
    } else if name == "int"@ || name == "signed int"@ || name == "int32_t"@ || name == "long"@ {
        Some(ValueType::Int32)
    } else if name == "unsigned int"@ || name == "uint32_t"@ || name == "unsigned long"@
        || name == "size_t"@ {
        Some(ValueType::Uint32)
    } else if name == "short"@ || name == "signed short"@ || name == "int16_t"@ {
        Some(ValueType::Int16)
    } else if name == "unsigned short"@ || name == "uint16_t"@ || name == "wchar_t"@ {
        Some(ValueType::Uint16)
    } else if name == "signed char"@ || name == "int8_t"@ {
        Some(ValueType::Int8)
    } else if name == "char"@ || name == "unsigned char"@ || name == "uint8_t"@ || name
        == "bool"@ || name == "_Bool"@ {
        Some(ValueType::Uint8)
    } else {
        None
    }
}

/// The value type guessed from the byte size of an unrecognised type:
/// 8 and 4 bytes are taken as floating point, 2 as `u16`, 1 as `u8`,
/// anything else as `u32`.
pub open spec fn spec_type_by_size(byte_size: u32) -> ValueType {
    if byte_size == 8 || byte_size == 4 {
        ValueType::Float
    } else if byte_size == 2 {
        ValueType::Uint16
    } else if byte_size == 1 {
        ValueType::Uint8
    } else {
        ValueType::Uint32
    }
}

/// The value type of a DWARF base type with the given name and byte size.
pub open spec fn spec_map_dwarf_type(name: Seq<char>, byte_size: u32) -> ValueType {
    match spec_known_type(name) {
        Some(t) => t,
        None => spec_type_by_size(byte_size),
    }
}

/// Whether two strings hold the same characters.
pub fn str_equal(a: &str, b: &str) -> (r: bool)
    ensures
        r == (a@ == b@),
{
    let x: String = a.to_owned();
    let y: String = b.to_owned();
    x == y
}

/// Maps a DWARF base-type name onto the value type it is sampled as.
///
/// Covers the usual ARM Cortex-M embedded C type names; an unrecognised name
/// falls back to a guess from the byte size (see [`spec_type_by_size`]).
pub fn map_dwarf_type(name: &str, byte_size: u32) -> (t: ValueType)
    ensures
        t == spec_map_dwarf_type(name@, byte_size),
{
    if str_equal(name, "float") || str_equal(name, "double") {
        ValueType::Float
    } else if str_equal(name, "int") || str_equal(name, "signed int") || str_equal(name, "int32_t")
        || str_equal(name, "long") {
        ValueType::Int32
    } else if str_equal(name, "unsigned int") || str_equal(name, "uint32_t") || str_equal(
        name,
        "unsigned long",
    ) || str_equal(name, "size_t") {
        ValueType::Uint32
    } else if str_equal(name, "short") || str_equal(name, "signed short") || str_equal(
        name,
        "int16_t",
    ) {
        ValueType::Int16
    } else if str_equal(name, "unsigned short") || str_equal(name, "uint16_t") || str_equal(
        name,
        "wchar_t",
    ) {
        ValueType::Uint16
    } else if str_equal(name, "signed char") || str_equal(name, "int8_t") {
        ValueType::Int8
    } else if str_equal(name, "char") || str_equal(name, "unsigned char") || str_equal(
        name,
        "uint8_t",
    ) || str_equal(name, "bool") || str_equal(name, "_Bool") {
        ValueType::Uint8
    } else if byte_size == 8 || byte_size == 4 {
        ValueType::Float
    } else if byte_size == 2 {
        ValueType::Uint16
    } else if byte_size == 1 {
        ValueType::Uint8
    } else {
        ValueType::Uint32
    }
}

/// A recognised type name decides the value type whatever the byte size; an
/// unrecognised one is decided by the byte size alone.
pub proof fn law_name_before_size(name: Seq<char>, other: Seq<char>, a: u32, b: u32)
    ensures
        spec_known_type(name) is Some ==> spec_map_dwarf_type(name, a) == spec_map_dwarf_type(name, b),
        spec_known_type(name) is None && spec_known_type(other) is None ==> spec_map_dwarf_type(name, a)
            == spec_map_dwarf_type(other, a),
{
}

/// The C type names the mapping knows, each with the value type it denotes
/// whatever the byte size: `float` and `double` are floating point; `int`,
/// `signed int`, `int32_t` and `long` are `i32`; `unsigned int`, `uint32_t`,
/// `unsigned long` and `size_t` are `u32`; `short`, `signed short` and
/// `int16_t` are `i16`; `unsigned short`, `uint16_t` and `wchar_t` are `u16`;
/// `signed char` and `int8_t` are `i8`; `char`, `unsigned char`, `uint8_t`,
/// `bool` and `_Bool` are `u8`.
pub proof fn law_known_type_names(name: Seq<char>, byte_size: u32)
    ensures
        name == "float"@ || name == "double"@ ==> spec_map_dwarf_type(name, byte_size) == ValueType::Float,
        name == "int"@ || name == "signed int"@ || name == "int32_t"@ || name == "long"@ ==> spec_map_dwarf_type(name, byte_size) == ValueType::Int32,
        name == "unsigned int"@ || name == "uint32_t"@ || name == "unsigned long"@ || name == "size_t"@ ==> spec_map_dwarf_type(name, byte_size) == ValueType::Uint32,
        name == "short"@ || name == "signed short"@ || name == "int16_t"@ ==> spec_map_dwarf_type(name, byte_size) == ValueType::Int16,
        name == "unsigned short"@ || name == "uint16_t"@ || name == "wchar_t"@ ==> spec_map_dwarf_type(name, byte_size) == ValueType::Uint16,
        name == "signed char"@ || name == "int8_t"@ ==> spec_map_dwarf_type(name, byte_size) == ValueType::Int8,
        name == "char"@ || name == "unsigned char"@ || name == "uint8_t"@ || name == "bool"@ || name == "_Bool"@ ==> spec_map_dwarf_type(name, byte_size) == ValueType::Uint8,
{
    reveal_strlit("float");
    reveal_strlit("double");
    reveal_strlit("int");
    reveal_strlit("signed int");
    reveal_strlit("int32_t");
    reveal_strlit("long");
    reveal_strlit("unsigned int");
    reveal_strlit("uint32_t");
    reveal_strlit("unsigned long");
    reveal_strlit("size_t");
    reveal_strlit("short");
    reveal_strlit("signed short");
    reveal_strlit("int16_t");
    reveal_strlit("unsigned short");
    reveal_strlit("uint16_t");
    reveal_strlit("wchar_t");
    reveal_strlit("signed char");
    reveal_strlit("int8_t");
    reveal_strlit("char");
    reveal_strlit("unsigned char");
    reveal_strlit("uint8_t");
    reveal_strlit("bool");
    reveal_strlit("_Bool");
    assert("float"@.len() == 5);
    assert("double"@.len() == 6);
    assert("int"@.len() == 3);
    assert("signed int"@.len() == 10);
    assert("int32_t"@.len() == 7);
    assert("long"@.len() == 4);
    assert("unsigned int"@.len() == 12);
    assert("uint32_t"@.len() == 8);
    assert("unsigned long"@.len() == 13);
    assert("size_t"@.len() == 6);
    assert("short"@.len() == 5);
    assert("signed short"@.len() == 12);
    assert("int16_t"@.len() == 7);
    assert("unsigned short"@.len() == 14);
    assert("uint16_t"@.len() == 8);
    assert("wchar_t"@.len() == 7);
    assert("signed char"@.len() == 11);
    assert("int8_t"@.len() == 6);
    assert("char"@.len() == 4);
    assert("unsigned char"@.len() == 13);
    assert("uint8_t"@.len() == 7);
    assert("bool"@.len() == 4);
    assert("_Bool"@.len() == 5);
    assert("float"@[0] == 'f');
    assert("short"@[0] == 's');
    assert("_Bool"@[0] == '_');
    assert("double"@[0] == 'd');
    assert("size_t"@[0] == 's');
    assert("int8_t"@[0] == 'i');
    assert("int32_t"@[3] == '3');
    assert("int16_t"@[3] == '1');
    assert("int32_t"@[0] == 'i');
    assert("wchar_t"@[0] == 'w');
    assert("uint8_t"@[0] == 'u');
    assert("long"@[0] == 'l');
    assert("char"@[0] == 'c');
    assert("bool"@[0] == 'b');
    assert("unsigned int"@[0] == 'u');
    assert("signed short"@[0] == 's');
    assert("uint32_t"@[4] == '3');
    assert("uint16_t"@[4] == '1');
    assert("unsigned long"@[9] == 'l');
    assert("unsigned char"@[9] == 'c');
    assert("int16_t"@[0] == 'i');
}

/// Every other name is mapped by the byte size alone: 8 or 4 bytes are
/// floating point, 2 bytes `u16`, 1 byte `u8`, any other size `u32`.
pub proof fn law_unknown_names_by_size(name: Seq<char>, byte_size: u32)
    requires
        name != "float"@ && name != "double"@ && name != "int"@ && name != "signed int"@ && name != "int32_t"@ && name != "long"@ && name != "unsigned int"@ && name != "uint32_t"@ && name != "unsigned long"@ && name != "size_t"@ && name != "short"@ && name != "signed short"@ && name != "int16_t"@ && name != "unsigned short"@ && name != "uint16_t"@ && name != "wchar_t"@ && name != "signed char"@ && name != "int8_t"@ && name != "char"@ && name != "unsigned char"@ && name != "uint8_t"@ && name != "bool"@ && name != "_Bool"@,
    ensures
        spec_map_dwarf_type(name, byte_size) == (if byte_size == 8 || byte_size == 4 {
            ValueType::Float
        } else if byte_size == 2 {
            ValueType::Uint16
        } else if byte_size == 1 {
            ValueType::Uint8
        } else {
            ValueType::Uint32
        }),
{
}

} // verus!
