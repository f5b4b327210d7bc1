use dap_sampler::elf::types::map_dwarf_type;
use dap_sampler::pipeline::sample::ValueType;

#[test]
fn test_known_types() {
    assert_eq!(map_dwarf_type("float", 4), ValueType::Float);
    assert_eq!(map_dwarf_type("int32_t", 4), ValueType::Int32);
    assert_eq!(map_dwarf_type("uint16_t", 2), ValueType::Uint16);
    assert_eq!(map_dwarf_type("uint8_t", 1), ValueType::Uint8);
}

#[test]
fn test_fallback_by_size() {
    assert_eq!(map_dwarf_type("my_custom_type", 4), ValueType::Float);
    assert_eq!(map_dwarf_type("unknown", 2), ValueType::Uint16);
}

#[test]
fn every_known_name_maps_to_its_type() {
    let cases: &[(&str, ValueType)] = &[
        ("float", ValueType::Float),
        ("double", ValueType::Float),
        ("int", ValueType::Int32),
        ("signed int", ValueType::Int32),
        ("int32_t", ValueType::Int32),
        ("long", ValueType::Int32),
        ("unsigned int", ValueType::Uint32),
        ("uint32_t", ValueType::Uint32),
        ("unsigned long", ValueType::Uint32),
        ("size_t", ValueType::Uint32),
        ("short", ValueType::Int16),
        ("signed short", ValueType::Int16),
        ("int16_t", ValueType::Int16),
        ("unsigned short", ValueType::Uint16),
        ("uint16_t", ValueType::Uint16),
        ("wchar_t", ValueType::Uint16),
        ("signed char", ValueType::Int8),
        ("int8_t", ValueType::Int8),
        ("char", ValueType::Uint8),
        ("unsigned char", ValueType::Uint8),
        ("uint8_t", ValueType::Uint8),
        ("bool", ValueType::Uint8),
        ("_Bool", ValueType::Uint8),
    ];
    for (name, expected) in cases {
        assert_eq!(map_dwarf_type(name, 4), *expected, "{}", name);
        // a recognised name does not depend on the size
        assert_eq!(map_dwarf_type(name, 3), *expected, "{}", name);
    }
}

#[test]
fn fallback_covers_every_size() {
    assert_eq!(map_dwarf_type("opaque", 8), ValueType::Float);
    assert_eq!(map_dwarf_type("opaque", 4), ValueType::Float);
    assert_eq!(map_dwarf_type("opaque", 2), ValueType::Uint16);
    assert_eq!(map_dwarf_type("opaque", 1), ValueType::Uint8);
    assert_eq!(map_dwarf_type("opaque", 0), ValueType::Uint32);
    assert_eq!(map_dwarf_type("opaque", 3), ValueType::Uint32);
    assert_eq!(map_dwarf_type("", 16), ValueType::Uint32);
    // names are matched exactly
    assert_eq!(map_dwarf_type("Float", 2), ValueType::Uint16);
    assert_eq!(map_dwarf_type("int ", 1), ValueType::Uint8);
}
