use dap_sampler::elf::attr::{
    address_of_first_op, attr_type_ref, attr_u32, decl_file, decl_line, dwarf_attr_string,
    entry_attr_string, location_address, AttrValue, DwarfFormat, FirstOp, UnitEncoding,
};
use dap_sampler::elf::dwarf::{
    next_depth, process_raw_dies, DieEntry, DwarfResult, DwarfTypeInfo, RawDie, UnitDies,
    DW_TAG_ARRAY_TYPE, DW_TAG_BASE_TYPE, DW_TAG_CONST_TYPE, DW_TAG_ENUMERATION_TYPE,
    DW_TAG_MEMBER, DW_TAG_POINTER_TYPE, DW_TAG_STRUCTURE_TYPE, DW_TAG_SUBRANGE_TYPE,
    DW_TAG_TYPEDEF, DW_TAG_UNION_TYPE, DW_TAG_VARIABLE,
};

fn enc() -> UnitEncoding {
    UnitEncoding { address_size: 4, format: DwarfFormat::Dwarf32, version: 4 }
}

fn entry(offset: u64, tag: u16, delta: isize) -> DieEntry {
    DieEntry {
        offset,
        tag,
        depth_delta: delta,
        name: None,
        byte_size: None,
        type_ref: None,
        location: None,
        data_member_location: None,
        upper_bound: None,
        count: None,
        decl_file: None,
        decl_file_path: None,
        decl_line: None,
    }
}

fn die(offset: u64, tag: u16, depth: usize) -> RawDie {
    RawDie {
        offset,
        tag,
        depth,
        name: None,
        byte_size: None,
        type_ref: None,
        address: None,
        member_offset: None,
        upper_bound: None,
        count: None,
        source_file: None,
        source_line: None,
    }
}

fn named(mut d: RawDie, name: &str) -> RawDie {
    d.name = Some(name.to_string());
    d
}

fn addr_expr(addr: u32) -> AttrValue {
    let mut b = vec![0x03u8];
    b.extend_from_slice(&addr.to_le_bytes());
    AttrValue::Exprloc(b)
}

#[test]
fn attr_u32_reads_constants() {
    assert_eq!(attr_u32(&Some(AttrValue::Udata(7))), Some(7));
    assert_eq!(attr_u32(&Some(AttrValue::Udata(0x1_0000_0005))), Some(5));
    assert_eq!(attr_u32(&Some(AttrValue::Data1(200))), Some(200));
    assert_eq!(attr_u32(&Some(AttrValue::Data2(60000))), Some(60000));
    assert_eq!(attr_u32(&Some(AttrValue::Data4(0xdead_beef))), Some(0xdead_beef));
    assert_eq!(attr_u32(&Some(AttrValue::Other)), None);
    assert_eq!(attr_u32(&None), None);
}

#[test]
fn type_refs_and_lines() {
    assert_eq!(attr_type_ref(&Some(AttrValue::UnitRef(0x2d))), Some(0x2d));
    assert_eq!(attr_type_ref(&Some(AttrValue::DebugInfoRef(0x100))), Some(0x100));
    assert_eq!(attr_type_ref(&Some(AttrValue::Udata(3))), None);
    assert_eq!(decl_line(&Some(AttrValue::Udata(42))), Some(42));
    assert_eq!(decl_line(&Some(AttrValue::Data1(42))), None);
}

#[test]
fn strings_inline_and_in_debug_str() {
    let debug_str = b"first\0second\0tail";
    assert_eq!(entry_attr_string(&Some(AttrValue::Str(b"speed".to_vec()))).as_deref(), Some("speed"));
    // names held in .debug_str are not read as entry names
    assert_eq!(entry_attr_string(&Some(AttrValue::DebugStrRef(0))), None);
    assert_eq!(dwarf_attr_string(&AttrValue::DebugStrRef(0), debug_str).as_deref(), Some("first"));
    assert_eq!(dwarf_attr_string(&AttrValue::DebugStrRef(6), debug_str).as_deref(), Some("second"));
    assert_eq!(dwarf_attr_string(&AttrValue::DebugStrRef(8), debug_str).as_deref(), Some("cond"));
    // no terminating NUL, or past the end
    assert_eq!(dwarf_attr_string(&AttrValue::DebugStrRef(13), debug_str), None);
    assert_eq!(dwarf_attr_string(&AttrValue::DebugStrRef(100), debug_str), None);
    assert_eq!(dwarf_attr_string(&AttrValue::Str(b"main.c".to_vec()), debug_str).as_deref(), Some("main.c"));
    assert_eq!(dwarf_attr_string(&AttrValue::Udata(1), debug_str), None);
    // invalid UTF-8 is replaced
    assert_eq!(
        dwarf_attr_string(&AttrValue::Str(vec![b'a', 0xff, b'b']), debug_str).as_deref(),
        Some("a\u{fffd}b")
    );
}

#[test]
fn decl_file_resolution() {
    let debug_str = b"src/main.c\0";
    let v = Some(AttrValue::FileIndex(1));
    let path = Some(AttrValue::DebugStrRef(0));
    assert_eq!(decl_file(&v, &path, debug_str).as_deref(), Some("src/main.c"));
    // an index that designates no file entry
    assert_eq!(decl_file(&v, &None, debug_str), None);
    assert_eq!(decl_file(&Some(AttrValue::Udata(1)), &path, debug_str), None);
    assert_eq!(decl_file(&None, &path, debug_str), None);
}

#[test]
fn location_from_expression() {
    assert_eq!(location_address(&Some(addr_expr(0x2000_0100)), &enc()), Ok(Some(0x2000_0100)));
    // 8-byte addresses keep their low 32 bits
    let enc8 = UnitEncoding { address_size: 8, format: DwarfFormat::Dwarf32, version: 4 };
    let mut b = vec![0x03u8];
    b.extend_from_slice(&0x1_2000_0200u64.to_le_bytes());
    assert_eq!(location_address(&Some(AttrValue::Exprloc(b)), &enc8), Ok(Some(0x2000_0200)));
    // DW_OP_fbreg: not a fixed address
    assert_eq!(location_address(&Some(AttrValue::Exprloc(vec![0x91, 0x08])), &enc()), Ok(None));
    assert_eq!(location_address(&Some(AttrValue::Exprloc(vec![])), &enc()), Ok(None));
    assert_eq!(location_address(&Some(AttrValue::Udata(4)), &enc()), Ok(None));
    assert_eq!(location_address(&None, &enc()), Ok(None));
    // truncated DW_OP_addr
    assert!(location_address(&Some(AttrValue::Exprloc(vec![0x03, 0x00])), &enc()).is_err());
}

#[test]
fn address_from_decoded_first_operation() {
    assert_eq!(address_of_first_op(Ok(Some(FirstOp::Address(0x2000_0100)))), Ok(Some(0x2000_0100)));
    assert_eq!(address_of_first_op(Ok(Some(FirstOp::Address(0x1_2000_0200)))), Ok(Some(0x2000_0200)));
    assert_eq!(address_of_first_op(Ok(Some(FirstOp::Other))), Ok(None));
    assert_eq!(address_of_first_op(Ok(None)), Ok(None));
    assert_eq!(address_of_first_op(Err("bad".to_string())), Err("bad".to_string()));
}

#[test]
fn depth_tracking() {
    assert_eq!(next_depth(0, 1), 1);
    assert_eq!(next_depth(3, -1), 2);
    assert_eq!(next_depth(1, -5), 0);
    assert_eq!(next_depth(2, 0), 2);
    assert_eq!(next_depth(isize::MAX as usize, 1), isize::MAX as usize);
}

#[test]
fn push_entry_reduces_entries() {
    let debug_str = b"main.c\0";
    let mut unit = UnitDies::new(enc());
    let mut cu = entry(0xb, 0x11, 7);
    cu.name = Some(AttrValue::Str(b"main.c".to_vec()));
    unit.push_entry(&cu, debug_str).unwrap();
    let mut v = entry(0x20, DW_TAG_VARIABLE, 1);
    v.name = Some(AttrValue::Str(b"speed".to_vec()));
    v.type_ref = Some(AttrValue::UnitRef(0x40));
    v.location = Some(addr_expr(0x2000_0100));
    v.decl_file = Some(AttrValue::FileIndex(1));
    v.decl_file_path = Some(AttrValue::DebugStrRef(0));
    v.decl_line = Some(AttrValue::Udata(12));
    v.data_member_location = Some(AttrValue::Udata(4));
    unit.push_entry(&v, debug_str).unwrap();
    let mut m = entry(0x30, DW_TAG_MEMBER, 1);
    m.data_member_location = Some(AttrValue::Data1(8));
    m.location = Some(addr_expr(0x1234));
    m.decl_line = Some(AttrValue::Udata(3));
    unit.push_entry(&m, debug_str).unwrap();
    let mut s = entry(0x38, DW_TAG_SUBRANGE_TYPE, -1);
    s.upper_bound = Some(AttrValue::Udata(3));
    s.count = Some(AttrValue::Data1(4));
    unit.push_entry(&s, debug_str).unwrap();

    assert_eq!(unit.dies.len(), 4);
    // the first entry lies at depth 0 whatever its delta
    assert_eq!(unit.dies[0].depth, 0);
    assert_eq!(unit.dies[0].name.as_deref(), Some("main.c"));
    assert_eq!(unit.dies[0].address, None);
    let d = &unit.dies[1];
    assert_eq!(d.depth, 1);
    assert_eq!(d.offset, 0x20);
    assert_eq!(d.name.as_deref(), Some("speed"));
    assert_eq!(d.type_ref, Some(0x40));
    assert_eq!(d.address, Some(0x2000_0100));
    assert_eq!(d.source_file.as_deref(), Some("main.c"));
    assert_eq!(d.source_line, Some(12));
    assert_eq!(d.member_offset, None);
    let d = &unit.dies[2];
    assert_eq!(d.depth, 2);
    assert_eq!(d.member_offset, Some(8));
    assert_eq!(d.address, None);
    assert_eq!(d.source_line, None);
    let d = &unit.dies[3];
    assert_eq!(d.depth, 1);
    assert_eq!(d.upper_bound, Some(3));
    assert_eq!(d.count, Some(4));
    assert_eq!(unit.variable_counts(), (1, 1));
}

#[test]
fn push_entry_fails_on_bad_variable_location() {
    let mut unit = UnitDies::new(enc());
    let mut v = entry(0x20, DW_TAG_VARIABLE, 0);
    v.location = Some(AttrValue::Exprloc(vec![0x03, 0x01]));
    assert!(unit.push_entry(&v, b"").is_err());
    assert_eq!(unit.dies.len(), 0);
    // the same expression on a non-variable entry is not read
    let mut p = entry(0x28, 0x05, 0);
    p.location = Some(AttrValue::Exprloc(vec![0x03, 0x01]));
    assert!(unit.push_entry(&p, b"").is_ok());
    assert_eq!(unit.dies.len(), 1);
}

#[test]
fn variables_need_name_address_and_type() {
    let mut good = named(die(0x10, DW_TAG_VARIABLE, 1), "good");
    good.address = Some(0x2000_0000);
    good.type_ref = Some(0x50);
    good.source_line = Some(7);
    let mut no_addr = named(die(0x18, DW_TAG_VARIABLE, 1), "local");
    no_addr.type_ref = Some(0x50);
    let mut no_type = named(die(0x1c, DW_TAG_VARIABLE, 1), "untyped");
    no_type.address = Some(0x2000_0004);
    let mut unnamed = die(0x20, DW_TAG_VARIABLE, 1);
    unnamed.address = Some(0x2000_0008);
    unnamed.type_ref = Some(0x50);
    let mut result = DwarfResult::new();
    process_raw_dies(&[good, no_addr, no_type, unnamed], &mut result);
    assert_eq!(result.variables.len(), 1);
    let v = &result.variables[0];
    assert_eq!(v.name, "good");
    assert_eq!(v.address, 0x2000_0000);
    assert_eq!(v.type_offset, 0x50);
    assert_eq!(v.source_line, Some(7));
    assert!(result.types.is_empty());
}

#[test]
fn base_alias_enum_and_pointer_types() {
    let mut base = named(die(0x30, DW_TAG_BASE_TYPE, 1), "float");
    base.byte_size = Some(4);
    let anon_base = die(0x34, DW_TAG_BASE_TYPE, 1);
    let mut td = named(die(0x38, DW_TAG_TYPEDEF, 1), "my_type");
    td.type_ref = Some(0x30);
    let dangling = named(die(0x3c, DW_TAG_TYPEDEF, 1), "dangling");
    let mut konst = die(0x40, DW_TAG_CONST_TYPE, 1);
    konst.type_ref = Some(0x38);
    let mut en = die(0x44, DW_TAG_ENUMERATION_TYPE, 1);
    en.byte_size = Some(1);
    let ptr = die(0x48, DW_TAG_POINTER_TYPE, 1);
    let mut result = DwarfResult::new();
    process_raw_dies(&[base, anon_base, td, dangling, konst, en, ptr], &mut result);
    assert_eq!(result.types.len(), 6);
    assert!(matches!(&result.types[&0x30], DwarfTypeInfo::Base { name, byte_size: 4 } if name == "float"));
    assert!(matches!(&result.types[&0x34], DwarfTypeInfo::Base { name, byte_size: 4 } if name == "unknown"));
    assert!(matches!(&result.types[&0x38], DwarfTypeInfo::Alias { name, target_offset: 0x30 } if name == "my_type"));
    assert!(!result.types.contains_key(&0x3c));
    assert!(matches!(&result.types[&0x40], DwarfTypeInfo::Alias { name, target_offset: 0x38 } if name.is_empty()));
    assert!(matches!(&result.types[&0x44], DwarfTypeInfo::Base { name, byte_size: 1 } if name == "enum"));
    assert!(matches!(&result.types[&0x48], DwarfTypeInfo::Pointer { byte_size: 4 }));
}

#[test]
fn struct_members_are_direct_children() {
    let mut st = named(die(0x50, DW_TAG_STRUCTURE_TYPE, 1), "PID");
    st.byte_size = Some(12);
    let mut kp = named(die(0x58, DW_TAG_MEMBER, 2), "kp");
    kp.type_ref = Some(0x30);
    kp.member_offset = Some(0);
    let mut inner = die(0x60, DW_TAG_UNION_TYPE, 2);
    inner.byte_size = Some(4);
    let mut nested = named(die(0x64, DW_TAG_MEMBER, 3), "nested");
    nested.member_offset = Some(0);
    let mut ki = named(die(0x68, DW_TAG_MEMBER, 2), "ki");
    ki.type_ref = Some(0x30);
    ki.member_offset = Some(4);
    let bare = die(0x70, DW_TAG_MEMBER, 2);
    let after = named(die(0x78, DW_TAG_MEMBER, 1), "not_a_member");
    let mut result = DwarfResult::new();
    process_raw_dies(&[st, kp, inner, nested, ki, bare, after], &mut result);
    match &result.types[&0x50] {
        DwarfTypeInfo::Struct { name, byte_size, members } => {
            assert_eq!(name, "PID");
            assert_eq!(*byte_size, 12);
            assert_eq!(members.len(), 3);
            assert_eq!(members[0].name, "kp");
            assert_eq!(members[0].type_offset, 0x30);
            assert_eq!(members[0].member_offset, 0);
            assert_eq!(members[1].name, "ki");
            assert_eq!(members[1].member_offset, 4);
            assert_eq!(members[2].name, "");
            assert_eq!(members[2].type_offset, 0);
            assert_eq!(members[2].member_offset, 0);
        }
        _ => panic!("expected a structure"),
    }
    match &result.types[&0x60] {
        DwarfTypeInfo::Struct { name, byte_size, members } => {
            assert_eq!(name, "anonymous");
            assert_eq!(*byte_size, 4);
            assert_eq!(members.len(), 1);
            assert_eq!(members[0].name, "nested");
        }
        _ => panic!("expected a union"),
    }
}

#[test]
fn array_counts_from_subranges() {
    let mut arr = die(0x80, DW_TAG_ARRAY_TYPE, 1);
    arr.type_ref = Some(0x30);
    arr.byte_size = Some(16);
    let mut sub = die(0x88, DW_TAG_SUBRANGE_TYPE, 2);
    sub.upper_bound = Some(3);
    let mut arr2 = die(0x90, DW_TAG_ARRAY_TYPE, 1);
    arr2.type_ref = Some(0x30);
    let mut sub2 = die(0x98, DW_TAG_SUBRANGE_TYPE, 2);
    sub2.count = Some(10);
    sub2.upper_bound = Some(99);
    let mut arr3 = die(0xa0, DW_TAG_ARRAY_TYPE, 1);
    arr3.type_ref = Some(0x30);
    let mut sub3 = die(0xa8, DW_TAG_SUBRANGE_TYPE, 2);
    sub3.upper_bound = Some(u32::MAX);
    let no_elem = die(0xb0, DW_TAG_ARRAY_TYPE, 1);
    let mut outside = die(0xb8, DW_TAG_SUBRANGE_TYPE, 1);
    outside.count = Some(77);
    let mut result = DwarfResult::new();
    process_raw_dies(&[arr, sub, arr2, sub2, arr3, sub3, no_elem, outside], &mut result);
    assert!(matches!(result.types[&0x80], DwarfTypeInfo::Array { element_type_offset: 0x30, element_count: 4, byte_size: 16 }));
    assert!(matches!(result.types[&0x90], DwarfTypeInfo::Array { element_type_offset: 0x30, element_count: 10, byte_size: 0 }));
    assert!(matches!(result.types[&0xa0], DwarfTypeInfo::Array { element_count: 0, .. }));
    assert!(!result.types.contains_key(&0xb0));
    assert_eq!(result.types.len(), 3);
}

#[test]
fn later_type_at_same_offset_wins() {
    let mut a = named(die(0x30, DW_TAG_BASE_TYPE, 1), "int");
    a.byte_size = Some(4);
    let mut b = named(die(0x30, DW_TAG_BASE_TYPE, 1), "short");
    b.byte_size = Some(2);
    let mut result = DwarfResult::new();
    process_raw_dies(&[a], &mut result);
    process_raw_dies(&[b], &mut result);
    assert_eq!(result.types.len(), 1);
    assert!(matches!(&result.types[&0x30], DwarfTypeInfo::Base { name, byte_size: 2 } if name == "short"));
}

#[test]
fn source_files_are_recorded_once() {
    let debug_str = b"a.c\0b.c\0";
    let mut result = DwarfResult::new();
    result.add_source_paths(
        &[
            AttrValue::Str(b"a.c".to_vec()),
            AttrValue::DebugStrRef(4),
            AttrValue::DebugStrRef(0),
            AttrValue::Udata(3),
            AttrValue::DebugStrRef(50),
        ],
        debug_str,
    );
    assert_eq!(result.source_files, vec!["a.c".to_string(), "b.c".to_string()]);
    result.add_source_paths(&[AttrValue::Str(b"c.c".to_vec()), AttrValue::Str(b"b.c".to_vec())], debug_str);
    assert_eq!(result.source_files, vec!["a.c".to_string(), "b.c".to_string(), "c.c".to_string()]);
    assert!(result.variables.is_empty());
}

#[test]
fn entries_to_variables_end_to_end() {
    let debug_str = b"speed\0main.c\0";
    let mut unit = UnitDies::new(enc());
    unit.push_entry(&entry(0xb, 0x11, 0), debug_str).unwrap();
    let mut float = entry(0x30, DW_TAG_BASE_TYPE, 1);
    float.name = Some(AttrValue::Str(b"float".to_vec()));
    float.byte_size = Some(AttrValue::Data1(4));
    unit.push_entry(&float, debug_str).unwrap();
    let mut speed = entry(0x40, DW_TAG_VARIABLE, 0);
    speed.name = Some(AttrValue::Str(b"speed".to_vec()));
    speed.type_ref = Some(AttrValue::UnitRef(0x30));
    speed.location = Some(addr_expr(0x2000_0100));
    speed.decl_file = Some(AttrValue::FileIndex(2));
    speed.decl_file_path = Some(AttrValue::DebugStrRef(6));
    speed.decl_line = Some(AttrValue::Udata(9));
    unit.push_entry(&speed, debug_str).unwrap();
    // a variable whose name lies in .debug_str is not named, so not recorded
    let mut strp = entry(0x50, DW_TAG_VARIABLE, 0);
    strp.name = Some(AttrValue::DebugStrRef(0));
    strp.type_ref = Some(AttrValue::UnitRef(0x30));
    strp.location = Some(addr_expr(0x2000_0104));
    unit.push_entry(&strp, debug_str).unwrap();
    // a local variable: no fixed address
    let mut local = entry(0x60, DW_TAG_VARIABLE, 0);
    local.name = Some(AttrValue::Str(b"tmp".to_vec()));
    local.type_ref = Some(AttrValue::UnitRef(0x30));
    local.location = Some(AttrValue::Exprloc(vec![0x91, 0x04]));
    unit.push_entry(&local, debug_str).unwrap();

    assert_eq!(unit.variable_counts(), (3, 2));
    let mut result = DwarfResult::new();
    process_raw_dies(&unit.dies, &mut result);
    assert_eq!(result.variables.len(), 1);
    let v = &result.variables[0];
    assert_eq!(v.name, "speed");
    assert_eq!(v.address, 0x2000_0100);
    assert_eq!(v.type_offset, 0x30);
    assert_eq!(v.source_file.as_deref(), Some("main.c"));
    assert_eq!(v.source_line, Some(9));
    assert!(matches!(&result.types[&0x30], DwarfTypeInfo::Base { name, byte_size: 4 } if name == "float"));
}
