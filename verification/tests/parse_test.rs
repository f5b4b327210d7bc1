use dap_sampler::elf::dwarf::{parse_dwarf_sections, DwarfTypeInfo};
use dap_sampler::elf::reader::{parse_sections, parse_sections_counted};
use dap_sampler::elf::sections::DwarfSectionBytes;

const ABBREV: &[u8] = &[
    0x01, 0x11, 0x01, 0x03, 0x08, 0x00, 0x00, // compile unit: name (string), has children
    0x02, 0x24, 0x00, 0x03, 0x08, 0x0b, 0x0b, 0x00, 0x00, // base type: name, byte_size (data1)
    0x03, 0x34, 0x00, 0x03, 0x08, 0x49, 0x13, 0x02, 0x18, 0x3b, 0x0f, 0x00, 0x00, // variable
    0x00,
];

/// A DWARF 4 unit with 4-byte addresses: a compile unit, a 4-byte base type
/// `float` at offset 0x0f, and a variable `speed` of that type whose location
/// is the expression given.
fn info(location: &[u8]) -> Vec<u8> {
    let mut body = vec![0x04, 0x00, 0x00, 0x00, 0x00, 0x00, 0x04];
    body.extend_from_slice(&[0x01, b'c', b'u', 0x00]);
    body.extend_from_slice(&[0x02, b'f', b'l', b'o', b'a', b't', 0x00, 0x04]);
    body.extend_from_slice(&[0x03, b's', b'p', b'e', b'e', b'd', 0x00, 0x0f, 0x00, 0x00, 0x00]);
    body.push(location.len() as u8);
    body.extend_from_slice(location);
    body.push(0x09);
    body.push(0x00);
    let mut unit = (body.len() as u32).to_le_bytes().to_vec();
    unit.extend_from_slice(&body);
    unit
}

fn parse(debug_info: &[u8], debug_abbrev: &[u8]) -> Result<dap_sampler::elf::dwarf::DwarfResult, String> {
    parse_dwarf_sections(debug_info, debug_abbrev, &[], &[], &[], &[], &[], &[])
}

#[test]
fn empty_sections_parse_to_nothing() {
    let r = parse(&[], &[]).unwrap();
    assert!(r.variables.is_empty());
    assert!(r.types.is_empty());
    assert!(r.source_files.is_empty());
}

#[test]
fn unit_with_a_global_variable() {
    let r = parse(&info(&[0x03, 0x00, 0x01, 0x00, 0x20]), ABBREV).unwrap();
    assert_eq!(r.variables.len(), 1);
    let v = &r.variables[0];
    assert_eq!(v.name, "speed");
    assert_eq!(v.address, 0x2000_0100);
    assert_eq!(v.type_offset, 0x0f);
    assert_eq!(v.source_file, None);
    assert_eq!(v.source_line, Some(9));
    assert_eq!(r.types.len(), 1);
    assert!(matches!(&r.types[&0x0f], DwarfTypeInfo::Base { name, byte_size: 4 } if name == "float"));
    assert!(r.source_files.is_empty());
}

#[test]
fn two_units_are_both_read() {
    let mut bytes = info(&[0x03, 0x00, 0x01, 0x00, 0x20]);
    bytes.extend_from_slice(&info(&[0x03, 0x04, 0x01, 0x00, 0x20]));
    let r = parse(&bytes, ABBREV).unwrap();
    assert_eq!(r.variables.len(), 2);
    assert_eq!(r.variables[0].address, 0x2000_0100);
    assert_eq!(r.variables[1].address, 0x2000_0104);
    assert_eq!(r.types.len(), 1);
}

#[test]
fn local_variable_is_not_recorded() {
    // DW_OP_fbreg: a frame-relative location, no fixed address
    let r = parse(&info(&[0x91, 0x08]), ABBREV).unwrap();
    assert!(r.variables.is_empty());
    assert_eq!(r.types.len(), 1);
}

#[test]
fn truncated_address_fails_the_parse() {
    assert!(parse(&info(&[0x03, 0x00, 0x01]), ABBREV).is_err());
    // the same bytes in a frame-relative expression are not read as an address
    assert!(parse(&info(&[0x91, 0x00, 0x01]), ABBREV).is_ok());
}

#[test]
fn unreadable_unit_header_fails_the_parse() {
    match parse(&[0x10, 0x00, 0x00, 0x00], ABBREV) {
        Err(e) => assert!(e.starts_with("遍历 unit 失败")),
        Ok(_) => panic!("a truncated unit header must fail"),
    }
}

#[test]
fn same_bytes_parse_the_same() {
    let bytes = info(&[0x03, 0x00, 0x01, 0x00, 0x20]);
    let s = DwarfSectionBytes {
        debug_info: &bytes,
        debug_abbrev: ABBREV,
        debug_str: &[],
        debug_str_offsets: &[],
        debug_line: &[],
        debug_ranges: &[],
        debug_rnglists: &[],
        debug_addr: &[],
    };
    let a = parse_sections(&s).unwrap();
    let b = parse_sections(&s).unwrap();
    assert_eq!(a.variables.len(), b.variables.len());
    assert_eq!(a.variables[0].name, b.variables[0].name);
    assert_eq!(a.variables[0].address, b.variables[0].address);
    assert_eq!(a.types.len(), b.types.len());
    assert_eq!(a.source_files, b.source_files);
}

/// A DWARF 4 unit with 4-byte addresses whose abbreviations lie at
/// `abbrev_offset` and whose entries are `entries`.
fn unit_with(abbrev_offset: u32, entries: &[u8]) -> Vec<u8> {
    let mut body = vec![0x04, 0x00];
    body.extend_from_slice(&abbrev_offset.to_le_bytes());
    body.push(0x04);
    body.extend_from_slice(entries);
    let mut unit = (body.len() as u32).to_le_bytes().to_vec();
    unit.extend_from_slice(&body);
    unit
}

#[test]
fn unreadable_unit_fails_with_its_prefix() {
    // the abbreviations lie past the end of .debug_abbrev
    match parse(&unit_with(0x100, &[0x01, b'c', b'u', 0x00, 0x00]), ABBREV) {
        Err(e) => assert!(e.starts_with("读取 unit 失败: ")),
        Ok(_) => panic!("a unit without abbreviations must fail"),
    }
}

#[test]
fn unreadable_entry_fails_with_its_prefix() {
    // an entry with an abbreviation code that the table lacks
    match parse(&unit_with(0, &[0x01, b'c', b'u', 0x00, 0x09, 0x00]), ABBREV) {
        Err(e) => assert!(e.starts_with("遍历 DIE 失败: ")),
        Ok(_) => panic!("an unknown abbreviation must fail"),
    }
}

fn sections<'a>(debug_info: &'a [u8]) -> DwarfSectionBytes<'a> {
    DwarfSectionBytes {
        debug_info,
        debug_abbrev: ABBREV,
        debug_str: &[],
        debug_str_offsets: &[],
        debug_line: &[],
        debug_ranges: &[],
        debug_rnglists: &[],
        debug_addr: &[],
    }
}

#[test]
fn variable_counts_per_unit() {
    let mut bytes = info(&[0x03, 0x00, 0x01, 0x00, 0x20]);
    bytes.extend_from_slice(&info(&[0x91, 0x08]));
    let (r, counts) = parse_sections_counted(&sections(&bytes));
    assert!(r.is_ok());
    assert_eq!(counts, vec![(1, 1), (1, 0)]);
}

#[test]
fn counts_stop_at_the_failing_unit() {
    let mut bytes = info(&[0x03, 0x00, 0x01, 0x00, 0x20]);
    bytes.extend_from_slice(&info(&[0x03, 0x00, 0x01]));
    bytes.extend_from_slice(&info(&[0x03, 0x00, 0x01, 0x00, 0x20]));
    let (r, counts) = parse_sections_counted(&sections(&bytes));
    assert!(r.is_err());
    assert_eq!(counts, vec![(1, 1)]);
}
