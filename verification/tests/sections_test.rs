use dap_sampler::elf::sections::DwarfSectionBytes;

#[test]
fn sections_by_name() {
    let s = DwarfSectionBytes {
        debug_info: &[1],
        debug_abbrev: &[2],
        debug_str: &[3],
        debug_str_offsets: &[4],
        debug_line: &[5],
        debug_ranges: &[6],
        debug_rnglists: &[7],
        debug_addr: &[8],
    };
    assert_eq!(s.section_named(".debug_info"), &[1]);
    assert_eq!(s.section_named(".debug_abbrev"), &[2]);
    assert_eq!(s.section_named(".debug_str"), &[3]);
    assert_eq!(s.section_named(".debug_str_offsets"), &[4]);
    assert_eq!(s.section_named(".debug_line"), &[5]);
    assert_eq!(s.section_named(".debug_ranges"), &[6]);
    assert_eq!(s.section_named(".debug_rnglists"), &[7]);
    assert_eq!(s.section_named(".debug_addr"), &[8]);
    assert!(s.section_named(".debug_line_str").is_empty());
    assert!(s.section_named(".debug_loclists").is_empty());
    assert!(s.section_named("").is_empty());
}
