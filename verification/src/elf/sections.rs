//! The DWARF sections of an ELF image, as the bytes the loader hands out.
use vstd::prelude::*;

verus! {

/// The bytes of the DWARF sections that variable browsing reads.
pub struct DwarfSectionBytes<'a> {
    pub debug_info: &'a [u8],
    pub debug_abbrev: &'a [u8],
    pub debug_str: &'a [u8],
    pub debug_str_offsets: &'a [u8],
    pub debug_line: &'a [u8],
    pub debug_ranges: &'a [u8],
    pub debug_rnglists: &'a [u8],
    pub debug_addr: &'a [u8],
}

/// The bytes of the eight sections.
pub struct SectionsView {
    pub debug_info: Seq<u8>,
    pub debug_abbrev: Seq<u8>,
    pub debug_str: Seq<u8>,
    pub debug_str_offsets: Seq<u8>,
    pub debug_line: Seq<u8>,
    pub debug_ranges: Seq<u8>,
    pub debug_rnglists: Seq<u8>,
    pub debug_addr: Seq<u8>,
}

impl<'a> View for DwarfSectionBytes<'a> {
    type V = SectionsView;

    open spec fn view(&self) -> SectionsView {
        SectionsView {
            debug_info: self.debug_info@,
            debug_abbrev: self.debug_abbrev@,
            debug_str: self.debug_str@,
            debug_str_offsets: self.debug_str_offsets@,
            debug_line: self.debug_line@,
            debug_ranges: self.debug_ranges@,
            debug_rnglists: self.debug_rnglists@,
            debug_addr: self.debug_addr@,
        }
    }
}

impl<'a> DwarfSectionBytes<'a> {
    /// The bytes of the section with the given ELF name: one of the eight
    /// sections held, or no bytes for any other section.
    pub open spec fn spec_section_named(&self, name: Seq<char>) -> Seq<u8> {
        if name == ".debug_info"@ {
            self.debug_info@
        } else if name == ".debug_abbrev"@ {
            self.debug_abbrev@
        } else if name == ".debug_str"@ {
            self.debug_str@
        } else if name == ".debug_str_offsets"@ {
            self.debug_str_offsets@
        } else if name == ".debug_line"@ {
            self.debug_line@
        } else if name == ".debug_ranges"@ {
            self.debug_ranges@
        } else if name == ".debug_rnglists"@ {
            self.debug_rnglists@
        } else if name == ".debug_addr"@ {
            self.debug_addr@
        } else {
            Seq::empty()
        }
    }

    /// The bytes the DWARF loader is given for the section with this ELF name.
    pub fn section_named(&self, name: &str) -> (r: &'a [u8])
        ensures
            r@ == self.spec_section_named(name@),
    {
        if crate::elf::types::str_equal(name, ".debug_info") {
            self.debug_info
        } else if crate::elf::types::str_equal(name, ".debug_abbrev") {
            self.debug_abbrev
        } else if crate::elf::types::str_equal(name, ".debug_str") {
            self.debug_str
        } else if crate::elf::types::str_equal(name, ".debug_str_offsets") {
            self.debug_str_offsets
        } else if crate::elf::types::str_equal(name, ".debug_line") {
            self.debug_line
        } else if crate::elf::types::str_equal(name, ".debug_ranges") {
            self.debug_ranges
        } else if crate::elf::types::str_equal(name, ".debug_rnglists") {
            self.debug_rnglists
        } else if crate::elf::types::str_equal(name, ".debug_addr") {
            self.debug_addr
        } else {
            &[]
        }
    }
}

} // verus!
