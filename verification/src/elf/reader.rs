//! Reading the units and entries of `.debug_info` with gimli. gimli's readers
//! cannot be held by verified code, so each trusted item below loads the
//! sections afresh and hands back plain values: the unit offsets, a unit's
//! encoding, file table and entry list, or one attribute of one entry.
use std::convert::Infallible;

use gimli::{
    AttributeValue, DebugInfoOffset, DwAt, Dwarf, EndianSlice, LittleEndian, UnitOffset,
    UnitSectionOffset,
};
use vstd::prelude::*;

use crate::elf::attr::{attrs_view, opt_attr, opt_chars, AttrModel, AttrValue, DwarfFormat, UnitEncoding};
use crate::elf::dwarf::{
    EntryModel, dies_view, last_depth, process_raw_dies, spec_count_addressed, spec_count_variables,
    spec_raw_die, spec_types_upto, spec_vars_upto,
    with_paths, DieEntry, DwarfResult, RawDieModel, TypeModel, UnitDies, VarModel,
    DW_TAG_MEMBER, DW_TAG_SUBRANGE_TYPE, DW_TAG_VARIABLE,
};
use crate::elf::sections::{DwarfSectionBytes, SectionsView};

verus! {

pub const DW_AT_LOCATION: u16 = 0x02;
pub const DW_AT_NAME: u16 = 0x03;
pub const DW_AT_BYTE_SIZE: u16 = 0x0b;
pub const DW_AT_UPPER_BOUND: u16 = 0x2f;
pub const DW_AT_COUNT: u16 = 0x37;
pub const DW_AT_DATA_MEMBER_LOCATION: u16 = 0x38;
pub const DW_AT_DECL_FILE: u16 = 0x3a;
pub const DW_AT_DECL_LINE: u16 = 0x3b;
pub const DW_AT_TYPE: u16 = 0x49;

/// An entry of a unit as the depth-first walk meets it: its offset within the
/// unit, its tag, and the change of depth from the entry before.
#[derive(Debug, Clone, Copy, PartialEq, Eq, Structural)]
pub struct EntryHead {
    pub offset: usize,
    pub tag: u16,
    pub depth_delta: isize,
}

/// The `.debug_info` offsets of the unit headers, in order, up to the first
/// header that cannot be read, and gimli's text for that failure.
pub uninterp spec fn spec_unit_offsets(s: SectionsView) -> (Seq<usize>, Option<Seq<char>>);

/// Walks the unit headers with `gimli::Dwarf::units` and
/// `DebugInfoUnitHeadersIter::next`. Trusted: the result is named
/// [`spec_unit_offsets`]; it is a function of the section bytes alone. An
/// empty `.debug_info` holds no unit (`next` gives `Ok(None)` on empty input).
#[verifier::external_body]
fn read_unit_offsets(s: &DwarfSectionBytes) -> (r: (Vec<usize>, Option<String>))
    ensures
        r.0@ == spec_unit_offsets(s@).0,
        opt_chars(r.1) == spec_unit_offsets(s@).1,
        s.debug_info@.len() == 0 ==> r.0@.len() == 0 && r.1 is None,
{
    let Ok(dwarf) = Dwarf::load(|id| Ok::<_, Infallible>(EndianSlice::new(s.section_named(id.name()), LittleEndian)));
    let (mut units, mut offsets) = (dwarf.units(), Vec::new());
    loop {
        match units.next() {
            Ok(Some(header)) => match header.offset() {
                UnitSectionOffset::DebugInfoOffset(o) => offsets.push(o.0),
                UnitSectionOffset::DebugTypesOffset(o) => offsets.push(o.0),
            },
            Ok(None) => return (offsets, None),
            Err(e) => return (offsets, Some(e.to_string())),
        }
    }
}

/// Why a unit could not be read: its header, or the unit itself (its
/// abbreviations, attributes or line program), with gimli's text.
pub enum UnitFailure {
    Header(String),
    Unit(String),
}

/// The abstract value of a [`UnitFailure`].
pub enum UnitFailureModel {
    Header(Seq<char>),
    Unit(Seq<char>),
}

impl View for UnitFailure {
    type V = UnitFailureModel;

    open spec fn view(&self) -> UnitFailureModel {
        match self {
            UnitFailure::Header(m) => UnitFailureModel::Header(m@),
            UnitFailure::Unit(m) => UnitFailureModel::Unit(m@),
        }
    }
}

/// The encoding of the unit at an offset of `.debug_info`, or why the unit
/// cannot be read.
pub uninterp spec fn spec_unit_encoding(s: SectionsView, unit: usize) -> Result<UnitEncoding, UnitFailureModel>;

/// Reads the unit at an offset with `gimli::DebugInfo::header_from_offset` and
/// `gimli::Dwarf::unit`, and gives its encoding. Trusted: the result is named
/// [`spec_unit_encoding`].
#[verifier::external_body]
fn read_unit_encoding(s: &DwarfSectionBytes, unit: usize) -> (r: Result<UnitEncoding, UnitFailure>)
    ensures
        match r {
            Ok(e) => spec_unit_encoding(s@, unit) == Ok::<UnitEncoding, UnitFailureModel>(e),
            Err(f) => spec_unit_encoding(s@, unit) == Err::<UnitEncoding, UnitFailureModel>(f@),
        },
{
    let Ok(dwarf) = Dwarf::load(|id| Ok::<_, Infallible>(EndianSlice::new(s.section_named(id.name()), LittleEndian)));
    let header = dwarf.debug_info.header_from_offset(DebugInfoOffset(unit)).map_err(|e| UnitFailure::Header(e.to_string()))?;
    let encoding = dwarf.unit(header).map_err(|e| UnitFailure::Unit(e.to_string()))?.encoding();
    let format = match encoding.format {
        gimli::Format::Dwarf32 => DwarfFormat::Dwarf32,
        gimli::Format::Dwarf64 => DwarfFormat::Dwarf64,
    };
    Ok(UnitEncoding { address_size: encoding.address_size, format, version: encoding.version })
}

/// The path-name attributes of the file table of the unit's line program, in
/// order; none when the unit has no line program or cannot be read.
pub uninterp spec fn spec_unit_file_paths(s: SectionsView, unit: usize) -> Seq<AttrModel>;

/// Reads the file table of a unit's line program with
/// `gimli::LineProgramHeader::file_names` and `FileEntry::path_name`. Path
/// names are strings: inline and `.debug_str` strings are kept, any other form
/// comes out as `Other`. Trusted: the result is named [`spec_unit_file_paths`].
#[verifier::external_body]
fn read_file_paths(s: &DwarfSectionBytes, unit: usize) -> (r: Vec<AttrValue>)
    ensures
        attrs_view(r@) == spec_unit_file_paths(s@, unit),
{
    let Ok(dwarf) = Dwarf::load(|id| Ok::<_, Infallible>(EndianSlice::new(s.section_named(id.name()), LittleEndian)));
    let Ok(unit) = dwarf.debug_info.header_from_offset(DebugInfoOffset(unit)).and_then(|h| dwarf.unit(h)) else { return Vec::new() };
    let Some(program) = unit.line_program else { return Vec::new() };
    program.header().file_names().iter().map(|file| match file.path_name() {
        AttributeValue::String(b) => AttrValue::Str(b.to_vec()),
        AttributeValue::DebugStrRef(o) => AttrValue::DebugStrRef(o.0),
        _ => AttrValue::Other,
    }).collect()
}

/// The entries of the unit in depth-first order, up to the first one that
/// cannot be read, and gimli's text for that failure.
pub uninterp spec fn spec_unit_entries(s: SectionsView, unit: usize) -> (Seq<EntryHead>, Option<Seq<char>>);

/// Walks the entries of a unit with `gimli::EntriesCursor::next_dfs`. Trusted:
/// the result is named [`spec_unit_entries`].
#[verifier::external_body]
fn read_entries(s: &DwarfSectionBytes, unit: usize) -> (r: (Vec<EntryHead>, Option<String>))
    ensures
        r.0@ == spec_unit_entries(s@, unit).0,
        opt_chars(r.1) == spec_unit_entries(s@, unit).1,
{
    let Ok(dwarf) = Dwarf::load(|id| Ok::<_, Infallible>(EndianSlice::new(s.section_named(id.name()), LittleEndian)));
    let Ok(unit) = dwarf.debug_info.header_from_offset(DebugInfoOffset(unit)).and_then(|h| dwarf.unit(h)) else { return (Vec::new(), None) };
    let (mut cursor, mut heads) = (unit.entries(), Vec::new());
    loop {
        match cursor.next_dfs() {
            Ok(Some((delta, e))) => heads.push(EntryHead { offset: e.offset().0, tag: e.tag().0, depth_delta: delta }),
            Ok(None) => return (heads, None),
            Err(e) => return (heads, Some(e.to_string())),
        }
    }
}

/// An attribute of an entry read as an unsigned constant.
pub uninterp spec fn spec_entry_constant(s: SectionsView, unit: usize, entry: usize, attr: u16) -> Option<AttrModel>;

/// Reads an attribute of an entry with `gimli::DebuggingInformationEntry::attr_value`
/// (a read failure counts as absence), keeping the constant forms `udata`,
/// `data1`, `data2` and `data4`; any other form comes out as `Other`. Trusted:
/// the result is named [`spec_entry_constant`].
#[verifier::external_body]
fn read_entry_constant(s: &DwarfSectionBytes, unit: usize, entry: usize, attr: u16) -> (r: Option<AttrValue>)
    ensures
        opt_attr(r) == spec_entry_constant(s@, unit, entry, attr),
{
    let Ok(dwarf) = Dwarf::load(|id| Ok::<_, Infallible>(EndianSlice::new(s.section_named(id.name()), LittleEndian)));
    let header = dwarf.debug_info.header_from_offset(DebugInfoOffset(unit)).ok()?;
    header.entry(&header.abbreviations(&dwarf.debug_abbrev).ok()?, UnitOffset(entry)).ok()?.attr_value(DwAt(attr)).ok()?.map(|value| match value {
        AttributeValue::Udata(v) => AttrValue::Udata(v),
        AttributeValue::Data1(v) => AttrValue::Data1(v),
        AttributeValue::Data2(v) => AttrValue::Data2(v),
        AttributeValue::Data4(v) => AttrValue::Data4(v),
        _ => AttrValue::Other,
    })
}

/// An attribute of an entry read as a reference or a file index.
pub uninterp spec fn spec_entry_reference(s: SectionsView, unit: usize, entry: usize, attr: u16) -> Option<AttrModel>;

/// Reads an attribute of an entry with `gimli::DebuggingInformationEntry::attr_value`
/// (a read failure counts as absence), keeping unit and `.debug_info`
/// references and file indices; any other form comes out as `Other`. Trusted:
/// the result is named [`spec_entry_reference`].
#[verifier::external_body]
fn read_entry_reference(s: &DwarfSectionBytes, unit: usize, entry: usize, attr: u16) -> (r: Option<AttrValue>)
    ensures
        opt_attr(r) == spec_entry_reference(s@, unit, entry, attr),
{
    let Ok(dwarf) = Dwarf::load(|id| Ok::<_, Infallible>(EndianSlice::new(s.section_named(id.name()), LittleEndian)));
    let header = dwarf.debug_info.header_from_offset(DebugInfoOffset(unit)).ok()?;
    header.entry(&header.abbreviations(&dwarf.debug_abbrev).ok()?, UnitOffset(entry)).ok()?.attr_value(DwAt(attr)).ok()?.map(|value| match value {
        AttributeValue::UnitRef(o) => AttrValue::UnitRef(o.0),
        AttributeValue::DebugInfoRef(o) => AttrValue::DebugInfoRef(o.0),
        AttributeValue::FileIndex(i) => AttrValue::FileIndex(i),
        _ => AttrValue::Other,
    })
}

/// An attribute of an entry read as bytes: a string or an expression.
pub uninterp spec fn spec_entry_bytes(s: SectionsView, unit: usize, entry: usize, attr: u16) -> Option<AttrModel>;

/// Reads an attribute of an entry with `gimli::DebuggingInformationEntry::attr_value`
/// (a read failure counts as absence), keeping inline strings, `.debug_str`
/// references and location expressions; any other form comes out as `Other`.
/// Trusted: the result is named [`spec_entry_bytes`].
#[verifier::external_body]
fn read_entry_bytes(s: &DwarfSectionBytes, unit: usize, entry: usize, attr: u16) -> (r: Option<AttrValue>)
    ensures
        opt_attr(r) == spec_entry_bytes(s@, unit, entry, attr),
{
    let Ok(dwarf) = Dwarf::load(|id| Ok::<_, Infallible>(EndianSlice::new(s.section_named(id.name()), LittleEndian)));
    let header = dwarf.debug_info.header_from_offset(DebugInfoOffset(unit)).ok()?;
    header.entry(&header.abbreviations(&dwarf.debug_abbrev).ok()?, UnitOffset(entry)).ok()?.attr_value(DwAt(attr)).ok()?.map(|value| match value {
        AttributeValue::String(b) => AttrValue::Str(b.to_vec()),
        AttributeValue::DebugStrRef(o) => AttrValue::DebugStrRef(o.0),
        AttributeValue::Exprloc(x) => AttrValue::Exprloc(x.0.to_vec()),
        _ => AttrValue::Other,
    })
}

/// The path-name attribute of the file entry that a file index designates in
/// the unit's line program.
pub uninterp spec fn spec_file_entry_path(s: SectionsView, unit: usize, index: u64) -> Option<AttrModel>;

/// Looks a file index up with `gimli::LineProgramHeader::file` and reads the
/// entry's `FileEntry::path_name`; inline and `.debug_str` strings are kept,
/// any other form comes out as `Other`. Trusted: the result is named
/// [`spec_file_entry_path`].
#[verifier::external_body]
fn read_file_entry_path(s: &DwarfSectionBytes, unit: usize, index: u64) -> (r: Option<AttrValue>)
    ensures
        opt_attr(r) == spec_file_entry_path(s@, unit, index),
{
    let Ok(dwarf) = Dwarf::load(|id| Ok::<_, Infallible>(EndianSlice::new(s.section_named(id.name()), LittleEndian)));
    let unit = dwarf.unit(dwarf.debug_info.header_from_offset(DebugInfoOffset(unit)).ok()?).ok()?;
    Some(match unit.line_program.as_ref()?.header().file(index)?.path_name() {
        AttributeValue::String(b) => AttrValue::Str(b.to_vec()),
        AttributeValue::DebugStrRef(o) => AttrValue::DebugStrRef(o.0),
        _ => AttrValue::Other,
    })
}

// ─── Parsing ────────────────────────────────────────────────────────────────

/// The attribute of an entry as the browser reads it: names and locations as
/// bytes, sizes, offsets, bounds and lines as constants, types and files as
/// references; the location, file and line of variables only, the member
/// offset of members only, the bounds of subranges only.
pub open spec fn spec_entry_at(s: SectionsView, unit: usize, h: EntryHead) -> EntryModel {
    let is_var = h.tag == DW_TAG_VARIABLE;
    let decl_file = if is_var {
        spec_entry_reference(s, unit, h.offset, DW_AT_DECL_FILE)
    } else {
        None
    };
    EntryModel {
        offset: h.offset as u64,
        tag: h.tag,
        depth_delta: h.depth_delta,
        name: spec_entry_bytes(s, unit, h.offset, DW_AT_NAME),
        byte_size: spec_entry_constant(s, unit, h.offset, DW_AT_BYTE_SIZE),
        type_ref: spec_entry_reference(s, unit, h.offset, DW_AT_TYPE),
        location: if is_var {
            spec_entry_bytes(s, unit, h.offset, DW_AT_LOCATION)
        } else {
            None
        },
        data_member_location: if h.tag == DW_TAG_MEMBER {
            spec_entry_constant(s, unit, h.offset, DW_AT_DATA_MEMBER_LOCATION)
        } else {
            None
        },
        upper_bound: if h.tag == DW_TAG_SUBRANGE_TYPE {
            spec_entry_constant(s, unit, h.offset, DW_AT_UPPER_BOUND)
        } else {
            None
        },
        count: if h.tag == DW_TAG_SUBRANGE_TYPE {
            spec_entry_constant(s, unit, h.offset, DW_AT_COUNT)
        } else {
            None
        },
        decl_file,
        decl_file_path: match decl_file {
            Some(AttrModel::FileIndex(i)) => spec_file_entry_path(s, unit, i),
            _ => None,
        },
        decl_line: if is_var {
            spec_entry_constant(s, unit, h.offset, DW_AT_DECL_LINE)
        } else {
            None
        },
    }
}

/// Reads the attributes of an entry; see [`spec_entry_at`].
pub fn read_entry(s: &DwarfSectionBytes, unit: usize, h: EntryHead) -> (e: DieEntry)
    ensures
        e@ == spec_entry_at(s@, unit, h),
{
    let is_var = h.tag == DW_TAG_VARIABLE;
    let decl_file = if is_var {
        read_entry_reference(s, unit, h.offset, DW_AT_DECL_FILE)
    } else {
        None
    };
    let decl_file_path = match decl_file {
        Some(AttrValue::FileIndex(i)) => read_file_entry_path(s, unit, i),
        _ => None,
    };
    DieEntry {
        offset: h.offset as u64,
        tag: h.tag,
        depth_delta: h.depth_delta,
        name: read_entry_bytes(s, unit, h.offset, DW_AT_NAME),
        byte_size: read_entry_constant(s, unit, h.offset, DW_AT_BYTE_SIZE),
        type_ref: read_entry_reference(s, unit, h.offset, DW_AT_TYPE),
        location: if is_var {
            read_entry_bytes(s, unit, h.offset, DW_AT_LOCATION)
        } else {
            None
        },
        data_member_location: if h.tag == DW_TAG_MEMBER {
            read_entry_constant(s, unit, h.offset, DW_AT_DATA_MEMBER_LOCATION)
        } else {
            None
        },
        upper_bound: if h.tag == DW_TAG_SUBRANGE_TYPE {
            read_entry_constant(s, unit, h.offset, DW_AT_UPPER_BOUND)
        } else {
            None
        },
        count: if h.tag == DW_TAG_SUBRANGE_TYPE {
            read_entry_constant(s, unit, h.offset, DW_AT_COUNT)
        } else {
            None
        },
        decl_file,
        decl_file_path,
        decl_line: if is_var {
            read_entry_constant(s, unit, h.offset, DW_AT_DECL_LINE)
        } else {
            None
        },
    }
}

/// Which attribute each field of an entry is read from, and how: the name
/// (`DW_AT_name`, 0x03) as bytes; the byte size (`DW_AT_byte_size`, 0x0b) as
/// an unsigned constant; the type (`DW_AT_type`, 0x49) as a reference; for
/// variables (0x34) only, the location (`DW_AT_location`, 0x02) as bytes, the
/// file (`DW_AT_decl_file`, 0x3a) as a reference with the path of the file
/// entry it designates, and the line (`DW_AT_decl_line`, 0x3b) as a constant;
/// for members (0x0d) only, the offset (`DW_AT_data_member_location`, 0x38);
/// for subranges (0x21) only, the bounds (`DW_AT_upper_bound`, 0x2f, and
/// `DW_AT_count`, 0x37), as constants.
pub proof fn law_entry_attributes(s: SectionsView, unit: usize, h: EntryHead)
    ensures
        ({
            let e = spec_entry_at(s, unit, h);
            let at = h.offset;
            &&& e.offset == h.offset as u64 && e.tag == h.tag && e.depth_delta == h.depth_delta
            &&& e.name == spec_entry_bytes(s, unit, at, 0x03)
            &&& e.byte_size == spec_entry_constant(s, unit, at, 0x0b)
            &&& e.type_ref == spec_entry_reference(s, unit, at, 0x49)
            &&& h.tag == 0x34 ==> e.location == spec_entry_bytes(s, unit, at, 0x02) && e.decl_file
                == spec_entry_reference(s, unit, at, 0x3a) && e.decl_line == spec_entry_constant(
                s,
                unit,
                at,
                0x3b,
            ) && e.decl_file_path == match e.decl_file {
                Some(AttrModel::FileIndex(i)) => spec_file_entry_path(s, unit, i),
                _ => None::<AttrModel>,
            }
            &&& h.tag != 0x34 ==> e.location is None && e.decl_file is None && e.decl_file_path is None
                && e.decl_line is None
            &&& h.tag == 0x0d ==> e.data_member_location == spec_entry_constant(s, unit, at, 0x38)
            &&& h.tag != 0x0d ==> e.data_member_location is None
            &&& h.tag == 0x21 ==> e.upper_bound == spec_entry_constant(s, unit, at, 0x2f) && e.count
                == spec_entry_constant(s, unit, at, 0x37)
            &&& h.tag != 0x21 ==> e.upper_bound is None && e.count is None
        }),
{
}

/// A type entry is recorded with the byte size its `DW_AT_byte_size`
/// constant gives: a base type whose byte size reads as `data1` 8 is 8 bytes
/// wide, whatever the form of the constant.
pub proof fn law_entry_byte_size(
    s: SectionsView,
    unit: usize,
    h: EntryHead,
    prev: Option<usize>,
    enc: UnitEncoding,
    debug_str: Seq<u8>,
    d: RawDieModel,
)
    requires
        spec_raw_die(spec_entry_at(s, unit, h), prev, enc, debug_str) == Ok::<RawDieModel, Seq<char>>(d),
    ensures
        spec_entry_constant(s, unit, h.offset, 0x0b) matches Some(AttrModel::Udata(v)) ==> d.byte_size
            == Some(v as u32),
        spec_entry_constant(s, unit, h.offset, 0x0b) matches Some(AttrModel::Data1(v)) ==> d.byte_size
            == Some(v as u32),
        spec_entry_constant(s, unit, h.offset, 0x0b) matches Some(AttrModel::Data2(v)) ==> d.byte_size
            == Some(v as u32),
        spec_entry_constant(s, unit, h.offset, 0x0b) matches Some(AttrModel::Data4(v)) ==> d.byte_size
            == Some(v),
        spec_entry_constant(s, unit, h.offset, 0x0b) is None ==> d.byte_size is None,
{
}

/// The reduced entries of a unit, the first `n` of `heads`, or the first
/// reduction error.
pub open spec fn spec_unit_dies(
    s: SectionsView,
    unit: usize,
    heads: Seq<EntryHead>,
    enc: UnitEncoding,
    n: int,
) -> Result<Seq<RawDieModel>, Seq<char>>
    decreases n,
{
    if n <= 0 {
        Ok(Seq::empty())
    } else {
        match spec_unit_dies(s, unit, heads, enc, n - 1) {
            Err(m) => Err(m),
            Ok(ds) => match spec_raw_die(spec_entry_at(s, unit, heads[n - 1]), last_depth(ds), enc, s.debug_str) {
                Ok(d) => Ok(ds.push(d)),
                Err(m) => Err(m),
            },
        }
    }
}

/// What parsing yields, as abstract values.
pub struct ResultModel {
    pub files: Seq<Seq<char>>,
    pub vars: Seq<VarModel>,
    pub types: Map<u64, TypeModel>,
}

/// The abstract value of a parse result.
pub open spec fn result_model(r: DwarfResult) -> ResultModel {
    ResultModel { files: r.file_names(), vars: r.var_models(), types: r.type_models() }
}

/// The text that a failure to read a unit header starts with.
pub open spec fn unit_walk_prefix() -> Seq<char> {
    "遍历 unit 失败: "@
}

/// The text that a failure to read a unit starts with.
pub open spec fn unit_read_prefix() -> Seq<char> {
    "读取 unit 失败: "@
}

/// The text that a failure to walk the entries of a unit starts with.
pub open spec fn entry_walk_prefix() -> Seq<char> {
    "遍历 DIE 失败: "@
}

/// The message for a unit that cannot be read: gimli's text after the prefix
/// of a header failure or of a unit failure.
pub open spec fn unit_failure_message(f: UnitFailureModel) -> Seq<char> {
    match f {
        UnitFailureModel::Header(m) => unit_walk_prefix() + m,
        UnitFailureModel::Unit(m) => unit_read_prefix() + m,
    }
}

/// `prefix` followed by `detail`.
fn prefixed(prefix: &str, detail: String) -> (r: String)
    ensures
        r@ == prefix@ + detail@,
{
    String::from_str(prefix).concat(detail.as_str())
}

/// The message for a unit that cannot be read.
fn unit_failure_text(f: UnitFailure) -> (r: String)
    ensures
        r@ == unit_failure_message(f@),
{
    match f {
        UnitFailure::Header(m) => prefixed("遍历 unit 失败: ", m),
        UnitFailure::Unit(m) => prefixed("读取 unit 失败: ", m),
    }
}

/// The reduced entries of a whole unit read with the encoding `enc`, or the
/// first reduction error.
pub open spec fn spec_unit_dies_all(s: SectionsView, unit: usize, enc: UnitEncoding) -> Result<Seq<RawDieModel>, Seq<char>> {
    let heads = spec_unit_entries(s, unit).0;
    spec_unit_dies(s, unit, heads, enc, heads.len() as int)
}

/// What one unit adds to a parse result: its file names, then the variables
/// and types of its entries; or the first failure: reading the unit, reducing
/// an entry (gimli's text for the location), or walking the entries.
pub open spec fn spec_unit_step(s: SectionsView, unit: usize, r: ResultModel) -> Result<ResultModel, Seq<char>> {
    match spec_unit_encoding(s, unit) {
        Err(f) => Err(unit_failure_message(f)),
        Ok(enc) => {
            let paths = spec_unit_file_paths(s, unit);
            let heads = spec_unit_entries(s, unit).0;
            match spec_unit_dies(s, unit, heads, enc, heads.len() as int) {
                Err(m) => Err(m),
                Ok(ds) => match spec_unit_entries(s, unit).1 {
                    Some(m) => Err(entry_walk_prefix() + m),
                    None => Ok(
                        ResultModel {
                            files: with_paths(r.files, paths, s.debug_str, paths.len() as int),
                            vars: r.vars + spec_vars_upto(ds, ds.len() as int),
                            types: spec_types_upto(r.types, ds, ds.len() as int),
                        },
                    ),
                },
            }
        },
    }
}

/// The result of parsing the first `n` units, or the first failure.
pub open spec fn spec_parse_units(s: SectionsView, units: Seq<usize>, n: int) -> Result<ResultModel, Seq<char>>
    decreases n,
{
    if n <= 0 {
        Ok(empty_model())
    } else {
        match spec_parse_units(s, units, n - 1) {
            Err(m) => Err(m),
            Ok(r) => spec_unit_step(s, units[n - 1], r),
        }
    }
}

/// The result of parsing all units of `.debug_info`; a failure to read a unit
/// header counts after the units before it.
pub open spec fn spec_parse(s: SectionsView) -> Result<ResultModel, Seq<char>> {
    let (units, header_error) = spec_unit_offsets(s);
    match spec_parse_units(s, units, units.len() as int) {
        Err(m) => Err(m),
        Ok(r) => match header_error {
            Some(m) => Err(unit_walk_prefix() + m),
            None => Ok(r),
        },
    }
}

/// The number of variable entries of a unit and how many of them have a fixed
/// address; none where the unit or its entries cannot be read.
pub open spec fn spec_unit_counts(s: SectionsView, unit: usize) -> (nat, nat) {
    match spec_unit_encoding(s, unit) {
        Ok(enc) => match spec_unit_dies_all(s, unit, enc) {
            Ok(ds) => (spec_count_variables(ds, ds.len() as int), spec_count_addressed(ds, ds.len() as int)),
            Err(_) => (0, 0),
        },
        Err(_) => (0, 0),
    }
}

proof fn lemma_unit_dies_err_stays(
    s: SectionsView,
    unit: usize,
    heads: Seq<EntryHead>,
    enc: UnitEncoding,
    j: int,
    n: int,
)
    requires
        0 <= j <= n,
        spec_unit_dies(s, unit, heads, enc, j) is Err,
    ensures
        spec_unit_dies(s, unit, heads, enc, n) == spec_unit_dies(s, unit, heads, enc, j),
    decreases n - j,
{
    if n > j {
        lemma_unit_dies_err_stays(s, unit, heads, enc, j, n - 1);
    }
}

proof fn lemma_units_err_stays(s: SectionsView, units: Seq<usize>, j: int, n: int)
    requires
        0 <= j <= n,
        spec_parse_units(s, units, j) is Err,
    ensures
        spec_parse_units(s, units, n) == spec_parse_units(s, units, j),
    decreases n - j,
{
    if n > j {
        lemma_units_err_stays(s, units, j, n - 1);
    }
}

/// The messages of the failures: a unit header that cannot be read gives
/// "遍历 unit 失败: " and gimli's text, after the units before it are parsed;
/// a unit that cannot be read gives "遍历 unit 失败: " (its header) or
/// "读取 unit 失败: " (the unit) and gimli's text; a failed walk of the
/// entries of a unit whose entries read so far reduce gives "遍历 DIE 失败: "
/// and gimli's text; a variable whose location cannot be decoded gives the
/// decoder's text alone.
pub proof fn law_failure_messages(s: SectionsView, unit: usize, r: ResultModel)
    ensures
        spec_unit_encoding(s, unit) matches Err(UnitFailureModel::Header(m)) ==> spec_unit_step(s, unit, r)
            == Err::<ResultModel, Seq<char>>("遍历 unit 失败: "@ + m),
        spec_unit_encoding(s, unit) matches Err(UnitFailureModel::Unit(m)) ==> spec_unit_step(s, unit, r)
            == Err::<ResultModel, Seq<char>>("读取 unit 失败: "@ + m),
        spec_unit_encoding(s, unit) matches Ok(enc) ==> (spec_unit_dies_all(s, unit, enc) matches Err(m)
            ==> spec_unit_step(s, unit, r) == Err::<ResultModel, Seq<char>>(m)),
        spec_unit_encoding(s, unit) matches Ok(enc) ==> (spec_unit_dies_all(s, unit, enc) is Ok ==> (
        spec_unit_entries(s, unit).1 matches Some(m) ==> spec_unit_step(s, unit, r) == Err::<
            ResultModel,
            Seq<char>,
        >("遍历 DIE 失败: "@ + m))),
        spec_parse_units(s, spec_unit_offsets(s).0, spec_unit_offsets(s).0.len() as int) is Ok ==> (
        spec_unit_offsets(s).1 matches Some(m) ==> spec_parse(s) == Err::<ResultModel, Seq<char>>(
            "遍历 unit 失败: "@ + m,
        )),
{
}

/// A failing unit ends the parse: the result is that unit's failure, and
/// nothing of the units before it is returned.
pub proof fn law_failing_unit_ends_parse(s: SectionsView, k: int)
    requires
        0 <= k < spec_unit_offsets(s).0.len(),
        spec_parse_units(s, spec_unit_offsets(s).0, k) is Ok,
        spec_unit_step(s, spec_unit_offsets(s).0[k], spec_parse_units(s, spec_unit_offsets(s).0, k)->Ok_0) is Err,
    ensures
        spec_parse(s) == Err::<ResultModel, Seq<char>>(
            spec_unit_step(s, spec_unit_offsets(s).0[k], spec_parse_units(s, spec_unit_offsets(s).0, k)->Ok_0)->Err_0,
        ),
{
    let units = spec_unit_offsets(s).0;
    lemma_units_err_stays(s, units, k + 1, units.len() as int);
}

/// The empty parse result.
pub open spec fn empty_model() -> ResultModel {
    ResultModel { files: Seq::empty(), vars: Seq::empty(), types: Map::empty() }
}

/// Whether `r` is what parsing the sections `s` gives: the parse result with
/// its abstract value, or the failure's text.
pub open spec fn parse_outcome(s: SectionsView, r: Result<DwarfResult, String>) -> bool {
    match r {
        Ok(res) => spec_parse(s) == Ok::<ResultModel, Seq<char>>(result_model(res)),
        Err(m) => spec_parse(s) == Err::<ResultModel, Seq<char>>(m@),
    }
}

/// Parsing is deterministic: two parses of the same section bytes both
/// succeed with the same files, variables and types, or both fail with the
/// same text.
pub proof fn law_parse_deterministic(
    s: SectionsView,
    r1: Result<DwarfResult, String>,
    r2: Result<DwarfResult, String>,
)
    requires
        parse_outcome(s, r1),
        parse_outcome(s, r2),
    ensures
        r1 is Ok <==> r2 is Ok,
        r1 is Ok ==> result_model(r1->Ok_0) == result_model(r2->Ok_0),
        r1 is Err ==> r1->Err_0@ == r2->Err_0@,
{
}

/// Parses the DWARF debugging information in the given sections: walks the
/// units of `.debug_info` in order, records each unit's source files, reduces
/// its entries and enters its variables and types (see [`spec_parse`]). Beside
/// the result it gives, for each unit whose entries were all read, in order,
/// the number of its variable entries and how many of them have a fixed
/// address.
#[verifier::loop_isolation(false)]
pub fn parse_sections_counted(s: &DwarfSectionBytes) -> (r: (Result<DwarfResult, String>, Vec<(usize, usize)>))
    ensures
        parse_outcome(s@, r.0),
        s.debug_info@.len() == 0 ==> r.0 is Ok && result_model(r.0->Ok_0) == empty_model(),
        r.1@.len() <= spec_unit_offsets(s@).0.len(),
        r.0 is Ok ==> r.1@.len() == spec_unit_offsets(s@).0.len(),
        spec_parse_units(s@, spec_unit_offsets(s@).0, r.1@.len() as int) is Ok,
        (r.0 is Err && r.1@.len() < spec_unit_offsets(s@).0.len()) ==> spec_parse_units(
            s@,
            spec_unit_offsets(s@).0,
            r.1@.len() + 1int,
        ) is Err,
        forall|i: int|
            0 <= i < r.1@.len() ==> r.1@[i].0 == spec_unit_counts(s@, spec_unit_offsets(s@).0[i]).0
                && r.1@[i].1 == spec_unit_counts(s@, spec_unit_offsets(s@).0[i]).1,
{
    let (units, header_error) = read_unit_offsets(s);
    let mut result = DwarfResult::new();
    let mut counts: Vec<(usize, usize)> = Vec::new();
    assert(result_model(result) == empty_model());
    let mut k: usize = 0;
    while k < units.len()
        invariant
            0 <= k <= units@.len(),
            units@ == spec_unit_offsets(s@).0,
            spec_parse_units(s@, units@, k as int) == Ok::<ResultModel, Seq<char>>(result_model(result)),
            counts@.len() == k,
            forall|i: int|
                0 <= i < k ==> counts@[i].0 == spec_unit_counts(s@, units@[i]).0
                    && counts@[i].1 == spec_unit_counts(s@, units@[i]).1,
        decreases units@.len() - k,
    {
        let unit = units[k];
        let ghost before = result_model(result);
        let encoding = match read_unit_encoding(s, unit) {
            Ok(e) => e,
            Err(f) => {
                proof {
                    lemma_units_err_stays(s@, units@, k + 1, units@.len() as int);
                }
                return (Err(unit_failure_text(f)), counts);
            },
        };
        let paths = read_file_paths(s, unit);
        result.add_source_paths(paths.as_slice(), s.debug_str);
        let (heads, walk_error) = read_entries(s, unit);
        let mut dies = UnitDies::new(encoding);
        assert(dies_view(dies.dies@) =~= Seq::<RawDieModel>::empty());
        let mut j: usize = 0;
        while j < heads.len()
            invariant
                0 <= j <= heads@.len(),
                heads@ == spec_unit_entries(s@, unit).0,
                dies.encoding == encoding,
                spec_unit_dies(s@, unit, heads@, encoding, j as int) == Ok::<Seq<RawDieModel>, Seq<char>>(
                    dies_view(dies.dies@),
                ),
            decreases heads@.len() - j,
        {
            let e = read_entry(s, unit, heads[j]);
            match dies.push_entry(&e, s.debug_str) {
                Ok(_) => {},
                Err(m) => {
                    proof {
                        lemma_unit_dies_err_stays(s@, unit, heads@, encoding, j + 1, heads@.len() as int);
                        lemma_units_err_stays(s@, units@, k + 1, units@.len() as int);
                    }
                    return (Err(m), counts);
                },
            }
            j += 1;
        }
        if let Some(m) = walk_error {
            proof {
                lemma_units_err_stays(s@, units@, k + 1, units@.len() as int);
            }
            return (Err(prefixed("遍历 DIE 失败: ", m)), counts);
        }
        counts.push(dies.variable_counts());
        process_raw_dies(dies.dies.as_slice(), &mut result);
        assert(spec_unit_step(s@, unit, before) == Ok::<ResultModel, Seq<char>>(result_model(result)));
        k += 1;
    }
    match header_error {
        Some(m) => (Err(prefixed("遍历 unit 失败: ", m)), counts),
        None => (Ok(result), counts),
    }
}

/// Parses the DWARF debugging information in the given sections: walks the
/// units of `.debug_info` in order, records each unit's source files, reduces
/// its entries and enters its variables and types (see [`spec_parse`]).
/// Sections without `.debug_info` bytes parse to an empty result.
pub fn parse_sections(s: &DwarfSectionBytes) -> (r: Result<DwarfResult, String>)
    ensures
        parse_outcome(s@, r),
        s.debug_info@.len() == 0 ==> r is Ok && result_model(r->Ok_0) == empty_model(),
{
    parse_sections_counted(s).0
}

/// The bytes of the eight sections given one by one.
pub open spec fn sections_of(
    debug_info: Seq<u8>,
    debug_abbrev: Seq<u8>,
    debug_str: Seq<u8>,
    debug_str_offsets: Seq<u8>,
    debug_line: Seq<u8>,
    debug_ranges: Seq<u8>,
    debug_rnglists: Seq<u8>,
    debug_addr: Seq<u8>,
) -> SectionsView {
    SectionsView {
        debug_info,
        debug_abbrev,
        debug_str,
        debug_str_offsets,
        debug_line,
        debug_ranges,
        debug_rnglists,
        debug_addr,
    }
}

/// Parses DWARF debugging information from the bytes of its ELF sections; see
/// [`spec_parse`].
pub fn parse_dwarf_sections<'a>(
    debug_info: &'a [u8],
    debug_abbrev: &'a [u8],
    debug_str: &'a [u8],
    debug_str_offsets: &'a [u8],
    debug_line: &'a [u8],
    debug_ranges: &'a [u8],
    debug_rnglists: &'a [u8],
    debug_addr: &'a [u8],
) -> (r: Result<DwarfResult, String>)
    ensures
        ({
            let s = sections_of(
                debug_info@,
                debug_abbrev@,
                debug_str@,
                debug_str_offsets@,
                debug_line@,
                debug_ranges@,
                debug_rnglists@,
                debug_addr@,
            );
            parse_outcome(s, r)
        }),
        debug_info@.len() == 0 ==> r is Ok && result_model(r->Ok_0) == empty_model(),
{
    let sections = DwarfSectionBytes {
        debug_info,
        debug_abbrev,
        debug_str,
        debug_str_offsets,
        debug_line,
        debug_ranges,
        debug_rnglists,
        debug_addr,
    };
    parse_sections(&sections)
}

} // verus!
