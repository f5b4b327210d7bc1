//! Attribute values of a debugging-information entry, held as plain values,
//! and the rules by which the variable browser reads them. Location
//! expressions, `.debug_str` lookups and string decoding go through gimli.
use vstd::prelude::*;
use vstd::utf8::{decode_utf8, valid_utf8};

verus! {

/// Whether a unit uses 32- or 64-bit DWARF offsets.
#[derive(Debug, Clone, Copy, PartialEq, Eq, Structural)]
pub enum DwarfFormat {
    Dwarf32,
    Dwarf64,
}

/// The encoding parameters of a unit, which decoding its expressions needs.
#[derive(Debug, Clone, Copy, PartialEq, Eq, Structural)]
pub struct UnitEncoding {
    pub address_size: u8,
    pub format: DwarfFormat,
    pub version: u16,
}

/// The kind of the first operation of a location expression.
#[derive(Debug, Clone, Copy, PartialEq, Eq, Structural)]
pub enum FirstOp {
    /// `DW_OP_addr` with its address.
    Address(u64),
    /// Any other operation.
    Other,
}

/// The value of one attribute of a debugging-information entry.
pub enum AttrValue {
    /// `DW_FORM_udata`.
    Udata(u64),
    /// `DW_FORM_data1`.
    Data1(u8),
    /// `DW_FORM_data2`.
    Data2(u16),
    /// `DW_FORM_data4`.
    Data4(u32),
    /// A reference to an entry of the same unit, by its unit offset.
    UnitRef(usize),
    /// A reference to an entry of `.debug_info`, by its section offset.
    DebugInfoRef(usize),
    /// An inline string, by its bytes.
    Str(Vec<u8>),
    /// A string of `.debug_str`, by its offset there.
    DebugStrRef(usize),
    /// An index into the file table of the unit's line program.
    FileIndex(u64),
    /// A location expression (`DW_FORM_exprloc`), by its bytes.
    Exprloc(Vec<u8>),
    /// Any other form.
    Other,
}

/// The abstract value of an [`AttrValue`].
pub enum AttrModel {
    Udata(u64),
    Data1(u8),
    Data2(u16),
    Data4(u32),
    UnitRef(usize),
    DebugInfoRef(usize),
    Str(Seq<u8>),
    DebugStrRef(usize),
    FileIndex(u64),
    Exprloc(Seq<u8>),
    Other,
}

impl View for AttrValue {
    type V = AttrModel;

    open spec fn view(&self) -> AttrModel {
        match self {
            AttrValue::Udata(v) => AttrModel::Udata(*v),
            AttrValue::Data1(v) => AttrModel::Data1(*v),
            AttrValue::Data2(v) => AttrModel::Data2(*v),
            AttrValue::Data4(v) => AttrModel::Data4(*v),
            AttrValue::UnitRef(o) => AttrModel::UnitRef(*o),
            AttrValue::DebugInfoRef(o) => AttrModel::DebugInfoRef(*o),
            AttrValue::Str(b) => AttrModel::Str(b@),
            AttrValue::DebugStrRef(o) => AttrModel::DebugStrRef(*o),
            AttrValue::FileIndex(i) => AttrModel::FileIndex(*i),
            AttrValue::Exprloc(b) => AttrModel::Exprloc(b@),
            AttrValue::Other => AttrModel::Other,
        }
    }
}

/// The abstract value of an optional attribute.
pub open spec fn opt_attr(v: Option<AttrValue>) -> Option<AttrModel> {
    match v {
        Some(a) => Some(a@),
        None => None,
    }
}

/// The abstract values of a list of attributes.
pub open spec fn attrs_view(v: Seq<AttrValue>) -> Seq<AttrModel> {
    v.map_values(|a: AttrValue| a@)
}

// ─── gimli ──────────────────────────────────────────────────────────────────

/// What decoding the first operation of a location expression with gimli
/// gives: the operation, none for an empty expression, or gimli's error text.
pub uninterp spec fn spec_first_operation(
    expr: Seq<u8>,
    address_size: u8,
    format: DwarfFormat,
    version: u16,
) -> Result<Option<FirstOp>, Seq<char>>;

/// The little-endian 32-bit number in bytes `i..i + 4`.
pub open spec fn le_u32_at(b: Seq<u8>, i: int) -> u64 {
    (b[i] + 256 * b[i + 1] + 65536 * b[i + 2] + 16777216 * b[i + 3]) as u64
}

/// A successful decoding to `DW_OP_addr` with the given address.
pub open spec fn spec_ok_address(a: u64) -> Result<Option<FirstOp>, String> {
    Ok(Some(FirstOp::Address(a)))
}

/// The opcode of `DW_OP_addr`.
pub const DW_OP_ADDR: u8 = 0x03;

/// Decodes the first operation of a little-endian location expression with
/// `gimli::Expression::operations` and `gimli::OperationIter::next`. Trusted:
/// the result is a function of the bytes and the encoding alone, named
/// [`spec_first_operation`]; as gimli's source shows, an empty expression has
/// no operation, and `DW_OP_addr` followed by a 4-byte address (for a unit
/// with 4-byte addresses) yields that address. Nothing more is stated of
/// gimli's decoder.
#[verifier::external_body]
fn first_operation(expr: &[u8], enc: &UnitEncoding) -> (r: Result<Option<FirstOp>, String>)
    ensures
        expr@.len() == 0 ==> (r matches Ok(None)),
        expr@.len() >= 5 && expr@[0] == DW_OP_ADDR && enc.address_size == 4 ==> r == spec_ok_address(le_u32_at(expr@, 1)),
        match r {
            Ok(op) => spec_first_operation(expr@, enc.address_size, enc.format, enc.version) == Ok::<
                Option<FirstOp>,
                Seq<char>,
            >(op),
            Err(m) => spec_first_operation(expr@, enc.address_size, enc.format, enc.version) == Err::<
                Option<FirstOp>,
                Seq<char>,
            >(m@),
        },
{
    let format = match enc.format {
        DwarfFormat::Dwarf32 => gimli::Format::Dwarf32,
        DwarfFormat::Dwarf64 => gimli::Format::Dwarf64,
    };
    let encoding = gimli::Encoding { address_size: enc.address_size, format, version: enc.version };
    let expression = gimli::Expression(gimli::EndianSlice::new(expr, gimli::LittleEndian));
    match expression.operations(encoding).next() {
        Ok(Some(gimli::Operation::Address { address })) => Ok(Some(FirstOp::Address(address))),
        Ok(Some(_)) => Ok(Some(FirstOp::Other)),
        Ok(None) => Ok(None),
        Err(e) => Err(format!("{}", e)),
    }
}

/// The index of the first NUL byte at or after `i`, if any.
pub open spec fn first_nul_from(s: Seq<u8>, i: int) -> Option<int>
    decreases s.len() - i,
{
    if i < 0 || i >= s.len() {
        None
    } else if s[i] == 0 {
        Some(i)
    } else {
        first_nul_from(s, i + 1)
    }
}

/// The string at an offset of `.debug_str`: the bytes from the offset up to
/// the next NUL byte; none when the offset lies past the section or no NUL
/// byte follows it.
pub open spec fn spec_debug_str_at(section: Seq<u8>, offset: usize) -> Option<Seq<u8>> {
    match first_nul_from(section, offset as int) {
        Some(k) => Some(section.subrange(offset as int, k)),
        None => None,
    }
}

/// Looks up a string of `.debug_str` with `gimli::DebugStr::get_str`. Trusted:
/// gimli skips `offset` bytes (failing past the end) and reads up to the next
/// NUL byte (failing when there is none), as [`spec_debug_str_at`] states.
#[verifier::external_body]
fn debug_str_at(section: &[u8], offset: usize) -> (r: Option<Vec<u8>>)
    ensures
        match r {
            Some(b) => spec_debug_str_at(section@, offset) == Some(b@),
            None => spec_debug_str_at(section@, offset) is None,
        },
{
    let debug_str = gimli::DebugStr::new(section, gimli::LittleEndian);
    match debug_str.get_str(gimli::DebugStrOffset(offset)) {
        Ok(s) => Some(s.slice().to_vec()),
        Err(_) => None,
    }
}

/// The characters that lossy UTF-8 decoding makes of some bytes.
pub uninterp spec fn spec_lossy_utf8(bytes: Seq<u8>) -> Seq<char>;

/// Decodes bytes as UTF-8 with `gimli::EndianSlice::to_string_lossy`, which
/// replaces each invalid sequence by U+FFFD. Trusted: the result is named
/// [`spec_lossy_utf8`], and valid UTF-8 decodes to the characters it encodes.
#[verifier::external_body]
fn lossy_utf8(bytes: &[u8]) -> (r: String)
    ensures
        r@ == spec_lossy_utf8(bytes@),
        valid_utf8(bytes@) ==> r@ == decode_utf8(bytes@),
{
    gimli::EndianSlice::new(bytes, gimli::LittleEndian).to_string_lossy().into_owned()
}

// ─── Reading attributes ─────────────────────────────────────────────────────

/// An unsigned constant of at most 32 bits, as a `u32`; wider `udata`
/// constants keep their low 32 bits.
pub open spec fn spec_attr_u32(v: Option<AttrModel>) -> Option<u32> {
    match v {
        Some(AttrModel::Udata(s)) => Some(s as u32),
        Some(AttrModel::Data1(s)) => Some(s as u32),
        Some(AttrModel::Data2(s)) => Some(s as u32),
        Some(AttrModel::Data4(s)) => Some(s),
        _ => None,
    }
}

/// Reads an unsigned constant attribute as a `u32`.
pub fn attr_u32(v: &Option<AttrValue>) -> (r: Option<u32>)
    ensures
        r == spec_attr_u32(opt_attr(*v)),
{
    match v {
        Some(AttrValue::Udata(s)) => Some(*s as u32),
        Some(AttrValue::Data1(s)) => Some(*s as u32),
        Some(AttrValue::Data2(s)) => Some(*s as u32),
        Some(AttrValue::Data4(s)) => Some(*s),
        _ => None,
    }
}

/// The offset of the entry that a type attribute refers to.
pub open spec fn spec_attr_type_ref(v: Option<AttrModel>) -> Option<u64> {
    match v {
        Some(AttrModel::UnitRef(o)) => Some(o as u64),
        Some(AttrModel::DebugInfoRef(o)) => Some(o as u64),
        _ => None,
    }
}

/// Reads a type reference attribute as an offset.
pub fn attr_type_ref(v: &Option<AttrValue>) -> (r: Option<u64>)
    ensures
        r == spec_attr_type_ref(opt_attr(*v)),
{
    match v {
        Some(AttrValue::UnitRef(o)) => Some(*o as u64),
        Some(AttrValue::DebugInfoRef(o)) => Some(*o as u64),
        _ => None,
    }
}

/// A copy of an optional string.
pub fn clone_opt_string(s: &Option<String>) -> (r: Option<String>)
    ensures
        r == *s,
{
    match s {
        Some(x) => Some(x.clone()),
        None => None,
    }
}

/// The characters of an optional string.
pub open spec fn opt_chars(s: Option<String>) -> Option<Seq<char>> {
    match s {
        Some(x) => Some(x@),
        None => None,
    }
}

/// The string of an attribute given inline; strings held in `.debug_str` are
/// not read.
pub open spec fn spec_entry_attr_string(v: Option<AttrModel>) -> Option<Seq<char>> {
    match v {
        Some(AttrModel::Str(b)) => Some(spec_lossy_utf8(b)),
        _ => None,
    }
}

/// Reads an attribute given as an inline string.
pub fn entry_attr_string(v: &Option<AttrValue>) -> (r: Option<String>)
    ensures
        opt_chars(r) == spec_entry_attr_string(opt_attr(*v)),
{
    match v {
        Some(AttrValue::Str(b)) => Some(lossy_utf8(b.as_slice())),
        _ => None,
    }
}

/// The string of an attribute given inline or as an offset into `.debug_str`.
pub open spec fn spec_dwarf_attr_string(v: AttrModel, debug_str: Seq<u8>) -> Option<Seq<char>> {
    match v {
        AttrModel::Str(b) => Some(spec_lossy_utf8(b)),
        AttrModel::DebugStrRef(o) => match spec_debug_str_at(debug_str, o) {
            Some(b) => Some(spec_lossy_utf8(b)),
            None => None,
        },
        _ => None,
    }
}

/// Reads an attribute given inline or as an offset into `.debug_str`.
pub fn dwarf_attr_string(v: &AttrValue, debug_str: &[u8]) -> (r: Option<String>)
    ensures
        opt_chars(r) == spec_dwarf_attr_string(v@, debug_str@),
{
    match v {
        AttrValue::Str(b) => Some(lossy_utf8(b.as_slice())),
        AttrValue::DebugStrRef(o) => match debug_str_at(debug_str, *o) {
            Some(b) => Some(lossy_utf8(b.as_slice())),
            None => None,
        },
        _ => None,
    }
}

/// The file name that a `DW_AT_decl_file` attribute designates, given the
/// path-name attribute of the file entry its index designates.
pub open spec fn spec_decl_file(v: Option<AttrModel>, path: Option<AttrModel>, debug_str: Seq<u8>) -> Option<
    Seq<char>,
> {
    match (v, path) {
        (Some(AttrModel::FileIndex(_)), Some(p)) => spec_dwarf_attr_string(p, debug_str),
        _ => None,
    }
}

/// Reads a `DW_AT_decl_file` attribute as the name of the file it designates;
/// `path` is the path-name attribute of the file entry of that index, if any.
pub fn decl_file(v: &Option<AttrValue>, path: &Option<AttrValue>, debug_str: &[u8]) -> (r: Option<String>)
    ensures
        opt_chars(r) == spec_decl_file(opt_attr(*v), opt_attr(*path), debug_str@),
{
    match (v, path) {
        (Some(AttrValue::FileIndex(_)), Some(p)) => dwarf_attr_string(p, debug_str),
        _ => None,
    }
}

/// The line that a `DW_AT_decl_line` attribute gives; only `udata` lines are read.
pub open spec fn spec_decl_line(v: Option<AttrModel>) -> Option<u32> {
    match v {
        Some(AttrModel::Udata(l)) => Some(l as u32),
        _ => None,
    }
}

/// Reads a `DW_AT_decl_line` attribute.
pub fn decl_line(v: &Option<AttrValue>) -> (r: Option<u32>)
    ensures
        r == spec_decl_line(opt_attr(*v)),
{
    match v {
        Some(AttrValue::Udata(l)) => Some(*l as u32),
        _ => None,
    }
}

/// The fixed address that a decoded first operation gives: the address of a
/// `DW_OP_addr`, truncated to 32 bits; the decoder's error; no address for any
/// other operation or an empty expression.
pub open spec fn spec_address_of(op: Result<Option<FirstOp>, Seq<char>>) -> Result<
    Option<u32>,
    Seq<char>,
> {
    match op {
        Ok(Some(FirstOp::Address(a))) => Ok(Some(a as u32)),
        Ok(_) => Ok(None),
        Err(m) => Err(m),
    }
}

/// The fixed address that a decoded first operation of a location gives.
pub fn address_of_first_op(op: Result<Option<FirstOp>, String>) -> (r: Result<Option<u32>, String>)
    ensures
        match (r, op) {
            (Ok(a), Ok(o)) => spec_address_of(Ok(o)) == Ok::<Option<u32>, Seq<char>>(a),
            (Err(m), Err(e)) => m == e,
            _ => false,
        },
{
    match op {
        Ok(Some(FirstOp::Address(a))) => Ok(Some(a as u32)),
        Ok(_) => Ok(None),
        Err(m) => Err(m),
    }
}

/// The fixed address that a `DW_AT_location` attribute gives: that of the
/// first operation of its expression (see [`spec_address_of`]); no address
/// when the attribute is absent or not an expression.
pub open spec fn spec_location_address(v: Option<AttrModel>, enc: UnitEncoding) -> Result<
    Option<u32>,
    Seq<char>,
> {
    match v {
        Some(AttrModel::Exprloc(b)) => spec_address_of(
            spec_first_operation(b, enc.address_size, enc.format, enc.version),
        ),
        _ => Ok(None),
    }
}

/// Reads the fixed address of a variable from its `DW_AT_location` attribute.
pub fn location_address(v: &Option<AttrValue>, enc: &UnitEncoding) -> (r: Result<Option<u32>, String>)
    ensures
        match r {
            Ok(a) => spec_location_address(opt_attr(*v), *enc) == Ok::<Option<u32>, Seq<char>>(a),
            Err(m) => spec_location_address(opt_attr(*v), *enc) == Err::<Option<u32>, Seq<char>>(m@),
        },
        (v matches Some(AttrValue::Exprloc(b)) && b@.len() >= 5 && b@[0] == DW_OP_ADDR
            && enc.address_size == 4) ==> (r matches Ok(Some(a)) && a == le_u32_at(
            v->0->Exprloc_0@,
            1,
        ) as u32),
        (v matches Some(AttrValue::Exprloc(b)) && b@.len() == 0) ==> (r matches Ok(None)),
{
    match v {
        Some(AttrValue::Exprloc(b)) => address_of_first_op(first_operation(b.as_slice(), enc)),
        _ => Ok(None),
    }
}

/// How each form of an attribute is read. An unsigned constant (`udata`,
/// `data1`, `data2`, `data4`) gives its value, truncated to 32 bits; a type
/// reference is a unit or `.debug_info` reference and gives its offset; an
/// entry name is an inline string, decoded from UTF-8 with replacement; a
/// declaration line is a `udata` constant. Any other form, or no attribute,
/// gives nothing.
pub proof fn law_attribute_forms(v: Option<AttrModel>)
    ensures
        v matches Some(AttrModel::Udata(x)) ==> spec_attr_u32(v) == Some(x as u32) && spec_decl_line(v)
            == Some(x as u32),
        v matches Some(AttrModel::Data1(x)) ==> spec_attr_u32(v) == Some(x as u32),
        v matches Some(AttrModel::Data2(x)) ==> spec_attr_u32(v) == Some(x as u32),
        v matches Some(AttrModel::Data4(x)) ==> spec_attr_u32(v) == Some(x),
        !(v matches Some(AttrModel::Udata(_)) || v matches Some(AttrModel::Data1(_)) || v matches Some(
            AttrModel::Data2(_),
        ) || v matches Some(AttrModel::Data4(_))) ==> spec_attr_u32(v) is None,
        !(v matches Some(AttrModel::Udata(_))) ==> spec_decl_line(v) is None,
        v matches Some(AttrModel::UnitRef(o)) ==> spec_attr_type_ref(v) == Some(o as u64),
        v matches Some(AttrModel::DebugInfoRef(o)) ==> spec_attr_type_ref(v) == Some(o as u64),
        !(v matches Some(AttrModel::UnitRef(_)) || v matches Some(AttrModel::DebugInfoRef(_)))
            ==> spec_attr_type_ref(v) is None,
        v matches Some(AttrModel::Str(b)) ==> spec_entry_attr_string(v) == Some(spec_lossy_utf8(b)),
        !(v matches Some(AttrModel::Str(_))) ==> spec_entry_attr_string(v) is None,
{
}

/// A declaration file is read only from a file index whose file entry has a
/// path: an inline path gives that string, a `.debug_str` path gives the
/// NUL-terminated string at its offset (nothing when there is none); a path of
/// any other form, a missing file entry, or an attribute that is not a file
/// index gives nothing.
pub proof fn law_decl_file(v: Option<AttrModel>, path: Option<AttrModel>, debug_str: Seq<u8>)
    ensures
        v matches Some(AttrModel::FileIndex(_)) ==> (path matches Some(AttrModel::Str(b)) ==> spec_decl_file(
            v,
            path,
            debug_str,
        ) == Some(spec_lossy_utf8(b))),
        v matches Some(AttrModel::FileIndex(_)) ==> (path matches Some(AttrModel::DebugStrRef(o)) ==> spec_decl_file(
            v,
            path,
            debug_str,
        ) == (match first_nul_from(debug_str, o as int) {
            Some(k) => Some(spec_lossy_utf8(debug_str.subrange(o as int, k))),
            None => None,
        })),
        !(path matches Some(AttrModel::Str(_)) || path matches Some(AttrModel::DebugStrRef(_))) ==> spec_decl_file(
            v,
            path,
            debug_str,
        ) is None,
        !(v matches Some(AttrModel::FileIndex(_))) ==> spec_decl_file(v, path, debug_str) is None,
{
}

/// A variable's fixed address comes from a location expression only: when
/// its first operation is `DW_OP_addr`, the address (its low 32 bits); when
/// it is any other operation or the expression is empty, no address; when it
/// cannot be decoded, the decoder's text. A location of any other form, or
/// none, gives no address.
pub proof fn law_location_address(v: Option<AttrModel>, enc: UnitEncoding)
    ensures
        v matches Some(AttrModel::Exprloc(b)) ==> (spec_first_operation(
            b,
            enc.address_size,
            enc.format,
            enc.version,
        ) matches Ok(Some(FirstOp::Address(a))) ==> spec_location_address(v, enc) == Ok::<
            Option<u32>,
            Seq<char>,
        >(Some(a as u32))),
        v matches Some(AttrModel::Exprloc(b)) ==> (spec_first_operation(
            b,
            enc.address_size,
            enc.format,
            enc.version,
        ) matches Ok(Some(FirstOp::Other)) ==> spec_location_address(v, enc) == Ok::<Option<u32>, Seq<char>>(
            None,
        )),
        v matches Some(AttrModel::Exprloc(b)) ==> (spec_first_operation(
            b,
            enc.address_size,
            enc.format,
            enc.version,
        ) matches Ok(None) ==> spec_location_address(v, enc) == Ok::<Option<u32>, Seq<char>>(None)),
        v matches Some(AttrModel::Exprloc(b)) ==> (spec_first_operation(
            b,
            enc.address_size,
            enc.format,
            enc.version,
        ) matches Err(m) ==> spec_location_address(v, enc) == Err::<Option<u32>, Seq<char>>(m)),
        !(v matches Some(AttrModel::Exprloc(_))) ==> spec_location_address(v, enc) == Ok::<
            Option<u32>,
            Seq<char>,
        >(None),
{
}

} // verus!
