//! DWARF debugging information as the variable browser sees it: the global
//! variables with a fixed address, the types they refer to, and the source
//! files of each unit.
use std::collections::HashMap;

use vstd::prelude::*;

use crate::elf::attr::{
    attr_type_ref, attr_u32, attrs_view, clone_opt_string, decl_file, decl_line,
    dwarf_attr_string, entry_attr_string, location_address, opt_attr, opt_chars,
    spec_attr_type_ref, spec_attr_u32, spec_decl_file, spec_decl_line, spec_dwarf_attr_string,
    spec_entry_attr_string, spec_location_address, AttrModel, AttrValue, UnitEncoding,
};
pub use crate::elf::reader::parse_dwarf_sections;

verus! {

broadcast use vstd::std_specs::hash::group_hash_axioms;

pub const DW_TAG_ARRAY_TYPE: u16 = 0x01;
pub const DW_TAG_ENUMERATION_TYPE: u16 = 0x04;
pub const DW_TAG_MEMBER: u16 = 0x0d;
pub const DW_TAG_POINTER_TYPE: u16 = 0x0f;
pub const DW_TAG_STRUCTURE_TYPE: u16 = 0x13;
pub const DW_TAG_TYPEDEF: u16 = 0x16;
pub const DW_TAG_UNION_TYPE: u16 = 0x17;
pub const DW_TAG_SUBRANGE_TYPE: u16 = 0x21;
pub const DW_TAG_BASE_TYPE: u16 = 0x24;
pub const DW_TAG_CONST_TYPE: u16 = 0x26;
pub const DW_TAG_VARIABLE: u16 = 0x34;
pub const DW_TAG_VOLATILE_TYPE: u16 = 0x35;
pub const DW_TAG_RESTRICT_TYPE: u16 = 0x37;

/// What DWARF parsing yields: the addressable variables, the types by the
/// offset of their entry, and the source files named by the units.
pub struct DwarfResult {
    pub variables: Vec<DwarfVarInfo>,
    pub types: HashMap<u64, DwarfTypeInfo>,
    pub source_files: Vec<String>,
}

/// A variable with a fixed address.
pub struct DwarfVarInfo {
    pub name: String,
    pub address: u32,
    pub type_offset: u64,
    pub source_file: Option<String>,
    pub source_line: Option<u32>,
}

/// A type, as far as sampling needs it.
pub enum DwarfTypeInfo {
    Base { name: String, byte_size: u32 },
    Alias { name: String, target_offset: u64 },
    Struct { name: String, byte_size: u32, members: Vec<StructMember> },
    Array { element_type_offset: u64, element_count: u32, byte_size: u32 },
    Pointer { byte_size: u32 },
}

/// A direct member of a structure or union.
pub struct StructMember {
    pub name: String,
    pub type_offset: u64,
    pub member_offset: u32,
}

/// The abstract value of a [`DwarfVarInfo`].
pub struct VarModel {
    pub name: Seq<char>,
    pub address: u32,
    pub type_offset: u64,
    pub source_file: Option<Seq<char>>,
    pub source_line: Option<u32>,
}

impl View for DwarfVarInfo {
    type V = VarModel;

    open spec fn view(&self) -> VarModel {
        VarModel {
            name: self.name@,
            address: self.address,
            type_offset: self.type_offset,
            source_file: opt_chars(self.source_file),
            source_line: self.source_line,
        }
    }
}

/// The abstract value of a [`StructMember`].
pub struct MemberModel {
    pub name: Seq<char>,
    pub type_offset: u64,
    pub member_offset: u32,
}

/// The abstract value of a [`DwarfTypeInfo`].
pub enum TypeModel {
    Base { name: Seq<char>, byte_size: u32 },
    Alias { name: Seq<char>, target_offset: u64 },
    Struct { name: Seq<char>, byte_size: u32, members: Seq<MemberModel> },
    Array { element_type_offset: u64, element_count: u32, byte_size: u32 },
    Pointer { byte_size: u32 },
}

impl View for StructMember {
    type V = MemberModel;

    open spec fn view(&self) -> MemberModel {
        MemberModel { name: self.name@, type_offset: self.type_offset, member_offset: self.member_offset }
    }
}

pub open spec fn members_view(members: Seq<StructMember>) -> Seq<MemberModel> {
    members.map_values(|m: StructMember| m@)
}

impl View for DwarfTypeInfo {
    type V = TypeModel;

    open spec fn view(&self) -> TypeModel {
        match self {
            DwarfTypeInfo::Base { name, byte_size } => TypeModel::Base { name: name@, byte_size: *byte_size },
            DwarfTypeInfo::Alias { name, target_offset } => TypeModel::Alias {
                name: name@,
                target_offset: *target_offset,
            },
            DwarfTypeInfo::Struct { name, byte_size, members } => TypeModel::Struct {
                name: name@,
                byte_size: *byte_size,
                members: members_view(members@),
            },
            DwarfTypeInfo::Array { element_type_offset, element_count, byte_size } => TypeModel::Array {
                element_type_offset: *element_type_offset,
                element_count: *element_count,
                byte_size: *byte_size,
            },
            DwarfTypeInfo::Pointer { byte_size } => TypeModel::Pointer { byte_size: *byte_size },
        }
    }
}

/// The characters of each of a list of strings.
pub open spec fn strings_view(s: Seq<String>) -> Seq<Seq<char>> {
    s.map_values(|x: String| x@)
}

impl DwarfResult {
    /// The variables, each by its abstract value.
    pub open spec fn var_models(&self) -> Seq<VarModel> {
        self.variables@.map_values(|v: DwarfVarInfo| v@)
    }

    /// The types, each by its abstract value.
    pub open spec fn type_models(&self) -> Map<u64, TypeModel> {
        Map::new(|k: u64| self.types@.contains_key(k), |k: u64| self.types@[k]@)
    }

    /// The names of the source files.
    pub open spec fn file_names(&self) -> Seq<Seq<char>> {
        strings_view(self.source_files@)
    }

    /// An empty result.
    pub fn new() -> (r: DwarfResult)
        ensures
            r.var_models() == Seq::<VarModel>::empty(),
            r.type_models() == Map::<u64, TypeModel>::empty(),
            r.file_names() == Seq::<Seq<char>>::empty(),
    {
        let r = DwarfResult { variables: Vec::new(), types: HashMap::new(), source_files: Vec::new() };
        assert(r.type_models() =~= Map::<u64, TypeModel>::empty());
        assert(r.var_models() =~= Seq::<VarModel>::empty());
        assert(r.file_names() =~= Seq::<Seq<char>>::empty());
        r
    }
}

/// One debugging-information entry, with the attributes the browser reads,
/// as handed over by the DWARF reader in depth-first order.
pub struct DieEntry {
    /// The offset of the entry within its unit.
    pub offset: u64,
    /// The entry's tag (`DW_TAG_*`).
    pub tag: u16,
    /// The change of tree depth from the entry before.
    pub depth_delta: isize,
    pub name: Option<AttrValue>,
    pub byte_size: Option<AttrValue>,
    pub type_ref: Option<AttrValue>,
    pub location: Option<AttrValue>,
    pub data_member_location: Option<AttrValue>,
    pub upper_bound: Option<AttrValue>,
    pub count: Option<AttrValue>,
    pub decl_file: Option<AttrValue>,
    /// The path-name attribute of the file entry that `decl_file` designates.
    pub decl_file_path: Option<AttrValue>,
    pub decl_line: Option<AttrValue>,
}

/// The abstract value of a [`DieEntry`].
pub struct EntryModel {
    pub offset: u64,
    pub tag: u16,
    pub depth_delta: isize,
    pub name: Option<AttrModel>,
    pub byte_size: Option<AttrModel>,
    pub type_ref: Option<AttrModel>,
    pub location: Option<AttrModel>,
    pub data_member_location: Option<AttrModel>,
    pub upper_bound: Option<AttrModel>,
    pub count: Option<AttrModel>,
    pub decl_file: Option<AttrModel>,
    pub decl_file_path: Option<AttrModel>,
    pub decl_line: Option<AttrModel>,
}

impl View for DieEntry {
    type V = EntryModel;

    open spec fn view(&self) -> EntryModel {
        EntryModel {
            offset: self.offset,
            tag: self.tag,
            depth_delta: self.depth_delta,
            name: opt_attr(self.name),
            byte_size: opt_attr(self.byte_size),
            type_ref: opt_attr(self.type_ref),
            location: opt_attr(self.location),
            data_member_location: opt_attr(self.data_member_location),
            upper_bound: opt_attr(self.upper_bound),
            count: opt_attr(self.count),
            decl_file: opt_attr(self.decl_file),
            decl_file_path: opt_attr(self.decl_file_path),
            decl_line: opt_attr(self.decl_line),
        }
    }
}

/// A debugging-information entry reduced to what the browser needs, with its
/// depth in the unit's tree.
pub struct RawDie {
    pub offset: u64,
    pub tag: u16,
    pub depth: usize,
    pub name: Option<String>,
    pub byte_size: Option<u32>,
    pub type_ref: Option<u64>,
    pub address: Option<u32>,
    pub member_offset: Option<u32>,
    pub upper_bound: Option<u32>,
    pub count: Option<u32>,
    pub source_file: Option<String>,
    pub source_line: Option<u32>,
}

/// The abstract value of a [`RawDie`].
pub struct RawDieModel {
    pub offset: u64,
    pub tag: u16,
    pub depth: usize,
    pub name: Option<Seq<char>>,
    pub byte_size: Option<u32>,
    pub type_ref: Option<u64>,
    pub address: Option<u32>,
    pub member_offset: Option<u32>,
    pub upper_bound: Option<u32>,
    pub count: Option<u32>,
    pub source_file: Option<Seq<char>>,
    pub source_line: Option<u32>,
}

impl View for RawDie {
    type V = RawDieModel;

    open spec fn view(&self) -> RawDieModel {
        RawDieModel {
            offset: self.offset,
            tag: self.tag,
            depth: self.depth,
            name: opt_chars(self.name),
            byte_size: self.byte_size,
            type_ref: self.type_ref,
            address: self.address,
            member_offset: self.member_offset,
            upper_bound: self.upper_bound,
            count: self.count,
            source_file: opt_chars(self.source_file),
            source_line: self.source_line,
        }
    }
}

/// The abstract values of a list of reduced entries.
pub open spec fn dies_view(d: Seq<RawDie>) -> Seq<RawDieModel> {
    d.map_values(|x: RawDie| x@)
}

/// The depth of an entry that follows an entry at depth `prev` with the
/// given change of depth; never negative, and at most `isize::MAX`.
pub open spec fn spec_next_depth(prev: usize, delta: isize) -> usize {
    let d = prev + delta;
    if d <= 0 {
        0
    } else if d > isize::MAX {
        isize::MAX as usize
    } else {
        d as usize
    }
}

/// The depth of an entry that follows an entry at depth `prev`.
pub fn next_depth(prev: usize, delta: isize) -> (r: usize)
    ensures
        r == spec_next_depth(prev, delta),
{
    let d: i128 = prev as i128 + delta as i128;
    if d <= 0 {
        0
    } else if d > isize::MAX as i128 {
        isize::MAX as usize
    } else {
        d as usize
    }
}

/// The depth of an entry that follows entries whose last one lies at depth
/// `prev` (`None` for the first entry of a unit, which lies at depth 0).
pub open spec fn spec_depth_after(prev: Option<usize>, delta: isize) -> usize {
    match prev {
        None => 0usize,
        Some(p) => spec_next_depth(p, delta),
    }
}

/// The reduced form of entry `e`, which follows entries whose last one lies at
/// depth `prev`: the address, file and line are read for variables only, the
/// member offset for members only, and the bounds for subranges only. A
/// variable whose location expression cannot be decoded gives the decoder's
/// error text.
pub open spec fn spec_raw_die(e: EntryModel, prev: Option<usize>, enc: UnitEncoding, debug_str: Seq<u8>) -> Result<
    RawDieModel,
    Seq<char>,
> {
    let is_var = e.tag == DW_TAG_VARIABLE;
    let address = if is_var {
        spec_location_address(e.location, enc)
    } else {
        Ok(None)
    };
    match address {
        Err(m) => Err(m),
        Ok(address) => Ok(
            RawDieModel {
                offset: e.offset,
                tag: e.tag,
                depth: spec_depth_after(prev, e.depth_delta),
                name: spec_entry_attr_string(e.name),
                byte_size: spec_attr_u32(e.byte_size),
                type_ref: spec_attr_type_ref(e.type_ref),
                address,
                member_offset: if e.tag == DW_TAG_MEMBER {
                    spec_attr_u32(e.data_member_location)
                } else {
                    None
                },
                upper_bound: if e.tag == DW_TAG_SUBRANGE_TYPE {
                    spec_attr_u32(e.upper_bound)
                } else {
                    None
                },
                count: if e.tag == DW_TAG_SUBRANGE_TYPE {
                    spec_attr_u32(e.count)
                } else {
                    None
                },
                source_file: if is_var {
                    spec_decl_file(e.decl_file, e.decl_file_path, debug_str)
                } else {
                    None
                },
                source_line: if is_var {
                    spec_decl_line(e.decl_line)
                } else {
                    None
                },
            },
        ),
    }
}

/// Reduces an entry that follows entries whose last one lies at depth `prev`;
/// see [`spec_raw_die`].
pub fn raw_die(e: &DieEntry, prev: Option<usize>, enc: &UnitEncoding, debug_str: &[u8]) -> (r: Result<
    RawDie,
    String,
>)
    ensures
        match r {
            Ok(d) => spec_raw_die(e@, prev, *enc, debug_str@) == Ok::<RawDieModel, Seq<char>>(d@),
            Err(m) => spec_raw_die(e@, prev, *enc, debug_str@) == Err::<RawDieModel, Seq<char>>(m@),
        },
{
    let is_var = e.tag == DW_TAG_VARIABLE;
    let depth = match prev {
        None => 0usize,
        Some(p) => next_depth(p, e.depth_delta),
    };
    let address = if is_var {
        location_address(&e.location, enc)?
    } else {
        None
    };
    let member_offset = if e.tag == DW_TAG_MEMBER {
        attr_u32(&e.data_member_location)
    } else {
        None
    };
    let (upper_bound, count) = if e.tag == DW_TAG_SUBRANGE_TYPE {
        (attr_u32(&e.upper_bound), attr_u32(&e.count))
    } else {
        (None, None)
    };
    let source_file = if is_var {
        decl_file(&e.decl_file, &e.decl_file_path, debug_str)
    } else {
        None
    };
    let source_line = if is_var {
        decl_line(&e.decl_line)
    } else {
        None
    };
    Ok(
        RawDie {
            offset: e.offset,
            tag: e.tag,
            depth,
            name: entry_attr_string(&e.name),
            byte_size: attr_u32(&e.byte_size),
            type_ref: attr_type_ref(&e.type_ref),
            address,
            member_offset,
            upper_bound,
            count,
            source_file,
            source_line,
        },
    )
}

// ─── What the entries of a unit contribute ──────────────────────────────────

/// A name, or the given default when there is none.
pub open spec fn name_or(n: Option<Seq<char>>, default: Seq<char>) -> Seq<char> {
    match n {
        Some(s) => s,
        None => default,
    }
}

/// An optional number, or the given default when there is none.
pub open spec fn u32_or(n: Option<u32>, default: u32) -> u32 {
    match n {
        Some(v) => v,
        None => default,
    }
}

/// The variable that an entry declares: one with a name, a fixed address and
/// a type.
pub open spec fn spec_var_of(d: RawDieModel) -> Option<VarModel> {
    if d.tag == DW_TAG_VARIABLE && d.name is Some && d.address is Some && d.type_ref is Some {
        Some(
            VarModel {
                name: d.name->0,
                address: d.address->0,
                type_offset: d.type_ref->0,
                source_file: d.source_file,
                source_line: d.source_line,
            },
        )
    } else {
        None
    }
}

/// The variables declared by the first `n` entries, in order.
pub open spec fn spec_vars_upto(dies: Seq<RawDieModel>, n: int) -> Seq<VarModel>
    decreases n,
{
    if n <= 0 {
        Seq::empty()
    } else {
        let prev = spec_vars_upto(dies, n - 1);
        match spec_var_of(dies[n - 1]) {
            Some(v) => prev.push(v),
            None => prev,
        }
    }
}

/// The index just past the descendants of entry `i`, searching from `j`:
/// descendants are the entries after `i` that lie deeper than it.
pub open spec fn subtree_end(dies: Seq<RawDieModel>, i: int, j: int) -> int
    decreases dies.len() - j,
{
    if 0 <= j < dies.len() && dies[j].depth > dies[i].depth {
        subtree_end(dies, i, j + 1)
    } else {
        j
    }
}

/// A structure member as described by its entry.
pub open spec fn member_of(d: RawDieModel) -> MemberModel {
    MemberModel {
        name: name_or(d.name, Seq::empty()),
        type_offset: match d.type_ref {
            Some(t) => t,
            None => 0,
        },
        member_offset: u32_or(d.member_offset, 0),
    }
}

/// The members among entries `lo..hi` that are direct children of entry `i`.
pub open spec fn members_between(dies: Seq<RawDieModel>, i: int, lo: int, hi: int) -> Seq<MemberModel>
    decreases hi - lo,
{
    if hi <= lo {
        Seq::empty()
    } else {
        let prev = members_between(dies, i, lo, hi - 1);
        let d = dies[hi - 1];
        if d.tag == DW_TAG_MEMBER && d.depth == dies[i].depth + 1 {
            prev.push(member_of(d))
        } else {
            prev
        }
    }
}

/// The direct members of the structure or union at entry `i`.
pub open spec fn struct_members(dies: Seq<RawDieModel>, i: int) -> Seq<MemberModel> {
    members_between(dies, i, i + 1, subtree_end(dies, i, i + 1))
}

/// The element count that the subranges among entries `lo..hi` give: that of
/// the last subrange with a count or an upper bound (its count, else its upper
/// bound plus one, wrapping at 2^32), or 0 when there is none.
pub open spec fn element_count_between(dies: Seq<RawDieModel>, lo: int, hi: int) -> u32
    decreases hi - lo,
{
    if hi <= lo {
        0
    } else {
        let prev = element_count_between(dies, lo, hi - 1);
        let d = dies[hi - 1];
        if d.tag == DW_TAG_SUBRANGE_TYPE {
            match d.count {
                Some(c) => c,
                None => match d.upper_bound {
                    Some(u) => if u == u32::MAX {
                        0
                    } else {
                        (u + 1) as u32
                    },
                    None => prev,
                },
            }
        } else {
            prev
        }
    }
}

/// The element count of the array at entry `i`, from the subranges among its
/// descendants.
pub open spec fn array_element_count(dies: Seq<RawDieModel>, i: int) -> u32 {
    element_count_between(dies, i + 1, subtree_end(dies, i, i + 1))
}

/// The type that entry `i` describes, if it describes one.
pub open spec fn spec_type_at(dies: Seq<RawDieModel>, i: int) -> Option<TypeModel> {
    let d = dies[i];
    if d.tag == DW_TAG_BASE_TYPE {
        Some(TypeModel::Base { name: name_or(d.name, "unknown"@), byte_size: u32_or(d.byte_size, 4) })
    } else if d.tag == DW_TAG_TYPEDEF || d.tag == DW_TAG_CONST_TYPE || d.tag == DW_TAG_VOLATILE_TYPE
        || d.tag == DW_TAG_RESTRICT_TYPE {
        match d.type_ref {
            Some(t) => Some(TypeModel::Alias { name: name_or(d.name, Seq::empty()), target_offset: t }),
            None => None,
        }
    } else if d.tag == DW_TAG_ENUMERATION_TYPE {
        Some(TypeModel::Base { name: name_or(d.name, "enum"@), byte_size: u32_or(d.byte_size, 4) })
    } else if d.tag == DW_TAG_STRUCTURE_TYPE || d.tag == DW_TAG_UNION_TYPE {
        Some(
            TypeModel::Struct {
                name: name_or(d.name, "anonymous"@),
                byte_size: u32_or(d.byte_size, 0),
                members: struct_members(dies, i),
            },
        )
    } else if d.tag == DW_TAG_ARRAY_TYPE {
        match d.type_ref {
            Some(t) => Some(
                TypeModel::Array {
                    element_type_offset: t,
                    element_count: array_element_count(dies, i),
                    byte_size: u32_or(d.byte_size, 0),
                },
            ),
            None => None,
        }
    } else if d.tag == DW_TAG_POINTER_TYPE {
        Some(TypeModel::Pointer { byte_size: u32_or(d.byte_size, 4) })
    } else {
        None
    }
}

/// The type table after the types of the first `n` entries are entered into
/// `m`, in order; an entry replaces the type recorded before at its offset.
pub open spec fn spec_types_upto(m: Map<u64, TypeModel>, dies: Seq<RawDieModel>, n: int) -> Map<
    u64,
    TypeModel,
>
    decreases n,
{
    if n <= 0 {
        m
    } else {
        let prev = spec_types_upto(m, dies, n - 1);
        match spec_type_at(dies, n - 1) {
            Some(t) => prev.insert(dies[n - 1].offset, t),
            None => prev,
        }
    }
}

proof fn lemma_subtree_end(dies: Seq<RawDieModel>, i: int, m: int, j: int)
    requires
        0 <= i < dies.len(),
        i < m <= j <= dies.len(),
        forall|k: int| m <= k < j ==> #[trigger] dies[k].depth > dies[i].depth,
        j == dies.len() || dies[j].depth <= dies[i].depth,
    ensures
        subtree_end(dies, i, m) == j,
    decreases j - m,
{
    if m < j {
        lemma_subtree_end(dies, i, m + 1, j);
    }
}

/// A copy of a name, or the given default when there is none.
fn string_or(n: &Option<String>, default: &str) -> (r: String)
    ensures
        r@ == name_or(opt_chars(*n), default@),
{
    match n {
        Some(s) => s.clone(),
        None => default.to_owned(),
    }
}

/// A copy of a name, or an empty name when there is none.
fn string_or_empty(n: &Option<String>) -> (r: String)
    ensures
        r@ == name_or(opt_chars(*n), Seq::empty()),
{
    match n {
        Some(s) => s.clone(),
        None => String::new(),
    }
}

/// The direct members of the structure at entry `i`.
fn collect_members(raw_dies: &[RawDie], i: usize) -> (r: Vec<StructMember>)
    requires
        i < raw_dies@.len(),
    ensures
        members_view(r@) == struct_members(dies_view(raw_dies@), i as int),
{
    let len = raw_dies.len();
    let parent_depth = raw_dies[i].depth;
    let mut members: Vec<StructMember> = Vec::new();
    let mut j = i + 1;
    while j < len && raw_dies[j].depth > parent_depth
        invariant
            len == raw_dies@.len(),
            i < len,
            parent_depth == raw_dies@[i as int].depth,
            i < j <= len,
            forall|k: int| i < k < j ==> #[trigger] raw_dies@[k].depth > parent_depth,
            members_view(members@) == members_between(dies_view(raw_dies@), i as int, i + 1, j as int),
        decreases len - j,
    {
        let d = &raw_dies[j];
        if d.tag == DW_TAG_MEMBER && d.depth - 1 == parent_depth {
            let m = StructMember {
                name: string_or_empty(&d.name),
                type_offset: match d.type_ref {
                    Some(t) => t,
                    None => 0,
                },
                member_offset: match d.member_offset {
                    Some(o) => o,
                    None => 0,
                },
            };
            let ghost before = members@;
            members.push(m);
            assert(members_view(members@) =~= members_view(before).push(m@));
        }
        j += 1;
    }
    proof {
        lemma_subtree_end(dies_view(raw_dies@), i as int, i + 1, j as int);
    }
    members
}

/// The element count of the array at entry `i`.
fn count_elements(raw_dies: &[RawDie], i: usize) -> (r: u32)
    requires
        i < raw_dies@.len(),
    ensures
        r == array_element_count(dies_view(raw_dies@), i as int),
{
    let len = raw_dies.len();
    let parent_depth = raw_dies[i].depth;
    let mut element_count: u32 = 0;
    let mut j = i + 1;
    while j < len && raw_dies[j].depth > parent_depth
        invariant
            len == raw_dies@.len(),
            i < len,
            parent_depth == raw_dies@[i as int].depth,
            i < j <= len,
            forall|k: int| i < k < j ==> #[trigger] raw_dies@[k].depth > parent_depth,
            element_count == element_count_between(dies_view(raw_dies@), i + 1, j as int),
        decreases len - j,
    {
        let d = &raw_dies[j];
        if d.tag == DW_TAG_SUBRANGE_TYPE {
            if let Some(c) = d.count {
                element_count = c;
            } else if let Some(upper) = d.upper_bound {
                element_count = if upper == u32::MAX {
                    0
                } else {
                    upper + 1
                };
            }
        }
        j += 1;
    }
    proof {
        lemma_subtree_end(dies_view(raw_dies@), i as int, i + 1, j as int);
    }
    element_count
}

/// The type that entry `i` describes, if it describes one.
fn type_at(raw_dies: &[RawDie], i: usize) -> (r: Option<DwarfTypeInfo>)
    requires
        i < raw_dies@.len(),
    ensures
        match r {
            Some(t) => spec_type_at(dies_view(raw_dies@), i as int) == Some(t@),
            None => spec_type_at(dies_view(raw_dies@), i as int) is None,
        },
{
    let die = &raw_dies[i];
    let tag = die.tag;
    if tag == DW_TAG_BASE_TYPE {
        let name = string_or(&die.name, "unknown");
        let byte_size = match die.byte_size {
            Some(b) => b,
            None => 4,
        };
        Some(DwarfTypeInfo::Base { name, byte_size })
    } else if tag == DW_TAG_TYPEDEF || tag == DW_TAG_CONST_TYPE || tag == DW_TAG_VOLATILE_TYPE || tag
        == DW_TAG_RESTRICT_TYPE {
        match die.type_ref {
            Some(target) => {
                let name = string_or_empty(&die.name);
                Some(DwarfTypeInfo::Alias { name, target_offset: target })
            },
            None => None,
        }
    } else if tag == DW_TAG_ENUMERATION_TYPE {
        let name = string_or(&die.name, "enum");
        let byte_size = match die.byte_size {
            Some(b) => b,
            None => 4,
        };
        Some(DwarfTypeInfo::Base { name, byte_size })
    } else if tag == DW_TAG_STRUCTURE_TYPE || tag == DW_TAG_UNION_TYPE {
        let name = string_or(&die.name, "anonymous");
        let byte_size = match die.byte_size {
            Some(b) => b,
            None => 0,
        };
        let members = collect_members(raw_dies, i);
        Some(DwarfTypeInfo::Struct { name, byte_size, members })
    } else if tag == DW_TAG_ARRAY_TYPE {
        match die.type_ref {
            Some(elem_type) => {
                let byte_size = match die.byte_size {
                    Some(b) => b,
                    None => 0,
                };
                let element_count = count_elements(raw_dies, i);
                Some(DwarfTypeInfo::Array { element_type_offset: elem_type, element_count, byte_size })
            },
            None => None,
        }
    } else if tag == DW_TAG_POINTER_TYPE {
        let byte_size = match die.byte_size {
            Some(b) => b,
            None => 4,
        };
        Some(DwarfTypeInfo::Pointer { byte_size })
    } else {
        None
    }
}

/// Enters the variables and types that a unit's entries describe into
/// `result`: each variable with a name, a fixed address and a type is appended
/// in order, and each type is recorded at the offset of its entry, replacing
/// any type recorded there before.
pub fn process_raw_dies(raw_dies: &[RawDie], result: &mut DwarfResult)
    ensures
        final(result).var_models() == old(result).var_models() + spec_vars_upto(
            dies_view(raw_dies@),
            raw_dies@.len() as int,
        ),
        final(result).type_models() == spec_types_upto(
            old(result).type_models(),
            dies_view(raw_dies@),
            raw_dies@.len() as int,
        ),
        final(result).source_files@ == old(result).source_files@,
{
    let len = raw_dies.len();
    let mut i: usize = 0;
    while i < len
        invariant
            len == raw_dies@.len(),
            0 <= i <= len,
            result.var_models() == old(result).var_models() + spec_vars_upto(
                dies_view(raw_dies@),
                i as int,
            ),
            result.type_models() == spec_types_upto(
                old(result).type_models(),
                dies_view(raw_dies@),
                i as int,
            ),
            result.source_files@ == old(result).source_files@,
        decreases len - i,
    {
        let die = &raw_dies[i];
        if die.tag == DW_TAG_VARIABLE {
            if let (Some(name), Some(address), Some(type_offset)) = (&die.name, die.address, die.type_ref) {
                let v = DwarfVarInfo {
                    name: name.clone(),
                    address,
                    type_offset,
                    source_file: clone_opt_string(&die.source_file),
                    source_line: die.source_line,
                };
                let ghost before = result.var_models();
                result.variables.push(v);
                assert(result.var_models() =~= before.push(v@));
            }
        }
        assert(dies_view(raw_dies@)[i as int] == raw_dies@[i as int]@);
        assert(result.var_models() =~= old(result).var_models() + spec_vars_upto(
            dies_view(raw_dies@),
            i + 1,
        ));
        let ghost before = result.type_models();
        match type_at(raw_dies, i) {
            Some(t) => {
                let ghost tv = t@;
                result.types.insert(die.offset, t);
                assert(result.type_models() =~= before.insert(die.offset, tv));
            },
            None => {},
        }
        i += 1;
    }
}

// ─── Units ──────────────────────────────────────────────────────────────────

/// The depth of the last entry collected, if any.
pub open spec fn last_depth(dies: Seq<RawDieModel>) -> Option<usize> {
    if dies.len() == 0 {
        None
    } else {
        Some(dies.last().depth)
    }
}

/// The number of variable entries among the first `n`.
pub open spec fn spec_count_variables(dies: Seq<RawDieModel>, n: int) -> nat
    decreases n,
{
    if n <= 0 {
        0
    } else {
        spec_count_variables(dies, n - 1) + if dies[n - 1].tag == DW_TAG_VARIABLE {
            1nat
        } else {
            0nat
        }
    }
}

/// The number of variable entries with a fixed address among the first `n`.
pub open spec fn spec_count_addressed(dies: Seq<RawDieModel>, n: int) -> nat
    decreases n,
{
    if n <= 0 {
        0
    } else {
        spec_count_addressed(dies, n - 1) + if dies[n - 1].tag == DW_TAG_VARIABLE
            && dies[n - 1].address is Some {
            1nat
        } else {
            0nat
        }
    }
}

proof fn lemma_counts_bounded(dies: Seq<RawDieModel>, n: int)
    requires
        0 <= n <= dies.len(),
    ensures
        spec_count_addressed(dies, n) <= spec_count_variables(dies, n) <= n,
    decreases n,
{
    if n > 0 {
        lemma_counts_bounded(dies, n - 1);
    }
}

/// The entries of one unit, reduced, in depth-first order, with the unit's
/// encoding.
pub struct UnitDies {
    pub encoding: UnitEncoding,
    pub dies: Vec<RawDie>,
}

impl UnitDies {
    /// No entries yet.
    pub fn new(encoding: UnitEncoding) -> (r: UnitDies)
        ensures
            r.encoding == encoding,
            r.dies@ == Seq::<RawDie>::empty(),
    {
        UnitDies { encoding, dies: Vec::new() }
    }

    /// Reduces the next entry of the unit and appends it; its depth follows
    /// from that of the entry before (the first entry lies at depth 0). A
    /// variable whose location cannot be decoded is an error, and nothing is
    /// appended.
    pub fn push_entry(&mut self, e: &DieEntry, debug_str: &[u8]) -> (r: Result<(), String>)
        ensures
            final(self).encoding == old(self).encoding,
            match spec_raw_die(e@, last_depth(dies_view(old(self).dies@)), old(self).encoding, debug_str@) {
                Ok(d) => r is Ok && dies_view(final(self).dies@) == dies_view(old(self).dies@).push(d),
                Err(m) => (r matches Err(x) && x@ == m) && final(self).dies@ == old(self).dies@,
            },
    {
        let prev = if self.dies.len() == 0 {
            None
        } else {
            Some(self.dies[self.dies.len() - 1].depth)
        };
        let d = raw_die(e, prev, &self.encoding, debug_str)?;
        let ghost before = dies_view(self.dies@);
        self.dies.push(d);
        assert(dies_view(self.dies@) =~= before.push(d@));
        Ok(())
    }

    /// The number of variable entries, and of those that have a fixed address.
    pub fn variable_counts(&self) -> (r: (usize, usize))
        ensures
            r.0 == spec_count_variables(dies_view(self.dies@), self.dies@.len() as int),
            r.1 == spec_count_addressed(dies_view(self.dies@), self.dies@.len() as int),
            r.1 <= r.0,
    {
        let len = self.dies.len();
        let mut total: usize = 0;
        let mut addressed: usize = 0;
        let mut i: usize = 0;
        while i < len
            invariant
                len == self.dies@.len(),
                0 <= i <= len,
                total == spec_count_variables(dies_view(self.dies@), i as int),
                addressed == spec_count_addressed(dies_view(self.dies@), i as int),
            decreases len - i,
        {
            proof {
                lemma_counts_bounded(dies_view(self.dies@), i as int);
            }
            assert(dies_view(self.dies@)[i as int] == self.dies@[i as int]@);
            if self.dies[i].tag == DW_TAG_VARIABLE {
                total += 1;
                if self.dies[i].address.is_some() {
                    addressed += 1;
                }
            }
            i += 1;
        }
        proof {
            lemma_counts_bounded(dies_view(self.dies@), len as int);
        }
        (total, addressed)
    }
}

// ─── Source files ───────────────────────────────────────────────────────────

/// The file list with `name` appended, unless it already holds it.
pub open spec fn with_file(files: Seq<Seq<char>>, name: Seq<char>) -> Seq<Seq<char>> {
    if files.contains(name) {
        files
    } else {
        files.push(name)
    }
}

/// The name that a file entry's path attribute gives, if any.
pub open spec fn path_name(v: AttrModel, debug_str: Seq<u8>) -> Option<Seq<char>> {
    spec_dwarf_attr_string(v, debug_str)
}

/// The file list after the names of the first `n` path attributes are added
/// in order, each only if not yet present.
pub open spec fn with_paths(
    files: Seq<Seq<char>>,
    paths: Seq<AttrModel>,
    debug_str: Seq<u8>,
    n: int,
) -> Seq<Seq<char>>
    decreases n,
{
    if n <= 0 {
        files
    } else {
        let prev = with_paths(files, paths, debug_str, n - 1);
        match path_name(paths[n - 1], debug_str) {
            Some(name) => with_file(prev, name),
            None => prev,
        }
    }
}

/// The names of the first `n` path attributes that give one.
pub open spec fn path_names(paths: Seq<AttrModel>, debug_str: Seq<u8>, n: int) -> Set<Seq<char>>
    decreases n,
{
    if n <= 0 {
        Set::empty()
    } else {
        let prev = path_names(paths, debug_str, n - 1);
        match path_name(paths[n - 1], debug_str) {
            Some(name) => prev.insert(name),
            None => prev,
        }
    }
}

impl DwarfResult {
    /// Whether a source file of this name is recorded already.
    fn has_source_file(&self, name: &String) -> (r: bool)
        ensures
            r == self.file_names().contains(name@),
    {
        let mut i: usize = 0;
        while i < self.source_files.len()
            invariant
                0 <= i <= self.source_files@.len(),
                forall|k: int| 0 <= k < i ==> (#[trigger] self.source_files@[k])@ != name@,
            decreases self.source_files@.len() - i,
        {
            if self.source_files[i] == *name {
                assert(self.file_names()[i as int] == name@);
                return true;
            }
            i += 1;
        }
        assert(!self.file_names().contains(name@)) by {
            if self.file_names().contains(name@) {
                let k = choose|k: int| 0 <= k < self.file_names().len() && self.file_names()[k] == name@;
                assert(self.source_files@[k]@ == name@);
            }
        }
        false
    }

    /// Records the file names of a unit's line program, in order, each only
    /// if it is not recorded already; `debug_str` holds the strings that
    /// names may refer to.
    pub fn add_source_paths(&mut self, paths: &[AttrValue], debug_str: &[u8])
        ensures
            final(self).file_names() == with_paths(
                old(self).file_names(),
                attrs_view(paths@),
                debug_str@,
                paths@.len() as int,
            ),
            final(self).variables@ == old(self).variables@,
            final(self).types@ == old(self).types@,
    {
        let mut i: usize = 0;
        while i < paths.len()
            invariant
                0 <= i <= paths@.len(),
                self.file_names() == with_paths(
                    old(self).file_names(),
                    attrs_view(paths@),
                    debug_str@,
                    i as int,
                ),
                self.variables@ == old(self).variables@,
                self.types@ == old(self).types@,
            decreases paths@.len() - i,
        {
            assert(attrs_view(paths@)[i as int] == paths@[i as int]@);
            if let Some(name) = dwarf_attr_string(&paths[i], debug_str) {
                if !self.has_source_file(&name) {
                    let ghost before = self.file_names();
                    self.source_files.push(name);
                    assert(self.file_names() =~= before.push(name@));
                }
            }
            i += 1;
        }
    }
}

/// No file is recorded twice: adding the files of a unit keeps a list without
/// repetitions free of them.
pub proof fn law_source_files_distinct(
    files: Seq<Seq<char>>,
    paths: Seq<AttrModel>,
    debug_str: Seq<u8>,
    n: int,
)
    requires
        files.no_duplicates(),
    ensures
        with_paths(files, paths, debug_str, n).no_duplicates(),
    decreases n,
{
    if n > 0 {
        law_source_files_distinct(files, paths, debug_str, n - 1);
        let prev = with_paths(files, paths, debug_str, n - 1);
        match path_name(paths[n - 1], debug_str) {
            Some(name) => {
                if !prev.contains(name) {
                    let next = prev.push(name);
                    assert forall|a: int, b: int|
                        0 <= a < next.len() && 0 <= b < next.len() && a != b implies next[a]
                        != next[b] by {
                        if a == next.len() - 1 {
                            assert(prev[b] == next[b]);
                        } else if b == next.len() - 1 {
                            assert(prev[a] == next[a]);
                        }
                    }
                }
            },
            None => {},
        }
    }
}

/// After the files of a unit are added, exactly the files recorded before and
/// the files the unit names are recorded, and the earlier ones keep their places.
pub proof fn law_source_files_cover(
    files: Seq<Seq<char>>,
    paths: Seq<AttrModel>,
    debug_str: Seq<u8>,
    n: int,
)
    ensures
        with_paths(files, paths, debug_str, n).to_set() == files.to_set().union(
            path_names(paths, debug_str, n),
        ),
        files.is_prefix_of(with_paths(files, paths, debug_str, n)),
    decreases n,
{
    if n <= 0 {
        assert(files.to_set().union(Set::empty()) =~= files.to_set());
        assert(files.is_prefix_of(files)) by {
            assert(files.subrange(0, files.len() as int) =~= files);
        }
    } else {
        law_source_files_cover(files, paths, debug_str, n - 1);
        let prev = with_paths(files, paths, debug_str, n - 1);
        match path_name(paths[n - 1], debug_str) {
            Some(name) => {
                if prev.contains(name) {
                    assert(prev.to_set().contains(name));
                    assert(files.to_set().union(path_names(paths, debug_str, n)) =~= prev.to_set());
                } else {
                    let next = prev.push(name);
                    assert(next.to_set() =~= prev.to_set().insert(name)) by {
                        assert forall|x: Seq<char>|
                            next.to_set().contains(x) <==> prev.to_set().insert(name).contains(
                                x,
                            ) by {
                            if next.contains(x) && x != name {
                                let k = choose|k: int| 0 <= k < next.len() && next[k] == x;
                                assert(prev[k] == x);
                            }
                            if prev.contains(x) {
                                let k = choose|k: int| 0 <= k < prev.len() && prev[k] == x;
                                assert(next[k] == x);
                            }
                            if x == name {
                                assert(next[next.len() - 1] == x);
                            }
                        }
                    }
                    assert(files.to_set().union(path_names(paths, debug_str, n)) =~= prev.to_set().insert(
                        name,
                    ));
                    assert(files.is_prefix_of(next)) by {
                        assert(next.subrange(0, files.len() as int) =~= prev.subrange(
                            0,
                            files.len() as int,
                        ));
                    }
                }
            },
            None => {},
        }
    }
}

// ─── Laws of the variable and type tables ───────────────────────────────────

/// The index of the last of the first `n` entries that describes a type at
/// offset `k`, or -1 when there is none.
pub open spec fn last_type_index(dies: Seq<RawDieModel>, n: int, k: u64) -> int
    decreases n,
{
    if n <= 0 {
        -1
    } else if dies[n - 1].offset == k && spec_type_at(dies, n - 1) is Some {
        n - 1
    } else {
        last_type_index(dies, n - 1, k)
    }
}

/// The type recorded at an offset is that of the last entry at that offset
/// that describes a type; offsets that no entry describes keep what was
/// recorded before.
pub proof fn law_type_table_last_wins(m: Map<u64, TypeModel>, dies: Seq<RawDieModel>, n: int, k: u64)
    requires
        0 <= n <= dies.len(),
    ensures
        last_type_index(dies, n, k) >= 0 ==> {
            &&& spec_types_upto(m, dies, n).contains_key(k)
            &&& Some(spec_types_upto(m, dies, n)[k]) == spec_type_at(dies, last_type_index(dies, n, k))
        },
        last_type_index(dies, n, k) < 0 ==> {
            &&& spec_types_upto(m, dies, n).contains_key(k) == m.contains_key(k)
            &&& m.contains_key(k) ==> spec_types_upto(m, dies, n)[k] == m[k]
        },
    decreases n,
{
    if n > 0 {
        law_type_table_last_wins(m, dies, n - 1, k);
    }
}

/// Every variable recorded is a variable entry with a fixed address: a unit
/// yields no more variables than it has addressed variable entries.
pub proof fn law_recorded_variables_are_addressed(dies: Seq<RawDieModel>, n: int)
    requires
        0 <= n <= dies.len(),
    ensures
        spec_vars_upto(dies, n).len() <= spec_count_addressed(dies, n),
    decreases n,
{
    if n > 0 {
        law_recorded_variables_are_addressed(dies, n - 1);
    }
}

/// A variable entry with an inline name, a type reference and a location
/// that gives a fixed address is reduced to a die that records a variable with
/// that name, that type and that address.
pub proof fn law_addressed_variable_recorded(
    e: EntryModel,
    prev: Option<usize>,
    enc: UnitEncoding,
    debug_str: Seq<u8>,
    address: u32,
)
    requires
        e.tag == DW_TAG_VARIABLE,
        e.name matches Some(AttrModel::Str(_)),
        spec_attr_type_ref(e.type_ref) is Some,
        spec_location_address(e.location, enc) == Ok::<Option<u32>, Seq<char>>(Some(address)),
    ensures
        spec_raw_die(e, prev, enc, debug_str) matches Ok(d) && spec_var_of(d) matches Some(v) && {
            &&& Some(v.name) == spec_entry_attr_string(e.name)
            &&& v.address == address
            &&& Some(v.type_offset) == spec_attr_type_ref(e.type_ref)
            &&& v.source_file == spec_decl_file(e.decl_file, e.decl_file_path, debug_str)
            &&& v.source_line == spec_decl_line(e.decl_line)
        },
{
}

/// The type each kind of entry describes, by its DWARF tag. A base type
/// (0x24) is `Base`, named "unknown" and 4 bytes wide when it says nothing; a
/// typedef (0x16), const (0x26), volatile (0x35) or restrict (0x37) entry
/// with a type reference is an `Alias` of that type, unnamed when it has no
/// name; an enumeration (0x04) is `Base`, named "enum", 4 bytes by default; a
/// structure (0x13) or union (0x17) is `Struct`, named "anonymous", 0 bytes
/// by default; an array (0x01) with an element type is `Array`, 0 bytes by
/// default; a pointer (0x0f) is `Pointer`, 4 bytes by default. An alias or
/// array without a type reference, and any other entry, describes no type.
pub proof fn law_type_kinds(dies: Seq<RawDieModel>, i: int)
    requires
        0 <= i < dies.len(),
    ensures
        ({
            let d = dies[i];
            let named = |default: Seq<char>|
                match d.name {
                    Some(n) => n,
                    None => default,
                };
            let sized = |default: u32|
                match d.byte_size {
                    Some(b) => b,
                    None => default,
                };
            &&& d.tag == 0x24 ==> spec_type_at(dies, i) == Some(
                TypeModel::Base { name: named("unknown"@), byte_size: sized(4) },
            )
            &&& (d.tag == 0x16 || d.tag == 0x26 || d.tag == 0x35 || d.tag == 0x37) ==> spec_type_at(
                dies,
                i,
            ) == match d.type_ref {
                Some(t) => Some(TypeModel::Alias { name: named(Seq::empty()), target_offset: t }),
                None => None::<TypeModel>,
            }
            &&& d.tag == 0x04 ==> spec_type_at(dies, i) == Some(
                TypeModel::Base { name: named("enum"@), byte_size: sized(4) },
            )
            &&& (d.tag == 0x13 || d.tag == 0x17) ==> spec_type_at(dies, i) == Some(
                TypeModel::Struct {
                    name: named("anonymous"@),
                    byte_size: sized(0),
                    members: struct_members(dies, i),
                },
            )
            &&& d.tag == 0x01 ==> spec_type_at(dies, i) == match d.type_ref {
                Some(t) => Some(
                    TypeModel::Array {
                        element_type_offset: t,
                        element_count: array_element_count(dies, i),
                        byte_size: sized(0),
                    },
                ),
                None => None::<TypeModel>,
            }
            &&& d.tag == 0x0f ==> spec_type_at(dies, i) == Some(TypeModel::Pointer { byte_size: sized(4) })
            &&& !(d.tag == 0x24 || d.tag == 0x16 || d.tag == 0x26 || d.tag == 0x35 || d.tag == 0x37
                || d.tag == 0x04 || d.tag == 0x13 || d.tag == 0x17 || d.tag == 0x01 || d.tag == 0x0f)
                ==> spec_type_at(dies, i) is None
        }),
{
}

/// What reducing an entry keeps: its offset and tag; its name when inline;
/// its byte size and type reference whatever its tag; the address, source
/// file and line for variables (0x34) only; the member offset for members
/// (0x0d) only; the bounds for subranges (0x21) only. The first entry of a
/// unit lies at depth 0.
pub proof fn law_reduced_entry(e: EntryModel, prev: Option<usize>, enc: UnitEncoding, debug_str: Seq<u8>, d: RawDieModel)
    requires
        spec_raw_die(e, prev, enc, debug_str) == Ok::<RawDieModel, Seq<char>>(d),
    ensures
        d.offset == e.offset,
        d.tag == e.tag,
        prev is None ==> d.depth == 0,
        d.name == spec_entry_attr_string(e.name),
        d.byte_size == spec_attr_u32(e.byte_size),
        d.type_ref == spec_attr_type_ref(e.type_ref),
        e.tag == 0x34 ==> spec_location_address(e.location, enc) == Ok::<Option<u32>, Seq<char>>(d.address)
            && d.source_file == spec_decl_file(e.decl_file, e.decl_file_path, debug_str) && d.source_line
            == spec_decl_line(e.decl_line),
        e.tag != 0x34 ==> d.address is None && d.source_file is None && d.source_line is None,
        e.tag == 0x0d ==> d.member_offset == spec_attr_u32(e.data_member_location),
        e.tag != 0x0d ==> d.member_offset is None,
        e.tag == 0x21 ==> d.upper_bound == spec_attr_u32(e.upper_bound) && d.count == spec_attr_u32(e.count),
        e.tag != 0x21 ==> d.upper_bound is None && d.count is None,
{
}

/// Only a variable can fail to be reduced, and it fails exactly when its
/// location expression cannot be decoded, with the decoder's text.
pub proof fn law_reduction_failures(e: EntryModel, prev: Option<usize>, enc: UnitEncoding, debug_str: Seq<u8>)
    ensures
        e.tag != 0x34 ==> spec_raw_die(e, prev, enc, debug_str) is Ok,
        e.tag == 0x34 ==> (spec_raw_die(e, prev, enc, debug_str) is Err <==> spec_location_address(
            e.location,
            enc,
        ) is Err),
        e.tag == 0x34 && spec_location_address(e.location, enc) is Err ==> spec_raw_die(e, prev, enc, debug_str)
            == Err::<RawDieModel, Seq<char>>(spec_location_address(e.location, enc)->Err_0),
{
}

/// The entries that are member children of an entry at depth `depth`.
pub open spec fn member_child(depth: usize) -> spec_fn(RawDieModel) -> bool {
    |x: RawDieModel| x.tag == 0x0d && x.depth == depth + 1
}

/// A member entry as a structure member: its name (empty when it has none),
/// its type (offset 0 when it has none) and its offset (0 when it has none).
pub open spec fn as_member() -> spec_fn(RawDieModel) -> MemberModel {
    |x: RawDieModel|
        MemberModel {
            name: match x.name {
                Some(n) => n,
                None => Seq::empty(),
            },
            type_offset: match x.type_ref {
                Some(t) => t,
                None => 0,
            },
            member_offset: match x.member_offset {
                Some(o) => o,
                None => 0,
            },
        }
}

/// The subrange entries that give a count or an upper bound.
pub open spec fn bounded_subrange() -> spec_fn(RawDieModel) -> bool {
    |x: RawDieModel| x.tag == 0x21 && (x.count is Some || x.upper_bound is Some)
}

proof fn lemma_members_filter(dies: Seq<RawDieModel>, i: int, hi: int)
    requires
        0 <= i < dies.len(),
        i + 1 <= hi <= dies.len(),
    ensures
        members_between(dies, i, i + 1, hi) == dies.subrange(i + 1, hi).filter(member_child(dies[i].depth)).map_values(
            as_member(),
        ),
    decreases hi,
{
    reveal(Seq::filter);
    let sub = dies.subrange(i + 1, hi);
    if hi == i + 1 {
        assert(sub.len() == 0);
        assert(sub.filter(member_child(dies[i].depth)) =~= Seq::<RawDieModel>::empty());
        assert(sub.filter(member_child(dies[i].depth)).map_values(as_member()) =~= Seq::<MemberModel>::empty());
    } else {
        lemma_members_filter(dies, i, hi - 1);
        assert(sub.drop_last() =~= dies.subrange(i + 1, hi - 1));
        let prev = dies.subrange(i + 1, hi - 1).filter(member_child(dies[i].depth));
        if member_child(dies[i].depth)(dies[hi - 1]) {
            assert(sub.filter(member_child(dies[i].depth)) == prev.push(dies[hi - 1]));
            assert(prev.push(dies[hi - 1]).map_values(as_member()) =~= prev.map_values(as_member()).push(
                as_member()(dies[hi - 1]),
            ));
        } else {
            assert(sub.filter(member_child(dies[i].depth)) == prev);
        }
    }
}

proof fn lemma_count_filter(dies: Seq<RawDieModel>, lo: int, hi: int)
    requires
        0 <= lo <= hi <= dies.len(),
    ensures
        ({
            let subs = dies.subrange(lo, hi).filter(bounded_subrange());
            element_count_between(dies, lo, hi) == if subs.len() == 0 {
                0u32
            } else {
                match subs.last().count {
                    Some(c) => c,
                    None => if subs.last().upper_bound->0 == u32::MAX {
                        0u32
                    } else {
                        (subs.last().upper_bound->0 + 1) as u32
                    },
                }
            }
        }),
    decreases hi,
{
    reveal(Seq::filter);
    let sub = dies.subrange(lo, hi);
    if hi == lo {
        assert(sub.len() == 0);
        assert(sub.filter(bounded_subrange()).len() == 0);
    } else {
        lemma_count_filter(dies, lo, hi - 1);
        assert(sub.drop_last() =~= dies.subrange(lo, hi - 1));
        assert(sub.last() == dies[hi - 1]);
    }
}

/// The members of a structure or union are exactly its member children, one
/// level deeper, in the order of their entries; the children are the entries
/// after it that lie deeper, up to the first that does not (`end`). A member
/// without a name, type or offset has the empty name, type 0 or offset 0.
pub proof fn law_struct_members(dies: Seq<RawDieModel>, i: int, end: int)
    requires
        0 <= i < end <= dies.len(),
        forall|k: int| i < k < end ==> #[trigger] dies[k].depth > dies[i].depth,
        end == dies.len() || dies[end].depth <= dies[i].depth,
    ensures
        struct_members(dies, i) == dies.subrange(i + 1, end).filter(member_child(dies[i].depth)).map_values(
            as_member(),
        ),
{
    lemma_subtree_end(dies, i, i + 1, end);
    lemma_members_filter(dies, i, end);
}

/// The element count of an array is given by the last of its descendants
/// (the entries after it that lie deeper, up to `end`) that is a subrange with
/// a count or an upper bound: its count, else its upper bound plus one
/// (wrapping at 2^32); 0 when there is none.
pub proof fn law_array_element_count(dies: Seq<RawDieModel>, i: int, end: int)
    requires
        0 <= i < end <= dies.len(),
        forall|k: int| i < k < end ==> #[trigger] dies[k].depth > dies[i].depth,
        end == dies.len() || dies[end].depth <= dies[i].depth,
    ensures
        ({
            let subs = dies.subrange(i + 1, end).filter(bounded_subrange());
            array_element_count(dies, i) == if subs.len() == 0 {
                0u32
            } else {
                match subs.last().count {
                    Some(c) => c,
                    None => if subs.last().upper_bound->0 == u32::MAX {
                        0u32
                    } else {
                        (subs.last().upper_bound->0 + 1) as u32
                    },
                }
            }
        }),
{
    lemma_subtree_end(dies, i, i + 1, end);
    lemma_count_filter(dies, i + 1, end);
}

/// An entry records a variable exactly when it is a variable entry (0x34)
/// with a name, a fixed address and a type; the variable carries them, with
/// the entry's source file and line.
pub proof fn law_variable_of_entry(d: RawDieModel)
    ensures
        spec_var_of(d) is Some <==> (d.tag == 0x34 && d.name is Some && d.address is Some && d.type_ref is Some),
        spec_var_of(d) is Some ==> spec_var_of(d) == Some(
            VarModel {
                name: d.name->0,
                address: d.address->0,
                type_offset: d.type_ref->0,
                source_file: d.source_file,
                source_line: d.source_line,
            },
        ),
{
}

/// The depth of an entry is that of the entry before changed by its depth
/// change, never below 0 and at most `isize::MAX`; the first entry of a unit
/// lies at depth 0.
pub proof fn law_entry_depth(prev: Option<usize>, delta: isize)
    ensures
        prev is None ==> spec_depth_after(prev, delta) == 0,
        prev matches Some(p) ==> (p + delta <= 0 ==> spec_depth_after(prev, delta) == 0),
        prev matches Some(p) ==> (0 <= p + delta <= isize::MAX ==> spec_depth_after(prev, delta) == p + delta),
        prev matches Some(p) ==> (p + delta > isize::MAX ==> spec_depth_after(prev, delta) == isize::MAX),
{
}

} // verus!
