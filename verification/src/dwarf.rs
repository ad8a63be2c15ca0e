//! The debug sections of an executable and what gimli reads out of them.
//!
//! Everything that decodes DWARF is done by gimli. Each reading function
//! below hands gimli the sections and a position and brings back plain
//! values; what gimli returns for given sections and position is given a
//! name, and the functions that build on the readers state their results
//! over those names. Nothing of gimli's is kept between two readings: every
//! reader starts from the bytes of the sections.

use gimli::{
    AttributeValue, DebugAbbrev, DebugInfo, DebugInfoOffset, DwAt, Dwarf, EndianSlice, Error,
    Format, LocationListsOffset, RangeListsOffset, RunTimeEndian,
};
use vstd::prelude::*;
use crate::bytes::same_bytes;
use crate::functions::{name_view, FunctionRange};

verus! {

/// The DWARF sections of an executable, uncompressed. A section that the
/// executable lacks is empty.
#[derive(Debug)]
pub struct DwarfImage {
    pub big_endian: bool,
    pub debug_abbrev: Vec<u8>,
    pub debug_addr: Vec<u8>,
    pub debug_info: Vec<u8>,
    pub debug_line: Vec<u8>,
    pub debug_line_str: Vec<u8>,
    pub debug_loc: Vec<u8>,
    pub debug_loclists: Vec<u8>,
    pub debug_ranges: Vec<u8>,
    pub debug_rnglists: Vec<u8>,
    pub debug_str: Vec<u8>,
    pub debug_str_offsets: Vec<u8>,
}

/// A [`DwarfImage`] as a value.
pub ghost struct DwarfView {
    pub big_endian: bool,
    pub debug_abbrev: Seq<u8>,
    pub debug_addr: Seq<u8>,
    pub debug_info: Seq<u8>,
    pub debug_line: Seq<u8>,
    pub debug_line_str: Seq<u8>,
    pub debug_loc: Seq<u8>,
    pub debug_loclists: Seq<u8>,
    pub debug_ranges: Seq<u8>,
    pub debug_rnglists: Seq<u8>,
    pub debug_str: Seq<u8>,
    pub debug_str_offsets: Seq<u8>,
}

impl View for DwarfImage {
    type V = DwarfView;

    open spec fn view(&self) -> DwarfView {
        DwarfView {
            big_endian: self.big_endian,
            debug_abbrev: self.debug_abbrev@,
            debug_addr: self.debug_addr@,
            debug_info: self.debug_info@,
            debug_line: self.debug_line@,
            debug_line_str: self.debug_line_str@,
            debug_loc: self.debug_loc@,
            debug_loclists: self.debug_loclists@,
            debug_ranges: self.debug_ranges@,
            debug_rnglists: self.debug_rnglists@,
            debug_str: self.debug_str@,
            debug_str_offsets: self.debug_str_offsets@,
        }
    }
}

/// The section name `.debug_abbrev`.
pub const DEBUG_ABBREV: [u8; 13] = [0x2e, 0x64, 0x65, 0x62, 0x75, 0x67, 0x5f, 0x61, 0x62, 0x62, 0x72, 0x65, 0x76];

/// The section name `.debug_addr`.
pub const DEBUG_ADDR: [u8; 11] = [0x2e, 0x64, 0x65, 0x62, 0x75, 0x67, 0x5f, 0x61, 0x64, 0x64, 0x72];

/// The section name `.debug_info`.
pub const DEBUG_INFO: [u8; 11] = [0x2e, 0x64, 0x65, 0x62, 0x75, 0x67, 0x5f, 0x69, 0x6e, 0x66, 0x6f];

/// The section name `.debug_line`.
pub const DEBUG_LINE: [u8; 11] = [0x2e, 0x64, 0x65, 0x62, 0x75, 0x67, 0x5f, 0x6c, 0x69, 0x6e, 0x65];

/// The section name `.debug_line_str`.
pub const DEBUG_LINE_STR: [u8; 15] = [0x2e, 0x64, 0x65, 0x62, 0x75, 0x67, 0x5f, 0x6c, 0x69, 0x6e, 0x65, 0x5f, 0x73, 0x74, 0x72];

/// The section name `.debug_loc`.
pub const DEBUG_LOC: [u8; 10] = [0x2e, 0x64, 0x65, 0x62, 0x75, 0x67, 0x5f, 0x6c, 0x6f, 0x63];

/// The section name `.debug_loclists`.
pub const DEBUG_LOCLISTS: [u8; 15] = [0x2e, 0x64, 0x65, 0x62, 0x75, 0x67, 0x5f, 0x6c, 0x6f, 0x63, 0x6c, 0x69, 0x73, 0x74, 0x73];

/// The section name `.debug_ranges`.
pub const DEBUG_RANGES: [u8; 13] = [0x2e, 0x64, 0x65, 0x62, 0x75, 0x67, 0x5f, 0x72, 0x61, 0x6e, 0x67, 0x65, 0x73];

/// The section name `.debug_rnglists`.
pub const DEBUG_RNGLISTS: [u8; 15] = [0x2e, 0x64, 0x65, 0x62, 0x75, 0x67, 0x5f, 0x72, 0x6e, 0x67, 0x6c, 0x69, 0x73, 0x74, 0x73];

/// The section name `.debug_str`.
pub const DEBUG_STR: [u8; 10] = [0x2e, 0x64, 0x65, 0x62, 0x75, 0x67, 0x5f, 0x73, 0x74, 0x72];

/// The section name `.debug_str_offsets`.
pub const DEBUG_STR_OFFSETS: [u8; 18] = [0x2e, 0x64, 0x65, 0x62, 0x75, 0x67, 0x5f, 0x73, 0x74, 0x72, 0x5f, 0x6f, 0x66, 0x66, 0x73, 0x65, 0x74, 0x73];

/// The bytes of the section called `name`; empty for any other name.
pub open spec fn section_of(image: DwarfView, name: Seq<u8>) -> Seq<u8> {
    if name == DEBUG_ABBREV@ {
        image.debug_abbrev
    } else if name == DEBUG_ADDR@ {
        image.debug_addr
    } else if name == DEBUG_INFO@ {
        image.debug_info
    } else if name == DEBUG_LINE@ {
        image.debug_line
    } else if name == DEBUG_LINE_STR@ {
        image.debug_line_str
    } else if name == DEBUG_LOC@ {
        image.debug_loc
    } else if name == DEBUG_LOCLISTS@ {
        image.debug_loclists
    } else if name == DEBUG_RANGES@ {
        image.debug_ranges
    } else if name == DEBUG_RNGLISTS@ {
        image.debug_rnglists
    } else if name == DEBUG_STR@ {
        image.debug_str
    } else if name == DEBUG_STR_OFFSETS@ {
        image.debug_str_offsets
    } else {
        Seq::empty()
    }
}

impl DwarfImage {
    /// An image without any section.
    pub fn new(big_endian: bool) -> (image: Self)
        ensures
            image@.big_endian == big_endian,
            forall|name: Seq<u8>| section_of(image@, name).len() == 0,
    {
        DwarfImage {
            big_endian,
            debug_abbrev: Vec::new(),
            debug_addr: Vec::new(),
            debug_info: Vec::new(),
            debug_line: Vec::new(),
            debug_line_str: Vec::new(),
            debug_loc: Vec::new(),
            debug_loclists: Vec::new(),
            debug_ranges: Vec::new(),
            debug_rnglists: Vec::new(),
            debug_str: Vec::new(),
            debug_str_offsets: Vec::new(),
        }
    }

    /// The bytes of the section called `name`.
    pub fn section(&self, name: &[u8]) -> (bytes: &[u8])
        ensures
            bytes@ == section_of(self@, name@),
    {
        if same_bytes(name, DEBUG_ABBREV.as_slice()) {
            return self.debug_abbrev.as_slice();
        }
        if same_bytes(name, DEBUG_ADDR.as_slice()) {
            return self.debug_addr.as_slice();
        }
        if same_bytes(name, DEBUG_INFO.as_slice()) {
            return self.debug_info.as_slice();
        }
        if same_bytes(name, DEBUG_LINE.as_slice()) {
            return self.debug_line.as_slice();
        }
        if same_bytes(name, DEBUG_LINE_STR.as_slice()) {
            return self.debug_line_str.as_slice();
        }
        if same_bytes(name, DEBUG_LOC.as_slice()) {
            return self.debug_loc.as_slice();
        }
        if same_bytes(name, DEBUG_LOCLISTS.as_slice()) {
            return self.debug_loclists.as_slice();
        }
        if same_bytes(name, DEBUG_RANGES.as_slice()) {
            return self.debug_ranges.as_slice();
        }
        if same_bytes(name, DEBUG_RNGLISTS.as_slice()) {
            return self.debug_rnglists.as_slice();
        }
        if same_bytes(name, DEBUG_STR.as_slice()) {
            return self.debug_str.as_slice();
        }
        if same_bytes(name, DEBUG_STR_OFFSETS.as_slice()) {
            return self.debug_str_offsets.as_slice();
        }
        empty_section()
    }
}

/// A section without bytes.
fn empty_section() -> (bytes: &'static [u8])
    ensures
        bytes@.len() == 0,
{
    let bytes: &'static [u8] = &[];
    bytes
}

/// The head of a unit: its length and where its first entry stands.
#[derive(PartialEq, Eq, Structural, Clone, Copy, Debug)]
pub struct UnitHead {
    /// Length of the unit in `.debug_info`, the length field included.
    pub length: usize,
    /// Offset in `.debug_info` of the unit's root entry.
    pub first: usize,
}

/// A row of a line program as gimli computes it.
#[derive(PartialEq, Eq, Structural, Clone, Copy, Debug)]
pub struct RawRow {
    pub address: u64,
    pub end_sequence: bool,
    pub line: Option<u64>,
    /// Index of the row's file in the file table of the line program.
    pub file_index: u64,
}

/// A debugging entry as gimli's cursor meets it.
#[derive(PartialEq, Eq, Structural, Clone, Copy, Debug)]
pub struct RawSpot {
    /// Offset of the entry in `.debug_info`.
    pub offset: usize,
    /// Depth of the entry in the tree, counted from the entry the cursor
    /// started at; below 0 once the cursor has left the list that entry
    /// stands in.
    pub depth: isize,
    pub tag: u16,
}

/// What gimli finds for the unit header at `offset` of `.debug_info`.
pub uninterp spec fn unit_head_of(debug_info: Seq<u8>, big_endian: bool, offset: usize) -> Option<UnitHead>;

/// The compilation directory that gimli finds for the unit at `unit`.
pub uninterp spec fn comp_dir_of(image: DwarfView, unit: usize) -> Option<Seq<u8>>;

/// The rows that gimli computes from the line program of the unit at
/// `unit`, up to its end or to the first instruction it cannot decode.
pub uninterp spec fn rows_of(image: DwarfView, unit: usize) -> Option<Seq<RawRow>>;

/// The name that gimli finds for the file with the given index in the line
/// program of the unit at `unit`.
pub uninterp spec fn file_name_of(image: DwarfView, unit: usize, index: u64) -> Option<Seq<u8>>;

/// The directory that gimli finds for the file with the given index in the
/// line program of the unit at `unit`.
pub uninterp spec fn file_directory_of(image: DwarfView, unit: usize, index: u64) -> Option<Seq<u8>>;

/// The entries that gimli's cursor meets from the entry at `die` to the end
/// of the unit at `unit`, in the order of the unit and without the null
/// entries, up to the first entry it cannot decode.
pub uninterp spec fn spots_of(image: DwarfView, unit: usize, die: usize) -> Option<Seq<RawSpot>>;

/// The value of attribute `at` of the entry at `die` as an unsigned number:
/// what gimli's `udata_value` makes of the value as it is encoded.
pub uninterp spec fn unsigned_of(image: DwarfView, unit: usize, die: usize, at: u16) -> Option<u64>;

/// The value of attribute `at` of the entry at `die`, as gimli's
/// `attr_address` gives it.
pub uninterp spec fn address_of(image: DwarfView, unit: usize, die: usize, at: u16) -> Option<u64>;

/// The value of attribute `at` of the entry at `die`, as gimli's
/// `attr_string` gives it.
pub uninterp spec fn text_of(image: DwarfView, unit: usize, die: usize, at: u16) -> Option<Seq<u8>>;

/// The offset in `.debug_info` of the entry that attribute `at` of the
/// entry at `die` refers to; `None` for a reference within the unit that
/// points outside the unit's entries.
pub uninterp spec fn reference_of(image: DwarfView, unit: usize, die: usize, at: u16) -> Option<usize>;

/// Whether gimli finds an attribute `at` in the entry at `die`; `None` where
/// it cannot read the entry.
pub uninterp spec fn present_of(image: DwarfView, unit: usize, die: usize, at: u16) -> Option<bool>;

/// The offset of the range list that attribute `at` of the entry at `die`
/// names, as gimli's `attr_ranges_offset` gives it; `None` for an index
/// into the offsets table of a unit in the 64-bit format.
pub uninterp spec fn ranges_offset_of(image: DwarfView, unit: usize, die: usize, at: u16) -> Option<usize>;

/// The ranges of the range list at `offset`, as gimli's `ranges` walks
/// them.
pub uninterp spec fn range_list_of(image: DwarfView, unit: usize, offset: usize) -> Option<Seq<FunctionRange>>;

/// Whether attribute `at` of the entry at `die` holds an expression, as
/// gimli's `exprloc_value` tells; `None` where the entry has no such
/// attribute.
pub uninterp spec fn is_expression_of(image: DwarfView, unit: usize, die: usize, at: u16) -> Option<bool>;

/// The offset of the location list that attribute `at` of the entry at
/// `die` names, as gimli's `attr_locations_offset` gives it; `None` for an
/// index into the offsets table of a unit in the 64-bit format.
pub uninterp spec fn list_offset_of(image: DwarfView, unit: usize, die: usize, at: u16) -> Option<usize>;

/// The address ranges of the entries of the location list at `offset`, as
/// gimli's `locations` walks them.
pub uninterp spec fn location_ranges_of(image: DwarfView, unit: usize, offset: usize) -> Option<Seq<FunctionRange>>;

/// Parses the unit header at `offset` with
/// `gimli::DebugInfo::header_from_offset`; `None` where gimli reports an
/// error. The result depends on the section and the offset alone.
#[verifier::external_body]
pub(crate) fn read_unit_head(image: &DwarfImage, offset: usize) -> (head: Option<UnitHead>)
    ensures
        head == unit_head_of(image.debug_info@, image.big_endian, offset),
{
    let endian = if image.big_endian { RunTimeEndian::Big } else { RunTimeEndian::Little };
    let header = DebugInfo::new(&image.debug_info, endian).header_from_offset(DebugInfoOffset(offset)).ok()?;
    let first = header.root_offset().to_debug_info_offset(&header)?.0;
    Some(UnitHead { length: header.length_including_self(), first })
}

/// Reads the `comp_dir` field that `gimli::Dwarf::unit` fills; `None` where
/// the unit has none or cannot be parsed.
#[verifier::external_body]
pub(crate) fn read_comp_dir(image: &DwarfImage, unit: usize) -> (dir: Option<Vec<u8>>)
    ensures
        name_view(dir) == comp_dir_of(image@, unit),
{
    let endian = if image.big_endian { RunTimeEndian::Big } else { RunTimeEndian::Little };
    let dwarf = Dwarf::load(|id| Ok::<_, Error>(EndianSlice::new(image.section(id.name().as_bytes()), endian))).ok()?;
    let unit = dwarf.unit(dwarf.unit_header(DebugInfoOffset(unit)).ok()?).ok()?;
    unit.comp_dir.map(|dir| dir.slice().to_vec())
}

/// Runs the unit's line program with `gimli::LineRows::next_row` and hands
/// out every row; `None` where the unit cannot be parsed or has no line
/// program.
#[verifier::external_body]
pub(crate) fn read_rows(image: &DwarfImage, unit: usize) -> (rows: Option<Vec<RawRow>>)
    ensures
        rows is Some <==> rows_of(image@, unit) is Some,
        rows matches Some(r) ==> rows_of(image@, unit) == Some(r@),
{
    let endian = if image.big_endian { RunTimeEndian::Big } else { RunTimeEndian::Little };
    let dwarf = Dwarf::load(|id| Ok::<_, Error>(EndianSlice::new(image.section(id.name().as_bytes()), endian))).ok()?;
    let unit = dwarf.unit(dwarf.unit_header(DebugInfoOffset(unit)).ok()?).ok()?;
    let mut rows = unit.line_program?.rows();
    let mut out = Vec::new();
    while let Ok(Some((_, row))) = rows.next_row() {
        out.push(RawRow { address: row.address(), end_sequence: row.end_sequence(), line: row.line().map(|l| l.get()), file_index: row.file_index() });
    }
    Some(out)
}

/// Looks up a file of the unit's line program with
/// `gimli::LineProgramHeader::file` and resolves its name with
/// `gimli::Dwarf::attr_string`.
#[verifier::external_body]
pub(crate) fn read_file_name(image: &DwarfImage, unit: usize, index: u64) -> (name: Option<Vec<u8>>)
    ensures
        name_view(name) == file_name_of(image@, unit, index),
{
    let endian = if image.big_endian { RunTimeEndian::Big } else { RunTimeEndian::Little };
    let dwarf = Dwarf::load(|id| Ok::<_, Error>(EndianSlice::new(image.section(id.name().as_bytes()), endian))).ok()?;
    let unit = dwarf.unit(dwarf.unit_header(DebugInfoOffset(unit)).ok()?).ok()?;
    let file = unit.line_program.as_ref()?.header().file(index)?;
    Some(dwarf.attr_string(&unit, file.path_name()).ok()?.slice().to_vec())
}

/// Looks up a file of the unit's line program with
/// `gimli::LineProgramHeader::file` and resolves its directory with
/// `gimli::FileEntry::directory` and `gimli::Dwarf::attr_string`.
#[verifier::external_body]
pub(crate) fn read_file_directory(image: &DwarfImage, unit: usize, index: u64) -> (directory: Option<Vec<u8>>)
    ensures
        name_view(directory) == file_directory_of(image@, unit, index),
{
    let endian = if image.big_endian { RunTimeEndian::Big } else { RunTimeEndian::Little };
    let dwarf = Dwarf::load(|id| Ok::<_, Error>(EndianSlice::new(image.section(id.name().as_bytes()), endian))).ok()?;
    let unit = dwarf.unit(dwarf.unit_header(DebugInfoOffset(unit)).ok()?).ok()?;
    let header = unit.line_program.as_ref()?.header();
    let directory = header.file(index)?.directory(header)?;
    Some(dwarf.attr_string(&unit, directory).ok()?.slice().to_vec())
}

/// Walks the unit with `gimli::EntriesCursor::next_dfs` from the entry at
/// `die` on and hands out offset, depth and tag of every entry the cursor
/// meets. The depths are the cursor's own.
#[verifier::external_body]
pub(crate) fn read_spots(image: &DwarfImage, unit: usize, die: usize) -> (spots: Option<Vec<RawSpot>>)
    ensures
        spots is Some <==> spots_of(image@, unit, die) is Some,
        spots matches Some(s) ==> spots_of(image@, unit, die) == Some(s@),
{
    let endian = if image.big_endian { RunTimeEndian::Big } else { RunTimeEndian::Little };
    let header = DebugInfo::new(&image.debug_info, endian).header_from_offset(DebugInfoOffset(unit)).ok()?;
    let abbrevs = header.abbreviations(&DebugAbbrev::new(&image.debug_abbrev, endian)).ok()?;
    let mut cursor = header.entries_at_offset(&abbrevs, DebugInfoOffset(die).to_unit_offset(&header)?).ok()?;
    let mut spots = Vec::new();
    while let Ok(Some(e)) = cursor.next_dfs() {
        spots.push(RawSpot { offset: e.offset().to_debug_info_offset(&header)?.0, depth: e.depth(), tag: e.tag().0 });
    }
    Some(spots)
}

/// Reads an attribute as it is encoded, with
/// `gimli::DebuggingInformationEntry::attr_value_raw`, and takes it as an
/// unsigned number with `gimli::AttributeValue::udata_value`.
#[verifier::external_body]
pub(crate) fn read_unsigned(image: &DwarfImage, unit: usize, die: usize, at: u16) -> (value: Option<u64>)
    ensures
        value == unsigned_of(image@, unit, die, at),
{
    let endian = if image.big_endian { RunTimeEndian::Big } else { RunTimeEndian::Little };
    let dwarf = Dwarf::load(|id| Ok::<_, Error>(EndianSlice::new(image.section(id.name().as_bytes()), endian))).ok()?;
    let unit = dwarf.unit(dwarf.unit_header(DebugInfoOffset(unit)).ok()?).ok()?;
    let entry = unit.entry(DebugInfoOffset(die).to_unit_offset(&unit.header)?).ok()?;
    entry.attr_value_raw(DwAt(at))?.udata_value()
}

/// Reads an attribute as an address with `gimli::Dwarf::attr_address`.
#[verifier::external_body]
pub(crate) fn read_address(image: &DwarfImage, unit: usize, die: usize, at: u16) -> (value: Option<u64>)
    ensures
        value == address_of(image@, unit, die, at),
{
    let endian = if image.big_endian { RunTimeEndian::Big } else { RunTimeEndian::Little };
    let dwarf = Dwarf::load(|id| Ok::<_, Error>(EndianSlice::new(image.section(id.name().as_bytes()), endian))).ok()?;
    let unit = dwarf.unit(dwarf.unit_header(DebugInfoOffset(unit)).ok()?).ok()?;
    let entry = unit.entry(DebugInfoOffset(die).to_unit_offset(&unit.header)?).ok()?;
    dwarf.attr_address(&unit, entry.attr_value(DwAt(at))?).ok()?
}

/// Reads an attribute as a string with `gimli::Dwarf::attr_string`.
#[verifier::external_body]
pub(crate) fn read_text(image: &DwarfImage, unit: usize, die: usize, at: u16) -> (value: Option<Vec<u8>>)
    ensures
        name_view(value) == text_of(image@, unit, die, at),
{
    let endian = if image.big_endian { RunTimeEndian::Big } else { RunTimeEndian::Little };
    let dwarf = Dwarf::load(|id| Ok::<_, Error>(EndianSlice::new(image.section(id.name().as_bytes()), endian))).ok()?;
    let unit = dwarf.unit(dwarf.unit_header(DebugInfoOffset(unit)).ok()?).ok()?;
    let entry = unit.entry(DebugInfoOffset(die).to_unit_offset(&unit.header)?).ok()?;
    Some(dwarf.attr_string(&unit, entry.attr_value(DwAt(at))?).ok()?.slice().to_vec())
}

/// Reads an attribute that refers to another entry, with
/// `gimli::DebuggingInformationEntry::attr_value`, and gives the offset of
/// that entry in `.debug_info`. A reference within the unit is converted
/// only where `gimli::UnitOffset::is_in_bounds` holds of it.
#[verifier::external_body]
pub(crate) fn read_reference(image: &DwarfImage, unit: usize, die: usize, at: u16) -> (value: Option<usize>)
    ensures
        value == reference_of(image@, unit, die, at),
{
    let endian = if image.big_endian { RunTimeEndian::Big } else { RunTimeEndian::Little };
    let dwarf = Dwarf::load(|id| Ok::<_, Error>(EndianSlice::new(image.section(id.name().as_bytes()), endian))).ok()?;
    let unit = dwarf.unit(dwarf.unit_header(DebugInfoOffset(unit)).ok()?).ok()?;
    let entry = unit.entry(DebugInfoOffset(die).to_unit_offset(&unit.header)?).ok()?;
    match entry.attr_value(DwAt(at))? {
        AttributeValue::UnitRef(o) if o.is_in_bounds(&unit.header) => Some(o.to_debug_info_offset(&unit.header)?.0),
        AttributeValue::DebugInfoRef(o) => Some(o.0),
        _ => None,
    }
}

/// Asks `gimli::DebuggingInformationEntry::has_attr` whether the entry has
/// the attribute.
#[verifier::external_body]
pub(crate) fn read_present(image: &DwarfImage, unit: usize, die: usize, at: u16) -> (present: Option<bool>)
    ensures
        present == present_of(image@, unit, die, at),
{
    let endian = if image.big_endian { RunTimeEndian::Big } else { RunTimeEndian::Little };
    let dwarf = Dwarf::load(|id| Ok::<_, Error>(EndianSlice::new(image.section(id.name().as_bytes()), endian))).ok()?;
    let unit = dwarf.unit(dwarf.unit_header(DebugInfoOffset(unit)).ok()?).ok()?;
    let entry = unit.entry(DebugInfoOffset(die).to_unit_offset(&unit.header)?).ok()?;
    Some(entry.has_attr(DwAt(at)))
}

/// Reads the offset of the range list that an attribute names, with
/// `gimli::Dwarf::attr_ranges_offset`. An index into the offsets table is
/// not followed in a unit of the 64-bit format, where gimli adds the table's
/// entry to its base unchecked.
#[verifier::external_body]
pub(crate) fn read_ranges_offset(image: &DwarfImage, unit: usize, die: usize, at: u16) -> (offset: Option<usize>)
    ensures
        offset == ranges_offset_of(image@, unit, die, at),
{
    let endian = if image.big_endian { RunTimeEndian::Big } else { RunTimeEndian::Little };
    let dwarf = Dwarf::load(|id| Ok::<_, Error>(EndianSlice::new(image.section(id.name().as_bytes()), endian))).ok()?;
    let unit = dwarf.unit(dwarf.unit_header(DebugInfoOffset(unit)).ok()?).ok()?;
    let entry = unit.entry(DebugInfoOffset(die).to_unit_offset(&unit.header)?).ok()?;
    match entry.attr_value(DwAt(at))? {
        AttributeValue::DebugRngListsIndex(_) if unit.header.format() == Format::Dwarf64 => None,
        value => Some(dwarf.attr_ranges_offset(&unit, value).ok()??.0),
    }
}

/// Walks the range list at `offset` with `gimli::Dwarf::ranges` and hands
/// out every range, up to the end of the list or the first entry gimli
/// cannot decode.
#[verifier::external_body]
pub(crate) fn read_range_list(image: &DwarfImage, unit: usize, offset: usize) -> (ranges: Option<Vec<FunctionRange>>)
    ensures
        ranges is Some <==> range_list_of(image@, unit, offset) is Some,
        ranges matches Some(r) ==> range_list_of(image@, unit, offset) == Some(r@),
{
    let endian = if image.big_endian { RunTimeEndian::Big } else { RunTimeEndian::Little };
    let dwarf = Dwarf::load(|id| Ok::<_, Error>(EndianSlice::new(image.section(id.name().as_bytes()), endian))).ok()?;
    let unit = dwarf.unit(dwarf.unit_header(DebugInfoOffset(unit)).ok()?).ok()?;
    let list = dwarf.ranges(&unit, RangeListsOffset(offset)).ok()?;
    Some(list.map_while(|r| r.ok()).map(|r| FunctionRange { start: r.begin, end: r.end }).collect())
}

/// Asks `gimli::AttributeValue::exprloc_value` whether an attribute holds
/// an expression.
#[verifier::external_body]
pub(crate) fn read_is_expression(image: &DwarfImage, unit: usize, die: usize, at: u16) -> (yes: Option<bool>)
    ensures
        yes == is_expression_of(image@, unit, die, at),
{
    let endian = if image.big_endian { RunTimeEndian::Big } else { RunTimeEndian::Little };
    let dwarf = Dwarf::load(|id| Ok::<_, Error>(EndianSlice::new(image.section(id.name().as_bytes()), endian))).ok()?;
    let unit = dwarf.unit(dwarf.unit_header(DebugInfoOffset(unit)).ok()?).ok()?;
    let entry = unit.entry(DebugInfoOffset(die).to_unit_offset(&unit.header)?).ok()?;
    Some(entry.attr_value(DwAt(at))?.exprloc_value().is_some())
}

/// Reads the offset of the location list that an attribute names, with
/// `gimli::Dwarf::attr_locations_offset`. An index into the offsets table
/// is not followed in a unit of the 64-bit format, where gimli adds the
/// table's entry to its base unchecked.
#[verifier::external_body]
pub(crate) fn read_list_offset(image: &DwarfImage, unit: usize, die: usize, at: u16) -> (offset: Option<usize>)
    ensures
        offset == list_offset_of(image@, unit, die, at),
{
    let endian = if image.big_endian { RunTimeEndian::Big } else { RunTimeEndian::Little };
    let dwarf = Dwarf::load(|id| Ok::<_, Error>(EndianSlice::new(image.section(id.name().as_bytes()), endian))).ok()?;
    let unit = dwarf.unit(dwarf.unit_header(DebugInfoOffset(unit)).ok()?).ok()?;
    let entry = unit.entry(DebugInfoOffset(die).to_unit_offset(&unit.header)?).ok()?;
    match entry.attr_value(DwAt(at))? {
        AttributeValue::DebugLocListsIndex(_) if unit.header.format() == Format::Dwarf64 => None,
        value => Some(dwarf.attr_locations_offset(&unit, value).ok()??.0),
    }
}

/// Walks the location list at `offset` with `gimli::Dwarf::locations` and
/// hands out the address range of every entry, up to the end of the list or
/// the first entry gimli cannot decode.
#[verifier::external_body]
pub(crate) fn read_location_ranges(image: &DwarfImage, unit: usize, offset: usize) -> (ranges: Option<Vec<FunctionRange>>)
    ensures
        ranges is Some <==> location_ranges_of(image@, unit, offset) is Some,
        ranges matches Some(r) ==> location_ranges_of(image@, unit, offset) == Some(r@),
{
    let endian = if image.big_endian { RunTimeEndian::Big } else { RunTimeEndian::Little };
    let dwarf = Dwarf::load(|id| Ok::<_, Error>(EndianSlice::new(image.section(id.name().as_bytes()), endian))).ok()?;
    let unit = dwarf.unit(dwarf.unit_header(DebugInfoOffset(unit)).ok()?).ok()?;
    let list = dwarf.locations(&unit, LocationListsOffset(offset)).ok()?;
    Some(list.map_while(|e| e.ok()).map(|e| FunctionRange { start: e.range.begin, end: e.range.end }).collect())
}

} // verus!
