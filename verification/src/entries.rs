//! Reading debugging entries: the walk over the tree of a unit, and the
//! records that the function index, the frame decoder and the type decoder
//! work on.

use vstd::prelude::*;
use crate::dwarf::{
    address_of, is_expression_of, list_offset_of, location_ranges_of, present_of, range_list_of,
    ranges_offset_of, read_address, read_is_expression, read_list_offset, read_location_ranges,
    read_present, read_range_list, read_ranges_offset, read_reference, read_spots, read_text,
    read_unit_head, read_unsigned, reference_of, spots_of, text_of, unit_head_of, unsigned_of,
    DwarfImage, DwarfView, RawSpot,
};
use crate::frame::{
    LocationKind, LocationListEntry, SubprogramInfo, VariableDie, VariableDieView,
    TAG_FORMAL_PARAMETER, TAG_VARIABLE,
};
use crate::functions::{
    empty_scan, name_view, parse_functions, scan_units, starts_known, FunctionDie, FunctionDieView,
    FunctionIndex, FunctionRange, UnitDies, UnitDiesView, TAG_CLASS_TYPE, TAG_NAMESPACE,
    TAG_STRUCTURE_TYPE, TAG_SUBPROGRAM,
};
use crate::reader::{unit_offsets, units_from};
use crate::types::{TypeChild, TypeChildView, TypeDie, TypeDieView};

verus! {

/// `DW_AT_location`
pub const AT_LOCATION: u16 = 0x02;

/// `DW_AT_name`
pub const AT_NAME: u16 = 0x03;

/// `DW_AT_byte_size`
pub const AT_BYTE_SIZE: u16 = 0x0b;

/// `DW_AT_bit_size`
pub const AT_BIT_SIZE: u16 = 0x0d;

/// `DW_AT_low_pc`
pub const AT_LOW_PC: u16 = 0x11;

/// `DW_AT_high_pc`
pub const AT_HIGH_PC: u16 = 0x12;

/// `DW_AT_const_value`
pub const AT_CONST_VALUE: u16 = 0x1c;

/// `DW_AT_data_member_location`
pub const AT_DATA_MEMBER_LOCATION: u16 = 0x38;

/// `DW_AT_decl_line`
pub const AT_DECL_LINE: u16 = 0x3b;

/// `DW_AT_declaration`
pub const AT_DECLARATION: u16 = 0x3c;

/// `DW_AT_encoding`
pub const AT_ENCODING: u16 = 0x3e;

/// `DW_AT_frame_base`
pub const AT_FRAME_BASE: u16 = 0x40;

/// `DW_AT_specification`
pub const AT_SPECIFICATION: u16 = 0x47;

/// `DW_AT_type`
pub const AT_TYPE: u16 = 0x49;

/// `DW_AT_ranges`
pub const AT_RANGES: u16 = 0x55;

/// `DW_AT_endianity`
pub const AT_ENDIANITY: u16 = 0x65;

/// An entry met on a walk: where it stands, how deep, and its tag.
#[derive(PartialEq, Eq, Structural, Clone, Copy, Debug)]
pub struct Spot {
    pub offset: usize,
    /// Depth below the entry the walk started from, which has depth 0.
    pub depth: usize,
    pub tag: u16,
}

/// Where the tree below the first of `raw` ends: the index, from `k` on, of
/// the first entry that is not deeper than the first one, or the length of
/// `raw` where there is none.
pub open spec fn tree_end(raw: Seq<RawSpot>, k: int) -> int
    decreases raw.len() - k,
{
    if k < 0 || k >= raw.len() || raw[k].depth <= raw[0].depth {
        k
    } else {
        tree_end(raw, k + 1)
    }
}

/// The `j`-th entry of a walk, with its depth counted from the first one.
pub open spec fn spot_at(raw: Seq<RawSpot>, j: int) -> Spot {
    Spot {
        offset: raw[j].offset,
        depth: (raw[j].depth - raw[0].depth) as usize,
        tag: raw[j].tag,
    }
}

/// The entries of the tree below the entry at `root`, that entry first, in
/// the order in which they stand in the unit: of the entries that gimli's
/// cursor meets from `root` on, the first one and those that follow it as
/// long as they are deeper than it. No entries where gimli finds none at
/// `root`.
pub open spec fn spots_from(image: DwarfView, unit: usize, root: usize) -> Seq<Spot> {
    match spots_of(image, unit, root) {
        Some(raw) => if raw.len() == 0 {
            Seq::empty()
        } else {
            Seq::new(tree_end(raw, 1) as nat, |j: int| spot_at(raw, j))
        },
        None => Seq::empty(),
    }
}

/// Walks the tree below the entry at `root`.
pub fn walk_entries(image: &DwarfImage, unit: usize, root: usize) -> (spots: Vec<Spot>)
    ensures
        spots@ == spots_from(image@, unit, root),
{
    let mut spots: Vec<Spot> = Vec::new();
    let raw = match read_spots(image, unit, root) {
        Some(raw) => raw,
        None => {
            return spots;
        },
    };
    if raw.len() == 0 {
        return spots;
    }
    let base = raw[0].depth;
    spots.push(Spot { offset: raw[0].offset, depth: 0, tag: raw[0].tag });
    assert(spots@ =~= Seq::new(1, |j: int| spot_at(raw@, j)));
    let mut k: usize = 1;
    while k < raw.len() && raw[k].depth > base
        invariant
            1 <= k <= raw@.len(),
            base == raw@[0].depth,
            tree_end(raw@, 1) == tree_end(raw@, k as int),
            spots@ == Seq::new(k as nat, |j: int| spot_at(raw@, j)),
        decreases raw@.len() - k,
    {
        let deeper: i128 = raw[k].depth as i128 - base as i128;
        spots.push(Spot { offset: raw[k].offset, depth: deeper as usize, tag: raw[k].tag });
        assert(spots@ =~= Seq::new((k + 1) as nat, |j: int| spot_at(raw@, j)));
        k += 1;
    }
    spots
}

/// Whether the entry at `die` has the attribute: what gimli's `has_attr`
/// says, and no where the entry cannot be read.
pub open spec fn has_attribute(image: DwarfView, unit: usize, die: usize, at: u16) -> bool {
    present_of(image, unit, die, at) == Some(true)
}

fn has(image: &DwarfImage, unit: usize, die: usize, at: u16) -> (yes: bool)
    ensures
        yes == has_attribute(image@, unit, die, at),
{
    match read_present(image, unit, die, at) {
        Some(yes) => yes,
        None => false,
    }
}

/// The ranges of the range list that the `ranges` attribute of the entry at
/// `die` names; `None` where the entry names none.
pub open spec fn listed_ranges(image: DwarfView, unit: usize, die: usize) -> Option<
    Seq<FunctionRange>,
> {
    match ranges_offset_of(image, unit, die, AT_RANGES) {
        Some(offset) => range_list_of(image, unit, offset),
        None => None,
    }
}

fn read_ranges(image: &DwarfImage, unit: usize, die: usize) -> (ranges: Option<Vec<FunctionRange>>)
    ensures
        ranges is Some <==> listed_ranges(image@, unit, die) is Some,
        ranges matches Some(r) ==> listed_ranges(image@, unit, die) == Some(r@),
{
    match read_ranges_offset(image, unit, die, AT_RANGES) {
        Some(offset) => read_range_list(image, unit, offset),
        None => None,
    }
}

/// The entry of the function index that the entry at `spot` makes. The
/// name is read for the entries that lend one, the addresses for
/// subprograms.
pub open spec fn function_die_of(image: DwarfView, unit: usize, spot: Spot) -> FunctionDieView {
    let named = spot.tag == TAG_NAMESPACE || spot.tag == TAG_STRUCTURE_TYPE || spot.tag
        == TAG_CLASS_TYPE;
    let sub = spot.tag == TAG_SUBPROGRAM;
    let die = spot.offset;
    FunctionDieView {
        offset: die,
        depth: spot.depth,
        tag: spot.tag,
        name: if named {
            text_of(image, unit, die, AT_NAME)
        } else {
            None
        },
        declaration: sub && has_attribute(image, unit, die, AT_DECLARATION),
        specification: if sub {
            reference_of(image, unit, die, AT_SPECIFICATION)
        } else {
            None
        },
        ranges: if sub {
            listed_ranges(image, unit, die)
        } else {
            None
        },
        low_pc: if sub {
            address_of(image, unit, die, AT_LOW_PC)
        } else {
            None
        },
        high_pc: if sub {
            unsigned_of(image, unit, die, AT_HIGH_PC)
        } else {
            None
        },
    }
}

fn read_function_die(image: &DwarfImage, unit: usize, spot: Spot) -> (die: FunctionDie)
    ensures
        die@ == function_die_of(image@, unit, spot),
{
    let named = spot.tag == TAG_NAMESPACE || spot.tag == TAG_STRUCTURE_TYPE || spot.tag
        == TAG_CLASS_TYPE;
    let sub = spot.tag == TAG_SUBPROGRAM;
    let at = spot.offset;
    FunctionDie {
        offset: at,
        depth: spot.depth,
        tag: spot.tag,
        name: if named {
            read_text(image, unit, at, AT_NAME)
        } else {
            None
        },
        declaration: sub && has(image, unit, at, AT_DECLARATION),
        specification: if sub {
            read_reference(image, unit, at, AT_SPECIFICATION)
        } else {
            None
        },
        ranges: if sub {
            read_ranges(image, unit, at)
        } else {
            None
        },
        low_pc: if sub {
            read_address(image, unit, at, AT_LOW_PC)
        } else {
            None
        },
        high_pc: if sub {
            read_unsigned(image, unit, at, AT_HIGH_PC)
        } else {
            None
        },
    }
}

/// The entries of the unit at `unit` as the function index reads them.
pub open spec fn unit_dies_of(image: DwarfView, unit: usize) -> UnitDiesView {
    UnitDiesView {
        offset: unit,
        dies: match unit_head_of(image.debug_info, image.big_endian, unit) {
            Some(head) => spots_from(image, unit, head.first).map_values(
                |s: Spot| function_die_of(image, unit, s),
            ),
            None => Seq::empty(),
        },
    }
}

/// Reads the entries of the unit at `unit` for the function index.
pub fn read_function_dies(image: &DwarfImage, unit: usize) -> (dies: UnitDies)
    ensures
        dies@ == unit_dies_of(image@, unit),
{
    let mut dies: Vec<FunctionDie> = Vec::new();
    if let Some(head) = read_unit_head(image, unit) {
        let spots = walk_entries(image, unit, head.first);
        let ghost want = spots@.map_values(|s: Spot| function_die_of(image@, unit, s));
        let mut i: usize = 0;
        assert(dies@.map_values(|d: FunctionDie| d@) =~= want.take(0));
        while i < spots.len()
            invariant
                i <= spots@.len(),
                want == spots@.map_values(|s: Spot| function_die_of(image@, unit, s)),
                dies@.map_values(|d: FunctionDie| d@) == want.take(i as int),
            decreases spots@.len() - i,
        {
            let ghost before = dies@.map_values(|d: FunctionDie| d@);
            let die = read_function_die(image, unit, spots[i]);
            let ghost added = die@;
            dies.push(die);
            assert(dies@.map_values(|d: FunctionDie| d@) =~= before.push(added));
            assert(want.take(i + 1) =~= want.take(i as int).push(want[i as int]));
            i += 1;
        }
        assert(want.take(i as int) =~= want);
    } else {
        assert(dies@.map_values(|d: FunctionDie| d@) =~= Seq::<FunctionDieView>::empty());
    }
    UnitDies { offset: unit, dies }
}

/// The entries of the first `n` of `units`.
pub open spec fn dies_of_units(image: DwarfView, units: Seq<usize>, n: int) -> Seq<UnitDiesView>
    decreases n,
{
    if n <= 0 {
        Seq::empty()
    } else {
        dies_of_units(image, units, n - 1).push(unit_dies_of(image, units[n - 1]))
    }
}

/// The entries of all units of the image.
pub open spec fn image_dies(image: DwarfView) -> Seq<UnitDiesView> {
    dies_of_units(image, units_from(image, 0), units_from(image, 0).len() as int)
}

/// Builds the function index of an executable from its debug sections: the
/// index over the entries of all its units.
pub fn parse_image_functions(image: &DwarfImage) -> (index: FunctionIndex)
    ensures
        index@ == scan_units(empty_scan(), image_dies(image@)).index,
        starts_known(index@),
{
    let units = unit_offsets(image);
    let mut all: Vec<UnitDies> = Vec::new();
    let mut i: usize = 0;
    assert(all@.map_values(|u: UnitDies| u@) =~= dies_of_units(image@, units@, 0));
    while i < units.len()
        invariant
            i <= units@.len(),
            all@.map_values(|u: UnitDies| u@) == dies_of_units(image@, units@, i as int),
        decreases units@.len() - i,
    {
        let ghost before = all@.map_values(|u: UnitDies| u@);
        let dies = read_function_dies(image, units[i]);
        let ghost added = dies@;
        all.push(dies);
        assert(all@.map_values(|u: UnitDies| u@) =~= before.push(added));
        i += 1;
    }
    parse_functions(&all)
}

/// Reads what the entry of a subprogram says of the function.
pub fn read_subprogram(image: &DwarfImage, unit: usize, die: usize) -> (info: SubprogramInfo)
    ensures
        info.offset == die,
        name_view(info.name) == text_of(image@, unit, die, AT_NAME),
        info.type_ref == reference_of(image@, unit, die, AT_TYPE),
        info.has_frame_base == has_attribute(image@, unit, die, AT_FRAME_BASE),
        info.specification == reference_of(image@, unit, die, AT_SPECIFICATION),
{
    SubprogramInfo {
        offset: die,
        name: read_text(image, unit, die, AT_NAME),
        type_ref: read_reference(image, unit, die, AT_TYPE),
        has_frame_base: has(image, unit, die, AT_FRAME_BASE),
        specification: read_reference(image, unit, die, AT_SPECIFICATION),
    }
}

/// How the `location` attribute of the entry at `die` gives a location.
pub open spec fn location_kind_of(image: DwarfView, unit: usize, die: usize) -> LocationKind {
    match is_expression_of(image, unit, die, AT_LOCATION) {
        Some(true) => LocationKind::Expression,
        Some(false) => match list_offset_of(image, unit, die, AT_LOCATION) {
            Some(offset) => LocationKind::List(offset),
            None => LocationKind::Absent,
        },
        None => LocationKind::Absent,
    }
}

/// The entry of the frame decoder that the entry at `spot` makes. The
/// attributes are read for variables and parameters only.
pub open spec fn variable_die_of(image: DwarfView, unit: usize, spot: Spot) -> VariableDieView {
    let die = spot.offset;
    if spot.tag == TAG_VARIABLE || spot.tag == TAG_FORMAL_PARAMETER {
        VariableDieView {
            offset: die,
            depth: spot.depth,
            tag: spot.tag,
            name: text_of(image, unit, die, AT_NAME),
            decl_line: unsigned_of(image, unit, die, AT_DECL_LINE),
            type_ref: reference_of(image, unit, die, AT_TYPE),
            const_value: unsigned_of(image, unit, die, AT_CONST_VALUE),
            location: location_kind_of(image, unit, die),
        }
    } else {
        VariableDieView {
            offset: die,
            depth: spot.depth,
            tag: spot.tag,
            name: None,
            decl_line: None,
            type_ref: None,
            const_value: None,
            location: LocationKind::Absent,
        }
    }
}

fn read_variable_die(image: &DwarfImage, unit: usize, spot: Spot) -> (die: VariableDie)
    ensures
        die@ == variable_die_of(image@, unit, spot),
{
    let at = spot.offset;
    if spot.tag == TAG_VARIABLE || spot.tag == TAG_FORMAL_PARAMETER {
        let location = match read_is_expression(image, unit, at, AT_LOCATION) {
            Some(true) => LocationKind::Expression,
            Some(false) => match read_list_offset(image, unit, at, AT_LOCATION) {
                Some(offset) => LocationKind::List(offset),
                None => LocationKind::Absent,
            },
            None => LocationKind::Absent,
        };
        VariableDie {
            offset: at,
            depth: spot.depth,
            tag: spot.tag,
            name: read_text(image, unit, at, AT_NAME),
            decl_line: read_unsigned(image, unit, at, AT_DECL_LINE),
            type_ref: read_reference(image, unit, at, AT_TYPE),
            const_value: read_unsigned(image, unit, at, AT_CONST_VALUE),
            location,
        }
    } else {
        VariableDie {
            offset: at,
            depth: spot.depth,
            tag: spot.tag,
            name: None,
            decl_line: None,
            type_ref: None,
            const_value: None,
            location: LocationKind::Absent,
        }
    }
}

/// The entries below the subprogram at `die`, as the frame decoder reads
/// them. The subprogram itself has depth 0 and is left out.
pub open spec fn variable_dies_of(image: DwarfView, unit: usize, die: usize) -> Seq<
    VariableDieView,
> {
    let spots = spots_from(image, unit, die);
    if spots.len() == 0 {
        Seq::empty()
    } else {
        spots.skip(1).map_values(|s: Spot| variable_die_of(image, unit, s))
    }
}

/// Reads the entries below the subprogram at `die` for the frame decoder.
pub fn read_variable_dies(image: &DwarfImage, unit: usize, die: usize) -> (dies: Vec<VariableDie>)
    ensures
        dies@.map_values(|d: VariableDie| d@) == variable_dies_of(image@, unit, die),
{
    let spots = walk_entries(image, unit, die);
    let mut dies: Vec<VariableDie> = Vec::new();
    let ghost want = spots@.skip(1).map_values(|s: Spot| variable_die_of(image@, unit, s));
    if spots.len() == 0 {
        assert(dies@.map_values(|d: VariableDie| d@) =~= Seq::<VariableDieView>::empty());
        return dies;
    }
    let mut i: usize = 1;
    assert(dies@.map_values(|d: VariableDie| d@) =~= want.take(0));
    while i < spots.len()
        invariant
            1 <= i <= spots@.len(),
            want == spots@.skip(1).map_values(|s: Spot| variable_die_of(image@, unit, s)),
            dies@.map_values(|d: VariableDie| d@) == want.take(i - 1),
        decreases spots@.len() - i,
    {
        let ghost before = dies@.map_values(|d: VariableDie| d@);
        let die = read_variable_die(image, unit, spots[i]);
        let ghost added = die@;
        dies.push(die);
        assert(dies@.map_values(|d: VariableDie| d@) =~= before.push(added));
        assert(want.take(i as int) =~= want.take(i - 1).push(want[i - 1]));
        i += 1;
    }
    assert(want.take(i - 1) =~= want);
    dies
}

/// A number as a byte, where it fits.
pub open spec fn as_byte(n: Option<u64>) -> Option<u8> {
    match n {
        Some(v) => if v <= 0xff {
            Some(v as u8)
        } else {
            None
        },
        None => None,
    }
}

fn to_byte(n: Option<u64>) -> (b: Option<u8>)
    ensures
        b == as_byte(n),
{
    match n {
        Some(v) => if v <= 0xff {
            Some(v as u8)
        } else {
            None
        },
        None => None,
    }
}

/// The child of a type's entry that the entry at `spot` makes.
pub open spec fn type_child_of(image: DwarfView, unit: usize, spot: Spot) -> TypeChildView {
    let die = spot.offset;
    TypeChildView {
        tag: spot.tag,
        name: text_of(image, unit, die, AT_NAME),
        type_ref: reference_of(image, unit, die, AT_TYPE),
        member_location: unsigned_of(image, unit, die, AT_DATA_MEMBER_LOCATION),
        const_value: unsigned_of(image, unit, die, AT_CONST_VALUE),
    }
}

/// The children among the first `n` entries of a walk: the entries at
/// depth 1.
pub open spec fn children_of(image: DwarfView, unit: usize, spots: Seq<Spot>, n: int) -> Seq<
    TypeChildView,
>
    decreases n,
{
    if n <= 0 {
        Seq::empty()
    } else if spots[n - 1].depth == 1 {
        children_of(image, unit, spots, n - 1).push(type_child_of(image, unit, spots[n - 1]))
    } else {
        children_of(image, unit, spots, n - 1)
    }
}

/// The entry of a type at `die` as the type decoder reads it; `None` where
/// there is no entry.
pub open spec fn type_die_of(image: DwarfView, unit: usize, die: usize) -> Option<TypeDieView> {
    let spots = spots_from(image, unit, die);
    if spots.len() == 0 {
        None
    } else {
        Some(
            TypeDieView {
                tag: spots[0].tag,
                name: text_of(image, unit, die, AT_NAME),
                encoding: as_byte(unsigned_of(image, unit, die, AT_ENCODING)),
                byte_size: unsigned_of(image, unit, die, AT_BYTE_SIZE),
                bit_size: unsigned_of(image, unit, die, AT_BIT_SIZE),
                endianity: as_byte(unsigned_of(image, unit, die, AT_ENDIANITY)),
                type_ref: reference_of(image, unit, die, AT_TYPE),
                children: children_of(image, unit, spots, spots.len() as int),
            },
        )
    }
}

/// Reads the entry of a type for the type decoder.
pub fn read_type_die(image: &DwarfImage, unit: usize, die: usize) -> (entry: Option<TypeDie>)
    ensures
        entry is Some <==> type_die_of(image@, unit, die) is Some,
        entry matches Some(e) ==> type_die_of(image@, unit, die) == Some(e@),
{
    let spots = walk_entries(image, unit, die);
    if spots.len() == 0 {
        return None;
    }
    let mut children: Vec<TypeChild> = Vec::new();
    let mut i: usize = 0;
    assert(children@.map_values(|c: TypeChild| c@) =~= children_of(image@, unit, spots@, 0));
    while i < spots.len()
        invariant
            i <= spots@.len(),
            children@.map_values(|c: TypeChild| c@) == children_of(image@, unit, spots@, i as int),
        decreases spots@.len() - i,
    {
        let spot = spots[i];
        if spot.depth == 1 {
            let ghost before = children@.map_values(|c: TypeChild| c@);
            let child = TypeChild {
                tag: spot.tag,
                name: read_text(image, unit, spot.offset, AT_NAME),
                type_ref: read_reference(image, unit, spot.offset, AT_TYPE),
                member_location: read_unsigned(image, unit, spot.offset, AT_DATA_MEMBER_LOCATION),
                const_value: read_unsigned(image, unit, spot.offset, AT_CONST_VALUE),
            };
            let ghost added = child@;
            children.push(child);
            assert(children@.map_values(|c: TypeChild| c@) =~= before.push(added));
        }
        i += 1;
    }
    Some(
        TypeDie {
            tag: spots[0].tag,
            name: read_text(image, unit, die, AT_NAME),
            encoding: to_byte(read_unsigned(image, unit, die, AT_ENCODING)),
            byte_size: read_unsigned(image, unit, die, AT_BYTE_SIZE),
            bit_size: read_unsigned(image, unit, die, AT_BIT_SIZE),
            endianity: to_byte(read_unsigned(image, unit, die, AT_ENDIANITY)),
            type_ref: read_reference(image, unit, die, AT_TYPE),
            children,
        },
    )
}

/// The unit at `unit` holds the offset `die`.
pub open spec fn unit_holds(image: DwarfView, unit: usize, die: usize) -> bool {
    match unit_head_of(image.debug_info, image.big_endian, unit) {
        Some(head) => unit <= die < unit + head.length,
        None => false,
    }
}

/// `i` is the first of `units` that holds the offset `die`.
pub open spec fn first_holder(image: DwarfView, units: Seq<usize>, die: usize, i: int) -> bool {
    &&& 0 <= i < units.len()
    &&& unit_holds(image, units[i], die)
    &&& forall|j: int| 0 <= j < i ==> !unit_holds(image, units[j], die)
}

/// Finds the unit that the entry at `die` belongs to: the first unit of
/// `.debug_info` whose extent holds the offset.
pub fn get_unit_entry_offset(image: &DwarfImage, die: usize) -> (unit: Option<usize>)
    ensures
        unit matches Some(u) ==> exists|i: int|
            first_holder(image@, units_from(image@, 0), die, i) && units_from(image@, 0)[i] == u,
        unit is None ==> forall|i: int|
            0 <= i < units_from(image@, 0).len() ==> !unit_holds(
                image@,
                #[trigger] units_from(image@, 0)[i],
                die,
            ),
{
    let units = unit_offsets(image);
    let mut i: usize = 0;
    while i < units.len()
        invariant
            i <= units@.len(),
            units@ == units_from(image@, 0),
            forall|j: int| 0 <= j < i ==> !unit_holds(image@, units@[j], die),
        decreases units@.len() - i,
    {
        let u = units[i];
        if let Some(head) = read_unit_head(image, u) {
            if u <= die && die - u < head.length {
                assert(first_holder(image@, units@, die, i as int));
                return Some(u);
            }
        }
        i += 1;
    }
    None
}

/// The entries of a location list with the given ranges: entry `i` has the
/// `i`-th range.
pub open spec fn list_entries(ranges: Seq<FunctionRange>) -> Seq<LocationListEntry> {
    Seq::new(ranges.len(), |i: int| LocationListEntry { range: ranges[i], index: i as usize })
}

/// Reads the location list at `offset`; a list that cannot be read is
/// empty.
pub fn read_location_list(image: &DwarfImage, unit: usize, offset: usize) -> (list: Vec<
    LocationListEntry,
>)
    ensures
        list@ == (match location_ranges_of(image@, unit, offset) {
            Some(ranges) => list_entries(ranges),
            None => Seq::empty(),
        }),
{
    let mut list: Vec<LocationListEntry> = Vec::new();
    if let Some(ranges) = read_location_ranges(image, unit, offset) {
        let mut i: usize = 0;
        while i < ranges.len()
            invariant
                i <= ranges@.len(),
                list@ == list_entries(ranges@).take(i as int),
            decreases ranges@.len() - i,
        {
            list.push(LocationListEntry { range: ranges[i], index: i });
            assert(list@ =~= list_entries(ranges@).take(i + 1));
            i += 1;
        }
        assert(list_entries(ranges@).take(i as int) =~= list_entries(ranges@));
    }
    list
}

} // verus!
