//! Filling the indices from the debug sections of an executable.
//!
//! The functions here walk the units, the line programs and the debugging
//! entries of a [`DwarfImage`] through the readers of [`crate::dwarf`] and
//! hand what they find to the index builders.

use vstd::prelude::*;
use crate::dwarf::{
    comp_dir_of, file_directory_of, file_name_of, read_comp_dir, read_file_directory,
    read_file_name, read_rows, read_unit_head, rows_of, unit_head_of, DwarfImage, DwarfView,
    RawRow,
};
use crate::functions::name_view;
use crate::lines::{
    empty_index, index_units, load_source, LineAddresses, LineIndex, LineRow, LineRowView,
    UnitLines, UnitLinesView,
};
use crate::source::{SourceFile, SourceMap};

verus! {

/// The offsets of the units of `.debug_info` from `from` on: each unit
/// starts where the one before it ends, and the walk stops at the end of
/// the section or at the first header that cannot be read.
pub open spec fn units_from(image: DwarfView, from: int) -> Seq<usize>
    decreases image.debug_info.len() - from,
{
    if from < 0 || from >= image.debug_info.len() || from > usize::MAX {
        Seq::empty()
    } else {
        match unit_head_of(image.debug_info, image.big_endian, from as usize) {
            Some(head) => if head.length > 0 && from + head.length <= image.debug_info.len() {
                seq![from as usize] + units_from(image, from + head.length)
            } else {
                seq![from as usize]
            },
            None => Seq::empty(),
        }
    }
}

/// Lists the offsets of the units of `.debug_info`.
pub fn unit_offsets(image: &DwarfImage) -> (units: Vec<usize>)
    ensures
        units@ == units_from(image@, 0),
{
    let mut units: Vec<usize> = Vec::new();
    let mut from: usize = 0;
    let end = image.debug_info.len();
    assert(units@ + units_from(image@, 0) =~= units_from(image@, 0));
    while from < end
        invariant
            end == image@.debug_info.len(),
            units@ + units_from(image@, from as int) == units_from(image@, 0),
        decreases end - from,
    {
        let ghost before = units@;
        let head = match read_unit_head(image, from) {
            Some(head) => head,
            None => {
                assert(before + Seq::<usize>::empty() =~= before);
                return units;
            },
        };
        units.push(from);
        if head.length == 0 || head.length > end - from {
            assert(before + seq![from] =~= units@);
            return units;
        }
        assert(before + (seq![from] + units_from(image@, from + head.length)) =~= units@
            + units_from(image@, from + head.length));
        from = from + head.length;
    }
    assert(units@ + Seq::<usize>::empty() =~= units@);
    units
}

/// A name, or the empty name where there is none.
pub open spec fn or_empty(name: Option<Seq<u8>>) -> Seq<u8> {
    match name {
        Some(n) => n,
        None => Seq::empty(),
    }
}

fn unwrap_or_empty(name: Option<Vec<u8>>) -> (bytes: Vec<u8>)
    ensures
        bytes@ == or_empty(name_view(name)),
{
    match name {
        Some(n) => n,
        None => Vec::new(),
    }
}

/// The compilation directory of the unit that names `source_file`; empty
/// where the unit gives none.
pub fn get_comp_dir(image: &DwarfImage, source_file: &SourceFile) -> (dir: Vec<u8>)
    ensures
        dir@ == or_empty(comp_dir_of(image@, source_file.compile_unit)),
{
    unwrap_or_empty(read_comp_dir(image, source_file.compile_unit))
}

/// The row of the index that a row of the line program of `unit` makes:
/// the file index is replaced by the directory and the name of the file.
pub open spec fn row_view(image: DwarfView, unit: usize, raw: RawRow) -> LineRowView {
    LineRowView {
        address: raw.address,
        end_sequence: raw.end_sequence,
        line: raw.line,
        directory: or_empty(file_directory_of(image, unit, raw.file_index)),
        file_name: or_empty(file_name_of(image, unit, raw.file_index)),
    }
}

/// The line program of the unit at `unit`, ready for the index; `None`
/// where the unit has none.
pub open spec fn unit_lines_of(image: DwarfView, unit: usize) -> Option<UnitLinesView> {
    match rows_of(image, unit) {
        Some(rows) => Some(
            UnitLinesView {
                offset: unit,
                comp_dir: or_empty(comp_dir_of(image, unit)),
                rows: rows.map_values(|raw: RawRow| row_view(image, unit, raw)),
            },
        ),
        None => None,
    }
}

/// Reads the line program of the unit at `unit`.
pub fn read_unit_lines(image: &DwarfImage, unit: usize) -> (lines: Option<UnitLines>)
    ensures
        lines is Some <==> unit_lines_of(image@, unit) is Some,
        lines matches Some(l) ==> unit_lines_of(image@, unit) == Some(l@),
{
    let raw = match read_rows(image, unit) {
        Some(raw) => raw,
        None => {
            return None;
        },
    };
    let comp_dir = unwrap_or_empty(read_comp_dir(image, unit));
    let mut rows: Vec<LineRow> = Vec::new();
    let ghost want = raw@.map_values(|r: RawRow| row_view(image@, unit, r));
    let mut i: usize = 0;
    while i < raw.len()
        invariant
            i <= raw@.len(),
            want == raw@.map_values(|r: RawRow| row_view(image@, unit, r)),
            rows@.map_values(|r: LineRow| r@) == want.take(i as int),
        decreases raw@.len() - i,
    {
        let r = raw[i];
        let ghost before = rows@.map_values(|r: LineRow| r@);
        let row = LineRow {
            address: r.address,
            end_sequence: r.end_sequence,
            line: r.line,
            directory: unwrap_or_empty(read_file_directory(image, unit, r.file_index)),
            file_name: unwrap_or_empty(read_file_name(image, unit, r.file_index)),
        };
        let ghost added = row@;
        rows.push(row);
        assert(rows@.map_values(|r: LineRow| r@) =~= before.push(added));
        assert(want.take(i + 1) =~= want.take(i as int).push(want[i as int]));
        i += 1;
    }
    assert(want.take(i as int) =~= want);
    let lines = UnitLines { offset: unit, comp_dir, rows };
    assert(lines@.rows =~= want);
    Some(lines)
}

/// The line programs of the first `n` of `units`, leaving out the units
/// that have none.
pub open spec fn lines_of_units(image: DwarfView, units: Seq<usize>, n: int) -> Seq<UnitLinesView>
    decreases n,
{
    if n <= 0 {
        Seq::empty()
    } else {
        match unit_lines_of(image, units[n - 1]) {
            Some(lines) => lines_of_units(image, units, n - 1).push(lines),
            None => lines_of_units(image, units, n - 1),
        }
    }
}

/// The line programs of all units of the image.
pub open spec fn image_lines(image: DwarfView) -> Seq<UnitLinesView> {
    lines_of_units(image, units_from(image, 0), units_from(image, 0).len() as int)
}

/// Reads the line programs of all units of the image.
pub fn read_lines(image: &DwarfImage) -> (all: Vec<UnitLines>)
    ensures
        all@.map_values(|u: UnitLines| u@) == image_lines(image@),
{
    let units = unit_offsets(image);
    let mut all: Vec<UnitLines> = Vec::new();
    let mut i: usize = 0;
    assert(all@.map_values(|u: UnitLines| u@) =~= lines_of_units(image@, units@, 0));
    while i < units.len()
        invariant
            i <= units@.len(),
            all@.map_values(|u: UnitLines| u@) == lines_of_units(image@, units@, i as int),
        decreases units@.len() - i,
    {
        let ghost before = all@.map_values(|u: UnitLines| u@);
        if let Some(lines) = read_unit_lines(image, units[i]) {
            let ghost added = lines@;
            all.push(lines);
            assert(all@.map_values(|u: UnitLines| u@) =~= before.push(added));
        }
        i += 1;
    }
    all
}

/// Builds the source index of an executable from its debug sections: the
/// index over the line programs of all its units.
pub fn load_image_source(image: &DwarfImage) -> (index: (SourceMap, LineAddresses))
    ensures
        index.0.wf(),
        index.1.wf(),
        (LineIndex { sources: index.0@, lines: index.1@ }) == index_units(
            empty_index(),
            image_lines(image@),
        ),
{
    let all = read_lines(image);
    load_source(&all)
}

} // verus!
