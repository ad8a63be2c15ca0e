//! The line index: from instruction address to source position, filled from
//! the rows of every unit's line program.

use std::collections::HashMap;
use vstd::prelude::*;
use crate::path::{place, placement};
use crate::seqs::lemma_push_contains;
use crate::source::{
    slot_in, with_file, SourceFile, SourceFileView, SourceIndex, SourceIndexView, SourceMap,
};

verus! {

broadcast use vstd::std_specs::hash::group_hash_axioms;

/// One row of a line program, as far as the index reads it.
#[derive(Debug)]
pub struct LineRow {
    pub address: u64,
    /// The row only marks the end of a run of instructions.
    pub end_sequence: bool,
    /// The source line; `None` where the row names none.
    pub line: Option<u64>,
    /// The directory of the row's file, relative or absolute.
    pub directory: Vec<u8>,
    pub file_name: Vec<u8>,
}

/// A [`LineRow`] as a value.
pub ghost struct LineRowView {
    pub address: u64,
    pub end_sequence: bool,
    pub line: Option<u64>,
    pub directory: Seq<u8>,
    pub file_name: Seq<u8>,
}

impl View for LineRow {
    type V = LineRowView;

    open spec fn view(&self) -> LineRowView {
        LineRowView {
            address: self.address,
            end_sequence: self.end_sequence,
            line: self.line,
            directory: self.directory@,
            file_name: self.file_name@,
        }
    }
}

/// The line program of one unit.
#[derive(Debug)]
pub struct UnitLines {
    /// Offset of the unit in `.debug_info`.
    pub offset: usize,
    /// The unit's compilation directory.
    pub comp_dir: Vec<u8>,
    pub rows: Vec<LineRow>,
}

/// A [`UnitLines`] as a value.
pub ghost struct UnitLinesView {
    pub offset: usize,
    pub comp_dir: Seq<u8>,
    pub rows: Seq<LineRowView>,
}

impl View for UnitLines {
    type V = UnitLinesView;

    open spec fn view(&self) -> UnitLinesView {
        UnitLinesView {
            offset: self.offset,
            comp_dir: self.comp_dir@,
            rows: self.rows@.map_values(|r: LineRow| r@),
        }
    }
}

/// Both halves of the index: the files by directory and the positions by
/// address.
pub ghost struct LineIndex {
    pub sources: Map<Seq<u8>, Seq<SourceFileView>>,
    pub lines: Map<u64, SourceIndexView>,
}

/// A row enters the index unless it ends a sequence or names no line.
pub open spec fn row_kept(row: LineRowView) -> bool {
    !row.end_sequence && row.line is Some
}

/// The index after one row of the unit at `unit`, compiled in `comp_dir`.
///
/// A kept row enters its file under the directory that its placement gives
/// and maps its address to the row's line in that file. A later row for the
/// same address replaces the earlier one.
pub open spec fn index_row(idx: LineIndex, comp_dir: Seq<u8>, unit: usize, row: LineRowView) -> LineIndex {
    if !row_kept(row) {
        idx
    } else {
        let at = placement(row.directory, row.file_name, comp_dir);
        let file = SourceFileView { path: at.0, compile_unit: unit };
        LineIndex {
            sources: with_file(idx.sources, at.1, file),
            lines: idx.lines.insert(
                row.address,
                SourceIndexView {
                    line: row.line.unwrap(),
                    hash_path: at.1,
                    index: slot_in(idx.sources, at.1, file) as usize,
                },
            ),
        }
    }
}

/// The index after the rows of one unit, taken in order.
pub open spec fn index_rows(idx: LineIndex, comp_dir: Seq<u8>, unit: usize, rows: Seq<LineRowView>) -> LineIndex
    decreases rows.len(),
{
    if rows.len() == 0 {
        idx
    } else {
        index_row(index_rows(idx, comp_dir, unit, rows.drop_last()), comp_dir, unit, rows.last())
    }
}

/// The index after the line programs of several units, taken in order.
pub open spec fn index_units(idx: LineIndex, units: Seq<UnitLinesView>) -> LineIndex
    decreases units.len(),
{
    if units.len() == 0 {
        idx
    } else {
        let u = units.last();
        index_rows(index_units(idx, units.drop_last()), u.comp_dir, u.offset, u.rows)
    }
}

/// The index without any entry.
pub open spec fn empty_index() -> LineIndex {
    LineIndex { sources: Map::empty(), lines: Map::empty() }
}

/// Some address of `m` maps to the position `s`.
pub open spec fn has_address(m: Map<u64, SourceIndexView>, s: SourceIndexView) -> bool {
    exists|a: u64| m.contains_key(a) && #[trigger] m[a] == s
}

/// A row that ends a sequence leaves the index as it is.
pub proof fn lemma_end_sequence_row_is_skipped(
    idx: LineIndex,
    comp_dir: Seq<u8>,
    unit: usize,
    row: LineRowView,
)
    requires
        row.end_sequence,
    ensures
        index_row(idx, comp_dir, unit, row) == idx,
{
}

/// A sequence of rows that all end a sequence leaves the line addresses as
/// they are.
pub proof fn lemma_end_sequence_rows_are_skipped(
    idx: LineIndex,
    comp_dir: Seq<u8>,
    unit: usize,
    rows: Seq<LineRowView>,
)
    requires
        forall|i: int| 0 <= i < rows.len() ==> rows[i].end_sequence,
    ensures
        index_rows(idx, comp_dir, unit, rows) == idx,
    decreases rows.len(),
{
    if rows.len() > 0 {
        lemma_end_sequence_rows_are_skipped(idx, comp_dir, unit, rows.drop_last());
    }
}

/// The position found for an address has an address: looking it up the
/// other way round finds an address that maps to the same position.
pub proof fn lemma_position_has_address(m: Map<u64, SourceIndexView>, a: u64)
    requires
        m.contains_key(a),
    ensures
        has_address(m, m[a]),
{
}

/// The source position of every instruction address that a line program
/// names.
pub struct LineAddresses {
    map: HashMap<u64, SourceIndex>,
    /// The addresses of `map`, in the order in which they were first entered.
    order: Vec<u64>,
}

impl View for LineAddresses {
    type V = Map<u64, SourceIndexView>;

    closed spec fn view(&self) -> Map<u64, SourceIndexView> {
        Map::new(|a: u64| self.map@.contains_key(a), |a: u64| self.map@[a]@)
    }
}

impl LineAddresses {
    /// The index is in order: its list of addresses names exactly the
    /// addresses it holds a position for.
    pub closed spec fn wf(&self) -> bool {
        forall|a: u64| self.map@.contains_key(a) <==> self.order@.contains(a)
    }

    /// An index without any address.
    pub fn new() -> (lines: Self)
        ensures
            lines.wf(),
            lines@ == Map::<u64, SourceIndexView>::empty(),
    {
        let lines = LineAddresses { map: HashMap::new(), order: Vec::new() };
        assert(lines@ =~= Map::<u64, SourceIndexView>::empty());
        lines
    }

    /// Maps `address` to `position`, replacing what it mapped to before.
    pub fn insert(&mut self, address: u64, position: SourceIndex)
        requires
            old(self).wf(),
        ensures
            final(self).wf(),
            final(self)@ == old(self)@.insert(address, position@),
    {
        let known = self.map.contains_key(&address);
        let ghost p = position@;
        self.map.insert(address, position);
        if !known {
            proof {
                lemma_push_contains(self.order@, address);
            }
            self.order.push(address);
        }
        assert(self@ =~= old(self)@.insert(address, p));
    }

    /// The source position of `address`.
    pub fn get_line(&self, address: u64) -> (position: Option<&SourceIndex>)
        ensures
            position matches Some(s) ==> self@.contains_key(address) && s@ == self@[address],
            position is None ==> !self@.contains_key(address),
    {
        self.map.get(&address)
    }

    /// The source file that `address` belongs to, looked up in `sources`.
    pub fn get_source_file(&self, address: u64, sources: &SourceMap) -> (file: Option<SourceFile>)
        requires
            sources.wf(),
        ensures
            file matches Some(f) ==> {
                &&& self@.contains_key(address)
                &&& sources@.contains_key(self@[address].hash_path)
                &&& self@[address].index < sources@[self@[address].hash_path].len()
                &&& f@ == sources@[self@[address].hash_path][self@[address].index as int]
            },
            file is None ==> !{
                &&& self@.contains_key(address)
                &&& sources@.contains_key(self@[address].hash_path)
                &&& self@[address].index < sources@[self@[address].hash_path].len()
            },
    {
        match self.get_line(address) {
            Some(line) => match sources.index_with_line(line) {
                Some(f) => Some(f.clone()),
                None => None,
            },
            None => None,
        }
    }

    /// An address that maps to the position `line`, where there is one. The
    /// addresses are searched one by one.
    pub fn get_address(&self, line: &SourceIndex) -> (address: Option<u64>)
        requires
            self.wf(),
        ensures
            address is Some <==> has_address(self@, line@),
            address matches Some(a) ==> self@.contains_key(a) && self@[a] == line@,
    {
        let mut i: usize = 0;
        while i < self.order.len()
            invariant
                self.wf(),
                i <= self.order@.len(),
                forall|j: int| 0 <= j < i ==> self@[self.order@[j]] != line@,
            decreases self.order@.len() - i,
        {
            let key = self.order[i];
            assert(self.order@.contains(key));
            if let Some(entry) = self.map.get(&key) {
                if entry.same(line) {
                    assert(self@.contains_key(key) && self@[key] == line@);
                    return Some(key);
                }
            }
            i += 1;
        }
        assert(!has_address(self@, line@)) by {
            if has_address(self@, line@) {
                let a = choose|a: u64| self@.contains_key(a) && #[trigger] self@[a] == line@;
                assert(self.order@.contains(a));
                let j = choose|j: int| 0 <= j < self.order@.len() && self.order@[j] == a;
                assert(self@[self.order@[j]] != line@);
            }
        }
        None
    }
}

/// Enters the rows of one unit's line program into the index.
pub fn index_unit(sources: &mut SourceMap, lines: &mut LineAddresses, unit: &UnitLines)
    requires
        old(sources).wf(),
        old(lines).wf(),
    ensures
        final(sources).wf(),
        final(lines).wf(),
        (LineIndex { sources: final(sources)@, lines: final(lines)@ }) == index_rows(
            LineIndex { sources: old(sources)@, lines: old(lines)@ },
            unit.comp_dir@,
            unit.offset,
            unit@.rows,
        ),
{
    let ghost start = LineIndex { sources: sources@, lines: lines@ };
    let ghost rows = unit@.rows;
    let mut i: usize = 0;
    assert(rows.take(0) =~= Seq::<LineRowView>::empty());
    while i < unit.rows.len()
        invariant
            i <= unit.rows@.len(),
            rows == unit@.rows,
            rows.len() == unit.rows@.len(),
            sources.wf(),
            lines.wf(),
            (LineIndex { sources: sources@, lines: lines@ }) == index_rows(
                start,
                unit.comp_dir@,
                unit.offset,
                rows.take(i as int),
            ),
        decreases unit.rows@.len() - i,
    {
        let row = &unit.rows[i];
        proof {
            assert(rows.take(i + 1).drop_last() =~= rows.take(i as int));
            assert(rows.take(i + 1).last() == rows[i as int]);
            assert(rows[i as int] == row@);
        }
        if !row.end_sequence {
            if let Some(line) = row.line {
                let at = place(
                    row.directory.as_slice(),
                    row.file_name.as_slice(),
                    unit.comp_dir.as_slice(),
                );
                let file = SourceFile::new(at.relative, unit.offset);
                let position = sources.insert_file(file, at.hash_dir, line);
                lines.insert(row.address, position);
            }
        }
        i += 1;
    }
    assert(rows.take(i as int) =~= rows);
}

/// Builds the index from the line programs of all units.
pub fn load_source(units: &Vec<UnitLines>) -> (index: (SourceMap, LineAddresses))
    ensures
        index.0.wf(),
        index.1.wf(),
        (LineIndex { sources: index.0@, lines: index.1@ }) == index_units(
            empty_index(),
            units@.map_values(|u: UnitLines| u@),
        ),
{
    let mut sources = SourceMap::new();
    let mut lines = LineAddresses::new();
    let ghost all = units@.map_values(|u: UnitLines| u@);
    let mut i: usize = 0;
    assert(all.take(0) =~= Seq::<UnitLinesView>::empty());
    while i < units.len()
        invariant
            i <= units@.len(),
            all == units@.map_values(|u: UnitLines| u@),
            sources.wf(),
            lines.wf(),
            (LineIndex { sources: sources@, lines: lines@ }) == index_units(
                empty_index(),
                all.take(i as int),
            ),
        decreases units@.len() - i,
    {
        proof {
            assert(all.take(i + 1).drop_last() =~= all.take(i as int));
            assert(all.take(i + 1).last() == units@[i as int]@);
        }
        index_unit(&mut sources, &mut lines, &units[i]);
        i += 1;
    }
    assert(all.take(i as int) =~= all);
    (sources, lines)
}

} // verus!
