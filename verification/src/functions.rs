//! The function index: the address ranges of every subprogram, by unit, and
//! the debugging entry that each range belongs to.

use std::collections::HashMap;
use vstd::prelude::*;
use crate::path::to_vec;

verus! {

broadcast use vstd::std_specs::hash::group_hash_axioms;

/// `DW_TAG_class_type`
pub const TAG_CLASS_TYPE: u16 = 0x02;

/// `DW_TAG_structure_type`
pub const TAG_STRUCTURE_TYPE: u16 = 0x13;

/// `DW_TAG_subprogram`
pub const TAG_SUBPROGRAM: u16 = 0x2e;

/// `DW_TAG_namespace`
pub const TAG_NAMESPACE: u16 = 0x39;

/// The addresses from `start` up to, not including, `end`.
#[derive(PartialEq, Eq, Structural, Clone, Copy, Debug)]
pub struct FunctionRange {
    pub start: u64,
    pub end: u64,
}

impl FunctionRange {
    /// Whether `address` lies in the range.
    pub open spec fn covers(self, address: u64) -> bool {
        self.start <= address < self.end
    }

    /// Whether `address` lies in the range.
    pub fn contains(&self, address: u64) -> (yes: bool)
        ensures
            yes == self.covers(address),
    {
        self.start <= address && address < self.end
    }
}

/// The three maps of the function index as values.
pub ghost struct FunctionIndexView {
    /// Start of a range to the entry of its function.
    pub funcs: Map<u64, usize>,
    /// Unit to the ranges of its functions, in the order they were entered.
    pub ranges: Map<usize, Seq<FunctionRange>>,
    /// Entry of a function to the name of the namespace or class around it.
    pub parents: Map<usize, Option<Seq<u8>>>,
}

/// An optional name as a value.
pub open spec fn name_view(name: Option<Vec<u8>>) -> Option<Seq<u8>> {
    match name {
        Some(n) => Some(n@),
        None => None,
    }
}

/// The ranges entered for `unit`; none where the unit is unknown.
pub open spec fn unit_ranges(idx: FunctionIndexView, unit: usize) -> Seq<FunctionRange> {
    if idx.ranges.contains_key(unit) {
        idx.ranges[unit]
    } else {
        Seq::empty()
    }
}

/// The index after a range of a function was entered.
pub open spec fn with_function(
    idx: FunctionIndexView,
    range: FunctionRange,
    entry: usize,
    unit: usize,
    parent: Option<Seq<u8>>,
) -> FunctionIndexView {
    FunctionIndexView {
        funcs: idx.funcs.insert(range.start, entry),
        ranges: idx.ranges.insert(unit, unit_ranges(idx, unit).push(range)),
        parents: idx.parents.insert(entry, parent),
    }
}

/// `i` is the first range of `ranges` that covers `address`.
pub open spec fn first_cover(ranges: Seq<FunctionRange>, address: u64, i: int) -> bool {
    &&& 0 <= i < ranges.len()
    &&& ranges[i].covers(address)
    &&& forall|j: int| 0 <= j < i ==> !ranges[j].covers(address)
}

/// Some range of `unit` covers `address`.
pub open spec fn covered(idx: FunctionIndexView, unit: usize, address: u64) -> bool {
    exists|i: int| 0 <= i < unit_ranges(idx, unit).len() && #[trigger] unit_ranges(idx, unit)[i].covers(
        address,
    )
}

/// Every range of every unit has a function entered at its start.
pub open spec fn starts_known(idx: FunctionIndexView) -> bool {
    forall|unit: usize, i: int|
        idx.ranges.contains_key(unit) && 0 <= i < idx.ranges[unit].len()
            ==> idx.funcs.contains_key(#[trigger] idx.ranges[unit][i].start)
}

/// The entry of the function of `unit` that `address` lies in: the function
/// entered at the start of the first range of the unit that covers it.
pub open spec fn function_at(idx: FunctionIndexView, unit: usize, address: u64) -> Option<usize> {
    let ranges = unit_ranges(idx, unit);
    if exists|i: int| first_cover(ranges, address, i) {
        let i = choose|i: int| first_cover(ranges, address, i);
        if idx.funcs.contains_key(ranges[i].start) {
            Some(idx.funcs[ranges[i].start])
        } else {
            None
        }
    } else {
        None
    }
}

/// The index without any function.
pub open spec fn empty_functions() -> FunctionIndexView {
    FunctionIndexView { funcs: Map::empty(), ranges: Map::empty(), parents: Map::empty() }
}

/// Entering a function keeps a function known at the start of every range.
pub proof fn lemma_with_function_keeps_starts(
    idx: FunctionIndexView,
    range: FunctionRange,
    entry: usize,
    unit: usize,
    parent: Option<Seq<u8>>,
)
    requires
        starts_known(idx),
    ensures
        starts_known(with_function(idx, range, entry, unit, parent)),
{
    let next = with_function(idx, range, entry, unit, parent);
    assert forall|u: usize, i: int|
        next.ranges.contains_key(u) && 0 <= i < next.ranges[u].len() implies next.funcs.contains_key(
        #[trigger] next.ranges[u][i].start,
    ) by {
        if u == unit {
            if i < unit_ranges(idx, unit).len() {
                assert(next.ranges[u][i] == idx.ranges[unit][i]);
            }
        } else {
            assert(next.ranges[u][i] == idx.ranges[u][i]);
        }
    }
}

/// The function index.
pub struct FunctionIndex {
    func_hash: HashMap<u64, usize>,
    range_hash: HashMap<usize, Vec<FunctionRange>>,
    subtype_parent: HashMap<usize, Option<Vec<u8>>>,
}

impl View for FunctionIndex {
    type V = FunctionIndexView;

    closed spec fn view(&self) -> FunctionIndexView {
        FunctionIndexView {
            funcs: self.func_hash@,
            ranges: Map::new(
                |u: usize| self.range_hash@.contains_key(u),
                |u: usize| self.range_hash@[u]@,
            ),
            parents: Map::new(
                |e: usize| self.subtype_parent@.contains_key(e),
                |e: usize| name_view(self.subtype_parent@[e]),
            ),
        }
    }
}

impl FunctionIndex {
    /// An index without any function.
    pub fn new() -> (index: Self)
        ensures
            index@ == empty_functions(),
            starts_known(index@),
    {
        let index = FunctionIndex {
            func_hash: HashMap::new(),
            range_hash: HashMap::new(),
            subtype_parent: HashMap::new(),
        };
        assert(index@.ranges =~= Map::<usize, Seq<FunctionRange>>::empty());
        assert(index@.parents =~= Map::<usize, Option<Seq<u8>>>::empty());
        index
    }

    /// Enters one address range of the function whose entry is at
    /// `function_entry`, for the unit at `unit`.
    pub fn insert_function(
        &mut self,
        range: FunctionRange,
        function_entry: usize,
        unit: usize,
        subtype_parent: Option<Vec<u8>>,
    )
        ensures
            final(self)@ == with_function(
                old(self)@,
                range,
                function_entry,
                unit,
                name_view(subtype_parent),
            ),
            starts_known(old(self)@) ==> starts_known(final(self)@),
    {
        let ghost parent: Option<Seq<u8>> = name_view(subtype_parent);
        let mut list = match self.range_hash.remove(&unit) {
            Some(list) => list,
            None => Vec::new(),
        };
        list.push(range);
        self.range_hash.insert(unit, list);
        self.func_hash.insert(range.start, function_entry);
        self.subtype_parent.insert(function_entry, subtype_parent);
        proof {
            let want = with_function(old(self)@, range, function_entry, unit, parent);
            assert(self@.ranges =~= want.ranges);
            assert(self@.parents =~= want.parents);
            if starts_known(old(self)@) {
                lemma_with_function_keeps_starts(old(self)@, range, function_entry, unit, parent);
            }
        }
    }

    /// The entry of the function whose range starts at `address`.
    pub fn direct_address(&self, address: u64) -> (entry: Option<usize>)
        ensures
            entry == (if self@.funcs.contains_key(address) {
                Some(self@.funcs[address])
            } else {
                None
            }),
    {
        match self.func_hash.get(&address) {
            Some(e) => Some(*e),
            None => None,
        }
    }

    /// The name of the namespace or class around the function at `entry`.
    pub fn parent_of(&self, entry: usize) -> (parent: Option<Vec<u8>>)
        ensures
            parent matches Some(name) ==> self@.parents.contains_key(entry) && self@.parents[entry]
                == Some(name@),
            parent is None ==> !self@.parents.contains_key(entry) || self@.parents[entry] is None,
    {
        match self.subtype_parent.get(&entry) {
            Some(Some(name)) => Some(to_vec(name.as_slice())),
            _ => None,
        }
    }

    /// The first range of `unit` that covers `address`.
    pub fn find_range(&self, address: u64, unit: usize) -> (range: Option<FunctionRange>)
        ensures
            range matches Some(r) ==> exists|i: int|
                first_cover(unit_ranges(self@, unit), address, i) && unit_ranges(self@, unit)[i]
                    == r,
            range is None ==> !covered(self@, unit, address),
    {
        let ranges = match self.range_hash.get(&unit) {
            Some(ranges) => ranges,
            None => {
                return None;
            },
        };
        assert(unit_ranges(self@, unit) == ranges@);
        let mut i: usize = 0;
        while i < ranges.len()
            invariant
                i <= ranges@.len(),
                unit_ranges(self@, unit) == ranges@,
                forall|j: int| 0 <= j < i ==> !ranges@[j].covers(address),
            decreases ranges@.len() - i,
        {
            if ranges[i].contains(address) {
                assert(first_cover(unit_ranges(self@, unit), address, i as int));
                return Some(ranges[i]);
            }
            i += 1;
        }
        None
    }

    /// The entry of the function of `unit` that `address` lies in: the
    /// function entered at the start of the first range that covers it.
    pub fn get_function(&self, address: u64, unit: usize) -> (entry: Option<usize>)
        ensures
            entry == function_at(self@, unit, address),
    {
        let range = match self.find_range(address, unit) {
            Some(range) => range,
            None => {
                assert forall|i: int|
                    !first_cover(unit_ranges(self@, unit), address, i) by {
                    if first_cover(unit_ranges(self@, unit), address, i) {
                        assert(unit_ranges(self@, unit)[i].covers(address));
                    }
                }
                return None;
            },
        };
        proof {
            let ranges = unit_ranges(self@, unit);
            let i = choose|i: int| first_cover(ranges, address, i) && ranges[i] == range;
            let j = choose|j: int| first_cover(ranges, address, j);
            assert(i == j);
        }
        self.direct_address(range.start)
    }
}

/// In an index that knows a function at the start of every range, an address
/// that a range of its unit covers resolves to a function.
pub proof fn lemma_covered_address_has_function(idx: FunctionIndexView, unit: usize, address: u64)
    requires
        starts_known(idx),
        covered(idx, unit, address),
    ensures
        function_at(idx, unit, address) is Some,
{
    let ranges = unit_ranges(idx, unit);
    let k = choose|i: int| 0 <= i < ranges.len() && #[trigger] ranges[i].covers(address);
    lemma_first_cover_exists(ranges, address, k);
    let i = choose|i: int| first_cover(ranges, address, i);
    assert(idx.funcs.contains_key(idx.ranges[unit][i].start));
}

/// Where some range up to `k` covers the address, one is the first.
proof fn lemma_first_cover_exists(ranges: Seq<FunctionRange>, address: u64, k: int)
    requires
        0 <= k < ranges.len(),
        ranges[k].covers(address),
    ensures
        exists|i: int| first_cover(ranges, address, i),
    decreases k,
{
    if exists|j: int| 0 <= j < k && ranges[j].covers(address) {
        let j = choose|j: int| 0 <= j < k && ranges[j].covers(address);
        lemma_first_cover_exists(ranges, address, j);
    } else {
        assert(first_cover(ranges, address, k));
    }
}

/// A debugging entry of a unit, as far as the function index reads it.
#[derive(Debug)]
pub struct FunctionDie {
    /// Offset of the entry in `.debug_info`.
    pub offset: usize,
    /// Depth of the entry in the unit's tree; the unit's root has depth 0.
    pub depth: usize,
    pub tag: u16,
    pub name: Option<Vec<u8>>,
    /// The entry has a `declaration` attribute.
    pub declaration: bool,
    /// Offset of the declaration that a `specification` attribute names.
    pub specification: Option<usize>,
    /// The range list that a `ranges` attribute names, expanded.
    pub ranges: Option<Vec<FunctionRange>>,
    pub low_pc: Option<u64>,
    /// `high_pc` as the length of the function in bytes.
    pub high_pc: Option<u64>,
}

/// A [`FunctionDie`] as a value.
pub ghost struct FunctionDieView {
    pub offset: usize,
    pub depth: usize,
    pub tag: u16,
    pub name: Option<Seq<u8>>,
    pub declaration: bool,
    pub specification: Option<usize>,
    pub ranges: Option<Seq<FunctionRange>>,
    pub low_pc: Option<u64>,
    pub high_pc: Option<u64>,
}

impl View for FunctionDie {
    type V = FunctionDieView;

    open spec fn view(&self) -> FunctionDieView {
        FunctionDieView {
            offset: self.offset,
            depth: self.depth,
            tag: self.tag,
            name: name_view(self.name),
            declaration: self.declaration,
            specification: self.specification,
            ranges: match self.ranges {
                Some(r) => Some(r@),
                None => None,
            },
            low_pc: self.low_pc,
            high_pc: self.high_pc,
        }
    }
}

/// The entries of one unit, in the order in which they stand in the unit.
#[derive(Debug)]
pub struct UnitDies {
    /// Offset of the unit in `.debug_info`.
    pub offset: usize,
    pub dies: Vec<FunctionDie>,
}

/// A [`UnitDies`] as a value.
pub ghost struct UnitDiesView {
    pub offset: usize,
    pub dies: Seq<FunctionDieView>,
}

impl View for UnitDies {
    type V = UnitDiesView;

    open spec fn view(&self) -> UnitDiesView {
        UnitDiesView { offset: self.offset, dies: self.dies@.map_values(|d: FunctionDie| d@) }
    }
}

/// The name that an entry lends to the functions inside it: that of a
/// namespace, a structure or a class, where it has one.
pub open spec fn label(die: FunctionDieView) -> Option<Seq<u8>> {
    if (die.tag == TAG_NAMESPACE || die.tag == TAG_STRUCTURE_TYPE || die.tag == TAG_CLASS_TYPE)
        && die.name is Some && die.name.unwrap().len() > 0 {
        die.name
    } else {
        None
    }
}

/// The labels of the entries that enclose entry `k`, outermost first.
pub open spec fn ancestors(dies: Seq<FunctionDieView>, k: int) -> Seq<Option<Seq<u8>>>
    decreases k,
{
    if k <= 0 {
        Seq::empty()
    } else {
        let up = ancestors(dies, k - 1).push(label(dies[k - 1]));
        if dies[k].depth < up.len() {
            up.take(dies[k].depth as int)
        } else {
            up
        }
    }
}

/// The label of the entry directly around entry `k`.
pub open spec fn parent_label(dies: Seq<FunctionDieView>, k: int) -> Option<Seq<u8>> {
    let up = ancestors(dies, k);
    if up.len() == 0 {
        None
    } else {
        up.last()
    }
}

/// The address ranges of a subprogram: those of its `ranges` attribute, else
/// the one from `low_pc` of length `high_pc`, else none.
pub open spec fn function_ranges(die: FunctionDieView) -> Seq<FunctionRange> {
    match die.ranges {
        Some(ranges) => ranges,
        None => match (die.low_pc, die.high_pc) {
            (Some(low), Some(high)) => if low + high <= u64::MAX {
                seq![FunctionRange { start: low, end: (low + high) as u64 }]
            } else {
                Seq::empty()
            },
            _ => Seq::empty(),
        },
    }
}

/// The index after the ranges of one function were entered in order.
pub open spec fn with_ranges(
    idx: FunctionIndexView,
    ranges: Seq<FunctionRange>,
    entry: usize,
    unit: usize,
    parent: Option<Seq<u8>>,
) -> FunctionIndexView
    decreases ranges.len(),
{
    if ranges.len() == 0 {
        idx
    } else {
        with_function(
            with_ranges(idx, ranges.drop_last(), entry, unit, parent),
            ranges.last(),
            entry,
            unit,
            parent,
        )
    }
}

/// What a walk over the entries has gathered: the index, and for every
/// declaration of a function the label of the entry around it.
pub ghost struct ScanState {
    pub index: FunctionIndexView,
    pub declarations: Map<usize, Option<Seq<u8>>>,
}

/// The state after entry `k` of the unit at `unit`.
///
/// Only subprograms count. A declaration is noted with the label around it
/// and has no addresses. Any other subprogram is entered with its ranges,
/// under the label noted for the declaration it specifies, or else under the
/// label around it; one without ranges and without `low_pc` and `high_pc`
/// enters nothing.
pub open spec fn scan_die(state: ScanState, unit: usize, dies: Seq<FunctionDieView>, k: int) -> ScanState {
    let die = dies[k];
    if die.tag != TAG_SUBPROGRAM {
        state
    } else if die.declaration {
        ScanState {
            index: state.index,
            declarations: state.declarations.insert(die.offset, parent_label(dies, k)),
        }
    } else {
        let parent = match die.specification {
            Some(d) => if state.declarations.contains_key(d) {
                state.declarations[d]
            } else {
                None
            },
            None => parent_label(dies, k),
        };
        ScanState {
            index: with_ranges(state.index, function_ranges(die), die.offset, unit, parent),
            declarations: state.declarations,
        }
    }
}

/// The state after the first `n` entries of a unit.
pub open spec fn scan_dies(state: ScanState, unit: usize, dies: Seq<FunctionDieView>, n: int) -> ScanState
    decreases n,
{
    if n <= 0 {
        state
    } else {
        scan_die(scan_dies(state, unit, dies, n - 1), unit, dies, n - 1)
    }
}

/// The state after the entries of several units.
pub open spec fn scan_units(state: ScanState, units: Seq<UnitDiesView>) -> ScanState
    decreases units.len(),
{
    if units.len() == 0 {
        state
    } else {
        let u = units.last();
        scan_dies(scan_units(state, units.drop_last()), u.offset, u.dies, u.dies.len() as int)
    }
}

/// The state before any entry.
pub open spec fn empty_scan() -> ScanState {
    ScanState { index: empty_functions(), declarations: Map::empty() }
}

/// A subprogram that has neither `ranges` nor `low_pc` enters nothing.
pub proof fn lemma_subprogram_without_addresses_is_skipped(
    state: ScanState,
    unit: usize,
    dies: Seq<FunctionDieView>,
    k: int,
)
    requires
        0 <= k < dies.len(),
        dies[k].tag == TAG_SUBPROGRAM,
        dies[k].ranges is None,
        dies[k].low_pc is None,
    ensures
        scan_die(state, unit, dies, k).index == state.index,
{
}

/// Entering ranges keeps a function known at the start of every range.
pub proof fn lemma_with_ranges_keeps_starts(
    idx: FunctionIndexView,
    ranges: Seq<FunctionRange>,
    entry: usize,
    unit: usize,
    parent: Option<Seq<u8>>,
)
    requires
        starts_known(idx),
    ensures
        starts_known(with_ranges(idx, ranges, entry, unit, parent)),
    decreases ranges.len(),
{
    if ranges.len() > 0 {
        lemma_with_ranges_keeps_starts(idx, ranges.drop_last(), entry, unit, parent);
        lemma_with_function_keeps_starts(
            with_ranges(idx, ranges.drop_last(), entry, unit, parent),
            ranges.last(),
            entry,
            unit,
            parent,
        );
    }
}

/// A walk over the entries of a unit keeps a function known at the start
/// of every range.
pub proof fn lemma_scan_dies_keeps_starts(state: ScanState, unit: usize, dies: Seq<FunctionDieView>, n: int)
    requires
        starts_known(state.index),
    ensures
        starts_known(scan_dies(state, unit, dies, n).index),
    decreases n,
{
    if n > 0 {
        lemma_scan_dies_keeps_starts(state, unit, dies, n - 1);
        let before = scan_dies(state, unit, dies, n - 1);
        let die = dies[n - 1];
        if die.tag == TAG_SUBPROGRAM && !die.declaration {
            let after = scan_die(before, unit, dies, n - 1);
            let parent = choose|p: Option<Seq<u8>>|
                after.index == with_ranges(before.index, function_ranges(die), die.offset, unit, p);
            lemma_with_ranges_keeps_starts(before.index, function_ranges(die), die.offset, unit, parent);
        }
    }
}

/// An index built by walking the units knows a function at the start of
/// every range it holds, so an address that a range covers always finds the
/// function of the first such range.
pub proof fn lemma_scan_units_keeps_starts(state: ScanState, units: Seq<UnitDiesView>)
    requires
        starts_known(state.index),
    ensures
        starts_known(scan_units(state, units).index),
    decreases units.len(),
{
    if units.len() > 0 {
        lemma_scan_units_keeps_starts(state, units.drop_last());
        let u = units.last();
        lemma_scan_dies_keeps_starts(scan_units(state, units.drop_last()), u.offset, u.dies, u.dies.len() as int);
    }
}

/// A copy of an optional name.
pub fn clone_name(name: &Option<Vec<u8>>) -> (copy: Option<Vec<u8>>)
    ensures
        name_view(copy) == name_view(*name),
{
    match name {
        Some(n) => Some(to_vec(n.as_slice())),
        None => None,
    }
}

/// The name that `die` lends to the functions inside it.
pub fn label_of(die: &FunctionDie) -> (name: Option<Vec<u8>>)
    ensures
        name_view(name) == label(die@),
{
    if die.tag == TAG_NAMESPACE || die.tag == TAG_STRUCTURE_TYPE || die.tag == TAG_CLASS_TYPE {
        match &die.name {
            Some(n) => if n.len() > 0 {
                Some(to_vec(n.as_slice()))
            } else {
                None
            },
            None => None,
        }
    } else {
        None
    }
}

/// The labels noted for declarations, as values.
pub open spec fn declaration_views(d: Map<usize, Option<Vec<u8>>>) -> Map<usize, Option<Seq<u8>>> {
    Map::new(|k: usize| d.contains_key(k), |k: usize| name_view(d[k]))
}

/// A walk over the debugging entries that fills a function index.
pub struct FunctionScan {
    index: FunctionIndex,
    declarations: HashMap<usize, Option<Vec<u8>>>,
}

impl View for FunctionScan {
    type V = ScanState;

    closed spec fn view(&self) -> ScanState {
        ScanState { index: self.index@, declarations: declaration_views(self.declarations@) }
    }
}

impl FunctionScan {
    /// A walk that has seen nothing yet.
    pub fn new() -> (scan: Self)
        ensures
            scan@ == empty_scan(),
    {
        let scan = FunctionScan { index: FunctionIndex::new(), declarations: HashMap::new() };
        assert(scan@.declarations =~= Map::<usize, Option<Seq<u8>>>::empty());
        scan
    }

    /// The index that the walk has filled.
    pub fn finish(self) -> (index: FunctionIndex)
        ensures
            index@ == self@.index,
    {
        self.index
    }

    /// Enters the ranges of one function.
    fn enter(&mut self, die: &FunctionDie, unit: usize, parent: &Option<Vec<u8>>)
        ensures
            final(self)@.declarations == old(self)@.declarations,
            final(self)@.index == with_ranges(
                old(self)@.index,
                function_ranges(die@),
                die.offset,
                unit,
                name_view(*parent),
            ),
    {
        let ghost want = function_ranges(die@);
        let ghost start = self@.index;
        match &die.ranges {
            Some(ranges) => {
                let mut i: usize = 0;
                assert(want.take(0) =~= Seq::<FunctionRange>::empty());
                while i < ranges.len()
                    invariant
                        i <= ranges@.len(),
                        want == ranges@,
                        self@.declarations == old(self)@.declarations,
                        self@.index == with_ranges(
                            start,
                            want.take(i as int),
                            die.offset,
                            unit,
                            name_view(*parent),
                        ),
                    decreases ranges@.len() - i,
                {
                    proof {
                        assert(want.take(i + 1).drop_last() =~= want.take(i as int));
                    }
                    self.index.insert_function(ranges[i], die.offset, unit, clone_name(parent));
                    i += 1;
                }
                assert(want.take(i as int) =~= want);
            },
            None => {
                proof {
                    reveal_with_fuel(with_ranges, 3);
                }
                if let (Some(low), Some(high)) = (die.low_pc, die.high_pc) {
                    if let Some(end) = low.checked_add(high) {
                        let range = FunctionRange { start: low, end };
                        proof {
                            assert(want.drop_last() =~= Seq::<FunctionRange>::empty());
                            assert(want.last() == range);
                        }
                        self.index.insert_function(range, die.offset, unit, clone_name(parent));
                    }
                }
            },
        }
    }

    /// Walks the entries of one unit.
    pub fn scan_unit(&mut self, unit: &UnitDies)
        ensures
            final(self)@ == scan_dies(old(self)@, unit.offset, unit@.dies, unit@.dies.len() as int),
    {
        let ghost dies = unit@.dies;
        let ghost start = self@;
        let mut stack: Vec<Option<Vec<u8>>> = Vec::new();
        let mut i: usize = 0;
        while i < unit.dies.len()
            invariant
                i <= unit.dies@.len(),
                dies == unit@.dies,
                dies.len() == unit.dies@.len(),
                self@ == scan_dies(start, unit.offset, dies, i as int),
                i > 0 ==> stack@.map_values(|n: Option<Vec<u8>>| name_view(n)) == ancestors(
                    dies,
                    i - 1,
                ),
                i == 0 ==> stack@.len() == 0,
            decreases unit.dies@.len() - i,
        {
            let die = &unit.dies[i];
            assert(dies[i as int] == die@);
            if i > 0 {
                let ghost before = stack@.map_values(|n: Option<Vec<u8>>| name_view(n));
                let up = label_of(&unit.dies[i - 1]);
                assert(dies[i - 1] == unit.dies@[i - 1]@);
                stack.push(up);
                assert(stack@.map_values(|n: Option<Vec<u8>>| name_view(n)) =~= before.push(
                    label(dies[i - 1]),
                ));
            }
            if die.depth < stack.len() {
                let ghost before = stack@.map_values(|n: Option<Vec<u8>>| name_view(n));
                stack.truncate(die.depth);
                assert(stack@.map_values(|n: Option<Vec<u8>>| name_view(n)) =~= before.take(
                    die.depth as int,
                ));
            }
            assert(stack@.map_values(|n: Option<Vec<u8>>| name_view(n)) == ancestors(
                dies,
                i as int,
            ));
            if die.tag == TAG_SUBPROGRAM {
                let around: Option<Vec<u8>> = if stack.len() == 0 {
                    None
                } else {
                    clone_name(&stack[stack.len() - 1])
                };
                assert(name_view(around) == parent_label(dies, i as int)) by {
                    if stack@.len() > 0 {
                        assert(stack@.map_values(|n: Option<Vec<u8>>| name_view(n)).last()
                            == name_view(stack@[stack@.len() - 1]));
                    }
                }
                if die.declaration {
                    let ghost d0 = self.declarations@;
                    self.declarations.insert(die.offset, around);
                    assert(declaration_views(self.declarations@) =~= declaration_views(d0).insert(
                        die.offset,
                        parent_label(dies, i as int),
                    ));
                } else {
                    let parent: Option<Vec<u8>> = match die.specification {
                        Some(d) => match self.declarations.get(&d) {
                            Some(noted) => clone_name(noted),
                            None => None,
                        },
                        None => around,
                    };
                    self.enter(die, unit.offset, &parent);
                }
            }
            i += 1;
        }
    }
}

/// Builds the function index from the debugging entries of all units.
pub fn parse_functions(units: &Vec<UnitDies>) -> (index: FunctionIndex)
    ensures
        index@ == scan_units(empty_scan(), units@.map_values(|u: UnitDies| u@)).index,
        starts_known(index@),
{
    let mut scan = FunctionScan::new();
    let ghost all = units@.map_values(|u: UnitDies| u@);
    let mut i: usize = 0;
    assert(all.take(0) =~= Seq::<UnitDiesView>::empty());
    while i < units.len()
        invariant
            i <= units@.len(),
            all == units@.map_values(|u: UnitDies| u@),
            scan@ == scan_units(empty_scan(), all.take(i as int)),
        decreases units@.len() - i,
    {
        proof {
            assert(all.take(i + 1).drop_last() =~= all.take(i as int));
            assert(all.take(i + 1).last() == units@[i as int]@);
        }
        scan.scan_unit(&units[i]);
        i += 1;
    }
    assert(all.take(i as int) =~= all);
    proof {
        lemma_scan_units_keeps_starts(empty_scan(), all);
    }
    scan.finish()
}

} // verus!
