//! The frame decoder: the function a frame belongs to, and the parameters
//! and variables that are visible in it.

use vstd::prelude::*;
use crate::address::{normal, to_link};
use crate::error::DebugError;
use crate::expr::Location;
use crate::functions::{function_at, name_view, FunctionIndex, FunctionRange, TAG_SUBPROGRAM};
use crate::lines::LineAddresses;
use crate::path::to_vec;
use crate::source::SourceMap;

verus! {

/// `DW_TAG_formal_parameter`
pub const TAG_FORMAL_PARAMETER: u16 = 0x05;

/// `DW_TAG_inlined_subroutine`
pub const TAG_INLINED_SUBROUTINE: u16 = 0x1d;

/// `DW_TAG_variable`
pub const TAG_VARIABLE: u16 = 0x34;

/// A local variable of a frame.
#[derive(Debug)]
pub struct Variable {
    pub name: Vec<u8>,
    pub location: Option<Location>,
    pub constant: Option<u64>,
    /// Offset of the entry of the variable's type.
    pub vtype: Option<usize>,
}

/// A [`Variable`] as a value.
pub ghost struct VariableView {
    pub name: Seq<u8>,
    pub location: Option<Location>,
    pub constant: Option<u64>,
    pub vtype: Option<usize>,
}

impl View for Variable {
    type V = VariableView;

    open spec fn view(&self) -> VariableView {
        VariableView {
            name: self.name@,
            location: self.location,
            constant: self.constant,
            vtype: self.vtype,
        }
    }
}

/// A parameter of a frame's function.
#[derive(Debug)]
pub struct Parameter {
    pub name: Vec<u8>,
    pub location: Option<Location>,
    pub vtype: Option<usize>,
}

/// A [`Parameter`] as a value.
pub ghost struct ParameterView {
    pub name: Seq<u8>,
    pub location: Option<Location>,
    pub vtype: Option<usize>,
}

impl View for Parameter {
    type V = ParameterView;

    open spec fn view(&self) -> ParameterView {
        ParameterView { name: self.name@, location: self.location, vtype: self.vtype }
    }
}

/// One frame of the call stack.
#[derive(Debug)]
pub struct Function {
    pub name: Vec<u8>,
    pub parameters: Vec<Parameter>,
    pub variables: Vec<Variable>,
    pub return_type: Option<usize>,
    /// Offset of the function's entry in `.debug_info`; `None` for the frame
    /// that only marks a failed unwind.
    pub debug_info_offset: Option<usize>,
}

/// A [`Function`] as a value.
pub ghost struct FunctionView {
    pub name: Seq<u8>,
    pub parameters: Seq<ParameterView>,
    pub variables: Seq<VariableView>,
    pub return_type: Option<usize>,
    pub debug_info_offset: Option<usize>,
}

impl View for Function {
    type V = FunctionView;

    open spec fn view(&self) -> FunctionView {
        FunctionView {
            name: self.name@,
            parameters: self.parameters@.map_values(|p: Parameter| p@),
            variables: self.variables@.map_values(|v: Variable| v@),
            return_type: self.return_type,
            debug_info_offset: self.debug_info_offset,
        }
    }
}

/// The frames of a call stack, innermost first.
#[derive(Debug)]
pub struct CallStack(pub Vec<Function>);

impl CallStack {
    /// A call stack without any frame.
    pub fn new() -> (stack: Self)
        ensures
            stack.0@.len() == 0,
    {
        CallStack(Vec::new())
    }
}

/// What the entry of a subprogram says of the function.
#[derive(Debug)]
pub struct SubprogramInfo {
    /// Offset of the entry in `.debug_info`.
    pub offset: usize,
    pub name: Option<Vec<u8>>,
    /// Offset of the entry of the return type.
    pub type_ref: Option<usize>,
    /// Whether the entry has a `frame_base` attribute.
    pub has_frame_base: bool,
    /// Offset of the declaration that a `specification` attribute names.
    pub specification: Option<usize>,
}

/// The name as the program's entry point is known to the debugger.
pub open spec fn main_name() -> Seq<u8> {
    seq![0x6du8, 0x61u8, 0x69u8, 0x6eu8]
}

/// Whether the frame is that of the program's entry point, which ends the
/// call stack: the function named `main`.
pub fn check_for_main(info: &Function) -> (is_main: bool)
    ensures
        is_main == (info.name@ == main_name()),
{
    let name = &info.name;
    let is_main = name.len() == 4 && name[0] == 0x6d && name[1] == 0x61 && name[2] == 0x69
        && name[3] == 0x6e;
    assert(is_main == (name@ =~= main_name()));
    is_main
}

/// The name and the return type of a function: those of the declaration
/// that the entry specifies where it specifies one, else its own.
pub open spec fn described_by(entry: SubprogramInfo, declaration: Option<SubprogramInfo>) -> Option<
    SubprogramInfo,
> {
    if entry.specification is Some {
        declaration
    } else {
        Some(entry)
    }
}

/// Starts the frame of a function from its entry.
///
/// `declaration` is the entry that the `specification` attribute of `entry`
/// names, where it has one. The frame has the name and return type found
/// there, or in `entry` itself, and no parameters or variables yet. A
/// function without a name is a fault in the debug information. With the
/// frame comes whether a frame base has to be evaluated.
pub fn extract_function_info(entry: &SubprogramInfo, declaration: Option<&SubprogramInfo>) -> (info:
    Result<(Function, bool), DebugError>)
    ensures
        info is Ok <==> described_by(*entry, deref_option(declaration)) is Some && described_by(
            *entry,
            deref_option(declaration),
        ).unwrap().name is Some,
        info matches Ok((function, frame_base)) ==> {
            let from = described_by(*entry, deref_option(declaration)).unwrap();
            &&& function.name@ == from.name.unwrap()@
            &&& function.return_type == from.type_ref
            &&& function.parameters@.len() == 0
            &&& function.variables@.len() == 0
            &&& function.debug_info_offset == Some(entry.offset)
            &&& frame_base == entry.has_frame_base
        },
        info matches Err(e) ==> e == DebugError::DwarfCorruption,
{
    let from: &SubprogramInfo = if entry.specification.is_some() {
        match declaration {
            Some(d) => d,
            None => {
                return Err(DebugError::DwarfCorruption);
            },
        }
    } else {
        entry
    };
    let name = match &from.name {
        Some(n) => to_vec(n.as_slice()),
        None => {
            return Err(DebugError::DwarfCorruption);
        },
    };
    Ok(
        (
            Function {
                name,
                parameters: Vec::new(),
                variables: Vec::new(),
                return_type: from.type_ref,
                debug_info_offset: Some(entry.offset),
            },
            entry.has_frame_base,
        ),
    )
}

/// The value behind an optional reference.
pub open spec fn deref_option(r: Option<&SubprogramInfo>) -> Option<SubprogramInfo> {
    match r {
        Some(x) => Some(*x),
        None => None,
    }
}

/// How the location of a variable is given.
#[derive(PartialEq, Eq, Structural, Clone, Copy, Debug)]
pub enum LocationKind {
    Absent,
    /// By an expression.
    Expression,
    /// By the location list at the given offset.
    List(usize),
}

/// An entry below a subprogram, as far as the frame decoder reads it.
#[derive(Debug)]
pub struct VariableDie {
    /// Offset of the entry in `.debug_info`.
    pub offset: usize,
    /// Depth of the entry in the unit's tree.
    pub depth: usize,
    pub tag: u16,
    pub name: Option<Vec<u8>>,
    pub decl_line: Option<u64>,
    pub type_ref: Option<usize>,
    pub const_value: Option<u64>,
    pub location: LocationKind,
}

/// A [`VariableDie`] as a value.
pub ghost struct VariableDieView {
    pub offset: usize,
    pub depth: usize,
    pub tag: u16,
    pub name: Option<Seq<u8>>,
    pub decl_line: Option<u64>,
    pub type_ref: Option<usize>,
    pub const_value: Option<u64>,
    pub location: LocationKind,
}

impl View for VariableDie {
    type V = VariableDieView;

    open spec fn view(&self) -> VariableDieView {
        VariableDieView {
            offset: self.offset,
            depth: self.depth,
            tag: self.tag,
            name: name_view(self.name),
            decl_line: self.decl_line,
            type_ref: self.type_ref,
            const_value: self.const_value,
            location: self.location,
        }
    }
}

/// The entries as values.
pub open spec fn die_views(dies: Seq<VariableDie>) -> Seq<VariableDieView> {
    dies.map_values(|d: VariableDie| d@)
}

/// The entry starts a function of its own: a nested subprogram or an
/// inlined one.
pub open spec fn starts_function(tag: u16) -> bool {
    tag == TAG_SUBPROGRAM || tag == TAG_INLINED_SUBROUTINE
}

/// The depth of the outermost nested function that entry `k` lies in or
/// comes after without having left it; `None` where there is none.
pub open spec fn cover(dies: Seq<VariableDieView>, k: int) -> Option<usize>
    decreases k,
{
    if k <= 0 {
        None
    } else {
        let before = cover(dies, k - 1);
        let prev = dies[k - 1];
        if before is Some && prev.depth > before.unwrap() {
            before
        } else if starts_function(prev.tag) {
            Some(prev.depth)
        } else {
            None
        }
    }
}

/// Entry `k` lies inside a nested function.
pub open spec fn hidden(dies: Seq<VariableDieView>, k: int) -> bool {
    cover(dies, k) is Some && dies[k].depth > cover(dies, k).unwrap()
}

/// The number of entries that belong to the function: those before the
/// first one that is not deeper than the function's own entry.
pub open spec fn extent(dies: Seq<VariableDieView>, fn_depth: usize, n: int) -> bool {
    &&& 0 <= n <= dies.len()
    &&& forall|j: int| 0 <= j < n ==> dies[j].depth > fn_depth
    &&& n < dies.len() ==> dies[n].depth <= fn_depth
}

/// The entry declares something that is in scope at `line`: a parameter, or
/// a variable declared at or before the line.
pub open spec fn in_scope(die: VariableDieView, line: u64) -> bool {
    ||| die.tag == TAG_FORMAL_PARAMETER
    ||| die.tag == TAG_VARIABLE && (die.decl_line is None || die.decl_line.unwrap() <= line)
}

/// Entry `k` is a parameter or variable that the frame shows.
pub open spec fn shown(dies: Seq<VariableDieView>, line: u64, k: int) -> bool {
    !hidden(dies, k) && in_scope(dies[k], line)
}

/// The entries among the first `n` that the frame shows, in order.
pub open spec fn shown_before(dies: Seq<VariableDieView>, line: u64, n: int) -> Seq<usize>
    decreases n,
{
    if n <= 0 {
        Seq::empty()
    } else if shown(dies, line, n - 1) {
        shown_before(dies, line, n - 1).push((n - 1) as usize)
    } else {
        shown_before(dies, line, n - 1)
    }
}

/// Picks, among the entries that follow a subprogram at depth `fn_depth`,
/// the parameters and variables that its frame shows at `current_line`.
///
/// The walk ends at the first entry that is not deeper than the subprogram.
/// Entries inside a nested or inlined function are passed over, and so are
/// variables declared after the current line.
pub fn visible_entries(dies: &Vec<VariableDie>, fn_depth: usize, current_line: u64) -> (picked: Vec<
    usize,
>)
    ensures
        exists|n: int|
            extent(die_views(dies@), fn_depth, n) && picked@ == shown_before(
                die_views(dies@),
                current_line,
                n,
            ),
{
    let ghost views = die_views(dies@);
    let mut picked: Vec<usize> = Vec::new();
    let mut skip: Option<usize> = None;
    let mut k: usize = 0;
    while k < dies.len() && dies[k].depth > fn_depth
        invariant
            k <= dies@.len(),
            views == die_views(dies@),
            forall|j: int| 0 <= j < k ==> views[j].depth > fn_depth,
            skip == cover(views, k as int),
            picked@ == shown_before(views, current_line, k as int),
        decreases dies@.len() - k,
    {
        let die = &dies[k];
        assert(views[k as int] == die@);
        let inside = match skip {
            Some(d) => die.depth > d,
            None => false,
        };
        if !inside {
            if die.tag == TAG_FORMAL_PARAMETER {
                picked.push(k);
            } else if die.tag == TAG_VARIABLE {
                let declared = match die.decl_line {
                    Some(line) => line <= current_line,
                    None => true,
                };
                if declared {
                    picked.push(k);
                }
            }
            skip = if die.tag == TAG_SUBPROGRAM || die.tag == TAG_INLINED_SUBROUTINE {
                Some(die.depth)
            } else {
                None
            };
        }
        k += 1;
    }
    assert(extent(views, fn_depth, k as int)) by {
        if k < dies@.len() {
            assert(views[k as int] == dies@[k as int]@);
        }
    }
    picked
}

/// The name shown for an entry without a name.
pub open spec fn unnamed() -> Seq<u8> {
    seq![0x30u8]
}

/// The name shown for an entry.
pub open spec fn shown_name(die: VariableDieView) -> Seq<u8> {
    match die.name {
        Some(n) => n,
        None => unnamed(),
    }
}

/// The location found for the `i`-th picked entry.
pub open spec fn location_for(locations: Seq<Option<Location>>, i: int) -> Option<Location> {
    if 0 <= i < locations.len() {
        locations[i]
    } else {
        None
    }
}

/// The variables among the first `n` picked entries.
pub open spec fn variables_of(
    dies: Seq<VariableDieView>,
    picked: Seq<usize>,
    locations: Seq<Option<Location>>,
    n: int,
) -> Seq<VariableView>
    decreases n,
{
    if n <= 0 {
        Seq::empty()
    } else {
        let rest = variables_of(dies, picked, locations, n - 1);
        let die = dies[picked[n - 1] as int];
        if picked[n - 1] < dies.len() && die.tag == TAG_VARIABLE {
            rest.push(
                VariableView {
                    name: shown_name(die),
                    location: location_for(locations, n - 1),
                    constant: die.const_value,
                    vtype: die.type_ref,
                },
            )
        } else {
            rest
        }
    }
}

/// The parameters among the first `n` picked entries.
pub open spec fn parameters_of(
    dies: Seq<VariableDieView>,
    picked: Seq<usize>,
    locations: Seq<Option<Location>>,
    n: int,
) -> Seq<ParameterView>
    decreases n,
{
    if n <= 0 {
        Seq::empty()
    } else {
        let rest = parameters_of(dies, picked, locations, n - 1);
        let die = dies[picked[n - 1] as int];
        if picked[n - 1] < dies.len() && die.tag == TAG_FORMAL_PARAMETER {
            rest.push(
                ParameterView {
                    name: shown_name(die),
                    location: location_for(locations, n - 1),
                    vtype: die.type_ref,
                },
            )
        } else {
            rest
        }
    }
}

fn name_or_default(name: &Option<Vec<u8>>) -> (shown: Vec<u8>)
    ensures
        shown@ == (match name_view(*name) {
            Some(n) => n,
            None => unnamed(),
        }),
{
    match name {
        Some(n) => to_vec(n.as_slice()),
        None => {
            let mut v: Vec<u8> = Vec::new();
            v.push(0x30);
            assert(v@ =~= unnamed());
            v
        },
    }
}

/// Adds the picked entries to the frame: variables to its variables,
/// parameters to its parameters, each with the location that was found for
/// it. `locations` runs parallel to `picked`; an entry without a location
/// there has none.
pub fn extract_variables(
    function: &mut Function,
    dies: &Vec<VariableDie>,
    picked: &Vec<usize>,
    locations: &Vec<Option<Location>>,
)
    ensures
        final(function)@.name == old(function)@.name,
        final(function)@.return_type == old(function)@.return_type,
        final(function)@.debug_info_offset == old(function)@.debug_info_offset,
        final(function)@.variables == old(function)@.variables + variables_of(
            die_views(dies@),
            picked@,
            locations@,
            picked@.len() as int,
        ),
        final(function)@.parameters == old(function)@.parameters + parameters_of(
            die_views(dies@),
            picked@,
            locations@,
            picked@.len() as int,
        ),
{
    let ghost views = die_views(dies@);
    let ghost v0 = function@.variables;
    let ghost p0 = function@.parameters;
    let mut i: usize = 0;
    assert(function@.variables =~= v0 + variables_of(views, picked@, locations@, 0));
    assert(function@.parameters =~= p0 + parameters_of(views, picked@, locations@, 0));
    while i < picked.len()
        invariant
            i <= picked@.len(),
            views == die_views(dies@),
            function@.name == old(function)@.name,
            function@.return_type == old(function)@.return_type,
            function@.debug_info_offset == old(function)@.debug_info_offset,
            function@.variables == v0 + variables_of(views, picked@, locations@, i as int),
            function@.parameters == p0 + parameters_of(views, picked@, locations@, i as int),
        decreases picked@.len() - i,
    {
        let k = picked[i];
        if k < dies.len() {
            let die = &dies[k];
            assert(views[k as int] == die@);
            let location: Option<Location> = if i < locations.len() {
                locations[i]
            } else {
                None
            };
            if die.tag == TAG_VARIABLE {
                let ghost before = function@.variables;
                let var = Variable {
                    name: name_or_default(&die.name),
                    location,
                    constant: die.const_value,
                    vtype: die.type_ref,
                };
                let ghost added = var@;
                function.variables.push(var);
                assert(function@.variables =~= before.push(added));
                assert(function@.variables =~= v0 + variables_of(
                    views,
                    picked@,
                    locations@,
                    i + 1,
                ));
            } else if die.tag == TAG_FORMAL_PARAMETER {
                let ghost before = function@.parameters;
                let param = Parameter {
                    name: name_or_default(&die.name),
                    location,
                    vtype: die.type_ref,
                };
                let ghost added = param@;
                function.parameters.push(param);
                assert(function@.parameters =~= before.push(added));
                assert(function@.parameters =~= p0 + parameters_of(
                    views,
                    picked@,
                    locations@,
                    i + 1,
                ));
            }
        }
        i += 1;
    }
}

/// One entry of a location list: the expression that holds while the
/// program counter is in the range.
#[derive(PartialEq, Eq, Structural, Clone, Copy, Debug)]
pub struct LocationListEntry {
    pub range: FunctionRange,
    /// Which entry of the list this is.
    pub index: usize,
}

/// `i` is the first entry of `list` whose range covers `pc`.
pub open spec fn first_entry_at(list: Seq<LocationListEntry>, pc: u64, i: int) -> bool {
    &&& 0 <= i < list.len()
    &&& list[i].range.covers(pc)
    &&& forall|j: int| 0 <= j < i ==> !list[j].range.covers(pc)
}

/// Picks the entry of a location list that holds at `pc`: the first whose
/// range covers it.
pub fn get_loclist_location(list: &Vec<LocationListEntry>, pc: u64) -> (entry: Option<
    LocationListEntry,
>)
    ensures
        entry matches Some(e) ==> exists|i: int| first_entry_at(list@, pc, i) && list@[i] == e,
        entry is None ==> forall|i: int| 0 <= i < list@.len() ==> !list@[i].range.covers(pc),
{
    let mut i: usize = 0;
    while i < list.len()
        invariant
            i <= list@.len(),
            forall|j: int| 0 <= j < i ==> !list@[j].range.covers(pc),
        decreases list@.len() - i,
    {
        if list[i].range.contains(pc) {
            assert(first_entry_at(list@, pc, i as int));
            return Some(list[i]);
        }
        i += 1;
    }
    None
}

/// Where a frame's instruction pointer was found in the debug information.
#[derive(PartialEq, Eq, Structural, Clone, Copy, Debug)]
pub enum FrameLookup {
    /// The address has no source line: it lies outside the code that the
    /// debug information covers, and the call stack ends before this frame.
    Outside,
    /// The address has a source line but its file or function is missing
    /// from the indices.
    Inconsistent,
    Found {
        /// The link-time address.
        address: u64,
        line: u64,
        /// Offset of the unit in `.debug_info`.
        unit: usize,
        /// Offset of the function's entry in `.debug_info`.
        function: usize,
    },
}

/// The link-time address has a source file in the source map and a function
/// in the function index.
pub open spec fn frame_known(
    lines: Map<u64, crate::source::SourceIndexView>,
    sources: Map<Seq<u8>, Seq<crate::source::SourceFileView>>,
    functions: crate::functions::FunctionIndexView,
    address: u64,
) -> bool {
    let at = lines[address];
    &&& sources.contains_key(at.hash_path)
    &&& at.index < sources[at.hash_path].len()
    &&& function_at(functions, sources[at.hash_path][at.index as int].compile_unit, address) is Some
}

/// An address with a source line resolves to a function, where the file of
/// the line is listed and a range of the file's unit covers the address.
pub proof fn lemma_covered_line_address_is_known(
    lines: Map<u64, crate::source::SourceIndexView>,
    sources: Map<Seq<u8>, Seq<crate::source::SourceFileView>>,
    functions: crate::functions::FunctionIndexView,
    address: u64,
)
    requires
        lines.contains_key(address),
        sources.contains_key(lines[address].hash_path),
        lines[address].index < sources[lines[address].hash_path].len(),
        crate::functions::starts_known(functions),
        crate::functions::covered(
            functions,
            sources[lines[address].hash_path][lines[address].index as int].compile_unit,
            address,
        ),
    ensures
        frame_known(lines, sources, functions, address),
{
    crate::functions::lemma_covered_address_has_function(
        functions,
        sources[lines[address].hash_path][lines[address].index as int].compile_unit,
        address,
    );
}

/// Finds the function of the frame whose instruction pointer is `rip`.
///
/// The runtime address is made link-time with `shift`. An address without a
/// source line, as in a dynamic library, is `Outside`: that ends the call
/// stack and is no error.
pub fn locate_frame(
    lines: &LineAddresses,
    sources: &SourceMap,
    functions: &FunctionIndex,
    shift: Option<u64>,
    rip: u64,
) -> (found: FrameLookup)
    requires
        sources.wf(),
    ensures
        found == FrameLookup::Outside <==> !lines@.contains_key(to_link(rip, shift)),
        found == FrameLookup::Inconsistent ==> !frame_known(
            lines@,
            sources@,
            functions@,
            to_link(rip, shift),
        ),
        found matches FrameLookup::Found { address, line, unit, function } ==> {
            let at = lines@[to_link(rip, shift)];
            &&& address == to_link(rip, shift)
            &&& line == at.line
            &&& sources@.contains_key(at.hash_path)
            &&& at.index < sources@[at.hash_path].len()
            &&& unit == sources@[at.hash_path][at.index as int].compile_unit
            &&& function_at(functions@, unit, address) == Some(function)
        },
{
    let address = normal(rip, shift);
    let at = match lines.get_line(address) {
        Some(at) => at,
        None => {
            return FrameLookup::Outside;
        },
    };
    let unit = match sources.index_with_line(at) {
        Some(file) => file.compile_unit,
        None => {
            return FrameLookup::Inconsistent;
        },
    };
    match functions.get_function(address, unit) {
        Some(function) => FrameLookup::Found { address, line: at.line, unit, function },
        None => FrameLookup::Inconsistent,
    }
}

/// Whether a frame ends the call stack: it is the program's entry point,
/// no unwind information gives it a frame address, or its frame address is
/// the one of the frame before it.
pub open spec fn ends_stack(name: Seq<u8>, previous_cfa: Option<u64>, cfa: Option<u64>) -> bool {
    name == main_name() || cfa is None || previous_cfa == cfa
}

/// Appends a decoded frame to the call stack and says whether it is the
/// last one. `cfa` is the frame address of the frame, `None` where no
/// unwind information covers it.
pub fn push_frame(
    stack: &mut CallStack,
    frame: Function,
    previous_cfa: Option<u64>,
    cfa: Option<u64>,
) -> (last: bool)
    ensures
        final(stack).0@ == old(stack).0@.push(frame),
        last == ends_stack(frame.name@, previous_cfa, cfa),
{
    let is_main = check_for_main(&frame);
    let stuck = match (previous_cfa, cfa) {
        (Some(p), Some(c)) => p == c,
        (_, None) => true,
        (None, Some(_)) => false,
    };
    stack.0.push(frame);
    is_main || stuck
}

/// The name of the frame that marks a failed unwind.
pub open spec fn failed_name() -> Seq<u8> {
    seq![
        0x75u8,
        0x6eu8,
        0x77u8,
        0x69u8,
        0x6eu8,
        0x64u8,
        0x20u8,
        0x66u8,
        0x61u8,
        0x69u8,
        0x6cu8,
        0x65u8,
        0x64u8,
    ]
}

/// Appends the frame that marks a failed unwind: the frames gathered so far
/// stay, and a last frame named `unwind failed` follows them.
pub fn push_failed_frame(stack: &mut CallStack)
    ensures
        final(stack).0@.len() == old(stack).0@.len() + 1,
        final(stack).0@.take(old(stack).0@.len() as int) == old(stack).0@,
        final(stack).0@.last()@ == (FunctionView {
            name: failed_name(),
            parameters: Seq::empty(),
            variables: Seq::empty(),
            return_type: None,
            debug_info_offset: None,
        }),
{
    let mut name: Vec<u8> = Vec::new();
    name.push(0x75);
    name.push(0x6e);
    name.push(0x77);
    name.push(0x69);
    name.push(0x6e);
    name.push(0x64);
    name.push(0x20);
    name.push(0x66);
    name.push(0x61);
    name.push(0x69);
    name.push(0x6c);
    name.push(0x65);
    name.push(0x64);
    assert(name@ =~= failed_name());
    let frame = Function {
        name,
        parameters: Vec::new(),
        variables: Vec::new(),
        return_type: None,
        debug_info_offset: None,
    };
    assert(frame@.parameters =~= Seq::<ParameterView>::empty());
    assert(frame@.variables =~= Seq::<VariableView>::empty());
    stack.0.push(frame);
    assert(stack.0@.take(old(stack).0@.len() as int) =~= old(stack).0@);
}

} // verus!
