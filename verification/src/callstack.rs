//! The call stack, frame by frame.
//!
//! A frame is decoded in two moves. [`begin_frame`] takes everything from
//! the debug information: the function, the unwind row, the entries that
//! are in scope. The caller then reads from the tracee what the row and the
//! entries ask for, and hands over what came of it, failures included.
//! [`finish_frame`] puts the frame on the stack and hands out the registers
//! of the frame above it. Whatever fails on the way, in either move, leaves
//! the frames gathered so far and the frame that marks a failed unwind after
//! them.

use vstd::prelude::*;
use crate::address::to_link;
use crate::cfi::{get_unwind_for_address, row_cfa, row_rule_count, row_rules};
use crate::context::Indices;
use crate::entries::{
    first_holder, get_unit_entry_offset, has_attribute, list_entries, read_location_list,
    read_subprogram, read_variable_dies, unit_holds, variable_dies_of, AT_FRAME_BASE, AT_NAME,
    AT_SPECIFICATION, AT_TYPE,
};
use crate::dwarf::{location_ranges_of, reference_of, text_of, DwarfImage, DwarfView};
use crate::error::DebugError;
use crate::expr::{classify_location, location_of, Location, PieceLocation};
use crate::frame::{
    die_views, ends_stack, extent, extract_function_info, extract_variables, failed_name,
    first_entry_at, frame_known, get_loclist_location, locate_frame, parameters_of,
    push_failed_frame, push_frame, shown_before, variables_of, visible_entries, CallStack,
    FrameLookup, Function, FunctionView, LocationKind, LocationListEntry, SubprogramInfo,
    VariableDie,
};
use crate::functions::function_at;
use crate::reader::units_from;
use crate::registers::Registers;
use crate::unwind::{unwind_registers, unwound, RuleFor, UnwindInfo};

verus! {

/// What the debug information says of a frame.
#[derive(Debug)]
pub struct FramePlan {
    /// The link-time address of the frame's instruction pointer.
    pub address: u64,
    /// The source line of that address.
    pub line: u64,
    /// Offset of the unit in `.debug_info`.
    pub unit: usize,
    /// Offset of the function's entry in `.debug_info`.
    pub function: usize,
    /// The frame, with its name and return type and nothing else yet.
    pub info: Function,
    /// Whether the function's frame base has to be evaluated.
    pub has_frame_base: bool,
    /// The unwind row of the address; `None` where no frame description
    /// covers it, which ends the stack with this frame.
    pub row: Option<UnwindInfo>,
    /// The entries below the function.
    pub below: Vec<VariableDie>,
    /// The parameters and variables among them that the frame shows, as
    /// indices into `below`.
    pub picked: Vec<usize>,
}

/// How the decoding of a frame starts.
#[derive(Debug)]
pub enum FrameStart {
    /// The address has no source line: the stack ends before this frame.
    Outside,
    /// The debug information of the frame cannot be used.
    Failed(DebugError),
    Ready(FramePlan),
}

/// The unit that holds the entry at `die`, or `unit` where none does.
pub open spec fn home_unit(image: DwarfView, unit: usize, die: usize) -> usize {
    let units = units_from(image, 0);
    if exists|i: int| first_holder(image, units, die, i) {
        units[choose|i: int| first_holder(image, units, die, i)]
    } else {
        unit
    }
}

/// Where the name and the return type of the function at `function` are
/// found: in the declaration that the entry specifies, else in the entry.
pub open spec fn describing_entry(image: DwarfView, unit: usize, function: usize) -> (usize, usize) {
    match reference_of(image, unit, function, AT_SPECIFICATION) {
        Some(d) => (home_unit(image, unit, d), d),
        None => (unit, function),
    }
}

/// The name of the function at `function`.
pub open spec fn function_name(image: DwarfView, unit: usize, function: usize) -> Option<Seq<u8>> {
    let at = describing_entry(image, unit, function);
    text_of(image, at.0, at.1, AT_NAME)
}

/// The frame that marks a failed unwind.
pub open spec fn failed_frame() -> FunctionView {
    FunctionView {
        name: failed_name(),
        parameters: Seq::empty(),
        variables: Seq::empty(),
        return_type: None,
        debug_info_offset: None,
    }
}

/// `after` holds the frames of `before` and then the frame that marks a
/// failed unwind.
pub open spec fn marked_failed(before: CallStack, after: CallStack) -> bool {
    &&& after.0@.len() == before.0@.len() + 1
    &&& after.0@.drop_last() == before.0@
    &&& after.0@.last()@ == failed_frame()
}

/// Starts a call stack from what was read of the registers of the stopped
/// tracee. Registers that could not be read fail the unwind before its
/// first frame: the stack holds the frame that marks a failed unwind and
/// nothing else.
pub fn start_stack(read: Result<Registers, DebugError>) -> (start: (CallStack, Result<Registers, DebugError>))
    ensures
        read matches Ok(regs) ==> start.0.0@.len() == 0 && start.1 == Ok::<Registers, DebugError>(
            regs,
        ),
        read matches Err(e) ==> {
            &&& start.0.0@.len() == 1
            &&& start.0.0@[0]@ == failed_frame()
            &&& start.1 == Err::<Registers, DebugError>(e.shown())
        },
{
    let mut stack = CallStack::new();
    match read {
        Ok(regs) => (stack, Ok(regs)),
        Err(e) => {
            push_failed_frame(&mut stack);
            (stack, Err(e.surfaced()))
        },
    }
}

/// Starts the decoding of the frame whose instruction pointer is `rip`.
///
/// An address without a source line is `Outside`. An address whose file or
/// function is missing from the indices, or whose function has no name, is
/// a fault in the debug information: the frame that marks a failed unwind
/// goes on the stack. Otherwise the stack stays as it is, and the plan holds
/// the function, its unwind row and the entries it shows at the line.
pub fn begin_frame(stack: &mut CallStack, indices: &Indices, shift: Option<u64>, rip: u64) -> (start:
    FrameStart)
    requires
        indices.source_files.wf(),
    ensures
        start is Failed ==> marked_failed(*old(stack), *final(stack)),
        !(start is Failed) ==> *final(stack) == *old(stack),
        start is Outside <==> !indices.line_addresses@.contains_key(to_link(rip, shift)),
        start matches FrameStart::Failed(e) ==> e == DebugError::DwarfCorruption,
        start is Failed <==> indices.line_addresses@.contains_key(to_link(rip, shift)) && !({
            &&& frame_known(
                indices.line_addresses@,
                indices.source_files@,
                indices.function_index@,
                to_link(rip, shift),
            )
            &&& ({
                let at = indices.line_addresses@[to_link(rip, shift)];
                let unit = indices.source_files@[at.hash_path][at.index as int].compile_unit;
                let function = function_at(
                    indices.function_index@,
                    unit,
                    to_link(rip, shift),
                ).unwrap();
                function_name(indices.image.dwarf@, unit, function) is Some
            })
        }),
        start matches FrameStart::Ready(plan) ==> {
            let image = indices.image.dwarf@;
            let eh = indices.image.eh_frame;
            let at = indices.line_addresses@[to_link(rip, shift)];
            let from = describing_entry(image, plan.unit, plan.function);
            &&& plan.address == to_link(rip, shift)
            &&& plan.line == at.line
            &&& plan.unit == indices.source_files@[at.hash_path][at.index as int].compile_unit
            &&& function_at(indices.function_index@, plan.unit, plan.address) == Some(
                plan.function,
            )
            &&& Some(plan.info@.name) == function_name(image, plan.unit, plan.function)
            &&& plan.info@.return_type == reference_of(image, from.0, from.1, AT_TYPE)
            &&& plan.info@.debug_info_offset == Some(plan.function)
            &&& plan.info@.parameters.len() == 0
            &&& plan.info@.variables.len() == 0
            &&& plan.has_frame_base == has_attribute(
                image,
                plan.unit,
                plan.function,
                AT_FRAME_BASE,
            )
            &&& plan.row is Some <==> row_cfa(
                eh.frame@,
                eh.section_base,
                eh.big_endian,
                plan.address,
            ) is Some && row_rule_count(
                eh.frame@,
                eh.section_base,
                eh.big_endian,
                plan.address,
            ) is Some
            &&& plan.row matches Some(row) ==> {
                &&& Some(row.cfa) == row_cfa(
                    eh.frame@,
                    eh.section_base,
                    eh.big_endian,
                    plan.address,
                )
                &&& row.rules@ == row_rules(
                    eh.frame@,
                    eh.section_base,
                    eh.big_endian,
                    plan.address,
                    row_rule_count(
                        eh.frame@,
                        eh.section_base,
                        eh.big_endian,
                        plan.address,
                    ).unwrap() as int,
                )
            }
            &&& die_views(plan.below@) == variable_dies_of(image, plan.unit, plan.function)
            &&& exists|n: int|
                extent(die_views(plan.below@), 0, n) && plan.picked@ == shown_before(
                    die_views(plan.below@),
                    plan.line,
                    n,
                )
        },
{
    let found = locate_frame(
        &indices.line_addresses,
        &indices.source_files,
        &indices.function_index,
        shift,
        rip,
    );
    let (address, line, unit, function) = match found {
        FrameLookup::Outside => {
            return FrameStart::Outside;
        },
        FrameLookup::Inconsistent => {
            push_failed_frame(stack);
            assert(stack.0@.drop_last() =~= old(stack).0@);
            return FrameStart::Failed(DebugError::DwarfCorruption);
        },
        FrameLookup::Found { address, line, unit, function } => (address, line, unit, function),
    };
    let image = &indices.image.dwarf;
    let entry = read_subprogram(image, unit, function);
    let declaration: Option<SubprogramInfo> = match entry.specification {
        Some(d) => {
            let home = match get_unit_entry_offset(image, d) {
                Some(home) => home,
                None => unit,
            };
            proof {
                let units = units_from(image@, 0);
                if exists|i: int| first_holder(image@, units, d, i) {
                    let c = choose|i: int| first_holder(image@, units, d, i);
                    let i = choose|i: int| first_holder(image@, units, d, i) && units[i] == home;
                    assert(c == i);
                } else {
                    assert forall|i: int| 0 <= i < units.len() implies !unit_holds(
                        image@,
                        #[trigger] units[i],
                        d,
                    ) by {
                        if unit_holds(image@, units[i], d) {
                            lemma_some_holder_is_first(image@, units, d, i);
                        }
                    }
                }
                assert(home == home_unit(image@, unit, d));
            }
            Some(read_subprogram(image, home, d))
        },
        None => None,
    };
    let described = match &declaration {
        Some(d) => extract_function_info(&entry, Some(d)),
        None => extract_function_info(&entry, None),
    };
    let (info, has_frame_base) = match described {
        Ok(described) => described,
        Err(e) => {
            push_failed_frame(stack);
            assert(stack.0@.drop_last() =~= old(stack).0@);
            return FrameStart::Failed(e);
        },
    };
    let row = get_unwind_for_address(address, &indices.image.eh_frame);
    let below = read_variable_dies(image, unit, function);
    let picked = visible_entries(&below, 0, line);
    FrameStart::Ready(
        FramePlan { address, line, unit, function, info, has_frame_base, row, below, picked },
    )
}

/// Where some unit up to `k` holds the offset, one is the first.
proof fn lemma_some_holder_is_first(image: DwarfView, units: Seq<usize>, die: usize, k: int)
    requires
        0 <= k < units.len(),
        unit_holds(image, units[k], die),
    ensures
        exists|i: int| first_holder(image, units, die, i),
    decreases k,
{
    if exists|j: int| 0 <= j < k && unit_holds(image, units[j], die) {
        let j = choose|j: int| 0 <= j < k && unit_holds(image, units[j], die);
        lemma_some_holder_is_first(image, units, die, j);
    } else {
        assert(first_holder(image, units, die, k));
    }
}

/// The frame of `plan` with the entries it shows and the locations that
/// were found for them.
pub open spec fn finished_frame(plan: FramePlan, locations: Seq<Option<Location>>) -> FunctionView {
    FunctionView {
        name: plan.info@.name,
        parameters: plan.info@.parameters + parameters_of(
            die_views(plan.below@),
            plan.picked@,
            locations,
            plan.picked@.len() as int,
        ),
        variables: plan.info@.variables + variables_of(
            die_views(plan.below@),
            plan.picked@,
            locations,
            plan.picked@.len() as int,
        ),
        return_type: plan.info@.return_type,
        debug_info_offset: plan.info@.debug_info_offset,
    }
}

/// Where the expression that locates an entry is found.
#[derive(PartialEq, Eq, Structural, Clone, Copy, Debug)]
pub enum LocationSource {
    /// The entry has no location.
    Absent,
    /// In the location attribute of the entry.
    Attribute,
    /// In an entry of the location list of the entry: the list at `offset`
    /// of its section, and in it the entry with the number `index`.
    ListEntry { offset: usize, index: usize },
    /// The entry has a location list, and none of its ranges covers the
    /// address.
    Uncovered,
}

/// The entries of the location list of `unit` at `offset`; a list that
/// cannot be read has none.
pub open spec fn location_list(image: DwarfView, unit: usize, offset: usize) -> Seq<LocationListEntry> {
    match location_ranges_of(image, unit, offset) {
        Some(ranges) => list_entries(ranges),
        None => Seq::empty(),
    }
}

/// Where the location of an entry is found at `pc`: a location list gives
/// the first of its entries whose range covers `pc`.
pub open spec fn source_of(image: DwarfView, unit: usize, kind: LocationKind, pc: u64) -> LocationSource {
    match kind {
        LocationKind::Absent => LocationSource::Absent,
        LocationKind::Expression => LocationSource::Attribute,
        LocationKind::List(offset) => {
            let list = location_list(image, unit, offset);
            if exists|i: int| first_entry_at(list, pc, i) {
                LocationSource::ListEntry {
                    offset,
                    index: list[choose|i: int| first_entry_at(list, pc, i)].index,
                }
            } else {
                LocationSource::Uncovered
            }
        },
    }
}

/// Says where the expression that locates an entry at `pc` is found.
pub fn locate_source(image: &DwarfImage, unit: usize, kind: LocationKind, pc: u64) -> (source:
    LocationSource)
    ensures
        source == source_of(image@, unit, kind, pc),
{
    match kind {
        LocationKind::Absent => LocationSource::Absent,
        LocationKind::Expression => LocationSource::Attribute,
        LocationKind::List(offset) => {
            let list = read_location_list(image, unit, offset);
            match get_loclist_location(&list, pc) {
                Some(entry) => {
                    proof {
                        let i = choose|i: int| first_entry_at(list@, pc, i) && list@[i] == entry;
                        let c = choose|i: int| first_entry_at(list@, pc, i);
                        assert(c == i) by {
                            if c < i {
                                assert(!list@[c].range.covers(pc));
                            }
                            if i < c {
                                assert(!list@[i].range.covers(pc));
                            }
                        }
                    }
                    LocationSource::ListEntry { offset, index: entry.index }
                },
                None => {
                    assert forall|i: int| !first_entry_at(list@, pc, i) by {
                        if 0 <= i < list@.len() {
                            assert(!list@[i].range.covers(pc));
                        }
                    }
                    LocationSource::Uncovered
                },
            }
        },
    }
}

/// The location of an entry, from where its expression was found and what
/// the evaluation of that expression gave.
pub open spec fn found_of(source: LocationSource, evaluated: Result<Seq<PieceLocation>, DebugError>) -> Result<
    Option<Location>,
    DebugError,
> {
    match source {
        LocationSource::Absent => Ok(None),
        LocationSource::Uncovered => Err(DebugError::DwarfCorruption),
        _ => match evaluated {
            Err(e) => Err(e),
            Ok(pieces) => match location_of(pieces) {
                Ok(l) => Ok(Some(l)),
                Err(e) => Err(e),
            },
        },
    }
}

/// The result of an evaluation, with the pieces as values.
pub open spec fn evaluated_view(evaluated: Result<Vec<PieceLocation>, DebugError>) -> Result<
    Seq<PieceLocation>,
    DebugError,
> {
    match evaluated {
        Ok(pieces) => Ok(pieces@),
        Err(e) => Err(e),
    }
}

/// Settles the location of an entry. An entry without a location has none;
/// a location list that does not cover the address is a fault in the debug
/// information; otherwise the evaluation decides, and its failure is the
/// failure of the location.
pub fn found_location(source: LocationSource, evaluated: Result<Vec<PieceLocation>, DebugError>) -> (found:
    Result<Option<Location>, DebugError>)
    ensures
        found == found_of(source, evaluated_view(evaluated)),
{
    match source {
        LocationSource::Absent => Ok(None),
        LocationSource::Uncovered => Err(DebugError::DwarfCorruption),
        _ => match evaluated {
            Err(e) => Err(e),
            Ok(pieces) => match classify_location(&pieces) {
                Ok(l) => Ok(Some(l)),
                Err(e) => Err(e),
            },
        },
    }
}

/// The first failure among the first `n` of `found`, if there is one.
pub open spec fn first_failure(found: Seq<Result<Option<Location>, DebugError>>, n: int) -> Option<
    DebugError,
>
    decreases n,
{
    if n <= 0 {
        None
    } else {
        match first_failure(found, n - 1) {
            Some(e) => Some(e),
            None => match found[n - 1] {
                Err(e) => Some(e),
                Ok(_) => None,
            },
        }
    }
}

/// The locations that were found, entry by entry.
pub open spec fn located(found: Seq<Result<Option<Location>, DebugError>>) -> Seq<Option<Location>> {
    found.map_values(
        |l: Result<Option<Location>, DebugError>|
            match l {
                Ok(l) => l,
                Err(_) => None,
            },
    )
}

/// What fails the frame of a row with `rules`, if anything does: the frame
/// address, then the registers of the frame above, then the frame base, then
/// the first location that could not be found.
pub open spec fn frame_failure(
    regs: Registers,
    rules: Seq<RuleFor>,
    cfa: Result<u64, DebugError>,
    fetched: Seq<Result<u64, DebugError>>,
    frame_base: Result<Option<u64>, DebugError>,
    found: Seq<Result<Option<Location>, DebugError>>,
) -> Option<DebugError> {
    match cfa {
        Err(e) => Some(e),
        Ok(at) => match unwound(regs, at, rules, fetched) {
            Err(e) => Some(e),
            Ok(_) => match frame_base {
                Err(e) => Some(e),
                Ok(_) => first_failure(found, found.len() as int),
            },
        },
    }
}

/// The locations in `found`, or the first failure among them.
pub fn gather_locations(found: &Vec<Result<Option<Location>, DebugError>>) -> (all: Result<
    Vec<Option<Location>>,
    DebugError,
>)
    ensures
        all matches Ok(l) ==> first_failure(found@, found@.len() as int) is None && l@ == located(
            found@,
        ),
        all matches Err(e) ==> first_failure(found@, found@.len() as int) == Some(e),
{
    let mut all: Vec<Option<Location>> = Vec::new();
    let mut i: usize = 0;
    while i < found.len()
        invariant
            i <= found@.len(),
            first_failure(found@, i as int) is None,
            all@ == located(found@).take(i as int),
        decreases found@.len() - i,
    {
        match found[i] {
            Ok(l) => {
                all.push(l);
                assert(all@ =~= located(found@).take(i + 1));
            },
            Err(e) => {
                proof {
                    lemma_failure_stays(found@, i + 1, found@.len() as int);
                }
                return Err(e);
            },
        }
        i += 1;
    }
    assert(all@ =~= located(found@));
    Ok(all)
}

/// A failure among the first `n` is the first failure of any longer run.
proof fn lemma_failure_stays(found: Seq<Result<Option<Location>, DebugError>>, n: int, m: int)
    requires
        first_failure(found, n) is Some,
        n <= m,
    ensures
        first_failure(found, m) == first_failure(found, n),
    decreases m - n,
{
    if n < m {
        lemma_failure_stays(found, n, m - 1);
    }
}

/// Ends the decoding of a frame.
///
/// `cfa` is the frame address that the caller worked out from the row,
/// `fetched` what it fetched for the register rules, in their order,
/// `frame_base` the frame base of the function where it has one, and
/// `found` what it found for the picked entries, in their order. Each of
/// them may have failed.
///
/// A frame without a row goes on the stack as it is and ends it. Otherwise
/// the first failure, in the order of [`frame_failure`], is returned as the
/// shell gets to see it: the frames so far stay, the frame that marks a
/// failed unwind follows them, and no registers are handed out. Where
/// nothing failed the frame goes on the stack with its parameters and
/// variables, and the restored registers are returned unless the frame ends
/// the stack.
pub fn finish_frame(
    stack: &mut CallStack,
    plan: FramePlan,
    regs: &Registers,
    previous_cfa: Option<u64>,
    cfa: Result<u64, DebugError>,
    fetched: &Vec<Result<u64, DebugError>>,
    frame_base: Result<Option<u64>, DebugError>,
    found: &Vec<Result<Option<Location>, DebugError>>,
) -> (above: Result<Option<Registers>, DebugError>)
    ensures
        final(stack).0@.len() == old(stack).0@.len() + 1,
        final(stack).0@.drop_last() == old(stack).0@,
        plan.row is None ==> above == Ok::<Option<Registers>, DebugError>(None)
            && final(stack).0@.last() == plan.info,
        plan.row matches Some(row) ==> (match frame_failure(
            *regs,
            row.rules@,
            cfa,
            fetched@,
            frame_base,
            found@,
        ) {
            Some(e) => above == Err::<Option<Registers>, DebugError>(e.shown()) && marked_failed(
                *old(stack),
                *final(stack),
            ),
            None => {
                &&& final(stack).0@.last()@ == finished_frame(plan, located(found@))
                &&& above == Ok::<Option<Registers>, DebugError>(
                    if ends_stack(plan.info@.name, previous_cfa, Some(cfa.unwrap())) {
                        None
                    } else {
                        Some(unwound(*regs, cfa.unwrap(), row.rules@, fetched@).unwrap().regs)
                    },
                )
            },
        }),
{
    let FramePlan { info, row, below, picked, .. } = plan;
    let mut info = info;
    let row = match row {
        Some(row) => row,
        None => {
            push_frame(stack, info, previous_cfa, None);
            assert(stack.0@.drop_last() =~= old(stack).0@);
            return Ok(None);
        },
    };
    let at = match cfa {
        Ok(at) => at,
        Err(e) => {
            push_failed_frame(stack);
            assert(stack.0@.drop_last() =~= old(stack).0@);
            return Err(e.surfaced());
        },
    };
    let caller = match unwind_registers(&row.rules, at, regs, fetched) {
        Ok(caller) => caller,
        Err(e) => {
            push_failed_frame(stack);
            assert(stack.0@.drop_last() =~= old(stack).0@);
            return Err(e.surfaced());
        },
    };
    if let Err(e) = frame_base {
        push_failed_frame(stack);
        assert(stack.0@.drop_last() =~= old(stack).0@);
        return Err(e.surfaced());
    }
    let locations = match gather_locations(found) {
        Ok(locations) => locations,
        Err(e) => {
            push_failed_frame(stack);
            assert(stack.0@.drop_last() =~= old(stack).0@);
            return Err(e.surfaced());
        },
    };
    extract_variables(&mut info, &below, &picked, &locations);
    let last = push_frame(stack, info, previous_cfa, Some(at));
    assert(stack.0@.drop_last() =~= old(stack).0@);
    if last {
        Ok(None)
    } else {
        Ok(Some(caller.regs))
    }
}

} // verus!
