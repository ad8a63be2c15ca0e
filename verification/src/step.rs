//! The step controller: stepping over a breakpoint, stepping to the next
//! source line, and resuming.
//!
//! The controller decides; the caller acts on the tracee. Each function
//! takes what the caller read from the tracee and returns what the caller is
//! to do next.

use vstd::prelude::*;
use crate::address::{normal, to_link};
use crate::breakpoint::{
    install_byte, install_table, installed, low_byte, remove_byte, remove_table, with_low_byte,
    Breakpoint, BreakpointTable, TRAP,
};
use crate::error::DebugError;
use crate::lines::LineAddresses;
use crate::source::{SourceIndex, SourceIndexView};

verus! {

/// The address of the trap that the tracee has just run into: the byte
/// before the instruction pointer.
pub open spec fn trap_before(rip: u64) -> u64 {
    if rip == 0 {
        u64::MAX
    } else {
        (rip - 1) as u64
    }
}

/// The address of the trap that the tracee has just run into.
pub fn trap_address(rip: u64) -> (address: u64)
    ensures
        address == trap_before(rip),
{
    rip.wrapping_sub(1)
}

/// A breakpoint that was lifted to let the instruction under it run.
#[derive(PartialEq, Eq, Structural, Clone, Copy, Debug)]
pub struct LiftedBreakpoint {
    pub address: u64,
    /// The word to write at `address` before the single step.
    pub write: u64,
}

/// Starts stepping over the breakpoint at `address`, given the word the
/// caller read there.
///
/// Where a breakpoint of ours is installed at the address it is removed from
/// the table; the caller writes the returned word, sets the instruction
/// pointer to the address, single-steps and waits. Where none is installed
/// the table stays as it is and `NotAtBreakpoint` is reported.
pub fn step_over_breakpoint(table: &mut BreakpointTable, address: u64, word: u64) -> (lifted: Result<
    LiftedBreakpoint,
    DebugError,
>)
    requires
        old(table).wf(),
    ensures
        final(table).wf(),
        final(table)@ == remove_table(old(table)@, address),
        lifted == (if installed(old(table)@, address) {
            Ok::<LiftedBreakpoint, DebugError>(
                LiftedBreakpoint {
                    address,
                    write: with_low_byte(word, old(table)@[address].saved),
                },
            )
        } else {
            Err::<LiftedBreakpoint, DebugError>(DebugError::NotAtBreakpoint)
        }),
{
    match table.remove(address, word) {
        Ok(write) => Ok(LiftedBreakpoint { address, write }),
        Err(_) => Err(DebugError::NotAtBreakpoint),
    }
}

/// Ends stepping over a breakpoint: puts it back, given the word the caller
/// read at its address after the single step. Returns the word to write.
pub fn rearm_breakpoint(table: &mut BreakpointTable, lifted: LiftedBreakpoint, word: u64) -> (write:
    Result<Option<u64>, DebugError>)
    requires
        old(table).wf(),
    ensures
        final(table).wf(),
        final(table)@ == install_table(old(table)@, lifted.address, low_byte(word)),
        write == (if installed(old(table)@, lifted.address) {
            Ok::<Option<u64>, DebugError>(None)
        } else if low_byte(word) == TRAP {
            Err::<Option<u64>, DebugError>(DebugError::BreakpointStateInconsistent)
        } else {
            Ok::<Option<u64>, DebugError>(Some(with_low_byte(word, TRAP)))
        }),
{
    table.install(lifted.address, word)
}

/// Stepping over a breakpoint leaves it as it was: where the breakpoint at
/// `a` is installed over a byte that is no trap, lifting it puts that byte
/// back, and rearming it from that byte gives the table and the trap byte
/// that were there before.
pub proof fn lemma_step_over_keeps_breakpoint(t: Map<u64, Breakpoint>, a: u64)
    requires
        installed(t, a),
        t[a].saved != TRAP,
    ensures
        ({
            let lifted = remove_table(t, a);
            let byte = remove_byte(t, a, TRAP);
            &&& byte == t[a].saved
            &&& !installed(lifted, a)
            &&& install_table(lifted, a, byte) == t
            &&& install_byte(lifted, a, byte) == TRAP
            &&& installed(install_table(lifted, a, byte), a)
        }),
{
    let lifted = remove_table(t, a);
    let byte = remove_byte(t, a, TRAP);
    assert(install_table(lifted, a, byte) =~= t);
}

/// The number of the trap signal.
pub const SIGTRAP: i32 = 5;

/// What waiting for the tracee brought.
#[derive(PartialEq, Eq, Structural, Clone, Copy, Debug)]
pub enum WaitReport {
    /// The tracee exited with the given code.
    Exited(i32),
    /// The tracee was killed by the given signal.
    Signaled(i32),
    /// The tracee stopped on the given signal.
    Stopped(i32),
    /// Anything else.
    Other,
}

/// Why the tracee stopped.
#[derive(PartialEq, Eq, Structural, Clone, Copy, Debug)]
pub enum Stop {
    /// On one of our breakpoints. The instruction pointer is to be set back
    /// to `rewind_to`, the runtime address of the breakpoint.
    Breakpoint { address: u64, rewind_to: u64 },
    /// On a signal, at the given instruction pointer.
    Signal { signal: i32, rip: u64 },
}

/// What a stop of the tracee is, from what waiting brought and from the
/// instruction pointer `rip` it stopped at.
///
/// A tracee that did not stop is gone. A stop on the trap signal just
/// behind an installed breakpoint is a stop on that breakpoint; the table
/// is asked with the link-time address. Any other stop is a signal.
pub open spec fn stop_of(
    table: Map<u64, Breakpoint>,
    shift: Option<u64>,
    report: WaitReport,
    rip: u64,
) -> Result<Stop, DebugError> {
    match report {
        WaitReport::Stopped(signal) => if signal == SIGTRAP && installed(
            table,
            to_link(trap_before(rip), shift),
        ) {
            Ok(
                Stop::Breakpoint {
                    address: to_link(trap_before(rip), shift),
                    rewind_to: trap_before(rip),
                },
            )
        } else {
            Ok(Stop::Signal { signal, rip })
        },
        _ => Err(DebugError::TraceeDied),
    }
}

/// Says what a stop of the tracee is.
pub fn classify_stop(table: &BreakpointTable, shift: Option<u64>, report: WaitReport, rip: u64) -> (stop:
    Result<Stop, DebugError>)
    ensures
        stop == stop_of(table@, shift, report, rip),
{
    match report {
        WaitReport::Stopped(signal) => {
            let trap = trap_address(rip);
            let address = normal(trap, shift);
            if signal == SIGTRAP && table.is_installed(address) {
                Ok(Stop::Breakpoint { address, rewind_to: trap })
            } else {
                Ok(Stop::Signal { signal, rip })
            }
        },
        _ => Err(DebugError::TraceeDied),
    }
}

/// Whether a launch went well, from the pid that the fork gave, if it gave
/// one, and from what the first wait brought: the tracee has to exist and to
/// have stopped.
pub fn first_stop(pid: Option<i32>, report: WaitReport) -> (launched: Result<i32, DebugError>)
    ensures
        launched == (match (pid, report) {
            (Some(pid), WaitReport::Stopped(_)) => Ok::<i32, DebugError>(pid),
            _ => Err::<i32, DebugError>(DebugError::FatalLaunchError),
        }),
{
    match (pid, report) {
        (Some(pid), WaitReport::Stopped(_)) => Ok(pid),
        _ => Err(DebugError::FatalLaunchError),
    }
}

/// What to do first when the tracee is to run on.
#[derive(PartialEq, Eq, Structural, Clone, Copy, Debug)]
pub enum ResumePlan {
    /// The instruction pointer sits on one of our breakpoints: step over it,
    /// then enable all breakpoints, then continue.
    StepOverFirst { address: u64 },
    /// Enable all breakpoints, then continue.
    Direct,
}

/// Plans a resume from the instruction pointer `rip`.
pub fn plan_resume(table: &BreakpointTable, rip: u64) -> (plan: ResumePlan)
    ensures
        plan == (if installed(table@, rip) {
            ResumePlan::StepOverFirst { address: rip }
        } else {
            ResumePlan::Direct
        }),
{
    if table.is_installed(rip) {
        ResumePlan::StepOverFirst { address: rip }
    } else {
        ResumePlan::Direct
    }
}

/// A source step ends at `rip`: the address has a source position, and it
/// is not the one the step started from.
pub open spec fn step_ends(
    lines: Map<u64, SourceIndexView>,
    shift: Option<u64>,
    start: Option<SourceIndexView>,
    rip: u64,
) -> bool {
    lines.contains_key(to_link(rip, shift)) && Some(lines[to_link(rip, shift)]) != start
}

/// The source position that `start` refers to, as a value.
pub open spec fn start_view(start: Option<&SourceIndex>) -> Option<SourceIndexView> {
    match start {
        Some(s) => Some(s@),
        None => None,
    }
}

/// Decides, after a single step, whether a source step has arrived.
///
/// Returns the instruction pointer and its source position where the step
/// ends at `rip`; `None` where the caller has to single-step once more.
pub fn source_step(lines: &LineAddresses, shift: Option<u64>, start: Option<&SourceIndex>, rip: u64) -> (arrived:
    Option<(u64, SourceIndex)>)
    ensures
        arrived is Some <==> step_ends(lines@, shift, start_view(start), rip),
        arrived matches Some((at, position)) ==> at == rip && position@ == lines@[to_link(
            rip,
            shift,
        )],
{
    let position = match lines.get_line(normal(rip, shift)) {
        Some(p) => p,
        None => {
            return None;
        },
    };
    let moved = match start {
        Some(s) => !position.same(s),
        None => true,
    };
    if moved {
        Some((rip, position.clone()))
    } else {
        None
    }
}

} // verus!
