//! The debugging context: everything the engine knows of the executable
//! that is loaded and of the tracee that runs it.
//!
//! The indices belong to the executable and are replaced when another one
//! is loaded. The registers and the load shift belong to the tracee and go
//! when it goes. The breakpoints are kept across tracees, by link-time
//! address.

use vstd::prelude::*;
use crate::breakpoint::{forgotten, pending_table, Breakpoint, BreakpointTable};
use crate::entries::{image_dies, parse_image_functions};
use crate::error::DebugError;
use crate::functions::{empty_scan, scan_units, starts_known, FunctionIndex};
use crate::lines::{empty_index, has_address, index_units, LineAddresses, LineIndex};
use crate::loader::{load_dwarf, loaded_from, LoadedImage};
use crate::elf::load_verdict;
use crate::reader::{image_lines, load_image_source};
use crate::registers::Registers;
use crate::source::{SourceIndex, SourceMap};

verus! {

/// The indices of a loaded executable.
pub struct Indices {
    pub image: LoadedImage,
    pub source_files: SourceMap,
    pub line_addresses: LineAddresses,
    pub function_index: FunctionIndex,
}

/// The debugging context.
pub struct Internal {
    /// The path of the executable.
    pub file: Option<Vec<u8>>,
    /// What was built from the executable; `None` while none is loaded.
    pub indices: Option<Indices>,
    pub breakpoints: BreakpointTable,
    /// The registers at the last stop; `None` while no tracee is stopped.
    pub registers: Option<Registers>,
    /// The load shift of the running tracee.
    pub dynamic_exec_shift: Option<u64>,
    /// Whether a tracee exists.
    pub tracing: bool,
}

impl Internal {
    /// The parts that have an order of their own are in order.
    pub open spec fn wf(&self) -> bool {
        &&& self.breakpoints.wf()
        &&& self.indices matches Some(i) ==> i.source_files.wf() && i.line_addresses.wf()
    }

    /// The context before anything is loaded.
    pub fn new() -> (context: Self)
        ensures
            context.wf(),
            context.file is None,
            context.indices is None,
            context.breakpoints@ == Map::<u64, Breakpoint>::empty(),
            context.registers is None,
            context.dynamic_exec_shift is None,
            !context.tracing,
    {
        Internal {
            file: None,
            indices: None,
            breakpoints: BreakpointTable::new(),
            registers: None,
            dynamic_exec_shift: None,
            tracing: false,
        }
    }

    /// Loads the executable at `file` from its bytes and builds the indices.
    ///
    /// A file that is turned down leaves the context as it is. One that is
    /// accepted replaces the executable and its indices; the breakpoints
    /// stay.
    pub fn init_on_load(&mut self, file: Vec<u8>, binary: &[u8]) -> (loaded: Result<(), DebugError>)
        requires
            old(self).wf(),
        ensures
            final(self).wf(),
            loaded is Ok <==> load_verdict(binary@) is None,
            loaded matches Err(e) ==> *final(self) == *old(self) && load_verdict(binary@) == Some(
                e,
            ),
            loaded is Ok ==> {
                &&& final(self).file == Some(file)
                &&& final(self).breakpoints == old(self).breakpoints
                &&& final(self).registers == old(self).registers
                &&& final(self).dynamic_exec_shift == old(self).dynamic_exec_shift
                &&& final(self).tracing == old(self).tracing
                &&& final(self).indices matches Some(i) && {
                    &&& loaded_from(i.image, binary@)
                    &&& starts_known(i.function_index@)
                    &&& (LineIndex {
                        sources: i.source_files@,
                        lines: i.line_addresses@,
                    }) == index_units(empty_index(), image_lines(i.image.dwarf@))
                    &&& i.function_index@ == scan_units(
                        empty_scan(),
                        image_dies(i.image.dwarf@),
                    ).index
                }
            },
    {
        let image = match load_dwarf(binary) {
            Ok(image) => image,
            Err(e) => {
                return Err(e);
            },
        };
        let (source_files, line_addresses) = load_image_source(&image.dwarf);
        let function_index = parse_image_functions(&image.dwarf);
        self.file = Some(file);
        self.indices = Some(Indices { image, source_files, line_addresses, function_index });
        Ok(())
    }

    /// Notes that a tracee was launched and stopped for the first time, and
    /// the load shift that was found for it.
    pub fn attach(&mut self, shift: Option<u64>)
        ensures
            final(self).tracing,
            final(self).dynamic_exec_shift == shift,
            final(self).registers is None,
            final(self).file == old(self).file,
            final(self).indices == old(self).indices,
            final(self).breakpoints == old(self).breakpoints,
    {
        self.tracing = true;
        self.dynamic_exec_shift = shift;
        self.registers = None;
    }

    /// Notes that the tracee is gone: the registers and the load shift go
    /// with it, and every breakpoint is pending again.
    pub fn teardown_on_kill(&mut self)
        requires
            old(self).wf(),
        ensures
            final(self).wf(),
            !final(self).tracing,
            final(self).registers is None,
            final(self).dynamic_exec_shift is None,
            final(self).breakpoints@ == forgotten(old(self).breakpoints@),
            final(self).file == old(self).file,
            final(self).indices == old(self).indices,
    {
        self.tracing = false;
        self.registers = None;
        self.dynamic_exec_shift = None;
        self.breakpoints.forget_installations();
    }

    /// Whether an operation on the tracee can go ahead: `NoTracee` where
    /// there is none.
    pub fn require_tracee(&self) -> (ready: Result<(), DebugError>)
        ensures
            ready == (if self.tracing {
                Ok::<(), DebugError>(())
            } else {
                Err::<(), DebugError>(DebugError::NoTracee)
            }),
    {
        if self.tracing {
            Ok(())
        } else {
            Err(DebugError::NoTracee)
        }
    }

    /// Records a breakpoint at a link-time address.
    pub fn add_pending_breakpoint(&mut self, address: u64)
        requires
            old(self).wf(),
        ensures
            final(self).wf(),
            final(self).breakpoints@ == pending_table(old(self).breakpoints@, address),
            final(self).file == old(self).file,
            final(self).indices == old(self).indices,
            final(self).registers == old(self).registers,
            final(self).dynamic_exec_shift == old(self).dynamic_exec_shift,
            final(self).tracing == old(self).tracing,
    {
        self.breakpoints.add_pending(address);
    }

    /// Records a breakpoint at an address of the source position `line`.
    /// Returns the address, or `None` where no executable is loaded or no
    /// address has that position; then nothing is recorded.
    pub fn add_breakpoint_at_source_line(&mut self, line: &SourceIndex) -> (address: Option<u64>)
        requires
            old(self).wf(),
        ensures
            final(self).wf(),
            final(self).file == old(self).file,
            final(self).indices == old(self).indices,
            final(self).registers == old(self).registers,
            final(self).dynamic_exec_shift == old(self).dynamic_exec_shift,
            final(self).tracing == old(self).tracing,
            address is Some <==> (old(self).indices matches Some(i) && has_address(
                i.line_addresses@,
                line@,
            )),
            address matches Some(a) ==> {
                &&& old(self).indices.unwrap().line_addresses@.contains_key(a)
                &&& old(self).indices.unwrap().line_addresses@[a] == line@
                &&& final(self).breakpoints@ == pending_table(old(self).breakpoints@, a)
            },
            address is None ==> final(self).breakpoints == old(self).breakpoints,
    {
        let found = match &self.indices {
            Some(i) => i.line_addresses.get_address(line),
            None => None,
        };
        if let Some(a) = found {
            self.breakpoints.add_pending(a);
        }
        found
    }
}

} // verus!
