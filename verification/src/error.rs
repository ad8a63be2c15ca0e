//! The kinds of failure the engine reports.

use vstd::prelude::*;

verus! {

/// What went wrong in an operation of the engine.
#[derive(PartialEq, Eq, Structural, Clone, Copy, Debug)]
pub enum DebugError {
    /// The header is truncated, lacks the ELF magic, or holds an unknown
    /// class, byte order, ABI or object kind.
    MalformedBinary,
    /// An ELF file for another machine than x86-64, or an x86-64 object
    /// that is not a 64-bit one.
    UnsupportedTarget,
    /// The tracee could not be started.
    FatalLaunchError,
    /// The file is missing, is a directory, or lacks execute permission.
    FileNotExecutable,
    /// Debug information that cannot be decoded or contradicts itself.
    DwarfCorruption,
    /// The operation needs a stopped tracee and there is none.
    NoTracee,
    /// The tracee exited or was killed by a signal.
    TraceeDied,
    /// A removal of a breakpoint that is not installed, or an installation
    /// over a trap byte that the table did not put there.
    BreakpointStateInconsistent,
    /// Stepping over a breakpoint where none of ours is installed.
    NotAtBreakpoint,
    /// Reading the tracee's memory failed.
    MemoryReadError,
    /// A type entry with a tag the type decoder does not know.
    UnsupportedType,
    /// A register rule the unwinder does not implement.
    UnsupportedRegisterRule,
    /// An expression asked for the frame base and none was supplied.
    NoFrameBase,
    /// An expression asked for the canonical frame address and none was
    /// supplied.
    NoCfa,
}

impl DebugError {
    /// The error as the shell gets to see it: a context value that an
    /// expression asked for and did not get is a fault in the debug
    /// information of the frame at hand; every other error is shown as it
    /// is.
    pub open spec fn shown(self) -> DebugError {
        match self {
            DebugError::NoFrameBase => DebugError::DwarfCorruption,
            DebugError::NoCfa => DebugError::DwarfCorruption,
            other => other,
        }
    }

    /// The error as the shell gets to see it.
    pub fn surfaced(self) -> (shown: DebugError)
        ensures
            shown == self.shown(),
    {
        match self {
            DebugError::NoFrameBase => DebugError::DwarfCorruption,
            DebugError::NoCfa => DebugError::DwarfCorruption,
            other => other,
        }
    }
}

} // verus!
