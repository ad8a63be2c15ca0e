//! Tracing and introspection engine of a source-level debugger for ELF/DWARF
//! executables on x86-64 Linux.
//!
//! The engine is organised as pure, verified decision logic. Everything that
//! touches the traced process (ptrace, `/proc/<pid>/mem`) is left to the
//! caller: the engine states which word to read or write and the caller
//! hands the result back.
//!
//! - Loading: [`elf`], [`loader`], [`maps`], [`address`].
//! - Indices over the debug information: [`source`], [`lines`],
//!   [`functions`], filled from the sections by [`reader`] and [`entries`]
//!   through the readers of [`dwarf`].
//! - The tracee: [`breakpoint`], [`step`], [`registers`].
//! - The call stack: [`cfi`], [`unwind`], [`expr`], [`frame`], [`types`],
//!   [`callstack`].
//! - Around it: [`context`], [`shell`], [`assembly`], [`error`].

pub mod address;
pub mod assembly;
pub mod breakpoint;
pub mod bytes;
pub mod callstack;
pub mod cfi;
pub mod context;
pub mod dwarf;
pub mod elf;
pub mod entries;
pub mod error;
pub mod expr;
pub mod frame;
pub mod functions;
pub mod lines;
pub mod loader;
pub mod maps;
pub mod path;
pub mod reader;
pub mod registers;
pub mod seqs;
pub mod shell;
pub mod source;
pub mod step;
pub mod types;
pub mod unwind;
