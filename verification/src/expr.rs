//! Evaluation of location expressions, one request at a time.
//!
//! An evaluation of a DWARF expression stops whenever it needs something
//! from the tracee. This module answers each such request from what the
//! caller supplied, and classifies the result once the evaluation is done.

use vstd::prelude::*;
use crate::bytes::{be_value, endian_value, le_value};
use crate::error::DebugError;
use crate::registers::{match_register, register_value, Registers};

verus! {

/// What an evaluation needs before it can go on.
#[derive(PartialEq, Eq, Structural, Clone, Copy, Debug)]
pub enum EvaluationResult {
    Complete,
    RequiresMemory { address: u64, size: u8 },
    RequiresRegister(u16),
    RequiresFrameBase,
    RequiresCallFrameCfa,
    /// Any other request.
    Unsupported,
}

/// How to go on with an evaluation.
#[derive(PartialEq, Eq, Structural, Clone, Copy, Debug)]
pub enum EvalStep {
    /// The evaluation is done: take its result.
    Finished,
    /// Read `size` bytes at `address` and resume with their value.
    ReadMemory { address: u64, size: u8 },
    ResumeWithRegister(u64),
    ResumeWithFrameBase(u64),
    ResumeWithCfa(u64),
    Fail(DebugError),
}

/// The answer to a request, from the registers and from the frame address
/// and frame base where the caller has them.
pub open spec fn eval_answer(
    request: EvaluationResult,
    regs: Registers,
    cfa: Option<u64>,
    frame_base: Option<u64>,
) -> EvalStep {
    match request {
        EvaluationResult::Complete => EvalStep::Finished,
        EvaluationResult::RequiresMemory { address, size } => EvalStep::ReadMemory { address, size },
        EvaluationResult::RequiresRegister(r) => match register_value(regs, r) {
            Some(value) => EvalStep::ResumeWithRegister(value),
            None => EvalStep::Fail(DebugError::UnsupportedRegisterRule),
        },
        EvaluationResult::RequiresFrameBase => match frame_base {
            Some(value) => EvalStep::ResumeWithFrameBase(value),
            None => EvalStep::Fail(DebugError::NoFrameBase),
        },
        EvaluationResult::RequiresCallFrameCfa => match cfa {
            Some(value) => EvalStep::ResumeWithCfa(value),
            None => EvalStep::Fail(DebugError::NoCfa),
        },
        EvaluationResult::Unsupported => EvalStep::Fail(DebugError::DwarfCorruption),
    }
}

/// Answers one request of an evaluation.
pub fn eval_expression(
    request: EvaluationResult,
    regs: &Registers,
    cfa: Option<u64>,
    frame_base: Option<u64>,
) -> (step: EvalStep)
    ensures
        step == eval_answer(request, *regs, cfa, frame_base),
{
    match request {
        EvaluationResult::Complete => EvalStep::Finished,
        EvaluationResult::RequiresMemory { address, size } => EvalStep::ReadMemory { address, size },
        EvaluationResult::RequiresRegister(r) => match match_register(r, regs) {
            Some(value) => EvalStep::ResumeWithRegister(value),
            None => EvalStep::Fail(DebugError::UnsupportedRegisterRule),
        },
        EvaluationResult::RequiresFrameBase => match frame_base {
            Some(value) => EvalStep::ResumeWithFrameBase(value),
            None => EvalStep::Fail(DebugError::NoFrameBase),
        },
        EvaluationResult::RequiresCallFrameCfa => match cfa {
            Some(value) => EvalStep::ResumeWithCfa(value),
            None => EvalStep::Fail(DebugError::NoCfa),
        },
        EvaluationResult::Unsupported => EvalStep::Fail(DebugError::DwarfCorruption),
    }
}

/// `256^k`.
pub open spec fn byte_limit(k: nat) -> nat
    decreases k,
{
    if k == 0 {
        1
    } else {
        256 * byte_limit((k - 1) as nat)
    }
}

proof fn lemma_byte_limits()
    ensures
        byte_limit(0) == 1,
        byte_limit(1) == 0x100,
        byte_limit(2) == 0x1_0000,
        byte_limit(3) == 0x100_0000,
        byte_limit(4) == 0x1_0000_0000,
        byte_limit(5) == 0x100_0000_0000,
        byte_limit(6) == 0x1_0000_0000_0000,
        byte_limit(7) == 0x100_0000_0000_0000,
        byte_limit(8) == 0x1_0000_0000_0000_0000,
{
    reveal_with_fuel(byte_limit, 10);
}

/// The bytes read from memory as an unsigned number, in the byte order of
/// the executable. More than eight bytes do not make a number.
pub open spec fn memory_number(bytes: Seq<u8>, big: bool) -> Option<u64> {
    if bytes.len() <= 8 {
        Some(endian_value(bytes, 0, bytes.len(), big) as u64)
    } else {
        None
    }
}

/// Turns the bytes read for a `RequiresMemory` request into the number to
/// resume with.
pub fn memory_value(bytes: &[u8], big: bool) -> (value: Result<u64, DebugError>)
    ensures
        value is Ok <==> memory_number(bytes@, big) is Some,
        value matches Ok(v) ==> memory_number(bytes@, big) == Some(v),
        value matches Err(e) ==> e == DebugError::MemoryReadError,
{
    let n = bytes.len();
    if n > 8 {
        return Err(DebugError::MemoryReadError);
    }
    proof {
        lemma_byte_limits();
    }
    let mut acc: u64 = 0;
    if big {
        let mut i: usize = 0;
        while i < n
            invariant
                i <= n <= 8,
                n == bytes@.len(),
                acc == be_value(bytes@, 0, i as nat),
                acc < byte_limit(i as nat),
                byte_limit(8) == 0x1_0000_0000_0000_0000,
            decreases n - i,
        {
            proof {
                lemma_byte_limit_step(i as nat);
            }
            acc = acc * 256 + bytes[i] as u64;
            i += 1;
        }
    } else {
        let mut i: usize = n;
        while i > 0
            invariant
                i <= n <= 8,
                n == bytes@.len(),
                acc == le_value(bytes@, i as int, (n - i) as nat),
                acc < byte_limit((n - i) as nat),
                byte_limit(8) == 0x1_0000_0000_0000_0000,
            decreases i,
        {
            proof {
                lemma_byte_limit_step((n - i) as nat);
            }
            i -= 1;
            acc = acc * 256 + bytes[i] as u64;
        }
    }
    Ok(acc)
}

proof fn lemma_byte_limit_step(k: nat)
    requires
        k < 8,
    ensures
        byte_limit(k + 1) == 256 * byte_limit(k),
        byte_limit(k + 1) <= byte_limit(8),
{
    lemma_byte_limits();
    reveal_with_fuel(byte_limit, 2);
}

/// The eight bytes of a word of tracee memory as a number.
pub fn slice_to_u64(slice: &[u8], big: bool) -> (value: u64)
    requires
        slice@.len() == 8,
    ensures
        value == endian_value(slice@, 0, 8, big),
{
    crate::bytes::read_u64(slice, 0, big)
}

/// Where the first piece of an evaluation's result says the object is.
#[derive(PartialEq, Eq, Structural, Clone, Copy, Debug)]
pub enum PieceLocation {
    Empty,
    Register(u16),
    Address(u64),
    Value(u64),
    Bytes,
    ImplicitPointer,
}

/// Where a variable lives.
#[derive(PartialEq, Eq, Structural, Clone, Copy, Debug)]
pub enum Location {
    Register(u16),
    Address(u64),
}

/// The first piece of a result, or `Empty` where there is none.
pub open spec fn first_piece(pieces: Seq<PieceLocation>) -> PieceLocation {
    if pieces.len() > 0 {
        pieces[0]
    } else {
        PieceLocation::Empty
    }
}

/// The result of an expression that must give a plain value.
pub open spec fn value_of(pieces: Seq<PieceLocation>) -> Result<u64, DebugError> {
    match first_piece(pieces) {
        PieceLocation::Value(v) => Ok(v),
        _ => Err(DebugError::DwarfCorruption),
    }
}

/// The result of a frame-base expression: a value, or the content of a
/// register.
pub open spec fn frame_base_of(pieces: Seq<PieceLocation>, regs: Registers) -> Result<
    u64,
    DebugError,
> {
    match first_piece(pieces) {
        PieceLocation::Value(v) => Ok(v),
        PieceLocation::Register(r) => match register_value(regs, r) {
            Some(v) => Ok(v),
            None => Err(DebugError::UnsupportedRegisterRule),
        },
        _ => Err(DebugError::DwarfCorruption),
    }
}

/// The result of a location expression: a register, or an address (a value
/// counts as one).
pub open spec fn location_of(pieces: Seq<PieceLocation>) -> Result<Location, DebugError> {
    match first_piece(pieces) {
        PieceLocation::Register(r) => Ok(Location::Register(r)),
        PieceLocation::Value(v) => Ok(Location::Address(v)),
        PieceLocation::Address(a) => Ok(Location::Address(a)),
        _ => Err(DebugError::DwarfCorruption),
    }
}

fn head(pieces: &Vec<PieceLocation>) -> (piece: PieceLocation)
    ensures
        piece == first_piece(pieces@),
{
    if pieces.len() > 0 {
        pieces[0]
    } else {
        PieceLocation::Empty
    }
}

/// Reads the result of an expression that must give a plain value, as the
/// frame address and the register rules ask.
pub fn piece_value(pieces: &Vec<PieceLocation>) -> (value: Result<u64, DebugError>)
    ensures
        value == value_of(pieces@),
{
    match head(pieces) {
        PieceLocation::Value(v) => Ok(v),
        _ => Err(DebugError::DwarfCorruption),
    }
}

/// Reads the result of a frame-base expression.
pub fn frame_base_value(pieces: &Vec<PieceLocation>, regs: &Registers) -> (value: Result<
    u64,
    DebugError,
>)
    ensures
        value == frame_base_of(pieces@, *regs),
{
    match head(pieces) {
        PieceLocation::Value(v) => Ok(v),
        PieceLocation::Register(r) => match match_register(r, regs) {
            Some(v) => Ok(v),
            None => Err(DebugError::UnsupportedRegisterRule),
        },
        _ => Err(DebugError::DwarfCorruption),
    }
}

/// Reads the result of a location expression.
pub fn classify_location(pieces: &Vec<PieceLocation>) -> (location: Result<Location, DebugError>)
    ensures
        location == location_of(pieces@),
{
    match head(pieces) {
        PieceLocation::Register(r) => Ok(Location::Register(r)),
        PieceLocation::Value(v) => Ok(Location::Address(v)),
        PieceLocation::Address(a) => Ok(Location::Address(a)),
        _ => Err(DebugError::DwarfCorruption),
    }
}

} // verus!
