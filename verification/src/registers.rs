//! The general purpose registers of x86-64 and their numbers in call-frame
//! information and location expressions.

use vstd::prelude::*;

verus! {

/// Number of `rax`.
pub const RAX: u16 = 0;

/// Number of `rdx`.
pub const RDX: u16 = 1;

/// Number of `rcx`.
pub const RCX: u16 = 2;

/// Number of `rbx`.
pub const RBX: u16 = 3;

/// Number of `rsi`.
pub const RSI: u16 = 4;

/// Number of `rdi`.
pub const RDI: u16 = 5;

/// Number of `rbp`.
pub const RBP: u16 = 6;

/// Number of `rsp`.
pub const RSP: u16 = 7;

/// Number of `r8`.
pub const R8: u16 = 8;

/// Number of `r9`.
pub const R9: u16 = 9;

/// Number of `r10`.
pub const R10: u16 = 10;

/// Number of `r11`.
pub const R11: u16 = 11;

/// Number of `r12`.
pub const R12: u16 = 12;

/// Number of `r13`.
pub const R13: u16 = 13;

/// Number of `r14`.
pub const R14: u16 = 14;

/// Number of `r15`.
pub const R15: u16 = 15;

/// The return address column, kept in `rip`.
pub const RA: u16 = 16;

/// The registers the unwinder keeps.
#[derive(PartialEq, Eq, Structural, Clone, Copy, Debug)]
pub struct Registers {
    pub rax: u64,
    pub rbx: u64,
    pub rcx: u64,
    pub rdx: u64,
    pub rsi: u64,
    pub rdi: u64,
    pub rbp: u64,
    pub rsp: u64,
    pub r8: u64,
    pub r9: u64,
    pub r10: u64,
    pub r11: u64,
    pub r12: u64,
    pub r13: u64,
    pub r14: u64,
    pub r15: u64,
    pub rip: u64,
}

/// One register together with the value to give it.
#[derive(PartialEq, Eq, Structural, Clone, Copy, Debug)]
pub enum Register {
    RAx(u64),
    RBx(u64),
    RCx(u64),
    RDx(u64),
    RSi(u64),
    RDi(u64),
    RBp(u64),
    RSp(u64),
    R8(u64),
    R9(u64),
    R10(u64),
    R11(u64),
    R12(u64),
    R13(u64),
    R14(u64),
    R15(u64),
    RIp(u64),
}

/// Whether the number names a register that is kept.
pub open spec fn is_general(register: u16) -> bool {
    register <= RA
}

/// The value of the register with the given number; `None` for a register
/// that is not kept.
pub open spec fn register_value(regs: Registers, register: u16) -> Option<u64> {
    if register == RAX {
        Some(regs.rax)
    } else if register == RDX {
        Some(regs.rdx)
    } else if register == RCX {
        Some(regs.rcx)
    } else if register == RBX {
        Some(regs.rbx)
    } else if register == RSI {
        Some(regs.rsi)
    } else if register == RDI {
        Some(regs.rdi)
    } else if register == RBP {
        Some(regs.rbp)
    } else if register == RSP {
        Some(regs.rsp)
    } else if register == R8 {
        Some(regs.r8)
    } else if register == R9 {
        Some(regs.r9)
    } else if register == R10 {
        Some(regs.r10)
    } else if register == R11 {
        Some(regs.r11)
    } else if register == R12 {
        Some(regs.r12)
    } else if register == R13 {
        Some(regs.r13)
    } else if register == R14 {
        Some(regs.r14)
    } else if register == R15 {
        Some(regs.r15)
    } else if register == RA {
        Some(regs.rip)
    } else {
        None
    }
}

/// The registers with the one of the given number set to `value`; unchanged
/// for a register that is not kept.
pub open spec fn with_register(regs: Registers, register: u16, value: u64) -> Registers {
    if register == RAX {
        Registers { rax: value, ..regs }
    } else if register == RDX {
        Registers { rdx: value, ..regs }
    } else if register == RCX {
        Registers { rcx: value, ..regs }
    } else if register == RBX {
        Registers { rbx: value, ..regs }
    } else if register == RSI {
        Registers { rsi: value, ..regs }
    } else if register == RDI {
        Registers { rdi: value, ..regs }
    } else if register == RBP {
        Registers { rbp: value, ..regs }
    } else if register == RSP {
        Registers { rsp: value, ..regs }
    } else if register == R8 {
        Registers { r8: value, ..regs }
    } else if register == R9 {
        Registers { r9: value, ..regs }
    } else if register == R10 {
        Registers { r10: value, ..regs }
    } else if register == R11 {
        Registers { r11: value, ..regs }
    } else if register == R12 {
        Registers { r12: value, ..regs }
    } else if register == R13 {
        Registers { r13: value, ..regs }
    } else if register == R14 {
        Registers { r14: value, ..regs }
    } else if register == R15 {
        Registers { r15: value, ..regs }
    } else if register == RA {
        Registers { rip: value, ..regs }
    } else {
        regs
    }
}

/// The registers after one of them was given a value.
pub open spec fn with_value(regs: Registers, register: Register) -> Registers {
    match register {
        Register::RAx(value) => Registers { rax: value, ..regs },
        Register::RBx(value) => Registers { rbx: value, ..regs },
        Register::RCx(value) => Registers { rcx: value, ..regs },
        Register::RDx(value) => Registers { rdx: value, ..regs },
        Register::RSi(value) => Registers { rsi: value, ..regs },
        Register::RDi(value) => Registers { rdi: value, ..regs },
        Register::RBp(value) => Registers { rbp: value, ..regs },
        Register::RSp(value) => Registers { rsp: value, ..regs },
        Register::R8(value) => Registers { r8: value, ..regs },
        Register::R9(value) => Registers { r9: value, ..regs },
        Register::R10(value) => Registers { r10: value, ..regs },
        Register::R11(value) => Registers { r11: value, ..regs },
        Register::R12(value) => Registers { r12: value, ..regs },
        Register::R13(value) => Registers { r13: value, ..regs },
        Register::R14(value) => Registers { r14: value, ..regs },
        Register::R15(value) => Registers { r15: value, ..regs },
        Register::RIp(value) => Registers { rip: value, ..regs },
    }
}

/// A register that was set holds the value, and every other register holds
/// what it held.
pub proof fn lemma_with_register(regs: Registers, register: u16, value: u64, other: u16)
    ensures
        is_general(register) ==> register_value(with_register(regs, register, value), register)
            == Some(value),
        other != register ==> register_value(with_register(regs, register, value), other)
            == register_value(regs, other),
        register_value(regs, other) is Some <==> is_general(other),
{
}

impl Registers {
    /// All registers zero.
    pub fn zero() -> (regs: Self)
        ensures
            regs == (Registers {
                rax: 0,
                rbx: 0,
                rcx: 0,
                rdx: 0,
                rsi: 0,
                rdi: 0,
                rbp: 0,
                rsp: 0,
                r8: 0,
                r9: 0,
                r10: 0,
                r11: 0,
                r12: 0,
                r13: 0,
                r14: 0,
                r15: 0,
                rip: 0,
            }),
    {
        Registers {
            rax: 0,
            rbx: 0,
            rcx: 0,
            rdx: 0,
            rsi: 0,
            rdi: 0,
            rbp: 0,
            rsp: 0,
            r8: 0,
            r9: 0,
            r10: 0,
            r11: 0,
            r12: 0,
            r13: 0,
            r14: 0,
            r15: 0,
            rip: 0,
        }
    }
}

/// The value of the register with the given number.
pub fn match_register(register: u16, regs: &Registers) -> (value: Option<u64>)
    ensures
        value == register_value(*regs, register),
{
    match register {
        0 => Some(regs.rax),
        1 => Some(regs.rdx),
        2 => Some(regs.rcx),
        3 => Some(regs.rbx),
        4 => Some(regs.rsi),
        5 => Some(regs.rdi),
        6 => Some(regs.rbp),
        7 => Some(regs.rsp),
        8 => Some(regs.r8),
        9 => Some(regs.r9),
        10 => Some(regs.r10),
        11 => Some(regs.r11),
        12 => Some(regs.r12),
        13 => Some(regs.r13),
        14 => Some(regs.r14),
        15 => Some(regs.r15),
        16 => Some(regs.rip),
        _ => None,
    }
}

/// Gives the register with the given number a value. Returns whether the
/// register is kept; one that is not changes nothing.
pub fn store_register(register: u16, regs: &mut Registers, value: u64) -> (stored: bool)
    ensures
        stored == is_general(register),
        *final(regs) == with_register(*old(regs), register, value),
{
    match register {
        0 => {
            regs.rax = value;
        },
        1 => {
            regs.rdx = value;
        },
        2 => {
            regs.rcx = value;
        },
        3 => {
            regs.rbx = value;
        },
        4 => {
            regs.rsi = value;
        },
        5 => {
            regs.rdi = value;
        },
        6 => {
            regs.rbp = value;
        },
        7 => {
            regs.rsp = value;
        },
        8 => {
            regs.r8 = value;
        },
        9 => {
            regs.r9 = value;
        },
        10 => {
            regs.r10 = value;
        },
        11 => {
            regs.r11 = value;
        },
        12 => {
            regs.r12 = value;
        },
        13 => {
            regs.r13 = value;
        },
        14 => {
            regs.r14 = value;
        },
        15 => {
            regs.r15 = value;
        },
        16 => {
            regs.rip = value;
        },
        _ => {
            return false;
        },
    }
    true
}

/// Gives one register a value and leaves the others as they are.
pub fn set_register_value(regs: &mut Registers, register: Register)
    ensures
        *final(regs) == with_value(*old(regs), register),
{
    match register {
        Register::RAx(value) => {
            regs.rax = value;
        },
        Register::RBx(value) => {
            regs.rbx = value;
        },
        Register::RCx(value) => {
            regs.rcx = value;
        },
        Register::RDx(value) => {
            regs.rdx = value;
        },
        Register::RSi(value) => {
            regs.rsi = value;
        },
        Register::RDi(value) => {
            regs.rdi = value;
        },
        Register::RBp(value) => {
            regs.rbp = value;
        },
        Register::RSp(value) => {
            regs.rsp = value;
        },
        Register::R8(value) => {
            regs.r8 = value;
        },
        Register::R9(value) => {
            regs.r9 = value;
        },
        Register::R10(value) => {
            regs.r10 = value;
        },
        Register::R11(value) => {
            regs.r11 = value;
        },
        Register::R12(value) => {
            regs.r12 = value;
        },
        Register::R13(value) => {
            regs.r13 = value;
        },
        Register::R14(value) => {
            regs.r14 = value;
        },
        Register::R15(value) => {
            regs.r15 = value;
        },
        Register::RIp(value) => {
            regs.rip = value;
        },
    }
}

} // verus!
