//! Link-time and runtime addresses.
//!
//! Debug information speaks of addresses as the linker laid them out. A
//! position-independent executable is loaded at a base the kernel picks, so
//! the addresses seen in the traced process exceed the link-time ones by a
//! load shift. Every lookup into the debug indices takes link-time addresses.

use vstd::prelude::*;

verus! {

/// `address` moved down by `shift`, modulo 2^64.
pub open spec fn shifted_down(address: u64, shift: u64) -> u64 {
    if address >= shift {
        (address - shift) as u64
    } else {
        (address + 0x1_0000_0000_0000_0000 - shift) as u64
    }
}

/// `address` moved up by `shift`, modulo 2^64.
pub open spec fn shifted_up(address: u64, shift: u64) -> u64 {
    if address + shift <= u64::MAX {
        (address + shift) as u64
    } else {
        (address + shift - 0x1_0000_0000_0000_0000) as u64
    }
}

/// The link-time address that the runtime address `rip` stands for.
pub open spec fn to_link(rip: u64, shift: Option<u64>) -> u64 {
    match shift {
        Some(offset) => shifted_down(rip, offset),
        None => rip,
    }
}

/// The runtime address at which the link-time address `address` is found.
pub open spec fn spec_to_runtime(address: u64, shift: Option<u64>) -> u64 {
    match shift {
        Some(offset) => shifted_up(address, offset),
        None => address,
    }
}

/// Normalises a runtime address to link-time by taking off the load shift;
/// without a shift the address is already link-time.
pub fn normal(rip: u64, shift: Option<u64>) -> (address: u64)
    ensures
        address == to_link(rip, shift),
{
    match shift {
        Some(offset) => rip.wrapping_sub(offset),
        None => rip,
    }
}

/// Normalises a link-time address to runtime by adding the load shift.
pub fn to_runtime(address: u64, shift: Option<u64>) -> (rip: u64)
    ensures
        rip == spec_to_runtime(address, shift),
{
    match shift {
        Some(offset) => address.wrapping_add(offset),
        None => address,
    }
}

/// Taking a link-time address to runtime and back gives the address again,
/// whatever the shift.
pub proof fn lemma_link_runtime_round_trip(x: u64, shift: Option<u64>)
    ensures
        to_link(spec_to_runtime(x, shift), shift) == x,
{
}

/// Taking a runtime address to link-time and back gives the address again.
pub proof fn lemma_runtime_link_round_trip(rip: u64, shift: Option<u64>)
    ensures
        spec_to_runtime(to_link(rip, shift), shift) == rip,
{
}

} // verus!
