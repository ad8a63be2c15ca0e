//! Fixed-width integers read out of byte sequences in either byte order.

use vstd::prelude::*;

verus! {

/// Value of `width` bytes of `s` starting at `at`, least significant byte first.
pub open spec fn le_value(s: Seq<u8>, at: int, width: nat) -> nat
    decreases width,
{
    if width == 0 {
        0
    } else {
        s[at] as nat + 256 * le_value(s, at + 1, (width - 1) as nat)
    }
}

/// Value of `width` bytes of `s` starting at `at`, most significant byte first.
pub open spec fn be_value(s: Seq<u8>, at: int, width: nat) -> nat
    decreases width,
{
    if width == 0 {
        0
    } else {
        256 * be_value(s, at, (width - 1) as nat) + s[at + width - 1] as nat
    }
}

/// Value of `width` bytes of `s` at `at` in the byte order selected by `big`.
pub open spec fn endian_value(s: Seq<u8>, at: int, width: nat, big: bool) -> nat {
    if big {
        be_value(s, at, width)
    } else {
        le_value(s, at, width)
    }
}

/// A value of `width` bytes is below `256^width`; stated for the widths in use.
pub proof fn lemma_value_bounds(s: Seq<u8>, at: int, big: bool)
    ensures
        endian_value(s, at, 2, big) < 0x1_0000,
        endian_value(s, at, 4, big) < 0x1_0000_0000,
        endian_value(s, at, 8, big) < 0x1_0000_0000_0000_0000,
{
    reveal_with_fuel(le_value, 9);
    reveal_with_fuel(be_value, 9);
}

/// Reads a 16-bit value at `at`.
pub fn read_u16(s: &[u8], at: usize, big: bool) -> (v: u16)
    requires
        at + 2 <= s@.len(),
    ensures
        v == endian_value(s@, at as int, 2, big),
{
    proof {
        reveal_with_fuel(le_value, 3);
        reveal_with_fuel(be_value, 3);
    }
    let b0: u16 = s[at] as u16;
    let b1: u16 = s[at + 1] as u16;
    if big {
        b0 * 256 + b1
    } else {
        b1 * 256 + b0
    }
}

/// Reads a 32-bit value at `at`.
pub fn read_u32(s: &[u8], at: usize, big: bool) -> (v: u32)
    requires
        at + 4 <= s@.len(),
    ensures
        v == endian_value(s@, at as int, 4, big),
{
    proof {
        reveal_with_fuel(le_value, 5);
        reveal_with_fuel(be_value, 5);
    }
    let b0: u32 = s[at] as u32;
    let b1: u32 = s[at + 1] as u32;
    let b2: u32 = s[at + 2] as u32;
    let b3: u32 = s[at + 3] as u32;
    if big {
        ((b0 * 256 + b1) * 256 + b2) * 256 + b3
    } else {
        ((b3 * 256 + b2) * 256 + b1) * 256 + b0
    }
}

/// Reads a 64-bit value at `at`.
pub fn read_u64(s: &[u8], at: usize, big: bool) -> (v: u64)
    requires
        at + 8 <= s@.len(),
    ensures
        v == endian_value(s@, at as int, 8, big),
{
    proof {
        reveal_with_fuel(le_value, 9);
        reveal_with_fuel(be_value, 9);
    }
    let b0: u64 = s[at] as u64;
    let b1: u64 = s[at + 1] as u64;
    let b2: u64 = s[at + 2] as u64;
    let b3: u64 = s[at + 3] as u64;
    let b4: u64 = s[at + 4] as u64;
    let b5: u64 = s[at + 5] as u64;
    let b6: u64 = s[at + 6] as u64;
    let b7: u64 = s[at + 7] as u64;
    if big {
        ((((((b0 * 256 + b1) * 256 + b2) * 256 + b3) * 256 + b4) * 256 + b5) * 256 + b6) * 256 + b7
    } else {
        ((((((b7 * 256 + b6) * 256 + b5) * 256 + b4) * 256 + b3) * 256 + b2) * 256 + b1) * 256 + b0
    }
}

/// Whether two byte strings hold the same bytes.
pub fn same_bytes(a: &[u8], b: &[u8]) -> (same: bool)
    ensures
        same == (a@ == b@),
{
    if a.len() != b.len() {
        return false;
    }
    let mut i: usize = 0;
    while i < a.len()
        invariant
            i <= a@.len(),
            a@.len() == b@.len(),
            forall|j: int| 0 <= j < i ==> a@[j] == b@[j],
        decreases a@.len() - i,
    {
        if a[i] != b[i] {
            return false;
        }
        i += 1;
    }
    assert(a@ =~= b@);
    true
}

/// The bytes of `s` from `from` up to, not including, `to`.
pub fn copy_range(s: &[u8], from: usize, to: usize) -> (part: Vec<u8>)
    requires
        from <= to <= s@.len(),
    ensures
        part@ == s@.subrange(from as int, to as int),
{
    let mut part: Vec<u8> = Vec::new();
    let mut i: usize = from;
    while i < to
        invariant
            from <= i <= to <= s@.len(),
            part@ == s@.subrange(from as int, i as int),
        decreases to - i,
    {
        part.push(s[i]);
        assert(part@ =~= s@.subrange(from as int, i + 1));
        i += 1;
    }
    part
}

} // verus!
