//! The disassembly around an address.
//!
//! Decoding and formatting of instructions is done by iced-x86. This module
//! finds an address at which the bytes decode cleanly and lays the listing
//! out.

use iced_x86::{Decoder, DecoderOptions, Formatter, NasmFormatter};
use vstd::prelude::*;
use crate::bytes::copy_range;
use crate::error::DebugError;

verus! {

/// How many bytes around an address are disassembled.
pub const AREA: usize = 2048;

/// How far the start of a listing may be moved to find an instruction
/// boundary.
pub const BACKSCAN: u64 = 64;

/// The column at which the first operand of an instruction starts.
pub const OPERAND_COLUMN: u32 = 10;

/// What separates groups of digits in the numbers of a listing.
pub const DIGIT_SEPARATOR: &'static str = "_";

/// An instruction as the decoder found it and the formatter wrote it.
#[derive(Debug)]
pub struct Decoded {
    /// The address of the instruction.
    pub ip: u64,
    /// Its length in bytes.
    pub length: usize,
    /// The bytes at the address are no instruction.
    pub invalid: bool,
    /// The instruction as text.
    pub text: Vec<u8>,
}

/// A [`Decoded`] as a value.
pub ghost struct DecodedView {
    pub ip: u64,
    pub length: usize,
    pub invalid: bool,
    pub text: Seq<u8>,
}

impl View for Decoded {
    type V = DecodedView;

    open spec fn view(&self) -> DecodedView {
        DecodedView { ip: self.ip, length: self.length, invalid: self.invalid, text: self.text@ }
    }
}

/// The instructions as values.
pub open spec fn decoded_views(list: Seq<Decoded>) -> Seq<DecodedView> {
    list.map_values(|d: Decoded| d@)
}

/// A listing of instructions.
#[derive(Debug)]
pub struct Assembly {
    /// The address the listing starts at.
    pub pointer: u64,
    /// One line for every instruction: the address, four spaces, the
    /// instruction.
    pub text: Vec<u8>,
    /// The address of every instruction, in order.
    pub addresses: Vec<u64>,
}

/// The instructions that iced-x86 decodes from `bytes` in 64-bit mode, the
/// first one at address `ip`, each with the text that the NASM formatter
/// gives it with the first operand at `column` and `separator` between
/// groups of digits.
pub uninterp spec fn decoded_of(bytes: Seq<u8>, ip: u64, column: u32, separator: Seq<char>) -> Seq<DecodedView>;

/// Decodes `bytes` with `iced_x86::Decoder` in 64-bit mode from address
/// `ip` on, formats every instruction with `iced_x86::NasmFormatter`, and
/// hands out address, length, validity and text of each.
#[verifier::external_body]
fn decode_all(bytes: &[u8], ip: u64, column: u32, separator: &'static str) -> (list: Vec<Decoded>)
    ensures
        decoded_views(list@) == decoded_of(bytes@, ip, column, separator@),
{
    let mut formatter = NasmFormatter::new();
    formatter.options_mut().set_first_operand_char_index(column);
    formatter.options_mut().set_digit_separator(separator);
    let mut list = Vec::new();
    for i in Decoder::with_ip(64, bytes, ip, DecoderOptions::NONE).iter() {
        let mut text = String::new();
        formatter.format(&i, &mut text);
        list.push(Decoded { ip: i.ip(), length: i.len(), invalid: i.is_invalid(), text: text.into_bytes() });
    }
    list
}

/// What is decoded from `bytes` at `ip` with the layout of the listing.
pub open spec fn decoded_at(bytes: Seq<u8>, ip: u64) -> Seq<DecodedView> {
    decoded_of(bytes, ip, OPERAND_COLUMN, DIGIT_SEPARATOR@)
}

/// None of the instructions is invalid.
pub open spec fn all_valid(list: Seq<DecodedView>) -> bool {
    forall|i: int| 0 <= i < list.len() ==> !list[i].invalid
}

/// The bytes from `offset` on decode cleanly at `address + offset`.
pub open spec fn clean_at(address: u64, bytes: Seq<u8>, offset: int) -> bool {
    &&& 0 <= offset <= bytes.len()
    &&& address + offset <= u64::MAX
    &&& all_valid(decoded_at(bytes.skip(offset), (address + offset) as u64))
}

/// `offset` is the first offset below [`BACKSCAN`] at which the bytes
/// decode cleanly.
pub open spec fn first_clean(address: u64, bytes: Seq<u8>, offset: int) -> bool {
    &&& 0 <= offset < BACKSCAN
    &&& clean_at(address, bytes, offset)
    &&& forall|o: int| 0 <= o < offset ==> !clean_at(address, bytes, o)
}

/// Whether none of the instructions is invalid.
pub fn is_clean(list: &Vec<Decoded>) -> (clean: bool)
    ensures
        clean == all_valid(decoded_views(list@)),
{
    let mut i: usize = 0;
    while i < list.len()
        invariant
            i <= list@.len(),
            forall|j: int| 0 <= j < i ==> !decoded_views(list@)[j].invalid,
        decreases list@.len() - i,
    {
        if list[i].invalid {
            assert(decoded_views(list@)[i as int].invalid);
            return false;
        }
        i += 1;
    }
    true
}

/// The instructions from the first offset at which `bytes` decode cleanly.
struct Aligned {
    pointer: u64,
    list: Vec<Decoded>,
}

fn align(address: u64, bytes: &[u8]) -> (aligned: Option<Aligned>)
    ensures
        aligned matches Some(a) ==> {
            &&& first_clean(address, bytes@, a.pointer - address)
            &&& decoded_views(a.list@) == decoded_at(
                bytes@.skip(a.pointer - address),
                a.pointer,
            )
        },
        aligned is None ==> forall|o: int| 0 <= o < BACKSCAN ==> !clean_at(address, bytes@, o),
{
    let mut offset: u64 = 0;
    while offset < BACKSCAN
        invariant
            offset <= BACKSCAN,
            forall|o: int| 0 <= o < offset ==> !clean_at(address, bytes@, o),
        decreases BACKSCAN - offset,
    {
        if offset as usize <= bytes.len() && address <= u64::MAX - offset {
            let rest = copy_range(bytes, offset as usize, bytes.len());
            assert(rest@ =~= bytes@.skip(offset as int));
            let list = decode_all(rest.as_slice(), address + offset, OPERAND_COLUMN, DIGIT_SEPARATOR);
            if is_clean(&list) {
                assert(clean_at(address, bytes@, offset as int));
                return Some(Aligned { pointer: address + offset, list });
            }
        }
        offset += 1;
    }
    None
}

/// Finds the first address at or after `address` from which `bytes` decode
/// without an invalid instruction, trying the offsets below [`BACKSCAN`] in
/// order. `bytes` are the bytes at `address`.
pub fn align_pointer(address: u64, bytes: &[u8]) -> (aligned: Result<u64, DebugError>)
    ensures
        aligned matches Ok(a) ==> first_clean(address, bytes@, a - address),
        aligned matches Err(e) ==> e == DebugError::MemoryReadError && forall|o: int|
            0 <= o < BACKSCAN ==> !clean_at(address, bytes@, o),
{
    match align(address, bytes) {
        Some(a) => Ok(a.pointer),
        None => Err(DebugError::MemoryReadError),
    }
}

/// The address at which the window of [`AREA`] bytes around `address`
/// starts: half the area before it, and not below 0.
pub fn window_start(address: u64) -> (pointer: u64)
    ensures
        pointer == (if address >= AREA / 2 {
            address - AREA / 2
        } else {
            0
        }),
{
    if address >= (AREA / 2) as u64 {
        address - (AREA / 2) as u64
    } else {
        0
    }
}

/// The hexadecimal digit for a number below 16.
pub open spec fn hex_char(nibble: u64) -> u8 {
    if nibble < 10 {
        (0x30 + nibble) as u8
    } else {
        (0x61 + nibble - 10) as u8
    }
}

/// `0x` and the sixteen hexadecimal digits of `ip`, then four spaces.
pub open spec fn address_column(ip: u64) -> Seq<u8> {
    seq![0x30u8, 0x78u8] + Seq::new(16, |k: int| hex_char((ip >> ((60 - 4 * k) as u64)) & 0xf))
        + seq![0x20u8, 0x20u8, 0x20u8, 0x20u8]
}

/// The text of the first `n` lines of a listing.
pub open spec fn listing_text(list: Seq<DecodedView>, n: int) -> Seq<u8>
    decreases n,
{
    if n <= 0 {
        Seq::empty()
    } else {
        listing_text(list, n - 1) + address_column(list[n - 1].ip) + list[n - 1].text + seq![
            0x0au8,
        ]
    }
}

fn push_address_column(text: &mut Vec<u8>, ip: u64)
    ensures
        final(text)@ == old(text)@ + address_column(ip),
{
    let ghost start = text@;
    text.push(0x30);
    text.push(0x78);
    let mut k: u64 = 0;
    let ghost digits = Seq::new(16, |k: int| hex_char((ip >> ((60 - 4 * k) as u64)) & 0xf));
    while k < 16
        invariant
            k <= 16,
            digits == Seq::new(16, |k: int| hex_char((ip >> ((60 - 4 * k) as u64)) & 0xf)),
            text@ == start + seq![0x30u8, 0x78u8] + digits.take(k as int),
        decreases 16 - k,
    {
        let shift: u64 = 60 - 4 * k;
        let nibble: u64 = (ip >> shift) & 0xf;
        assert((ip >> shift) & 0xf < 16) by (bit_vector);
        let c: u8 = if nibble < 10 {
            (0x30 + nibble) as u8
        } else {
            (0x61 + nibble - 10) as u8
        };
        text.push(c);
        assert(digits.take(k + 1) =~= digits.take(k as int).push(digits[k as int]));
        k += 1;
    }
    assert(digits.take(16) =~= digits);
    text.push(0x20);
    text.push(0x20);
    text.push(0x20);
    text.push(0x20);
    assert(text@ =~= start + address_column(ip));
}

/// Lays out the listing of the instructions that were decoded from
/// `pointer` on: a line of text for each, and its address.
pub fn lay_out(pointer: u64, list: &Vec<Decoded>) -> (listing: Assembly)
    ensures
        listing.pointer == pointer,
        listing.addresses@ == decoded_views(list@).map_values(|d: DecodedView| d.ip),
        listing.text@ == listing_text(decoded_views(list@), list@.len() as int),
{
    let ghost views = decoded_views(list@);
    let mut text: Vec<u8> = Vec::new();
    let mut addresses: Vec<u64> = Vec::new();
    let mut i: usize = 0;
    while i < list.len()
        invariant
            i <= list@.len(),
            views == decoded_views(list@),
            addresses@ == views.map_values(|d: DecodedView| d.ip).take(i as int),
            text@ == listing_text(views, i as int),
        decreases list@.len() - i,
    {
        let ghost before = text@;
        assert(views[i as int] == list@[i as int]@);
        addresses.push(list[i].ip);
        assert(addresses@ =~= views.map_values(|d: DecodedView| d.ip).take(i + 1));
        push_address_column(&mut text, list[i].ip);
        let line = &list[i].text;
        let ghost head = text@;
        let mut k: usize = 0;
        while k < line.len()
            invariant
                k <= line@.len(),
                text@ == head + line@.take(k as int),
            decreases line@.len() - k,
        {
            text.push(line[k]);
            assert(line@.take(k + 1) =~= line@.take(k as int).push(line@[k as int]));
            k += 1;
        }
        assert(line@.take(k as int) =~= line@);
        text.push(0x0a);
        assert(text@ =~= before + address_column(views[i as int].ip) + views[i as int].text + seq![
            0x0au8,
        ]);
        i += 1;
    }
    assert(views.map_values(|d: DecodedView| d.ip).take(i as int) =~= views.map_values(
        |d: DecodedView| d.ip,
    ));
    Assembly { pointer, text, addresses }
}

/// Disassembles `bytes`, which were read at `pointer`, from the first
/// address at which they decode cleanly: the listing has the address and a
/// line of text for every instruction that is decoded from there.
pub fn disassemble_code(pointer: u64, bytes: &[u8]) -> (listing: Result<Assembly, DebugError>)
    ensures
        listing is Ok <==> exists|o: int| 0 <= o < BACKSCAN && clean_at(pointer, bytes@, o),
        listing matches Ok(a) ==> {
            let list = decoded_at(bytes@.skip(a.pointer - pointer), a.pointer);
            &&& first_clean(pointer, bytes@, a.pointer - pointer)
            &&& a.addresses@ == list.map_values(|d: DecodedView| d.ip)
            &&& a.text@ == listing_text(list, list.len() as int)
        },
        listing matches Err(e) ==> e == DebugError::MemoryReadError,
{
    match align(pointer, bytes) {
        Some(aligned) => Ok(lay_out(aligned.pointer, &aligned.list)),
        None => Err(DebugError::MemoryReadError),
    }
}

} // verus!
