//! Loading an executable: its header, and the sections that the debugger
//! reads, taken out of the file by the `object` crate.

use object::{Object, ObjectSection};
use vstd::prelude::*;
use crate::cfi::EhFrame;
use crate::dwarf::{
    DwarfImage, DEBUG_ABBREV, DEBUG_ADDR, DEBUG_INFO, DEBUG_LINE, DEBUG_LINE_STR, DEBUG_LOC,
    DEBUG_LOCLISTS, DEBUG_RANGES, DEBUG_RNGLISTS, DEBUG_STR, DEBUG_STR_OFFSETS,
};
use crate::elf::{
    elf_header, ident_fields_only, load_verdict, rest_fields, ElfEndianness, ElfHeader,
};
use crate::error::DebugError;
use crate::functions::name_view;
use crate::reader::or_empty;

verus! {

/// The section name `.eh_frame`.
pub const EH_FRAME: [u8; 9] = [0x2e, 0x65, 0x68, 0x5f, 0x66, 0x72, 0x61, 0x6d, 0x65];

/// The uncompressed content of the section called `name` in the object
/// file `binary`, as the `object` crate finds it; `None` where the file
/// cannot be parsed or has no such section.
pub uninterp spec fn section_data_of(binary: Seq<u8>, name: Seq<u8>) -> Option<Seq<u8>>;

/// The address of the section called `name` in the object file `binary`,
/// as the `object` crate finds it.
pub uninterp spec fn section_address_of(binary: Seq<u8>, name: Seq<u8>) -> Option<u64>;

/// Parses the file with `object::File::parse`, looks the section up with
/// `section_by_name` and takes its content with `uncompressed_data`.
#[verifier::external_body]
fn read_section(binary: &[u8], name: &[u8]) -> (data: Option<Vec<u8>>)
    ensures
        name_view(data) == section_data_of(binary@, name@),
{
    let file = object::File::parse(binary).ok()?;
    let section = file.section_by_name(core::str::from_utf8(name).ok()?)?;
    Some(section.uncompressed_data().ok()?.into_owned())
}

/// Parses the file with `object::File::parse`, looks the section up with
/// `section_by_name` and takes its address with `address`.
#[verifier::external_body]
fn read_section_address(binary: &[u8], name: &[u8]) -> (address: Option<u64>)
    ensures
        address == section_address_of(binary@, name@),
{
    let file = object::File::parse(binary).ok()?;
    Some(file.section_by_name(core::str::from_utf8(name).ok()?)?.address())
}

/// The content of a section, empty where the file has none of that name.
fn section_or_empty(binary: &[u8], name: &[u8]) -> (data: Vec<u8>)
    ensures
        data@ == or_empty(section_data_of(binary@, name@)),
{
    match read_section(binary, name) {
        Some(data) => data,
        None => Vec::new(),
    }
}

/// What is loaded from an executable.
#[derive(Debug)]
pub struct LoadedImage {
    pub header: ElfHeader,
    pub dwarf: DwarfImage,
    pub eh_frame: EhFrame,
}

/// `l` is what the executable `binary` holds: the header that its first 64
/// bytes spell, the byte order of that header, and every debug section and
/// `.eh_frame` as the `object` crate finds them, empty where the file has
/// none of that name.
pub open spec fn loaded_from(l: LoadedImage, binary: Seq<u8>) -> bool {
    let big = l.header.endianness == ElfEndianness::Big;
    &&& ident_fields_only(l.header, binary.subrange(0, 16))
    &&& rest_fields(l.header, binary.subrange(16, 64))
    &&& l.header.supported()
    &&& l.dwarf@.big_endian == big
    &&& l.eh_frame.big_endian == big
    &&& l.eh_frame.frame@ == or_empty(section_data_of(binary, EH_FRAME@))
    &&& l.eh_frame.section_base == (match section_address_of(binary, EH_FRAME@) {
        Some(a) => a,
        None => 0,
    })
    &&& l.dwarf@.debug_abbrev == or_empty(section_data_of(binary, DEBUG_ABBREV@))
    &&& l.dwarf@.debug_addr == or_empty(section_data_of(binary, DEBUG_ADDR@))
    &&& l.dwarf@.debug_info == or_empty(section_data_of(binary, DEBUG_INFO@))
    &&& l.dwarf@.debug_line == or_empty(section_data_of(binary, DEBUG_LINE@))
    &&& l.dwarf@.debug_line_str == or_empty(section_data_of(binary, DEBUG_LINE_STR@))
    &&& l.dwarf@.debug_loc == or_empty(section_data_of(binary, DEBUG_LOC@))
    &&& l.dwarf@.debug_loclists == or_empty(section_data_of(binary, DEBUG_LOCLISTS@))
    &&& l.dwarf@.debug_ranges == or_empty(section_data_of(binary, DEBUG_RANGES@))
    &&& l.dwarf@.debug_rnglists == or_empty(section_data_of(binary, DEBUG_RNGLISTS@))
    &&& l.dwarf@.debug_str == or_empty(section_data_of(binary, DEBUG_STR@))
    &&& l.dwarf@.debug_str_offsets == or_empty(section_data_of(binary, DEBUG_STR_OFFSETS@))
}

/// Loads an executable from its bytes.
///
/// The header is decoded first; a file that is no ELF file or none the
/// debugger can trace is turned down with the error of [`elf_header`]. The
/// byte order is that of the header. Every debug section and `.eh_frame`
/// are taken from the file, uncompressed; a section that the file lacks is
/// empty.
pub fn load_dwarf(binary: &[u8]) -> (loaded: Result<LoadedImage, DebugError>)
    ensures
        loaded is Ok <==> load_verdict(binary@) is None,
        loaded matches Err(e) ==> load_verdict(binary@) == Some(e),
        loaded matches Ok(l) ==> loaded_from(l, binary@),
{
    let header = match elf_header(binary) {
        Ok(header) => header,
        Err(e) => {
            return Err(e);
        },
    };
    let big = match header.endianness {
        ElfEndianness::Big => true,
        ElfEndianness::Little => false,
    };
    let mut dwarf = DwarfImage::new(big);
    dwarf.debug_abbrev = section_or_empty(binary, DEBUG_ABBREV.as_slice());
    dwarf.debug_addr = section_or_empty(binary, DEBUG_ADDR.as_slice());
    dwarf.debug_info = section_or_empty(binary, DEBUG_INFO.as_slice());
    dwarf.debug_line = section_or_empty(binary, DEBUG_LINE.as_slice());
    dwarf.debug_line_str = section_or_empty(binary, DEBUG_LINE_STR.as_slice());
    dwarf.debug_loc = section_or_empty(binary, DEBUG_LOC.as_slice());
    dwarf.debug_loclists = section_or_empty(binary, DEBUG_LOCLISTS.as_slice());
    dwarf.debug_ranges = section_or_empty(binary, DEBUG_RANGES.as_slice());
    dwarf.debug_rnglists = section_or_empty(binary, DEBUG_RNGLISTS.as_slice());
    dwarf.debug_str = section_or_empty(binary, DEBUG_STR.as_slice());
    dwarf.debug_str_offsets = section_or_empty(binary, DEBUG_STR_OFFSETS.as_slice());
    let section_base = match read_section_address(binary, EH_FRAME.as_slice()) {
        Some(a) => a,
        None => 0,
    };
    let eh_frame = EhFrame {
        frame: section_or_empty(binary, EH_FRAME.as_slice()),
        section_base,
        big_endian: big,
    };
    Ok(LoadedImage { header, dwarf, eh_frame })
}

} // verus!
