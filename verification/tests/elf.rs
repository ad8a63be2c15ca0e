use threebody::elf::{
    elf_header, ElfAbi, ElfAddress, ElfEndianness, ElfFormat, ElfHeader, ElfMachine, ElfType,
};
use threebody::error::DebugError;

/// The 64 header bytes of a little-endian x86-64 position-independent
/// executable with its entry at 0x1040.
fn pie_header() -> Vec<u8> {
    let mut h = vec![0x7f, b'E', b'L', b'F', 2, 1, 1, 0, 0, 0, 0, 0, 0, 0, 0, 0];
    h.extend_from_slice(&3u16.to_le_bytes());
    h.extend_from_slice(&0x3eu16.to_le_bytes());
    h.extend_from_slice(&1u32.to_le_bytes());
    h.extend_from_slice(&0x1040u64.to_le_bytes());
    h.extend_from_slice(&64u64.to_le_bytes());
    h.extend_from_slice(&0x3678u64.to_le_bytes());
    h.extend_from_slice(&0u32.to_le_bytes());
    h.extend_from_slice(&64u16.to_le_bytes());
    h.extend_from_slice(&56u16.to_le_bytes());
    h.extend_from_slice(&13u16.to_le_bytes());
    h.extend_from_slice(&64u16.to_le_bytes());
    h.extend_from_slice(&31u16.to_le_bytes());
    h.extend_from_slice(&30u16.to_le_bytes());
    h
}

#[test]
fn header_of_a_pie_decodes() {
    let h = elf_header(&pie_header()).unwrap();
    assert_eq!(h.magic, [0x7f, b'E', b'L', b'F']);
    assert_eq!(h.format, ElfFormat::Arch64);
    assert_eq!(h.endianness, ElfEndianness::Little);
    assert_eq!(h.version, 1);
    assert_eq!(h.abi, ElfAbi::SystemV);
    assert_eq!(h.abi_version, 0);
    assert_eq!(h.etype, ElfType::Dynamic);
    assert_eq!(h.emachine, ElfMachine::AMD64);
    assert_eq!(h.eversion, 1);
    assert_eq!(h.entry, ElfAddress::Qword(0x1040));
    assert_eq!(h.phoff, ElfAddress::Qword(64));
    assert_eq!(h.shoff, ElfAddress::Qword(0x3678));
    assert_eq!(h.flags, 0);
    assert_eq!(h.size, 64);
    assert_eq!(h.phentry, 56);
    assert_eq!(h.phcount, 13);
    assert_eq!(h.shentry, 64);
    assert_eq!(h.shcount, 31);
    assert_eq!(h.index, 30);
}

#[test]
fn header_with_trailing_bytes_decodes() {
    let mut bytes = pie_header();
    bytes.extend_from_slice(&[0xaa; 100]);
    assert_eq!(elf_header(&bytes).unwrap().entry, ElfAddress::Qword(0x1040));
}

#[test]
fn wrong_magic_is_malformed() {
    let mut bytes = pie_header();
    bytes[1] = b'X';
    assert_eq!(elf_header(&bytes).err(), Some(DebugError::MalformedBinary));
}

#[test]
fn truncated_header_is_malformed() {
    let bytes = pie_header();
    assert_eq!(elf_header(&bytes[..63]).err(), Some(DebugError::MalformedBinary));
    assert_eq!(elf_header(&[]).err(), Some(DebugError::MalformedBinary));
}

#[test]
fn unknown_class_is_malformed() {
    let mut bytes = pie_header();
    bytes[4] = 3;
    assert_eq!(elf_header(&bytes).err(), Some(DebugError::MalformedBinary));
}

#[test]
fn unknown_byte_order_is_malformed() {
    let mut bytes = pie_header();
    bytes[5] = 0;
    assert_eq!(elf_header(&bytes).err(), Some(DebugError::MalformedBinary));
}

#[test]
fn unknown_abi_is_malformed() {
    let mut bytes = pie_header();
    bytes[7] = 200;
    assert_eq!(elf_header(&bytes).err(), Some(DebugError::MalformedBinary));
}

#[test]
fn unknown_machine_is_unsupported() {
    let mut bytes = pie_header();
    bytes[18] = 0x0b;
    bytes[19] = 0;
    assert_eq!(elf_header(&bytes).err(), Some(DebugError::UnsupportedTarget));
}

#[test]
fn other_machine_is_unsupported_whatever_the_object_kind() {
    let mut bytes = pie_header();
    bytes[16] = 9;
    bytes[18] = 0xb7;
    assert_eq!(elf_header(&bytes).err(), Some(DebugError::UnsupportedTarget));
}

#[test]
fn unknown_object_kind_is_malformed() {
    let mut bytes = pie_header();
    bytes[16] = 9;
    assert_eq!(elf_header(&bytes).err(), Some(DebugError::MalformedBinary));
}

#[test]
fn other_machine_is_unsupported() {
    let mut bytes = pie_header();
    bytes[18] = 0xb7;
    assert_eq!(elf_header(&bytes).err(), Some(DebugError::UnsupportedTarget));
}

#[test]
fn thirty_two_bit_object_is_unsupported() {
    let mut bytes = pie_header();
    bytes[4] = 1;
    bytes[18] = 0x03;
    assert_eq!(elf_header(&bytes).err(), Some(DebugError::UnsupportedTarget));
}

#[test]
fn new_reads_the_identification() {
    let ident: [u8; 16] = [0x7f, b'E', b'L', b'F', 1, 2, 1, 3, 7, 0, 0, 0, 0, 0, 0, 0];
    let h = ElfHeader::new(&ident).unwrap();
    assert_eq!(h.magic, [0x7f, b'E', b'L', b'F']);
    assert_eq!(h.format, ElfFormat::Arch32);
    assert_eq!(h.endianness, ElfEndianness::Big);
    assert_eq!(h.abi, ElfAbi::Linux);
    assert_eq!(h.abi_version, 7);
    assert_eq!(h.etype, ElfType::NoType);
    assert_eq!(h.emachine, ElfMachine::NoMachine);
    assert_eq!(h.entry, ElfAddress::Qword(0));
    assert_eq!(h.size, 0);
}

#[test]
fn new_turns_down_bad_identification_bytes() {
    let good: [u8; 16] = [0x7f, b'E', b'L', b'F', 2, 1, 1, 0, 0, 0, 0, 0, 0, 0, 0, 0];
    assert!(ElfHeader::new(&good).is_ok());
    for k in 0..4 {
        let mut ident = good;
        ident[k] ^= 0x20;
        assert_eq!(ElfHeader::new(&ident).err(), Some(DebugError::MalformedBinary));
    }
    let mut ident = good;
    ident[4] = 3;
    assert_eq!(ElfHeader::new(&ident).err(), Some(DebugError::MalformedBinary));
    let mut ident = good;
    ident[5] = 0;
    assert_eq!(ElfHeader::new(&ident).err(), Some(DebugError::MalformedBinary));
    let mut ident = good;
    ident[7] = 0x55;
    assert_eq!(ElfHeader::new(&ident).err(), Some(DebugError::MalformedBinary));
}

/// The 48 bytes after the identification of a big-endian 32-bit header.
fn big_endian_rest(kind: u16, machine: u16) -> [u8; 48] {
    let mut rest = [0u8; 48];
    rest[0..2].copy_from_slice(&kind.to_be_bytes());
    rest[2..4].copy_from_slice(&machine.to_be_bytes());
    rest[4..8].copy_from_slice(&1u32.to_be_bytes());
    rest[8..12].copy_from_slice(&0x10000400u32.to_be_bytes());
    rest[12..16].copy_from_slice(&52u32.to_be_bytes());
    rest[16..20].copy_from_slice(&0x2000u32.to_be_bytes());
    rest[20..24].copy_from_slice(&0x80u32.to_be_bytes());
    rest[24..26].copy_from_slice(&52u16.to_be_bytes());
    rest[26..28].copy_from_slice(&32u16.to_be_bytes());
    rest[28..30].copy_from_slice(&9u16.to_be_bytes());
    rest[30..32].copy_from_slice(&40u16.to_be_bytes());
    rest[32..34].copy_from_slice(&28u16.to_be_bytes());
    rest[34..36].copy_from_slice(&27u16.to_be_bytes());
    rest
}

#[test]
fn append_reads_a_big_endian_32_bit_header() {
    let ident: [u8; 16] = [0x7f, b'E', b'L', b'F', 1, 2, 1, 0, 0, 0, 0, 0, 0, 0, 0, 0];
    let mut h = ElfHeader::new(&ident).unwrap();
    assert_eq!(h.append(&big_endian_rest(2, 0x3e)), Ok(()));
    assert_eq!(h.etype, ElfType::Executable);
    assert_eq!(h.emachine, ElfMachine::AMD64);
    assert_eq!(h.eversion, 1);
    assert_eq!(h.entry, ElfAddress::Long(0x10000400));
    assert_eq!(h.phoff, ElfAddress::Long(52));
    assert_eq!(h.shoff, ElfAddress::Long(0x2000));
    assert_eq!(h.flags, 0x80);
    assert_eq!(h.size, 52);
    assert_eq!(h.phentry, 32);
    assert_eq!(h.phcount, 9);
    assert_eq!(h.shentry, 40);
    assert_eq!(h.shcount, 28);
    assert_eq!(h.index, 27);
    assert_eq!(h.format, ElfFormat::Arch32);
    assert_eq!(h.endianness, ElfEndianness::Big);
}

#[test]
fn append_turns_down_another_machine_and_leaves_the_header() {
    let ident: [u8; 16] = [0x7f, b'E', b'L', b'F', 1, 2, 1, 0, 0, 0, 0, 0, 0, 0, 0, 0];
    let mut h = ElfHeader::new(&ident).unwrap();
    assert_eq!(h.append(&big_endian_rest(2, 0x14)), Err(DebugError::UnsupportedTarget));
    assert_eq!(h.emachine, ElfMachine::NoMachine);
    assert_eq!(h.etype, ElfType::NoType);
    assert_eq!(h.entry, ElfAddress::Qword(0));
    assert_eq!(h.size, 0);
    assert_eq!(h.append(&big_endian_rest(2, 0x0b)), Err(DebugError::UnsupportedTarget));
}

#[test]
fn append_turns_down_an_unknown_object_kind() {
    let ident: [u8; 16] = [0x7f, b'E', b'L', b'F', 1, 2, 1, 0, 0, 0, 0, 0, 0, 0, 0, 0];
    let mut h = ElfHeader::new(&ident).unwrap();
    assert_eq!(h.append(&big_endian_rest(9, 0x3e)), Err(DebugError::MalformedBinary));
    assert_eq!(h.etype, ElfType::NoType);
    assert_eq!(h.emachine, ElfMachine::NoMachine);
}

#[test]
fn to_buffer_is_the_single_zero_byte() {
    let h = elf_header(&pie_header()).unwrap();
    assert_eq!(h.to_buffer(), vec![0u8]);
}

#[test]
fn address_value_ignores_the_width() {
    assert_eq!(ElfAddress::Long(7).to_u64(), 7);
    assert_eq!(ElfAddress::Qword(0x1_0000_0000).to_u64(), 0x1_0000_0000);
}

#[test]
fn machine_numbers_round_trip() {
    for code in 0u16..0x200 {
        if let Some(m) = ElfMachine::try_from_primitive(code) {
            assert_eq!(m.to_primitive(), code);
        }
    }
    assert_eq!(ElfMachine::try_from_primitive(0x3e), Some(ElfMachine::AMD64));
    assert_eq!(ElfMachine::try_from_primitive(0x102), Some(ElfMachine::LoongArch));
    assert_eq!(ElfMachine::try_from_primitive(0x0b), None);
}

#[test]
fn object_kind_numbers() {
    assert_eq!(ElfType::try_from_primitive(0xfe00), Some(ElfType::LOOS));
    assert_eq!(ElfType::try_from_primitive(0xffff), Some(ElfType::HIPROC));
    assert_eq!(ElfType::try_from_primitive(5), None);
    assert_eq!(ElfType::Core.to_primitive(), 4);
    assert_eq!(ElfAbi::try_from_primitive(17), Some(ElfAbi::StratusTechnologiesOpenVOS));
    assert_eq!(ElfAbi::try_from_primitive(18), None);
    assert_eq!(ElfFormat::try_from_primitive(0), None);
    assert_eq!(ElfEndianness::Big.to_primitive(), 2);
}
