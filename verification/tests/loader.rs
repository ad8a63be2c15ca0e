use std::collections::HashMap;
use threebody::address::{normal, to_runtime};
use threebody::context::Internal;
use threebody::maps::{dynamic_load_shift, get_process_maps};
use threebody::step::{classify_stop, Stop, WaitReport, SIGTRAP};
use threebody::elf::{ElfEndianness, ElfMachine, ElfType};
use threebody::error::DebugError;
use threebody::loader::load_dwarf;
use threebody::source::SourceIndex;

struct Section {
    name: &'static str,
    address: u64,
    data: Vec<u8>,
}

/// A 64-bit little-endian x86-64 ELF file of kind `etype` that holds the
/// given sections and nothing else.
fn elf_file(etype: u16, sections: &[Section]) -> Vec<u8> {
    let mut names = vec![0u8];
    let mut name_at = Vec::new();
    for s in sections {
        name_at.push(names.len() as u32);
        names.extend_from_slice(s.name.as_bytes());
        names.push(0);
    }
    let names_name = names.len() as u32;
    names.extend_from_slice(b".shstrtab\0");

    let mut body = Vec::new();
    let mut placed = Vec::new();
    for s in sections {
        placed.push((64 + body.len()) as u64);
        body.extend_from_slice(&s.data);
    }
    let names_offset = (64 + body.len()) as u64;
    body.extend_from_slice(&names);
    let table_offset = (64 + body.len()) as u64;

    let mut file = vec![0x7f, b'E', b'L', b'F', 2, 1, 1, 0, 0, 0, 0, 0, 0, 0, 0, 0];
    file.extend_from_slice(&etype.to_le_bytes());
    file.extend_from_slice(&0x3eu16.to_le_bytes());
    file.extend_from_slice(&1u32.to_le_bytes());
    file.extend_from_slice(&0u64.to_le_bytes());
    file.extend_from_slice(&0u64.to_le_bytes());
    file.extend_from_slice(&table_offset.to_le_bytes());
    file.extend_from_slice(&0u32.to_le_bytes());
    file.extend_from_slice(&64u16.to_le_bytes());
    file.extend_from_slice(&0u16.to_le_bytes());
    file.extend_from_slice(&0u16.to_le_bytes());
    file.extend_from_slice(&64u16.to_le_bytes());
    file.extend_from_slice(&((sections.len() + 2) as u16).to_le_bytes());
    file.extend_from_slice(&((sections.len() + 1) as u16).to_le_bytes());
    file.extend_from_slice(&body);

    let mut header = |name: u32, kind: u32, address: u64, offset: u64, size: u64| {
        file.extend_from_slice(&name.to_le_bytes());
        file.extend_from_slice(&kind.to_le_bytes());
        file.extend_from_slice(&0u64.to_le_bytes());
        file.extend_from_slice(&address.to_le_bytes());
        file.extend_from_slice(&offset.to_le_bytes());
        file.extend_from_slice(&size.to_le_bytes());
        file.extend_from_slice(&0u32.to_le_bytes());
        file.extend_from_slice(&0u32.to_le_bytes());
        file.extend_from_slice(&1u64.to_le_bytes());
        file.extend_from_slice(&0u64.to_le_bytes());
    };
    header(0, 0, 0, 0, 0);
    for (i, s) in sections.iter().enumerate() {
        header(name_at[i], 1, s.address, placed[i], s.data.len() as u64);
    }
    header(names_name, 3, 0, names_offset, names.len() as u64);
    file
}

fn sample() -> Vec<u8> {
    elf_file(
        3,
        &[
            Section { name: ".debug_info", address: 0, data: vec![1, 2, 3, 4] },
            Section { name: ".debug_str", address: 0, data: b"main\0".to_vec() },
            Section { name: ".eh_frame", address: 0x2000, data: vec![9, 9] },
            Section { name: ".text", address: 0x1000, data: vec![0xc3] },
        ],
    )
}

#[test]
fn sections_are_taken_by_name() {
    let loaded = load_dwarf(&sample()).unwrap();
    assert_eq!(loaded.header.etype, ElfType::Dynamic);
    assert_eq!(loaded.header.emachine, ElfMachine::AMD64);
    assert_eq!(loaded.header.endianness, ElfEndianness::Little);
    assert!(!loaded.dwarf.big_endian);
    assert_eq!(loaded.dwarf.debug_info, vec![1, 2, 3, 4]);
    assert_eq!(loaded.dwarf.debug_str, b"main\0".to_vec());
    assert_eq!(loaded.eh_frame.frame, vec![9, 9]);
    assert_eq!(loaded.eh_frame.section_base, 0x2000);
    assert!(!loaded.eh_frame.big_endian);
}

#[test]
fn missing_sections_are_empty() {
    let loaded = load_dwarf(&sample()).unwrap();
    assert!(loaded.dwarf.debug_abbrev.is_empty());
    assert!(loaded.dwarf.debug_line.is_empty());
    assert!(loaded.dwarf.debug_rnglists.is_empty());
    let bare = load_dwarf(&elf_file(2, &[])).unwrap();
    assert!(bare.eh_frame.frame.is_empty());
    assert_eq!(bare.eh_frame.section_base, 0);
    assert_eq!(bare.header.etype, ElfType::Executable);
}

#[test]
fn files_that_are_no_executables_are_turned_down() {
    assert_eq!(load_dwarf(b"#!/bin/sh\n").err(), Some(DebugError::MalformedBinary));
    let mut arm = sample();
    arm[18] = 0xb7;
    assert_eq!(load_dwarf(&arm).err(), Some(DebugError::UnsupportedTarget));
}

#[test]
fn context_starts_empty() {
    let context = Internal::new();
    assert!(context.file.is_none());
    assert!(context.indices.is_none());
    assert!(context.registers.is_none());
    assert!(context.dynamic_exec_shift.is_none());
    assert!(!context.tracing);
    assert_eq!(context.require_tracee(), Err(DebugError::NoTracee));
}

#[test]
fn context_keeps_what_it_had_when_a_file_is_turned_down() {
    let mut context = Internal::new();
    context.add_pending_breakpoint(0x1149);
    assert_eq!(context.init_on_load(b"x".to_vec(), b"not elf"), Err(DebugError::MalformedBinary));
    assert!(context.file.is_none());
    assert!(context.indices.is_none());
    assert!(context.breakpoints.get(0x1149).is_some());
}

#[test]
fn context_follows_the_tracee() {
    let mut context = Internal::new();
    assert_eq!(context.init_on_load(b"/home/user/a.out".to_vec(), &sample()), Ok(()));
    assert_eq!(context.file, Some(b"/home/user/a.out".to_vec()));
    let indices = context.indices.as_ref().unwrap();
    assert_eq!(indices.image.eh_frame.section_base, 0x2000);
    assert!(indices.line_addresses.get_line(0x1149).is_none());
    context.add_pending_breakpoint(0x1149);
    context.attach(Some(0x555555554000));
    assert_eq!(context.require_tracee(), Ok(()));
    assert_eq!(context.dynamic_exec_shift, Some(0x555555554000));
    context.breakpoints.install(0x1149, 0x55).unwrap();
    assert!(context.breakpoints.is_installed(0x1149));
    context.teardown_on_kill();
    assert_eq!(context.require_tracee(), Err(DebugError::NoTracee));
    assert!(context.dynamic_exec_shift.is_none());
    assert!(context.registers.is_none());
    assert!(!context.breakpoints.is_installed(0x1149));
    assert_eq!(context.breakpoints.get(0x1149).unwrap().saved, 0x55);
    assert!(context.indices.is_some());
}

#[test]
fn breakpoint_at_a_source_line_needs_an_address() {
    let mut context = Internal::new();
    let at = SourceIndex::new(b"/src".to_vec(), 0, 3);
    assert_eq!(context.add_breakpoint_at_source_line(&at), None);
    context.init_on_load(b"a.out".to_vec(), &sample()).unwrap();
    assert_eq!(context.add_breakpoint_at_source_line(&at), None);
    context.indices.as_mut().unwrap().line_addresses.insert(0x1160, at.clone());
    assert_eq!(context.add_breakpoint_at_source_line(&at), Some(0x1160));
    assert!(context.breakpoints.get(0x1160).is_some());
    assert!(!context.breakpoints.is_installed(0x1160));
}

#[test]
fn launch_and_stop_at_entry() {
    let mut context = Internal::new();
    context.init_on_load(b"/home/user/a.out".to_vec(), &sample()).unwrap();
    context.add_pending_breakpoint(0x1149);

    let listing = b"555555554000-555555555000 r--p 00000000 fd:01 7 /home/user/a.out\n\
555555555000-555555556000 r-xp 00001000 fd:01 7 /home/user/a.out\n";
    let maps = get_process_maps(listing).unwrap();
    let etype = context.indices.as_ref().unwrap().image.header.etype;
    let shift = dynamic_load_shift(etype, &maps, b"/home/user/a.out");
    assert_eq!(shift, Some(0x555555554000));
    context.attach(shift);

    let mut memory: HashMap<u64, u64> = HashMap::new();
    memory.insert(to_runtime(0x1149, shift), 0xe589_4855);
    let mut read = HashMap::new();
    for address in context.breakpoints.disabled() {
        read.insert(address, memory[&to_runtime(address, shift)]);
    }
    for write in context.breakpoints.enable_all(&read) {
        memory.insert(to_runtime(write.address, shift), write.word);
    }
    assert_eq!(memory[&0x555555555149] & 0xff, 0xcc);

    let rip_after_trap = 0x55555555514a;
    let stop = classify_stop(
        &context.breakpoints,
        context.dynamic_exec_shift,
        WaitReport::Stopped(SIGTRAP),
        rip_after_trap,
    );
    assert_eq!(stop, Ok(Stop::Breakpoint { address: 0x1149, rewind_to: 0x555555555149 }));
    assert_eq!(normal(0x555555555149, context.dynamic_exec_shift), 0x1149);
    assert!(context.breakpoints.get(0x1149).unwrap().enabled);
}
