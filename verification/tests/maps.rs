use threebody::elf::ElfType;
use threebody::error::DebugError;
use threebody::maps::{dynamic_load_shift, get_process_maps, MapBits, MemoryMap};

const LISTING: &str = "\
555555554000-555555555000 r--p 00000000 fd:01 1835036                    /home/user/a.out
555555555000-555555556000 r-xp 00001000 fd:01 1835036                    /home/user/a.out
555555556000-555555557000 r--p 00002000 fd:01 1835036                    /home/user/a.out
555555557000-555555559000 rw-p 00002000 fd:01 1835036                    /home/user/a.out
7ffff7d8a000-7ffff7d8d000 rw-p 00000000 00:00 0 
7ffff7fc3000-7ffff7fc5000 r-xp 00000000 00:00 0                          [vdso]
7ffff7fc5000-7ffff7fc7000 r--p 00000000 fd:01 2884398                    /usr/lib/ld-linux-x86-64.so.2
7ffffffde000-7ffffffff000 rw-p 00000000 00:00 0                          [stack]
";

#[test]
fn listing_is_read_line_by_line() {
    let maps = get_process_maps(LISTING.as_bytes()).unwrap();
    assert_eq!(maps.len(), 7);
    assert_eq!(maps[0].name, b"/home/user/a.out".to_vec());
    assert_eq!(maps[0].range, (0x555555554000, 0x555555555000));
    assert_eq!(maps[0].permissions, MapBits { r: true, w: false, x: false, p: true });
    assert_eq!(maps[0].offset, 0);
    assert_eq!(maps[1].permissions, MapBits { r: true, w: false, x: true, p: true });
    assert_eq!(maps[1].offset, 0x1000);
    assert_eq!(maps[3].permissions, MapBits { r: true, w: true, x: false, p: true });
    assert_eq!(maps[4].name, b"[vdso]".to_vec());
    assert_eq!(maps[6].name, b"[stack]".to_vec());
    assert_eq!(maps[6].range, (0x7ffffffde000, 0x7ffffffff000));
}

#[test]
fn empty_listing_has_no_mappings() {
    assert_eq!(get_process_maps(b"").unwrap().len(), 0);
    assert_eq!(get_process_maps(b"\n\n").unwrap().len(), 0);
}

#[test]
fn last_line_needs_no_line_feed() {
    let maps = get_process_maps(b"1000-2000 rwxs 0000000a 00:00 0 /x").unwrap();
    assert_eq!(maps.len(), 1);
    assert_eq!(maps[0].permissions, MapBits { r: true, w: true, x: true, p: false });
    assert_eq!(maps[0].offset, 10);
    assert_eq!(maps[0].range, (0x1000, 0x2000));
}

#[test]
fn upper_case_digits_and_tabs_are_read() {
    let maps = get_process_maps(b"  AbC-FFFFFFFFFFFFFFFF\tr-xp\t0\t00:00 0\tname\n").unwrap();
    assert_eq!(maps[0].range, (0xabc, u64::MAX));
}

#[test]
fn malformed_lines_make_the_listing_unreadable() {
    for bad in [
        &b"zzz-2000 r-xp 0 00:00 0 /x\n"[..],
        b"1000 r-xp 0 00:00 0 /x\n",
        b"1000- r-xp 0 00:00 0 /x\n",
        b"-2000 r-xp 0 00:00 0 /x\n",
        b"1000-2000 r-x 0 00:00 0 /x\n",
        b"1000-2000 r-xp 0g 00:00 0 /x\n",
        b"1000-2000 r-xp\n",
        b"10000000000000000-2000 r-xp 0 00:00 0 /x\n",
        b" \n",
    ] {
        assert_eq!(get_process_maps(bad).err(), Some(DebugError::MemoryReadError));
    }
}

#[test]
fn one_bad_line_spoils_a_good_listing() {
    let mut text = LISTING.as_bytes().to_vec();
    text.extend_from_slice(b"garbage\n");
    assert!(get_process_maps(&text).is_err());
}

#[test]
fn load_shift_of_a_pie_is_start_less_offset() {
    let maps = get_process_maps(LISTING.as_bytes()).unwrap();
    assert_eq!(dynamic_load_shift(ElfType::Dynamic, &maps, b"/home/user/a.out"), Some(0x555555554000));
}

#[test]
fn non_pie_has_no_load_shift() {
    let maps = get_process_maps(b"00400000-00401000 r--p 00000000 fd:01 1 /a.out\n00401000-00402000 r-xp 00001000 fd:01 1 /a.out\n").unwrap();
    assert_eq!(dynamic_load_shift(ElfType::Executable, &maps, b"/a.out"), Some(0));
    assert_eq!(dynamic_load_shift(ElfType::Executable, &Vec::new(), b"/a.out"), Some(0));
}

#[test]
fn load_shift_needs_an_executable_mapping_of_the_file() {
    let maps = get_process_maps(LISTING.as_bytes()).unwrap();
    assert_eq!(dynamic_load_shift(ElfType::Dynamic, &maps, b"/home/user/b.out"), None);
    let data_only = vec![MemoryMap {
        name: b"/a.out".to_vec(),
        range: (0x1000, 0x2000),
        permissions: MapBits { r: true, w: true, x: false, p: true },
        offset: 0,
    }];
    assert_eq!(dynamic_load_shift(ElfType::Dynamic, &data_only, b"/a.out"), None);
}

#[test]
fn load_shift_below_zero_is_none() {
    let odd = vec![MemoryMap {
        name: b"/a.out".to_vec(),
        range: (0x1000, 0x2000),
        permissions: MapBits { r: true, w: false, x: true, p: true },
        offset: 0x3000,
    }];
    assert_eq!(dynamic_load_shift(ElfType::Dynamic, &odd, b"/a.out"), None);
}
