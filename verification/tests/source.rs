use threebody::lines::{index_unit, load_source, LineAddresses, LineRow, UnitLines};
use threebody::path::{decide_placement, place};
use threebody::source::{SourceFile, SourceIndex, SourceMap};

const DIR: &[u8] = b"/home/user/src";

#[test]
fn relative_directory_is_placed_below_the_compilation_directory() {
    let at = place(b"lib", b"util.c", DIR);
    assert_eq!(at.relative, b"lib/util.c".to_vec());
    assert_eq!(at.hash_dir, DIR.to_vec());
}

#[test]
fn empty_directory_keeps_the_file_name() {
    let at = place(b"", b"main.c", DIR);
    assert_eq!(at.relative, b"main.c".to_vec());
    assert_eq!(at.hash_dir, DIR.to_vec());
}

#[test]
fn absolute_directory_below_the_compilation_directory_is_made_relative() {
    let at = place(b"/home/user/src/lib", b"util.c", DIR);
    assert_eq!(at.relative, b"lib/util.c".to_vec());
    assert_eq!(at.hash_dir, DIR.to_vec());
    let same = place(DIR, b"main.c", DIR);
    assert_eq!(same.relative, b"main.c".to_vec());
    assert_eq!(same.hash_dir, DIR.to_vec());
}

#[test]
fn other_absolute_directory_is_a_group_of_its_own() {
    let at = place(b"/usr/include", b"stdio.h", DIR);
    assert_eq!(at.relative, b"stdio.h".to_vec());
    assert_eq!(at.hash_dir, b"/usr/include".to_vec());
    let sibling = place(b"/home/user/srcs", b"x.c", DIR);
    assert_eq!(sibling.relative, b"x.c".to_vec());
    assert_eq!(sibling.hash_dir, b"/home/user/srcs".to_vec());
}

#[test]
fn one_separator_stands_between_directory_and_name() {
    assert_eq!(place(b"a", b"b.c", DIR).relative, b"a/b.c".to_vec());
    assert_eq!(place(b"a/", b"b.c", DIR).relative, b"a/b.c".to_vec());
    assert_eq!(place(b"", b"b.c", DIR).relative, b"b.c".to_vec());
    assert_eq!(place(b"a", b"/b.c", DIR).relative, b"/b.c".to_vec());
}

#[test]
fn directories_are_compared_by_components() {
    let doubled = place(b"/home//user/src/lib", b"util.c", DIR);
    assert_eq!(doubled.relative, b"lib/util.c".to_vec());
    assert_eq!(doubled.hash_dir, DIR.to_vec());
    let slashed = place(b"/home/user/src/", b"main.c", DIR);
    assert_eq!(slashed.relative, b"main.c".to_vec());
    let longer = place(b"/home/user/srcs", b"x.c", DIR);
    assert_eq!(longer.hash_dir, b"/home/user/srcs".to_vec());
    let above = place(b"/home/user", b"x.c", DIR);
    assert_eq!(above.relative, b"x.c".to_vec());
    assert_eq!(above.hash_dir, b"/home/user".to_vec());
}

#[test]
fn placement_is_decided_from_what_was_found() {
    let below = decide_placement(false, true, b"lib/x.c".to_vec(), b"/src/lib", b"x.c", b"/src");
    assert_eq!((below.relative, below.hash_dir), (b"lib/x.c".to_vec(), b"/src".to_vec()));
    let relative = decide_placement(true, false, b"lib/x.c".to_vec(), b"lib", b"x.c", b"/src");
    assert_eq!((relative.relative, relative.hash_dir), (b"lib/x.c".to_vec(), b"/src".to_vec()));
    let other = decide_placement(false, false, Vec::new(), b"/usr", b"x.h", b"/src");
    assert_eq!((other.relative, other.hash_dir), (b"x.h".to_vec(), b"/usr".to_vec()));
}

#[test]
fn source_files_are_equal_when_both_parts_are() {
    let a = SourceFile::new(b"main.c".to_vec(), 0);
    assert!(a.same(&SourceFile::new(b"main.c".to_vec(), 0)));
    assert!(!a.same(&SourceFile::new(b"main.c".to_vec(), 0x40)));
    assert!(!a.same(&SourceFile::new(b"other.c".to_vec(), 0)));
    assert!(a.same(&a.clone()));
}

#[test]
fn source_index_new_orders_its_parts() {
    let at = SourceIndex::new(DIR.to_vec(), 1, 3);
    assert_eq!(at.line, 3);
    assert_eq!(at.hash_path, DIR.to_vec());
    assert_eq!(at.index, 1);
    assert!(at.same(&at.clone()));
    assert!(!at.same(&SourceIndex::new(DIR.to_vec(), 1, 4)));
    assert!(!at.same(&SourceIndex::new(DIR.to_vec(), 0, 3)));
    assert!(!at.same(&SourceIndex::new(b"/tmp".to_vec(), 1, 3)));
}

#[test]
fn insert_file_gives_stable_slots() {
    let mut map = SourceMap::new();
    let a = map.insert_file(SourceFile::new(b"main.c".to_vec(), 0), DIR.to_vec(), 10);
    let b = map.insert_file(SourceFile::new(b"other.c".to_vec(), 0), DIR.to_vec(), 20);
    let c = map.insert_file(SourceFile::new(b"main.c".to_vec(), 0), DIR.to_vec(), 30);
    let d = map.insert_file(SourceFile::new(b"main.c".to_vec(), 0x99), DIR.to_vec(), 40);
    let e = map.insert_file(SourceFile::new(b"main.c".to_vec(), 0), b"/tmp".to_vec(), 50);
    assert_eq!((a.index, a.line), (0, 10));
    assert_eq!((b.index, b.line), (1, 20));
    assert_eq!((c.index, c.line), (0, 30));
    assert_eq!((d.index, d.line), (2, 40));
    assert_eq!((e.index, e.line), (0, 50));
    assert_eq!(e.hash_path, b"/tmp".to_vec());
    assert_eq!(map.index_with_line(&b).unwrap().path, b"other.c".to_vec());
    assert_eq!(map.index_with_line(&d).unwrap().compile_unit, 0x99);
}

#[test]
fn get_file_finds_by_directory_and_path() {
    let mut map = SourceMap::new();
    map.insert_file(SourceFile::new(b"main.c".to_vec(), 7), DIR.to_vec(), 1);
    assert_eq!(map.get_file(DIR, b"main.c").unwrap().compile_unit, 7);
    assert!(map.get_file(DIR, b"none.c").is_none());
    assert!(map.get_file(b"/nowhere", b"main.c").is_none());
}

#[test]
fn index_with_line_misses_outside_the_list() {
    let mut map = SourceMap::new();
    map.insert_file(SourceFile::new(b"main.c".to_vec(), 0), DIR.to_vec(), 1);
    assert!(map.index_with_line(&SourceIndex::new(DIR.to_vec(), 1, 1)).is_none());
    assert!(map.index_with_line(&SourceIndex::new(b"/tmp".to_vec(), 0, 1)).is_none());
}

#[test]
fn line_addresses_map_both_ways() {
    let mut lines = LineAddresses::new();
    lines.insert(0x10, SourceIndex::new(DIR.to_vec(), 0, 1));
    lines.insert(0x14, SourceIndex::new(DIR.to_vec(), 0, 2));
    lines.insert(0x18, SourceIndex::new(DIR.to_vec(), 0, 2));
    assert_eq!(lines.get_line(0x14).unwrap().line, 2);
    assert!(lines.get_line(0x15).is_none());
    assert_eq!(lines.get_address(&SourceIndex::new(DIR.to_vec(), 0, 2)), Some(0x14));
    assert_eq!(lines.get_address(&SourceIndex::new(DIR.to_vec(), 0, 3)), None);
}

#[test]
fn every_position_found_for_an_address_has_an_address() {
    let mut lines = LineAddresses::new();
    for (a, l) in [(0x10u64, 1u64), (0x14, 2), (0x18, 2), (0x1c, 1)] {
        lines.insert(a, SourceIndex::new(DIR.to_vec(), 0, l));
    }
    for a in [0x10u64, 0x14, 0x18, 0x1c] {
        let position = lines.get_line(a).unwrap().clone();
        let back = lines.get_address(&position).unwrap();
        assert!(lines.get_line(back).unwrap().same(&position));
    }
}

#[test]
fn a_later_row_replaces_the_position_of_an_address() {
    let mut lines = LineAddresses::new();
    lines.insert(0x10, SourceIndex::new(DIR.to_vec(), 0, 1));
    lines.insert(0x10, SourceIndex::new(DIR.to_vec(), 0, 9));
    assert_eq!(lines.get_line(0x10).unwrap().line, 9);
    assert_eq!(lines.get_address(&SourceIndex::new(DIR.to_vec(), 0, 1)), None);
}

#[test]
fn get_source_file_goes_through_the_source_map() {
    let mut map = SourceMap::new();
    let at = map.insert_file(SourceFile::new(b"main.c".to_vec(), 3), DIR.to_vec(), 5);
    let mut lines = LineAddresses::new();
    lines.insert(0x10, at);
    lines.insert(0x20, SourceIndex::new(DIR.to_vec(), 4, 1));
    assert_eq!(lines.get_source_file(0x10, &map).unwrap().path, b"main.c".to_vec());
    assert!(lines.get_source_file(0x20, &map).is_none());
    assert!(lines.get_source_file(0x30, &map).is_none());
}

fn row(address: u64, line: Option<u64>, end_sequence: bool, file: &[u8]) -> LineRow {
    LineRow {
        address,
        end_sequence,
        line,
        directory: Vec::new(),
        file_name: file.to_vec(),
    }
}

#[test]
fn end_sequence_rows_do_not_populate_the_index() {
    let unit = UnitLines {
        offset: 0,
        comp_dir: DIR.to_vec(),
        rows: vec![
            row(0x10, Some(1), false, b"main.c"),
            row(0x20, Some(2), true, b"ghost.c"),
            row(0x30, None, false, b"noline.c"),
        ],
    };
    let (sources, lines) = load_source(&vec![unit]);
    assert!(lines.get_line(0x10).is_some());
    assert!(lines.get_line(0x20).is_none());
    assert!(lines.get_line(0x30).is_none());
    assert!(sources.get_file(DIR, b"ghost.c").is_none());
    assert!(sources.get_file(DIR, b"noline.c").is_none());
    assert!(sources.get_file(DIR, b"main.c").is_some());
}

#[test]
fn units_share_directories_but_not_files() {
    let first = UnitLines {
        offset: 0,
        comp_dir: DIR.to_vec(),
        rows: vec![row(0x10, Some(1), false, b"a.c"), row(0x14, Some(2), false, b"shared.h")],
    };
    let second = UnitLines {
        offset: 0x80,
        comp_dir: DIR.to_vec(),
        rows: vec![row(0x40, Some(7), false, b"shared.h")],
    };
    let (sources, lines) = load_source(&vec![first, second]);
    assert_eq!(lines.get_line(0x14).unwrap().index, 1);
    let later = lines.get_line(0x40).unwrap();
    assert_eq!((later.line, later.index), (7, 2));
    assert_eq!(sources.index_with_line(later).unwrap().compile_unit, 0x80);
}

#[test]
fn index_unit_adds_to_an_existing_index() {
    let mut sources = SourceMap::new();
    let mut lines = LineAddresses::new();
    sources.insert_file(SourceFile::new(b"a.c".to_vec(), 0), DIR.to_vec(), 1);
    let unit = UnitLines { offset: 0, comp_dir: DIR.to_vec(), rows: vec![row(0x10, Some(3), false, b"b.c")] };
    index_unit(&mut sources, &mut lines, &unit);
    assert_eq!(lines.get_line(0x10).unwrap().index, 1);
}
