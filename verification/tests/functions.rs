use threebody::functions::{
    clone_name, label_of, parse_functions, FunctionDie, FunctionIndex, FunctionRange, FunctionScan,
    UnitDies, TAG_CLASS_TYPE, TAG_NAMESPACE, TAG_STRUCTURE_TYPE, TAG_SUBPROGRAM,
};

const TAG_COMPILE_UNIT: u16 = 0x11;
const TAG_LEXICAL_BLOCK: u16 = 0x0b;

fn die(offset: usize, depth: usize, tag: u16) -> FunctionDie {
    FunctionDie {
        offset,
        depth,
        tag,
        name: None,
        declaration: false,
        specification: None,
        ranges: None,
        low_pc: None,
        high_pc: None,
    }
}

fn named(offset: usize, depth: usize, tag: u16, name: &[u8]) -> FunctionDie {
    FunctionDie { name: Some(name.to_vec()), ..die(offset, depth, tag) }
}

fn function(offset: usize, depth: usize, low: u64, size: u64) -> FunctionDie {
    FunctionDie { low_pc: Some(low), high_pc: Some(size), ..die(offset, depth, TAG_SUBPROGRAM) }
}

#[test]
fn range_contains_its_start_and_not_its_end() {
    let r = FunctionRange { start: 0x10, end: 0x20 };
    assert!(r.contains(0x10));
    assert!(r.contains(0x1f));
    assert!(!r.contains(0x20));
    assert!(!r.contains(0x0f));
}

#[test]
fn get_function_finds_the_covering_range_of_the_unit() {
    let mut index = FunctionIndex::new();
    index.insert_function(FunctionRange { start: 0x1000, end: 0x1040 }, 0x2d, 0, None);
    index.insert_function(FunctionRange { start: 0x1040, end: 0x1080 }, 0x5a, 0, Some(b"ns".to_vec()));
    index.insert_function(FunctionRange { start: 0x2000, end: 0x2010 }, 0x99, 0x100, None);
    assert_eq!(index.get_function(0x1000, 0), Some(0x2d));
    assert_eq!(index.get_function(0x103f, 0), Some(0x2d));
    assert_eq!(index.get_function(0x1040, 0), Some(0x5a));
    assert_eq!(index.get_function(0x1080, 0), None);
    assert_eq!(index.get_function(0x2000, 0), None);
    assert_eq!(index.get_function(0x2000, 0x100), Some(0x99));
    assert_eq!(index.get_function(0x1000, 0x555), None);
    assert_eq!(index.find_range(0x1050, 0), Some(FunctionRange { start: 0x1040, end: 0x1080 }));
    assert_eq!(index.direct_address(0x1040), Some(0x5a));
    assert_eq!(index.direct_address(0x1041), None);
    assert_eq!(index.parent_of(0x5a), Some(b"ns".to_vec()));
    assert_eq!(index.parent_of(0x2d), None);
}

#[test]
fn every_covered_line_address_resolves_to_a_function() {
    let unit = UnitDies {
        offset: 0,
        dies: vec![die(0xb, 0, TAG_COMPILE_UNIT), function(0x2d, 1, 0x1000, 0x30), function(0x60, 1, 0x1030, 0x10)],
    };
    let index = parse_functions(&vec![unit]);
    for a in [0x1000u64, 0x1004, 0x102f, 0x1030, 0x103f] {
        assert!(index.get_function(a, 0).is_some());
    }
}

#[test]
fn top_level_function_has_no_parent() {
    let unit = UnitDies {
        offset: 0,
        dies: vec![named(0xb, 0, TAG_COMPILE_UNIT, b"main.c"), function(0x2d, 1, 0x1149, 0x20)],
    };
    let index = parse_functions(&vec![unit]);
    assert_eq!(index.get_function(0x1150, 0), Some(0x2d));
    assert_eq!(index.parent_of(0x2d), None);
}

#[test]
fn function_in_a_namespace_has_it_as_parent() {
    let unit = UnitDies {
        offset: 0x40,
        dies: vec![
            die(0x4b, 0, TAG_COMPILE_UNIT),
            named(0x60, 1, TAG_NAMESPACE, b"outer"),
            named(0x70, 2, TAG_STRUCTURE_TYPE, b"Shape"),
            function(0x80, 3, 0x2000, 8),
            function(0x90, 2, 0x2010, 8),
            function(0xa0, 1, 0x2020, 8),
        ],
    };
    let index = parse_functions(&vec![unit]);
    assert_eq!(index.parent_of(0x80), Some(b"Shape".to_vec()));
    assert_eq!(index.parent_of(0x90), Some(b"outer".to_vec()));
    assert_eq!(index.parent_of(0xa0), None);
    assert_eq!(index.get_function(0x2012, 0x40), Some(0x90));
}

#[test]
fn function_in_a_block_of_a_class_has_no_parent() {
    let unit = UnitDies {
        offset: 0,
        dies: vec![
            die(0xb, 0, TAG_COMPILE_UNIT),
            named(0x20, 1, TAG_CLASS_TYPE, b"Widget"),
            die(0x30, 2, TAG_LEXICAL_BLOCK),
            function(0x40, 3, 0x3000, 4),
        ],
    };
    let index = parse_functions(&vec![unit]);
    assert_eq!(index.parent_of(0x40), None);
}

#[test]
fn specification_takes_the_parent_of_the_declaration() {
    let declaration = FunctionDie { declaration: true, ..die(0x30, 2, TAG_SUBPROGRAM) };
    let definition = FunctionDie { specification: Some(0x30), ..function(0x90, 1, 0x4000, 0x10) };
    let stray = FunctionDie { specification: Some(0x999), ..function(0xa0, 1, 0x4010, 0x10) };
    let unit = UnitDies {
        offset: 0,
        dies: vec![
            die(0xb, 0, TAG_COMPILE_UNIT),
            named(0x20, 1, TAG_CLASS_TYPE, b"Widget"),
            declaration,
            definition,
            stray,
        ],
    };
    let index = parse_functions(&vec![unit]);
    assert_eq!(index.get_function(0x4000, 0), Some(0x90));
    assert_eq!(index.parent_of(0x90), Some(b"Widget".to_vec()));
    assert_eq!(index.parent_of(0xa0), None);
    assert_eq!(index.direct_address(0x30 as u64), None);
}

#[test]
fn declarations_carry_over_to_later_units() {
    let mut scan = FunctionScan::new();
    let declaration = FunctionDie { declaration: true, ..die(0x30, 2, TAG_SUBPROGRAM) };
    scan.scan_unit(&UnitDies {
        offset: 0,
        dies: vec![die(0xb, 0, TAG_COMPILE_UNIT), named(0x20, 1, TAG_NAMESPACE, b"api"), declaration],
    });
    let definition = FunctionDie { specification: Some(0x30), ..function(0x120, 1, 0x5000, 0x10) };
    scan.scan_unit(&UnitDies { offset: 0x100, dies: vec![die(0x10b, 0, TAG_COMPILE_UNIT), definition] });
    let index = scan.finish();
    assert_eq!(index.parent_of(0x120), Some(b"api".to_vec()));
    assert_eq!(index.get_function(0x5008, 0x100), Some(0x120));
}

#[test]
fn ranges_attribute_wins_over_low_and_high_pc() {
    let split = FunctionDie {
        ranges: Some(vec![
            FunctionRange { start: 0x6000, end: 0x6010 },
            FunctionRange { start: 0x7000, end: 0x7004 },
        ]),
        ..function(0x2d, 1, 0x9000, 0x10)
    };
    let index = parse_functions(&vec![UnitDies { offset: 0, dies: vec![die(0xb, 0, TAG_COMPILE_UNIT), split] }]);
    assert_eq!(index.get_function(0x6008, 0), Some(0x2d));
    assert_eq!(index.get_function(0x7003, 0), Some(0x2d));
    assert_eq!(index.get_function(0x9000, 0), None);
}

#[test]
fn subprogram_without_addresses_is_skipped() {
    let bare = die(0x2d, 1, TAG_SUBPROGRAM);
    let no_size = FunctionDie { low_pc: Some(0x1000), ..die(0x40, 1, TAG_SUBPROGRAM) };
    let no_start = FunctionDie { high_pc: Some(0x10), ..die(0x50, 1, TAG_SUBPROGRAM) };
    let overflow = function(0x60, 1, u64::MAX, 2);
    let index = parse_functions(&vec![UnitDies {
        offset: 0,
        dies: vec![die(0xb, 0, TAG_COMPILE_UNIT), bare, no_size, no_start, overflow],
    }]);
    assert_eq!(index.find_range(0x1000, 0), None);
    assert_eq!(index.direct_address(0x1000), None);
    assert_eq!(index.direct_address(u64::MAX), None);
    assert_eq!(index.parent_of(0x2d), None);
}

#[test]
fn labels_come_from_namespaces_structures_and_classes() {
    assert_eq!(label_of(&named(0, 0, TAG_NAMESPACE, b"ns")), Some(b"ns".to_vec()));
    assert_eq!(label_of(&named(0, 0, TAG_STRUCTURE_TYPE, b"S")), Some(b"S".to_vec()));
    assert_eq!(label_of(&named(0, 0, TAG_CLASS_TYPE, b"C")), Some(b"C".to_vec()));
    assert_eq!(label_of(&named(0, 0, TAG_NAMESPACE, b"")), None);
    assert_eq!(label_of(&die(0, 0, TAG_NAMESPACE)), None);
    assert_eq!(label_of(&named(0, 0, TAG_SUBPROGRAM, b"f")), None);
    assert_eq!(clone_name(&Some(b"x".to_vec())), Some(b"x".to_vec()));
    assert_eq!(clone_name(&None), None);
}
