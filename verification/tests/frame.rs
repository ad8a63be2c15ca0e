use threebody::error::DebugError;
use threebody::expr::Location;
use threebody::frame::{
    check_for_main, extract_function_info, extract_variables, get_loclist_location, locate_frame,
    push_failed_frame, push_frame, visible_entries, CallStack, FrameLookup, Function,
    LocationKind, LocationListEntry, SubprogramInfo, VariableDie, TAG_FORMAL_PARAMETER,
    TAG_INLINED_SUBROUTINE, TAG_VARIABLE,
};
use threebody::functions::{FunctionIndex, FunctionRange, TAG_SUBPROGRAM};
use threebody::lines::LineAddresses;
use threebody::source::{SourceFile, SourceIndex, SourceMap};

const TAG_LEXICAL_BLOCK: u16 = 0x0b;

fn frame(name: &[u8]) -> Function {
    Function {
        name: name.to_vec(),
        parameters: Vec::new(),
        variables: Vec::new(),
        return_type: None,
        debug_info_offset: Some(0x2d),
    }
}

fn entry(depth: usize, tag: u16, name: &[u8], decl_line: Option<u64>) -> VariableDie {
    VariableDie {
        offset: 0,
        depth,
        tag,
        name: Some(name.to_vec()),
        decl_line,
        type_ref: Some(0x40),
        const_value: None,
        location: LocationKind::Expression,
    }
}

#[test]
fn only_main_is_main() {
    assert!(check_for_main(&frame(b"main")));
    assert!(!check_for_main(&frame(b"name")));
    assert!(!check_for_main(&frame(b"main2")));
    assert!(!check_for_main(&frame(b"mai")));
    assert!(!check_for_main(&frame(b"")));
}

fn info(name: Option<&[u8]>, type_ref: Option<usize>, specification: Option<usize>) -> SubprogramInfo {
    SubprogramInfo {
        offset: 0x90,
        name: name.map(|n| n.to_vec()),
        type_ref,
        has_frame_base: true,
        specification,
    }
}

#[test]
fn function_info_comes_from_the_entry() {
    let (function, frame_base) = extract_function_info(&info(Some(b"foo"), Some(0x40), None), None).unwrap();
    assert_eq!(function.name, b"foo".to_vec());
    assert_eq!(function.return_type, Some(0x40));
    assert_eq!(function.debug_info_offset, Some(0x90));
    assert!(function.parameters.is_empty() && function.variables.is_empty());
    assert!(frame_base);
}

#[test]
fn function_info_follows_the_specification() {
    let declaration = SubprogramInfo { offset: 0x30, has_frame_base: false, ..info(Some(b"area"), Some(0x50), None) };
    let definition = info(None, None, Some(0x30));
    let (function, frame_base) = extract_function_info(&definition, Some(&declaration)).unwrap();
    assert_eq!(function.name, b"area".to_vec());
    assert_eq!(function.return_type, Some(0x50));
    assert_eq!(function.debug_info_offset, Some(0x90));
    assert!(frame_base);
}

#[test]
fn function_without_a_name_is_corrupt() {
    assert_eq!(extract_function_info(&info(None, None, None), None).err(), Some(DebugError::DwarfCorruption));
    assert_eq!(
        extract_function_info(&info(Some(b"x"), None, Some(0x30)), None).err(),
        Some(DebugError::DwarfCorruption)
    );
    let nameless = info(None, None, None);
    assert_eq!(
        extract_function_info(&info(Some(b"x"), None, Some(0x30)), Some(&nameless)).err(),
        Some(DebugError::DwarfCorruption)
    );
}

#[test]
fn variables_declared_later_are_not_visible() {
    let dies = vec![
        entry(2, TAG_FORMAL_PARAMETER, b"argc", Some(9)),
        entry(2, TAG_VARIABLE, b"early", Some(2)),
        entry(2, TAG_VARIABLE, b"here", Some(5)),
        entry(2, TAG_VARIABLE, b"late", Some(6)),
        VariableDie { decl_line: None, ..entry(2, TAG_VARIABLE, b"undated", None) },
    ];
    assert_eq!(visible_entries(&dies, 1, 5), vec![0, 1, 2, 4]);
}

#[test]
fn the_walk_ends_with_the_function() {
    let dies = vec![
        entry(2, TAG_VARIABLE, b"mine", Some(1)),
        entry(1, TAG_SUBPROGRAM, b"next", None),
        entry(2, TAG_VARIABLE, b"theirs", Some(1)),
    ];
    assert_eq!(visible_entries(&dies, 1, 10), vec![0]);
    assert_eq!(visible_entries(&dies, 2, 10), Vec::<usize>::new());
    assert_eq!(visible_entries(&Vec::new(), 0, 10), Vec::<usize>::new());
}

#[test]
fn variables_in_blocks_are_visible() {
    let dies = vec![
        entry(2, TAG_LEXICAL_BLOCK, b"", None),
        entry(3, TAG_VARIABLE, b"inner", Some(3)),
        entry(2, TAG_VARIABLE, b"outer", Some(2)),
    ];
    assert_eq!(visible_entries(&dies, 1, 4), vec![1, 2]);
}

#[test]
fn unwind_past_inlined_code() {
    let dies = vec![
        entry(2, TAG_VARIABLE, b"a", Some(1)),
        entry(2, TAG_INLINED_SUBROUTINE, b"helper", None),
        entry(3, TAG_FORMAL_PARAMETER, b"x", None),
        entry(3, TAG_LEXICAL_BLOCK, b"", None),
        entry(4, TAG_VARIABLE, b"tmp", Some(1)),
        entry(3, TAG_INLINED_SUBROUTINE, b"deeper", None),
        entry(4, TAG_VARIABLE, b"t2", Some(1)),
        entry(2, TAG_VARIABLE, b"b", Some(1)),
        entry(2, TAG_SUBPROGRAM, b"nested", None),
        entry(3, TAG_VARIABLE, b"n", Some(1)),
        entry(2, TAG_FORMAL_PARAMETER, b"p", None),
    ];
    assert_eq!(visible_entries(&dies, 1, 10), vec![0, 7, 10]);
}

#[test]
fn main_frame_carries_its_two_parameters() {
    let dies = vec![
        entry(2, TAG_FORMAL_PARAMETER, b"argc", None),
        entry(2, TAG_FORMAL_PARAMETER, b"argv", None),
        VariableDie { const_value: Some(5), name: None, ..entry(2, TAG_VARIABLE, b"", Some(3)) },
        entry(2, TAG_LEXICAL_BLOCK, b"", None),
    ];
    let picked = visible_entries(&dies, 1, 4);
    assert_eq!(picked, vec![0, 1, 2]);
    let locations = vec![Some(Location::Address(0x7ffd_0fec)), Some(Location::Register(4))];
    let mut function = frame(b"main");
    extract_variables(&mut function, &dies, &picked, &locations);
    assert_eq!(function.parameters.len(), 2);
    assert_eq!(function.parameters[0].name, b"argc".to_vec());
    assert_eq!(function.parameters[0].location, Some(Location::Address(0x7ffd_0fec)));
    assert_eq!(function.parameters[0].vtype, Some(0x40));
    assert_eq!(function.parameters[1].name, b"argv".to_vec());
    assert_eq!(function.parameters[1].location, Some(Location::Register(4)));
    assert_eq!(function.variables.len(), 1);
    assert_eq!(function.variables[0].name, b"0".to_vec());
    assert_eq!(function.variables[0].location, None);
    assert_eq!(function.variables[0].constant, Some(5));
    assert_eq!(function.name, b"main".to_vec());
}

#[test]
fn picked_entries_outside_the_list_are_ignored() {
    let dies = vec![entry(2, TAG_VARIABLE, b"v", None), entry(2, TAG_LEXICAL_BLOCK, b"", None)];
    let mut function = frame(b"f");
    extract_variables(&mut function, &dies, &vec![5, 1, 0], &Vec::new());
    assert_eq!(function.variables.len(), 1);
    assert_eq!(function.variables[0].name, b"v".to_vec());
    assert!(function.parameters.is_empty());
}

#[test]
fn location_list_entry_is_the_first_that_covers_the_pc() {
    let list = vec![
        LocationListEntry { range: FunctionRange { start: 0x10, end: 0x20 }, index: 0 },
        LocationListEntry { range: FunctionRange { start: 0x20, end: 0x40 }, index: 1 },
        LocationListEntry { range: FunctionRange { start: 0x18, end: 0x50 }, index: 2 },
    ];
    assert_eq!(get_loclist_location(&list, 0x10).unwrap().index, 0);
    assert_eq!(get_loclist_location(&list, 0x1c).unwrap().index, 0);
    assert_eq!(get_loclist_location(&list, 0x20).unwrap().index, 1);
    assert_eq!(get_loclist_location(&list, 0x44).unwrap().index, 2);
    assert_eq!(get_loclist_location(&list, 0x50), None);
    assert_eq!(get_loclist_location(&Vec::new(), 0x10), None);
}

const SHIFT: u64 = 0x555555554000;

fn indices() -> (LineAddresses, SourceMap, FunctionIndex) {
    let mut sources = SourceMap::new();
    let mut lines = LineAddresses::new();
    let at = sources.insert_file(SourceFile::new(b"main.c".to_vec(), 0x0), b"/src".to_vec(), 4);
    lines.insert(0x1160, at);
    lines.insert(0x1300, SourceIndex::new(b"/src".to_vec(), 0, 9));
    lines.insert(0x1400, SourceIndex::new(b"/gone".to_vec(), 0, 1));
    let mut functions = FunctionIndex::new();
    functions.insert_function(FunctionRange { start: 0x1149, end: 0x1180 }, 0x2d, 0, None);
    (lines, sources, functions)
}

#[test]
fn frame_in_known_code_is_found() {
    let (lines, sources, functions) = indices();
    assert_eq!(
        locate_frame(&lines, &sources, &functions, Some(SHIFT), SHIFT + 0x1160),
        FrameLookup::Found { address: 0x1160, line: 4, unit: 0, function: 0x2d }
    );
}

#[test]
fn address_in_a_dynamic_library_ends_the_stack() {
    let (lines, sources, functions) = indices();
    assert_eq!(
        locate_frame(&lines, &sources, &functions, Some(SHIFT), 0x7ffff7e12345),
        FrameLookup::Outside
    );
    assert_eq!(locate_frame(&lines, &sources, &functions, None, SHIFT + 0x1160), FrameLookup::Outside);
}

#[test]
fn line_without_function_or_file_is_inconsistent() {
    let (lines, sources, functions) = indices();
    assert_eq!(locate_frame(&lines, &sources, &functions, None, 0x1300), FrameLookup::Inconsistent);
    assert_eq!(locate_frame(&lines, &sources, &functions, None, 0x1400), FrameLookup::Inconsistent);
}

#[test]
fn call_stack_ends_at_main() {
    let mut stack = CallStack::new();
    assert!(!push_frame(&mut stack, frame(b"foo"), None, Some(0x7ffd_1000)));
    assert!(push_frame(&mut stack, frame(b"main"), Some(0x7ffd_1000), Some(0x7ffd_1040)));
    let names: Vec<_> = stack.0.iter().map(|f| f.name.clone()).collect();
    assert_eq!(names, vec![b"foo".to_vec(), b"main".to_vec()]);
}

#[test]
fn call_stack_ends_when_the_frame_address_stands_still() {
    let mut stack = CallStack::new();
    assert!(!push_frame(&mut stack, frame(b"a"), Some(0x1000), Some(0x1040)));
    assert!(push_frame(&mut stack, frame(b"b"), Some(0x1040), Some(0x1040)));
}

#[test]
fn call_stack_ends_where_no_unwind_information_is_found() {
    let mut stack = CallStack::new();
    assert!(push_frame(&mut stack, frame(b"a"), Some(0x1000), None));
    assert!(push_frame(&mut stack, frame(b"b"), None, None));
    assert_eq!(stack.0.len(), 2);
}

#[test]
fn failed_unwind_keeps_the_frames_and_marks_the_end() {
    let mut stack = CallStack::new();
    push_frame(&mut stack, frame(b"foo"), None, Some(1));
    push_failed_frame(&mut stack);
    assert_eq!(stack.0.len(), 2);
    assert_eq!(stack.0[0].name, b"foo".to_vec());
    assert_eq!(stack.0[1].name, b"unwind failed".to_vec());
    assert_eq!(stack.0[1].debug_info_offset, None);
}
