use threebody::assembly::{
    align_pointer, disassemble_code, is_clean, lay_out, window_start, Decoded,
};
use threebody::error::DebugError;

/// `push rbp; mov rbp, rsp; pop rbp; ret`
const CODE: [u8; 6] = [0x55, 0x48, 0x89, 0xe5, 0x5d, 0xc3];

#[test]
fn clean_code_needs_no_alignment() {
    assert_eq!(align_pointer(0x1149, &CODE), Ok(0x1149));
}

#[test]
fn alignment_skips_bytes_that_do_not_decode() {
    let mut bytes = vec![0x06, 0x06];
    bytes.extend_from_slice(&CODE);
    assert_eq!(align_pointer(0x1000, &bytes), Ok(0x1002));
}

#[test]
fn alignment_gives_up_after_the_backscan() {
    let bytes = vec![0x06u8; 200];
    assert_eq!(align_pointer(0x1000, &bytes), Err(DebugError::MemoryReadError));
}

#[test]
fn no_bytes_decode_cleanly() {
    assert_eq!(align_pointer(0x1000, &[]), Ok(0x1000));
}

#[test]
fn invalid_instructions_are_spotted() {
    let ok = |ip: u64| Decoded { ip, length: 1, invalid: false, text: b"nop".to_vec() };
    let bad = Decoded { ip: 1, length: 1, invalid: true, text: b"(bad)".to_vec() };
    assert!(is_clean(&vec![ok(0), ok(1)]));
    assert!(!is_clean(&vec![ok(0), bad]));
    assert!(is_clean(&Vec::new()));
}

#[test]
fn window_starts_half_the_area_before_the_address() {
    assert_eq!(window_start(0x555555555149), 0x555555555149 - 1024);
    assert_eq!(window_start(1024), 0);
    assert_eq!(window_start(100), 0);
}

#[test]
fn listing_has_one_line_per_instruction() {
    let listing = disassemble_code(0x1149, &CODE).unwrap();
    assert_eq!(listing.pointer, 0x1149);
    assert_eq!(listing.addresses, vec![0x1149, 0x114a, 0x114d, 0x114e]);
    let text = String::from_utf8(listing.text).unwrap();
    let lines: Vec<&str> = text.lines().collect();
    assert_eq!(lines.len(), 4);
    assert_eq!(lines[0], "0x0000000000001149    push      rbp");
    assert_eq!(lines[1], "0x000000000000114a    mov       rbp,rsp");
    assert_eq!(lines[3], "0x000000000000114e    ret");
    assert!(text.ends_with('\n'));
}

#[test]
fn listing_starts_at_the_aligned_address() {
    let mut bytes = vec![0x06];
    bytes.extend_from_slice(&CODE);
    let listing = disassemble_code(0xffff_0000_0000_abc0, &bytes).unwrap();
    assert_eq!(listing.pointer, 0xffff_0000_0000_abc1);
    assert_eq!(listing.addresses[0], 0xffff_0000_0000_abc1);
    assert!(String::from_utf8(listing.text).unwrap().starts_with("0xffff00000000abc1    push"));
}

#[test]
fn listing_of_undecodable_bytes_fails() {
    assert_eq!(disassemble_code(0, &[0x06; 100]).err(), Some(DebugError::MemoryReadError));
}

#[test]
fn digits_of_long_numbers_are_grouped() {
    // mov rax, 0x1122334455667788
    let code = [0x48, 0xb8, 0x88, 0x77, 0x66, 0x55, 0x44, 0x33, 0x22, 0x11];
    let listing = disassemble_code(0x2000, &code).unwrap();
    assert_eq!(listing.addresses, vec![0x2000]);
    let text = String::from_utf8(listing.text).unwrap();
    assert!(text.starts_with("0x0000000000002000    mov       rax,"), "{}", text);
    assert!(text.contains("1122_3344_5566_7788"), "{}", text);
}

#[test]
fn alignment_finds_the_first_offset_that_decodes_cleanly() {
    // One stray byte, then clean code: offset 0 does not decode, offset 1 does.
    let mut bytes = vec![0x06];
    bytes.extend_from_slice(&CODE);
    assert_eq!(align_pointer(0x4000, &bytes), Ok(0x4001));
    let listing = disassemble_code(0x4000, &bytes).unwrap();
    assert_eq!(listing.pointer, 0x4001);
    assert_eq!(listing.addresses, vec![0x4001, 0x4002, 0x4005, 0x4006]);
}

#[test]
fn a_listing_is_laid_out_line_by_line() {
    let list = vec![
        Decoded { ip: 0x1149, length: 1, invalid: false, text: b"push      rbp".to_vec() },
        Decoded { ip: 0xdead_beef_0000_114a, length: 3, invalid: false, text: b"mov       rbp,rsp".to_vec() },
    ];
    let listing = lay_out(0x1149, &list);
    assert_eq!(listing.pointer, 0x1149);
    assert_eq!(listing.addresses, vec![0x1149, 0xdead_beef_0000_114a]);
    assert_eq!(
        String::from_utf8(listing.text).unwrap(),
        "0x0000000000001149    push      rbp\n0xdeadbeef0000114a    mov       rbp,rsp\n"
    );
    let nothing = lay_out(7, &Vec::new());
    assert_eq!((nothing.pointer, nothing.text.len(), nothing.addresses.len()), (7, 0, 0));
}
