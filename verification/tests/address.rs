use threebody::address::{normal, to_runtime};

#[test]
fn normal_takes_off_the_load_shift() {
    assert_eq!(normal(0x555555555149, Some(0x555555554000)), 0x1149);
}

#[test]
fn normal_without_shift_keeps_the_address() {
    assert_eq!(normal(0x401136, None), 0x401136);
}

#[test]
fn to_runtime_adds_the_load_shift() {
    assert_eq!(to_runtime(0x1149, Some(0x555555554000)), 0x555555555149);
}

#[test]
fn link_runtime_round_trip() {
    let shift = Some(0x555555554000u64);
    for x in [0u64, 0x1149, 0xffff_ffff_ffff_ffff, 0xaaaa_aaaa_aaaa_b000] {
        assert_eq!(normal(to_runtime(x, shift), shift), x);
    }
}
