use threebody::error::DebugError;
use threebody::registers::{
    match_register, set_register_value, store_register, Register, Registers, RA, RAX, RBP, RSP,
};
use threebody::unwind::{
    get_cfa, move_by, unwind_register, unwind_registers, CfaRule, CfaSource, ExprRef, Fetch,
    RegisterRule, Resolved, RuleFor,
};

fn callee() -> Registers {
    let mut regs = Registers::zero();
    regs.rsp = 0x7ffd_0000_1000;
    regs.rbp = 0x7ffd_0000_1040;
    regs.rip = 0x5555_5555_5160;
    regs.rbx = 0xb0b;
    regs
}

#[test]
fn registers_are_found_by_their_dwarf_numbers() {
    let mut regs = Registers::zero();
    for n in 0..17u16 {
        assert!(store_register(n, &mut regs, 100 + n as u64));
    }
    assert_eq!(regs.rax, 100);
    assert_eq!(regs.rdx, 101);
    assert_eq!(regs.rcx, 102);
    assert_eq!(regs.rbx, 103);
    assert_eq!(regs.rsi, 104);
    assert_eq!(regs.rdi, 105);
    assert_eq!(regs.rbp, 106);
    assert_eq!(regs.rsp, 107);
    assert_eq!(regs.r8, 108);
    assert_eq!(regs.r15, 115);
    assert_eq!(regs.rip, 116);
    for n in 0..17u16 {
        assert_eq!(match_register(n, &regs), Some(100 + n as u64));
    }
    assert_eq!(match_register(17, &regs), None);
    assert!(!store_register(17, &mut regs, 1));
    assert_eq!((RAX, RBP, RSP, RA), (0, 6, 7, 16));
}

#[test]
fn set_register_value_changes_one_register() {
    let mut regs = callee();
    set_register_value(&mut regs, Register::RIp(0x1149));
    assert_eq!(regs.rip, 0x1149);
    set_register_value(&mut regs, Register::RAx(7));
    set_register_value(&mut regs, Register::R12(12));
    assert_eq!(regs, Registers { rip: 0x1149, rax: 7, r12: 12, ..callee() });
}

#[test]
fn move_by_wraps_around() {
    assert_eq!(move_by(0x1000, -8), 0xff8);
    assert_eq!(move_by(0x1000, 16), 0x1010);
    assert_eq!(move_by(0, -1), u64::MAX);
    assert_eq!(move_by(u64::MAX, 1), 0);
    assert_eq!(move_by(5, i64::MIN), 5 + (1u64 << 63));
    assert_eq!(move_by(5, i64::MAX), 5 + i64::MAX as u64);
}

#[test]
fn cfa_from_register_and_offset() {
    let rule = CfaRule::RegisterAndOffset { register: RSP, offset: 8 };
    assert_eq!(get_cfa(&rule, &callee()), Ok(CfaSource::Value(0x7ffd_0000_1008)));
    let rule = CfaRule::RegisterAndOffset { register: RBP, offset: 16 };
    assert_eq!(get_cfa(&rule, &callee()), Ok(CfaSource::Value(0x7ffd_0000_1050)));
}

#[test]
fn cfa_from_an_expression_has_to_be_evaluated() {
    let e = ExprRef { offset: 0x30, length: 5 };
    assert_eq!(get_cfa(&CfaRule::Expression(e), &callee()), Ok(CfaSource::Evaluate(e)));
}

#[test]
fn cfa_from_an_unknown_register_is_unsupported() {
    let rule = CfaRule::RegisterAndOffset { register: 33, offset: 0 };
    assert_eq!(get_cfa(&rule, &callee()), Err(DebugError::UnsupportedRegisterRule));
}

#[test]
fn every_rule_has_its_fetch() {
    let regs = callee();
    let cfa = 0x7ffd_0000_1010;
    let e = ExprRef { offset: 1, length: 2 };
    assert_eq!(unwind_register(&RegisterRule::Offset(-8), cfa, &regs), Ok(Fetch::Memory(cfa - 8)));
    assert_eq!(
        unwind_register(&RegisterRule::ValOffset(-16), cfa, &regs),
        Ok(Fetch::Ready(Resolved::Value(cfa - 16)))
    );
    assert_eq!(
        unwind_register(&RegisterRule::Register(3), cfa, &regs),
        Ok(Fetch::Ready(Resolved::Value(0xb0b)))
    );
    assert_eq!(
        unwind_register(&RegisterRule::Expression(e), cfa, &regs),
        Ok(Fetch::Evaluate { expression: e, dereference: true })
    );
    assert_eq!(
        unwind_register(&RegisterRule::ValExpression(e), cfa, &regs),
        Ok(Fetch::Evaluate { expression: e, dereference: false })
    );
    assert_eq!(
        unwind_register(&RegisterRule::Constant(42), cfa, &regs),
        Ok(Fetch::Ready(Resolved::Value(42)))
    );
    assert_eq!(unwind_register(&RegisterRule::SameValue, cfa, &regs), Ok(Fetch::Ready(Resolved::Unchanged)));
    assert_eq!(unwind_register(&RegisterRule::Undefined, cfa, &regs), Ok(Fetch::Ready(Resolved::Unknown)));
    assert_eq!(
        unwind_register(&RegisterRule::Architectural, cfa, &regs),
        Err(DebugError::UnsupportedRegisterRule)
    );
    assert_eq!(
        unwind_register(&RegisterRule::Register(40), cfa, &regs),
        Err(DebugError::UnsupportedRegisterRule)
    );
}

#[test]
fn default_rules_restore_the_caller() {
    let regs = callee();
    let cfa = 0x7ffd_0000_1010;
    let rules = vec![
        RuleFor { register: RBP, rule: RegisterRule::Offset(-16) },
        RuleFor { register: RA, rule: RegisterRule::Offset(-8) },
    ];
    assert_eq!(unwind_register(&rules[1].rule, cfa, &regs), Ok(Fetch::Memory(cfa - 8)));
    let fetched = vec![Ok(0x7ffd_0000_2000), Ok(0x5555_5555_5199)];
    let caller = unwind_registers(&rules, cfa, &regs, &fetched).unwrap();
    assert_eq!(caller.regs.rip, 0x5555_5555_5199);
    assert_eq!(caller.regs.rsp, cfa);
    assert_eq!(caller.regs.rbp, 0x7ffd_0000_2000);
    assert_eq!(caller.regs.rbx, 0xb0b);
    assert!(caller.undefined.is_empty());
}

#[test]
fn rules_read_the_callee_and_write_the_caller() {
    let regs = callee();
    let rules = vec![
        RuleFor { register: 3, rule: RegisterRule::Constant(1) },
        RuleFor { register: 0, rule: RegisterRule::Register(3) },
    ];
    let caller = unwind_registers(&rules, 0x100, &regs, &vec![Ok(0), Ok(0)]).unwrap();
    assert_eq!(caller.regs.rbx, 1);
    assert_eq!(caller.regs.rax, 0xb0b);
}

#[test]
fn undefined_and_same_value_leave_the_register() {
    let regs = callee();
    let rules = vec![
        RuleFor { register: 3, rule: RegisterRule::Undefined },
        RuleFor { register: RBP, rule: RegisterRule::SameValue },
        RuleFor { register: 0, rule: RegisterRule::Undefined },
    ];
    let caller = unwind_registers(&rules, 0x100, &regs, &Vec::new()).unwrap();
    assert_eq!(caller.regs.rbx, 0xb0b);
    assert_eq!(caller.regs.rbp, regs.rbp);
    assert_eq!(caller.undefined, vec![3, 0]);
}

#[test]
fn a_rule_for_the_stack_pointer_overrides_the_frame_address() {
    let rules = vec![RuleFor { register: RSP, rule: RegisterRule::ValOffset(32) }];
    let caller = unwind_registers(&rules, 0x100, &callee(), &vec![Ok(0)]).unwrap();
    assert_eq!(caller.regs.rsp, 0x120);
}

#[test]
fn a_rule_for_an_unknown_register_changes_nothing() {
    let rules = vec![RuleFor { register: 17, rule: RegisterRule::Constant(9) }];
    let caller = unwind_registers(&rules, 0x100, &callee(), &vec![Ok(0)]).unwrap();
    assert_eq!(caller.regs, Registers { rsp: 0x100, ..callee() });
}

#[test]
fn a_failed_fetch_fails_the_unwind() {
    let rules = vec![
        RuleFor { register: RBP, rule: RegisterRule::Constant(1) },
        RuleFor { register: RA, rule: RegisterRule::Offset(-8) },
    ];
    let fetched = vec![Ok(0), Err(DebugError::MemoryReadError)];
    assert_eq!(unwind_registers(&rules, 0x100, &callee(), &fetched).err(), Some(DebugError::MemoryReadError));
    let missing = vec![Ok(0)];
    assert_eq!(unwind_registers(&rules, 0x100, &callee(), &missing).err(), Some(DebugError::MemoryReadError));
    let corrupt = vec![Ok(0), Err(DebugError::DwarfCorruption)];
    assert_eq!(unwind_registers(&rules, 0x100, &callee(), &corrupt).err(), Some(DebugError::DwarfCorruption));
}

#[test]
fn an_unsupported_rule_fails_the_unwind() {
    let rules = vec![RuleFor { register: RBP, rule: RegisterRule::Architectural }];
    assert_eq!(
        unwind_registers(&rules, 0x100, &callee(), &vec![Ok(0)]).err(),
        Some(DebugError::UnsupportedRegisterRule)
    );
}
