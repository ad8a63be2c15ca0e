//! The call-frame unwinder: from the registers of a frame and the unwind row
//! that covers its address to the registers of the caller.
//!
//! The unwinder does not read memory. For every rule it says what has to be
//! fetched; the caller fetches it and hands the values in.

use vstd::prelude::*;
use crate::error::DebugError;
use crate::registers::{
    match_register, register_value, store_register, with_register, Registers, RA, RSP,
};

verus! {

/// An expression inside the `.eh_frame` section.
#[derive(PartialEq, Eq, Structural, Clone, Copy, Debug)]
pub struct ExprRef {
    pub offset: usize,
    pub length: usize,
}

/// How the canonical frame address of a frame is found.
#[derive(PartialEq, Eq, Structural, Clone, Copy, Debug)]
pub enum CfaRule {
    RegisterAndOffset { register: u16, offset: i64 },
    Expression(ExprRef),
}

/// How the caller's value of a register is found.
#[derive(PartialEq, Eq, Structural, Clone, Copy, Debug)]
pub enum RegisterRule {
    Undefined,
    SameValue,
    Offset(i64),
    ValOffset(i64),
    Register(u16),
    Expression(ExprRef),
    ValExpression(ExprRef),
    Architectural,
    Constant(u64),
}

/// The rule for one register.
#[derive(PartialEq, Eq, Structural, Clone, Copy, Debug)]
pub struct RuleFor {
    pub register: u16,
    pub rule: RegisterRule,
}

/// The unwind row that covers an address.
#[derive(Debug)]
pub struct UnwindInfo {
    pub cfa: CfaRule,
    pub rules: Vec<RuleFor>,
}

/// Where the canonical frame address comes from.
#[derive(PartialEq, Eq, Structural, Clone, Copy, Debug)]
pub enum CfaSource {
    Value(u64),
    /// The value of the expression, evaluated without a frame address.
    Evaluate(ExprRef),
}

/// What a rule gives without anything fetched.
#[derive(PartialEq, Eq, Structural, Clone, Copy, Debug)]
pub enum Resolved {
    Value(u64),
    /// The register keeps the value it has.
    Unchanged,
    /// The register has no recoverable value.
    Unknown,
}

/// What is needed to apply a rule.
#[derive(PartialEq, Eq, Structural, Clone, Copy, Debug)]
pub enum Fetch {
    /// Nothing: the rule resolves by itself.
    Ready(Resolved),
    /// The eight-byte word at the address.
    Memory(u64),
    /// The value of the expression, evaluated with the frame address; where
    /// `dereference` is set, the eight-byte word at that value.
    Evaluate { expression: ExprRef, dereference: bool },
}

/// Where the return address lies, seen from the frame address: in the word
/// just below it.
pub const RETURN_SLOT: i64 = -8;

/// `base` moved by the signed `offset`, modulo 2^64.
pub open spec fn moved(base: u64, offset: i64) -> u64 {
    let to = base + offset;
    if to < 0 {
        (to + 0x1_0000_0000_0000_0000) as u64
    } else if to > u64::MAX {
        (to - 0x1_0000_0000_0000_0000) as u64
    } else {
        to as u64
    }
}

/// Moves `base` by the signed `offset`, modulo 2^64.
pub fn move_by(base: u64, offset: i64) -> (to: u64)
    ensures
        to == moved(base, offset),
{
    if offset >= 0 {
        base.wrapping_add(offset as u64)
    } else {
        let below: u64 = (-(offset + 1)) as u64;
        base.wrapping_sub(below).wrapping_sub(1)
    }
}

/// Where the frame address comes from under `rule`: a register plus an
/// offset is computed at once, an expression has to be evaluated.
pub open spec fn cfa_of(rule: CfaRule, regs: Registers) -> Result<CfaSource, DebugError> {
    match rule {
        CfaRule::RegisterAndOffset { register, offset } => match register_value(regs, register) {
            Some(value) => Ok(CfaSource::Value(moved(value, offset))),
            None => Err(DebugError::UnsupportedRegisterRule),
        },
        CfaRule::Expression(e) => Ok(CfaSource::Evaluate(e)),
    }
}

/// Works out the canonical frame address, or says which expression gives it.
pub fn get_cfa(rule: &CfaRule, regs: &Registers) -> (cfa: Result<CfaSource, DebugError>)
    ensures
        cfa == cfa_of(*rule, *regs),
{
    match rule {
        CfaRule::RegisterAndOffset { register, offset } => match match_register(*register, regs) {
            Some(value) => Ok(CfaSource::Value(move_by(value, *offset))),
            None => Err(DebugError::UnsupportedRegisterRule),
        },
        CfaRule::Expression(e) => Ok(CfaSource::Evaluate(*e)),
    }
}

/// What `rule` needs, for the frame address `cfa` and the registers of the
/// frame being unwound.
pub open spec fn rule_fetch(rule: RegisterRule, cfa: u64, regs: Registers) -> Result<
    Fetch,
    DebugError,
> {
    match rule {
        RegisterRule::Undefined => Ok(Fetch::Ready(Resolved::Unknown)),
        RegisterRule::SameValue => Ok(Fetch::Ready(Resolved::Unchanged)),
        RegisterRule::Offset(o) => Ok(Fetch::Memory(moved(cfa, o))),
        RegisterRule::ValOffset(o) => Ok(Fetch::Ready(Resolved::Value(moved(cfa, o)))),
        RegisterRule::Register(r) => match register_value(regs, r) {
            Some(value) => Ok(Fetch::Ready(Resolved::Value(value))),
            None => Err(DebugError::UnsupportedRegisterRule),
        },
        RegisterRule::Expression(e) => Ok(Fetch::Evaluate { expression: e, dereference: true }),
        RegisterRule::ValExpression(e) => Ok(
            Fetch::Evaluate { expression: e, dereference: false },
        ),
        RegisterRule::Architectural => Err(DebugError::UnsupportedRegisterRule),
        RegisterRule::Constant(c) => Ok(Fetch::Ready(Resolved::Value(c))),
    }
}

/// Says what one rule needs.
pub fn unwind_register(rule: &RegisterRule, cfa: u64, regs: &Registers) -> (fetch: Result<
    Fetch,
    DebugError,
>)
    ensures
        fetch == rule_fetch(*rule, cfa, *regs),
{
    match rule {
        RegisterRule::Undefined => Ok(Fetch::Ready(Resolved::Unknown)),
        RegisterRule::SameValue => Ok(Fetch::Ready(Resolved::Unchanged)),
        RegisterRule::Offset(o) => Ok(Fetch::Memory(move_by(cfa, *o))),
        RegisterRule::ValOffset(o) => Ok(Fetch::Ready(Resolved::Value(move_by(cfa, *o)))),
        RegisterRule::Register(r) => match match_register(*r, regs) {
            Some(value) => Ok(Fetch::Ready(Resolved::Value(value))),
            None => Err(DebugError::UnsupportedRegisterRule),
        },
        RegisterRule::Expression(e) => Ok(Fetch::Evaluate { expression: *e, dereference: true }),
        RegisterRule::ValExpression(e) => Ok(
            Fetch::Evaluate { expression: *e, dereference: false },
        ),
        RegisterRule::Architectural => Err(DebugError::UnsupportedRegisterRule),
        RegisterRule::Constant(c) => Ok(Fetch::Ready(Resolved::Value(*c))),
    }
}

/// The registers of the caller as far as they are known.
#[derive(Debug)]
pub struct RegisterFile {
    pub regs: Registers,
    /// The registers that have no recoverable value, in the order of their
    /// rules.
    pub undefined: Vec<u16>,
}

/// A [`RegisterFile`] as a value.
pub ghost struct Unwound {
    pub regs: Registers,
    pub undefined: Seq<u16>,
}

impl View for RegisterFile {
    type V = Unwound;

    open spec fn view(&self) -> Unwound {
        Unwound { regs: self.regs, undefined: self.undefined@ }
    }
}

/// What was fetched for rule `i`; a missing value counts as a failed read.
pub open spec fn fetched_for(fetched: Seq<Result<u64, DebugError>>, i: int) -> Result<
    u64,
    DebugError,
> {
    if 0 <= i < fetched.len() {
        fetched[i]
    } else {
        Err(DebugError::MemoryReadError)
    }
}

/// The caller's registers after one rule.
///
/// The rule is read against `callee`, the registers of the frame being
/// unwound, and written to `state`. A value sets the register, `SameValue`
/// leaves it, `Undefined` leaves it and marks it. A rule that needs a fetch
/// takes the fetched value and fails as the fetch failed.
pub open spec fn apply_rule(
    state: Unwound,
    rule: RuleFor,
    cfa: u64,
    callee: Registers,
    fetched: Result<u64, DebugError>,
) -> Result<Unwound, DebugError> {
    match rule_fetch(rule.rule, cfa, callee) {
        Err(e) => Err(e),
        Ok(Fetch::Ready(Resolved::Value(v))) => Ok(
            Unwound { regs: with_register(state.regs, rule.register, v), ..state },
        ),
        Ok(Fetch::Ready(Resolved::Unchanged)) => Ok(state),
        Ok(Fetch::Ready(Resolved::Unknown)) => Ok(
            Unwound { undefined: state.undefined.push(rule.register), ..state },
        ),
        Ok(_) => match fetched {
            Ok(v) => Ok(Unwound { regs: with_register(state.regs, rule.register, v), ..state }),
            Err(e) => Err(e),
        },
    }
}

/// The caller's registers after the first `n` rules, or the first failure.
pub open spec fn apply_rules(
    state: Unwound,
    rules: Seq<RuleFor>,
    cfa: u64,
    callee: Registers,
    fetched: Seq<Result<u64, DebugError>>,
    n: int,
) -> Result<Unwound, DebugError>
    decreases n,
{
    if n <= 0 {
        Ok(state)
    } else {
        match apply_rules(state, rules, cfa, callee, fetched, n - 1) {
            Ok(s) => apply_rule(s, rules[n - 1], cfa, callee, fetched_for(fetched, n - 1)),
            Err(e) => Err(e),
        }
    }
}

/// The caller's registers: those of the callee with the stack pointer set to
/// the frame address, and then every rule of the row applied in order.
pub open spec fn unwound(
    callee: Registers,
    cfa: u64,
    rules: Seq<RuleFor>,
    fetched: Seq<Result<u64, DebugError>>,
) -> Result<Unwound, DebugError> {
    apply_rules(
        Unwound { regs: with_register(callee, RSP, cfa), undefined: Seq::empty() },
        rules,
        cfa,
        callee,
        fetched,
        rules.len() as int,
    )
}

/// Restores the caller's registers from the rules of a row.
///
/// `fetched` holds, for every rule in order, what the caller of this
/// function fetched for it; the entry of a rule that needs nothing is not
/// read.
pub fn unwind_registers(
    rules: &Vec<RuleFor>,
    cfa: u64,
    regs: &Registers,
    fetched: &Vec<Result<u64, DebugError>>,
) -> (caller: Result<RegisterFile, DebugError>)
    ensures
        caller is Ok <==> unwound(*regs, cfa, rules@, fetched@) is Ok,
        caller matches Ok(file) ==> unwound(*regs, cfa, rules@, fetched@) == Ok::<
            Unwound,
            DebugError,
        >(file@),
        caller matches Err(e) ==> unwound(*regs, cfa, rules@, fetched@) == Err::<
            Unwound,
            DebugError,
        >(e),
{
    let mut file = RegisterFile { regs: *regs, undefined: Vec::new() };
    store_register(RSP, &mut file.regs, cfa);
    let ghost start = file@;
    let mut i: usize = 0;
    while i < rules.len()
        invariant
            i <= rules@.len(),
            start == (Unwound { regs: with_register(*regs, RSP, cfa), undefined: Seq::empty() }),
            apply_rules(start, rules@, cfa, *regs, fetched@, i as int) == Ok::<
                Unwound,
                DebugError,
            >(file@),
        decreases rules@.len() - i,
    {
        let rule = rules[i];
        let got: Result<u64, DebugError> = if i < fetched.len() {
            fetched[i]
        } else {
            Err(DebugError::MemoryReadError)
        };
        let ghost before = file@;
        let resolved = match unwind_register(&rule.rule, cfa, regs) {
            Err(e) => {
                proof {
                    assert(apply_rules(start, rules@, cfa, *regs, fetched@, i + 1) == Err::<
                        Unwound,
                        DebugError,
                    >(e));
                    lemma_apply_rules_fails(
                        start,
                        rules@,
                        cfa,
                        *regs,
                        fetched@,
                        i + 1,
                        rules@.len() as int,
                    );
                }
                return Err(e);
            },
            Ok(Fetch::Ready(r)) => r,
            Ok(_) => match got {
                Ok(v) => Resolved::Value(v),
                Err(e) => {
                    proof {
                        assert(apply_rules(start, rules@, cfa, *regs, fetched@, i + 1) == Err::<
                            Unwound,
                            DebugError,
                        >(e));
                        lemma_apply_rules_fails(
                            start,
                            rules@,
                            cfa,
                            *regs,
                            fetched@,
                            i + 1,
                            rules@.len() as int,
                        );
                    }
                    return Err(e);
                },
            },
        };
        match resolved {
            Resolved::Value(v) => {
                store_register(rule.register, &mut file.regs, v);
            },
            Resolved::Unchanged => {},
            Resolved::Unknown => {
                file.undefined.push(rule.register);
            },
        }
        i += 1;
    }
    Ok(file)
}

/// Once the rules fail they stay failed.
proof fn lemma_apply_rules_fails(
    state: Unwound,
    rules: Seq<RuleFor>,
    cfa: u64,
    callee: Registers,
    fetched: Seq<Result<u64, DebugError>>,
    n: int,
    m: int,
)
    requires
        n <= m,
        apply_rules(state, rules, cfa, callee, fetched, n) is Err,
    ensures
        apply_rules(state, rules, cfa, callee, fetched, m) == apply_rules(
            state,
            rules,
            cfa,
            callee,
            fetched,
            n,
        ),
    decreases m - n,
{
    if n < m {
        lemma_apply_rules_fails(state, rules, cfa, callee, fetched, n, m - 1);
    }
}

/// The rule `Offset(RETURN_SLOT)` asks for the word just below the frame address.
pub proof fn lemma_return_address_slot(cfa: u64, callee: Registers)
    requires
        cfa >= 8,
    ensures
        rule_fetch(RegisterRule::Offset(RETURN_SLOT), cfa, callee) == Ok::<Fetch, DebugError>(
            Fetch::Memory((cfa - 8) as u64),
        ),
{
}

/// With the usual rules the unwound registers are the caller's: where the
/// only rule for the return address is `Offset(RETURN_SLOT)` and the stack pointer has
/// no rule, the new instruction pointer is the word fetched from just below
/// the frame address and the new stack pointer is the frame address.
pub proof fn lemma_default_rules_give_caller(
    callee: Registers,
    cfa: u64,
    rules: Seq<RuleFor>,
    fetched: Seq<Result<u64, DebugError>>,
    at: int,
    return_address: u64,
)
    requires
        0 <= at < rules.len(),
        rules[at] == (RuleFor { register: RA, rule: RegisterRule::Offset(RETURN_SLOT) }),
        forall|j: int| 0 <= j < rules.len() && j != at ==> rules[j].register != RA,
        forall|j: int| 0 <= j < rules.len() ==> rules[j].register != RSP,
        fetched_for(fetched, at) == Ok::<u64, DebugError>(return_address),
        unwound(callee, cfa, rules, fetched) is Ok,
    ensures
        rule_fetch(rules[at].rule, cfa, callee) == Ok::<Fetch, DebugError>(
            Fetch::Memory(moved(cfa, RETURN_SLOT)),
        ),
        unwound(callee, cfa, rules, fetched).unwrap().regs.rip == return_address,
        unwound(callee, cfa, rules, fetched).unwrap().regs.rsp == cfa,
{
    let start = Unwound { regs: with_register(callee, RSP, cfa), undefined: Seq::empty() };
    lemma_default_rules_step(start, callee, cfa, rules, fetched, at, return_address, rules.len() as int);
}

proof fn lemma_default_rules_step(
    start: Unwound,
    callee: Registers,
    cfa: u64,
    rules: Seq<RuleFor>,
    fetched: Seq<Result<u64, DebugError>>,
    at: int,
    return_address: u64,
    n: int,
)
    requires
        0 <= at < rules.len(),
        0 <= n <= rules.len(),
        start.regs.rsp == cfa,
        rules[at] == (RuleFor { register: RA, rule: RegisterRule::Offset(RETURN_SLOT) }),
        forall|j: int| 0 <= j < rules.len() && j != at ==> rules[j].register != RA,
        forall|j: int| 0 <= j < rules.len() ==> rules[j].register != RSP,
        fetched_for(fetched, at) == Ok::<u64, DebugError>(return_address),
        apply_rules(start, rules, cfa, callee, fetched, n) is Ok,
    ensures
        apply_rules(start, rules, cfa, callee, fetched, n).unwrap().regs.rsp == cfa,
        n > at ==> apply_rules(start, rules, cfa, callee, fetched, n).unwrap().regs.rip
            == return_address,
    decreases n,
{
    if n > 0 {
        lemma_default_rules_step(start, callee, cfa, rules, fetched, at, return_address, n - 1);
    }
}

} // verus!
