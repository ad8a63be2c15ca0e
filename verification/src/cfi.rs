//! Reading call-frame information out of `.eh_frame`.
//!
//! gimli finds the frame description that covers an address and runs its
//! instructions up to the row for that address. The readers below bring the
//! row back as plain values.

use gimli::{BaseAddresses, RunTimeEndian, UnwindContext, UnwindSection};
use vstd::prelude::*;
use crate::unwind::{CfaRule, ExprRef, RegisterRule, RuleFor, UnwindInfo};

verus! {

/// The `.eh_frame` section of an executable.
#[derive(Debug)]
pub struct EhFrame {
    pub frame: Vec<u8>,
    /// The link-time address of the section.
    pub section_base: u64,
    pub big_endian: bool,
}

/// A register rule that is given by an expression.
#[derive(PartialEq, Eq, Structural, Clone, Copy, Debug)]
pub struct ExpressionRule {
    pub register: u16,
    /// The expression gives the value itself, not the address of it.
    pub is_value: bool,
    pub expression: ExprRef,
}

/// The rule for the frame address in the unwind row that the section holds
/// for `address`, as gimli finds and evaluates it; `None` where no frame
/// description covers the address or the section cannot be decoded.
pub uninterp spec fn row_cfa(frame: Seq<u8>, section_base: u64, big_endian: bool, address: u64) -> Option<CfaRule>;

/// The number of register rules in the unwind row for `address`.
pub uninterp spec fn row_rule_count(frame: Seq<u8>, section_base: u64, big_endian: bool, address: u64) -> Option<usize>;

/// The `index`-th register rule of the unwind row for `address`, where it
/// carries a number: an offset, a register or a constant.
pub uninterp spec fn row_number_rule(frame: Seq<u8>, section_base: u64, big_endian: bool, address: u64, index: usize) -> Option<RuleFor>;

/// The `index`-th register rule of the unwind row for `address`, where it
/// carries nothing: undefined, same value or architectural.
pub uninterp spec fn row_bare_rule(frame: Seq<u8>, section_base: u64, big_endian: bool, address: u64, index: usize) -> Option<RuleFor>;

/// The `index`-th register rule of the unwind row for `address`, where it
/// is given by an expression.
pub uninterp spec fn row_expression_rule(frame: Seq<u8>, section_base: u64, big_endian: bool, address: u64, index: usize) -> Option<ExpressionRule>;

/// Looks up the unwind row for `address` with
/// `gimli::UnwindSection::unwind_info_for_address` and returns its rule for
/// the frame address. The result depends on the section and the address
/// alone.
#[verifier::external_body]
fn read_row_cfa(eh: &EhFrame, address: u64) -> (rule: Option<CfaRule>)
    ensures
        rule == row_cfa(eh.frame@, eh.section_base, eh.big_endian, address),
{
    let endian = if eh.big_endian { RunTimeEndian::Big } else { RunTimeEndian::Little };
    let section = gimli::EhFrame::new(&eh.frame, endian);
    let bases = BaseAddresses::default().set_eh_frame(eh.section_base);
    let mut ctx = UnwindContext::new();
    let row = section.unwind_info_for_address(&bases, &mut ctx, address, gimli::EhFrame::cie_from_offset).ok()?;
    Some(match row.cfa() {
        gimli::CfaRule::RegisterAndOffset { register, offset } => CfaRule::RegisterAndOffset { register: register.0, offset: *offset },
        gimli::CfaRule::Expression(e) => CfaRule::Expression(ExprRef { offset: e.offset, length: e.length }),
    })
}

/// Looks up the unwind row for `address` with
/// `gimli::UnwindSection::unwind_info_for_address` and counts the register
/// rules that `gimli::UnwindTableRow::registers` hands out.
#[verifier::external_body]
fn read_rule_count(eh: &EhFrame, address: u64) -> (count: Option<usize>)
    ensures
        count == row_rule_count(eh.frame@, eh.section_base, eh.big_endian, address),
{
    let endian = if eh.big_endian { RunTimeEndian::Big } else { RunTimeEndian::Little };
    let section = gimli::EhFrame::new(&eh.frame, endian);
    let bases = BaseAddresses::default().set_eh_frame(eh.section_base);
    let mut ctx = UnwindContext::new();
    let row = section.unwind_info_for_address(&bases, &mut ctx, address, gimli::EhFrame::cie_from_offset).ok()?;
    Some(row.registers().count())
}

/// Takes the `index`-th of the rules that
/// `gimli::UnwindTableRow::registers` hands out for the row of `address`
/// and converts it where it carries a number; `None` for any other rule.
#[verifier::external_body]
fn read_number_rule(eh: &EhFrame, address: u64, index: usize) -> (rule: Option<RuleFor>)
    ensures
        rule == row_number_rule(eh.frame@, eh.section_base, eh.big_endian, address, index),
{
    let endian = if eh.big_endian { RunTimeEndian::Big } else { RunTimeEndian::Little };
    let section = gimli::EhFrame::new(&eh.frame, endian);
    let bases = BaseAddresses::default().set_eh_frame(eh.section_base);
    let mut ctx = UnwindContext::new();
    let row = section.unwind_info_for_address(&bases, &mut ctx, address, gimli::EhFrame::cie_from_offset).ok()?;
    let (register, rule) = row.registers().nth(index)?;
    Some(RuleFor { register: register.0, rule: match *rule {
        gimli::RegisterRule::Offset(o) => RegisterRule::Offset(o),
        gimli::RegisterRule::ValOffset(o) => RegisterRule::ValOffset(o),
        gimli::RegisterRule::Register(r) => RegisterRule::Register(r.0),
        gimli::RegisterRule::Constant(c) => RegisterRule::Constant(c),
        _ => return None,
    } })
}

/// Takes the `index`-th of the rules that
/// `gimli::UnwindTableRow::registers` hands out for the row of `address`
/// and converts it where it carries nothing; `None` for any other rule.
#[verifier::external_body]
fn read_bare_rule(eh: &EhFrame, address: u64, index: usize) -> (rule: Option<RuleFor>)
    ensures
        rule == row_bare_rule(eh.frame@, eh.section_base, eh.big_endian, address, index),
{
    let endian = if eh.big_endian { RunTimeEndian::Big } else { RunTimeEndian::Little };
    let section = gimli::EhFrame::new(&eh.frame, endian);
    let bases = BaseAddresses::default().set_eh_frame(eh.section_base);
    let mut ctx = UnwindContext::new();
    let row = section.unwind_info_for_address(&bases, &mut ctx, address, gimli::EhFrame::cie_from_offset).ok()?;
    let (register, rule) = row.registers().nth(index)?;
    Some(RuleFor { register: register.0, rule: match *rule {
        gimli::RegisterRule::Undefined => RegisterRule::Undefined,
        gimli::RegisterRule::SameValue => RegisterRule::SameValue,
        gimli::RegisterRule::Architectural => RegisterRule::Architectural,
        _ => return None,
    } })
}

/// Takes the `index`-th of the rules that
/// `gimli::UnwindTableRow::registers` hands out for the row of `address`
/// and converts it; `None` for a rule that is not given by an expression.
#[verifier::external_body]
fn read_expression_rule(eh: &EhFrame, address: u64, index: usize) -> (rule: Option<ExpressionRule>)
    ensures
        rule == row_expression_rule(eh.frame@, eh.section_base, eh.big_endian, address, index),
{
    let endian = if eh.big_endian { RunTimeEndian::Big } else { RunTimeEndian::Little };
    let section = gimli::EhFrame::new(&eh.frame, endian);
    let bases = BaseAddresses::default().set_eh_frame(eh.section_base);
    let mut ctx = UnwindContext::new();
    let row = section.unwind_info_for_address(&bases, &mut ctx, address, gimli::EhFrame::cie_from_offset).ok()?;
    let (register, rule) = row.registers().nth(index)?;
    let (is_value, e) = match rule {
        gimli::RegisterRule::Expression(e) => (false, e),
        gimli::RegisterRule::ValExpression(e) => (true, e),
        _ => return None,
    };
    Some(ExpressionRule { register: register.0, is_value, expression: ExprRef { offset: e.offset, length: e.length } })
}

/// The `index`-th register rule of the unwind row for `address`.
pub open spec fn row_rule(frame: Seq<u8>, section_base: u64, big_endian: bool, address: u64, index: usize) -> Option<
    RuleFor,
> {
    match row_number_rule(frame, section_base, big_endian, address, index) {
        Some(rule) => Some(rule),
        None => match row_bare_rule(frame, section_base, big_endian, address, index) {
            Some(rule) => Some(rule),
            None => match row_expression_rule(frame, section_base, big_endian, address, index) {
                Some(e) => Some(
                    RuleFor {
                        register: e.register,
                        rule: if e.is_value {
                            RegisterRule::ValExpression(e.expression)
                        } else {
                            RegisterRule::Expression(e.expression)
                        },
                    },
                ),
                None => None,
            },
        },
    }
}

/// The first `n` register rules of the unwind row for `address`, in the
/// order of the row.
pub open spec fn row_rules(frame: Seq<u8>, section_base: u64, big_endian: bool, address: u64, n: int) -> Seq<
    RuleFor,
>
    decreases n,
{
    if n <= 0 {
        Seq::empty()
    } else {
        let before = row_rules(frame, section_base, big_endian, address, n - 1);
        match row_rule(frame, section_base, big_endian, address, (n - 1) as usize) {
            Some(rule) => before.push(rule),
            None => before,
        }
    }
}

/// Finds the unwind row that covers `address`: the rule for the frame
/// address and the rules for the registers. `None` where no frame
/// description covers the address.
pub fn get_unwind_for_address(address: u64, eh_frame: &EhFrame) -> (info: Option<UnwindInfo>)
    ensures
        info is Some <==> row_cfa(
            eh_frame.frame@,
            eh_frame.section_base,
            eh_frame.big_endian,
            address,
        ) is Some && row_rule_count(
            eh_frame.frame@,
            eh_frame.section_base,
            eh_frame.big_endian,
            address,
        ) is Some,
        info matches Some(row) ==> {
            &&& Some(row.cfa) == row_cfa(
                eh_frame.frame@,
                eh_frame.section_base,
                eh_frame.big_endian,
                address,
            )
            &&& row.rules@ == row_rules(
                eh_frame.frame@,
                eh_frame.section_base,
                eh_frame.big_endian,
                address,
                row_rule_count(
                    eh_frame.frame@,
                    eh_frame.section_base,
                    eh_frame.big_endian,
                    address,
                ).unwrap() as int,
            )
        },
{
    let cfa = match read_row_cfa(eh_frame, address) {
        Some(cfa) => cfa,
        None => {
            return None;
        },
    };
    let count = match read_rule_count(eh_frame, address) {
        Some(count) => count,
        None => {
            return None;
        },
    };
    let mut rules: Vec<RuleFor> = Vec::new();
    let mut i: usize = 0;
    while i < count
        invariant
            i <= count,
            rules@ == row_rules(
                eh_frame.frame@,
                eh_frame.section_base,
                eh_frame.big_endian,
                address,
                i as int,
            ),
        decreases count - i,
    {
        if let Some(rule) = read_number_rule(eh_frame, address, i) {
            rules.push(rule);
        } else if let Some(rule) = read_bare_rule(eh_frame, address, i) {
            rules.push(rule);
        } else if let Some(e) = read_expression_rule(eh_frame, address, i) {
            let rule = if e.is_value {
                RegisterRule::ValExpression(e.expression)
            } else {
                RegisterRule::Expression(e.expression)
            };
            rules.push(RuleFor { register: e.register, rule });
        }
        i += 1;
    }
    Some(UnwindInfo { cfa, rules })
}

} // verus!
