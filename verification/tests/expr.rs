use threebody::error::DebugError;
use threebody::expr::{
    classify_location, eval_expression, frame_base_value, memory_value, piece_value, slice_to_u64,
    EvalStep, EvaluationResult, Location, PieceLocation,
};
use threebody::registers::Registers;

fn regs() -> Registers {
    let mut regs = Registers::zero();
    regs.rbp = 0x7ffd_1000;
    regs.rdi = 3;
    regs
}

#[test]
fn a_complete_evaluation_is_finished() {
    assert_eq!(eval_expression(EvaluationResult::Complete, &regs(), None, None), EvalStep::Finished);
}

#[test]
fn a_memory_request_is_handed_to_the_caller() {
    let request = EvaluationResult::RequiresMemory { address: 0x7ffd_0ff0, size: 8 };
    assert_eq!(
        eval_expression(request, &regs(), None, None),
        EvalStep::ReadMemory { address: 0x7ffd_0ff0, size: 8 }
    );
}

#[test]
fn a_register_request_is_answered_from_the_registers() {
    assert_eq!(
        eval_expression(EvaluationResult::RequiresRegister(6), &regs(), None, None),
        EvalStep::ResumeWithRegister(0x7ffd_1000)
    );
    assert_eq!(
        eval_expression(EvaluationResult::RequiresRegister(5), &regs(), None, None),
        EvalStep::ResumeWithRegister(3)
    );
    assert_eq!(
        eval_expression(EvaluationResult::RequiresRegister(17), &regs(), None, None),
        EvalStep::Fail(DebugError::UnsupportedRegisterRule)
    );
}

#[test]
fn frame_base_and_cfa_come_from_the_caller() {
    assert_eq!(
        eval_expression(EvaluationResult::RequiresFrameBase, &regs(), Some(1), Some(0x500)),
        EvalStep::ResumeWithFrameBase(0x500)
    );
    assert_eq!(
        eval_expression(EvaluationResult::RequiresCallFrameCfa, &regs(), Some(0x800), Some(2)),
        EvalStep::ResumeWithCfa(0x800)
    );
}

#[test]
fn missing_frame_base_and_cfa_fail() {
    assert_eq!(
        eval_expression(EvaluationResult::RequiresFrameBase, &regs(), Some(1), None),
        EvalStep::Fail(DebugError::NoFrameBase)
    );
    assert_eq!(
        eval_expression(EvaluationResult::RequiresCallFrameCfa, &regs(), None, Some(1)),
        EvalStep::Fail(DebugError::NoCfa)
    );
    assert_eq!(
        eval_expression(EvaluationResult::Unsupported, &regs(), Some(1), Some(1)),
        EvalStep::Fail(DebugError::DwarfCorruption)
    );
}

#[test]
fn memory_bytes_are_read_in_the_byte_order_given() {
    let bytes = [0x88, 0x77, 0x66, 0x55, 0x44, 0x33, 0x22, 0x11];
    assert_eq!(slice_to_u64(&bytes, false), 0x1122_3344_5566_7788);
    assert_eq!(slice_to_u64(&bytes, true), 0x8877_6655_4433_2211);
    assert_eq!(memory_value(&bytes, false), Ok(0x1122_3344_5566_7788));
    assert_eq!(memory_value(&bytes, true), Ok(0x8877_6655_4433_2211));
    assert_eq!(memory_value(&bytes[..3], false), Ok(0x66_7788));
    assert_eq!(memory_value(&bytes[..3], true), Ok(0x88_7766));
    assert_eq!(memory_value(&bytes[..1], true), Ok(0x88));
    assert_eq!(memory_value(&[], false), Ok(0));
    assert_eq!(memory_value(&[0xff; 8], false), Ok(u64::MAX));
    assert_eq!(memory_value(&[0; 9], false), Err(DebugError::MemoryReadError));
}

#[test]
fn a_value_is_read_from_the_first_piece() {
    assert_eq!(piece_value(&vec![PieceLocation::Value(7), PieceLocation::Address(9)]), Ok(7));
    assert_eq!(piece_value(&vec![PieceLocation::Address(9)]), Err(DebugError::DwarfCorruption));
    assert_eq!(piece_value(&vec![PieceLocation::Register(1)]), Err(DebugError::DwarfCorruption));
    assert_eq!(piece_value(&Vec::new()), Err(DebugError::DwarfCorruption));
}

#[test]
fn a_frame_base_is_a_value_or_a_register() {
    assert_eq!(frame_base_value(&vec![PieceLocation::Value(0x40)], &regs()), Ok(0x40));
    assert_eq!(frame_base_value(&vec![PieceLocation::Register(6)], &regs()), Ok(0x7ffd_1000));
    assert_eq!(
        frame_base_value(&vec![PieceLocation::Register(60)], &regs()),
        Err(DebugError::UnsupportedRegisterRule)
    );
    assert_eq!(frame_base_value(&vec![PieceLocation::Address(1)], &regs()), Err(DebugError::DwarfCorruption));
    assert_eq!(frame_base_value(&vec![PieceLocation::Empty], &regs()), Err(DebugError::DwarfCorruption));
}

#[test]
fn a_location_is_a_register_or_an_address() {
    assert_eq!(classify_location(&vec![PieceLocation::Register(5)]), Ok(Location::Register(5)));
    assert_eq!(classify_location(&vec![PieceLocation::Address(0x7ffd)]), Ok(Location::Address(0x7ffd)));
    assert_eq!(classify_location(&vec![PieceLocation::Value(0x10)]), Ok(Location::Address(0x10)));
    assert_eq!(classify_location(&vec![PieceLocation::Bytes]), Err(DebugError::DwarfCorruption));
    assert_eq!(classify_location(&vec![PieceLocation::ImplicitPointer]), Err(DebugError::DwarfCorruption));
    assert_eq!(classify_location(&Vec::new()), Err(DebugError::DwarfCorruption));
}

#[test]
fn missing_context_values_surface_as_corruption() {
    assert_eq!(DebugError::NoCfa.surfaced(), DebugError::DwarfCorruption);
    assert_eq!(DebugError::NoFrameBase.surfaced(), DebugError::DwarfCorruption);
    assert_eq!(DebugError::MemoryReadError.surfaced(), DebugError::MemoryReadError);
    assert_eq!(DebugError::UnsupportedType.surfaced(), DebugError::UnsupportedType);
}
