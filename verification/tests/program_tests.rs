use eravm_decode::decode::decode_program;
use eravm_decode::decode::DecodeError;
use eravm_decode::instruction::Instruction;
use eravm_decode::operands::AnySource;
use eravm_decode::operands::Predicate;
use eravm_decode::operands::Register;
use eravm_decode::operands::StackLikeParameters;

use zkevm_opcode_defs::decoding::EncodingModeProduction;
use zkevm_opcode_defs::decoding::VmEncodingMode;

fn nop_word() -> u64 {
    EncodingModeProduction::nop_encoding()
}

fn zero_adjustment_nop() -> Instruction {
    let none = StackLikeParameters { immediate: 0, register: Register(0) };
    Instruction::Nop { pop: none, push: none }
}

fn jump_to_beginning() -> Instruction {
    Instruction::Jump { target: AnySource::Immediate1(0), predicate: Predicate::Always }
}

#[test]
fn empty_program_gets_one_sentinel() {
    let decoded = decode_program(&[]).unwrap();
    assert_eq!(decoded.len(), 1);
    assert_eq!(decoded[0], Instruction::EndExecution);
}

#[test]
fn ten_word_program_gets_end_execution() {
    let words = vec![nop_word(); 10];
    let decoded = decode_program(&words).unwrap();
    assert_eq!(decoded.len(), 11);
    for i in 0..10 {
        assert_eq!(decoded[i], zero_adjustment_nop());
    }
    assert_eq!(decoded[10], Instruction::EndExecution);
}

#[test]
fn full_code_page_gets_jump_to_beginning() {
    let words = vec![nop_word(); 1 << 16];
    let decoded = decode_program(&words).unwrap();
    assert_eq!(decoded.len(), (1 << 16) + 1);
    assert_eq!(decoded[1 << 16], jump_to_beginning());
}

#[test]
fn oversized_program_is_truncated() {
    let words = vec![nop_word(); (1 << 16) + 25];
    let decoded = decode_program(&words).unwrap();
    assert_eq!(decoded.len(), (1 << 16) + 1);
    assert_eq!(decoded[1 << 16], jump_to_beginning());
}

#[test]
fn exact_boundary_minus_one_gets_end_execution() {
    let words = vec![nop_word(); (1 << 16) - 1];
    let decoded = decode_program(&words).unwrap();
    assert_eq!(decoded.len(), 1 << 16);
    assert_eq!(decoded[(1 << 16) - 1], Instruction::EndExecution);
}

#[test]
fn first_failing_word_aborts_decoding() {
    // An all-zero word hits the encoding table's invalid-opcode marker, a
    // family this decoder does not build.
    let words = [nop_word(), 0u64, nop_word()];
    assert_eq!(decode_program(&words), Err(DecodeError::UnsupportedOpcode));
}
