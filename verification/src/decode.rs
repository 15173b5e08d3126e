//! The decode path: predicate mapping, source/destination addressing-mode
//! resolution, opcode-family dispatch, and the bounded program decoder that
//! appends the terminal sentinel instruction.

use vstd::prelude::*;

use crate::instruction::end_execution;
use crate::instruction::end_execution_spec;
use crate::instruction::jump_to_beginning;
use crate::instruction::jump_to_beginning_spec;
use crate::instruction::BinaryOp;
use crate::instruction::Instruction;
use crate::operands::AnyDestination;
use crate::operands::AnySource;
use crate::operands::Predicate;
use crate::operands::Register;
use crate::operands::StackLikeParameters;
use crate::parse::parse_of;
use crate::parse::parse_word;
use crate::parse::ParsedWord;
use crate::parse::FAMILY_ADD;
use crate::parse::FAMILY_BINOP;
use crate::parse::FAMILY_DIV;
use crate::parse::FAMILY_JUMP;
use crate::parse::FAMILY_MUL;
use crate::parse::FAMILY_NOP;
use crate::parse::FAMILY_SHIFT;
use crate::parse::FAMILY_SUB;
use crate::parse::MODE_CODE_PAGE;
use crate::parse::MODE_IMM16;
use crate::parse::MODE_STACK_ABSOLUTE;
use crate::parse::MODE_STACK_OFFSET;
use crate::parse::MODE_STACK_PUSH_POP;
use crate::parse::SUB_BINOP_AND;
use crate::parse::SUB_BINOP_XOR;
use crate::parse::SUB_SHIFT_ROL;
use crate::parse::SUB_SHIFT_SHL;
use crate::parse::SUB_SHIFT_SHR;

verus! {

/// How many words of a program image the code page can hold; longer inputs
/// are truncated to this many words, by design.
pub const CODE_PAGE_WORDS: usize = 65536;

/// Why decoding aborted. Both conditions indicate an upstream encoder or
/// ISA-assumption bug, not a runtime condition to recover from.
#[derive(Clone, Copy, Debug, PartialEq, Eq)]
pub enum DecodeError {
    /// The destination tag requested an immediate or code-page target;
    /// neither is writable.
    EncodingViolation,
    /// A recognized opcode family that has no construction rule in this
    /// decoder.
    UnsupportedOpcode,
}

/// The straight one-to-one renaming of the eight condition codes into the
/// VM's predicate type.
pub open spec fn spec_predicate(c: u8) -> Predicate {
    if c == 1 {
        Predicate::IfGT
    } else if c == 2 {
        Predicate::IfLT
    } else if c == 3 {
        Predicate::IfEQ
    } else if c == 4 {
        Predicate::IfGE
    } else if c == 5 {
        Predicate::IfLE
    } else if c == 6 {
        Predicate::IfNotEQ
    } else if c == 7 {
        Predicate::IfGtOrLT
    } else {
        Predicate::Always
    }
}

pub fn predicate_of_condition(c: u8) -> (p: Predicate)
    requires
        c < 8,
    ensures
        p == spec_predicate(c),
{
    match c {
        0 => Predicate::Always,
        1 => Predicate::IfGT,
        2 => Predicate::IfLT,
        3 => Predicate::IfEQ,
        4 => Predicate::IfGE,
        5 => Predicate::IfLE,
        6 => Predicate::IfNotEQ,
        _ => Predicate::IfGtOrLT,
    }
}

/// The predicate mapping is a bijection: the eight condition codes map to
/// eight distinct predicates, with no collisions.
pub proof fn lemma_predicate_bijective(c1: u8, c2: u8)
    requires
        c1 < 8,
        c2 < 8,
        c1 != c2,
    ensures
        spec_predicate(c1) != spec_predicate(c2),
{
}

pub open spec fn spec_stack_params(imm: u16, reg: u8) -> StackLikeParameters {
    StackLikeParameters { immediate: imm, register: Register(reg) }
}

/// What each source addressing-mode code resolves to. Total over the mode
/// space: every tag maps to exactly one operand kind.
pub open spec fn spec_source(mode: u8, imm: u16, reg: u8) -> AnySource {
    if mode == MODE_IMM16 {
        AnySource::Immediate1(imm)
    } else if mode == MODE_STACK_ABSOLUTE {
        AnySource::AbsoluteStack(spec_stack_params(imm, reg))
    } else if mode == MODE_STACK_PUSH_POP {
        AnySource::AdvanceStackPointer(spec_stack_params(imm, reg))
    } else if mode == MODE_STACK_OFFSET {
        AnySource::RelativeStack(spec_stack_params(imm, reg))
    } else if mode == MODE_CODE_PAGE {
        AnySource::CodePage(spec_stack_params(imm, reg))
    } else {
        AnySource::Register1(Register(reg))
    }
}

pub fn resolve_source(mode: u8, imm: u16, reg: u8) -> (s: AnySource)
    requires
        mode < 6,
        reg < 16,
    ensures
        s == spec_source(mode, imm, reg),
{
    let params = StackLikeParameters { immediate: imm, register: Register::new(reg) };
    if mode == MODE_IMM16 {
        AnySource::Immediate1(imm)
    } else if mode == MODE_STACK_ABSOLUTE {
        AnySource::AbsoluteStack(params)
    } else if mode == MODE_STACK_PUSH_POP {
        AnySource::AdvanceStackPointer(params)
    } else if mode == MODE_STACK_OFFSET {
        AnySource::RelativeStack(params)
    } else if mode == MODE_CODE_PAGE {
        AnySource::CodePage(params)
    } else {
        AnySource::Register1(Register::new(reg))
    }
}

/// What each destination addressing-mode code resolves to. Immediate and
/// code-page tags are rejected outright: they denote unwritable targets,
/// and no other addressing mode is ever substituted for them.
pub open spec fn spec_destination(mode: u8, imm: u16, reg: u8) -> Result<
    AnyDestination,
    DecodeError,
> {
    if mode == MODE_IMM16 || mode == MODE_CODE_PAGE {
        Err(DecodeError::EncodingViolation)
    } else if mode == MODE_STACK_ABSOLUTE {
        Ok(AnyDestination::AbsoluteStack(spec_stack_params(imm, reg)))
    } else if mode == MODE_STACK_PUSH_POP {
        Ok(AnyDestination::AdvanceStackPointer(spec_stack_params(imm, reg)))
    } else if mode == MODE_STACK_OFFSET {
        Ok(AnyDestination::RelativeStack(spec_stack_params(imm, reg)))
    } else {
        Ok(AnyDestination::Register1(Register(reg)))
    }
}

pub fn resolve_destination(mode: u8, imm: u16, reg: u8) -> (d: Result<AnyDestination, DecodeError>)
    requires
        mode < 6,
        reg < 16,
    ensures
        d == spec_destination(mode, imm, reg),
{
    let params = StackLikeParameters { immediate: imm, register: Register::new(reg) };
    if mode == MODE_IMM16 || mode == MODE_CODE_PAGE {
        Err(DecodeError::EncodingViolation)
    } else if mode == MODE_STACK_ABSOLUTE {
        Ok(AnyDestination::AbsoluteStack(params))
    } else if mode == MODE_STACK_PUSH_POP {
        Ok(AnyDestination::AdvanceStackPointer(params))
    } else if mode == MODE_STACK_OFFSET {
        Ok(AnyDestination::RelativeStack(params))
    } else {
        Ok(AnyDestination::Register1(Register::new(reg)))
    }
}

/// The binary operation an opcode family and sub-operation code select, or
/// nothing if the family is not a binary arithmetic/logic/shift family.
pub open spec fn spec_binary_op(family: u8, sub: u8) -> Option<BinaryOp> {
    if family == FAMILY_ADD {
        Some(BinaryOp::Add)
    } else if family == FAMILY_SUB {
        Some(BinaryOp::Sub)
    } else if family == FAMILY_MUL {
        Some(BinaryOp::Mul)
    } else if family == FAMILY_DIV {
        Some(BinaryOp::Div)
    } else if family == FAMILY_BINOP {
        if sub == SUB_BINOP_XOR {
            Some(BinaryOp::Xor)
        } else if sub == SUB_BINOP_AND {
            Some(BinaryOp::And)
        } else {
            Some(BinaryOp::Or)
        }
    } else if family == FAMILY_SHIFT {
        if sub == SUB_SHIFT_SHL {
            Some(BinaryOp::ShiftLeft)
        } else if sub == SUB_SHIFT_SHR {
            Some(BinaryOp::ShiftRight)
        } else if sub == SUB_SHIFT_ROL {
            Some(BinaryOp::RotateLeft)
        } else {
            Some(BinaryOp::RotateRight)
        }
    } else {
        None
    }
}

fn binary_op_of(family: u8, sub: u8) -> (op: BinaryOp)
    requires
        spec_binary_op(family, sub) is Some,
    ensures
        Some(op) == spec_binary_op(family, sub),
{
    if family == FAMILY_ADD {
        BinaryOp::Add
    } else if family == FAMILY_SUB {
        BinaryOp::Sub
    } else if family == FAMILY_MUL {
        BinaryOp::Mul
    } else if family == FAMILY_DIV {
        BinaryOp::Div
    } else if family == FAMILY_BINOP {
        if sub == SUB_BINOP_XOR {
            BinaryOp::Xor
        } else if sub == SUB_BINOP_AND {
            BinaryOp::And
        } else {
            BinaryOp::Or
        }
    } else {
        if sub == SUB_SHIFT_SHL {
            BinaryOp::ShiftLeft
        } else if sub == SUB_SHIFT_SHR {
            BinaryOp::ShiftRight
        } else if sub == SUB_SHIFT_ROL {
            BinaryOp::RotateLeft
        } else {
            BinaryOp::RotateRight
        }
    }
}

/// The instruction a parse resolves to. Destination resolution is checked
/// for every opcode family, including ones this decoder does not build, so
/// an unwritable destination tag always aborts the decode; after that,
/// binary families build one generic binary-operation record (multiply and
/// divide binding the second destination register), jumps carry only their
/// target and predicate, and a no-op carries through a pop/push stack
/// adjustment from whichever of its operands resolved to one.
pub open spec fn spec_instruction(p: ParsedWord) -> Result<Instruction, DecodeError> {
    let src = spec_source(p.src0_mode, p.imm0, p.src0_reg);
    match spec_destination(p.dst0_mode, p.imm1, p.dst0_reg) {
        Err(e) => Err(e),
        Ok(dst) => {
            let predicate = spec_predicate(p.condition);
            match spec_binary_op(p.opcode_family, p.opcode_sub) {
                Some(op) => Ok(
                    Instruction::BinOp {
                        op,
                        src,
                        src2: Register(p.src1_reg),
                        dst,
                        dst2: if p.opcode_family == FAMILY_MUL || p.opcode_family == FAMILY_DIV {
                            Some(Register(p.dst1_reg))
                        } else {
                            None
                        },
                        predicate,
                        swap_operands: p.swap,
                        set_flags: p.set_flags,
                    },
                ),
                None => if p.opcode_family == FAMILY_JUMP {
                    Ok(Instruction::Jump { target: src, predicate })
                } else if p.opcode_family == FAMILY_NOP {
                    Ok(
                        Instruction::Nop {
                            pop: match src {
                                AnySource::AdvanceStackPointer(pop) => pop,
                                _ => spec_stack_params(0, 0),
                            },
                            push: match dst {
                                AnyDestination::AdvanceStackPointer(push) => push,
                                _ => spec_stack_params(0, 0),
                            },
                        },
                    )
                } else {
                    Err(DecodeError::UnsupportedOpcode)
                },
            }
        },
    }
}

/// Build the instruction for one parse. Pure dispatch over the parsed
/// fields; fails exactly when the destination tag is unwritable or the
/// opcode family has no construction rule.
pub fn decode_parsed(p: ParsedWord) -> (r: Result<Instruction, DecodeError>)
    requires
        p.wf(),
    ensures
        r == spec_instruction(p),
{
    let src = resolve_source(p.src0_mode, p.imm0, p.src0_reg);
    let dst = match resolve_destination(p.dst0_mode, p.imm1, p.dst0_reg) {
        Ok(d) => d,
        Err(e) => {
            return Err(e);
        },
    };
    let predicate = predicate_of_condition(p.condition);
    let f = p.opcode_family;
    if f == FAMILY_ADD || f == FAMILY_SUB || f == FAMILY_MUL || f == FAMILY_DIV || f == FAMILY_BINOP
        || f == FAMILY_SHIFT {
        let op = binary_op_of(f, p.opcode_sub);
        let dst2 = if f == FAMILY_MUL || f == FAMILY_DIV {
            Some(Register::new(p.dst1_reg))
        } else {
            None
        };
        Ok(
            Instruction::from_binop(
                op,
                src,
                Register::new(p.src1_reg),
                dst,
                dst2,
                predicate,
                p.swap,
                p.set_flags,
            ),
        )
    } else if f == FAMILY_JUMP {
        Ok(Instruction::from_jump(src, predicate))
    } else if f == FAMILY_NOP {
        let no_sp_movement = StackLikeParameters { immediate: 0, register: Register::new(0) };
        let pop = if let AnySource::AdvanceStackPointer(pop) = src {
            pop
        } else {
            no_sp_movement
        };
        let push = if let AnyDestination::AdvanceStackPointer(push) = dst {
            push
        } else {
            no_sp_movement
        };
        Ok(Instruction::from_nop(pop, push))
    } else {
        Err(DecodeError::UnsupportedOpcode)
    }
}

/// A parse whose destination tag denotes an immediate or code-page target
/// aborts with `EncodingViolation`, whatever its opcode family — no other
/// addressing mode is ever substituted, and the violation is reported even
/// for families this decoder does not build.
pub proof fn lemma_destination_validity(p: ParsedWord)
    requires
        p.wf(),
        p.dst0_mode == MODE_IMM16 || p.dst0_mode == MODE_CODE_PAGE,
    ensures
        spec_instruction(p) == Err::<Instruction, DecodeError>(DecodeError::EncodingViolation),
{
}

/// A no-op parse carries a pop-adjustment source through unchanged, and a
/// push-adjustment destination likewise; an operand resolved any other way
/// is replaced by the zero adjustment. In particular a no-op parse with
/// register-only operands and all-zero fields resolves to the
/// zero-adjustment instruction on both sides.
pub proof fn lemma_nop_passthrough(p: ParsedWord)
    requires
        p.wf(),
        p.opcode_family == FAMILY_NOP,
        p.dst0_mode != MODE_IMM16,
        p.dst0_mode != MODE_CODE_PAGE,
    ensures
        spec_instruction(p) == Ok::<Instruction, DecodeError>(
            (Instruction::Nop {
                pop: if p.src0_mode == MODE_STACK_PUSH_POP {
                    spec_stack_params(p.imm0, p.src0_reg)
                } else {
                    spec_stack_params(0, 0)
                },
                push: if p.dst0_mode == MODE_STACK_PUSH_POP {
                    spec_stack_params(p.imm1, p.dst0_reg)
                } else {
                    spec_stack_params(0, 0)
                },
            }),
        ),
{
}

/// Multiply and divide bind a real second destination register, taken from
/// the word's secondary destination field; every other binary family binds
/// an empty second destination.
pub proof fn lemma_second_destination(p: ParsedWord)
    requires
        p.wf(),
        p.dst0_mode != MODE_IMM16,
        p.dst0_mode != MODE_CODE_PAGE,
        spec_binary_op(p.opcode_family, p.opcode_sub) is Some,
    ensures
        spec_instruction(p) is Ok,
        match spec_instruction(p) {
            Ok(Instruction::BinOp { dst2, .. }) => dst2 == if p.opcode_family == FAMILY_MUL
                || p.opcode_family == FAMILY_DIV {
                Some(Register(p.dst1_reg))
            } else {
                None::<Register>
            },
            _ => false,
        },
{
}

/// The instruction one raw word decodes to: bit-layout parse, then dispatch.
pub open spec fn spec_decode(w: u64) -> Result<Instruction, DecodeError> {
    spec_instruction(parse_of(w))
}

/// Decode one raw word. The result is a function of the word's bits alone,
/// so decoding the same word twice yields the same instruction.
pub fn decode(w: u64) -> (r: Result<Instruction, DecodeError>)
    ensures
        r == spec_decode(w),
{
    let p = parse_word(w);
    decode_parsed(p)
}

/// Decoding is deterministic: the decode of a word is a function of its
/// bits alone, so decoding the same word twice yields identical instruction
/// content.
pub proof fn lemma_decode_deterministic(w1: u64, w2: u64)
    requires
        w1 == w2,
    ensures
        spec_decode(w1) == spec_decode(w2),
{
}

/// How many words of an n-word image are decoded: all of them, truncated to
/// the code-page capacity.
pub open spec fn body_len(n: int) -> int {
    if n >= CODE_PAGE_WORDS as int {
        CODE_PAGE_WORDS as int
    } else {
        n
    }
}

/// The sentinel appended after the decoded words: a jump back to the
/// beginning when the image filled or exceeded the code page, the halt
/// instruction otherwise.
pub open spec fn spec_sentinel(n: int) -> Instruction {
    if n >= CODE_PAGE_WORDS as int {
        jump_to_beginning_spec()
    } else {
        end_execution_spec()
    }
}

/// Decode a program image: the first `min(n, 65536)` words in index order,
/// then exactly one synthesized sentinel, so the result is never empty and
/// the fetch loop always has a defined successor. Succeeds if and only if
/// every decoded word decodes; otherwise it returns the first word's error
/// and no partial output.
pub fn decode_program(raw: &[u64]) -> (r: Result<Vec<Instruction>, DecodeError>)
    ensures
        match r {
            Ok(v) => {
                &&& v@.len() == body_len(raw@.len() as int) + 1
                &&& forall|i: int|
                    0 <= i < body_len(raw@.len() as int) ==> spec_decode(raw@[i]) == Ok::<
                        Instruction,
                        DecodeError,
                    >(v@[i])
                &&& v@[body_len(raw@.len() as int)] == spec_sentinel(raw@.len() as int)
            },
            Err(e) => exists|i: int|
                0 <= i < body_len(raw@.len() as int) && #[trigger] spec_decode(raw@[i]) == Err::<
                    Instruction,
                    DecodeError,
                >(e) && (forall|j: int| 0 <= j < i ==> spec_decode(raw@[j]) is Ok),
        },
{
    let n = raw.len();
    let m = if n >= CODE_PAGE_WORDS {
        CODE_PAGE_WORDS
    } else {
        n
    };
    let mut out: Vec<Instruction> = Vec::new();
    let mut i: usize = 0;
    while i < m
        invariant
            i <= m,
            m == body_len(raw@.len() as int),
            out@.len() == i,
            forall|j: int|
                0 <= j < i ==> spec_decode(raw@[j]) == Ok::<Instruction, DecodeError>(out@[j]),
        decreases m - i,
    {
        match decode(raw[i]) {
            Ok(ins) => out.push(ins),
            Err(e) => {
                proof {
                    assert(spec_decode(raw@[i as int]) == Err::<Instruction, DecodeError>(e));
                }
                return Err(e);
            },
        }
        i += 1;
    }
    if n >= CODE_PAGE_WORDS {
        out.push(jump_to_beginning());
    } else {
        out.push(end_execution());
    }
    Ok(out)
}

} // verus!

