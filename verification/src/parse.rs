//! The trusted boundary to the ISA's bit-layout parser.
//!
//! One raw 64-bit word is parsed into opcode-variant, condition, register,
//! immediate and flag fields by `zkevm_opcode_defs`. That layout is a fixed
//! ISA contract consumed verbatim here: the parse is called behind one
//! trusted wrapper, and everything downstream of it is verified.

use vstd::prelude::*;
use zkevm_opcode_defs::decoding::EncodingModeProduction;
use zkevm_opcode_defs::decoding::VmEncodingMode;
use zkevm_opcode_defs::SET_FLAGS_FLAG_IDX;
use zkevm_opcode_defs::SWAP_OPERANDS_FLAG_IDX_FOR_ARITH_OPCODES;

verus! {

// Opcode-family codes, as `zkevm_opcode_defs::Opcode::variant_idx` numbers
// the families.
pub const FAMILY_INVALID: u8 = 0;

pub const FAMILY_NOP: u8 = 1;

pub const FAMILY_ADD: u8 = 2;

pub const FAMILY_SUB: u8 = 3;

pub const FAMILY_MUL: u8 = 4;

pub const FAMILY_DIV: u8 = 5;

pub const FAMILY_JUMP: u8 = 6;

pub const FAMILY_CONTEXT: u8 = 7;

pub const FAMILY_SHIFT: u8 = 8;

pub const FAMILY_BINOP: u8 = 9;

pub const FAMILY_PTR: u8 = 10;

pub const FAMILY_NEAR_CALL: u8 = 11;

pub const FAMILY_LOG: u8 = 12;

pub const FAMILY_FAR_CALL: u8 = 13;

pub const FAMILY_RET: u8 = 14;

pub const FAMILY_UMA: u8 = 15;

// Sub-operation codes within the bitwise family, as
// `zkevm_opcode_defs::BinopOpcode` numbers its variants.
pub const SUB_BINOP_XOR: u8 = 0;

pub const SUB_BINOP_AND: u8 = 1;

pub const SUB_BINOP_OR: u8 = 2;

// Sub-operation codes within the shift family, as
// `zkevm_opcode_defs::ShiftOpcode` numbers its variants.
pub const SUB_SHIFT_SHL: u8 = 0;

pub const SUB_SHIFT_SHR: u8 = 1;

pub const SUB_SHIFT_ROL: u8 = 2;

pub const SUB_SHIFT_ROR: u8 = 3;

// Per-operand addressing-mode codes, as `zkevm_opcode_defs::Operand::
// variant_idx` numbers the addressing modes.
pub const MODE_REG_ONLY: u8 = 0;

pub const MODE_STACK_PUSH_POP: u8 = 1;

pub const MODE_STACK_OFFSET: u8 = 2;

pub const MODE_STACK_ABSOLUTE: u8 = 3;

pub const MODE_IMM16: u8 = 4;

pub const MODE_CODE_PAGE: u8 = 5;

/// The field record the ISA's bit-layout parser extracts from one raw word:
/// an opcode family and sub-operation, per-operand addressing-mode tags, two
/// 16-bit immediates, four register indices, an 8-valued condition code, and
/// the two non-exclusive flag bits this decoder consumes.
#[derive(Clone, Copy, Debug, PartialEq, Eq)]
pub struct ParsedWord {
    pub opcode_family: u8,
    pub opcode_sub: u8,
    pub condition: u8,
    pub src0_mode: u8,
    pub dst0_mode: u8,
    pub imm0: u16,
    pub imm1: u16,
    pub src0_reg: u8,
    pub src1_reg: u8,
    pub dst0_reg: u8,
    pub dst1_reg: u8,
    pub swap: bool,
    pub set_flags: bool,
}

impl ParsedWord {
    /// What the production encoding guarantees of every parse: the condition
    /// code is three bits, each addressing-mode code names one of the six
    /// modes, each register index fits the register file, and a sub-operation
    /// code stays within its family.
    pub open spec fn wf(self) -> bool {
        &&& self.condition < 8
        &&& self.src0_mode < 6
        &&& self.dst0_mode < 6
        &&& self.src0_reg < 16
        &&& self.src1_reg < 16
        &&& self.dst0_reg < 16
        &&& self.dst1_reg < 16
        &&& (self.opcode_family == FAMILY_BINOP ==> self.opcode_sub < 3)
        &&& (self.opcode_family == FAMILY_SHIFT ==> self.opcode_sub < 4)
    }
}

/// The fields that the ISA's production encoding assigns to a word. The
/// layout takes pages to state and is a fixed function of the word's bits
/// alone, so it is named rather than written out.
pub uninterp spec fn parse_of(w: u64) -> ParsedWord;

/// Relies on `zkevm_opcode_defs`: `EncodingModeProduction::
/// parse_preliminary_variant_and_absolute_number` extracts the opcode
/// variant, condition, register and immediate fields of a word, and the
/// crate's `variant_idx`/`materialize_subvariant_idx`/`variant_index`
/// methods number families, sub-operations, addressing modes and conditions.
/// The parse depends on the word's bits alone; condition codes are three
/// bits, addressing-mode codes run over the six modes, register indices are
/// four bits, and bitwise/shift sub-operations stay within their families.
#[verifier::external_body]
pub(crate) fn parse_word(w: u64) -> (r: ParsedWord)
    ensures
        r == parse_of(w),
        r.wf(),
{
    let (p, _) = EncodingModeProduction::parse_preliminary_variant_and_absolute_number(w);
    let v = &p.variant;
    ParsedWord {
        opcode_family: v.opcode.variant_idx() as u8,
        opcode_sub: v.opcode.materialize_subvariant_idx() as u8,
        condition: p.condition.variant_index() as u8,
        src0_mode: v.src0_operand_type.variant_idx() as u8,
        dst0_mode: v.dst0_operand_type.variant_idx() as u8,
        imm0: p.imm_0, imm1: p.imm_1,
        src0_reg: p.src0_reg_idx, src1_reg: p.src1_reg_idx,
        dst0_reg: p.dst0_reg_idx, dst1_reg: p.dst1_reg_idx,
        swap: v.flags[SWAP_OPERANDS_FLAG_IDX_FOR_ARITH_OPCODES],
        set_flags: v.flags[SET_FLAGS_FLAG_IDX],
    }
}

} // verus!
