//! The instruction record built by the decoder, and the two synthesized
//! sentinel instructions that terminate every decoded program.

use vstd::prelude::*;

use crate::operands::AnyDestination;
use crate::operands::AnySource;
use crate::operands::Predicate;
use crate::operands::Register;
use crate::operands::StackLikeParameters;

verus! {

/// The specific operation of a binary arithmetic/logic/shift instruction.
#[derive(Clone, Copy, Debug, PartialEq, Eq)]
pub enum BinaryOp {
    Add,
    Sub,
    Mul,
    Div,
    Xor,
    And,
    Or,
    ShiftLeft,
    ShiftRight,
    RotateLeft,
    RotateRight,
}

/// One execution-ready instruction. Immutable once built.
#[derive(Clone, Copy, Debug, PartialEq, Eq)]
pub enum Instruction {
    /// A binary arithmetic/logic/shift operation. Only multiply and divide
    /// bind a second destination register (high word / remainder); every
    /// other operation leaves it empty.
    BinOp {
        op: BinaryOp,
        src: AnySource,
        src2: Register,
        dst: AnyDestination,
        dst2: Option<Register>,
        predicate: Predicate,
        swap_operands: bool,
        set_flags: bool,
    },
    /// Control transfer to the resolved target; carries no destination and
    /// no flags.
    Jump { target: AnySource, predicate: Predicate },
    /// No operation apart from an optional stack-pointer adjustment: `pop`
    /// slots are consumed on the source side and `push` slots produced on
    /// the destination side.
    Nop { pop: StackLikeParameters, push: StackLikeParameters },
    /// Synthesized halt appended after a program that fits the code page.
    EndExecution,
}

impl Instruction {
    pub fn from_binop(
        op: BinaryOp,
        src: AnySource,
        src2: Register,
        dst: AnyDestination,
        dst2: Option<Register>,
        predicate: Predicate,
        swap_operands: bool,
        set_flags: bool,
    ) -> (r: Instruction)
        ensures
            r == (Instruction::BinOp { op, src, src2, dst, dst2, predicate, swap_operands, set_flags }),
    {
        Instruction::BinOp { op, src, src2, dst, dst2, predicate, swap_operands, set_flags }
    }

    pub fn from_jump(target: AnySource, predicate: Predicate) -> (r: Instruction)
        ensures
            r == (Instruction::Jump { target, predicate }),
    {
        Instruction::Jump { target, predicate }
    }

    pub fn from_nop(pop: StackLikeParameters, push: StackLikeParameters) -> (r: Instruction)
        ensures
            r == (Instruction::Nop { pop, push }),
    {
        Instruction::Nop { pop, push }
    }
}

/// The sentinel appended when the program fills or exceeds the code page:
/// an unconditional jump back to instruction 0.
pub open spec fn jump_to_beginning_spec() -> Instruction {
    Instruction::Jump {
        target: AnySource::Immediate1(0),
        predicate: Predicate::Always,
    }
}

pub fn jump_to_beginning() -> (r: Instruction)
    ensures
        r == jump_to_beginning_spec(),
{
    Instruction::Jump {
        target: AnySource::Immediate1(0),
        predicate: Predicate::Always,
    }
}

/// The sentinel appended after a program that fits the code page: it halts
/// the machine.
pub open spec fn end_execution_spec() -> Instruction {
    Instruction::EndExecution
}

pub fn end_execution() -> (r: Instruction)
    ensures
        r == end_execution_spec(),
{
    Instruction::EndExecution
}

} // verus!
