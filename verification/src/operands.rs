//! Operand model: registers, stack-like address parameters, the closed
//! source/destination unions, and the execution predicate.

use vstd::prelude::*;

verus! {

/// How many registers the machine's register file holds; register fields in a
/// word are four bits wide.
pub const REGISTER_COUNT: u8 = 16;

/// Index into the machine's fixed-size register file.
#[derive(Clone, Copy, Debug, PartialEq, Eq)]
pub struct Register(pub u8);

impl Register {
    pub fn new(idx: u8) -> (r: Register)
        requires
            idx < REGISTER_COUNT,
        ensures
            r == (Register(idx)),
    {
        Register(idx)
    }
}

/// The (immediate offset, register) pair shared by every stack-like and
/// code-page addressing variant.
#[derive(Clone, Copy, Debug, PartialEq, Eq)]
pub struct StackLikeParameters {
    pub immediate: u16,
    pub register: Register,
}

/// Where a source operand's value is read from. Closed union: every source
/// encoding tag resolves to exactly one of these.
#[derive(Clone, Copy, Debug, PartialEq, Eq)]
pub enum AnySource {
    Register1(Register),
    Immediate1(u16),
    AbsoluteStack(StackLikeParameters),
    /// Reading through this mode pops a stack slot.
    AdvanceStackPointer(StackLikeParameters),
    RelativeStack(StackLikeParameters),
    CodePage(StackLikeParameters),
}

/// Where a destination operand's value is written to. Immediate and code-page
/// targets are structurally excluded: they are not representable here.
#[derive(Clone, Copy, Debug, PartialEq, Eq)]
pub enum AnyDestination {
    Register1(Register),
    AbsoluteStack(StackLikeParameters),
    /// Writing through this mode pushes a stack slot.
    AdvanceStackPointer(StackLikeParameters),
    RelativeStack(StackLikeParameters),
}

/// Execution condition gating whether an instruction's effect commits,
/// in one-to-one correspondence with the ISA's eight condition codes.
#[derive(Clone, Copy, Debug, PartialEq, Eq)]
pub enum Predicate {
    Always,
    IfGT,
    IfLT,
    IfEQ,
    IfGE,
    IfLE,
    IfNotEQ,
    IfGtOrLT,
}

} // verus!
