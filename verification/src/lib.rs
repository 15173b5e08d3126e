//! Instruction decoder for a virtual machine with a dense, polymorphic ISA
//! encoding: raw 64-bit words are turned into strongly-typed, execution-ready
//! instruction records.
//!
//! The raw bit layout of a word is extracted by the ISA's own parser, which is
//! treated as a fixed external collaborator; everything after that point —
//! predicate mapping, source and destination addressing-mode resolution, and
//! opcode-family dispatch — is verified here.

pub mod operands;

pub mod instruction;

pub mod parse;

pub mod decode;
