use crate::interpreter::StackError;
use crate::operations::Operation;
use vstd::prelude::*;

verus! {

/// The hex crate's decoding error, carried through unchanged.
#[verifier::external_type_specification]
#[verifier::external_body]
pub struct ExFromHexError(hex::FromHexError);

/// Every way in which decoding or execution fails.
#[derive(Debug, PartialEq)]
pub enum Error {
    /// The bytecode text is not valid hexadecimal.
    Hex(hex::FromHexError),
    /// An opcode was expected but none was found.
    InvalidCode,
    /// A byte at an instruction boundary is not a known opcode.
    InvalidOpcode(u8),
    /// The operand stack over- or underflowed.
    Stack(StackError),
    /// The gas-used total no longer fits in a word.
    GasUsedOverflow,
    /// The interpreter was asked to run with no active frame.
    FrameUnderflow,
    /// The instruction has no semantics or no price yet.
    Unimplemented(Operation),
}

} // verus!
