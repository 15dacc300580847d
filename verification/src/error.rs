//! The ways in which executing an instruction can fail.

use vstd::prelude::*;
use crate::instruction::{AddressingMode, Opcode};

verus! {

/// Why an instruction was not executed. An instruction that fails leaves the
/// processor and the bus as they were.
#[derive(Copy, Clone, Debug, PartialEq, Eq)]
pub enum CpuError {
    /// The instruction carries an addressing mode that its mnemonic cannot
    /// use. No instruction that the decoder produces is of this kind.
    InvalidAddressingMode { opcode: Opcode, mode: AddressingMode },
    /// The mnemonic is decoded but has no execution semantics. It is reported
    /// rather than skipped, so that a caller decides what an instruction
    /// without effect is worth.
    Unimplemented { opcode: Opcode },
}

} // verus!
