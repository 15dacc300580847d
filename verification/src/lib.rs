//! An interpreter core for the 8-bit, 6502-family processor of a retro game
//! console: instruction decode, operand resolution and per-opcode execution
//! over a caller-supplied memory bus.
//!
//! A [`Cpu`] borrows a [`Memory`] and is driven by its caller, which
//! alternates [`Cpu::fetch_next_instruction`] and
//! [`Cpu::execute_instruction`], one pair per instruction. `reset` is the
//! only other way in. Decimal mode, interrupts and the timing of the bus are
//! not modelled.
//!
//! Every function is verified against a contract over [`Machine`], the
//! mathematical value of the processor and its bus. The module `semantics`
//! says what each instruction does and `laws` holds what follows for all
//! inputs.
//!
//! The opcode table is the documented one of the processor: mnemonic,
//! addressing mode, base cycles and page-crossing cost for each of the 151
//! defined opcode bytes. Any other byte decodes to a `Nop` of zero cycles.
//!
//! Some conventions differ from what a reader of the processor's data sheet
//! may expect. They are part of the contracts:
//!
//! - `Add` computes the overflow flag against the accumulator that already
//!   holds the sum, which leaves the flag clear after every addition.
//! - A compare sets the sign flag when the register is less than the
//!   operand, as unsigned numbers.
//! - `Jsr` drops the stack pointer by two and stores the program counter
//!   plus two, low byte at the new top of the stack and high byte above it,
//!   both within the stack page.
//! - The mnemonics without semantics fail with [`CpuError::Unimplemented`]
//!   and change nothing.

pub mod cpu;
pub mod error;
pub mod instruction;
pub mod laws;
pub mod memory;
pub mod semantics;
pub mod state;

pub use cpu::Cpu;
pub use error::CpuError;
pub use instruction::{decode, AddressingMode, Instruction, Opcode};
pub use memory::{get_word, set_word, Memory, Ram};
pub use state::Machine;
