//! What each instruction does, as functions on [`Machine`].
//!
//! All 8-bit arithmetic wraps modulo 256 and all address arithmetic wraps
//! modulo 65536.

use vstd::prelude::*;
use crate::error::CpuError;
use crate::instruction::{decoded, AddressingMode, Instruction, Opcode};
use crate::memory::{high_byte, load_word, low_byte, Memory};
use crate::state::{bit, Machine};

verus! {

/// The zero-page address `base + index`, wrapped to stay in page zero.
pub open spec fn zero_page_address(base: u8, index: u8) -> u16 {
    ((base + index) % 256) as u16
}

/// The address `base + index`, wrapped to 16 bits.
pub open spec fn indexed_address(base: u16, index: u8) -> u16 {
    ((base + index) % 0x10000) as u16
}

/// The address in memory that `mode` designates in state `s`, for the modes
/// that designate one.
///
/// - `ZeroPage`: the operand, in page zero.
/// - `ZeroPageX`, `ZeroPageY`: operand plus index register, wrapped within
///   page zero.
/// - `Absolute`: the operand.
/// - `AbsoluteX`, `AbsoluteY`: operand plus index register.
/// - `IndirectX`: the word whose low byte is in page zero at operand plus X
///   (wrapped within page zero).
/// - `IndirectY`: the word whose low byte is in page zero at the operand,
///   plus Y.
///
/// The pointer of the two indirect modes is read as any word is: its high
/// byte comes from the address after the low byte. Only the address of the
/// low byte wraps within page zero, so a pointer whose low byte is at
/// `0x00FF` has its high byte at `0x0100`.
///
/// The other modes designate no address for an operand.
pub open spec fn effective_address<M: Memory>(s: Machine<M::State>, mode: AddressingMode) -> Option<u16> {
    match mode {
        AddressingMode::ZeroPage(base) => Some(base as u16),
        AddressingMode::ZeroPageX(base) => Some(zero_page_address(base, s.x)),
        AddressingMode::ZeroPageY(base) => Some(zero_page_address(base, s.y)),
        AddressingMode::Absolute(addr) => Some(addr),
        AddressingMode::AbsoluteX(base) => Some(indexed_address(base, s.x)),
        AddressingMode::AbsoluteY(base) => Some(indexed_address(base, s.y)),
        AddressingMode::IndirectX(base) => Some(
            load_word::<M>(s.memory, zero_page_address(base, s.x)),
        ),
        AddressingMode::IndirectY(base) => Some(
            indexed_address(load_word::<M>(s.memory, base as u16), s.y),
        ),
        _ => None,
    }
}

/// The operand value that `mode` yields in state `s`: the operand itself for
/// `Immediate`, the byte at the effective address for the modes that have
/// one, and nothing for `Indirect`, `Implicit`, `Relative` and `Accumulator`.
/// The accumulator is no operand that is resolved here: the shifts and
/// rotates, which alone take `Accumulator`, go to the register themselves.
pub open spec fn operand_value<M: Memory>(s: Machine<M::State>, mode: AddressingMode) -> Option<u8> {
    match mode {
        AddressingMode::Immediate(value) => Some(value),
        _ => match effective_address::<M>(s, mode) {
            Some(addr) => Some(M::load(s.memory, addr)),
            None => None,
        },
    }
}

/// The state after `value` is written through `mode` in state `s`: the bus
/// takes the write at the effective address and nothing else changes. The
/// modes without an effective address, `Immediate` among them, cannot be
/// written through.
pub open spec fn operand_written<M: Memory>(
    s: Machine<M::State>,
    mode: AddressingMode,
    value: u8,
) -> Option<Machine<M::State>> {
    match effective_address::<M>(s, mode) {
        Some(addr) => Some(Machine { memory: M::store(s.memory, addr, value), ..s }),
        None => None,
    }
}

/// The instruction that a fetch finds at the program counter of `s`: the
/// opcode byte at `pc`, decoded with the byte and the little-endian word that
/// start at `pc + 1`.
pub open spec fn fetched<M: Memory>(s: Machine<M::State>) -> Instruction {
    let operand_addr: u16 = ((s.pc + 1) % 0x10000) as u16;
    decoded(
        M::load(s.memory, s.pc),
        M::load(s.memory, operand_addr),
        load_word::<M>(s.memory, operand_addr),
    )
}

/// The error for an instruction whose mode its mnemonic cannot use.
pub open spec fn invalid_mode(opcode: Opcode, mode: AddressingMode) -> CpuError {
    CpuError::InvalidAddressingMode { opcode, mode }
}

/// The overflow flag as add-with-carry computes it from the operand, the
/// result and the accumulator: set when bit 7 of `operand ^ result` and of
/// `accumulator ^ result` are both set.
pub open spec fn sign_bits_differ(operand: u8, result: u8, accumulator: u8) -> bool {
    ((operand ^ result) & (accumulator ^ result) & 0x80) != 0
}

/// Add with carry. The accumulator becomes `accumulator + operand + carry`
/// modulo 256 and the carry flag tells whether the sum passed 255. Zero and
/// sign follow the result. The overflow flag is computed by
/// [`sign_bits_differ`] from the operand, the result, and the accumulator as
/// it stands once the result is in it; the two are then equal, so the flag
/// comes out clear (see `laws::lemma_add_with_carry_clears_overflow`).
pub open spec fn add_with_carry<S>(s: Machine<S>, operand: u8) -> Machine<S> {
    let sum: int = s.accumulator + operand + bit(s.carry);
    let result: u8 = (sum % 256) as u8;
    Machine {
        accumulator: result,
        carry: sum > 255,
        overflow: sign_bits_differ(operand, result, result),
        ..s.with_zero_sign(result)
    }
}

/// The accumulator replaced by `value`, with zero and sign set from it.
pub open spec fn accumulator_loaded<S>(s: Machine<S>, value: u8) -> Machine<S> {
    Machine { accumulator: value, ..s.with_zero_sign(value) }
}

/// Comparison of `register` with `operand`: carry when `register >= operand`,
/// zero when they are equal, sign when `register < operand`. The sign flag
/// is thus the outcome of the unsigned comparison, not bit 7 of the
/// difference: after a compare, a branch on sign is a branch on "less than".
/// No register changes.
pub open spec fn compared<S>(s: Machine<S>, register: u8, operand: u8) -> Machine<S> {
    Machine {
        carry: register >= operand,
        zero: register == operand,
        sign: register < operand,
        ..s
    }
}

/// The value and the carry that a shift or rotate of `value` gives.
pub struct Shifted {
    pub result: u8,
    pub carry: bool,
}

/// Arithmetic shift left: bit 7 goes to carry, bit 0 becomes zero.
pub open spec fn shift_left(value: u8) -> Shifted {
    Shifted { result: ((2 * value) % 256) as u8, carry: value >= 0x80 }
}

/// Logical shift right: bit 0 goes to carry, bit 7 becomes zero.
pub open spec fn shift_right(value: u8) -> Shifted {
    Shifted { result: value / 2, carry: value % 2 == 1 }
}

/// Rotate left through carry: bit 7 goes to carry, the old carry becomes
/// bit 0.
pub open spec fn rotate_left(value: u8, carry: bool) -> Shifted {
    Shifted {
        result: ((2 * value + bit(carry)) % 256) as u8,
        carry: value >= 0x80,
    }
}

/// Rotate right through carry: bit 0 goes to carry, the old carry becomes
/// bit 7.
pub open spec fn rotate_right(value: u8, carry: bool) -> Shifted {
    Shifted {
        result: (value / 2 + 128 * bit(carry)) as u8,
        carry: value % 2 == 1,
    }
}

/// What the shift or rotate `opcode` makes of `value` with `carry` coming
/// in. For any other mnemonic, `value` and `carry` as they are.
pub open spec fn shifted(opcode: Opcode, value: u8, carry: bool) -> Shifted {
    match opcode {
        Opcode::Asl => shift_left(value),
        Opcode::Lsr => shift_right(value),
        Opcode::Rol => rotate_left(value, carry),
        Opcode::Ror => rotate_right(value, carry),
        _ => Shifted { result: value, carry },
    }
}

/// A shift or rotate of the accumulator: the accumulator takes
/// `shifted.result`, carry takes `shifted.carry`, zero and sign follow the
/// result. The bus is not touched.
pub open spec fn accumulator_shifted<S>(s: Machine<S>, shifted: Shifted) -> Machine<S> {
    Machine {
        accumulator: shifted.result,
        carry: shifted.carry,
        ..s.with_zero_sign(shifted.result)
    }
}

/// A read-modify-write on the cell at `addr`: the cell takes `shifted.result`,
/// carry takes `shifted.carry`, zero and sign follow the result.
pub open spec fn cell_shifted<M: Memory>(
    s: Machine<M::State>,
    addr: u16,
    shifted: Shifted,
) -> Machine<M::State> {
    Machine {
        memory: M::store(s.memory, addr, shifted.result),
        carry: shifted.carry,
        ..s.with_zero_sign(shifted.result)
    }
}

/// The cell at `addr` set to `value`, with zero and sign set from `value`.
pub open spec fn cell_set<M: Memory>(s: Machine<M::State>, addr: u16, value: u8) -> Machine<M::State> {
    Machine { memory: M::store(s.memory, addr, value), ..s.with_zero_sign(value) }
}

/// The program counter moved by the signed `offset`, modulo 65536.
pub open spec fn branch_target(pc: u16, offset: i8) -> u16 {
    ((pc + offset) % 0x10000) as u16
}

/// A conditional branch: when `condition` holds the program counter moves by
/// `offset`; no flag changes either way.
pub open spec fn branched<S>(s: Machine<S>, condition: bool, offset: i8) -> Machine<S> {
    if condition {
        Machine { pc: branch_target(s.pc, offset), ..s }
    } else {
        s
    }
}

/// Whether the branch `opcode` is taken in state `s`. Each branch tests one
/// flag or its negation. False for a mnemonic that is no branch.
pub open spec fn branch_taken<S>(s: Machine<S>, opcode: Opcode) -> bool {
    match opcode {
        Opcode::Bcc => !s.carry,
        Opcode::Bcs => s.carry,
        Opcode::Beq => s.zero,
        Opcode::Bmi => s.sign,
        Opcode::Bne => !s.zero,
        Opcode::Bpl => !s.sign,
        Opcode::Bvc => !s.overflow,
        Opcode::Bvs => s.overflow,
        _ => false,
    }
}

/// The address in the stack page at `0x0100` that the stack pointer `sp`
/// designates.
pub open spec fn stack_address(sp: u8) -> u16 {
    (0x100 + sp) as u16
}

/// Jump to subroutine at `target`. The stack pointer drops by two in one
/// step, the word `pc + 2` is stored little-endian at the new top of the
/// stack, and the program counter becomes `target`. Here `pc` is the program
/// counter as the fetch left it, past the three bytes of the instruction.
///
/// The low byte goes to the stack address of the new stack pointer and the
/// high byte to the stack address of the new stack pointer plus one, modulo
/// 256: both bytes stay in the stack page, also when the stack pointer wraps.
pub open spec fn subroutine_entered<M: Memory>(s: Machine<M::State>, target: u16) -> Machine<M::State> {
    let sp: u8 = ((s.sp - 2) % 256) as u8;
    let above: u8 = ((sp + 1) % 256) as u8;
    let return_address: u16 = ((s.pc + 2) % 0x10000) as u16;
    Machine {
        pc: target,
        sp,
        memory: M::store(
            M::store(s.memory, stack_address(sp), low_byte(return_address)),
            stack_address(above),
            high_byte(return_address),
        ),
        ..s
    }
}

/// What a mnemonic that reads an operand does with the value `operand`.
///
/// - `Add` adds it and the carry to the accumulator.
/// - `And`, `Ora`, `Eor` combine it bitwise with the accumulator and set zero
///   and sign from the result.
/// - `Cmp`, `Cpx`, `Cpy` compare the accumulator, X or Y with it.
///
/// The state is unchanged for any other mnemonic.
pub open spec fn operand_applied<S>(s: Machine<S>, opcode: Opcode, operand: u8) -> Machine<S> {
    match opcode {
        Opcode::Add => add_with_carry(s, operand),
        Opcode::And => accumulator_loaded(s, s.accumulator & operand),
        Opcode::Ora => accumulator_loaded(s, s.accumulator | operand),
        Opcode::Eor => accumulator_loaded(s, s.accumulator ^ operand),
        Opcode::Cmp => compared(s, s.accumulator, operand),
        Opcode::Cpx => compared(s, s.x, operand),
        Opcode::Cpy => compared(s, s.y, operand),
        _ => s,
    }
}

/// `Inc` and `Dec` on the cell at `addr`: the cell takes what it holds plus
/// or minus one, modulo 256, and zero and sign follow the new value. Carry,
/// overflow and the registers are untouched. The state is unchanged for any
/// other mnemonic.
pub open spec fn cell_stepped<M: Memory>(
    s: Machine<M::State>,
    opcode: Opcode,
    addr: u16,
) -> Machine<M::State> {
    let value = M::load(s.memory, addr);
    match opcode {
        Opcode::Inc => cell_set::<M>(s, addr, ((value + 1) % 256) as u8),
        Opcode::Dec => cell_set::<M>(s, addr, ((value - 1) % 256) as u8),
        _ => s,
    }
}

/// An index register stepped up or down by one, modulo 256, with zero and
/// sign set from the new value. The state is unchanged for a mnemonic other
/// than `Inx`, `Iny`, `Dex` and `Dey`.
pub open spec fn index_stepped<S>(s: Machine<S>, opcode: Opcode) -> Machine<S> {
    match opcode {
        Opcode::Inx => {
            let x: u8 = ((s.x + 1) % 256) as u8;
            Machine { x, ..s.with_zero_sign(x) }
        },
        Opcode::Iny => {
            let y: u8 = ((s.y + 1) % 256) as u8;
            Machine { y, ..s.with_zero_sign(y) }
        },
        Opcode::Dex => {
            let x: u8 = ((s.x - 1) % 256) as u8;
            Machine { x, ..s.with_zero_sign(x) }
        },
        Opcode::Dey => {
            let y: u8 = ((s.y - 1) % 256) as u8;
            Machine { y, ..s.with_zero_sign(y) }
        },
        _ => s,
    }
}

/// A status-flag mnemonic sets or clears the one flag it names and nothing
/// else. The state is unchanged for any other mnemonic.
pub open spec fn flag_changed<S>(s: Machine<S>, opcode: Opcode) -> Machine<S> {
    match opcode {
        Opcode::Clc => Machine { carry: false, ..s },
        Opcode::Cld => Machine { decimal: false, ..s },
        Opcode::Cli => Machine { interrupt: false, ..s },
        Opcode::Clv => Machine { overflow: false, ..s },
        Opcode::Sec => Machine { carry: true, ..s },
        Opcode::Sed => Machine { decimal: true, ..s },
        Opcode::Sei => Machine { interrupt: true, ..s },
        _ => s,
    }
}

/// The outcome of executing the mnemonic `opcode` with the addressing mode
/// `mode` in state `s`: the next state, or the reason why the instruction
/// cannot be executed.
///
/// - `Add`, `And`, `Ora`, `Eor`, `Cmp`, `Cpx`, `Cpy` need a mode that yields
///   an operand value.
/// - `Asl`, `Lsr`, `Rol`, `Ror` take `Accumulator`, which makes them work
///   on the accumulator, or a mode with an effective address, which makes
///   them read and write the cell at that one address. `Implicit` names no
///   operand and is rejected.
/// - `Inc` and `Dec` need a mode with an effective address; they read and
///   write the cell at that one address.
/// - The branches take `Relative` only.
/// - `Jmp` takes `Absolute` or `Indirect`, `Jsr` takes `Absolute`.
/// - The index steps, the flag mnemonics and `Nop` ignore the mode.
/// - Every other mnemonic is unimplemented and fails as such, whatever its
///   mode: the loads, stores and transfers, the pushes and pulls, `Bit`,
///   `Brk`, `Rti`, `Rts` and `Sbc`.
pub open spec fn executed<M: Memory>(
    s: Machine<M::State>,
    opcode: Opcode,
    mode: AddressingMode,
) -> Result<Machine<M::State>, CpuError> {
    match opcode {
        Opcode::Add | Opcode::And | Opcode::Ora | Opcode::Eor | Opcode::Cmp | Opcode::Cpx | Opcode::Cpy => {
            match operand_value::<M>(s, mode) {
                Some(operand) => Ok(operand_applied(s, opcode, operand)),
                None => Err(invalid_mode(opcode, mode)),
            }
        },
        Opcode::Asl | Opcode::Lsr | Opcode::Rol | Opcode::Ror => match mode {
            AddressingMode::Accumulator => Ok(
                accumulator_shifted(s, shifted(opcode, s.accumulator, s.carry)),
            ),
            _ => match effective_address::<M>(s, mode) {
                Some(addr) => Ok(
                    cell_shifted::<M>(s, addr, shifted(opcode, M::load(s.memory, addr), s.carry)),
                ),
                None => Err(invalid_mode(opcode, mode)),
            },
        },
        Opcode::Inc | Opcode::Dec => match effective_address::<M>(s, mode) {
            Some(addr) => Ok(cell_stepped::<M>(s, opcode, addr)),
            None => Err(invalid_mode(opcode, mode)),
        },
        Opcode::Bcc
        | Opcode::Bcs
        | Opcode::Beq
        | Opcode::Bmi
        | Opcode::Bne
        | Opcode::Bpl
        | Opcode::Bvc
        | Opcode::Bvs => match mode {
            AddressingMode::Relative(offset) => Ok(branched(s, branch_taken(s, opcode), offset)),
            _ => Err(invalid_mode(opcode, mode)),
        },
        Opcode::Jmp => match mode {
            AddressingMode::Absolute(target) => Ok(Machine { pc: target, ..s }),
            AddressingMode::Indirect(pointer) => Ok(
                Machine { pc: load_word::<M>(s.memory, pointer), ..s },
            ),
            _ => Err(invalid_mode(opcode, mode)),
        },
        Opcode::Jsr => match mode {
            AddressingMode::Absolute(target) => Ok(subroutine_entered::<M>(s, target)),
            _ => Err(invalid_mode(opcode, mode)),
        },
        Opcode::Inx | Opcode::Iny | Opcode::Dex | Opcode::Dey => Ok(index_stepped(s, opcode)),
        Opcode::Clc
        | Opcode::Cld
        | Opcode::Cli
        | Opcode::Clv
        | Opcode::Sec
        | Opcode::Sed
        | Opcode::Sei => Ok(flag_changed(s, opcode)),
        Opcode::Nop => Ok(s),
        _ => Err(CpuError::Unimplemented { opcode }),
    }
}

/// Whether a handler's `result` and the states `before` and `after` it agree
/// with the `expected` outcome: on success the state is the expected one, on
/// failure the error is the expected one and the state is untouched.
pub open spec fn follows<S>(
    result: Result<(), CpuError>,
    before: Machine<S>,
    after: Machine<S>,
    expected: Result<Machine<S>, CpuError>,
) -> bool {
    match expected {
        Ok(next) => result is Ok && after == next,
        Err(error) => result == Err::<(), CpuError>(error) && after == before,
    }
}

} // verus!
