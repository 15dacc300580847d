//! The processor: its registers and flags, instruction fetch, operand
//! resolution and execution.

use vstd::prelude::*;
use crate::error::CpuError;
use crate::instruction::{decode, AddressingMode, Instruction, Opcode};
use crate::memory::{get_word, load_word, to_bytes, Memory};
use crate::semantics::{
    branched, executed, fetched, flag_changed, follows, index_stepped, operand_value, operand_written,
    rotate_left, rotate_right, shift_left, shift_right, Shifted,
};
use crate::state::Machine;

verus! {

/// Shifts `value` left by one bit.
fn shift_left_of(value: u8) -> (shifted: Shifted)
    ensures
        shifted == shift_left(value),
{
    assert(value << 1 == ((2 * value) % 256) as u8) by (bit_vector);
    assert((value & 0x80 != 0) == (value >= 0x80)) by (bit_vector);
    Shifted { result: value << 1, carry: (value & 0x80) != 0 }
}

/// Shifts `value` right by one bit.
fn shift_right_of(value: u8) -> (shifted: Shifted)
    ensures
        shifted == shift_right(value),
{
    assert(value >> 1 == value / 2) by (bit_vector);
    assert((value & 0x01 != 0) == (value % 2 == 1)) by (bit_vector);
    Shifted { result: value >> 1, carry: (value & 0x01) != 0 }
}

/// Rotates `value` left by one bit through `carry`.
fn rotate_left_of(value: u8, carry: bool) -> (shifted: Shifted)
    ensures
        shifted == rotate_left(value, carry),
{
    let carry_in: u8 = if carry { 1 } else { 0 };
    assert((value << 1) | carry_in == ((2 * value + carry_in) % 256) as u8) by (bit_vector)
        requires
            carry_in <= 1,
    ;
    assert((value & 0x80 != 0) == (value >= 0x80)) by (bit_vector);
    Shifted { result: (value << 1) | carry_in, carry: (value & 0x80) != 0 }
}

/// Rotates `value` right by one bit through `carry`.
fn rotate_right_of(value: u8, carry: bool) -> (shifted: Shifted)
    ensures
        shifted == rotate_right(value, carry),
{
    let carry_in: u8 = if carry { 0x80 } else { 0 };
    assert((value >> 1) | carry_in == (value / 2 + carry_in) as u8) by (bit_vector)
        requires
            carry_in == 0 || carry_in == 0x80,
    ;
    assert((value & 0x01 != 0) == (value % 2 == 1)) by (bit_vector);
    Shifted { result: (value >> 1) | carry_in, carry: (value & 0x01) != 0 }
}

/// The processor, attached for its whole life to the bus it borrows.
///
/// The processor keeps no copy of what is on the bus: every operand is read
/// from the bus when an instruction needs it and written to the bus when an
/// instruction produces it. Its view is the [`Machine`] made of its registers,
/// its flags and the abstract contents of the bus.
pub struct Cpu<'a, M: Memory> {
    /// The program counter. Between instructions it is the address of the
    /// next opcode byte.
    pub pc: u16,
    /// The stack pointer: an index into the stack page at `0x0100`.
    pub sp: u8,
    pub accumulator: u8,
    pub x: u8,
    pub y: u8,
    pub carry: bool,
    pub zero: bool,
    /// The interrupt-disable flag.
    pub interrupt: bool,
    pub decimal: bool,
    /// The break flag.
    pub brk: bool,
    pub overflow: bool,
    /// The sign (negative) flag.
    pub sign: bool,
    pub memory: &'a mut M,
}

impl<'a, M: Memory> View for Cpu<'a, M> {
    type V = Machine<M::State>;

    open spec fn view(&self) -> Machine<M::State> {
        Machine {
            pc: self.pc,
            sp: self.sp,
            accumulator: self.accumulator,
            x: self.x,
            y: self.y,
            carry: self.carry,
            zero: self.zero,
            interrupt: self.interrupt,
            decimal: self.decimal,
            brk: self.brk,
            overflow: self.overflow,
            sign: self.sign,
            memory: self.memory.state(),
        }
    }
}

/// The address of the reset vector.
pub const RESET_VECTOR: u16 = 0xFFFC;

impl<'a, M: Memory> Cpu<'a, M> {
    /// A processor on `memory` with every register zero and every flag clear.
    /// The bus is not touched. When the processor is dropped, the lender
    /// finds the bus as the processor left it.
    pub fn new(memory: &'a mut M) -> (cpu: Self)
        ensures
            cpu@ == (Machine::<M::State> {
                pc: 0,
                sp: 0,
                accumulator: 0,
                x: 0,
                y: 0,
                carry: false,
                zero: false,
                interrupt: false,
                decimal: false,
                brk: false,
                overflow: false,
                sign: false,
                memory: old(memory).state(),
            }),
            *final(cpu.memory) == *final(memory),
    {
        Cpu {
            pc: 0x0,
            sp: 0x0,
            accumulator: 0x0,
            x: 0x0,
            y: 0x0,
            carry: false,
            zero: false,
            interrupt: false,
            decimal: false,
            brk: false,
            overflow: false,
            sign: false,
            memory,
        }
    }

    /// Loads the program counter from the little-endian word at the reset
    /// vector. Nothing else changes.
    pub fn reset(&mut self)
        ensures
            final(self)@ == (Machine { pc: load_word::<M>(old(self)@.memory, RESET_VECTOR), ..old(self)@ }),
            *final(final(self).memory) == *final(old(self).memory),
    {
        self.pc = get_word(&*self.memory, RESET_VECTOR);
    }

    /// Fetches the instruction at the program counter and moves the program
    /// counter past it: by one for the opcode byte plus the operand width of
    /// the decoded mode. Registers other than the program counter, flags and
    /// the bus are untouched. An opcode byte that the table does not define is
    /// fetched as a one-byte `Nop` of zero cycles.
    pub fn fetch_next_instruction(&mut self) -> (instruction: Instruction)
        ensures
            instruction == fetched::<M>(old(self)@),
            final(self)@ == (Machine {
                pc: ((old(self).pc + instruction.length()) % 0x10000) as u16,
                ..old(self)@
            }),
            *final(final(self).memory) == *final(old(self).memory),
    {
        let opcode: u8 = self.memory.get_byte(self.pc);
        let operand_addr: u16 = self.pc.wrapping_add(1);
        let byte_after_opcode: u8 = self.memory.get_byte(operand_addr);
        let word_after_opcode: u16 = get_word(&*self.memory, operand_addr);
        let result = decode(opcode, byte_after_opcode, word_after_opcode);

        let instruction_length: u16 = 1 + match result.mode {
            AddressingMode::ZeroPage(_) => 1u16,
            AddressingMode::ZeroPageX(_) => 1u16,
            AddressingMode::ZeroPageY(_) => 1u16,
            AddressingMode::IndirectX(_) => 1u16,
            AddressingMode::IndirectY(_) => 1u16,
            AddressingMode::Immediate(_) => 1u16,
            AddressingMode::Relative(_) => 1u16,
            AddressingMode::Absolute(_) => 2u16,
            AddressingMode::AbsoluteX(_) => 2u16,
            AddressingMode::AbsoluteY(_) => 2u16,
            AddressingMode::Indirect(_) => 2u16,
            AddressingMode::Implicit => 0u16,
            AddressingMode::Accumulator => 0u16,
        };

        self.pc = self.pc.wrapping_add(instruction_length);
        result
    }

    /// Executes `instruction` and returns its base cycle cost, `cycles` as the
    /// instruction carries it; a cycle for a crossed page is not added. The
    /// effect on registers, flags and the bus is the one that [`executed`]
    /// gives for the instruction's mnemonic and mode. An instruction that
    /// cannot be executed is reported as an error and changes nothing.
    pub fn execute_instruction(&mut self, instruction: Instruction) -> (result: Result<u8, CpuError>)
        ensures
            match executed::<M>(old(self)@, instruction.opcode, instruction.mode) {
                Ok(next) => result == Ok::<u8, CpuError>(instruction.cycles) && final(self)@ == next,
                Err(error) => result == Err::<u8, CpuError>(error) && final(self)@ == old(self)@,
            },
            *final(final(self).memory) == *final(old(self).memory),
    {
        let mode = instruction.mode;
        let outcome: Result<(), CpuError> = match instruction.opcode {
            Opcode::Add => self.adc(mode),
            Opcode::And => self.and(mode),
            Opcode::Asl => self.asl(mode),
            Opcode::Bcc => self.bcc(mode),
            Opcode::Bcs => self.bcs(mode),
            Opcode::Beq => self.beq(mode),
            Opcode::Bmi => self.bmi(mode),
            Opcode::Bne => self.bne(mode),
            Opcode::Bpl => self.bpl(mode),
            Opcode::Bvc => self.bvc(mode),
            Opcode::Bvs => self.bvs(mode),
            Opcode::Clc => {
                self.clc();
                Ok(())
            },
            Opcode::Cld => {
                self.cld();
                Ok(())
            },
            Opcode::Cli => {
                self.cli();
                Ok(())
            },
            Opcode::Clv => {
                self.clv();
                Ok(())
            },
            Opcode::Cmp => self.cmp(mode),
            Opcode::Cpx => self.cpx(mode),
            Opcode::Cpy => self.cpy(mode),
            Opcode::Dec => self.dec(mode),
            Opcode::Dex => {
                self.dex();
                Ok(())
            },
            Opcode::Dey => {
                self.dey();
                Ok(())
            },
            Opcode::Eor => self.eor(mode),
            Opcode::Inc => self.inc(mode),
            Opcode::Inx => {
                self.inx();
                Ok(())
            },
            Opcode::Iny => {
                self.iny();
                Ok(())
            },
            Opcode::Jmp => self.jmp(mode),
            Opcode::Jsr => self.jsr(mode),
            Opcode::Lsr => self.lsr(mode),
            Opcode::Nop => Ok(()),
            Opcode::Ora => self.ora(mode),
            Opcode::Rol => self.rol(mode),
            Opcode::Ror => self.ror(mode),
            Opcode::Sec => {
                self.sec();
                Ok(())
            },
            Opcode::Sed => {
                self.sed();
                Ok(())
            },
            Opcode::Sei => {
                self.sei();
                Ok(())
            },
            opcode => Err(CpuError::Unimplemented { opcode }),
        };
        match outcome {
            Ok(()) => Ok(instruction.cycles),
            Err(error) => Err(error),
        }
    }

    /// Resolves the operand value of `mode`: the operand itself for
    /// `Immediate`, the byte on the bus at the effective address for the
    /// modes that have one. `None` for a mode that yields no operand value.
    pub fn read_with_addressing_mode(&self, mode: AddressingMode) -> (value: Option<u8>)
        ensures
            value == operand_value::<M>(self@, mode),
    {
        match mode {
            AddressingMode::ZeroPage(val) => Some(self.memory.get_byte(u16::from(val))),
            AddressingMode::ZeroPageX(val) => Some(
                self.memory.get_byte(u16::from(val.wrapping_add(self.x))),
            ),
            AddressingMode::ZeroPageY(val) => Some(
                self.memory.get_byte(u16::from(val.wrapping_add(self.y))),
            ),
            AddressingMode::Absolute(addr) => Some(self.memory.get_byte(addr)),
            AddressingMode::AbsoluteX(val) => Some(
                self.memory.get_byte(val.wrapping_add(u16::from(self.x))),
            ),
            AddressingMode::AbsoluteY(val) => Some(
                self.memory.get_byte(val.wrapping_add(u16::from(self.y))),
            ),
            AddressingMode::IndirectX(val) => {
                let pointer: u16 = get_word(&*self.memory, u16::from(val.wrapping_add(self.x)));
                Some(self.memory.get_byte(pointer))
            },
            AddressingMode::IndirectY(val) => {
                let pointer: u16 = get_word(&*self.memory, u16::from(val));
                Some(self.memory.get_byte(pointer.wrapping_add(u16::from(self.y))))
            },
            AddressingMode::Immediate(val) => Some(val),
            _ => None,
        }
    }

    /// Writes `assigned_val` to the bus at the effective address of `mode`
    /// and returns `true`. For a mode without an effective address nothing is
    /// written and the result is `false`.
    pub fn write_with_addressing_mode(&mut self, mode: AddressingMode, assigned_val: u8) -> (written: bool)
        ensures
            match operand_written::<M>(old(self)@, mode, assigned_val) {
                Some(next) => written && final(self)@ == next,
                None => !written && final(self)@ == old(self)@,
            },
            *final(final(self).memory) == *final(old(self).memory),
    {
        match mode {
            AddressingMode::ZeroPage(val) => {
                self.memory.set_byte(u16::from(val), assigned_val);
                true
            },
            AddressingMode::ZeroPageX(val) => {
                self.memory.set_byte(u16::from(val.wrapping_add(self.x)), assigned_val);
                true
            },
            AddressingMode::ZeroPageY(val) => {
                self.memory.set_byte(u16::from(val.wrapping_add(self.y)), assigned_val);
                true
            },
            AddressingMode::Absolute(addr) => {
                self.memory.set_byte(addr, assigned_val);
                true
            },
            AddressingMode::AbsoluteX(val) => {
                self.memory.set_byte(val.wrapping_add(u16::from(self.x)), assigned_val);
                true
            },
            AddressingMode::AbsoluteY(val) => {
                self.memory.set_byte(val.wrapping_add(u16::from(self.y)), assigned_val);
                true
            },
            AddressingMode::IndirectX(val) => {
                let pointer: u16 = get_word(&*self.memory, u16::from(val.wrapping_add(self.x)));
                self.memory.set_byte(pointer, assigned_val);
                true
            },
            AddressingMode::IndirectY(val) => {
                let pointer: u16 = get_word(&*self.memory, u16::from(val));
                self.memory.set_byte(pointer.wrapping_add(u16::from(self.y)), assigned_val);
                true
            },
            _ => false,
        }
    }

    /// Sets the zero flag when `value` is zero and the sign flag when bit 7 of
    /// `value` is set.
    fn set_zero_sign(&mut self, value: u8)
        ensures
            final(self)@ == old(self)@.with_zero_sign(value),
            *final(final(self).memory) == *final(old(self).memory),
    {
        assert((value & 0x80 != 0) == (value >= 0x80)) by (bit_vector);
        self.sign = (value & 0x80) != 0;
        self.zero = (value == 0);
    }

    /// Add with carry.
    fn adc(&mut self, mode: AddressingMode) -> (result: Result<(), CpuError>)
        ensures
            follows(result, old(self)@, final(self)@, executed::<M>(old(self)@, Opcode::Add, mode)),
            *final(final(self).memory) == *final(old(self).memory),
    {
        let operand: u8 = match self.read_with_addressing_mode(mode) {
            Some(value) => value,
            None => return Err(CpuError::InvalidAddressingMode { opcode: Opcode::Add, mode }),
        };

        let first_add: u8 = self.accumulator.wrapping_add(operand);
        let first_carry: bool = first_add < self.accumulator;
        let carry_in: u8 = if self.carry { 1 } else { 0 };
        let result: u8 = first_add.wrapping_add(carry_in);
        let second_carry: bool = result < first_add;

        self.accumulator = result;
        self.set_zero_sign(result);
        self.carry = first_carry || second_carry;
        self.overflow = ((operand ^ result) & (self.accumulator ^ result) & 0x80) != 0;
        Ok(())
    }

    /// Bitwise AND with the accumulator.
    fn and(&mut self, mode: AddressingMode) -> (result: Result<(), CpuError>)
        ensures
            follows(result, old(self)@, final(self)@, executed::<M>(old(self)@, Opcode::And, mode)),
            *final(final(self).memory) == *final(old(self).memory),
    {
        let operand: u8 = match self.read_with_addressing_mode(mode) {
            Some(value) => value,
            None => return Err(CpuError::InvalidAddressingMode { opcode: Opcode::And, mode }),
        };
        let result: u8 = self.accumulator & operand;

        self.accumulator = result;
        self.set_zero_sign(result);
        Ok(())
    }

    /// Arithmetic shift left of the accumulator or of a memory cell.
    fn asl(&mut self, mode: AddressingMode) -> (result: Result<(), CpuError>)
        ensures
            follows(result, old(self)@, final(self)@, executed::<M>(old(self)@, Opcode::Asl, mode)),
            *final(final(self).memory) == *final(old(self).memory),
    {
        match mode {
            AddressingMode::Accumulator => {
                let shifted = shift_left_of(self.accumulator);
                self.accumulator = shifted.result;
                self.carry = shifted.carry;
                self.set_zero_sign(shifted.result);
                Ok(())
            },
            _ => {
                let value: u8 = match self.read_with_addressing_mode(mode) {
                    Some(value) => value,
                    None => return Err(CpuError::InvalidAddressingMode { opcode: Opcode::Asl, mode }),
                };
                let shifted = shift_left_of(value);
                if !self.write_with_addressing_mode(mode, shifted.result) {
                    return Err(CpuError::InvalidAddressingMode { opcode: Opcode::Asl, mode });
                }
                self.carry = shifted.carry;
                self.set_zero_sign(shifted.result);
                Ok(())
            },
        }
    }

    /// Moves the program counter by `offset` when `condition` holds.
    fn branch(&mut self, condition: bool, offset: i8)
        ensures
            final(self)@ == branched(old(self)@, condition, offset),
            *final(final(self).memory) == *final(old(self).memory),
    {
        if condition {
            self.pc = self.pc.wrapping_add_signed(offset as i16);
        }
    }

    /// Branch if carry clear.
    fn bcc(&mut self, mode: AddressingMode) -> (result: Result<(), CpuError>)
        ensures
            follows(result, old(self)@, final(self)@, executed::<M>(old(self)@, Opcode::Bcc, mode)),
            *final(final(self).memory) == *final(old(self).memory),
    {
        match mode {
            AddressingMode::Relative(offset) => {
                self.branch(!self.carry, offset);
                Ok(())
            },
            _ => Err(CpuError::InvalidAddressingMode { opcode: Opcode::Bcc, mode }),
        }
    }

    /// Branch if carry set.
    fn bcs(&mut self, mode: AddressingMode) -> (result: Result<(), CpuError>)
        ensures
            follows(result, old(self)@, final(self)@, executed::<M>(old(self)@, Opcode::Bcs, mode)),
            *final(final(self).memory) == *final(old(self).memory),
    {
        match mode {
            AddressingMode::Relative(offset) => {
                self.branch(self.carry, offset);
                Ok(())
            },
            _ => Err(CpuError::InvalidAddressingMode { opcode: Opcode::Bcs, mode }),
        }
    }

    /// Branch if zero set.
    fn beq(&mut self, mode: AddressingMode) -> (result: Result<(), CpuError>)
        ensures
            follows(result, old(self)@, final(self)@, executed::<M>(old(self)@, Opcode::Beq, mode)),
            *final(final(self).memory) == *final(old(self).memory),
    {
        match mode {
            AddressingMode::Relative(offset) => {
                self.branch(self.zero, offset);
                Ok(())
            },
            _ => Err(CpuError::InvalidAddressingMode { opcode: Opcode::Beq, mode }),
        }
    }

    /// Branch if sign set.
    fn bmi(&mut self, mode: AddressingMode) -> (result: Result<(), CpuError>)
        ensures
            follows(result, old(self)@, final(self)@, executed::<M>(old(self)@, Opcode::Bmi, mode)),
            *final(final(self).memory) == *final(old(self).memory),
    {
        match mode {
            AddressingMode::Relative(offset) => {
                self.branch(self.sign, offset);
                Ok(())
            },
            _ => Err(CpuError::InvalidAddressingMode { opcode: Opcode::Bmi, mode }),
        }
    }

    /// Branch if zero clear.
    fn bne(&mut self, mode: AddressingMode) -> (result: Result<(), CpuError>)
        ensures
            follows(result, old(self)@, final(self)@, executed::<M>(old(self)@, Opcode::Bne, mode)),
            *final(final(self).memory) == *final(old(self).memory),
    {
        match mode {
            AddressingMode::Relative(offset) => {
                self.branch(!self.zero, offset);
                Ok(())
            },
            _ => Err(CpuError::InvalidAddressingMode { opcode: Opcode::Bne, mode }),
        }
    }

    /// Branch if sign clear.
    fn bpl(&mut self, mode: AddressingMode) -> (result: Result<(), CpuError>)
        ensures
            follows(result, old(self)@, final(self)@, executed::<M>(old(self)@, Opcode::Bpl, mode)),
            *final(final(self).memory) == *final(old(self).memory),
    {
        match mode {
            AddressingMode::Relative(offset) => {
                self.branch(!self.sign, offset);
                Ok(())
            },
            _ => Err(CpuError::InvalidAddressingMode { opcode: Opcode::Bpl, mode }),
        }
    }

    /// Branch if overflow clear.
    fn bvc(&mut self, mode: AddressingMode) -> (result: Result<(), CpuError>)
        ensures
            follows(result, old(self)@, final(self)@, executed::<M>(old(self)@, Opcode::Bvc, mode)),
            *final(final(self).memory) == *final(old(self).memory),
    {
        match mode {
            AddressingMode::Relative(offset) => {
                self.branch(!self.overflow, offset);
                Ok(())
            },
            _ => Err(CpuError::InvalidAddressingMode { opcode: Opcode::Bvc, mode }),
        }
    }

    /// Branch if overflow set.
    fn bvs(&mut self, mode: AddressingMode) -> (result: Result<(), CpuError>)
        ensures
            follows(result, old(self)@, final(self)@, executed::<M>(old(self)@, Opcode::Bvs, mode)),
            *final(final(self).memory) == *final(old(self).memory),
    {
        match mode {
            AddressingMode::Relative(offset) => {
                self.branch(self.overflow, offset);
                Ok(())
            },
            _ => Err(CpuError::InvalidAddressingMode { opcode: Opcode::Bvs, mode }),
        }
    }

    /// Clear carry.
    fn clc(&mut self)
        ensures
            final(self)@ == flag_changed(old(self)@, Opcode::Clc),
            *final(final(self).memory) == *final(old(self).memory),
    {
        self.carry = false;
    }

    /// Clear decimal.
    fn cld(&mut self)
        ensures
            final(self)@ == flag_changed(old(self)@, Opcode::Cld),
            *final(final(self).memory) == *final(old(self).memory),
    {
        self.decimal = false;
    }

    /// Clear interrupt-disable.
    fn cli(&mut self)
        ensures
            final(self)@ == flag_changed(old(self)@, Opcode::Cli),
            *final(final(self).memory) == *final(old(self).memory),
    {
        self.interrupt = false;
    }

    /// Clear overflow.
    fn clv(&mut self)
        ensures
            final(self)@ == flag_changed(old(self)@, Opcode::Clv),
            *final(final(self).memory) == *final(old(self).memory),
    {
        self.overflow = false;
    }

    /// Compare the accumulator with the operand.
    fn cmp(&mut self, mode: AddressingMode) -> (result: Result<(), CpuError>)
        ensures
            follows(result, old(self)@, final(self)@, executed::<M>(old(self)@, Opcode::Cmp, mode)),
            *final(final(self).memory) == *final(old(self).memory),
    {
        let operand: u8 = match self.read_with_addressing_mode(mode) {
            Some(value) => value,
            None => return Err(CpuError::InvalidAddressingMode { opcode: Opcode::Cmp, mode }),
        };

        self.sign = self.accumulator < operand;
        self.zero = self.accumulator == operand;
        self.carry = self.accumulator >= operand;
        Ok(())
    }

    /// Compare X with the operand.
    fn cpx(&mut self, mode: AddressingMode) -> (result: Result<(), CpuError>)
        ensures
            follows(result, old(self)@, final(self)@, executed::<M>(old(self)@, Opcode::Cpx, mode)),
            *final(final(self).memory) == *final(old(self).memory),
    {
        let operand: u8 = match self.read_with_addressing_mode(mode) {
            Some(value) => value,
            None => return Err(CpuError::InvalidAddressingMode { opcode: Opcode::Cpx, mode }),
        };

        self.sign = self.x < operand;
        self.zero = self.x == operand;
        self.carry = self.x >= operand;
        Ok(())
    }

    /// Compare Y with the operand.
    fn cpy(&mut self, mode: AddressingMode) -> (result: Result<(), CpuError>)
        ensures
            follows(result, old(self)@, final(self)@, executed::<M>(old(self)@, Opcode::Cpy, mode)),
            *final(final(self).memory) == *final(old(self).memory),
    {
        let operand: u8 = match self.read_with_addressing_mode(mode) {
            Some(value) => value,
            None => return Err(CpuError::InvalidAddressingMode { opcode: Opcode::Cpy, mode }),
        };

        self.sign = self.y < operand;
        self.zero = self.y == operand;
        self.carry = self.y >= operand;
        Ok(())
    }

    /// Decrement a memory cell.
    fn dec(&mut self, mode: AddressingMode) -> (result: Result<(), CpuError>)
        ensures
            follows(result, old(self)@, final(self)@, executed::<M>(old(self)@, Opcode::Dec, mode)),
            *final(final(self).memory) == *final(old(self).memory),
    {
        let old_val: u8 = match self.read_with_addressing_mode(mode) {
            Some(value) => value,
            None => return Err(CpuError::InvalidAddressingMode { opcode: Opcode::Dec, mode }),
        };
        let result: u8 = old_val.wrapping_sub(1);
        if !self.write_with_addressing_mode(mode, result) {
            return Err(CpuError::InvalidAddressingMode { opcode: Opcode::Dec, mode });
        }
        self.set_zero_sign(result);
        Ok(())
    }

    /// Decrement X.
    fn dex(&mut self)
        ensures
            final(self)@ == index_stepped(old(self)@, Opcode::Dex),
            *final(final(self).memory) == *final(old(self).memory),
    {
        self.x = self.x.wrapping_sub(1);
        self.set_zero_sign(self.x);
    }

    /// Decrement Y.
    fn dey(&mut self)
        ensures
            final(self)@ == index_stepped(old(self)@, Opcode::Dey),
            *final(final(self).memory) == *final(old(self).memory),
    {
        self.y = self.y.wrapping_sub(1);
        self.set_zero_sign(self.y);
    }

    /// Bitwise exclusive OR with the accumulator.
    fn eor(&mut self, mode: AddressingMode) -> (result: Result<(), CpuError>)
        ensures
            follows(result, old(self)@, final(self)@, executed::<M>(old(self)@, Opcode::Eor, mode)),
            *final(final(self).memory) == *final(old(self).memory),
    {
        let operand: u8 = match self.read_with_addressing_mode(mode) {
            Some(value) => value,
            None => return Err(CpuError::InvalidAddressingMode { opcode: Opcode::Eor, mode }),
        };
        let result: u8 = self.accumulator ^ operand;

        self.accumulator = result;
        self.set_zero_sign(result);
        Ok(())
    }

    /// Increment a memory cell.
    fn inc(&mut self, mode: AddressingMode) -> (result: Result<(), CpuError>)
        ensures
            follows(result, old(self)@, final(self)@, executed::<M>(old(self)@, Opcode::Inc, mode)),
            *final(final(self).memory) == *final(old(self).memory),
    {
        let old_val: u8 = match self.read_with_addressing_mode(mode) {
            Some(value) => value,
            None => return Err(CpuError::InvalidAddressingMode { opcode: Opcode::Inc, mode }),
        };
        let result: u8 = old_val.wrapping_add(1);
        if !self.write_with_addressing_mode(mode, result) {
            return Err(CpuError::InvalidAddressingMode { opcode: Opcode::Inc, mode });
        }
        self.set_zero_sign(result);
        Ok(())
    }

    /// Increment X.
    fn inx(&mut self)
        ensures
            final(self)@ == index_stepped(old(self)@, Opcode::Inx),
            *final(final(self).memory) == *final(old(self).memory),
    {
        self.x = self.x.wrapping_add(1);
        self.set_zero_sign(self.x);
    }

    /// Increment Y.
    fn iny(&mut self)
        ensures
            final(self)@ == index_stepped(old(self)@, Opcode::Iny),
            *final(final(self).memory) == *final(old(self).memory),
    {
        self.y = self.y.wrapping_add(1);
        self.set_zero_sign(self.y);
    }

    /// Jump: absolute, or through the pointer at the operand address.
    fn jmp(&mut self, mode: AddressingMode) -> (result: Result<(), CpuError>)
        ensures
            follows(result, old(self)@, final(self)@, executed::<M>(old(self)@, Opcode::Jmp, mode)),
            *final(final(self).memory) == *final(old(self).memory),
    {
        match mode {
            AddressingMode::Absolute(addr) => {
                self.pc = addr;
                Ok(())
            },
            AddressingMode::Indirect(addr) => {
                self.pc = get_word(&*self.memory, addr);
                Ok(())
            },
            _ => Err(CpuError::InvalidAddressingMode { opcode: Opcode::Jmp, mode }),
        }
    }

    /// Jump to subroutine.
    fn jsr(&mut self, mode: AddressingMode) -> (result: Result<(), CpuError>)
        ensures
            follows(result, old(self)@, final(self)@, executed::<M>(old(self)@, Opcode::Jsr, mode)),
            *final(final(self).memory) == *final(old(self).memory),
    {
        match mode {
            AddressingMode::Absolute(addr) => {
                let (low, high) = to_bytes(self.pc.wrapping_add(2));
                self.sp = self.sp.wrapping_sub(2);
                self.memory.set_byte(0x100 + u16::from(self.sp), low);
                self.memory.set_byte(0x100 + u16::from(self.sp.wrapping_add(1)), high);
                self.pc = addr;
                Ok(())
            },
            _ => Err(CpuError::InvalidAddressingMode { opcode: Opcode::Jsr, mode }),
        }
    }

    /// Logical shift right of the accumulator or of a memory cell.
    fn lsr(&mut self, mode: AddressingMode) -> (result: Result<(), CpuError>)
        ensures
            follows(result, old(self)@, final(self)@, executed::<M>(old(self)@, Opcode::Lsr, mode)),
            *final(final(self).memory) == *final(old(self).memory),
    {
        match mode {
            AddressingMode::Accumulator => {
                let shifted = shift_right_of(self.accumulator);
                self.accumulator = shifted.result;
                self.carry = shifted.carry;
                self.set_zero_sign(shifted.result);
                Ok(())
            },
            _ => {
                let value: u8 = match self.read_with_addressing_mode(mode) {
                    Some(value) => value,
                    None => return Err(CpuError::InvalidAddressingMode { opcode: Opcode::Lsr, mode }),
                };
                let shifted = shift_right_of(value);
                if !self.write_with_addressing_mode(mode, shifted.result) {
                    return Err(CpuError::InvalidAddressingMode { opcode: Opcode::Lsr, mode });
                }
                self.carry = shifted.carry;
                self.set_zero_sign(shifted.result);
                Ok(())
            },
        }
    }

    /// Bitwise OR with the accumulator.
    fn ora(&mut self, mode: AddressingMode) -> (result: Result<(), CpuError>)
        ensures
            follows(result, old(self)@, final(self)@, executed::<M>(old(self)@, Opcode::Ora, mode)),
            *final(final(self).memory) == *final(old(self).memory),
    {
        let operand: u8 = match self.read_with_addressing_mode(mode) {
            Some(value) => value,
            None => return Err(CpuError::InvalidAddressingMode { opcode: Opcode::Ora, mode }),
        };
        let result: u8 = self.accumulator | operand;

        self.accumulator = result;
        self.set_zero_sign(result);
        Ok(())
    }

    /// Rotate the accumulator or a memory cell left through carry.
    fn rol(&mut self, mode: AddressingMode) -> (result: Result<(), CpuError>)
        ensures
            follows(result, old(self)@, final(self)@, executed::<M>(old(self)@, Opcode::Rol, mode)),
            *final(final(self).memory) == *final(old(self).memory),
    {
        match mode {
            AddressingMode::Accumulator => {
                let shifted = rotate_left_of(self.accumulator, self.carry);
                self.accumulator = shifted.result;
                self.carry = shifted.carry;
                self.set_zero_sign(shifted.result);
                Ok(())
            },
            _ => {
                let value: u8 = match self.read_with_addressing_mode(mode) {
                    Some(value) => value,
                    None => return Err(CpuError::InvalidAddressingMode { opcode: Opcode::Rol, mode }),
                };
                let shifted = rotate_left_of(value, self.carry);
                if !self.write_with_addressing_mode(mode, shifted.result) {
                    return Err(CpuError::InvalidAddressingMode { opcode: Opcode::Rol, mode });
                }
                self.carry = shifted.carry;
                self.set_zero_sign(shifted.result);
                Ok(())
            },
        }
    }

    /// Rotate the accumulator or a memory cell right through carry.
    fn ror(&mut self, mode: AddressingMode) -> (result: Result<(), CpuError>)
        ensures
            follows(result, old(self)@, final(self)@, executed::<M>(old(self)@, Opcode::Ror, mode)),
            *final(final(self).memory) == *final(old(self).memory),
    {
        match mode {
            AddressingMode::Accumulator => {
                let shifted = rotate_right_of(self.accumulator, self.carry);
                self.accumulator = shifted.result;
                self.carry = shifted.carry;
                self.set_zero_sign(shifted.result);
                Ok(())
            },
            _ => {
                let value: u8 = match self.read_with_addressing_mode(mode) {
                    Some(value) => value,
                    None => return Err(CpuError::InvalidAddressingMode { opcode: Opcode::Ror, mode }),
                };
                let shifted = rotate_right_of(value, self.carry);
                if !self.write_with_addressing_mode(mode, shifted.result) {
                    return Err(CpuError::InvalidAddressingMode { opcode: Opcode::Ror, mode });
                }
                self.carry = shifted.carry;
                self.set_zero_sign(shifted.result);
                Ok(())
            },
        }
    }

    /// Set carry.
    fn sec(&mut self)
        ensures
            final(self)@ == flag_changed(old(self)@, Opcode::Sec),
            *final(final(self).memory) == *final(old(self).memory),
    {
        self.carry = true;
    }

    /// Set decimal.
    fn sed(&mut self)
        ensures
            final(self)@ == flag_changed(old(self)@, Opcode::Sed),
            *final(final(self).memory) == *final(old(self).memory),
    {
        self.decimal = true;
    }

    /// Set interrupt-disable.
    fn sei(&mut self)
        ensures
            final(self)@ == flag_changed(old(self)@, Opcode::Sei),
            *final(final(self).memory) == *final(old(self).memory),
    {
        self.interrupt = true;
    }
}

} // verus!
