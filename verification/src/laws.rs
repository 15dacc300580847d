//! Properties of the decoder, the resolver and the instruction semantics,
//! proved once for all inputs.

use vstd::prelude::*;
use crate::error::CpuError;
use crate::instruction::{decoded, is_defined, offset_of, AddressingMode, Instruction, Opcode};
use crate::memory::{high_byte, load_word, low_byte, store_word, word_of, Memory, Ram};
use crate::semantics::{
    add_with_carry, branch_taken, effective_address, executed, operand_value, operand_written,
    shifted, sign_bits_differ, stack_address, subroutine_entered,
};
use crate::state::{bit, is_negative, Machine};

verus! {

/// Zero cycles mark exactly the opcode bytes that the table does not define,
/// and such a byte decodes to a `Nop` without operand bytes and without a
/// page-crossing cost. Every defined opcode costs at least two cycles.
pub proof fn lemma_zero_cycles_mark_undefined_opcodes(opcode: u8, byte: u8, word: u16)
    ensures
        is_defined(opcode) <==> decoded(opcode, byte, word).cycles != 0,
        is_defined(opcode) ==> 2 <= decoded(opcode, byte, word).cycles <= 7,
        !is_defined(opcode) ==> decoded(opcode, byte, word) == (Instruction {
            opcode: Opcode::Nop,
            mode: AddressingMode::Implicit,
            cycles: 0,
            page_cross_cost: false,
        }),
{
}

/// The operand that a decoded mode carries is taken from the bytes that
/// follow the opcode, as many of them as the mode is wide: the byte after the
/// opcode for a mode of width one (read as a signed number for `Relative`),
/// the word after the opcode for a mode of width two.
pub proof fn lemma_decoded_operand_follows_opcode(opcode: u8, byte: u8, word: u16)
    ensures
        match decoded(opcode, byte, word).mode {
            AddressingMode::ZeroPage(operand)
            | AddressingMode::ZeroPageX(operand)
            | AddressingMode::ZeroPageY(operand)
            | AddressingMode::IndirectX(operand)
            | AddressingMode::IndirectY(operand)
            | AddressingMode::Immediate(operand) => operand == byte,
            AddressingMode::Relative(offset) => offset == offset_of(byte),
            AddressingMode::Absolute(operand)
            | AddressingMode::AbsoluteX(operand)
            | AddressingMode::AbsoluteY(operand)
            | AddressingMode::Indirect(operand) => operand == word,
            AddressingMode::Implicit | AddressingMode::Accumulator => true,
        },
        1 <= decoded(opcode, byte, word).length() <= 3,
{
}

/// A write through a mode goes to the address that a read through the same
/// mode, in the same state, comes from: whenever the write is possible, so
/// is the read, both use the one effective address, and the write changes
/// nothing but the bus.
pub proof fn lemma_write_targets_read_address<M: Memory>(
    s: Machine<M::State>,
    mode: AddressingMode,
    value: u8,
)
    requires
        operand_written::<M>(s, mode, value) is Some,
    ensures
        effective_address::<M>(s, mode) is Some,
        operand_value::<M>(s, mode) == Some(
            M::load(s.memory, effective_address::<M>(s, mode).unwrap()),
        ),
        operand_written::<M>(s, mode, value).unwrap() == (Machine {
            memory: M::store(s.memory, effective_address::<M>(s, mode).unwrap(), value),
            ..s
        }),
{
}

/// A mode that can be read but not written is `Immediate`; every other mode
/// can either be both read and written or neither.
pub proof fn lemma_only_immediate_is_read_only<M: Memory>(s: Machine<M::State>, mode: AddressingMode)
    ensures
        mode is Immediate <==> operand_value::<M>(s, mode) is Some && operand_written::<M>(
            s,
            mode,
            0,
        ) is None,
{
}

/// The decoder pairs every mnemonic with a mode that the mnemonic can use:
/// a decoded instruction is executed, or fails because its mnemonic is
/// unimplemented, and never because of its addressing mode.
pub proof fn lemma_decoded_mode_suits_the_mnemonic<M: Memory>(
    s: Machine<M::State>,
    opcode: u8,
    byte: u8,
    word: u16,
)
    ensures
        !(executed::<M>(s, decoded(opcode, byte, word).opcode, decoded(opcode, byte, word).mode)
            matches Err(CpuError::InvalidAddressingMode { .. })),
{
}

/// A shift, rotate, increment or decrement of a memory cell changes the bus
/// by one write, to the address that its mode resolves to before the
/// instruction runs: the cell that it read.
pub proof fn lemma_rewrite_touches_one_cell<M: Memory>(
    s: Machine<M::State>,
    opcode: Opcode,
    mode: AddressingMode,
)
    requires
        opcode is Asl || opcode is Lsr || opcode is Rol || opcode is Ror || opcode is Inc || opcode
            is Dec,
        mode !is Accumulator,
        executed::<M>(s, opcode, mode) is Ok,
    ensures
        effective_address::<M>(s, mode) is Some,
        exists|value: u8|
            executed::<M>(s, opcode, mode).unwrap().memory == M::store(
                s.memory,
                effective_address::<M>(s, mode).unwrap(),
                value,
            ),
{
    let addr = effective_address::<M>(s, mode).unwrap();
    let next = executed::<M>(s, opcode, mode).unwrap();
    let old_value = M::load(s.memory, addr);
    let stored: u8 = match opcode {
        Opcode::Inc => ((old_value + 1) % 256) as u8,
        Opcode::Dec => ((old_value - 1) % 256) as u8,
        _ => shifted(opcode, old_value, s.carry).result,
    };
    assert(next.memory == M::store(s.memory, addr, stored));
}

/// A shift or rotate of the accumulator and a shift or rotate of a memory
/// cell compute the same value and the same flags from what they are given;
/// they differ in where the value comes from and goes to.
pub proof fn lemma_shift_is_the_same_on_register_and_cell<M: Memory>(
    s: Machine<M::State>,
    opcode: Opcode,
    mode: AddressingMode,
)
    requires
        opcode is Asl || opcode is Lsr || opcode is Rol || opcode is Ror,
        effective_address::<M>(s, mode) is Some,
        M::load(s.memory, effective_address::<M>(s, mode).unwrap()) == s.accumulator,
    ensures
        executed::<M>(s, opcode, AddressingMode::Accumulator) is Ok,
        executed::<M>(s, opcode, mode) is Ok,
        ({
            let on_register = executed::<M>(s, opcode, AddressingMode::Accumulator).unwrap();
            let on_cell = executed::<M>(s, opcode, mode).unwrap();
            &&& on_register.memory == s.memory
            &&& on_cell.accumulator == s.accumulator
            &&& on_cell.memory == M::store(
                s.memory,
                effective_address::<M>(s, mode).unwrap(),
                on_register.accumulator,
            )
            &&& on_cell.carry == on_register.carry
            &&& on_cell.zero == on_register.zero
            &&& on_cell.sign == on_register.sign
        }),
{
}

/// `Jsr` writes two bytes, both in the stack page `0x0100..=0x01FF`, whatever
/// the stack pointer is.
pub proof fn lemma_subroutine_call_writes_in_the_stack_page<M: Memory>(
    s: Machine<M::State>,
    target: u16,
)
    ensures
        ({
            let after = subroutine_entered::<M>(s, target);
            exists|first: u16, low: u8, second: u16, high: u8|
                0x0100 <= first <= 0x01FF && 0x0100 <= second <= 0x01FF && after.memory == M::store(
                    M::store(s.memory, first, low),
                    second,
                    high,
                )
        }),
{
    let sp: u8 = ((s.sp - 2) % 256) as u8;
    let above: u8 = ((sp + 1) % 256) as u8;
    let return_address: u16 = ((s.pc + 2) % 0x10000) as u16;
    let first = stack_address(sp);
    let second = stack_address(above);
    let after = subroutine_entered::<M>(s, target);
    assert(0x0100 <= first <= 0x01FF && 0x0100 <= second <= 0x01FF && after.memory == M::store(
        M::store(s.memory, first, low_byte(return_address)),
        second,
        high_byte(return_address),
    ));
}

/// On plain storage `Jsr` leaves every byte outside the stack page as it
/// was, and the word read back from the new top of the stack is the return
/// address unless the stack pointer wrapped between its two bytes.
pub proof fn lemma_subroutine_call_on_ram(s: Machine<Seq<u8>>, target: u16)
    requires
        s.memory.len() == 0x10000,
    ensures
        ({
            let after = subroutine_entered::<Ram>(s, target);
            &&& forall|addr: int|
                0 <= addr < 0x10000 && !(0x0100 <= addr <= 0x01FF) ==> #[trigger] after.memory[addr]
                    == s.memory[addr]
            &&& after.sp != 0xFF ==> load_word::<Ram>(after.memory, stack_address(after.sp))
                == (s.pc + 2) % 0x10000
        }),
{
    lemma_word_bytes(((s.pc + 2) % 0x10000) as u16, 0, 0);
}

/// An instruction that is executed without error and writes neither to a
/// memory cell nor to the stack leaves the bus as it was.
pub proof fn lemma_other_instructions_keep_the_bus<M: Memory>(
    s: Machine<M::State>,
    opcode: Opcode,
    mode: AddressingMode,
)
    requires
        !(opcode is Inc || opcode is Dec || opcode is Jsr),
        (opcode is Asl || opcode is Lsr || opcode is Rol || opcode is Ror) ==> mode is Accumulator,
        executed::<M>(s, opcode, mode) is Ok,
    ensures
        executed::<M>(s, opcode, mode).unwrap().memory == s.memory,
{
}

/// A branch changes the program counter and nothing else, and the program
/// counter only when the branch is taken: it then moves by the signed
/// offset, modulo 65536. The two branches on one flag are taken on opposite
/// values of it.
pub proof fn lemma_branch_moves_only_the_program_counter<M: Memory>(
    s: Machine<M::State>,
    opcode: Opcode,
    offset: i8,
)
    requires
        opcode is Bcc || opcode is Bcs || opcode is Beq || opcode is Bne || opcode is Bmi || opcode
            is Bpl || opcode is Bvc || opcode is Bvs,
    ensures
        executed::<M>(s, opcode, AddressingMode::Relative(offset)) == Ok::<Machine<M::State>, CpuError>(
            Machine {
                pc: if branch_taken(s, opcode) {
                    ((s.pc + offset) % 0x10000) as u16
                } else {
                    s.pc
                },
                ..s
            },
        ),
        branch_taken(s, Opcode::Bcc) != branch_taken(s, Opcode::Bcs),
        branch_taken(s, Opcode::Bne) != branch_taken(s, Opcode::Beq),
        branch_taken(s, Opcode::Bpl) != branch_taken(s, Opcode::Bmi),
        branch_taken(s, Opcode::Bvc) != branch_taken(s, Opcode::Bvs),
{
}

/// An instruction that fails names its own mnemonic in the error, and an
/// invalid addressing mode is reported with the mode that was given.
pub proof fn lemma_error_names_the_instruction<M: Memory>(
    s: Machine<M::State>,
    opcode: Opcode,
    mode: AddressingMode,
)
    ensures
        match executed::<M>(s, opcode, mode) {
            Ok(_) => true,
            Err(CpuError::InvalidAddressingMode { opcode: named, mode: given }) => named == opcode
                && given == mode,
            Err(CpuError::Unimplemented { opcode: named }) => named == opcode,
        },
{
}

/// The sign test is the test of bit 7.
pub proof fn lemma_negative_is_bit_seven(value: u8)
    ensures
        is_negative(value) <==> value & 0x80 != 0,
{
    assert((value >= 0x80) == (value & 0x80 != 0)) by (bit_vector);
}

/// Add with carry leaves the overflow flag clear whatever it adds: the flag
/// is computed from the accumulator after the result is in it, and a byte
/// differs from itself in no bit.
pub proof fn lemma_add_with_carry_clears_overflow<S>(s: Machine<S>, operand: u8)
    ensures
        !add_with_carry(s, operand).overflow,
{
    let result = add_with_carry(s, operand).accumulator;
    assert(!sign_bits_differ(operand, result, result)) by (bit_vector);
}

/// Add with carry computes the 9-bit sum of accumulator, operand and carry:
/// the accumulator gets the low eight bits and the carry flag the ninth.
pub proof fn lemma_add_with_carry_is_nine_bit_sum<S>(s: Machine<S>, operand: u8)
    ensures
        add_with_carry(s, operand).accumulator + 256 * bit(add_with_carry(s, operand).carry)
            == s.accumulator + operand + bit(s.carry),
{
}

/// A word is made of its low and high byte, and those are the bytes that a
/// word is made of.
pub proof fn lemma_word_bytes(word: u16, low: u8, high: u8)
    ensures
        word_of(low_byte(word), high_byte(word)) == word,
        low_byte(word_of(low, high)) == low,
        high_byte(word_of(low, high)) == high,
{
}

/// On plain storage a word that is written at an address is the word that is
/// read back from it, also where the word wraps from `0xFFFF` to `0x0000`.
pub proof fn lemma_ram_word_round_trip(state: Seq<u8>, addr: u16, word: u16)
    requires
        state.len() == 0x10000,
    ensures
        load_word::<Ram>(store_word::<Ram>(state, addr, word), addr) == word,
{
    lemma_word_bytes(word, 0, 0);
}

} // verus!
