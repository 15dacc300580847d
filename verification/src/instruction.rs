//! Instructions as the decoder produces them, and the opcode table.

use vstd::prelude::*;

verus! {

/// The mnemonics of the instruction set.
#[derive(Copy, Clone, Debug, PartialEq, Eq)]
pub enum Opcode {
    Add,
    And,
    Asl,
    Bcc,
    Bcs,
    Beq,
    Bit,
    Bmi,
    Bne,
    Bpl,
    Brk,
    Bvc,
    Bvs,
    Clc,
    Cld,
    Cli,
    Clv,
    Cmp,
    Cpx,
    Cpy,
    Dec,
    Dex,
    Dey,
    Eor,
    Inc,
    Inx,
    Iny,
    Jmp,
    Jsr,
    Lda,
    Ldx,
    Ldy,
    Lsr,
    Nop,
    Ora,
    Pha,
    Php,
    Pla,
    Plp,
    Rol,
    Ror,
    Rti,
    Rts,
    Sbc,
    Sec,
    Sed,
    Sei,
    Sta,
    Stx,
    Sty,
    Tax,
    Tay,
    Tsx,
    Txa,
    Txs,
    Tya,
}

/// How an instruction finds its operand, together with the raw operand bytes
/// that followed the opcode.
#[derive(Copy, Clone, Debug, PartialEq, Eq)]
pub enum AddressingMode {
    ZeroPage(u8),
    ZeroPageX(u8),
    ZeroPageY(u8),
    Absolute(u16),
    AbsoluteX(u16),
    AbsoluteY(u16),
    Indirect(u16),
    IndirectX(u8),
    IndirectY(u8),
    Implicit,
    Immediate(u8),
    Relative(i8),
    Accumulator,
}

impl AddressingMode {
    /// The number of operand bytes that follow the opcode in memory. The mode
    /// alone determines it.
    pub open spec fn operand_width(self) -> int {
        match self {
            AddressingMode::Implicit | AddressingMode::Accumulator => 0,
            AddressingMode::ZeroPage(_)
            | AddressingMode::ZeroPageX(_)
            | AddressingMode::ZeroPageY(_)
            | AddressingMode::IndirectX(_)
            | AddressingMode::IndirectY(_)
            | AddressingMode::Immediate(_)
            | AddressingMode::Relative(_) => 1,
            AddressingMode::Absolute(_)
            | AddressingMode::AbsoluteX(_)
            | AddressingMode::AbsoluteY(_)
            | AddressingMode::Indirect(_) => 2,
        }
    }
}

/// One decoded instruction.
#[derive(Copy, Clone, Debug)]
pub struct Instruction {
    pub opcode: Opcode,
    pub mode: AddressingMode,
    /// The base cycle cost. Zero marks an opcode byte that the table does not
    /// define.
    pub cycles: u8,
    /// Whether crossing a 256-byte page while the address is computed costs
    /// one more cycle.
    pub page_cross_cost: bool,
}

impl Instruction {
    /// The length of the instruction in memory: the opcode byte and its
    /// operand bytes.
    pub open spec fn length(self) -> int {
        1 + self.mode.operand_width()
    }
}

/// `byte` read as a two's-complement number.
pub open spec fn offset_of(byte: u8) -> i8 {
    if byte < 128 {
        byte as i8
    } else {
        (byte - 256) as i8
    }
}

/// Whether the table defines `opcode`.
pub open spec fn is_defined(opcode: u8) -> bool {
    match opcode {
        0x00 | 0x01 | 0x05 | 0x06 | 0x08 | 0x09 | 0x0A | 0x0D | 0x0E | 0x10 | 0x11
        | 0x15 | 0x16 | 0x18 | 0x19 | 0x1D | 0x1E | 0x20 | 0x21 | 0x24 | 0x25 | 0x26
        | 0x28 | 0x29 | 0x2A | 0x2C | 0x2D | 0x2E | 0x30 | 0x31 | 0x35 | 0x36 | 0x38
        | 0x39 | 0x3D | 0x3E | 0x40 | 0x41 | 0x45 | 0x46 | 0x48 | 0x49 | 0x4A | 0x4C
        | 0x4D | 0x4E | 0x50 | 0x51 | 0x55 | 0x56 | 0x58 | 0x59 | 0x5D | 0x5E | 0x60
        | 0x61 | 0x65 | 0x66 | 0x68 | 0x69 | 0x6A | 0x6C | 0x6D | 0x6E | 0x70 | 0x71
        | 0x75 | 0x76 | 0x78 | 0x79 | 0x7D | 0x7E | 0x81 | 0x84 | 0x85 | 0x86 | 0x88
        | 0x8A | 0x8C | 0x8D | 0x8E | 0x90 | 0x91 | 0x94 | 0x95 | 0x96 | 0x98 | 0x99
        | 0x9A | 0x9D | 0xA0 | 0xA1 | 0xA2 | 0xA4 | 0xA5 | 0xA6 | 0xA8 | 0xA9 | 0xAA
        | 0xAC | 0xAD | 0xAE | 0xB0 | 0xB1 | 0xB4 | 0xB5 | 0xB6 | 0xB8 | 0xB9 | 0xBA
        | 0xBC | 0xBD | 0xBE | 0xC0 | 0xC1 | 0xC4 | 0xC5 | 0xC6 | 0xC8 | 0xC9 | 0xCA
        | 0xCC | 0xCD | 0xCE | 0xD0 | 0xD1 | 0xD5 | 0xD6 | 0xD8 | 0xD9 | 0xDD | 0xDE
        | 0xE0 | 0xE1 | 0xE4 | 0xE5 | 0xE6 | 0xE8 | 0xE9 | 0xEA | 0xEC | 0xED | 0xEE
        | 0xF0 | 0xF1 | 0xF5 | 0xF6 | 0xF8 | 0xF9 | 0xFD | 0xFE => true,
        _ => false,
    }
}

/// The mnemonic of `opcode`; `Nop` for a byte that the table does not define.
pub open spec fn mnemonic_of(opcode: u8) -> Opcode {
    match opcode {
        0x61 | 0x65 | 0x69 | 0x6D | 0x71 | 0x75 | 0x79 | 0x7D => Opcode::Add,
        0x21 | 0x25 | 0x29 | 0x2D | 0x31 | 0x35 | 0x39 | 0x3D => Opcode::And,
        0x06 | 0x0A | 0x0E | 0x16 | 0x1E => Opcode::Asl,
        0x90 => Opcode::Bcc,
        0xB0 => Opcode::Bcs,
        0xF0 => Opcode::Beq,
        0x24 | 0x2C => Opcode::Bit,
        0x30 => Opcode::Bmi,
        0xD0 => Opcode::Bne,
        0x10 => Opcode::Bpl,
        0x00 => Opcode::Brk,
        0x50 => Opcode::Bvc,
        0x70 => Opcode::Bvs,
        0x18 => Opcode::Clc,
        0xD8 => Opcode::Cld,
        0x58 => Opcode::Cli,
        0xB8 => Opcode::Clv,
        0xC1 | 0xC5 | 0xC9 | 0xCD | 0xD1 | 0xD5 | 0xD9 | 0xDD => Opcode::Cmp,
        0xE0 | 0xE4 | 0xEC => Opcode::Cpx,
        0xC0 | 0xC4 | 0xCC => Opcode::Cpy,
        0xC6 | 0xCE | 0xD6 | 0xDE => Opcode::Dec,
        0xCA => Opcode::Dex,
        0x88 => Opcode::Dey,
        0x41 | 0x45 | 0x49 | 0x4D | 0x51 | 0x55 | 0x59 | 0x5D => Opcode::Eor,
        0xE6 | 0xEE | 0xF6 | 0xFE => Opcode::Inc,
        0xE8 => Opcode::Inx,
        0xC8 => Opcode::Iny,
        0x4C | 0x6C => Opcode::Jmp,
        0x20 => Opcode::Jsr,
        0xA1 | 0xA5 | 0xA9 | 0xAD | 0xB1 | 0xB5 | 0xB9 | 0xBD => Opcode::Lda,
        0xA2 | 0xA6 | 0xAE | 0xB6 | 0xBE => Opcode::Ldx,
        0xA0 | 0xA4 | 0xAC | 0xB4 | 0xBC => Opcode::Ldy,
        0x46 | 0x4A | 0x4E | 0x56 | 0x5E => Opcode::Lsr,
        0x01 | 0x05 | 0x09 | 0x0D | 0x11 | 0x15 | 0x19 | 0x1D => Opcode::Ora,
        0x48 => Opcode::Pha,
        0x08 => Opcode::Php,
        0x68 => Opcode::Pla,
        0x28 => Opcode::Plp,
        0x26 | 0x2A | 0x2E | 0x36 | 0x3E => Opcode::Rol,
        0x66 | 0x6A | 0x6E | 0x76 | 0x7E => Opcode::Ror,
        0x40 => Opcode::Rti,
        0x60 => Opcode::Rts,
        0xE1 | 0xE5 | 0xE9 | 0xED | 0xF1 | 0xF5 | 0xF9 | 0xFD => Opcode::Sbc,
        0x38 => Opcode::Sec,
        0xF8 => Opcode::Sed,
        0x78 => Opcode::Sei,
        0x81 | 0x85 | 0x8D | 0x91 | 0x95 | 0x99 | 0x9D => Opcode::Sta,
        0x86 | 0x8E | 0x96 => Opcode::Stx,
        0x84 | 0x8C | 0x94 => Opcode::Sty,
        0xAA => Opcode::Tax,
        0xA8 => Opcode::Tay,
        0xBA => Opcode::Tsx,
        0x8A => Opcode::Txa,
        0x9A => Opcode::Txs,
        0x98 => Opcode::Tya,
        _ => Opcode::Nop,
    }
}

/// The addressing mode of `opcode`, filled with the operand that follows it:
/// `byte` is the byte after the opcode and `word` the little-endian word
/// after the opcode. `Implicit` for a byte that the table does not define.
pub open spec fn mode_of(opcode: u8, byte: u8, word: u16) -> AddressingMode {
    match opcode {
        0x09 | 0x29 | 0x49 | 0x69 | 0xA0 | 0xA2 | 0xA9 | 0xC0 | 0xC9 | 0xE0 | 0xE9 => AddressingMode::Immediate(byte),
        0x05 | 0x06 | 0x24 | 0x25 | 0x26 | 0x45 | 0x46 | 0x65 | 0x66 | 0x84 | 0x85
        | 0x86 | 0xA4 | 0xA5 | 0xA6 | 0xC4 | 0xC5 | 0xC6 | 0xE4 | 0xE5 | 0xE6 => AddressingMode::ZeroPage(byte),
        0x15 | 0x16 | 0x35 | 0x36 | 0x55 | 0x56 | 0x75 | 0x76 | 0x94 | 0x95 | 0xB4
        | 0xB5 | 0xD5 | 0xD6 | 0xF5 | 0xF6 => AddressingMode::ZeroPageX(byte),
        0x96 | 0xB6 => AddressingMode::ZeroPageY(byte),
        0x0D | 0x0E | 0x20 | 0x2C | 0x2D | 0x2E | 0x4C | 0x4D | 0x4E | 0x6D | 0x6E
        | 0x8C | 0x8D | 0x8E | 0xAC | 0xAD | 0xAE | 0xCC | 0xCD | 0xCE | 0xEC | 0xED
        | 0xEE => AddressingMode::Absolute(word),
        0x1D | 0x1E | 0x3D | 0x3E | 0x5D | 0x5E | 0x7D | 0x7E | 0x9D | 0xBC | 0xBD
        | 0xDD | 0xDE | 0xFD | 0xFE => AddressingMode::AbsoluteX(word),
        0x19 | 0x39 | 0x59 | 0x79 | 0x99 | 0xB9 | 0xBE | 0xD9 | 0xF9 => AddressingMode::AbsoluteY(word),
        0x6C => AddressingMode::Indirect(word),
        0x01 | 0x21 | 0x41 | 0x61 | 0x81 | 0xA1 | 0xC1 | 0xE1 => AddressingMode::IndirectX(byte),
        0x11 | 0x31 | 0x51 | 0x71 | 0x91 | 0xB1 | 0xD1 | 0xF1 => AddressingMode::IndirectY(byte),
        0x10 | 0x30 | 0x50 | 0x70 | 0x90 | 0xB0 | 0xD0 | 0xF0 => AddressingMode::Relative(offset_of(byte)),
        0x0A | 0x2A | 0x4A | 0x6A => AddressingMode::Accumulator,
        _ => AddressingMode::Implicit,
    }
}

/// The base cycle cost of `opcode`; zero for a byte that the table does not
/// define.
pub open spec fn base_cycles(opcode: u8) -> u8 {
    match opcode {
        0x09 | 0x0A | 0x10 | 0x18 | 0x29 | 0x2A | 0x30 | 0x38 | 0x49 | 0x4A | 0x50
        | 0x58 | 0x69 | 0x6A | 0x70 | 0x78 | 0x88 | 0x8A | 0x90 | 0x98 | 0x9A | 0xA0
        | 0xA2 | 0xA8 | 0xA9 | 0xAA | 0xB0 | 0xB8 | 0xBA | 0xC0 | 0xC8 | 0xC9 | 0xCA
        | 0xD0 | 0xD8 | 0xE0 | 0xE8 | 0xE9 | 0xEA | 0xF0 | 0xF8 => 2,
        0x05 | 0x08 | 0x24 | 0x25 | 0x45 | 0x48 | 0x4C | 0x65 | 0x84 | 0x85 | 0x86
        | 0xA4 | 0xA5 | 0xA6 | 0xC4 | 0xC5 | 0xE4 | 0xE5 => 3,
        0x0D | 0x15 | 0x19 | 0x1D | 0x28 | 0x2C | 0x2D | 0x35 | 0x39 | 0x3D | 0x4D
        | 0x55 | 0x59 | 0x5D | 0x68 | 0x6D | 0x75 | 0x79 | 0x7D | 0x8C | 0x8D | 0x8E
        | 0x94 | 0x95 | 0x96 | 0xAC | 0xAD | 0xAE | 0xB4 | 0xB5 | 0xB6 | 0xB9 | 0xBC
        | 0xBD | 0xBE | 0xCC | 0xCD | 0xD5 | 0xD9 | 0xDD | 0xEC | 0xED | 0xF5 | 0xF9
        | 0xFD => 4,
        0x06 | 0x11 | 0x26 | 0x31 | 0x46 | 0x51 | 0x66 | 0x6C | 0x71 | 0x99 | 0x9D
        | 0xB1 | 0xC6 | 0xD1 | 0xE6 | 0xF1 => 5,
        0x01 | 0x0E | 0x16 | 0x20 | 0x21 | 0x2E | 0x36 | 0x40 | 0x41 | 0x4E | 0x56
        | 0x60 | 0x61 | 0x6E | 0x76 | 0x81 | 0x91 | 0xA1 | 0xC1 | 0xCE | 0xD6 | 0xE1
        | 0xEE | 0xF6 => 6,
        0x00 | 0x1E | 0x3E | 0x5E | 0x7E | 0xDE | 0xFE => 7,
        _ => 0,
    }
}

/// Whether `opcode` costs one more cycle when its address computation crosses
/// a page.
pub open spec fn page_cross_cost(opcode: u8) -> bool {
    match opcode {
        0x10 | 0x11 | 0x19 | 0x1D | 0x30 | 0x31 | 0x39 | 0x3D | 0x50 | 0x51 | 0x59
        | 0x5D | 0x70 | 0x71 | 0x79 | 0x7D | 0x90 | 0xB0 | 0xB1 | 0xB9 | 0xBC | 0xBD
        | 0xBE | 0xD0 | 0xD1 | 0xD9 | 0xDD | 0xF0 | 0xF1 | 0xF9 | 0xFD => true,
        _ => false,
    }
}

/// The instruction that `opcode` encodes when `byte` and `word` follow it.
pub open spec fn decoded(opcode: u8, byte: u8, word: u16) -> Instruction {
    Instruction {
        opcode: mnemonic_of(opcode),
        mode: mode_of(opcode, byte, word),
        cycles: base_cycles(opcode),
        page_cross_cost: page_cross_cost(opcode),
    }
}

/// Reads `byte` as a two's-complement number.
fn to_offset(byte: u8) -> (offset: i8)
    ensures
        offset == offset_of(byte),
{
    let offset: i8 = #[verifier::truncate] (byte as i8);
    assert(offset == offset_of(byte)) by (bit_vector)
        requires
            offset == byte as i8,
    ;
    offset
}

/// Decodes `opcode`, given the byte and the little-endian word that follow it
/// in memory. Every byte decodes: one that the table does not define gives a
/// `Nop` of no operand bytes and zero cycles.
pub fn decode(opcode: u8, byte: u8, word: u16) -> (instruction: Instruction)
    ensures
        instruction == decoded(opcode, byte, word),
{
    let offset: i8 = to_offset(byte);
    match opcode {
        0x69 => Instruction { opcode: Opcode::Add, mode: AddressingMode::Immediate(byte), cycles: 2, page_cross_cost: false },
        0x65 => Instruction { opcode: Opcode::Add, mode: AddressingMode::ZeroPage(byte), cycles: 3, page_cross_cost: false },
        0x75 => Instruction { opcode: Opcode::Add, mode: AddressingMode::ZeroPageX(byte), cycles: 4, page_cross_cost: false },
        0x6D => Instruction { opcode: Opcode::Add, mode: AddressingMode::Absolute(word), cycles: 4, page_cross_cost: false },
        0x7D => Instruction { opcode: Opcode::Add, mode: AddressingMode::AbsoluteX(word), cycles: 4, page_cross_cost: true },
        0x79 => Instruction { opcode: Opcode::Add, mode: AddressingMode::AbsoluteY(word), cycles: 4, page_cross_cost: true },
        0x61 => Instruction { opcode: Opcode::Add, mode: AddressingMode::IndirectX(byte), cycles: 6, page_cross_cost: false },
        0x71 => Instruction { opcode: Opcode::Add, mode: AddressingMode::IndirectY(byte), cycles: 5, page_cross_cost: true },
        0x29 => Instruction { opcode: Opcode::And, mode: AddressingMode::Immediate(byte), cycles: 2, page_cross_cost: false },
        0x25 => Instruction { opcode: Opcode::And, mode: AddressingMode::ZeroPage(byte), cycles: 3, page_cross_cost: false },
        0x35 => Instruction { opcode: Opcode::And, mode: AddressingMode::ZeroPageX(byte), cycles: 4, page_cross_cost: false },
        0x2D => Instruction { opcode: Opcode::And, mode: AddressingMode::Absolute(word), cycles: 4, page_cross_cost: false },
        0x3D => Instruction { opcode: Opcode::And, mode: AddressingMode::AbsoluteX(word), cycles: 4, page_cross_cost: true },
        0x39 => Instruction { opcode: Opcode::And, mode: AddressingMode::AbsoluteY(word), cycles: 4, page_cross_cost: true },
        0x21 => Instruction { opcode: Opcode::And, mode: AddressingMode::IndirectX(byte), cycles: 6, page_cross_cost: false },
        0x31 => Instruction { opcode: Opcode::And, mode: AddressingMode::IndirectY(byte), cycles: 5, page_cross_cost: true },
        0x0A => Instruction { opcode: Opcode::Asl, mode: AddressingMode::Accumulator, cycles: 2, page_cross_cost: false },
        0x06 => Instruction { opcode: Opcode::Asl, mode: AddressingMode::ZeroPage(byte), cycles: 5, page_cross_cost: false },
        0x16 => Instruction { opcode: Opcode::Asl, mode: AddressingMode::ZeroPageX(byte), cycles: 6, page_cross_cost: false },
        0x0E => Instruction { opcode: Opcode::Asl, mode: AddressingMode::Absolute(word), cycles: 6, page_cross_cost: false },
        0x1E => Instruction { opcode: Opcode::Asl, mode: AddressingMode::AbsoluteX(word), cycles: 7, page_cross_cost: false },
        0x90 => Instruction { opcode: Opcode::Bcc, mode: AddressingMode::Relative(offset), cycles: 2, page_cross_cost: true },
        0xB0 => Instruction { opcode: Opcode::Bcs, mode: AddressingMode::Relative(offset), cycles: 2, page_cross_cost: true },
        0xF0 => Instruction { opcode: Opcode::Beq, mode: AddressingMode::Relative(offset), cycles: 2, page_cross_cost: true },
        0x24 => Instruction { opcode: Opcode::Bit, mode: AddressingMode::ZeroPage(byte), cycles: 3, page_cross_cost: false },
        0x2C => Instruction { opcode: Opcode::Bit, mode: AddressingMode::Absolute(word), cycles: 4, page_cross_cost: false },
        0x30 => Instruction { opcode: Opcode::Bmi, mode: AddressingMode::Relative(offset), cycles: 2, page_cross_cost: true },
        0xD0 => Instruction { opcode: Opcode::Bne, mode: AddressingMode::Relative(offset), cycles: 2, page_cross_cost: true },
        0x10 => Instruction { opcode: Opcode::Bpl, mode: AddressingMode::Relative(offset), cycles: 2, page_cross_cost: true },
        0x00 => Instruction { opcode: Opcode::Brk, mode: AddressingMode::Implicit, cycles: 7, page_cross_cost: false },
        0x50 => Instruction { opcode: Opcode::Bvc, mode: AddressingMode::Relative(offset), cycles: 2, page_cross_cost: true },
        0x70 => Instruction { opcode: Opcode::Bvs, mode: AddressingMode::Relative(offset), cycles: 2, page_cross_cost: true },
        0x18 => Instruction { opcode: Opcode::Clc, mode: AddressingMode::Implicit, cycles: 2, page_cross_cost: false },
        0xD8 => Instruction { opcode: Opcode::Cld, mode: AddressingMode::Implicit, cycles: 2, page_cross_cost: false },
        0x58 => Instruction { opcode: Opcode::Cli, mode: AddressingMode::Implicit, cycles: 2, page_cross_cost: false },
        0xB8 => Instruction { opcode: Opcode::Clv, mode: AddressingMode::Implicit, cycles: 2, page_cross_cost: false },
        0xC9 => Instruction { opcode: Opcode::Cmp, mode: AddressingMode::Immediate(byte), cycles: 2, page_cross_cost: false },
        0xC5 => Instruction { opcode: Opcode::Cmp, mode: AddressingMode::ZeroPage(byte), cycles: 3, page_cross_cost: false },
        0xD5 => Instruction { opcode: Opcode::Cmp, mode: AddressingMode::ZeroPageX(byte), cycles: 4, page_cross_cost: false },
        0xCD => Instruction { opcode: Opcode::Cmp, mode: AddressingMode::Absolute(word), cycles: 4, page_cross_cost: false },
        0xDD => Instruction { opcode: Opcode::Cmp, mode: AddressingMode::AbsoluteX(word), cycles: 4, page_cross_cost: true },
        0xD9 => Instruction { opcode: Opcode::Cmp, mode: AddressingMode::AbsoluteY(word), cycles: 4, page_cross_cost: true },
        0xC1 => Instruction { opcode: Opcode::Cmp, mode: AddressingMode::IndirectX(byte), cycles: 6, page_cross_cost: false },
        0xD1 => Instruction { opcode: Opcode::Cmp, mode: AddressingMode::IndirectY(byte), cycles: 5, page_cross_cost: true },
        0xE0 => Instruction { opcode: Opcode::Cpx, mode: AddressingMode::Immediate(byte), cycles: 2, page_cross_cost: false },
        0xE4 => Instruction { opcode: Opcode::Cpx, mode: AddressingMode::ZeroPage(byte), cycles: 3, page_cross_cost: false },
        0xEC => Instruction { opcode: Opcode::Cpx, mode: AddressingMode::Absolute(word), cycles: 4, page_cross_cost: false },
        0xC0 => Instruction { opcode: Opcode::Cpy, mode: AddressingMode::Immediate(byte), cycles: 2, page_cross_cost: false },
        0xC4 => Instruction { opcode: Opcode::Cpy, mode: AddressingMode::ZeroPage(byte), cycles: 3, page_cross_cost: false },
        0xCC => Instruction { opcode: Opcode::Cpy, mode: AddressingMode::Absolute(word), cycles: 4, page_cross_cost: false },
        0xC6 => Instruction { opcode: Opcode::Dec, mode: AddressingMode::ZeroPage(byte), cycles: 5, page_cross_cost: false },
        0xD6 => Instruction { opcode: Opcode::Dec, mode: AddressingMode::ZeroPageX(byte), cycles: 6, page_cross_cost: false },
        0xCE => Instruction { opcode: Opcode::Dec, mode: AddressingMode::Absolute(word), cycles: 6, page_cross_cost: false },
        0xDE => Instruction { opcode: Opcode::Dec, mode: AddressingMode::AbsoluteX(word), cycles: 7, page_cross_cost: false },
        0xCA => Instruction { opcode: Opcode::Dex, mode: AddressingMode::Implicit, cycles: 2, page_cross_cost: false },
        0x88 => Instruction { opcode: Opcode::Dey, mode: AddressingMode::Implicit, cycles: 2, page_cross_cost: false },
        0x49 => Instruction { opcode: Opcode::Eor, mode: AddressingMode::Immediate(byte), cycles: 2, page_cross_cost: false },
        0x45 => Instruction { opcode: Opcode::Eor, mode: AddressingMode::ZeroPage(byte), cycles: 3, page_cross_cost: false },
        0x55 => Instruction { opcode: Opcode::Eor, mode: AddressingMode::ZeroPageX(byte), cycles: 4, page_cross_cost: false },
        0x4D => Instruction { opcode: Opcode::Eor, mode: AddressingMode::Absolute(word), cycles: 4, page_cross_cost: false },
        0x5D => Instruction { opcode: Opcode::Eor, mode: AddressingMode::AbsoluteX(word), cycles: 4, page_cross_cost: true },
        0x59 => Instruction { opcode: Opcode::Eor, mode: AddressingMode::AbsoluteY(word), cycles: 4, page_cross_cost: true },
        0x41 => Instruction { opcode: Opcode::Eor, mode: AddressingMode::IndirectX(byte), cycles: 6, page_cross_cost: false },
        0x51 => Instruction { opcode: Opcode::Eor, mode: AddressingMode::IndirectY(byte), cycles: 5, page_cross_cost: true },
        0xE6 => Instruction { opcode: Opcode::Inc, mode: AddressingMode::ZeroPage(byte), cycles: 5, page_cross_cost: false },
        0xF6 => Instruction { opcode: Opcode::Inc, mode: AddressingMode::ZeroPageX(byte), cycles: 6, page_cross_cost: false },
        0xEE => Instruction { opcode: Opcode::Inc, mode: AddressingMode::Absolute(word), cycles: 6, page_cross_cost: false },
        0xFE => Instruction { opcode: Opcode::Inc, mode: AddressingMode::AbsoluteX(word), cycles: 7, page_cross_cost: false },
        0xE8 => Instruction { opcode: Opcode::Inx, mode: AddressingMode::Implicit, cycles: 2, page_cross_cost: false },
        0xC8 => Instruction { opcode: Opcode::Iny, mode: AddressingMode::Implicit, cycles: 2, page_cross_cost: false },
        0x4C => Instruction { opcode: Opcode::Jmp, mode: AddressingMode::Absolute(word), cycles: 3, page_cross_cost: false },
        0x6C => Instruction { opcode: Opcode::Jmp, mode: AddressingMode::Indirect(word), cycles: 5, page_cross_cost: false },
        0x20 => Instruction { opcode: Opcode::Jsr, mode: AddressingMode::Absolute(word), cycles: 6, page_cross_cost: false },
        0xA9 => Instruction { opcode: Opcode::Lda, mode: AddressingMode::Immediate(byte), cycles: 2, page_cross_cost: false },
        0xA5 => Instruction { opcode: Opcode::Lda, mode: AddressingMode::ZeroPage(byte), cycles: 3, page_cross_cost: false },
        0xB5 => Instruction { opcode: Opcode::Lda, mode: AddressingMode::ZeroPageX(byte), cycles: 4, page_cross_cost: false },
        0xAD => Instruction { opcode: Opcode::Lda, mode: AddressingMode::Absolute(word), cycles: 4, page_cross_cost: false },
        0xBD => Instruction { opcode: Opcode::Lda, mode: AddressingMode::AbsoluteX(word), cycles: 4, page_cross_cost: true },
        0xB9 => Instruction { opcode: Opcode::Lda, mode: AddressingMode::AbsoluteY(word), cycles: 4, page_cross_cost: true },
        0xA1 => Instruction { opcode: Opcode::Lda, mode: AddressingMode::IndirectX(byte), cycles: 6, page_cross_cost: false },
        0xB1 => Instruction { opcode: Opcode::Lda, mode: AddressingMode::IndirectY(byte), cycles: 5, page_cross_cost: true },
        0xA2 => Instruction { opcode: Opcode::Ldx, mode: AddressingMode::Immediate(byte), cycles: 2, page_cross_cost: false },
        0xA6 => Instruction { opcode: Opcode::Ldx, mode: AddressingMode::ZeroPage(byte), cycles: 3, page_cross_cost: false },
        0xB6 => Instruction { opcode: Opcode::Ldx, mode: AddressingMode::ZeroPageY(byte), cycles: 4, page_cross_cost: false },
        0xAE => Instruction { opcode: Opcode::Ldx, mode: AddressingMode::Absolute(word), cycles: 4, page_cross_cost: false },
        0xBE => Instruction { opcode: Opcode::Ldx, mode: AddressingMode::AbsoluteY(word), cycles: 4, page_cross_cost: true },
        0xA0 => Instruction { opcode: Opcode::Ldy, mode: AddressingMode::Immediate(byte), cycles: 2, page_cross_cost: false },
        0xA4 => Instruction { opcode: Opcode::Ldy, mode: AddressingMode::ZeroPage(byte), cycles: 3, page_cross_cost: false },
        0xB4 => Instruction { opcode: Opcode::Ldy, mode: AddressingMode::ZeroPageX(byte), cycles: 4, page_cross_cost: false },
        0xAC => Instruction { opcode: Opcode::Ldy, mode: AddressingMode::Absolute(word), cycles: 4, page_cross_cost: false },
        0xBC => Instruction { opcode: Opcode::Ldy, mode: AddressingMode::AbsoluteX(word), cycles: 4, page_cross_cost: true },
        0x4A => Instruction { opcode: Opcode::Lsr, mode: AddressingMode::Accumulator, cycles: 2, page_cross_cost: false },
        0x46 => Instruction { opcode: Opcode::Lsr, mode: AddressingMode::ZeroPage(byte), cycles: 5, page_cross_cost: false },
        0x56 => Instruction { opcode: Opcode::Lsr, mode: AddressingMode::ZeroPageX(byte), cycles: 6, page_cross_cost: false },
        0x4E => Instruction { opcode: Opcode::Lsr, mode: AddressingMode::Absolute(word), cycles: 6, page_cross_cost: false },
        0x5E => Instruction { opcode: Opcode::Lsr, mode: AddressingMode::AbsoluteX(word), cycles: 7, page_cross_cost: false },
        0xEA => Instruction { opcode: Opcode::Nop, mode: AddressingMode::Implicit, cycles: 2, page_cross_cost: false },
        0x09 => Instruction { opcode: Opcode::Ora, mode: AddressingMode::Immediate(byte), cycles: 2, page_cross_cost: false },
        0x05 => Instruction { opcode: Opcode::Ora, mode: AddressingMode::ZeroPage(byte), cycles: 3, page_cross_cost: false },
        0x15 => Instruction { opcode: Opcode::Ora, mode: AddressingMode::ZeroPageX(byte), cycles: 4, page_cross_cost: false },
        0x0D => Instruction { opcode: Opcode::Ora, mode: AddressingMode::Absolute(word), cycles: 4, page_cross_cost: false },
        0x1D => Instruction { opcode: Opcode::Ora, mode: AddressingMode::AbsoluteX(word), cycles: 4, page_cross_cost: true },
        0x19 => Instruction { opcode: Opcode::Ora, mode: AddressingMode::AbsoluteY(word), cycles: 4, page_cross_cost: true },
        0x01 => Instruction { opcode: Opcode::Ora, mode: AddressingMode::IndirectX(byte), cycles: 6, page_cross_cost: false },
        0x11 => Instruction { opcode: Opcode::Ora, mode: AddressingMode::IndirectY(byte), cycles: 5, page_cross_cost: true },
        0x48 => Instruction { opcode: Opcode::Pha, mode: AddressingMode::Implicit, cycles: 3, page_cross_cost: false },
        0x08 => Instruction { opcode: Opcode::Php, mode: AddressingMode::Implicit, cycles: 3, page_cross_cost: false },
        0x68 => Instruction { opcode: Opcode::Pla, mode: AddressingMode::Implicit, cycles: 4, page_cross_cost: false },
        0x28 => Instruction { opcode: Opcode::Plp, mode: AddressingMode::Implicit, cycles: 4, page_cross_cost: false },
        0x2A => Instruction { opcode: Opcode::Rol, mode: AddressingMode::Accumulator, cycles: 2, page_cross_cost: false },
        0x26 => Instruction { opcode: Opcode::Rol, mode: AddressingMode::ZeroPage(byte), cycles: 5, page_cross_cost: false },
        0x36 => Instruction { opcode: Opcode::Rol, mode: AddressingMode::ZeroPageX(byte), cycles: 6, page_cross_cost: false },
        0x2E => Instruction { opcode: Opcode::Rol, mode: AddressingMode::Absolute(word), cycles: 6, page_cross_cost: false },
        0x3E => Instruction { opcode: Opcode::Rol, mode: AddressingMode::AbsoluteX(word), cycles: 7, page_cross_cost: false },
        0x6A => Instruction { opcode: Opcode::Ror, mode: AddressingMode::Accumulator, cycles: 2, page_cross_cost: false },
        0x66 => Instruction { opcode: Opcode::Ror, mode: AddressingMode::ZeroPage(byte), cycles: 5, page_cross_cost: false },
        0x76 => Instruction { opcode: Opcode::Ror, mode: AddressingMode::ZeroPageX(byte), cycles: 6, page_cross_cost: false },
        0x6E => Instruction { opcode: Opcode::Ror, mode: AddressingMode::Absolute(word), cycles: 6, page_cross_cost: false },
        0x7E => Instruction { opcode: Opcode::Ror, mode: AddressingMode::AbsoluteX(word), cycles: 7, page_cross_cost: false },
        0x40 => Instruction { opcode: Opcode::Rti, mode: AddressingMode::Implicit, cycles: 6, page_cross_cost: false },
        0x60 => Instruction { opcode: Opcode::Rts, mode: AddressingMode::Implicit, cycles: 6, page_cross_cost: false },
        0xE9 => Instruction { opcode: Opcode::Sbc, mode: AddressingMode::Immediate(byte), cycles: 2, page_cross_cost: false },
        0xE5 => Instruction { opcode: Opcode::Sbc, mode: AddressingMode::ZeroPage(byte), cycles: 3, page_cross_cost: false },
        0xF5 => Instruction { opcode: Opcode::Sbc, mode: AddressingMode::ZeroPageX(byte), cycles: 4, page_cross_cost: false },
        0xED => Instruction { opcode: Opcode::Sbc, mode: AddressingMode::Absolute(word), cycles: 4, page_cross_cost: false },
        0xFD => Instruction { opcode: Opcode::Sbc, mode: AddressingMode::AbsoluteX(word), cycles: 4, page_cross_cost: true },
        0xF9 => Instruction { opcode: Opcode::Sbc, mode: AddressingMode::AbsoluteY(word), cycles: 4, page_cross_cost: true },
        0xE1 => Instruction { opcode: Opcode::Sbc, mode: AddressingMode::IndirectX(byte), cycles: 6, page_cross_cost: false },
        0xF1 => Instruction { opcode: Opcode::Sbc, mode: AddressingMode::IndirectY(byte), cycles: 5, page_cross_cost: true },
        0x38 => Instruction { opcode: Opcode::Sec, mode: AddressingMode::Implicit, cycles: 2, page_cross_cost: false },
        0xF8 => Instruction { opcode: Opcode::Sed, mode: AddressingMode::Implicit, cycles: 2, page_cross_cost: false },
        0x78 => Instruction { opcode: Opcode::Sei, mode: AddressingMode::Implicit, cycles: 2, page_cross_cost: false },
        0x85 => Instruction { opcode: Opcode::Sta, mode: AddressingMode::ZeroPage(byte), cycles: 3, page_cross_cost: false },
        0x95 => Instruction { opcode: Opcode::Sta, mode: AddressingMode::ZeroPageX(byte), cycles: 4, page_cross_cost: false },
        0x8D => Instruction { opcode: Opcode::Sta, mode: AddressingMode::Absolute(word), cycles: 4, page_cross_cost: false },
        0x9D => Instruction { opcode: Opcode::Sta, mode: AddressingMode::AbsoluteX(word), cycles: 5, page_cross_cost: false },
        0x99 => Instruction { opcode: Opcode::Sta, mode: AddressingMode::AbsoluteY(word), cycles: 5, page_cross_cost: false },
        0x81 => Instruction { opcode: Opcode::Sta, mode: AddressingMode::IndirectX(byte), cycles: 6, page_cross_cost: false },
        0x91 => Instruction { opcode: Opcode::Sta, mode: AddressingMode::IndirectY(byte), cycles: 6, page_cross_cost: false },
        0x86 => Instruction { opcode: Opcode::Stx, mode: AddressingMode::ZeroPage(byte), cycles: 3, page_cross_cost: false },
        0x96 => Instruction { opcode: Opcode::Stx, mode: AddressingMode::ZeroPageY(byte), cycles: 4, page_cross_cost: false },
        0x8E => Instruction { opcode: Opcode::Stx, mode: AddressingMode::Absolute(word), cycles: 4, page_cross_cost: false },
        0x84 => Instruction { opcode: Opcode::Sty, mode: AddressingMode::ZeroPage(byte), cycles: 3, page_cross_cost: false },
        0x94 => Instruction { opcode: Opcode::Sty, mode: AddressingMode::ZeroPageX(byte), cycles: 4, page_cross_cost: false },
        0x8C => Instruction { opcode: Opcode::Sty, mode: AddressingMode::Absolute(word), cycles: 4, page_cross_cost: false },
        0xAA => Instruction { opcode: Opcode::Tax, mode: AddressingMode::Implicit, cycles: 2, page_cross_cost: false },
        0xA8 => Instruction { opcode: Opcode::Tay, mode: AddressingMode::Implicit, cycles: 2, page_cross_cost: false },
        0xBA => Instruction { opcode: Opcode::Tsx, mode: AddressingMode::Implicit, cycles: 2, page_cross_cost: false },
        0x8A => Instruction { opcode: Opcode::Txa, mode: AddressingMode::Implicit, cycles: 2, page_cross_cost: false },
        0x9A => Instruction { opcode: Opcode::Txs, mode: AddressingMode::Implicit, cycles: 2, page_cross_cost: false },
        0x98 => Instruction { opcode: Opcode::Tya, mode: AddressingMode::Implicit, cycles: 2, page_cross_cost: false },
        _ => Instruction { opcode: Opcode::Nop, mode: AddressingMode::Implicit, cycles: 0, page_cross_cost: false },
    }
}

} // verus!
