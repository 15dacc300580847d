use nes_cpu::{decode, AddressingMode, Cpu, Memory, Opcode, Ram};

/// The opcode table: byte, mnemonic, mode as decoded when the bytes 0xAB and
/// 0xCD follow the opcode, base cycles, page-crossing cost.
fn table() -> Vec<(u8, Opcode, AddressingMode, u8, bool)> {
    vec![
        (0x00, Opcode::Brk, AddressingMode::Implicit, 7, false),
        (0x01, Opcode::Ora, AddressingMode::IndirectX(0xAB), 6, false),
        (0x05, Opcode::Ora, AddressingMode::ZeroPage(0xAB), 3, false),
        (0x06, Opcode::Asl, AddressingMode::ZeroPage(0xAB), 5, false),
        (0x08, Opcode::Php, AddressingMode::Implicit, 3, false),
        (0x09, Opcode::Ora, AddressingMode::Immediate(0xAB), 2, false),
        (0x0A, Opcode::Asl, AddressingMode::Accumulator, 2, false),
        (0x0D, Opcode::Ora, AddressingMode::Absolute(0xCDAB), 4, false),
        (0x0E, Opcode::Asl, AddressingMode::Absolute(0xCDAB), 6, false),
        (0x10, Opcode::Bpl, AddressingMode::Relative(-85), 2, true),
        (0x11, Opcode::Ora, AddressingMode::IndirectY(0xAB), 5, true),
        (0x15, Opcode::Ora, AddressingMode::ZeroPageX(0xAB), 4, false),
        (0x16, Opcode::Asl, AddressingMode::ZeroPageX(0xAB), 6, false),
        (0x18, Opcode::Clc, AddressingMode::Implicit, 2, false),
        (0x19, Opcode::Ora, AddressingMode::AbsoluteY(0xCDAB), 4, true),
        (0x1D, Opcode::Ora, AddressingMode::AbsoluteX(0xCDAB), 4, true),
        (0x1E, Opcode::Asl, AddressingMode::AbsoluteX(0xCDAB), 7, false),
        (0x20, Opcode::Jsr, AddressingMode::Absolute(0xCDAB), 6, false),
        (0x21, Opcode::And, AddressingMode::IndirectX(0xAB), 6, false),
        (0x24, Opcode::Bit, AddressingMode::ZeroPage(0xAB), 3, false),
        (0x25, Opcode::And, AddressingMode::ZeroPage(0xAB), 3, false),
        (0x26, Opcode::Rol, AddressingMode::ZeroPage(0xAB), 5, false),
        (0x28, Opcode::Plp, AddressingMode::Implicit, 4, false),
        (0x29, Opcode::And, AddressingMode::Immediate(0xAB), 2, false),
        (0x2A, Opcode::Rol, AddressingMode::Accumulator, 2, false),
        (0x2C, Opcode::Bit, AddressingMode::Absolute(0xCDAB), 4, false),
        (0x2D, Opcode::And, AddressingMode::Absolute(0xCDAB), 4, false),
        (0x2E, Opcode::Rol, AddressingMode::Absolute(0xCDAB), 6, false),
        (0x30, Opcode::Bmi, AddressingMode::Relative(-85), 2, true),
        (0x31, Opcode::And, AddressingMode::IndirectY(0xAB), 5, true),
        (0x35, Opcode::And, AddressingMode::ZeroPageX(0xAB), 4, false),
        (0x36, Opcode::Rol, AddressingMode::ZeroPageX(0xAB), 6, false),
        (0x38, Opcode::Sec, AddressingMode::Implicit, 2, false),
        (0x39, Opcode::And, AddressingMode::AbsoluteY(0xCDAB), 4, true),
        (0x3D, Opcode::And, AddressingMode::AbsoluteX(0xCDAB), 4, true),
        (0x3E, Opcode::Rol, AddressingMode::AbsoluteX(0xCDAB), 7, false),
        (0x40, Opcode::Rti, AddressingMode::Implicit, 6, false),
        (0x41, Opcode::Eor, AddressingMode::IndirectX(0xAB), 6, false),
        (0x45, Opcode::Eor, AddressingMode::ZeroPage(0xAB), 3, false),
        (0x46, Opcode::Lsr, AddressingMode::ZeroPage(0xAB), 5, false),
        (0x48, Opcode::Pha, AddressingMode::Implicit, 3, false),
        (0x49, Opcode::Eor, AddressingMode::Immediate(0xAB), 2, false),
        (0x4A, Opcode::Lsr, AddressingMode::Accumulator, 2, false),
        (0x4C, Opcode::Jmp, AddressingMode::Absolute(0xCDAB), 3, false),
        (0x4D, Opcode::Eor, AddressingMode::Absolute(0xCDAB), 4, false),
        (0x4E, Opcode::Lsr, AddressingMode::Absolute(0xCDAB), 6, false),
        (0x50, Opcode::Bvc, AddressingMode::Relative(-85), 2, true),
        (0x51, Opcode::Eor, AddressingMode::IndirectY(0xAB), 5, true),
        (0x55, Opcode::Eor, AddressingMode::ZeroPageX(0xAB), 4, false),
        (0x56, Opcode::Lsr, AddressingMode::ZeroPageX(0xAB), 6, false),
        (0x58, Opcode::Cli, AddressingMode::Implicit, 2, false),
        (0x59, Opcode::Eor, AddressingMode::AbsoluteY(0xCDAB), 4, true),
        (0x5D, Opcode::Eor, AddressingMode::AbsoluteX(0xCDAB), 4, true),
        (0x5E, Opcode::Lsr, AddressingMode::AbsoluteX(0xCDAB), 7, false),
        (0x60, Opcode::Rts, AddressingMode::Implicit, 6, false),
        (0x61, Opcode::Add, AddressingMode::IndirectX(0xAB), 6, false),
        (0x65, Opcode::Add, AddressingMode::ZeroPage(0xAB), 3, false),
        (0x66, Opcode::Ror, AddressingMode::ZeroPage(0xAB), 5, false),
        (0x68, Opcode::Pla, AddressingMode::Implicit, 4, false),
        (0x69, Opcode::Add, AddressingMode::Immediate(0xAB), 2, false),
        (0x6A, Opcode::Ror, AddressingMode::Accumulator, 2, false),
        (0x6C, Opcode::Jmp, AddressingMode::Indirect(0xCDAB), 5, false),
        (0x6D, Opcode::Add, AddressingMode::Absolute(0xCDAB), 4, false),
        (0x6E, Opcode::Ror, AddressingMode::Absolute(0xCDAB), 6, false),
        (0x70, Opcode::Bvs, AddressingMode::Relative(-85), 2, true),
        (0x71, Opcode::Add, AddressingMode::IndirectY(0xAB), 5, true),
        (0x75, Opcode::Add, AddressingMode::ZeroPageX(0xAB), 4, false),
        (0x76, Opcode::Ror, AddressingMode::ZeroPageX(0xAB), 6, false),
        (0x78, Opcode::Sei, AddressingMode::Implicit, 2, false),
        (0x79, Opcode::Add, AddressingMode::AbsoluteY(0xCDAB), 4, true),
        (0x7D, Opcode::Add, AddressingMode::AbsoluteX(0xCDAB), 4, true),
        (0x7E, Opcode::Ror, AddressingMode::AbsoluteX(0xCDAB), 7, false),
        (0x81, Opcode::Sta, AddressingMode::IndirectX(0xAB), 6, false),
        (0x84, Opcode::Sty, AddressingMode::ZeroPage(0xAB), 3, false),
        (0x85, Opcode::Sta, AddressingMode::ZeroPage(0xAB), 3, false),
        (0x86, Opcode::Stx, AddressingMode::ZeroPage(0xAB), 3, false),
        (0x88, Opcode::Dey, AddressingMode::Implicit, 2, false),
        (0x8A, Opcode::Txa, AddressingMode::Implicit, 2, false),
        (0x8C, Opcode::Sty, AddressingMode::Absolute(0xCDAB), 4, false),
        (0x8D, Opcode::Sta, AddressingMode::Absolute(0xCDAB), 4, false),
        (0x8E, Opcode::Stx, AddressingMode::Absolute(0xCDAB), 4, false),
        (0x90, Opcode::Bcc, AddressingMode::Relative(-85), 2, true),
        (0x91, Opcode::Sta, AddressingMode::IndirectY(0xAB), 6, false),
        (0x94, Opcode::Sty, AddressingMode::ZeroPageX(0xAB), 4, false),
        (0x95, Opcode::Sta, AddressingMode::ZeroPageX(0xAB), 4, false),
        (0x96, Opcode::Stx, AddressingMode::ZeroPageY(0xAB), 4, false),
        (0x98, Opcode::Tya, AddressingMode::Implicit, 2, false),
        (0x99, Opcode::Sta, AddressingMode::AbsoluteY(0xCDAB), 5, false),
        (0x9A, Opcode::Txs, AddressingMode::Implicit, 2, false),
        (0x9D, Opcode::Sta, AddressingMode::AbsoluteX(0xCDAB), 5, false),
        (0xA0, Opcode::Ldy, AddressingMode::Immediate(0xAB), 2, false),
        (0xA1, Opcode::Lda, AddressingMode::IndirectX(0xAB), 6, false),
        (0xA2, Opcode::Ldx, AddressingMode::Immediate(0xAB), 2, false),
        (0xA4, Opcode::Ldy, AddressingMode::ZeroPage(0xAB), 3, false),
        (0xA5, Opcode::Lda, AddressingMode::ZeroPage(0xAB), 3, false),
        (0xA6, Opcode::Ldx, AddressingMode::ZeroPage(0xAB), 3, false),
        (0xA8, Opcode::Tay, AddressingMode::Implicit, 2, false),
        (0xA9, Opcode::Lda, AddressingMode::Immediate(0xAB), 2, false),
        (0xAA, Opcode::Tax, AddressingMode::Implicit, 2, false),
        (0xAC, Opcode::Ldy, AddressingMode::Absolute(0xCDAB), 4, false),
        (0xAD, Opcode::Lda, AddressingMode::Absolute(0xCDAB), 4, false),
        (0xAE, Opcode::Ldx, AddressingMode::Absolute(0xCDAB), 4, false),
        (0xB0, Opcode::Bcs, AddressingMode::Relative(-85), 2, true),
        (0xB1, Opcode::Lda, AddressingMode::IndirectY(0xAB), 5, true),
        (0xB4, Opcode::Ldy, AddressingMode::ZeroPageX(0xAB), 4, false),
        (0xB5, Opcode::Lda, AddressingMode::ZeroPageX(0xAB), 4, false),
        (0xB6, Opcode::Ldx, AddressingMode::ZeroPageY(0xAB), 4, false),
        (0xB8, Opcode::Clv, AddressingMode::Implicit, 2, false),
        (0xB9, Opcode::Lda, AddressingMode::AbsoluteY(0xCDAB), 4, true),
        (0xBA, Opcode::Tsx, AddressingMode::Implicit, 2, false),
        (0xBC, Opcode::Ldy, AddressingMode::AbsoluteX(0xCDAB), 4, true),
        (0xBD, Opcode::Lda, AddressingMode::AbsoluteX(0xCDAB), 4, true),
        (0xBE, Opcode::Ldx, AddressingMode::AbsoluteY(0xCDAB), 4, true),
        (0xC0, Opcode::Cpy, AddressingMode::Immediate(0xAB), 2, false),
        (0xC1, Opcode::Cmp, AddressingMode::IndirectX(0xAB), 6, false),
        (0xC4, Opcode::Cpy, AddressingMode::ZeroPage(0xAB), 3, false),
        (0xC5, Opcode::Cmp, AddressingMode::ZeroPage(0xAB), 3, false),
        (0xC6, Opcode::Dec, AddressingMode::ZeroPage(0xAB), 5, false),
        (0xC8, Opcode::Iny, AddressingMode::Implicit, 2, false),
        (0xC9, Opcode::Cmp, AddressingMode::Immediate(0xAB), 2, false),
        (0xCA, Opcode::Dex, AddressingMode::Implicit, 2, false),
        (0xCC, Opcode::Cpy, AddressingMode::Absolute(0xCDAB), 4, false),
        (0xCD, Opcode::Cmp, AddressingMode::Absolute(0xCDAB), 4, false),
        (0xCE, Opcode::Dec, AddressingMode::Absolute(0xCDAB), 6, false),
        (0xD0, Opcode::Bne, AddressingMode::Relative(-85), 2, true),
        (0xD1, Opcode::Cmp, AddressingMode::IndirectY(0xAB), 5, true),
        (0xD5, Opcode::Cmp, AddressingMode::ZeroPageX(0xAB), 4, false),
        (0xD6, Opcode::Dec, AddressingMode::ZeroPageX(0xAB), 6, false),
        (0xD8, Opcode::Cld, AddressingMode::Implicit, 2, false),
        (0xD9, Opcode::Cmp, AddressingMode::AbsoluteY(0xCDAB), 4, true),
        (0xDD, Opcode::Cmp, AddressingMode::AbsoluteX(0xCDAB), 4, true),
        (0xDE, Opcode::Dec, AddressingMode::AbsoluteX(0xCDAB), 7, false),
        (0xE0, Opcode::Cpx, AddressingMode::Immediate(0xAB), 2, false),
        (0xE1, Opcode::Sbc, AddressingMode::IndirectX(0xAB), 6, false),
        (0xE4, Opcode::Cpx, AddressingMode::ZeroPage(0xAB), 3, false),
        (0xE5, Opcode::Sbc, AddressingMode::ZeroPage(0xAB), 3, false),
        (0xE6, Opcode::Inc, AddressingMode::ZeroPage(0xAB), 5, false),
        (0xE8, Opcode::Inx, AddressingMode::Implicit, 2, false),
        (0xE9, Opcode::Sbc, AddressingMode::Immediate(0xAB), 2, false),
        (0xEA, Opcode::Nop, AddressingMode::Implicit, 2, false),
        (0xEC, Opcode::Cpx, AddressingMode::Absolute(0xCDAB), 4, false),
        (0xED, Opcode::Sbc, AddressingMode::Absolute(0xCDAB), 4, false),
        (0xEE, Opcode::Inc, AddressingMode::Absolute(0xCDAB), 6, false),
        (0xF0, Opcode::Beq, AddressingMode::Relative(-85), 2, true),
        (0xF1, Opcode::Sbc, AddressingMode::IndirectY(0xAB), 5, true),
        (0xF5, Opcode::Sbc, AddressingMode::ZeroPageX(0xAB), 4, false),
        (0xF6, Opcode::Inc, AddressingMode::ZeroPageX(0xAB), 6, false),
        (0xF8, Opcode::Sed, AddressingMode::Implicit, 2, false),
        (0xF9, Opcode::Sbc, AddressingMode::AbsoluteY(0xCDAB), 4, true),
        (0xFD, Opcode::Sbc, AddressingMode::AbsoluteX(0xCDAB), 4, true),
        (0xFE, Opcode::Inc, AddressingMode::AbsoluteX(0xCDAB), 7, false),
    ]
}

fn width(mode: AddressingMode) -> u16 {
    match mode {
        AddressingMode::Implicit | AddressingMode::Accumulator => 0,
        AddressingMode::Absolute(_)
        | AddressingMode::AbsoluteX(_)
        | AddressingMode::AbsoluteY(_)
        | AddressingMode::Indirect(_) => 2,
        _ => 1,
    }
}

#[test]
fn table_has_151_distinct_opcodes() {
    let table = table();
    assert_eq!(table.len(), 151);
    for pair in table.windows(2) {
        assert!(pair[0].0 < pair[1].0);
    }
}

#[test]
fn decode_gives_the_table_entry_for_every_defined_opcode() {
    for (byte, opcode, mode, cycles, page_cross_cost) in table() {
        let instruction = decode(byte, 0xAB, 0xCDAB);
        assert_eq!(instruction.opcode, opcode, "opcode {:#04x}", byte);
        assert_eq!(instruction.mode, mode, "opcode {:#04x}", byte);
        assert_eq!(instruction.cycles, cycles, "opcode {:#04x}", byte);
        assert_eq!(instruction.page_cross_cost, page_cross_cost, "opcode {:#04x}", byte);
    }
}

#[test]
fn decode_gives_a_free_nop_for_every_undefined_opcode() {
    let defined: Vec<u8> = table().iter().map(|row| row.0).collect();
    let mut undefined = 0;
    for byte in 0..=255u8 {
        if defined.contains(&byte) {
            continue;
        }
        undefined += 1;
        let instruction = decode(byte, 0xAB, 0xCDAB);
        assert_eq!(instruction.opcode, Opcode::Nop, "opcode {:#04x}", byte);
        assert_eq!(instruction.mode, AddressingMode::Implicit, "opcode {:#04x}", byte);
        assert_eq!(instruction.cycles, 0, "opcode {:#04x}", byte);
        assert!(!instruction.page_cross_cost, "opcode {:#04x}", byte);
    }
    assert_eq!(undefined, 105);
}

#[test]
fn zero_cycles_mark_exactly_the_undefined_opcodes() {
    let defined: Vec<u8> = table().iter().map(|row| row.0).collect();
    for byte in 0..=255u8 {
        let instruction = decode(byte, 0, 0);
        assert_eq!(instruction.cycles == 0, !defined.contains(&byte), "opcode {:#04x}", byte);
    }
}

#[test]
fn fetch_returns_the_table_entry_and_advances_past_the_instruction() {
    for (byte, opcode, mode, cycles, page_cross_cost) in table() {
        let mut ram = Ram::new();
        ram.set_byte(0x8000, byte);
        ram.set_byte(0x8001, 0xAB);
        ram.set_byte(0x8002, 0xCD);
        let mut cpu = Cpu::new(&mut ram);
        cpu.pc = 0x8000;
        let instruction = cpu.fetch_next_instruction();
        assert_eq!(instruction.opcode, opcode, "opcode {:#04x}", byte);
        assert_eq!(instruction.mode, mode, "opcode {:#04x}", byte);
        assert_eq!(instruction.cycles, cycles, "opcode {:#04x}", byte);
        assert_eq!(instruction.page_cross_cost, page_cross_cost, "opcode {:#04x}", byte);
        assert_eq!(cpu.pc, 0x8001 + width(mode), "opcode {:#04x}", byte);
    }
}

#[test]
fn fetch_of_an_undefined_opcode_advances_by_one() {
    let mut ram = Ram::new();
    ram.set_byte(0x0200, 0x02);
    ram.set_byte(0x0201, 0xAB);
    let mut cpu = Cpu::new(&mut ram);
    cpu.pc = 0x0200;
    let instruction = cpu.fetch_next_instruction();
    assert_eq!(instruction.opcode, Opcode::Nop);
    assert_eq!(instruction.mode, AddressingMode::Implicit);
    assert_eq!(instruction.cycles, 0);
    assert_eq!(cpu.pc, 0x0201);
}

#[test]
fn fetch_changes_only_the_program_counter() {
    let mut ram = Ram::new();
    ram.set_byte(0x0300, 0x6D);
    ram.set_byte(0x0301, 0x34);
    ram.set_byte(0x0302, 0x12);
    let before = ram.bytes;
    let mut cpu = Cpu::new(&mut ram);
    cpu.pc = 0x0300;
    cpu.sp = 0xFD;
    cpu.accumulator = 1;
    cpu.x = 2;
    cpu.y = 3;
    cpu.carry = true;
    cpu.overflow = true;
    let instruction = cpu.fetch_next_instruction();
    assert_eq!(instruction.mode, AddressingMode::Absolute(0x1234));
    assert_eq!(cpu.pc, 0x0303);
    assert_eq!((cpu.sp, cpu.accumulator, cpu.x, cpu.y), (0xFD, 1, 2, 3));
    assert_eq!(
        (cpu.carry, cpu.zero, cpu.interrupt, cpu.decimal, cpu.brk, cpu.overflow, cpu.sign),
        (true, false, false, false, false, true, false)
    );
    assert!(cpu.memory.bytes == before);
}

#[test]
fn fetch_wraps_at_the_end_of_the_address_space() {
    let mut ram = Ram::new();
    ram.set_byte(0xFFFF, 0x4C);
    ram.set_byte(0x0000, 0x78);
    ram.set_byte(0x0001, 0x56);
    let mut cpu = Cpu::new(&mut ram);
    cpu.pc = 0xFFFF;
    let instruction = cpu.fetch_next_instruction();
    assert_eq!(instruction.opcode, Opcode::Jmp);
    assert_eq!(instruction.mode, AddressingMode::Absolute(0x5678));
    assert_eq!(cpu.pc, 0x0002);
}

#[test]
fn relative_operand_is_signed() {
    assert_eq!(decode(0xF0, 0x05, 0).mode, AddressingMode::Relative(5));
    assert_eq!(decode(0xF0, 0x7F, 0).mode, AddressingMode::Relative(127));
    assert_eq!(decode(0xF0, 0x80, 0).mode, AddressingMode::Relative(-128));
    assert_eq!(decode(0xF0, 0xFF, 0).mode, AddressingMode::Relative(-1));
}

#[test]
fn shifts_of_the_accumulator_decode_with_the_accumulator_mode() {
    let shifts = [
        (0x0Au8, Opcode::Asl),
        (0x4A, Opcode::Lsr),
        (0x2A, Opcode::Rol),
        (0x6A, Opcode::Ror),
    ];
    for (byte, opcode) in shifts {
        let instruction = decode(byte, 0xAB, 0xCDAB);
        assert_eq!(instruction.opcode, opcode);
        assert_eq!(instruction.mode, AddressingMode::Accumulator);
        assert_eq!(instruction.cycles, 2);
        assert!(!instruction.page_cross_cost);
    }
}

#[test]
fn indexed_reads_cost_a_cycle_more_across_a_page() {
    // The reads through abs,X, abs,Y and (ind),Y, and every branch.
    let with_cost = [
        0x10u8, 0x11, 0x19, 0x1D, 0x30, 0x31, 0x39, 0x3D, 0x50, 0x51, 0x59, 0x5D, 0x70, 0x71, 0x79,
        0x7D, 0x90, 0xB0, 0xB1, 0xB9, 0xBC, 0xBD, 0xBE, 0xD0, 0xD1, 0xD9, 0xDD, 0xF0, 0xF1, 0xF9,
        0xFD,
    ];
    for byte in 0..=255u8 {
        assert_eq!(
            decode(byte, 0, 0).page_cross_cost,
            with_cost.contains(&byte),
            "opcode {:#04x}",
            byte
        );
    }
}

#[test]
fn base_cycles_of_the_indexed_logic_and_compare_forms() {
    assert_eq!(decode(0x19, 0, 0).cycles, 4);
    assert_eq!(decode(0x59, 0, 0).cycles, 4);
    assert_eq!(decode(0xC5, 0, 0).cycles, 3);
    assert_eq!(decode(0xD5, 0, 0).cycles, 4);
}
