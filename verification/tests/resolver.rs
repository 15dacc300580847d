use nes_cpu::{AddressingMode, Cpu, Memory, Ram};

#[test]
fn immediate_reads_the_operand_itself() {
    let mut ram = Ram::new();
    let cpu = Cpu::new(&mut ram);
    assert_eq!(cpu.read_with_addressing_mode(AddressingMode::Immediate(0x5A)), Some(0x5A));
}

#[test]
fn zero_page_reads_page_zero() {
    let mut ram = Ram::new();
    ram.set_byte(0x0042, 0x11);
    let cpu = Cpu::new(&mut ram);
    assert_eq!(cpu.read_with_addressing_mode(AddressingMode::ZeroPage(0x42)), Some(0x11));
}

#[test]
fn zero_page_indexed_wraps_within_page_zero() {
    let mut ram = Ram::new();
    ram.set_byte(0x0004, 0x22);
    ram.set_byte(0x0104, 0x99);
    ram.set_byte(0x0090, 0x33);
    let mut cpu = Cpu::new(&mut ram);
    cpu.x = 0x05;
    cpu.y = 0x91;
    assert_eq!(cpu.read_with_addressing_mode(AddressingMode::ZeroPageX(0xFF)), Some(0x22));
    assert_eq!(cpu.read_with_addressing_mode(AddressingMode::ZeroPageY(0xFF)), Some(0x33));
    assert_eq!(cpu.read_with_addressing_mode(AddressingMode::ZeroPageX(0x8B)), Some(0x33));
}

#[test]
fn absolute_reads_the_operand_address() {
    let mut ram = Ram::new();
    ram.set_byte(0xC123, 0x44);
    let cpu = Cpu::new(&mut ram);
    assert_eq!(cpu.read_with_addressing_mode(AddressingMode::Absolute(0xC123)), Some(0x44));
}

#[test]
fn absolute_indexed_crosses_pages_and_wraps_at_16_bits() {
    let mut ram = Ram::new();
    ram.set_byte(0x2100, 0x55);
    ram.set_byte(0x000F, 0x66);
    let mut cpu = Cpu::new(&mut ram);
    cpu.x = 0x01;
    cpu.y = 0x10;
    assert_eq!(cpu.read_with_addressing_mode(AddressingMode::AbsoluteX(0x20FF)), Some(0x55));
    assert_eq!(cpu.read_with_addressing_mode(AddressingMode::AbsoluteY(0xFFFF)), Some(0x66));
    assert_eq!(cpu.read_with_addressing_mode(AddressingMode::AbsoluteY(0x20F0)), Some(0x55));
}

#[test]
fn indirect_x_reads_through_the_pointer_at_operand_plus_x() {
    let mut ram = Ram::new();
    ram.set_byte(0x0024, 0x74);
    ram.set_byte(0x0025, 0x20);
    ram.set_byte(0x2074, 0x77);
    let mut cpu = Cpu::new(&mut ram);
    cpu.x = 0x04;
    assert_eq!(cpu.read_with_addressing_mode(AddressingMode::IndirectX(0x20)), Some(0x77));
}

#[test]
fn indirect_x_wraps_the_pointer_address_within_page_zero() {
    let mut ram = Ram::new();
    ram.set_byte(0x0003, 0x00);
    ram.set_byte(0x0004, 0x30);
    ram.set_byte(0x0103, 0xEE);
    ram.set_byte(0x0104, 0xEE);
    ram.set_byte(0x3000, 0x88);
    let mut cpu = Cpu::new(&mut ram);
    cpu.x = 0x04;
    assert_eq!(cpu.read_with_addressing_mode(AddressingMode::IndirectX(0xFF)), Some(0x88));
}

#[test]
fn indirect_y_adds_y_to_the_pointer_at_the_operand() {
    let mut ram = Ram::new();
    ram.set_byte(0x0086, 0x28);
    ram.set_byte(0x0087, 0x40);
    ram.set_byte(0x4038, 0x99);
    let mut cpu = Cpu::new(&mut ram);
    cpu.y = 0x10;
    assert_eq!(cpu.read_with_addressing_mode(AddressingMode::IndirectY(0x86)), Some(0x99));
}

#[test]
fn indirect_y_may_cross_a_page() {
    let mut ram = Ram::new();
    ram.set_byte(0x0010, 0xFF);
    ram.set_byte(0x0011, 0x40);
    ram.set_byte(0x4100, 0xAA);
    let mut cpu = Cpu::new(&mut ram);
    cpu.y = 0x01;
    assert_eq!(cpu.read_with_addressing_mode(AddressingMode::IndirectY(0x10)), Some(0xAA));
}

#[test]
fn modes_without_an_operand_value_read_nothing() {
    let mut ram = Ram::new();
    let cpu = Cpu::new(&mut ram);
    assert_eq!(cpu.read_with_addressing_mode(AddressingMode::Implicit), None);
    assert_eq!(cpu.read_with_addressing_mode(AddressingMode::Accumulator), None);
    assert_eq!(cpu.read_with_addressing_mode(AddressingMode::Relative(4)), None);
    assert_eq!(cpu.read_with_addressing_mode(AddressingMode::Indirect(0x1234)), None);
}

#[test]
fn modes_without_an_address_are_not_written_through() {
    let mut ram = Ram::new();
    let mut cpu = Cpu::new(&mut ram);
    cpu.accumulator = 0x12;
    for mode in [
        AddressingMode::Immediate(0x10),
        AddressingMode::Implicit,
        AddressingMode::Accumulator,
        AddressingMode::Relative(4),
        AddressingMode::Indirect(0x1234),
    ] {
        assert!(!cpu.write_with_addressing_mode(mode, 0xFF));
    }
    assert_eq!(cpu.accumulator, 0x12);
    assert!(cpu.memory.bytes.iter().all(|byte| *byte == 0));
}

#[test]
fn a_write_lands_where_the_read_of_the_same_mode_looks() {
    let mut ram = Ram::new();
    // Pointers for the indirect modes.
    ram.set_byte(0x0034, 0x00);
    ram.set_byte(0x0035, 0x50);
    ram.set_byte(0x0040, 0xF0);
    ram.set_byte(0x0041, 0x60);
    let mut cpu = Cpu::new(&mut ram);
    cpu.x = 0x14;
    cpu.y = 0x20;
    let cases = [
        (AddressingMode::ZeroPage(0x80), 0x0080u16),
        (AddressingMode::ZeroPageX(0xF0), 0x0004),
        (AddressingMode::ZeroPageY(0xF0), 0x0010),
        (AddressingMode::Absolute(0x1234), 0x1234),
        (AddressingMode::AbsoluteX(0x12F0), 0x1304),
        (AddressingMode::AbsoluteY(0xFFF8), 0x0018),
        (AddressingMode::IndirectX(0x20), 0x5000),
        (AddressingMode::IndirectY(0x40), 0x6110),
    ];
    let mut value = 0xA0u8;
    for (mode, address) in cases {
        value += 1;
        assert!(cpu.write_with_addressing_mode(mode, value));
        assert_eq!(cpu.memory.get_byte(address), value, "{:?}", mode);
        assert_eq!(cpu.read_with_addressing_mode(mode), Some(value), "{:?}", mode);
    }
}

#[test]
fn a_write_changes_one_byte_and_no_register() {
    let mut ram = Ram::new();
    let mut cpu = Cpu::new(&mut ram);
    cpu.pc = 0x1111;
    cpu.sp = 0x22;
    cpu.accumulator = 0x33;
    cpu.x = 0x44;
    cpu.y = 0x55;
    cpu.carry = true;
    assert!(cpu.write_with_addressing_mode(AddressingMode::AbsoluteX(0x2000), 0x77));
    assert_eq!((cpu.pc, cpu.sp, cpu.accumulator, cpu.x, cpu.y), (0x1111, 0x22, 0x33, 0x44, 0x55));
    assert_eq!(
        (cpu.carry, cpu.zero, cpu.interrupt, cpu.decimal, cpu.brk, cpu.overflow, cpu.sign),
        (true, false, false, false, false, false, false)
    );
    for addr in 0..=0xFFFFu16 {
        let expected = if addr == 0x2044 { 0x77 } else { 0 };
        assert_eq!(cpu.memory.get_byte(addr), expected);
    }
}
