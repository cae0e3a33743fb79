use nerust_jg::cpu::{decode, AddressingMode, CpuError, Instruction, FLAG_NEGATIVE, FLAG_ZERO};
use nerust_jg::CPU;

fn run_program(program: Vec<u8>) -> CPU {
    let mut cpu = CPU::new();
    cpu.load(program);
    cpu.reset();
    assert_eq!(cpu.run(), Ok(()));
    cpu
}

#[test]
fn test_0xa9_lda_immediate_load_data() {
    let cpu = run_program(vec![0xa9, 0x05, 0x00]);
    assert_eq!(cpu.register_a, 5);
    assert!(cpu.status & 0b0000_0010 == 0b00);
    assert!(cpu.status & 0b1000_0000 == 0);
}

#[test]
fn test_0xaa_tax_move_a_to_x() {
    let cpu = run_program(vec![0xa9, 0x0a, 0xaa, 0x00]);
    assert_eq!(cpu.register_x, 10);
}

#[test]
fn test_inx_overflow() {
    let cpu = run_program(vec![0xa9, 0xff, 0xaa, 0xe8, 0xe8, 0x00]);
    assert_eq!(cpu.register_x, 1);
}

#[test]
fn test_5_ops_working_together() {
    let cpu = run_program(vec![0xa9, 0xc0, 0xaa, 0xe8, 0x00]);
    assert_eq!(cpu.register_x, 0xc1);
}

#[test]
fn test_lda_from_memory() {
    let cpu = run_program(vec![0xa9, 0x55, 0x85, 0x10, 0xa5, 0x10, 0x00]);
    assert_eq!(cpu.register_a, 0x55);
}

#[test]
fn lda_zero_sets_zero_flag() {
    let cpu = run_program(vec![0xa9, 0x00, 0x00]);
    assert!(cpu.status & FLAG_ZERO != 0);
    assert!(cpu.status & FLAG_NEGATIVE == 0);
}

#[test]
fn lda_negative_sets_negative_flag() {
    let cpu = run_program(vec![0xa9, 0x80, 0x00]);
    assert_eq!(cpu.register_a, 0x80);
    assert!(cpu.status & FLAG_ZERO == 0);
    assert!(cpu.status & FLAG_NEGATIVE != 0);
}

#[test]
fn halt_leaves_counter_past_break() {
    let cpu = run_program(vec![0xa9, 0x05, 0x00]);
    assert_eq!(cpu.program_counter, 0x8003);
}

#[test]
fn flags_update_keeps_other_bits() {
    let mut cpu = CPU::new();
    cpu.status = 0b0111_1101;
    cpu.update_zero_and_negative_flags(0);
    assert_eq!(cpu.status, 0b0111_1111);
    cpu.update_zero_and_negative_flags(0x90);
    assert_eq!(cpu.status, 0b1111_1101);
    cpu.update_zero_and_negative_flags(0x01);
    assert_eq!(cpu.status, 0b0111_1101);
    cpu.status = 0;
    cpu.update_zero_and_negative_flags(0x7F);
    assert_eq!(cpu.status, 0);
}

#[test]
fn zero_page_x_wraps_within_page_zero() {
    let mut cpu = CPU::new();
    cpu.program_counter = 0x0010;
    cpu.mem_write(0x0010, 0xFF);
    cpu.register_x = 2;
    assert_eq!(cpu.get_operand_address(&AddressingMode::ZeroPage_X), 0x0001);
    cpu.register_y = 3;
    assert_eq!(cpu.get_operand_address(&AddressingMode::ZeroPage_Y), 0x0002);
}

#[test]
fn operand_address_modes() {
    let mut cpu = CPU::new();
    cpu.program_counter = 0x0020;
    cpu.mem_write(0x0020, 0x34);
    cpu.mem_write(0x0021, 0x12);
    assert_eq!(cpu.get_operand_address(&AddressingMode::Immediate), 0x0020);
    assert_eq!(cpu.get_operand_address(&AddressingMode::ZeroPage), 0x0034);
    assert_eq!(cpu.get_operand_address(&AddressingMode::Absolute), 0x1234);
    cpu.register_x = 0x10;
    cpu.register_y = 0x20;
    assert_eq!(cpu.get_operand_address(&AddressingMode::Absolute_X), 0x1244);
    assert_eq!(cpu.get_operand_address(&AddressingMode::Absolute_Y), 0x1254);
}

#[test]
fn absolute_indexed_wraps_around_address_space() {
    let mut cpu = CPU::new();
    cpu.program_counter = 0x0020;
    cpu.mem_write_u16(0x0020, 0xFFFF);
    cpu.register_x = 2;
    assert_eq!(cpu.get_operand_address(&AddressingMode::Absolute_X), 0x0001);
}

#[test]
fn indirect_modes() {
    let mut cpu = CPU::new();
    cpu.program_counter = 0x0020;
    cpu.mem_write(0x0020, 0x33);
    // pointer for Indirect_X: 0x33 + X(1) = 0x34
    cpu.mem_write(0x0034, 0x00);
    cpu.mem_write(0x0035, 0x04);
    // pointer for Indirect_Y: 0x33
    cpu.mem_write(0x0033, 0x10);
    cpu.register_x = 1;
    cpu.register_y = 5;
    assert_eq!(cpu.get_operand_address(&AddressingMode::Indirect_X), 0x0400);
    // word at 0x33: low 0x10, high 0x00 (from 0x34)
    assert_eq!(cpu.get_operand_address(&AddressingMode::Indirect_Y), 0x0015);
}

#[test]
fn indirect_x_pointer_wraps_in_page_zero() {
    let mut cpu = CPU::new();
    cpu.program_counter = 0x0020;
    cpu.mem_write(0x0020, 0xFE);
    cpu.register_x = 1;
    cpu.mem_write(0x00FF, 0x78);
    cpu.mem_write(0x0000, 0x06);
    assert_eq!(cpu.get_operand_address(&AddressingMode::Indirect_X), 0x0678);
}

#[test]
fn word_read_and_write_are_little_endian() {
    let mut cpu = CPU::new();
    cpu.mem_write_u16(0x0100, 0xBEEF);
    assert_eq!(cpu.mem_read(0x0100), 0xEF);
    assert_eq!(cpu.mem_read(0x0101), 0xBE);
    assert_eq!(cpu.mem_read_u16(0x0100), 0xBEEF);
}

#[test]
fn word_read_at_top_wraps_to_zero() {
    let mut cpu = CPU::new();
    cpu.mem_write(0xFFFF, 0x34);
    cpu.mem_write(0x0000, 0x12);
    assert_eq!(cpu.mem_read_u16(0xFFFF), 0x1234);
}

#[test]
fn load_sets_reset_vector_and_copies_program() {
    let mut cpu = CPU::new();
    cpu.load(vec![1, 2, 3]);
    assert_eq!(cpu.mem_read(0x8000), 1);
    assert_eq!(cpu.mem_read(0x8001), 2);
    assert_eq!(cpu.mem_read(0x8002), 3);
    assert_eq!(cpu.mem_read(0x8003), 0);
    assert_eq!(cpu.mem_read_u16(0xFFFC), 0x8000);
}

#[test]
fn reset_clears_registers_and_reads_vector() {
    let mut cpu = CPU::new();
    cpu.register_a = 9;
    cpu.register_x = 8;
    cpu.register_y = 7;
    cpu.status = 0xFF;
    cpu.mem_write_u16(0xFFFC, 0x8123);
    cpu.reset();
    assert_eq!(cpu.register_a, 0);
    assert_eq!(cpu.register_x, 0);
    assert_eq!(cpu.register_y, 7);
    assert_eq!(cpu.status, 0);
    assert_eq!(cpu.program_counter, 0x8123);
}

#[test]
fn store_absolute_x_then_load() {
    // LDA #$42, TAX... X = 0x42; STA $0100,X -> 0x0142; LDA #$00; LDA $0142
    let cpu = run_program(vec![0xa9, 0x42, 0xaa, 0x9d, 0x00, 0x01, 0xa9, 0x00, 0xad, 0x42, 0x01, 0x00]);
    assert_eq!(cpu.mem_read(0x0142), 0x42);
    assert_eq!(cpu.register_a, 0x42);
}

#[test]
fn unimplemented_opcode_is_reported() {
    let mut cpu = CPU::new();
    cpu.load(vec![0xa9, 0x01, 0x02, 0x00]);
    cpu.reset();
    assert_eq!(
        cpu.run(),
        Err(CpuError::UnimplementedOpcode { opcode: 0x02, address: 0x8002 })
    );
    assert_eq!(cpu.program_counter, 0x8002);
    assert_eq!(cpu.register_a, 1);
}

#[test]
fn load_and_run_executes_program() {
    let mut cpu = CPU::new();
    assert_eq!(cpu.load_and_run(vec![0xa9, 0x07, 0xaa, 0x00]), Ok(()));
    assert_eq!(cpu.register_x, 7);
}

#[test]
fn interpret_starts_at_rom() {
    let mut cpu = CPU::new();
    assert_eq!(cpu.interpret(vec![0xa9, 0x11, 0x00]), Ok(()));
    assert_eq!(cpu.register_a, 0x11);
}

#[test]
fn run_halts_in_unmapped_window() {
    let mut cpu = CPU::new();
    cpu.program_counter = 0x5000;
    assert_eq!(cpu.run(), Ok(()));
    assert_eq!(cpu.program_counter, 0x5001);
}

#[test]
fn run_wraps_from_rom_top_into_ram() {
    // LDA #$09 at 0xFFFE wraps the counter to 0x0000, where a halt waits.
    let mut cpu = CPU::new();
    cpu.mem_write(0xFFFE, 0xa9);
    cpu.mem_write(0xFFFF, 0x09);
    cpu.program_counter = 0xFFFE;
    assert_eq!(cpu.run(), Ok(()));
    assert_eq!(cpu.register_a, 0x09);
    assert_eq!(cpu.program_counter, 0x0001);
}

#[test]
fn decode_table() {
    assert_eq!(decode(0xA9), Some((Instruction::Lda, AddressingMode::Immediate)));
    assert_eq!(decode(0x91), Some((Instruction::Sta, AddressingMode::Indirect_Y)));
    assert_eq!(decode(0xE8), Some((Instruction::Inx, AddressingMode::NoneAddressing)));
    assert_eq!(decode(0x00), Some((Instruction::Brk, AddressingMode::NoneAddressing)));
    assert_eq!(decode(0xFF), None);
}

#[test]
fn default_is_new() {
    let cpu = CPU::default();
    assert_eq!(cpu.register_a, 0);
    assert_eq!(cpu.program_counter, 0);
    assert_eq!(cpu.stack_pointer, 0xFD);
}
