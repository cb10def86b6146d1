use serun::cpu::CPU;
use serun::machine::{CpuError, StepOutcome};
use serun::opcodes::{AddressingMode, Instruction, Opcode};

#[test]
fn test_0xa9_lda_immediate_load_data() {
    let mut cpu = CPU::new();
    assert_eq!(cpu.load_and_run(vec![0xa9, 0x05, 0x00]), Ok(()));
    assert_eq!(cpu.register_a, 0x05);
    assert!(cpu.status & 0b0000_0010 == 0b00);
    assert!(cpu.status & 0b1000_0000 == 0);
}

#[test]
fn test_0xa9_lda_zero_flag() {
    let mut cpu = CPU::new();
    assert_eq!(cpu.load_and_run(vec![0xa9, 0x00, 0x00]), Ok(()));
    assert!(cpu.status & 0b0000_0010 == 0b10);
}

#[test]
fn test_0xaa_tax_move_a_to_x() {
    let mut cpu = CPU::new();
    cpu.register_a = 0;
    assert_eq!(cpu.load_and_run(vec![0xaa, 0x00]), Ok(()));

    assert_eq!(cpu.register_x, 0)
}

#[test]
fn test_5_ops_working_together() {
    let mut cpu = CPU::new();
    assert_eq!(cpu.load_and_run(vec![0xa9, 0xc0, 0xaa, 0xe8, 0x00]), Ok(()));

    assert_eq!(cpu.register_x, 0xc1)
}

#[test]
fn test_inx_overflow() {
    let mut cpu = CPU::new();
    cpu.register_x = 0xff;
    assert_eq!(cpu.load_and_run(vec![0xe8, 0xe8, 0x00]), Ok(()));

    assert_eq!(cpu.register_x, 2)
}

#[test]
fn test_push_and_pop_stack() {
    let mut cpu = CPU::new();
    cpu.reset();
    cpu.push_stack(0x01);
    cpu.push_stack(0x02);
    cpu.push_stack(0x03);
    assert_eq!(cpu.stack_pointer, 0xFA);
    let val1 = cpu.pop_stack();
    let val2 = cpu.pop_stack();
    let val3 = cpu.pop_stack();
    assert_eq!(val1, 0x03);
    assert_eq!(val2, 0x02);
    assert_eq!(val3, 0x01);
    assert_eq!(cpu.stack_pointer, 0xFD);
}

#[test]
fn test_rol() {
    let mut cpu = CPU::new();
    let instruction = Instruction { opcode: Opcode::ROL, bytes: 1, cycles: 2, addressing_mode: AddressingMode::Accumulator };
    cpu.reset();
    cpu.status = 0b1010_0111;
    cpu.register_a = 0b0011_1100;
    cpu.rol(&instruction);
    assert_eq!(cpu.register_a, 0b0111_1001);
    assert_eq!(cpu.status, 0b0010_0100);
}

#[test]
fn lda_halts_with_pc_past_brk() {
    let mut cpu = CPU::new();
    assert_eq!(cpu.load_and_run(vec![0xa9, 0x05, 0x00]), Ok(()));
    assert_eq!(cpu.program_counter, 0x8003);
}

#[test]
fn load_keeps_other_flags() {
    let mut cpu = CPU::new();
    cpu.load(vec![0xa9, 0x00, 0xa2, 0x80, 0xa0, 0x7f, 0x00]);
    cpu.reset();
    cpu.status = 0b0110_1101;
    assert_eq!(cpu.step(), Ok(StepOutcome::Running));
    assert_eq!(cpu.status, 0b0110_1111);
    assert_eq!(cpu.step(), Ok(StepOutcome::Running));
    assert_eq!(cpu.register_x, 0x80);
    assert_eq!(cpu.status, 0b1110_1101);
    assert_eq!(cpu.step(), Ok(StepOutcome::Running));
    assert_eq!(cpu.register_y, 0x7f);
    assert_eq!(cpu.status, 0b0110_1101);
    assert_eq!(cpu.step(), Ok(StepOutcome::Halted));
}

#[test]
fn compare_sets_carry_zero_negative() {
    // CMP #$10 with A = $20, $10, $05
    for (a, expected) in [(0x20u8, 0b0000_0001u8), (0x10, 0b0000_0011), (0x05, 0b1000_0000)] {
        let mut cpu = CPU::new();
        cpu.load(vec![0xc9, 0x10, 0x00]);
        cpu.reset();
        cpu.register_a = a;
        assert_eq!(cpu.run(), Ok(()));
        assert_eq!(cpu.status, expected);
    }
}

#[test]
fn cpx_and_cpy_compare_index_registers() {
    let mut cpu = CPU::new();
    // LDX #$05; CPX #$05; BRK
    assert_eq!(cpu.load_and_run(vec![0xa2, 0x05, 0xe0, 0x05, 0x00]), Ok(()));
    assert_eq!(cpu.status & 0b11, 0b11);
    let mut cpu = CPU::new();
    // LDY #$01; CPY #$02; BRK
    assert_eq!(cpu.load_and_run(vec![0xa0, 0x01, 0xc0, 0x02, 0x00]), Ok(()));
    assert_eq!(cpu.status, 0b1000_0000);
}

#[test]
fn pha_pla_round_trip() {
    let mut cpu = CPU::new();
    // LDA #$8A; PHA; LDA #$00; PLA; BRK
    assert_eq!(cpu.load_and_run(vec![0xa9, 0x8a, 0x48, 0xa9, 0x00, 0x68, 0x00]), Ok(()));
    assert_eq!(cpu.register_a, 0x8a);
    assert_eq!(cpu.stack_pointer, 0xFD);
    assert_eq!(cpu.status, 0b1000_0000);
}

#[test]
fn php_plp_restore_status() {
    let mut cpu = CPU::new();
    // SEC; SED; PHP; CLC; CLD; PLP; BRK
    assert_eq!(cpu.load_and_run(vec![0x38, 0xf8, 0x08, 0x18, 0xd8, 0x28, 0x00]), Ok(()));
    assert_eq!(cpu.status, 0b0000_1001);
    assert_eq!(cpu.stack_pointer, 0xFD);
}

#[test]
fn inx_wraps_to_zero_and_dex_wraps_to_ff() {
    let mut cpu = CPU::new();
    cpu.register_x = 0xFF;
    cpu.inx();
    assert_eq!(cpu.register_x, 0x00);
    assert_eq!(cpu.status & 0b0000_0010, 0b0000_0010);
    cpu.dex();
    assert_eq!(cpu.register_x, 0xFF);
    assert_eq!(cpu.status & 0b1000_0000, 0b1000_0000);
    assert_eq!(cpu.status & 0b0000_0010, 0);
}

#[test]
fn iny_dey_wrap() {
    let mut cpu = CPU::new();
    cpu.dey();
    assert_eq!(cpu.register_y, 0xFF);
    cpu.iny();
    assert_eq!(cpu.register_y, 0x00);
    assert_eq!(cpu.status, 0b0000_0010);
}

#[test]
fn unsupported_opcode_is_reported() {
    let mut cpu = CPU::new();
    let r = cpu.load_and_run(vec![0xa9, 0x01, 0x02, 0xa9, 0x07, 0x00]);
    assert_eq!(r, Err(CpuError::UnsupportedOpcode { opcode: 0x02, pc: 0x8002 }));
    assert_eq!(cpu.register_a, 0x01);
    assert_eq!(cpu.program_counter, 0x8002);
}

#[test]
fn malformed_descriptor_is_refused() {
    let mut cpu = CPU::new();
    cpu.reset();
    let ins = Instruction { opcode: Opcode::LDA, bytes: 1, cycles: 2, addressing_mode: AddressingMode::NoneAddressing };
    assert_eq!(
        cpu.execute(&ins),
        Err(CpuError::InvalidAddressingMode { operation: Opcode::LDA, mode: AddressingMode::NoneAddressing })
    );
    assert_eq!(cpu.register_a, 0);
    assert_eq!(cpu.program_counter, 0);
}

#[test]
fn adc_carry_and_overflow() {
    let mut cpu = CPU::new();
    // LDA #$50; ADC #$50; BRK  -> $A0, V set, N set, C clear
    assert_eq!(cpu.load_and_run(vec![0xa9, 0x50, 0x69, 0x50, 0x00]), Ok(()));
    assert_eq!(cpu.register_a, 0xA0);
    assert_eq!(cpu.status, 0b1100_0000);
    let mut cpu = CPU::new();
    // SEC; LDA #$FF; ADC #$01; BRK -> $01 with carry in, C set, Z clear
    assert_eq!(cpu.load_and_run(vec![0x38, 0xa9, 0xff, 0x69, 0x01, 0x00]), Ok(()));
    assert_eq!(cpu.register_a, 0x01);
    assert_eq!(cpu.status, 0b0000_0001);
}

#[test]
fn sbc_borrow_and_overflow() {
    let mut cpu = CPU::new();
    // SEC; LDA #$50; SBC #$F0; BRK -> $60, C clear (borrow), V clear
    assert_eq!(cpu.load_and_run(vec![0x38, 0xa9, 0x50, 0xe9, 0xf0, 0x00]), Ok(()));
    assert_eq!(cpu.register_a, 0x60);
    assert_eq!(cpu.status, 0b0000_0000);
    let mut cpu = CPU::new();
    // SEC; LDA #$50; SBC #$B0; BRK -> $A0, V set, N set, C clear
    assert_eq!(cpu.load_and_run(vec![0x38, 0xa9, 0x50, 0xe9, 0xb0, 0x00]), Ok(()));
    assert_eq!(cpu.register_a, 0xA0);
    assert_eq!(cpu.status, 0b1100_0000);
}

#[test]
fn bit_sets_z_n_v() {
    let mut cpu = CPU::new();
    // LDA #$C0; STA $10; LDA #$0F; BIT $10; BRK
    assert_eq!(cpu.load_and_run(vec![0xa9, 0xc0, 0x85, 0x10, 0xa9, 0x0f, 0x24, 0x10, 0x00]), Ok(()));
    assert_eq!(cpu.register_a, 0x0F);
    assert_eq!(cpu.status, 0b1100_0010);
}

#[test]
fn asl_lsr_ror_on_accumulator_and_memory() {
    let mut cpu = CPU::new();
    // LDA #$81; ASL A; BRK -> $02, C set
    assert_eq!(cpu.load_and_run(vec![0xa9, 0x81, 0x0a, 0x00]), Ok(()));
    assert_eq!(cpu.register_a, 0x02);
    assert_eq!(cpu.status, 0b0000_0001);
    let mut cpu = CPU::new();
    // LDA #$03; STA $20; LSR $20; LDA $20; BRK -> $01, C set
    let mut cpu2 = CPU::new();
    assert_eq!(cpu2.load_and_run(vec![0xa9, 0x03, 0x85, 0x20, 0x46, 0x20, 0xa5, 0x20, 0x00]), Ok(()));
    assert_eq!(cpu2.register_a, 0x01);
    assert_eq!(cpu2.status & 1, 1);
    let mut cpu3 = CPU::new();
    // SEC; LDA #$02; ROR A; BRK -> $81, C clear, N set
    assert_eq!(cpu3.load_and_run(vec![0x38, 0xa9, 0x02, 0x6a, 0x00]), Ok(()));
    assert_eq!(cpu3.register_a, 0x81);
    assert_eq!(cpu3.status, 0b1000_0000);
}

#[test]
fn inc_dec_memory() {
    let mut cpu = CPU::new();
    // INC $30; INC $30; DEC $30; LDX $30; BRK
    assert_eq!(cpu.load_and_run(vec![0xe6, 0x30, 0xe6, 0x30, 0xc6, 0x30, 0xa6, 0x30, 0x00]), Ok(()));
    assert_eq!(cpu.register_x, 0x01);
}

#[test]
fn branch_loop_counts_down() {
    let mut cpu = CPU::new();
    // LDX #$03; INY; DEX; BNE -4; BRK
    assert_eq!(cpu.load_and_run(vec![0xa2, 0x03, 0xc8, 0xca, 0xd0, 0xfc, 0x00]), Ok(()));
    assert_eq!(cpu.register_y, 0x03);
    assert_eq!(cpu.register_x, 0x00);
    assert_eq!(cpu.program_counter, 0x8007);
}

#[test]
fn branch_forward_skips() {
    let mut cpu = CPU::new();
    // SEC; BCS +2; LDA #$01; BRK
    assert_eq!(cpu.load_and_run(vec![0x38, 0xb0, 0x02, 0xa9, 0x01, 0x00]), Ok(()));
    assert_eq!(cpu.register_a, 0x00);
}

#[test]
fn jmp_absolute_and_indirect() {
    let mut cpu = CPU::new();
    // JMP $8005; LDA #$01; LDX #$02; BRK
    assert_eq!(cpu.load_and_run(vec![0x4c, 0x05, 0x80, 0xa9, 0x01, 0xa2, 0x02, 0x00]), Ok(()));
    assert_eq!(cpu.register_a, 0x00);
    assert_eq!(cpu.register_x, 0x02);
    let mut cpu = CPU::new();
    // LDA #$0B; STA $40; LDA #$80; STA $41; JMP ($0040); BRK; then LDX #$09; BRK at $800B
    let program = vec![0xa9, 0x0b, 0x85, 0x40, 0xa9, 0x80, 0x85, 0x41, 0x6c, 0x40, 0x00, 0xa2, 0x09, 0x00];
    assert_eq!(cpu.load_and_run(program), Ok(()));
    assert_eq!(cpu.register_x, 0x09);
}

#[test]
fn jsr_pushes_address_after_instruction() {
    let mut cpu = CPU::new();
    // JSR $8005; NOP; NOP; BRK at $8005
    assert_eq!(cpu.load_and_run(vec![0x20, 0x05, 0x80, 0xea, 0xea, 0x00]), Ok(()));
    assert_eq!(cpu.stack_pointer, 0xFB);
    assert_eq!(cpu.pop_stack_u16(), 0x8003);
}

#[test]
fn rts_sets_pc_one_below_pulled_address() {
    let mut cpu = CPU::new();
    cpu.reset();
    cpu.push_stack_u16(0x1234);
    cpu.rts();
    assert_eq!(cpu.program_counter, 0x1233);
    assert_eq!(cpu.stack_pointer, 0xFD);
}

#[test]
fn rti_pulls_status_then_pc() {
    let mut cpu = CPU::new();
    cpu.reset();
    cpu.push_stack_u16(0xC123);
    cpu.push_stack(0b1000_0011);
    cpu.rti();
    assert_eq!(cpu.status, 0b1000_0011);
    assert_eq!(cpu.program_counter, 0xC123);
}

#[test]
fn transfers_and_stack_pointer() {
    let mut cpu = CPU::new();
    // LDX #$80; TXS; TSX; TXA; TAY; BRK
    assert_eq!(cpu.load_and_run(vec![0xa2, 0x80, 0x9a, 0xba, 0x8a, 0xa8, 0x00]), Ok(()));
    assert_eq!(cpu.stack_pointer, 0x80);
    assert_eq!(cpu.register_a, 0x80);
    assert_eq!(cpu.register_y, 0x80);
    assert_eq!(cpu.status, 0b1000_0000);
}

#[test]
fn flag_instructions_touch_one_bit() {
    let mut cpu = CPU::new();
    // SEC; SEI; SED; CLI; BRK
    assert_eq!(cpu.load_and_run(vec![0x38, 0x78, 0xf8, 0x58, 0x00]), Ok(()));
    assert_eq!(cpu.status, 0b0000_1001);
    cpu.status = 0b0100_0000;
    cpu.clv();
    assert_eq!(cpu.status, 0);
}

#[test]
fn logical_ops_and_stores() {
    let mut cpu = CPU::new();
    // LDA #$F0; AND #$3C; ORA #$01; EOR #$FF; STA $0200; LDY $0200; BRK
    let program = vec![0xa9, 0xf0, 0x29, 0x3c, 0x09, 0x01, 0x49, 0xff, 0x8d, 0x00, 0x02, 0xac, 0x00, 0x02, 0x00];
    assert_eq!(cpu.load_and_run(program), Ok(()));
    assert_eq!(cpu.register_a, 0xCE);
    assert_eq!(cpu.register_y, 0xCE);
}

#[test]
fn indexed_and_indirect_addressing() {
    let mut cpu = CPU::new();
    // LDA #$34; STA $10; LDA #$12; STA $11; LDA #$77; LDY #$01; STA ($10),Y; LDX $1235; BRK
    let program = vec![
        0xa9, 0x34, 0x85, 0x10, 0xa9, 0x12, 0x85, 0x11, 0xa9, 0x77, 0xa0, 0x01, 0x91, 0x10, 0xae, 0x35, 0x12, 0x00,
    ];
    assert_eq!(cpu.load_and_run(program), Ok(()));
    assert_eq!(cpu.register_x, 0x77);
    let mut cpu = CPU::new();
    // LDX #$FF; LDA #$55; STA $05,X (wraps to $04); LDY $04; BRK
    assert_eq!(cpu.load_and_run(vec![0xa2, 0xff, 0xa9, 0x55, 0x95, 0x05, 0xa4, 0x04, 0x00]), Ok(()));
    assert_eq!(cpu.register_y, 0x55);
}

#[test]
fn run_for_stops_when_budget_ends() {
    let mut cpu = CPU::new();
    // JMP $8000 forever
    cpu.load(vec![0x4c, 0x00, 0x80]);
    cpu.reset();
    assert_eq!(cpu.run_for(10), Ok(StepOutcome::Running));
    assert_eq!(cpu.program_counter, 0x8000);
}

#[test]
fn status_flag_accessors() {
    let mut cpu = CPU::new();
    cpu.set_status_flag(serun::cpu::StatusFlag::V);
    assert_eq!(cpu.status, 0b0100_0000);
    assert_eq!(cpu.get_status_flag(serun::cpu::StatusFlag::V), 1);
    assert_eq!(cpu.get_status_flag(serun::cpu::StatusFlag::C), 0);
    cpu.clear_status_flag(serun::cpu::StatusFlag::V);
    assert_eq!(cpu.status, 0);
}

#[test]
fn zero_length_descriptor_is_refused() {
    let mut cpu = CPU::new();
    let ins = Instruction { opcode: Opcode::NOP, bytes: 0, cycles: 2, addressing_mode: AddressingMode::NoneAddressing };
    assert_eq!(
        cpu.execute(&ins),
        Err(CpuError::InvalidAddressingMode { operation: Opcode::NOP, mode: AddressingMode::NoneAddressing })
    );
    assert_eq!(cpu.program_counter, 0);
}
