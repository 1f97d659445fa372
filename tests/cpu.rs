use nes_emu::bus::Bus;
use nes_emu::cpu::Cpu;
use nes_emu::cpu_spec::CpuError;
use nes_emu::flags::{CARRY, DECIMAL_MODE, NEGATIVE, OVERFLOW, ZERO};
use nes_emu::opcodes::{lookup, AddressingMode, Mnemonic};
use nes_emu::ppu::Mirroring;

fn machine() -> Cpu {
    let bus = Bus::new(vec![0u8; 0x8000], vec![0u8; 0x2000], Mirroring::Horizontal);
    Cpu::new(bus)
}

#[test]
fn load_transfer_increment() {
    let mut cpu = machine();
    let r = cpu.load_and_run(vec![0xA9, 0x05, 0xAA, 0xE8, 0x00]);
    assert_eq!(r, Ok(true));
    assert_eq!(cpu.register_x, 0x06);
    assert!(!cpu.status.contains(ZERO));
    assert!(!cpu.status.contains(NEGATIVE));
}

#[test]
fn add_with_carry_out() {
    let mut cpu = machine();
    let r = cpu.load_and_run(vec![0xA9, 0xFF, 0x69, 0x02, 0x00]);
    assert_eq!(r, Ok(true));
    assert_eq!(cpu.register_a, 0x01);
    assert!(cpu.status.contains(CARRY));
    assert!(!cpu.status.contains(OVERFLOW));
}

#[test]
fn add_signed_overflow() {
    let mut cpu = machine();
    // LDA #$50; ADC #$50
    cpu.load_and_run(vec![0xA9, 0x50, 0x69, 0x50, 0x00]).unwrap();
    assert_eq!(cpu.register_a, 0xA0);
    assert!(cpu.status.contains(OVERFLOW));
    assert!(cpu.status.contains(NEGATIVE));
    assert!(!cpu.status.contains(CARRY));
}

#[test]
fn adc_then_sbc_restores_accumulator() {
    let mut cpu = machine();
    // LDA #$50; CLC; ADC #$30; SEC; SBC #$30
    cpu.load_and_run(vec![0xA9, 0x50, 0x18, 0x69, 0x30, 0x38, 0xE9, 0x30, 0x00]).unwrap();
    assert_eq!(cpu.register_a, 0x50);
    // with carry in: LDA #$F0; SEC; ADC #$20 (carry out, 0x11); CLC; SBC #$20
    let mut cpu = machine();
    cpu.load_and_run(vec![0xA9, 0xF0, 0x38, 0x69, 0x20, 0x18, 0xE9, 0x20, 0x00]).unwrap();
    assert_eq!(cpu.register_a, 0xF0);
}

#[test]
fn zero_and_negative_flags_for_every_byte() {
    let mut cpu = machine();
    for v in 0..=255u8 {
        cpu.update_zero_and_negative_flag(v);
        assert_eq!(cpu.status.contains(ZERO), v == 0);
        assert_eq!(cpu.status.contains(NEGATIVE), v & 0x80 != 0);
    }
}

#[test]
fn indirect_y_pointer_wraps_in_zero_page() {
    let mut cpu = machine();
    // LDA #$34; STA $FF; LDA #$12; STA $00; LDA #$AB; STA $1235;
    // LDA #$00; LDY #$01; LDA ($FF),Y
    cpu.load_and_run(vec![
        0xA9, 0x34, 0x85, 0xFF, 0xA9, 0x12, 0x85, 0x00, 0xA9, 0xAB, 0x8D, 0x35, 0x12, 0xA9, 0x00,
        0xA0, 0x01, 0xB1, 0xFF, 0x00,
    ])
    .unwrap();
    assert_eq!(cpu.register_a, 0xAB);
}

#[test]
fn get_absolute_address_indirect_y() {
    let mut cpu = machine();
    cpu.mem_write(0x0010, 0xFF);
    cpu.mem_write(0x00FF, 0x00);
    cpu.mem_write(0x0000, 0x03);
    cpu.mem_write(0x0100, 0x07);
    cpu.register_y = 0x05;
    assert_eq!(cpu.get_absolute_address(&AddressingMode::Indirect_Y, 0x0010), 0x0305);
}

#[test]
fn indirect_jump_page_bug() {
    let mut cpu = machine();
    // pointer at $02FF: low byte $80 there, $40 at $0200, $50 at $0300.
    // LDA #$80; STA $02FF; LDA #$40; STA $0200; LDA #$50; STA $0300; JMP ($02FF)
    cpu.load_and_run(vec![
        0xA9, 0x80, 0x8D, 0xFF, 0x02, 0xA9, 0x40, 0x8D, 0x00, 0x02, 0xA9, 0x50, 0x8D, 0x00, 0x03,
        0x6C, 0xFF, 0x02,
    ])
    .unwrap();
    // $4080 reads as 0 (BRK), which leaves the counter one past it
    assert_eq!(cpu.program_counter, 0x4081);
}

#[test]
fn absolute_jump() {
    let mut cpu = machine();
    // JMP $8605; (skipped) LDA #$01; BRK at $8605 -> A untouched
    cpu.load_and_run(vec![0x4C, 0x05, 0x86, 0xA9, 0x01, 0x00]).unwrap();
    assert_eq!(cpu.register_a, 0x00);
    assert_eq!(cpu.program_counter, 0x8606);
}

#[test]
fn push_pull_accumulator() {
    let mut cpu = machine();
    // LDA #$42; PHA; LDA #$00; PLA
    cpu.load_and_run(vec![0xA9, 0x42, 0x48, 0xA9, 0x00, 0x68, 0x00]).unwrap();
    assert_eq!(cpu.register_a, 0x42);
    assert_eq!(cpu.stack_pointer, 0xFD);
}

#[test]
fn subroutine_call_and_return() {
    let mut cpu = machine();
    // JSR $8606; LDX #$07; BRK; (at $8606) LDA #$09; RTS
    cpu.load_and_run(vec![0x20, 0x06, 0x86, 0xA2, 0x07, 0x00, 0xA9, 0x09, 0x60]).unwrap();
    assert_eq!(cpu.register_a, 0x09);
    assert_eq!(cpu.register_x, 0x07);
    assert_eq!(cpu.stack_pointer, 0xFD);
}

#[test]
fn php_plp_keeps_flags_and_fixes_break_bits() {
    let mut cpu = machine();
    // SEC; SED; PHP; CLC; CLD; PLP
    cpu.load_and_run(vec![0x38, 0xF8, 0x08, 0x18, 0xD8, 0x28, 0x00]).unwrap();
    assert_eq!(cpu.status.bits(), 0x24 | CARRY | DECIMAL_MODE);
    assert_eq!(cpu.stack_pointer, 0xFD);
}

#[test]
fn compare_sets_carry_when_operand_not_greater() {
    let mut cpu = machine();
    // LDA #$10; CMP #$10
    cpu.load_and_run(vec![0xA9, 0x10, 0xC9, 0x10, 0x00]).unwrap();
    assert!(cpu.status.contains(CARRY));
    assert!(cpu.status.contains(ZERO));
    let mut cpu = machine();
    // LDA #$10; CMP #$11
    cpu.load_and_run(vec![0xA9, 0x10, 0xC9, 0x11, 0x00]).unwrap();
    assert!(!cpu.status.contains(CARRY));
    assert!(cpu.status.contains(NEGATIVE));
}

#[test]
fn branch_loop_counts_down() {
    let mut cpu = machine();
    // LDX #$03; LDA #$00; loop: CLC; ADC #$02; DEX; BNE loop
    cpu.load_and_run(vec![0xA2, 0x03, 0xA9, 0x00, 0x18, 0x69, 0x02, 0xCA, 0xD0, 0xFA, 0x00]).unwrap();
    assert_eq!(cpu.register_a, 0x06);
    assert_eq!(cpu.register_x, 0x00);
}

#[test]
fn shifts_of_accumulator_and_memory() {
    let mut cpu = machine();
    // LDA #$81; ASL A -> 0x02, carry
    cpu.load_and_run(vec![0xA9, 0x81, 0x0A, 0x00]).unwrap();
    assert_eq!(cpu.register_a, 0x02);
    assert!(cpu.status.contains(CARRY));
    let mut cpu = machine();
    // LDA #$03; STA $10; LSR $10; LDA $10
    cpu.load_and_run(vec![0xA9, 0x03, 0x85, 0x10, 0x46, 0x10, 0xA5, 0x10, 0x00]).unwrap();
    assert_eq!(cpu.register_a, 0x01);
    assert!(cpu.status.contains(CARRY));
    let mut cpu = machine();
    // SEC; LDA #$01; ROR A -> 0x80, carry
    cpu.load_and_run(vec![0x38, 0xA9, 0x01, 0x6A, 0x00]).unwrap();
    assert_eq!(cpu.register_a, 0x80);
    assert!(cpu.status.contains(CARRY));
}

#[test]
fn unofficial_lax_and_dcp() {
    let mut cpu = machine();
    // LDA #$05; STA $20; LDA #$00; LAX $20
    cpu.load_and_run(vec![0xA9, 0x05, 0x85, 0x20, 0xA9, 0x00, 0xA7, 0x20, 0x00]).unwrap();
    assert_eq!(cpu.register_a, 0x05);
    assert_eq!(cpu.register_x, 0x05);
    let mut cpu = machine();
    // LDA #$05; STA $20; DCP $20 -> memory 4, compare 5 with 4: carry
    cpu.load_and_run(vec![0xA9, 0x05, 0x85, 0x20, 0xC7, 0x20, 0x00]).unwrap();
    assert_eq!(cpu.mem_read(0x20), 0x04);
    assert!(cpu.status.contains(CARRY));
    assert!(!cpu.status.contains(ZERO));
}

#[test]
fn unofficial_slo_ors_shifted_memory() {
    let mut cpu = machine();
    // LDA #$41; STA $20; LDA #$01; SLO $20 -> memory 0x82, A = 0x83
    cpu.load_and_run(vec![0xA9, 0x41, 0x85, 0x20, 0xA9, 0x01, 0x07, 0x20, 0x00]).unwrap();
    assert_eq!(cpu.mem_read(0x20), 0x82);
    assert_eq!(cpu.register_a, 0x83);
}

#[test]
fn ram_is_mirrored() {
    let mut cpu = machine();
    cpu.mem_write(0x0801, 0x5A);
    assert_eq!(cpu.mem_read(0x0001), 0x5A);
    assert_eq!(cpu.mem_read(0x1801), 0x5A);
    cpu.mem_write_u16(0x0010, 0xBEEF);
    assert_eq!(cpu.mem_read(0x0010), 0xEF);
    assert_eq!(cpu.mem_read_u16(0x0810), 0xBEEF);
}

#[test]
fn unknown_opcode_is_an_error() {
    let mut cpu = machine();
    assert_eq!(cpu.load_and_run(vec![0x02]), Err(CpuError::UnknownOpcode(0x02)));
}

#[test]
fn reset_reads_vector() {
    let mut cpu = machine();
    cpu.load(vec![0xEA]);
    cpu.register_y = 9;
    cpu.reset();
    assert_eq!(cpu.program_counter, 0x8600);
    assert_eq!(cpu.register_y, 0);
    assert_eq!(cpu.stack_pointer, 0xFD);
    assert_eq!(cpu.status.bits(), 0x24);
}

#[test]
fn nmi_is_serviced_at_vertical_blank() {
    let mut cpu = machine();
    // LDA #$80; STA $2000 (enable NMI); loop: JMP loop. The NMI vector is 0, where RAM holds BRK.
    let r = cpu.load_and_run(vec![0xA9, 0x80, 0x8D, 0x00, 0x20, 0x4C, 0x05, 0x86]);
    assert_eq!(r, Ok(true));
    assert_eq!(cpu.program_counter, 0x0001);
    assert_eq!(cpu.stack_pointer, 0xFA);
    assert!(cpu.status.contains(nes_emu::flags::INTERRUPT_DISABLE));
    // the pushed status has Break clear and Break2 set
    assert_eq!(cpu.mem_read(0x01FB) & 0x30, 0x20);
}

#[test]
fn callback_sees_each_instruction() {
    let mut cpu = machine();
    cpu.load(vec![0xA9, 0x01, 0xE8, 0x00]);
    cpu.reset();
    let seen = std::cell::RefCell::new(Vec::new());
    let r = cpu.run_with_callback(|c: &Cpu| seen.borrow_mut().push(c.program_counter));
    assert_eq!(r, Ok(true));
    assert_eq!(*seen.borrow(), vec![0x8600, 0x8602, 0x8603]);
}

#[test]
fn table_lookup() {
    let op = lookup(0xA9).unwrap();
    assert_eq!(op.mnemonic, Mnemonic::Lda);
    assert_eq!(op.len, 2);
    assert_eq!(op.mode, AddressingMode::Immediate);
    let op = lookup(0x6C).unwrap();
    assert_eq!(op.mnemonic, Mnemonic::Jmp);
    assert_eq!(op.mode, AddressingMode::NoneAddressing);
    assert!(lookup(0x02).is_none());
}

#[test]
fn sbc_after_adc_without_carry_borrows() {
    let mut cpu = machine();
    // LDA #$00; CLC; ADC #$00; SBC #$00: the carry stays clear, so SBC borrows one
    cpu.load_and_run(vec![0xA9, 0x00, 0x18, 0x69, 0x00, 0xE9, 0x00, 0x00]).unwrap();
    assert_eq!(cpu.register_a, 0xFF);
    assert!(!cpu.status.contains(CARRY));
}

#[test]
fn stack_pointer_wraps_within_page() {
    let mut cpu = machine();
    // LDX #$00; TXS; LDA #$77; PHA; LDA #$00; PLA
    cpu.load_and_run(vec![0xA2, 0x00, 0x9A, 0xA9, 0x77, 0x48, 0xA9, 0x00, 0x68, 0x00]).unwrap();
    assert_eq!(cpu.register_a, 0x77);
    assert_eq!(cpu.stack_pointer, 0x00);
    assert_eq!(cpu.mem_read(0x0100), 0x77);
}
