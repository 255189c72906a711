//! Per-instruction behaviour: flags, registers, memory and the cycle count.

use mos6502::computer::Computer;
use mos6502::flags::{flag_c, flag_n, flag_v, flag_z};

fn boot(prog: &[u8]) -> Computer {
    let mut data = vec![0u8; 0x400];
    data.extend_from_slice(prog);
    Computer::new(data)
}

fn run(c: &mut Computer, n: usize) {
    for _ in 0..n {
        c.run_instruction();
    }
}

#[test]
fn load_zero_sets_z() {
    let mut c = boot(&[0xA9, 0x00]);
    run(&mut c, 1);
    assert!(flag_z(c.processor.flags));
    assert!(!flag_n(c.processor.flags));
}

#[test]
fn load_negative_sets_n() {
    let mut c = boot(&[0xA2, 0x80]); // LDX #$80
    run(&mut c, 1);
    assert_eq!(c.processor.rx, 0x80);
    assert!(flag_n(c.processor.flags));
    assert!(!flag_z(c.processor.flags));
}

#[test]
fn ldy_zero_page() {
    let mut c = boot(&[0xA4, 0x10]); // LDY $10
    c.data[0x10] = 0x5A;
    run(&mut c, 1);
    assert_eq!(c.processor.ry, 0x5A);
    assert_eq!(c.processor.clock, 3);
}

#[test]
fn compare_greater_sets_carry_and_n_from_difference() {
    // LDA #$90; CMP #$10: 0x90 >= 0x10 so C=1; difference 0x80 has bit 7.
    let mut c = boot(&[0xA9, 0x90, 0xC9, 0x10]);
    run(&mut c, 2);
    assert!(flag_c(c.processor.flags));
    assert!(!flag_z(c.processor.flags));
    assert!(flag_n(c.processor.flags));
    assert_eq!(c.processor.acc, 0x90); // the register is untouched
}

#[test]
fn compare_less_clears_carry() {
    // LDX #$10; CPX #$20: X < operand, C=0, N from 0xF0.
    let mut c = boot(&[0xA2, 0x10, 0xE0, 0x20]);
    run(&mut c, 2);
    assert!(!flag_c(c.processor.flags));
    assert!(!flag_z(c.processor.flags));
    assert!(flag_n(c.processor.flags));
    assert_eq!(c.processor.rx, 0x10);
}

#[test]
fn compare_equal_sets_z_and_c() {
    // LDY #$33; CPY #$33
    let mut c = boot(&[0xA0, 0x33, 0xC0, 0x33]);
    run(&mut c, 2);
    assert!(flag_c(c.processor.flags));
    assert!(flag_z(c.processor.flags));
    assert!(!flag_n(c.processor.flags));
}

#[test]
fn sta_writes_memory_and_notes_it() {
    // LDA #$7E; STA $10
    let mut c = boot(&[0xA9, 0x7E, 0x85, 0x10]);
    run(&mut c, 2);
    assert_eq!(c.data[0x10], 0x7E);
    assert_eq!(*c.writes.last().unwrap(), (0x10u16, 0x7Eu8));
}

#[test]
fn stx_sty_absolute() {
    // LDX #$01; LDY #$02; STX $1234; STY $2345
    let mut c = boot(&[0xA2, 0x01, 0xA0, 0x02, 0x8E, 0x34, 0x12, 0x8C, 0x45, 0x23]);
    run(&mut c, 4);
    assert_eq!(c.data[0x1234], 0x01);
    assert_eq!(c.data[0x2345], 0x02);
}

#[test]
fn inc_wraps_and_sets_z() {
    // LDA #$FF; STA $10; INC $10
    let mut c = boot(&[0xA9, 0xFF, 0x85, 0x10, 0xE6, 0x10]);
    run(&mut c, 3);
    assert_eq!(c.data[0x10], 0x00);
    assert!(flag_z(c.processor.flags));
}

#[test]
fn dec_memory() {
    // LDA #$01; STA $10; DEC $10
    let mut c = boot(&[0xA9, 0x01, 0x85, 0x10, 0xC6, 0x10]);
    run(&mut c, 3);
    assert_eq!(c.data[0x10], 0x00);
    assert!(flag_z(c.processor.flags));
}

#[test]
fn register_increments_wrap() {
    // LDX #$FF; INX; LDY #$00; DEY
    let mut c = boot(&[0xA2, 0xFF, 0xE8, 0xA0, 0x00, 0x88]);
    run(&mut c, 2);
    assert_eq!(c.processor.rx, 0x00);
    assert!(flag_z(c.processor.flags));
    run(&mut c, 2);
    assert_eq!(c.processor.ry, 0xFF);
    assert!(flag_n(c.processor.flags));
}

#[test]
fn asl_accumulator() {
    // LDA #$81; ASL A: carry out of bit 7, result 0x02.
    let mut c = boot(&[0xA9, 0x81, 0x0A]);
    run(&mut c, 2);
    assert_eq!(c.processor.acc, 0x02);
    assert!(flag_c(c.processor.flags));
    assert!(!flag_z(c.processor.flags));
    assert!(!flag_n(c.processor.flags));
}

#[test]
fn lsr_accumulator() {
    // LDA #$01; LSR A: carry out of bit 0, result zero.
    let mut c = boot(&[0xA9, 0x01, 0x4A]);
    run(&mut c, 2);
    assert_eq!(c.processor.acc, 0x00);
    assert!(flag_c(c.processor.flags));
    assert!(flag_z(c.processor.flags));
}

#[test]
fn rol_pulls_carry_in() {
    // SEC; LDA #$40; ROL A: result 0x81, carry cleared.
    let mut c = boot(&[0x38, 0xA9, 0x40, 0x2A]);
    run(&mut c, 3);
    assert_eq!(c.processor.acc, 0x81);
    assert!(!flag_c(c.processor.flags));
    assert!(flag_n(c.processor.flags));
}

#[test]
fn ror_pulls_carry_into_bit7() {
    // SEC; LDA #$00; ROR A: result 0x80, carry cleared.
    let mut c = boot(&[0x38, 0xA9, 0x00, 0x6A]);
    run(&mut c, 3);
    assert_eq!(c.processor.acc, 0x80);
    assert!(!flag_c(c.processor.flags));
    assert!(flag_n(c.processor.flags));
}

#[test]
fn rol_memory_reads_memory() {
    // LDA #$01; STA $1000; SEC; ROL $1000 (absolute): memory becomes 0x03.
    let mut c = boot(&[0xA9, 0x01, 0x8D, 0x00, 0x10, 0x38, 0x2E, 0x00, 0x10]);
    run(&mut c, 4);
    assert_eq!(c.data[0x1000], 0x03);
    assert!(!flag_c(c.processor.flags));
}

#[test]
fn bit_test_sets_nvz_from_operand() {
    // LDA #$C0; STA $20; LDA #$01; BIT $20: AND is zero, N and V from the
    // operand's top bits.
    let mut c = boot(&[0xA9, 0xC0, 0x85, 0x20, 0xA9, 0x01, 0x24, 0x20]);
    run(&mut c, 4);
    assert!(flag_z(c.processor.flags));
    assert!(flag_n(c.processor.flags));
    assert!(flag_v(c.processor.flags));
    assert_eq!(c.processor.acc, 0x01);
}

#[test]
fn and_or_eor() {
    // LDA #$F0; AND #$0F -> 0; ORA #$3C -> 0x3C; EOR #$3C -> 0.
    let mut c = boot(&[0xA9, 0xF0, 0x29, 0x0F, 0x09, 0x3C, 0x49, 0x3C]);
    run(&mut c, 2);
    assert_eq!(c.processor.acc, 0x00);
    assert!(flag_z(c.processor.flags));
    run(&mut c, 1);
    assert_eq!(c.processor.acc, 0x3C);
    assert!(!flag_z(c.processor.flags));
    run(&mut c, 1);
    assert_eq!(c.processor.acc, 0x00);
    assert!(flag_z(c.processor.flags));
}

#[test]
fn sbc_binary_with_carry_set() {
    // SEC; LDA #$50; SBC #$10 = 0x40, no borrow so C stays set.
    let mut c = boot(&[0x38, 0xA9, 0x50, 0xE9, 0x10]);
    run(&mut c, 3);
    assert_eq!(c.processor.acc, 0x40);
    assert!(flag_c(c.processor.flags));
}

#[test]
fn sbc_binary_borrow_clears_carry() {
    // SEC; LDA #$10; SBC #$20 = 0xF0 with borrow.
    let mut c = boot(&[0x38, 0xA9, 0x10, 0xE9, 0x20]);
    run(&mut c, 3);
    assert_eq!(c.processor.acc, 0xF0);
    assert!(!flag_c(c.processor.flags));
    assert!(flag_n(c.processor.flags));
}

#[test]
fn sbc_decimal() {
    // SED; SEC; LDA #$42; SBC #$17: BCD 42 - 17 = 25.
    let mut c = boot(&[0xF8, 0x38, 0xA9, 0x42, 0xE9, 0x17]);
    run(&mut c, 4);
    assert_eq!(c.processor.acc, 0x25);
    assert!(flag_c(c.processor.flags));
}

#[test]
fn adc_uses_carry_in() {
    // SEC; LDA #$01; ADC #$01 = 3.
    let mut c = boot(&[0x38, 0xA9, 0x01, 0x69, 0x01]);
    run(&mut c, 3);
    assert_eq!(c.processor.acc, 0x03);
}

#[test]
fn transfers_update_flags() {
    // LDA #$80; TAY; TYA; TAX; TXS; TSX
    let mut c = boot(&[0xA9, 0x80, 0xA8, 0x98, 0xAA, 0x9A, 0xBA]);
    run(&mut c, 2);
    assert_eq!(c.processor.ry, 0x80);
    assert!(flag_n(c.processor.flags));
    run(&mut c, 3);
    assert_eq!(c.processor.sp, 0x80); // TXS
    run(&mut c, 1);
    assert_eq!(c.processor.rx, 0x80); // TSX
}

#[test]
fn flag_instructions_set_and_clear() {
    // SEC; SED; SEI; CLC; CLD; CLI
    let mut c = boot(&[0x38, 0xF8, 0x78, 0x18, 0xD8, 0x58]);
    run(&mut c, 3);
    assert_eq!(c.processor.flags & 0x0D, 0x0D); // C, I and D set
    run(&mut c, 3);
    assert_eq!(c.processor.flags & 0x0D, 0x00);
}

#[test]
fn clv_clears_overflow() {
    // LDA #$7F; ADC #$01 sets V; CLV clears it.
    let mut c = boot(&[0xA9, 0x7F, 0x69, 0x01, 0xB8]);
    run(&mut c, 2);
    assert!(flag_v(c.processor.flags));
    run(&mut c, 1);
    assert!(!flag_v(c.processor.flags));
}

#[test]
fn pha_pla_identity_on_acc() {
    // LDA #$77; PHA; LDA #$00; PLA
    let mut c = boot(&[0xA9, 0x77, 0x48, 0xA9, 0x00, 0x68]);
    let sp0 = c.processor.sp;
    run(&mut c, 4);
    assert_eq!(c.processor.acc, 0x77);
    assert_eq!(c.processor.sp, sp0);
    assert!(!flag_z(c.processor.flags));
}

#[test]
fn php_plp_restores_flags() {
    // SEC; PHP; CLC; PLP: carry comes back.
    let mut c = boot(&[0x38, 0x08, 0x18, 0x28]);
    run(&mut c, 2);
    // The pushed status byte carries bits 4 and 5 set.
    let pushed = c.data[0x100 + c.processor.sp.wrapping_add(1) as usize];
    assert_eq!(pushed & 0x30, 0x30);
    run(&mut c, 1);
    assert!(!flag_c(c.processor.flags));
    run(&mut c, 1);
    assert!(flag_c(c.processor.flags));
}

#[test]
fn jmp_absolute() {
    let mut c = boot(&[0x4C, 0x34, 0x12]);
    run(&mut c, 1);
    assert_eq!(c.processor.pc, 0x1234);
}

#[test]
fn jmp_indirect() {
    // JMP ($0500) where $0500 holds $2211.
    let mut c = boot(&[0x6C, 0x00, 0x05]);
    c.data[0x500] = 0x11;
    c.data[0x501] = 0x22;
    run(&mut c, 1);
    assert_eq!(c.processor.pc, 0x2211);
}

#[test]
fn jsr_pushes_return_address() {
    let mut c = boot(&[0x20, 0x00, 0x05]);
    run(&mut c, 1);
    // SP started at 0: the push wraps through the top of the stack page.
    assert_eq!(c.data[0x100], 0x04); // high byte of 0x0402
    assert_eq!(c.data[0x1FF], 0x02); // low byte
    assert_eq!(c.processor.sp, 0xFE);
    assert_eq!(c.processor.pc, 0x0500);
}

#[test]
fn branches_on_each_flag() {
    // BCC taken from reset (C clear): offset +2.
    let mut c = boot(&[0x90, 0x02]);
    run(&mut c, 1);
    assert_eq!(c.processor.pc, 0x0404);
    // BCS not taken.
    let mut c2 = boot(&[0xB0, 0x02]);
    run(&mut c2, 1);
    assert_eq!(c2.processor.pc, 0x0402);
    // LDA #$80; BMI taken.
    let mut c3 = boot(&[0xA9, 0x80, 0x30, 0x02]);
    run(&mut c3, 2);
    assert_eq!(c3.processor.pc, 0x0406);
    // LDA #$80; BPL not taken.
    let mut c4 = boot(&[0xA9, 0x80, 0x10, 0x02]);
    run(&mut c4, 2);
    assert_eq!(c4.processor.pc, 0x0404);
    // BNE taken from reset (Z clear).
    let mut c5 = boot(&[0xD0, 0x02]);
    run(&mut c5, 1);
    assert_eq!(c5.processor.pc, 0x0404);
    // BVS not taken from reset; BVC taken.
    let mut c6 = boot(&[0x70, 0x02, 0x50, 0x02]);
    run(&mut c6, 2);
    assert_eq!(c6.processor.pc, 0x0406);
}

#[test]
fn indexed_addressing() {
    // LDX #$05; LDA $1000,X reads 0x1005.
    let mut c = boot(&[0xA2, 0x05, 0xBD, 0x00, 0x10]);
    c.data[0x1005] = 0x99;
    run(&mut c, 2);
    assert_eq!(c.processor.acc, 0x99);
}

#[test]
fn indirect_y_addressing() {
    // LDY #$03; LDA ($20),Y: pointer at $20 holds $0500, so reads $0503.
    let mut c = boot(&[0xA0, 0x03, 0xB1, 0x20]);
    c.data[0x20] = 0x00;
    c.data[0x21] = 0x05;
    c.data[0x503] = 0x42;
    run(&mut c, 2);
    assert_eq!(c.processor.acc, 0x42);
}

#[test]
fn indirect_x_addressing_wraps_in_zero_page() {
    // LDX #$01; LDA ($FF,X): pointer address wraps to $00/$01.
    let mut c = boot(&[0xA2, 0x01, 0xA1, 0xFF]);
    c.data[0x00] = 0x34;
    c.data[0x01] = 0x12;
    c.data[0x1234] = 0x77;
    run(&mut c, 2);
    assert_eq!(c.processor.acc, 0x77);
}

#[test]
fn get_word_is_little_endian() {
    let mut c = boot(&[0xCD, 0xAB]);
    assert_eq!(c.get_word(0x400), 0xABCD);
}

#[test]
fn set_flags_forces_bits_4_and_5() {
    assert_eq!(Computer::set_flags(0x00, 0x00), 0x32); // Z plus B and U
    assert_eq!(Computer::set_flags(0x00, 0x80), 0xB0); // N plus B and U
    assert_eq!(Computer::set_flags(0x0D, 0x01), 0x3D); // C, I, D kept
}

#[test]
fn clock_counts_cycles() {
    // LDA #$01 (2 cycles); NOP (2); STA $10 (3).
    let mut c = boot(&[0xA9, 0x01, 0xEA, 0x85, 0x10]);
    run(&mut c, 3);
    assert_eq!(c.processor.clock, 7);
}

#[test]
fn clock_branch_costs_extra_when_taken() {
    // BCC taken: 3 cycles.
    let mut c = boot(&[0x90, 0x02]);
    run(&mut c, 1);
    assert_eq!(c.processor.clock, 3);
    // BCS not taken: 2 cycles.
    let mut c2 = boot(&[0xB0, 0x02]);
    run(&mut c2, 1);
    assert_eq!(c2.processor.clock, 2);
}

#[test]
fn clock_jumps_and_calls() {
    // JMP absolute: 3 cycles.
    let mut c = boot(&[0x4C, 0x00, 0x05]);
    run(&mut c, 1);
    assert_eq!(c.processor.clock, 3);
    // JSR: 6 cycles; RTS: 6 more.
    let mut c2 = boot(&[0x20, 0x03, 0x04, 0x60]);
    run(&mut c2, 2);
    assert_eq!(c2.processor.clock, 12);
    // JMP indirect: 5 cycles.
    let mut c3 = boot(&[0x6C, 0x00, 0x05]);
    run(&mut c3, 1);
    assert_eq!(c3.processor.clock, 5);
}

#[test]
fn ldx_zero_page_y_indexed() {
    // LDY #$01; LDX $10,Y reads from $11.
    let mut c = boot(&[0xA0, 0x01, 0xB6, 0x10]);
    c.data[0x11] = 0x3C;
    run(&mut c, 2);
    assert_eq!(c.processor.rx, 0x3C);
}

#[test]
fn cpx_absolute_advances_three_bytes() {
    // CPX $0500 with X = 0.
    let mut c = boot(&[0xEC, 0x00, 0x05]);
    run(&mut c, 1);
    assert_eq!(c.processor.pc, 0x0403);
    assert!(flag_z(c.processor.flags)); // both sides zero
    assert!(flag_c(c.processor.flags));
}

#[test]
fn sta_indirect_y() {
    // LDA #$AB; LDY #$02; STA ($20),Y writes to $0502.
    let mut c = boot(&[0xA9, 0xAB, 0xA0, 0x02, 0x91, 0x20]);
    c.data[0x20] = 0x00;
    c.data[0x21] = 0x05;
    run(&mut c, 3);
    assert_eq!(c.data[0x0502], 0xAB);
}
