//! End-to-end programs run on a machine at reset.

use mos6502::computer::Computer;
use mos6502::flags::{flag_c, flag_d, flag_n, flag_v, flag_z};

/// A machine with `prog` placed at 0x0400, the reset program counter.
fn boot(prog: &[u8]) -> Computer {
    let mut data = vec![0u8; 0x400];
    data.extend_from_slice(prog);
    Computer::new(data)
}

#[test]
fn scenario_immediate_load_and_transfer() {
    // LDA #$42; TAX; BRK
    let mut c = boot(&[0xA9, 0x42, 0xAA, 0x00]);
    c.run_instruction();
    c.run_instruction();
    assert_eq!(c.processor.acc, 0x42);
    assert_eq!(c.processor.rx, 0x42);
    assert!(!flag_z(c.processor.flags));
    assert!(!flag_n(c.processor.flags));
    assert_eq!(c.processor.pc, 0x0403);
}

#[test]
fn scenario_carry_on_adc() {
    // LDA #$FF; ADC #$01 with C clear.
    let mut c = boot(&[0xA9, 0xFF, 0x69, 0x01]);
    c.run_instruction();
    c.run_instruction();
    assert_eq!(c.processor.acc, 0x00);
    assert!(flag_z(c.processor.flags));
    assert!(flag_c(c.processor.flags));
    assert!(!flag_n(c.processor.flags));
    assert!(!flag_v(c.processor.flags));
}

#[test]
fn scenario_signed_overflow_on_adc() {
    // LDA #$7F; ADC #$01 with C clear.
    let mut c = boot(&[0xA9, 0x7F, 0x69, 0x01]);
    c.run_instruction();
    c.run_instruction();
    assert_eq!(c.processor.acc, 0x80);
    assert!(flag_n(c.processor.flags));
    assert!(flag_v(c.processor.flags));
    assert!(!flag_c(c.processor.flags));
    assert!(!flag_z(c.processor.flags));
}

#[test]
fn scenario_branch_taken() {
    // LDX #$00; CPX #$00; BEQ +2; BRK; BRK; LDA #$55
    let mut c = boot(&[0xA2, 0x00, 0xE0, 0x00, 0xF0, 0x02, 0x00, 0x00, 0xA9, 0x55]);
    c.run_instruction(); // LDX
    c.run_instruction(); // CPX: equal, Z set
    assert!(flag_z(c.processor.flags));
    c.run_instruction(); // BEQ, taken to 0x0408
    assert_eq!(c.processor.pc, 0x0408);
    c.run_instruction(); // LDA #$55
    assert_eq!(c.processor.acc, 0x55);
    assert_eq!(c.processor.rx, 0x00);
    // The final load of a nonzero value leaves Z clear.
    assert!(!flag_z(c.processor.flags));
}

#[test]
fn scenario_jsr_rts_round_trip() {
    // 0x0400: JSR $0408; 0x0403: LDA #$11; 0x0408: LDA #$22; RTS
    let mut c = boot(&[
        0x20, 0x08, 0x04, 0xA9, 0x11, 0x00, 0x00, 0x00, 0xA9, 0x22, 0x60,
    ]);
    let sp0 = c.processor.sp;
    c.run_instruction(); // JSR
    assert_eq!(c.processor.pc, 0x0408);
    c.run_instruction(); // LDA #$22
    assert_eq!(c.processor.acc, 0x22);
    c.run_instruction(); // RTS
    assert_eq!(c.processor.pc, 0x0405 - 2); // back to one past the operand
    assert_eq!(c.processor.sp, sp0);
    c.run_instruction(); // LDA #$11
    assert_eq!(c.processor.acc, 0x11);
    assert_eq!(c.processor.pc, 0x0405);
}

#[test]
fn scenario_decimal_adc() {
    // SED; LDA #$25; ADC #$17 with C clear: BCD 25 + 17 = 42.
    let mut c = boot(&[0xF8, 0xA9, 0x25, 0x69, 0x17]);
    c.run_instruction();
    c.run_instruction();
    c.run_instruction();
    assert_eq!(c.processor.acc, 0x42);
    assert!(!flag_c(c.processor.flags));
    assert!(flag_d(c.processor.flags));
}

#[test]
fn scenario_brk_rti_round_trip() {
    // BRK at 0x0400; the IRQ vector points at 0x0500, which holds RTI.
    let mut data = vec![0u8; 0x10000];
    data[0x400] = 0x00; // BRK
    data[0x500] = 0x40; // RTI
    data[0xFFFE] = 0x00;
    data[0xFFFF] = 0x05;
    let mut c = Computer::new(data);
    let p0 = c.processor.flags;
    let sp0 = c.processor.sp;
    c.run_instruction(); // BRK
    assert_eq!(c.processor.pc, 0x0500);
    assert_eq!(c.processor.sp, sp0.wrapping_sub(3));
    c.run_instruction(); // RTI
    assert_eq!(c.processor.flags, p0); // reset P has B and U set
    assert_eq!(c.processor.pc, 0x0402); // BRK pushed PC+2; RTI adds nothing
    assert_eq!(c.processor.sp, sp0);
}

#[test]
fn scenario_backwards_branch() {
    // LDA #$00; BEQ -4: lands back on the LDA.
    let mut c = boot(&[0xA9, 0x00, 0xF0, 0xFC]);
    c.run_instruction();
    c.run_instruction();
    assert_eq!(c.processor.pc, 0x0400);
}

#[test]
fn scenario_unknown_opcode_is_nop() {
    // 0x03 is outside the documented set: it runs as NOP and drops the
    // throttle to one instruction per second.
    let mut c = boot(&[0x03]);
    c.run_instruction();
    assert_eq!(c.processor.pc, 0x0401);
    assert_eq!(c.speed, 1000);
    assert_eq!(c.processor.acc, 0);
}

#[test]
fn scenario_reset_state() {
    let c = boot(&[]);
    assert_eq!(c.processor.flags, 0x30);
    assert_eq!(c.processor.pc, 0x0400);
    assert_eq!(c.processor.sp, 0x00);
    assert_eq!(c.processor.acc, 0x00);
    assert_eq!(c.processor.rx, 0x00);
    assert_eq!(c.processor.ry, 0x00);
    assert_eq!(c.processor.clock, 0);
    assert_eq!(c.processor.inst, 0xEA);
    assert!(c.paused);
    assert!(c.start);
    assert_eq!(c.speed, 0);
    assert_eq!(c.data.len(), 0x10000);
}

#[test]
fn scenario_long_image_is_truncated() {
    let mut data = vec![0xABu8; 0x10000];
    data.extend_from_slice(&[0xCD; 100]);
    let c = Computer::new(data);
    assert_eq!(c.data.len(), 0x10000);
    assert_eq!(c.data[0xFFFF], 0xAB);
}
