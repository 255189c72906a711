//! The decode tables: names and addressing modes over the opcode space.

use mos6502::computer::ADRESSING_MODE;
use mos6502::decode::{get_adressing_mode, get_opcode_name};

#[test]
fn decode_fixed_table() {
    assert_eq!(get_opcode_name(0x00), "BRK");
    assert_eq!(get_opcode_name(0x20), "JSR");
    assert_eq!(get_opcode_name(0x40), "RTI");
    assert_eq!(get_opcode_name(0x60), "RTS");
    assert_eq!(get_opcode_name(0xEA), "NOP");
    assert_eq!(get_opcode_name(0x08), "PHP");
    assert_eq!(get_opcode_name(0x28), "PLP");
    assert_eq!(get_opcode_name(0x48), "PHA");
    assert_eq!(get_opcode_name(0x68), "PLA");
    assert_eq!(get_opcode_name(0x9A), "TXS");
    assert_eq!(get_opcode_name(0xBA), "TSX");
}

#[test]
fn decode_branches() {
    assert_eq!(get_opcode_name(0x10), "BPL");
    assert_eq!(get_opcode_name(0x30), "BMI");
    assert_eq!(get_opcode_name(0x50), "BVC");
    assert_eq!(get_opcode_name(0x70), "BVS");
    assert_eq!(get_opcode_name(0x90), "BCC");
    assert_eq!(get_opcode_name(0xB0), "BCS");
    assert_eq!(get_opcode_name(0xD0), "BNE");
    assert_eq!(get_opcode_name(0xF0), "BEQ");
}

#[test]
fn decode_group_tables() {
    assert_eq!(get_opcode_name(0xA9), "LDA");
    assert_eq!(get_opcode_name(0xA2), "LDX");
    assert_eq!(get_opcode_name(0xA0), "LDY");
    assert_eq!(get_opcode_name(0x85), "STA");
    assert_eq!(get_opcode_name(0x86), "STX");
    assert_eq!(get_opcode_name(0x84), "STY");
    assert_eq!(get_opcode_name(0x69), "ADC");
    assert_eq!(get_opcode_name(0xE9), "SBC");
    assert_eq!(get_opcode_name(0xC9), "CMP");
    assert_eq!(get_opcode_name(0xE0), "CPX");
    assert_eq!(get_opcode_name(0xC0), "CPY");
    assert_eq!(get_opcode_name(0x29), "AND");
    assert_eq!(get_opcode_name(0x49), "EOR");
    assert_eq!(get_opcode_name(0x09), "ORA");
    assert_eq!(get_opcode_name(0x0A), "ASL");
    assert_eq!(get_opcode_name(0x4A), "LSR");
    assert_eq!(get_opcode_name(0x2A), "ROL");
    assert_eq!(get_opcode_name(0x6A), "ROR");
    assert_eq!(get_opcode_name(0xE6), "INC");
    assert_eq!(get_opcode_name(0xC6), "DEC");
    assert_eq!(get_opcode_name(0x24), "BIT");
    assert_eq!(get_opcode_name(0x4C), "JMP");
    assert_eq!(get_opcode_name(0x6C), "JMP");
}

#[test]
fn decode_unknown_byte_is_empty() {
    assert_eq!(get_opcode_name(0x03), "");
    assert_eq!(get_opcode_name(0x07), "");
    assert_eq!(get_opcode_name(0xFF), "");
}

#[test]
fn decode_is_total() {
    // Every byte yields a mode and a name without panicking.
    for op in 0..=255u8 {
        let _ = get_opcode_name(op);
        let _ = get_adressing_mode(op);
    }
}

#[test]
fn addressing_modes_by_group() {
    assert_eq!(get_adressing_mode(0xA9), ADRESSING_MODE::IMMEDIATE);
    assert_eq!(get_adressing_mode(0xA5), ADRESSING_MODE::ZERO_PAGE);
    assert_eq!(get_adressing_mode(0xB5), ADRESSING_MODE::ZERO_PAGE_X);
    assert_eq!(get_adressing_mode(0xAD), ADRESSING_MODE::ABSOLUTE);
    assert_eq!(get_adressing_mode(0xBD), ADRESSING_MODE::ABSOLUTE_X);
    assert_eq!(get_adressing_mode(0xB9), ADRESSING_MODE::ABSOLUTE_Y);
    assert_eq!(get_adressing_mode(0xA1), ADRESSING_MODE::INDIRECT_X);
    assert_eq!(get_adressing_mode(0xB1), ADRESSING_MODE::INDIRECT_Y);
    assert_eq!(get_adressing_mode(0x0A), ADRESSING_MODE::ACCUMULATOR);
    assert_eq!(get_adressing_mode(0x4C), ADRESSING_MODE::ABSOLUTE);
    assert_eq!(get_adressing_mode(0x6C), ADRESSING_MODE::INDIRECT);
}

#[test]
fn addressing_mode_swaps_for_index_register_instructions() {
    // STX and LDX use Y-indexed zero page where the generic table says X.
    assert_eq!(get_adressing_mode(0x96), ADRESSING_MODE::ZERO_PAGE_Y);
    assert_eq!(get_adressing_mode(0xB6), ADRESSING_MODE::ZERO_PAGE_Y);
    // LDX absolute,Y instead of absolute,X.
    assert_eq!(get_adressing_mode(0xBE), ADRESSING_MODE::ABSOLUTE_Y);
    // Other instructions in the same columns keep the X-indexed modes.
    assert_eq!(get_adressing_mode(0x16), ADRESSING_MODE::ZERO_PAGE_X); // ASL zp,X
    assert_eq!(get_adressing_mode(0x1E), ADRESSING_MODE::ABSOLUTE_X); // ASL abs,X
}
