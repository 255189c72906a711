//! The opcode decoder.
//!
//! A 6502 opcode byte splits into the bit fields `aaa` (bits 5..7), `bbb`
//! (bits 2..4) and `cc` (bits 0..1). A fixed table resolves the single-byte
//! and branch opcodes first; `JMP` absolute and indirect are special-cased;
//! otherwise `cc` selects an instruction group, `aaa` the mnemonic within the
//! group and `bbb` the addressing mode. Decoding is total: a byte outside the
//! documented set yields no mnemonic (callers treat it as `NOP`) and the
//! addressing mode `NONE`.
//!
//! The fields are read arithmetically (`op / 32 % 8` and the like), so every
//! contract about the decoder stays in linear arithmetic.

use vstd::prelude::*;

verus! {

#[allow(non_camel_case_types)]
#[derive(Eq, Hash, PartialEq, Clone, Copy, Debug, Structural)]
pub enum ADRESSING_MODE {
    IMMEDIATE,
    ZERO_PAGE,
    ZERO_PAGE_X,
    ABSOLUTE,
    ABSOLUTE_X,
    ABSOLUTE_Y,
    INDIRECT_X,
    INDIRECT_Y,
    INDIRECT,
    ZERO_PAGE_Y,
    ACCUMULATOR,
    NONE,
}

/// The documented instruction mnemonics.
#[derive(Eq, Hash, PartialEq, Clone, Copy, Debug, Structural)]
pub enum Mnemonic {
    ADC,
    AND,
    ASL,
    BCC,
    BCS,
    BEQ,
    BIT,
    BMI,
    BNE,
    BPL,
    BRK,
    BVC,
    BVS,
    CLC,
    CLD,
    CLI,
    CLV,
    CMP,
    CPX,
    CPY,
    DEC,
    DEX,
    DEY,
    EOR,
    INC,
    INX,
    INY,
    JMP,
    JSR,
    LDA,
    LDX,
    LDY,
    LSR,
    NOP,
    ORA,
    PHA,
    PHP,
    PLA,
    PLP,
    ROL,
    ROR,
    RTI,
    RTS,
    SBC,
    SEC,
    SED,
    SEI,
    STA,
    STX,
    STY,
    TAX,
    TAY,
    TSX,
    TXA,
    TXS,
    TYA,
}

/// The mnemonic of an opcode byte, or `None` for a byte outside the
/// documented set.
pub open spec fn spec_mnemonic(op: u8) -> Option<Mnemonic> {
    if op == 0x10 {
        Some(Mnemonic::BPL)
    } else if op == 0x30 {
        Some(Mnemonic::BMI)
    } else if op == 0x50 {
        Some(Mnemonic::BVC)
    } else if op == 0x70 {
        Some(Mnemonic::BVS)
    } else if op == 0x90 {
        Some(Mnemonic::BCC)
    } else if op == 0xb0 {
        Some(Mnemonic::BCS)
    } else if op == 0xd0 {
        Some(Mnemonic::BNE)
    } else if op == 0xf0 {
        Some(Mnemonic::BEQ)
    } else if op == 0x00 {
        Some(Mnemonic::BRK)
    } else if op == 0x20 {
        Some(Mnemonic::JSR)
    } else if op == 0x40 {
        Some(Mnemonic::RTI)
    } else if op == 0x60 {
        Some(Mnemonic::RTS)
    } else if op == 0x08 {
        Some(Mnemonic::PHP)
    } else if op == 0x28 {
        Some(Mnemonic::PLP)
    } else if op == 0x48 {
        Some(Mnemonic::PHA)
    } else if op == 0x68 {
        Some(Mnemonic::PLA)
    } else if op == 0x88 {
        Some(Mnemonic::DEY)
    } else if op == 0xa8 {
        Some(Mnemonic::TAY)
    } else if op == 0xc8 {
        Some(Mnemonic::INY)
    } else if op == 0xe8 {
        Some(Mnemonic::INX)
    } else if op == 0x18 {
        Some(Mnemonic::CLC)
    } else if op == 0x38 {
        Some(Mnemonic::SEC)
    } else if op == 0x58 {
        Some(Mnemonic::CLI)
    } else if op == 0x78 {
        Some(Mnemonic::SEI)
    } else if op == 0x98 {
        Some(Mnemonic::TYA)
    } else if op == 0xb8 {
        Some(Mnemonic::CLV)
    } else if op == 0xd8 {
        Some(Mnemonic::CLD)
    } else if op == 0xf8 {
        Some(Mnemonic::SED)
    } else if op == 0x8a {
        Some(Mnemonic::TXA)
    } else if op == 0x9a {
        Some(Mnemonic::TXS)
    } else if op == 0xaa {
        Some(Mnemonic::TAX)
    } else if op == 0xba {
        Some(Mnemonic::TSX)
    } else if op == 0xca {
        Some(Mnemonic::DEX)
    } else if op == 0xea {
        Some(Mnemonic::NOP)
    } else {
        spec_group_mnemonic(op)
    }
}

/// The mnemonic chosen by the `cc`/`aaa` group tables, for opcodes outside
/// the fixed single-byte table.
pub open spec fn spec_group_mnemonic(op: u8) -> Option<Mnemonic> {
    let cc = op % 4;
    let aaa = (op / 32) % 8;
    if cc == 0 {
        if aaa == 1 {
            Some(Mnemonic::BIT)
        } else if aaa == 2 {
            Some(Mnemonic::JMP)
        } else if aaa == 3 {
            Some(Mnemonic::JMP)
        } else if aaa == 4 {
            Some(Mnemonic::STY)
        } else if aaa == 5 {
            Some(Mnemonic::LDY)
        } else if aaa == 6 {
            Some(Mnemonic::CPY)
        } else if aaa == 7 {
            Some(Mnemonic::CPX)
        } else {
            None
        }
    } else if cc == 1 {
        if aaa == 0 {
            Some(Mnemonic::ORA)
        } else if aaa == 1 {
            Some(Mnemonic::AND)
        } else if aaa == 2 {
            Some(Mnemonic::EOR)
        } else if aaa == 3 {
            Some(Mnemonic::ADC)
        } else if aaa == 4 {
            Some(Mnemonic::STA)
        } else if aaa == 5 {
            Some(Mnemonic::LDA)
        } else if aaa == 6 {
            Some(Mnemonic::CMP)
        } else {
            Some(Mnemonic::SBC)
        }
    } else if cc == 2 {
        if aaa == 0 {
            Some(Mnemonic::ASL)
        } else if aaa == 1 {
            Some(Mnemonic::ROL)
        } else if aaa == 2 {
            Some(Mnemonic::LSR)
        } else if aaa == 3 {
            Some(Mnemonic::ROR)
        } else if aaa == 4 {
            Some(Mnemonic::STX)
        } else if aaa == 5 {
            Some(Mnemonic::LDX)
        } else if aaa == 6 {
            Some(Mnemonic::DEC)
        } else {
            Some(Mnemonic::INC)
        }
    } else {
        None
    }
}

/// The addressing mode of an opcode byte. `JMP` absolute and indirect come
/// first; then `bbb` selects from a per-group table, with the `ZERO_PAGE_Y`
/// and `ABSOLUTE_Y` swaps for `STX`/`LDX`.
pub open spec fn spec_adressing_mode(op: u8) -> ADRESSING_MODE {
    let bbb = (op / 4) % 8;
    let cc = op % 4;
    if op == 0x6c {
        ADRESSING_MODE::INDIRECT
    } else if op == 0x4c {
        ADRESSING_MODE::ABSOLUTE
    } else if cc == 0 {
        if bbb == 0 {
            ADRESSING_MODE::IMMEDIATE
        } else if bbb == 1 {
            ADRESSING_MODE::ZERO_PAGE
        } else if bbb == 3 {
            ADRESSING_MODE::ABSOLUTE
        } else if bbb == 5 {
            ADRESSING_MODE::ZERO_PAGE_X
        } else if bbb == 7 {
            ADRESSING_MODE::ABSOLUTE_X
        } else {
            ADRESSING_MODE::NONE
        }
    } else if cc == 1 {
        if bbb == 0 {
            ADRESSING_MODE::INDIRECT_X
        } else if bbb == 1 {
            ADRESSING_MODE::ZERO_PAGE
        } else if bbb == 2 {
            ADRESSING_MODE::IMMEDIATE
        } else if bbb == 3 {
            ADRESSING_MODE::ABSOLUTE
        } else if bbb == 4 {
            ADRESSING_MODE::INDIRECT_Y
        } else if bbb == 5 {
            ADRESSING_MODE::ZERO_PAGE_X
        } else if bbb == 6 {
            ADRESSING_MODE::ABSOLUTE_Y
        } else {
            ADRESSING_MODE::ABSOLUTE_X
        }
    } else if cc == 2 {
        if bbb == 0 {
            ADRESSING_MODE::IMMEDIATE
        } else if bbb == 1 {
            ADRESSING_MODE::ZERO_PAGE
        } else if bbb == 2 {
            ADRESSING_MODE::ACCUMULATOR
        } else if bbb == 3 {
            ADRESSING_MODE::ABSOLUTE
        } else if bbb == 5 {
            if spec_mnemonic(op) == Some(Mnemonic::STX) || spec_mnemonic(op) == Some(
                Mnemonic::LDX,
            ) {
                ADRESSING_MODE::ZERO_PAGE_Y
            } else {
                ADRESSING_MODE::ZERO_PAGE_X
            }
        } else if bbb == 7 {
            if spec_mnemonic(op) == Some(Mnemonic::LDX) {
                ADRESSING_MODE::ABSOLUTE_Y
            } else {
                ADRESSING_MODE::ABSOLUTE_X
            }
        } else {
            ADRESSING_MODE::NONE
        }
    } else {
        ADRESSING_MODE::NONE
    }
}

/// Decode the mnemonic of an opcode byte; `None` for a byte outside the
/// documented set.
pub fn decode_op(op: u8) -> (r: Option<Mnemonic>)
    ensures
        r == spec_mnemonic(op),
{
    if op == 0x10 {
        return Some(Mnemonic::BPL);
    }
    if op == 0x30 {
        return Some(Mnemonic::BMI);
    }
    if op == 0x50 {
        return Some(Mnemonic::BVC);
    }
    if op == 0x70 {
        return Some(Mnemonic::BVS);
    }
    if op == 0x90 {
        return Some(Mnemonic::BCC);
    }
    if op == 0xb0 {
        return Some(Mnemonic::BCS);
    }
    if op == 0xd0 {
        return Some(Mnemonic::BNE);
    }
    if op == 0xf0 {
        return Some(Mnemonic::BEQ);
    }
    if op == 0x00 {
        return Some(Mnemonic::BRK);
    }
    if op == 0x20 {
        return Some(Mnemonic::JSR);
    }
    if op == 0x40 {
        return Some(Mnemonic::RTI);
    }
    if op == 0x60 {
        return Some(Mnemonic::RTS);
    }
    if op == 0x08 {
        return Some(Mnemonic::PHP);
    }
    if op == 0x28 {
        return Some(Mnemonic::PLP);
    }
    if op == 0x48 {
        return Some(Mnemonic::PHA);
    }
    if op == 0x68 {
        return Some(Mnemonic::PLA);
    }
    if op == 0x88 {
        return Some(Mnemonic::DEY);
    }
    if op == 0xa8 {
        return Some(Mnemonic::TAY);
    }
    if op == 0xc8 {
        return Some(Mnemonic::INY);
    }
    if op == 0xe8 {
        return Some(Mnemonic::INX);
    }
    if op == 0x18 {
        return Some(Mnemonic::CLC);
    }
    if op == 0x38 {
        return Some(Mnemonic::SEC);
    }
    if op == 0x58 {
        return Some(Mnemonic::CLI);
    }
    if op == 0x78 {
        return Some(Mnemonic::SEI);
    }
    if op == 0x98 {
        return Some(Mnemonic::TYA);
    }
    if op == 0xb8 {
        return Some(Mnemonic::CLV);
    }
    if op == 0xd8 {
        return Some(Mnemonic::CLD);
    }
    if op == 0xf8 {
        return Some(Mnemonic::SED);
    }
    if op == 0x8a {
        return Some(Mnemonic::TXA);
    }
    if op == 0x9a {
        return Some(Mnemonic::TXS);
    }
    if op == 0xaa {
        return Some(Mnemonic::TAX);
    }
    if op == 0xba {
        return Some(Mnemonic::TSX);
    }
    if op == 0xca {
        return Some(Mnemonic::DEX);
    }
    if op == 0xea {
        return Some(Mnemonic::NOP);
    }
    let cc = op % 4;
    let aaa = (op / 32) % 8;
    if cc == 0 {
        if aaa == 1 {
            Some(Mnemonic::BIT)
        } else if aaa == 2 {
            Some(Mnemonic::JMP)
        } else if aaa == 3 {
            Some(Mnemonic::JMP)
        } else if aaa == 4 {
            Some(Mnemonic::STY)
        } else if aaa == 5 {
            Some(Mnemonic::LDY)
        } else if aaa == 6 {
            Some(Mnemonic::CPY)
        } else if aaa == 7 {
            Some(Mnemonic::CPX)
        } else {
            None
        }
    } else if cc == 1 {
        if aaa == 0 {
            Some(Mnemonic::ORA)
        } else if aaa == 1 {
            Some(Mnemonic::AND)
        } else if aaa == 2 {
            Some(Mnemonic::EOR)
        } else if aaa == 3 {
            Some(Mnemonic::ADC)
        } else if aaa == 4 {
            Some(Mnemonic::STA)
        } else if aaa == 5 {
            Some(Mnemonic::LDA)
        } else if aaa == 6 {
            Some(Mnemonic::CMP)
        } else {
            Some(Mnemonic::SBC)
        }
    } else if cc == 2 {
        if aaa == 0 {
            Some(Mnemonic::ASL)
        } else if aaa == 1 {
            Some(Mnemonic::ROL)
        } else if aaa == 2 {
            Some(Mnemonic::LSR)
        } else if aaa == 3 {
            Some(Mnemonic::ROR)
        } else if aaa == 4 {
            Some(Mnemonic::STX)
        } else if aaa == 5 {
            Some(Mnemonic::LDX)
        } else if aaa == 6 {
            Some(Mnemonic::DEC)
        } else {
            Some(Mnemonic::INC)
        }
    } else {
        None
    }
}

/// Resolve the addressing mode of an opcode byte. Total: every byte maps to
/// a mode, `NONE` where no documented instruction carries an operand.
pub fn get_adressing_mode(opcode: u8) -> (r: ADRESSING_MODE)
    ensures
        r == spec_adressing_mode(opcode),
{
    let bbb = (opcode / 4) % 8;
    let cc = opcode % 4;

    if opcode == 0x6c {
        return ADRESSING_MODE::INDIRECT;
    }
    if opcode == 0x4c {
        return ADRESSING_MODE::ABSOLUTE;
    }

    if cc == 0 {
        if bbb == 0 {
            ADRESSING_MODE::IMMEDIATE
        } else if bbb == 1 {
            ADRESSING_MODE::ZERO_PAGE
        } else if bbb == 3 {
            ADRESSING_MODE::ABSOLUTE
        } else if bbb == 5 {
            ADRESSING_MODE::ZERO_PAGE_X
        } else if bbb == 7 {
            ADRESSING_MODE::ABSOLUTE_X
        } else {
            ADRESSING_MODE::NONE
        }
    } else if cc == 1 {
        if bbb == 0 {
            ADRESSING_MODE::INDIRECT_X
        } else if bbb == 1 {
            ADRESSING_MODE::ZERO_PAGE
        } else if bbb == 2 {
            ADRESSING_MODE::IMMEDIATE
        } else if bbb == 3 {
            ADRESSING_MODE::ABSOLUTE
        } else if bbb == 4 {
            ADRESSING_MODE::INDIRECT_Y
        } else if bbb == 5 {
            ADRESSING_MODE::ZERO_PAGE_X
        } else if bbb == 6 {
            ADRESSING_MODE::ABSOLUTE_Y
        } else {
            ADRESSING_MODE::ABSOLUTE_X
        }
    } else if cc == 2 {
        if bbb == 0 {
            ADRESSING_MODE::IMMEDIATE
        } else if bbb == 1 {
            ADRESSING_MODE::ZERO_PAGE
        } else if bbb == 2 {
            ADRESSING_MODE::ACCUMULATOR
        } else if bbb == 3 {
            ADRESSING_MODE::ABSOLUTE
        } else if bbb == 5 {
            let m = decode_op(opcode);
            if m == Some(Mnemonic::STX) || m == Some(Mnemonic::LDX) {
                ADRESSING_MODE::ZERO_PAGE_Y
            } else {
                ADRESSING_MODE::ZERO_PAGE_X
            }
        } else if bbb == 7 {
            if decode_op(opcode) == Some(Mnemonic::LDX) {
                ADRESSING_MODE::ABSOLUTE_Y
            } else {
                ADRESSING_MODE::ABSOLUTE_X
            }
        } else {
            ADRESSING_MODE::NONE
        }
    } else {
        ADRESSING_MODE::NONE
    }
}

/// The name of a mnemonic, as a three-letter string.
pub open spec fn spec_mnemonic_name(m: Mnemonic) -> Seq<char> {
    match m {
        Mnemonic::ADC => "ADC"@,
        Mnemonic::AND => "AND"@,
        Mnemonic::ASL => "ASL"@,
        Mnemonic::BCC => "BCC"@,
        Mnemonic::BCS => "BCS"@,
        Mnemonic::BEQ => "BEQ"@,
        Mnemonic::BIT => "BIT"@,
        Mnemonic::BMI => "BMI"@,
        Mnemonic::BNE => "BNE"@,
        Mnemonic::BPL => "BPL"@,
        Mnemonic::BRK => "BRK"@,
        Mnemonic::BVC => "BVC"@,
        Mnemonic::BVS => "BVS"@,
        Mnemonic::CLC => "CLC"@,
        Mnemonic::CLD => "CLD"@,
        Mnemonic::CLI => "CLI"@,
        Mnemonic::CLV => "CLV"@,
        Mnemonic::CMP => "CMP"@,
        Mnemonic::CPX => "CPX"@,
        Mnemonic::CPY => "CPY"@,
        Mnemonic::DEC => "DEC"@,
        Mnemonic::DEX => "DEX"@,
        Mnemonic::DEY => "DEY"@,
        Mnemonic::EOR => "EOR"@,
        Mnemonic::INC => "INC"@,
        Mnemonic::INX => "INX"@,
        Mnemonic::INY => "INY"@,
        Mnemonic::JMP => "JMP"@,
        Mnemonic::JSR => "JSR"@,
        Mnemonic::LDA => "LDA"@,
        Mnemonic::LDX => "LDX"@,
        Mnemonic::LDY => "LDY"@,
        Mnemonic::LSR => "LSR"@,
        Mnemonic::NOP => "NOP"@,
        Mnemonic::ORA => "ORA"@,
        Mnemonic::PHA => "PHA"@,
        Mnemonic::PHP => "PHP"@,
        Mnemonic::PLA => "PLA"@,
        Mnemonic::PLP => "PLP"@,
        Mnemonic::ROL => "ROL"@,
        Mnemonic::ROR => "ROR"@,
        Mnemonic::RTI => "RTI"@,
        Mnemonic::RTS => "RTS"@,
        Mnemonic::SBC => "SBC"@,
        Mnemonic::SEC => "SEC"@,
        Mnemonic::SED => "SED"@,
        Mnemonic::SEI => "SEI"@,
        Mnemonic::STA => "STA"@,
        Mnemonic::STX => "STX"@,
        Mnemonic::STY => "STY"@,
        Mnemonic::TAX => "TAX"@,
        Mnemonic::TAY => "TAY"@,
        Mnemonic::TSX => "TSX"@,
        Mnemonic::TXA => "TXA"@,
        Mnemonic::TXS => "TXS"@,
        Mnemonic::TYA => "TYA"@,
    }
}

/// The name of the instruction an opcode byte decodes to, or the empty
/// string for a byte outside the documented set.
pub open spec fn spec_opcode_name(op: u8) -> Seq<char> {
    match spec_mnemonic(op) {
        Some(m) => spec_mnemonic_name(m),
        None => ""@,
    }
}

/// Name the instruction an opcode byte decodes to. Total: every byte yields
/// a name, the empty string where no documented instruction matches.
pub fn get_opcode_name<'a>(opcode: u8) -> (r: &'a str)
    ensures
        r@ == spec_opcode_name(opcode),
{
    match decode_op(opcode) {
        Some(m) => mnemonic_name(m),
        None => "",
    }
}

/// The three-letter name of a mnemonic.
pub fn mnemonic_name<'a>(m: Mnemonic) -> (r: &'a str)
    ensures
        r@ == spec_mnemonic_name(m),
{
    match m {
        Mnemonic::ADC => "ADC",
        Mnemonic::AND => "AND",
        Mnemonic::ASL => "ASL",
        Mnemonic::BCC => "BCC",
        Mnemonic::BCS => "BCS",
        Mnemonic::BEQ => "BEQ",
        Mnemonic::BIT => "BIT",
        Mnemonic::BMI => "BMI",
        Mnemonic::BNE => "BNE",
        Mnemonic::BPL => "BPL",
        Mnemonic::BRK => "BRK",
        Mnemonic::BVC => "BVC",
        Mnemonic::BVS => "BVS",
        Mnemonic::CLC => "CLC",
        Mnemonic::CLD => "CLD",
        Mnemonic::CLI => "CLI",
        Mnemonic::CLV => "CLV",
        Mnemonic::CMP => "CMP",
        Mnemonic::CPX => "CPX",
        Mnemonic::CPY => "CPY",
        Mnemonic::DEC => "DEC",
        Mnemonic::DEX => "DEX",
        Mnemonic::DEY => "DEY",
        Mnemonic::EOR => "EOR",
        Mnemonic::INC => "INC",
        Mnemonic::INX => "INX",
        Mnemonic::INY => "INY",
        Mnemonic::JMP => "JMP",
        Mnemonic::JSR => "JSR",
        Mnemonic::LDA => "LDA",
        Mnemonic::LDX => "LDX",
        Mnemonic::LDY => "LDY",
        Mnemonic::LSR => "LSR",
        Mnemonic::NOP => "NOP",
        Mnemonic::ORA => "ORA",
        Mnemonic::PHA => "PHA",
        Mnemonic::PHP => "PHP",
        Mnemonic::PLA => "PLA",
        Mnemonic::PLP => "PLP",
        Mnemonic::ROL => "ROL",
        Mnemonic::ROR => "ROR",
        Mnemonic::RTI => "RTI",
        Mnemonic::RTS => "RTS",
        Mnemonic::SBC => "SBC",
        Mnemonic::SEC => "SEC",
        Mnemonic::SED => "SED",
        Mnemonic::SEI => "SEI",
        Mnemonic::STA => "STA",
        Mnemonic::STX => "STX",
        Mnemonic::STY => "STY",
        Mnemonic::TAX => "TAX",
        Mnemonic::TAY => "TAY",
        Mnemonic::TSX => "TSX",
        Mnemonic::TXA => "TXA",
        Mnemonic::TXS => "TXS",
        Mnemonic::TYA => "TYA",
    }
}

} // verus!
