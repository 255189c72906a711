//! Machine-wide laws, proved once over the specification semantics.
//!
//! Each proof function here states a property of `spec_step` — and so, by
//! `run_instruction`'s contract, of the running machine — for every
//! well-formed state.

use vstd::prelude::*;

use crate::decode::{spec_adressing_mode, spec_mnemonic, Mnemonic};
use crate::flags::{
    lemma_flags_decompose, spec_flag_b, spec_flag_c, spec_flag_d, spec_flag_i, spec_flag_n,
    spec_flag_u, spec_flag_v, spec_flag_z,
};
use crate::state::{
    mem_at, spec_brk, spec_cmp, spec_cpx, spec_cpy, spec_eff_addr, spec_overflow, spec_rti,
    spec_set_flags, spec_step, stack_addr, wf, wrap16, wrap8, MState,
};

verus! {

/// A byte read as an 8-bit two's-complement integer.
pub open spec fn signed8(v: u8) -> int {
    if v < 128 {
        v as int
    } else {
        v - 256
    }
}

/// One step from a well-formed state is always defined and leaves the
/// machine well-formed: every opcode byte executes, and memory keeps its
/// 64 KiB.
#[verifier::rlimit(100)]
#[verifier::spinoff_prover]
pub proof fn lemma_step_total(s: MState)
    requires
        wf(s),
    ensures
        wf(spec_step(s)),
{
    let op = mem_at(s, s.pc);
    match spec_mnemonic(op) {
        Some(m) => {
            match m {
                Mnemonic::ADC => {
                    assert(wf(spec_step(s)));
                },
                Mnemonic::AND => {
                    assert(wf(spec_step(s)));
                },
                Mnemonic::ASL => {
                    assert(wf(spec_step(s)));
                },
                Mnemonic::BCC => {
                    assert(wf(spec_step(s)));
                },
                Mnemonic::BCS => {
                    assert(wf(spec_step(s)));
                },
                Mnemonic::BEQ => {
                    assert(wf(spec_step(s)));
                },
                Mnemonic::BIT => {
                    assert(wf(spec_step(s)));
                },
                Mnemonic::BMI => {
                    assert(wf(spec_step(s)));
                },
                Mnemonic::BNE => {
                    assert(wf(spec_step(s)));
                },
                Mnemonic::BPL => {
                    assert(wf(spec_step(s)));
                },
                Mnemonic::BRK => {
                    assert(wf(spec_step(s)));
                },
                Mnemonic::BVC => {
                    assert(wf(spec_step(s)));
                },
                Mnemonic::BVS => {
                    assert(wf(spec_step(s)));
                },
                Mnemonic::CLC => {
                    assert(wf(spec_step(s)));
                },
                Mnemonic::CLD => {
                    assert(wf(spec_step(s)));
                },
                Mnemonic::CLI => {
                    assert(wf(spec_step(s)));
                },
                Mnemonic::CLV => {
                    assert(wf(spec_step(s)));
                },
                Mnemonic::CMP => {
                    assert(wf(spec_step(s)));
                },
                Mnemonic::CPX => {
                    assert(wf(spec_step(s)));
                },
                Mnemonic::CPY => {
                    assert(wf(spec_step(s)));
                },
                Mnemonic::DEC => {
                    assert(wf(spec_step(s)));
                },
                Mnemonic::DEX => {
                    assert(wf(spec_step(s)));
                },
                Mnemonic::DEY => {
                    assert(wf(spec_step(s)));
                },
                Mnemonic::EOR => {
                    assert(wf(spec_step(s)));
                },
                Mnemonic::INC => {
                    assert(wf(spec_step(s)));
                },
                Mnemonic::INX => {
                    assert(wf(spec_step(s)));
                },
                Mnemonic::INY => {
                    assert(wf(spec_step(s)));
                },
                Mnemonic::JMP => {
                    assert(wf(spec_step(s)));
                },
                Mnemonic::JSR => {
                    assert(wf(spec_step(s)));
                },
                Mnemonic::LDA => {
                    assert(wf(spec_step(s)));
                },
                Mnemonic::LDX => {
                    assert(wf(spec_step(s)));
                },
                Mnemonic::LDY => {
                    assert(wf(spec_step(s)));
                },
                Mnemonic::LSR => {
                    assert(wf(spec_step(s)));
                },
                Mnemonic::NOP => {
                    assert(wf(spec_step(s)));
                },
                Mnemonic::ORA => {
                    assert(wf(spec_step(s)));
                },
                Mnemonic::PHA => {
                    assert(wf(spec_step(s)));
                },
                Mnemonic::PHP => {
                    assert(wf(spec_step(s)));
                },
                Mnemonic::PLA => {
                    assert(wf(spec_step(s)));
                },
                Mnemonic::PLP => {
                    assert(wf(spec_step(s)));
                },
                Mnemonic::ROL => {
                    assert(wf(spec_step(s)));
                },
                Mnemonic::ROR => {
                    assert(wf(spec_step(s)));
                },
                Mnemonic::RTI => {
                    assert(wf(spec_step(s)));
                },
                Mnemonic::RTS => {
                    assert(wf(spec_step(s)));
                },
                Mnemonic::SBC => {
                    assert(wf(spec_step(s)));
                },
                Mnemonic::SEC => {
                    assert(wf(spec_step(s)));
                },
                Mnemonic::SED => {
                    assert(wf(spec_step(s)));
                },
                Mnemonic::SEI => {
                    assert(wf(spec_step(s)));
                },
                Mnemonic::STA => {
                    assert(wf(spec_step(s)));
                },
                Mnemonic::STX => {
                    assert(wf(spec_step(s)));
                },
                Mnemonic::STY => {
                    assert(wf(spec_step(s)));
                },
                Mnemonic::TAX => {
                    assert(wf(spec_step(s)));
                },
                Mnemonic::TAY => {
                    assert(wf(spec_step(s)));
                },
                Mnemonic::TSX => {
                    assert(wf(spec_step(s)));
                },
                Mnemonic::TXA => {
                    assert(wf(spec_step(s)));
                },
                Mnemonic::TXS => {
                    assert(wf(spec_step(s)));
                },
                Mnemonic::TYA => {
                    assert(wf(spec_step(s)));
                },
            }
        },
        None => {
            assert(wf(spec_step(s)));
        },
    }
}

/// Updating Z and N from a value touches nothing else: C, I, D and V are
/// kept, B and U read as 1 afterwards.
pub proof fn lemma_set_flags_bits(f: u8, v: u8)
    ensures
        spec_flag_z(spec_set_flags(f, v)) == (v == 0),
        spec_flag_n(spec_set_flags(f, v)) == (v >= 128),
        spec_flag_c(spec_set_flags(f, v)) == spec_flag_c(f),
        spec_flag_i(spec_set_flags(f, v)) == spec_flag_i(f),
        spec_flag_d(spec_set_flags(f, v)) == spec_flag_d(f),
        spec_flag_v(spec_set_flags(f, v)) == spec_flag_v(f),
        spec_flag_b(spec_set_flags(f, v)),
        spec_flag_u(spec_set_flags(f, v)),
{
}

/// Bit 5 (U) of the status register stays set across every instruction:
/// once the machine starts with it set, it reads as 1 after any step.
#[verifier::rlimit(100)]
#[verifier::spinoff_prover]
pub proof fn lemma_status_unused_bit(s: MState)
    requires
        wf(s),
        spec_flag_u(s.flags),
    ensures
        spec_flag_u(spec_step(s).flags),
{
    let op = mem_at(s, s.pc);
    match spec_mnemonic(op) {
        Some(m) => {
            match m {
                Mnemonic::ADC => {
                    assert(spec_flag_u(spec_step(s).flags));
                },
                Mnemonic::AND => {
                    assert(spec_flag_u(spec_step(s).flags));
                },
                Mnemonic::ASL => {
                    assert(spec_flag_u(spec_step(s).flags));
                },
                Mnemonic::BCC => {
                    assert(spec_flag_u(spec_step(s).flags));
                },
                Mnemonic::BCS => {
                    assert(spec_flag_u(spec_step(s).flags));
                },
                Mnemonic::BEQ => {
                    assert(spec_flag_u(spec_step(s).flags));
                },
                Mnemonic::BIT => {
                    assert(spec_flag_u(spec_step(s).flags));
                },
                Mnemonic::BMI => {
                    assert(spec_flag_u(spec_step(s).flags));
                },
                Mnemonic::BNE => {
                    assert(spec_flag_u(spec_step(s).flags));
                },
                Mnemonic::BPL => {
                    assert(spec_flag_u(spec_step(s).flags));
                },
                Mnemonic::BRK => {
                    assert(spec_flag_u(spec_step(s).flags));
                },
                Mnemonic::BVC => {
                    assert(spec_flag_u(spec_step(s).flags));
                },
                Mnemonic::BVS => {
                    assert(spec_flag_u(spec_step(s).flags));
                },
                Mnemonic::CLC => {
                    assert(spec_flag_u(spec_step(s).flags));
                },
                Mnemonic::CLD => {
                    assert(spec_flag_u(spec_step(s).flags));
                },
                Mnemonic::CLI => {
                    assert(spec_flag_u(spec_step(s).flags));
                },
                Mnemonic::CLV => {
                    assert(spec_flag_u(spec_step(s).flags));
                },
                Mnemonic::CMP => {
                    assert(spec_flag_u(spec_step(s).flags));
                },
                Mnemonic::CPX => {
                    assert(spec_flag_u(spec_step(s).flags));
                },
                Mnemonic::CPY => {
                    assert(spec_flag_u(spec_step(s).flags));
                },
                Mnemonic::DEC => {
                    assert(spec_flag_u(spec_step(s).flags));
                },
                Mnemonic::DEX => {
                    assert(spec_flag_u(spec_step(s).flags));
                },
                Mnemonic::DEY => {
                    assert(spec_flag_u(spec_step(s).flags));
                },
                Mnemonic::EOR => {
                    assert(spec_flag_u(spec_step(s).flags));
                },
                Mnemonic::INC => {
                    assert(spec_flag_u(spec_step(s).flags));
                },
                Mnemonic::INX => {
                    assert(spec_flag_u(spec_step(s).flags));
                },
                Mnemonic::INY => {
                    assert(spec_flag_u(spec_step(s).flags));
                },
                Mnemonic::JMP => {
                    assert(spec_flag_u(spec_step(s).flags));
                },
                Mnemonic::JSR => {
                    assert(spec_flag_u(spec_step(s).flags));
                },
                Mnemonic::LDA => {
                    assert(spec_flag_u(spec_step(s).flags));
                },
                Mnemonic::LDX => {
                    assert(spec_flag_u(spec_step(s).flags));
                },
                Mnemonic::LDY => {
                    assert(spec_flag_u(spec_step(s).flags));
                },
                Mnemonic::LSR => {
                    assert(spec_flag_u(spec_step(s).flags));
                },
                Mnemonic::NOP => {
                    assert(spec_flag_u(spec_step(s).flags));
                },
                Mnemonic::ORA => {
                    assert(spec_flag_u(spec_step(s).flags));
                },
                Mnemonic::PHA => {
                    assert(spec_flag_u(spec_step(s).flags));
                },
                Mnemonic::PHP => {
                    assert(spec_flag_u(spec_step(s).flags));
                },
                Mnemonic::PLA => {
                    assert(spec_flag_u(spec_step(s).flags));
                },
                Mnemonic::PLP => {
                    assert(spec_flag_u(spec_step(s).flags));
                },
                Mnemonic::ROL => {
                    assert(spec_flag_u(spec_step(s).flags));
                },
                Mnemonic::ROR => {
                    assert(spec_flag_u(spec_step(s).flags));
                },
                Mnemonic::RTI => {
                    assert(spec_flag_u(spec_step(s).flags));
                },
                Mnemonic::RTS => {
                    assert(spec_flag_u(spec_step(s).flags));
                },
                Mnemonic::SBC => {
                    assert(spec_flag_u(spec_step(s).flags));
                },
                Mnemonic::SEC => {
                    assert(spec_flag_u(spec_step(s).flags));
                },
                Mnemonic::SED => {
                    assert(spec_flag_u(spec_step(s).flags));
                },
                Mnemonic::SEI => {
                    assert(spec_flag_u(spec_step(s).flags));
                },
                Mnemonic::STA => {
                    assert(spec_flag_u(spec_step(s).flags));
                },
                Mnemonic::STX => {
                    assert(spec_flag_u(spec_step(s).flags));
                },
                Mnemonic::STY => {
                    assert(spec_flag_u(spec_step(s).flags));
                },
                Mnemonic::TAX => {
                    assert(spec_flag_u(spec_step(s).flags));
                },
                Mnemonic::TAY => {
                    assert(spec_flag_u(spec_step(s).flags));
                },
                Mnemonic::TSX => {
                    assert(spec_flag_u(spec_step(s).flags));
                },
                Mnemonic::TXA => {
                    assert(spec_flag_u(spec_step(s).flags));
                },
                Mnemonic::TXS => {
                    assert(spec_flag_u(spec_step(s).flags));
                },
                Mnemonic::TYA => {
                    assert(spec_flag_u(spec_step(s).flags));
                },
            }
        },
        None => {
            assert(spec_flag_u(spec_step(s).flags));
        },
    }
}

/// The status byte `BRK` pushes carries bits 4 (B) and 5 (U) set.
pub proof fn lemma_brk_pushes_break_set(s: MState)
    requires
        wf(s),
        mem_at(s, s.pc) == 0x00,
    ensures
        spec_flag_b(mem_at(spec_step(s), stack_addr(wrap8(s.sp + 254)))),
        spec_flag_u(mem_at(spec_step(s), stack_addr(wrap8(s.sp + 254)))),
{
}

/// The status byte `PHP` pushes carries bits 4 (B) and 5 (U) set.
pub proof fn lemma_php_pushes_break_set(s: MState)
    requires
        wf(s),
        mem_at(s, s.pc) == 0x08,
    ensures
        spec_flag_b(mem_at(spec_step(s), stack_addr(s.sp))),
        spec_flag_u(mem_at(spec_step(s), stack_addr(s.sp))),
{
}

/// For `LDA`, `LDX` and `LDY`: Z is set exactly when the loaded value is
/// zero, and N exactly when its top bit is set.
pub proof fn lemma_load_flags(s: MState)
    requires
        wf(s),
    ensures
        spec_mnemonic(mem_at(s, s.pc)) == Some(Mnemonic::LDA) ==> (spec_flag_z(
            spec_step(s).flags,
        ) == (spec_step(s).acc == 0) && spec_flag_n(spec_step(s).flags) == (spec_step(s).acc
            >= 128)),
        spec_mnemonic(mem_at(s, s.pc)) == Some(Mnemonic::LDX) ==> (spec_flag_z(
            spec_step(s).flags,
        ) == (spec_step(s).x == 0) && spec_flag_n(spec_step(s).flags) == (spec_step(s).x >= 128)),
        spec_mnemonic(mem_at(s, s.pc)) == Some(Mnemonic::LDY) ==> (spec_flag_z(
            spec_step(s).flags,
        ) == (spec_step(s).y == 0) && spec_flag_n(spec_step(s).flags) == (spec_step(s).y >= 128)),
{
}

/// The operand byte of the instruction at the program counter: the byte at
/// the effective address of its addressing mode.
pub open spec fn operand_at(s: MState) -> u8 {
    mem_at(s, spec_eff_addr(s, spec_adressing_mode(mem_at(s, s.pc))))
}

/// A compare sets C exactly when the register is at least the operand, Z
/// exactly on equality, and N to bit 7 of the 8-bit difference; it changes
/// no register and no memory.
proof fn lemma_cmp_case(s: MState)
    requires
        wf(s),
        spec_mnemonic(mem_at(s, s.pc)) == Some(Mnemonic::CMP),
    ensures
        compare_shape(s, spec_step(s), s.acc),
{
    let s1 = MState { inst: mem_at(s, s.pc), ..s };
    assert(spec_step(s) == spec_cmp(s1));
}

proof fn lemma_cpx_case(s: MState)
    requires
        wf(s),
        spec_mnemonic(mem_at(s, s.pc)) == Some(Mnemonic::CPX),
    ensures
        compare_shape(s, spec_step(s), s.x),
{
    let s1 = MState { inst: mem_at(s, s.pc), ..s };
    assert(spec_step(s) == spec_cpx(s1));
}

proof fn lemma_cpy_case(s: MState)
    requires
        wf(s),
        spec_mnemonic(mem_at(s, s.pc)) == Some(Mnemonic::CPY),
    ensures
        compare_shape(s, spec_step(s), s.y),
{
    let s1 = MState { inst: mem_at(s, s.pc), ..s };
    assert(spec_step(s) == spec_cpy(s1));
}

/// A compare sets C exactly when the register is at least the operand, Z
/// exactly on equality, and N to bit 7 of the 8-bit difference; it changes
/// no register and no memory.
#[verifier::spinoff_prover]
pub proof fn lemma_compare(s: MState)
    requires
        wf(s),
    ensures
        spec_mnemonic(mem_at(s, s.pc)) == Some(Mnemonic::CMP) ==> compare_shape(
            s,
            spec_step(s),
            s.acc,
        ),
        spec_mnemonic(mem_at(s, s.pc)) == Some(Mnemonic::CPX) ==> compare_shape(
            s,
            spec_step(s),
            s.x,
        ),
        spec_mnemonic(mem_at(s, s.pc)) == Some(Mnemonic::CPY) ==> compare_shape(
            s,
            spec_step(s),
            s.y,
        ),
{
    if spec_mnemonic(mem_at(s, s.pc)) == Some(Mnemonic::CMP) {
        lemma_cmp_case(s);
    }
    if spec_mnemonic(mem_at(s, s.pc)) == Some(Mnemonic::CPX) {
        lemma_cpx_case(s);
    }
    if spec_mnemonic(mem_at(s, s.pc)) == Some(Mnemonic::CPY) {
        lemma_cpy_case(s);
    }
}

/// What a compare of `reg` against its operand leaves behind.
pub open spec fn compare_shape(s: MState, s2: MState, reg: u8) -> bool {
    let v = operand_at(s);
    &&& spec_flag_c(s2.flags) == (reg >= v)
    &&& spec_flag_z(s2.flags) == (reg == v)
    &&& spec_flag_n(s2.flags) == (wrap8(reg + 256 - v) >= 128)
    &&& s2.acc == s.acc
    &&& s2.x == s.x
    &&& s2.y == s.y
    &&& s2.sp == s.sp
    &&& s2.mem == s.mem
}

/// The bitwise signed-overflow test agrees with arithmetic: for the 8-bit
/// sum of `a`, `b` and a carry, it holds exactly when the signed result
/// leaves -128..=127.
pub proof fn lemma_overflow_signed(a: u8, b: u8, cin: int)
    requires
        0 <= cin <= 1,
    ensures
        spec_overflow(a, b, wrap8(a + b + cin)) == (signed8(a) + signed8(b) + cin > 127 || signed8(
            a,
        ) + signed8(b) + cin < -128),
{
}

/// Binary-mode `ADC`: the accumulator takes the low eight bits of
/// `A + operand + C`, C takes the ninth bit, V is set exactly on signed
/// overflow, and Z and N follow the result.
pub proof fn lemma_adc_binary(s: MState)
    requires
        wf(s),
        !spec_flag_d(s.flags),
        spec_mnemonic(mem_at(s, s.pc)) == Some(Mnemonic::ADC),
    ensures
        ({
            let v = operand_at(s);
            let cin: int = if spec_flag_c(s.flags) {
                1
            } else {
                0
            };
            let s2 = spec_step(s);
            &&& s2.acc == wrap8(s.acc + v + cin)
            &&& spec_flag_c(s2.flags) == (s.acc + v + cin >= 256)
            &&& spec_flag_v(s2.flags) == (signed8(s.acc) + signed8(v) + cin > 127 || signed8(s.acc)
                + signed8(v) + cin < -128)
            &&& spec_flag_z(s2.flags) == (s2.acc == 0)
            &&& spec_flag_n(s2.flags) == (s2.acc >= 128)
        }),
{
    let v = operand_at(s);
    let cin: int = if spec_flag_c(s.flags) {
        1
    } else {
        0
    };
    lemma_overflow_signed(s.acc, v, cin);
}

/// `JSR` stores the address of its own last byte on the stack; any block
/// that comes back with the stack pointer where `JSR` left it and those two
/// bytes intact, and then runs `RTS`, resumes at one past the `JSR` operand
/// with the stack pointer fully restored.
#[verifier::rlimit(100)]
#[verifier::spinoff_prover]
pub proof fn lemma_jsr_rts(s: MState, t: MState)
    requires
        wf(s),
        wf(t),
        mem_at(s, s.pc) == 0x20,
        t.sp == spec_step(s).sp,
        mem_at(t, stack_addr(s.sp)) == mem_at(spec_step(s), stack_addr(s.sp)),
        mem_at(t, stack_addr(wrap8(s.sp + 255))) == mem_at(
            spec_step(s),
            stack_addr(wrap8(s.sp + 255)),
        ),
        mem_at(t, t.pc) == 0x60,
    ensures
        spec_step(t).pc == wrap16(s.pc + 3),
        spec_step(t).sp == s.sp,
{
}

/// `BRK` then `RTI`, with the pushed bytes untouched in between, restores
/// the status register exactly (the machine keeps B and U set) and resumes
/// at `PC + 2`, the address `BRK` pushed, with the stack pointer restored.
#[verifier::spinoff_prover]
pub proof fn lemma_brk_rti(s: MState)
    requires
        wf(s),
        spec_flag_b(s.flags),
        spec_flag_u(s.flags),
        mem_at(s, s.pc) == 0x00,
        mem_at(spec_step(s), spec_step(s).pc) == 0x40,
    ensures
        spec_step(spec_step(s)).flags == s.flags,
        spec_step(spec_step(s)).pc == wrap16(s.pc + 2),
        spec_step(spec_step(s)).sp == s.sp,
{
    lemma_flags_decompose(s.flags);
    let s1 = spec_step(s);
    assert(s1 == spec_brk(MState { inst: 0x00, ..s }));
    let s2 = spec_step(s1);
    assert(s2 == spec_rti(MState { inst: 0x40, ..s1 }));
}

/// `PHA` then `PLA` is an identity on the accumulator: the pulled value is
/// the pushed one, and the stack pointer comes back.
#[verifier::spinoff_prover]
pub proof fn lemma_pha_pla(s: MState)
    requires
        wf(s),
        mem_at(s, s.pc) == 0x48,
        mem_at(spec_step(s), spec_step(s).pc) == 0x68,
    ensures
        spec_step(spec_step(s)).acc == s.acc,
        spec_step(spec_step(s)).sp == s.sp,
        spec_step(spec_step(s)).pc == wrap16(s.pc + 2),
{
}

/// `PHP` then `PLP` restores status bits 0, 1, 2, 3, 6 and 7 exactly;
/// bits 4 and 5 read as 1 afterwards, as the push-and-pull rules dictate.
/// The accumulator and the stack pointer come back unchanged.
#[verifier::spinoff_prover]
pub proof fn lemma_php_plp(s: MState)
    requires
        wf(s),
        mem_at(s, s.pc) == 0x08,
        mem_at(spec_step(s), spec_step(s).pc) == 0x28,
    ensures
        ({
            let s2 = spec_step(spec_step(s));
            &&& spec_flag_c(s2.flags) == spec_flag_c(s.flags)
            &&& spec_flag_z(s2.flags) == spec_flag_z(s.flags)
            &&& spec_flag_i(s2.flags) == spec_flag_i(s.flags)
            &&& spec_flag_d(s2.flags) == spec_flag_d(s.flags)
            &&& spec_flag_v(s2.flags) == spec_flag_v(s.flags)
            &&& spec_flag_n(s2.flags) == spec_flag_n(s.flags)
            &&& spec_flag_b(s2.flags)
            &&& spec_flag_u(s2.flags)
            &&& s2.acc == s.acc
            &&& s2.sp == s.sp
            &&& s2.pc == wrap16(s.pc + 2)
        }),
{
}

} // verus!
