//! The architectural semantics, stated once as mathematics.
//!
//! `MState` is the abstract machine: the 64 KiB memory as a sequence, the
//! six registers, the cycle counter, the last opcode fetched, and the trail
//! of write notifications the core owes its observers. `spec_step` is the
//! total transition function: it fetches the opcode under the program
//! counter, decodes it, and applies the instruction's semantics. Every byte
//! executes; a byte outside the documented set behaves as `NOP`.
//!
//! All register arithmetic is modulo 2^8 or 2^16 and the cycle counter is
//! modulo 2^64; there is no overflow trap anywhere in the machine.

use vstd::prelude::*;

use crate::decode::{spec_adressing_mode, spec_mnemonic, ADRESSING_MODE, Mnemonic};
use crate::flags::{
    spec_flag_c, spec_flag_z, spec_flag_i, spec_flag_d, spec_flag_b, spec_flag_u, spec_flag_v,
    spec_flag_n, spec_flags_byte,
};

verus! {

/// The abstract processor and bus state.
pub struct MState {
    /// The 65 536 bytes of memory.
    pub mem: Seq<u8>,
    /// Accumulator.
    pub acc: u8,
    /// Index register X.
    pub x: u8,
    /// Index register Y.
    pub y: u8,
    /// Status register P.
    pub flags: u8,
    /// Program counter.
    pub pc: u16,
    /// Stack pointer; the stack lives at 0x0100 + SP.
    pub sp: u8,
    /// Cycles since reset.
    pub clock: u64,
    /// The opcode byte most recently fetched.
    pub inst: u8,
    /// Write notifications owed to observers, oldest first.
    pub writes: Seq<(u16, u8)>,
}

/// A well-formed machine holds exactly 64 KiB of memory.
pub open spec fn wf(s: MState) -> bool {
    s.mem.len() == 0x10000
}

pub open spec fn wrap8(v: int) -> u8
    recommends
        v >= 0,
{
    (v % 256) as u8
}

pub open spec fn wrap16(v: int) -> u16
    recommends
        v >= 0,
{
    (v % 0x10000) as u16
}

pub open spec fn wrap64(v: int) -> u64
    recommends
        v >= 0,
{
    (v % 0x1_0000_0000_0000_0000) as u64
}

pub open spec fn mem_at(s: MState, a: u16) -> u8 {
    s.mem[a as int]
}

/// The little-endian word at `a`: low byte at `a`, high byte at `a + 1`
/// (the address wraps at the top of memory).
pub open spec fn spec_word_at(s: MState, a: u16) -> u16 {
    (mem_at(s, a) + 256 * mem_at(s, wrap16(a + 1))) as u16
}

/// The stack address for a stack pointer value.
pub open spec fn stack_addr(sp: u8) -> u16 {
    (0x100 + sp) as u16
}

/// Memory with one byte replaced.
pub open spec fn write_mem(s: MState, a: u16, v: u8) -> MState {
    MState { mem: s.mem.update(a as int, v), ..s }
}

/// The same machine with one more write notification recorded.
pub open spec fn note_write(s: MState, a: u16, v: u8) -> MState {
    MState { writes: s.writes.push((a, v)), ..s }
}

/// The effective address of the current instruction's operand. Modes that
/// carry no memory operand (accumulator, implied, and indirect, which only
/// `JMP` resolves for itself) yield address 0.
pub open spec fn spec_eff_addr(s: MState, m: ADRESSING_MODE) -> u16 {
    match m {
        ADRESSING_MODE::IMMEDIATE => wrap16(s.pc + 1),
        ADRESSING_MODE::ABSOLUTE => spec_word_at(s, wrap16(s.pc + 1)),
        ADRESSING_MODE::ABSOLUTE_X => wrap16(spec_word_at(s, wrap16(s.pc + 1)) + s.x),
        ADRESSING_MODE::ABSOLUTE_Y => wrap16(spec_word_at(s, wrap16(s.pc + 1)) + s.y),
        ADRESSING_MODE::ZERO_PAGE => mem_at(s, wrap16(s.pc + 1)) as u16,
        ADRESSING_MODE::ZERO_PAGE_X => wrap8(mem_at(s, wrap16(s.pc + 1)) + s.x) as u16,
        ADRESSING_MODE::ZERO_PAGE_Y => wrap8(mem_at(s, wrap16(s.pc + 1)) + s.y) as u16,
        ADRESSING_MODE::INDIRECT_X => {
            // Both pointer bytes come from the zero page; the pointer wraps
            // within it.
            let zp = wrap8(mem_at(s, wrap16(s.pc + 1)) + s.x);
            (mem_at(s, zp as u16) + 256 * mem_at(s, wrap8(zp + 1) as u16)) as u16
        },
        ADRESSING_MODE::INDIRECT_Y => wrap16(
            spec_word_at(s, mem_at(s, wrap16(s.pc + 1)) as u16) + s.y,
        ),
        _ => 0,
    }
}

/// Z and N updated from a value, C, I, D and V kept, B and U forced to 1.
pub open spec fn spec_set_flags(f: u8, val: u8) -> u8 {
    spec_flags_byte(
        spec_flag_c(f),
        val == 0,
        spec_flag_i(f),
        spec_flag_d(f),
        true,
        true,
        spec_flag_v(f),
        val >= 128,
    )
}

/// Signed overflow of an 8-bit addition: the operands agree in sign and the
/// result disagrees with them.
pub open spec fn spec_overflow(a: u8, b: u8, r: u8) -> bool {
    ((a >= 128) <==> (b >= 128)) && !((r >= 128) <==> (a >= 128))
}

/// Operand size in bytes and cycle cost of `LDA`, by addressing mode.
pub open spec fn lda_cost(m: ADRESSING_MODE) -> (int, int) {
    match m {
        ADRESSING_MODE::IMMEDIATE => (2, 2),
        ADRESSING_MODE::ABSOLUTE => (3, 4),
        ADRESSING_MODE::ABSOLUTE_X => (3, 4),
        ADRESSING_MODE::ABSOLUTE_Y => (3, 4),
        ADRESSING_MODE::ZERO_PAGE_X => (2, 4),
        ADRESSING_MODE::INDIRECT_X => (2, 6),
        ADRESSING_MODE::INDIRECT_Y => (2, 5),
        _ => (2, 3),
    }
}

/// Operand size and cycle cost of `LDX`; modes the instruction does not
/// have cost nothing and load zero.
pub open spec fn ldx_cost(m: ADRESSING_MODE) -> (int, int) {
    match m {
        ADRESSING_MODE::IMMEDIATE => (2, 2),
        ADRESSING_MODE::ABSOLUTE => (3, 4),
        ADRESSING_MODE::ABSOLUTE_X => (3, 4),
        ADRESSING_MODE::ABSOLUTE_Y => (3, 4),
        ADRESSING_MODE::ZERO_PAGE => (2, 3),
        ADRESSING_MODE::ZERO_PAGE_Y => (2, 4),
        _ => (0, 0),
    }
}

/// Operand size and cycle cost of `LDY`; modes the instruction does not
/// have cost nothing and load zero.
pub open spec fn ldy_cost(m: ADRESSING_MODE) -> (int, int) {
    match m {
        ADRESSING_MODE::IMMEDIATE => (2, 2),
        ADRESSING_MODE::ABSOLUTE => (3, 4),
        ADRESSING_MODE::ABSOLUTE_X => (3, 4),
        ADRESSING_MODE::ABSOLUTE_Y => (3, 4),
        ADRESSING_MODE::ZERO_PAGE => (2, 3),
        ADRESSING_MODE::ZERO_PAGE_X => (2, 4),
        _ => (0, 0),
    }
}

/// Operand size and cycle cost of the accumulator-logic group
/// (`AND`/`ORA`/`EOR`/`ADC`/`SBC`), by addressing mode.
pub open spec fn logic_cost(m: ADRESSING_MODE) -> (int, int) {
    match m {
        ADRESSING_MODE::IMMEDIATE => (2, 2),
        ADRESSING_MODE::ZERO_PAGE => (2, 3),
        ADRESSING_MODE::ZERO_PAGE_X => (2, 3),
        ADRESSING_MODE::INDIRECT_X => (2, 6),
        ADRESSING_MODE::INDIRECT_Y => (2, 6),
        ADRESSING_MODE::ABSOLUTE => (3, 4),
        ADRESSING_MODE::ABSOLUTE_X => (3, 4),
        ADRESSING_MODE::ABSOLUTE_Y => (3, 4),
        _ => (0, 0),
    }
}

pub open spec fn step_pc_clock(s: MState, nb: int, nc: int) -> MState {
    MState { pc: wrap16(s.pc + nb), clock: wrap64(s.clock + nc), ..s }
}

// --- Loads and stores ---

pub open spec fn spec_lda(s: MState) -> MState {
    let m = spec_adressing_mode(s.inst);
    let addr = spec_eff_addr(s, m);
    let value = mem_at(s, addr);
    let cost = lda_cost(m);
    step_pc_clock(
        MState { acc: value, flags: spec_set_flags(s.flags, value), ..s },
        cost.0,
        cost.1,
    )
}

pub open spec fn spec_ldx(s: MState) -> MState {
    let m = spec_adressing_mode(s.inst);
    let addr = spec_eff_addr(s, m);
    let cost = ldx_cost(m);
    let value = if cost == (0int, 0int) {
        0u8
    } else {
        mem_at(s, addr)
    };
    step_pc_clock(
        MState { x: value, flags: spec_set_flags(s.flags, value), ..s },
        cost.0,
        cost.1,
    )
}

pub open spec fn spec_ldy(s: MState) -> MState {
    let m = spec_adressing_mode(s.inst);
    let addr = spec_eff_addr(s, m);
    let cost = ldy_cost(m);
    let value = if cost == (0int, 0int) {
        0u8
    } else {
        mem_at(s, addr)
    };
    step_pc_clock(
        MState { y: value, flags: spec_set_flags(s.flags, value), ..s },
        cost.0,
        cost.1,
    )
}

/// Operand size and cycle cost of `STA`, by addressing mode: the load
/// costs, plus one cycle for the indexed-write forms.
pub open spec fn sta_cost(m: ADRESSING_MODE) -> (int, int) {
    match m {
        ADRESSING_MODE::ZERO_PAGE => (2, 3),
        ADRESSING_MODE::ZERO_PAGE_X => (2, 4),
        ADRESSING_MODE::ABSOLUTE => (3, 4),
        ADRESSING_MODE::ABSOLUTE_X => (3, 5),
        ADRESSING_MODE::ABSOLUTE_Y => (3, 5),
        ADRESSING_MODE::INDIRECT_X => (2, 6),
        ADRESSING_MODE::INDIRECT_Y => (2, 6),
        _ => (2, 5),
    }
}

/// Operand size and cycle cost of `STX` and `STY`.
pub open spec fn stxy_cost(m: ADRESSING_MODE) -> (int, int) {
    match m {
        ADRESSING_MODE::ZERO_PAGE => (2, 3),
        ADRESSING_MODE::ZERO_PAGE_X => (2, 4),
        ADRESSING_MODE::ZERO_PAGE_Y => (2, 4),
        ADRESSING_MODE::ABSOLUTE => (3, 4),
        _ => (2, 5),
    }
}

pub open spec fn spec_store(s: MState, v: u8, nb: int, nc: int) -> MState {
    let m = spec_adressing_mode(s.inst);
    let addr = spec_eff_addr(s, m);
    step_pc_clock(note_write(write_mem(s, addr, v), addr, v), nb, nc)
}

pub open spec fn spec_sta(s: MState) -> MState {
    let cost = sta_cost(spec_adressing_mode(s.inst));
    spec_store(s, s.acc, cost.0, cost.1)
}

pub open spec fn spec_stx(s: MState) -> MState {
    let cost = stxy_cost(spec_adressing_mode(s.inst));
    spec_store(s, s.x, cost.0, cost.1)
}

pub open spec fn spec_sty(s: MState) -> MState {
    let cost = stxy_cost(spec_adressing_mode(s.inst));
    spec_store(s, s.y, cost.0, cost.1)
}

// --- Register transfers ---

pub open spec fn spec_tax(s: MState) -> MState {
    step_pc_clock(MState { x: s.acc, flags: spec_set_flags(s.flags, s.acc), ..s }, 1, 2)
}

pub open spec fn spec_tay(s: MState) -> MState {
    step_pc_clock(MState { y: s.acc, flags: spec_set_flags(s.flags, s.acc), ..s }, 1, 2)
}

pub open spec fn spec_txa(s: MState) -> MState {
    step_pc_clock(MState { acc: s.x, flags: spec_set_flags(s.flags, s.x), ..s }, 1, 2)
}

pub open spec fn spec_tya(s: MState) -> MState {
    step_pc_clock(MState { acc: s.y, flags: spec_set_flags(s.flags, s.y), ..s }, 1, 2)
}

pub open spec fn spec_tsx(s: MState) -> MState {
    step_pc_clock(MState { x: s.sp, flags: spec_set_flags(s.flags, s.sp), ..s }, 1, 2)
}

/// `TXS` is the one transfer that leaves the flags alone.
pub open spec fn spec_txs(s: MState) -> MState {
    step_pc_clock(MState { sp: s.x, ..s }, 1, 2)
}

// --- Increments and decrements ---

pub open spec fn spec_inx(s: MState) -> MState {
    let v = wrap8(s.x + 1);
    step_pc_clock(MState { x: v, flags: spec_set_flags(s.flags, v), ..s }, 1, 2)
}

pub open spec fn spec_iny(s: MState) -> MState {
    let v = wrap8(s.y + 1);
    step_pc_clock(MState { y: v, flags: spec_set_flags(s.flags, v), ..s }, 1, 2)
}

pub open spec fn spec_dex(s: MState) -> MState {
    let v = wrap8(s.x + 255);
    step_pc_clock(MState { x: v, flags: spec_set_flags(s.flags, v), ..s }, 1, 2)
}

pub open spec fn spec_dey(s: MState) -> MState {
    let v = wrap8(s.y + 255);
    step_pc_clock(MState { y: v, flags: spec_set_flags(s.flags, v), ..s }, 1, 2)
}

/// Operand size and cycles of the read-modify-write group (`INC`/`DEC`).
pub open spec fn rmw_cost(m: ADRESSING_MODE) -> (int, int) {
    match m {
        ADRESSING_MODE::ZERO_PAGE => (2, 5),
        ADRESSING_MODE::ZERO_PAGE_X => (2, 5),
        ADRESSING_MODE::ABSOLUTE => (3, 6),
        ADRESSING_MODE::ABSOLUTE_X => (3, 6),
        _ => (0, 0),
    }
}

pub open spec fn spec_inc_dec(s: MState, delta: int) -> MState {
    let m = spec_adressing_mode(s.inst);
    let addr = spec_eff_addr(s, m);
    let cost = rmw_cost(m);
    let value = if cost == (0int, 0int) {
        0u8
    } else {
        mem_at(s, addr)
    };
    let result = wrap8(value + delta);
    let s1 = note_write(write_mem(s, addr, result), addr, result);
    step_pc_clock(
        MState { flags: spec_set_flags(s.flags, result), ..s1 },
        cost.0,
        cost.1,
    )
}

pub open spec fn spec_inc(s: MState) -> MState {
    spec_inc_dec(s, 1)
}

pub open spec fn spec_dec(s: MState) -> MState {
    spec_inc_dec(s, 255)
}

// --- Shifts and rotates ---

/// Apply a shift result: write it to the accumulator or back to memory, set
/// C, Z and N, advance.
pub open spec fn spec_shift_finish(
    s: MState,
    addr: u16,
    result: u8,
    c_out: bool,
    nb: int,
    nc: int,
) -> MState {
    let m = spec_adressing_mode(s.inst);
    let f = spec_flags_byte(
        c_out,
        result == 0,
        spec_flag_i(s.flags),
        spec_flag_d(s.flags),
        spec_flag_b(s.flags),
        spec_flag_u(s.flags),
        spec_flag_v(s.flags),
        result >= 128,
    );
    if m is ACCUMULATOR {
        step_pc_clock(MState { acc: result, flags: f, ..s }, nb, nc)
    } else {
        let s1 = note_write(write_mem(s, addr, result), addr, result);
        step_pc_clock(MState { flags: f, ..s1 }, nb, nc)
    }
}

pub open spec fn shift_cost(m: ADRESSING_MODE, zp_cycles: int) -> (int, int) {
    match m {
        ADRESSING_MODE::ACCUMULATOR => (1, 2),
        ADRESSING_MODE::ABSOLUTE => (3, 6),
        ADRESSING_MODE::ABSOLUTE_X => (3, 6),
        _ => (2, zp_cycles),
    }
}

pub open spec fn shift_operand(s: MState, addr: u16) -> u8 {
    if spec_adressing_mode(s.inst) is ACCUMULATOR {
        s.acc
    } else {
        mem_at(s, addr)
    }
}

pub open spec fn spec_asl(s: MState) -> MState {
    let m = spec_adressing_mode(s.inst);
    let addr = spec_eff_addr(s, m);
    let value = shift_operand(s, addr);
    let cost = shift_cost(m, 6);
    spec_shift_finish(s, addr, wrap8(value * 2), value >= 128, cost.0, cost.1)
}

pub open spec fn spec_lsr(s: MState) -> MState {
    let m = spec_adressing_mode(s.inst);
    let addr = spec_eff_addr(s, m);
    let value = shift_operand(s, addr);
    let cost = shift_cost(m, 5);
    spec_shift_finish(s, addr, value / 2, value % 2 == 1, cost.0, cost.1)
}

pub open spec fn spec_rol(s: MState) -> MState {
    let m = spec_adressing_mode(s.inst);
    let addr = spec_eff_addr(s, m);
    let value = shift_operand(s, addr);
    let cin: int = if spec_flag_c(s.flags) {
        1
    } else {
        0
    };
    let cost = shift_cost(m, 6);
    spec_shift_finish(s, addr, wrap8(value * 2 + cin), value >= 128, cost.0, cost.1)
}

pub open spec fn spec_ror(s: MState) -> MState {
    let m = spec_adressing_mode(s.inst);
    let addr = spec_eff_addr(s, m);
    let value = shift_operand(s, addr);
    let cin: int = if spec_flag_c(s.flags) {
        128
    } else {
        0
    };
    let cost = shift_cost(m, 6);
    spec_shift_finish(s, addr, (value / 2 + cin) as u8, value % 2 == 1, cost.0, cost.1)
}

// --- Bit test ---

pub open spec fn spec_bit(s: MState) -> MState {
    let m = spec_adressing_mode(s.inst);
    let addr = spec_eff_addr(s, m);
    let value = mem_at(s, addr);
    let cost: (int, int) = if m is ABSOLUTE {
        (3, 4)
    } else {
        (2, 2)
    };
    let f = spec_flags_byte(
        spec_flag_c(s.flags),
        (s.acc & value) == 0,
        spec_flag_i(s.flags),
        spec_flag_d(s.flags),
        spec_flag_b(s.flags),
        spec_flag_u(s.flags),
        (value / 64) % 2 == 1,
        value >= 128,
    );
    step_pc_clock(MState { flags: f, ..s }, cost.0, cost.1)
}

// --- Compares ---

/// Compare flags: C set when `reg >= v`, Z when equal, N from bit 7 of the
/// 8-bit difference; every other flag kept.
pub open spec fn spec_compare_flags(f: u8, reg: u8, v: u8) -> u8 {
    spec_flags_byte(
        reg >= v,
        reg == v,
        spec_flag_i(f),
        spec_flag_d(f),
        spec_flag_b(f),
        spec_flag_u(f),
        spec_flag_v(f),
        wrap8(reg + 256 - v) >= 128,
    )
}

pub open spec fn spec_cmp(s: MState) -> MState {
    let m = spec_adressing_mode(s.inst);
    let addr = spec_eff_addr(s, m);
    let value = mem_at(s, addr);
    let nb: int = if m is ABSOLUTE || m is ABSOLUTE_X || m is ABSOLUTE_Y {
        3
    } else {
        2
    };
    step_pc_clock(MState { flags: spec_compare_flags(s.flags, s.acc, value), ..s }, nb, 4)
}

pub open spec fn spec_cpx(s: MState) -> MState {
    let m = spec_adressing_mode(s.inst);
    let addr = spec_eff_addr(s, m);
    let value = mem_at(s, addr);
    let nb: int = if m is ABSOLUTE {
        3
    } else {
        2
    };
    step_pc_clock(MState { flags: spec_compare_flags(s.flags, s.x, value), ..s }, nb, 4)
}

pub open spec fn spec_cpy(s: MState) -> MState {
    let m = spec_adressing_mode(s.inst);
    let addr = spec_eff_addr(s, m);
    let value = mem_at(s, addr);
    let nb: int = if m is ABSOLUTE {
        3
    } else {
        2
    };
    step_pc_clock(MState { flags: spec_compare_flags(s.flags, s.y, value), ..s }, nb, 4)
}

// --- Bitwise logic ---

pub open spec fn spec_logic_finish(s: MState, result: u8) -> MState {
    let cost = logic_cost(spec_adressing_mode(s.inst));
    step_pc_clock(
        MState { acc: result, flags: spec_set_flags(s.flags, result), ..s },
        cost.0,
        cost.1,
    )
}

pub open spec fn spec_and(s: MState) -> MState {
    spec_logic_finish(s, s.acc & mem_at(s, spec_eff_addr(s, spec_adressing_mode(s.inst))))
}

pub open spec fn spec_eor(s: MState) -> MState {
    spec_logic_finish(s, s.acc ^ mem_at(s, spec_eff_addr(s, spec_adressing_mode(s.inst))))
}

pub open spec fn spec_ora(s: MState) -> MState {
    spec_logic_finish(s, s.acc | mem_at(s, spec_eff_addr(s, spec_adressing_mode(s.inst))))
}

// --- Addition and subtraction ---

/// Binary-mode addition of `v` with carry in: the accumulator takes the low
/// eight bits, C the ninth, V the signed overflow; Z and N follow the
/// result; B and U read as 1 afterwards.
pub open spec fn spec_add_core(s: MState, v: u8) -> MState {
    let cin: int = if spec_flag_c(s.flags) {
        1
    } else {
        0
    };
    let total = s.acc + v + cin;
    let sum = wrap8(total);
    let f = spec_flags_byte(
        total >= 256,
        sum == 0,
        spec_flag_i(s.flags),
        spec_flag_d(s.flags),
        true,
        true,
        spec_overflow(s.acc, v, sum),
        sum >= 128,
    );
    MState { acc: sum, flags: f, ..s }
}

/// Decimal-mode addition: nibble-wise with the +6 and +0x60 corrections; C
/// is the decimal carry; Z, N and V follow the plain binary sum.
pub open spec fn spec_adc_decimal(s: MState, v: u8) -> MState {
    let cin: int = if spec_flag_c(s.flags) {
        1
    } else {
        0
    };
    let ln0 = s.acc % 16 + v % 16 + cin;
    let ln = if ln0 > 9 {
        16 + (ln0 + 6) % 16
    } else {
        ln0
    };
    let t = (s.acc / 16) * 16 + (v / 16) * 16 + ln;
    let c_out = t >= 160;
    let result = if c_out {
        wrap8(t + 0x60)
    } else {
        wrap8(t)
    };
    let bin = wrap8(s.acc + v + cin);
    let f = spec_flags_byte(
        c_out,
        bin == 0,
        spec_flag_i(s.flags),
        spec_flag_d(s.flags),
        true,
        true,
        spec_overflow(s.acc, v, bin),
        bin >= 128,
    );
    MState { acc: result, flags: f, ..s }
}

/// Decimal-mode subtraction: the mirror of decimal addition, with -6 and
/// -0x60 corrections; C is the decimal no-borrow; Z, N and V follow the
/// binary result of adding the inverted operand.
pub open spec fn spec_sbc_decimal(s: MState, v: u8) -> MState {
    let cin: int = if spec_flag_c(s.flags) {
        1
    } else {
        0
    };
    let lo0 = 0xf + s.acc % 16 - v % 16 + cin;
    let w0: int = if lo0 < 0x10 {
        0
    } else {
        0x10
    };
    let lo = if lo0 < 0x10 {
        lo0 - 6
    } else {
        lo0 - 0x10
    };
    let w1 = w0 + 0xf0 + (s.acc / 16) * 16 - (v / 16) * 16;
    let c_out = w1 >= 0x100;
    let w2 = if c_out {
        w1
    } else {
        w1 - 0x60
    };
    // The 0x200 bias is a multiple of 256; it only keeps the operand of the
    // final reduction nonnegative.
    let result = wrap8(w2 + lo + 0x200);
    let inv = (255 - v) as u8;
    let bin = wrap8(s.acc + inv + cin);
    let f = spec_flags_byte(
        c_out,
        bin == 0,
        spec_flag_i(s.flags),
        spec_flag_d(s.flags),
        true,
        true,
        spec_overflow(s.acc, inv, bin),
        bin >= 128,
    );
    MState { acc: result, flags: f, ..s }
}

pub open spec fn spec_adc(s: MState) -> MState {
    let m = spec_adressing_mode(s.inst);
    let addr = spec_eff_addr(s, m);
    let value = mem_at(s, addr);
    let s1 = if spec_flag_d(s.flags) {
        spec_adc_decimal(s, value)
    } else {
        spec_add_core(s, value)
    };
    let cost = logic_cost(m);
    step_pc_clock(s1, cost.0, cost.1)
}

pub open spec fn spec_sbc(s: MState) -> MState {
    let m = spec_adressing_mode(s.inst);
    let addr = spec_eff_addr(s, m);
    let value = mem_at(s, addr);
    let s1 = if spec_flag_d(s.flags) {
        spec_sbc_decimal(s, value)
    } else {
        spec_add_core(s, (255 - value) as u8)
    };
    let cost = logic_cost(m);
    step_pc_clock(s1, cost.0, cost.1)
}

// --- Branches ---

/// A conditional relative branch: when taken, the program counter moves to
/// `PC + 2` plus the sign-extended offset byte; otherwise to `PC + 2`.
pub open spec fn spec_branch(s: MState, taken: bool) -> MState {
    let off = mem_at(s, wrap16(s.pc + 1));
    let target = if taken {
        // Offsets of 128 and above are negative; adding 0xff00 is the same
        // as subtracting 256, modulo 2^16.
        if off >= 128 {
            wrap16(s.pc + 2 + off + 0xff00)
        } else {
            wrap16(s.pc + 2 + off)
        }
    } else {
        wrap16(s.pc + 2)
    };
    let nc: int = if taken {
        3
    } else {
        2
    };
    MState { pc: target, clock: wrap64(s.clock + nc), ..s }
}

// --- Jumps, subroutines and interrupts ---

pub open spec fn spec_jmp(s: MState) -> MState {
    let m = spec_adressing_mode(s.inst);
    let target = if m is INDIRECT {
        spec_word_at(s, spec_word_at(s, wrap16(s.pc + 1)))
    } else {
        spec_word_at(s, wrap16(s.pc + 1))
    };
    let nc: int = if m is INDIRECT {
        5
    } else {
        3
    };
    MState { pc: target, clock: wrap64(s.clock + nc), ..s }
}

/// `JSR` pushes the address of its own last byte (`PC + 2`), high byte
/// first, then jumps to its absolute operand.
pub open spec fn spec_jsr(s: MState) -> MState {
    let ret = wrap16(s.pc + 2);
    let s1 = write_mem(s, stack_addr(s.sp), (ret / 256) as u8);
    let s2 = write_mem(s1, stack_addr(wrap8(s.sp + 255)), (ret % 256) as u8);
    let target = spec_word_at(s2, wrap16(s.pc + 1));
    MState { sp: wrap8(s.sp + 254), pc: target, clock: wrap64(s.clock + 6), ..s2 }
}

/// `RTS` pops the return address, low byte first, and resumes one past it.
pub open spec fn spec_rts(s: MState) -> MState {
    let lo = mem_at(s, stack_addr(wrap8(s.sp + 1)));
    let hi = mem_at(s, stack_addr(wrap8(s.sp + 2)));
    MState {
        sp: wrap8(s.sp + 2),
        pc: wrap16(lo + 256 * hi + 1),
        clock: wrap64(s.clock + 6),
        ..s
    }
}

/// `BRK` pushes `PC + 2` and the status byte with B and U forced to 1, sets
/// I, and jumps through the vector at 0xFFFE.
pub open spec fn spec_brk(s: MState) -> MState {
    let ret = wrap16(s.pc + 2);
    let pushed = spec_flags_byte(
        spec_flag_c(s.flags),
        spec_flag_z(s.flags),
        spec_flag_i(s.flags),
        spec_flag_d(s.flags),
        true,
        true,
        spec_flag_v(s.flags),
        spec_flag_n(s.flags),
    );
    let s1 = write_mem(s, stack_addr(s.sp), (ret / 256) as u8);
    let s2 = write_mem(s1, stack_addr(wrap8(s.sp + 255)), (ret % 256) as u8);
    let s3 = write_mem(s2, stack_addr(wrap8(s.sp + 254)), pushed);
    let f = spec_flags_byte(
        spec_flag_c(s.flags),
        spec_flag_z(s.flags),
        true,
        spec_flag_d(s.flags),
        spec_flag_b(s.flags),
        spec_flag_u(s.flags),
        spec_flag_v(s.flags),
        spec_flag_n(s.flags),
    );
    MState {
        sp: wrap8(s.sp + 253),
        pc: spec_word_at(s3, 0xfffe),
        flags: f,
        clock: wrap64(s.clock + 7),
        ..s3
    }
}

/// `RTI` pops the status byte (U reads back as 1) and then the program
/// counter, with no adjustment.
pub open spec fn spec_rti(s: MState) -> MState {
    let fb = mem_at(s, stack_addr(wrap8(s.sp + 1)));
    let lo = mem_at(s, stack_addr(wrap8(s.sp + 2)));
    let hi = mem_at(s, stack_addr(wrap8(s.sp + 3)));
    let f = spec_flags_byte(
        spec_flag_c(fb),
        spec_flag_z(fb),
        spec_flag_i(fb),
        spec_flag_d(fb),
        spec_flag_b(fb),
        true,
        spec_flag_v(fb),
        spec_flag_n(fb),
    );
    MState {
        sp: wrap8(s.sp + 3),
        pc: (lo + 256 * hi) as u16,
        flags: f,
        clock: wrap64(s.clock + 6),
        ..s
    }
}

// --- Stack pushes and pulls ---

pub open spec fn spec_pha(s: MState) -> MState {
    let a = stack_addr(s.sp);
    let s1 = note_write(write_mem(s, a, s.acc), a, s.acc);
    MState { sp: wrap8(s.sp + 255), pc: wrap16(s.pc + 1), clock: wrap64(s.clock + 3), ..s1 }
}

/// `PHP` pushes the status byte with B and U forced to 1.
pub open spec fn spec_php(s: MState) -> MState {
    let pushed = spec_flags_byte(
        spec_flag_c(s.flags),
        spec_flag_z(s.flags),
        spec_flag_i(s.flags),
        spec_flag_d(s.flags),
        true,
        true,
        spec_flag_v(s.flags),
        spec_flag_n(s.flags),
    );
    let a = stack_addr(s.sp);
    let s1 = note_write(write_mem(s, a, pushed), a, pushed);
    MState { sp: wrap8(s.sp + 255), pc: wrap16(s.pc + 1), clock: wrap64(s.clock + 3), ..s1 }
}

pub open spec fn spec_pla(s: MState) -> MState {
    let sp1 = wrap8(s.sp + 1);
    let v = mem_at(s, stack_addr(sp1));
    MState {
        sp: sp1,
        acc: v,
        flags: spec_set_flags(s.flags, v),
        pc: wrap16(s.pc + 1),
        clock: wrap64(s.clock + 4),
        ..s
    }
}

/// `PLP` loads the status byte from the stack as it stands, except that U
/// reads back as 1.
pub open spec fn spec_plp(s: MState) -> MState {
    let sp1 = wrap8(s.sp + 1);
    let fb = mem_at(s, stack_addr(sp1));
    let f = spec_flags_byte(
        spec_flag_c(fb),
        spec_flag_z(fb),
        spec_flag_i(fb),
        spec_flag_d(fb),
        spec_flag_b(fb),
        true,
        spec_flag_v(fb),
        spec_flag_n(fb),
    );
    MState { sp: sp1, flags: f, pc: wrap16(s.pc + 1), clock: wrap64(s.clock + 4), ..s }
}

// --- Flag instructions and NOP ---

/// One flag set or cleared, every other bit kept.
pub open spec fn spec_flag_op(
    s: MState,
    c: bool,
    z: bool,
    i: bool,
    d: bool,
    b: bool,
    u: bool,
    v: bool,
    n: bool,
) -> MState {
    MState {
        flags: spec_flags_byte(c, z, i, d, b, u, v, n),
        pc: wrap16(s.pc + 1),
        clock: wrap64(s.clock + 2),
        ..s
    }
}

pub open spec fn spec_clc(s: MState) -> MState {
    spec_flag_op(
        s,
        false,
        spec_flag_z(s.flags),
        spec_flag_i(s.flags),
        spec_flag_d(s.flags),
        spec_flag_b(s.flags),
        spec_flag_u(s.flags),
        spec_flag_v(s.flags),
        spec_flag_n(s.flags),
    )
}

pub open spec fn spec_sec(s: MState) -> MState {
    spec_flag_op(
        s,
        true,
        spec_flag_z(s.flags),
        spec_flag_i(s.flags),
        spec_flag_d(s.flags),
        spec_flag_b(s.flags),
        spec_flag_u(s.flags),
        spec_flag_v(s.flags),
        spec_flag_n(s.flags),
    )
}

pub open spec fn spec_cli(s: MState) -> MState {
    spec_flag_op(
        s,
        spec_flag_c(s.flags),
        spec_flag_z(s.flags),
        false,
        spec_flag_d(s.flags),
        spec_flag_b(s.flags),
        spec_flag_u(s.flags),
        spec_flag_v(s.flags),
        spec_flag_n(s.flags),
    )
}

pub open spec fn spec_sei(s: MState) -> MState {
    spec_flag_op(
        s,
        spec_flag_c(s.flags),
        spec_flag_z(s.flags),
        true,
        spec_flag_d(s.flags),
        spec_flag_b(s.flags),
        spec_flag_u(s.flags),
        spec_flag_v(s.flags),
        spec_flag_n(s.flags),
    )
}

pub open spec fn spec_cld(s: MState) -> MState {
    spec_flag_op(
        s,
        spec_flag_c(s.flags),
        spec_flag_z(s.flags),
        spec_flag_i(s.flags),
        false,
        spec_flag_b(s.flags),
        spec_flag_u(s.flags),
        spec_flag_v(s.flags),
        spec_flag_n(s.flags),
    )
}

pub open spec fn spec_sed(s: MState) -> MState {
    spec_flag_op(
        s,
        spec_flag_c(s.flags),
        spec_flag_z(s.flags),
        spec_flag_i(s.flags),
        true,
        spec_flag_b(s.flags),
        spec_flag_u(s.flags),
        spec_flag_v(s.flags),
        spec_flag_n(s.flags),
    )
}

pub open spec fn spec_clv(s: MState) -> MState {
    spec_flag_op(
        s,
        spec_flag_c(s.flags),
        spec_flag_z(s.flags),
        spec_flag_i(s.flags),
        spec_flag_d(s.flags),
        spec_flag_b(s.flags),
        spec_flag_u(s.flags),
        false,
        spec_flag_n(s.flags),
    )
}

pub open spec fn spec_nop(s: MState) -> MState {
    MState { pc: wrap16(s.pc + 1), clock: wrap64(s.clock + 2), ..s }
}

// --- The step function ---

/// Dispatch one decoded instruction.
pub open spec fn spec_instr(s: MState, m: Mnemonic) -> MState {
    match m {
        Mnemonic::ADC => spec_adc(s),
        Mnemonic::AND => spec_and(s),
        Mnemonic::ASL => spec_asl(s),
        Mnemonic::BCC => spec_branch(s, !spec_flag_c(s.flags)),
        Mnemonic::BCS => spec_branch(s, spec_flag_c(s.flags)),
        Mnemonic::BEQ => spec_branch(s, spec_flag_z(s.flags)),
        Mnemonic::BIT => spec_bit(s),
        Mnemonic::BMI => spec_branch(s, spec_flag_n(s.flags)),
        Mnemonic::BNE => spec_branch(s, !spec_flag_z(s.flags)),
        Mnemonic::BPL => spec_branch(s, !spec_flag_n(s.flags)),
        Mnemonic::BRK => spec_brk(s),
        Mnemonic::BVC => spec_branch(s, !spec_flag_v(s.flags)),
        Mnemonic::BVS => spec_branch(s, spec_flag_v(s.flags)),
        Mnemonic::CLC => spec_clc(s),
        Mnemonic::CLD => spec_cld(s),
        Mnemonic::CLI => spec_cli(s),
        Mnemonic::CLV => spec_clv(s),
        Mnemonic::CMP => spec_cmp(s),
        Mnemonic::CPX => spec_cpx(s),
        Mnemonic::CPY => spec_cpy(s),
        Mnemonic::DEC => spec_dec(s),
        Mnemonic::DEX => spec_dex(s),
        Mnemonic::DEY => spec_dey(s),
        Mnemonic::EOR => spec_eor(s),
        Mnemonic::INC => spec_inc(s),
        Mnemonic::INX => spec_inx(s),
        Mnemonic::INY => spec_iny(s),
        Mnemonic::JMP => spec_jmp(s),
        Mnemonic::JSR => spec_jsr(s),
        Mnemonic::LDA => spec_lda(s),
        Mnemonic::LDX => spec_ldx(s),
        Mnemonic::LDY => spec_ldy(s),
        Mnemonic::LSR => spec_lsr(s),
        Mnemonic::NOP => spec_nop(s),
        Mnemonic::ORA => spec_ora(s),
        Mnemonic::PHA => spec_pha(s),
        Mnemonic::PHP => spec_php(s),
        Mnemonic::PLA => spec_pla(s),
        Mnemonic::PLP => spec_plp(s),
        Mnemonic::ROL => spec_rol(s),
        Mnemonic::ROR => spec_ror(s),
        Mnemonic::RTI => spec_rti(s),
        Mnemonic::RTS => spec_rts(s),
        Mnemonic::SBC => spec_sbc(s),
        Mnemonic::SEC => spec_sec(s),
        Mnemonic::SED => spec_sed(s),
        Mnemonic::SEI => spec_sei(s),
        Mnemonic::STA => spec_sta(s),
        Mnemonic::STX => spec_stx(s),
        Mnemonic::STY => spec_sty(s),
        Mnemonic::TAX => spec_tax(s),
        Mnemonic::TAY => spec_tay(s),
        Mnemonic::TSX => spec_tsx(s),
        Mnemonic::TXA => spec_txa(s),
        Mnemonic::TXS => spec_txs(s),
        Mnemonic::TYA => spec_tya(s),
    }
}

/// One full machine step: fetch the opcode under the program counter,
/// decode, execute. A byte outside the documented set executes as `NOP`.
pub open spec fn spec_step(s: MState) -> MState {
    let op = mem_at(s, s.pc);
    let s1 = MState { inst: op, ..s };
    match spec_mnemonic(op) {
        Some(m) => spec_instr(s1, m),
        None => spec_nop(s1),
    }
}

} // verus!
