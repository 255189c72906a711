//! The executable machine: registers, memory, and the interpreter.
//!
//! `Computer` owns the 64 KiB memory and the register file and is the only
//! writer to either. `run_instruction` performs one fetch-decode-execute
//! step and is proved to follow the specification transition `spec_step`
//! exactly. The surrounding run-loop state (pause, single-step latch,
//! throttle) lives here too, with the scheduling itself — sleeping and
//! message channels — left to the embedding program.

use vstd::prelude::*;

use crate::decode;
pub use crate::decode::ADRESSING_MODE;
use crate::decode::{spec_adressing_mode, spec_mnemonic, Mnemonic};
use crate::flags::{
    flag_b, flag_c, flag_d, flag_i, flag_n, flag_u, flag_v, flag_z, flags_byte, spec_flag_c,
    spec_flag_n, spec_flag_v, spec_flag_z,
};
use crate::state::{
    mem_at, spec_adc, spec_add_core, spec_and, spec_asl, spec_bit, spec_branch, spec_brk,
    spec_clc, spec_cld, spec_cli, spec_clv, spec_cmp, spec_cpx, spec_cpy, spec_dec, spec_dex,
    spec_dey, spec_eff_addr, spec_eor, spec_inc, spec_inx, spec_iny, spec_jmp, spec_jsr, spec_lda,
    spec_ldx, spec_ldy, spec_lsr, spec_nop, spec_ora, spec_overflow, spec_pha, spec_php, spec_pla,
    spec_plp, spec_rol, spec_ror, spec_rti, spec_rts, spec_sbc, spec_sec, spec_sed, spec_sei,
    spec_set_flags, spec_sta, spec_step, spec_stx, spec_sty, spec_tax, spec_tay, spec_tsx,
    spec_txa, spec_txs, spec_tya, spec_word_at, stack_addr, step_pc_clock, wrap16, wrap64, wrap8,
    MState,
};

verus! {

/// One entry of the instruction trace: a message and how many consecutive
/// times it repeated.
#[derive(Clone, Debug)]
pub struct Info {
    pub msg: String,
    pub qty: u64,
}

/// A command for the execution loop.
pub enum ComputerMessage {
    ButtonPressed(String),
    GetData(),
}

/// What the execution loop reports back to its controller.
pub enum ControllerMessage {
    ButtonPressed(String),
    UpdatedProcessorAvailable(Processor),
    UpdatedDataAvailable(u16, u8),
    UpdatedStackAvailable(Vec<u8>),
    UpdatedOutputAvailable(Vec<u8>),
}

/// The architectural register file, plus the snapshot extras handed to
/// observers: a window of memory under test, the instruction trace, and the
/// cycle counter.
#[derive(Clone, Debug)]
pub struct Processor {
    pub flags: u8,
    pub acc: u8,
    pub rx: u8,
    pub ry: u8,
    pub pc: u16,
    pub sp: u8,
    pub test: Vec<u8>,
    pub info: Vec<Info>,
    pub clock: u64,
    pub inst: u8,
}

/// The machine: processor state, the 64 KiB memory, the run-loop switches,
/// and the write notifications not yet handed to observers.
#[derive(Debug)]
pub struct Computer {
    pub processor: Processor,
    pub paused: bool,
    pub step: bool,
    pub start: bool,
    pub speed: u64,
    pub data: Vec<u8>,
    pub writes: Vec<(u16, u8)>,
}

impl View for Computer {
    type V = MState;

    open spec fn view(&self) -> MState {
        MState {
            mem: self.data@,
            acc: self.processor.acc,
            x: self.processor.rx,
            y: self.processor.ry,
            flags: self.processor.flags,
            pc: self.processor.pc,
            sp: self.processor.sp,
            clock: self.processor.clock,
            inst: self.processor.inst,
            writes: self.writes@,
        }
    }
}

/// The run-loop switches and the snapshot extras that instructions leave
/// alone.
pub open spec fn harness_same(a: &Computer, b: &Computer) -> bool {
    &&& a.paused == b.paused
    &&& a.step == b.step
    &&& a.start == b.start
    &&& a.processor.info == b.processor.info
    &&& a.processor.test == b.processor.test
}

/// The throttle after one instruction: an opcode outside the documented set
/// slows the machine to one instruction per second.
pub open spec fn spec_speed_after(s: MState, speed: u64) -> u64 {
    if spec_mnemonic(mem_at(s, s.pc)) is None {
        1000
    } else {
        speed
    }
}

/// The throttle after "faster": halved at 4 and above, else one less,
/// never below zero.
pub open spec fn spec_faster(speed: u64) -> u64 {
    if speed >= 4 {
        speed / 2
    } else if speed >= 1 {
        (speed - 1) as u64
    } else {
        speed
    }
}

/// The throttle after "slower": doubled at 2 and above, else two more;
/// above 10000 it stays as it is.
pub open spec fn spec_slower(speed: u64) -> u64 {
    if speed <= 10000 {
        if speed >= 2 {
            (speed * 2) as u64
        } else {
            (speed + 2) as u64
        }
    } else {
        speed
    }
}

/// The trace after one message: a repeat of the newest entry bumps its
/// count, anything else appends a fresh entry.
pub open spec fn spec_info_after(trail: Seq<Info>, msg: String) -> Seq<Info> {
    if trail.len() > 0 && trail.last().msg@ == msg@ {
        trail.drop_last().push(Info { msg: msg, qty: (trail.last().qty + 1) as u64 })
    } else {
        trail.push(Info { msg: msg, qty: 1 })
    }
}

// --- Small arithmetic helpers, all modulo the register width ---

fn w8_add(a: u8, b: u8) -> (r: u8)
    ensures
        r == wrap8(a + b),
{
    (((a as u16) + (b as u16)) % 256) as u8
}

fn w16_add(a: u16, b: u16) -> (r: u16)
    ensures
        r == wrap16(a + b),
{
    (((a as u32) + (b as u32)) % 0x10000) as u16
}

fn w64_add(a: u64, b: u64) -> (r: u64)
    ensures
        r == wrap64(a + b),
{
    (((a as u128) + (b as u128)) % 0x1_0000_0000_0000_0000) as u64
}

/// The stack address for a stack pointer value.
fn stk(sp: u8) -> (r: u16)
    ensures
        r == stack_addr(sp),
{
    0x100 + sp as u16
}

fn overflow_bit(a: u8, b: u8, r: u8) -> (ret: bool)
    ensures
        ret == spec_overflow(a, b, r),
{
    ((a >= 128) == (b >= 128)) && ((r >= 128) != (a >= 128))
}

/// Whether two string slices hold the same characters.
fn str_eq(a: &str, b: &str) -> (r: bool)
    ensures
        r == (a@ == b@),
{
    let s1: String = a.to_owned();
    let s2: String = b.to_owned();
    s1 == s2
}

/// The bytes of `v` from `start` up to `end`, as a fresh vector.
fn copy_range(v: &Vec<u8>, start: usize, end: usize) -> (r: Vec<u8>)
    requires
        start <= end,
        end <= v@.len(),
    ensures
        r@ == v@.subrange(start as int, end as int),
{
    let mut r: Vec<u8> = Vec::new();
    let mut i: usize = start;
    while i < end
        invariant
            start <= i <= end,
            end <= v@.len(),
            r@ == v@.subrange(start as int, i as int),
        decreases end - i,
    {
        r.push(v[i]);
        proof {
            assert(r@ =~= v@.subrange(start as int, i as int + 1));
        }
        i += 1;
    }
    r
}

/// A copy of a trace, entry by entry.
fn clone_infos(v: &Vec<Info>) -> (r: Vec<Info>)
    ensures
        r@.len() == v@.len(),
        forall|i: int|
            0 <= i < v@.len() ==> r@[i].msg@ == v@[i].msg@ && r@[i].qty == v@[i].qty,
{
    let mut r: Vec<Info> = Vec::new();
    let mut i: usize = 0;
    while i < v.len()
        invariant
            0 <= i <= v@.len(),
            r@.len() == i,
            forall|j: int|
                0 <= j < i ==> r@[j].msg@ == v@[j].msg@ && r@[j].qty == v@[j].qty,
        decreases v@.len() - i,
    {
        let m: String = v[i].msg.clone();
        let q: u64 = v[i].qty;
        r.push(Info { msg: m, qty: q });
        i += 1;
    }
    r
}

impl Computer {
    /// The machine carries exactly 64 KiB of memory.
    pub open spec fn wf(&self) -> bool {
        crate::state::wf(self@)
    }

    /// Z and N updated from `val`, C, I, D and V kept, B and U forced to 1.
    pub fn set_flags(flags: u8, val: u8) -> (r: u8)
        ensures
            r == spec_set_flags(flags, val),
    {
        flags_byte(
            flag_c(flags),
            val == 0,
            flag_i(flags),
            flag_d(flags),
            true,
            true,
            flag_v(flags),
            val >= 128,
        )
    }

    /// The little-endian word at `address`; the high byte comes from
    /// `address + 1`, wrapping at the top of memory.
    pub fn get_word(&mut self, address: u16) -> (r: u16)
        requires
            old(self).wf(),
        ensures
            *final(self) == *old(self),
            r == spec_word_at(old(self)@, address),
    {
        let lo = self.data[address as usize];
        let hi = self.data[((address as usize) + 1) % 0x10000];
        lo as u16 + (hi as u16) * 256
    }

    /// Resolve the operand address of the current instruction for the given
    /// addressing mode.
    pub fn get_ld_adddr(&mut self, addressing_mode: ADRESSING_MODE) -> (r: u16)
        requires
            old(self).wf(),
        ensures
            *final(self) == *old(self),
            r == spec_eff_addr(old(self)@, addressing_mode),
    {
        if addressing_mode == ADRESSING_MODE::IMMEDIATE {
            return w16_add(self.processor.pc, 1);
        } else if addressing_mode == ADRESSING_MODE::ABSOLUTE {
            let start = w16_add(self.processor.pc, 1);
            return self.get_word(start);
        } else if addressing_mode == ADRESSING_MODE::ABSOLUTE_X {
            let start = w16_add(self.processor.pc, 1);
            let start_addr = self.get_word(start);
            return w16_add(start_addr, self.processor.rx as u16);
        } else if addressing_mode == ADRESSING_MODE::ABSOLUTE_Y {
            let start = w16_add(self.processor.pc, 1);
            let start_addr = self.get_word(start);
            return w16_add(start_addr, self.processor.ry as u16);
        } else if addressing_mode == ADRESSING_MODE::ZERO_PAGE {
            let start = w16_add(self.processor.pc, 1);
            return self.data[start as usize] as u16;
        } else if addressing_mode == ADRESSING_MODE::ZERO_PAGE_Y {
            let start = w16_add(self.processor.pc, 1);
            let start_addr = w8_add(self.data[start as usize], self.processor.ry);
            return start_addr as u16;
        } else if addressing_mode == ADRESSING_MODE::ZERO_PAGE_X {
            let start = w16_add(self.processor.pc, 1);
            let start_addr = w8_add(self.data[start as usize], self.processor.rx);
            return start_addr as u16;
        } else if addressing_mode == ADRESSING_MODE::INDIRECT_Y {
            let start = w16_add(self.processor.pc, 1);
            let zp_addr = self.data[start as usize];
            let base_addr = self.get_word(zp_addr as u16);
            return w16_add(base_addr, self.processor.ry as u16);
        } else if addressing_mode == ADRESSING_MODE::INDIRECT_X {
            let start = w16_add(self.processor.pc, 1);
            let zp_addr = w8_add(self.data[start as usize], self.processor.rx);
            let lo = self.data[zp_addr as usize];
            let hi = self.data[w8_add(zp_addr, 1) as usize];
            return lo as u16 + (hi as u16) * 256;
        }
        0
    }

    /// Advance past an `STX` or `STY` instruction, by its mode's size and
    /// cost.
    fn advance_store(&mut self, m: ADRESSING_MODE)
        ensures
            final(self)@ == step_pc_clock(
                old(self)@,
                crate::state::stxy_cost(m).0,
                crate::state::stxy_cost(m).1,
            ),
            harness_same(old(self), final(self)),
            final(self).speed == old(self).speed,
    {
        if m == ADRESSING_MODE::ZERO_PAGE {
            self.advance_pc_clock(2, 3);
        } else if m == ADRESSING_MODE::ZERO_PAGE_X || m == ADRESSING_MODE::ZERO_PAGE_Y {
            self.advance_pc_clock(2, 4);
        } else if m == ADRESSING_MODE::ABSOLUTE {
            self.advance_pc_clock(3, 4);
        } else {
            self.advance_pc_clock(2, 5);
        }
    }

    /// Move the program counter and the cycle counter forward.
    fn advance_pc_clock(&mut self, nb: u16, nc: u64)
        ensures
            final(self)@ == step_pc_clock(old(self)@, nb as int, nc as int),
            harness_same(old(self), final(self)),
            final(self).speed == old(self).speed,
    {
        self.processor.pc = w16_add(self.processor.pc, nb);
        self.processor.clock = w64_add(self.processor.clock, nc);
    }

    // --- Loads ---

    fn lda(&mut self)
        requires
            old(self).wf(),
        ensures
            final(self)@ == spec_lda(old(self)@),
            harness_same(old(self), final(self)),
            final(self).speed == old(self).speed,
    {
        let addressing_mode = decode::get_adressing_mode(self.processor.inst);
        let addr = self.get_ld_adddr(addressing_mode);
        let value = self.data[addr as usize];
        if addressing_mode == ADRESSING_MODE::IMMEDIATE {
            self.advance_pc_clock(2, 2);
        } else if addressing_mode == ADRESSING_MODE::ABSOLUTE || addressing_mode
            == ADRESSING_MODE::ABSOLUTE_X || addressing_mode == ADRESSING_MODE::ABSOLUTE_Y {
            self.advance_pc_clock(3, 4);
        } else if addressing_mode == ADRESSING_MODE::ZERO_PAGE_X {
            self.advance_pc_clock(2, 4);
        } else if addressing_mode == ADRESSING_MODE::INDIRECT_X {
            self.advance_pc_clock(2, 6);
        } else if addressing_mode == ADRESSING_MODE::INDIRECT_Y {
            self.advance_pc_clock(2, 5);
        } else {
            self.advance_pc_clock(2, 3);
        }
        self.processor.acc = value;
        self.processor.flags = Computer::set_flags(self.processor.flags, value);
    }

    fn ldx(&mut self)
        requires
            old(self).wf(),
        ensures
            final(self)@ == spec_ldx(old(self)@),
            harness_same(old(self), final(self)),
            final(self).speed == old(self).speed,
    {
        let addressing_mode = decode::get_adressing_mode(self.processor.inst);
        let addr = self.get_ld_adddr(addressing_mode);
        let mut value: u8 = 0;
        let mut nb: u16 = 0;
        let mut nc: u64 = 0;
        if addressing_mode == ADRESSING_MODE::IMMEDIATE {
            value = self.data[addr as usize];
            nb = 2;
            nc = 2;
        } else if addressing_mode == ADRESSING_MODE::ABSOLUTE || addressing_mode
            == ADRESSING_MODE::ABSOLUTE_X || addressing_mode == ADRESSING_MODE::ABSOLUTE_Y {
            value = self.data[addr as usize];
            nb = 3;
            nc = 4;
        } else if addressing_mode == ADRESSING_MODE::ZERO_PAGE {
            value = self.data[addr as usize];
            nb = 2;
            nc = 3;
        } else if addressing_mode == ADRESSING_MODE::ZERO_PAGE_Y {
            value = self.data[addr as usize];
            nb = 2;
            nc = 4;
        }
        self.processor.rx = value;
        self.processor.flags = Computer::set_flags(self.processor.flags, value);
        self.advance_pc_clock(nb, nc);
    }

    fn ldy(&mut self)
        requires
            old(self).wf(),
        ensures
            final(self)@ == spec_ldy(old(self)@),
            harness_same(old(self), final(self)),
            final(self).speed == old(self).speed,
    {
        let addressing_mode = decode::get_adressing_mode(self.processor.inst);
        let addr = self.get_ld_adddr(addressing_mode);
        let mut value: u8 = 0;
        let mut nb: u16 = 0;
        let mut nc: u64 = 0;
        if addressing_mode == ADRESSING_MODE::IMMEDIATE {
            value = self.data[addr as usize];
            nb = 2;
            nc = 2;
        } else if addressing_mode == ADRESSING_MODE::ABSOLUTE || addressing_mode
            == ADRESSING_MODE::ABSOLUTE_X || addressing_mode == ADRESSING_MODE::ABSOLUTE_Y {
            value = self.data[addr as usize];
            nb = 3;
            nc = 4;
        } else if addressing_mode == ADRESSING_MODE::ZERO_PAGE {
            value = self.data[addr as usize];
            nb = 2;
            nc = 3;
        } else if addressing_mode == ADRESSING_MODE::ZERO_PAGE_X {
            value = self.data[addr as usize];
            nb = 2;
            nc = 4;
        }
        self.processor.ry = value;
        self.processor.flags = Computer::set_flags(self.processor.flags, value);
        self.advance_pc_clock(nb, nc);
    }

    // --- Stores ---

    fn sta(&mut self)
        requires
            old(self).wf(),
        ensures
            final(self)@ == spec_sta(old(self)@),
            harness_same(old(self), final(self)),
            final(self).speed == old(self).speed,
    {
        let addressing_mode = decode::get_adressing_mode(self.processor.inst);
        let addr = self.get_ld_adddr(addressing_mode);
        if addressing_mode == ADRESSING_MODE::ZERO_PAGE {
            self.advance_pc_clock(2, 3);
        } else if addressing_mode == ADRESSING_MODE::ZERO_PAGE_X {
            self.advance_pc_clock(2, 4);
        } else if addressing_mode == ADRESSING_MODE::ABSOLUTE {
            self.advance_pc_clock(3, 4);
        } else if addressing_mode == ADRESSING_MODE::ABSOLUTE_X || addressing_mode
            == ADRESSING_MODE::ABSOLUTE_Y {
            self.advance_pc_clock(3, 5);
        } else if addressing_mode == ADRESSING_MODE::INDIRECT_X || addressing_mode
            == ADRESSING_MODE::INDIRECT_Y {
            self.advance_pc_clock(2, 6);
        } else {
            self.advance_pc_clock(2, 5);
        }
        let v = self.processor.acc;
        self.data[addr as usize] = v;
        self.writes.push((addr, v));
    }

    fn stx(&mut self)
        requires
            old(self).wf(),
        ensures
            final(self)@ == spec_stx(old(self)@),
            harness_same(old(self), final(self)),
            final(self).speed == old(self).speed,
    {
        let addressing_mode = decode::get_adressing_mode(self.processor.inst);
        let addr = self.get_ld_adddr(addressing_mode);
        self.advance_store(addressing_mode);
        let v = self.processor.rx;
        self.data[addr as usize] = v;
        self.writes.push((addr, v));
    }

    fn sty(&mut self)
        requires
            old(self).wf(),
        ensures
            final(self)@ == spec_sty(old(self)@),
            harness_same(old(self), final(self)),
            final(self).speed == old(self).speed,
    {
        let addressing_mode = decode::get_adressing_mode(self.processor.inst);
        let addr = self.get_ld_adddr(addressing_mode);
        self.advance_store(addressing_mode);
        let v = self.processor.ry;
        self.data[addr as usize] = v;
        self.writes.push((addr, v));
    }

    // --- Register transfers ---

    fn tax(&mut self)
        ensures
            final(self)@ == spec_tax(old(self)@),
            harness_same(old(self), final(self)),
            final(self).speed == old(self).speed,
    {
        self.processor.rx = self.processor.acc;
        self.processor.flags = Computer::set_flags(self.processor.flags, self.processor.rx);
        self.advance_pc_clock(1, 2);
    }

    fn tay(&mut self)
        ensures
            final(self)@ == spec_tay(old(self)@),
            harness_same(old(self), final(self)),
            final(self).speed == old(self).speed,
    {
        self.processor.ry = self.processor.acc;
        self.processor.flags = Computer::set_flags(self.processor.flags, self.processor.ry);
        self.advance_pc_clock(1, 2);
    }

    fn txa(&mut self)
        ensures
            final(self)@ == spec_txa(old(self)@),
            harness_same(old(self), final(self)),
            final(self).speed == old(self).speed,
    {
        self.processor.acc = self.processor.rx;
        self.processor.flags = Computer::set_flags(self.processor.flags, self.processor.acc);
        self.advance_pc_clock(1, 2);
    }

    fn tya(&mut self)
        ensures
            final(self)@ == spec_tya(old(self)@),
            harness_same(old(self), final(self)),
            final(self).speed == old(self).speed,
    {
        self.processor.acc = self.processor.ry;
        self.processor.flags = Computer::set_flags(self.processor.flags, self.processor.acc);
        self.advance_pc_clock(1, 2);
    }

    fn tsx(&mut self)
        ensures
            final(self)@ == spec_tsx(old(self)@),
            harness_same(old(self), final(self)),
            final(self).speed == old(self).speed,
    {
        self.processor.rx = self.processor.sp;
        self.processor.flags = Computer::set_flags(self.processor.flags, self.processor.sp);
        self.advance_pc_clock(1, 2);
    }

    fn txs(&mut self)
        ensures
            final(self)@ == spec_txs(old(self)@),
            harness_same(old(self), final(self)),
            final(self).speed == old(self).speed,
    {
        self.processor.sp = self.processor.rx;
        self.advance_pc_clock(1, 2);
    }

    // --- Register increments and decrements ---

    fn inx(&mut self)
        ensures
            final(self)@ == spec_inx(old(self)@),
            harness_same(old(self), final(self)),
            final(self).speed == old(self).speed,
    {
        self.processor.rx = w8_add(self.processor.rx, 1);
        self.processor.flags = Computer::set_flags(self.processor.flags, self.processor.rx);
        self.advance_pc_clock(1, 2);
    }

    fn iny(&mut self)
        ensures
            final(self)@ == spec_iny(old(self)@),
            harness_same(old(self), final(self)),
            final(self).speed == old(self).speed,
    {
        self.processor.ry = w8_add(self.processor.ry, 1);
        self.processor.flags = Computer::set_flags(self.processor.flags, self.processor.ry);
        self.advance_pc_clock(1, 2);
    }

    fn dex(&mut self)
        ensures
            final(self)@ == spec_dex(old(self)@),
            harness_same(old(self), final(self)),
            final(self).speed == old(self).speed,
    {
        self.processor.rx = w8_add(self.processor.rx, 255);
        self.processor.flags = Computer::set_flags(self.processor.flags, self.processor.rx);
        self.advance_pc_clock(1, 2);
    }

    fn dey(&mut self)
        ensures
            final(self)@ == spec_dey(old(self)@),
            harness_same(old(self), final(self)),
            final(self).speed == old(self).speed,
    {
        self.processor.ry = w8_add(self.processor.ry, 255);
        self.processor.flags = Computer::set_flags(self.processor.flags, self.processor.ry);
        self.advance_pc_clock(1, 2);
    }

    // --- Memory increments and decrements ---

    fn inc(&mut self)
        requires
            old(self).wf(),
        ensures
            final(self)@ == spec_inc(old(self)@),
            harness_same(old(self), final(self)),
            final(self).speed == old(self).speed,
    {
        let addressing_mode = decode::get_adressing_mode(self.processor.inst);
        let addr = self.get_ld_adddr(addressing_mode);
        let mut value: u8 = 0;
        if addressing_mode == ADRESSING_MODE::ZERO_PAGE || addressing_mode
            == ADRESSING_MODE::ZERO_PAGE_X {
            value = self.data[addr as usize];
            self.advance_pc_clock(2, 5);
        } else if addressing_mode == ADRESSING_MODE::ABSOLUTE || addressing_mode
            == ADRESSING_MODE::ABSOLUTE_X {
            value = self.data[addr as usize];
            self.advance_pc_clock(3, 6);
        }
        let result = w8_add(value, 1);
        self.data[addr as usize] = result;
        self.writes.push((addr, result));
        self.processor.flags = Computer::set_flags(self.processor.flags, result);
    }

    fn dec(&mut self)
        requires
            old(self).wf(),
        ensures
            final(self)@ == spec_dec(old(self)@),
            harness_same(old(self), final(self)),
            final(self).speed == old(self).speed,
    {
        let addressing_mode = decode::get_adressing_mode(self.processor.inst);
        let addr = self.get_ld_adddr(addressing_mode);
        let mut value: u8 = 0;
        if addressing_mode == ADRESSING_MODE::ZERO_PAGE || addressing_mode
            == ADRESSING_MODE::ZERO_PAGE_X {
            value = self.data[addr as usize];
            self.advance_pc_clock(2, 5);
        } else if addressing_mode == ADRESSING_MODE::ABSOLUTE || addressing_mode
            == ADRESSING_MODE::ABSOLUTE_X {
            value = self.data[addr as usize];
            self.advance_pc_clock(3, 6);
        }
        let result = w8_add(value, 255);
        self.data[addr as usize] = result;
        self.writes.push((addr, result));
        self.processor.flags = Computer::set_flags(self.processor.flags, result);
    }

    // --- Shifts and rotates ---

    fn asl(&mut self)
        requires
            old(self).wf(),
        ensures
            final(self)@ == spec_asl(old(self)@),
            harness_same(old(self), final(self)),
            final(self).speed == old(self).speed,
    {
        let mode = decode::get_adressing_mode(self.processor.inst);
        let addr = self.get_ld_adddr(mode);
        let value: u8;
        let nb: u16;
        let nc: u64;
        if mode == ADRESSING_MODE::ACCUMULATOR {
            value = self.processor.acc;
            nb = 1;
            nc = 2;
        } else if mode == ADRESSING_MODE::ABSOLUTE || mode == ADRESSING_MODE::ABSOLUTE_X {
            value = self.data[addr as usize];
            nb = 3;
            nc = 6;
        } else {
            value = self.data[addr as usize];
            nb = 2;
            nc = 6;
        }
        let result = (((value as u16) * 2) % 256) as u8;
        let f = self.processor.flags;
        self.processor.flags = flags_byte(
            value >= 128,
            result == 0,
            flag_i(f),
            flag_d(f),
            flag_b(f),
            flag_u(f),
            flag_v(f),
            result >= 128,
        );
        if mode == ADRESSING_MODE::ACCUMULATOR {
            self.processor.acc = result;
        } else {
            self.data[addr as usize] = result;
            self.writes.push((addr, result));
        }
        self.advance_pc_clock(nb, nc);
    }

    fn lsr(&mut self)
        requires
            old(self).wf(),
        ensures
            final(self)@ == spec_lsr(old(self)@),
            harness_same(old(self), final(self)),
            final(self).speed == old(self).speed,
    {
        let mode = decode::get_adressing_mode(self.processor.inst);
        let addr = self.get_ld_adddr(mode);
        let value: u8;
        let nb: u16;
        let nc: u64;
        if mode == ADRESSING_MODE::ACCUMULATOR {
            value = self.processor.acc;
            nb = 1;
            nc = 2;
        } else if mode == ADRESSING_MODE::ABSOLUTE || mode == ADRESSING_MODE::ABSOLUTE_X {
            value = self.data[addr as usize];
            nb = 3;
            nc = 6;
        } else {
            value = self.data[addr as usize];
            nb = 2;
            nc = 5;
        }
        let result = value / 2;
        let f = self.processor.flags;
        self.processor.flags = flags_byte(
            value % 2 == 1,
            result == 0,
            flag_i(f),
            flag_d(f),
            flag_b(f),
            flag_u(f),
            flag_v(f),
            result >= 128,
        );
        if mode == ADRESSING_MODE::ACCUMULATOR {
            self.processor.acc = result;
        } else {
            self.data[addr as usize] = result;
            self.writes.push((addr, result));
        }
        self.advance_pc_clock(nb, nc);
    }

    fn rol(&mut self)
        requires
            old(self).wf(),
        ensures
            final(self)@ == spec_rol(old(self)@),
            harness_same(old(self), final(self)),
            final(self).speed == old(self).speed,
    {
        let mode = decode::get_adressing_mode(self.processor.inst);
        let addr = self.get_ld_adddr(mode);
        let value: u8;
        let nb: u16;
        let nc: u64;
        if mode == ADRESSING_MODE::ACCUMULATOR {
            value = self.processor.acc;
            nb = 1;
            nc = 2;
        } else if mode == ADRESSING_MODE::ABSOLUTE || mode == ADRESSING_MODE::ABSOLUTE_X {
            value = self.data[addr as usize];
            nb = 3;
            nc = 6;
        } else {
            value = self.data[addr as usize];
            nb = 2;
            nc = 6;
        }
        let cin: u16 = if flag_c(self.processor.flags) {
            1
        } else {
            0
        };
        let result = (((value as u16) * 2 + cin) % 256) as u8;
        let f = self.processor.flags;
        self.processor.flags = flags_byte(
            value >= 128,
            result == 0,
            flag_i(f),
            flag_d(f),
            flag_b(f),
            flag_u(f),
            flag_v(f),
            result >= 128,
        );
        if mode == ADRESSING_MODE::ACCUMULATOR {
            self.processor.acc = result;
        } else {
            self.data[addr as usize] = result;
            self.writes.push((addr, result));
        }
        self.advance_pc_clock(nb, nc);
    }

    fn ror(&mut self)
        requires
            old(self).wf(),
        ensures
            final(self)@ == spec_ror(old(self)@),
            harness_same(old(self), final(self)),
            final(self).speed == old(self).speed,
    {
        let mode = decode::get_adressing_mode(self.processor.inst);
        let addr = self.get_ld_adddr(mode);
        let value: u8;
        let nb: u16;
        let nc: u64;
        if mode == ADRESSING_MODE::ACCUMULATOR {
            value = self.processor.acc;
            nb = 1;
            nc = 2;
        } else if mode == ADRESSING_MODE::ABSOLUTE || mode == ADRESSING_MODE::ABSOLUTE_X {
            value = self.data[addr as usize];
            nb = 3;
            nc = 6;
        } else {
            value = self.data[addr as usize];
            nb = 2;
            nc = 6;
        }
        let result = value / 2 + (if flag_c(self.processor.flags) {
            128u8
        } else {
            0u8
        });
        let f = self.processor.flags;
        self.processor.flags = flags_byte(
            value % 2 == 1,
            result == 0,
            flag_i(f),
            flag_d(f),
            flag_b(f),
            flag_u(f),
            flag_v(f),
            result >= 128,
        );
        if mode == ADRESSING_MODE::ACCUMULATOR {
            self.processor.acc = result;
        } else {
            self.data[addr as usize] = result;
            self.writes.push((addr, result));
        }
        self.advance_pc_clock(nb, nc);
    }

    // --- Bit test ---

    fn bit(&mut self)
        requires
            old(self).wf(),
        ensures
            final(self)@ == spec_bit(old(self)@),
            harness_same(old(self), final(self)),
            final(self).speed == old(self).speed,
    {
        let mode = decode::get_adressing_mode(self.processor.inst);
        let addr = self.get_ld_adddr(mode);
        let value = self.data[addr as usize];
        let result = self.processor.acc & value;
        let f = self.processor.flags;
        self.processor.flags = flags_byte(
            flag_c(f),
            result == 0,
            flag_i(f),
            flag_d(f),
            flag_b(f),
            flag_u(f),
            (value / 64) % 2 == 1,
            value >= 128,
        );
        if mode == ADRESSING_MODE::ABSOLUTE {
            self.advance_pc_clock(3, 4);
        } else {
            self.advance_pc_clock(2, 2);
        }
    }

    // --- Compares ---

    fn cmp(&mut self)
        requires
            old(self).wf(),
        ensures
            final(self)@ == spec_cmp(old(self)@),
            harness_same(old(self), final(self)),
            final(self).speed == old(self).speed,
    {
        let mode = decode::get_adressing_mode(self.processor.inst);
        let addr = self.get_ld_adddr(mode);
        let value = self.data[addr as usize];
        let reg = self.processor.acc;
        let diff = (((reg as u16) + 256 - (value as u16)) % 256) as u8;
        let f = self.processor.flags;
        self.processor.flags = flags_byte(
            reg >= value,
            reg == value,
            flag_i(f),
            flag_d(f),
            flag_b(f),
            flag_u(f),
            flag_v(f),
            diff >= 128,
        );
        if mode == ADRESSING_MODE::ABSOLUTE || mode == ADRESSING_MODE::ABSOLUTE_X || mode
            == ADRESSING_MODE::ABSOLUTE_Y {
            self.advance_pc_clock(3, 4);
        } else {
            self.advance_pc_clock(2, 4);
        }
    }

    fn cpx(&mut self)
        requires
            old(self).wf(),
        ensures
            final(self)@ == spec_cpx(old(self)@),
            harness_same(old(self), final(self)),
            final(self).speed == old(self).speed,
    {
        let mode = decode::get_adressing_mode(self.processor.inst);
        let addr = self.get_ld_adddr(mode);
        let value = self.data[addr as usize];
        let reg = self.processor.rx;
        let diff = (((reg as u16) + 256 - (value as u16)) % 256) as u8;
        let f = self.processor.flags;
        self.processor.flags = flags_byte(
            reg >= value,
            reg == value,
            flag_i(f),
            flag_d(f),
            flag_b(f),
            flag_u(f),
            flag_v(f),
            diff >= 128,
        );
        if mode == ADRESSING_MODE::ABSOLUTE {
            self.advance_pc_clock(3, 4);
        } else {
            self.advance_pc_clock(2, 4);
        }
    }

    fn cpy(&mut self)
        requires
            old(self).wf(),
        ensures
            final(self)@ == spec_cpy(old(self)@),
            harness_same(old(self), final(self)),
            final(self).speed == old(self).speed,
    {
        let mode = decode::get_adressing_mode(self.processor.inst);
        let addr = self.get_ld_adddr(mode);
        let value = self.data[addr as usize];
        let reg = self.processor.ry;
        let diff = (((reg as u16) + 256 - (value as u16)) % 256) as u8;
        let f = self.processor.flags;
        self.processor.flags = flags_byte(
            reg >= value,
            reg == value,
            flag_i(f),
            flag_d(f),
            flag_b(f),
            flag_u(f),
            flag_v(f),
            diff >= 128,
        );
        if mode == ADRESSING_MODE::ABSOLUTE {
            self.advance_pc_clock(3, 4);
        } else {
            self.advance_pc_clock(2, 4);
        }
    }

    // --- Bitwise logic ---

    /// The memory operand of the current accumulator-logic instruction.
    fn get_logical_op_value(&mut self) -> (r: u8)
        requires
            old(self).wf(),
        ensures
            *final(self) == *old(self),
            r == mem_at(
                old(self)@,
                spec_eff_addr(old(self)@, spec_adressing_mode(old(self)@.inst)),
            ),
    {
        let addressing_mode = decode::get_adressing_mode(self.processor.inst);
        let addr = self.get_ld_adddr(addressing_mode);
        self.data[addr as usize]
    }

    /// Advance past an accumulator-logic instruction, by its mode's size and
    /// cost.
    fn after_logical_op(&mut self)
        ensures
            final(self)@ == step_pc_clock(
                old(self)@,
                crate::state::logic_cost(spec_adressing_mode(old(self)@.inst)).0,
                crate::state::logic_cost(spec_adressing_mode(old(self)@.inst)).1,
            ),
            harness_same(old(self), final(self)),
            final(self).speed == old(self).speed,
    {
        let addressing_mode = decode::get_adressing_mode(self.processor.inst);
        if addressing_mode == ADRESSING_MODE::IMMEDIATE {
            self.advance_pc_clock(2, 2);
        } else if addressing_mode == ADRESSING_MODE::ZERO_PAGE || addressing_mode
            == ADRESSING_MODE::ZERO_PAGE_X {
            self.advance_pc_clock(2, 3);
        } else if addressing_mode == ADRESSING_MODE::INDIRECT_X || addressing_mode
            == ADRESSING_MODE::INDIRECT_Y {
            self.advance_pc_clock(2, 6);
        } else if addressing_mode == ADRESSING_MODE::ABSOLUTE || addressing_mode
            == ADRESSING_MODE::ABSOLUTE_X || addressing_mode == ADRESSING_MODE::ABSOLUTE_Y {
            self.advance_pc_clock(3, 4);
        } else {
            self.advance_pc_clock(0, 0);
        }
    }

    fn and(&mut self)
        requires
            old(self).wf(),
        ensures
            final(self)@ == spec_and(old(self)@),
            harness_same(old(self), final(self)),
            final(self).speed == old(self).speed,
    {
        let value = self.get_logical_op_value();
        let result = self.processor.acc & value;
        self.processor.flags = Computer::set_flags(self.processor.flags, result);
        self.processor.acc = result;
        self.after_logical_op();
    }

    fn eor(&mut self)
        requires
            old(self).wf(),
        ensures
            final(self)@ == spec_eor(old(self)@),
            harness_same(old(self), final(self)),
            final(self).speed == old(self).speed,
    {
        let value = self.get_logical_op_value();
        let result = self.processor.acc ^ value;
        self.processor.flags = Computer::set_flags(self.processor.flags, result);
        self.processor.acc = result;
        self.after_logical_op();
    }

    fn ora(&mut self)
        requires
            old(self).wf(),
        ensures
            final(self)@ == spec_ora(old(self)@),
            harness_same(old(self), final(self)),
            final(self).speed == old(self).speed,
    {
        let value = self.get_logical_op_value();
        let result = self.processor.acc | value;
        self.processor.flags = Computer::set_flags(self.processor.flags, result);
        self.processor.acc = result;
        self.after_logical_op();
    }

    // --- Addition and subtraction ---

    /// Binary addition of `val` with carry in: sets C, Z, V and N and
    /// returns the sum; the caller stores it.
    fn do_add(&mut self, val: u8) -> (r: u8)
        ensures
            r == spec_add_core(old(self)@, val).acc,
            final(self)@ == (MState { acc: old(self)@.acc, ..spec_add_core(old(self)@, val) }),
            harness_same(old(self), final(self)),
            final(self).speed == old(self).speed,
    {
        let acc = self.processor.acc;
        let cin: u16 = if flag_c(self.processor.flags) {
            1
        } else {
            0
        };
        let total = acc as u16 + val as u16 + cin;
        let sum = (total % 256) as u8;
        let f = self.processor.flags;
        self.processor.flags = flags_byte(
            total >= 256,
            sum == 0,
            flag_i(f),
            flag_d(f),
            true,
            true,
            overflow_bit(acc, val, sum),
            sum >= 128,
        );
        sum
    }

    fn adc(&mut self)
        requires
            old(self).wf(),
        ensures
            final(self)@ == spec_adc(old(self)@),
            harness_same(old(self), final(self)),
            final(self).speed == old(self).speed,
    {
        let addressing_mode = decode::get_adressing_mode(self.processor.inst);
        let addr = self.get_ld_adddr(addressing_mode);
        let val = self.data[addr as usize];
        if flag_d(self.processor.flags) {
            let a = self.processor.acc as u32;
            let v = val as u32;
            let cin: u32 = if flag_c(self.processor.flags) {
                1
            } else {
                0
            };
            let ln0 = a % 16 + v % 16 + cin;
            let ln = if ln0 > 9 {
                16 + (ln0 + 6) % 16
            } else {
                ln0
            };
            let t = (a / 16) * 16 + (v / 16) * 16 + ln;
            let c_out = t >= 160;
            let t2 = if c_out {
                t + 0x60
            } else {
                t
            };
            let result = (t2 % 256) as u8;
            let bin = ((a + v + cin) % 256) as u8;
            let f = self.processor.flags;
            self.processor.flags = flags_byte(
                c_out,
                bin == 0,
                flag_i(f),
                flag_d(f),
                true,
                true,
                overflow_bit(self.processor.acc, val, bin),
                bin >= 128,
            );
            self.processor.acc = result;
        } else {
            let sum = self.do_add(val);
            self.processor.acc = sum;
        }
        self.after_logical_op();
    }

    #[verifier::rlimit(100)]
    fn sbc(&mut self)
        requires
            old(self).wf(),
        ensures
            final(self)@ == spec_sbc(old(self)@),
            harness_same(old(self), final(self)),
            final(self).speed == old(self).speed,
    {
        let addressing_mode = decode::get_adressing_mode(self.processor.inst);
        let addr = self.get_ld_adddr(addressing_mode);
        let val = self.data[addr as usize];
        let inv = 255 - val;
        if flag_d(self.processor.flags) {
            let a = self.processor.acc as i32;
            let v = val as i32;
            let cin: i32 = if flag_c(self.processor.flags) {
                1
            } else {
                0
            };
            let lo0 = 0xf + a % 16 - v % 16 + cin;
            let w0: i32;
            let lo: i32;
            if lo0 < 0x10 {
                w0 = 0;
                lo = lo0 - 6;
            } else {
                w0 = 0x10;
                lo = lo0 - 0x10;
            }
            let w1 = w0 + 0xf0 + (a / 16) * 16 - (v / 16) * 16;
            let c_out = w1 >= 0x100;
            let w2 = if c_out {
                w1
            } else {
                w1 - 0x60
            };
            let result = ((w2 + lo + 0x200) % 256) as u8;
            let bin = ((a + inv as i32 + cin) % 256) as u8;
            let f = self.processor.flags;
            self.processor.flags = flags_byte(
                c_out,
                bin == 0,
                flag_i(f),
                flag_d(f),
                true,
                true,
                overflow_bit(self.processor.acc, inv, bin),
                bin >= 128,
            );
            self.processor.acc = result;
        } else {
            let sum = self.do_add(inv);
            self.processor.acc = sum;
        }
        self.after_logical_op();
    }

    // --- Branches ---

    /// Take or skip a relative branch on an already-evaluated condition.
    fn branch_on(&mut self, cond: bool)
        requires
            old(self).wf(),
        ensures
            final(self)@ == spec_branch(old(self)@, cond),
            harness_same(old(self), final(self)),
            final(self).speed == old(self).speed,
    {
        let off = self.data[w16_add(self.processor.pc, 1) as usize];
        let pc = self.processor.pc;
        let new_addr: u16;
        if cond {
            if off >= 128 {
                new_addr = (((pc as u32) + 2 + (off as u32) + 0xff00) % 0x10000) as u16;
            } else {
                new_addr = (((pc as u32) + 2 + (off as u32)) % 0x10000) as u16;
            }
        } else {
            new_addr = w16_add(pc, 2);
        }
        self.processor.clock = w64_add(self.processor.clock, if cond {
            3
        } else {
            2
        });
        self.processor.pc = new_addr;
    }

    fn bne(&mut self)
        requires
            old(self).wf(),
        ensures
            final(self)@ == spec_branch(old(self)@, !spec_flag_z(old(self)@.flags)),
            harness_same(old(self), final(self)),
            final(self).speed == old(self).speed,
    {
        let cond = !flag_z(self.processor.flags);
        self.branch_on(cond);
    }

    fn beq(&mut self)
        requires
            old(self).wf(),
        ensures
            final(self)@ == spec_branch(old(self)@, spec_flag_z(old(self)@.flags)),
            harness_same(old(self), final(self)),
            final(self).speed == old(self).speed,
    {
        let cond = flag_z(self.processor.flags);
        self.branch_on(cond);
    }

    fn bcc(&mut self)
        requires
            old(self).wf(),
        ensures
            final(self)@ == spec_branch(old(self)@, !spec_flag_c(old(self)@.flags)),
            harness_same(old(self), final(self)),
            final(self).speed == old(self).speed,
    {
        let cond = !flag_c(self.processor.flags);
        self.branch_on(cond);
    }

    fn bcs(&mut self)
        requires
            old(self).wf(),
        ensures
            final(self)@ == spec_branch(old(self)@, spec_flag_c(old(self)@.flags)),
            harness_same(old(self), final(self)),
            final(self).speed == old(self).speed,
    {
        let cond = flag_c(self.processor.flags);
        self.branch_on(cond);
    }

    fn bvc(&mut self)
        requires
            old(self).wf(),
        ensures
            final(self)@ == spec_branch(old(self)@, !spec_flag_v(old(self)@.flags)),
            harness_same(old(self), final(self)),
            final(self).speed == old(self).speed,
    {
        let cond = !flag_v(self.processor.flags);
        self.branch_on(cond);
    }

    fn bvs(&mut self)
        requires
            old(self).wf(),
        ensures
            final(self)@ == spec_branch(old(self)@, spec_flag_v(old(self)@.flags)),
            harness_same(old(self), final(self)),
            final(self).speed == old(self).speed,
    {
        let cond = flag_v(self.processor.flags);
        self.branch_on(cond);
    }

    fn bpl(&mut self)
        requires
            old(self).wf(),
        ensures
            final(self)@ == spec_branch(old(self)@, !spec_flag_n(old(self)@.flags)),
            harness_same(old(self), final(self)),
            final(self).speed == old(self).speed,
    {
        let cond = !flag_n(self.processor.flags);
        self.branch_on(cond);
    }

    fn bmi(&mut self)
        requires
            old(self).wf(),
        ensures
            final(self)@ == spec_branch(old(self)@, spec_flag_n(old(self)@.flags)),
            harness_same(old(self), final(self)),
            final(self).speed == old(self).speed,
    {
        let cond = flag_n(self.processor.flags);
        self.branch_on(cond);
    }

    // --- Jumps, subroutines and interrupts ---

    fn jmp(&mut self)
        requires
            old(self).wf(),
        ensures
            final(self)@ == spec_jmp(old(self)@),
            harness_same(old(self), final(self)),
            final(self).speed == old(self).speed,
    {
        let addressing_mode = decode::get_adressing_mode(self.processor.inst);
        let value: u16;
        let nc: u64;
        if addressing_mode == ADRESSING_MODE::INDIRECT {
            let start = w16_add(self.processor.pc, 1);
            let addr = self.get_word(start);
            value = self.get_word(addr);
            nc = 5;
        } else {
            let start = w16_add(self.processor.pc, 1);
            value = self.get_word(start);
            nc = 3;
        }
        self.processor.pc = value;
        self.processor.clock = w64_add(self.processor.clock, nc);
    }

    fn jsr(&mut self)
        requires
            old(self).wf(),
        ensures
            final(self)@ == spec_jsr(old(self)@),
            harness_same(old(self), final(self)),
            final(self).speed == old(self).speed,
    {
        let sp_a = stk(self.processor.sp);
        let sp1_a = stk(w8_add(self.processor.sp, 255));
        let ret = w16_add(self.processor.pc, 2);
        self.data[sp_a as usize] = (ret / 256) as u8;
        self.data[sp1_a as usize] = (ret % 256) as u8;
        let start = w16_add(self.processor.pc, 1);
        let addr = self.get_word(start);
        self.processor.sp = w8_add(self.processor.sp, 254);
        self.processor.pc = addr;
        self.processor.clock = w64_add(self.processor.clock, 6);
    }

    fn rts(&mut self)
        requires
            old(self).wf(),
        ensures
            final(self)@ == spec_rts(old(self)@),
            harness_same(old(self), final(self)),
            final(self).speed == old(self).speed,
    {
        let sp1 = w8_add(self.processor.sp, 1);
        let sp2 = w8_add(self.processor.sp, 2);
        let lo = self.data[stk(sp1) as usize];
        let hi = self.data[stk(sp2) as usize];
        self.processor.sp = sp2;
        self.processor.pc = (((lo as u32) + (hi as u32) * 256 + 1) % 0x10000) as u16;
        self.processor.clock = w64_add(self.processor.clock, 6);
    }

    fn brk(&mut self)
        requires
            old(self).wf(),
        ensures
            final(self)@ == spec_brk(old(self)@),
            harness_same(old(self), final(self)),
            final(self).speed == old(self).speed,
    {
        let sp_a = stk(self.processor.sp);
        let sp1_a = stk(w8_add(self.processor.sp, 255));
        let sp2_a = stk(w8_add(self.processor.sp, 254));
        let ret = w16_add(self.processor.pc, 2);
        let f = self.processor.flags;
        let pushed = flags_byte(
            flag_c(f),
            flag_z(f),
            flag_i(f),
            flag_d(f),
            true,
            true,
            flag_v(f),
            flag_n(f),
        );
        self.data[sp_a as usize] = (ret / 256) as u8;
        self.data[sp1_a as usize] = (ret % 256) as u8;
        self.data[sp2_a as usize] = pushed;
        self.processor.flags = flags_byte(
            flag_c(f),
            flag_z(f),
            true,
            flag_d(f),
            flag_b(f),
            flag_u(f),
            flag_v(f),
            flag_n(f),
        );
        self.processor.sp = w8_add(self.processor.sp, 253);
        let new_addr = self.get_word(0xfffe);
        self.processor.pc = new_addr;
        self.processor.clock = w64_add(self.processor.clock, 7);
    }

    fn rti(&mut self)
        requires
            old(self).wf(),
        ensures
            final(self)@ == spec_rti(old(self)@),
            harness_same(old(self), final(self)),
            final(self).speed == old(self).speed,
    {
        let sp1 = w8_add(self.processor.sp, 1);
        let sp2 = w8_add(self.processor.sp, 2);
        let sp3 = w8_add(self.processor.sp, 3);
        let fb = self.data[stk(sp1) as usize];
        let lo = self.data[stk(sp2) as usize];
        let hi = self.data[stk(sp3) as usize];
        self.processor.flags = flags_byte(
            flag_c(fb),
            flag_z(fb),
            flag_i(fb),
            flag_d(fb),
            flag_b(fb),
            true,
            flag_v(fb),
            flag_n(fb),
        );
        self.processor.sp = sp3;
        self.processor.pc = lo as u16 + (hi as u16) * 256;
        self.processor.clock = w64_add(self.processor.clock, 6);
    }

    // --- Stack pushes and pulls ---

    fn pha(&mut self)
        requires
            old(self).wf(),
        ensures
            final(self)@ == spec_pha(old(self)@),
            harness_same(old(self), final(self)),
            final(self).speed == old(self).speed,
    {
        let addr = stk(self.processor.sp);
        let v = self.processor.acc;
        self.data[addr as usize] = v;
        self.writes.push((addr, v));
        self.processor.sp = w8_add(self.processor.sp, 255);
        self.advance_pc_clock(1, 3);
    }

    fn php(&mut self)
        requires
            old(self).wf(),
        ensures
            final(self)@ == spec_php(old(self)@),
            harness_same(old(self), final(self)),
            final(self).speed == old(self).speed,
    {
        let addr = stk(self.processor.sp);
        let f = self.processor.flags;
        let pushed = flags_byte(
            flag_c(f),
            flag_z(f),
            flag_i(f),
            flag_d(f),
            true,
            true,
            flag_v(f),
            flag_n(f),
        );
        self.data[addr as usize] = pushed;
        self.writes.push((addr, pushed));
        self.processor.sp = w8_add(self.processor.sp, 255);
        self.advance_pc_clock(1, 3);
    }

    fn pla(&mut self)
        requires
            old(self).wf(),
        ensures
            final(self)@ == spec_pla(old(self)@),
            harness_same(old(self), final(self)),
            final(self).speed == old(self).speed,
    {
        let sp1 = w8_add(self.processor.sp, 1);
        self.processor.sp = sp1;
        let v = self.data[stk(sp1) as usize];
        self.processor.acc = v;
        self.processor.flags = Computer::set_flags(self.processor.flags, v);
        self.advance_pc_clock(1, 4);
    }

    fn plp(&mut self)
        requires
            old(self).wf(),
        ensures
            final(self)@ == spec_plp(old(self)@),
            harness_same(old(self), final(self)),
            final(self).speed == old(self).speed,
    {
        let sp1 = w8_add(self.processor.sp, 1);
        self.processor.sp = sp1;
        let fb = self.data[stk(sp1) as usize];
        self.processor.flags = flags_byte(
            flag_c(fb),
            flag_z(fb),
            flag_i(fb),
            flag_d(fb),
            flag_b(fb),
            true,
            flag_v(fb),
            flag_n(fb),
        );
        self.advance_pc_clock(1, 4);
    }

    // --- Flag instructions ---

    fn clc(&mut self)
        ensures
            final(self)@ == spec_clc(old(self)@),
            harness_same(old(self), final(self)),
            final(self).speed == old(self).speed,
    {
        let f = self.processor.flags;
        self.processor.flags = flags_byte(
            false,
            flag_z(f),
            flag_i(f),
            flag_d(f),
            flag_b(f),
            flag_u(f),
            flag_v(f),
            flag_n(f),
        );
        self.advance_pc_clock(1, 2);
    }

    fn sec(&mut self)
        ensures
            final(self)@ == spec_sec(old(self)@),
            harness_same(old(self), final(self)),
            final(self).speed == old(self).speed,
    {
        let f = self.processor.flags;
        self.processor.flags = flags_byte(
            true,
            flag_z(f),
            flag_i(f),
            flag_d(f),
            flag_b(f),
            flag_u(f),
            flag_v(f),
            flag_n(f),
        );
        self.advance_pc_clock(1, 2);
    }

    fn cli(&mut self)
        ensures
            final(self)@ == spec_cli(old(self)@),
            harness_same(old(self), final(self)),
            final(self).speed == old(self).speed,
    {
        let f = self.processor.flags;
        self.processor.flags = flags_byte(
            flag_c(f),
            flag_z(f),
            false,
            flag_d(f),
            flag_b(f),
            flag_u(f),
            flag_v(f),
            flag_n(f),
        );
        self.advance_pc_clock(1, 2);
    }

    fn sei(&mut self)
        ensures
            final(self)@ == spec_sei(old(self)@),
            harness_same(old(self), final(self)),
            final(self).speed == old(self).speed,
    {
        let f = self.processor.flags;
        self.processor.flags = flags_byte(
            flag_c(f),
            flag_z(f),
            true,
            flag_d(f),
            flag_b(f),
            flag_u(f),
            flag_v(f),
            flag_n(f),
        );
        self.advance_pc_clock(1, 2);
    }

    fn cld(&mut self)
        ensures
            final(self)@ == spec_cld(old(self)@),
            harness_same(old(self), final(self)),
            final(self).speed == old(self).speed,
    {
        let f = self.processor.flags;
        self.processor.flags = flags_byte(
            flag_c(f),
            flag_z(f),
            flag_i(f),
            false,
            flag_b(f),
            flag_u(f),
            flag_v(f),
            flag_n(f),
        );
        self.advance_pc_clock(1, 2);
    }

    fn sed(&mut self)
        ensures
            final(self)@ == spec_sed(old(self)@),
            harness_same(old(self), final(self)),
            final(self).speed == old(self).speed,
    {
        let f = self.processor.flags;
        self.processor.flags = flags_byte(
            flag_c(f),
            flag_z(f),
            flag_i(f),
            true,
            flag_b(f),
            flag_u(f),
            flag_v(f),
            flag_n(f),
        );
        self.advance_pc_clock(1, 2);
    }

    fn clv(&mut self)
        ensures
            final(self)@ == spec_clv(old(self)@),
            harness_same(old(self), final(self)),
            final(self).speed == old(self).speed,
    {
        let f = self.processor.flags;
        self.processor.flags = flags_byte(
            flag_c(f),
            flag_z(f),
            flag_i(f),
            flag_d(f),
            flag_b(f),
            flag_u(f),
            false,
            flag_n(f),
        );
        self.advance_pc_clock(1, 2);
    }

    /// `NOP` advances past itself. An opcode outside the documented set runs
    /// as `NOP` and drops the throttle to one instruction per second.
    fn nop(&mut self)
        ensures
            final(self)@ == spec_nop(old(self)@),
            harness_same(old(self), final(self)),
            final(self).speed == (if old(self).processor.inst != 0xea {
                1000u64
            } else {
                old(self).speed
            }),
    {
        if self.processor.inst != 0xea {
            self.speed = 1000;
        }
        self.advance_pc_clock(1, 2);
    }

    /// One fetch-decode-execute step: read the opcode under the program
    /// counter, decode it, and run it. Total: every opcode byte executes,
    /// one outside the documented set as `NOP`.
    pub fn run_instruction(&mut self)
        requires
            old(self).wf(),
        ensures
            final(self)@ == spec_step(old(self)@),
            final(self).wf(),
            harness_same(old(self), final(self)),
            final(self).speed == spec_speed_after(old(self)@, old(self).speed),
    {
        let inst = self.data[self.processor.pc as usize];
        self.processor.inst = inst;
        match decode::decode_op(inst) {
            Some(m) => match m {
                Mnemonic::ADC => self.adc(),
                Mnemonic::AND => self.and(),
                Mnemonic::ASL => self.asl(),
                Mnemonic::BCC => self.bcc(),
                Mnemonic::BCS => self.bcs(),
                Mnemonic::BEQ => self.beq(),
                Mnemonic::BIT => self.bit(),
                Mnemonic::BMI => self.bmi(),
                Mnemonic::BNE => self.bne(),
                Mnemonic::BPL => self.bpl(),
                Mnemonic::BRK => self.brk(),
                Mnemonic::BVC => self.bvc(),
                Mnemonic::BVS => self.bvs(),
                Mnemonic::CLC => self.clc(),
                Mnemonic::CLD => self.cld(),
                Mnemonic::CLI => self.cli(),
                Mnemonic::CLV => self.clv(),
                Mnemonic::CMP => self.cmp(),
                Mnemonic::CPX => self.cpx(),
                Mnemonic::CPY => self.cpy(),
                Mnemonic::DEC => self.dec(),
                Mnemonic::DEX => self.dex(),
                Mnemonic::DEY => self.dey(),
                Mnemonic::EOR => self.eor(),
                Mnemonic::INC => self.inc(),
                Mnemonic::INX => self.inx(),
                Mnemonic::INY => self.iny(),
                Mnemonic::JMP => self.jmp(),
                Mnemonic::JSR => self.jsr(),
                Mnemonic::LDA => self.lda(),
                Mnemonic::LDX => self.ldx(),
                Mnemonic::LDY => self.ldy(),
                Mnemonic::LSR => self.lsr(),
                Mnemonic::NOP => self.nop(),
                Mnemonic::ORA => self.ora(),
                Mnemonic::PHA => self.pha(),
                Mnemonic::PHP => self.php(),
                Mnemonic::PLA => self.pla(),
                Mnemonic::PLP => self.plp(),
                Mnemonic::ROL => self.rol(),
                Mnemonic::ROR => self.ror(),
                Mnemonic::RTI => self.rti(),
                Mnemonic::RTS => self.rts(),
                Mnemonic::SBC => self.sbc(),
                Mnemonic::SEC => self.sec(),
                Mnemonic::SED => self.sed(),
                Mnemonic::SEI => self.sei(),
                Mnemonic::STA => self.sta(),
                Mnemonic::STX => self.stx(),
                Mnemonic::STY => self.sty(),
                Mnemonic::TAX => self.tax(),
                Mnemonic::TAY => self.tay(),
                Mnemonic::TSX => self.tsx(),
                Mnemonic::TXA => self.txa(),
                Mnemonic::TXS => self.txs(),
                Mnemonic::TYA => self.tya(),
            },
            None => self.nop(),
        }
    }

    /// A machine at reset: the image loaded from offset 0 into 64 KiB of
    /// memory (padded with zeroes, truncated beyond), registers clear,
    /// B and U set in P, paused, with an empty trace.
    ///
    /// By convention this machine starts executing at 0x0400; it does not
    /// consult the hardware reset vector at 0xFFFC.
    pub fn new(data: Vec<u8>) -> (c: Computer)
        ensures
            c.wf(),
            c@.mem == Seq::new(
                0x10000,
                |i: int|
                    if i < data@.len() {
                        data@[i]
                    } else {
                        0u8
                    },
            ),
            c@.acc == 0,
            c@.x == 0,
            c@.y == 0,
            c@.flags == 0x30,
            c@.pc == 0x400,
            c@.sp == 0,
            c@.clock == 0,
            c@.inst == 0xea,
            c@.writes == Seq::<(u16, u8)>::empty(),
            c.paused,
            c.start,
            !c.step,
            c.speed == 0,
            c.processor.info@ == Seq::<Info>::empty(),
            c.processor.test@ == Seq::<u8>::empty(),
    {
        let ghost orig = data@;
        let mut mem = data;
        if mem.len() > 0x10000 {
            mem.truncate(0x10000);
        }
        while mem.len() < 0x10000
            invariant
                mem@.len() <= 0x10000,
                orig.len() <= mem@.len() || mem@.len() == 0x10000,
                forall|i: int|
                    0 <= i < mem@.len() ==> mem@[i] == (if i < orig.len() {
                        orig[i]
                    } else {
                        0u8
                    }),
            decreases 0x10000 - mem@.len(),
        {
            mem.push(0);
        }
        proof {
            assert(mem@ =~= Seq::new(
                0x10000,
                |i: int|
                    if i < orig.len() {
                        orig[i]
                    } else {
                        0u8
                    },
            ));
        }
        Computer {
            data: mem,
            paused: true,
            start: true,
            step: false,
            speed: 0,
            writes: Vec::new(),
            processor: Processor {
                flags: 0x30,
                acc: 0,
                rx: 0,
                ry: 0,
                pc: 0x400,
                sp: 0,
                test: Vec::new(),
                info: Vec::new(),
                clock: 0,
                inst: 0xea,
            },
        }
    }

    /// Apply one control button: "faster" and "slower" move the throttle,
    /// "pause" toggles the paused state, "step" latches a single step; any
    /// other label does nothing.
    pub fn handle_button(&mut self, btn: &str)
        ensures
            final(self).processor == old(self).processor,
            final(self).data == old(self).data,
            final(self).writes == old(self).writes,
            final(self).start == old(self).start,
            btn@ == "faster"@ ==> (final(self).speed == spec_faster(old(self).speed)
                && final(self).paused == old(self).paused && final(self).step == old(self).step),
            btn@ == "slower"@ ==> (final(self).speed == spec_slower(old(self).speed)
                && final(self).paused == old(self).paused && final(self).step == old(self).step),
            btn@ == "pause"@ ==> (final(self).paused == !old(self).paused && final(self).speed
                == old(self).speed && final(self).step == old(self).step),
            btn@ == "step"@ ==> (final(self).step && final(self).speed == old(self).speed
                && final(self).paused == old(self).paused),
            (btn@ != "faster"@ && btn@ != "slower"@ && btn@ != "pause"@ && btn@ != "step"@)
                ==> *final(self) == *old(self),
    {
        proof {
            broadcast use vstd::string::group_string_axioms;

            reveal_strlit("faster");
            reveal_strlit("slower");
            reveal_strlit("pause");
            reveal_strlit("step");
            assert("faster"@.len() == 6);
            assert("pause"@.len() == 5);
            assert("slower"@.len() == 6);
            assert("step"@.len() == 4);
            assert("faster"@[0] == 'f');
            assert("slower"@[0] == 's');
            assert("faster"@ != "slower"@);
            assert("faster"@ != "pause"@);
            assert("faster"@ != "step"@);
            assert("slower"@ != "pause"@);
            assert("slower"@ != "step"@);
            assert("pause"@ != "step"@);
        }
        if str_eq(btn, "faster") && self.speed > 0 {
            if self.speed >= 4 {
                self.speed = self.speed / 2;
            } else {
                self.speed = self.speed - 1;
            }
        } else if str_eq(btn, "slower") && self.speed <= 10000 {
            if self.speed >= 2 {
                self.speed = self.speed * 2;
            } else {
                self.speed = self.speed + 2;
            }
        } else if str_eq(btn, "pause") {
            self.paused = !self.paused;
        } else if str_eq(btn, "step") {
            self.step = true;
        }
    }

    /// One turn of the execution loop, between suspensions: while paused
    /// without a latched step nothing runs and the caller should idle for
    /// the returned number of milliseconds; otherwise one instruction runs,
    /// consuming any latched step, and the returned throttle says how long
    /// to rest before the next turn (zero: none).
    pub fn advance(&mut self) -> (r: u64)
        requires
            old(self).wf(),
        ensures
            final(self).wf(),
            old(self).paused && !old(self).step ==> (*final(self) == *old(self) && r == 100),
            !(old(self).paused && !old(self).step) ==> (final(self)@ == spec_step(old(self)@)
                && final(self).paused == old(self).paused && final(self).start == old(self).start
                && !final(self).step && final(self).processor.info == old(self).processor.info
                && final(self).processor.test == old(self).processor.test && final(self).speed
                == spec_speed_after(old(self)@, old(self).speed) && r == final(self).speed),
    {
        if self.paused && !self.step {
            return 100;
        }
        self.step = false;
        self.run_instruction();
        self.speed
    }

    /// Assemble the observer snapshot: cap the trace at its 30 newest
    /// entries, refresh the watched memory window, and hand out a copy of
    /// the processor, the stack page, and the output window.
    pub fn snapshot(&mut self) -> (r: (Processor, Vec<u8>, Vec<u8>))
        requires
            old(self).wf(),
        ensures
            final(self).wf(),
            final(self)@ == old(self)@,
            final(self).paused == old(self).paused,
            final(self).step == old(self).step,
            final(self).speed == old(self).speed,
            !final(self).start,
            final(self).processor.test@ == old(self)@.mem.subrange(0x200, 0x220),
            final(self).processor.info@ == (if old(self).processor.info@.len() > 30 {
                old(self).processor.info@.subrange(
                    old(self).processor.info@.len() - 30,
                    old(self).processor.info@.len() as int,
                )
            } else {
                old(self).processor.info@
            }),
            r.0.flags == old(self)@.flags,
            r.0.acc == old(self)@.acc,
            r.0.rx == old(self)@.x,
            r.0.ry == old(self)@.y,
            r.0.pc == old(self)@.pc,
            r.0.sp == old(self)@.sp,
            r.0.clock == old(self)@.clock,
            r.0.inst == old(self)@.inst,
            r.0.test@ == old(self)@.mem.subrange(0x200, 0x220),
            r.0.info@.len() == final(self).processor.info@.len(),
            forall|i: int|
                0 <= i < r.0.info@.len() ==> r.0.info@[i].msg@
                    == final(self).processor.info@[i].msg@ && r.0.info@[i].qty
                    == final(self).processor.info@[i].qty,
            r.1@ == old(self)@.mem.subrange(0x100, 0x200),
            r.2@ == old(self)@.mem.subrange(0xf000, 0xf100),
    {
        self.start = false;
        let l = self.processor.info.len();
        if l > 30 {
            let tail = self.processor.info.split_off(l - 30);
            self.processor.info = tail;
        }
        self.processor.test = copy_range(&self.data, 0x200, 0x220);
        let proc_copy = Processor {
            flags: self.processor.flags,
            acc: self.processor.acc,
            rx: self.processor.rx,
            ry: self.processor.ry,
            pc: self.processor.pc,
            sp: self.processor.sp,
            test: copy_range(&self.data, 0x200, 0x220),
            info: clone_infos(&self.processor.info),
            clock: self.processor.clock,
            inst: self.processor.inst,
        };
        let stack = copy_range(&self.data, 0x100, 0x200);
        let output = copy_range(&self.data, 0xf000, 0xf100);
        (proc_copy, stack, output)
    }

    /// Append a message to the instruction trace, folding a repeat of the
    /// newest entry into its count; a repeat also pauses the machine.
    pub fn add_info(&mut self, info: String)
        requires
            old(self).processor.info@.len() > 0 && old(self).processor.info@.last().msg@
                == info@ ==> old(self).processor.info@.last().qty < u64::MAX,
        ensures
            final(self).processor.info@ == spec_info_after(old(self).processor.info@, info),
            final(self).data == old(self).data,
            final(self).writes == old(self).writes,
            final(self).processor.flags == old(self).processor.flags,
            final(self).processor.acc == old(self).processor.acc,
            final(self).processor.rx == old(self).processor.rx,
            final(self).processor.ry == old(self).processor.ry,
            final(self).processor.pc == old(self).processor.pc,
            final(self).processor.sp == old(self).processor.sp,
            final(self).processor.clock == old(self).processor.clock,
            final(self).processor.inst == old(self).processor.inst,
            final(self).processor.test == old(self).processor.test,
            final(self).step == old(self).step,
            final(self).start == old(self).start,
            final(self).speed == old(self).speed,
            final(self).paused == (if old(self).processor.info@.len() > 0
                && old(self).processor.info@.last().msg@ == info@ {
                true
            } else {
                old(self).paused
            }),
    {
        let len = self.processor.info.len();
        if len > 0 && str_eq(self.processor.info[len - 1].msg.as_str(), info.as_str()) {
            let last_element = match self.processor.info.pop() {
                Some(e) => e,
                None => Info { msg: String::new(), qty: 0 },
            };
            self.processor.info.push(Info { msg: info, qty: last_element.qty + 1 });
            self.paused = true;
        } else {
            self.processor.info.push(Info { msg: info, qty: 1 });
        }
    }
}

} // verus!
