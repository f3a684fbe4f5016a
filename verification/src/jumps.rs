//! Control-flow instructions: absolute and relative jumps, calls, restarts
//! and returns, each with its documented cycle cost.
#![allow(non_snake_case)]

use vstd::prelude::*;
use crate::cpu::CPU;
use crate::registers::{Flags, Registers};
use crate::alu::{sign8, wrap16, lemma_wrap16_add};
use crate::mmu::{MmuV, mmu_wf, spec_read_b, spec_read_w, spec_write_w, lemma_wram_word_round_trip};

verus! {

/// Cycle cost of an unconditional JP nn.
pub const JP_CYCLES: u32 = 16;

/// Cycle cost of JP (HL).
pub const JP_HL_CYCLES: u32 = 4;

/// Cycle cost of an unconditional JR n.
pub const JR_CYCLES: u32 = 12;

/// Cycle cost of an unconditional CALL nn.
pub const CALL_CYCLES: u32 = 24;

/// Cycle cost of RET and RETI.
pub const RET_CYCLES: u32 = 16;

/// Cycle cost of a conditional JP when the jump is taken.
pub const JP_CC_CYCLES_TAKEN: u32 = 16;

/// Cycle cost of a conditional JP when the condition fails.
pub const JP_CC_CYCLES_SKIPPED: u32 = 12;

/// Cycle cost of a conditional JR when the jump is taken.
pub const JR_CC_CYCLES_TAKEN: u32 = 12;

/// Cycle cost of a conditional JR when the condition fails.
pub const JR_CC_CYCLES_SKIPPED: u32 = 8;

/// Cycle cost of a conditional CALL when the call is taken.
pub const CALL_CC_CYCLES_TAKEN: u32 = 24;

/// Cycle cost of a conditional CALL when the condition fails.
pub const CALL_CC_CYCLES_SKIPPED: u32 = 12;

/// Cycle cost of a conditional RET when the return is taken.
pub const RET_CC_CYCLES_TAKEN: u32 = 20;

/// Cycle cost of a conditional RET when the condition fails.
pub const RET_CC_CYCLES_SKIPPED: u32 = 8;

/// The destination of a relative jump whose two-byte instruction starts at
/// `x`: the offset is measured from the byte after the instruction.
pub open spec fn jr_dest(x: u16, n: u8) -> u16 {
    wrap16(x + 2 + sign8(n))
}

/// Handlers run with PC already advanced past the opcode byte, so the
/// two-byte relative-jump instruction itself starts one byte below PC.
pub open spec fn jr_result(c: CPU) -> u16 {
    jr_dest(wrap16(c.reg.pc - 1), spec_read_b(c.mem@, c.reg.pc))
}

/// Where a conditional relative jump falls through: just past its operand.
pub open spec fn jr_fallthrough(c: CPU) -> u16 {
    wrap16(c.reg.pc + 1)
}

/// The immediate operand of a jump or call, read at PC.
pub open spec fn imm16(c: CPU) -> u16 {
    spec_read_w(c.mem@, c.reg.pc)
}

/// Where a conditional absolute jump or call falls through: just past its
/// two operand bytes, which are consumed either way.
pub open spec fn imm16_fallthrough(c: CPU) -> u16 {
    wrap16(c.reg.pc + 2)
}

// 'JP nn' C3
pub fn JP_nn(cpu: &mut CPU)
    requires
        old(cpu).wf(),
    ensures
        final(cpu).wf(),
        *final(cpu) == old(cpu).with_reg(old(cpu).reg.with_pc(imm16(*old(cpu)))).with_t(JP_CYCLES),
{
    let addr = cpu.get_immediate16();
    cpu.jump(addr);
    cpu.t_cycles = JP_CYCLES;
}

// 'JP NZ,nn' C2
pub fn JP_NZ_nn(cpu: &mut CPU)
    requires
        old(cpu).wf(),
    ensures
        final(cpu).wf(),
        !old(cpu).reg.zf ==> *final(cpu) == old(cpu).with_reg(
            old(cpu).reg.with_pc(imm16(*old(cpu)))).with_t(JP_CC_CYCLES_TAKEN),
        old(cpu).reg.zf ==> *final(cpu) == old(cpu).with_reg(
            old(cpu).reg.with_pc(imm16_fallthrough(*old(cpu)))).with_t(JP_CC_CYCLES_SKIPPED),
{
    let addr = cpu.get_immediate16();
    if !cpu.reg.is_set(Flags::Zero) {
        cpu.jump(addr);
        cpu.t_cycles = JP_CC_CYCLES_TAKEN;
    } else {
        cpu.t_cycles = JP_CC_CYCLES_SKIPPED;
    }
}

// 'JP Z,nn' CA
pub fn JP_Z_nn(cpu: &mut CPU)
    requires
        old(cpu).wf(),
    ensures
        final(cpu).wf(),
        old(cpu).reg.zf ==> *final(cpu) == old(cpu).with_reg(
            old(cpu).reg.with_pc(imm16(*old(cpu)))).with_t(JP_CC_CYCLES_TAKEN),
        !old(cpu).reg.zf ==> *final(cpu) == old(cpu).with_reg(
            old(cpu).reg.with_pc(imm16_fallthrough(*old(cpu)))).with_t(JP_CC_CYCLES_SKIPPED),
{
    let addr = cpu.get_immediate16();
    if cpu.reg.is_set(Flags::Zero) {
        cpu.jump(addr);
        cpu.t_cycles = JP_CC_CYCLES_TAKEN;
    } else {
        cpu.t_cycles = JP_CC_CYCLES_SKIPPED;
    }
}

// 'JP NC,nn' D2
pub fn JP_NC_nn(cpu: &mut CPU)
    requires
        old(cpu).wf(),
    ensures
        final(cpu).wf(),
        !old(cpu).reg.cf ==> *final(cpu) == old(cpu).with_reg(
            old(cpu).reg.with_pc(imm16(*old(cpu)))).with_t(JP_CC_CYCLES_TAKEN),
        old(cpu).reg.cf ==> *final(cpu) == old(cpu).with_reg(
            old(cpu).reg.with_pc(imm16_fallthrough(*old(cpu)))).with_t(JP_CC_CYCLES_SKIPPED),
{
    let addr = cpu.get_immediate16();
    if !cpu.reg.is_set(Flags::Carry) {
        cpu.jump(addr);
        cpu.t_cycles = JP_CC_CYCLES_TAKEN;
    } else {
        cpu.t_cycles = JP_CC_CYCLES_SKIPPED;
    }
}

// 'JP C,nn' DA
pub fn JP_C_nn(cpu: &mut CPU)
    requires
        old(cpu).wf(),
    ensures
        final(cpu).wf(),
        old(cpu).reg.cf ==> *final(cpu) == old(cpu).with_reg(
            old(cpu).reg.with_pc(imm16(*old(cpu)))).with_t(JP_CC_CYCLES_TAKEN),
        !old(cpu).reg.cf ==> *final(cpu) == old(cpu).with_reg(
            old(cpu).reg.with_pc(imm16_fallthrough(*old(cpu)))).with_t(JP_CC_CYCLES_SKIPPED),
{
    let addr = cpu.get_immediate16();
    if cpu.reg.is_set(Flags::Carry) {
        cpu.jump(addr);
        cpu.t_cycles = JP_CC_CYCLES_TAKEN;
    } else {
        cpu.t_cycles = JP_CC_CYCLES_SKIPPED;
    }
}

// 'JP (HL)' E9
pub fn JP_HL(cpu: &mut CPU)
    requires
        old(cpu).wf(),
    ensures
        final(cpu).wf(),
        *final(cpu) == old(cpu).with_reg(old(cpu).reg.with_pc(old(cpu).reg.hl())).with_t(JP_HL_CYCLES),
{
    let addr = cpu.reg.get_hl();
    cpu.jump(addr);
    cpu.t_cycles = JP_HL_CYCLES;
}

// 'JR n' 18
pub fn JR_n(cpu: &mut CPU)
    requires
        old(cpu).wf(),
    ensures
        final(cpu).wf(),
        *final(cpu) == old(cpu).with_reg(old(cpu).reg.with_pc(jr_result(*old(cpu)))).with_t(JR_CYCLES),
{
    let n = cpu.get_immediate8();
    let addr = cpu.relative_target(n);
    proof {
        lemma_wrap16_add(old(cpu).reg.pc + 1, sign8(n));
        lemma_wrap16_add(old(cpu).reg.pc - 1, 2 + sign8(n));
    }
    cpu.jump(addr);
    cpu.t_cycles = JR_CYCLES;
}

// 'JR NZ,*' 20
pub fn JR_NZ_n(cpu: &mut CPU)
    requires
        old(cpu).wf(),
    ensures
        final(cpu).wf(),
        !old(cpu).reg.zf ==> *final(cpu) == old(cpu).with_reg(
            old(cpu).reg.with_pc(jr_result(*old(cpu)))).with_t(JR_CC_CYCLES_TAKEN),
        old(cpu).reg.zf ==> *final(cpu) == old(cpu).with_reg(
            old(cpu).reg.with_pc(jr_fallthrough(*old(cpu)))).with_t(JR_CC_CYCLES_SKIPPED),
{
    let n = cpu.get_immediate8();
    let addr = cpu.relative_target(n);
    proof {
        lemma_wrap16_add(old(cpu).reg.pc + 1, sign8(n));
        lemma_wrap16_add(old(cpu).reg.pc - 1, 2 + sign8(n));
    }
    if !cpu.reg.is_set(Flags::Zero) {
        cpu.jump(addr);
        cpu.t_cycles = JR_CC_CYCLES_TAKEN;
    } else {
        cpu.t_cycles = JR_CC_CYCLES_SKIPPED;
    }
}

// 'JR Z,*' 28
pub fn JR_Z_n(cpu: &mut CPU)
    requires
        old(cpu).wf(),
    ensures
        final(cpu).wf(),
        old(cpu).reg.zf ==> *final(cpu) == old(cpu).with_reg(
            old(cpu).reg.with_pc(jr_result(*old(cpu)))).with_t(JR_CC_CYCLES_TAKEN),
        !old(cpu).reg.zf ==> *final(cpu) == old(cpu).with_reg(
            old(cpu).reg.with_pc(jr_fallthrough(*old(cpu)))).with_t(JR_CC_CYCLES_SKIPPED),
{
    let n = cpu.get_immediate8();
    let addr = cpu.relative_target(n);
    proof {
        lemma_wrap16_add(old(cpu).reg.pc + 1, sign8(n));
        lemma_wrap16_add(old(cpu).reg.pc - 1, 2 + sign8(n));
    }
    if cpu.reg.is_set(Flags::Zero) {
        cpu.jump(addr);
        cpu.t_cycles = JR_CC_CYCLES_TAKEN;
    } else {
        cpu.t_cycles = JR_CC_CYCLES_SKIPPED;
    }
}

// 'JR NC,*' 30
pub fn JR_NC_n(cpu: &mut CPU)
    requires
        old(cpu).wf(),
    ensures
        final(cpu).wf(),
        !old(cpu).reg.cf ==> *final(cpu) == old(cpu).with_reg(
            old(cpu).reg.with_pc(jr_result(*old(cpu)))).with_t(JR_CC_CYCLES_TAKEN),
        old(cpu).reg.cf ==> *final(cpu) == old(cpu).with_reg(
            old(cpu).reg.with_pc(jr_fallthrough(*old(cpu)))).with_t(JR_CC_CYCLES_SKIPPED),
{
    let n = cpu.get_immediate8();
    let addr = cpu.relative_target(n);
    proof {
        lemma_wrap16_add(old(cpu).reg.pc + 1, sign8(n));
        lemma_wrap16_add(old(cpu).reg.pc - 1, 2 + sign8(n));
    }
    if !cpu.reg.is_set(Flags::Carry) {
        cpu.jump(addr);
        cpu.t_cycles = JR_CC_CYCLES_TAKEN;
    } else {
        cpu.t_cycles = JR_CC_CYCLES_SKIPPED;
    }
}

// 'JR C,*' 38
pub fn JR_C_n(cpu: &mut CPU)
    requires
        old(cpu).wf(),
    ensures
        final(cpu).wf(),
        old(cpu).reg.cf ==> *final(cpu) == old(cpu).with_reg(
            old(cpu).reg.with_pc(jr_result(*old(cpu)))).with_t(JR_CC_CYCLES_TAKEN),
        !old(cpu).reg.cf ==> *final(cpu) == old(cpu).with_reg(
            old(cpu).reg.with_pc(jr_fallthrough(*old(cpu)))).with_t(JR_CC_CYCLES_SKIPPED),
{
    let n = cpu.get_immediate8();
    let addr = cpu.relative_target(n);
    proof {
        lemma_wrap16_add(old(cpu).reg.pc + 1, sign8(n));
        lemma_wrap16_add(old(cpu).reg.pc - 1, 2 + sign8(n));
    }
    if cpu.reg.is_set(Flags::Carry) {
        cpu.jump(addr);
        cpu.t_cycles = JR_CC_CYCLES_TAKEN;
    } else {
        cpu.t_cycles = JR_CC_CYCLES_SKIPPED;
    }
}

/// What memory looks like after a taken CALL: the fall-through address —
/// the byte after the three-byte instruction — pushed at the moved SP.
pub open spec fn call_pushed_mem(c: CPU) -> MmuV {
    spec_write_w(c.mem@, wrap16(c.reg.sp - 2), imm16_fallthrough(c))
}

// 'CALL nn' CD
pub fn CALL_nn(cpu: &mut CPU)
    requires
        old(cpu).wf(),
    ensures
        final(cpu).wf(),
        final(cpu).reg == old(cpu).reg.with_pc(imm16(*old(cpu))).with_sp(wrap16(old(cpu).reg.sp - 2)),
        final(cpu).mem@ == call_pushed_mem(*old(cpu)),
        final(cpu).t_cycles == CALL_CYCLES,
        final(cpu).ctrl_eq(*old(cpu)),
{
    let call_addr = cpu.get_immediate16();
    let next_instr = cpu.reg.pc;
    cpu.push_stack(next_instr);
    cpu.jump(call_addr);
    cpu.t_cycles = CALL_CYCLES;
}

// 'CALL NZ,nn' C4
pub fn CALL_NZ_nn(cpu: &mut CPU)
    requires
        old(cpu).wf(),
    ensures
        final(cpu).wf(),
        !old(cpu).reg.zf ==> {
            &&& final(cpu).reg == old(cpu).reg.with_pc(imm16(*old(cpu))).with_sp(wrap16(old(cpu).reg.sp - 2))
            &&& final(cpu).mem@ == call_pushed_mem(*old(cpu))
            &&& final(cpu).t_cycles == CALL_CC_CYCLES_TAKEN
            &&& final(cpu).ctrl_eq(*old(cpu))
        },
        old(cpu).reg.zf ==> *final(cpu) == old(cpu).with_reg(
            old(cpu).reg.with_pc(imm16_fallthrough(*old(cpu)))).with_t(CALL_CC_CYCLES_SKIPPED),
{
    if !cpu.reg.is_set(Flags::Zero) {
        CALL_nn(cpu);
    } else {
        let _ = cpu.get_immediate16();
        cpu.t_cycles = CALL_CC_CYCLES_SKIPPED;
    }
}

// 'CALL Z,nn' CC
pub fn CALL_Z_nn(cpu: &mut CPU)
    requires
        old(cpu).wf(),
    ensures
        final(cpu).wf(),
        old(cpu).reg.zf ==> {
            &&& final(cpu).reg == old(cpu).reg.with_pc(imm16(*old(cpu))).with_sp(wrap16(old(cpu).reg.sp - 2))
            &&& final(cpu).mem@ == call_pushed_mem(*old(cpu))
            &&& final(cpu).t_cycles == CALL_CC_CYCLES_TAKEN
            &&& final(cpu).ctrl_eq(*old(cpu))
        },
        !old(cpu).reg.zf ==> *final(cpu) == old(cpu).with_reg(
            old(cpu).reg.with_pc(imm16_fallthrough(*old(cpu)))).with_t(CALL_CC_CYCLES_SKIPPED),
{
    if cpu.reg.is_set(Flags::Zero) {
        CALL_nn(cpu);
    } else {
        let _ = cpu.get_immediate16();
        cpu.t_cycles = CALL_CC_CYCLES_SKIPPED;
    }
}

// 'CALL NC,nn' D4
pub fn CALL_NC_nn(cpu: &mut CPU)
    requires
        old(cpu).wf(),
    ensures
        final(cpu).wf(),
        !old(cpu).reg.cf ==> {
            &&& final(cpu).reg == old(cpu).reg.with_pc(imm16(*old(cpu))).with_sp(wrap16(old(cpu).reg.sp - 2))
            &&& final(cpu).mem@ == call_pushed_mem(*old(cpu))
            &&& final(cpu).t_cycles == CALL_CC_CYCLES_TAKEN
            &&& final(cpu).ctrl_eq(*old(cpu))
        },
        old(cpu).reg.cf ==> *final(cpu) == old(cpu).with_reg(
            old(cpu).reg.with_pc(imm16_fallthrough(*old(cpu)))).with_t(CALL_CC_CYCLES_SKIPPED),
{
    if !cpu.reg.is_set(Flags::Carry) {
        CALL_nn(cpu);
    } else {
        let _ = cpu.get_immediate16();
        cpu.t_cycles = CALL_CC_CYCLES_SKIPPED;
    }
}

// 'CALL C,nn' DC
pub fn CALL_C_nn(cpu: &mut CPU)
    requires
        old(cpu).wf(),
    ensures
        final(cpu).wf(),
        old(cpu).reg.cf ==> {
            &&& final(cpu).reg == old(cpu).reg.with_pc(imm16(*old(cpu))).with_sp(wrap16(old(cpu).reg.sp - 2))
            &&& final(cpu).mem@ == call_pushed_mem(*old(cpu))
            &&& final(cpu).t_cycles == CALL_CC_CYCLES_TAKEN
            &&& final(cpu).ctrl_eq(*old(cpu))
        },
        !old(cpu).reg.cf ==> *final(cpu) == old(cpu).with_reg(
            old(cpu).reg.with_pc(imm16_fallthrough(*old(cpu)))).with_t(CALL_CC_CYCLES_SKIPPED),
{
    if cpu.reg.is_set(Flags::Carry) {
        CALL_nn(cpu);
    } else {
        let _ = cpu.get_immediate16();
        cpu.t_cycles = CALL_CC_CYCLES_SKIPPED;
    }
}

/// What a restart leaves behind: the current PC pushed, PC at the vector.
pub open spec fn rst_post(c: CPU, vector: u16) -> (Registers, MmuV) {
    (
        c.reg.with_sp(wrap16(c.reg.sp - 2)).with_pc(vector),
        spec_write_w(c.mem@, wrap16(c.reg.sp - 2), c.reg.pc),
    )
}

// 'RST 00H' C7
pub fn RST_00h(cpu: &mut CPU)
    requires
        old(cpu).wf(),
    ensures
        final(cpu).wf(),
        final(cpu).reg == rst_post(*old(cpu), 0x00).0,
        final(cpu).mem@ == rst_post(*old(cpu), 0x00).1,
        final(cpu).t_cycles == 16,
        final(cpu).ctrl_eq(*old(cpu)),
{
    cpu.restart(0x00);
}

// 'RST 08H' CF
pub fn RST_08h(cpu: &mut CPU)
    requires
        old(cpu).wf(),
    ensures
        final(cpu).wf(),
        final(cpu).reg == rst_post(*old(cpu), 0x08).0,
        final(cpu).mem@ == rst_post(*old(cpu), 0x08).1,
        final(cpu).t_cycles == 16,
        final(cpu).ctrl_eq(*old(cpu)),
{
    cpu.restart(0x08);
}

// 'RST 10H' D7
pub fn RST_10h(cpu: &mut CPU)
    requires
        old(cpu).wf(),
    ensures
        final(cpu).wf(),
        final(cpu).reg == rst_post(*old(cpu), 0x10).0,
        final(cpu).mem@ == rst_post(*old(cpu), 0x10).1,
        final(cpu).t_cycles == 16,
        final(cpu).ctrl_eq(*old(cpu)),
{
    cpu.restart(0x10);
}

// 'RST 18H' DF
pub fn RST_18h(cpu: &mut CPU)
    requires
        old(cpu).wf(),
    ensures
        final(cpu).wf(),
        final(cpu).reg == rst_post(*old(cpu), 0x18).0,
        final(cpu).mem@ == rst_post(*old(cpu), 0x18).1,
        final(cpu).t_cycles == 16,
        final(cpu).ctrl_eq(*old(cpu)),
{
    cpu.restart(0x18);
}

// 'RST 20H' E7
pub fn RST_20h(cpu: &mut CPU)
    requires
        old(cpu).wf(),
    ensures
        final(cpu).wf(),
        final(cpu).reg == rst_post(*old(cpu), 0x20).0,
        final(cpu).mem@ == rst_post(*old(cpu), 0x20).1,
        final(cpu).t_cycles == 16,
        final(cpu).ctrl_eq(*old(cpu)),
{
    cpu.restart(0x20);
}

// 'RST 28H' EF
pub fn RST_28h(cpu: &mut CPU)
    requires
        old(cpu).wf(),
    ensures
        final(cpu).wf(),
        final(cpu).reg == rst_post(*old(cpu), 0x28).0,
        final(cpu).mem@ == rst_post(*old(cpu), 0x28).1,
        final(cpu).t_cycles == 16,
        final(cpu).ctrl_eq(*old(cpu)),
{
    cpu.restart(0x28);
}

// 'RST 30H' F7
pub fn RST_30h(cpu: &mut CPU)
    requires
        old(cpu).wf(),
    ensures
        final(cpu).wf(),
        final(cpu).reg == rst_post(*old(cpu), 0x30).0,
        final(cpu).mem@ == rst_post(*old(cpu), 0x30).1,
        final(cpu).t_cycles == 16,
        final(cpu).ctrl_eq(*old(cpu)),
{
    cpu.restart(0x30);
}

// 'RST 38H' FF
pub fn RST_38h(cpu: &mut CPU)
    requires
        old(cpu).wf(),
    ensures
        final(cpu).wf(),
        final(cpu).reg == rst_post(*old(cpu), 0x38).0,
        final(cpu).mem@ == rst_post(*old(cpu), 0x38).1,
        final(cpu).t_cycles == 16,
        final(cpu).ctrl_eq(*old(cpu)),
{
    cpu.restart(0x38);
}

/// Where a return resumes: the word at SP.
pub open spec fn ret_dest(c: CPU) -> u16 {
    spec_read_w(c.mem@, c.reg.sp)
}

// 'RET' C9
pub fn RET(cpu: &mut CPU)
    requires
        old(cpu).wf(),
    ensures
        final(cpu).wf(),
        *final(cpu) == old(cpu).with_reg(
            old(cpu).reg.with_sp(wrap16(old(cpu).reg.sp + 2)).with_pc(ret_dest(*old(cpu)))).with_t(RET_CYCLES),
{
    let addr = cpu.pop_stack();
    cpu.jump(addr);
    cpu.t_cycles = RET_CYCLES;
}

// 'RETI' D9: return, then restore the master interrupt enable.
pub fn RETI(cpu: &mut CPU)
    requires
        old(cpu).wf(),
    ensures
        final(cpu).wf(),
        final(cpu).reg == old(cpu).reg.with_sp(wrap16(old(cpu).reg.sp + 2)).with_pc(ret_dest(*old(cpu))),
        final(cpu).mem@ == old(cpu).mem@,
        final(cpu).t_cycles == RET_CYCLES,
        final(cpu).ime == true,
        final(cpu).halted == old(cpu).halted,
{
    let addr = cpu.pop_stack();
    cpu.jump(addr);
    cpu.ime = true;
    cpu.t_cycles = RET_CYCLES;
}

// 'RET NZ' C0
pub fn RET_NZ(cpu: &mut CPU)
    requires
        old(cpu).wf(),
    ensures
        final(cpu).wf(),
        !old(cpu).reg.zf ==> *final(cpu) == old(cpu).with_reg(
            old(cpu).reg.with_sp(wrap16(old(cpu).reg.sp + 2)).with_pc(ret_dest(*old(cpu)))).with_t(RET_CC_CYCLES_TAKEN),
        old(cpu).reg.zf ==> *final(cpu) == old(cpu).with_t(RET_CC_CYCLES_SKIPPED),
{
    if !cpu.reg.is_set(Flags::Zero) {
        let addr = cpu.pop_stack();
        cpu.jump(addr);
        cpu.t_cycles = RET_CC_CYCLES_TAKEN;
    } else {
        cpu.t_cycles = RET_CC_CYCLES_SKIPPED;
    }
}

// 'RET Z' C8
pub fn RET_Z(cpu: &mut CPU)
    requires
        old(cpu).wf(),
    ensures
        final(cpu).wf(),
        old(cpu).reg.zf ==> *final(cpu) == old(cpu).with_reg(
            old(cpu).reg.with_sp(wrap16(old(cpu).reg.sp + 2)).with_pc(ret_dest(*old(cpu)))).with_t(RET_CC_CYCLES_TAKEN),
        !old(cpu).reg.zf ==> *final(cpu) == old(cpu).with_t(RET_CC_CYCLES_SKIPPED),
{
    if cpu.reg.is_set(Flags::Zero) {
        let addr = cpu.pop_stack();
        cpu.jump(addr);
        cpu.t_cycles = RET_CC_CYCLES_TAKEN;
    } else {
        cpu.t_cycles = RET_CC_CYCLES_SKIPPED;
    }
}

// 'RET NC' D0
pub fn RET_NC(cpu: &mut CPU)
    requires
        old(cpu).wf(),
    ensures
        final(cpu).wf(),
        !old(cpu).reg.cf ==> *final(cpu) == old(cpu).with_reg(
            old(cpu).reg.with_sp(wrap16(old(cpu).reg.sp + 2)).with_pc(ret_dest(*old(cpu)))).with_t(RET_CC_CYCLES_TAKEN),
        old(cpu).reg.cf ==> *final(cpu) == old(cpu).with_t(RET_CC_CYCLES_SKIPPED),
{
    if !cpu.reg.is_set(Flags::Carry) {
        let addr = cpu.pop_stack();
        cpu.jump(addr);
        cpu.t_cycles = RET_CC_CYCLES_TAKEN;
    } else {
        cpu.t_cycles = RET_CC_CYCLES_SKIPPED;
    }
}

// 'RET C' D8
pub fn RET_C(cpu: &mut CPU)
    requires
        old(cpu).wf(),
    ensures
        final(cpu).wf(),
        old(cpu).reg.cf ==> *final(cpu) == old(cpu).with_reg(
            old(cpu).reg.with_sp(wrap16(old(cpu).reg.sp + 2)).with_pc(ret_dest(*old(cpu)))).with_t(RET_CC_CYCLES_TAKEN),
        !old(cpu).reg.cf ==> *final(cpu) == old(cpu).with_t(RET_CC_CYCLES_SKIPPED),
{
    if cpu.reg.is_set(Flags::Carry) {
        let addr = cpu.pop_stack();
        cpu.jump(addr);
        cpu.t_cycles = RET_CC_CYCLES_TAKEN;
    } else {
        cpu.t_cycles = RET_CC_CYCLES_SKIPPED;
    }
}

/// A relative jump with offset -2 lands back on its own first byte: for
/// every instruction address x, the destination is x itself.
pub proof fn lemma_jr_offset_minus_two(x: u16)
    ensures
        jr_dest(x, 0xFE) == x,
{
}

/// A CALL whose three-byte instruction starts at address x pushes x + 3,
/// and a later RET that pops that untouched slot from work RAM resumes at
/// x + 3: the instruction after the CALL.
pub proof fn lemma_call_then_ret_resumes_after_call(m: MmuV, x: u16, sp: u16)
    requires
        mmu_wf(m),
        0xC002 <= sp <= 0xE000,
    ensures
        spec_read_w(spec_write_w(m, (sp - 2) as u16, wrap16(x + 3)), (sp - 2) as u16) == wrap16(x + 3),
{
    lemma_wram_word_round_trip(m, (sp - 2) as u16, wrap16(x + 3));
}

/// Conditional control flow is cheaper when the condition fails: each
/// skipped cost is strictly below its taken cost.
pub proof fn lemma_conditional_costs_differ()
    ensures
        JP_CC_CYCLES_SKIPPED < JP_CC_CYCLES_TAKEN,
        JR_CC_CYCLES_SKIPPED < JR_CC_CYCLES_TAKEN,
        CALL_CC_CYCLES_SKIPPED < CALL_CC_CYCLES_TAKEN,
        RET_CC_CYCLES_SKIPPED < RET_CC_CYCLES_TAKEN,
{
}

} // verus!
