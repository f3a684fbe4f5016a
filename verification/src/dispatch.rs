//! The dispatcher: a total decode over both 256-entry opcode tables, the
//! between-instruction interrupt check, and the run-one-instruction /
//! run-one-frame entry points with their cycle accounting.

use vstd::prelude::*;
use crate::cpu::{CPU, MachineV};
use crate::registers::Registers;
use crate::alu::{bit8, res_bit8, res_bit, rlc8, rrc8, rl8, rr8, sign8, test_bit,
    lemma_wrap16_add, wrap8, wrap16};
use crate::cb::{cb_step, target8_of, with_target8};
use crate::mmu::{MmuV, spec_read_b, spec_read_w, spec_write_b, spec_write_w};
use crate::jumps::jr_dest;

verus! {

/// Screen width in pixels.
pub const FRAME_WIDTH: usize = 160;

/// Screen height in pixels.
pub const FRAME_HEIGHT: usize = 144;

/// The fixed pixel count of one frame.
pub const FRAME_PIXELS: usize = 23040;

/// Cycles per frame: crossing this threshold is the frame boundary.
pub const FRAME_CYCLES: u32 = 70224;

/// Address of the interrupt-request register.
pub const IF_ADDR: u16 = 0xFF0F;

/// Whether interrupt `i` is both requested and individually enabled.
pub open spec fn irq_pending(m: MmuV, i: u8) -> bool {
    bit8(spec_read_b(m, 0xFFFF), i) && bit8(spec_read_b(m, 0xFF0F), i)
}

/// The lowest pending-and-enabled interrupt index, or 5 when none is.
pub open spec fn first_irq(m: MmuV) -> u8 {
    if irq_pending(m, 0) { 0u8 }
    else if irq_pending(m, 1) { 1u8 }
    else if irq_pending(m, 2) { 2u8 }
    else if irq_pending(m, 3) { 3u8 }
    else if irq_pending(m, 4) { 4u8 }
    else { 5u8 }
}

/// The run-one-instruction entry point will fetch and run opcode `op`: the
/// core is not halted, no interrupt will preempt the fetch, and `op` is
/// the byte at PC.
pub open spec fn fetches(c: CPU, op: u8) -> bool {
    &&& !c.halted
    &&& (!c.ime || first_irq(c.mem@) == 5)
    &&& spec_read_b(c.mem@, c.reg.pc) == op
}


/// A step outcome that changes only the registers.
pub open spec fn step_reg(s: MachineV, r: Registers, t: u32) -> (MachineV, u32) {
    (MachineV { reg: r, ..s }, t)
}

/// A step outcome that also stores one byte.
pub open spec fn step_store(s: MachineV, r: Registers, addr: u16, v: u8, t: u32) -> (MachineV, u32) {
    (MachineV { reg: r, mem: spec_write_b(s.mem, addr, v), ..s }, t)
}

/// A step outcome that also stores one little-endian word.
pub open spec fn step_storew(s: MachineV, r: Registers, addr: u16, v: u16, t: u32) -> (MachineV, u32) {
    (MachineV { reg: r, mem: spec_write_w(s.mem, addr, v), ..s }, t)
}

/// The register file after one accumulator operation of the regular
/// arithmetic/logic block, selected by the opcode's bits 3-5:
/// ADD, ADC, SUB, SBC, AND, XOR, OR, CP in that order.
pub open spec fn alu_apply(r: Registers, k: u8, v: u8) -> Registers {
    if k == 0 { r.add_acc_spec(v) }
    else if k == 1 { r.adc_acc_spec(v) }
    else if k == 2 { r.sub_acc_spec(v) }
    else if k == 3 { r.sbc_acc_spec(v) }
    else if k == 4 { r.and_acc_spec(v) }
    else if k == 5 { r.xor_acc_spec(v) }
    else if k == 6 { r.or_acc_spec(v) }
    else { r.cp_acc_spec(v) }
}

/// One instruction of the regular load block 0x40-0x7F: target and source
/// decoded from the opcode bits, with 0x76 as HALT.
pub open spec fn ld_block_step(s: MachineV, op: u8) -> (MachineV, u32) {
    let d = ((op - 0x40) / 8) as u8;
    let src = op % 8;
    if op == 0x76 {
        (MachineV { halted: true, ..s }, 4)
    } else if d == 6 {
        (MachineV { mem: spec_write_b(s.mem, s.reg.hl(), target8_of(s.reg, s.mem, src)), ..s }, 8)
    } else {
        (MachineV { reg: with_target8(s.reg, d, target8_of(s.reg, s.mem, src)), ..s },
            if src == 6 { 8u32 } else { 4u32 })
    }
}

/// One instruction of the regular arithmetic/logic block 0x80-0xBF.
pub open spec fn alu_block_step(s: MachineV, op: u8) -> (MachineV, u32) {
    let k = ((op - 0x80) / 8) as u8;
    let v = target8_of(s.reg, s.mem, op % 8);
    (MachineV { reg: alu_apply(s.reg, k, v), ..s }, if op % 8 == 6 { 8u32 } else { 4u32 })
}

/// The machine state and cycle cost after one base-table opcode, entered
/// with PC already advanced past the opcode byte. Every one of the 256
/// values has a defined outcome; the prefix-escape byte chains into the
/// extended table's step function.
pub open spec fn base_step(s: MachineV, op: u8) -> (MachineV, u32) {
    if 0x40 <= op && op < 0x80 {
        ld_block_step(s, op)
    } else if 0x80 <= op && op < 0xC0 {
        alu_block_step(s, op)
    } else {
        base_step_irregular(s, op)
    }
}

/// The irregular rows of the base table: everything outside the two
/// regular 0x40-0xBF blocks.
pub open spec fn base_step_irregular(s: MachineV, op: u8) -> (MachineV, u32) {
    match op {
        0x00 => step_reg(s, s.reg, 4),
        0x01 => step_reg(s, s.reg.with_pc(wrap16(s.reg.pc + 2)).with_bc(spec_read_w(s.mem, s.reg.pc)), 12),
        0x02 => step_store(s, s.reg, s.reg.bc(), s.reg.a, 8),
        0x03 => step_reg(s, s.reg.with_bc(wrap16(s.reg.bc() + 1)), 8),
        0x04 => step_reg(s, s.reg.with_flags((s.reg.b + 1) % 256 == 0, false, s.reg.b % 16 == 15, s.reg.cf).with_b(wrap8(s.reg.b + 1)), 4),
        0x05 => step_reg(s, s.reg.with_flags(s.reg.b == 1, true, s.reg.b % 16 == 0, s.reg.cf).with_b(wrap8(s.reg.b - 1)), 4),
        0x06 => step_reg(s, s.reg.with_pc(wrap16(s.reg.pc + 1)).with_b(spec_read_b(s.mem, s.reg.pc)), 8),
        0x07 => step_reg(s, s.reg.with_a(rlc8(s.reg.a)).with_flags(false, false, false, s.reg.a >= 128), 4),
        0x08 => step_storew(s, s.reg.with_pc(wrap16(s.reg.pc + 2)), spec_read_w(s.mem, s.reg.pc), s.reg.sp, 20),
        0x09 => step_reg(s, s.reg.add_hl_spec(s.reg.bc()), 8),
        0x0A => step_reg(s, s.reg.with_a(spec_read_b(s.mem, s.reg.bc())), 8),
        0x0B => step_reg(s, s.reg.with_bc(wrap16(s.reg.bc() - 1)), 8),
        0x0C => step_reg(s, s.reg.with_flags((s.reg.c + 1) % 256 == 0, false, s.reg.c % 16 == 15, s.reg.cf).with_c(wrap8(s.reg.c + 1)), 4),
        0x0D => step_reg(s, s.reg.with_flags(s.reg.c == 1, true, s.reg.c % 16 == 0, s.reg.cf).with_c(wrap8(s.reg.c - 1)), 4),
        0x0E => step_reg(s, s.reg.with_pc(wrap16(s.reg.pc + 1)).with_c(spec_read_b(s.mem, s.reg.pc)), 8),
        0x0F => step_reg(s, s.reg.with_a(rrc8(s.reg.a)).with_flags(false, false, false, s.reg.a % 2 == 1), 4),
        0x10 => (MachineV { reg: s.reg.with_pc(wrap16(s.reg.pc + 1)), halted: true, ..s }, 4),
        0x11 => step_reg(s, s.reg.with_pc(wrap16(s.reg.pc + 2)).with_de(spec_read_w(s.mem, s.reg.pc)), 12),
        0x12 => step_store(s, s.reg, s.reg.de(), s.reg.a, 8),
        0x13 => step_reg(s, s.reg.with_de(wrap16(s.reg.de() + 1)), 8),
        0x14 => step_reg(s, s.reg.with_flags((s.reg.d + 1) % 256 == 0, false, s.reg.d % 16 == 15, s.reg.cf).with_d(wrap8(s.reg.d + 1)), 4),
        0x15 => step_reg(s, s.reg.with_flags(s.reg.d == 1, true, s.reg.d % 16 == 0, s.reg.cf).with_d(wrap8(s.reg.d - 1)), 4),
        0x16 => step_reg(s, s.reg.with_pc(wrap16(s.reg.pc + 1)).with_d(spec_read_b(s.mem, s.reg.pc)), 8),
        0x17 => step_reg(s, s.reg.with_a(rl8(s.reg.a, s.reg.cf)).with_flags(false, false, false, s.reg.a >= 128), 4),
        0x18 => step_reg(s, s.reg.with_pc(jr_dest(wrap16(s.reg.pc - 1), spec_read_b(s.mem, s.reg.pc))), 12),
        0x19 => step_reg(s, s.reg.add_hl_spec(s.reg.de()), 8),
        0x1A => step_reg(s, s.reg.with_a(spec_read_b(s.mem, s.reg.de())), 8),
        0x1B => step_reg(s, s.reg.with_de(wrap16(s.reg.de() - 1)), 8),
        0x1C => step_reg(s, s.reg.with_flags((s.reg.e + 1) % 256 == 0, false, s.reg.e % 16 == 15, s.reg.cf).with_e(wrap8(s.reg.e + 1)), 4),
        0x1D => step_reg(s, s.reg.with_flags(s.reg.e == 1, true, s.reg.e % 16 == 0, s.reg.cf).with_e(wrap8(s.reg.e - 1)), 4),
        0x1E => step_reg(s, s.reg.with_pc(wrap16(s.reg.pc + 1)).with_e(spec_read_b(s.mem, s.reg.pc)), 8),
        0x1F => step_reg(s, s.reg.with_a(rr8(s.reg.a, s.reg.cf)).with_flags(false, false, false, s.reg.a % 2 == 1), 4),
        0x20 => if !s.reg.zf { step_reg(s, s.reg.with_pc(jr_dest(wrap16(s.reg.pc - 1), spec_read_b(s.mem, s.reg.pc))), 12) } else { step_reg(s, s.reg.with_pc(wrap16(s.reg.pc + 1)), 8) },
        0x21 => step_reg(s, s.reg.with_pc(wrap16(s.reg.pc + 2)).with_hl(spec_read_w(s.mem, s.reg.pc)), 12),
        0x22 => step_store(s, s.reg.with_hl(wrap16(s.reg.hl() + 1)), s.reg.hl(), s.reg.a, 8),
        0x23 => step_reg(s, s.reg.with_hl(wrap16(s.reg.hl() + 1)), 8),
        0x24 => step_reg(s, s.reg.with_flags((s.reg.h + 1) % 256 == 0, false, s.reg.h % 16 == 15, s.reg.cf).with_h(wrap8(s.reg.h + 1)), 4),
        0x25 => step_reg(s, s.reg.with_flags(s.reg.h == 1, true, s.reg.h % 16 == 0, s.reg.cf).with_h(wrap8(s.reg.h - 1)), 4),
        0x26 => step_reg(s, s.reg.with_pc(wrap16(s.reg.pc + 1)).with_h(spec_read_b(s.mem, s.reg.pc)), 8),
        0x27 => step_reg(s, s.reg.daa_spec(), 4),
        0x28 => if s.reg.zf { step_reg(s, s.reg.with_pc(jr_dest(wrap16(s.reg.pc - 1), spec_read_b(s.mem, s.reg.pc))), 12) } else { step_reg(s, s.reg.with_pc(wrap16(s.reg.pc + 1)), 8) },
        0x29 => step_reg(s, s.reg.add_hl_spec(s.reg.hl()), 8),
        0x2A => step_reg(s, s.reg.with_a(spec_read_b(s.mem, s.reg.hl())).with_hl(wrap16(s.reg.hl() + 1)), 8),
        0x2B => step_reg(s, s.reg.with_hl(wrap16(s.reg.hl() - 1)), 8),
        0x2C => step_reg(s, s.reg.with_flags((s.reg.l + 1) % 256 == 0, false, s.reg.l % 16 == 15, s.reg.cf).with_l(wrap8(s.reg.l + 1)), 4),
        0x2D => step_reg(s, s.reg.with_flags(s.reg.l == 1, true, s.reg.l % 16 == 0, s.reg.cf).with_l(wrap8(s.reg.l - 1)), 4),
        0x2E => step_reg(s, s.reg.with_pc(wrap16(s.reg.pc + 1)).with_l(spec_read_b(s.mem, s.reg.pc)), 8),
        0x2F => step_reg(s, s.reg.with_a((255 - s.reg.a) as u8).with_flags(s.reg.zf, true, true, s.reg.cf), 4),
        0x30 => if !s.reg.cf { step_reg(s, s.reg.with_pc(jr_dest(wrap16(s.reg.pc - 1), spec_read_b(s.mem, s.reg.pc))), 12) } else { step_reg(s, s.reg.with_pc(wrap16(s.reg.pc + 1)), 8) },
        0x31 => step_reg(s, s.reg.with_pc(wrap16(s.reg.pc + 2)).with_sp(spec_read_w(s.mem, s.reg.pc)), 12),
        0x32 => step_store(s, s.reg.with_hl(wrap16(s.reg.hl() - 1)), s.reg.hl(), s.reg.a, 8),
        0x33 => step_reg(s, s.reg.with_sp(wrap16(s.reg.sp + 1)), 8),
        0x34 => step_store(s, s.reg.with_flags((spec_read_b(s.mem, s.reg.hl()) + 1) % 256 == 0, false, spec_read_b(s.mem, s.reg.hl()) % 16 == 15, s.reg.cf), s.reg.hl(), wrap8(spec_read_b(s.mem, s.reg.hl()) + 1), 12),
        0x35 => step_store(s, s.reg.with_flags(spec_read_b(s.mem, s.reg.hl()) == 1, true, spec_read_b(s.mem, s.reg.hl()) % 16 == 0, s.reg.cf), s.reg.hl(), wrap8(spec_read_b(s.mem, s.reg.hl()) - 1), 12),
        0x36 => step_store(s, s.reg.with_pc(wrap16(s.reg.pc + 1)), s.reg.hl(), spec_read_b(s.mem, s.reg.pc), 12),
        0x37 => step_reg(s, s.reg.with_flags(s.reg.zf, false, false, true), 4),
        0x38 => if s.reg.cf { step_reg(s, s.reg.with_pc(jr_dest(wrap16(s.reg.pc - 1), spec_read_b(s.mem, s.reg.pc))), 12) } else { step_reg(s, s.reg.with_pc(wrap16(s.reg.pc + 1)), 8) },
        0x39 => step_reg(s, s.reg.add_hl_spec(s.reg.sp), 8),
        0x3A => step_reg(s, s.reg.with_a(spec_read_b(s.mem, s.reg.hl())).with_hl(wrap16(s.reg.hl() - 1)), 8),
        0x3B => step_reg(s, s.reg.with_sp(wrap16(s.reg.sp - 1)), 8),
        0x3C => step_reg(s, s.reg.with_flags((s.reg.a + 1) % 256 == 0, false, s.reg.a % 16 == 15, s.reg.cf).with_a(wrap8(s.reg.a + 1)), 4),
        0x3D => step_reg(s, s.reg.with_flags(s.reg.a == 1, true, s.reg.a % 16 == 0, s.reg.cf).with_a(wrap8(s.reg.a - 1)), 4),
        0x3E => step_reg(s, s.reg.with_pc(wrap16(s.reg.pc + 1)).with_a(spec_read_b(s.mem, s.reg.pc)), 8),
        0x3F => step_reg(s, s.reg.with_flags(s.reg.zf, false, false, !s.reg.cf), 4),
        0xC0 => if !s.reg.zf { step_reg(s, s.reg.with_sp(wrap16(s.reg.sp + 2)).with_pc(spec_read_w(s.mem, s.reg.sp)), 20) } else { step_reg(s, s.reg, 8) },
        0xC1 => step_reg(s, s.reg.with_sp(wrap16(s.reg.sp + 2)).with_bc(spec_read_w(s.mem, s.reg.sp)), 12),
        0xC2 => if !s.reg.zf { step_reg(s, s.reg.with_pc(spec_read_w(s.mem, s.reg.pc)), 16) } else { step_reg(s, s.reg.with_pc(wrap16(s.reg.pc + 2)), 12) },
        0xC3 => step_reg(s, s.reg.with_pc(spec_read_w(s.mem, s.reg.pc)), 16),
        0xC4 => if !s.reg.zf { step_storew(s, s.reg.with_pc(spec_read_w(s.mem, s.reg.pc)).with_sp(wrap16(s.reg.sp - 2)), wrap16(s.reg.sp - 2), wrap16(s.reg.pc + 2), 24) } else { step_reg(s, s.reg.with_pc(wrap16(s.reg.pc + 2)), 12) },
        0xC5 => step_storew(s, s.reg.with_sp(wrap16(s.reg.sp - 2)), wrap16(s.reg.sp - 2), s.reg.bc(), 16),
        0xC6 => step_reg(s, s.reg.with_pc(wrap16(s.reg.pc + 1)).add_acc_spec(spec_read_b(s.mem, s.reg.pc)), 8),
        0xC7 => step_storew(s, s.reg.with_sp(wrap16(s.reg.sp - 2)).with_pc(0x00), wrap16(s.reg.sp - 2), s.reg.pc, 16),
        0xC8 => if s.reg.zf { step_reg(s, s.reg.with_sp(wrap16(s.reg.sp + 2)).with_pc(spec_read_w(s.mem, s.reg.sp)), 20) } else { step_reg(s, s.reg, 8) },
        0xC9 => step_reg(s, s.reg.with_sp(wrap16(s.reg.sp + 2)).with_pc(spec_read_w(s.mem, s.reg.sp)), 16),
        0xCA => if s.reg.zf { step_reg(s, s.reg.with_pc(spec_read_w(s.mem, s.reg.pc)), 16) } else { step_reg(s, s.reg.with_pc(wrap16(s.reg.pc + 2)), 12) },
        0xCB => cb_step(MachineV { reg: s.reg.with_pc(wrap16(s.reg.pc + 1)), ..s }, spec_read_b(s.mem, s.reg.pc)),
        0xCC => if s.reg.zf { step_storew(s, s.reg.with_pc(spec_read_w(s.mem, s.reg.pc)).with_sp(wrap16(s.reg.sp - 2)), wrap16(s.reg.sp - 2), wrap16(s.reg.pc + 2), 24) } else { step_reg(s, s.reg.with_pc(wrap16(s.reg.pc + 2)), 12) },
        0xCD => step_storew(s, s.reg.with_pc(spec_read_w(s.mem, s.reg.pc)).with_sp(wrap16(s.reg.sp - 2)), wrap16(s.reg.sp - 2), wrap16(s.reg.pc + 2), 24),
        0xCE => step_reg(s, s.reg.with_pc(wrap16(s.reg.pc + 1)).adc_acc_spec(spec_read_b(s.mem, s.reg.pc)), 8),
        0xCF => step_storew(s, s.reg.with_sp(wrap16(s.reg.sp - 2)).with_pc(0x08), wrap16(s.reg.sp - 2), s.reg.pc, 16),
        0xD0 => if !s.reg.cf { step_reg(s, s.reg.with_sp(wrap16(s.reg.sp + 2)).with_pc(spec_read_w(s.mem, s.reg.sp)), 20) } else { step_reg(s, s.reg, 8) },
        0xD1 => step_reg(s, s.reg.with_sp(wrap16(s.reg.sp + 2)).with_de(spec_read_w(s.mem, s.reg.sp)), 12),
        0xD2 => if !s.reg.cf { step_reg(s, s.reg.with_pc(spec_read_w(s.mem, s.reg.pc)), 16) } else { step_reg(s, s.reg.with_pc(wrap16(s.reg.pc + 2)), 12) },
        0xD3 => step_reg(s, s.reg, 4),
        0xD4 => if !s.reg.cf { step_storew(s, s.reg.with_pc(spec_read_w(s.mem, s.reg.pc)).with_sp(wrap16(s.reg.sp - 2)), wrap16(s.reg.sp - 2), wrap16(s.reg.pc + 2), 24) } else { step_reg(s, s.reg.with_pc(wrap16(s.reg.pc + 2)), 12) },
        0xD5 => step_storew(s, s.reg.with_sp(wrap16(s.reg.sp - 2)), wrap16(s.reg.sp - 2), s.reg.de(), 16),
        0xD6 => step_reg(s, s.reg.with_pc(wrap16(s.reg.pc + 1)).sub_acc_spec(spec_read_b(s.mem, s.reg.pc)), 8),
        0xD7 => step_storew(s, s.reg.with_sp(wrap16(s.reg.sp - 2)).with_pc(0x10), wrap16(s.reg.sp - 2), s.reg.pc, 16),
        0xD8 => if s.reg.cf { step_reg(s, s.reg.with_sp(wrap16(s.reg.sp + 2)).with_pc(spec_read_w(s.mem, s.reg.sp)), 20) } else { step_reg(s, s.reg, 8) },
        0xD9 => (MachineV { reg: s.reg.with_sp(wrap16(s.reg.sp + 2)).with_pc(spec_read_w(s.mem, s.reg.sp)), ime: true, ..s }, 16),
        0xDA => if s.reg.cf { step_reg(s, s.reg.with_pc(spec_read_w(s.mem, s.reg.pc)), 16) } else { step_reg(s, s.reg.with_pc(wrap16(s.reg.pc + 2)), 12) },
        0xDB => step_reg(s, s.reg, 4),
        0xDC => if s.reg.cf { step_storew(s, s.reg.with_pc(spec_read_w(s.mem, s.reg.pc)).with_sp(wrap16(s.reg.sp - 2)), wrap16(s.reg.sp - 2), wrap16(s.reg.pc + 2), 24) } else { step_reg(s, s.reg.with_pc(wrap16(s.reg.pc + 2)), 12) },
        0xDD => step_reg(s, s.reg, 4),
        0xDE => step_reg(s, s.reg.with_pc(wrap16(s.reg.pc + 1)).sbc_acc_spec(spec_read_b(s.mem, s.reg.pc)), 8),
        0xDF => step_storew(s, s.reg.with_sp(wrap16(s.reg.sp - 2)).with_pc(0x18), wrap16(s.reg.sp - 2), s.reg.pc, 16),
        0xE0 => step_store(s, s.reg.with_pc(wrap16(s.reg.pc + 1)), (0xFF00 + spec_read_b(s.mem, s.reg.pc)) as u16, s.reg.a, 12),
        0xE1 => step_reg(s, s.reg.with_sp(wrap16(s.reg.sp + 2)).with_hl(spec_read_w(s.mem, s.reg.sp)), 12),
        0xE2 => step_store(s, s.reg, (0xFF00 + s.reg.c) as u16, s.reg.a, 8),
        0xE3 => step_reg(s, s.reg, 4),
        0xE4 => step_reg(s, s.reg, 4),
        0xE5 => step_storew(s, s.reg.with_sp(wrap16(s.reg.sp - 2)), wrap16(s.reg.sp - 2), s.reg.hl(), 16),
        0xE6 => step_reg(s, s.reg.with_pc(wrap16(s.reg.pc + 1)).and_acc_spec(spec_read_b(s.mem, s.reg.pc)), 8),
        0xE7 => step_storew(s, s.reg.with_sp(wrap16(s.reg.sp - 2)).with_pc(0x20), wrap16(s.reg.sp - 2), s.reg.pc, 16),
        0xE8 => step_reg(s, s.reg.with_pc(wrap16(s.reg.pc + 1)).with_flags(false, false, s.reg.sp % 16 + spec_read_b(s.mem, s.reg.pc) % 16 > 15, s.reg.sp % 256 + spec_read_b(s.mem, s.reg.pc) > 255).with_sp(wrap16(s.reg.sp + sign8(spec_read_b(s.mem, s.reg.pc)))), 16),
        0xE9 => step_reg(s, s.reg.with_pc(s.reg.hl()), 4),
        0xEA => step_store(s, s.reg.with_pc(wrap16(s.reg.pc + 2)), spec_read_w(s.mem, s.reg.pc), s.reg.a, 16),
        0xEB => step_reg(s, s.reg, 4),
        0xEC => step_reg(s, s.reg, 4),
        0xED => step_reg(s, s.reg, 4),
        0xEE => step_reg(s, s.reg.with_pc(wrap16(s.reg.pc + 1)).xor_acc_spec(spec_read_b(s.mem, s.reg.pc)), 8),
        0xEF => step_storew(s, s.reg.with_sp(wrap16(s.reg.sp - 2)).with_pc(0x28), wrap16(s.reg.sp - 2), s.reg.pc, 16),
        0xF0 => step_reg(s, s.reg.with_pc(wrap16(s.reg.pc + 1)).with_a(spec_read_b(s.mem, (0xFF00 + spec_read_b(s.mem, s.reg.pc)) as u16)), 12),
        0xF1 => step_reg(s, s.reg.with_sp(wrap16(s.reg.sp + 2)).with_af(spec_read_w(s.mem, s.reg.sp)), 12),
        0xF2 => step_reg(s, s.reg.with_a(spec_read_b(s.mem, (0xFF00 + s.reg.c) as u16)), 8),
        0xF3 => (MachineV { ime: false, ..s }, 4),
        0xF4 => step_reg(s, s.reg, 4),
        0xF5 => step_storew(s, s.reg.with_sp(wrap16(s.reg.sp - 2)), wrap16(s.reg.sp - 2), s.reg.af(), 16),
        0xF6 => step_reg(s, s.reg.with_pc(wrap16(s.reg.pc + 1)).or_acc_spec(spec_read_b(s.mem, s.reg.pc)), 8),
        0xF7 => step_storew(s, s.reg.with_sp(wrap16(s.reg.sp - 2)).with_pc(0x30), wrap16(s.reg.sp - 2), s.reg.pc, 16),
        0xF8 => step_reg(s, s.reg.with_pc(wrap16(s.reg.pc + 1)).with_flags(false, false, s.reg.sp % 16 + spec_read_b(s.mem, s.reg.pc) % 16 > 15, s.reg.sp % 256 + spec_read_b(s.mem, s.reg.pc) > 255).with_hl(wrap16(s.reg.sp + sign8(spec_read_b(s.mem, s.reg.pc)))), 12),
        0xF9 => step_reg(s, s.reg.with_sp(s.reg.hl()), 8),
        0xFA => step_reg(s, s.reg.with_pc(wrap16(s.reg.pc + 2)).with_a(spec_read_b(s.mem, spec_read_w(s.mem, s.reg.pc))), 16),
        0xFB => (MachineV { ime: true, ..s }, 4),
        0xFC => step_reg(s, s.reg, 4),
        0xFD => step_reg(s, s.reg, 4),
        0xFE => step_reg(s, s.reg.with_pc(wrap16(s.reg.pc + 1)).cp_acc_spec(spec_read_b(s.mem, s.reg.pc)), 8),
        0xFF => step_storew(s, s.reg.with_sp(wrap16(s.reg.sp - 2)).with_pc(0x38), wrap16(s.reg.sp - 2), s.reg.pc, 16),
        _ => step_reg(s, s.reg, 4),
    }
}

/// One full between-instructions step of the machine: service the lowest
/// pending-and-enabled interrupt if the master enable allows, else idle
/// while halted, else fetch at PC and run the opcode.
pub open spec fn machine_step(s: MachineV) -> (MachineV, u32) {
    if s.ime && first_irq(s.mem) != 5 {
        let i = first_irq(s.mem);
        (MachineV {
            reg: s.reg.with_sp(wrap16(s.reg.sp - 2)).with_pc((0x40 + 8 * i) as u16),
            mem: spec_write_w(
                spec_write_b(s.mem, IF_ADDR, res_bit8(spec_read_b(s.mem, IF_ADDR), i)),
                wrap16(s.reg.sp - 2), s.reg.pc),
            ime: false,
            halted: false,
        }, 20)
    } else if s.halted {
        (s, 4)
    } else {
        base_step(MachineV { reg: s.reg.with_pc(wrap16(s.reg.pc + 1)), ..s },
            spec_read_b(s.mem, s.reg.pc))
    }
}

/// The machine after `n` steps.
pub open spec fn run_steps(s: MachineV, n: nat) -> MachineV
    decreases n,
{
    if n == 0 {
        s
    } else {
        machine_step(run_steps(s, (n - 1) as nat)).0
    }
}

/// The cycles consumed by the first `n` steps.
pub open spec fn run_cycles(s: MachineV, n: nat) -> int
    decreases n,
{
    if n == 0 {
        0
    } else {
        run_cycles(s, (n - 1) as nat) + machine_step(run_steps(s, (n - 1) as nat)).1
    }
}

impl CPU {
    /// A slot the reference hardware leaves without an operation: defined
    /// here as a four-cycle no-op, never a fault.
    pub fn undefined_op(&mut self)
        ensures
            *final(self) == old(self).with_t(4),
    {
        self.t_cycles = 4;
    }

    /// Between instructions only: if the master enable is set and some
    /// interrupt is requested and enabled, clear the master enable and the
    /// request bit, leave the halt state, and vector to the interrupt's
    /// fixed handler address exactly as a CALL would.
    pub fn service_interrupts(&mut self) -> (serviced: bool)
        requires
            old(self).wf(),
        ensures
            final(self).wf(),
            !serviced ==> *final(self) == *old(self),
            !serviced <==> (!old(self).ime || first_irq(old(self).mem@) == 5),
            serviced ==> {
                let i = first_irq(old(self).mem@);
                &&& final(self).ime == false
                &&& final(self).halted == false
                &&& final(self).reg == old(self).reg
                        .with_sp(wrap16(old(self).reg.sp - 2))
                        .with_pc((0x40 + 8 * i) as u16)
                &&& final(self).mem@ == spec_write_w(
                        spec_write_b(old(self).mem@, IF_ADDR,
                            res_bit8(spec_read_b(old(self).mem@, IF_ADDR), i)),
                        wrap16(old(self).reg.sp - 2), old(self).reg.pc)
                &&& final(self).t_cycles == 20
            },
    {
        if !self.ime {
            return false;
        }
        let ie = self.mem.read_b(0xFFFF);
        let iflag = self.mem.read_b(IF_ADDR);
        let idx: u8 = if test_bit(ie, 0) && test_bit(iflag, 0) { 0 }
            else if test_bit(ie, 1) && test_bit(iflag, 1) { 1 }
            else if test_bit(ie, 2) && test_bit(iflag, 2) { 2 }
            else if test_bit(ie, 3) && test_bit(iflag, 3) { 3 }
            else if test_bit(ie, 4) && test_bit(iflag, 4) { 4 }
            else { 5 };
        if idx == 5 {
            return false;
        }
        let cleared = res_bit(iflag, idx);
        self.mem.write_b(IF_ADDR, cleared);
        self.ime = false;
        self.halted = false;
        let pc = self.reg.pc;
        self.push_stack(pc);
        self.jump(0x40 + 8 * (idx as u16));
        self.t_cycles = 20;
        true
    }

    /// The irregular rows 0x00-0x3F of the base table.
    #[verifier::rlimit(100)]
    #[verifier::spinoff_prover]
    fn execute_low(&mut self, opcode: u8)
        requires
            old(self).wf(),
            opcode < 0x40,
        ensures
            final(self).wf(),
            final(self).machine() == base_step_irregular(old(self).machine(), opcode).0,
            final(self).t_cycles == base_step_irregular(old(self).machine(), opcode).1,
            4 <= final(self).t_cycles <= 24,
    {
        match opcode {
            0x00 => crate::misc::nop(self),
            0x01 => crate::load::LD_bc_nn(self),
            0x02 => crate::load::LD_BCm_A(self),
            0x03 => crate::alu16::INC_bc(self),
            0x04 => crate::alu8::INC_b(self),
            0x05 => crate::alu8::DEC_b(self),
            0x06 => crate::load::LD_B_n(self),
            0x07 => crate::misc::RLCA(self),
            0x08 => crate::load::LD_nnm_sp(self),
            0x09 => crate::alu16::ADD_hl_bc(self),
            0x0A => crate::load::LD_a_BCm(self),
            0x0B => crate::alu16::DEC_bc(self),
            0x0C => crate::alu8::INC_c(self),
            0x0D => crate::alu8::DEC_c(self),
            0x0E => crate::load::LD_C_n(self),
            0x0F => crate::misc::RRCA(self),
            0x10 => crate::misc::STOP(self),
            0x11 => crate::load::LD_de_nn(self),
            0x12 => crate::load::LD_DEm_A(self),
            0x13 => crate::alu16::INC_de(self),
            0x14 => crate::alu8::INC_d(self),
            0x15 => crate::alu8::DEC_d(self),
            0x16 => crate::load::LD_D_n(self),
            0x17 => crate::misc::RLA(self),
            0x18 => crate::jumps::JR_n(self),
            0x19 => crate::alu16::ADD_hl_de(self),
            0x1A => crate::load::LD_a_DEm(self),
            0x1B => crate::alu16::DEC_de(self),
            0x1C => crate::alu8::INC_e(self),
            0x1D => crate::alu8::DEC_e(self),
            0x1E => crate::load::LD_E_n(self),
            0x1F => crate::misc::RRA(self),
            0x20 => crate::jumps::JR_NZ_n(self),
            0x21 => crate::load::LD_hl_nn(self),
            0x22 => crate::load::LDI_HLm_a(self),
            0x23 => crate::alu16::INC_hl(self),
            0x24 => crate::alu8::INC_h(self),
            0x25 => crate::alu8::DEC_h(self),
            0x26 => crate::load::LD_H_n(self),
            0x27 => crate::misc::DAA(self),
            0x28 => crate::jumps::JR_Z_n(self),
            0x29 => crate::alu16::ADD_hl_hl(self),
            0x2A => crate::load::LDI_a_HLm(self),
            0x2B => crate::alu16::DEC_hl(self),
            0x2C => crate::alu8::INC_l(self),
            0x2D => crate::alu8::DEC_l(self),
            0x2E => crate::load::LD_L_n(self),
            0x2F => crate::misc::CPL(self),
            0x30 => crate::jumps::JR_NC_n(self),
            0x31 => crate::load::LD_sp_nn(self),
            0x32 => crate::load::LDD_HLm_a(self),
            0x33 => crate::alu16::INC_sp(self),
            0x34 => crate::alu8::INC_hlm(self),
            0x35 => crate::alu8::DEC_hlm(self),
            0x36 => crate::load::LD_HLm_n(self),
            0x37 => crate::misc::SCF(self),
            0x38 => crate::jumps::JR_C_n(self),
            0x39 => crate::alu16::ADD_hl_sp(self),
            0x3A => crate::load::LDD_a_HLm(self),
            0x3B => crate::alu16::DEC_sp(self),
            0x3C => crate::alu8::INC_a(self),
            0x3D => crate::alu8::DEC_a(self),
            0x3E => crate::load::LD_a_n(self),
            0x3F => crate::misc::CCF(self),
            _ => self.undefined_op(),
        }
    }

    /// The regular load block 0x40-0x7F.
    #[verifier::rlimit(100)]
    #[verifier::spinoff_prover]
    fn execute_ld_block(&mut self, opcode: u8)
        requires
            old(self).wf(),
            0x40 <= opcode < 0x80,
        ensures
            final(self).wf(),
            final(self).machine() == ld_block_step(old(self).machine(), opcode).0,
            final(self).t_cycles == ld_block_step(old(self).machine(), opcode).1,
            4 <= final(self).t_cycles <= 24,
    {
        match opcode {
            0x40 => crate::load::LD_b_b(self),
            0x41 => crate::load::LD_b_c(self),
            0x42 => crate::load::LD_b_d(self),
            0x43 => crate::load::LD_b_e(self),
            0x44 => crate::load::LD_b_h(self),
            0x45 => crate::load::LD_b_l(self),
            0x46 => crate::load::LD_b_HLm(self),
            0x47 => crate::load::LD_b_a(self),
            0x48 => crate::load::LD_c_b(self),
            0x49 => crate::load::LD_c_c(self),
            0x4A => crate::load::LD_c_d(self),
            0x4B => crate::load::LD_c_e(self),
            0x4C => crate::load::LD_c_h(self),
            0x4D => crate::load::LD_c_l(self),
            0x4E => crate::load::LD_c_HLm(self),
            0x4F => crate::load::LD_c_a(self),
            0x50 => crate::load::LD_d_b(self),
            0x51 => crate::load::LD_d_c(self),
            0x52 => crate::load::LD_d_d(self),
            0x53 => crate::load::LD_d_e(self),
            0x54 => crate::load::LD_d_h(self),
            0x55 => crate::load::LD_d_l(self),
            0x56 => crate::load::LD_d_HLm(self),
            0x57 => crate::load::LD_d_a(self),
            0x58 => crate::load::LD_e_b(self),
            0x59 => crate::load::LD_e_c(self),
            0x5A => crate::load::LD_e_d(self),
            0x5B => crate::load::LD_e_e(self),
            0x5C => crate::load::LD_e_h(self),
            0x5D => crate::load::LD_e_l(self),
            0x5E => crate::load::LD_e_HLm(self),
            0x5F => crate::load::LD_e_a(self),
            0x60 => crate::load::LD_h_b(self),
            0x61 => crate::load::LD_h_c(self),
            0x62 => crate::load::LD_h_d(self),
            0x63 => crate::load::LD_h_e(self),
            0x64 => crate::load::LD_h_h(self),
            0x65 => crate::load::LD_h_l(self),
            0x66 => crate::load::LD_h_HLm(self),
            0x67 => crate::load::LD_h_a(self),
            0x68 => crate::load::LD_l_b(self),
            0x69 => crate::load::LD_l_c(self),
            0x6A => crate::load::LD_l_d(self),
            0x6B => crate::load::LD_l_e(self),
            0x6C => crate::load::LD_l_h(self),
            0x6D => crate::load::LD_l_l(self),
            0x6E => crate::load::LD_l_HLm(self),
            0x6F => crate::load::LD_l_a(self),
            0x70 => crate::load::LD_HLm_b(self),
            0x71 => crate::load::LD_HLm_c(self),
            0x72 => crate::load::LD_HLm_d(self),
            0x73 => crate::load::LD_HLm_e(self),
            0x74 => crate::load::LD_HLm_h(self),
            0x75 => crate::load::LD_HLm_l(self),
            0x76 => crate::misc::HALT(self),
            0x77 => crate::load::LD_HLm_a(self),
            0x78 => crate::load::LD_a_b(self),
            0x79 => crate::load::LD_a_c(self),
            0x7A => crate::load::LD_a_d(self),
            0x7B => crate::load::LD_a_e(self),
            0x7C => crate::load::LD_a_h(self),
            0x7D => crate::load::LD_a_l(self),
            0x7E => crate::load::LD_a_HLm(self),
            0x7F => crate::load::LD_a_a(self),
            _ => self.undefined_op(),
        }
    }

    /// The regular arithmetic/logic block 0x80-0xBF.
    #[verifier::rlimit(100)]
    #[verifier::spinoff_prover]
    fn execute_alu_block(&mut self, opcode: u8)
        requires
            old(self).wf(),
            0x80 <= opcode < 0xC0,
        ensures
            final(self).wf(),
            final(self).machine() == alu_block_step(old(self).machine(), opcode).0,
            final(self).t_cycles == alu_block_step(old(self).machine(), opcode).1,
            4 <= final(self).t_cycles <= 24,
    {
        match opcode {
            0x80 => crate::alu8::ADD_a_b(self),
            0x81 => crate::alu8::ADD_a_c(self),
            0x82 => crate::alu8::ADD_a_d(self),
            0x83 => crate::alu8::ADD_a_e(self),
            0x84 => crate::alu8::ADD_a_h(self),
            0x85 => crate::alu8::ADD_a_l(self),
            0x86 => crate::alu8::ADD_a_hlm(self),
            0x87 => crate::alu8::ADD_a_a(self),
            0x88 => crate::alu8::ADC_a_b(self),
            0x89 => crate::alu8::ADC_a_c(self),
            0x8A => crate::alu8::ADC_a_d(self),
            0x8B => crate::alu8::ADC_a_e(self),
            0x8C => crate::alu8::ADC_a_h(self),
            0x8D => crate::alu8::ADC_a_l(self),
            0x8E => crate::alu8::ADC_a_hlm(self),
            0x8F => crate::alu8::ADC_a_a(self),
            0x90 => crate::alu8::SUB_a_B(self),
            0x91 => crate::alu8::SUB_a_C(self),
            0x92 => crate::alu8::SUB_a_D(self),
            0x93 => crate::alu8::SUB_a_E(self),
            0x94 => crate::alu8::SUB_a_H(self),
            0x95 => crate::alu8::SUB_a_L(self),
            0x96 => crate::alu8::SUB_a_hlm(self),
            0x97 => crate::alu8::SUB_a_A(self),
            0x98 => crate::alu8::SBC_a_b(self),
            0x99 => crate::alu8::SBC_a_c(self),
            0x9A => crate::alu8::SBC_a_d(self),
            0x9B => crate::alu8::SBC_a_e(self),
            0x9C => crate::alu8::SBC_a_h(self),
            0x9D => crate::alu8::SBC_a_l(self),
            0x9E => crate::alu8::SBC_a_hlm(self),
            0x9F => crate::alu8::SBC_a_a(self),
            0xA0 => crate::alu8::AND_b(self),
            0xA1 => crate::alu8::AND_c(self),
            0xA2 => crate::alu8::AND_d(self),
            0xA3 => crate::alu8::AND_e(self),
            0xA4 => crate::alu8::AND_h(self),
            0xA5 => crate::alu8::AND_l(self),
            0xA6 => crate::alu8::AND_hlm(self),
            0xA7 => crate::alu8::AND_a(self),
            0xA8 => crate::alu8::XOR_b(self),
            0xA9 => crate::alu8::XOR_c(self),
            0xAA => crate::alu8::XOR_d(self),
            0xAB => crate::alu8::XOR_e(self),
            0xAC => crate::alu8::XOR_h(self),
            0xAD => crate::alu8::XOR_l(self),
            0xAE => crate::alu8::XOR_hlm(self),
            0xAF => crate::alu8::XOR_a(self),
            0xB0 => crate::alu8::OR_b(self),
            0xB1 => crate::alu8::OR_c(self),
            0xB2 => crate::alu8::OR_d(self),
            0xB3 => crate::alu8::OR_e(self),
            0xB4 => crate::alu8::OR_h(self),
            0xB5 => crate::alu8::OR_l(self),
            0xB6 => crate::alu8::OR_hlm(self),
            0xB7 => crate::alu8::OR_a(self),
            0xB8 => crate::alu8::CP_b(self),
            0xB9 => crate::alu8::CP_c(self),
            0xBA => crate::alu8::CP_d(self),
            0xBB => crate::alu8::CP_e(self),
            0xBC => crate::alu8::CP_h(self),
            0xBD => crate::alu8::CP_l(self),
            0xBE => crate::alu8::CP_hlm(self),
            0xBF => crate::alu8::CP_a(self),
            _ => self.undefined_op(),
        }
    }

    /// The irregular rows 0xC0-0xFF of the base table, the prefix escape
    /// included.
    #[verifier::rlimit(100)]
    #[verifier::spinoff_prover]
    fn execute_high(&mut self, opcode: u8)
        requires
            old(self).wf(),
            0xC0 <= opcode,
        ensures
            final(self).wf(),
            final(self).machine() == base_step_irregular(old(self).machine(), opcode).0,
            final(self).t_cycles == base_step_irregular(old(self).machine(), opcode).1,
            4 <= final(self).t_cycles <= 24,
    {
        match opcode {
            0xC0 => crate::jumps::RET_NZ(self),
            0xC1 => crate::stack::POP_bc(self),
            0xC2 => crate::jumps::JP_NZ_nn(self),
            0xC3 => crate::jumps::JP_nn(self),
            0xC4 => crate::jumps::CALL_NZ_nn(self),
            0xC5 => crate::stack::PUSH_bc(self),
            0xC6 => crate::alu8::ADD_a_n(self),
            0xC7 => crate::jumps::RST_00h(self),
            0xC8 => crate::jumps::RET_Z(self),
            0xC9 => crate::jumps::RET(self),
            0xCA => crate::jumps::JP_Z_nn(self),
            0xCB => { let cb = self.get_immediate8(); crate::cb::execute_cb(self, cb); },
            0xCC => crate::jumps::CALL_Z_nn(self),
            0xCD => crate::jumps::CALL_nn(self),
            0xCE => crate::alu8::ADC_a_n(self),
            0xCF => crate::jumps::RST_08h(self),
            0xD0 => crate::jumps::RET_NC(self),
            0xD1 => crate::stack::POP_de(self),
            0xD2 => crate::jumps::JP_NC_nn(self),
            0xD3 => self.undefined_op(),
            0xD4 => crate::jumps::CALL_NC_nn(self),
            0xD5 => crate::stack::PUSH_de(self),
            0xD6 => crate::alu8::SUB_a_n(self),
            0xD7 => crate::jumps::RST_10h(self),
            0xD8 => crate::jumps::RET_C(self),
            0xD9 => crate::jumps::RETI(self),
            0xDA => crate::jumps::JP_C_nn(self),
            0xDB => self.undefined_op(),
            0xDC => crate::jumps::CALL_C_nn(self),
            0xDD => self.undefined_op(),
            0xDE => crate::alu8::SBC_a_n(self),
            0xDF => crate::jumps::RST_18h(self),
            0xE0 => crate::load::LDH_nm_a(self),
            0xE1 => crate::stack::POP_hl(self),
            0xE2 => crate::load::LD_c_mem_a(self),
            0xE3 => self.undefined_op(),
            0xE4 => self.undefined_op(),
            0xE5 => crate::stack::PUSH_hl(self),
            0xE6 => crate::alu8::AND_n(self),
            0xE7 => crate::jumps::RST_20h(self),
            0xE8 => crate::alu16::ADD_sp_n(self),
            0xE9 => crate::jumps::JP_HL(self),
            0xEA => crate::load::LD_nnm_A(self),
            0xEB => self.undefined_op(),
            0xEC => self.undefined_op(),
            0xED => self.undefined_op(),
            0xEE => crate::alu8::XOR_n(self),
            0xEF => crate::jumps::RST_28h(self),
            0xF0 => crate::load::LDH_a_nm(self),
            0xF1 => crate::stack::POP_af(self),
            0xF2 => crate::load::LD_a_c_mem(self),
            0xF3 => crate::misc::DI(self),
            0xF4 => self.undefined_op(),
            0xF5 => crate::stack::PUSH_af(self),
            0xF6 => crate::alu8::OR_n(self),
            0xF7 => crate::jumps::RST_30h(self),
            0xF8 => crate::load::LDHL_sp_n(self),
            0xF9 => crate::load::LD_sp_hl(self),
            0xFA => crate::load::LD_a_nnm(self),
            0xFB => crate::misc::EI(self),
            0xFC => self.undefined_op(),
            0xFD => self.undefined_op(),
            0xFE => crate::alu8::CP_n(self),
            0xFF => crate::jumps::RST_38h(self),
            _ => self.undefined_op(),
        }
    }

    /// Resolves one already-fetched opcode byte through the base table, or,
    /// for the prefix-escape byte, fetches one further byte and resolves it
    /// through the extended table. Every one of the 512 slots has a defined
    /// semantic, pinned by the spec-level step function; the handler stores
    /// its own cycle cost.
    pub fn execute(&mut self, opcode: u8)
        requires
            old(self).wf(),
        ensures
            final(self).wf(),
            4 <= final(self).t_cycles <= 24,
            final(self).machine() == base_step(old(self).machine(), opcode).0,
            final(self).t_cycles == base_step(old(self).machine(), opcode).1,
    {
        if opcode < 0x40 {
            self.execute_low(opcode);
        } else if opcode < 0x80 {
            self.execute_ld_block(opcode);
        } else if opcode < 0xC0 {
            self.execute_alu_block(opcode);
        } else {
            self.execute_high(opcode);
        }
    }

    /// Runs one instruction (servicing at most one pending interrupt
    /// first) and returns the cycles consumed. PC is advanced past the
    /// opcode byte before the handler runs, so operand-reading handlers
    /// observe PC at their first immediate byte.
    #[verifier::rlimit(100)]
    #[verifier::spinoff_prover]
    pub fn exec_one_instruction(&mut self) -> (r: u32)
        requires
            old(self).wf(),
        ensures
            final(self).wf(),
            r == final(self).t_cycles,
            4 <= r <= 24,
            fetches(*old(self), 0x18) ==> final(self).reg.pc == jr_dest(old(self).reg.pc,
                spec_read_b(old(self).mem@, wrap16(old(self).reg.pc + 1))),
            fetches(*old(self), 0xCD) ==> {
                &&& final(self).reg.pc == spec_read_w(old(self).mem@, wrap16(old(self).reg.pc + 1))
                &&& final(self).reg.sp == wrap16(old(self).reg.sp - 2)
                &&& final(self).mem@ == spec_write_w(old(self).mem@,
                        wrap16(old(self).reg.sp - 2), wrap16(old(self).reg.pc + 3))
            },
            fetches(*old(self), 0xC9) ==> final(self).reg.pc
                == spec_read_w(old(self).mem@, old(self).reg.sp),
            final(self).machine() == machine_step(old(self).machine()).0,
            r == machine_step(old(self).machine()).1,
    {
        if self.service_interrupts() {
            let r = self.t_cycles;
            return r;
        }
        if self.halted {
            self.t_cycles = 4;
            return 4;
        }
        let op = self.get_immediate8();
        proof {
            lemma_wrap16_add(old(self).reg.pc + 1, -1);
            lemma_wrap16_add(old(self).reg.pc + 1, 2);
        }
        self.execute(op);
        let r = self.t_cycles;
        r
    }

    /// Runs instructions until a frame's worth of cycles has elapsed, then
    /// hands back the frame: a buffer of exactly FRAME_PIXELS color
    /// triples. The machine advances by whole steps of `machine_step`
    /// until the accumulated cycles first reach the frame threshold.
    /// Picture generation itself is outside this core, so the frame is the
    /// fixed blank screen.
    pub fn exec_one_frame(&mut self) -> (fb: Vec<(u8, u8, u8)>)
        requires
            old(self).wf(),
        ensures
            final(self).wf(),
            fb@.len() == FRAME_PIXELS,
            exists|n: nat| {
                &&& n > 0
                &&& final(self).machine() == run_steps(old(self).machine(), n)
                &&& run_cycles(old(self).machine(), n) >= FRAME_CYCLES
                &&& run_cycles(old(self).machine(), (n - 1) as nat) < FRAME_CYCLES
            },
    {
        let ghost m0 = self.machine();
        let ghost mut n: nat = 0;
        let mut cycles: u32 = 0;
        while cycles < FRAME_CYCLES
            invariant
                self.wf(),
                cycles <= FRAME_CYCLES + 23,
                self.machine() == run_steps(m0, n),
                cycles == run_cycles(m0, n),
                n > 0 ==> run_cycles(m0, (n - 1) as nat) < FRAME_CYCLES,
            decreases FRAME_CYCLES + 24 - cycles,
        {
            let r = self.exec_one_instruction();
            cycles = cycles + r;
            proof {
                n = n + 1;
            }
        }
        proof {
            assert(n > 0);
            assert({
                &&& final(self).machine() == run_steps(m0, n)
                &&& run_cycles(m0, n) >= FRAME_CYCLES
                &&& run_cycles(m0, (n - 1) as nat) < FRAME_CYCLES
            });
        }
        let mut fb: Vec<(u8, u8, u8)> = Vec::new();
        let mut i: usize = 0;
        while i < FRAME_PIXELS
            invariant
                fb@.len() == i,
                i <= FRAME_PIXELS,
            decreases FRAME_PIXELS - i,
        {
            fb.push((255, 255, 255));
            i += 1;
        }
        fb
    }

    /// Input delivery: the front-end hands in the current button state,
    /// which lands in the joypad register; the core never polls devices.
    pub fn set_input(&mut self, buttons: u8)
        requires
            old(self).wf(),
        ensures
            final(self).wf(),
            final(self).reg == old(self).reg,
            final(self).mem@ == spec_write_b(old(self).mem@, 0xFF00, buttons),
            final(self).t_cycles == old(self).t_cycles,
            final(self).ctrl_eq(*old(self)),
    {
        self.mem.write_b(0xFF00, buttons);
    }
}

} // verus!
