//! The CB-prefixed instruction family: rotates, shifts, nibble swap, and
//! the bit test/reset/set operations, uniform over the eight targets
//! B, C, D, E, H, L, (HL), A.

use vstd::prelude::*;
use crate::cpu::{CPU, MachineV, stores_byte};
use crate::registers::Registers;
use crate::alu::{rlc8, rrc8, rl8, rr8, swap8, wrap8, bit8, pow2_of, set_bit8, res_bit8,
    rotate_left, rotate_right, rotate_left_carry, rotate_right_carry,
    shift_left, shift_right_arith, shift_right_logic, swap_nibbles, set_bit, res_bit};
use crate::mmu::{spec_read_b, spec_write_b};

verus! {

/// The value of target `idx` in the uniform CB ordering:
/// B, C, D, E, H, L, the byte behind HL, A.
pub open spec fn target8_of(r: Registers, m: crate::mmu::MmuV, idx: u8) -> u8 {
    if idx == 0 { r.b }
    else if idx == 1 { r.c }
    else if idx == 2 { r.d }
    else if idx == 3 { r.e }
    else if idx == 4 { r.h }
    else if idx == 5 { r.l }
    else if idx == 6 { spec_read_b(m, r.hl()) }
    else { r.a }
}

/// The same target read off a CPU value.
pub open spec fn target8(c: CPU, idx: u8) -> u8 {
    target8_of(c.reg, c.mem@, idx)
}

/// The value a rotate/shift/swap operation leaves in its target, selected
/// by the operation index `sel` (the CB opcode's bits 3-5):
/// RLC, RRC, RL, RR, SLA, SRA, SWAP, SRL in that order.
pub open spec fn cb_shift_value(t: u8, cf: bool, sel: u8) -> u8 {
    if sel == 0 { rlc8(t) }
    else if sel == 1 { rrc8(t) }
    else if sel == 2 { rl8(t, cf) }
    else if sel == 3 { rr8(t, cf) }
    else if sel == 4 { wrap8(t * 2) }
    else if sel == 5 { (t / 2 + (t / 128) * 128) as u8 }
    else if sel == 6 { swap8(t) }
    else { (t / 2) as u8 }
}

/// The carry that operation `sel` shifts out of its target.
pub open spec fn cb_shift_carry(t: u8, sel: u8) -> bool {
    if sel == 0 || sel == 2 || sel == 4 { t >= 128 }
    else if sel == 6 { false }
    else { t % 2 == 1 }
}

/// The machine state and cycle cost after one CB-prefixed opcode, entered
/// with PC already past both the prefix byte and the opcode byte. The low
/// three bits select the target, the rest the operation.
pub open spec fn cb_step(s: MachineV, op: u8) -> (MachineV, u32) {
    let idx = op % 8;
    let t = target8_of(s.reg, s.mem, idx);
    if op < 0x40 {
        let val = cb_shift_value(t, s.reg.cf, op / 8);
        let cy = cb_shift_carry(t, op / 8);
        (MachineV {
            reg: with_target8(s.reg, idx, val).with_flags(val == 0, false, false, cy),
            mem: if idx == 6 { spec_write_b(s.mem, s.reg.hl(), val) } else { s.mem },
            ..s
        }, if idx == 6 { 16u32 } else { 8u32 })
    } else if op < 0x80 {
        let b = (op / 8 - 8) as u8;
        (MachineV {
            reg: s.reg.with_flags(!bit8(t, b), false, true, s.reg.cf),
            ..s
        }, if idx == 6 { 12u32 } else { 8u32 })
    } else if op < 0xC0 {
        let val = res_bit8(t, (op / 8 - 16) as u8);
        (MachineV {
            reg: with_target8(s.reg, idx, val),
            mem: if idx == 6 { spec_write_b(s.mem, s.reg.hl(), val) } else { s.mem },
            ..s
        }, if idx == 6 { 16u32 } else { 8u32 })
    } else {
        let val = set_bit8(t, (op / 8 - 24) as u8);
        (MachineV {
            reg: with_target8(s.reg, idx, val),
            mem: if idx == 6 { spec_write_b(s.mem, s.reg.hl(), val) } else { s.mem },
            ..s
        }, if idx == 6 { 16u32 } else { 8u32 })
    }
}

/// The register file with target `idx` replaced; the memory target (6) is
/// handled by the caller and leaves the registers alone.
pub open spec fn with_target8(r: Registers, idx: u8, v: u8) -> Registers {
    if idx == 0 { r.with_b(v) }
    else if idx == 1 { r.with_c(v) }
    else if idx == 2 { r.with_d(v) }
    else if idx == 3 { r.with_e(v) }
    else if idx == 4 { r.with_h(v) }
    else if idx == 5 { r.with_l(v) }
    else if idx == 6 { r }
    else { r.with_a(v) }
}

fn read_target(cpu: &CPU, idx: u8) -> (r: u8)
    requires
        cpu.wf(),
        idx < 8,
    ensures
        r == target8(*cpu, idx),
{
    if idx == 0 { cpu.reg.b }
    else if idx == 1 { cpu.reg.c }
    else if idx == 2 { cpu.reg.d }
    else if idx == 3 { cpu.reg.e }
    else if idx == 4 { cpu.reg.h }
    else if idx == 5 { cpu.reg.l }
    else if idx == 6 { let addr = cpu.reg.get_hl(); cpu.mem.read_b(addr) }
    else { cpu.reg.a }
}

fn write_target(cpu: &mut CPU, idx: u8, v: u8)
    requires
        old(cpu).wf(),
        idx < 8,
    ensures
        final(cpu).wf(),
        idx != 6 ==> *final(cpu) == old(cpu).with_reg(with_target8(old(cpu).reg, idx, v)),
        idx == 6 ==> final(cpu).reg == old(cpu).reg
            && final(cpu).mem@ == spec_write_b(old(cpu).mem@, old(cpu).reg.hl(), v)
            && final(cpu).t_cycles == old(cpu).t_cycles
            && final(cpu).ctrl_eq(*old(cpu)),
{
    if idx == 0 { cpu.reg.b = v; }
    else if idx == 1 { cpu.reg.c = v; }
    else if idx == 2 { cpu.reg.d = v; }
    else if idx == 3 { cpu.reg.e = v; }
    else if idx == 4 { cpu.reg.h = v; }
    else if idx == 5 { cpu.reg.l = v; }
    else if idx == 6 { let addr = cpu.reg.get_hl(); cpu.mem.write_b(addr, v); }
    else { cpu.reg.a = v; }
}

/// 'RLC r': the flag nibble takes Zero from the result and Carry from the
/// bit rotated or shifted out; Subtract and HalfCarry are cleared.
pub fn cb_rlc(cpu: &mut CPU, idx: u8)
    requires
        old(cpu).wf(),
        idx < 8,
    ensures
        final(cpu).wf(),
        idx != 6 ==> ({
            let t = target8(*old(cpu), idx);
            *final(cpu) == old(cpu).with_reg(
                with_target8(old(cpu).reg, idx, rlc8(t))
                    .with_flags(rlc8(t) == 0, false, false, t >= 128)).with_t(8)
        }),
        idx == 6 ==> ({
            let t = target8(*old(cpu), idx);
            stores_byte(*old(cpu), *final(cpu), old(cpu).reg.hl(), rlc8(t), 16,
                old(cpu).reg.with_flags(rlc8(t) == 0, false, false, t >= 128))
        }),
{
    let v = read_target(cpu, idx);
    let (r, c) = rotate_left(v);
    write_target(cpu, idx, r);
    cpu.reg.set_flags(r == 0, false, false, c);
    cpu.t_cycles = if idx == 6 { 16 } else { 8 };
}

/// 'RRC r': the flag nibble takes Zero from the result and Carry from the
/// bit rotated or shifted out; Subtract and HalfCarry are cleared.
pub fn cb_rrc(cpu: &mut CPU, idx: u8)
    requires
        old(cpu).wf(),
        idx < 8,
    ensures
        final(cpu).wf(),
        idx != 6 ==> ({
            let t = target8(*old(cpu), idx);
            *final(cpu) == old(cpu).with_reg(
                with_target8(old(cpu).reg, idx, rrc8(t))
                    .with_flags(rrc8(t) == 0, false, false, t % 2 == 1)).with_t(8)
        }),
        idx == 6 ==> ({
            let t = target8(*old(cpu), idx);
            stores_byte(*old(cpu), *final(cpu), old(cpu).reg.hl(), rrc8(t), 16,
                old(cpu).reg.with_flags(rrc8(t) == 0, false, false, t % 2 == 1))
        }),
{
    let v = read_target(cpu, idx);
    let (r, c) = rotate_right(v);
    write_target(cpu, idx, r);
    cpu.reg.set_flags(r == 0, false, false, c);
    cpu.t_cycles = if idx == 6 { 16 } else { 8 };
}

/// 'RL r': the flag nibble takes Zero from the result and Carry from the
/// bit rotated or shifted out; Subtract and HalfCarry are cleared.
pub fn cb_rl(cpu: &mut CPU, idx: u8)
    requires
        old(cpu).wf(),
        idx < 8,
    ensures
        final(cpu).wf(),
        idx != 6 ==> ({
            let t = target8(*old(cpu), idx);
            *final(cpu) == old(cpu).with_reg(
                with_target8(old(cpu).reg, idx, rl8(t, old(cpu).reg.cf))
                    .with_flags(rl8(t, old(cpu).reg.cf) == 0, false, false, t >= 128)).with_t(8)
        }),
        idx == 6 ==> ({
            let t = target8(*old(cpu), idx);
            stores_byte(*old(cpu), *final(cpu), old(cpu).reg.hl(), rl8(t, old(cpu).reg.cf), 16,
                old(cpu).reg.with_flags(rl8(t, old(cpu).reg.cf) == 0, false, false, t >= 128))
        }),
{
    let v = read_target(cpu, idx);
    let cf = cpu.reg.cf;
    let (r, c) = rotate_left_carry(v, cf);
    write_target(cpu, idx, r);
    cpu.reg.set_flags(r == 0, false, false, c);
    cpu.t_cycles = if idx == 6 { 16 } else { 8 };
}

/// 'RR r': the flag nibble takes Zero from the result and Carry from the
/// bit rotated or shifted out; Subtract and HalfCarry are cleared.
pub fn cb_rr(cpu: &mut CPU, idx: u8)
    requires
        old(cpu).wf(),
        idx < 8,
    ensures
        final(cpu).wf(),
        idx != 6 ==> ({
            let t = target8(*old(cpu), idx);
            *final(cpu) == old(cpu).with_reg(
                with_target8(old(cpu).reg, idx, rr8(t, old(cpu).reg.cf))
                    .with_flags(rr8(t, old(cpu).reg.cf) == 0, false, false, t % 2 == 1)).with_t(8)
        }),
        idx == 6 ==> ({
            let t = target8(*old(cpu), idx);
            stores_byte(*old(cpu), *final(cpu), old(cpu).reg.hl(), rr8(t, old(cpu).reg.cf), 16,
                old(cpu).reg.with_flags(rr8(t, old(cpu).reg.cf) == 0, false, false, t % 2 == 1))
        }),
{
    let v = read_target(cpu, idx);
    let cf = cpu.reg.cf;
    let (r, c) = rotate_right_carry(v, cf);
    write_target(cpu, idx, r);
    cpu.reg.set_flags(r == 0, false, false, c);
    cpu.t_cycles = if idx == 6 { 16 } else { 8 };
}

/// 'SLA r': the flag nibble takes Zero from the result and Carry from the
/// bit rotated or shifted out; Subtract and HalfCarry are cleared.
pub fn cb_sla(cpu: &mut CPU, idx: u8)
    requires
        old(cpu).wf(),
        idx < 8,
    ensures
        final(cpu).wf(),
        idx != 6 ==> ({
            let t = target8(*old(cpu), idx);
            *final(cpu) == old(cpu).with_reg(
                with_target8(old(cpu).reg, idx, wrap8(t * 2))
                    .with_flags(wrap8(t * 2) == 0, false, false, t >= 128)).with_t(8)
        }),
        idx == 6 ==> ({
            let t = target8(*old(cpu), idx);
            stores_byte(*old(cpu), *final(cpu), old(cpu).reg.hl(), wrap8(t * 2), 16,
                old(cpu).reg.with_flags(wrap8(t * 2) == 0, false, false, t >= 128))
        }),
{
    let v = read_target(cpu, idx);
    let (r, c) = shift_left(v);
    write_target(cpu, idx, r);
    cpu.reg.set_flags(r == 0, false, false, c);
    cpu.t_cycles = if idx == 6 { 16 } else { 8 };
}

/// 'SRA r': the flag nibble takes Zero from the result and Carry from the
/// bit rotated or shifted out; Subtract and HalfCarry are cleared.
pub fn cb_sra(cpu: &mut CPU, idx: u8)
    requires
        old(cpu).wf(),
        idx < 8,
    ensures
        final(cpu).wf(),
        idx != 6 ==> ({
            let t = target8(*old(cpu), idx);
            *final(cpu) == old(cpu).with_reg(
                with_target8(old(cpu).reg, idx, ((t / 2 + (t / 128) * 128)) as u8)
                    .with_flags(((t / 2 + (t / 128) * 128)) as u8 == 0, false, false, t % 2 == 1)).with_t(8)
        }),
        idx == 6 ==> ({
            let t = target8(*old(cpu), idx);
            stores_byte(*old(cpu), *final(cpu), old(cpu).reg.hl(), ((t / 2 + (t / 128) * 128)) as u8, 16,
                old(cpu).reg.with_flags(((t / 2 + (t / 128) * 128)) as u8 == 0, false, false, t % 2 == 1))
        }),
{
    let v = read_target(cpu, idx);
    let (r, c) = shift_right_arith(v);
    write_target(cpu, idx, r);
    cpu.reg.set_flags(r == 0, false, false, c);
    cpu.t_cycles = if idx == 6 { 16 } else { 8 };
}

/// 'SWAP r': the flag nibble takes Zero from the result and Carry from the
/// bit rotated or shifted out; Subtract and HalfCarry are cleared.
pub fn cb_swap(cpu: &mut CPU, idx: u8)
    requires
        old(cpu).wf(),
        idx < 8,
    ensures
        final(cpu).wf(),
        idx != 6 ==> ({
            let t = target8(*old(cpu), idx);
            *final(cpu) == old(cpu).with_reg(
                with_target8(old(cpu).reg, idx, swap8(t))
                    .with_flags(swap8(t) == 0, false, false, false)).with_t(8)
        }),
        idx == 6 ==> ({
            let t = target8(*old(cpu), idx);
            stores_byte(*old(cpu), *final(cpu), old(cpu).reg.hl(), swap8(t), 16,
                old(cpu).reg.with_flags(swap8(t) == 0, false, false, false))
        }),
{
    let v = read_target(cpu, idx);
    let r = swap_nibbles(v);
    let c = false;
    write_target(cpu, idx, r);
    cpu.reg.set_flags(r == 0, false, false, c);
    cpu.t_cycles = if idx == 6 { 16 } else { 8 };
}

/// 'SRL r': the flag nibble takes Zero from the result and Carry from the
/// bit rotated or shifted out; Subtract and HalfCarry are cleared.
pub fn cb_srl(cpu: &mut CPU, idx: u8)
    requires
        old(cpu).wf(),
        idx < 8,
    ensures
        final(cpu).wf(),
        idx != 6 ==> ({
            let t = target8(*old(cpu), idx);
            *final(cpu) == old(cpu).with_reg(
                with_target8(old(cpu).reg, idx, (t / 2) as u8)
                    .with_flags((t / 2) as u8 == 0, false, false, t % 2 == 1)).with_t(8)
        }),
        idx == 6 ==> ({
            let t = target8(*old(cpu), idx);
            stores_byte(*old(cpu), *final(cpu), old(cpu).reg.hl(), (t / 2) as u8, 16,
                old(cpu).reg.with_flags((t / 2) as u8 == 0, false, false, t % 2 == 1))
        }),
{
    let v = read_target(cpu, idx);
    let (r, c) = shift_right_logic(v);
    write_target(cpu, idx, r);
    cpu.reg.set_flags(r == 0, false, false, c);
    cpu.t_cycles = if idx == 6 { 16 } else { 8 };
}

/// 'BIT b,r': Zero takes the complement of the tested bit, HalfCarry is
/// forced set, Subtract cleared, Carry untouched; nothing is stored.
pub fn cb_bit(cpu: &mut CPU, b: u8, idx: u8)
    requires
        old(cpu).wf(),
        b < 8,
        idx < 8,
    ensures
        final(cpu).wf(),
        *final(cpu) == old(cpu).with_reg(old(cpu).reg.with_flags(
            !bit8(target8(*old(cpu), idx), b), false, true, old(cpu).reg.cf))
            .with_t(if idx == 6 { 12u32 } else { 8u32 }),
{
    let v = read_target(cpu, idx);
    let p = pow2_of(b);
    let is_set = (v / p) % 2 == 1;
    let cf = cpu.reg.cf;
    cpu.reg.set_flags(!is_set, false, true, cf);
    cpu.t_cycles = if idx == 6 { 12 } else { 8 };
}

/// 'RES b,r': clears one bit of the target; no flag is touched.
pub fn cb_res(cpu: &mut CPU, b: u8, idx: u8)
    requires
        old(cpu).wf(),
        b < 8,
        idx < 8,
    ensures
        final(cpu).wf(),
        idx != 6 ==> *final(cpu) == old(cpu).with_reg(
            with_target8(old(cpu).reg, idx, res_bit8(target8(*old(cpu), idx), b))).with_t(8),
        idx == 6 ==> stores_byte(*old(cpu), *final(cpu), old(cpu).reg.hl(),
            res_bit8(target8(*old(cpu), idx), b), 16, old(cpu).reg),
{
    let v = read_target(cpu, idx);
    let r = res_bit(v, b);
    write_target(cpu, idx, r);
    cpu.t_cycles = if idx == 6 { 16 } else { 8 };
}

/// 'SET b,r': sets one bit of the target; no flag is touched.
pub fn cb_set(cpu: &mut CPU, b: u8, idx: u8)
    requires
        old(cpu).wf(),
        b < 8,
        idx < 8,
    ensures
        final(cpu).wf(),
        idx != 6 ==> *final(cpu) == old(cpu).with_reg(
            with_target8(old(cpu).reg, idx, set_bit8(target8(*old(cpu), idx), b))).with_t(8),
        idx == 6 ==> stores_byte(*old(cpu), *final(cpu), old(cpu).reg.hl(),
            set_bit8(target8(*old(cpu), idx), b), 16, old(cpu).reg),
{
    let v = read_target(cpu, idx);
    let r = set_bit(v, b);
    write_target(cpu, idx, r);
    cpu.t_cycles = if idx == 6 { 16 } else { 8 };
}

/// Resolves one CB-prefixed opcode: the low three bits select the target,
/// the rest select the operation. Every one of the 256 values has a
/// defined semantic.
pub fn execute_cb(cpu: &mut CPU, op: u8)
    requires
        old(cpu).wf(),
    ensures
        final(cpu).wf(),
        final(cpu).ctrl_eq(*old(cpu)),
        final(cpu).reg.pc == old(cpu).reg.pc,
        final(cpu).reg.sp == old(cpu).reg.sp,
        8 <= final(cpu).t_cycles <= 16,
        final(cpu).machine() == cb_step(old(cpu).machine(), op).0,
        final(cpu).t_cycles == cb_step(old(cpu).machine(), op).1,
{
    let idx = op % 8;
    let sel = op / 8;
    if sel == 0 { cb_rlc(cpu, idx); }
    else if sel == 1 { cb_rrc(cpu, idx); }
    else if sel == 2 { cb_rl(cpu, idx); }
    else if sel == 3 { cb_rr(cpu, idx); }
    else if sel == 4 { cb_sla(cpu, idx); }
    else if sel == 5 { cb_sra(cpu, idx); }
    else if sel == 6 { cb_swap(cpu, idx); }
    else if sel == 7 { cb_srl(cpu, idx); }
    else if op < 0x80 { cb_bit(cpu, sel - 8, idx); }
    else if op < 0xC0 { cb_res(cpu, sel - 16, idx); }
    else { cb_set(cpu, sel - 24, idx); }
}

} // verus!
