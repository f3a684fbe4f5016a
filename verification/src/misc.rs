//! Miscellaneous instructions: no-op, halt/stop, interrupt-enable control,
//! the accumulator rotates, decimal adjust, complement and carry-flag
//! operations.
#![allow(non_snake_case)]

use vstd::prelude::*;
use crate::cpu::CPU;
use crate::alu::{rlc8, rrc8, rl8, rr8, rotate_left, rotate_right, rotate_left_carry, rotate_right_carry, wrap16};

verus! {

// 'NOP' 00
pub fn nop(cpu: &mut CPU)
    ensures
        *final(cpu) == old(cpu).with_t(4),
{
    cpu.t_cycles = 4;
}

// 'HALT' 76: the core idles until an interrupt is pending.
pub fn HALT(cpu: &mut CPU)
    ensures
        *final(cpu) == (CPU { halted: true, t_cycles: 4, ..*old(cpu) }),
{
    cpu.halted = true;
    cpu.t_cycles = 4;
}

// 'STOP' 10: two-byte instruction; the padding byte is consumed and the
// core idles as for HALT.
pub fn STOP(cpu: &mut CPU)
    requires
        old(cpu).wf(),
    ensures
        final(cpu).wf(),
        *final(cpu) == (CPU {
            halted: true,
            ..old(cpu).with_reg(old(cpu).reg.with_pc(wrap16(old(cpu).reg.pc + 1))).with_t(4)
        }),
{
    let _ = cpu.get_immediate8();
    cpu.halted = true;
    cpu.t_cycles = 4;
}

// 'DI' F3: clears the master interrupt enable.
pub fn DI(cpu: &mut CPU)
    ensures
        *final(cpu) == (CPU { ime: false, t_cycles: 4, ..*old(cpu) }),
{
    cpu.ime = false;
    cpu.t_cycles = 4;
}

// 'EI' FB: sets the master interrupt enable.
pub fn EI(cpu: &mut CPU)
    ensures
        *final(cpu) == (CPU { ime: true, t_cycles: 4, ..*old(cpu) }),
{
    cpu.ime = true;
    cpu.t_cycles = 4;
}

// 'RLCA' 07: rotate the accumulator left; Zero is forced clear.
pub fn RLCA(cpu: &mut CPU)
    ensures
        *final(cpu) == old(cpu).with_reg(old(cpu).reg
            .with_a(rlc8(old(cpu).reg.a))
            .with_flags(false, false, false, old(cpu).reg.a >= 128)).with_t(4),
{
    let (r, c) = rotate_left(cpu.reg.a);
    cpu.reg.a = r;
    cpu.reg.set_flags(false, false, false, c);
    cpu.t_cycles = 4;
}

// 'RLA' 17: rotate the accumulator left through carry; Zero forced clear.
pub fn RLA(cpu: &mut CPU)
    ensures
        *final(cpu) == old(cpu).with_reg(old(cpu).reg
            .with_a(rl8(old(cpu).reg.a, old(cpu).reg.cf))
            .with_flags(false, false, false, old(cpu).reg.a >= 128)).with_t(4),
{
    let (r, c) = rotate_left_carry(cpu.reg.a, cpu.reg.cf);
    cpu.reg.a = r;
    cpu.reg.set_flags(false, false, false, c);
    cpu.t_cycles = 4;
}

// 'RRCA' 0F: rotate the accumulator right; Zero forced clear.
pub fn RRCA(cpu: &mut CPU)
    ensures
        *final(cpu) == old(cpu).with_reg(old(cpu).reg
            .with_a(rrc8(old(cpu).reg.a))
            .with_flags(false, false, false, old(cpu).reg.a % 2 == 1)).with_t(4),
{
    let (r, c) = rotate_right(cpu.reg.a);
    cpu.reg.a = r;
    cpu.reg.set_flags(false, false, false, c);
    cpu.t_cycles = 4;
}

// 'RRA' 1F: rotate the accumulator right through carry; Zero forced clear.
pub fn RRA(cpu: &mut CPU)
    ensures
        *final(cpu) == old(cpu).with_reg(old(cpu).reg
            .with_a(rr8(old(cpu).reg.a, old(cpu).reg.cf))
            .with_flags(false, false, false, old(cpu).reg.a % 2 == 1)).with_t(4),
{
    let (r, c) = rotate_right_carry(cpu.reg.a, cpu.reg.cf);
    cpu.reg.a = r;
    cpu.reg.set_flags(false, false, false, c);
    cpu.t_cycles = 4;
}

// 'DAA' 27
pub fn DAA(cpu: &mut CPU)
    ensures
        *final(cpu) == old(cpu).with_reg(old(cpu).reg.daa_spec()).with_t(4),
{
    cpu.reg.daa();
    cpu.t_cycles = 4;
}

// 'CPL' 2F: complement the accumulator; Subtract and HalfCarry set.
pub fn CPL(cpu: &mut CPU)
    ensures
        *final(cpu) == old(cpu).with_reg(old(cpu).reg
            .with_a((255 - old(cpu).reg.a) as u8)
            .with_flags(old(cpu).reg.zf, true, true, old(cpu).reg.cf)).with_t(4),
{
    cpu.reg.a = 255 - cpu.reg.a;
    cpu.reg.nf = true;
    cpu.reg.hf = true;
    cpu.t_cycles = 4;
}

// 'SCF' 37: set the carry flag; Subtract and HalfCarry cleared.
pub fn SCF(cpu: &mut CPU)
    ensures
        *final(cpu) == old(cpu).with_reg(old(cpu).reg
            .with_flags(old(cpu).reg.zf, false, false, true)).with_t(4),
{
    cpu.reg.nf = false;
    cpu.reg.hf = false;
    cpu.reg.cf = true;
    cpu.t_cycles = 4;
}

// 'CCF' 3F: complement the carry flag; Subtract and HalfCarry cleared.
pub fn CCF(cpu: &mut CPU)
    ensures
        *final(cpu) == old(cpu).with_reg(old(cpu).reg
            .with_flags(old(cpu).reg.zf, false, false, !old(cpu).reg.cf)).with_t(4),
{
    cpu.reg.nf = false;
    cpu.reg.hf = false;
    cpu.reg.cf = !cpu.reg.cf;
    cpu.t_cycles = 4;
}

} // verus!
