//! The 16-bit arithmetic family: register-pair increment/decrement (which
//! touch no flags), ADD HL,rr, and the signed stack-pointer addition.
#![allow(non_snake_case)]

use vstd::prelude::*;
use crate::cpu::CPU;
use crate::alu::{sign8, wrap16};
use crate::mmu::spec_read_b;

verus! {

// 'INC BC' 03: wraps modulo 2^16 and touches no flags.
pub fn INC_bc(cpu: &mut CPU)
    ensures
        *final(cpu) == old(cpu).with_reg(old(cpu).reg.with_bc(wrap16(old(cpu).reg.bc() + 1))).with_t(8),
{
    let v = cpu.reg.get_bc();
    cpu.reg.set_bc(v.wrapping_add(1));
    cpu.t_cycles = 8;
}

// 'DEC BC' 0B: wraps modulo 2^16 and touches no flags.
pub fn DEC_bc(cpu: &mut CPU)
    ensures
        *final(cpu) == old(cpu).with_reg(old(cpu).reg.with_bc(wrap16(old(cpu).reg.bc() - 1))).with_t(8),
{
    let v = cpu.reg.get_bc();
    cpu.reg.set_bc(v.wrapping_sub(1));
    cpu.t_cycles = 8;
}

// 'ADD HL,BC' 09
pub fn ADD_hl_bc(cpu: &mut CPU)
    ensures
        *final(cpu) == old(cpu).with_reg(old(cpu).reg.add_hl_spec(old(cpu).reg.bc())).with_t(8),
{
    let v = cpu.reg.get_bc();
    cpu.reg.add_hl(v);
    cpu.t_cycles = 8;
}

// 'INC DE' 13: wraps modulo 2^16 and touches no flags.
pub fn INC_de(cpu: &mut CPU)
    ensures
        *final(cpu) == old(cpu).with_reg(old(cpu).reg.with_de(wrap16(old(cpu).reg.de() + 1))).with_t(8),
{
    let v = cpu.reg.get_de();
    cpu.reg.set_de(v.wrapping_add(1));
    cpu.t_cycles = 8;
}

// 'DEC DE' 1B: wraps modulo 2^16 and touches no flags.
pub fn DEC_de(cpu: &mut CPU)
    ensures
        *final(cpu) == old(cpu).with_reg(old(cpu).reg.with_de(wrap16(old(cpu).reg.de() - 1))).with_t(8),
{
    let v = cpu.reg.get_de();
    cpu.reg.set_de(v.wrapping_sub(1));
    cpu.t_cycles = 8;
}

// 'ADD HL,DE' 19
pub fn ADD_hl_de(cpu: &mut CPU)
    ensures
        *final(cpu) == old(cpu).with_reg(old(cpu).reg.add_hl_spec(old(cpu).reg.de())).with_t(8),
{
    let v = cpu.reg.get_de();
    cpu.reg.add_hl(v);
    cpu.t_cycles = 8;
}

// 'INC HL' 23: wraps modulo 2^16 and touches no flags.
pub fn INC_hl(cpu: &mut CPU)
    ensures
        *final(cpu) == old(cpu).with_reg(old(cpu).reg.with_hl(wrap16(old(cpu).reg.hl() + 1))).with_t(8),
{
    let v = cpu.reg.get_hl();
    cpu.reg.set_hl(v.wrapping_add(1));
    cpu.t_cycles = 8;
}

// 'DEC HL' 2B: wraps modulo 2^16 and touches no flags.
pub fn DEC_hl(cpu: &mut CPU)
    ensures
        *final(cpu) == old(cpu).with_reg(old(cpu).reg.with_hl(wrap16(old(cpu).reg.hl() - 1))).with_t(8),
{
    let v = cpu.reg.get_hl();
    cpu.reg.set_hl(v.wrapping_sub(1));
    cpu.t_cycles = 8;
}

// 'ADD HL,HL' 29
pub fn ADD_hl_hl(cpu: &mut CPU)
    ensures
        *final(cpu) == old(cpu).with_reg(old(cpu).reg.add_hl_spec(old(cpu).reg.hl())).with_t(8),
{
    let v = cpu.reg.get_hl();
    cpu.reg.add_hl(v);
    cpu.t_cycles = 8;
}

// 'INC SP' 33: wraps modulo 2^16 and touches no flags.
pub fn INC_sp(cpu: &mut CPU)
    ensures
        *final(cpu) == old(cpu).with_reg(old(cpu).reg.with_sp(wrap16(old(cpu).reg.sp + 1))).with_t(8),
{
    cpu.reg.sp = cpu.reg.sp.wrapping_add(1);
    cpu.t_cycles = 8;
}

// 'DEC SP' 3B: wraps modulo 2^16 and touches no flags.
pub fn DEC_sp(cpu: &mut CPU)
    ensures
        *final(cpu) == old(cpu).with_reg(old(cpu).reg.with_sp(wrap16(old(cpu).reg.sp - 1))).with_t(8),
{
    cpu.reg.sp = cpu.reg.sp.wrapping_sub(1);
    cpu.t_cycles = 8;
}

// 'ADD HL,SP' 39
pub fn ADD_hl_sp(cpu: &mut CPU)
    ensures
        *final(cpu) == old(cpu).with_reg(old(cpu).reg.add_hl_spec(old(cpu).reg.sp)).with_t(8),
{
    let v = cpu.reg.sp;
    cpu.reg.add_hl(v);
    cpu.t_cycles = 8;
}

// 'ADD SP,n' E8: signed immediate added to SP; flags from unsigned
// addition on the low byte.
pub fn ADD_sp_n(cpu: &mut CPU)
    requires
        old(cpu).wf(),
    ensures
        final(cpu).wf(),
        *final(cpu) == old(cpu).with_reg(old(cpu).reg
            .with_pc(wrap16(old(cpu).reg.pc + 1))
            .with_flags(
                false,
                false,
                old(cpu).reg.sp % 16 + spec_read_b(old(cpu).mem@, old(cpu).reg.pc) % 16 > 15,
                old(cpu).reg.sp % 256 + spec_read_b(old(cpu).mem@, old(cpu).reg.pc) > 255,
            )
            .with_sp(wrap16(old(cpu).reg.sp + sign8(spec_read_b(old(cpu).mem@, old(cpu).reg.pc))))).with_t(16),
{
    let n = cpu.get_immediate8();
    let v = cpu.reg.apply_sp_offset(n);
    cpu.reg.sp = v;
    cpu.t_cycles = 16;
}

} // verus!
