//! Stack instructions: PUSH and POP for each register pair. A pop into AF
//! keeps only the four live flag bits; the upper nibble of F stays zero.
#![allow(non_snake_case)]

use vstd::prelude::*;
use crate::cpu::CPU;
use crate::alu::wrap16;
use crate::mmu::{spec_read_w, spec_write_w};

verus! {

// 'PUSH BC' C5
pub fn PUSH_bc(cpu: &mut CPU)
    requires
        old(cpu).wf(),
    ensures
        final(cpu).wf(),
        final(cpu).reg == old(cpu).reg.with_sp(wrap16(old(cpu).reg.sp - 2)),
        final(cpu).mem@ == spec_write_w(old(cpu).mem@, wrap16(old(cpu).reg.sp - 2), old(cpu).reg.bc()),
        final(cpu).t_cycles == 16,
        final(cpu).ctrl_eq(*old(cpu)),
{
    let v = cpu.reg.get_bc();
    cpu.push_stack(v);
    cpu.t_cycles = 16;
}

// 'POP BC' C1
pub fn POP_bc(cpu: &mut CPU)
    requires
        old(cpu).wf(),
    ensures
        final(cpu).wf(),
        *final(cpu) == old(cpu).with_reg(old(cpu).reg
            .with_sp(wrap16(old(cpu).reg.sp + 2))
            .with_bc(spec_read_w(old(cpu).mem@, old(cpu).reg.sp))).with_t(12),
{
    let v = cpu.pop_stack();
    cpu.reg.set_bc(v);
    cpu.t_cycles = 12;
}

// 'PUSH DE' D5
pub fn PUSH_de(cpu: &mut CPU)
    requires
        old(cpu).wf(),
    ensures
        final(cpu).wf(),
        final(cpu).reg == old(cpu).reg.with_sp(wrap16(old(cpu).reg.sp - 2)),
        final(cpu).mem@ == spec_write_w(old(cpu).mem@, wrap16(old(cpu).reg.sp - 2), old(cpu).reg.de()),
        final(cpu).t_cycles == 16,
        final(cpu).ctrl_eq(*old(cpu)),
{
    let v = cpu.reg.get_de();
    cpu.push_stack(v);
    cpu.t_cycles = 16;
}

// 'POP DE' D1
pub fn POP_de(cpu: &mut CPU)
    requires
        old(cpu).wf(),
    ensures
        final(cpu).wf(),
        *final(cpu) == old(cpu).with_reg(old(cpu).reg
            .with_sp(wrap16(old(cpu).reg.sp + 2))
            .with_de(spec_read_w(old(cpu).mem@, old(cpu).reg.sp))).with_t(12),
{
    let v = cpu.pop_stack();
    cpu.reg.set_de(v);
    cpu.t_cycles = 12;
}

// 'PUSH HL' E5
pub fn PUSH_hl(cpu: &mut CPU)
    requires
        old(cpu).wf(),
    ensures
        final(cpu).wf(),
        final(cpu).reg == old(cpu).reg.with_sp(wrap16(old(cpu).reg.sp - 2)),
        final(cpu).mem@ == spec_write_w(old(cpu).mem@, wrap16(old(cpu).reg.sp - 2), old(cpu).reg.hl()),
        final(cpu).t_cycles == 16,
        final(cpu).ctrl_eq(*old(cpu)),
{
    let v = cpu.reg.get_hl();
    cpu.push_stack(v);
    cpu.t_cycles = 16;
}

// 'POP HL' E1
pub fn POP_hl(cpu: &mut CPU)
    requires
        old(cpu).wf(),
    ensures
        final(cpu).wf(),
        *final(cpu) == old(cpu).with_reg(old(cpu).reg
            .with_sp(wrap16(old(cpu).reg.sp + 2))
            .with_hl(spec_read_w(old(cpu).mem@, old(cpu).reg.sp))).with_t(12),
{
    let v = cpu.pop_stack();
    cpu.reg.set_hl(v);
    cpu.t_cycles = 12;
}

// 'PUSH AF' F5
pub fn PUSH_af(cpu: &mut CPU)
    requires
        old(cpu).wf(),
    ensures
        final(cpu).wf(),
        final(cpu).reg == old(cpu).reg.with_sp(wrap16(old(cpu).reg.sp - 2)),
        final(cpu).mem@ == spec_write_w(old(cpu).mem@, wrap16(old(cpu).reg.sp - 2), old(cpu).reg.af()),
        final(cpu).t_cycles == 16,
        final(cpu).ctrl_eq(*old(cpu)),
{
    let v = cpu.reg.get_af();
    cpu.push_stack(v);
    cpu.t_cycles = 16;
}

// 'POP AF' F1
pub fn POP_af(cpu: &mut CPU)
    requires
        old(cpu).wf(),
    ensures
        final(cpu).wf(),
        *final(cpu) == old(cpu).with_reg(old(cpu).reg
            .with_sp(wrap16(old(cpu).reg.sp + 2))
            .with_af(spec_read_w(old(cpu).mem@, old(cpu).reg.sp))).with_t(12),
{
    let v = cpu.pop_stack();
    cpu.reg.set_af(v);
    cpu.t_cycles = 12;
}

} // verus!
