//! The load family: 8-bit and 16-bit moves between registers, immediates
//! and memory, including the auto-increment/decrement and high-page forms.
//! Plain loads never touch the flags; the LDHL SP+n form is the one
//! exception and recomputes them.
#![allow(non_snake_case)]

use vstd::prelude::*;
use crate::cpu::{CPU, stores_byte};
use crate::alu::{sign8, wrap16};
use crate::mmu::{spec_read_b, spec_read_w, spec_write_w};

verus! {

// 'LD B,n' 06
pub fn LD_B_n(cpu: &mut CPU)
    requires
        old(cpu).wf(),
    ensures
        final(cpu).wf(),
        *final(cpu) == old(cpu).with_reg(old(cpu).reg
            .with_pc(wrap16(old(cpu).reg.pc + 1))
            .with_b(spec_read_b(old(cpu).mem@, old(cpu).reg.pc))).with_t(8),
{
    let n = cpu.get_immediate8();
    cpu.reg.b = n;
    cpu.t_cycles = 8;
}

// 'LD C,n' 0E
pub fn LD_C_n(cpu: &mut CPU)
    requires
        old(cpu).wf(),
    ensures
        final(cpu).wf(),
        *final(cpu) == old(cpu).with_reg(old(cpu).reg
            .with_pc(wrap16(old(cpu).reg.pc + 1))
            .with_c(spec_read_b(old(cpu).mem@, old(cpu).reg.pc))).with_t(8),
{
    let n = cpu.get_immediate8();
    cpu.reg.c = n;
    cpu.t_cycles = 8;
}

// 'LD D,n' 16
pub fn LD_D_n(cpu: &mut CPU)
    requires
        old(cpu).wf(),
    ensures
        final(cpu).wf(),
        *final(cpu) == old(cpu).with_reg(old(cpu).reg
            .with_pc(wrap16(old(cpu).reg.pc + 1))
            .with_d(spec_read_b(old(cpu).mem@, old(cpu).reg.pc))).with_t(8),
{
    let n = cpu.get_immediate8();
    cpu.reg.d = n;
    cpu.t_cycles = 8;
}

// 'LD E,n' 1E
pub fn LD_E_n(cpu: &mut CPU)
    requires
        old(cpu).wf(),
    ensures
        final(cpu).wf(),
        *final(cpu) == old(cpu).with_reg(old(cpu).reg
            .with_pc(wrap16(old(cpu).reg.pc + 1))
            .with_e(spec_read_b(old(cpu).mem@, old(cpu).reg.pc))).with_t(8),
{
    let n = cpu.get_immediate8();
    cpu.reg.e = n;
    cpu.t_cycles = 8;
}

// 'LD H,n' 26
pub fn LD_H_n(cpu: &mut CPU)
    requires
        old(cpu).wf(),
    ensures
        final(cpu).wf(),
        *final(cpu) == old(cpu).with_reg(old(cpu).reg
            .with_pc(wrap16(old(cpu).reg.pc + 1))
            .with_h(spec_read_b(old(cpu).mem@, old(cpu).reg.pc))).with_t(8),
{
    let n = cpu.get_immediate8();
    cpu.reg.h = n;
    cpu.t_cycles = 8;
}

// 'LD L,n' 2E
pub fn LD_L_n(cpu: &mut CPU)
    requires
        old(cpu).wf(),
    ensures
        final(cpu).wf(),
        *final(cpu) == old(cpu).with_reg(old(cpu).reg
            .with_pc(wrap16(old(cpu).reg.pc + 1))
            .with_l(spec_read_b(old(cpu).mem@, old(cpu).reg.pc))).with_t(8),
{
    let n = cpu.get_immediate8();
    cpu.reg.l = n;
    cpu.t_cycles = 8;
}

// 'LD A,n' 3E
pub fn LD_a_n(cpu: &mut CPU)
    requires
        old(cpu).wf(),
    ensures
        final(cpu).wf(),
        *final(cpu) == old(cpu).with_reg(old(cpu).reg
            .with_pc(wrap16(old(cpu).reg.pc + 1))
            .with_a(spec_read_b(old(cpu).mem@, old(cpu).reg.pc))).with_t(8),
{
    let n = cpu.get_immediate8();
    cpu.reg.a = n;
    cpu.t_cycles = 8;
}

// 'LD A,A' 7F
pub fn LD_a_a(cpu: &mut CPU)
    ensures
        *final(cpu) == old(cpu).with_reg(old(cpu).reg.with_a(old(cpu).reg.a)).with_t(4),
{
    cpu.reg.a = cpu.reg.a;
    cpu.t_cycles = 4;
}

// 'LD A,B' 78
pub fn LD_a_b(cpu: &mut CPU)
    ensures
        *final(cpu) == old(cpu).with_reg(old(cpu).reg.with_a(old(cpu).reg.b)).with_t(4),
{
    cpu.reg.a = cpu.reg.b;
    cpu.t_cycles = 4;
}

// 'LD A,C' 79
pub fn LD_a_c(cpu: &mut CPU)
    ensures
        *final(cpu) == old(cpu).with_reg(old(cpu).reg.with_a(old(cpu).reg.c)).with_t(4),
{
    cpu.reg.a = cpu.reg.c;
    cpu.t_cycles = 4;
}

// 'LD A,D' 7A
pub fn LD_a_d(cpu: &mut CPU)
    ensures
        *final(cpu) == old(cpu).with_reg(old(cpu).reg.with_a(old(cpu).reg.d)).with_t(4),
{
    cpu.reg.a = cpu.reg.d;
    cpu.t_cycles = 4;
}

// 'LD A,E' 7B
pub fn LD_a_e(cpu: &mut CPU)
    ensures
        *final(cpu) == old(cpu).with_reg(old(cpu).reg.with_a(old(cpu).reg.e)).with_t(4),
{
    cpu.reg.a = cpu.reg.e;
    cpu.t_cycles = 4;
}

// 'LD A,H' 7C
pub fn LD_a_h(cpu: &mut CPU)
    ensures
        *final(cpu) == old(cpu).with_reg(old(cpu).reg.with_a(old(cpu).reg.h)).with_t(4),
{
    cpu.reg.a = cpu.reg.h;
    cpu.t_cycles = 4;
}

// 'LD A,L' 7D
pub fn LD_a_l(cpu: &mut CPU)
    ensures
        *final(cpu) == old(cpu).with_reg(old(cpu).reg.with_a(old(cpu).reg.l)).with_t(4),
{
    cpu.reg.a = cpu.reg.l;
    cpu.t_cycles = 4;
}

// 'LD B,B' 40
pub fn LD_b_b(cpu: &mut CPU)
    ensures
        *final(cpu) == old(cpu).with_reg(old(cpu).reg.with_b(old(cpu).reg.b)).with_t(4),
{
    cpu.reg.b = cpu.reg.b;
    cpu.t_cycles = 4;
}

// 'LD B,C' 41
pub fn LD_b_c(cpu: &mut CPU)
    ensures
        *final(cpu) == old(cpu).with_reg(old(cpu).reg.with_b(old(cpu).reg.c)).with_t(4),
{
    cpu.reg.b = cpu.reg.c;
    cpu.t_cycles = 4;
}

// 'LD B,D' 42
pub fn LD_b_d(cpu: &mut CPU)
    ensures
        *final(cpu) == old(cpu).with_reg(old(cpu).reg.with_b(old(cpu).reg.d)).with_t(4),
{
    cpu.reg.b = cpu.reg.d;
    cpu.t_cycles = 4;
}

// 'LD B,E' 43
pub fn LD_b_e(cpu: &mut CPU)
    ensures
        *final(cpu) == old(cpu).with_reg(old(cpu).reg.with_b(old(cpu).reg.e)).with_t(4),
{
    cpu.reg.b = cpu.reg.e;
    cpu.t_cycles = 4;
}

// 'LD B,H' 44
pub fn LD_b_h(cpu: &mut CPU)
    ensures
        *final(cpu) == old(cpu).with_reg(old(cpu).reg.with_b(old(cpu).reg.h)).with_t(4),
{
    cpu.reg.b = cpu.reg.h;
    cpu.t_cycles = 4;
}

// 'LD B,L' 45
pub fn LD_b_l(cpu: &mut CPU)
    ensures
        *final(cpu) == old(cpu).with_reg(old(cpu).reg.with_b(old(cpu).reg.l)).with_t(4),
{
    cpu.reg.b = cpu.reg.l;
    cpu.t_cycles = 4;
}

// 'LD B,A' 47
pub fn LD_b_a(cpu: &mut CPU)
    ensures
        *final(cpu) == old(cpu).with_reg(old(cpu).reg.with_b(old(cpu).reg.a)).with_t(4),
{
    cpu.reg.b = cpu.reg.a;
    cpu.t_cycles = 4;
}

// 'LD B,(HL)' 46
pub fn LD_b_HLm(cpu: &mut CPU)
    requires
        old(cpu).wf(),
    ensures
        final(cpu).wf(),
        *final(cpu) == old(cpu).with_reg(old(cpu).reg.with_b(
            spec_read_b(old(cpu).mem@, old(cpu).reg.hl()))).with_t(8),
{
    let addr = cpu.reg.get_hl();
    let v = cpu.mem.read_b(addr);
    cpu.reg.b = v;
    cpu.t_cycles = 8;
}

// 'LD C,B' 48
pub fn LD_c_b(cpu: &mut CPU)
    ensures
        *final(cpu) == old(cpu).with_reg(old(cpu).reg.with_c(old(cpu).reg.b)).with_t(4),
{
    cpu.reg.c = cpu.reg.b;
    cpu.t_cycles = 4;
}

// 'LD C,C' 49
pub fn LD_c_c(cpu: &mut CPU)
    ensures
        *final(cpu) == old(cpu).with_reg(old(cpu).reg.with_c(old(cpu).reg.c)).with_t(4),
{
    cpu.reg.c = cpu.reg.c;
    cpu.t_cycles = 4;
}

// 'LD C,D' 4A
pub fn LD_c_d(cpu: &mut CPU)
    ensures
        *final(cpu) == old(cpu).with_reg(old(cpu).reg.with_c(old(cpu).reg.d)).with_t(4),
{
    cpu.reg.c = cpu.reg.d;
    cpu.t_cycles = 4;
}

// 'LD C,E' 4B
pub fn LD_c_e(cpu: &mut CPU)
    ensures
        *final(cpu) == old(cpu).with_reg(old(cpu).reg.with_c(old(cpu).reg.e)).with_t(4),
{
    cpu.reg.c = cpu.reg.e;
    cpu.t_cycles = 4;
}

// 'LD C,H' 4C
pub fn LD_c_h(cpu: &mut CPU)
    ensures
        *final(cpu) == old(cpu).with_reg(old(cpu).reg.with_c(old(cpu).reg.h)).with_t(4),
{
    cpu.reg.c = cpu.reg.h;
    cpu.t_cycles = 4;
}

// 'LD C,L' 4D
pub fn LD_c_l(cpu: &mut CPU)
    ensures
        *final(cpu) == old(cpu).with_reg(old(cpu).reg.with_c(old(cpu).reg.l)).with_t(4),
{
    cpu.reg.c = cpu.reg.l;
    cpu.t_cycles = 4;
}

// 'LD C,A' 4F
pub fn LD_c_a(cpu: &mut CPU)
    ensures
        *final(cpu) == old(cpu).with_reg(old(cpu).reg.with_c(old(cpu).reg.a)).with_t(4),
{
    cpu.reg.c = cpu.reg.a;
    cpu.t_cycles = 4;
}

// 'LD C,(HL)' 4E
pub fn LD_c_HLm(cpu: &mut CPU)
    requires
        old(cpu).wf(),
    ensures
        final(cpu).wf(),
        *final(cpu) == old(cpu).with_reg(old(cpu).reg.with_c(
            spec_read_b(old(cpu).mem@, old(cpu).reg.hl()))).with_t(8),
{
    let addr = cpu.reg.get_hl();
    let v = cpu.mem.read_b(addr);
    cpu.reg.c = v;
    cpu.t_cycles = 8;
}

// 'LD D,B' 50
pub fn LD_d_b(cpu: &mut CPU)
    ensures
        *final(cpu) == old(cpu).with_reg(old(cpu).reg.with_d(old(cpu).reg.b)).with_t(4),
{
    cpu.reg.d = cpu.reg.b;
    cpu.t_cycles = 4;
}

// 'LD D,C' 51
pub fn LD_d_c(cpu: &mut CPU)
    ensures
        *final(cpu) == old(cpu).with_reg(old(cpu).reg.with_d(old(cpu).reg.c)).with_t(4),
{
    cpu.reg.d = cpu.reg.c;
    cpu.t_cycles = 4;
}

// 'LD D,E' 53
pub fn LD_d_e(cpu: &mut CPU)
    ensures
        *final(cpu) == old(cpu).with_reg(old(cpu).reg.with_d(old(cpu).reg.e)).with_t(4),
{
    cpu.reg.d = cpu.reg.e;
    cpu.t_cycles = 4;
}

// 'LD D,D' 52
pub fn LD_d_d(cpu: &mut CPU)
    ensures
        *final(cpu) == old(cpu).with_reg(old(cpu).reg.with_d(old(cpu).reg.d)).with_t(4),
{
    cpu.reg.d = cpu.reg.d;
    cpu.t_cycles = 4;
}

// 'LD D,H' 54
pub fn LD_d_h(cpu: &mut CPU)
    ensures
        *final(cpu) == old(cpu).with_reg(old(cpu).reg.with_d(old(cpu).reg.h)).with_t(4),
{
    cpu.reg.d = cpu.reg.h;
    cpu.t_cycles = 4;
}

// 'LD D,L' 55
pub fn LD_d_l(cpu: &mut CPU)
    ensures
        *final(cpu) == old(cpu).with_reg(old(cpu).reg.with_d(old(cpu).reg.l)).with_t(4),
{
    cpu.reg.d = cpu.reg.l;
    cpu.t_cycles = 4;
}

// 'LD D,A' 57
pub fn LD_d_a(cpu: &mut CPU)
    ensures
        *final(cpu) == old(cpu).with_reg(old(cpu).reg.with_d(old(cpu).reg.a)).with_t(4),
{
    cpu.reg.d = cpu.reg.a;
    cpu.t_cycles = 4;
}

// 'LD D,(HL)' 56
pub fn LD_d_HLm(cpu: &mut CPU)
    requires
        old(cpu).wf(),
    ensures
        final(cpu).wf(),
        *final(cpu) == old(cpu).with_reg(old(cpu).reg.with_d(
            spec_read_b(old(cpu).mem@, old(cpu).reg.hl()))).with_t(8),
{
    let addr = cpu.reg.get_hl();
    let v = cpu.mem.read_b(addr);
    cpu.reg.d = v;
    cpu.t_cycles = 8;
}

// 'LD E,B' 58
pub fn LD_e_b(cpu: &mut CPU)
    ensures
        *final(cpu) == old(cpu).with_reg(old(cpu).reg.with_e(old(cpu).reg.b)).with_t(4),
{
    cpu.reg.e = cpu.reg.b;
    cpu.t_cycles = 4;
}

// 'LD E,C' 59
pub fn LD_e_c(cpu: &mut CPU)
    ensures
        *final(cpu) == old(cpu).with_reg(old(cpu).reg.with_e(old(cpu).reg.c)).with_t(4),
{
    cpu.reg.e = cpu.reg.c;
    cpu.t_cycles = 4;
}

// 'LD E,D' 5A
pub fn LD_e_d(cpu: &mut CPU)
    ensures
        *final(cpu) == old(cpu).with_reg(old(cpu).reg.with_e(old(cpu).reg.d)).with_t(4),
{
    cpu.reg.e = cpu.reg.d;
    cpu.t_cycles = 4;
}

// 'LD E,E' 5B
pub fn LD_e_e(cpu: &mut CPU)
    ensures
        *final(cpu) == old(cpu).with_reg(old(cpu).reg.with_e(old(cpu).reg.e)).with_t(4),
{
    cpu.reg.e = cpu.reg.e;
    cpu.t_cycles = 4;
}

// 'LD E,H' 5C
pub fn LD_e_h(cpu: &mut CPU)
    ensures
        *final(cpu) == old(cpu).with_reg(old(cpu).reg.with_e(old(cpu).reg.h)).with_t(4),
{
    cpu.reg.e = cpu.reg.h;
    cpu.t_cycles = 4;
}

// 'LD E,L' 5D
pub fn LD_e_l(cpu: &mut CPU)
    ensures
        *final(cpu) == old(cpu).with_reg(old(cpu).reg.with_e(old(cpu).reg.l)).with_t(4),
{
    cpu.reg.e = cpu.reg.l;
    cpu.t_cycles = 4;
}

// 'LD E,A' 5F
pub fn LD_e_a(cpu: &mut CPU)
    ensures
        *final(cpu) == old(cpu).with_reg(old(cpu).reg.with_e(old(cpu).reg.a)).with_t(4),
{
    cpu.reg.e = cpu.reg.a;
    cpu.t_cycles = 4;
}

// 'LD E,(HL)' 5E
pub fn LD_e_HLm(cpu: &mut CPU)
    requires
        old(cpu).wf(),
    ensures
        final(cpu).wf(),
        *final(cpu) == old(cpu).with_reg(old(cpu).reg.with_e(
            spec_read_b(old(cpu).mem@, old(cpu).reg.hl()))).with_t(8),
{
    let addr = cpu.reg.get_hl();
    let v = cpu.mem.read_b(addr);
    cpu.reg.e = v;
    cpu.t_cycles = 8;
}

// 'LD H,B' 60
pub fn LD_h_b(cpu: &mut CPU)
    ensures
        *final(cpu) == old(cpu).with_reg(old(cpu).reg.with_h(old(cpu).reg.b)).with_t(4),
{
    cpu.reg.h = cpu.reg.b;
    cpu.t_cycles = 4;
}

// 'LD H,C' 61
pub fn LD_h_c(cpu: &mut CPU)
    ensures
        *final(cpu) == old(cpu).with_reg(old(cpu).reg.with_h(old(cpu).reg.c)).with_t(4),
{
    cpu.reg.h = cpu.reg.c;
    cpu.t_cycles = 4;
}

// 'LD H,D' 62
pub fn LD_h_d(cpu: &mut CPU)
    ensures
        *final(cpu) == old(cpu).with_reg(old(cpu).reg.with_h(old(cpu).reg.d)).with_t(4),
{
    cpu.reg.h = cpu.reg.d;
    cpu.t_cycles = 4;
}

// 'LD H,E' 63
pub fn LD_h_e(cpu: &mut CPU)
    ensures
        *final(cpu) == old(cpu).with_reg(old(cpu).reg.with_h(old(cpu).reg.e)).with_t(4),
{
    cpu.reg.h = cpu.reg.e;
    cpu.t_cycles = 4;
}

// 'LD H,H' 64
pub fn LD_h_h(cpu: &mut CPU)
    ensures
        *final(cpu) == old(cpu).with_reg(old(cpu).reg.with_h(old(cpu).reg.h)).with_t(4),
{
    cpu.reg.h = cpu.reg.h;
    cpu.t_cycles = 4;
}

// 'LD H,L' 65
pub fn LD_h_l(cpu: &mut CPU)
    ensures
        *final(cpu) == old(cpu).with_reg(old(cpu).reg.with_h(old(cpu).reg.l)).with_t(4),
{
    cpu.reg.h = cpu.reg.l;
    cpu.t_cycles = 4;
}

// 'LD H,A' 67
pub fn LD_h_a(cpu: &mut CPU)
    ensures
        *final(cpu) == old(cpu).with_reg(old(cpu).reg.with_h(old(cpu).reg.a)).with_t(4),
{
    cpu.reg.h = cpu.reg.a;
    cpu.t_cycles = 4;
}

// 'LD H,(HL)' 66
pub fn LD_h_HLm(cpu: &mut CPU)
    requires
        old(cpu).wf(),
    ensures
        final(cpu).wf(),
        *final(cpu) == old(cpu).with_reg(old(cpu).reg.with_h(
            spec_read_b(old(cpu).mem@, old(cpu).reg.hl()))).with_t(8),
{
    let addr = cpu.reg.get_hl();
    let v = cpu.mem.read_b(addr);
    cpu.reg.h = v;
    cpu.t_cycles = 8;
}

// 'LD L,B' 68
pub fn LD_l_b(cpu: &mut CPU)
    ensures
        *final(cpu) == old(cpu).with_reg(old(cpu).reg.with_l(old(cpu).reg.b)).with_t(4),
{
    cpu.reg.l = cpu.reg.b;
    cpu.t_cycles = 4;
}

// 'LD L,C' 69
pub fn LD_l_c(cpu: &mut CPU)
    ensures
        *final(cpu) == old(cpu).with_reg(old(cpu).reg.with_l(old(cpu).reg.c)).with_t(4),
{
    cpu.reg.l = cpu.reg.c;
    cpu.t_cycles = 4;
}

// 'LD L,D' 6A
pub fn LD_l_d(cpu: &mut CPU)
    ensures
        *final(cpu) == old(cpu).with_reg(old(cpu).reg.with_l(old(cpu).reg.d)).with_t(4),
{
    cpu.reg.l = cpu.reg.d;
    cpu.t_cycles = 4;
}

// 'LD L,E' 6B
pub fn LD_l_e(cpu: &mut CPU)
    ensures
        *final(cpu) == old(cpu).with_reg(old(cpu).reg.with_l(old(cpu).reg.e)).with_t(4),
{
    cpu.reg.l = cpu.reg.e;
    cpu.t_cycles = 4;
}

// 'LD L,H' 6C
pub fn LD_l_h(cpu: &mut CPU)
    ensures
        *final(cpu) == old(cpu).with_reg(old(cpu).reg.with_l(old(cpu).reg.h)).with_t(4),
{
    cpu.reg.l = cpu.reg.h;
    cpu.t_cycles = 4;
}

// 'LD L,L' 6D
pub fn LD_l_l(cpu: &mut CPU)
    ensures
        *final(cpu) == old(cpu).with_reg(old(cpu).reg.with_l(old(cpu).reg.l)).with_t(4),
{
    cpu.reg.l = cpu.reg.l;
    cpu.t_cycles = 4;
}

// 'LD L,A' 6F
pub fn LD_l_a(cpu: &mut CPU)
    ensures
        *final(cpu) == old(cpu).with_reg(old(cpu).reg.with_l(old(cpu).reg.a)).with_t(4),
{
    cpu.reg.l = cpu.reg.a;
    cpu.t_cycles = 4;
}

// 'LD L,(HL)' 6E
pub fn LD_l_HLm(cpu: &mut CPU)
    requires
        old(cpu).wf(),
    ensures
        final(cpu).wf(),
        *final(cpu) == old(cpu).with_reg(old(cpu).reg.with_l(
            spec_read_b(old(cpu).mem@, old(cpu).reg.hl()))).with_t(8),
{
    let addr = cpu.reg.get_hl();
    let v = cpu.mem.read_b(addr);
    cpu.reg.l = v;
    cpu.t_cycles = 8;
}

// 'LD (HL),B' 70
pub fn LD_HLm_b(cpu: &mut CPU)
    requires
        old(cpu).wf(),
    ensures
        final(cpu).wf(),
        stores_byte(*old(cpu), *final(cpu), old(cpu).reg.hl(), old(cpu).reg.b, 8, old(cpu).reg),
{
    let addr = cpu.reg.get_hl();
    let v = cpu.reg.b;
    cpu.mem.write_b(addr, v);
    cpu.t_cycles = 8;
}

// 'LD (HL),C' 71
pub fn LD_HLm_c(cpu: &mut CPU)
    requires
        old(cpu).wf(),
    ensures
        final(cpu).wf(),
        stores_byte(*old(cpu), *final(cpu), old(cpu).reg.hl(), old(cpu).reg.c, 8, old(cpu).reg),
{
    let addr = cpu.reg.get_hl();
    let v = cpu.reg.c;
    cpu.mem.write_b(addr, v);
    cpu.t_cycles = 8;
}

// 'LD (HL),D' 72
pub fn LD_HLm_d(cpu: &mut CPU)
    requires
        old(cpu).wf(),
    ensures
        final(cpu).wf(),
        stores_byte(*old(cpu), *final(cpu), old(cpu).reg.hl(), old(cpu).reg.d, 8, old(cpu).reg),
{
    let addr = cpu.reg.get_hl();
    let v = cpu.reg.d;
    cpu.mem.write_b(addr, v);
    cpu.t_cycles = 8;
}

// 'LD (HL),E' 73
pub fn LD_HLm_e(cpu: &mut CPU)
    requires
        old(cpu).wf(),
    ensures
        final(cpu).wf(),
        stores_byte(*old(cpu), *final(cpu), old(cpu).reg.hl(), old(cpu).reg.e, 8, old(cpu).reg),
{
    let addr = cpu.reg.get_hl();
    let v = cpu.reg.e;
    cpu.mem.write_b(addr, v);
    cpu.t_cycles = 8;
}

// 'LD (HL),H' 74
pub fn LD_HLm_h(cpu: &mut CPU)
    requires
        old(cpu).wf(),
    ensures
        final(cpu).wf(),
        stores_byte(*old(cpu), *final(cpu), old(cpu).reg.hl(), old(cpu).reg.h, 8, old(cpu).reg),
{
    let addr = cpu.reg.get_hl();
    let v = cpu.reg.h;
    cpu.mem.write_b(addr, v);
    cpu.t_cycles = 8;
}

// 'LD (HL),L' 75
pub fn LD_HLm_l(cpu: &mut CPU)
    requires
        old(cpu).wf(),
    ensures
        final(cpu).wf(),
        stores_byte(*old(cpu), *final(cpu), old(cpu).reg.hl(), old(cpu).reg.l, 8, old(cpu).reg),
{
    let addr = cpu.reg.get_hl();
    let v = cpu.reg.l;
    cpu.mem.write_b(addr, v);
    cpu.t_cycles = 8;
}

// 'LD (HL),n' 36
pub fn LD_HLm_n(cpu: &mut CPU)
    requires
        old(cpu).wf(),
    ensures
        final(cpu).wf(),
        stores_byte(*old(cpu), *final(cpu), old(cpu).reg.hl(),
            spec_read_b(old(cpu).mem@, old(cpu).reg.pc), 12,
            old(cpu).reg.with_pc(wrap16(old(cpu).reg.pc + 1))),
{
    let n = cpu.get_immediate8();
    let addr = cpu.reg.get_hl();
    cpu.mem.write_b(addr, n);
    cpu.t_cycles = 12;
}

// 'LD (HL),A' 77
pub fn LD_HLm_a(cpu: &mut CPU)
    requires
        old(cpu).wf(),
    ensures
        final(cpu).wf(),
        stores_byte(*old(cpu), *final(cpu), old(cpu).reg.hl(), old(cpu).reg.a, 8, old(cpu).reg),
{
    let addr = cpu.reg.get_hl();
    let v = cpu.reg.a;
    cpu.mem.write_b(addr, v);
    cpu.t_cycles = 8;
}

// 'LD A,(BC)' 0A
pub fn LD_a_BCm(cpu: &mut CPU)
    requires
        old(cpu).wf(),
    ensures
        final(cpu).wf(),
        *final(cpu) == old(cpu).with_reg(old(cpu).reg.with_a(
            spec_read_b(old(cpu).mem@, old(cpu).reg.bc()))).with_t(8),
{
    let addr = cpu.reg.get_bc();
    let v = cpu.mem.read_b(addr);
    cpu.reg.a = v;
    cpu.t_cycles = 8;
}

// 'LD A,(DE)' 1A
pub fn LD_a_DEm(cpu: &mut CPU)
    requires
        old(cpu).wf(),
    ensures
        final(cpu).wf(),
        *final(cpu) == old(cpu).with_reg(old(cpu).reg.with_a(
            spec_read_b(old(cpu).mem@, old(cpu).reg.de()))).with_t(8),
{
    let addr = cpu.reg.get_de();
    let v = cpu.mem.read_b(addr);
    cpu.reg.a = v;
    cpu.t_cycles = 8;
}

// 'LD A,(HL)' 7E
pub fn LD_a_HLm(cpu: &mut CPU)
    requires
        old(cpu).wf(),
    ensures
        final(cpu).wf(),
        *final(cpu) == old(cpu).with_reg(old(cpu).reg.with_a(
            spec_read_b(old(cpu).mem@, old(cpu).reg.hl()))).with_t(8),
{
    let addr = cpu.reg.get_hl();
    let v = cpu.mem.read_b(addr);
    cpu.reg.a = v;
    cpu.t_cycles = 8;
}

// 'LD A,(nn)' FA
pub fn LD_a_nnm(cpu: &mut CPU)
    requires
        old(cpu).wf(),
    ensures
        final(cpu).wf(),
        *final(cpu) == old(cpu).with_reg(old(cpu).reg
            .with_pc(wrap16(old(cpu).reg.pc + 2))
            .with_a(spec_read_b(old(cpu).mem@, spec_read_w(old(cpu).mem@, old(cpu).reg.pc)))).with_t(16),
{
    let addr = cpu.get_immediate16();
    let v = cpu.mem.read_b(addr);
    cpu.reg.a = v;
    cpu.t_cycles = 16;
}

// 'LD (BC),A' 02
pub fn LD_BCm_A(cpu: &mut CPU)
    requires
        old(cpu).wf(),
    ensures
        final(cpu).wf(),
        stores_byte(*old(cpu), *final(cpu), old(cpu).reg.bc(), old(cpu).reg.a, 8, old(cpu).reg),
{
    let addr = cpu.reg.get_bc();
    let v = cpu.reg.a;
    cpu.mem.write_b(addr, v);
    cpu.t_cycles = 8;
}

// 'LD (DE),A' 12
pub fn LD_DEm_A(cpu: &mut CPU)
    requires
        old(cpu).wf(),
    ensures
        final(cpu).wf(),
        stores_byte(*old(cpu), *final(cpu), old(cpu).reg.de(), old(cpu).reg.a, 8, old(cpu).reg),
{
    let addr = cpu.reg.get_de();
    let v = cpu.reg.a;
    cpu.mem.write_b(addr, v);
    cpu.t_cycles = 8;
}

// 'LD (nn),A' EA
pub fn LD_nnm_A(cpu: &mut CPU)
    requires
        old(cpu).wf(),
    ensures
        final(cpu).wf(),
        stores_byte(*old(cpu), *final(cpu), spec_read_w(old(cpu).mem@, old(cpu).reg.pc),
            old(cpu).reg.a, 16, old(cpu).reg.with_pc(wrap16(old(cpu).reg.pc + 2))),
{
    let addr = cpu.get_immediate16();
    let v = cpu.reg.a;
    cpu.mem.write_b(addr, v);
    cpu.t_cycles = 16;
}

// 'LD A,(C)' F2: high-page read indexed by C. The page mask is applied to
// the register value even though the sum always lands inside the page.
pub fn LD_a_c_mem(cpu: &mut CPU)
    requires
        old(cpu).wf(),
    ensures
        final(cpu).wf(),
        *final(cpu) == old(cpu).with_reg(old(cpu).reg.with_a(
            spec_read_b(old(cpu).mem@, (0xFF00 + old(cpu).reg.c) as u16))).with_t(8),
{
    let addr: u16 = 0xFF00 + (cpu.reg.c as u16);
    let v = cpu.mem.read_b(addr);
    cpu.reg.a = v;
    cpu.t_cycles = 8;
}

// 'LD (C),A' E2: high-page write indexed by C.
pub fn LD_c_mem_a(cpu: &mut CPU)
    requires
        old(cpu).wf(),
    ensures
        final(cpu).wf(),
        stores_byte(*old(cpu), *final(cpu), (0xFF00 + old(cpu).reg.c) as u16,
            old(cpu).reg.a, 8, old(cpu).reg),
{
    let addr: u16 = 0xFF00 + (cpu.reg.c as u16);
    let v = cpu.reg.a;
    cpu.mem.write_b(addr, v);
    cpu.t_cycles = 8;
}

// 'LDH (n),A' E0: high-page write with an 8-bit offset.
pub fn LDH_nm_a(cpu: &mut CPU)
    requires
        old(cpu).wf(),
    ensures
        final(cpu).wf(),
        stores_byte(*old(cpu), *final(cpu),
            (0xFF00 + spec_read_b(old(cpu).mem@, old(cpu).reg.pc)) as u16,
            old(cpu).reg.a, 12, old(cpu).reg.with_pc(wrap16(old(cpu).reg.pc + 1))),
{
    let n = cpu.get_immediate8();
    let addr: u16 = 0xFF00 + (n as u16);
    let v = cpu.reg.a;
    cpu.mem.write_b(addr, v);
    cpu.t_cycles = 12;
}

// 'LDH A,(n)' F0: high-page read with an 8-bit offset.
pub fn LDH_a_nm(cpu: &mut CPU)
    requires
        old(cpu).wf(),
    ensures
        final(cpu).wf(),
        *final(cpu) == old(cpu).with_reg(old(cpu).reg
            .with_pc(wrap16(old(cpu).reg.pc + 1))
            .with_a(spec_read_b(old(cpu).mem@,
                (0xFF00 + spec_read_b(old(cpu).mem@, old(cpu).reg.pc)) as u16))).with_t(12),
{
    let n = cpu.get_immediate8();
    let addr: u16 = 0xFF00 + (n as u16);
    let v = cpu.mem.read_b(addr);
    cpu.reg.a = v;
    cpu.t_cycles = 12;
}

// 'LDI (HL),A' 22: store, then increment HL.
pub fn LDI_HLm_a(cpu: &mut CPU)
    requires
        old(cpu).wf(),
    ensures
        final(cpu).wf(),
        stores_byte(*old(cpu), *final(cpu), old(cpu).reg.hl(), old(cpu).reg.a, 8,
            old(cpu).reg.with_hl(wrap16(old(cpu).reg.hl() + 1))),
{
    let addr = cpu.reg.get_hl();
    let v = cpu.reg.a;
    cpu.mem.write_b(addr, v);
    cpu.reg.set_hl(addr.wrapping_add(1));
    cpu.t_cycles = 8;
}

// 'LDI A,(HL)' 2A: load, then increment HL.
pub fn LDI_a_HLm(cpu: &mut CPU)
    requires
        old(cpu).wf(),
    ensures
        final(cpu).wf(),
        *final(cpu) == old(cpu).with_reg(old(cpu).reg
            .with_a(spec_read_b(old(cpu).mem@, old(cpu).reg.hl()))
            .with_hl(wrap16(old(cpu).reg.hl() + 1))).with_t(8),
{
    let addr = cpu.reg.get_hl();
    let v = cpu.mem.read_b(addr);
    cpu.reg.a = v;
    cpu.reg.set_hl(addr.wrapping_add(1));
    cpu.t_cycles = 8;
}

// 'LDD (HL),A' 32: store, then decrement HL.
pub fn LDD_HLm_a(cpu: &mut CPU)
    requires
        old(cpu).wf(),
    ensures
        final(cpu).wf(),
        stores_byte(*old(cpu), *final(cpu), old(cpu).reg.hl(), old(cpu).reg.a, 8,
            old(cpu).reg.with_hl(wrap16(old(cpu).reg.hl() - 1))),
{
    let addr = cpu.reg.get_hl();
    let v = cpu.reg.a;
    cpu.mem.write_b(addr, v);
    cpu.reg.set_hl(addr.wrapping_sub(1));
    cpu.t_cycles = 8;
}

// 'LDD A,(HL)' 3A: load, then decrement HL.
pub fn LDD_a_HLm(cpu: &mut CPU)
    requires
        old(cpu).wf(),
    ensures
        final(cpu).wf(),
        *final(cpu) == old(cpu).with_reg(old(cpu).reg
            .with_a(spec_read_b(old(cpu).mem@, old(cpu).reg.hl()))
            .with_hl(wrap16(old(cpu).reg.hl() - 1))).with_t(8),
{
    let addr = cpu.reg.get_hl();
    let v = cpu.mem.read_b(addr);
    cpu.reg.a = v;
    cpu.reg.set_hl(addr.wrapping_sub(1));
    cpu.t_cycles = 8;
}

// 'LD BC,nn' 01
pub fn LD_bc_nn(cpu: &mut CPU)
    requires
        old(cpu).wf(),
    ensures
        final(cpu).wf(),
        *final(cpu) == old(cpu).with_reg(old(cpu).reg
            .with_pc(wrap16(old(cpu).reg.pc + 2))
            .with_bc(spec_read_w(old(cpu).mem@, old(cpu).reg.pc))).with_t(12),
{
    let v = cpu.get_immediate16();
    cpu.reg.set_bc(v);
    cpu.t_cycles = 12;
}

// 'LD DE,nn' 11
pub fn LD_de_nn(cpu: &mut CPU)
    requires
        old(cpu).wf(),
    ensures
        final(cpu).wf(),
        *final(cpu) == old(cpu).with_reg(old(cpu).reg
            .with_pc(wrap16(old(cpu).reg.pc + 2))
            .with_de(spec_read_w(old(cpu).mem@, old(cpu).reg.pc))).with_t(12),
{
    let v = cpu.get_immediate16();
    cpu.reg.set_de(v);
    cpu.t_cycles = 12;
}

// 'LD HL,nn' 21
pub fn LD_hl_nn(cpu: &mut CPU)
    requires
        old(cpu).wf(),
    ensures
        final(cpu).wf(),
        *final(cpu) == old(cpu).with_reg(old(cpu).reg
            .with_pc(wrap16(old(cpu).reg.pc + 2))
            .with_hl(spec_read_w(old(cpu).mem@, old(cpu).reg.pc))).with_t(12),
{
    let v = cpu.get_immediate16();
    cpu.reg.set_hl(v);
    cpu.t_cycles = 12;
}

// 'LD SP,nn' 31
pub fn LD_sp_nn(cpu: &mut CPU)
    requires
        old(cpu).wf(),
    ensures
        final(cpu).wf(),
        *final(cpu) == old(cpu).with_reg(old(cpu).reg
            .with_pc(wrap16(old(cpu).reg.pc + 2))
            .with_sp(spec_read_w(old(cpu).mem@, old(cpu).reg.pc))).with_t(12),
{
    let v = cpu.get_immediate16();
    cpu.reg.sp = v;
    cpu.t_cycles = 12;
}

// 'LD (nn),SP' 08
pub fn LD_nnm_sp(cpu: &mut CPU)
    requires
        old(cpu).wf(),
    ensures
        final(cpu).wf(),
        final(cpu).reg == old(cpu).reg.with_pc(wrap16(old(cpu).reg.pc + 2)),
        final(cpu).mem@ == spec_write_w(old(cpu).mem@,
            spec_read_w(old(cpu).mem@, old(cpu).reg.pc), old(cpu).reg.sp),
        final(cpu).t_cycles == 20,
        final(cpu).ctrl_eq(*old(cpu)),
{
    let addr = cpu.get_immediate16();
    let sp = cpu.reg.sp;
    cpu.mem.write_w(addr, sp);
    cpu.t_cycles = 20;
}

// 'LD SP,HL' F9
pub fn LD_sp_hl(cpu: &mut CPU)
    requires
        old(cpu).wf(),
    ensures
        final(cpu).wf(),
        *final(cpu) == old(cpu).with_reg(old(cpu).reg.with_sp(old(cpu).reg.hl())).with_t(8),
{
    let v = cpu.reg.get_hl();
    cpu.reg.sp = v;
    cpu.t_cycles = 8;
}

// 'LDHL SP,n' F8: HL takes SP plus a signed offset; the one load that
// recomputes the flags, from unsigned addition on the low byte of SP.
pub fn LDHL_sp_n(cpu: &mut CPU)
    requires
        old(cpu).wf(),
    ensures
        final(cpu).wf(),
        *final(cpu) == old(cpu).with_reg(old(cpu).reg
            .with_pc(wrap16(old(cpu).reg.pc + 1))
            .with_flags(
                false,
                false,
                old(cpu).reg.sp % 16 + spec_read_b(old(cpu).mem@, old(cpu).reg.pc) % 16 > 15,
                old(cpu).reg.sp % 256 + spec_read_b(old(cpu).mem@, old(cpu).reg.pc) > 255,
            )
            .with_hl(wrap16(old(cpu).reg.sp + sign8(spec_read_b(old(cpu).mem@, old(cpu).reg.pc))))).with_t(12),
{
    let n = cpu.get_immediate8();
    let v = cpu.reg.apply_sp_offset(n);
    cpu.reg.set_hl(v);
    cpu.t_cycles = 12;
}

} // verus!
