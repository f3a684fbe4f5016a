//! The 8-bit arithmetic/logic family: accumulator operations against a
//! register, an immediate or the byte behind HL, and the 8-bit
//! increment/decrement forms. Flag behaviour follows the flag unit exactly;
//! INC and DEC never touch the Carry flag.
#![allow(non_snake_case)]

use vstd::prelude::*;
use crate::cpu::{CPU, stores_byte};
use crate::alu::{wrap8, wrap16};
use crate::mmu::spec_read_b;

verus! {

// 'ADD A,B' 80
pub fn ADD_a_b(cpu: &mut CPU)
    ensures
        *final(cpu) == old(cpu).with_reg(old(cpu).reg.add_acc_spec(old(cpu).reg.b)).with_t(4),
{
    let v = cpu.reg.b;
    cpu.reg.add_acc(v);
    cpu.t_cycles = 4;
}

// 'ADD A,C' 81
pub fn ADD_a_c(cpu: &mut CPU)
    ensures
        *final(cpu) == old(cpu).with_reg(old(cpu).reg.add_acc_spec(old(cpu).reg.c)).with_t(4),
{
    let v = cpu.reg.c;
    cpu.reg.add_acc(v);
    cpu.t_cycles = 4;
}

// 'ADD A,D' 82
pub fn ADD_a_d(cpu: &mut CPU)
    ensures
        *final(cpu) == old(cpu).with_reg(old(cpu).reg.add_acc_spec(old(cpu).reg.d)).with_t(4),
{
    let v = cpu.reg.d;
    cpu.reg.add_acc(v);
    cpu.t_cycles = 4;
}

// 'ADD A,E' 83
pub fn ADD_a_e(cpu: &mut CPU)
    ensures
        *final(cpu) == old(cpu).with_reg(old(cpu).reg.add_acc_spec(old(cpu).reg.e)).with_t(4),
{
    let v = cpu.reg.e;
    cpu.reg.add_acc(v);
    cpu.t_cycles = 4;
}

// 'ADD A,H' 84
pub fn ADD_a_h(cpu: &mut CPU)
    ensures
        *final(cpu) == old(cpu).with_reg(old(cpu).reg.add_acc_spec(old(cpu).reg.h)).with_t(4),
{
    let v = cpu.reg.h;
    cpu.reg.add_acc(v);
    cpu.t_cycles = 4;
}

// 'ADD A,L' 85
pub fn ADD_a_l(cpu: &mut CPU)
    ensures
        *final(cpu) == old(cpu).with_reg(old(cpu).reg.add_acc_spec(old(cpu).reg.l)).with_t(4),
{
    let v = cpu.reg.l;
    cpu.reg.add_acc(v);
    cpu.t_cycles = 4;
}

// 'ADD A,(HL)' 86
pub fn ADD_a_hlm(cpu: &mut CPU)
    requires
        old(cpu).wf(),
    ensures
        final(cpu).wf(),
        *final(cpu) == old(cpu).with_reg(old(cpu).reg.add_acc_spec(
            spec_read_b(old(cpu).mem@, old(cpu).reg.hl()))).with_t(8),
{
    let addr = cpu.reg.get_hl();
    let v = cpu.mem.read_b(addr);
    cpu.reg.add_acc(v);
    cpu.t_cycles = 8;
}

// 'ADD A,A' 87
pub fn ADD_a_a(cpu: &mut CPU)
    ensures
        *final(cpu) == old(cpu).with_reg(old(cpu).reg.add_acc_spec(old(cpu).reg.a)).with_t(4),
{
    let v = cpu.reg.a;
    cpu.reg.add_acc(v);
    cpu.t_cycles = 4;
}

// 'ADD A,n' C6
pub fn ADD_a_n(cpu: &mut CPU)
    requires
        old(cpu).wf(),
    ensures
        final(cpu).wf(),
        *final(cpu) == old(cpu).with_reg(old(cpu).reg
            .with_pc(wrap16(old(cpu).reg.pc + 1))
            .add_acc_spec(spec_read_b(old(cpu).mem@, old(cpu).reg.pc))).with_t(8),
{
    let v = cpu.get_immediate8();
    cpu.reg.add_acc(v);
    cpu.t_cycles = 8;
}

// 'ADC A,B' 88
pub fn ADC_a_b(cpu: &mut CPU)
    ensures
        *final(cpu) == old(cpu).with_reg(old(cpu).reg.adc_acc_spec(old(cpu).reg.b)).with_t(4),
{
    let v = cpu.reg.b;
    cpu.reg.adc_acc(v);
    cpu.t_cycles = 4;
}

// 'ADC A,C' 89
pub fn ADC_a_c(cpu: &mut CPU)
    ensures
        *final(cpu) == old(cpu).with_reg(old(cpu).reg.adc_acc_spec(old(cpu).reg.c)).with_t(4),
{
    let v = cpu.reg.c;
    cpu.reg.adc_acc(v);
    cpu.t_cycles = 4;
}

// 'ADC A,D' 8A
pub fn ADC_a_d(cpu: &mut CPU)
    ensures
        *final(cpu) == old(cpu).with_reg(old(cpu).reg.adc_acc_spec(old(cpu).reg.d)).with_t(4),
{
    let v = cpu.reg.d;
    cpu.reg.adc_acc(v);
    cpu.t_cycles = 4;
}

// 'ADC A,E' 8B
pub fn ADC_a_e(cpu: &mut CPU)
    ensures
        *final(cpu) == old(cpu).with_reg(old(cpu).reg.adc_acc_spec(old(cpu).reg.e)).with_t(4),
{
    let v = cpu.reg.e;
    cpu.reg.adc_acc(v);
    cpu.t_cycles = 4;
}

// 'ADC A,H' 8C
pub fn ADC_a_h(cpu: &mut CPU)
    ensures
        *final(cpu) == old(cpu).with_reg(old(cpu).reg.adc_acc_spec(old(cpu).reg.h)).with_t(4),
{
    let v = cpu.reg.h;
    cpu.reg.adc_acc(v);
    cpu.t_cycles = 4;
}

// 'ADC A,L' 8D
pub fn ADC_a_l(cpu: &mut CPU)
    ensures
        *final(cpu) == old(cpu).with_reg(old(cpu).reg.adc_acc_spec(old(cpu).reg.l)).with_t(4),
{
    let v = cpu.reg.l;
    cpu.reg.adc_acc(v);
    cpu.t_cycles = 4;
}

// 'ADC A,(HL)' 8E
pub fn ADC_a_hlm(cpu: &mut CPU)
    requires
        old(cpu).wf(),
    ensures
        final(cpu).wf(),
        *final(cpu) == old(cpu).with_reg(old(cpu).reg.adc_acc_spec(
            spec_read_b(old(cpu).mem@, old(cpu).reg.hl()))).with_t(8),
{
    let addr = cpu.reg.get_hl();
    let v = cpu.mem.read_b(addr);
    cpu.reg.adc_acc(v);
    cpu.t_cycles = 8;
}

// 'ADC A,A' 8F
pub fn ADC_a_a(cpu: &mut CPU)
    ensures
        *final(cpu) == old(cpu).with_reg(old(cpu).reg.adc_acc_spec(old(cpu).reg.a)).with_t(4),
{
    let v = cpu.reg.a;
    cpu.reg.adc_acc(v);
    cpu.t_cycles = 4;
}

// 'ADC A,n' CE
pub fn ADC_a_n(cpu: &mut CPU)
    requires
        old(cpu).wf(),
    ensures
        final(cpu).wf(),
        *final(cpu) == old(cpu).with_reg(old(cpu).reg
            .with_pc(wrap16(old(cpu).reg.pc + 1))
            .adc_acc_spec(spec_read_b(old(cpu).mem@, old(cpu).reg.pc))).with_t(8),
{
    let v = cpu.get_immediate8();
    cpu.reg.adc_acc(v);
    cpu.t_cycles = 8;
}

// 'SUB A,B' 90
pub fn SUB_a_B(cpu: &mut CPU)
    ensures
        *final(cpu) == old(cpu).with_reg(old(cpu).reg.sub_acc_spec(old(cpu).reg.b)).with_t(4),
{
    let v = cpu.reg.b;
    cpu.reg.sub_acc(v);
    cpu.t_cycles = 4;
}

// 'SUB A,C' 91
pub fn SUB_a_C(cpu: &mut CPU)
    ensures
        *final(cpu) == old(cpu).with_reg(old(cpu).reg.sub_acc_spec(old(cpu).reg.c)).with_t(4),
{
    let v = cpu.reg.c;
    cpu.reg.sub_acc(v);
    cpu.t_cycles = 4;
}

// 'SUB A,D' 92
pub fn SUB_a_D(cpu: &mut CPU)
    ensures
        *final(cpu) == old(cpu).with_reg(old(cpu).reg.sub_acc_spec(old(cpu).reg.d)).with_t(4),
{
    let v = cpu.reg.d;
    cpu.reg.sub_acc(v);
    cpu.t_cycles = 4;
}

// 'SUB A,E' 93
pub fn SUB_a_E(cpu: &mut CPU)
    ensures
        *final(cpu) == old(cpu).with_reg(old(cpu).reg.sub_acc_spec(old(cpu).reg.e)).with_t(4),
{
    let v = cpu.reg.e;
    cpu.reg.sub_acc(v);
    cpu.t_cycles = 4;
}

// 'SUB A,H' 94
pub fn SUB_a_H(cpu: &mut CPU)
    ensures
        *final(cpu) == old(cpu).with_reg(old(cpu).reg.sub_acc_spec(old(cpu).reg.h)).with_t(4),
{
    let v = cpu.reg.h;
    cpu.reg.sub_acc(v);
    cpu.t_cycles = 4;
}

// 'SUB A,L' 95
pub fn SUB_a_L(cpu: &mut CPU)
    ensures
        *final(cpu) == old(cpu).with_reg(old(cpu).reg.sub_acc_spec(old(cpu).reg.l)).with_t(4),
{
    let v = cpu.reg.l;
    cpu.reg.sub_acc(v);
    cpu.t_cycles = 4;
}

// 'SUB A,(HL)' 96
pub fn SUB_a_hlm(cpu: &mut CPU)
    requires
        old(cpu).wf(),
    ensures
        final(cpu).wf(),
        *final(cpu) == old(cpu).with_reg(old(cpu).reg.sub_acc_spec(
            spec_read_b(old(cpu).mem@, old(cpu).reg.hl()))).with_t(8),
{
    let addr = cpu.reg.get_hl();
    let v = cpu.mem.read_b(addr);
    cpu.reg.sub_acc(v);
    cpu.t_cycles = 8;
}

// 'SUB A,A' 97
pub fn SUB_a_A(cpu: &mut CPU)
    ensures
        *final(cpu) == old(cpu).with_reg(old(cpu).reg.sub_acc_spec(old(cpu).reg.a)).with_t(4),
{
    let v = cpu.reg.a;
    cpu.reg.sub_acc(v);
    cpu.t_cycles = 4;
}

// 'SUB A,n' D6
pub fn SUB_a_n(cpu: &mut CPU)
    requires
        old(cpu).wf(),
    ensures
        final(cpu).wf(),
        *final(cpu) == old(cpu).with_reg(old(cpu).reg
            .with_pc(wrap16(old(cpu).reg.pc + 1))
            .sub_acc_spec(spec_read_b(old(cpu).mem@, old(cpu).reg.pc))).with_t(8),
{
    let v = cpu.get_immediate8();
    cpu.reg.sub_acc(v);
    cpu.t_cycles = 8;
}

// 'SBC A,B' 98
pub fn SBC_a_b(cpu: &mut CPU)
    ensures
        *final(cpu) == old(cpu).with_reg(old(cpu).reg.sbc_acc_spec(old(cpu).reg.b)).with_t(4),
{
    let v = cpu.reg.b;
    cpu.reg.sbc_acc(v);
    cpu.t_cycles = 4;
}

// 'SBC A,C' 99
pub fn SBC_a_c(cpu: &mut CPU)
    ensures
        *final(cpu) == old(cpu).with_reg(old(cpu).reg.sbc_acc_spec(old(cpu).reg.c)).with_t(4),
{
    let v = cpu.reg.c;
    cpu.reg.sbc_acc(v);
    cpu.t_cycles = 4;
}

// 'SBC A,D' 9A
pub fn SBC_a_d(cpu: &mut CPU)
    ensures
        *final(cpu) == old(cpu).with_reg(old(cpu).reg.sbc_acc_spec(old(cpu).reg.d)).with_t(4),
{
    let v = cpu.reg.d;
    cpu.reg.sbc_acc(v);
    cpu.t_cycles = 4;
}

// 'SBC A,E' 9B
pub fn SBC_a_e(cpu: &mut CPU)
    ensures
        *final(cpu) == old(cpu).with_reg(old(cpu).reg.sbc_acc_spec(old(cpu).reg.e)).with_t(4),
{
    let v = cpu.reg.e;
    cpu.reg.sbc_acc(v);
    cpu.t_cycles = 4;
}

// 'SBC A,H' 9C
pub fn SBC_a_h(cpu: &mut CPU)
    ensures
        *final(cpu) == old(cpu).with_reg(old(cpu).reg.sbc_acc_spec(old(cpu).reg.h)).with_t(4),
{
    let v = cpu.reg.h;
    cpu.reg.sbc_acc(v);
    cpu.t_cycles = 4;
}

// 'SBC A,L' 9D
pub fn SBC_a_l(cpu: &mut CPU)
    ensures
        *final(cpu) == old(cpu).with_reg(old(cpu).reg.sbc_acc_spec(old(cpu).reg.l)).with_t(4),
{
    let v = cpu.reg.l;
    cpu.reg.sbc_acc(v);
    cpu.t_cycles = 4;
}

// 'SBC A,(HL)' 9E
pub fn SBC_a_hlm(cpu: &mut CPU)
    requires
        old(cpu).wf(),
    ensures
        final(cpu).wf(),
        *final(cpu) == old(cpu).with_reg(old(cpu).reg.sbc_acc_spec(
            spec_read_b(old(cpu).mem@, old(cpu).reg.hl()))).with_t(8),
{
    let addr = cpu.reg.get_hl();
    let v = cpu.mem.read_b(addr);
    cpu.reg.sbc_acc(v);
    cpu.t_cycles = 8;
}

// 'SBC A,A' 9F
pub fn SBC_a_a(cpu: &mut CPU)
    ensures
        *final(cpu) == old(cpu).with_reg(old(cpu).reg.sbc_acc_spec(old(cpu).reg.a)).with_t(4),
{
    let v = cpu.reg.a;
    cpu.reg.sbc_acc(v);
    cpu.t_cycles = 4;
}

// 'SBC A,n' DE
pub fn SBC_a_n(cpu: &mut CPU)
    requires
        old(cpu).wf(),
    ensures
        final(cpu).wf(),
        *final(cpu) == old(cpu).with_reg(old(cpu).reg
            .with_pc(wrap16(old(cpu).reg.pc + 1))
            .sbc_acc_spec(spec_read_b(old(cpu).mem@, old(cpu).reg.pc))).with_t(8),
{
    let v = cpu.get_immediate8();
    cpu.reg.sbc_acc(v);
    cpu.t_cycles = 8;
}

// 'AND A,B' A0
pub fn AND_b(cpu: &mut CPU)
    ensures
        *final(cpu) == old(cpu).with_reg(old(cpu).reg.and_acc_spec(old(cpu).reg.b)).with_t(4),
{
    let v = cpu.reg.b;
    cpu.reg.and_acc(v);
    cpu.t_cycles = 4;
}

// 'AND A,C' A1
pub fn AND_c(cpu: &mut CPU)
    ensures
        *final(cpu) == old(cpu).with_reg(old(cpu).reg.and_acc_spec(old(cpu).reg.c)).with_t(4),
{
    let v = cpu.reg.c;
    cpu.reg.and_acc(v);
    cpu.t_cycles = 4;
}

// 'AND A,D' A2
pub fn AND_d(cpu: &mut CPU)
    ensures
        *final(cpu) == old(cpu).with_reg(old(cpu).reg.and_acc_spec(old(cpu).reg.d)).with_t(4),
{
    let v = cpu.reg.d;
    cpu.reg.and_acc(v);
    cpu.t_cycles = 4;
}

// 'AND A,E' A3
pub fn AND_e(cpu: &mut CPU)
    ensures
        *final(cpu) == old(cpu).with_reg(old(cpu).reg.and_acc_spec(old(cpu).reg.e)).with_t(4),
{
    let v = cpu.reg.e;
    cpu.reg.and_acc(v);
    cpu.t_cycles = 4;
}

// 'AND A,H' A4
pub fn AND_h(cpu: &mut CPU)
    ensures
        *final(cpu) == old(cpu).with_reg(old(cpu).reg.and_acc_spec(old(cpu).reg.h)).with_t(4),
{
    let v = cpu.reg.h;
    cpu.reg.and_acc(v);
    cpu.t_cycles = 4;
}

// 'AND A,L' A5
pub fn AND_l(cpu: &mut CPU)
    ensures
        *final(cpu) == old(cpu).with_reg(old(cpu).reg.and_acc_spec(old(cpu).reg.l)).with_t(4),
{
    let v = cpu.reg.l;
    cpu.reg.and_acc(v);
    cpu.t_cycles = 4;
}

// 'AND A,(HL)' A6
pub fn AND_hlm(cpu: &mut CPU)
    requires
        old(cpu).wf(),
    ensures
        final(cpu).wf(),
        *final(cpu) == old(cpu).with_reg(old(cpu).reg.and_acc_spec(
            spec_read_b(old(cpu).mem@, old(cpu).reg.hl()))).with_t(8),
{
    let addr = cpu.reg.get_hl();
    let v = cpu.mem.read_b(addr);
    cpu.reg.and_acc(v);
    cpu.t_cycles = 8;
}

// 'AND A,A' A7
pub fn AND_a(cpu: &mut CPU)
    ensures
        *final(cpu) == old(cpu).with_reg(old(cpu).reg.and_acc_spec(old(cpu).reg.a)).with_t(4),
{
    let v = cpu.reg.a;
    cpu.reg.and_acc(v);
    cpu.t_cycles = 4;
}

// 'AND A,n' E6
pub fn AND_n(cpu: &mut CPU)
    requires
        old(cpu).wf(),
    ensures
        final(cpu).wf(),
        *final(cpu) == old(cpu).with_reg(old(cpu).reg
            .with_pc(wrap16(old(cpu).reg.pc + 1))
            .and_acc_spec(spec_read_b(old(cpu).mem@, old(cpu).reg.pc))).with_t(8),
{
    let v = cpu.get_immediate8();
    cpu.reg.and_acc(v);
    cpu.t_cycles = 8;
}

// 'XOR A,B' A8
pub fn XOR_b(cpu: &mut CPU)
    ensures
        *final(cpu) == old(cpu).with_reg(old(cpu).reg.xor_acc_spec(old(cpu).reg.b)).with_t(4),
{
    let v = cpu.reg.b;
    cpu.reg.xor_acc(v);
    cpu.t_cycles = 4;
}

// 'XOR A,C' A9
pub fn XOR_c(cpu: &mut CPU)
    ensures
        *final(cpu) == old(cpu).with_reg(old(cpu).reg.xor_acc_spec(old(cpu).reg.c)).with_t(4),
{
    let v = cpu.reg.c;
    cpu.reg.xor_acc(v);
    cpu.t_cycles = 4;
}

// 'XOR A,D' AA
pub fn XOR_d(cpu: &mut CPU)
    ensures
        *final(cpu) == old(cpu).with_reg(old(cpu).reg.xor_acc_spec(old(cpu).reg.d)).with_t(4),
{
    let v = cpu.reg.d;
    cpu.reg.xor_acc(v);
    cpu.t_cycles = 4;
}

// 'XOR A,E' AB
pub fn XOR_e(cpu: &mut CPU)
    ensures
        *final(cpu) == old(cpu).with_reg(old(cpu).reg.xor_acc_spec(old(cpu).reg.e)).with_t(4),
{
    let v = cpu.reg.e;
    cpu.reg.xor_acc(v);
    cpu.t_cycles = 4;
}

// 'XOR A,H' AC
pub fn XOR_h(cpu: &mut CPU)
    ensures
        *final(cpu) == old(cpu).with_reg(old(cpu).reg.xor_acc_spec(old(cpu).reg.h)).with_t(4),
{
    let v = cpu.reg.h;
    cpu.reg.xor_acc(v);
    cpu.t_cycles = 4;
}

// 'XOR A,L' AD
pub fn XOR_l(cpu: &mut CPU)
    ensures
        *final(cpu) == old(cpu).with_reg(old(cpu).reg.xor_acc_spec(old(cpu).reg.l)).with_t(4),
{
    let v = cpu.reg.l;
    cpu.reg.xor_acc(v);
    cpu.t_cycles = 4;
}

// 'XOR A,(HL)' AE
pub fn XOR_hlm(cpu: &mut CPU)
    requires
        old(cpu).wf(),
    ensures
        final(cpu).wf(),
        *final(cpu) == old(cpu).with_reg(old(cpu).reg.xor_acc_spec(
            spec_read_b(old(cpu).mem@, old(cpu).reg.hl()))).with_t(8),
{
    let addr = cpu.reg.get_hl();
    let v = cpu.mem.read_b(addr);
    cpu.reg.xor_acc(v);
    cpu.t_cycles = 8;
}

// 'XOR A,A' AF
pub fn XOR_a(cpu: &mut CPU)
    ensures
        *final(cpu) == old(cpu).with_reg(old(cpu).reg.xor_acc_spec(old(cpu).reg.a)).with_t(4),
{
    let v = cpu.reg.a;
    cpu.reg.xor_acc(v);
    cpu.t_cycles = 4;
}

// 'XOR A,n' EE
pub fn XOR_n(cpu: &mut CPU)
    requires
        old(cpu).wf(),
    ensures
        final(cpu).wf(),
        *final(cpu) == old(cpu).with_reg(old(cpu).reg
            .with_pc(wrap16(old(cpu).reg.pc + 1))
            .xor_acc_spec(spec_read_b(old(cpu).mem@, old(cpu).reg.pc))).with_t(8),
{
    let v = cpu.get_immediate8();
    cpu.reg.xor_acc(v);
    cpu.t_cycles = 8;
}

// 'OR A,B' B0
pub fn OR_b(cpu: &mut CPU)
    ensures
        *final(cpu) == old(cpu).with_reg(old(cpu).reg.or_acc_spec(old(cpu).reg.b)).with_t(4),
{
    let v = cpu.reg.b;
    cpu.reg.or_acc(v);
    cpu.t_cycles = 4;
}

// 'OR A,C' B1
pub fn OR_c(cpu: &mut CPU)
    ensures
        *final(cpu) == old(cpu).with_reg(old(cpu).reg.or_acc_spec(old(cpu).reg.c)).with_t(4),
{
    let v = cpu.reg.c;
    cpu.reg.or_acc(v);
    cpu.t_cycles = 4;
}

// 'OR A,D' B2
pub fn OR_d(cpu: &mut CPU)
    ensures
        *final(cpu) == old(cpu).with_reg(old(cpu).reg.or_acc_spec(old(cpu).reg.d)).with_t(4),
{
    let v = cpu.reg.d;
    cpu.reg.or_acc(v);
    cpu.t_cycles = 4;
}

// 'OR A,E' B3
pub fn OR_e(cpu: &mut CPU)
    ensures
        *final(cpu) == old(cpu).with_reg(old(cpu).reg.or_acc_spec(old(cpu).reg.e)).with_t(4),
{
    let v = cpu.reg.e;
    cpu.reg.or_acc(v);
    cpu.t_cycles = 4;
}

// 'OR A,H' B4
pub fn OR_h(cpu: &mut CPU)
    ensures
        *final(cpu) == old(cpu).with_reg(old(cpu).reg.or_acc_spec(old(cpu).reg.h)).with_t(4),
{
    let v = cpu.reg.h;
    cpu.reg.or_acc(v);
    cpu.t_cycles = 4;
}

// 'OR A,L' B5
pub fn OR_l(cpu: &mut CPU)
    ensures
        *final(cpu) == old(cpu).with_reg(old(cpu).reg.or_acc_spec(old(cpu).reg.l)).with_t(4),
{
    let v = cpu.reg.l;
    cpu.reg.or_acc(v);
    cpu.t_cycles = 4;
}

// 'OR A,(HL)' B6
pub fn OR_hlm(cpu: &mut CPU)
    requires
        old(cpu).wf(),
    ensures
        final(cpu).wf(),
        *final(cpu) == old(cpu).with_reg(old(cpu).reg.or_acc_spec(
            spec_read_b(old(cpu).mem@, old(cpu).reg.hl()))).with_t(8),
{
    let addr = cpu.reg.get_hl();
    let v = cpu.mem.read_b(addr);
    cpu.reg.or_acc(v);
    cpu.t_cycles = 8;
}

// 'OR A,A' B7
pub fn OR_a(cpu: &mut CPU)
    ensures
        *final(cpu) == old(cpu).with_reg(old(cpu).reg.or_acc_spec(old(cpu).reg.a)).with_t(4),
{
    let v = cpu.reg.a;
    cpu.reg.or_acc(v);
    cpu.t_cycles = 4;
}

// 'OR A,n' F6
pub fn OR_n(cpu: &mut CPU)
    requires
        old(cpu).wf(),
    ensures
        final(cpu).wf(),
        *final(cpu) == old(cpu).with_reg(old(cpu).reg
            .with_pc(wrap16(old(cpu).reg.pc + 1))
            .or_acc_spec(spec_read_b(old(cpu).mem@, old(cpu).reg.pc))).with_t(8),
{
    let v = cpu.get_immediate8();
    cpu.reg.or_acc(v);
    cpu.t_cycles = 8;
}

// 'CP A,B' B8
pub fn CP_b(cpu: &mut CPU)
    ensures
        *final(cpu) == old(cpu).with_reg(old(cpu).reg.cp_acc_spec(old(cpu).reg.b)).with_t(4),
{
    let v = cpu.reg.b;
    cpu.reg.cp_acc(v);
    cpu.t_cycles = 4;
}

// 'CP A,C' B9
pub fn CP_c(cpu: &mut CPU)
    ensures
        *final(cpu) == old(cpu).with_reg(old(cpu).reg.cp_acc_spec(old(cpu).reg.c)).with_t(4),
{
    let v = cpu.reg.c;
    cpu.reg.cp_acc(v);
    cpu.t_cycles = 4;
}

// 'CP A,D' BA
pub fn CP_d(cpu: &mut CPU)
    ensures
        *final(cpu) == old(cpu).with_reg(old(cpu).reg.cp_acc_spec(old(cpu).reg.d)).with_t(4),
{
    let v = cpu.reg.d;
    cpu.reg.cp_acc(v);
    cpu.t_cycles = 4;
}

// 'CP A,E' BB
pub fn CP_e(cpu: &mut CPU)
    ensures
        *final(cpu) == old(cpu).with_reg(old(cpu).reg.cp_acc_spec(old(cpu).reg.e)).with_t(4),
{
    let v = cpu.reg.e;
    cpu.reg.cp_acc(v);
    cpu.t_cycles = 4;
}

// 'CP A,H' BC
pub fn CP_h(cpu: &mut CPU)
    ensures
        *final(cpu) == old(cpu).with_reg(old(cpu).reg.cp_acc_spec(old(cpu).reg.h)).with_t(4),
{
    let v = cpu.reg.h;
    cpu.reg.cp_acc(v);
    cpu.t_cycles = 4;
}

// 'CP A,L' BD
pub fn CP_l(cpu: &mut CPU)
    ensures
        *final(cpu) == old(cpu).with_reg(old(cpu).reg.cp_acc_spec(old(cpu).reg.l)).with_t(4),
{
    let v = cpu.reg.l;
    cpu.reg.cp_acc(v);
    cpu.t_cycles = 4;
}

// 'CP A,(HL)' BE
pub fn CP_hlm(cpu: &mut CPU)
    requires
        old(cpu).wf(),
    ensures
        final(cpu).wf(),
        *final(cpu) == old(cpu).with_reg(old(cpu).reg.cp_acc_spec(
            spec_read_b(old(cpu).mem@, old(cpu).reg.hl()))).with_t(8),
{
    let addr = cpu.reg.get_hl();
    let v = cpu.mem.read_b(addr);
    cpu.reg.cp_acc(v);
    cpu.t_cycles = 8;
}

// 'CP A,A' BF
pub fn CP_a(cpu: &mut CPU)
    ensures
        *final(cpu) == old(cpu).with_reg(old(cpu).reg.cp_acc_spec(old(cpu).reg.a)).with_t(4),
{
    let v = cpu.reg.a;
    cpu.reg.cp_acc(v);
    cpu.t_cycles = 4;
}

// 'CP A,n' FE
pub fn CP_n(cpu: &mut CPU)
    requires
        old(cpu).wf(),
    ensures
        final(cpu).wf(),
        *final(cpu) == old(cpu).with_reg(old(cpu).reg
            .with_pc(wrap16(old(cpu).reg.pc + 1))
            .cp_acc_spec(spec_read_b(old(cpu).mem@, old(cpu).reg.pc))).with_t(8),
{
    let v = cpu.get_immediate8();
    cpu.reg.cp_acc(v);
    cpu.t_cycles = 8;
}

// 'INC B' 04
pub fn INC_b(cpu: &mut CPU)
    ensures
        *final(cpu) == old(cpu).with_reg(old(cpu).reg
            .with_flags((old(cpu).reg.b + 1) % 256 == 0, false, old(cpu).reg.b % 16 == 15, old(cpu).reg.cf)
            .with_b(wrap8(old(cpu).reg.b + 1))).with_t(4),
{
    let v = cpu.reg.b;
    let r = cpu.reg.apply_inc8(v);
    cpu.reg.b = r;
    cpu.t_cycles = 4;
}

// 'DEC B' 05
pub fn DEC_b(cpu: &mut CPU)
    ensures
        *final(cpu) == old(cpu).with_reg(old(cpu).reg
            .with_flags(old(cpu).reg.b == 1, true, old(cpu).reg.b % 16 == 0, old(cpu).reg.cf)
            .with_b(wrap8(old(cpu).reg.b - 1))).with_t(4),
{
    let v = cpu.reg.b;
    let r = cpu.reg.apply_dec8(v);
    cpu.reg.b = r;
    cpu.t_cycles = 4;
}

// 'INC C' 0C
pub fn INC_c(cpu: &mut CPU)
    ensures
        *final(cpu) == old(cpu).with_reg(old(cpu).reg
            .with_flags((old(cpu).reg.c + 1) % 256 == 0, false, old(cpu).reg.c % 16 == 15, old(cpu).reg.cf)
            .with_c(wrap8(old(cpu).reg.c + 1))).with_t(4),
{
    let v = cpu.reg.c;
    let r = cpu.reg.apply_inc8(v);
    cpu.reg.c = r;
    cpu.t_cycles = 4;
}

// 'DEC C' 0D
pub fn DEC_c(cpu: &mut CPU)
    ensures
        *final(cpu) == old(cpu).with_reg(old(cpu).reg
            .with_flags(old(cpu).reg.c == 1, true, old(cpu).reg.c % 16 == 0, old(cpu).reg.cf)
            .with_c(wrap8(old(cpu).reg.c - 1))).with_t(4),
{
    let v = cpu.reg.c;
    let r = cpu.reg.apply_dec8(v);
    cpu.reg.c = r;
    cpu.t_cycles = 4;
}

// 'INC D' 14
pub fn INC_d(cpu: &mut CPU)
    ensures
        *final(cpu) == old(cpu).with_reg(old(cpu).reg
            .with_flags((old(cpu).reg.d + 1) % 256 == 0, false, old(cpu).reg.d % 16 == 15, old(cpu).reg.cf)
            .with_d(wrap8(old(cpu).reg.d + 1))).with_t(4),
{
    let v = cpu.reg.d;
    let r = cpu.reg.apply_inc8(v);
    cpu.reg.d = r;
    cpu.t_cycles = 4;
}

// 'DEC D' 15
pub fn DEC_d(cpu: &mut CPU)
    ensures
        *final(cpu) == old(cpu).with_reg(old(cpu).reg
            .with_flags(old(cpu).reg.d == 1, true, old(cpu).reg.d % 16 == 0, old(cpu).reg.cf)
            .with_d(wrap8(old(cpu).reg.d - 1))).with_t(4),
{
    let v = cpu.reg.d;
    let r = cpu.reg.apply_dec8(v);
    cpu.reg.d = r;
    cpu.t_cycles = 4;
}

// 'INC E' 1C
pub fn INC_e(cpu: &mut CPU)
    ensures
        *final(cpu) == old(cpu).with_reg(old(cpu).reg
            .with_flags((old(cpu).reg.e + 1) % 256 == 0, false, old(cpu).reg.e % 16 == 15, old(cpu).reg.cf)
            .with_e(wrap8(old(cpu).reg.e + 1))).with_t(4),
{
    let v = cpu.reg.e;
    let r = cpu.reg.apply_inc8(v);
    cpu.reg.e = r;
    cpu.t_cycles = 4;
}

// 'DEC E' 1D
pub fn DEC_e(cpu: &mut CPU)
    ensures
        *final(cpu) == old(cpu).with_reg(old(cpu).reg
            .with_flags(old(cpu).reg.e == 1, true, old(cpu).reg.e % 16 == 0, old(cpu).reg.cf)
            .with_e(wrap8(old(cpu).reg.e - 1))).with_t(4),
{
    let v = cpu.reg.e;
    let r = cpu.reg.apply_dec8(v);
    cpu.reg.e = r;
    cpu.t_cycles = 4;
}

// 'INC H' 24
pub fn INC_h(cpu: &mut CPU)
    ensures
        *final(cpu) == old(cpu).with_reg(old(cpu).reg
            .with_flags((old(cpu).reg.h + 1) % 256 == 0, false, old(cpu).reg.h % 16 == 15, old(cpu).reg.cf)
            .with_h(wrap8(old(cpu).reg.h + 1))).with_t(4),
{
    let v = cpu.reg.h;
    let r = cpu.reg.apply_inc8(v);
    cpu.reg.h = r;
    cpu.t_cycles = 4;
}

// 'DEC H' 25
pub fn DEC_h(cpu: &mut CPU)
    ensures
        *final(cpu) == old(cpu).with_reg(old(cpu).reg
            .with_flags(old(cpu).reg.h == 1, true, old(cpu).reg.h % 16 == 0, old(cpu).reg.cf)
            .with_h(wrap8(old(cpu).reg.h - 1))).with_t(4),
{
    let v = cpu.reg.h;
    let r = cpu.reg.apply_dec8(v);
    cpu.reg.h = r;
    cpu.t_cycles = 4;
}

// 'INC L' 2C
pub fn INC_l(cpu: &mut CPU)
    ensures
        *final(cpu) == old(cpu).with_reg(old(cpu).reg
            .with_flags((old(cpu).reg.l + 1) % 256 == 0, false, old(cpu).reg.l % 16 == 15, old(cpu).reg.cf)
            .with_l(wrap8(old(cpu).reg.l + 1))).with_t(4),
{
    let v = cpu.reg.l;
    let r = cpu.reg.apply_inc8(v);
    cpu.reg.l = r;
    cpu.t_cycles = 4;
}

// 'DEC L' 2D
pub fn DEC_l(cpu: &mut CPU)
    ensures
        *final(cpu) == old(cpu).with_reg(old(cpu).reg
            .with_flags(old(cpu).reg.l == 1, true, old(cpu).reg.l % 16 == 0, old(cpu).reg.cf)
            .with_l(wrap8(old(cpu).reg.l - 1))).with_t(4),
{
    let v = cpu.reg.l;
    let r = cpu.reg.apply_dec8(v);
    cpu.reg.l = r;
    cpu.t_cycles = 4;
}

// 'INC A' 3C
pub fn INC_a(cpu: &mut CPU)
    ensures
        *final(cpu) == old(cpu).with_reg(old(cpu).reg
            .with_flags((old(cpu).reg.a + 1) % 256 == 0, false, old(cpu).reg.a % 16 == 15, old(cpu).reg.cf)
            .with_a(wrap8(old(cpu).reg.a + 1))).with_t(4),
{
    let v = cpu.reg.a;
    let r = cpu.reg.apply_inc8(v);
    cpu.reg.a = r;
    cpu.t_cycles = 4;
}

// 'DEC A' 3D
pub fn DEC_a(cpu: &mut CPU)
    ensures
        *final(cpu) == old(cpu).with_reg(old(cpu).reg
            .with_flags(old(cpu).reg.a == 1, true, old(cpu).reg.a % 16 == 0, old(cpu).reg.cf)
            .with_a(wrap8(old(cpu).reg.a - 1))).with_t(4),
{
    let v = cpu.reg.a;
    let r = cpu.reg.apply_dec8(v);
    cpu.reg.a = r;
    cpu.t_cycles = 4;
}

// 'INC (HL)' 34
pub fn INC_hlm(cpu: &mut CPU)
    requires
        old(cpu).wf(),
    ensures
        final(cpu).wf(),
        stores_byte(*old(cpu), *final(cpu), old(cpu).reg.hl(),
            wrap8(spec_read_b(old(cpu).mem@, old(cpu).reg.hl()) + 1), 12,
            old(cpu).reg.with_flags(
                (spec_read_b(old(cpu).mem@, old(cpu).reg.hl()) + 1) % 256 == 0,
                false,
                spec_read_b(old(cpu).mem@, old(cpu).reg.hl()) % 16 == 15,
                old(cpu).reg.cf,
            )),
{
    let addr = cpu.reg.get_hl();
    let v = cpu.mem.read_b(addr);
    let r = cpu.reg.apply_inc8(v);
    cpu.mem.write_b(addr, r);
    cpu.t_cycles = 12;
}

// 'DEC (HL)' 35
pub fn DEC_hlm(cpu: &mut CPU)
    requires
        old(cpu).wf(),
    ensures
        final(cpu).wf(),
        stores_byte(*old(cpu), *final(cpu), old(cpu).reg.hl(),
            wrap8(spec_read_b(old(cpu).mem@, old(cpu).reg.hl()) - 1), 12,
            old(cpu).reg.with_flags(
                spec_read_b(old(cpu).mem@, old(cpu).reg.hl()) == 1,
                true,
                spec_read_b(old(cpu).mem@, old(cpu).reg.hl()) % 16 == 0,
                old(cpu).reg.cf,
            )),
{
    let addr = cpu.reg.get_hl();
    let v = cpu.mem.read_b(addr);
    let r = cpu.reg.apply_dec8(v);
    cpu.mem.write_b(addr, r);
    cpu.t_cycles = 12;
}

} // verus!
