use jeebie::cpu::CPU;
use jeebie::registers::{Flags, Registers};

#[test]
fn register_pairs_compose_high_byte_first() {
    let mut r = Registers::new();
    r.set_bc(0x1234);
    assert_eq!(r.b, 0x12);
    assert_eq!(r.c, 0x34);
    assert_eq!(r.get_bc(), 0x1234);
    r.set_de(0xABCD);
    assert_eq!(r.d, 0xAB);
    assert_eq!(r.e, 0xCD);
    r.set_hl(0x00FF);
    assert_eq!(r.h, 0x00);
    assert_eq!(r.l, 0xFF);
    assert_eq!(r.get_hl(), 0x00FF);
}

#[test]
fn flag_nibble_upper_bits_always_zero() {
    let mut r = Registers::new();
    r.set_af(0xFFFF);
    // only the four live flag bits of the low byte survive
    assert_eq!(r.get_f(), 0x0F);
    assert_eq!(r.get_af(), 0xFF0F);
    r.set_af(0x1200);
    assert_eq!(r.a, 0x12);
    assert_eq!(r.get_f(), 0x00);
    assert!(!r.is_set(Flags::Zero));
}

#[test]
fn set_and_clear_single_flags() {
    let mut r = Registers::new();
    r.set_flags(false, false, false, false);
    r.set_flag(Flags::Carry);
    assert!(r.is_set(Flags::Carry));
    assert!(!r.is_set(Flags::Zero));
    r.set_flag(Flags::Zero);
    r.clear_flag(Flags::Carry);
    assert!(r.is_set(Flags::Zero));
    assert!(!r.is_set(Flags::Carry));
}

#[test]
fn add_sets_carry_half_carry_and_zero() {
    // 0x3A + 0xC6 = 0x100: truncates to zero, carry and half-carry set
    let mut cpu = CPU::new();
    cpu.reg.a = 0x3A;
    cpu.reg.b = 0xC6;
    jeebie::alu8::ADD_a_b(&mut cpu);
    assert_eq!(cpu.reg.a, 0x00);
    assert!(cpu.reg.zf);
    assert!(cpu.reg.hf);
    assert!(cpu.reg.cf);
    assert!(!cpu.reg.nf);
    assert_eq!(cpu.t_cycles, 4);
}

#[test]
fn add_without_carries() {
    let mut cpu = CPU::new();
    cpu.reg.a = 0x12;
    cpu.reg.c = 0x34;
    jeebie::alu8::ADD_a_c(&mut cpu);
    assert_eq!(cpu.reg.a, 0x46);
    assert!(!cpu.reg.zf);
    assert!(!cpu.reg.hf);
    assert!(!cpu.reg.cf);
    assert!(!cpu.reg.nf);
}

#[test]
fn adc_adds_the_incoming_carry() {
    let mut cpu = CPU::new();
    cpu.reg.a = 0xFF;
    cpu.reg.b = 0x00;
    cpu.reg.cf = true;
    jeebie::alu8::ADC_a_b(&mut cpu);
    assert_eq!(cpu.reg.a, 0x00);
    assert!(cpu.reg.zf);
    assert!(cpu.reg.cf);
    assert!(cpu.reg.hf);
}

#[test]
fn sub_sets_borrow_flags() {
    let mut cpu = CPU::new();
    cpu.reg.a = 0x10;
    cpu.reg.b = 0x20;
    jeebie::alu8::SUB_a_B(&mut cpu);
    assert_eq!(cpu.reg.a, 0xF0);
    assert!(cpu.reg.cf);
    assert!(cpu.reg.nf);
    assert!(!cpu.reg.zf);
}

#[test]
fn compare_leaves_accumulator_untouched() {
    let mut cpu = CPU::new();
    cpu.reg.a = 0x42;
    cpu.reg.d = 0x42;
    jeebie::alu8::CP_d(&mut cpu);
    assert_eq!(cpu.reg.a, 0x42);
    assert!(cpu.reg.zf);
    assert!(cpu.reg.nf);
    assert!(!cpu.reg.cf);
}

#[test]
fn and_forces_half_carry_or_xor_clear_it() {
    let mut cpu = CPU::new();
    cpu.reg.a = 0xF0;
    cpu.reg.e = 0x0F;
    jeebie::alu8::AND_e(&mut cpu);
    assert_eq!(cpu.reg.a, 0x00);
    assert!(cpu.reg.zf);
    assert!(cpu.reg.hf);
    assert!(!cpu.reg.cf);

    cpu.reg.a = 0xF0;
    jeebie::alu8::OR_e(&mut cpu);
    assert_eq!(cpu.reg.a, 0xFF);
    assert!(!cpu.reg.hf);

    jeebie::alu8::XOR_a(&mut cpu);
    assert_eq!(cpu.reg.a, 0x00);
    assert!(cpu.reg.zf);
}

#[test]
fn inc16_wraps_and_touches_no_flags() {
    let mut cpu = CPU::new();
    cpu.reg.set_bc(0xFFFF);
    cpu.reg.set_flags(true, true, true, true);
    jeebie::alu16::INC_bc(&mut cpu);
    assert_eq!(cpu.reg.get_bc(), 0x0000);
    assert!(cpu.reg.zf && cpu.reg.nf && cpu.reg.hf && cpu.reg.cf);
    cpu.reg.set_flags(false, false, false, false);
    jeebie::alu16::DEC_bc(&mut cpu);
    assert_eq!(cpu.reg.get_bc(), 0xFFFF);
    assert!(!cpu.reg.zf && !cpu.reg.nf && !cpu.reg.hf && !cpu.reg.cf);
}

#[test]
fn inc8_never_touches_carry() {
    let mut cpu = CPU::new();
    cpu.reg.b = 0x0F;
    cpu.reg.cf = true;
    jeebie::alu8::INC_b(&mut cpu);
    assert_eq!(cpu.reg.b, 0x10);
    assert!(cpu.reg.hf);
    assert!(!cpu.reg.nf);
    assert!(cpu.reg.cf, "carry must survive INC");

    cpu.reg.cf = false;
    cpu.reg.b = 0xFF;
    jeebie::alu8::INC_b(&mut cpu);
    assert_eq!(cpu.reg.b, 0x00);
    assert!(cpu.reg.zf);
    assert!(!cpu.reg.cf, "carry must survive INC even on wrap");
}

#[test]
fn dec8_never_touches_carry() {
    let mut cpu = CPU::new();
    cpu.reg.d = 0x01;
    cpu.reg.cf = true;
    jeebie::alu8::DEC_d(&mut cpu);
    assert_eq!(cpu.reg.d, 0x00);
    assert!(cpu.reg.zf);
    assert!(cpu.reg.nf);
    assert!(cpu.reg.cf);
    jeebie::alu8::DEC_d(&mut cpu);
    assert_eq!(cpu.reg.d, 0xFF);
    assert!(cpu.reg.hf);
    assert!(cpu.reg.cf);
}

#[test]
fn add_hl_uses_bit11_and_bit15_carries() {
    let mut cpu = CPU::new();
    cpu.reg.set_hl(0x0FFF);
    cpu.reg.set_bc(0x0001);
    cpu.reg.zf = true;
    jeebie::alu16::ADD_hl_bc(&mut cpu);
    assert_eq!(cpu.reg.get_hl(), 0x1000);
    assert!(cpu.reg.hf);
    assert!(!cpu.reg.cf);
    assert!(cpu.reg.zf, "ADD HL leaves Zero alone");

    cpu.reg.set_hl(0xFFFF);
    cpu.reg.set_de(0x0001);
    jeebie::alu16::ADD_hl_de(&mut cpu);
    assert_eq!(cpu.reg.get_hl(), 0x0000);
    assert!(cpu.reg.cf);
}

#[test]
fn daa_adjusts_bcd_addition() {
    // 0x15 + 0x27 = 0x3C; decimal adjust gives 0x42
    let mut cpu = CPU::new();
    cpu.reg.a = 0x15;
    cpu.reg.b = 0x27;
    jeebie::alu8::ADD_a_b(&mut cpu);
    assert_eq!(cpu.reg.a, 0x3C);
    jeebie::misc::DAA(&mut cpu);
    assert_eq!(cpu.reg.a, 0x42);
    assert!(!cpu.reg.hf);
}

#[test]
fn accumulator_rotates() {
    let mut cpu = CPU::new();
    cpu.reg.a = 0x85;
    jeebie::misc::RLCA(&mut cpu);
    assert_eq!(cpu.reg.a, 0x0B);
    assert!(cpu.reg.cf);
    assert!(!cpu.reg.zf);

    cpu.reg.a = 0x01;
    cpu.reg.cf = false;
    jeebie::misc::RRA(&mut cpu);
    assert_eq!(cpu.reg.a, 0x00);
    assert!(cpu.reg.cf);
    assert!(!cpu.reg.zf, "RRA forces Zero clear");
}

#[test]
fn complement_and_carry_flag_ops() {
    let mut cpu = CPU::new();
    cpu.reg.a = 0x35;
    jeebie::misc::CPL(&mut cpu);
    assert_eq!(cpu.reg.a, 0xCA);
    assert!(cpu.reg.nf && cpu.reg.hf);

    jeebie::misc::SCF(&mut cpu);
    assert!(cpu.reg.cf && !cpu.reg.nf && !cpu.reg.hf);
    jeebie::misc::CCF(&mut cpu);
    assert!(!cpu.reg.cf);
}

#[test]
fn cb_swap_and_bit_ops() {
    let mut cpu = CPU::new();
    cpu.reg.b = 0xF1;
    jeebie::cb::cb_swap(&mut cpu, 0);
    assert_eq!(cpu.reg.b, 0x1F);
    assert!(!cpu.reg.zf);

    cpu.reg.c = 0x00;
    jeebie::cb::cb_set(&mut cpu, 7, 1);
    assert_eq!(cpu.reg.c, 0x80);
    jeebie::cb::cb_bit(&mut cpu, 7, 1);
    assert!(!cpu.reg.zf, "bit 7 is set, so Zero is clear");
    jeebie::cb::cb_res(&mut cpu, 7, 1);
    assert_eq!(cpu.reg.c, 0x00);
    jeebie::cb::cb_bit(&mut cpu, 7, 1);
    assert!(cpu.reg.zf, "bit 7 is clear, so Zero is set");

    cpu.reg.d = 0x80;
    jeebie::cb::cb_sla(&mut cpu, 2);
    assert_eq!(cpu.reg.d, 0x00);
    assert!(cpu.reg.cf);
    assert!(cpu.reg.zf);
}
