use jeebie::cpu::CPU;
use jeebie::mbc::Cartridge;
use jeebie::mmu::MMU;
use jeebie::dispatch::FRAME_PIXELS;

/// A CPU over a RomOnly image holding `program` at address 0x0100, where
/// the boot PC points.
fn cpu_with_program(program: &[u8]) -> CPU {
    let mut rom = vec![0u8; 0x8000];
    for (i, b) in program.iter().enumerate() {
        rom[0x100 + i] = *b;
    }
    let cart = Cartridge::new(rom).unwrap();
    CPU::with_mmu(MMU::new_with_rom(cart))
}

#[test]
fn relative_jump_minus_two_lands_on_itself() {
    // JR -2 at 0x0100: the offset counts from the byte after the
    // two-byte instruction, so the next PC is 0x0100 again
    let mut cpu = cpu_with_program(&[0x18, 0xFE]);
    assert_eq!(cpu.reg.pc, 0x0100);
    let t = cpu.exec_one_instruction();
    assert_eq!(cpu.reg.pc, 0x0100);
    assert_eq!(t, 12);
}

#[test]
fn relative_jump_forward() {
    // JR +3 at 0x0100 lands at 0x0105
    let mut cpu = cpu_with_program(&[0x18, 0x03]);
    cpu.exec_one_instruction();
    assert_eq!(cpu.reg.pc, 0x0105);
}

#[test]
fn call_then_ret_resumes_after_the_call() {
    // 0x0100: CALL 0x0200 ; 0x0200: RET
    let mut rom = vec![0u8; 0x8000];
    rom[0x100] = 0xCD;
    rom[0x101] = 0x00;
    rom[0x102] = 0x02;
    rom[0x200] = 0xC9;
    let cart = Cartridge::new(rom).unwrap();
    let mut cpu = CPU::with_mmu(MMU::new_with_rom(cart));
    let t_call = cpu.exec_one_instruction();
    assert_eq!(cpu.reg.pc, 0x0200);
    assert_eq!(cpu.reg.sp, 0xFFFC);
    assert_eq!(t_call, 24);
    let t_ret = cpu.exec_one_instruction();
    assert_eq!(cpu.reg.pc, 0x0103, "RET resumes at the byte after the CALL");
    assert_eq!(cpu.reg.sp, 0xFFFE);
    assert_eq!(t_ret, 16);
}

#[test]
fn rst_vectors_like_a_call() {
    let mut cpu = cpu_with_program(&[0xEF]); // RST 28h
    cpu.exec_one_instruction();
    assert_eq!(cpu.reg.pc, 0x0028);
    assert_eq!(cpu.reg.sp, 0xFFFC);
    // the pushed return address is the byte after the RST
    assert_eq!(cpu.mem.read_w(0xFFFC), 0x0101);
}

#[test]
fn zero_cartridge_runs_one_frame() {
    let mut cpu = CPU::new();
    let fb = cpu.exec_one_frame();
    assert_eq!(fb.len(), FRAME_PIXELS);
    assert_eq!(fb.len(), 160 * 144);
}

#[test]
fn conditional_jump_is_cheaper_when_not_taken() {
    // JP NZ,0x0200 with Zero set: falls through at the smaller cost
    let mut cpu = cpu_with_program(&[0xC2, 0x00, 0x02]);
    cpu.reg.zf = true;
    let t_skipped = cpu.exec_one_instruction();
    assert_eq!(cpu.reg.pc, 0x0103);
    // same opcode with Zero clear: taken, at the larger cost
    let mut cpu2 = cpu_with_program(&[0xC2, 0x00, 0x02]);
    cpu2.reg.zf = false;
    let t_taken = cpu2.exec_one_instruction();
    assert_eq!(cpu2.reg.pc, 0x0200);
    assert!(t_skipped < t_taken);
    assert_eq!(t_skipped, 12);
    assert_eq!(t_taken, 16);
}

#[test]
fn conditional_relative_jump_costs() {
    let mut cpu = cpu_with_program(&[0x28, 0x10]); // JR Z,+0x10
    cpu.reg.zf = false;
    let t_skipped = cpu.exec_one_instruction();
    assert_eq!(cpu.reg.pc, 0x0102);
    assert_eq!(t_skipped, 8);
    let mut cpu2 = cpu_with_program(&[0x28, 0x10]);
    cpu2.reg.zf = true;
    let t_taken = cpu2.exec_one_instruction();
    assert_eq!(cpu2.reg.pc, 0x0112);
    assert_eq!(t_taken, 12);
}

#[test]
fn conditional_call_consumes_operands_when_skipped() {
    let mut cpu = cpu_with_program(&[0xD4, 0x00, 0x02]); // CALL NC,nn
    cpu.reg.cf = true;
    let t = cpu.exec_one_instruction();
    assert_eq!(cpu.reg.pc, 0x0103, "operand bytes are consumed either way");
    assert_eq!(cpu.reg.sp, 0xFFFE, "nothing was pushed");
    assert_eq!(t, 12);
}

#[test]
fn immediate_loads_and_memory_loads_execute() {
    // LD B,0x42 ; LD (HL),B with HL pointing into work RAM ; LD C,(HL)
    let mut cpu = cpu_with_program(&[0x06, 0x42, 0x70, 0x4E]);
    cpu.reg.set_hl(0xC800);
    let t = cpu.exec_one_instruction();
    assert_eq!(t, 8);
    assert_eq!(cpu.reg.b, 0x42);
    cpu.exec_one_instruction();
    assert_eq!(cpu.mem.read_b(0xC800), 0x42);
    cpu.exec_one_instruction();
    assert_eq!(cpu.reg.c, 0x42);
    assert_eq!(cpu.reg.pc, 0x0104);
}

#[test]
fn auto_increment_load_mutates_hl() {
    let mut cpu = cpu_with_program(&[0x22, 0x32]); // LDI (HL),A ; LDD (HL),A
    cpu.reg.a = 0x5A;
    cpu.reg.set_hl(0xC000);
    cpu.exec_one_instruction();
    assert_eq!(cpu.mem.read_b(0xC000), 0x5A);
    assert_eq!(cpu.reg.get_hl(), 0xC001);
    cpu.exec_one_instruction();
    assert_eq!(cpu.mem.read_b(0xC001), 0x5A);
    assert_eq!(cpu.reg.get_hl(), 0xC000);
}

#[test]
fn high_page_forms_mask_into_the_io_page() {
    let mut cpu = cpu_with_program(&[0xE2, 0xF0, 0x80]); // LD (C),A ; LDH A,(0x80)
    cpu.reg.a = 0x66;
    cpu.reg.c = 0x80; // lands at 0xFF80, the first high-RAM byte
    cpu.exec_one_instruction();
    assert_eq!(cpu.mem.read_b(0xFF80), 0x66);
    cpu.reg.a = 0;
    cpu.exec_one_instruction();
    assert_eq!(cpu.reg.a, 0x66);
}

#[test]
fn push_and_pop_round_trip() {
    let mut cpu = cpu_with_program(&[0xC5, 0xD1]); // PUSH BC ; POP DE
    cpu.reg.set_bc(0x1234);
    cpu.exec_one_instruction();
    cpu.exec_one_instruction();
    assert_eq!(cpu.reg.get_de(), 0x1234);
    assert_eq!(cpu.reg.sp, 0xFFFE);
}

#[test]
fn pop_af_keeps_only_live_flag_bits() {
    let mut cpu = cpu_with_program(&[0xF1]); // POP AF
    cpu.reg.sp = 0xC100;
    cpu.mem.write_w(0xC100, 0x12FF);
    cpu.exec_one_instruction();
    assert_eq!(cpu.reg.a, 0x12);
    assert_eq!(cpu.reg.get_f(), 0x0F, "upper nibble of F stays zero");
}

#[test]
fn halt_idles_at_four_cycles() {
    let mut cpu = cpu_with_program(&[0x76]);
    cpu.exec_one_instruction();
    assert!(cpu.halted);
    let t = cpu.exec_one_instruction();
    assert_eq!(t, 4);
    assert_eq!(cpu.reg.pc, 0x0101, "a halted core fetches nothing");
}

#[test]
fn undefined_slots_are_defined_no_ops() {
    for op in [0xD3u8, 0xDB, 0xDD, 0xE3, 0xE4, 0xEB, 0xEC, 0xED, 0xF4, 0xFC, 0xFD] {
        let mut cpu = cpu_with_program(&[op]);
        let t = cpu.exec_one_instruction();
        assert_eq!(t, 4);
        assert_eq!(cpu.reg.pc, 0x0101);
    }
}

#[test]
fn cb_prefix_resolves_through_the_extended_table() {
    // CB 37 = SWAP A ; CB FF = SET 7,A
    let mut cpu = cpu_with_program(&[0xCB, 0x37, 0xCB, 0xFF]);
    cpu.reg.a = 0x12;
    let t = cpu.exec_one_instruction();
    assert_eq!(cpu.reg.a, 0x21);
    assert_eq!(t, 8);
    cpu.exec_one_instruction();
    assert_eq!(cpu.reg.a, 0xA1);
    assert_eq!(cpu.reg.pc, 0x0104);
}

#[test]
fn interrupts_vector_between_instructions() {
    let mut cpu = cpu_with_program(&[0x00]); // NOP
    cpu.ime = true;
    cpu.mem.write_b(0xFFFF, 0x01); // enable interrupt 0
    cpu.mem.write_b(0xFF0F, 0x01); // request it
    let t = cpu.exec_one_instruction();
    assert_eq!(t, 20);
    assert_eq!(cpu.reg.pc, 0x0040, "vector of interrupt 0");
    assert!(!cpu.ime, "master enable cleared first");
    assert_eq!(cpu.mem.read_b(0xFF0F), 0x00, "request bit cleared");
    assert_eq!(cpu.mem.read_w(0xFFFC), 0x0100, "old PC pushed as a CALL would");
}

#[test]
fn interrupts_wait_for_the_master_enable() {
    let mut cpu = cpu_with_program(&[0x00]);
    cpu.ime = false;
    cpu.mem.write_b(0xFFFF, 0x01);
    cpu.mem.write_b(0xFF0F, 0x01);
    let t = cpu.exec_one_instruction();
    assert_eq!(t, 4, "a plain NOP ran instead");
    assert_eq!(cpu.reg.pc, 0x0101);
}

#[test]
fn reti_restores_the_master_enable() {
    let mut cpu = cpu_with_program(&[0xD9]); // RETI
    cpu.reg.sp = 0xC100;
    cpu.mem.write_w(0xC100, 0x0234);
    cpu.ime = false;
    cpu.exec_one_instruction();
    assert!(cpu.ime);
    assert_eq!(cpu.reg.pc, 0x0234);
}

#[test]
fn input_delivery_lands_in_the_joypad_register() {
    let mut cpu = CPU::new();
    cpu.set_input(0x2D);
    assert_eq!(cpu.mem.read_b(0xFF00), 0x2D);
}

#[test]
fn jp_hl_and_absolute_jump() {
    let mut cpu = cpu_with_program(&[0xC3, 0x00, 0x7A]); // JP 0x7A00
    let t = cpu.exec_one_instruction();
    assert_eq!(cpu.reg.pc, 0x7A00);
    assert_eq!(t, 16);
    let mut cpu2 = cpu_with_program(&[0xE9]); // JP (HL)
    cpu2.reg.set_hl(0x0123);
    let t2 = cpu2.exec_one_instruction();
    assert_eq!(cpu2.reg.pc, 0x0123);
    assert_eq!(t2, 4);
}

#[test]
fn add_sp_offset_is_signed() {
    let mut cpu = cpu_with_program(&[0xE8, 0xFE]); // ADD SP,-2
    cpu.reg.sp = 0xFFFE;
    cpu.exec_one_instruction();
    assert_eq!(cpu.reg.sp, 0xFFFC);
    assert!(!cpu.reg.zf && !cpu.reg.nf);
}

#[test]
fn sixteen_bit_immediate_loads() {
    let mut cpu = cpu_with_program(&[0x01, 0x34, 0x12, 0x31, 0xFE, 0xDF]); // LD BC,nn ; LD SP,nn
    cpu.exec_one_instruction();
    assert_eq!(cpu.reg.get_bc(), 0x1234);
    cpu.exec_one_instruction();
    assert_eq!(cpu.reg.sp, 0xDFFE);
    assert_eq!(cpu.reg.pc, 0x0106);
}

#[test]
fn store_sp_writes_a_little_endian_word() {
    let mut cpu = cpu_with_program(&[0x08, 0x00, 0xC2]); // LD (0xC200),SP
    cpu.reg.sp = 0xABCD;
    let t = cpu.exec_one_instruction();
    assert_eq!(t, 20);
    assert_eq!(cpu.mem.read_b(0xC200), 0xCD);
    assert_eq!(cpu.mem.read_b(0xC201), 0xAB);
}

#[test]
fn ldhl_sp_offset_flags_come_from_the_low_byte() {
    let mut cpu = cpu_with_program(&[0xF8, 0x02]); // LDHL SP,+2
    cpu.reg.sp = 0xC0FF;
    cpu.exec_one_instruction();
    assert_eq!(cpu.reg.get_hl(), 0xC101);
    assert!(cpu.reg.hf, "low-nibble 0xF + 2 carries");
    assert!(cpu.reg.cf, "low-byte 0xFF + 2 carries");
    assert!(!cpu.reg.zf && !cpu.reg.nf);
}

#[test]
fn conditional_return_costs() {
    let mut cpu = cpu_with_program(&[0xC0]); // RET NZ, taken
    cpu.reg.sp = 0xC100;
    cpu.mem.write_w(0xC100, 0x0400);
    cpu.reg.zf = false;
    let t_taken = cpu.exec_one_instruction();
    assert_eq!(cpu.reg.pc, 0x0400);
    assert_eq!(t_taken, 20);

    let mut cpu2 = cpu_with_program(&[0xC0]); // RET NZ, skipped
    cpu2.reg.zf = true;
    let t_skipped = cpu2.exec_one_instruction();
    assert_eq!(cpu2.reg.pc, 0x0101);
    assert!(t_skipped < t_taken);
    assert_eq!(t_skipped, 8);
}

#[test]
fn memory_increment_recomputes_flags_in_place() {
    let mut cpu = cpu_with_program(&[0x34]); // INC (HL)
    cpu.reg.set_hl(0xC300);
    cpu.mem.write_b(0xC300, 0xFF);
    cpu.reg.cf = true;
    let t = cpu.exec_one_instruction();
    assert_eq!(t, 12);
    assert_eq!(cpu.mem.read_b(0xC300), 0x00);
    assert!(cpu.reg.zf && cpu.reg.hf && !cpu.reg.nf);
    assert!(cpu.reg.cf, "INC (HL) never touches Carry");
}
