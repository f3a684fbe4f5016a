use vstd::prelude::*;
use crate::registers::Registers;
use crate::mmu::{MMU, MmuV, mmu_wf, spec_read_b, spec_read_w, spec_write_b, spec_write_w};
use crate::alu::{sign8, wrap16};

verus! {

/// The machine's abstract state between instructions: the register file,
/// the memory model, and the interrupt-enable and halt latches. The
/// spec-level step functions of the dispatcher advance values of this
/// type, and every run-one-instruction contract is stated against them.
#[verifier::ext_equal]
pub struct MachineV {
    pub reg: Registers,
    pub mem: MmuV,
    pub ime: bool,
    pub halted: bool,
}

/// The common shape of a byte-storing instruction: registers end up as
/// `r`, memory gets `v` at `addr`, the cycle cost is `t`, and the
/// interrupt/halt latches are untouched.
pub open spec fn stores_byte(pre: CPU, post: CPU, addr: u16, v: u8, t: u32, r: Registers) -> bool {
    &&& post.reg == r
    &&& post.mem@ == spec_write_b(pre.mem@, addr, v)
    &&& post.t_cycles == t
    &&& post.ctrl_eq(pre)
}

/// The composition root: the register file and the memory subsystem,
/// together with the interrupt-enable latch, the halt latch, and the cycle
/// cost reported by the last executed instruction.
pub struct CPU {
    pub reg: Registers,
    pub mem: MMU,
    /// The global interrupt-enable latch, cleared while an interrupt is
    /// being serviced.
    pub ime: bool,
    /// Set by HALT; the core idles until an interrupt is pending.
    pub halted: bool,
    /// Cycle cost of the most recently executed instruction. Every
    /// instruction stores its own fixed cost here; conditional control flow
    /// stores the smaller documented cost when the condition fails.
    pub t_cycles: u32,
}

impl CPU {
    /// The memory subsystem is sound; every instruction preserves this.
    pub open spec fn wf(self) -> bool {
        mmu_wf(self.mem@)
    }

    /// This CPU's abstract machine state.
    pub open spec fn machine(self) -> MachineV {
        MachineV { reg: self.reg, mem: self.mem@, ime: self.ime, halted: self.halted }
    }

    pub open spec fn with_reg(self, r: Registers) -> CPU {
        CPU { reg: r, ..self }
    }

    pub open spec fn with_t(self, t: u32) -> CPU {
        CPU { t_cycles: t, ..self }
    }

    /// The interrupt-enable and halt latches are untouched.
    pub open spec fn ctrl_eq(self, other: CPU) -> bool {
        self.ime == other.ime && self.halted == other.halted
    }

    /// A CPU over an all-zero RomOnly cartridge, for running the core with
    /// no image.
    pub fn new() -> (r: CPU)
        ensures
            r.wf(),
            r.reg == Registers::boot(),
            r.ime == false,
            r.halted == false,
    {
        CPU {
            reg: Registers::new(),
            mem: MMU::new(),
            ime: false,
            halted: false,
            t_cycles: 0,
        }
    }

    /// A CPU over the given memory subsystem.
    pub fn with_mmu(mmu: MMU) -> (r: CPU)
        requires
            mmu_wf(mmu@),
        ensures
            r.wf(),
            r.reg == Registers::boot(),
            r.mem == mmu,
            r.ime == false,
            r.halted == false,
    {
        CPU {
            reg: Registers::new(),
            mem: mmu,
            ime: false,
            halted: false,
            t_cycles: 0,
        }
    }

    /// Reads the immediate byte at PC and advances PC past it.
    pub fn get_immediate8(&mut self) -> (r: u8)
        requires
            old(self).wf(),
        ensures
            final(self).wf(),
            r == spec_read_b(old(self).mem@, old(self).reg.pc),
            *final(self) == old(self).with_reg(old(self).reg.with_pc(wrap16(old(self).reg.pc + 1))),
    {
        let r = self.mem.read_b(self.reg.pc);
        self.reg.pc = self.reg.pc.wrapping_add(1);
        r
    }

    /// Reads the little-endian immediate word at PC and advances PC past
    /// both bytes.
    pub fn get_immediate16(&mut self) -> (r: u16)
        requires
            old(self).wf(),
        ensures
            final(self).wf(),
            r == spec_read_w(old(self).mem@, old(self).reg.pc),
            *final(self) == old(self).with_reg(old(self).reg.with_pc(wrap16(old(self).reg.pc + 2))),
    {
        let r = self.mem.read_w(self.reg.pc);
        self.reg.pc = self.reg.pc.wrapping_add(2);
        r
    }

    /// Overwrites PC.
    pub fn jump(&mut self, addr: u16)
        ensures
            *final(self) == old(self).with_reg(old(self).reg.with_pc(addr)),
    {
        self.reg.pc = addr;
    }

    /// The address `offset` bytes away from the byte after the current PC,
    /// with the offset read as two's complement and the sum wrapping.
    pub fn relative_target(&self, n: u8) -> (r: u16)
        ensures
            r == wrap16(self.reg.pc + sign8(n)),
    {
        let pc = self.reg.pc;
        let ext: u16 = if n < 128 { 0 } else { 0xFF00 };
        let r = pc.wrapping_add(n as u16).wrapping_add(ext);
        proof {
            assert(((pc + n) % 65536 + ext) % 65536 == (pc + n + ext) % 65536) by (nonlinear_arith);
            assert((pc + n + ext) % 65536 == (pc + sign8(n)) % 65536) by (nonlinear_arith)
                requires ext == (if n < 128 { 0int } else { 0xFF00int }) && n < 256 && pc < 65536;
        }
        r
    }

    /// Pushes a word: SP moves down by two (wrapping), then the word is
    /// stored little-endian at the new SP.
    pub fn push_stack(&mut self, v: u16)
        requires
            old(self).wf(),
        ensures
            final(self).wf(),
            final(self).reg == old(self).reg.with_sp(wrap16(old(self).reg.sp - 2)),
            final(self).mem@ == spec_write_w(old(self).mem@, wrap16(old(self).reg.sp - 2), v),
            final(self).t_cycles == old(self).t_cycles,
            final(self).ctrl_eq(*old(self)),
    {
        self.reg.sp = self.reg.sp.wrapping_sub(2);
        let sp = self.reg.sp;
        self.mem.write_w(sp, v);
    }

    /// Pops a word from SP; SP moves up by two (wrapping).
    pub fn pop_stack(&mut self) -> (r: u16)
        requires
            old(self).wf(),
        ensures
            final(self).wf(),
            r == spec_read_w(old(self).mem@, old(self).reg.sp),
            *final(self) == old(self).with_reg(old(self).reg.with_sp(wrap16(old(self).reg.sp + 2))),
    {
        let r = self.mem.read_w(self.reg.sp);
        self.reg.sp = self.reg.sp.wrapping_add(2);
        r
    }

    /// A fixed-target call: pushes the current PC and jumps to the vector.
    pub fn restart(&mut self, addr: u16)
        requires
            old(self).wf(),
        ensures
            final(self).wf(),
            final(self).reg == old(self).reg.with_sp(wrap16(old(self).reg.sp - 2)).with_pc(addr),
            final(self).mem@ == spec_write_w(old(self).mem@, wrap16(old(self).reg.sp - 2), old(self).reg.pc),
            final(self).t_cycles == 16,
            final(self).ctrl_eq(*old(self)),
    {
        let pc = self.reg.pc;
        self.push_stack(pc);
        self.jump(addr);
        self.t_cycles = 16;
    }
}

} // verus!
