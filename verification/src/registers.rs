use vstd::prelude::*;

verus! {

/// One of the four condition flags kept by the register file.
///
/// The flags live in a packed nibble: bit 3 is Zero, bit 2 is Subtract,
/// bit 1 is HalfCarry, bit 0 is Carry; the upper nibble of the flag byte is
/// always zero.
#[derive(Clone, Copy, PartialEq, Eq, Structural, Debug)]
pub enum Flags {
    Zero,
    Subtract,
    HalfCarry,
    Carry,
}

/// The CPU register file: six 16-bit pairs (AF, BC, DE, HL, PC, SP), the
/// first four addressable as 8-bit halves (high byte first), and the four
/// condition flags that make up the F nibble.
///
/// PC and SP are unsigned 16-bit values with wraparound; no operation on
/// them faults on overflow.
#[derive(Clone, Copy, PartialEq, Eq, Structural, Debug)]
pub struct Registers {
    pub a: u8,
    pub b: u8,
    pub c: u8,
    pub d: u8,
    pub e: u8,
    pub h: u8,
    pub l: u8,
    /// Zero flag: the last arithmetic/logic result truncated to zero.
    pub zf: bool,
    /// Subtract flag: the last operation was of the subtraction family.
    pub nf: bool,
    /// Half-carry flag: carry out of bit 3 (8-bit) or bit 11 (16-bit).
    pub hf: bool,
    /// Carry flag: carry/borrow out of bit 7 (8-bit) or bit 15 (16-bit).
    pub cf: bool,
    pub pc: u16,
    pub sp: u16,
}

impl Registers {
    /// The AF pair: accumulator in the high byte, flag nibble in the low byte.
    pub open spec fn af(self) -> u16 {
        ((self.a as int) * 256 + (self.f_nibble() as int)) as u16
    }

    pub open spec fn bc(self) -> u16 {
        ((self.b as int) * 256 + (self.c as int)) as u16
    }

    pub open spec fn de(self) -> u16 {
        ((self.d as int) * 256 + (self.e as int)) as u16
    }

    pub open spec fn hl(self) -> u16 {
        ((self.h as int) * 256 + (self.l as int)) as u16
    }

    /// The packed flag nibble; its upper nibble is always zero.
    pub open spec fn f_nibble(self) -> u8 {
        ((if self.zf { 8int } else { 0int })
            + (if self.nf { 4int } else { 0int })
            + (if self.hf { 2int } else { 0int })
            + (if self.cf { 1int } else { 0int })) as u8
    }

    pub open spec fn with_a(self, v: u8) -> Registers {
        Registers { a: v, ..self }
    }

    pub open spec fn with_b(self, v: u8) -> Registers {
        Registers { b: v, ..self }
    }

    pub open spec fn with_c(self, v: u8) -> Registers {
        Registers { c: v, ..self }
    }

    pub open spec fn with_d(self, v: u8) -> Registers {
        Registers { d: v, ..self }
    }

    pub open spec fn with_e(self, v: u8) -> Registers {
        Registers { e: v, ..self }
    }

    pub open spec fn with_h(self, v: u8) -> Registers {
        Registers { h: v, ..self }
    }

    pub open spec fn with_l(self, v: u8) -> Registers {
        Registers { l: v, ..self }
    }

    pub open spec fn with_bc(self, v: u16) -> Registers {
        Registers { b: (v / 256) as u8, c: (v % 256) as u8, ..self }
    }

    pub open spec fn with_de(self, v: u16) -> Registers {
        Registers { d: (v / 256) as u8, e: (v % 256) as u8, ..self }
    }

    pub open spec fn with_hl(self, v: u16) -> Registers {
        Registers { h: (v / 256) as u8, l: (v % 256) as u8, ..self }
    }

    pub open spec fn with_af(self, v: u16) -> Registers {
        Registers {
            a: (v / 256) as u8,
            zf: v % 256 / 8 % 2 == 1,
            nf: v % 256 / 4 % 2 == 1,
            hf: v % 256 / 2 % 2 == 1,
            cf: v % 256 % 2 == 1,
            ..self
        }
    }

    pub open spec fn with_pc(self, v: u16) -> Registers {
        Registers { pc: v, ..self }
    }

    pub open spec fn with_sp(self, v: u16) -> Registers {
        Registers { sp: v, ..self }
    }

    pub open spec fn with_flags(self, zf: bool, nf: bool, hf: bool, cf: bool) -> Registers {
        Registers { zf, nf, hf, cf, ..self }
    }

    pub open spec fn spec_is_set(self, flag: Flags) -> bool {
        match flag {
            Flags::Zero => self.zf,
            Flags::Subtract => self.nf,
            Flags::HalfCarry => self.hf,
            Flags::Carry => self.cf,
        }
    }

    /// Register values observed after the boot sequence has run.
    pub open spec fn boot() -> Registers {
        Registers {
            a: 0x01, b: 0x00, c: 0x13, d: 0x00, e: 0xD8, h: 0x01, l: 0x4D,
            zf: true, nf: false, hf: true, cf: true,
            pc: 0x0100, sp: 0xFFFE,
        }
    }

    /// Register values observed after the boot sequence has run.
    pub fn new() -> (r: Registers)
        ensures
            r == Registers::boot(),
    {
        Registers {
            a: 0x01, b: 0x00, c: 0x13, d: 0x00, e: 0xD8, h: 0x01, l: 0x4D,
            zf: true, nf: false, hf: true, cf: true,
            pc: 0x0100, sp: 0xFFFE,
        }
    }

    pub fn get_af(&self) -> (r: u16)
        ensures
            r == self.af(),
    {
        let f: u16 = (if self.zf { 8u16 } else { 0u16 })
            + (if self.nf { 4u16 } else { 0u16 })
            + (if self.hf { 2u16 } else { 0u16 })
            + (if self.cf { 1u16 } else { 0u16 });
        (self.a as u16) * 256 + f
    }

    pub fn get_bc(&self) -> (r: u16)
        ensures
            r == self.bc(),
    {
        (self.b as u16) * 256 + (self.c as u16)
    }

    pub fn get_de(&self) -> (r: u16)
        ensures
            r == self.de(),
    {
        (self.d as u16) * 256 + (self.e as u16)
    }

    pub fn get_hl(&self) -> (r: u16)
        ensures
            r == self.hl(),
    {
        (self.h as u16) * 256 + (self.l as u16)
    }

    /// Stores a 16-bit value into AF. Only four bits of the low byte are
    /// live: the rest of the flag nibble's byte is discarded, keeping the
    /// upper nibble of F always zero.
    pub fn set_af(&mut self, v: u16)
        ensures
            *final(self) == old(self).with_af(v),
    {
        self.a = (v / 256) as u8;
        let f: u16 = v % 256;
        self.zf = f / 8 % 2 == 1;
        self.nf = f / 4 % 2 == 1;
        self.hf = f / 2 % 2 == 1;
        self.cf = f % 2 == 1;
    }

    pub fn set_bc(&mut self, v: u16)
        ensures
            *final(self) == old(self).with_bc(v),
    {
        self.b = (v / 256) as u8;
        self.c = (v % 256) as u8;
    }

    pub fn set_de(&mut self, v: u16)
        ensures
            *final(self) == old(self).with_de(v),
    {
        self.d = (v / 256) as u8;
        self.e = (v % 256) as u8;
    }

    pub fn set_hl(&mut self, v: u16)
        ensures
            *final(self) == old(self).with_hl(v),
    {
        self.h = (v / 256) as u8;
        self.l = (v % 256) as u8;
    }

    /// The packed flag nibble as a byte; the upper nibble is always zero.
    pub fn get_f(&self) -> (r: u8)
        ensures
            r == self.f_nibble(),
            r < 16,
    {
        (if self.zf { 8u8 } else { 0u8 })
            + (if self.nf { 4u8 } else { 0u8 })
            + (if self.hf { 2u8 } else { 0u8 })
            + (if self.cf { 1u8 } else { 0u8 })
    }

    pub fn is_set(&self, flag: Flags) -> (r: bool)
        ensures
            r == self.spec_is_set(flag),
    {
        match flag {
            Flags::Zero => self.zf,
            Flags::Subtract => self.nf,
            Flags::HalfCarry => self.hf,
            Flags::Carry => self.cf,
        }
    }

    pub fn set_flag(&mut self, flag: Flags)
        ensures
            *final(self) == (match flag {
                Flags::Zero => Registers { zf: true, ..*old(self) },
                Flags::Subtract => Registers { nf: true, ..*old(self) },
                Flags::HalfCarry => Registers { hf: true, ..*old(self) },
                Flags::Carry => Registers { cf: true, ..*old(self) },
            }),
    {
        match flag {
            Flags::Zero => self.zf = true,
            Flags::Subtract => self.nf = true,
            Flags::HalfCarry => self.hf = true,
            Flags::Carry => self.cf = true,
        }
    }

    pub fn clear_flag(&mut self, flag: Flags)
        ensures
            *final(self) == (match flag {
                Flags::Zero => Registers { zf: false, ..*old(self) },
                Flags::Subtract => Registers { nf: false, ..*old(self) },
                Flags::HalfCarry => Registers { hf: false, ..*old(self) },
                Flags::Carry => Registers { cf: false, ..*old(self) },
            }),
    {
        match flag {
            Flags::Zero => self.zf = false,
            Flags::Subtract => self.nf = false,
            Flags::HalfCarry => self.hf = false,
            Flags::Carry => self.cf = false,
        }
    }

    /// Replaces all four flags at once.
    pub fn set_flags(&mut self, zf: bool, nf: bool, hf: bool, cf: bool)
        ensures
            *final(self) == old(self).with_flags(zf, nf, hf, cf),
    {
        self.zf = zf;
        self.nf = nf;
        self.hf = hf;
        self.cf = cf;
    }
}

} // verus!
