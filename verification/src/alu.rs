use vstd::prelude::*;
use crate::registers::Registers;

verus! {

/// The value of a byte read as a two's-complement offset.
pub open spec fn sign8(n: u8) -> int {
    if n < 128 {
        n as int
    } else {
        n - 256
    }
}

/// 8-bit addition, modulo 2^8.
pub open spec fn wrap8(v: int) -> u8 {
    (v % 256) as u8
}

/// 16-bit addition, modulo 2^16.
pub open spec fn wrap16(v: int) -> u16 {
    (v % 65536) as u16
}

/// Wrapping a sum whose left operand was already wrapped loses nothing.
pub proof fn lemma_wrap16_add(a: int, b: int)
    ensures
        wrap16(wrap16(a) + b) == wrap16(a + b),
{
    assert((a % 65536 + b) % 65536 == (a + b) % 65536) by (nonlinear_arith);
}

/// Left rotate: bit 7 moves into bit 0 and into the carry.
pub open spec fn rlc8(v: u8) -> u8 {
    wrap8(v * 2 + v / 128)
}

/// Right rotate: bit 0 moves into bit 7 and into the carry.
pub open spec fn rrc8(v: u8) -> u8 {
    (v / 2 + (v % 2) * 128) as u8
}

/// Left rotate through carry: the old carry enters bit 0.
pub open spec fn rl8(v: u8, cf: bool) -> u8 {
    wrap8(v * 2 + if cf { 1int } else { 0int })
}

/// Right rotate through carry: the old carry enters bit 7.
pub open spec fn rr8(v: u8, cf: bool) -> u8 {
    (v / 2 + if cf { 128int } else { 0int }) as u8
}

/// The two nibbles exchanged.
pub open spec fn swap8(v: u8) -> u8 {
    ((v % 16) * 16 + v / 16) as u8
}

/// 2^b for a bit index, so that bit b of v is `v / pow2_bit(b) % 2`.
pub open spec fn pow2_bit(b: u8) -> u8 {
    if b == 0 { 1u8 }
    else if b == 1 { 2u8 }
    else if b == 2 { 4u8 }
    else if b == 3 { 8u8 }
    else if b == 4 { 16u8 }
    else if b == 5 { 32u8 }
    else if b == 6 { 64u8 }
    else { 128u8 }
}

/// Bit b of v, as a boolean.
pub open spec fn bit8(v: u8, b: u8) -> bool {
    v / pow2_bit(b) % 2 == 1
}

/// Executable 2^b for a bit index below 8.
pub fn pow2_of(b: u8) -> (r: u8)
    requires
        b < 8,
    ensures
        r == pow2_bit(b),
{
    match b {
        0 => 1,
        1 => 2,
        2 => 4,
        3 => 8,
        4 => 16,
        5 => 32,
        6 => 64,
        _ => 128,
    }
}

impl Registers {
    /// ADD A,v: accumulator sum modulo 2^8; Carry iff the raw sum exceeds
    /// 255, HalfCarry iff the low nibbles alone carry, Zero iff the
    /// truncated sum is zero, Subtract always cleared.
    pub open spec fn add_acc_spec(self, v: u8) -> Registers {
        Registers {
            a: wrap8(self.a + v),
            zf: (self.a + v) % 256 == 0,
            nf: false,
            hf: self.a % 16 + v % 16 > 15,
            cf: self.a + v > 255,
            ..self
        }
    }

    pub fn add_acc(&mut self, v: u8)
        ensures
            *final(self) == old(self).add_acc_spec(v),
    {
        let a = self.a;
        let r = a.wrapping_add(v);
        self.a = r;
        self.zf = r == 0;
        self.nf = false;
        self.hf = a % 16 + v % 16 > 15;
        self.cf = (a as u16) + (v as u16) > 255;
    }

    /// ADC A,v: as ADD but with the incoming carry added to the raw sum.
    pub open spec fn adc_acc_spec(self, v: u8) -> Registers {
        Registers {
            a: wrap8(self.a + v + if self.cf { 1int } else { 0int }),
            zf: (self.a + v + if self.cf { 1int } else { 0int }) % 256 == 0,
            nf: false,
            hf: self.a % 16 + v % 16 + (if self.cf { 1int } else { 0int }) > 15,
            cf: self.a + v + (if self.cf { 1int } else { 0int }) > 255,
            ..self
        }
    }

    pub fn adc_acc(&mut self, v: u8)
        ensures
            *final(self) == old(self).adc_acc_spec(v),
    {
        let a = self.a;
        let cin: u8 = if self.cf { 1 } else { 0 };
        let r = a.wrapping_add(v).wrapping_add(cin);
        self.a = r;
        self.zf = r == 0;
        self.nf = false;
        self.hf = a % 16 + v % 16 + cin > 15;
        self.cf = (a as u16) + (v as u16) + (cin as u16) > 255;
    }

    /// SUB A,v: difference modulo 2^8; Carry is the borrow (v larger than
    /// the accumulator), HalfCarry the borrow of the low nibbles, Subtract
    /// always set.
    pub open spec fn sub_acc_spec(self, v: u8) -> Registers {
        Registers {
            a: wrap8(self.a - v),
            zf: self.a == v,
            nf: true,
            hf: self.a % 16 < v % 16,
            cf: self.a < v,
            ..self
        }
    }

    pub fn sub_acc(&mut self, v: u8)
        ensures
            *final(self) == old(self).sub_acc_spec(v),
    {
        let a = self.a;
        let r = a.wrapping_sub(v);
        self.a = r;
        self.zf = a == v;
        self.nf = true;
        self.hf = a % 16 < v % 16;
        self.cf = a < v;
    }

    /// SBC A,v: as SUB but the incoming carry joins the subtrahend.
    pub open spec fn sbc_acc_spec(self, v: u8) -> Registers {
        Registers {
            a: wrap8(self.a - v - if self.cf { 1int } else { 0int }),
            zf: (self.a - v - if self.cf { 1int } else { 0int }) % 256 == 0,
            nf: true,
            hf: self.a % 16 < v % 16 + (if self.cf { 1int } else { 0int }),
            cf: (self.a as int) < v + (if self.cf { 1int } else { 0int }),
            ..self
        }
    }

    pub fn sbc_acc(&mut self, v: u8)
        ensures
            *final(self) == old(self).sbc_acc_spec(v),
    {
        let a = self.a;
        let cin: u8 = if self.cf { 1 } else { 0 };
        let r = a.wrapping_sub(v).wrapping_sub(cin);
        self.a = r;
        self.zf = r == 0;
        self.nf = true;
        self.hf = a % 16 < v % 16 + cin;
        self.cf = (a as u16) < (v as u16) + (cin as u16);
    }

    /// CP v: the flags of SUB A,v without storing the difference.
    pub open spec fn cp_acc_spec(self, v: u8) -> Registers {
        Registers {
            zf: self.a == v,
            nf: true,
            hf: self.a % 16 < v % 16,
            cf: self.a < v,
            ..self
        }
    }

    pub fn cp_acc(&mut self, v: u8)
        ensures
            *final(self) == old(self).cp_acc_spec(v),
    {
        let a = self.a;
        self.zf = a == v;
        self.nf = true;
        self.hf = a % 16 < v % 16;
        self.cf = a < v;
    }

    /// AND A,v: bitwise and; HalfCarry forced set, Carry and Subtract
    /// forced clear.
    pub open spec fn and_acc_spec(self, v: u8) -> Registers {
        Registers {
            a: self.a & v,
            zf: self.a & v == 0,
            nf: false,
            hf: true,
            cf: false,
            ..self
        }
    }

    pub fn and_acc(&mut self, v: u8)
        ensures
            *final(self) == old(self).and_acc_spec(v),
    {
        let r = self.a & v;
        self.a = r;
        self.zf = r == 0;
        self.nf = false;
        self.hf = true;
        self.cf = false;
    }

    /// OR A,v: bitwise or; Subtract, HalfCarry and Carry forced clear.
    pub open spec fn or_acc_spec(self, v: u8) -> Registers {
        Registers {
            a: self.a | v,
            zf: self.a | v == 0,
            nf: false,
            hf: false,
            cf: false,
            ..self
        }
    }

    pub fn or_acc(&mut self, v: u8)
        ensures
            *final(self) == old(self).or_acc_spec(v),
    {
        let r = self.a | v;
        self.a = r;
        self.zf = r == 0;
        self.nf = false;
        self.hf = false;
        self.cf = false;
    }

    /// XOR A,v: bitwise exclusive or; Subtract, HalfCarry and Carry forced
    /// clear.
    pub open spec fn xor_acc_spec(self, v: u8) -> Registers {
        Registers {
            a: self.a ^ v,
            zf: self.a ^ v == 0,
            nf: false,
            hf: false,
            cf: false,
            ..self
        }
    }

    pub fn xor_acc(&mut self, v: u8)
        ensures
            *final(self) == old(self).xor_acc_spec(v),
    {
        let r = self.a ^ v;
        self.a = r;
        self.zf = r == 0;
        self.nf = false;
        self.hf = false;
        self.cf = false;
    }

    /// The flag effect shared by every 8-bit INC: Zero and HalfCarry from
    /// the incremented value, Subtract cleared, Carry untouched. Returns
    /// the incremented value for the caller to store.
    pub fn apply_inc8(&mut self, v: u8) -> (r: u8)
        ensures
            r == wrap8(v + 1),
            *final(self) == old(self).with_flags(
                (v + 1) % 256 == 0,
                false,
                v % 16 == 15,
                old(self).cf,
            ),
    {
        let r = v.wrapping_add(1);
        self.zf = r == 0;
        self.nf = false;
        self.hf = v % 16 == 15;
        r
    }

    /// The flag effect shared by every 8-bit DEC: Zero and HalfCarry from
    /// the decremented value, Subtract set, Carry untouched. Returns the
    /// decremented value for the caller to store.
    pub fn apply_dec8(&mut self, v: u8) -> (r: u8)
        ensures
            r == wrap8(v - 1),
            *final(self) == old(self).with_flags(
                v == 1,
                true,
                v % 16 == 0,
                old(self).cf,
            ),
    {
        let r = v.wrapping_sub(1);
        self.zf = r == 0;
        self.nf = true;
        self.hf = v % 16 == 0;
        r
    }

    /// ADD HL,v: 16-bit addition into HL; HalfCarry is the carry out of
    /// bit 11, Carry the carry out of bit 15, Zero untouched, Subtract
    /// cleared.
    pub open spec fn add_hl_spec(self, v: u16) -> Registers {
        Registers {
            nf: false,
            hf: self.hl() % 4096 + v % 4096 > 4095,
            cf: self.hl() + v > 65535,
            ..self.with_hl(wrap16(self.hl() + v))
        }
    }

    pub fn add_hl(&mut self, v: u16)
        ensures
            *final(self) == old(self).add_hl_spec(v),
    {
        let hl = self.get_hl();
        let r = hl.wrapping_add(v);
        self.nf = false;
        self.hf = hl % 4096 + v % 4096 > 4095;
        self.cf = (hl as u32) + (v as u32) > 65535;
        self.set_hl(r);
    }

    /// The flag effect of ADD SP,offset and of LD HL,SP+offset: HalfCarry
    /// and Carry come from unsigned addition of the offset byte to the low
    /// byte of SP; Zero and Subtract are cleared. Returns the target value.
    pub fn apply_sp_offset(&mut self, n: u8) -> (r: u16)
        ensures
            r == wrap16(old(self).sp + sign8(n)),
            *final(self) == old(self).with_flags(
                false,
                false,
                old(self).sp % 16 + n % 16 > 15,
                old(self).sp % 256 + n > 255,
            ),
    {
        let sp = self.sp;
        let ext: u16 = if n < 128 { 0 } else { 0xFF00 };
        let r = sp.wrapping_add(n as u16).wrapping_add(ext);
        self.zf = false;
        self.nf = false;
        self.hf = sp % 16 + (n as u16) % 16 > 15;
        self.cf = sp % 256 + (n as u16) % 256 > 255;
        proof {
            assert(r == wrap16(sp + sign8(n))) by {
                assert(((sp + n) % 65536 + ext) % 65536 == (sp + n + ext) % 65536) by (nonlinear_arith);
                assert((sp + n + ext) % 65536 == (sp + sign8(n)) % 65536) by (nonlinear_arith)
                    requires ext == (if n < 128 { 0int } else { 0xFF00int }) && n < 256 && sp < 65536;
            }
        }
        r
    }

    /// DAA: decimal-adjust the accumulator after a BCD addition or
    /// subtraction, following the documented nibble-correction rule.
    /// HalfCarry is always cleared; Carry is set by an adjustment of the
    /// high nibble after an addition and kept otherwise.
    pub open spec fn daa_spec(self) -> Registers {
        let adj_low: int = if self.hf || (!self.nf && self.a % 16 > 9) { 6 } else { 0 };
        let high_adjust: bool = self.cf || (!self.nf && self.a > 0x99);
        let adj: int = adj_low + if high_adjust { 0x60int } else { 0int };
        let a2: u8 = if self.nf { wrap8(self.a - adj) } else { wrap8(self.a + adj) };
        Registers {
            a: a2,
            zf: a2 == 0,
            hf: false,
            cf: high_adjust,
            ..self
        }
    }

    pub fn daa(&mut self)
        ensures
            *final(self) == old(self).daa_spec(),
    {
        let a = self.a;
        let mut adj: u8 = 0;
        if self.hf || (!self.nf && a % 16 > 9) {
            adj = 6;
        }
        let high_adjust = self.cf || (!self.nf && a > 0x99);
        if high_adjust {
            adj += 0x60;
        }
        let a2 = if self.nf { a.wrapping_sub(adj) } else { a.wrapping_add(adj) };
        self.a = a2;
        self.zf = a2 == 0;
        self.hf = false;
        self.cf = high_adjust;
    }
}


/// Bit b of v forced to one.
pub open spec fn set_bit8(v: u8, b: u8) -> u8 {
    if bit8(v, b) { v } else { (v + pow2_bit(b)) as u8 }
}

/// Bit b of v forced to zero.
pub open spec fn res_bit8(v: u8, b: u8) -> u8 {
    if bit8(v, b) { (v - pow2_bit(b)) as u8 } else { v }
}

/// Executable test of bit b.
pub fn test_bit(v: u8, b: u8) -> (r: bool)
    requires
        b < 8,
    ensures
        r == bit8(v, b),
{
    (v / pow2_of(b)) % 2 == 1
}

/// Executable form of `set_bit8`.
pub fn set_bit(v: u8, b: u8) -> (r: u8)
    requires
        b < 8,
    ensures
        r == set_bit8(v, b),
{
    match b {
        0 => if v / 1 % 2 == 1 { v } else { v + 1 },
        1 => if v / 2 % 2 == 1 { v } else { v + 2 },
        2 => if v / 4 % 2 == 1 { v } else { v + 4 },
        3 => if v / 8 % 2 == 1 { v } else { v + 8 },
        4 => if v / 16 % 2 == 1 { v } else { v + 16 },
        5 => if v / 32 % 2 == 1 { v } else { v + 32 },
        6 => if v / 64 % 2 == 1 { v } else { v + 64 },
        _ => if v / 128 % 2 == 1 { v } else { v + 128 },
    }
}

/// Executable form of `res_bit8`.
pub fn res_bit(v: u8, b: u8) -> (r: u8)
    requires
        b < 8,
    ensures
        r == res_bit8(v, b),
{
    match b {
        0 => if v / 1 % 2 == 1 { v - 1 } else { v },
        1 => if v / 2 % 2 == 1 { v - 2 } else { v },
        2 => if v / 4 % 2 == 1 { v - 4 } else { v },
        3 => if v / 8 % 2 == 1 { v - 8 } else { v },
        4 => if v / 16 % 2 == 1 { v - 16 } else { v },
        5 => if v / 32 % 2 == 1 { v - 32 } else { v },
        6 => if v / 64 % 2 == 1 { v - 64 } else { v },
        _ => if v / 128 % 2 == 1 { v - 128 } else { v },
    }
}

/// The flag rule for 8-bit addition, for every pair of operands: Carry is
/// set iff the raw sum exceeds 255, HalfCarry iff the low nibbles alone
/// carry, Zero iff the sum truncated to eight bits is zero, and Subtract
/// is never set.
pub proof fn lemma_add_flag_rule(r: Registers, v: u8)
    ensures
        r.add_acc_spec(v).cf <==> r.a + v > 255,
        r.add_acc_spec(v).hf <==> (r.a & 0xF) + (v & 0xF) > 0xF,
        r.add_acc_spec(v).zf <==> (((r.a as u16 + v as u16) as u16) & 0xFF) == 0,
        !r.add_acc_spec(v).nf,
        r.add_acc_spec(v).a == (((r.a as u16 + v as u16) as u16) & 0xFF),
{
    let a = r.a;
    let b = v;
    assert((a & 0xF) == a % 16 && (b & 0xF) == b % 16) by (bit_vector);
    let s: u16 = (a as u16 + b as u16) as u16;
    assert((s & 0xFF) == s % 256) by (bit_vector);
}

/// A 16-bit register-pair increment or decrement wraps modulo 65536 and
/// affects no flag: every pair reads back as the wrapped sum and the flag
/// nibble is unchanged. The same holds of SP.
pub proof fn lemma_inc16_dec16_rule(r: Registers, d: int)
    requires
        d == 1 || d == -1,
    ensures
        r.with_bc(wrap16(r.bc() + d)).bc() == (r.bc() + d) % 65536,
        r.with_de(wrap16(r.de() + d)).de() == (r.de() + d) % 65536,
        r.with_hl(wrap16(r.hl() + d)).hl() == (r.hl() + d) % 65536,
        r.with_sp(wrap16(r.sp + d)).sp == (r.sp + d) % 65536,
        r.with_bc(wrap16(r.bc() + d)).f_nibble() == r.f_nibble(),
        r.with_de(wrap16(r.de() + d)).f_nibble() == r.f_nibble(),
        r.with_hl(wrap16(r.hl() + d)).f_nibble() == r.f_nibble(),
        r.with_sp(wrap16(r.sp + d)).f_nibble() == r.f_nibble(),
{
    let b = wrap16(r.bc() + d);
    let e = wrap16(r.de() + d);
    let h = wrap16(r.hl() + d);
    assert((b / 256) * 256 + b % 256 == b) by (nonlinear_arith);
    assert((e / 256) * 256 + e % 256 == e) by (nonlinear_arith);
    assert((h / 256) * 256 + h % 256 == h) by (nonlinear_arith);
}

/// An 8-bit increment or decrement recomputes Zero, HalfCarry and
/// Subtract but never touches Carry: the flag state any such instruction
/// installs keeps the old Carry bit.
pub proof fn lemma_inc8_dec8_keep_carry(r: Registers, v: u8)
    ensures
        r.with_flags((v + 1) % 256 == 0, false, v % 16 == 15, r.cf).cf == r.cf,
        r.with_flags(v == 1, true, v % 16 == 0, r.cf).cf == r.cf,
{
}

/// RLC: left rotate, carry takes the old bit 7.
pub fn rotate_left(v: u8) -> (r: (u8, bool))
    ensures
        r.0 == rlc8(v),
        r.1 == (v >= 128),
{
    ((v % 128) * 2 + v / 128, v >= 128)
}

/// RRC: right rotate, carry takes the old bit 0.
pub fn rotate_right(v: u8) -> (r: (u8, bool))
    ensures
        r.0 == rrc8(v),
        r.1 == (v % 2 == 1),
{
    (v / 2 + (v % 2) * 128, v % 2 == 1)
}

/// RL: left rotate through carry.
pub fn rotate_left_carry(v: u8, cf: bool) -> (r: (u8, bool))
    ensures
        r.0 == rl8(v, cf),
        r.1 == (v >= 128),
{
    ((v % 128) * 2 + if cf { 1 } else { 0 }, v >= 128)
}

/// RR: right rotate through carry.
pub fn rotate_right_carry(v: u8, cf: bool) -> (r: (u8, bool))
    ensures
        r.0 == rr8(v, cf),
        r.1 == (v % 2 == 1),
{
    (v / 2 + if cf { 128 } else { 0 }, v % 2 == 1)
}

/// SLA: arithmetic shift left, bit 0 cleared.
pub fn shift_left(v: u8) -> (r: (u8, bool))
    ensures
        r.0 == wrap8(v * 2),
        r.1 == (v >= 128),
{
    ((v % 128) * 2, v >= 128)
}

/// SRA: arithmetic shift right, bit 7 kept.
pub fn shift_right_arith(v: u8) -> (r: (u8, bool))
    ensures
        r.0 == (v / 2 + (v / 128) * 128) as u8,
        r.1 == (v % 2 == 1),
{
    (v / 2 + (v / 128) * 128, v % 2 == 1)
}

/// SRL: logical shift right, bit 7 cleared.
pub fn shift_right_logic(v: u8) -> (r: (u8, bool))
    ensures
        r.0 == v / 2,
        r.1 == (v % 2 == 1),
{
    (v / 2, v % 2 == 1)
}

/// SWAP: the two nibbles exchanged; no carry comes out.
pub fn swap_nibbles(v: u8) -> (r: u8)
    ensures
        r == swap8(v),
{
    (v % 16) * 16 + v / 16
}

} // verus!
