use vstd::prelude::*;
use crate::mbc::{Cartridge, MbcV, mbc_read, mbc_write, mbc_wf};

verus! {

/// Abstract state of the memory subsystem: the cartridge behind its bank
/// controller, the console-side RAM blocks, the I/O register block and the
/// interrupt-enable byte.
#[verifier::ext_equal]
pub struct MmuV {
    pub cart: MbcV,
    pub vram: Seq<u8>,
    pub wram: Seq<u8>,
    pub oam: Seq<u8>,
    pub io: Seq<u8>,
    pub hram: Seq<u8>,
    pub ie: u8,
}

/// Every memory block has its fixed size and the controller state is sound.
pub open spec fn mmu_wf(m: MmuV) -> bool {
    &&& mbc_wf(m.cart)
    &&& m.vram.len() == 0x2000
    &&& m.wram.len() == 0x2000
    &&& m.oam.len() == 0xA0
    &&& m.io.len() == 0x80
    &&& m.hram.len() == 0x7F
}

/// The byte read at a logical address. Every address maps to exactly one
/// owner; the 0xFEA0-0xFEFF gap has none and reads as 0xFF. The
/// 0xE000-0xFDFF region echoes work RAM.
pub open spec fn spec_read_b(m: MmuV, addr: u16) -> u8 {
    if addr < 0x8000 {
        mbc_read(m.cart, addr)
    } else if addr < 0xA000 {
        m.vram[addr - 0x8000]
    } else if addr < 0xC000 {
        mbc_read(m.cart, addr)
    } else if addr < 0xE000 {
        m.wram[addr - 0xC000]
    } else if addr < 0xFE00 {
        m.wram[addr - 0xE000]
    } else if addr < 0xFEA0 {
        m.oam[addr - 0xFE00]
    } else if addr < 0xFF00 {
        0xFF
    } else if addr < 0xFF80 {
        m.io[addr - 0xFF00]
    } else if addr < 0xFFFF {
        m.hram[addr - 0xFF80]
    } else {
        m.ie
    }
}

/// The sprite table after a DMA transfer triggered by writing `v`: 0xA0
/// bytes copied at once from source page `v * 0x100`.
pub open spec fn spec_dma(m: MmuV, v: u8) -> MmuV {
    MmuV { oam: Seq::new(0xA0nat, |i: int| spec_read_b(m, (v * 256 + i) as u16)), ..m }
}

/// The memory state after a write at a logical address. Writes into the
/// unowned 0xFEA0-0xFEFF gap are ignored; a write into the echo region
/// lands in work RAM; a write to the DMA trigger register stores the value
/// and performs the bulk copy into the sprite table.
pub open spec fn spec_write_b(m: MmuV, addr: u16, v: u8) -> MmuV {
    if addr < 0x8000 {
        MmuV { cart: mbc_write(m.cart, addr, v), ..m }
    } else if addr < 0xA000 {
        MmuV { vram: m.vram.update(addr - 0x8000, v), ..m }
    } else if addr < 0xC000 {
        MmuV { cart: mbc_write(m.cart, addr, v), ..m }
    } else if addr < 0xE000 {
        MmuV { wram: m.wram.update(addr - 0xC000, v), ..m }
    } else if addr < 0xFE00 {
        MmuV { wram: m.wram.update(addr - 0xE000, v), ..m }
    } else if addr < 0xFEA0 {
        MmuV { oam: m.oam.update(addr - 0xFE00, v), ..m }
    } else if addr < 0xFF00 {
        m
    } else if addr == 0xFF46 {
        spec_dma(MmuV { io: m.io.update(0x46, v), ..m }, v)
    } else if addr < 0xFF80 {
        MmuV { io: m.io.update(addr - 0xFF00, v), ..m }
    } else if addr < 0xFFFF {
        MmuV { hram: m.hram.update(addr - 0xFF80, v), ..m }
    } else {
        MmuV { ie: v, ..m }
    }
}

/// A 16-bit read: little endian, two consecutive byte reads with address
/// wraparound.
pub open spec fn spec_read_w(m: MmuV, addr: u16) -> u16 {
    (spec_read_b(m, addr) + spec_read_b(m, ((addr + 1) % 0x10000) as u16) * 256) as u16
}

/// A 16-bit write: little endian, two consecutive byte writes with address
/// wraparound.
pub open spec fn spec_write_w(m: MmuV, addr: u16, v: u16) -> MmuV {
    spec_write_b(spec_write_b(m, addr, (v % 256) as u8), ((addr + 1) % 0x10000) as u16, (v / 256) as u8)
}

/// The memory management unit: owns the cartridge (behind its bank
/// controller), video/work/high RAM, the sprite table, the I/O register
/// block and the interrupt-enable byte, and routes every access by address
/// range to the right owner.
pub struct MMU {
    cart: Cartridge,
    vram: Vec<u8>,
    wram: Vec<u8>,
    oam: Vec<u8>,
    io: Vec<u8>,
    hram: Vec<u8>,
    ie: u8,
}

impl View for MMU {
    type V = MmuV;

    closed spec fn view(&self) -> MmuV {
        MmuV {
            cart: self.cart@,
            vram: self.vram@,
            wram: self.wram@,
            oam: self.oam@,
            io: self.io@,
            hram: self.hram@,
            ie: self.ie,
        }
    }
}

impl MMU {
    /// An MMU backed by an all-zero RomOnly cartridge.
    pub fn new() -> (r: MMU)
        ensures
            mmu_wf(r@),
            r@.cart matches MbcV::RomOnly { rom, ram }
                && rom.len() == 0x8000
                && (forall|i: int| 0 <= i < 0x8000 ==> rom[i] == 0u8)
                && (forall|i: int| 0 <= i < 0x2000 ==> ram[i] == 0u8),
            forall|i: int| 0 <= i < 0x2000 ==> r@.vram[i] == 0u8,
            forall|i: int| 0 <= i < 0x2000 ==> r@.wram[i] == 0u8,
            forall|i: int| 0 <= i < 0xA0 ==> r@.oam[i] == 0u8,
            forall|i: int| 0 <= i < 0x80 ==> r@.io[i] == 0u8,
            forall|i: int| 0 <= i < 0x7F ==> r@.hram[i] == 0u8,
            r@.ie == 0u8,
    {
        MMU::new_with_rom(Cartridge::empty())
    }

    /// An MMU backed by the given cartridge, with every console-side memory
    /// block zeroed.
    pub fn new_with_rom(cart: Cartridge) -> (r: MMU)
        requires
            mbc_wf(cart@),
        ensures
            mmu_wf(r@),
            r@.cart == cart@,
            forall|i: int| 0 <= i < 0x2000 ==> r@.vram[i] == 0u8,
            forall|i: int| 0 <= i < 0x2000 ==> r@.wram[i] == 0u8,
            forall|i: int| 0 <= i < 0xA0 ==> r@.oam[i] == 0u8,
            forall|i: int| 0 <= i < 0x80 ==> r@.io[i] == 0u8,
            forall|i: int| 0 <= i < 0x7F ==> r@.hram[i] == 0u8,
            r@.ie == 0u8,
    {
        MMU {
            cart,
            vram: crate::mbc::zero_bytes(0x2000),
            wram: crate::mbc::zero_bytes(0x2000),
            oam: crate::mbc::zero_bytes(0xA0),
            io: crate::mbc::zero_bytes(0x80),
            hram: crate::mbc::zero_bytes(0x7F),
            ie: 0,
        }
    }

    /// Reads one byte; total over the whole address space.
    pub fn read_b(&self, addr: u16) -> (r: u8)
        requires
            mmu_wf(self@),
        ensures
            r == spec_read_b(self@, addr),
    {
        if addr < 0x8000 {
            self.cart.read(addr)
        } else if addr < 0xA000 {
            self.vram[(addr - 0x8000) as usize]
        } else if addr < 0xC000 {
            self.cart.read(addr)
        } else if addr < 0xE000 {
            self.wram[(addr - 0xC000) as usize]
        } else if addr < 0xFE00 {
            self.wram[(addr - 0xE000) as usize]
        } else if addr < 0xFEA0 {
            self.oam[(addr - 0xFE00) as usize]
        } else if addr < 0xFF00 {
            0xFF
        } else if addr < 0xFF80 {
            self.io[(addr - 0xFF00) as usize]
        } else if addr < 0xFFFF {
            self.hram[(addr - 0xFF80) as usize]
        } else {
            self.ie
        }
    }

    /// Writes one byte; total over the whole address space.
    pub fn write_b(&mut self, addr: u16, v: u8)
        requires
            mmu_wf(old(self)@),
        ensures
            mmu_wf(final(self)@),
            final(self)@ == spec_write_b(old(self)@, addr, v),
    {
        if addr < 0x8000 {
            self.cart.write(addr, v);
        } else if addr < 0xA000 {
            self.vram.set((addr - 0x8000) as usize, v);
        } else if addr < 0xC000 {
            self.cart.write(addr, v);
        } else if addr < 0xE000 {
            self.wram.set((addr - 0xC000) as usize, v);
        } else if addr < 0xFE00 {
            self.wram.set((addr - 0xE000) as usize, v);
        } else if addr < 0xFEA0 {
            self.oam.set((addr - 0xFE00) as usize, v);
        } else if addr < 0xFF00 {
            // unowned gap: the write is ignored
        } else if addr == 0xFF46 {
            self.io.set(0x46, v);
            self.dma_transfer(v);
        } else if addr < 0xFF80 {
            self.io.set((addr - 0xFF00) as usize, v);
        } else if addr < 0xFFFF {
            self.hram.set((addr - 0xFF80) as usize, v);
        } else {
            self.ie = v;
        }
    }

    /// The DMA bulk copy: 0xA0 bytes from page `v * 0x100` into the sprite
    /// table, read atomically from the pre-transfer state.
    fn dma_transfer(&mut self, v: u8)
        requires
            mmu_wf(old(self)@),
        ensures
            mmu_wf(final(self)@),
            final(self)@ == spec_dma(old(self)@, v),
    {
        let base: u16 = (v as u16) * 256;
        let mut tmp: Vec<u8> = Vec::new();
        let mut i: usize = 0;
        while i < 0xA0
            invariant
                mmu_wf(self@),
                self@ == old(self)@,
                i <= 0xA0,
                base == v * 256,
                tmp@.len() == i,
                forall|j: int| 0 <= j < i ==> tmp@[j] == spec_read_b(self@, (v * 256 + j) as u16),
            decreases 0xA0 - i,
        {
            let b = self.read_b(base + (i as u16));
            tmp.push(b);
            i += 1;
        }
        let mut k: usize = 0;
        while k < 0xA0
            invariant
                0xA0 <= tmp@.len(),
                k <= 0xA0,
                self@.cart == old(self)@.cart,
                self@.vram == old(self)@.vram,
                self@.wram == old(self)@.wram,
                self@.io == old(self)@.io,
                self@.hram == old(self)@.hram,
                self@.ie == old(self)@.ie,
                self@.oam.len() == 0xA0,
                mmu_wf(self@),
                forall|j: int| 0 <= j < k ==> self@.oam[j] == tmp@[j],
                forall|j: int| k <= j < 0xA0 ==> self@.oam[j] == old(self)@.oam[j],
                forall|j: int| 0 <= j < 0xA0 ==> tmp@[j] == spec_read_b(old(self)@, (v * 256 + j) as u16),
            decreases 0xA0 - k,
        {
            let b = tmp[k];
            self.oam.set(k, b);
            k += 1;
        }
        proof {
            let target = Seq::new(0xA0nat, |i: int| spec_read_b(old(self)@, (v * 256 + i) as u16));
            assert forall|j: int| 0 <= j < 0xA0 implies self@.oam[j] == target[j] by {
                assert(self@.oam[j] == tmp@[j]);
                assert(tmp@[j] == spec_read_b(old(self)@, (v * 256 + j) as u16));
            }
            assert(self@.oam =~= target);
            assert(self@ =~= spec_dma(old(self)@, v));
        }
    }

    /// Reads a little-endian 16-bit word from two consecutive addresses.
    pub fn read_w(&self, addr: u16) -> (r: u16)
        requires
            mmu_wf(self@),
        ensures
            r == spec_read_w(self@, addr),
    {
        let lo = self.read_b(addr);
        let hi = self.read_b(addr.wrapping_add(1));
        (lo as u16) + (hi as u16) * 256
    }

    /// Writes a little-endian 16-bit word to two consecutive addresses.
    pub fn write_w(&mut self, addr: u16, v: u16)
        requires
            mmu_wf(old(self)@),
        ensures
            mmu_wf(final(self)@),
            final(self)@ == spec_write_w(old(self)@, addr, v),
    {
        self.write_b(addr, (v % 256) as u8);
        self.write_b(addr.wrapping_add(1), (v / 256) as u8);
    }
}

/// A byte written to any work-RAM address and read back immediately returns
/// the same byte.
pub proof fn lemma_wram_round_trip(m: MmuV, addr: u16, v: u8)
    requires
        mmu_wf(m),
        0xC000 <= addr < 0xE000,
    ensures
        spec_read_b(spec_write_b(m, addr, v), addr) == v,
{
}

/// The echo region mirrors work RAM on read: an address in it reads the
/// same byte as the primary address 0x2000 below it.
pub proof fn lemma_echo_mirrors_wram(m: MmuV, addr: u16)
    requires
        mmu_wf(m),
        0xE000 <= addr < 0xFE00,
    ensures
        spec_read_b(m, addr) == spec_read_b(m, (addr - 0x2000) as u16),
{
}

/// A word written to work RAM (both bytes inside the region) and read back
/// immediately returns the same word.
pub proof fn lemma_wram_word_round_trip(m: MmuV, addr: u16, v: u16)
    requires
        mmu_wf(m),
        0xC000 <= addr < 0xDFFF,
    ensures
        spec_read_w(spec_write_w(m, addr, v), addr) == v,
{
    let m2 = spec_write_w(m, addr, v);
    assert(spec_read_b(m2, addr) == v % 256);
    assert(spec_read_b(m2, ((addr + 1) % 0x10000) as u16) == v / 256);
}

} // verus!
