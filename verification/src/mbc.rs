use vstd::prelude::*;

verus! {

/// Base of the switchable ROM window.
pub const ROM_WINDOW_BASE: u16 = 0x4000;

/// Size of one ROM bank.
pub const ROM_BANK_SIZE: u16 = 0x4000;

/// Base of the external-RAM window.
pub const RAM_WINDOW_BASE: u16 = 0xA000;

/// Abstract state of a memory bank controller: the cartridge bytes plus the
/// bank-selection latches.
pub enum MbcV {
    RomOnly { rom: Seq<u8>, ram: Seq<u8> },
    Banked {
        rom: Seq<u8>,
        ram: Seq<u8>,
        rom_bank: u8,
        ram_bank: u8,
        ram_enabled: bool,
        mode: bool,
    },
}

/// The addresses the MMU may route into a bank controller: the two ROM
/// windows and the external-RAM window. Anything else reaching a controller
/// is a routing bug.
pub open spec fn mbc_addr_ok(addr: u16) -> bool {
    addr < 0x8000 || (RAM_WINDOW_BASE <= addr && addr < 0xC000)
}

/// Well-formedness of controller state: RAM has its fixed size and the
/// selected ROM bank can never be bank 0 (the hardware remaps 0 to 1).
pub open spec fn mbc_wf(c: MbcV) -> bool {
    match c {
        MbcV::RomOnly { ram, .. } => ram.len() == 0x2000,
        MbcV::Banked { ram, rom_bank, ram_bank, .. } =>
            ram.len() == 0x8000 && rom_bank >= 1 && ram_bank < 4,
    }
}

/// The byte a bank controller hands back for a routed read.
///
/// In the switchable window a banked controller reads
/// `rom[rom_bank * ROM_BANK_SIZE + (addr - ROM_WINDOW_BASE)]`; an offset
/// past the end of the image, and a read of disabled external RAM, return
/// 0xFF.
pub open spec fn mbc_read(c: MbcV, addr: u16) -> u8 {
    match c {
        MbcV::RomOnly { rom, ram } => {
            if addr < 0x8000 {
                if addr < rom.len() { rom[addr as int] } else { 0xFF }
            } else {
                if addr - 0xA000 < ram.len() { ram[addr - 0xA000] } else { 0xFF }
            }
        },
        MbcV::Banked { rom, ram, rom_bank, ram_bank, ram_enabled, mode } => {
            if addr < 0x4000 {
                if addr < rom.len() { rom[addr as int] } else { 0xFF }
            } else if addr < 0x8000 {
                let off = rom_bank * 0x4000 + (addr - 0x4000);
                if off < rom.len() { rom[off] } else { 0xFF }
            } else {
                if !ram_enabled {
                    0xFF
                } else {
                    let bank: int = if mode { ram_bank as int } else { 0 };
                    let off = bank * 0x2000 + (addr - 0xA000);
                    if off < ram.len() { ram[off] } else { 0xFF }
                }
            }
        },
    }
}

/// The controller state after a routed write.
///
/// For a banked controller, writes into the ROM range update the latches:
/// 0x0000-0x1FFF gates external RAM (low nibble 0xA enables), 0x2000-0x3FFF
/// selects the ROM bank with value 0 remapped to bank 1, 0x4000-0x5FFF
/// selects the RAM bank, 0x6000-0x7FFF sets the banking mode (mode 0 pins
/// external RAM to bank 0). ROM bytes themselves are never written;
/// disabled-RAM writes are ignored.
pub open spec fn mbc_write(c: MbcV, addr: u16, v: u8) -> MbcV {
    match c {
        MbcV::RomOnly { rom, ram } => {
            if addr < 0x8000 {
                c
            } else if addr - 0xA000 < ram.len() {
                MbcV::RomOnly { rom, ram: ram.update(addr - 0xA000, v) }
            } else {
                c
            }
        },
        MbcV::Banked { rom, ram, rom_bank, ram_bank, ram_enabled, mode } => {
            if addr < 0x2000 {
                MbcV::Banked { rom, ram, rom_bank, ram_bank, ram_enabled: v % 16 == 0x0A, mode }
            } else if addr < 0x4000 {
                let bank: u8 = if v == 0 { 1 } else { v };
                MbcV::Banked { rom, ram, rom_bank: bank, ram_bank, ram_enabled, mode }
            } else if addr < 0x6000 {
                MbcV::Banked { rom, ram, rom_bank, ram_bank: v % 4, ram_enabled, mode }
            } else if addr < 0x8000 {
                MbcV::Banked { rom, ram, rom_bank, ram_bank, ram_enabled, mode: v % 2 == 1 }
            } else if ram_enabled {
                let bank: int = if mode { ram_bank as int } else { 0 };
                let off = bank * 0x2000 + (addr - 0xA000);
                if off < ram.len() {
                    MbcV::Banked { rom, ram: ram.update(off, v), rom_bank, ram_bank, ram_enabled, mode }
                } else {
                    c
                }
            } else {
                c
            }
        },
    }
}

/// A vector of `n` zero bytes.
pub fn zero_bytes(n: usize) -> (r: Vec<u8>)
    ensures
        r@.len() == n,
        forall|i: int| 0 <= i < n ==> r@[i] == 0u8,
{
    let mut r: Vec<u8> = Vec::new();
    let mut i: usize = 0;
    while i < n
        invariant
            i <= n,
            r@.len() == i,
            forall|j: int| 0 <= j < i ==> r@[j] == 0u8,
        decreases n - i,
    {
        r.push(0);
        i += 1;
    }
    r
}

/// RomOnly is the simplest controller: there is no banking at all. The ROM
/// image maps directly at 0x0000-0x7FFF, and a flat 8KB external RAM buffer
/// answers 0xA000-0xBFFF.
pub struct RomOnly {
    data: Vec<u8>,
    ram: Vec<u8>,
}

impl View for RomOnly {
    type V = MbcV;

    closed spec fn view(&self) -> MbcV {
        MbcV::RomOnly { rom: self.data@, ram: self.ram@ }
    }
}

impl RomOnly {
    /// Creates a RomOnly controller with an all-zero 32KB image, useful for
    /// exercising the core without a real cartridge.
    pub fn new() -> (r: RomOnly)
        ensures
            mbc_wf(r@),
            r@ matches MbcV::RomOnly { rom, ram }
                && rom.len() == 0x8000
                && (forall|i: int| 0 <= i < 0x8000 ==> rom[i] == 0u8)
                && ram.len() == 0x2000
                && (forall|i: int| 0 <= i < 0x2000 ==> ram[i] == 0u8),
    {
        RomOnly { data: zero_bytes(0x8000), ram: zero_bytes(0x2000) }
    }

    /// Creates a RomOnly controller around the provided image bytes, with
    /// zeroed external RAM.
    pub fn with_data(rom_data: Vec<u8>) -> (r: RomOnly)
        ensures
            mbc_wf(r@),
            r@ == (MbcV::RomOnly { rom: rom_data@, ram: Seq::new(0x2000nat, |i: int| 0u8) }),
    {
        let ram = zero_bytes(0x2000);
        proof {
            assert(ram@ =~= Seq::new(0x2000nat, |i: int| 0u8));
        }
        RomOnly { data: rom_data, ram }
    }

    pub fn read(&self, addr: u16) -> (r: u8)
        requires
            mbc_wf(self@),
            mbc_addr_ok(addr),
        ensures
            r == mbc_read(self@, addr),
    {
        if addr < 0x8000 {
            if (addr as usize) < self.data.len() {
                self.data[addr as usize]
            } else {
                0xFF
            }
        } else {
            self.ram[(addr - 0xA000) as usize]
        }
    }

    pub fn write(&mut self, addr: u16, data: u8)
        requires
            mbc_wf(old(self)@),
            mbc_addr_ok(addr),
        ensures
            mbc_wf(final(self)@),
            final(self)@ == mbc_write(old(self)@, addr, data),
    {
        if addr < 0x8000 {
            // writes into ROM change nothing
        } else {
            self.ram.set((addr - 0xA000) as usize, data);
        }
    }
}

/// The banked controller class: ROM larger than the 32KB window reached
/// through a switchable bank, with latches for ROM bank, RAM bank, banking
/// mode and the external-RAM enable gate.
pub struct Banked {
    rom: Vec<u8>,
    ram: Vec<u8>,
    rom_bank: u8,
    ram_bank: u8,
    ram_enabled: bool,
    mode: bool,
}

impl View for Banked {
    type V = MbcV;

    closed spec fn view(&self) -> MbcV {
        MbcV::Banked {
            rom: self.rom@,
            ram: self.ram@,
            rom_bank: self.rom_bank,
            ram_bank: self.ram_bank,
            ram_enabled: self.ram_enabled,
            mode: self.mode,
        }
    }
}

impl Banked {
    /// Creates a banked controller around the provided image bytes: bank 1
    /// selected, RAM bank 0, RAM disabled, mode 0, zeroed external RAM.
    pub fn with_data(rom_data: Vec<u8>) -> (r: Banked)
        ensures
            mbc_wf(r@),
            r@ == (MbcV::Banked {
                rom: rom_data@,
                ram: Seq::new(0x8000nat, |i: int| 0u8),
                rom_bank: 1u8,
                ram_bank: 0u8,
                ram_enabled: false,
                mode: false,
            }),
    {
        let ram = zero_bytes(0x8000);
        proof {
            assert(ram@ =~= Seq::new(0x8000nat, |i: int| 0u8));
        }
        Banked { rom: rom_data, ram, rom_bank: 1, ram_bank: 0, ram_enabled: false, mode: false }
    }

    pub fn read(&self, addr: u16) -> (r: u8)
        requires
            mbc_wf(self@),
            mbc_addr_ok(addr),
        ensures
            r == mbc_read(self@, addr),
    {
        if addr < 0x4000 {
            if (addr as usize) < self.rom.len() {
                self.rom[addr as usize]
            } else {
                0xFF
            }
        } else if addr < 0x8000 {
            let off: usize = (self.rom_bank as usize) * 0x4000 + (addr as usize - 0x4000);
            if off < self.rom.len() {
                self.rom[off]
            } else {
                0xFF
            }
        } else {
            if !self.ram_enabled {
                0xFF
            } else {
                let bank: usize = if self.mode { self.ram_bank as usize } else { 0 };
                let off: usize = bank * 0x2000 + (addr as usize - 0xA000);
                if off < self.ram.len() {
                    self.ram[off]
                } else {
                    0xFF
                }
            }
        }
    }

    pub fn write(&mut self, addr: u16, data: u8)
        requires
            mbc_wf(old(self)@),
            mbc_addr_ok(addr),
        ensures
            mbc_wf(final(self)@),
            final(self)@ == mbc_write(old(self)@, addr, data),
    {
        if addr < 0x2000 {
            self.ram_enabled = data % 16 == 0x0A;
        } else if addr < 0x4000 {
            self.rom_bank = if data == 0 { 1 } else { data };
        } else if addr < 0x6000 {
            self.ram_bank = data % 4;
        } else if addr < 0x8000 {
            self.mode = data % 2 == 1;
        } else if self.ram_enabled {
            let bank: usize = if self.mode { self.ram_bank as usize } else { 0 };
            let off: usize = bank * 0x2000 + (addr as usize - 0xA000);
            if off < self.ram.len() {
                self.ram.set(off, data);
            }
        }
    }
}

/// A cartridge's controller, one of the supported variants.
pub enum Mbc {
    RomOnly(RomOnly),
    Banked(Banked),
}

impl View for Mbc {
    type V = MbcV;

    open spec fn view(&self) -> MbcV {
        match self {
            Mbc::RomOnly(m) => m@,
            Mbc::Banked(m) => m@,
        }
    }
}

impl Mbc {
    pub fn read(&self, addr: u16) -> (r: u8)
        requires
            mbc_wf(self@),
            mbc_addr_ok(addr),
        ensures
            r == mbc_read(self@, addr),
    {
        match self {
            Mbc::RomOnly(m) => m.read(addr),
            Mbc::Banked(m) => m.read(addr),
        }
    }

    pub fn write(&mut self, addr: u16, data: u8)
        requires
            mbc_wf(old(self)@),
            mbc_addr_ok(addr),
        ensures
            mbc_wf(final(self)@),
            final(self)@ == mbc_write(old(self)@, addr, data),
    {
        match self {
            Mbc::RomOnly(m) => m.write(addr, data),
            Mbc::Banked(m) => m.write(addr, data),
        }
    }
}

/// Why a cartridge image was rejected at load time.
#[derive(Clone, Copy, PartialEq, Eq, Structural, Debug)]
pub enum CartridgeError {
    /// The image holds no bytes at all.
    EmptyImage,
    /// The header's controller-type byte names a controller this core does
    /// not provide.
    UnsupportedController(u8),
}

impl CartridgeError {
    /// A short description of the failure.
    pub fn describe(&self) -> (r: &'static str)
    {
        match self {
            CartridgeError::EmptyImage => "cartridge image is empty",
            CartridgeError::UnsupportedController(_) => "unsupported memory bank controller type",
        }
    }
}

/// The controller-type byte of an image: the fixed header offset 0x147, or
/// 0 (RomOnly) when the image is too short to hold a header.
pub open spec fn cart_kind_byte(rom: Seq<u8>) -> u8 {
    if rom.len() > 0x147 { rom[0x147] } else { 0 }
}

/// Header bytes that select the RomOnly controller.
pub open spec fn kind_is_rom_only(k: u8) -> bool {
    k == 0x00 || k == 0x08 || k == 0x09
}

/// Header bytes that select a banked controller (the banked-1/3/5 class).
pub open spec fn kind_is_banked(k: u8) -> bool {
    (0x01 <= k && k <= 0x03) || (0x0F <= k && k <= 0x13) || (0x19 <= k && k <= 0x1E)
}

/// An immutable ROM image behind its selected memory bank controller,
/// together with the cartridge's mutable external RAM.
pub struct Cartridge {
    pub mbc: Mbc,
}

impl View for Cartridge {
    type V = MbcV;

    open spec fn view(&self) -> MbcV {
        self.mbc@
    }
}

impl Cartridge {
    /// Selects and constructs the controller named by the image's header
    /// byte. Fails on an empty image, or on a controller type this core
    /// does not provide; succeeds on every other input.
    pub fn new(data: Vec<u8>) -> (r: Result<Cartridge, CartridgeError>)
        ensures
            r is Ok <==> data@.len() > 0
                && (kind_is_rom_only(cart_kind_byte(data@)) || kind_is_banked(cart_kind_byte(data@))),
            data@.len() == 0 ==> r == Result::<Cartridge, CartridgeError>::Err(CartridgeError::EmptyImage),
            data@.len() > 0 && !(kind_is_rom_only(cart_kind_byte(data@)) || kind_is_banked(cart_kind_byte(data@)))
                ==> r == Result::<Cartridge, CartridgeError>::Err(
                        CartridgeError::UnsupportedController(cart_kind_byte(data@))),
            r matches Ok(c) ==> mbc_wf(c@),
            r matches Ok(c) ==> kind_is_rom_only(cart_kind_byte(data@))
                ==> c@ == (MbcV::RomOnly { rom: data@, ram: Seq::new(0x2000nat, |i: int| 0u8) }),
            r matches Ok(c) ==> kind_is_banked(cart_kind_byte(data@))
                ==> c@ == (MbcV::Banked {
                        rom: data@,
                        ram: Seq::new(0x8000nat, |i: int| 0u8),
                        rom_bank: 1u8,
                        ram_bank: 0u8,
                        ram_enabled: false,
                        mode: false,
                    }),
    {
        if data.len() == 0 {
            return Err(CartridgeError::EmptyImage);
        }
        let kind: u8 = if data.len() > 0x147 { data[0x147] } else { 0 };
        if kind == 0x00 || kind == 0x08 || kind == 0x09 {
            Ok(Cartridge { mbc: Mbc::RomOnly(RomOnly::with_data(data)) })
        } else if (0x01 <= kind && kind <= 0x03) || (0x0F <= kind && kind <= 0x13)
            || (0x19 <= kind && kind <= 0x1E) {
            Ok(Cartridge { mbc: Mbc::Banked(Banked::with_data(data)) })
        } else {
            Err(CartridgeError::UnsupportedController(kind))
        }
    }

    /// An all-zero RomOnly cartridge, for running the core with no image.
    pub fn empty() -> (r: Cartridge)
        ensures
            mbc_wf(r@),
            r@ matches MbcV::RomOnly { rom, ram }
                && rom.len() == 0x8000
                && (forall|i: int| 0 <= i < 0x8000 ==> rom[i] == 0u8)
                && ram.len() == 0x2000
                && (forall|i: int| 0 <= i < 0x2000 ==> ram[i] == 0u8),
    {
        Cartridge { mbc: Mbc::RomOnly(RomOnly::new()) }
    }

    pub fn read(&self, addr: u16) -> (r: u8)
        requires
            mbc_wf(self@),
            mbc_addr_ok(addr),
        ensures
            r == mbc_read(self@, addr),
    {
        self.mbc.read(addr)
    }

    pub fn write(&mut self, addr: u16, data: u8)
        requires
            mbc_wf(old(self)@),
            mbc_addr_ok(addr),
        ensures
            mbc_wf(final(self)@),
            final(self)@ == mbc_write(old(self)@, addr, data),
    {
        self.mbc.write(addr, data)
    }
}

/// Selecting ROM bank k on a banked controller, then reading any address in
/// the switchable window, returns `rom[k * ROM_BANK_SIZE + (addr -
/// ROM_WINDOW_BASE)]` whenever bank k lies inside the image.
pub proof fn lemma_banked_bank_select(c: MbcV, sel: u16, k: u8, addr: u16)
    requires
        c is Banked,
        mbc_wf(c),
        0x2000 <= sel < 0x4000,
        k != 0,
        0x4000 <= addr < 0x8000,
        (k + 1) * ROM_BANK_SIZE <= c->Banked_rom.len(),
    ensures
        mbc_read(mbc_write(c, sel, k), addr)
            == c->Banked_rom[k * ROM_BANK_SIZE + (addr - ROM_WINDOW_BASE)],
{
    assert(k * 0x4000 + (addr - 0x4000) < (k + 1) * 0x4000) by (nonlinear_arith)
        requires 0x4000 <= addr < 0x8000;
}

/// Selecting ROM bank 0 behaves exactly as selecting bank 1.
pub proof fn lemma_bank_zero_is_bank_one(c: MbcV, sel: u16)
    requires
        c is Banked,
        0x2000 <= sel < 0x4000,
    ensures
        mbc_write(c, sel, 0) == mbc_write(c, sel, 1),
{
}

} // verus!
