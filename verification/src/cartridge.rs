//! The cartridge: ROM, external RAM and the bank controller between them
//! and the CPU.
use vstd::prelude::*;
use crate::info::{
    CART_CGB_FLAG,
    CART_CGB_ONLY,
    CART_RAM_SIZE,
    CART_ROM_SIZE,
    CART_TITLE_FIRST,
    CART_TITLE_LAST,
    CART_TYPE,
    SIZE_EXT_RAM_BANK,
    SIZE_ROM_BANK,
};
use crate::EmulatorErr;
use mbc::{Mbc, MbcKind};

pub mod mbc;
pub mod rtc;

verus! {

/// Bytes of the RAM built into an MBC2, of which only the low nibbles exist.
pub const MBC2_BUILTIN_RAM_SIZE: usize = 512;

pub struct Cartidge {
    pub is_cgb: bool,
    /// The printable ASCII characters of the header's title field.
    pub title: Vec<u8>,
    pub rom: Vec<u8>,
    pub ram: Vec<u8>,
    pub mbc: Mbc,
}

/// What a cartridge holds, with its memories as sequences.
pub struct CartView {
    pub is_cgb: bool,
    pub title: Seq<u8>,
    pub rom: Seq<u8>,
    pub ram: Seq<u8>,
    pub mbc: Mbc,
}

/// Number of 16 KiB ROM banks for a header ROM size code.
pub open spec fn spec_rom_banks(v: u8) -> Result<usize, EmulatorErr> {
    if v == 0 {
        Ok(2usize)
    } else if v == 1 {
        Ok(4usize)
    } else if v == 2 {
        Ok(8usize)
    } else if v == 3 {
        Ok(16usize)
    } else if v == 4 {
        Ok(32usize)
    } else if v == 5 {
        Ok(64usize)
    } else if v == 6 {
        Ok(128usize)
    } else if v == 7 {
        Ok(256usize)
    } else if v == 8 {
        Ok(512usize)
    } else {
        Err(EmulatorErr::UnknownRomSize)
    }
}

/// Number of 8 KiB RAM banks for a header RAM size code.
pub open spec fn spec_ram_banks(v: u8) -> Result<usize, EmulatorErr> {
    if v == 0 {
        Ok(0usize)
    } else if v == 2 {
        Ok(1usize)
    } else if v == 3 {
        Ok(4usize)
    } else if v == 4 {
        Ok(16usize)
    } else if v == 5 {
        Ok(8usize)
    } else {
        Err(EmulatorErr::UnknownRamSize)
    }
}

pub fn cart_rom_banks(v: u8) -> (r: Result<usize, EmulatorErr>)
    ensures
        r == spec_rom_banks(v),
        r is Ok ==> 2 <= r->Ok_0 <= 512,
{
    match v {
        0 => Ok(2),
        1 => Ok(4),
        2 => Ok(8),
        3 => Ok(16),
        4 => Ok(32),
        5 => Ok(64),
        6 => Ok(128),
        7 => Ok(256),
        8 => Ok(512),
        _ => Err(EmulatorErr::UnknownRomSize),
    }
}

pub fn cart_ram_banks(v: u8) -> (r: Result<usize, EmulatorErr>)
    ensures
        r == spec_ram_banks(v),
        r is Ok ==> r->Ok_0 <= 16,
{
    match v {
        0 => Ok(0),
        2 => Ok(1),
        3 => Ok(4),
        4 => Ok(16),
        5 => Ok(8),
        _ => Err(EmulatorErr::UnknownRamSize),
    }
}

pub open spec fn is_printable(b: u8) -> bool {
    0x20 <= b <= 0x7E
}

/// The printable ASCII bytes of `bytes`, in order.
pub open spec fn printable(bytes: Seq<u8>) -> Seq<u8>
    decreases bytes.len(),
{
    if bytes.len() == 0 {
        Seq::empty()
    } else if is_printable(bytes.last()) {
        printable(bytes.drop_last()).push(bytes.last())
    } else {
        printable(bytes.drop_last())
    }
}

/// The title field of a ROM header, reduced to printable ASCII.
pub open spec fn spec_title(rom: Seq<u8>) -> Seq<u8> {
    printable(rom.subrange(CART_TITLE_FIRST as int, CART_TITLE_LAST + 1))
}

fn read_title(rom: &Vec<u8>) -> (t: Vec<u8>)
    requires
        rom.len() > CART_TITLE_LAST,
    ensures
        t@ == spec_title(rom@),
        forall|i: int| 0 <= i < t@.len() ==> is_printable(#[trigger] t@[i]),
{
    let mut t: Vec<u8> = Vec::new();
    let mut i: usize = CART_TITLE_FIRST;
    while i <= CART_TITLE_LAST
        invariant
            CART_TITLE_FIRST <= i <= CART_TITLE_LAST + 1,
            rom.len() > CART_TITLE_LAST,
            t@ == printable(rom@.subrange(CART_TITLE_FIRST as int, i as int)),
            forall|k: int| 0 <= k < t@.len() ==> is_printable(#[trigger] t@[k]),
        decreases CART_TITLE_LAST + 1 - i,
    {
        let b = rom[i];
        proof {
            let s = rom@.subrange(CART_TITLE_FIRST as int, i + 1);
            assert(s.drop_last() =~= rom@.subrange(CART_TITLE_FIRST as int, i as int));
            assert(s.last() == b);
        }
        if 0x20 <= b && b <= 0x7E {
            t.push(b);
        }
        i = i + 1;
    }
    t
}

fn zeroed(n: usize) -> (v: Vec<u8>)
    ensures
        v@ == Seq::new(n as nat, |i: int| 0u8),
{
    let mut v: Vec<u8> = Vec::new();
    let mut i: usize = 0;
    while i < n
        invariant
            i <= n,
            v@ == Seq::new(i as nat, |k: int| 0u8),
        decreases n - i,
    {
        v.push(0);
        i = i + 1;
        assert(v@ =~= Seq::new(i as nat, |k: int| 0u8));
    }
    v
}

impl CartView {
    /// The byte at `off` of the ROM; 0xFF beyond its end.
    pub open spec fn rom_at(self, off: int) -> u8 {
        if 0 <= off < self.rom.len() {
            self.rom[off]
        } else {
            0xFF
        }
    }

    /// What a read of A000-BFFF returns for RAM offset `off`: a clock
    /// register where the MBC3 maps one, the stored nibble under four set
    /// bits on an MBC2, else the RAM byte; 0xFF where there is no RAM.
    pub open spec fn ram_at(self, off: int) -> u8 {
        if let Some(reg) = self.mbc.kind.rtc_reg() {
            self.mbc.rtc.spec_read(reg)
        } else if 0 <= off < self.ram.len() {
            if self.mbc.kind is Mbc2 {
                (0xF0 + self.ram[off] % 16) as u8
            } else {
                self.ram[off]
            }
        } else {
            0xFF
        }
    }

    /// What the CPU reads from the cartridge at `addr`.
    #[verifier::opaque]
    pub open spec fn read(self, addr: u16) -> u8 {
        if addr < 0x4000 {
            self.rom_at(self.mbc.spec_rom0_addr(addr))
        } else if addr < 0x8000 {
            self.rom_at(self.mbc.spec_rom1_addr(addr))
        } else if 0xA000 <= addr < 0xC000 {
            self.ram_at(self.mbc.spec_ram_addr(addr))
        } else {
            0xFF
        }
    }

    /// The cartridge after a write that reaches external RAM at offset `off`.
    pub open spec fn after_ram_write(self, off: int, val: u8) -> CartView {
        if let Some(reg) = self.mbc.kind.rtc_reg() {
            CartView { mbc: Mbc { rtc: self.mbc.rtc.after_write(reg, val), ..self.mbc }, ..self }
        } else if 0 <= off < self.ram.len() {
            if self.mbc.kind is Mbc2 {
                CartView { ram: self.ram.update(off, val % 16), ..self }
            } else {
                CartView { ram: self.ram.update(off, val), ..self }
            }
        } else {
            self
        }
    }

    /// The cartridge after the CPU writes `val` to `addr`: the RAM window
    /// takes the byte while RAM is enabled, every other address belongs to
    /// the controller. The ROM never changes.
    #[verifier::opaque]
    pub open spec fn after_write(self, addr: u16, val: u8) -> CartView {
        if 0xA000 <= addr < 0xC000 {
            if self.mbc.ram_enabled {
                self.after_ram_write(self.mbc.spec_ram_addr(addr), val)
            } else {
                self
            }
        } else {
            CartView { mbc: self.mbc.after_write(addr, val), ..self }
        }
    }

    /// Whether `rom` is accepted, and the cartridge it then makes. The
    /// checks come in this order: the length, the controller type, the ROM
    /// and RAM size codes, colour-only cartridges, and the length against
    /// the size code.
    pub open spec fn load(rom: Seq<u8>) -> Result<CartView, EmulatorErr> {
        if rom.len() == 0 || rom.len() % (SIZE_ROM_BANK as nat) != 0 {
            Err(EmulatorErr::InvalidRomSize)
        } else if MbcKind::of_type(rom[CART_TYPE as int]) is Err {
            Err(MbcKind::of_type(rom[CART_TYPE as int])->Err_0)
        } else if spec_rom_banks(rom[CART_ROM_SIZE as int]) is Err {
            Err(EmulatorErr::UnknownRomSize)
        } else if spec_ram_banks(rom[CART_RAM_SIZE as int]) is Err {
            Err(EmulatorErr::UnknownRamSize)
        } else if rom[CART_CGB_FLAG as int] == CART_CGB_ONLY {
            Err(EmulatorErr::NotImplemented)
        } else if spec_rom_banks(rom[CART_ROM_SIZE as int])->Ok_0 * SIZE_ROM_BANK != rom.len() {
            Err(EmulatorErr::RomSizeMismatch)
        } else {
            let kind = MbcKind::of_type(rom[CART_TYPE as int])->Ok_0;
            let rom_banks = spec_rom_banks(rom[CART_ROM_SIZE as int])->Ok_0;
            let ram_len = if kind is Mbc2 {
                MBC2_BUILTIN_RAM_SIZE as nat
            } else {
                (SIZE_EXT_RAM_BANK * spec_ram_banks(rom[CART_RAM_SIZE as int])->Ok_0) as nat
            };
            Ok(
                CartView {
                    is_cgb: false,
                    title: spec_title(rom),
                    rom,
                    ram: Seq::new(ram_len, |i: int| 0u8),
                    mbc: Mbc::initial(rom[CART_TYPE as int], rom_banks)->Ok_0,
                },
            )
        }
    }
}

impl View for Cartidge {
    type V = CartView;

    open spec fn view(&self) -> CartView {
        CartView {
            is_cgb: self.is_cgb,
            title: self.title@,
            rom: self.rom@,
            ram: self.ram@,
            mbc: self.mbc,
        }
    }
}

impl Cartidge {
    pub open spec fn wf(&self) -> bool {
        &&& self.mbc.wf()
        &&& self.rom@.len() == self.mbc.rom_banks * SIZE_ROM_BANK
        &&& forall|i: int| 0 <= i < self.title@.len() ==> is_printable(#[trigger] self.title@[i])
    }

    /// Tells whether the cartridge is well-formed.
    pub fn check(&self) -> (ok: bool)
        ensures
            ok == self.wf(),
    {
        if !self.mbc.check() {
            return false;
        }
        if self.rom.len() != self.mbc.rom_banks * SIZE_ROM_BANK {
            return false;
        }
        let mut i: usize = 0;
        while i < self.title.len()
            invariant
                i <= self.title.len(),
                forall|k: int| 0 <= k < i ==> is_printable(#[trigger] self.title@[k]),
            decreases self.title.len() - i,
        {
            let b = self.title[i];
            if !(0x20 <= b && b <= 0x7E) {
                return false;
            }
            i = i + 1;
        }
        true
    }

    /// Takes a ROM image and builds the cartridge around it.
    pub fn new(rom: Vec<u8>) -> (r: Result<Cartidge, EmulatorErr>)
        ensures
            match r {
                Ok(c) => CartView::load(rom@) == Ok::<CartView, EmulatorErr>(c@) && c.wf(),
                Err(e) => CartView::load(rom@) == Err::<CartView, EmulatorErr>(e),
            },
    {
        if rom.len() == 0 || rom.len() % SIZE_ROM_BANK != 0 {
            return Err(EmulatorErr::InvalidRomSize);
        }
        let is_cgb = rom[CART_CGB_FLAG] == CART_CGB_ONLY;
        let rom_banks = cart_rom_banks(rom[CART_ROM_SIZE]);
        let mbc = match Mbc::new(rom[CART_TYPE], match rom_banks { Ok(n) => n, Err(_) => 2 }) {
            Ok(m) => m,
            Err(e) => { return Err(e); },
        };
        let title = read_title(&rom);
        let rom_banks = match rom_banks {
            Ok(n) => n,
            Err(e) => { return Err(e); },
        };
        let ram_banks = match cart_ram_banks(rom[CART_RAM_SIZE]) {
            Ok(n) => n,
            Err(e) => { return Err(e); },
        };
        let ram = zeroed(
            if let MbcKind::Mbc2 { .. } = mbc.kind {
                MBC2_BUILTIN_RAM_SIZE
            } else {
                SIZE_EXT_RAM_BANK * ram_banks
            },
        );
        if is_cgb {
            return Err(EmulatorErr::NotImplemented);
        }
        if rom_banks * SIZE_ROM_BANK != rom.len() {
            return Err(EmulatorErr::RomSizeMismatch);
        }
        Ok(Cartidge { is_cgb, title, rom, ram, mbc })
    }

    /// Advances the cartridge's clock by `dots` dots.
    pub fn tick(&mut self, dots: u32)
        requires
            old(self).wf(),
        ensures
            final(self)@ == (CartView {
                mbc: Mbc { rtc: old(self).mbc.rtc.after_tick(dots), ..old(self).mbc },
                ..old(self)@
            }),
            final(self).wf(),
    {
        self.mbc.rtc.tick(dots);
    }

    pub fn read(&self, addr: u16) -> (v: u8)
        requires
            self.wf(),
        ensures
            v == self@.read(addr),
    {
        reveal(CartView::read);
        if addr < 0x4000 {
            self.read_rom(self.mbc.rom0_addr(addr))
        } else if addr < 0x8000 {
            self.read_rom(self.mbc.rom1_addr(addr))
        } else if 0xA000 <= addr && addr < 0xC000 {
            self.read_ram(self.mbc.ram_addr(addr))
        } else {
            0xFF
        }
    }

    pub fn write(&mut self, addr: u16, val: u8)
        requires
            old(self).wf(),
        ensures
            final(self)@ == old(self)@.after_write(addr, val),
            final(self).wf(),
    {
        reveal(CartView::after_write);
        if 0xA000 <= addr && addr < 0xC000 {
            if self.mbc.ram_enabled {
                let off = self.mbc.ram_addr(addr);
                self.write_ram(off, val);
            }
        } else {
            self.mbc.write(addr, val);
        }
    }

    fn read_rom(&self, addr: usize) -> (v: u8)
        ensures
            v == self@.rom_at(addr as int),
    {
        if addr < self.rom.len() {
            self.rom[addr]
        } else {
            0xFF
        }
    }

    fn read_ram(&self, addr: usize) -> (v: u8)
        requires
            self.wf(),
        ensures
            v == self@.ram_at(addr as int),
    {
        if let Some(reg) = self.mbc.kind.get_mbc3_rtc_reg_if_set() {
            self.mbc.rtc.read(reg)
        } else if addr < self.ram.len() {
            if let MbcKind::Mbc2 { .. } = self.mbc.kind {
                0xF0 + self.ram[addr] % 16
            } else {
                self.ram[addr]
            }
        } else {
            0xFF
        }
    }

    fn write_ram(&mut self, addr: usize, val: u8)
        requires
            old(self).wf(),
        ensures
            final(self)@ == old(self)@.after_ram_write(addr as int, val),
            final(self).wf(),
    {
        if let Some(reg) = self.mbc.kind.get_mbc3_rtc_reg_if_set() {
            self.mbc.rtc.write(reg, val);
        } else if addr < self.ram.len() {
            if let MbcKind::Mbc2 { .. } = self.mbc.kind {
                self.ram[addr] = val % 16;
            } else {
                self.ram[addr] = val;
            }
        }
    }
}

} // verus!
