//! Memory bank controllers: the registers a cartridge exposes in ROM
//! address space and the banks they select.
use vstd::prelude::*;
use crate::cartridge::rtc::Mbc3Rtc;
use crate::info::{SIZE_EXT_RAM_BANK, SIZE_ROM_BANK};
use crate::EmulatorErr;

verus! {

/// The kind of controller with its bank registers.
#[derive(Clone, Copy, Debug, PartialEq, Eq, Structural)]
pub enum MbcKind {
    /// Two fixed ROM banks, no registers.
    NoMbc,
    Mbc1 { rom_bank_lo: usize, rom_bank_hi: usize, bank_mode: bool },
    Mbc2 { rom_bank: usize },
    Mbc3 { rom_bank: usize, ram_rtc_bank: usize },
    Mbc5 { rom_bank_lo: usize, rom_bank_hi: usize, ram_bank: usize, has_rumble: bool },
}

#[derive(Clone, Copy, Debug, PartialEq, Eq, Structural)]
pub struct Mbc {
    pub kind: MbcKind,
    pub ram_enabled: bool,
    pub rtc: Mbc3Rtc,
    /// Number of 16 KiB banks in the ROM; bank numbers in the switchable
    /// window wrap around it.
    pub rom_banks: usize,
}

/// A bank register that reads zero selects bank one.
pub open spec fn fix_bank(b: usize) -> usize {
    if b == 0 {
        1
    } else {
        b
    }
}

fn fix_bank_num(b: usize) -> (r: usize)
    ensures
        r == fix_bank(b),
{
    if b == 0 {
        1
    } else {
        b
    }
}

impl MbcKind {
    pub open spec fn wf(self) -> bool {
        match self {
            MbcKind::NoMbc => true,
            MbcKind::Mbc1 { rom_bank_lo, rom_bank_hi, bank_mode } => 1 <= rom_bank_lo < 32
                && rom_bank_hi < 4,
            MbcKind::Mbc2 { rom_bank } => 1 <= rom_bank < 16,
            MbcKind::Mbc3 { rom_bank, ram_rtc_bank } => 1 <= rom_bank < 128 && ram_rtc_bank < 16,
            MbcKind::Mbc5 { rom_bank_lo, rom_bank_hi, ram_bank, has_rumble } => rom_bank_lo < 256
                && rom_bank_hi < 2 && ram_bank < 16,
        }
    }

    /// The controller for a cartridge type byte, as it powers up.
    pub open spec fn of_type(mbc_id: u8) -> Result<MbcKind, EmulatorErr> {
        if mbc_id == 0x00 || mbc_id == 0x08 || mbc_id == 0x09 {
            Ok(MbcKind::NoMbc)
        } else if 0x01 <= mbc_id <= 0x03 {
            Ok(MbcKind::Mbc1 { rom_bank_lo: 1, rom_bank_hi: 0, bank_mode: false })
        } else if mbc_id == 0x05 || mbc_id == 0x06 {
            Ok(MbcKind::Mbc2 { rom_bank: 1 })
        } else if 0x0F <= mbc_id <= 0x13 {
            Ok(MbcKind::Mbc3 { rom_bank: 1, ram_rtc_bank: 0 })
        } else if 0x19 <= mbc_id <= 0x1E {
            Ok(
                MbcKind::Mbc5 {
                    rom_bank_lo: 1,
                    rom_bank_hi: 0,
                    ram_bank: 0,
                    has_rumble: mbc_id >= 0x1C,
                },
            )
        } else if (0x0B <= mbc_id <= 0x0D) || mbc_id == 0x20 || mbc_id == 0x22 || mbc_id == 0xFE
            || mbc_id == 0xFF {
            Err(EmulatorErr::NotImplemented)
        } else {
            Err(EmulatorErr::UnknownMBC)
        }
    }

    /// External RAM bank mapped at A000-BFFF.
    pub open spec fn ram_bank(self) -> int {
        match self {
            MbcKind::Mbc1 { rom_bank_lo, rom_bank_hi, bank_mode } => if bank_mode {
                rom_bank_hi as int
            } else {
                0
            },
            MbcKind::Mbc3 { rom_bank, ram_rtc_bank } => ram_rtc_bank as int,
            MbcKind::Mbc5 { rom_bank_lo, rom_bank_hi, ram_bank, has_rumble } => ram_bank as int,
            _ => 0,
        }
    }

    /// ROM bank mapped at 0000-3FFF.
    pub open spec fn rom0_bank(self) -> int {
        match self {
            MbcKind::Mbc1 { rom_bank_lo, rom_bank_hi, bank_mode } => if bank_mode {
                32 * rom_bank_hi
            } else {
                0
            },
            _ => 0,
        }
    }

    /// ROM bank selected for 4000-7FFF, before it wraps around the ROM size.
    pub open spec fn rom1_bank(self) -> int {
        match self {
            MbcKind::NoMbc => 1,
            MbcKind::Mbc1 { rom_bank_lo, rom_bank_hi, bank_mode } => rom_bank_lo + 32 * rom_bank_hi,
            MbcKind::Mbc2 { rom_bank } => rom_bank as int,
            MbcKind::Mbc3 { rom_bank, ram_rtc_bank } => rom_bank as int,
            MbcKind::Mbc5 { rom_bank_lo, rom_bank_hi, ram_bank, has_rumble } => rom_bank_lo + 256
                * rom_bank_hi,
        }
    }

    /// Bytes of the RAM window that the controller decodes.
    pub open spec fn ram_window(self) -> int {
        if self is Mbc2 {
            512
        } else {
            8192
        }
    }

    /// The clock register that A000-BFFF is mapped to, if any.
    pub open spec fn rtc_reg(self) -> Option<usize> {
        match self {
            MbcKind::Mbc3 { rom_bank, ram_rtc_bank } => if 0x8 <= ram_rtc_bank <= 0xC {
                Some(ram_rtc_bank)
            } else {
                None
            },
            _ => None,
        }
    }

    pub open spec fn spec_name(self) -> Seq<char> {
        match self {
            MbcKind::NoMbc => "None"@,
            MbcKind::Mbc1 { .. } => "MBC1"@,
            MbcKind::Mbc2 { .. } => "MBC2"@,
            MbcKind::Mbc3 { .. } => "MBC3"@,
            MbcKind::Mbc5 { .. } => "MBC5"@,
        }
    }

    /// Tells whether the bank registers are within their ranges.
    pub fn check(&self) -> (ok: bool)
        ensures
            ok == self.wf(),
    {
        match self {
            MbcKind::NoMbc => true,
            MbcKind::Mbc1 { rom_bank_lo, rom_bank_hi, bank_mode } => 1 <= *rom_bank_lo
                && *rom_bank_lo < 32 && *rom_bank_hi < 4,
            MbcKind::Mbc2 { rom_bank } => 1 <= *rom_bank && *rom_bank < 16,
            MbcKind::Mbc3 { rom_bank, ram_rtc_bank } => 1 <= *rom_bank && *rom_bank < 128
                && *ram_rtc_bank < 16,
            MbcKind::Mbc5 { rom_bank_lo, rom_bank_hi, ram_bank, has_rumble } => *rom_bank_lo < 256
                && *rom_bank_hi < 2 && *ram_bank < 16,
        }
    }

    pub fn name(&self) -> (s: &'static str)
        ensures
            s@ == self.spec_name(),
    {
        match self {
            MbcKind::NoMbc => "None",
            MbcKind::Mbc1 { .. } => "MBC1",
            MbcKind::Mbc2 { .. } => "MBC2",
            MbcKind::Mbc3 { .. } => "MBC3",
            MbcKind::Mbc5 { .. } => "MBC5",
        }
    }

    pub fn get_mbc3_rtc_reg_if_set(&self) -> (r: Option<usize>)
        ensures
            r == self.rtc_reg(),
    {
        match self {
            MbcKind::Mbc3 { rom_bank, ram_rtc_bank } => {
                if 0x8 <= *ram_rtc_bank && *ram_rtc_bank <= 0xC {
                    Some(*ram_rtc_bank)
                } else {
                    None
                }
            },
            _ => None,
        }
    }
}

impl Mbc {
    pub open spec fn wf(self) -> bool {
        &&& self.kind.wf()
        &&& self.rtc.wf()
        &&& 0 < self.rom_banks <= 512
    }

    /// The controller as it powers up, for a cartridge type byte and a ROM of `rom_banks` banks.
    pub open spec fn initial(mbc_id: u8, rom_banks: usize) -> Result<Mbc, EmulatorErr> {
        match MbcKind::of_type(mbc_id) {
            Ok(kind) => Ok(Mbc { kind, ram_enabled: false, rtc: Mbc3Rtc::initial(), rom_banks }),
            Err(e) => Err(e),
        }
    }

    /// Offset into external RAM of CPU address `addr`.
    pub open spec fn spec_ram_addr(self, addr: u16) -> int {
        addr % (self.kind.ram_window() as u16) + self.kind.ram_bank() * SIZE_EXT_RAM_BANK
    }

    /// Offset into the ROM of an address in 0000-3FFF.
    pub open spec fn spec_rom0_addr(self, addr: u16) -> int {
        addr % (SIZE_ROM_BANK as u16) + self.kind.rom0_bank() * SIZE_ROM_BANK
    }

    /// Offset into the ROM of an address in 4000-7FFF.
    pub open spec fn spec_rom1_addr(self, addr: u16) -> int {
        addr % (SIZE_ROM_BANK as u16) + (self.kind.rom1_bank() % (self.rom_banks as int))
            * SIZE_ROM_BANK
    }

    /// The controller after the CPU writes `v` to `addr`. Only addresses
    /// below 0x8000 reach the registers.
    pub open spec fn after_write(self, addr: u16, v: u8) -> Mbc {
        let enable = v % 16 == 0xA;
        match self.kind {
            MbcKind::NoMbc => self,
            MbcKind::Mbc1 { rom_bank_lo, rom_bank_hi, bank_mode } => {
                if addr < 0x2000 {
                    Mbc { ram_enabled: enable, ..self }
                } else if addr < 0x4000 {
                    Mbc {
                        kind: MbcKind::Mbc1 {
                            rom_bank_lo: fix_bank((v % 32) as usize),
                            rom_bank_hi,
                            bank_mode,
                        },
                        ..self
                    }
                } else if addr < 0x6000 {
                    Mbc {
                        kind: MbcKind::Mbc1 { rom_bank_lo, rom_bank_hi: (v % 4) as usize, bank_mode },
                        ..self
                    }
                } else if addr < 0x8000 {
                    Mbc {
                        kind: MbcKind::Mbc1 { rom_bank_lo, rom_bank_hi, bank_mode: v % 2 == 1 },
                        ..self
                    }
                } else {
                    self
                }
            },
            MbcKind::Mbc2 { rom_bank } => {
                if addr >= 0x4000 {
                    self
                } else if (addr / 256) % 2 == 0 {
                    Mbc { ram_enabled: enable, ..self }
                } else {
                    Mbc { kind: MbcKind::Mbc2 { rom_bank: fix_bank((v % 16) as usize) }, ..self }
                }
            },
            MbcKind::Mbc3 { rom_bank, ram_rtc_bank } => {
                if addr < 0x2000 {
                    Mbc { ram_enabled: enable, ..self }
                } else if addr < 0x4000 {
                    Mbc {
                        kind: MbcKind::Mbc3 {
                            rom_bank: fix_bank((v % 128) as usize),
                            ram_rtc_bank,
                        },
                        ..self
                    }
                } else if addr < 0x6000 {
                    Mbc {
                        kind: MbcKind::Mbc3 { rom_bank, ram_rtc_bank: (v % 16) as usize },
                        ..self
                    }
                } else if addr < 0x8000 && v <= 1 {
                    Mbc { rtc: self.rtc.after_set_latching(v == 1), ..self }
                } else {
                    self
                }
            },
            MbcKind::Mbc5 { rom_bank_lo, rom_bank_hi, ram_bank, has_rumble } => {
                if addr < 0x2000 {
                    Mbc { ram_enabled: enable, ..self }
                } else if addr < 0x3000 {
                    Mbc {
                        kind: MbcKind::Mbc5 {
                            rom_bank_lo: v as usize,
                            rom_bank_hi,
                            ram_bank,
                            has_rumble,
                        },
                        ..self
                    }
                } else if addr < 0x4000 {
                    Mbc {
                        kind: MbcKind::Mbc5 {
                            rom_bank_lo,
                            rom_bank_hi: (v % 2) as usize,
                            ram_bank,
                            has_rumble,
                        },
                        ..self
                    }
                } else if addr < 0x6000 {
                    Mbc {
                        kind: MbcKind::Mbc5 {
                            rom_bank_lo,
                            rom_bank_hi,
                            ram_bank: if has_rumble {
                                (v % 8) as usize
                            } else {
                                (v % 16) as usize
                            },
                            has_rumble,
                        },
                        ..self
                    }
                } else {
                    self
                }
            },
        }
    }

    /// Tells whether the controller is well-formed.
    pub fn check(&self) -> (ok: bool)
        ensures
            ok == self.wf(),
    {
        self.kind.check() && self.rtc.check() && 0 < self.rom_banks && self.rom_banks <= 512
    }

    pub fn new(mbc_id: u8, rom_banks: usize) -> (r: Result<Mbc, EmulatorErr>)
        requires
            0 < rom_banks <= 512,
        ensures
            r == Mbc::initial(mbc_id, rom_banks),
            r is Ok ==> r->Ok_0.wf(),
    {
        let kind = match mbc_id {
            0x00 => MbcKind::NoMbc,
            0x01..=0x03 => MbcKind::Mbc1 { rom_bank_lo: 1, rom_bank_hi: 0, bank_mode: false },
            0x05 | 0x06 => MbcKind::Mbc2 { rom_bank: 1 },
            0x08..=0x09 => MbcKind::NoMbc,
            0x0B..=0x0D => { return Err(EmulatorErr::NotImplemented); },
            0x0F..=0x13 => MbcKind::Mbc3 { rom_bank: 1, ram_rtc_bank: 0 },
            0x19..=0x1E => MbcKind::Mbc5 {
                rom_bank_lo: 1,
                rom_bank_hi: 0,
                ram_bank: 0,
                has_rumble: mbc_id >= 0x1C,
            },
            0x20 => { return Err(EmulatorErr::NotImplemented); },
            0x22 => { return Err(EmulatorErr::NotImplemented); },
            0xFE => { return Err(EmulatorErr::NotImplemented); },
            0xFF => { return Err(EmulatorErr::NotImplemented); },
            _ => { return Err(EmulatorErr::UnknownMBC); },
        };
        Ok(Mbc { kind, ram_enabled: false, rtc: Mbc3Rtc::new(), rom_banks })
    }

    pub fn write(&mut self, addr: u16, v: u8)
        requires
            old(self).wf(),
        ensures
            *final(self) == old(self).after_write(addr, v),
            final(self).wf(),
    {
        let is_0xa = v % 16 == 0xA;
        match self.kind {
            MbcKind::NoMbc => (),
            MbcKind::Mbc1 { rom_bank_lo, rom_bank_hi, bank_mode } => {
                match addr {
                    0x0000..=0x1FFF => self.ram_enabled = is_0xa,
                    0x2000..=0x3FFF => self.kind = MbcKind::Mbc1 {
                        rom_bank_lo: fix_bank_num((v % 32) as usize),
                        rom_bank_hi,
                        bank_mode,
                    },
                    0x4000..=0x5FFF => self.kind = MbcKind::Mbc1 {
                        rom_bank_lo,
                        rom_bank_hi: (v % 4) as usize,
                        bank_mode,
                    },
                    0x6000..=0x7FFF => self.kind = MbcKind::Mbc1 {
                        rom_bank_lo,
                        rom_bank_hi,
                        bank_mode: v % 2 == 1,
                    },
                    _ => (),
                }
            },
            MbcKind::Mbc2 { rom_bank } => {
                if addr < 0x4000 {
                    if (addr / 256) % 2 == 0 {
                        self.ram_enabled = is_0xa;
                    } else {
                        self.kind = MbcKind::Mbc2 { rom_bank: fix_bank_num((v % 16) as usize) };
                    }
                }
            },
            MbcKind::Mbc3 { rom_bank, ram_rtc_bank } => {
                match addr {
                    0x0000..=0x1FFF => self.ram_enabled = is_0xa,
                    0x2000..=0x3FFF => self.kind = MbcKind::Mbc3 {
                        rom_bank: fix_bank_num((v % 128) as usize),
                        ram_rtc_bank,
                    },
                    0x4000..=0x5FFF => self.kind = MbcKind::Mbc3 {
                        rom_bank,
                        ram_rtc_bank: (v % 16) as usize,
                    },
                    0x6000..=0x7FFF => match v {
                        0 => self.rtc.set_latching(false),
                        1 => self.rtc.set_latching(true),
                        _ => (),
                    },
                    _ => (),
                }
            },
            MbcKind::Mbc5 { rom_bank_lo, rom_bank_hi, ram_bank, has_rumble } => {
                match addr {
                    0x0000..=0x1FFF => self.ram_enabled = is_0xa,
                    0x2000..=0x2FFF => self.kind = MbcKind::Mbc5 {
                        rom_bank_lo: v as usize,
                        rom_bank_hi,
                        ram_bank,
                        has_rumble,
                    },
                    0x3000..=0x3FFF => self.kind = MbcKind::Mbc5 {
                        rom_bank_lo,
                        rom_bank_hi: (v % 2) as usize,
                        ram_bank,
                        has_rumble,
                    },
                    0x4000..=0x5FFF => self.kind = MbcKind::Mbc5 {
                        rom_bank_lo,
                        rom_bank_hi,
                        ram_bank: if has_rumble {
                            (v % 8) as usize
                        } else {
                            (v % 16) as usize
                        },
                        has_rumble,
                    },
                    _ => (),
                }
            },
        }
    }

    pub fn ram_addr(&self, addr: u16) -> (a: usize)
        requires
            self.wf(),
        ensures
            a == self.spec_ram_addr(addr),
    {
        let (window, bank): (u16, usize) = match self.kind {
            MbcKind::NoMbc => (8192, 0),
            MbcKind::Mbc1 { rom_bank_lo, rom_bank_hi, bank_mode } => (
                8192,
                if bank_mode {
                    rom_bank_hi
                } else {
                    0
                },
            ),
            MbcKind::Mbc2 { rom_bank } => (512, 0),
            MbcKind::Mbc3 { rom_bank, ram_rtc_bank } => (8192, ram_rtc_bank),
            MbcKind::Mbc5 { rom_bank_lo, rom_bank_hi, ram_bank, has_rumble } => (8192, ram_bank),
        };
        (addr % window) as usize + bank * SIZE_EXT_RAM_BANK
    }

    pub fn rom0_addr(&self, addr: u16) -> (a: usize)
        requires
            self.wf(),
        ensures
            a == self.spec_rom0_addr(addr),
    {
        let bank: usize = match self.kind {
            MbcKind::Mbc1 { rom_bank_lo, rom_bank_hi, bank_mode } => if bank_mode {
                32 * rom_bank_hi
            } else {
                0
            },
            _ => 0,
        };
        (addr % (SIZE_ROM_BANK as u16)) as usize + bank * SIZE_ROM_BANK
    }

    pub fn rom1_addr(&self, addr: u16) -> (a: usize)
        requires
            self.wf(),
        ensures
            a == self.spec_rom1_addr(addr),
            a < self.rom_banks * SIZE_ROM_BANK,
    {
        let bank: usize = match self.kind {
            MbcKind::NoMbc => 1,
            MbcKind::Mbc1 { rom_bank_lo, rom_bank_hi, bank_mode } => rom_bank_lo + 32 * rom_bank_hi,
            MbcKind::Mbc2 { rom_bank } => rom_bank,
            MbcKind::Mbc3 { rom_bank, ram_rtc_bank } => rom_bank,
            MbcKind::Mbc5 { rom_bank_lo, rom_bank_hi, ram_bank, has_rumble } => rom_bank_lo + 256
                * rom_bank_hi,
        };
        let wrapped = bank % self.rom_banks;
        assert(wrapped * SIZE_ROM_BANK + SIZE_ROM_BANK <= self.rom_banks * SIZE_ROM_BANK)
            by (nonlinear_arith)
            requires
                wrapped < self.rom_banks,
        ;
        (addr % (SIZE_ROM_BANK as u16)) as usize + wrapped * SIZE_ROM_BANK
    }
}

proof fn lemma_bank_bits(lo: usize, hi: usize)
    by (bit_vector)
    requires
        lo < 32,
        hi < 4,
    ensures
        lo | (hi << 5) == lo + 32 * hi,
        hi << 5 == 32 * hi,
{
}

/// MBC1 addressing: whatever the three registers hold, the switchable
/// window starts at bank `(rom_lo | rom_hi << 5)` wrapped around the ROM
/// size, and the fixed window at bank zero in mode 0, at `rom_hi << 5` in
/// mode 1.
pub proof fn lemma_mbc1_addressing(m: Mbc, rom_lo: usize, rom_hi: usize, mode: bool)
    requires
        m.wf(),
        m.kind == (MbcKind::Mbc1 { rom_bank_lo: rom_lo, rom_bank_hi: rom_hi, bank_mode: mode }),
    ensures
        m.spec_rom1_addr(0x4000) == ((rom_lo | (rom_hi << 5)) % m.rom_banks) * SIZE_ROM_BANK,
        m.spec_rom0_addr(0) == if mode {
            (rom_hi << 5) * SIZE_ROM_BANK
        } else {
            0
        },
        forall|a: u16|
            0x4000 <= a < 0x8000 ==> #[trigger] m.spec_rom1_addr(a) == m.spec_rom1_addr(0x4000) + (a
                - 0x4000),
        forall|a: u16| a < 0x4000 ==> #[trigger] m.spec_rom0_addr(a) == m.spec_rom0_addr(0) + a,
{
    lemma_bank_bits(rom_lo, rom_hi);
}

/// Writing zero to the ROM bank register of MBC1, MBC2 or MBC3 selects bank
/// one; MBC5 accepts bank zero.
pub proof fn lemma_bank_zero_translation(m: Mbc)
    requires
        m.wf(),
    ensures
        m.kind is Mbc1 ==> m.after_write(0x2000, 0).kind->Mbc1_rom_bank_lo == 1,
        m.kind is Mbc2 ==> m.after_write(0x2100, 0).kind->Mbc2_rom_bank == 1,
        m.kind is Mbc3 ==> m.after_write(0x2000, 0).kind->Mbc3_rom_bank == 1,
        m.kind is Mbc5 ==> m.after_write(0x2000, 0).kind->Mbc5_rom_bank_lo == 0,
{
}

} // verus!
