//! The memory map: it routes every CPU access to the component that owns
//! the address, keeps the work RAM and the registers that belong to no
//! other component, and passes the clock on.
use vstd::prelude::*;
use crate::apu::{Apu, ApuView};
use crate::cartridge::{CartView, Cartidge};
use crate::info::{
    IO_BGPD,
    IO_BGPI,
    IO_DIV,
    IO_DMA,
    IO_IE,
    IO_IF,
    IO_JOYPAD,
    IO_KEY1,
    IO_NR10,
    IO_NR52,
    IO_OBPD,
    IO_OBPI,
    IO_OPRI,
    IO_RP,
    IO_SB,
    IO_SC,
    IO_SVBK,
    IO_TAC,
    IO_TIMA,
    IO_TMA,
    IO_VBK,
    IO_WAVE_RAM_FIRST,
    IO_WAVE_RAM_LAST,
    MODE_DRAW,
    SIZE_HRAM,
    SIZE_OAM,
    SIZE_VRAM_BANK,
    SIZE_WRAM_BANK,
    WRAM_BANKS,
};
use crate::ppu::{Ppu, PpuView};
use crate::regs::{
    bit,
    bit_of,
    ActionButtons,
    CgbPaletteIndex,
    DPad,
    IntrBits,
    JoyPad,
    Key1,
    SerialCtrl,
    TimerCtrl,
};
use crate::serial::Serial;
use crate::timer::Timer;

verus! {

/// Most m-cycles that one call of `tick` takes, so that the dots fit 32 bits.
pub const MAX_TICK_MCYCLES: u32 = 0x3FFF_FFFF;

/// Registers that the memory map keeps itself.
#[derive(Clone, Copy, Debug, PartialEq, Eq, Structural)]
pub struct MmuRegs {
    pub key1: Key1,
    pub iflag: IntrBits,
    pub ienable: IntrBits,
    pub joypad: JoyPad,
    pub bgpi: CgbPaletteIndex,
    pub obpi: CgbPaletteIndex,
    pub opri: u8,
    pub dma: u8,
    pub rp: u8,
    /// Work RAM bank mapped at D000-DFFF, 1 to 7.
    pub wram_idx: usize,
    /// Video RAM bank mapped at 8000-9FFF.
    pub vram_idx: usize,
    /// Direction keys held down, as the host last reported them.
    pub dpad: DPad,
    pub buttons: ActionButtons,
}

pub struct Mmu {
    pub regs: MmuRegs,
    pub ppu: Ppu,
    pub apu: Apu,
    pub timer: Timer,
    pub serial: Serial,
    pub cart: Cartidge,
    /// The eight banks of work RAM, one after the other.
    pub wram: Vec<u8>,
    pub hram: Vec<u8>,
    /// Bytes whose serial transfer started and that the host has not taken yet.
    pub serial_out: Vec<u8>,
}

pub struct MmuView {
    pub regs: MmuRegs,
    pub ppu: PpuView,
    pub apu: ApuView,
    pub timer: Timer,
    pub serial: Serial,
    pub cart: CartView,
    pub wram: Seq<u8>,
    pub hram: Seq<u8>,
    pub serial_out: Seq<u8>,
}

pub open spec fn spec_is_cart_addr(addr: u16) -> bool {
    addr < 0x8000 || (0xA000 <= addr < 0xC000)
}

pub fn is_cart_addr(addr: u16) -> (r: bool)
    ensures
        r == spec_is_cart_addr(addr),
{
    addr < 0x8000 || (0xA000 <= addr && addr < 0xC000)
}

/// The work RAM address that an offset into echo RAM mirrors.
pub open spec fn spec_echo_ram_addr(rel_addr: u16) -> u16 {
    (rel_addr % 8192 + 0xC000) as u16
}

pub fn get_echo_ram_addr(rel_addr: u16) -> (a: u16)
    ensures
        a == spec_echo_ram_addr(rel_addr),
        0xC000 <= a < 0xE000,
{
    rel_addr % 8192 + 0xC000
}

/// One line of the joypad: high unless a selected group holds its button down.
pub open spec fn joy_line(joypad: JoyPad, dir: bool, btn: bool) -> bool {
    !((!joypad.select_dpad && dir) || (!joypad.select_buttons && btn))
}

/// The four lines of the joypad, from bit 0 up: right or A, left or B, up
/// or select, down or start.
pub open spec fn joy_lines(joypad: JoyPad, dpad: DPad, btns: ActionButtons) -> (
    bool,
    bool,
    bool,
    bool,
) {
    (
        joy_line(joypad, dpad.right, btns.a),
        joy_line(joypad, dpad.left, btns.b),
        joy_line(joypad, dpad.up, btns.select),
        joy_line(joypad, dpad.down, btns.start),
    )
}

/// The low nibble of the joypad register that shows the given lines.
pub open spec fn joy_state(lines: (bool, bool, bool, bool)) -> u8 {
    (bit(lines.0) + 2 * bit(lines.1) + 4 * bit(lines.2) + 8 * bit(lines.3)) as u8
}

/// Some line that the nibble `old` shows high is low in `lines`.
pub open spec fn joy_fell(old: u8, lines: (bool, bool, bool, bool)) -> bool {
    ||| old % 2 == 1 && !lines.0
    ||| (old / 2) % 2 == 1 && !lines.1
    ||| (old / 4) % 2 == 1 && !lines.2
    ||| (old / 8) % 2 == 1 && !lines.3
}

fn read_joy_lines(j: JoyPad, dpad: DPad, btns: ActionButtons) -> (lines: (bool, bool, bool, bool))
    ensures
        lines == joy_lines(j, dpad, btns),
{
    (
        !((!j.select_dpad && dpad.right) || (!j.select_buttons && btns.a)),
        !((!j.select_dpad && dpad.left) || (!j.select_buttons && btns.b)),
        !((!j.select_dpad && dpad.up) || (!j.select_buttons && btns.select)),
        !((!j.select_dpad && dpad.down) || (!j.select_buttons && btns.start)),
    )
}

fn pack_joy_lines(lines: (bool, bool, bool, bool)) -> (state: u8)
    ensures
        state == joy_state(lines),
        state < 16,
{
    bit_of(lines.0) + 2 * bit_of(lines.1) + 4 * bit_of(lines.2) + 8 * bit_of(lines.3)
}

fn lines_fell(old: u8, lines: (bool, bool, bool, bool)) -> (r: bool)
    ensures
        r == joy_fell(old, lines),
{
    (old % 2 == 1 && !lines.0) || ((old / 2) % 2 == 1 && !lines.1) || ((old / 4) % 2 == 1
        && !lines.2) || ((old / 8) % 2 == 1 && !lines.3)
}

/// The work RAM bank that a write of `v` to SVBK selects: its low three
/// bits, bank 1 standing in for bank 0.
pub open spec fn svbk_bank(v: u8) -> usize {
    if v % 8 == 0 {
        1
    } else {
        (v % 8) as usize
    }
}

impl MmuRegs {
    pub open spec fn wf(self) -> bool {
        &&& self.joypad.wf()
        &&& self.bgpi.wf()
        &&& self.obpi.wf()
        &&& 1 <= self.wram_idx < WRAM_BANKS
        &&& self.vram_idx < 2
    }

    pub open spec fn initial() -> MmuRegs {
        MmuRegs {
            key1: Key1::unpack(0),
            iflag: IntrBits::none(),
            ienable: IntrBits::none(),
            joypad: JoyPad::unpack(0),
            bgpi: CgbPaletteIndex::unpack(0),
            obpi: CgbPaletteIndex::unpack(0),
            opri: 0,
            dma: 0,
            rp: 2,
            wram_idx: 1,
            vram_idx: 0,
            dpad: DPad::unpack(0),
            buttons: ActionButtons::unpack(0),
        }
    }

    /// The registers after the host reports new key states: the low nibble
    /// of the joypad register follows, and a line that falls requests the
    /// joypad interrupt.
    pub open spec fn after_update_joypad(self, dpad: DPad, btns: ActionButtons) -> MmuRegs {
        let lines = joy_lines(self.joypad, dpad, btns);
        MmuRegs {
            iflag: IntrBits {
                joypad: self.iflag.joypad || joy_fell(self.joypad.state, lines),
                ..self.iflag
            },
            joypad: JoyPad { state: joy_state(lines), ..self.joypad },
            dpad,
            buttons: btns,
            ..self
        }
    }

    /// The registers kept by the map itself after a write.
    pub open spec fn after_write(self, is_cgb: bool, addr: u16, v: u8) -> MmuRegs {
        let r = self;
        if addr == IO_JOYPAD {
            (MmuRegs {
                joypad: JoyPad { state: r.joypad.state, ..JoyPad::unpack(v) },
                ..r
            }).after_update_joypad(r.dpad, r.buttons)
        } else if addr == IO_IF {
            MmuRegs { iflag: IntrBits::unpack(v), ..r }
        } else if addr == IO_IE {
            MmuRegs { ienable: IntrBits::unpack(v), ..r }
        } else if addr == IO_BGPI {
            MmuRegs { bgpi: CgbPaletteIndex::unpack(v), ..r }
        } else if addr == IO_OBPI {
            MmuRegs { obpi: CgbPaletteIndex::unpack(v), ..r }
        } else if addr == IO_OPRI {
            MmuRegs { opri: v % 2, ..r }
        } else if addr == IO_SVBK {
            if is_cgb {
                MmuRegs { wram_idx: svbk_bank(v), ..r }
            } else {
                r
            }
        } else if addr == IO_VBK {
            if is_cgb {
                MmuRegs { vram_idx: (v % 2) as usize, ..r }
            } else {
                r
            }
        } else if addr == IO_KEY1 {
            MmuRegs { key1: Key1 { armed: Key1::unpack(v).armed, ..r.key1 }, ..r }
        } else if addr == IO_RP {
            MmuRegs { rp: (r.rp & 2) | (v & 0xFD), ..r }
        } else {
            r
        }
    }

    /// Tells whether the registers are well-formed.
    pub fn check(&self) -> (ok: bool)
        ensures
            ok == self.wf(),
    {
        self.joypad.check() && self.bgpi.check() && self.obpi.check() && 1 <= self.wram_idx
            && self.wram_idx < WRAM_BANKS && self.vram_idx < 2
    }

    pub fn update_joypad(&mut self, dpad: DPad, btns: ActionButtons)
        ensures
            *final(self) == old(self).after_update_joypad(dpad, btns),
            old(self).wf() ==> final(self).wf(),
    {
        let lines = read_joy_lines(self.joypad, dpad, btns);
        if lines_fell(self.joypad.state, lines) {
            self.iflag.joypad = true;
        }
        self.joypad.state = pack_joy_lines(lines);
        self.dpad = dpad;
        self.buttons = btns;
    }

    pub fn write(&mut self, is_cgb: bool, addr: u16, v: u8)
        requires
            old(self).wf(),
        ensures
            *final(self) == old(self).after_write(is_cgb, addr, v),
            final(self).wf(),
    {
        match addr {
            IO_JOYPAD => {
                let state = self.joypad.state;
                self.joypad.write(v);
                self.joypad.state = state;
                let dpad = self.dpad;
                let btns = self.buttons;
                self.update_joypad(dpad, btns);
            },
            IO_IF => self.iflag.write(v),
            IO_IE => self.ienable.write(v),
            IO_BGPI => self.bgpi.write(v),
            IO_OBPI => self.obpi.write(v),
            IO_OPRI => self.opri = v % 2,
            IO_SVBK => {
                if is_cgb {
                    self.wram_idx = if v % 8 == 0 {
                        1
                    } else {
                        (v % 8) as usize
                    };
                }
            },
            IO_VBK => {
                if is_cgb {
                    self.vram_idx = (v % 2) as usize;
                }
            },
            IO_KEY1 => self.key1.armed = Key1::new(v).armed,
            IO_RP => self.rp = (self.rp & 2) | (v & 0xFD),
            _ => (),
        }
    }

    /// Index of a palette memory after an access through `idx`.
    pub open spec fn stepped(idx: CgbPaletteIndex) -> CgbPaletteIndex {
        if idx.auto_inc {
            CgbPaletteIndex { addr: ((idx.addr + 1) % 64) as u8, ..idx }
        } else {
            idx
        }
    }
}

impl MmuView {
    /// The memory map of a machine that was just switched on with the
    /// given cartridge in its slot.
    pub open spec fn initial(cart: CartView) -> MmuView {
        MmuView {
            regs: MmuRegs::initial(),
            ppu: PpuView::initial(cart.is_cgb),
            apu: ApuView::initial(),
            timer: Timer::initial(),
            serial: Serial::initial(cart.is_cgb),
            cart,
            wram: Seq::new((WRAM_BANKS * SIZE_WRAM_BANK) as nat, |i: int| 0u8),
            hram: Seq::new(SIZE_HRAM as nat, |i: int| 0u8),
            serial_out: Seq::empty(),
        }
    }

    /// The map after the power-up sequence of the monochrome machine has
    /// set the registers that it sets.
    pub open spec fn after_power_up(self) -> MmuView {
        MmuView {
            regs: MmuRegs { joypad: JoyPad::unpack(0xCF), wram_idx: 1, ..self.regs },
            ppu: PpuView {
                regs: crate::ppu::PpuRegs {
                    bgp: 0xFC,
                    stat: crate::regs::LcdStat::unpack(0x85),
                    ..self.ppu.regs
                },
                fetcher: crate::ppu::fetcher::FetcherView {
                    regs: crate::ppu::fetcher::FetcherRegs {
                        lcdc: crate::regs::LcdCtrl::unpack(0x91),
                        ..self.ppu.fetcher.regs
                    },
                    ..self.ppu.fetcher
                },
                ..self.ppu
            },
            ..self
        }
    }

    /// The byte of work RAM at CPU address `addr` in C000-DFFF.
    pub open spec fn wram_index(self, addr: u16) -> int {
        if addr < 0xD000 {
            addr - 0xC000
        } else {
            self.regs.wram_idx * SIZE_WRAM_BANK + (addr - 0xD000)
        }
    }

    /// What a read of the register at `addr` returns; zero where there is none.
    pub open spec fn reg_value(self, addr: u16) -> int {
        if IO_NR10 <= addr <= IO_NR52 {
            self.apu.state.reg_value(addr)
        } else if 0xFF40 <= addr <= 0xFF4B && addr != IO_DMA {
            self.ppu.reg_value(addr)
        } else if addr == IO_JOYPAD {
            self.regs.joypad.pack()
        } else if addr == IO_SB {
            self.serial.sb as int
        } else if addr == IO_SC {
            self.serial.sc.pack()
        } else if addr == IO_DIV {
            self.timer.div() as int
        } else if addr == IO_TIMA {
            self.timer.tima as int
        } else if addr == IO_TMA {
            self.timer.tma as int
        } else if addr == IO_TAC {
            self.timer.tac.pack()
        } else if addr == IO_IF {
            self.regs.iflag.pack()
        } else if addr == IO_IE {
            self.regs.ienable.pack()
        } else if addr == IO_BGPI {
            self.regs.bgpi.pack()
        } else if addr == IO_BGPD {
            self.ppu.bg_palette[self.regs.bgpi.addr as int] as int
        } else if addr == IO_OBPI {
            self.regs.obpi.pack()
        } else if addr == IO_OBPD {
            self.ppu.obj_palette[self.regs.obpi.addr as int] as int
        } else if addr == IO_OPRI {
            self.regs.opri as int
        } else if addr == IO_SVBK {
            self.regs.wram_idx as int
        } else if addr == IO_VBK {
            self.regs.vram_idx as int
        } else if addr == IO_DMA {
            self.regs.dma as int
        } else if addr == IO_KEY1 {
            self.regs.key1.pack()
        } else if addr == IO_RP {
            self.regs.rp as int
        } else {
            0
        }
    }

    /// What the CPU reads at `addr`.
    #[verifier::opaque]
    pub open spec fn read(self, addr: u16) -> u8 {
        if spec_is_cart_addr(addr) {
            self.cart.read(addr)
        } else if addr < 0xA000 {
            self.ppu.fetcher.vram[self.regs.vram_idx * SIZE_VRAM_BANK + (addr - 0x8000)]
        } else if addr < 0xE000 {
            self.wram[self.wram_index(addr)]
        } else if addr < 0xFE00 {
            self.wram[self.wram_index(spec_echo_ram_addr((addr - 0xE000) as u16))]
        } else if addr < 0xFEA0 {
            self.ppu.oam[addr - 0xFE00]
        } else if addr < 0xFF00 {
            0
        } else if IO_WAVE_RAM_FIRST <= addr <= IO_WAVE_RAM_LAST {
            self.apu.wave_ram[addr - IO_WAVE_RAM_FIRST]
        } else if addr < 0xFF80 || addr == IO_IE {
            self.reg_value(addr) as u8
        } else {
            self.hram[addr - 0xFF80]
        }
    }

    /// The map after a write to one of the two palette data registers:
    /// the byte goes to the palette memory at the index, which then steps
    /// if it is set to. While the picture unit draws, the memories are
    /// locked and the write is lost.
    pub open spec fn after_write_palette(self, addr: u16, v: u8) -> MmuView {
        if self.ppu.regs.stat.ppu_mode == MODE_DRAW {
            self
        } else if addr == IO_BGPD {
            MmuView {
                ppu: PpuView {
                    bg_palette: self.ppu.bg_palette.update(self.regs.bgpi.addr as int, v),
                    ..self.ppu
                },
                regs: MmuRegs { bgpi: MmuRegs::stepped(self.regs.bgpi), ..self.regs },
                ..self
            }
        } else if addr == IO_OBPD {
            MmuView {
                ppu: PpuView {
                    obj_palette: self.ppu.obj_palette.update(self.regs.obpi.addr as int, v),
                    ..self.ppu
                },
                regs: MmuRegs { obpi: MmuRegs::stepped(self.regs.obpi), ..self.regs },
                ..self
            }
        } else {
            self
        }
    }

    /// The map after an OAM DMA from page `page`: the 160 bytes from
    /// `page << 8` on are copied into OAM. Pages beyond 0xDF wrap around.
    pub open spec fn after_dma(self, page: u8) -> MmuView {
        let src = (page % 0xE0) * 256;
        MmuView {
            regs: MmuRegs { dma: page, ..self.regs },
            ppu: PpuView {
                oam: Seq::new(SIZE_OAM as nat, |i: int| self.read((src + i) as u16)),
                ..self.ppu
            },
            ..self
        }
    }

    /// The timer after a write to one of its registers; a write to DIV clears the clock.
    pub open spec fn timer_after_write(self, addr: u16, v: u8) -> Timer {
        if addr == IO_DIV {
            self.timer.after_reset_div()
        } else if addr == IO_TIMA {
            Timer { tima: v, ..self.timer }
        } else if addr == IO_TMA {
            Timer { tma: v, ..self.timer }
        } else if addr == IO_TAC {
            Timer { tac: TimerCtrl::unpack(v), ..self.timer }
        } else {
            self.timer
        }
    }

    pub open spec fn serial_after_write(self, addr: u16, v: u8) -> Serial {
        if addr == IO_SB {
            Serial { sb: v, ..self.serial }
        } else if addr == IO_SC {
            Serial { sc: SerialCtrl::unpack(v), ..self.serial }
        } else {
            self.serial
        }
    }

    /// The map after a write to the register at `addr`. Bits that programs
    /// cannot write keep their values.
    pub open spec fn after_write_reg(self, addr: u16, v: u8) -> MmuView {
        if IO_NR10 <= addr <= IO_NR52 {
            MmuView {
                apu: ApuView { state: self.apu.state.after_write_reg(addr, v), ..self.apu },
                ..self
            }
        } else if addr == IO_DMA {
            self.after_dma(v)
        } else if 0xFF40 <= addr <= 0xFF4B {
            MmuView { ppu: self.ppu.after_write_reg(addr, v), ..self }
        } else if addr == IO_BGPD || addr == IO_OBPD {
            self.after_write_palette(addr, v)
        } else if IO_DIV <= addr <= IO_TAC {
            MmuView { timer: self.timer_after_write(addr, v), ..self }
        } else if addr == IO_SB || addr == IO_SC {
            MmuView { serial: self.serial_after_write(addr, v), ..self }
        } else {
            MmuView { regs: self.regs.after_write(self.cart.is_cgb, addr, v), ..self }
        }
    }

    /// The map after the CPU writes `v` to `addr`.
    #[verifier::opaque]
    pub open spec fn after_write(self, addr: u16, v: u8) -> MmuView {
        if spec_is_cart_addr(addr) {
            MmuView { cart: self.cart.after_write(addr, v), ..self }
        } else if addr < 0xA000 {
            MmuView {
                ppu: PpuView {
                    fetcher: crate::ppu::fetcher::FetcherView {
                        vram: self.ppu.fetcher.vram.update(
                            self.regs.vram_idx * SIZE_VRAM_BANK + (addr - 0x8000),
                            v,
                        ),
                        ..self.ppu.fetcher
                    },
                    ..self.ppu
                },
                ..self
            }
        } else if addr < 0xE000 {
            MmuView { wram: self.wram.update(self.wram_index(addr), v), ..self }
        } else if addr < 0xFE00 {
            MmuView {
                wram: self.wram.update(
                    self.wram_index(spec_echo_ram_addr((addr - 0xE000) as u16)),
                    v,
                ),
                ..self
            }
        } else if addr < 0xFEA0 {
            MmuView { ppu: PpuView { oam: self.ppu.oam.update(addr - 0xFE00, v), ..self.ppu }, ..self }
        } else if addr < 0xFF00 {
            self
        } else if IO_WAVE_RAM_FIRST <= addr <= IO_WAVE_RAM_LAST {
            MmuView {
                apu: ApuView {
                    wave_ram: self.apu.wave_ram.update(addr - IO_WAVE_RAM_FIRST, v),
                    ..self.apu
                },
                ..self
            }
        } else if addr < 0xFF80 || addr == IO_IE {
            self.after_write_reg(addr, v)
        } else {
            MmuView { hram: self.hram.update(addr - 0xFF80, v), ..self }
        }
    }

    /// The map after a request of the host that concerns the buttons or
    /// the colour scheme.
    pub open spec fn after_input(self, req: crate::msg::Request) -> MmuView {
        match req {
            crate::msg::Request::UpdateButtonState(b) => MmuView {
                regs: self.regs.after_update_joypad(b.dpad(), b.buttons()),
                ..self
            },
            crate::msg::Request::CyclePalette => MmuView {
                ppu: self.ppu.after_cycle_palette(1),
                ..self
            },
            _ => self,
        }
    }

    /// The map with nothing left that only serves presentation: both
    /// frames black, no audio samples, sampling stopped.
    pub open spec fn without_presentation(self) -> MmuView {
        MmuView {
            ppu: PpuView {
                front: Seq::new(crate::msg::FRAME_PIXELS as nat, |i: int| crate::msg::Color::black()),
                back: Seq::new(crate::msg::FRAME_PIXELS as nat, |i: int| crate::msg::Color::black()),
                ..self.ppu
            },
            apu: self.apu.after_start_new_sampling(0),
            ..self
        }
    }

    /// A colour machine has its speed switch armed at normal speed.
    pub open spec fn speed_switch_armed(self) -> bool {
        self.cart.is_cgb && self.regs.key1.armed && !self.regs.key1.speed
    }

    /// The map after STOP: DIV is reset, and with `switch` the timer and
    /// the serial port go to double speed and KEY1 reports it.
    pub open spec fn after_stop(self, switch: bool) -> MmuView {
        if switch {
            MmuView {
                timer: (Timer { is_2x: true, ..self.timer }).after_reset_div(),
                serial: Serial { is_2x: true, ..self.serial },
                regs: MmuRegs { key1: Key1 { armed: false, speed: true }, ..self.regs },
                ..self
            }
        } else {
            MmuView { timer: self.timer.after_reset_div(), ..self }
        }
    }

    /// The map after the picture unit has run for `dots` dots.
    pub open spec fn after_ppu_tick(self, dots: u32) -> MmuView {
        let (ppu, intr) = self.ppu.after_tick(dots);
        MmuView {
            ppu,
            regs: MmuRegs { iflag: self.regs.iflag.spec_merged(intr), ..self.regs },
            ..self
        }
    }

    /// The map after the timer has run for `mcycles` m-cycles.
    pub open spec fn after_timer_tick(self, mcycles: u32) -> MmuView {
        let (timer, intr) = self.timer.after_tick(mcycles);
        MmuView {
            timer,
            regs: MmuRegs {
                iflag: IntrBits { timer: self.regs.iflag.timer || intr, ..self.regs.iflag },
                ..self.regs
            },
            ..self
        }
    }

    /// The map after the serial port has run for `mcycles` m-cycles.
    pub open spec fn after_serial_tick(self, mcycles: u32) -> MmuView {
        let (serial, ev) = self.serial.after_tick(mcycles);
        MmuView {
            serial,
            regs: MmuRegs {
                iflag: IntrBits { serial: self.regs.iflag.serial || ev.intr, ..self.regs.iflag },
                ..self.regs
            },
            serial_out: match ev.sent {
                Some(b) => self.serial_out.push(b),
                None => self.serial_out,
            },
            ..self
        }
    }

    /// The map after the audio unit has run for `dots` dots, with the
    /// DIV-APU ticks that the timer produced in its last step.
    pub open spec fn after_apu_tick(self, dots: u32) -> MmuView {
        MmuView { apu: self.apu.after_tick(dots, self.timer.apu_ticks), ..self }
    }

    /// The map after a CPU step of `mcycles` m-cycles: the picture unit,
    /// the timer, the serial port and the audio unit run in this order. The
    /// picture and audio units see four dots per m-cycle, and the
    /// interrupts raised are added to IF.
    #[verifier::opaque]
    pub open spec fn after_tick(self, mcycles: u32) -> MmuView {
        let dots = (mcycles * 4) as u32;
        self.after_ppu_tick(dots).after_timer_tick(mcycles).after_serial_tick(
            mcycles,
        ).after_apu_tick(dots)
    }
}

impl View for Mmu {
    type V = MmuView;

    open spec fn view(&self) -> MmuView {
        MmuView {
            regs: self.regs,
            ppu: self.ppu@,
            apu: self.apu@,
            timer: self.timer,
            serial: self.serial,
            cart: self.cart@,
            wram: self.wram@,
            hram: self.hram@,
            serial_out: self.serial_out@,
        }
    }
}

fn zeroed(n: usize) -> (v: Vec<u8>)
    ensures
        v@ == Seq::new(n as nat, |i: int| 0u8),
{
    let mut v: Vec<u8> = Vec::new();
    let mut i: usize = 0;
    while i < n
        invariant
            i <= n,
            v@ == Seq::new(i as nat, |k: int| 0u8),
        decreases n - i,
    {
        v.push(0);
        i = i + 1;
        assert(v@ =~= Seq::new(i as nat, |k: int| 0u8));
    }
    v
}

impl Mmu {
    #[verifier::opaque]
    pub open spec fn wf(&self) -> bool {
        &&& self.regs.wf()
        &&& self.ppu.wf()
        &&& self.apu.wf()
        &&& self.timer.wf()
        &&& self.serial.wf()
        &&& self.cart.wf()
        &&& self.wram@.len() == WRAM_BANKS * SIZE_WRAM_BANK
        &&& self.hram@.len() == SIZE_HRAM
    }

    /// Tells whether the map and everything it owns is well-formed.
    pub fn check(&self) -> (ok: bool)
        ensures
            ok == self.wf(),
    {
        reveal(Mmu::wf);
        self.regs.check() && self.ppu.check() && self.apu.check() && self.timer.check()
            && self.serial.check() && self.cart.check() && self.wram.len() == WRAM_BANKS
            * SIZE_WRAM_BANK && self.hram.len() == SIZE_HRAM
    }

    /// The memory map of a machine with the given cartridge in its slot.
    pub fn new(cartd: Cartidge) -> (m: Mmu)
        requires
            cartd.wf(),
        ensures
            m.wf(),
            m@ == MmuView::initial(cartd@),
    {
        reveal(Mmu::wf);
        reveal(MmuView::read);
        reveal(MmuView::after_write);
        reveal(MmuView::after_tick);
        let is_cgb = cartd.is_cgb;
        Mmu {
            regs: MmuRegs {
                key1: Key1::new(0),
                iflag: IntrBits::new(0),
                ienable: IntrBits::new(0),
                joypad: JoyPad::new(0),
                bgpi: CgbPaletteIndex::new(0),
                obpi: CgbPaletteIndex::new(0),
                opri: 0,
                dma: 0,
                rp: 2,
                wram_idx: 1,
                vram_idx: 0,
                dpad: DPad::new(0),
                buttons: ActionButtons::new(0),
            },
            ppu: Ppu::new(is_cgb),
            apu: Apu::new(),
            timer: Timer::new(),
            serial: Serial::new(is_cgb),
            cart: cartd,
            wram: zeroed(WRAM_BANKS * SIZE_WRAM_BANK),
            hram: zeroed(SIZE_HRAM),
            serial_out: Vec::new(),
        }
    }

    /// Passes a CPU step of `mcycles` m-cycles on to the components.
    pub fn tick(&mut self, mcycles: u32)
        requires
            old(self).wf(),
            0 < mcycles <= MAX_TICK_MCYCLES,
        ensures
            final(self)@ == old(self)@.after_tick(mcycles),
            final(self).wf(),
    {
        reveal(Mmu::wf);
        reveal(MmuView::read);
        reveal(MmuView::after_write);
        reveal(MmuView::after_tick);
        let dots = mcycles * 4;
        self.tick_ppu(dots);
        self.tick_timer(mcycles);
        self.tick_serial(mcycles);
        self.tick_apu(dots);
    }

    fn tick_ppu(&mut self, dots: u32)
        requires
            old(self).wf(),
            dots % 2 == 0,
        ensures
            final(self)@ == old(self)@.after_ppu_tick(dots),
            final(self).wf(),
    {
        reveal(Mmu::wf);
        reveal(MmuView::read);
        reveal(MmuView::after_write);
        reveal(MmuView::after_tick);
        let intr = self.ppu.tick(dots);
        self.regs.iflag = self.regs.iflag.merged(intr);
    }

    fn tick_timer(&mut self, mcycles: u32)
        requires
            old(self).wf(),
            mcycles > 0,
        ensures
            final(self)@ == old(self)@.after_timer_tick(mcycles),
            final(self).wf(),
    {
        reveal(Mmu::wf);
        reveal(MmuView::read);
        reveal(MmuView::after_write);
        reveal(MmuView::after_tick);
        if self.timer.tick(mcycles) {
            self.regs.iflag.timer = true;
        }
    }

    fn tick_serial(&mut self, mcycles: u32)
        requires
            old(self).wf(),
        ensures
            final(self)@ == old(self)@.after_serial_tick(mcycles),
            final(self).wf(),
    {
        reveal(Mmu::wf);
        reveal(MmuView::read);
        reveal(MmuView::after_write);
        reveal(MmuView::after_tick);
        let ev = self.serial.tick(mcycles);
        if ev.intr {
            self.regs.iflag.serial = true;
        }
        if let Some(b) = ev.sent {
            self.serial_out.push(b);
        }
    }

    fn tick_apu(&mut self, dots: u32)
        requires
            old(self).wf(),
        ensures
            final(self)@ == old(self)@.after_apu_tick(dots),
            final(self).wf(),
    {
        reveal(Mmu::wf);
        reveal(MmuView::read);
        reveal(MmuView::after_write);
        reveal(MmuView::after_tick);
        self.apu.tick(dots, self.timer.apu_ticks);
    }

    pub fn read(&self, addr: u16) -> (v: u8)
        requires
            self.wf(),
        ensures
            v == self@.read(addr),
    {
        reveal(Mmu::wf);
        reveal(MmuView::read);
        reveal(MmuView::after_write);
        reveal(MmuView::after_tick);
        if is_cart_addr(addr) {
            self.cart.read(addr)
        } else if addr < 0xA000 {
            self.ppu.fetcher.vram[self.regs.vram_idx * SIZE_VRAM_BANK + (addr - 0x8000) as usize]
        } else if addr < 0xE000 {
            self.wram[self.wram_offset(addr)]
        } else if addr < 0xFE00 {
            self.wram[self.wram_offset(get_echo_ram_addr(addr - 0xE000))]
        } else if addr < 0xFEA0 {
            self.ppu.oam[(addr - 0xFE00) as usize]
        } else if addr < 0xFF00 {
            0
        } else if IO_WAVE_RAM_FIRST <= addr && addr <= IO_WAVE_RAM_LAST {
            self.apu.wave_ram[(addr - IO_WAVE_RAM_FIRST) as usize]
        } else if addr < 0xFF80 || addr == IO_IE {
            self.read_reg(addr)
        } else {
            self.hram[(addr - 0xFF80) as usize]
        }
    }

    pub fn write(&mut self, addr: u16, val: u8)
        requires
            old(self).wf(),
        ensures
            final(self)@ == old(self)@.after_write(addr, val),
            final(self).wf(),
    {
        reveal(Mmu::wf);
        reveal(MmuView::read);
        reveal(MmuView::after_write);
        reveal(MmuView::after_tick);
        if is_cart_addr(addr) {
            self.cart.write(addr, val);
        } else if addr < 0xA000 {
            let i = self.regs.vram_idx * SIZE_VRAM_BANK + (addr - 0x8000) as usize;
            self.ppu.fetcher.vram[i] = val;
        } else if addr < 0xE000 {
            let i = self.wram_offset(addr);
            self.wram[i] = val;
        } else if addr < 0xFE00 {
            let i = self.wram_offset(get_echo_ram_addr(addr - 0xE000));
            self.wram[i] = val;
        } else if addr < 0xFEA0 {
            self.ppu.oam[(addr - 0xFE00) as usize] = val;
        } else if addr < 0xFF00 {
        } else if IO_WAVE_RAM_FIRST <= addr && addr <= IO_WAVE_RAM_LAST {
            self.apu.wave_ram[(addr - IO_WAVE_RAM_FIRST) as usize] = val;
        } else if addr < 0xFF80 || addr == IO_IE {
            self.write_reg(addr, val);
        } else {
            self.hram[(addr - 0xFF80) as usize] = val;
        }
    }

    fn wram_offset(&self, addr: u16) -> (i: usize)
        requires
            self.regs.wf(),
            0xC000 <= addr < 0xE000,
        ensures
            i == self@.wram_index(addr),
            i < WRAM_BANKS * SIZE_WRAM_BANK,
    {
        reveal(Mmu::wf);
        reveal(MmuView::read);
        reveal(MmuView::after_write);
        reveal(MmuView::after_tick);
        if addr < 0xD000 {
            (addr - 0xC000) as usize
        } else {
            self.regs.wram_idx * SIZE_WRAM_BANK + (addr - 0xD000) as usize
        }
    }

    pub fn read_reg(&self, addr: u16) -> (v: u8)
        requires
            self.wf(),
        ensures
            v == self@.reg_value(addr),
    {
        reveal(Mmu::wf);
        reveal(MmuView::read);
        reveal(MmuView::after_write);
        reveal(MmuView::after_tick);
        if IO_NR10 <= addr && addr <= IO_NR52 {
            self.apu.state.read_reg(addr)
        } else if 0xFF40 <= addr && addr <= 0xFF4B && addr != IO_DMA {
            self.ppu.read_reg(addr)
        } else {
            match addr {
                IO_JOYPAD => self.regs.joypad.read(),
                IO_SB => self.serial.sb,
                IO_SC => self.serial.sc.read(),
                IO_DIV => self.timer.get_div(),
                IO_TIMA => self.timer.tima,
                IO_TMA => self.timer.tma,
                IO_TAC => self.timer.tac.read(),
                IO_IF => self.regs.iflag.read(),
                IO_IE => self.regs.ienable.read(),
                IO_BGPI => self.regs.bgpi.read(),
                IO_BGPD => self.ppu.bg_palette[self.regs.bgpi.addr as usize],
                IO_OBPI => self.regs.obpi.read(),
                IO_OBPD => self.ppu.obj_palette[self.regs.obpi.addr as usize],
                IO_OPRI => self.regs.opri,
                IO_SVBK => self.regs.wram_idx as u8,
                IO_VBK => self.regs.vram_idx as u8,
                IO_DMA => self.regs.dma,
                IO_KEY1 => self.regs.key1.read(),
                IO_RP => self.regs.rp,
                _ => 0,
            }
        }
    }

    /// Writes to a register and carries out what the write sets off.
    pub fn write_reg(&mut self, addr: u16, v: u8)
        requires
            old(self).wf(),
        ensures
            final(self)@ == old(self)@.after_write_reg(addr, v),
            final(self).wf(),
    {
        reveal(Mmu::wf);
        reveal(MmuView::read);
        reveal(MmuView::after_write);
        reveal(MmuView::after_tick);
        if IO_NR10 <= addr && addr <= IO_NR52 {
            self.apu.state.write_reg(addr, v);
        } else if addr == IO_DMA {
            self.do_dma(v);
        } else if 0xFF40 <= addr && addr <= 0xFF4B {
            self.ppu.write_reg(addr, v);
        } else if addr == IO_BGPD || addr == IO_OBPD {
            self.write_palette(addr, v);
        } else if IO_DIV <= addr && addr <= IO_TAC {
            self.write_timer_reg(addr, v);
        } else if addr == IO_SB || addr == IO_SC {
            self.write_serial_reg(addr, v);
        } else {
            self.regs.write(self.cart.is_cgb, addr, v);
        }
    }

    fn write_palette(&mut self, addr: u16, v: u8)
        requires
            old(self).wf(),
        ensures
            final(self)@ == old(self)@.after_write_palette(addr, v),
            final(self).wf(),
    {
        reveal(Mmu::wf);
        reveal(MmuView::read);
        reveal(MmuView::after_write);
        reveal(MmuView::after_tick);
        if self.get_mode() == MODE_DRAW {
            return ;
        }
        if addr == IO_BGPD {
            self.ppu.bg_palette[self.regs.bgpi.addr as usize] = v;
            if self.regs.bgpi.auto_inc {
                self.regs.bgpi.addr = (self.regs.bgpi.addr + 1) % 64;
            }
        } else if addr == IO_OBPD {
            self.ppu.obj_palette[self.regs.obpi.addr as usize] = v;
            if self.regs.obpi.auto_inc {
                self.regs.obpi.addr = (self.regs.obpi.addr + 1) % 64;
            }
        }
    }

    fn write_timer_reg(&mut self, addr: u16, v: u8)
        requires
            old(self).wf(),
        ensures
            final(self)@ == (MmuView { timer: old(self)@.timer_after_write(addr, v), ..old(self)@ }),
            final(self).wf(),
    {
        reveal(Mmu::wf);
        reveal(MmuView::read);
        reveal(MmuView::after_write);
        reveal(MmuView::after_tick);
        match addr {
            IO_DIV => self.timer.reset_div(),
            IO_TIMA => self.timer.tima = v,
            IO_TMA => self.timer.tma = v,
            IO_TAC => self.timer.tac.write(v),
            _ => (),
        }
    }

    fn write_serial_reg(&mut self, addr: u16, v: u8)
        requires
            old(self).wf(),
        ensures
            final(self)@ == (MmuView {
                serial: old(self)@.serial_after_write(addr, v),
                ..old(self)@
            }),
            final(self).wf(),
    {
        reveal(Mmu::wf);
        reveal(MmuView::read);
        reveal(MmuView::after_write);
        reveal(MmuView::after_tick);
        match addr {
            IO_SB => self.serial.sb = v,
            IO_SC => self.serial.sc.write(v),
            _ => (),
        }
    }

    /// Adds the given interrupt requests to IF.
    pub fn add_interrupt(&mut self, iflag: IntrBits)
        ensures
            final(self)@ == (MmuView {
                regs: MmuRegs { iflag: old(self).regs.iflag.spec_merged(iflag), ..old(self).regs },
                ..old(self)@
            }),
            old(self).wf() ==> final(self).wf(),
    {
        reveal(Mmu::wf);
        reveal(MmuView::read);
        reveal(MmuView::after_write);
        reveal(MmuView::after_tick);
        self.regs.iflag = self.regs.iflag.merged(iflag);
    }

    /// Takes the key states that the host reports and updates the joypad
    /// register, requesting the joypad interrupt where a line falls.
    pub fn update_joypad(&mut self, dpad: DPad, btns: ActionButtons)
        ensures
            final(self)@ == (MmuView {
                regs: old(self).regs.after_update_joypad(dpad, btns),
                ..old(self)@
            }),
            old(self).wf() ==> final(self).wf(),
    {
        reveal(Mmu::wf);
        reveal(MmuView::read);
        reveal(MmuView::after_write);
        reveal(MmuView::after_tick);
        self.regs.update_joypad(dpad, btns);
    }

    /// The mode of the picture unit as STAT reports it.
    pub fn get_mode(&self) -> (m: u8)
        ensures
            m == self.ppu.regs.stat.ppu_mode,
    {
        reveal(Mmu::wf);
        reveal(MmuView::read);
        reveal(MmuView::after_write);
        reveal(MmuView::after_tick);
        self.ppu.regs.stat.ppu_mode
    }

    fn do_dma(&mut self, page: u8)
        requires
            old(self).wf(),
        ensures
            final(self)@ == old(self)@.after_dma(page),
            final(self).wf(),
    {
        reveal(Mmu::wf);
        reveal(MmuView::read);
        reveal(MmuView::after_write);
        reveal(MmuView::after_tick);
        let src: u16 = (page % 0xE0) as u16 * 256;
        self.regs.dma = page;
        let ghost before = old(self)@;
        let mut i: u16 = 0;
        while i < 160
            invariant
                i <= 160,
                src == (page % 0xE0) * 256,
                self.wf(),
                self@ == (MmuView {
                    regs: MmuRegs { dma: page, ..before.regs },
                    ppu: PpuView { oam: self.ppu.oam@, ..before.ppu },
                    ..before
                }),
                forall|k: int| 0 <= k < i ==> self.ppu.oam@[k] == before.read((src + k) as u16),
            decreases 160 - i,
        {
            reveal(Mmu::wf);
            reveal(MmuView::read);
            let b = self.read(src + i);
            assert(b == before.read((src + i) as u16));
            self.ppu.oam[i as usize] = b;
            i = i + 1;
        }
        assert(self.ppu.oam@ =~= Seq::new(SIZE_OAM as nat, |k: int| before.read((src + k) as u16)));
    }

    /// The interrupt requests and the interrupts enabled, IF and IE.
    pub fn interrupt_regs(&self) -> (r: (IntrBits, IntrBits))
        ensures
            r == (self@.regs.iflag, self@.regs.ienable),
    {
        (self.regs.iflag, self.regs.ienable)
    }

    pub fn speed_switch_armed(&self) -> (r: bool)
        ensures
            r == self@.speed_switch_armed(),
    {
        self.cart.is_cgb && self.regs.key1.armed && !self.regs.key1.speed
    }

    /// Sets the registers as the power-up sequence of the monochrome
    /// machine leaves them.
    pub fn power_up(&mut self)
        requires
            old(self).wf(),
        ensures
            final(self)@ == old(self)@.after_power_up(),
            final(self).wf(),
    {
        reveal(Mmu::wf);
        self.regs.joypad.write(0xCF);
        self.regs.wram_idx = 1;
        self.ppu.regs.bgp = 0xFC;
        self.ppu.fetcher.regs.lcdc.write(0x91);
        self.ppu.regs.stat.write(0x85);
    }

    /// Switches to the next colour scheme for monochrome programs.
    pub fn cycle_palette(&mut self)
        requires
            old(self).wf(),
        ensures
            final(self)@ == (MmuView { ppu: old(self)@.ppu.after_cycle_palette(1), ..old(self)@ }),
            final(self).wf(),
    {
        reveal(Mmu::wf);
        self.ppu.cycle_palette(1);
    }

    /// A copy of the last complete frame.
    pub fn video_frame(&self) -> (f: crate::msg::VideoFrame)
        requires
            self.wf(),
        ensures
            f@ == self@.ppu.front,
            f.wf(),
    {
        reveal(Mmu::wf);
        self.ppu.front.duplicate()
    }

    /// Restarts audio sampling with a new period and hands out the samples
    /// taken so far.
    pub fn start_new_sampling(&mut self, period_in_dots: u32) -> (samples: Vec<
        crate::apu::StereoSample,
    >)
        requires
            old(self).wf(),
        ensures
            samples@ == old(self)@.apu.samples,
            final(self)@ == (MmuView {
                apu: old(self)@.apu.after_start_new_sampling(period_in_dots),
                ..old(self)@
            }),
            final(self).wf(),
    {
        reveal(Mmu::wf);
        self.apu.start_new_sampling(period_in_dots)
    }

    /// Blanks the frames, drops the audio samples and stops sampling, so
    /// that nothing that only serves presentation is left.
    pub fn drop_presentation(&mut self)
        requires
            old(self).wf(),
        ensures
            final(self)@ == old(self)@.without_presentation(),
            final(self).wf(),
    {
        reveal(Mmu::wf);
        self.ppu.remove_frame();
        self.apu.clear_samples();
    }

    /// Carries out a request of the host that concerns the buttons or the
    /// colour scheme; other requests change nothing here.
    pub fn handle_input(&mut self, req: crate::msg::Request)
        requires
            old(self).wf(),
        ensures
            final(self)@ == old(self)@.after_input(req),
            final(self).wf(),
    {
        reveal(Mmu::wf);
        match req {
            crate::msg::Request::UpdateButtonState(btns) => {
                let (dpad, btns) = btns.to_internal_repr();
                self.regs.update_joypad(dpad, btns);
            },
            crate::msg::Request::CyclePalette => {
                self.ppu.cycle_palette(1);
            },
            _ => {},
        }
    }

    /// Replaces the interrupt requests in IF.
    pub fn set_iflag(&mut self, iflag: IntrBits)
        requires
            old(self).wf(),
        ensures
            final(self)@ == (MmuView { regs: MmuRegs { iflag, ..old(self).regs }, ..old(self)@ }),
            final(self).wf(),
    {
        reveal(Mmu::wf);
        self.regs.iflag = iflag;
    }

    /// Carries out the part of STOP that concerns the components: DIV is
    /// reset, and with `switch` they go to double speed.
    pub fn stop(&mut self, switch: bool)
        requires
            old(self).wf(),
        ensures
            final(self)@ == old(self)@.after_stop(switch),
            final(self).wf(),
    {
        reveal(Mmu::wf);
        if switch {
            self.timer.is_2x = true;
            self.serial.is_2x = true;
            self.regs.key1 = Key1 { armed: false, speed: true };
        }
        self.timer.reset_div();
    }

    /// Hands out the bytes whose serial transfer started since the last call.
    pub fn take_serial_output(&mut self) -> (out: Vec<u8>)
        ensures
            out@ == old(self)@.serial_out,
            final(self)@ == (MmuView { serial_out: Seq::empty(), ..old(self)@ }),
            old(self).wf() ==> final(self).wf(),
    {
        reveal(Mmu::wf);
        reveal(MmuView::read);
        reveal(MmuView::after_write);
        reveal(MmuView::after_tick);
        let mut out: Vec<u8> = Vec::new();
        core::mem::swap(&mut out, &mut self.serial_out);
        out
    }
}

} // verus!
