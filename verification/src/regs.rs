//! Memory-mapped registers as records of named fields.
//!
//! Every register is kept unpacked. `unpack` splits a byte into the fields,
//! `pack` puts them back; bits that belong to no field are dropped on the way
//! in and read as zero.
use vstd::prelude::*;

verus! {

/// Numeric value of a single-bit field.
pub open spec fn bit(b: bool) -> int {
    if b {
        1
    } else {
        0
    }
}

pub fn bit_of(b: bool) -> (r: u8)
    ensures
        r == bit(b),
{
    if b {
        1
    } else {
        0
    }
}

/// Joypad (P1) register. The low nibble reports the selected button group, a clear bit meaning pressed; only the two select bits are writable by programs.
#[derive(Clone, Copy, Debug, PartialEq, Eq, Structural)]
pub struct JoyPad {
    pub state: u8,
    pub select_dpad: bool,
    pub select_buttons: bool,
}

impl JoyPad {
    pub open spec fn wf(self) -> bool {
        self.state < 16
    }

    /// Tells whether every field is within its width.
    pub fn check(&self) -> (ok: bool)
        ensures
            ok == self.wf(),
    {
        self.state < 16
    }

    /// The fields held in the bits of `v`.
    pub open spec fn unpack(v: u8) -> JoyPad {
        JoyPad {
            state: v % 16,
            select_dpad: (v / 16) % 2 == 1,
            select_buttons: (v / 32) % 2 == 1,
        }
    }

    /// The register value; bits that belong to no field are zero.
    pub open spec fn pack(self) -> int {
        self.state + 16 * bit(self.select_dpad) + 32 * bit(self.select_buttons)
    }

    pub fn new(v: u8) -> (r: JoyPad)
        ensures
            r == Self::unpack(v),
            r.wf(),
    {
        JoyPad {
            state: v % 16,
            select_dpad: (v / 16) % 2 == 1,
            select_buttons: (v / 32) % 2 == 1,
        }
    }

    pub fn read(&self) -> (v: u8)
        requires
            self.wf(),
        ensures
            v == self.pack(),
    {
        self.state + 16 * bit_of(self.select_dpad) + 32 * bit_of(self.select_buttons)
    }

    pub fn write(&mut self, v: u8)
        ensures
            *final(self) == Self::unpack(v),
            final(self).wf(),
    {
        *self = Self::new(v);
    }
}

/// Direction keys, a set bit meaning pressed.
#[derive(Clone, Copy, Debug, PartialEq, Eq, Structural)]
pub struct DPad {
    pub right: bool,
    pub left: bool,
    pub up: bool,
    pub down: bool,
}

impl DPad {
    pub open spec fn wf(self) -> bool {
        true
    }

    /// Tells whether every field is within its width.
    pub fn check(&self) -> (ok: bool)
        ensures
            ok == self.wf(),
    {
        true
    }

    /// The fields held in the bits of `v`.
    pub open spec fn unpack(v: u8) -> DPad {
        DPad {
            right: v % 2 == 1,
            left: (v / 2) % 2 == 1,
            up: (v / 4) % 2 == 1,
            down: (v / 8) % 2 == 1,
        }
    }

    /// The register value; bits that belong to no field are zero.
    pub open spec fn pack(self) -> int {
        bit(self.right) + 2 * bit(self.left) + 4 * bit(self.up) + 8 * bit(self.down)
    }

    pub fn new(v: u8) -> (r: DPad)
        ensures
            r == Self::unpack(v),
            r.wf(),
    {
        DPad {
            right: v % 2 == 1,
            left: (v / 2) % 2 == 1,
            up: (v / 4) % 2 == 1,
            down: (v / 8) % 2 == 1,
        }
    }

    pub fn read(&self) -> (v: u8)
        requires
            self.wf(),
        ensures
            v == self.pack(),
    {
        bit_of(self.right) + 2 * bit_of(self.left) + 4 * bit_of(self.up) + 8 * bit_of(self.down)
    }

    pub fn write(&mut self, v: u8)
        ensures
            *final(self) == Self::unpack(v),
            final(self).wf(),
    {
        *self = Self::new(v);
    }
}

/// Action buttons, a set bit meaning pressed.
#[derive(Clone, Copy, Debug, PartialEq, Eq, Structural)]
pub struct ActionButtons {
    pub a: bool,
    pub b: bool,
    pub select: bool,
    pub start: bool,
}

impl ActionButtons {
    pub open spec fn wf(self) -> bool {
        true
    }

    /// Tells whether every field is within its width.
    pub fn check(&self) -> (ok: bool)
        ensures
            ok == self.wf(),
    {
        true
    }

    /// The fields held in the bits of `v`.
    pub open spec fn unpack(v: u8) -> ActionButtons {
        ActionButtons {
            a: v % 2 == 1,
            b: (v / 2) % 2 == 1,
            select: (v / 4) % 2 == 1,
            start: (v / 8) % 2 == 1,
        }
    }

    /// The register value; bits that belong to no field are zero.
    pub open spec fn pack(self) -> int {
        bit(self.a) + 2 * bit(self.b) + 4 * bit(self.select) + 8 * bit(self.start)
    }

    pub fn new(v: u8) -> (r: ActionButtons)
        ensures
            r == Self::unpack(v),
            r.wf(),
    {
        ActionButtons {
            a: v % 2 == 1,
            b: (v / 2) % 2 == 1,
            select: (v / 4) % 2 == 1,
            start: (v / 8) % 2 == 1,
        }
    }

    pub fn read(&self) -> (v: u8)
        requires
            self.wf(),
        ensures
            v == self.pack(),
    {
        bit_of(self.a) + 2 * bit_of(self.b) + 4 * bit_of(self.select) + 8 * bit_of(self.start)
    }

    pub fn write(&mut self, v: u8)
        ensures
            *final(self) == Self::unpack(v),
            final(self).wf(),
    {
        *self = Self::new(v);
    }
}

/// Serial transfer control (SC).
#[derive(Clone, Copy, Debug, PartialEq, Eq, Structural)]
pub struct SerialCtrl {
    pub clock_select: bool,
    pub clock_speed: bool,
    pub tx_enable: bool,
}

impl SerialCtrl {
    pub open spec fn wf(self) -> bool {
        true
    }

    /// Tells whether every field is within its width.
    pub fn check(&self) -> (ok: bool)
        ensures
            ok == self.wf(),
    {
        true
    }

    /// The fields held in the bits of `v`.
    pub open spec fn unpack(v: u8) -> SerialCtrl {
        SerialCtrl {
            clock_select: v % 2 == 1,
            clock_speed: (v / 2) % 2 == 1,
            tx_enable: (v / 128) % 2 == 1,
        }
    }

    /// The register value; bits that belong to no field are zero.
    pub open spec fn pack(self) -> int {
        bit(self.clock_select) + 2 * bit(self.clock_speed) + 128 * bit(self.tx_enable)
    }

    pub fn new(v: u8) -> (r: SerialCtrl)
        ensures
            r == Self::unpack(v),
            r.wf(),
    {
        SerialCtrl {
            clock_select: v % 2 == 1,
            clock_speed: (v / 2) % 2 == 1,
            tx_enable: (v / 128) % 2 == 1,
        }
    }

    pub fn read(&self) -> (v: u8)
        requires
            self.wf(),
        ensures
            v == self.pack(),
    {
        bit_of(self.clock_select) + 2 * bit_of(self.clock_speed) + 128 * bit_of(self.tx_enable)
    }

    pub fn write(&mut self, v: u8)
        ensures
            *final(self) == Self::unpack(v),
            final(self).wf(),
    {
        *self = Self::new(v);
    }
}

/// LCD control (LCDC). Outside colour mode `bg_win_priority` enables background and window.
#[derive(Clone, Copy, Debug, PartialEq, Eq, Structural)]
pub struct LcdCtrl {
    pub bg_win_priority: bool,
    pub obj_enable: bool,
    pub obj_size: bool,
    pub bg_tile_map: bool,
    pub bg_win_tile_data: bool,
    pub win_enable: bool,
    pub win_tile_map: bool,
    pub ppu_enable: bool,
}

impl LcdCtrl {
    pub open spec fn wf(self) -> bool {
        true
    }

    /// Tells whether every field is within its width.
    pub fn check(&self) -> (ok: bool)
        ensures
            ok == self.wf(),
    {
        true
    }

    /// The fields held in the bits of `v`.
    pub open spec fn unpack(v: u8) -> LcdCtrl {
        LcdCtrl {
            bg_win_priority: v % 2 == 1,
            obj_enable: (v / 2) % 2 == 1,
            obj_size: (v / 4) % 2 == 1,
            bg_tile_map: (v / 8) % 2 == 1,
            bg_win_tile_data: (v / 16) % 2 == 1,
            win_enable: (v / 32) % 2 == 1,
            win_tile_map: (v / 64) % 2 == 1,
            ppu_enable: (v / 128) % 2 == 1,
        }
    }

    /// The register value; bits that belong to no field are zero.
    pub open spec fn pack(self) -> int {
        bit(self.bg_win_priority) + 2 * bit(self.obj_enable) + 4 * bit(self.obj_size) + 8 * bit(self.bg_tile_map) + 16 * bit(self.bg_win_tile_data) + 32 * bit(self.win_enable) + 64 * bit(self.win_tile_map) + 128 * bit(self.ppu_enable)
    }

    pub fn new(v: u8) -> (r: LcdCtrl)
        ensures
            r == Self::unpack(v),
            r.wf(),
    {
        LcdCtrl {
            bg_win_priority: v % 2 == 1,
            obj_enable: (v / 2) % 2 == 1,
            obj_size: (v / 4) % 2 == 1,
            bg_tile_map: (v / 8) % 2 == 1,
            bg_win_tile_data: (v / 16) % 2 == 1,
            win_enable: (v / 32) % 2 == 1,
            win_tile_map: (v / 64) % 2 == 1,
            ppu_enable: (v / 128) % 2 == 1,
        }
    }

    pub fn read(&self) -> (v: u8)
        requires
            self.wf(),
        ensures
            v == self.pack(),
    {
        bit_of(self.bg_win_priority) + 2 * bit_of(self.obj_enable) + 4 * bit_of(self.obj_size) + 8 * bit_of(self.bg_tile_map) + 16 * bit_of(self.bg_win_tile_data) + 32 * bit_of(self.win_enable) + 64 * bit_of(self.win_tile_map) + 128 * bit_of(self.ppu_enable)
    }

    pub fn write(&mut self, v: u8)
        ensures
            *final(self) == Self::unpack(v),
            final(self).wf(),
    {
        *self = Self::new(v);
    }
}

/// LCD status (STAT): current mode, the LY==LYC flag and the four interrupt sources.
#[derive(Clone, Copy, Debug, PartialEq, Eq, Structural)]
pub struct LcdStat {
    pub ppu_mode: u8,
    pub ly_eq_lyc: bool,
    pub mode0: bool,
    pub mode1: bool,
    pub mode2: bool,
    pub lyc_int: bool,
}

impl LcdStat {
    pub open spec fn wf(self) -> bool {
        self.ppu_mode < 4
    }

    /// Tells whether every field is within its width.
    pub fn check(&self) -> (ok: bool)
        ensures
            ok == self.wf(),
    {
        self.ppu_mode < 4
    }

    /// The fields held in the bits of `v`.
    pub open spec fn unpack(v: u8) -> LcdStat {
        LcdStat {
            ppu_mode: v % 4,
            ly_eq_lyc: (v / 4) % 2 == 1,
            mode0: (v / 8) % 2 == 1,
            mode1: (v / 16) % 2 == 1,
            mode2: (v / 32) % 2 == 1,
            lyc_int: (v / 64) % 2 == 1,
        }
    }

    /// The register value; bits that belong to no field are zero.
    pub open spec fn pack(self) -> int {
        self.ppu_mode + 4 * bit(self.ly_eq_lyc) + 8 * bit(self.mode0) + 16 * bit(self.mode1) + 32 * bit(self.mode2) + 64 * bit(self.lyc_int)
    }

    pub fn new(v: u8) -> (r: LcdStat)
        ensures
            r == Self::unpack(v),
            r.wf(),
    {
        LcdStat {
            ppu_mode: v % 4,
            ly_eq_lyc: (v / 4) % 2 == 1,
            mode0: (v / 8) % 2 == 1,
            mode1: (v / 16) % 2 == 1,
            mode2: (v / 32) % 2 == 1,
            lyc_int: (v / 64) % 2 == 1,
        }
    }

    pub fn read(&self) -> (v: u8)
        requires
            self.wf(),
        ensures
            v == self.pack(),
    {
        self.ppu_mode + 4 * bit_of(self.ly_eq_lyc) + 8 * bit_of(self.mode0) + 16 * bit_of(self.mode1) + 32 * bit_of(self.mode2) + 64 * bit_of(self.lyc_int)
    }

    pub fn write(&mut self, v: u8)
        ensures
            *final(self) == Self::unpack(v),
            final(self).wf(),
    {
        *self = Self::new(v);
    }
}

/// Index register of a colour palette memory (BGPI / OBPI).
#[derive(Clone, Copy, Debug, PartialEq, Eq, Structural)]
pub struct CgbPaletteIndex {
    pub addr: u8,
    pub auto_inc: bool,
}

impl CgbPaletteIndex {
    pub open spec fn wf(self) -> bool {
        self.addr < 64
    }

    /// Tells whether every field is within its width.
    pub fn check(&self) -> (ok: bool)
        ensures
            ok == self.wf(),
    {
        self.addr < 64
    }

    /// The fields held in the bits of `v`.
    pub open spec fn unpack(v: u8) -> CgbPaletteIndex {
        CgbPaletteIndex {
            addr: v % 64,
            auto_inc: (v / 128) % 2 == 1,
        }
    }

    /// The register value; bits that belong to no field are zero.
    pub open spec fn pack(self) -> int {
        self.addr + 128 * bit(self.auto_inc)
    }

    pub fn new(v: u8) -> (r: CgbPaletteIndex)
        ensures
            r == Self::unpack(v),
            r.wf(),
    {
        CgbPaletteIndex {
            addr: v % 64,
            auto_inc: (v / 128) % 2 == 1,
        }
    }

    pub fn read(&self) -> (v: u8)
        requires
            self.wf(),
        ensures
            v == self.pack(),
    {
        self.addr + 128 * bit_of(self.auto_inc)
    }

    pub fn write(&mut self, v: u8)
        ensures
            *final(self) == Self::unpack(v),
            final(self).wf(),
    {
        *self = Self::new(v);
    }
}

/// Timer control (TAC).
#[derive(Clone, Copy, Debug, PartialEq, Eq, Structural)]
pub struct TimerCtrl {
    pub clock_select: u8,
    pub enable: bool,
}

impl TimerCtrl {
    pub open spec fn wf(self) -> bool {
        self.clock_select < 4
    }

    /// Tells whether every field is within its width.
    pub fn check(&self) -> (ok: bool)
        ensures
            ok == self.wf(),
    {
        self.clock_select < 4
    }

    /// The fields held in the bits of `v`.
    pub open spec fn unpack(v: u8) -> TimerCtrl {
        TimerCtrl {
            clock_select: v % 4,
            enable: (v / 4) % 2 == 1,
        }
    }

    /// The register value; bits that belong to no field are zero.
    pub open spec fn pack(self) -> int {
        self.clock_select + 4 * bit(self.enable)
    }

    pub fn new(v: u8) -> (r: TimerCtrl)
        ensures
            r == Self::unpack(v),
            r.wf(),
    {
        TimerCtrl {
            clock_select: v % 4,
            enable: (v / 4) % 2 == 1,
        }
    }

    pub fn read(&self) -> (v: u8)
        requires
            self.wf(),
        ensures
            v == self.pack(),
    {
        self.clock_select + 4 * bit_of(self.enable)
    }

    pub fn write(&mut self, v: u8)
        ensures
            *final(self) == Self::unpack(v),
            final(self).wf(),
    {
        *self = Self::new(v);
    }
}

/// Interrupt bits as laid out in IF and IE.
#[derive(Clone, Copy, Debug, PartialEq, Eq, Structural)]
pub struct IntrBits {
    pub vblank: bool,
    pub stat: bool,
    pub timer: bool,
    pub serial: bool,
    pub joypad: bool,
}

impl IntrBits {
    pub open spec fn wf(self) -> bool {
        true
    }

    /// Tells whether every field is within its width.
    pub fn check(&self) -> (ok: bool)
        ensures
            ok == self.wf(),
    {
        true
    }

    /// The fields held in the bits of `v`.
    pub open spec fn unpack(v: u8) -> IntrBits {
        IntrBits {
            vblank: v % 2 == 1,
            stat: (v / 2) % 2 == 1,
            timer: (v / 4) % 2 == 1,
            serial: (v / 8) % 2 == 1,
            joypad: (v / 16) % 2 == 1,
        }
    }

    /// The register value; bits that belong to no field are zero.
    pub open spec fn pack(self) -> int {
        bit(self.vblank) + 2 * bit(self.stat) + 4 * bit(self.timer) + 8 * bit(self.serial) + 16 * bit(self.joypad)
    }

    pub fn new(v: u8) -> (r: IntrBits)
        ensures
            r == Self::unpack(v),
            r.wf(),
    {
        IntrBits {
            vblank: v % 2 == 1,
            stat: (v / 2) % 2 == 1,
            timer: (v / 4) % 2 == 1,
            serial: (v / 8) % 2 == 1,
            joypad: (v / 16) % 2 == 1,
        }
    }

    pub fn read(&self) -> (v: u8)
        requires
            self.wf(),
        ensures
            v == self.pack(),
    {
        bit_of(self.vblank) + 2 * bit_of(self.stat) + 4 * bit_of(self.timer) + 8 * bit_of(self.serial) + 16 * bit_of(self.joypad)
    }

    pub fn write(&mut self, v: u8)
        ensures
            *final(self) == Self::unpack(v),
            final(self).wf(),
    {
        *self = Self::new(v);
    }
}

/// Speed switch register (KEY1).
#[derive(Clone, Copy, Debug, PartialEq, Eq, Structural)]
pub struct Key1 {
    pub armed: bool,
    pub speed: bool,
}

impl Key1 {
    pub open spec fn wf(self) -> bool {
        true
    }

    /// Tells whether every field is within its width.
    pub fn check(&self) -> (ok: bool)
        ensures
            ok == self.wf(),
    {
        true
    }

    /// The fields held in the bits of `v`.
    pub open spec fn unpack(v: u8) -> Key1 {
        Key1 {
            armed: v % 2 == 1,
            speed: (v / 128) % 2 == 1,
        }
    }

    /// The register value; bits that belong to no field are zero.
    pub open spec fn pack(self) -> int {
        bit(self.armed) + 128 * bit(self.speed)
    }

    pub fn new(v: u8) -> (r: Key1)
        ensures
            r == Self::unpack(v),
            r.wf(),
    {
        Key1 {
            armed: v % 2 == 1,
            speed: (v / 128) % 2 == 1,
        }
    }

    pub fn read(&self) -> (v: u8)
        requires
            self.wf(),
        ensures
            v == self.pack(),
    {
        bit_of(self.armed) + 128 * bit_of(self.speed)
    }

    pub fn write(&mut self, v: u8)
        ensures
            *final(self) == Self::unpack(v),
            final(self).wf(),
    {
        *self = Self::new(v);
    }
}

/// Audio master control (NR52).
#[derive(Clone, Copy, Debug, PartialEq, Eq, Structural)]
pub struct AudioNr52 {
    pub ch1_on: bool,
    pub ch2_on: bool,
    pub ch3_on: bool,
    pub ch4_on: bool,
    pub enable: bool,
}

impl AudioNr52 {
    pub open spec fn wf(self) -> bool {
        true
    }

    /// Tells whether every field is within its width.
    pub fn check(&self) -> (ok: bool)
        ensures
            ok == self.wf(),
    {
        true
    }

    /// The fields held in the bits of `v`.
    pub open spec fn unpack(v: u8) -> AudioNr52 {
        AudioNr52 {
            ch1_on: v % 2 == 1,
            ch2_on: (v / 2) % 2 == 1,
            ch3_on: (v / 4) % 2 == 1,
            ch4_on: (v / 8) % 2 == 1,
            enable: (v / 128) % 2 == 1,
        }
    }

    /// The register value; bits that belong to no field are zero.
    pub open spec fn pack(self) -> int {
        bit(self.ch1_on) + 2 * bit(self.ch2_on) + 4 * bit(self.ch3_on) + 8 * bit(self.ch4_on) + 128 * bit(self.enable)
    }

    pub fn new(v: u8) -> (r: AudioNr52)
        ensures
            r == Self::unpack(v),
            r.wf(),
    {
        AudioNr52 {
            ch1_on: v % 2 == 1,
            ch2_on: (v / 2) % 2 == 1,
            ch3_on: (v / 4) % 2 == 1,
            ch4_on: (v / 8) % 2 == 1,
            enable: (v / 128) % 2 == 1,
        }
    }

    pub fn read(&self) -> (v: u8)
        requires
            self.wf(),
        ensures
            v == self.pack(),
    {
        bit_of(self.ch1_on) + 2 * bit_of(self.ch2_on) + 4 * bit_of(self.ch3_on) + 8 * bit_of(self.ch4_on) + 128 * bit_of(self.enable)
    }

    pub fn write(&mut self, v: u8)
        ensures
            *final(self) == Self::unpack(v),
            final(self).wf(),
    {
        *self = Self::new(v);
    }
}

/// Sound panning (NR51).
#[derive(Clone, Copy, Debug, PartialEq, Eq, Structural)]
pub struct AudioNr51 {
    pub ch1_right: bool,
    pub ch2_right: bool,
    pub ch3_right: bool,
    pub ch4_right: bool,
    pub ch1_left: bool,
    pub ch2_left: bool,
    pub ch3_left: bool,
    pub ch4_left: bool,
}

impl AudioNr51 {
    pub open spec fn wf(self) -> bool {
        true
    }

    /// Tells whether every field is within its width.
    pub fn check(&self) -> (ok: bool)
        ensures
            ok == self.wf(),
    {
        true
    }

    /// The fields held in the bits of `v`.
    pub open spec fn unpack(v: u8) -> AudioNr51 {
        AudioNr51 {
            ch1_right: v % 2 == 1,
            ch2_right: (v / 2) % 2 == 1,
            ch3_right: (v / 4) % 2 == 1,
            ch4_right: (v / 8) % 2 == 1,
            ch1_left: (v / 16) % 2 == 1,
            ch2_left: (v / 32) % 2 == 1,
            ch3_left: (v / 64) % 2 == 1,
            ch4_left: (v / 128) % 2 == 1,
        }
    }

    /// The register value; bits that belong to no field are zero.
    pub open spec fn pack(self) -> int {
        bit(self.ch1_right) + 2 * bit(self.ch2_right) + 4 * bit(self.ch3_right) + 8 * bit(self.ch4_right) + 16 * bit(self.ch1_left) + 32 * bit(self.ch2_left) + 64 * bit(self.ch3_left) + 128 * bit(self.ch4_left)
    }

    pub fn new(v: u8) -> (r: AudioNr51)
        ensures
            r == Self::unpack(v),
            r.wf(),
    {
        AudioNr51 {
            ch1_right: v % 2 == 1,
            ch2_right: (v / 2) % 2 == 1,
            ch3_right: (v / 4) % 2 == 1,
            ch4_right: (v / 8) % 2 == 1,
            ch1_left: (v / 16) % 2 == 1,
            ch2_left: (v / 32) % 2 == 1,
            ch3_left: (v / 64) % 2 == 1,
            ch4_left: (v / 128) % 2 == 1,
        }
    }

    pub fn read(&self) -> (v: u8)
        requires
            self.wf(),
        ensures
            v == self.pack(),
    {
        bit_of(self.ch1_right) + 2 * bit_of(self.ch2_right) + 4 * bit_of(self.ch3_right) + 8 * bit_of(self.ch4_right) + 16 * bit_of(self.ch1_left) + 32 * bit_of(self.ch2_left) + 64 * bit_of(self.ch3_left) + 128 * bit_of(self.ch4_left)
    }

    pub fn write(&mut self, v: u8)
        ensures
            *final(self) == Self::unpack(v),
            final(self).wf(),
    {
        *self = Self::new(v);
    }
}

/// Master volume (NR50).
#[derive(Clone, Copy, Debug, PartialEq, Eq, Structural)]
pub struct AudioNr50 {
    pub vol_right: u8,
    pub vin_right: bool,
    pub vol_left: u8,
    pub vin_left: bool,
}

impl AudioNr50 {
    pub open spec fn wf(self) -> bool {
        self.vol_right < 8 && self.vol_left < 8
    }

    /// Tells whether every field is within its width.
    pub fn check(&self) -> (ok: bool)
        ensures
            ok == self.wf(),
    {
        self.vol_right < 8 && self.vol_left < 8
    }

    /// The fields held in the bits of `v`.
    pub open spec fn unpack(v: u8) -> AudioNr50 {
        AudioNr50 {
            vol_right: v % 8,
            vin_right: (v / 8) % 2 == 1,
            vol_left: (v / 16) % 8,
            vin_left: (v / 128) % 2 == 1,
        }
    }

    /// The register value; bits that belong to no field are zero.
    pub open spec fn pack(self) -> int {
        self.vol_right + 8 * bit(self.vin_right) + 16 * self.vol_left + 128 * bit(self.vin_left)
    }

    pub fn new(v: u8) -> (r: AudioNr50)
        ensures
            r == Self::unpack(v),
            r.wf(),
    {
        AudioNr50 {
            vol_right: v % 8,
            vin_right: (v / 8) % 2 == 1,
            vol_left: (v / 16) % 8,
            vin_left: (v / 128) % 2 == 1,
        }
    }

    pub fn read(&self) -> (v: u8)
        requires
            self.wf(),
        ensures
            v == self.pack(),
    {
        self.vol_right + 8 * bit_of(self.vin_right) + 16 * self.vol_left + 128 * bit_of(self.vin_left)
    }

    pub fn write(&mut self, v: u8)
        ensures
            *final(self) == Self::unpack(v),
            final(self).wf(),
    {
        *self = Self::new(v);
    }
}

/// Period sweep (NR10).
#[derive(Clone, Copy, Debug, PartialEq, Eq, Structural)]
pub struct AudioNx0 {
    pub shift_step: u8,
    pub direction: bool,
    pub pace: u8,
}

impl AudioNx0 {
    pub open spec fn wf(self) -> bool {
        self.shift_step < 8 && self.pace < 8
    }

    /// Tells whether every field is within its width.
    pub fn check(&self) -> (ok: bool)
        ensures
            ok == self.wf(),
    {
        self.shift_step < 8 && self.pace < 8
    }

    /// The fields held in the bits of `v`.
    pub open spec fn unpack(v: u8) -> AudioNx0 {
        AudioNx0 {
            shift_step: v % 8,
            direction: (v / 8) % 2 == 1,
            pace: (v / 16) % 8,
        }
    }

    /// The register value; bits that belong to no field are zero.
    pub open spec fn pack(self) -> int {
        self.shift_step + 8 * bit(self.direction) + 16 * self.pace
    }

    pub fn new(v: u8) -> (r: AudioNx0)
        ensures
            r == Self::unpack(v),
            r.wf(),
    {
        AudioNx0 {
            shift_step: v % 8,
            direction: (v / 8) % 2 == 1,
            pace: (v / 16) % 8,
        }
    }

    pub fn read(&self) -> (v: u8)
        requires
            self.wf(),
        ensures
            v == self.pack(),
    {
        self.shift_step + 8 * bit_of(self.direction) + 16 * self.pace
    }

    pub fn write(&mut self, v: u8)
        ensures
            *final(self) == Self::unpack(v),
            final(self).wf(),
    {
        *self = Self::new(v);
    }
}

/// Length timer and duty cycle (NRx1).
#[derive(Clone, Copy, Debug, PartialEq, Eq, Structural)]
pub struct AudioNx1 {
    pub length_period: u8,
    pub wave_duty: u8,
}

impl AudioNx1 {
    pub open spec fn wf(self) -> bool {
        self.length_period < 64 && self.wave_duty < 4
    }

    /// Tells whether every field is within its width.
    pub fn check(&self) -> (ok: bool)
        ensures
            ok == self.wf(),
    {
        self.length_period < 64 && self.wave_duty < 4
    }

    /// The fields held in the bits of `v`.
    pub open spec fn unpack(v: u8) -> AudioNx1 {
        AudioNx1 {
            length_period: v % 64,
            wave_duty: (v / 64) % 4,
        }
    }

    /// The register value; bits that belong to no field are zero.
    pub open spec fn pack(self) -> int {
        self.length_period + 64 * self.wave_duty
    }

    pub fn new(v: u8) -> (r: AudioNx1)
        ensures
            r == Self::unpack(v),
            r.wf(),
    {
        AudioNx1 {
            length_period: v % 64,
            wave_duty: (v / 64) % 4,
        }
    }

    pub fn read(&self) -> (v: u8)
        requires
            self.wf(),
        ensures
            v == self.pack(),
    {
        self.length_period + 64 * self.wave_duty
    }

    pub fn write(&mut self, v: u8)
        ensures
            *final(self) == Self::unpack(v),
            final(self).wf(),
    {
        *self = Self::new(v);
    }
}

/// Volume and envelope (NRx2).
#[derive(Clone, Copy, Debug, PartialEq, Eq, Structural)]
pub struct AudioNx2 {
    pub pace: u8,
    pub direction: bool,
    pub initial_volume: u8,
}

impl AudioNx2 {
    pub open spec fn wf(self) -> bool {
        self.pace < 8 && self.initial_volume < 16
    }

    /// Tells whether every field is within its width.
    pub fn check(&self) -> (ok: bool)
        ensures
            ok == self.wf(),
    {
        self.pace < 8 && self.initial_volume < 16
    }

    /// The fields held in the bits of `v`.
    pub open spec fn unpack(v: u8) -> AudioNx2 {
        AudioNx2 {
            pace: v % 8,
            direction: (v / 8) % 2 == 1,
            initial_volume: (v / 16) % 16,
        }
    }

    /// The register value; bits that belong to no field are zero.
    pub open spec fn pack(self) -> int {
        self.pace + 8 * bit(self.direction) + 16 * self.initial_volume
    }

    pub fn new(v: u8) -> (r: AudioNx2)
        ensures
            r == Self::unpack(v),
            r.wf(),
    {
        AudioNx2 {
            pace: v % 8,
            direction: (v / 8) % 2 == 1,
            initial_volume: (v / 16) % 16,
        }
    }

    pub fn read(&self) -> (v: u8)
        requires
            self.wf(),
        ensures
            v == self.pack(),
    {
        self.pace + 8 * bit_of(self.direction) + 16 * self.initial_volume
    }

    pub fn write(&mut self, v: u8)
        ensures
            *final(self) == Self::unpack(v),
            final(self).wf(),
    {
        *self = Self::new(v);
    }
}

/// Period high bits and control (NRx4).
#[derive(Clone, Copy, Debug, PartialEq, Eq, Structural)]
pub struct AudioNx4 {
    pub period_high: u8,
    pub length_timer_enable: bool,
    pub trigger: bool,
}

impl AudioNx4 {
    pub open spec fn wf(self) -> bool {
        self.period_high < 8
    }

    /// Tells whether every field is within its width.
    pub fn check(&self) -> (ok: bool)
        ensures
            ok == self.wf(),
    {
        self.period_high < 8
    }

    /// The fields held in the bits of `v`.
    pub open spec fn unpack(v: u8) -> AudioNx4 {
        AudioNx4 {
            period_high: v % 8,
            length_timer_enable: (v / 64) % 2 == 1,
            trigger: (v / 128) % 2 == 1,
        }
    }

    /// The register value; bits that belong to no field are zero.
    pub open spec fn pack(self) -> int {
        self.period_high + 64 * bit(self.length_timer_enable) + 128 * bit(self.trigger)
    }

    pub fn new(v: u8) -> (r: AudioNx4)
        ensures
            r == Self::unpack(v),
            r.wf(),
    {
        AudioNx4 {
            period_high: v % 8,
            length_timer_enable: (v / 64) % 2 == 1,
            trigger: (v / 128) % 2 == 1,
        }
    }

    pub fn read(&self) -> (v: u8)
        requires
            self.wf(),
        ensures
            v == self.pack(),
    {
        self.period_high + 64 * bit_of(self.length_timer_enable) + 128 * bit_of(self.trigger)
    }

    pub fn write(&mut self, v: u8)
        ensures
            *final(self) == Self::unpack(v),
            final(self).wf(),
    {
        *self = Self::new(v);
    }
}

/// Wave channel DAC enable (NR30).
#[derive(Clone, Copy, Debug, PartialEq, Eq, Structural)]
pub struct AudioN30 {
    pub dac_on: bool,
}

impl AudioN30 {
    pub open spec fn wf(self) -> bool {
        true
    }

    /// Tells whether every field is within its width.
    pub fn check(&self) -> (ok: bool)
        ensures
            ok == self.wf(),
    {
        true
    }

    /// The fields held in the bits of `v`.
    pub open spec fn unpack(v: u8) -> AudioN30 {
        AudioN30 {
            dac_on: (v / 128) % 2 == 1,
        }
    }

    /// The register value; bits that belong to no field are zero.
    pub open spec fn pack(self) -> int {
        128 * bit(self.dac_on)
    }

    pub fn new(v: u8) -> (r: AudioN30)
        ensures
            r == Self::unpack(v),
            r.wf(),
    {
        AudioN30 {
            dac_on: (v / 128) % 2 == 1,
        }
    }

    pub fn read(&self) -> (v: u8)
        requires
            self.wf(),
        ensures
            v == self.pack(),
    {
        128 * bit_of(self.dac_on)
    }

    pub fn write(&mut self, v: u8)
        ensures
            *final(self) == Self::unpack(v),
            final(self).wf(),
    {
        *self = Self::new(v);
    }
}

/// Wave channel output level (NR32).
#[derive(Clone, Copy, Debug, PartialEq, Eq, Structural)]
pub struct AudioN32 {
    pub output_level: u8,
}

impl AudioN32 {
    pub open spec fn wf(self) -> bool {
        self.output_level < 4
    }

    /// Tells whether every field is within its width.
    pub fn check(&self) -> (ok: bool)
        ensures
            ok == self.wf(),
    {
        self.output_level < 4
    }

    /// The fields held in the bits of `v`.
    pub open spec fn unpack(v: u8) -> AudioN32 {
        AudioN32 {
            output_level: (v / 32) % 4,
        }
    }

    /// The register value; bits that belong to no field are zero.
    pub open spec fn pack(self) -> int {
        32 * self.output_level
    }

    pub fn new(v: u8) -> (r: AudioN32)
        ensures
            r == Self::unpack(v),
            r.wf(),
    {
        AudioN32 {
            output_level: (v / 32) % 4,
        }
    }

    pub fn read(&self) -> (v: u8)
        requires
            self.wf(),
        ensures
            v == self.pack(),
    {
        32 * self.output_level
    }

    pub fn write(&mut self, v: u8)
        ensures
            *final(self) == Self::unpack(v),
            final(self).wf(),
    {
        *self = Self::new(v);
    }
}

/// Noise frequency and randomness (NR43).
#[derive(Clone, Copy, Debug, PartialEq, Eq, Structural)]
pub struct AudioN43 {
    pub clock_divider: u8,
    pub lfsr_width: bool,
    pub clock_shift: u8,
}

impl AudioN43 {
    pub open spec fn wf(self) -> bool {
        self.clock_divider < 8 && self.clock_shift < 16
    }

    /// Tells whether every field is within its width.
    pub fn check(&self) -> (ok: bool)
        ensures
            ok == self.wf(),
    {
        self.clock_divider < 8 && self.clock_shift < 16
    }

    /// The fields held in the bits of `v`.
    pub open spec fn unpack(v: u8) -> AudioN43 {
        AudioN43 {
            clock_divider: v % 8,
            lfsr_width: (v / 8) % 2 == 1,
            clock_shift: (v / 16) % 16,
        }
    }

    /// The register value; bits that belong to no field are zero.
    pub open spec fn pack(self) -> int {
        self.clock_divider + 8 * bit(self.lfsr_width) + 16 * self.clock_shift
    }

    pub fn new(v: u8) -> (r: AudioN43)
        ensures
            r == Self::unpack(v),
            r.wf(),
    {
        AudioN43 {
            clock_divider: v % 8,
            lfsr_width: (v / 8) % 2 == 1,
            clock_shift: (v / 16) % 16,
        }
    }

    pub fn read(&self) -> (v: u8)
        requires
            self.wf(),
        ensures
            v == self.pack(),
    {
        self.clock_divider + 8 * bit_of(self.lfsr_width) + 16 * self.clock_shift
    }

    pub fn write(&mut self, v: u8)
        ensures
            *final(self) == Self::unpack(v),
            final(self).wf(),
    {
        *self = Self::new(v);
    }
}

/// Attribute byte of an object.
#[derive(Clone, Copy, Debug, PartialEq, Eq, Structural)]
pub struct OamAttrs {
    pub cgb_palette: u8,
    pub bank: bool,
    pub dmg_palette: bool,
    pub xflip: bool,
    pub yflip: bool,
    pub bg_priority: bool,
}

impl OamAttrs {
    pub open spec fn wf(self) -> bool {
        self.cgb_palette < 8
    }

    /// Tells whether every field is within its width.
    pub fn check(&self) -> (ok: bool)
        ensures
            ok == self.wf(),
    {
        self.cgb_palette < 8
    }

    /// The fields held in the bits of `v`.
    pub open spec fn unpack(v: u8) -> OamAttrs {
        OamAttrs {
            cgb_palette: v % 8,
            bank: (v / 8) % 2 == 1,
            dmg_palette: (v / 16) % 2 == 1,
            xflip: (v / 32) % 2 == 1,
            yflip: (v / 64) % 2 == 1,
            bg_priority: (v / 128) % 2 == 1,
        }
    }

    /// The register value; bits that belong to no field are zero.
    pub open spec fn pack(self) -> int {
        self.cgb_palette + 8 * bit(self.bank) + 16 * bit(self.dmg_palette) + 32 * bit(self.xflip) + 64 * bit(self.yflip) + 128 * bit(self.bg_priority)
    }

    pub fn new(v: u8) -> (r: OamAttrs)
        ensures
            r == Self::unpack(v),
            r.wf(),
    {
        OamAttrs {
            cgb_palette: v % 8,
            bank: (v / 8) % 2 == 1,
            dmg_palette: (v / 16) % 2 == 1,
            xflip: (v / 32) % 2 == 1,
            yflip: (v / 64) % 2 == 1,
            bg_priority: (v / 128) % 2 == 1,
        }
    }

    pub fn read(&self) -> (v: u8)
        requires
            self.wf(),
        ensures
            v == self.pack(),
    {
        self.cgb_palette + 8 * bit_of(self.bank) + 16 * bit_of(self.dmg_palette) + 32 * bit_of(self.xflip) + 64 * bit_of(self.yflip) + 128 * bit_of(self.bg_priority)
    }

    pub fn write(&mut self, v: u8)
        ensures
            *final(self) == Self::unpack(v),
            final(self).wf(),
    {
        *self = Self::new(v);
    }
}

/// Attribute byte of a background map entry (colour mode only).
#[derive(Clone, Copy, Debug, PartialEq, Eq, Structural)]
pub struct BgMapAttr {
    pub palette: u8,
    pub bank: bool,
    pub xflip: bool,
    pub yflip: bool,
    pub priority: bool,
}

impl BgMapAttr {
    pub open spec fn wf(self) -> bool {
        self.palette < 8
    }

    /// Tells whether every field is within its width.
    pub fn check(&self) -> (ok: bool)
        ensures
            ok == self.wf(),
    {
        self.palette < 8
    }

    /// The fields held in the bits of `v`.
    pub open spec fn unpack(v: u8) -> BgMapAttr {
        BgMapAttr {
            palette: v % 8,
            bank: (v / 8) % 2 == 1,
            xflip: (v / 32) % 2 == 1,
            yflip: (v / 64) % 2 == 1,
            priority: (v / 128) % 2 == 1,
        }
    }

    /// The register value; bits that belong to no field are zero.
    pub open spec fn pack(self) -> int {
        self.palette + 8 * bit(self.bank) + 32 * bit(self.xflip) + 64 * bit(self.yflip) + 128 * bit(self.priority)
    }

    pub fn new(v: u8) -> (r: BgMapAttr)
        ensures
            r == Self::unpack(v),
            r.wf(),
    {
        BgMapAttr {
            palette: v % 8,
            bank: (v / 8) % 2 == 1,
            xflip: (v / 32) % 2 == 1,
            yflip: (v / 64) % 2 == 1,
            priority: (v / 128) % 2 == 1,
        }
    }

    pub fn read(&self) -> (v: u8)
        requires
            self.wf(),
        ensures
            v == self.pack(),
    {
        self.palette + 8 * bit_of(self.bank) + 32 * bit_of(self.xflip) + 64 * bit_of(self.yflip) + 128 * bit_of(self.priority)
    }

    pub fn write(&mut self, v: u8)
        ensures
            *final(self) == Self::unpack(v),
            final(self).wf(),
    {
        *self = Self::new(v);
    }
}

/// Upper day bit and control flags of the MBC3 clock.
#[derive(Clone, Copy, Debug, PartialEq, Eq, Structural)]
pub struct RtcCtrlReg {
    pub day: bool,
    pub halt: bool,
    pub overflow: bool,
}

impl RtcCtrlReg {
    pub open spec fn wf(self) -> bool {
        true
    }

    /// Tells whether every field is within its width.
    pub fn check(&self) -> (ok: bool)
        ensures
            ok == self.wf(),
    {
        true
    }

    /// The fields held in the bits of `v`.
    pub open spec fn unpack(v: u8) -> RtcCtrlReg {
        RtcCtrlReg {
            day: v % 2 == 1,
            halt: (v / 64) % 2 == 1,
            overflow: (v / 128) % 2 == 1,
        }
    }

    /// The register value; bits that belong to no field are zero.
    pub open spec fn pack(self) -> int {
        bit(self.day) + 64 * bit(self.halt) + 128 * bit(self.overflow)
    }

    pub fn new(v: u8) -> (r: RtcCtrlReg)
        ensures
            r == Self::unpack(v),
            r.wf(),
    {
        RtcCtrlReg {
            day: v % 2 == 1,
            halt: (v / 64) % 2 == 1,
            overflow: (v / 128) % 2 == 1,
        }
    }

    pub fn read(&self) -> (v: u8)
        requires
            self.wf(),
        ensures
            v == self.pack(),
    {
        bit_of(self.day) + 64 * bit_of(self.halt) + 128 * bit_of(self.overflow)
    }

    pub fn write(&mut self, v: u8)
        ensures
            *final(self) == Self::unpack(v),
            final(self).wf(),
    {
        *self = Self::new(v);
    }
}

/// The F register: zero, subtract, half-carry and carry.
#[derive(Clone, Copy, Debug, PartialEq, Eq, Structural)]
pub struct Flags {
    pub c: bool,
    pub h: bool,
    pub n: bool,
    pub z: bool,
}

impl Flags {
    pub open spec fn wf(self) -> bool {
        true
    }

    /// Tells whether every field is within its width.
    pub fn check(&self) -> (ok: bool)
        ensures
            ok == self.wf(),
    {
        true
    }

    /// The fields held in the bits of `v`.
    pub open spec fn unpack(v: u8) -> Flags {
        Flags {
            c: (v / 16) % 2 == 1,
            h: (v / 32) % 2 == 1,
            n: (v / 64) % 2 == 1,
            z: (v / 128) % 2 == 1,
        }
    }

    /// The register value; bits that belong to no field are zero.
    pub open spec fn pack(self) -> int {
        16 * bit(self.c) + 32 * bit(self.h) + 64 * bit(self.n) + 128 * bit(self.z)
    }

    pub fn new(v: u8) -> (r: Flags)
        ensures
            r == Self::unpack(v),
            r.wf(),
    {
        Flags {
            c: (v / 16) % 2 == 1,
            h: (v / 32) % 2 == 1,
            n: (v / 64) % 2 == 1,
            z: (v / 128) % 2 == 1,
        }
    }

    pub fn read(&self) -> (v: u8)
        requires
            self.wf(),
        ensures
            v == self.pack(),
    {
        16 * bit_of(self.c) + 32 * bit_of(self.h) + 64 * bit_of(self.n) + 128 * bit_of(self.z)
    }

    pub fn write(&mut self, v: u8)
        ensures
            *final(self) == Self::unpack(v),
            final(self).wf(),
    {
        *self = Self::new(v);
    }
}

impl IntrBits {
    /// Bitwise AND of two sets of interrupt bits.
    pub open spec fn spec_masked(self, mask: IntrBits) -> IntrBits {
        IntrBits {
            vblank: self.vblank && mask.vblank,
            stat: self.stat && mask.stat,
            timer: self.timer && mask.timer,
            serial: self.serial && mask.serial,
            joypad: self.joypad && mask.joypad,
        }
    }

    /// Bitwise OR of two sets of interrupt bits.
    pub open spec fn spec_merged(self, other: IntrBits) -> IntrBits {
        IntrBits {
            vblank: self.vblank || other.vblank,
            stat: self.stat || other.stat,
            timer: self.timer || other.timer,
            serial: self.serial || other.serial,
            joypad: self.joypad || other.joypad,
        }
    }

    pub open spec fn none() -> IntrBits {
        IntrBits { vblank: false, stat: false, timer: false, serial: false, joypad: false }
    }

    pub open spec fn any(self) -> bool {
        self.vblank || self.stat || self.timer || self.serial || self.joypad
    }

    pub fn masked(self, mask: IntrBits) -> (r: IntrBits)
        ensures
            r == self.spec_masked(mask),
    {
        IntrBits {
            vblank: self.vblank && mask.vblank,
            stat: self.stat && mask.stat,
            timer: self.timer && mask.timer,
            serial: self.serial && mask.serial,
            joypad: self.joypad && mask.joypad,
        }
    }

    pub fn merged(self, other: IntrBits) -> (r: IntrBits)
        ensures
            r == self.spec_merged(other),
    {
        IntrBits {
            vblank: self.vblank || other.vblank,
            stat: self.stat || other.stat,
            timer: self.timer || other.timer,
            serial: self.serial || other.serial,
            joypad: self.joypad || other.joypad,
        }
    }

    pub fn is_any(self) -> (r: bool)
        ensures
            r == self.any(),
    {
        self.vblank || self.stat || self.timer || self.serial || self.joypad
    }
}

/// A 15-bit colour of the colour palettes: five bits each of red, green, blue.
#[derive(Clone, Copy, Debug, PartialEq, Eq, Structural)]
pub struct CgbColor {
    pub red: u16,
    pub green: u16,
    pub blue: u16,
}

impl CgbColor {
    pub open spec fn wf(self) -> bool {
        self.red < 32 && self.green < 32 && self.blue < 32
    }

    pub open spec fn unpack(v: u16) -> CgbColor {
        CgbColor { red: v % 32, green: (v / 32) % 32, blue: (v / 1024) % 32 }
    }

    pub fn new(v: u16) -> (r: CgbColor)
        ensures
            r == Self::unpack(v),
            r.wf(),
    {
        CgbColor { red: v % 32, green: (v / 32) % 32, blue: (v / 1024) % 32 }
    }
}

} // verus!
