//! The picture unit: it walks through the scan lines of a frame, scans the
//! objects of each line, lets the fetcher draw it and raises the VBlank and
//! STAT interrupts.
use vstd::prelude::*;
use crate::info::{
    IO_BGP,
    IO_LCDC,
    IO_LY,
    IO_LYC,
    IO_OBP0,
    IO_OBP1,
    IO_SCX,
    IO_SCY,
    IO_STAT,
    IO_WX,
    IO_WY,
    MAX_OBJ_PER_LINE,
    OAM_ENTRIES,
    SCREEN_WIDTH,
    SIZE_CGB_PALETTE,
    SIZE_OAM,
};
use crate::msg::{Color, VideoFrame, FRAME_PIXELS};
use crate::regs::{CgbColor, IntrBits, LcdCtrl, LcdStat};
use fetcher::{FetcherRegs, FetcherView, LineFetcher, Pixel};
use palettes::{dmg_palette, spec_dmg_palette, DEFAULT_MONOCHROME, DMG_PALETTE_COUNT};
use tile::OamEntry;

pub mod fetcher;
pub mod palettes;
pub mod tile;

verus! {

/// Lines that are drawn.
pub const PPU_DRAW_LINES: u8 = 144;

/// Dots of one scan line.
pub const PPU_HSCAN_DOTS: u32 = 456;

/// Lines of the vertical blank.
pub const PPU_VBLANK_LINES: u8 = 10;

/// Lines of one frame.
pub const PPU_FRAME_LINES: u8 = 154;

/// Dots of the object scan at the start of a line.
pub const PPU_SCAN_DOTS: u32 = 80;

#[derive(Clone, Copy, Debug, PartialEq, Eq, Structural)]
pub enum PpuMode {
    HBlank,
    VBlank,
    Scan,
    Draw,
}

impl PpuMode {
    /// The mode as STAT reports it.
    pub open spec fn number(self) -> u8 {
        match self {
            PpuMode::HBlank => 0,
            PpuMode::VBlank => 1,
            PpuMode::Scan => 2,
            PpuMode::Draw => 3,
        }
    }

    pub fn as_number(self) -> (n: u8)
        ensures
            n == self.number(),
            n < 4,
    {
        match self {
            PpuMode::HBlank => 0,
            PpuMode::VBlank => 1,
            PpuMode::Scan => 2,
            PpuMode::Draw => 3,
        }
    }
}

/// Registers and progress of the picture unit.
#[derive(Clone, Copy, Debug, PartialEq, Eq, Structural)]
pub struct PpuRegs {
    pub stat: LcdStat,
    pub ly: u8,
    pub lyc: u8,
    pub bgp: u8,
    pub obp0: u8,
    pub obp1: u8,
    /// The colour scheme for monochrome programs.
    pub dmg_palette_id: usize,
    pub mode: PpuMode,
    /// Dots of the current step that are not consumed yet.
    pub dots_left: u32,
    /// Dots consumed of the current line.
    pub dots_in_line: u32,
    /// The STAT interrupt line; the interrupt is raised when it rises.
    pub stat_intr_line: bool,
}

pub struct Ppu {
    pub regs: PpuRegs,
    pub fetcher: LineFetcher,
    pub oam: Vec<u8>,
    pub bg_palette: Vec<u8>,
    pub obj_palette: Vec<u8>,
    /// The last complete frame.
    pub front: VideoFrame,
    /// The frame being drawn.
    pub back: VideoFrame,
}

pub struct PpuView {
    pub regs: PpuRegs,
    pub fetcher: FetcherView,
    pub oam: Seq<u8>,
    pub bg_palette: Seq<u8>,
    pub obj_palette: Seq<u8>,
    pub front: Seq<Color>,
    pub back: Seq<Color>,
}

/// The STAT interrupt line: the OR of the sources that are enabled in STAT.
pub open spec fn spec_stat_interrupt(stat: LcdStat, mode: PpuMode, lyc: u8, ly: u8) -> bool {
    ||| stat.lyc_int && lyc == ly
    ||| stat.mode0 && mode == PpuMode::HBlank
    ||| stat.mode1 && mode == PpuMode::VBlank
    ||| stat.mode2 && mode == PpuMode::Scan
}

pub fn calc_stat_interrupt(stat: LcdStat, mode: PpuMode, lyc: u8, ly: u8) -> (r: bool)
    ensures
        r == spec_stat_interrupt(stat, mode, lyc, ly),
{
    let ret = stat.lyc_int && lyc == ly;
    match mode {
        PpuMode::HBlank => stat.mode0 || ret,
        PpuMode::VBlank => stat.mode1 || ret,
        PpuMode::Scan => stat.mode2 || ret,
        PpuMode::Draw => ret,
    }
}

/// Entry `idx` of the object attribute memory.
pub open spec fn spec_oam_entry(oam: Seq<u8>, idx: int) -> OamEntry {
    OamEntry {
        ypos: oam[idx * 4],
        xpos: oam[idx * 4 + 1],
        tile_id: oam[idx * 4 + 2],
        attrs: crate::regs::OamAttrs::unpack(oam[idx * 4 + 3]),
    }
}

pub fn get_oam_entry(oam: &Vec<u8>, idx: usize) -> (e: OamEntry)
    requires
        oam.len() == SIZE_OAM,
        idx < OAM_ENTRIES,
    ensures
        e == spec_oam_entry(oam@, idx as int),
{
    OamEntry::from_array([oam[idx * 4], oam[idx * 4 + 1], oam[idx * 4 + 2], oam[idx * 4 + 3]])
}

/// A five-bit colour component stretched to eight bits.
pub open spec fn scale5(x: u16) -> u8 {
    (x * 8 + x / 4) as u8
}

/// The colour of a 15-bit palette entry.
pub open spec fn spec_cgb_to_color(cgb_color: u16) -> Color {
    let c = CgbColor::unpack(cgb_color);
    Color { r: scale5(c.red), g: scale5(c.green), b: scale5(c.blue) }
}

pub fn cgb_to_color(cgb_color: u16) -> (c: Color)
    ensures
        c == spec_cgb_to_color(cgb_color),
{
    let c = CgbColor::new(cgb_color);
    Color {
        r: (c.red * 8 + c.red / 4) as u8,
        g: (c.green * 8 + c.green / 4) as u8,
        b: (c.blue * 8 + c.blue / 4) as u8,
    }
}

/// Shade that a monochrome palette register gives to colour number `color_id`.
pub open spec fn dmg_shade(palette: u8, color_id: u8) -> u8 {
    if color_id % 4 == 0 {
        palette % 4
    } else if color_id % 4 == 1 {
        (palette / 4) % 4
    } else if color_id % 4 == 2 {
        (palette / 16) % 4
    } else {
        palette / 64
    }
}

fn shade_of(palette: u8, color_id: u8) -> (s: u8)
    ensures
        s == dmg_shade(palette, color_id),
{
    match color_id % 4 {
        0 => palette % 4,
        1 => (palette / 4) % 4,
        2 => (palette / 16) % 4,
        _ => palette / 64,
    }
}

/// The next colour scheme in the given direction, cyclically.
pub open spec fn next_palette_id(id: usize, direction: i8) -> usize {
    if direction > 0 {
        ((id % DMG_PALETTE_COUNT + 1) % (DMG_PALETTE_COUNT as int)) as usize
    } else {
        ((id % DMG_PALETTE_COUNT + DMG_PALETTE_COUNT - 1) % (DMG_PALETTE_COUNT as int)) as usize
    }
}

impl PpuRegs {
    pub open spec fn initial() -> PpuRegs {
        PpuRegs {
            stat: LcdStat::unpack(0),
            ly: 0,
            lyc: 0,
            bgp: 0,
            obp0: 0,
            obp1: 0,
            dmg_palette_id: DEFAULT_MONOCHROME,
            mode: PpuMode::Scan,
            dots_left: 0,
            dots_in_line: 0,
            stat_intr_line: false,
        }
    }

    /// The position within the frame fits the mode: lines 0 to 143 are
    /// scanned and drawn, lines 144 to 153 are the vertical blank, and the
    /// object scan takes the first 80 dots of a line.
    pub open spec fn timed(self) -> bool {
        &&& self.dots_in_line < PPU_HSCAN_DOTS
        &&& self.dots_in_line % 2 == 0
        &&& self.dots_left % 2 == 0
        &&& match self.mode {
            PpuMode::VBlank => PPU_DRAW_LINES <= self.ly < PPU_FRAME_LINES,
            PpuMode::Scan => self.ly < PPU_DRAW_LINES && self.dots_in_line < PPU_SCAN_DOTS,
            _ => self.ly < PPU_DRAW_LINES,
        }
    }

    /// Position within the frame, in dots.
    pub open spec fn frame_dot(self) -> int {
        self.ly * PPU_HSCAN_DOTS + self.dots_in_line
    }

    /// The registers after up to `dots` dots are consumed, and whether the
    /// line ended: a step never runs past the end of its line.
    pub open spec fn after_eat(self, dots: u32) -> (PpuRegs, bool) {
        if self.dots_in_line + dots >= PPU_HSCAN_DOTS {
            (
                PpuRegs {
                    dots_left: (self.dots_left - (PPU_HSCAN_DOTS - self.dots_in_line)) as u32,
                    dots_in_line: 0,
                    ly: (self.ly + 1) as u8,
                    ..self
                },
                true,
            )
        } else {
            (
                PpuRegs {
                    dots_in_line: (self.dots_in_line + dots) as u32,
                    dots_left: (self.dots_left - dots) as u32,
                    ..self
                },
                false,
            )
        }
    }

    /// The registers once a step has led to `new_mode`, and the interrupts
    /// this raises: VBlank on entering that mode, STAT when its line rises.
    pub open spec fn after_lcd_update(self, new_mode: PpuMode) -> (PpuRegs, IntrBits) {
        let line = spec_stat_interrupt(self.stat, new_mode, self.lyc, self.ly);
        (
            PpuRegs {
                stat_intr_line: line,
                stat: LcdStat {
                    ppu_mode: new_mode.number(),
                    ly_eq_lyc: self.lyc == self.ly,
                    ..self.stat
                },
                mode: new_mode,
                ..self
            },
            IntrBits {
                vblank: new_mode != self.mode && new_mode == PpuMode::VBlank,
                stat: !self.stat_intr_line && line,
                ..IntrBits::none()
            },
        )
    }

    /// The registers of a switched-off unit.
    pub open spec fn after_reset(self) -> PpuRegs {
        PpuRegs {
            stat: LcdStat { ppu_mode: 0, ..self.stat },
            ly: 0,
            dots_in_line: 0,
            mode: PpuMode::Scan,
            ..self
        }
    }
}

impl PpuView {
    /// The unit of a machine that was just switched on.
    pub open spec fn initial(is_cgb: bool) -> PpuView {
        PpuView {
            regs: PpuRegs::initial(),
            fetcher: FetcherView::initial(is_cgb),
            oam: Seq::new(SIZE_OAM as nat, |i: int| 0u8),
            bg_palette: Seq::new(SIZE_CGB_PALETTE as nat, |i: int| 0u8),
            obj_palette: Seq::new(SIZE_CGB_PALETTE as nat, |i: int| 0u8),
            front: Seq::new(FRAME_PIXELS as nat, |i: int| Color::black()),
            back: Seq::new(FRAME_PIXELS as nat, |i: int| Color::black()),
        }
    }

    /// The 15-bit colour of a pixel in colour mode.
    pub open spec fn cgb_color(self, is_obj: bool, color_id: u8, palette_index: u8) -> u16 {
        let idx = (palette_index % 8) * 8 + (color_id % 4) * 2;
        if is_obj {
            (self.obj_palette[idx] + 256 * self.obj_palette[idx + 1]) as u16
        } else {
            (self.bg_palette[idx] + 256 * self.bg_palette[idx + 1]) as u16
        }
    }

    /// The colour of a pixel: looked up in palette memory in colour mode;
    /// else the palette register of the pixel's layer gives the shade and
    /// the colour scheme gives its colour.
    pub open spec fn color_of(self, px: Pixel) -> Color {
        if self.fetcher.regs.is_cgb {
            spec_cgb_to_color(self.cgb_color(px.is_obj, px.color_id, px.palette))
        } else {
            let scheme = spec_dmg_palette(self.regs.dmg_palette_id);
            if !px.is_obj {
                scheme.bg.spec_pick(dmg_shade(self.regs.bgp, px.color_id))
            } else if px.palette == 0 {
                scheme.obj0.spec_pick(dmg_shade(self.regs.obp0, px.color_id))
            } else {
                scheme.obj1.spec_pick(dmg_shade(self.regs.obp1, px.color_id))
            }
        }
    }

    /// The frame being drawn with the finished screen line stored as row `ly`.
    pub open spec fn back_with_line(self, ly: u8) -> Seq<Color> {
        Seq::new(
            FRAME_PIXELS as nat,
            |i: int|
                if i / (SCREEN_WIDTH as int) == ly {
                    self.color_of(self.fetcher.screen_line[i % (SCREEN_WIDTH as int)])
                } else {
                    self.back[i]
                },
        )
    }

    /// The unit at the end of a line that was drawn: after the last drawn
    /// line the finished frame is swapped to the front and the vertical
    /// blank begins; else the next line is scanned.
    pub open spec fn after_line_end(self) -> (PpuView, PpuMode) {
        if self.regs.ly == PPU_DRAW_LINES {
            (PpuView { front: self.back, back: self.front, ..self }, PpuMode::VBlank)
        } else {
            (self, PpuMode::Scan)
        }
    }

    /// A step of the object scan: two dots for one entry of OAM. The first
    /// step of a line resets the fetcher. The entry is kept if it covers
    /// the line and fewer than ten are kept already. After forty entries,
    /// which is eighty dots, drawing begins.
    pub open spec fn after_scan_step(self) -> (PpuView, PpuMode) {
        let idx = self.regs.dots_in_line as int / 2;
        let (regs, _) = self.regs.after_eat(2);
        let f0 = if idx == 0 {
            self.fetcher.after_new_line(self.regs.ly)
        } else {
            self.fetcher
        };
        let obj = spec_oam_entry(self.oam, idx);
        let f1 = if idx < OAM_ENTRIES && f0.objects.len() < MAX_OBJ_PER_LINE && obj.covers(
            self.regs.ly,
            f0.regs.lcdc.obj_size,
        ) {
            FetcherView { objects: f0.objects.push(obj), ..f0 }
        } else {
            f0
        };
        (
            PpuView { regs, fetcher: f1, ..self },
            if idx + 1 >= OAM_ENTRIES {
                PpuMode::Draw
            } else {
                PpuMode::Scan
            },
        )
    }

    /// A step of drawing: two dots of the fetcher. When the line is
    /// complete it is stored in the frame and the horizontal blank begins.
    /// Should the line end first, the unit moves on as at the end of a
    /// horizontal blank.
    pub open spec fn after_draw_step(self) -> (PpuView, PpuMode) {
        let (regs, ended) = self.regs.after_eat(2);
        let f = self.fetcher.after_tick();
        let v = PpuView { regs, fetcher: f, ..self };
        let w = if f.done() {
            PpuView { back: v.back_with_line(self.regs.ly), ..v }
        } else {
            v
        };
        if ended {
            w.after_line_end()
        } else if f.done() {
            (w, PpuMode::HBlank)
        } else {
            (w, PpuMode::Draw)
        }
    }

    /// A step of the horizontal blank: it takes all dots up to the end of the line.
    pub open spec fn after_hblank_step(self) -> (PpuView, PpuMode) {
        let (regs, ended) = self.regs.after_eat(self.regs.dots_left);
        let v = PpuView { regs, ..self };
        if ended {
            v.after_line_end()
        } else {
            (v, PpuMode::HBlank)
        }
    }

    /// A step of the vertical blank; after its last line the next frame begins.
    pub open spec fn after_vblank_step(self) -> (PpuView, PpuMode) {
        let (regs, ended) = self.regs.after_eat(self.regs.dots_left);
        if regs.ly == PPU_FRAME_LINES {
            (PpuView { regs: PpuRegs { dots_in_line: 0, ly: 0, ..regs }, ..self }, PpuMode::Scan)
        } else {
            (PpuView { regs, ..self }, PpuMode::VBlank)
        }
    }

    /// One step in the current mode, with the interrupts it raises.
    pub open spec fn after_step(self) -> (PpuView, IntrBits) {
        let (v, mode) = match self.regs.mode {
            PpuMode::HBlank => self.after_hblank_step(),
            PpuMode::VBlank => self.after_vblank_step(),
            PpuMode::Scan => self.after_scan_step(),
            PpuMode::Draw => self.after_draw_step(),
        };
        let (regs, intr) = v.regs.after_lcd_update(mode);
        (PpuView { regs, ..v }, intr)
    }

    /// Steps until no dots are left, at most `fuel` of them, with all
    /// interrupts raised on the way.
    pub open spec fn after_steps(self, fuel: nat) -> (PpuView, IntrBits)
        decreases fuel,
    {
        if fuel == 0 || self.regs.dots_left == 0 {
            (self, IntrBits::none())
        } else {
            let (v, i1) = self.after_step();
            let (w, i2) = v.after_steps((fuel - 1) as nat);
            (w, i1.spec_merged(i2))
        }
    }

    /// The unit after `dots` more dots. A unit that LCDC switches off is
    /// reset and idles. Every step takes at least two dots, so `dots`
    /// steps are always enough to consume them all.
    #[verifier::opaque]
    pub open spec fn after_tick(self, dots: u32) -> (PpuView, IntrBits) {
        if !self.fetcher.regs.lcdc.ppu_enable {
            (PpuView { regs: self.regs.after_reset(), ..self }, IntrBits::none())
        } else {
            (PpuView {
                regs: PpuRegs { dots_left: (self.regs.dots_left + dots) as u32, ..self.regs },
                ..self
            }).after_steps(dots as nat)
        }
    }

    /// What a read of the LCD register at `addr` returns; zero where there is none.
    pub open spec fn reg_value(self, addr: u16) -> int {
        if addr == IO_LCDC {
            self.fetcher.regs.lcdc.pack()
        } else if addr == IO_STAT {
            self.regs.stat.pack()
        } else if addr == IO_SCY {
            self.fetcher.regs.scy as int
        } else if addr == IO_SCX {
            self.fetcher.regs.scx as int
        } else if addr == IO_LY {
            self.regs.ly as int
        } else if addr == IO_LYC {
            self.regs.lyc as int
        } else if addr == IO_WY {
            self.fetcher.regs.wy as int
        } else if addr == IO_WX {
            self.fetcher.regs.wx as int
        } else if addr == IO_BGP {
            self.regs.bgp as int
        } else if addr == IO_OBP0 {
            self.regs.obp0 as int
        } else if addr == IO_OBP1 {
            self.regs.obp1 as int
        } else {
            0
        }
    }

    /// The registers of the fetcher after a write to an LCD register.
    pub open spec fn fetcher_regs_after_write(self, addr: u16, v: u8) -> FetcherRegs {
        let r = self.fetcher.regs;
        if addr == IO_LCDC {
            FetcherRegs { lcdc: LcdCtrl::unpack(v), ..r }
        } else if addr == IO_SCY {
            FetcherRegs { scy: v, ..r }
        } else if addr == IO_SCX {
            FetcherRegs { scx: v, ..r }
        } else if addr == IO_WY {
            FetcherRegs { wy: v, ..r }
        } else if addr == IO_WX {
            FetcherRegs { wx: v, ..r }
        } else {
            r
        }
    }

    /// The registers of the unit after a write to an LCD register. LY is
    /// read-only, and so are the mode and the LY==LYC flag in STAT.
    pub open spec fn regs_after_write(self, addr: u16, v: u8) -> PpuRegs {
        let r = self.regs;
        if addr == IO_STAT {
            PpuRegs {
                stat: LcdStat {
                    ppu_mode: r.stat.ppu_mode,
                    ly_eq_lyc: r.stat.ly_eq_lyc,
                    ..LcdStat::unpack(v)
                },
                ..r
            }
        } else if addr == IO_LYC {
            PpuRegs { lyc: v, ..r }
        } else if addr == IO_BGP {
            PpuRegs { bgp: v, ..r }
        } else if addr == IO_OBP0 {
            PpuRegs { obp0: v, ..r }
        } else if addr == IO_OBP1 {
            PpuRegs { obp1: v, ..r }
        } else {
            r
        }
    }

    /// The unit after the CPU writes `v` to the LCD register at `addr`.
    pub open spec fn after_write_reg(self, addr: u16, v: u8) -> PpuView {
        PpuView {
            regs: self.regs_after_write(addr, v),
            fetcher: FetcherView { regs: self.fetcher_regs_after_write(addr, v), ..self.fetcher },
            ..self
        }
    }

    pub open spec fn after_cycle_palette(self, direction: i8) -> PpuView {
        PpuView {
            regs: PpuRegs {
                dmg_palette_id: next_palette_id(self.regs.dmg_palette_id, direction),
                ..self.regs
            },
            ..self
        }
    }
}

impl View for Ppu {
    type V = PpuView;

    open spec fn view(&self) -> PpuView {
        PpuView {
            regs: self.regs,
            fetcher: self.fetcher@,
            oam: self.oam@,
            bg_palette: self.bg_palette@,
            obj_palette: self.obj_palette@,
            front: self.front@,
            back: self.back@,
        }
    }
}

fn zeroed(n: usize) -> (v: Vec<u8>)
    ensures
        v@ == Seq::new(n as nat, |i: int| 0u8),
{
    let mut v: Vec<u8> = Vec::new();
    let mut i: usize = 0;
    while i < n
        invariant
            i <= n,
            v@ == Seq::new(i as nat, |k: int| 0u8),
        decreases n - i,
    {
        v.push(0);
        i = i + 1;
        assert(v@ =~= Seq::new(i as nat, |k: int| 0u8));
    }
    v
}

impl Ppu {
    /// What holds between steps: the memories have their sizes and the
    /// position within the frame fits the mode.
    pub open spec fn inv(&self) -> bool {
        &&& self.fetcher.wf()
        &&& self.oam@.len() == SIZE_OAM
        &&& self.bg_palette@.len() == SIZE_CGB_PALETTE
        &&& self.obj_palette@.len() == SIZE_CGB_PALETTE
        &&& self.front.wf()
        &&& self.back.wf()
        &&& self.regs.timed()
        &&& self.regs.stat.wf()
    }

    /// What holds between calls of `tick`: no dots are pending.
    pub open spec fn wf(&self) -> bool {
        self.inv() && self.regs.dots_left == 0
    }

    /// Tells whether the unit is well-formed.
    pub fn check(&self) -> (ok: bool)
        ensures
            ok == self.wf(),
    {
        let r = &self.regs;
        let position = match r.mode {
            PpuMode::VBlank => PPU_DRAW_LINES <= r.ly && r.ly < PPU_FRAME_LINES,
            PpuMode::Scan => r.ly < PPU_DRAW_LINES && r.dots_in_line < PPU_SCAN_DOTS,
            _ => r.ly < PPU_DRAW_LINES,
        };
        self.fetcher.check() && self.oam.len() == SIZE_OAM && self.bg_palette.len()
            == SIZE_CGB_PALETTE && self.obj_palette.len() == SIZE_CGB_PALETTE
            && self.front.pixels.len() == FRAME_PIXELS && self.back.pixels.len() == FRAME_PIXELS
            && r.dots_in_line < PPU_HSCAN_DOTS && r.dots_in_line % 2 == 0 && r.dots_left % 2 == 0
            && position && r.stat.check() && r.dots_left == 0
    }

    /// Blanks both frames.
    pub fn remove_frame(&mut self)
        requires
            old(self).wf(),
        ensures
            final(self)@ == (PpuView {
                front: Seq::new(FRAME_PIXELS as nat, |i: int| Color::black()),
                back: Seq::new(FRAME_PIXELS as nat, |i: int| Color::black()),
                ..old(self)@
            }),
            final(self).wf(),
    {
        self.front.set_all(Color { r: 0, g: 0, b: 0 });
        self.back.set_all(Color { r: 0, g: 0, b: 0 });
    }

    pub fn new(is_cgb: bool) -> (p: Ppu)
        ensures
            p.wf(),
            p@ == PpuView::initial(is_cgb),
    {
        Ppu {
            regs: PpuRegs {
                stat: LcdStat::new(0),
                ly: 0,
                lyc: 0,
                bgp: 0,
                obp0: 0,
                obp1: 0,
                dmg_palette_id: DEFAULT_MONOCHROME,
                mode: PpuMode::Scan,
                dots_left: 0,
                dots_in_line: 0,
                stat_intr_line: false,
            },
            fetcher: LineFetcher::new(is_cgb),
            oam: zeroed(SIZE_OAM),
            bg_palette: zeroed(SIZE_CGB_PALETTE),
            obj_palette: zeroed(SIZE_CGB_PALETTE),
            front: VideoFrame::new(),
            back: VideoFrame::new(),
        }
    }

    /// Advances the unit by `dots` dots, an even number, and returns the
    /// interrupts raised.
    pub fn tick(&mut self, dots: u32) -> (intr: IntrBits)
        requires
            old(self).wf(),
            dots % 2 == 0,
        ensures
            (final(self)@, intr) == old(self)@.after_tick(dots),
            final(self).wf(),
    {
        reveal(PpuView::after_tick);
        if !self.fetcher.regs.lcdc.ppu_enable {
            self.reset();
            return IntrBits::new(0);
        }
        self.regs.dots_left = self.regs.dots_left + dots;
        let mut ret = IntrBits::new(0);
        let ghost start = self@;
        let ghost mut fuel: nat = dots as nat;
        while self.regs.dots_left > 0
            invariant
                self.inv(),
                self.regs.dots_left <= fuel,
                ({
                    let (v, i) = self@.after_steps(fuel);
                    let (w, j) = start.after_steps(dots as nat);
                    v == w && ret.spec_merged(i) == j
                }),
            decreases self.regs.dots_left,
        {
            let i = self.step();
            ret = ret.merged(i);
            proof {
                fuel = (fuel - 1) as nat;
            }
        }
        ret
    }

    /// One step in the current mode.
    pub fn step(&mut self) -> (intr: IntrBits)
        requires
            old(self).inv(),
            old(self).regs.dots_left > 0,
        ensures
            (final(self)@, intr) == old(self)@.after_step(),
            final(self).inv(),
            final(self).regs.dots_left + 2 <= old(self).regs.dots_left,
    {
        let mode = match self.regs.mode {
            PpuMode::HBlank => self.step_hblank(),
            PpuMode::VBlank => self.step_vblank(),
            PpuMode::Scan => self.step_scan(),
            PpuMode::Draw => self.step_draw(),
        };
        self.update_lcd_state(mode)
    }

    pub fn read_reg(&self, addr: u16) -> (v: u8)
        requires
            self.regs.stat.wf(),
        ensures
            v == self@.reg_value(addr),
    {
        match addr {
            IO_LCDC => self.fetcher.regs.lcdc.read(),
            IO_STAT => self.regs.stat.read(),
            IO_SCY => self.fetcher.regs.scy,
            IO_SCX => self.fetcher.regs.scx,
            IO_LY => self.regs.ly,
            IO_LYC => self.regs.lyc,
            IO_WY => self.fetcher.regs.wy,
            IO_WX => self.fetcher.regs.wx,
            IO_BGP => self.regs.bgp,
            IO_OBP0 => self.regs.obp0,
            IO_OBP1 => self.regs.obp1,
            _ => 0,
        }
    }

    pub fn write_reg(&mut self, addr: u16, v: u8)
        requires
            old(self).wf(),
        ensures
            final(self)@ == old(self)@.after_write_reg(addr, v),
            final(self).wf(),
    {
        match addr {
            IO_LCDC => self.fetcher.regs.lcdc.write(v),
            IO_STAT => {
                let mode = self.regs.stat.ppu_mode;
                let eq = self.regs.stat.ly_eq_lyc;
                self.regs.stat.write(v);
                self.regs.stat.ppu_mode = mode;
                self.regs.stat.ly_eq_lyc = eq;
            },
            IO_SCY => self.fetcher.regs.scy = v,
            IO_SCX => self.fetcher.regs.scx = v,
            IO_LYC => self.regs.lyc = v,
            IO_WY => self.fetcher.regs.wy = v,
            IO_WX => self.fetcher.regs.wx = v,
            IO_BGP => self.regs.bgp = v,
            IO_OBP0 => self.regs.obp0 = v,
            IO_OBP1 => self.regs.obp1 = v,
            _ => (),
        }
    }

    /// Switches to the next colour scheme (`direction > 0`) or the previous one.
    pub fn cycle_palette(&mut self, direction: i8)
        requires
            direction != 0,
        ensures
            final(self)@ == old(self)@.after_cycle_palette(direction),
            old(self).wf() ==> final(self).wf(),
            old(self).inv() ==> final(self).inv(),
    {
        let id = self.regs.dmg_palette_id % DMG_PALETTE_COUNT;
        self.regs.dmg_palette_id = if direction > 0 {
            (id + 1) % DMG_PALETTE_COUNT
        } else {
            (id + DMG_PALETTE_COUNT - 1) % DMG_PALETTE_COUNT
        };
    }

    /// Copies the last complete frame into `frame`.
    pub fn copy_frame(&self, frame: &mut VideoFrame)
        requires
            self.front.wf(),
        ensures
            final(frame)@ == self@.front,
            final(frame).wf(),
    {
        *frame = self.front.duplicate();
    }

    fn reset(&mut self)
        requires
            old(self).wf(),
        ensures
            final(self)@ == (PpuView { regs: old(self).regs.after_reset(), ..old(self)@ }),
            final(self).wf(),
    {
        self.regs.stat.ppu_mode = 0;
        self.regs.ly = 0;
        self.regs.dots_in_line = 0;
        self.regs.mode = PpuMode::Scan;
    }

    fn line_end(&mut self) -> (mode: PpuMode)
        requires
            old(self).front.wf(),
            old(self).back.wf(),
        ensures
            (final(self)@, mode) == old(self)@.after_line_end(),
            final(self).front.wf(),
            final(self).back.wf(),
            final(self).regs == old(self).regs,
            final(self).fetcher == old(self).fetcher,
            final(self).oam == old(self).oam,
            final(self).bg_palette == old(self).bg_palette,
            final(self).obj_palette == old(self).obj_palette,
    {
        if self.regs.ly == PPU_DRAW_LINES {
            core::mem::swap(&mut self.front, &mut self.back);
            PpuMode::VBlank
        } else {
            PpuMode::Scan
        }
    }

    fn step_scan(&mut self) -> (mode: PpuMode)
        requires
            old(self).inv(),
            old(self).regs.dots_left > 0,
            old(self).regs.mode == PpuMode::Scan,
        ensures
            (final(self)@, mode) == old(self)@.after_scan_step(),
            final(self).regs.after_lcd_update(mode).0.mode == mode,
            holds_in_mode(*final(self), mode),
            final(self).regs.dots_left + 2 <= old(self).regs.dots_left,
    {
        let idx = (self.regs.dots_in_line / 2) as usize;
        let ly = self.regs.ly;
        self.eat_dots(2);
        if idx == 0 {
            self.fetcher.new_line(ly);
        }
        if idx < OAM_ENTRIES {
            let obj = get_oam_entry(&self.oam, idx);
            let height: u16 = if self.fetcher.regs.lcdc.obj_size {
                16
            } else {
                8
            };
            if self.fetcher.objects.len() < MAX_OBJ_PER_LINE && obj.ypos as u16 <= ly as u16 + 16
                && (ly as u16 + 16) < obj.ypos as u16 + height {
                self.fetcher.objects.push(obj);
            }
        }
        if idx + 1 >= OAM_ENTRIES {
            PpuMode::Draw
        } else {
            PpuMode::Scan
        }
    }

    fn step_draw(&mut self) -> (mode: PpuMode)
        requires
            old(self).inv(),
            old(self).regs.dots_left > 0,
            old(self).regs.mode == PpuMode::Draw,
        ensures
            (final(self)@, mode) == old(self)@.after_draw_step(),
            holds_in_mode(*final(self), mode),
            final(self).regs.dots_left + 2 <= old(self).regs.dots_left,
    {
        let ly = self.regs.ly;
        let ended = self.eat_dots(2);
        self.fetcher.tick_2_dots();
        let done = self.fetcher.is_done();
        if done {
            self.store_line(ly);
        }
        if ended {
            self.line_end()
        } else if done {
            PpuMode::HBlank
        } else {
            PpuMode::Draw
        }
    }

    /// Stores the finished screen line as row `ly` of the frame being drawn.
    fn store_line(&mut self, ly: u8)
        requires
            old(self).fetcher.wf(),
            old(self).back.wf(),
            old(self).bg_palette@.len() == SIZE_CGB_PALETTE,
            old(self).obj_palette@.len() == SIZE_CGB_PALETTE,
            ly < PPU_DRAW_LINES,
        ensures
            final(self)@ == (PpuView { back: old(self)@.back_with_line(ly), ..old(self)@ }),
            final(self).back.wf(),
            final(self).regs == old(self).regs,
            final(self).fetcher == old(self).fetcher,
            final(self).oam == old(self).oam,
            final(self).front == old(self).front,
            final(self).bg_palette == old(self).bg_palette,
            final(self).obj_palette == old(self).obj_palette,
    {
        let mut i: usize = 0;
        while i < SCREEN_WIDTH
            invariant
                i <= SCREEN_WIDTH,
                ly < PPU_DRAW_LINES,
                self.back.wf(),
                self.regs == old(self).regs,
                self.fetcher == old(self).fetcher,
                self.oam == old(self).oam,
                self.front == old(self).front,
                self.bg_palette == old(self).bg_palette,
                self.obj_palette == old(self).obj_palette,
                self.fetcher.wf(),
                self.bg_palette@.len() == SIZE_CGB_PALETTE,
                self.obj_palette@.len() == SIZE_CGB_PALETTE,
                forall|k: int|
                    0 <= k < FRAME_PIXELS ==> self.back@[k] == if k / (SCREEN_WIDTH as int) == ly
                        && k % (SCREEN_WIDTH as int) < i {
                        old(self)@.color_of(old(self).fetcher.screen_line@[k % (SCREEN_WIDTH as int)])
                    } else {
                        old(self).back@[k]
                    },
            decreases SCREEN_WIDTH - i,
        {
            let px = self.fetcher.screen_line[i];
            let color = self.pixel_to_color(px);
            assert(color == old(self)@.color_of(px));
            self.back.set(i, ly as usize, color);
            i = i + 1;
        }
        assert(self.back@ =~= old(self)@.back_with_line(ly));
    }

    fn step_hblank(&mut self) -> (mode: PpuMode)
        requires
            old(self).inv(),
            old(self).regs.dots_left > 0,
            old(self).regs.mode == PpuMode::HBlank,
        ensures
            (final(self)@, mode) == old(self)@.after_hblank_step(),
            holds_in_mode(*final(self), mode),
            final(self).regs.dots_left + 2 <= old(self).regs.dots_left,
    {
        let dots = self.regs.dots_left;
        if self.eat_dots(dots) {
            self.line_end()
        } else {
            PpuMode::HBlank
        }
    }

    fn step_vblank(&mut self) -> (mode: PpuMode)
        requires
            old(self).inv(),
            old(self).regs.dots_left > 0,
            old(self).regs.mode == PpuMode::VBlank,
        ensures
            (final(self)@, mode) == old(self)@.after_vblank_step(),
            holds_in_mode(*final(self), mode),
            final(self).regs.dots_left + 2 <= old(self).regs.dots_left,
    {
        let dots = self.regs.dots_left;
        self.eat_dots(dots);
        if self.regs.ly == PPU_FRAME_LINES {
            self.regs.dots_in_line = 0;
            self.regs.ly = 0;
            PpuMode::Scan
        } else {
            PpuMode::VBlank
        }
    }

    fn update_lcd_state(&mut self, new_mode: PpuMode) -> (intr: IntrBits)
        requires
            holds_in_mode(*old(self), new_mode),
        ensures
            (final(self).regs, intr) == old(self).regs.after_lcd_update(new_mode),
            final(self)@ == (PpuView { regs: final(self).regs, ..old(self)@ }),
            final(self).inv(),
            final(self).regs.dots_left == old(self).regs.dots_left,
    {
        let mut iflag = IntrBits::new(0);
        if new_mode != self.regs.mode && new_mode == PpuMode::VBlank {
            iflag.vblank = true;
        }
        let new = calc_stat_interrupt(self.regs.stat, new_mode, self.regs.lyc, self.regs.ly);
        if !self.regs.stat_intr_line && new {
            iflag.stat = true;
        }
        self.regs.stat_intr_line = new;
        self.regs.stat.ppu_mode = new_mode.as_number();
        self.regs.stat.ly_eq_lyc = self.regs.lyc == self.regs.ly;
        self.regs.mode = new_mode;
        iflag
    }

    /// Consumes up to `dots` dots of the step without running past the end
    /// of the line, and tells whether the line ended.
    fn eat_dots(&mut self, dots: u32) -> (ended: bool)
        requires
            0 < dots <= old(self).regs.dots_left,
            dots % 2 == 0,
            old(self).regs.dots_in_line < PPU_HSCAN_DOTS,
            old(self).regs.dots_in_line % 2 == 0,
            old(self).regs.ly < 255,
        ensures
            (final(self).regs, ended) == old(self).regs.after_eat(dots),
            final(self).fetcher == old(self).fetcher,
            final(self).oam == old(self).oam,
            final(self).front == old(self).front,
            final(self).back == old(self).back,
            final(self).bg_palette == old(self).bg_palette,
            final(self).obj_palette == old(self).obj_palette,
            final(self).regs.dots_left + 2 <= old(self).regs.dots_left,
            final(self).regs.dots_left % 2 == old(self).regs.dots_left % 2,
            final(self).regs.dots_in_line < PPU_HSCAN_DOTS,
            final(self).regs.dots_in_line % 2 == 0,
            final(self).regs.mode == old(self).regs.mode,
            final(self).regs.frame_dot() + final(self).regs.dots_left == old(self).regs.frame_dot()
                + old(self).regs.dots_left,
    {
        let r: u64 = self.regs.dots_in_line as u64 + dots as u64;
        if r >= PPU_HSCAN_DOTS as u64 {
            self.regs.dots_left = self.regs.dots_left - (PPU_HSCAN_DOTS - self.regs.dots_in_line);
            self.regs.dots_in_line = 0;
            self.regs.ly = self.regs.ly + 1;
            true
        } else {
            self.regs.dots_in_line = self.regs.dots_in_line + dots;
            self.regs.dots_left = self.regs.dots_left - dots;
            false
        }
    }

    pub fn pixel_to_color(&self, px: Pixel) -> (c: Color)
        requires
            self.bg_palette@.len() == SIZE_CGB_PALETTE,
            self.obj_palette@.len() == SIZE_CGB_PALETTE,
        ensures
            c == self@.color_of(px),
    {
        if self.fetcher.regs.is_cgb {
            let color = self.get_cgb_color(px.is_obj, px.color_id, px.palette);
            cgb_to_color(color)
        } else {
            let scheme = dmg_palette(self.regs.dmg_palette_id);
            if !px.is_obj {
                scheme.bg.pick(shade_of(self.regs.bgp, px.color_id))
            } else if px.palette == 0 {
                scheme.obj0.pick(shade_of(self.regs.obp0, px.color_id))
            } else {
                scheme.obj1.pick(shade_of(self.regs.obp1, px.color_id))
            }
        }
    }

    pub fn get_cgb_color(&self, is_obj: bool, color_id: u8, palette_index: u8) -> (c: u16)
        requires
            self.bg_palette@.len() == SIZE_CGB_PALETTE,
            self.obj_palette@.len() == SIZE_CGB_PALETTE,
        ensures
            c == self@.cgb_color(is_obj, color_id, palette_index),
    {
        let idx = ((palette_index % 8) * 8 + (color_id % 4) * 2) as usize;
        if is_obj {
            self.obj_palette[idx] as u16 + 256 * (self.obj_palette[idx + 1] as u16)
        } else {
            self.bg_palette[idx] as u16 + 256 * (self.bg_palette[idx + 1] as u16)
        }
    }
}

/// The unit satisfies its invariant once its mode is set to `mode`.
pub open spec fn holds_in_mode(p: Ppu, mode: PpuMode) -> bool {
    &&& p.fetcher.wf()
    &&& p.oam@.len() == SIZE_OAM
    &&& p.bg_palette@.len() == SIZE_CGB_PALETTE
    &&& p.obj_palette@.len() == SIZE_CGB_PALETTE
    &&& p.front.wf()
    &&& p.back.wf()
    &&& p.regs.stat.wf()
    &&& p.regs.dots_in_line < PPU_HSCAN_DOTS
    &&& p.regs.dots_in_line % 2 == 0
    &&& p.regs.dots_left % 2 == 0
    &&& match mode {
        PpuMode::VBlank => PPU_DRAW_LINES <= p.regs.ly < PPU_FRAME_LINES,
        PpuMode::Scan => p.regs.ly < PPU_DRAW_LINES && p.regs.dots_in_line < PPU_SCAN_DOTS,
        _ => p.regs.ly < PPU_DRAW_LINES,
    }
}

/// Dots of one frame: 154 lines of 456 dots.
pub const PPU_FRAME_DOTS: u32 = 70224;

/// Consuming dots moves the position within the frame forward by exactly
/// the dots consumed, and the line ends exactly when 456 dots of it are
/// consumed.
pub proof fn lemma_eat_dots(r: PpuRegs, dots: u32)
    requires
        r.dots_in_line < PPU_HSCAN_DOTS,
        r.ly < 255,
        0 < dots <= r.dots_left,
    ensures
        ({
            let (t, ended) = r.after_eat(dots);
            let eaten = r.dots_left - t.dots_left;
            &&& 0 < eaten <= dots
            &&& eaten <= PPU_HSCAN_DOTS
            &&& t.frame_dot() == r.frame_dot() + eaten
            &&& ended <==> r.dots_in_line + eaten == PPU_HSCAN_DOTS
            &&& ended ==> t.ly == r.ly + 1 && t.dots_in_line == 0
            &&& !ended ==> t.ly == r.ly && t.dots_in_line == r.dots_in_line + dots
            &&& t.mode == r.mode
        }),
{
}

/// Every line takes 456 dots and every frame 154 lines: a step moves the
/// position within the frame forward by exactly the dots it consumes, and
/// the position wraps to zero after line 153.
pub proof fn lemma_frame_timing(v: PpuView)
    requires
        v.regs.timed(),
        v.regs.dots_left > 0,
    ensures
        ({
            let w = v.after_step().0;
            let eaten = v.regs.dots_left - w.regs.dots_left;
            &&& w.regs.timed()
            &&& 2 <= eaten <= PPU_HSCAN_DOTS
            &&& w.regs.ly < PPU_FRAME_LINES
            &&& w.regs.dots_in_line < PPU_HSCAN_DOTS
            &&& if v.regs.frame_dot() + eaten == PPU_FRAME_DOTS {
                w.regs.frame_dot() == 0
            } else {
                w.regs.frame_dot() == v.regs.frame_dot() + eaten
            }
        }),
{
    let r = v.regs;
    match r.mode {
        PpuMode::HBlank => {
            lemma_eat_dots(r, r.dots_left);
            let (t, ended) = r.after_eat(r.dots_left);
            let (x, m) = v.after_hblank_step();
            assert(x.regs == t);
            assert(v.after_step().0.regs == t.after_lcd_update(m).0);
        },
        PpuMode::VBlank => {
            lemma_eat_dots(r, r.dots_left);
            let (t, ended) = r.after_eat(r.dots_left);
            let (x, m) = v.after_vblank_step();
            assert(v.after_step().0.regs == x.regs.after_lcd_update(m).0);
        },
        PpuMode::Scan => {
            lemma_eat_dots(r, 2);
            let (t, ended) = r.after_eat(2);
            let (x, m) = v.after_scan_step();
            assert(x.regs == t);
            assert(v.after_step().0.regs == t.after_lcd_update(m).0);
        },
        PpuMode::Draw => {
            lemma_eat_dots(r, 2);
            let (t, ended) = r.after_eat(2);
            let (x, m) = v.after_draw_step();
            assert(x.regs == t);
            assert(v.after_step().0.regs == t.after_lcd_update(m).0);
        },
    }
}

/// The object scan keeps at most ten objects per line, and it keeps entry
/// `i` of OAM in step `i` of the line exactly if fewer than ten are kept
/// and the entry covers the line: `ypos <= LY + 16 < ypos + height`.
pub proof fn lemma_oam_scan(v: PpuView)
    requires
        v.regs.mode == PpuMode::Scan,
        v.fetcher.objects.len() <= MAX_OBJ_PER_LINE,
    ensures
        ({
            let w = v.after_scan_step().0;
            let idx = v.regs.dots_in_line as int / 2;
            let before: Seq<OamEntry> = if idx == 0 {
                Seq::empty()
            } else {
                v.fetcher.objects
            };
            let obj = spec_oam_entry(v.oam, idx);
            let height: int = if v.fetcher.regs.lcdc.obj_size {
                16
            } else {
                8
            };
            let fits = obj.ypos <= v.regs.ly + 16 && v.regs.ly + 16 < obj.ypos + height;
            &&& w.fetcher.objects.len() <= MAX_OBJ_PER_LINE
            &&& w.fetcher.objects == if idx < OAM_ENTRIES && before.len() < MAX_OBJ_PER_LINE && fits {
                before.push(obj)
            } else {
                before
            }
        }),
{
}

} // verus!
