//! The pixel pipeline of one scan line: tiles are fetched into a FIFO,
//! mixed with the objects of the line and emitted to the screen line.
use vstd::prelude::*;
use std::collections::VecDeque;
use crate::info::{MAX_OBJ_PER_LINE, SCREEN_WIDTH, SIZE_VRAM_BANK};
use crate::ppu::tile::{OamEntry, TileLine};
use crate::regs::LcdCtrl;

verus! {

/// Most pixels the FIFO ever holds.
pub const FIFO_CAPACITY: usize = 16;

#[derive(Clone, Copy, Debug, PartialEq, Eq, Structural)]
pub enum FetcherState {
    GetTileId,
    GetTileLow,
    GetTileHigh,
    PushPixels,
}

/// A pixel before it is turned into a colour.
#[derive(Clone, Copy, Debug, PartialEq, Eq, Structural)]
pub struct Pixel {
    /// Colour number within the palette, 0 to 3.
    pub color_id: u8,
    /// Palette number: 0 to 7 in colour mode; else 0 or 1, for objects only.
    pub palette: u8,
    pub is_obj: bool,
    /// The priority bit of the map attribute or of the object.
    pub bg_priority: bool,
}

/// Registers and progress of the fetcher.
#[derive(Clone, Copy, Debug, PartialEq, Eq, Structural)]
pub struct FetcherRegs {
    pub is_cgb: bool,
    pub lcdc: LcdCtrl,
    pub scx: u8,
    pub scy: u8,
    pub wx: u8,
    pub wy: u8,
    pub state: FetcherState,
    /// Pixels emitted to the screen line so far.
    pub draw_x: u8,
    /// Pixels fetched so far, of the background or since the window began.
    pub fetch_x: u8,
    /// The line being drawn.
    pub line: u8,
    /// Lines of the window drawn so far in this frame.
    pub win_y: u8,
    /// Pixels still to be dropped at the start of the line for fine scrolling.
    pub subtile_scroll: u8,
    /// The window has begun on this line.
    pub window: bool,
    pub bg_tile: TileLine,
}

pub struct LineFetcher {
    pub regs: FetcherRegs,
    /// Objects found on the line, not yet drawn, in OAM order.
    pub objects: Vec<OamEntry>,
    pub screen_line: Vec<Pixel>,
    /// Both banks of video memory, one after the other.
    pub vram: Vec<u8>,
    /// The objects of the line, drawn ahead of the background.
    pub obj_line: Vec<Option<Pixel>>,
    pub fifo: VecDeque<Pixel>,
}

pub struct FetcherView {
    pub regs: FetcherRegs,
    pub objects: Seq<OamEntry>,
    pub screen_line: Seq<Pixel>,
    pub vram: Seq<u8>,
    pub obj_line: Seq<Option<Pixel>>,
    pub fifo: Seq<Pixel>,
}

impl Pixel {
    pub open spec fn blank() -> Pixel {
        Pixel { color_id: 0, palette: 0, is_obj: false, bg_priority: false }
    }
}

/// Which of a background pixel and an object pixel is shown. Object colour
/// 0 is transparent, and background colour 0 is always covered. Otherwise
/// the priority bits decide: outside colour mode the object's bit puts it
/// behind the background; in colour mode either bit does, provided LCDC
/// grants the background its priority.
pub open spec fn spec_mix(is_cgb: bool, bg_win_priority: bool, bg: Pixel, obj: Pixel) -> Pixel {
    if obj.color_id == 0 {
        bg
    } else if bg.color_id == 0 {
        obj
    } else if is_cgb {
        if bg_win_priority && (bg.bg_priority || obj.bg_priority) {
            bg
        } else {
            obj
        }
    } else if obj.bg_priority {
        bg
    } else {
        obj
    }
}

/// Where `e` goes into `sorted` so that it follows every entry that does
/// not lie to its right.
pub open spec fn insert_pos(sorted: Seq<OamEntry>, e: OamEntry) -> int
    decreases sorted.len(),
{
    if sorted.len() == 0 {
        0
    } else if sorted.last().xpos <= e.xpos {
        sorted.len() as int
    } else {
        insert_pos(sorted.drop_last(), e)
    }
}

/// The entries ordered by horizontal position, those at the same position
/// in their given order.
pub open spec fn sorted_by_x(s: Seq<OamEntry>) -> Seq<OamEntry>
    decreases s.len(),
{
    if s.len() == 0 {
        Seq::empty()
    } else {
        let front = sorted_by_x(s.drop_last());
        front.insert(insert_pos(front, s.last()), s.last())
    }
}

/// Drawing order of the objects of a line, the foremost first: by position
/// in OAM in colour mode, else by horizontal position and then by position
/// in OAM.
pub open spec fn draw_order(objects: Seq<OamEntry>, is_cgb: bool) -> Seq<OamEntry> {
    if is_cgb {
        objects
    } else {
        sorted_by_x(objects)
    }
}

pub proof fn lemma_insert_pos_bounds(sorted: Seq<OamEntry>, e: OamEntry)
    ensures
        0 <= insert_pos(sorted, e) <= sorted.len(),
    decreases sorted.len(),
{
    if sorted.len() > 0 && sorted.last().xpos > e.xpos {
        lemma_insert_pos_bounds(sorted.drop_last(), e);
    }
}

/// The result of `sorted_by_x` ascends in horizontal position.
pub proof fn lemma_sorted_ascends(s: Seq<OamEntry>)
    ensures
        forall|i: int, j: int|
            0 <= i < j < sorted_by_x(s).len() ==> sorted_by_x(s)[i].xpos <= sorted_by_x(s)[j].xpos,
    decreases s.len(),
{
    if s.len() > 0 {
        let front = sorted_by_x(s.drop_last());
        let e = s.last();
        lemma_sorted_ascends(s.drop_last());
        lemma_insert_pos_bounds(front, e);
        lemma_insert_pos_splits(front, e);
        let p = insert_pos(front, e);
        let out = sorted_by_x(s);
        assert forall|i: int, j: int| 0 <= i < j < out.len() implies out[i].xpos <= out[j].xpos by {
            if j < p {
                assert(out[i] == front[i] && out[j] == front[j]);
            } else if j == p {
                assert(out[i] == front[i]);
            } else if i < p {
                assert(out[i] == front[i] && out[j] == front[j - 1]);
            } else if i == p {
                assert(out[j] == front[j - 1]);
            } else {
                assert(out[i] == front[i - 1] && out[j] == front[j - 1]);
            }
        }
    }
}

proof fn lemma_insert_pos_splits(sorted: Seq<OamEntry>, e: OamEntry)
    requires
        forall|i: int, j: int| 0 <= i < j < sorted.len() ==> sorted[i].xpos <= sorted[j].xpos,
    ensures
        forall|i: int| 0 <= i < insert_pos(sorted, e) ==> sorted[i].xpos <= e.xpos,
        forall|i: int| insert_pos(sorted, e) <= i < sorted.len() ==> sorted[i].xpos > e.xpos,
    decreases sorted.len(),
{
    if sorted.len() > 0 && sorted.last().xpos > e.xpos {
        let front = sorted.drop_last();
        assert forall|i: int, j: int| 0 <= i < j < front.len() implies front[i].xpos
            <= front[j].xpos by {
            assert(front[i] == sorted[i] && front[j] == sorted[j]);
        }
        lemma_insert_pos_splits(front, e);
        lemma_insert_pos_bounds(front, e);
        assert forall|i: int| 0 <= i < insert_pos(sorted, e) implies sorted[i].xpos <= e.xpos by {
            assert(sorted[i] == front[i]);
        }
        assert forall|i: int| insert_pos(sorted, e) <= i < sorted.len() implies sorted[i].xpos
            > e.xpos by {
            if i < front.len() {
                assert(sorted[i] == front[i]);
            }
        }
    }
}

fn sort_by_x(objects: &Vec<OamEntry>) -> (out: Vec<OamEntry>)
    ensures
        out@ == sorted_by_x(objects@),
{
    let mut out: Vec<OamEntry> = Vec::new();
    let mut i: usize = 0;
    while i < objects.len()
        invariant
            i <= objects.len(),
            out@ == sorted_by_x(objects@.subrange(0, i as int)),
        decreases objects.len() - i,
    {
        let e = objects[i];
        let mut p: usize = out.len();
        assert(out@.subrange(0, p as int) =~= out@);
        while p > 0 && out[p - 1].xpos > e.xpos
            invariant
                p <= out.len(),
                insert_pos(out@, e) == insert_pos(out@.subrange(0, p as int), e),
            decreases p,
        {
            proof {
                let cur = out@.subrange(0, p as int);
                assert(cur.last() == out@[p - 1]);
                assert(cur.drop_last() =~= out@.subrange(0, p - 1));
            }
            p = p - 1;
        }
        proof {
            let cur = out@.subrange(0, p as int);
            if p > 0 {
                assert(cur.last() == out@[p - 1]);
            }
            assert(insert_pos(cur, e) == p);
            let next = objects@.subrange(0, i + 1);
            assert(next.drop_last() =~= objects@.subrange(0, i as int));
            assert(next.last() == e);
        }
        out.insert(p, e);
        i = i + 1;
    }
    assert(objects@.subrange(0, i as int) =~= objects@);
    out
}

/// The tile row of `obj` on the current line. A tall object is made of two
/// tiles, the even-numbered one on top; a vertical flip swaps them.
pub open spec fn obj_tile_line(regs: FetcherRegs, vram: Seq<u8>, obj: OamEntry) -> TileLine {
    let t = TileLine::spec_from_obj(obj, regs.is_cgb);
    let id = if regs.lcdc.obj_size {
        let is_second = regs.line + 16 >= 8 + obj.ypos;
        if is_second == t.yflip {
            (t.id - t.id % 2) as u8
        } else {
            (t.id - t.id % 2 + 1) as u8
        }
    } else {
        t.id
    };
    (TileLine { id, line: ((regs.line + 256 - obj.ypos) % 8) as u8, ..t }).with_line_read(vram, true)
}

/// The pixel that `obj` has at screen column `x`, which it must cover.
pub open spec fn obj_pixel(regs: FetcherRegs, vram: Seq<u8>, obj: OamEntry, x: int) -> Pixel {
    let tile = obj_tile_line(regs, vram, obj);
    Pixel {
        palette: tile.palette,
        color_id: tile.color_id((x + 8 - obj.xpos) as u8),
        is_obj: true,
        bg_priority: obj.attrs.bg_priority,
    }
}

/// The object line after `obj` is drawn onto it: every column that the
/// object covers with a colour other than 0 takes its pixel, unless an
/// earlier object already has the column.
pub open spec fn with_object(
    regs: FetcherRegs,
    vram: Seq<u8>,
    obj_line: Seq<Option<Pixel>>,
    obj: OamEntry,
) -> Seq<Option<Pixel>> {
    Seq::new(
        SCREEN_WIDTH as nat,
        |x: int|
            if obj.xpos - 8 <= x < obj.xpos && obj_line[x] is None && obj_pixel(
                regs,
                vram,
                obj,
                x,
            ).color_id != 0 {
                Some(obj_pixel(regs, vram, obj, x))
            } else {
                obj_line[x]
            },
    )
}

/// The object line after all of `objs` are drawn onto it in order.
pub open spec fn with_objects(
    regs: FetcherRegs,
    vram: Seq<u8>,
    obj_line: Seq<Option<Pixel>>,
    objs: Seq<OamEntry>,
) -> Seq<Option<Pixel>>
    decreases objs.len(),
{
    if objs.len() == 0 {
        obj_line
    } else {
        with_objects(regs, vram, with_object(regs, vram, obj_line, objs.first()), objs.drop_first())
    }
}

impl FetcherView {
    /// The fetcher of a machine that was just switched on.
    pub open spec fn initial(is_cgb: bool) -> FetcherView {
        FetcherView {
            regs: FetcherRegs {
                is_cgb,
                lcdc: LcdCtrl::unpack(0),
                scx: 0,
                scy: 0,
                wx: 0,
                wy: 0,
                state: FetcherState::GetTileId,
                draw_x: 0,
                fetch_x: 0,
                line: 0,
                win_y: 0,
                subtile_scroll: 0,
                window: false,
                bg_tile: TileLine::blank(),
            },
            objects: Seq::empty(),
            screen_line: Seq::new(SCREEN_WIDTH as nat, |i: int| Pixel::blank()),
            vram: Seq::new((2 * SIZE_VRAM_BANK) as nat, |i: int| 0u8),
            obj_line: Seq::new(SCREEN_WIDTH as nat, |i: int| None),
            fifo: Seq::empty(),
        }
    }

    /// The fetcher set up for line `line`. The window's own line counter
    /// restarts on line 0 and advances only after lines that drew the window.
    pub open spec fn after_new_line(self, line: u8) -> FetcherView {
        FetcherView {
            regs: FetcherRegs {
                win_y: if line == 0 {
                    0
                } else if self.regs.window {
                    ((self.regs.win_y + 1) % 256) as u8
                } else {
                    self.regs.win_y
                },
                window: false,
                fetch_x: 0,
                draw_x: 0,
                line,
                subtile_scroll: self.regs.scx % 8,
                state: FetcherState::GetTileId,
                ..self.regs
            },
            objects: Seq::empty(),
            screen_line: Seq::new(SCREEN_WIDTH as nat, |i: int| Pixel::blank()),
            obj_line: Seq::new(SCREEN_WIDTH as nat, |i: int| None),
            fifo: Seq::empty(),
            vram: self.vram,
        }
    }

    /// The fetcher after the pending objects are drawn onto the object line.
    pub open spec fn after_render_objects(self) -> FetcherView {
        FetcherView {
            obj_line: with_objects(
                self.regs,
                self.vram,
                self.obj_line,
                draw_order(self.objects, self.regs.is_cgb),
            ),
            objects: Seq::empty(),
            ..self
        }
    }

    /// The tile map in use: the window's once the window has begun.
    pub open spec fn tile_map_number(self) -> bool {
        if self.regs.window {
            self.regs.lcdc.win_tile_map
        } else {
            self.regs.lcdc.bg_tile_map
        }
    }

    /// Tile column and pixel row that the next fetch reads, in the 256 by
    /// 256 plane of the background or the window.
    pub open spec fn fetch_pos(self) -> (u8, u8) {
        if self.regs.window {
            ((self.regs.fetch_x / 8) as u8, self.regs.win_y)
        } else {
            (
                ((self.regs.scx / 8 + self.regs.fetch_x / 8) % 32) as u8,
                ((self.regs.scy + self.regs.line) % 256) as u8,
            )
        }
    }

    pub open spec fn after_fetch_tile(self) -> FetcherView {
        let (tx, y) = self.fetch_pos();
        let t = TileLine::spec_from_tilemap(
            self.vram,
            self.tile_map_number(),
            tx,
            (y / 8) as u8,
            self.regs.is_cgb,
        );
        FetcherView {
            regs: FetcherRegs {
                bg_tile: (TileLine { line: y % 8, ..t }).with_line_read(
                    self.vram,
                    self.regs.lcdc.bg_win_tile_data,
                ),
                state: FetcherState::PushPixels,
                ..self.regs
            },
            ..self
        }
    }

    /// Pixel `i` of the fetched tile row. Outside colour mode a cleared
    /// LCDC bit 0 blanks background and window.
    pub open spec fn bg_pixel(self, i: int) -> Pixel {
        Pixel {
            color_id: if !self.regs.is_cgb && !self.regs.lcdc.bg_win_priority {
                0
            } else {
                self.regs.bg_tile.color_id(i as u8)
            },
            palette: self.regs.bg_tile.palette,
            bg_priority: self.regs.bg_tile.bg_priority,
            is_obj: false,
        }
    }

    /// The fetcher after the push step: the tile row enters the FIFO once
    /// the FIFO holds no more than eight pixels; until then the step waits.
    pub open spec fn after_push_pixels(self) -> FetcherView {
        if self.fifo.len() > 8 {
            self
        } else {
            FetcherView {
                fifo: self.fifo + Seq::new(8, |i: int| self.bg_pixel(i)),
                regs: FetcherRegs {
                    fetch_x: ((self.regs.fetch_x + 8) % 256) as u8,
                    state: FetcherState::GetTileId,
                    ..self.regs
                },
                ..self
            }
        }
    }

    /// The window begins at the pixel about to be emitted.
    pub open spec fn window_starts(self) -> bool {
        &&& !self.regs.window
        &&& self.regs.lcdc.win_enable
        &&& self.regs.wx <= self.regs.draw_x + 7
        &&& self.regs.wy <= self.regs.line
    }

    /// The fetcher after trying to emit one pixel. Nothing happens while
    /// the FIFO holds eight pixels or fewer or the line is complete. Where
    /// the window begins, the FIFO is emptied and fetching restarts in the
    /// window. Otherwise the front pixel leaves the FIFO, is mixed with the
    /// object pixel of its column if objects are enabled, and is emitted.
    pub open spec fn after_pop_pixel(self) -> FetcherView {
        if self.fifo.len() <= 8 || self.regs.draw_x == SCREEN_WIDTH {
            self
        } else if self.window_starts() {
            FetcherView {
                regs: FetcherRegs {
                    fetch_x: if self.regs.wx > 7 {
                        (self.regs.draw_x - (self.regs.wx - 7)) as u8
                    } else {
                        self.regs.draw_x
                    },
                    window: true,
                    ..self.regs
                },
                fifo: Seq::empty(),
                ..self
            }
        } else {
            let bg_px = self.fifo.first();
            let px = match self.obj_line[self.regs.draw_x as int] {
                Some(obj_px) => if self.regs.lcdc.obj_enable {
                    spec_mix(self.regs.is_cgb, self.regs.lcdc.bg_win_priority, bg_px, obj_px)
                } else {
                    bg_px
                },
                None => bg_px,
            };
            FetcherView {
                regs: FetcherRegs { draw_x: (self.regs.draw_x + 1) as u8, ..self.regs },
                fifo: self.fifo.drop_first(),
                screen_line: self.screen_line.update(self.regs.draw_x as int, px),
                ..self
            }
        }
    }

    /// The fetcher after the output step of two dots: with more than eight
    /// pixels in the FIFO it first drops `SCX % 8` pixels once per line,
    /// and on later steps tries to emit two pixels.
    pub open spec fn after_push_to_line(self) -> FetcherView {
        if self.fifo.len() <= 8 {
            self
        } else if self.regs.subtile_scroll > 0 {
            FetcherView {
                fifo: self.fifo.subrange(self.regs.subtile_scroll as int, self.fifo.len() as int),
                regs: FetcherRegs { subtile_scroll: 0, ..self.regs },
                ..self
            }
        } else {
            self.after_pop_pixel().after_pop_pixel()
        }
    }

    /// The fetcher after the fetch step that is due.
    pub open spec fn after_fetch_step(self) -> FetcherView {
        match self.regs.state {
            FetcherState::GetTileId => FetcherView {
                regs: FetcherRegs { state: FetcherState::GetTileLow, ..self.regs },
                ..self
            },
            FetcherState::GetTileLow => FetcherView {
                regs: FetcherRegs { state: FetcherState::GetTileHigh, ..self.regs },
                ..self
            },
            FetcherState::GetTileHigh => self.after_fetch_tile(),
            FetcherState::PushPixels => self.after_push_pixels(),
        }
    }

    /// The fetcher two dots later: pending objects are drawn, pixels are
    /// emitted, and the tile fetch moves on by one step.
    pub open spec fn after_tick(self) -> FetcherView {
        let a = if self.objects.len() > 0 {
            self.after_render_objects()
        } else {
            self
        };
        a.after_push_to_line().after_fetch_step()
    }

    /// All 160 pixels of the line are emitted.
    pub open spec fn done(self) -> bool {
        self.regs.draw_x == SCREEN_WIDTH
    }
}

impl View for LineFetcher {
    type V = FetcherView;

    open spec fn view(&self) -> FetcherView {
        FetcherView {
            regs: self.regs,
            objects: self.objects@,
            screen_line: self.screen_line@,
            vram: self.vram@,
            obj_line: self.obj_line@,
            fifo: self.fifo@,
        }
    }
}

impl LineFetcher {
    pub open spec fn wf(&self) -> bool {
        &&& self.vram@.len() == 2 * SIZE_VRAM_BANK
        &&& self.screen_line@.len() == SCREEN_WIDTH
        &&& self.obj_line@.len() == SCREEN_WIDTH
        &&& self.objects@.len() <= MAX_OBJ_PER_LINE
        &&& self.fifo@.len() <= FIFO_CAPACITY
        &&& self.regs.draw_x <= SCREEN_WIDTH
        &&& self.regs.subtile_scroll < 8
        &&& self.regs.bg_tile.wf()
    }

    /// Tells whether the fetcher is well-formed.
    pub fn check(&self) -> (ok: bool)
        ensures
            ok == self.wf(),
    {
        self.vram.len() == 2 * SIZE_VRAM_BANK && self.screen_line.len() == SCREEN_WIDTH
            && self.obj_line.len() == SCREEN_WIDTH && self.objects.len() <= MAX_OBJ_PER_LINE
            && self.fifo.len() <= FIFO_CAPACITY && self.regs.draw_x as usize <= SCREEN_WIDTH
            && self.regs.subtile_scroll < 8 && self.regs.bg_tile.line < 8
    }

    pub fn new(is_cgb: bool) -> (f: LineFetcher)
        ensures
            f.wf(),
            f@ == FetcherView::initial(is_cgb),
    {
        let mut vram: Vec<u8> = Vec::new();
        let mut i: usize = 0;
        while i < 2 * SIZE_VRAM_BANK
            invariant
                i <= 2 * SIZE_VRAM_BANK,
                vram@ == Seq::new(i as nat, |k: int| 0u8),
            decreases 2 * SIZE_VRAM_BANK - i,
        {
            vram.push(0);
            i = i + 1;
            assert(vram@ =~= Seq::new(i as nat, |k: int| 0u8));
        }
        let mut screen_line: Vec<Pixel> = Vec::new();
        let mut obj_line: Vec<Option<Pixel>> = Vec::new();
        let mut x: usize = 0;
        while x < SCREEN_WIDTH
            invariant
                x <= SCREEN_WIDTH,
                screen_line@ == Seq::new(x as nat, |k: int| Pixel::blank()),
                obj_line@ == Seq::new(x as nat, |k: int| None::<Pixel>),
            decreases SCREEN_WIDTH - x,
        {
            screen_line.push(Pixel { color_id: 0, palette: 0, is_obj: false, bg_priority: false });
            obj_line.push(None);
            x = x + 1;
            assert(screen_line@ =~= Seq::new(x as nat, |k: int| Pixel::blank()));
            assert(obj_line@ =~= Seq::new(x as nat, |k: int| None::<Pixel>));
        }
        LineFetcher {
            regs: FetcherRegs {
                is_cgb,
                lcdc: LcdCtrl::new(0),
                scx: 0,
                scy: 0,
                wx: 0,
                wy: 0,
                state: FetcherState::GetTileId,
                draw_x: 0,
                fetch_x: 0,
                line: 0,
                win_y: 0,
                subtile_scroll: 0,
                window: false,
                bg_tile: TileLine {
                    id: 0,
                    low: 0,
                    high: 0,
                    bank: false,
                    palette: 0,
                    line: 0,
                    bg_priority: false,
                    xflip: false,
                    yflip: false,
                },
            },
            objects: Vec::new(),
            screen_line,
            vram,
            obj_line,
            fifo: VecDeque::new(),
        }
    }

    /// Advances the fetcher by two dots.
    pub fn tick_2_dots(&mut self)
        requires
            old(self).wf(),
        ensures
            final(self)@ == old(self)@.after_tick(),
            final(self).wf(),
    {
        if self.objects.len() > 0 {
            self.render_oam_objects();
        }
        self.push_pixels_to_line();
        match self.regs.state {
            FetcherState::GetTileId => self.regs.state = FetcherState::GetTileLow,
            FetcherState::GetTileLow => self.regs.state = FetcherState::GetTileHigh,
            FetcherState::GetTileHigh => self.fetch_tile(),
            FetcherState::PushPixels => self.push_pixels(),
        }
    }

    /// Gets the fetcher ready for line `line`; to be called when the scan
    /// of the line begins.
    pub fn new_line(&mut self, line: u8)
        requires
            old(self).wf(),
        ensures
            final(self)@ == old(self)@.after_new_line(line),
            final(self).wf(),
    {
        if line == 0 {
            self.regs.win_y = 0;
        } else if self.regs.window {
            self.regs.win_y = ((self.regs.win_y as u16 + 1) % 256) as u8;
        }
        self.fifo.clear();
        self.objects.clear();
        let mut x: usize = 0;
        while x < SCREEN_WIDTH
            invariant
                x <= SCREEN_WIDTH,
                self.screen_line@.len() == SCREEN_WIDTH,
                self.obj_line@.len() == SCREEN_WIDTH,
                forall|k: int| 0 <= k < x ==> self.screen_line@[k] == Pixel::blank(),
                forall|k: int| 0 <= k < x ==> self.obj_line@[k] == None::<Pixel>,
                self.vram@ == old(self).vram@,
                self.fifo@ == Seq::<Pixel>::empty(),
                self.objects@ == Seq::<OamEntry>::empty(),
                self.regs == (FetcherRegs {
                    win_y: old(self)@.after_new_line(line).regs.win_y,
                    ..old(self).regs
                }),
            decreases SCREEN_WIDTH - x,
        {
            self.screen_line[x] = Pixel { color_id: 0, palette: 0, is_obj: false, bg_priority: false };
            self.obj_line[x] = None;
            x = x + 1;
        }
        self.regs.window = false;
        self.regs.fetch_x = 0;
        self.regs.draw_x = 0;
        self.regs.line = line;
        self.regs.subtile_scroll = self.regs.scx % 8;
        self.regs.state = FetcherState::GetTileId;
        assert(self.screen_line@ =~= Seq::new(SCREEN_WIDTH as nat, |i: int| Pixel::blank()));
        assert(self.obj_line@ =~= Seq::new(SCREEN_WIDTH as nat, |i: int| None::<Pixel>));
    }

    pub fn is_done(&self) -> (r: bool)
        ensures
            r == self@.done(),
    {
        self.regs.draw_x as usize == SCREEN_WIDTH
    }

    pub fn fetch_tile(&mut self)
        requires
            old(self).wf(),
        ensures
            final(self)@ == old(self)@.after_fetch_tile(),
            final(self).wf(),
    {
        let second_map = self.get_tile_map_number();
        let (tx, y): (u8, u8) = if self.regs.window {
            (self.regs.fetch_x / 8, self.regs.win_y)
        } else {
            (
                (self.regs.scx / 8 + self.regs.fetch_x / 8) % 32,
                ((self.regs.scy as u16 + self.regs.line as u16) % 256) as u8,
            )
        };
        let mut tile = TileLine::from_tilemap(&self.vram, second_map, tx, y / 8, self.regs.is_cgb);
        tile.line = y % 8;
        tile.read_in_line(&self.vram, self.regs.lcdc.bg_win_tile_data);
        self.regs.bg_tile = tile;
        self.regs.state = FetcherState::PushPixels;
    }

    pub fn push_pixels(&mut self)
        requires
            old(self).wf(),
        ensures
            final(self)@ == old(self)@.after_push_pixels(),
            final(self).wf(),
    {
        if self.fifo.len() > 8 {
            return ;
        }
        let mut i: u8 = 0;
        while i < 8
            invariant
                i <= 8,
                self.fifo@ == old(self).fifo@ + Seq::new(i as nat, |k: int| old(self)@.bg_pixel(k)),
                self.regs == old(self).regs,
                self.objects@ == old(self).objects@,
                self.screen_line@ == old(self).screen_line@,
                self.vram@ == old(self).vram@,
                self.obj_line@ == old(self).obj_line@,
            decreases 8 - i,
        {
            let color = if !self.regs.is_cgb && !self.regs.lcdc.bg_win_priority {
                0
            } else {
                self.regs.bg_tile.get_color_id(i)
            };
            self.fifo.push_back(
                Pixel {
                    color_id: color,
                    palette: self.regs.bg_tile.palette,
                    bg_priority: self.regs.bg_tile.bg_priority,
                    is_obj: false,
                },
            );
            i = i + 1;
            assert(self.fifo@ =~= old(self).fifo@ + Seq::new(
                i as nat,
                |k: int| old(self)@.bg_pixel(k),
            ));
        }
        self.regs.fetch_x = ((self.regs.fetch_x as u16 + 8) % 256) as u8;
        self.regs.state = FetcherState::GetTileId;
    }

    pub fn push_pixels_to_line(&mut self)
        requires
            old(self).wf(),
        ensures
            final(self)@ == old(self)@.after_push_to_line(),
            final(self).wf(),
    {
        if self.fifo.len() <= 8 {
            return ;
        }
        if self.regs.subtile_scroll > 0 {
            let mut k: u8 = 0;
            while k < self.regs.subtile_scroll
                invariant
                    k <= self.regs.subtile_scroll < 8,
                    old(self).fifo@.len() > 8,
                    self.fifo@ == old(self).fifo@.subrange(k as int, old(self).fifo@.len() as int),
                    self.regs == old(self).regs,
                    self.objects@ == old(self).objects@,
                    self.screen_line@ == old(self).screen_line@,
                    self.vram@ == old(self).vram@,
                    self.obj_line@ == old(self).obj_line@,
                decreases self.regs.subtile_scroll - k,
            {
                let _ = self.fifo.pop_front();
                k = k + 1;
                assert(self.fifo@ =~= old(self).fifo@.subrange(
                    k as int,
                    old(self).fifo@.len() as int,
                ));
            }
            self.regs.subtile_scroll = 0;
            return ;
        }
        self.pop_pixel_checked();
        self.pop_pixel_checked();
    }

    pub fn pop_pixel_checked(&mut self)
        requires
            old(self).wf(),
        ensures
            final(self)@ == old(self)@.after_pop_pixel(),
            final(self).wf(),
    {
        if self.fifo.len() <= 8 {
            return ;
        }
        if self.regs.draw_x as usize == SCREEN_WIDTH {
            return ;
        }
        if !self.regs.window && self.regs.lcdc.win_enable {
            if self.regs.wx as u16 <= self.regs.draw_x as u16 + 7 && self.regs.wy
                <= self.regs.line {
                self.regs.fetch_x = if self.regs.wx > 7 {
                    self.regs.draw_x - (self.regs.wx - 7)
                } else {
                    self.regs.draw_x
                };
                self.regs.window = true;
                self.fifo.clear();
                return ;
            }
        }
        let bg_px = match self.fifo.pop_front() {
            Some(p) => p,
            None => Pixel { color_id: 0, palette: 0, is_obj: false, bg_priority: false },
        };
        let px = match self.obj_line[self.regs.draw_x as usize] {
            Some(obj_px) => if self.regs.lcdc.obj_enable {
                self.mix_bg_obj_pixels(bg_px, obj_px)
            } else {
                bg_px
            },
            None => bg_px,
        };
        let x = self.regs.draw_x as usize;
        self.screen_line[x] = px;
        self.regs.draw_x = self.regs.draw_x + 1;
        assert(self.fifo@ =~= old(self).fifo@.drop_first());
    }

    /// Draws the pending objects onto the object line and forgets them.
    pub fn render_oam_objects(&mut self)
        requires
            old(self).wf(),
        ensures
            final(self)@ == old(self)@.after_render_objects(),
            final(self).wf(),
    {
        let ordered = if !self.regs.is_cgb {
            sort_by_x(&self.objects)
        } else {
            let mut copy: Vec<OamEntry> = Vec::new();
            let mut i: usize = 0;
            while i < self.objects.len()
                invariant
                    i <= self.objects.len(),
                    copy@ == self.objects@.subrange(0, i as int),
                decreases self.objects.len() - i,
            {
                copy.push(self.objects[i]);
                i = i + 1;
                assert(copy@ =~= self.objects@.subrange(0, i as int));
            }
            assert(copy@ =~= self.objects@);
            copy
        };
        self.objects.clear();
        assert(ordered@.subrange(0, ordered@.len() as int) =~= ordered@);
        let mut i: usize = 0;
        while i < ordered.len()
            invariant
                i <= ordered.len(),
                self.wf(),
                self.regs == old(self).regs,
                self.vram@ == old(self).vram@,
                self.screen_line@ == old(self).screen_line@,
                self.fifo@ == old(self).fifo@,
                self.objects@ == Seq::<OamEntry>::empty(),
                with_objects(
                    self.regs,
                    self.vram@,
                    self.obj_line@,
                    ordered@.subrange(i as int, ordered@.len() as int),
                ) == with_objects(self.regs, self.vram@, old(self).obj_line@, ordered@),
            decreases ordered.len() - i,
        {
            proof {
                let rest = ordered@.subrange(i as int, ordered@.len() as int);
                assert(rest.first() == ordered@[i as int]);
                assert(rest.drop_first() =~= ordered@.subrange(i + 1, ordered@.len() as int));
            }
            self.render_object(ordered[i]);
            i = i + 1;
        }
    }

    pub fn render_object(&mut self, obj: OamEntry)
        requires
            old(self).wf(),
        ensures
            final(self).obj_line@ == with_object(
                old(self).regs,
                old(self).vram@,
                old(self).obj_line@,
                obj,
            ),
            final(self).regs == old(self).regs,
            final(self).vram@ == old(self).vram@,
            final(self).screen_line@ == old(self).screen_line@,
            final(self).fifo@ == old(self).fifo@,
            final(self).objects@ == old(self).objects@,
            final(self).wf(),
    {
        let tile = self.read_obj_tile_line(obj);
        let xclip: u8 = if obj.xpos < 8 {
            8 - obj.xpos
        } else {
            0
        };
        let xbegin: u8 = if obj.xpos < 8 {
            0
        } else {
            obj.xpos - 8
        };
        let xend: u8 = if obj.xpos < 160 {
            obj.xpos
        } else {
            160
        };
        let mut x: u8 = xbegin;
        while x < xend
            invariant
                xbegin <= x,
                x <= xend || xend < xbegin,
                xend <= 160,
                xbegin == if obj.xpos < 8 { 0int } else { obj.xpos - 8 },
                xend == if obj.xpos < 160 { obj.xpos as int } else { 160 },
                xclip == if obj.xpos < 8 { 8 - obj.xpos } else { 0int },
                tile == obj_tile_line(old(self).regs, old(self).vram@, obj),
                self.obj_line@.len() == SCREEN_WIDTH,
                forall|k: int|
                    0 <= k < SCREEN_WIDTH ==> self.obj_line@[k] == if k < x {
                        with_object(old(self).regs, old(self).vram@, old(self).obj_line@, obj)[k]
                    } else {
                        old(self).obj_line@[k]
                    },
                self.regs == old(self).regs,
                self.vram@ == old(self).vram@,
                self.screen_line@ == old(self).screen_line@,
                self.fifo@ == old(self).fifo@,
                self.objects@ == old(self).objects@,
            decreases 160 - x,
        {
            let px = Pixel {
                palette: tile.palette,
                color_id: tile.get_color_id(x - xbegin + xclip),
                is_obj: true,
                bg_priority: obj.attrs.bg_priority,
            };
            assert(px == obj_pixel(old(self).regs, old(self).vram@, obj, x as int));
            if self.obj_line[x as usize].is_none() && px.color_id != 0 {
                self.obj_line[x as usize] = Some(px);
            }
            x = x + 1;
        }
        assert(self.obj_line@ =~= with_object(
            old(self).regs,
            old(self).vram@,
            old(self).obj_line@,
            obj,
        ));
    }

    pub fn read_obj_tile_line(&self, obj: OamEntry) -> (t: TileLine)
        requires
            self.wf(),
        ensures
            t == obj_tile_line(self.regs, self.vram@, obj),
    {
        let mut ret = TileLine::from_obj(obj, self.regs.is_cgb);
        if self.regs.lcdc.obj_size {
            let is_second = self.regs.line as u16 + 16 >= 8 + obj.ypos as u16;
            if is_second == ret.yflip {
                ret.id = ret.id - ret.id % 2;
            } else {
                ret.id = ret.id - ret.id % 2 + 1;
            }
        }
        ret.line = ((self.regs.line as u16 + 256 - obj.ypos as u16) % 8) as u8;
        ret.read_in_line(&self.vram, true);
        ret
    }

    pub fn get_tile_map_number(&self) -> (second_map: bool)
        ensures
            second_map == self@.tile_map_number(),
    {
        if self.regs.window {
            self.regs.lcdc.win_tile_map
        } else {
            self.regs.lcdc.bg_tile_map
        }
    }

    pub fn mix_bg_obj_pixels(&self, bg: Pixel, obj: Pixel) -> (px: Pixel)
        ensures
            px == spec_mix(self.regs.is_cgb, self.regs.lcdc.bg_win_priority, bg, obj),
    {
        if obj.color_id == 0 {
            return bg;
        }
        if bg.color_id == 0 {
            return obj;
        }
        if self.regs.is_cgb {
            if self.regs.lcdc.bg_win_priority && (bg.bg_priority || obj.bg_priority) {
                return bg;
            }
        } else if obj.bg_priority {
            return bg;
        }
        obj
    }
}

/// The mixing rule, case by case: a transparent object pixel shows the
/// background; over background colour 0 the object shows; otherwise the
/// object shows exactly when no priority bit that counts is set.
pub proof fn lemma_mix_table(is_cgb: bool, bg_win_priority: bool, bg: Pixel, obj: Pixel)
    ensures
        obj.color_id == 0 ==> spec_mix(is_cgb, bg_win_priority, bg, obj) == bg,
        obj.color_id != 0 && bg.color_id == 0 ==> spec_mix(is_cgb, bg_win_priority, bg, obj) == obj,
        obj.color_id != 0 && bg.color_id != 0 && !is_cgb ==> spec_mix(
            is_cgb,
            bg_win_priority,
            bg,
            obj,
        ) == if obj.bg_priority {
            bg
        } else {
            obj
        },
        obj.color_id != 0 && bg.color_id != 0 && is_cgb ==> spec_mix(
            is_cgb,
            bg_win_priority,
            bg,
            obj,
        ) == if bg_win_priority && (bg.bg_priority || obj.bg_priority) {
            bg
        } else {
            obj
        },
{
}

} // verus!
