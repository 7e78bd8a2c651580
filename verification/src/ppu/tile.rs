//! Tiles and objects as they lie in video memory.
use vstd::prelude::*;
use crate::info::SIZE_VRAM_BANK;
use crate::regs::{BgMapAttr, OamAttrs};

verus! {

/// One entry of the object attribute memory.
#[derive(Clone, Copy, Debug, PartialEq, Eq, Structural)]
pub struct OamEntry {
    /// Vertical position on the screen plus 16.
    pub ypos: u8,
    /// Horizontal position on the screen plus 8.
    pub xpos: u8,
    pub tile_id: u8,
    pub attrs: OamAttrs,
}

impl OamEntry {
    pub open spec fn spec_from_array(a: [u8; 4]) -> OamEntry {
        OamEntry { ypos: a[0], xpos: a[1], tile_id: a[2], attrs: OamAttrs::unpack(a[3]) }
    }

    pub fn from_array(a: [u8; 4]) -> (e: OamEntry)
        ensures
            e == OamEntry::spec_from_array(a),
            e.attrs.wf(),
    {
        OamEntry { ypos: a[0], xpos: a[1], tile_id: a[2], attrs: OamAttrs::new(a[3]) }
    }

    /// The object covers screen line `ly`, given the object height in use.
    pub open spec fn covers(self, ly: u8, tall: bool) -> bool {
        self.ypos <= ly + 16 && ly + 16 < self.ypos + (if tall {
            16int
        } else {
            8int
        })
    }
}

/// One row of eight pixels of a tile, with what is needed to colour it.
#[derive(Clone, Copy, Debug, PartialEq, Eq, Structural)]
pub struct TileLine {
    pub id: u8,
    /// Low bits of the colour numbers, the leftmost pixel in bit 7.
    pub low: u8,
    /// High bits of the colour numbers.
    pub high: u8,
    pub bank: bool,
    pub palette: u8,
    /// Row within the tile, 0 to 7.
    pub line: u8,
    pub bg_priority: bool,
    pub xflip: bool,
    pub yflip: bool,
}

/// The byte with its bits in reverse order.
pub open spec fn spec_reverse_bits(b: u8) -> u8 {
    ((b % 2) * 128 + ((b / 2) % 2) * 64 + ((b / 4) % 2) * 32 + ((b / 8) % 2) * 16 + ((b / 16) % 2)
        * 8 + ((b / 32) % 2) * 4 + ((b / 64) % 2) * 2 + (b / 128)) as u8
}

pub fn reverse_bits(b: u8) -> (r: u8)
    ensures
        r == spec_reverse_bits(b),
{
    (b % 2) * 128 + ((b / 2) % 2) * 64 + ((b / 4) % 2) * 32 + ((b / 8) % 2) * 16 + ((b / 16) % 2)
        * 8 + ((b / 32) % 2) * 4 + ((b / 64) % 2) * 2 + (b / 128)
}

/// Offset into a VRAM bank of the row data of tile `tile_id`. The signed
/// addressing mode (`unsigned` false) counts from 0x9000 with the id as a
/// signed number, the unsigned mode counts from 0x8000.
pub open spec fn spec_tile_data_vram_addr(unsigned: bool, tile_id: u8) -> int {
    if unsigned {
        tile_id * 16
    } else if tile_id < 128 {
        0x1000 + tile_id * 16
    } else {
        0x1000 + (tile_id - 256) * 16
    }
}

pub fn tile_data_vram_addr(unsigned: bool, tile_id: u8) -> (a: usize)
    ensures
        a == spec_tile_data_vram_addr(unsigned, tile_id),
        a + 16 <= 0x1800,
        a % 16 == 0,
{
    if unsigned {
        tile_id as usize * 16
    } else if tile_id < 128 {
        0x1000 + tile_id as usize * 16
    } else {
        0x1000 - (256 - tile_id as usize) * 16
    }
}

/// Offset into a VRAM bank of entry `(tx, ty)` of a tile map; the second
/// map starts at 0x9C00, the first at 0x9800.
pub open spec fn spec_tile_id_vram_addr(second_map: bool, tx: u8, ty: u8) -> int {
    (if second_map {
        0x1C00int
    } else {
        0x1800int
    }) + ty * 32 + tx
}

pub fn tile_id_vram_addr(second_map: bool, tx: u8, ty: u8) -> (a: usize)
    requires
        tx < 32,
        ty < 32,
    ensures
        a == spec_tile_id_vram_addr(second_map, tx, ty),
        a < SIZE_VRAM_BANK,
{
    let base: usize = if second_map {
        0x1C00
    } else {
        0x1800
    };
    base + (ty as usize) * 32 + (tx as usize)
}

/// Position in the video memory of offset `addr` of a bank.
pub open spec fn vram_index(bank: bool, addr: int) -> int {
    if bank {
        SIZE_VRAM_BANK + addr
    } else {
        addr
    }
}

proof fn lemma_color_bits(low: u8, high: u8, i: u8)
    by (bit_vector)
    requires
        i < 8,
    ensures
        ((low >> i) & 1) | (((high >> i) & 1) << 1) < 4,
{
}

impl TileLine {
    pub open spec fn wf(self) -> bool {
        self.line < 8
    }

    pub open spec fn blank() -> TileLine {
        TileLine {
            id: 0,
            low: 0,
            high: 0,
            bank: false,
            palette: 0,
            line: 0,
            bg_priority: false,
            xflip: false,
            yflip: false,
        }
    }

    /// The tile of an object, before its row is read.
    pub open spec fn spec_from_obj(obj: OamEntry, is_cgb: bool) -> TileLine {
        TileLine {
            id: obj.tile_id,
            bank: is_cgb && obj.attrs.bank,
            palette: if is_cgb {
                obj.attrs.cgb_palette
            } else if obj.attrs.dmg_palette {
                1
            } else {
                0
            },
            bg_priority: obj.attrs.bg_priority,
            xflip: obj.attrs.xflip,
            yflip: obj.attrs.yflip,
            ..TileLine::blank()
        }
    }

    /// The tile at `(tx, ty)` of a tile map, before its row is read. The
    /// ids are in bank 0; in colour mode bank 1 holds the attributes.
    pub open spec fn spec_from_tilemap(
        vram: Seq<u8>,
        second_map: bool,
        tx: u8,
        ty: u8,
        is_cgb: bool,
    ) -> TileLine {
        let addr = spec_tile_id_vram_addr(second_map, tx, ty);
        let attrs = BgMapAttr::unpack(
            if is_cgb {
                vram[vram_index(true, addr)]
            } else {
                0
            },
        );
        TileLine {
            id: vram[addr],
            bank: attrs.bank,
            xflip: attrs.xflip,
            yflip: attrs.yflip,
            bg_priority: attrs.priority,
            ..TileLine::blank()
        }
    }

    /// The tile with the two bytes of its row read in: the row counts from
    /// the bottom under a vertical flip, and the bytes are mirrored under a
    /// horizontal flip.
    pub open spec fn with_line_read(self, vram: Seq<u8>, unsigned: bool) -> TileLine {
        let yoffset = if self.yflip {
            7 - self.line
        } else {
            self.line as int
        };
        let addr = spec_tile_data_vram_addr(unsigned, self.id) + 2 * yoffset;
        let l = vram[vram_index(self.bank, addr)];
        let h = vram[vram_index(self.bank, addr + 1)];
        if self.xflip {
            TileLine { low: spec_reverse_bits(l), high: spec_reverse_bits(h), ..self }
        } else {
            TileLine { low: l, high: h, ..self }
        }
    }

    /// Colour number of the pixel in `column`, counted from the left.
    pub open spec fn color_id(self, column: u8) -> u8 {
        let i = (7 - column) as u8;
        ((self.low >> i) & 1) | (((self.high >> i) & 1) << 1)
    }

    pub fn from_obj(obj: OamEntry, is_cgb: bool) -> (t: TileLine)
        ensures
            t == TileLine::spec_from_obj(obj, is_cgb),
            t.wf(),
    {
        let (palette, bank): (u8, bool) = if is_cgb {
            (obj.attrs.cgb_palette, obj.attrs.bank)
        } else {
            (
                if obj.attrs.dmg_palette {
                    1
                } else {
                    0
                },
                false,
            )
        };
        TileLine {
            id: obj.tile_id,
            low: 0,
            high: 0,
            bank,
            palette,
            line: 0,
            bg_priority: obj.attrs.bg_priority,
            xflip: obj.attrs.xflip,
            yflip: obj.attrs.yflip,
        }
    }

    pub fn from_tilemap(vram: &Vec<u8>, second_map: bool, tx: u8, ty: u8, is_cgb: bool) -> (t:
        TileLine)
        requires
            vram.len() == 2 * SIZE_VRAM_BANK,
            tx < 32,
            ty < 32,
        ensures
            t == TileLine::spec_from_tilemap(vram@, second_map, tx, ty, is_cgb),
            t.wf(),
    {
        let addr = tile_id_vram_addr(second_map, tx, ty);
        let id = vram[addr];
        let attrs = BgMapAttr::new(
            if is_cgb {
                vram[SIZE_VRAM_BANK + addr]
            } else {
                0
            },
        );
        TileLine {
            id,
            low: 0,
            high: 0,
            bank: attrs.bank,
            palette: 0,
            line: 0,
            bg_priority: attrs.priority,
            xflip: attrs.xflip,
            yflip: attrs.yflip,
        }
    }

    pub fn read_in_line(&mut self, vram: &Vec<u8>, unsigned: bool)
        requires
            old(self).wf(),
            vram.len() == 2 * SIZE_VRAM_BANK,
        ensures
            *final(self) == old(self).with_line_read(vram@, unsigned),
            final(self).wf(),
    {
        let yoffset: usize = if self.yflip {
            7 - self.line as usize
        } else {
            self.line as usize
        };
        let addr = tile_data_vram_addr(unsigned, self.id) + 2 * yoffset;
        let base: usize = if self.bank {
            SIZE_VRAM_BANK
        } else {
            0
        };
        let l = vram[base + addr];
        let h = vram[base + addr + 1];
        if self.xflip {
            self.low = reverse_bits(l);
            self.high = reverse_bits(h);
        } else {
            self.low = l;
            self.high = h;
        }
    }

    pub fn get_color_id(&self, column: u8) -> (c: u8)
        requires
            column < 8,
        ensures
            c == self.color_id(column),
            c < 4,
    {
        let i: u8 = 7 - column;
        proof {
            lemma_color_bits(self.low, self.high, i);
        }
        ((self.low >> i) & 1) | (((self.high >> i) & 1) << 1)
    }
}

} // verus!
