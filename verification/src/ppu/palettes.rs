//! Colour schemes for monochrome programs: each maps the four shades of
//! the background and of the two object palettes to colours.
use vstd::prelude::*;
use crate::msg::Color;

verus! {

/// Four colours, from the lightest shade to the darkest.
#[derive(Clone, Copy, Debug, PartialEq, Eq, Structural)]
pub struct Shades {
    pub c0: Color,
    pub c1: Color,
    pub c2: Color,
    pub c3: Color,
}

#[derive(Clone, Copy, Debug, PartialEq, Eq, Structural)]
pub struct DmgPalette {
    pub bg: Shades,
    pub obj0: Shades,
    pub obj1: Shades,
}

/// Number of colour schemes to cycle through.
pub const DMG_PALETTE_COUNT: usize = 4;

/// The scheme in use when the machine starts.
pub const DEFAULT_MONOCHROME: usize = 0;

impl Shades {
    /// The colour of shade `i`, 0 to 3.
    pub open spec fn spec_pick(self, i: u8) -> Color {
        if i % 4 == 0 {
            self.c0
        } else if i % 4 == 1 {
            self.c1
        } else if i % 4 == 2 {
            self.c2
        } else {
            self.c3
        }
    }

    pub fn pick(&self, i: u8) -> (c: Color)
        ensures
            c == self.spec_pick(i),
    {
        match i % 4 {
            0 => self.c0,
            1 => self.c1,
            2 => self.c2,
            _ => self.c3,
        }
    }

    pub open spec fn of(c0: u32, c1: u32, c2: u32, c3: u32) -> Shades {
        Shades {
            c0: Color::spec_from_hexcode(c0),
            c1: Color::spec_from_hexcode(c1),
            c2: Color::spec_from_hexcode(c2),
            c3: Color::spec_from_hexcode(c3),
        }
    }

    pub fn from_hexcodes(c0: u32, c1: u32, c2: u32, c3: u32) -> (s: Shades)
        ensures
            s == Shades::of(c0, c1, c2, c3),
    {
        Shades {
            c0: Color::from_hexcode(c0),
            c1: Color::from_hexcode(c1),
            c2: Color::from_hexcode(c2),
            c3: Color::from_hexcode(c3),
        }
    }
}

/// Colour scheme number `id`, counted modulo the number of schemes: greys,
/// the green of the first screen, a warm scheme with blue objects, and
/// a cold one.
pub open spec fn spec_dmg_palette(id: usize) -> DmgPalette {
    if id % DMG_PALETTE_COUNT == 0 {
        DmgPalette {
            bg: Shades::of(0xFFFFFF, 0xAAAAAA, 0x555555, 0x000000),
            obj0: Shades::of(0xFFFFFF, 0xAAAAAA, 0x555555, 0x000000),
            obj1: Shades::of(0xFFFFFF, 0xAAAAAA, 0x555555, 0x000000),
        }
    } else if id % DMG_PALETTE_COUNT == 1 {
        DmgPalette {
            bg: Shades::of(0xE0F8D0, 0x88C070, 0x346856, 0x081820),
            obj0: Shades::of(0xE0F8D0, 0x88C070, 0x346856, 0x081820),
            obj1: Shades::of(0xE0F8D0, 0x88C070, 0x346856, 0x081820),
        }
    } else if id % DMG_PALETTE_COUNT == 2 {
        DmgPalette {
            bg: Shades::of(0xFFF6D3, 0xF9A875, 0xEB6B6F, 0x7C3F58),
            obj0: Shades::of(0xFFFFFF, 0x63A5FF, 0x0000FF, 0x000000),
            obj1: Shades::of(0xFFFFFF, 0xFF8484, 0x943A3A, 0x000000),
        }
    } else {
        DmgPalette {
            bg: Shades::of(0xE3EEC0, 0xAEBA89, 0x5E6745, 0x202020),
            obj0: Shades::of(0xC4F0C2, 0x5AB9A8, 0x1E606E, 0x2D1B00),
            obj1: Shades::of(0xFFEFFF, 0xF7B58C, 0x84739C, 0x181010),
        }
    }
}

pub fn dmg_palette(id: usize) -> (p: DmgPalette)
    ensures
        p == spec_dmg_palette(id),
{
    match id % DMG_PALETTE_COUNT {
        0 => DmgPalette {
            bg: Shades::from_hexcodes(0xFFFFFF, 0xAAAAAA, 0x555555, 0x000000),
            obj0: Shades::from_hexcodes(0xFFFFFF, 0xAAAAAA, 0x555555, 0x000000),
            obj1: Shades::from_hexcodes(0xFFFFFF, 0xAAAAAA, 0x555555, 0x000000),
        },
        1 => DmgPalette {
            bg: Shades::from_hexcodes(0xE0F8D0, 0x88C070, 0x346856, 0x081820),
            obj0: Shades::from_hexcodes(0xE0F8D0, 0x88C070, 0x346856, 0x081820),
            obj1: Shades::from_hexcodes(0xE0F8D0, 0x88C070, 0x346856, 0x081820),
        },
        2 => DmgPalette {
            bg: Shades::from_hexcodes(0xFFF6D3, 0xF9A875, 0xEB6B6F, 0x7C3F58),
            obj0: Shades::from_hexcodes(0xFFFFFF, 0x63A5FF, 0x0000FF, 0x000000),
            obj1: Shades::from_hexcodes(0xFFFFFF, 0xFF8484, 0x943A3A, 0x000000),
        },
        _ => DmgPalette {
            bg: Shades::from_hexcodes(0xE3EEC0, 0xAEBA89, 0x5E6745, 0x202020),
            obj0: Shades::from_hexcodes(0xC4F0C2, 0x5AB9A8, 0x1E606E, 0x2D1B00),
            obj1: Shades::from_hexcodes(0xFFEFFF, 0xF7B58C, 0x84739C, 0x181010),
        },
    }
}

} // verus!
