//! A screen-sized grid of colours.
use vstd::prelude::*;
use crate::info::{SCREEN_HEIGHT, SCREEN_WIDTH};

verus! {

/// Number of pixels of a frame.
pub const FRAME_PIXELS: usize = 23040;

/// A colour with eight bits per component.
#[derive(Clone, Copy, Debug, PartialEq, Eq, Structural)]
pub struct Color {
    pub r: u8,
    pub g: u8,
    pub b: u8,
}

/// One picture of the screen, 160 by 144 pixels.
pub struct Frame {
    pub pixels: Vec<Color>,
}

impl Color {
    /// The colour written as 0xRRGGBB; higher bits are ignored.
    pub open spec fn spec_from_hexcode(hexcode: u32) -> Color {
        Color {
            r: ((hexcode / 65536) % 256) as u8,
            g: ((hexcode / 256) % 256) as u8,
            b: (hexcode % 256) as u8,
        }
    }

    pub open spec fn black() -> Color {
        Color { r: 0, g: 0, b: 0 }
    }

    pub fn from_hexcode(hexcode: u32) -> (c: Color)
        ensures
            c == Color::spec_from_hexcode(hexcode),
    {
        Color {
            r: ((hexcode / 65536) % 256) as u8,
            g: ((hexcode / 256) % 256) as u8,
            b: (hexcode % 256) as u8,
        }
    }
}

impl View for Frame {
    type V = Seq<Color>;

    /// The pixels row by row, the top row first.
    open spec fn view(&self) -> Seq<Color> {
        self.pixels@
    }
}

/// Position of pixel `(x, y)` in a frame.
pub open spec fn pixel_index(x: int, y: int) -> int {
    y * SCREEN_WIDTH + x
}

impl Frame {
    pub open spec fn wf(&self) -> bool {
        self.pixels@.len() == FRAME_PIXELS
    }

    /// An all-black frame.
    pub fn new() -> (f: Frame)
        ensures
            f.wf(),
            f@ == Seq::new(FRAME_PIXELS as nat, |i: int| Color::black()),
    {
        let mut pixels: Vec<Color> = Vec::new();
        let mut i: usize = 0;
        while i < FRAME_PIXELS
            invariant
                i <= FRAME_PIXELS,
                pixels@ == Seq::new(i as nat, |k: int| Color::black()),
            decreases FRAME_PIXELS - i,
        {
            pixels.push(Color { r: 0, g: 0, b: 0 });
            i = i + 1;
            assert(pixels@ =~= Seq::new(i as nat, |k: int| Color::black()));
        }
        Frame { pixels }
    }

    pub fn get(&self, x: usize, y: usize) -> (c: Color)
        requires
            self.wf(),
            x < SCREEN_WIDTH,
            y < SCREEN_HEIGHT,
        ensures
            c == self@[pixel_index(x as int, y as int)],
    {
        self.pixels[y * SCREEN_WIDTH + x]
    }

    pub fn set(&mut self, x: usize, y: usize, color: Color)
        requires
            old(self).wf(),
            x < SCREEN_WIDTH,
            y < SCREEN_HEIGHT,
        ensures
            final(self)@ == old(self)@.update(pixel_index(x as int, y as int), color),
            final(self).wf(),
    {
        self.pixels[y * SCREEN_WIDTH + x] = color;
    }

    pub fn set_all(&mut self, color: Color)
        requires
            old(self).wf(),
        ensures
            final(self)@ == Seq::new(FRAME_PIXELS as nat, |i: int| color),
            final(self).wf(),
    {
        let mut i: usize = 0;
        while i < FRAME_PIXELS
            invariant
                i <= FRAME_PIXELS,
                self.pixels@.len() == FRAME_PIXELS,
                forall|k: int| 0 <= k < i ==> self.pixels@[k] == color,
            decreases FRAME_PIXELS - i,
        {
            self.pixels[i] = color;
            i = i + 1;
        }
        assert(self.pixels@ =~= Seq::new(FRAME_PIXELS as nat, |i: int| color));
    }

    /// A copy of the frame.
    pub fn duplicate(&self) -> (f: Frame)
        requires
            self.wf(),
        ensures
            f@ == self@,
            f.wf(),
    {
        let mut pixels: Vec<Color> = Vec::new();
        let mut i: usize = 0;
        while i < FRAME_PIXELS
            invariant
                i <= FRAME_PIXELS,
                self.pixels@.len() == FRAME_PIXELS,
                pixels@ == self.pixels@.subrange(0, i as int),
            decreases FRAME_PIXELS - i,
        {
            pixels.push(self.pixels[i]);
            i = i + 1;
            assert(pixels@ =~= self.pixels@.subrange(0, i as int));
        }
        assert(pixels@ =~= self.pixels@);
        Frame { pixels }
    }
}

impl Default for Frame {
    fn default() -> (f: Frame)
        ensures
            f.wf(),
            f@ == Seq::new(FRAME_PIXELS as nat, |i: int| Color::black()),
    {
        Frame::new()
    }
}

impl Default for Color {
    fn default() -> (c: Color)
        ensures
            c == Color::black(),
    {
        Color { r: 0, g: 0, b: 0 }
    }
}

} // verus!
