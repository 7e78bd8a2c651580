//! Messages between the host and the emulator, and the values they carry.
use vstd::prelude::*;
use crate::info::{SCREEN_HEIGHT, SCREEN_WIDTH};
use crate::regs::{ActionButtons, DPad};

verus! {

/// Number of pixels of a frame.
pub const FRAME_PIXELS: usize = 23040;

/// A colour with eight bits per component.
#[derive(Clone, Copy, Debug, PartialEq, Eq, Structural)]
pub struct Color {
    pub r: u8,
    pub g: u8,
    pub b: u8,
}

/// One picture of the screen, 160 by 144 pixels.
pub struct VideoFrame {
    pub pixels: Vec<Color>,
}

impl Color {
    /// The colour written as 0xRRGGBB; higher bits are ignored.
    pub open spec fn spec_from_hexcode(hexcode: u32) -> Color {
        Color {
            r: ((hexcode / 65536) % 256) as u8,
            g: ((hexcode / 256) % 256) as u8,
            b: (hexcode % 256) as u8,
        }
    }

    pub open spec fn black() -> Color {
        Color { r: 0, g: 0, b: 0 }
    }

    pub fn from_hexcode(hexcode: u32) -> (c: Color)
        ensures
            c == Color::spec_from_hexcode(hexcode),
    {
        Color {
            r: ((hexcode / 65536) % 256) as u8,
            g: ((hexcode / 256) % 256) as u8,
            b: (hexcode % 256) as u8,
        }
    }
}

impl View for VideoFrame {
    type V = Seq<Color>;

    /// The pixels row by row, the top row first.
    open spec fn view(&self) -> Seq<Color> {
        self.pixels@
    }
}

/// Position of pixel `(x, y)` in a frame.
pub open spec fn pixel_index(x: int, y: int) -> int {
    y * SCREEN_WIDTH + x
}

impl VideoFrame {
    pub open spec fn wf(&self) -> bool {
        self.pixels@.len() == FRAME_PIXELS
    }

    /// An all-black frame.
    pub fn new() -> (f: VideoFrame)
        ensures
            f.wf(),
            f@ == Seq::new(FRAME_PIXELS as nat, |i: int| Color::black()),
    {
        let mut pixels: Vec<Color> = Vec::new();
        let mut i: usize = 0;
        while i < FRAME_PIXELS
            invariant
                i <= FRAME_PIXELS,
                pixels@ == Seq::new(i as nat, |k: int| Color::black()),
            decreases FRAME_PIXELS - i,
        {
            pixels.push(Color { r: 0, g: 0, b: 0 });
            i = i + 1;
            assert(pixels@ =~= Seq::new(i as nat, |k: int| Color::black()));
        }
        VideoFrame { pixels }
    }

    pub fn get(&self, x: usize, y: usize) -> (c: Color)
        requires
            self.wf(),
            x < SCREEN_WIDTH,
            y < SCREEN_HEIGHT,
        ensures
            c == self@[pixel_index(x as int, y as int)],
    {
        self.pixels[y * SCREEN_WIDTH + x]
    }

    pub fn set(&mut self, x: usize, y: usize, color: Color)
        requires
            old(self).wf(),
            x < SCREEN_WIDTH,
            y < SCREEN_HEIGHT,
        ensures
            final(self)@ == old(self)@.update(pixel_index(x as int, y as int), color),
            final(self).wf(),
    {
        self.pixels[y * SCREEN_WIDTH + x] = color;
    }

    pub fn set_all(&mut self, color: Color)
        requires
            old(self).wf(),
        ensures
            final(self)@ == Seq::new(FRAME_PIXELS as nat, |i: int| color),
            final(self).wf(),
    {
        let mut i: usize = 0;
        while i < FRAME_PIXELS
            invariant
                i <= FRAME_PIXELS,
                self.pixels@.len() == FRAME_PIXELS,
                forall|k: int| 0 <= k < i ==> self.pixels@[k] == color,
            decreases FRAME_PIXELS - i,
        {
            self.pixels[i] = color;
            i = i + 1;
        }
        assert(self.pixels@ =~= Seq::new(FRAME_PIXELS as nat, |i: int| color));
    }

    /// A copy of the frame.
    pub fn duplicate(&self) -> (f: VideoFrame)
        requires
            self.wf(),
        ensures
            f@ == self@,
            f.wf(),
    {
        let mut pixels: Vec<Color> = Vec::new();
        let mut i: usize = 0;
        while i < FRAME_PIXELS
            invariant
                i <= FRAME_PIXELS,
                self.pixels@.len() == FRAME_PIXELS,
                pixels@ == self.pixels@.subrange(0, i as int),
            decreases FRAME_PIXELS - i,
        {
            pixels.push(self.pixels[i]);
            i = i + 1;
            assert(pixels@ =~= self.pixels@.subrange(0, i as int));
        }
        assert(pixels@ =~= self.pixels@);
        VideoFrame { pixels }
    }
}

impl Default for VideoFrame {
    fn default() -> (f: VideoFrame)
        ensures
            f.wf(),
            f@ == Seq::new(FRAME_PIXELS as nat, |i: int| Color::black()),
    {
        VideoFrame::new()
    }
}

impl Default for Color {
    fn default() -> (c: Color)
        ensures
            c == Color::black(),
    {
        Color { r: 0, g: 0, b: 0 }
    }
}

/// Which buttons are held down.
#[derive(Clone, Copy, Debug, PartialEq, Eq, Structural)]
pub struct ButtonState {
    pub a: bool,
    pub b: bool,
    pub select: bool,
    pub start: bool,
    pub up: bool,
    pub down: bool,
    pub left: bool,
    pub right: bool,
}

impl ButtonState {
    pub open spec fn released() -> ButtonState {
        ButtonState {
            a: false,
            b: false,
            select: false,
            start: false,
            up: false,
            down: false,
            left: false,
            right: false,
        }
    }

    pub open spec fn dpad(self) -> DPad {
        DPad { right: self.right, left: self.left, up: self.up, down: self.down }
    }

    pub open spec fn buttons(self) -> ActionButtons {
        ActionButtons { a: self.a, b: self.b, select: self.select, start: self.start }
    }

    /// The two button groups as the joypad register shows them.
    pub fn to_internal_repr(self) -> (r: (DPad, ActionButtons))
        ensures
            r == (self.dpad(), self.buttons()),
    {
        let dpad = DPad { right: self.right, left: self.left, up: self.up, down: self.down };
        let btns = ActionButtons { a: self.a, b: self.b, select: self.select, start: self.start };
        (dpad, btns)
    }
}

impl Default for ButtonState {
    fn default() -> (s: ButtonState)
        ensures
            s == ButtonState::released(),
    {
        ButtonState {
            a: false,
            b: false,
            select: false,
            start: false,
            up: false,
            down: false,
            left: false,
            right: false,
        }
    }
}

/// What the host asks of the emulator.
#[derive(Clone, Copy, Debug, PartialEq, Eq, Structural)]
pub enum Request {
    /// Start executing the program.
    Start,
    /// The buttons that are held down from now on.
    UpdateButtonState(ButtonState),
    /// Show monochrome programs in the next colour scheme.
    CyclePalette,
    /// Ask for the latest complete picture.
    GetVideoFrame,
    /// Ask for the cartridge title.
    GetTitle,
    /// Ask for the clock rate actually reached.
    GetFrequency,
    /// Stop; the reply carries the saved state where one is asked for.
    Shutdown { save_state: bool },
}

/// What the emulator answers.
pub enum Reply {
    VideoFrame(Box<VideoFrame>),
    /// The printable ASCII characters of the title in the cartridge header.
    Title(Vec<u8>),
    /// The clock rate reached, in Hz.
    Frequency(u32),
    ShuttingDown(Option<Vec<u8>>),
}

} // verus!
