//! Constants shared by the components: clock rates, memory sizes, the
//! address map, register addresses and the cartridge header layout.
use vstd::prelude::*;

verus! {

/// Master clock in Hz (dots per second).
pub const FREQUENCY: u32 = 4194304;

/// CPU clock in double-speed mode.
pub const FREQUENCY_2X: u32 = 8388608;

pub const SIZE_ROM_BANK: usize = 16384;

pub const SIZE_VRAM_BANK: usize = 8192;

pub const SIZE_EXT_RAM_BANK: usize = 8192;

pub const SIZE_WRAM_BANK: usize = 4096;

pub const SIZE_OAM: usize = 160;

pub const SIZE_HRAM: usize = 127;

pub const SIZE_AUDIO_WAVE_RAM: usize = 16;

pub const VRAM_BANKS: usize = 2;

pub const WRAM_BANKS: usize = 8;

/// Bytes of one colour palette memory: 8 palettes of 4 colours of 2 bytes.
pub const SIZE_CGB_PALETTE: usize = 64;

pub const OAM_ENTRIES: usize = 40;

pub const MAX_OBJ_PER_LINE: usize = 10;

pub const SCREEN_WIDTH: usize = 160;

pub const SCREEN_HEIGHT: usize = 144;

/// Width and height of the screen in pixels.
pub const SCREEN_RESOLUTION: (usize, usize) = (160, 144);

// Starts of the tile data blocks and tile maps, as CPU addresses.
pub const TILE_BLOCK0: usize = 0x8000;

pub const TILE_BLOCK2: usize = 0x9000;

pub const TILE_MAP0: usize = 0x9800;

pub const TILE_MAP1: usize = 0x9C00;

pub const TILE_SIZE: usize = 16;

// PPU modes as reported in STAT.
pub const MODE_HBLANK: u8 = 0;

pub const MODE_VBLANK: u8 = 1;

pub const MODE_SCAN: u8 = 2;

pub const MODE_DRAW: u8 = 3;

// I/O register addresses.
pub const IO_JOYPAD: u16 = 0xFF00;

pub const IO_SB: u16 = 0xFF01;

pub const IO_SC: u16 = 0xFF02;

pub const IO_DIV: u16 = 0xFF04;

pub const IO_TIMA: u16 = 0xFF05;

pub const IO_TMA: u16 = 0xFF06;

pub const IO_TAC: u16 = 0xFF07;

pub const IO_IF: u16 = 0xFF0F;

pub const IO_IE: u16 = 0xFFFF;

pub const IO_NR10: u16 = 0xFF10;

pub const IO_NR11: u16 = 0xFF11;

pub const IO_NR12: u16 = 0xFF12;

pub const IO_NR13: u16 = 0xFF13;

pub const IO_NR14: u16 = 0xFF14;

pub const IO_NR21: u16 = 0xFF16;

pub const IO_NR22: u16 = 0xFF17;

pub const IO_NR23: u16 = 0xFF18;

pub const IO_NR24: u16 = 0xFF19;

pub const IO_NR30: u16 = 0xFF1A;

pub const IO_NR31: u16 = 0xFF1B;

pub const IO_NR32: u16 = 0xFF1C;

pub const IO_NR33: u16 = 0xFF1D;

pub const IO_NR34: u16 = 0xFF1E;

pub const IO_NR41: u16 = 0xFF20;

pub const IO_NR42: u16 = 0xFF21;

pub const IO_NR43: u16 = 0xFF22;

pub const IO_NR44: u16 = 0xFF23;

pub const IO_NR50: u16 = 0xFF24;

pub const IO_NR51: u16 = 0xFF25;

pub const IO_NR52: u16 = 0xFF26;

pub const IO_WAVE_RAM_FIRST: u16 = 0xFF30;

pub const IO_WAVE_RAM_LAST: u16 = 0xFF3F;

pub const IO_LCDC: u16 = 0xFF40;

pub const IO_STAT: u16 = 0xFF41;

pub const IO_SCY: u16 = 0xFF42;

pub const IO_SCX: u16 = 0xFF43;

pub const IO_LY: u16 = 0xFF44;

pub const IO_LYC: u16 = 0xFF45;

pub const IO_DMA: u16 = 0xFF46;

pub const IO_BGP: u16 = 0xFF47;

pub const IO_OBP0: u16 = 0xFF48;

pub const IO_OBP1: u16 = 0xFF49;

pub const IO_WY: u16 = 0xFF4A;

pub const IO_WX: u16 = 0xFF4B;

pub const IO_KEY1: u16 = 0xFF4D;

pub const IO_VBK: u16 = 0xFF4F;

pub const IO_RP: u16 = 0xFF56;

pub const IO_BGPI: u16 = 0xFF68;

pub const IO_BGPD: u16 = 0xFF69;

pub const IO_OBPI: u16 = 0xFF6A;

pub const IO_OBPD: u16 = 0xFF6B;

pub const IO_OPRI: u16 = 0xFF6C;

pub const IO_SVBK: u16 = 0xFF70;

// Cartridge header.
pub const CART_TITLE_FIRST: usize = 0x134;

pub const CART_TITLE_LAST: usize = 0x143;

pub const CART_CGB_FLAG: usize = 0x143;

pub const CART_TYPE: usize = 0x147;

pub const CART_ROM_SIZE: usize = 0x148;

pub const CART_RAM_SIZE: usize = 0x149;

/// Header value of a cartridge that runs in colour mode only.
pub const CART_CGB_ONLY: u8 = 0xC0;

/// Header value of a colour cartridge that also runs on the monochrome machine.
pub const CART_CGB_TOO: u8 = 0x80;

// Interrupt vectors.
pub const INT_VBLANK_VEC: u16 = 0x40;

pub const INT_STAT_VEC: u16 = 0x48;

pub const INT_TIMER_VEC: u16 = 0x50;

pub const INT_SERIAL_VEC: u16 = 0x58;

pub const INT_JOYPAD_VEC: u16 = 0x60;

} // verus!
