//! Machine-wide constants and small shared enums.

use vstd::prelude::*;

verus! {

pub const GAMEBOY_WIDTH: usize = 160;

pub const GAMEBOY_HEIGHT: usize = 144;

/// Number of shade cells in one frame buffer (one per pixel).
pub const FRAME_PIXELS: usize = 160 * 144;

pub const TILES_PER_LINE: u16 = 32;

pub const TILE_HEIGHT: u16 = 8;

pub const TILE_WIDTH: u16 = 8;

pub const TILE_BYTES: u16 = 16;

/// Side length of the square background-map coordinate space the
/// scrolled coordinates wrap in.
pub const BG_MAP_SIZE: u16 = 256;

pub const SPRITE_BYTES: u16 = 4;

pub const NUM_SPRITES: u16 = 40;

pub const CLOCKS_PER_HBLANK: u32 = 204;

pub const CLOCKS_PER_SCANLINE_OAM: u32 = 80;

pub const CLOCKS_PER_SCANLINE_VRAM: u32 = 172;

pub const CLOCKS_PER_SCANLINE: u32 = CLOCKS_PER_HBLANK + CLOCKS_PER_SCANLINE_OAM
    + CLOCKS_PER_SCANLINE_VRAM;

pub const CLOCKS_PER_VBLANK: u32 = 4560;

pub const SCANLINE_PER_FRAME: u32 = 144;

pub const CLOCKS_PER_FRAME: u32 = CLOCKS_PER_SCANLINE * SCANLINE_PER_FRAME + CLOCKS_PER_VBLANK;

pub const CLOCK_RATE: u32 = 4194304;

/// Wall-clock pacing quantum, in milliseconds.
pub const STEP_TIME: u32 = 16;

/// Machine cycles in one pacing quantum: STEP_TIME ms at CLOCK_RATE Hz.
pub const STEP_CYCLES: u32 = CLOCK_RATE / 1000 * STEP_TIME;

/// The four states of the pixel-pipeline timing machine.
#[allow(non_camel_case_types)]
#[derive(Clone, Copy, PartialEq, Eq, Structural, Debug)]
pub enum VideoMode {
    HBLANK,
    VBLANK,
    ACCESS_OAM,
    ACCESS_VRAM,
}

/// Host-side gray levels for the four 2-bit shades.
#[derive(Clone, Copy, PartialEq, Eq, Structural, Debug)]
pub enum Color {
    White,
    LightGray,
    DarkGray,
    Gray,
}

impl Color {
    /// The 8-bit gray level a display consumer shows for this shade.
    pub fn level(&self) -> (r: u8)
        ensures
            r == self.spec_level(),
    {
        match self {
            Color::White => 0xff,
            Color::LightGray => 0xc0,
            Color::DarkGray => 0x60,
            Color::Gray => 0x00,
        }
    }

    pub open spec fn spec_level(&self) -> u8 {
        match self {
            Color::White => 0xff,
            Color::LightGray => 0xc0,
            Color::DarkGray => 0x60,
            Color::Gray => 0x00,
        }
    }

    /// The shade a 2-bit palette-resolved pixel value denotes.
    pub fn from_shade(shade: u8) -> (r: Color)
        requires
            shade < 4,
        ensures
            r == Self::spec_from_shade(shade),
    {
        if shade == 0 {
            Color::White
        } else if shade == 1 {
            Color::LightGray
        } else if shade == 2 {
            Color::DarkGray
        } else {
            Color::Gray
        }
    }

    pub open spec fn spec_from_shade(shade: u8) -> Color {
        if shade == 0 {
            Color::White
        } else if shade == 1 {
            Color::LightGray
        } else if shade == 2 {
            Color::DarkGray
        } else {
            Color::Gray
        }
    }
}

/// What the banking controller's 2-bit secondary register selects.
#[derive(Clone, Copy, PartialEq, Eq, Structural, Debug)]
pub enum BankMode {
    Rom,
    Ram,
}

} // verus!
