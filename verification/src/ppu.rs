//! Pixel pipeline: a four-state timing machine driving scanline and
//! sprite rendering into a one-shade-per-pixel frame buffer.
//!
//! Per scanline the machine spends 80 cycles scanning the sprite table,
//! 172 accessing video memory and 204 in horizontal blank (456 in all);
//! after 144 lines it spends 4560 cycles in vertical blank, for a frame
//! budget of 70224 cycles.  Background and window rows are rendered on
//! the hblank transition; sprites are composited once per frame when
//! vertical blank completes.

use vstd::prelude::*;
use crate::defs::VideoMode;
use crate::util::{zero_vec, set_mask, spec_set_mask, p2, pow2_u8, bit_of};

verus! {

/// The pixel pipeline's state, as contracts speak of it.
pub ghost struct PpuView {
    pub frame: Seq<u8>,
    pub vram: Seq<u8>,
    pub oam: Seq<u8>,
    pub lcdc: u8,
    pub stat: u8,
    pub scroll_x: u8,
    pub scroll_y: u8,
    pub line: u8,
    pub lyc: u8,
    pub wx: u8,
    pub wy: u8,
    pub bgp: u8,
    pub obp0: u8,
    pub obp1: u8,
    pub mode: VideoMode,
    pub v_blank: bool,
    pub cycles: u32,
}

pub struct PPU {
    /// One 2-bit shade per pixel, row-major, 160 x 144.
    pub frame_buffer: Vec<u8>,
    pub vram: Vec<u8>,
    pub oamram: Vec<u8>,
    pub lcd_control: u8,
    pub lcd_status: u8,
    pub scroll_x: u8,
    pub scroll_y: u8,
    pub line: u8,
    pub ly_compare: u8,
    pub window_x: u8,
    pub window_y: u8,
    pub bg_palette: u8,
    pub sprite_palette0: u8,
    pub sprite_palette1: u8,
    pub mode: VideoMode,
    /// Set when a frame completes; the display consumer clears it.
    pub v_blank: bool,
    /// Cycles spent so far in the current mode.
    pub cycles: u32,
    pub debug: bool,
}

impl View for PPU {
    type V = PpuView;

    open spec fn view(&self) -> PpuView {
        PpuView {
            frame: self.frame_buffer@,
            vram: self.vram@,
            oam: self.oamram@,
            lcdc: self.lcd_control,
            stat: self.lcd_status,
            scroll_x: self.scroll_x,
            scroll_y: self.scroll_y,
            line: self.line,
            lyc: self.ly_compare,
            wx: self.window_x,
            wy: self.window_y,
            bgp: self.bg_palette,
            obp0: self.sprite_palette0,
            obp1: self.sprite_palette1,
            mode: self.mode,
            v_blank: self.v_blank,
            cycles: self.cycles,
        }
    }
}

/// The three buffers have their fixed sizes.
pub open spec fn sizes_ok(v: PpuView) -> bool {
    &&& v.frame.len() == 160 * 144
    &&& v.vram.len() == 0x2000
    &&& v.oam.len() == 0xA0
}

pub open spec fn view_wf(v: PpuView) -> bool {
    &&& sizes_ok(v)
    &&& v.cycles < 456
}

/// The byte video memory holds at bus address `addr`.
pub open spec fn vram_at(v: PpuView, addr: int) -> u8 {
    if 0x8000 <= addr < 0xA000 {
        v.vram[addr - 0x8000]
    } else {
        0u8
    }
}

/// The shade a palette register maps color index `ci` to.
pub open spec fn palette_shade(pal: u8, ci: int) -> u8 {
    if ci == 0 {
        (pal % 4) as u8
    } else if ci == 1 {
        ((pal / 4) % 4) as u8
    } else if ci == 2 {
        ((pal / 16) % 4) as u8
    } else {
        ((pal / 64) % 4) as u8
    }
}

/// Tile-data byte offset of `tile_id` under unsigned (0x8000-based) or
/// signed (0x8800-based) tile addressing.
pub open spec fn tile_data_offset(unsigned: bool, tile_id: u8) -> int {
    (if unsigned {
        tile_id as int
    } else if tile_id < 128 {
        tile_id + 128
    } else {
        tile_id - 128
    }) * 16
}

pub open spec fn spec_lcd_enabled(v: PpuView) -> bool {
    bit_of(v.lcdc, 7) == 1
}

pub open spec fn spec_window_tile_map(v: PpuView) -> bool {
    bit_of(v.lcdc, 6) == 1
}

pub open spec fn spec_window_enabled(v: PpuView) -> bool {
    bit_of(v.lcdc, 5) == 1
}

pub open spec fn spec_bg_window_tile_data(v: PpuView) -> bool {
    bit_of(v.lcdc, 4) == 1
}

pub open spec fn spec_bg_tile_map(v: PpuView) -> bool {
    bit_of(v.lcdc, 3) == 1
}

pub open spec fn spec_sprite_size(v: PpuView) -> bool {
    bit_of(v.lcdc, 2) == 1
}

pub open spec fn spec_sprite_enabled(v: PpuView) -> bool {
    bit_of(v.lcdc, 1) == 1
}

pub open spec fn spec_bg_enabled(v: PpuView) -> bool {
    bit_of(v.lcdc, 0) == 1
}

/// The 2-bit color index of pixel column `px` (0 = leftmost) in the tile
/// line whose two data bytes are `p1` and `p2`.
pub open spec fn tile_line_color(p1: u8, p2: u8, px: int) -> int {
    bit_of(p2, 7 - px) * 2 + bit_of(p1, 7 - px)
}

/// The background shade of screen column `x` on line `v.line`: the
/// scrolled coordinate wraps in the background-map space, resolves a tile
/// index from the selected tile map, reads the tile's 2-bit pixel from
/// the selected tile-data area, and maps it through the background
/// palette.
pub open spec fn bg_shade(v: PpuView, x: int) -> u8 {
    let sx = x + v.scroll_x;
    let sy = v.line + v.scroll_y;
    let bx = sx % 256;
    let by = sy % 256;
    let tile_index = (by / 8) * 32 + bx / 8;
    let map = if spec_bg_tile_map(v) {
        0x9C00int
    } else {
        0x9800int
    };
    let tile_id = vram_at(v, map + tile_index);
    let tset = if spec_bg_window_tile_data(v) {
        0x8000int
    } else {
        0x8800int
    };
    let taddr = tset + tile_data_offset(spec_bg_window_tile_data(v), tile_id) + (by % 8) * 2;
    let p1 = vram_at(v, taddr);
    let p2 = vram_at(v, taddr + 1);
    palette_shade(v.bgp, tile_line_color(p1, p2, bx % 8))
}

/// The window-map source row for the current line: `v.line - v.wy`.
/// The window is active only once the line has reached its Y position.
pub open spec fn window_row(v: PpuView) -> int {
    v.line - v.wy
}

/// The screen column of the window's left edge: `v.wx - 7` (negative
/// when WX is below 7, which puts the whole line inside the window).
pub open spec fn window_origin(v: PpuView) -> int {
    v.wx - 7
}

/// The window-map source column for screen column `x`: columns are
/// counted from the window's left edge.
pub open spec fn window_col(v: PpuView, x: int) -> int {
    x - window_origin(v)
}

/// The window shade of screen column `x` on line `v.line`.
pub open spec fn window_shade(v: PpuView, x: int) -> u8 {
    let sx = window_col(v, x);
    let sy = window_row(v);
    let tile_index = (sy / 8) * 32 + sx / 8;
    let map = if spec_window_tile_map(v) {
        0x9C00int
    } else {
        0x9800int
    };
    let tile_id = vram_at(v, map + tile_index);
    let tset = if spec_bg_window_tile_data(v) {
        0x8000int
    } else {
        0x8800int
    };
    let taddr = tset + tile_data_offset(spec_bg_window_tile_data(v), tile_id) + (sy % 8) * 2;
    let p1 = vram_at(v, taddr);
    let p2 = vram_at(v, taddr + 1);
    palette_shade(v.bgp, tile_line_color(p1, p2, sx % 8))
}

/// The frame after the background pass has drawn line `v.line`.
pub open spec fn bg_row_applied(v: PpuView) -> Seq<u8> {
    if v.line < 144 {
        Seq::new(v.frame.len(), |k: int| if k / 160 == v.line {
            bg_shade(v, k % 160)
        } else {
            v.frame[k]
        })
    } else {
        v.frame
    }
}

/// The frame after the window pass has drawn line `v.line`: active
/// only once the line has reached the window's Y position, and only at
/// screen columns at or right of the window's left edge (WX - 7);
/// every other pixel is untouched.
pub open spec fn window_row_applied(v: PpuView) -> Seq<u8> {
    if v.line < 144 && v.line >= v.wy {
        Seq::new(v.frame.len(), |k: int| if k / 160 == v.line && k % 160 >= window_origin(v) {
            window_shade(v, k % 160)
        } else {
            v.frame[k]
        })
    } else {
        v.frame
    }
}

/// The frame after the hblank transition has rendered line `v.line`:
/// nothing while the LCD is off; else the background pass when the
/// background is enabled, then the window pass when the window is
/// enabled.
pub open spec fn render_scanline_spec(v: PpuView) -> Seq<u8> {
    if !spec_lcd_enabled(v) {
        v.frame
    } else {
        let f1 = if spec_bg_enabled(v) {
            bg_row_applied(v)
        } else {
            v.frame
        };
        if spec_window_enabled(v) {
            window_row_applied(PpuView { frame: f1, ..v })
        } else {
            f1
        }
    }
}

impl PPU {
    pub open spec fn wf(&self) -> bool {
        view_wf(self@)
    }

    pub fn new() -> (r: PPU)
        ensures
            r.wf(),
            r@.frame == Seq::new(160 * 144, |i: int| 0u8),
            r@.vram == Seq::new(0x2000, |i: int| 0u8),
            r@.oam == Seq::new(0xA0, |i: int| 0u8),
            r@.lcdc == 0u8,
            r@.stat == 0u8,
            r@.scroll_x == 0u8,
            r@.scroll_y == 0u8,
            r@.line == 0u8,
            r@.lyc == 0u8,
            r@.wx == 0u8,
            r@.wy == 0u8,
            r@.bgp == 0u8,
            r@.obp0 == 0u8,
            r@.obp1 == 0u8,
            r@.mode == VideoMode::ACCESS_OAM,
            r@.v_blank == false,
            r@.cycles == 0u32,
    {
        PPU {
            frame_buffer: zero_vec(160 * 144),
            vram: zero_vec(0x2000),
            oamram: zero_vec(0xA0),
            lcd_control: 0,
            lcd_status: 0,
            scroll_x: 0,
            scroll_y: 0,
            line: 0,
            ly_compare: 0,
            window_x: 0,
            window_y: 0,
            bg_palette: 0,
            sprite_palette0: 0,
            sprite_palette1: 0,
            mode: VideoMode::ACCESS_OAM,
            v_blank: false,
            cycles: 0,
            debug: false,
        }
    }

    pub fn set_debug(&mut self)
        ensures
            *final(self) == (PPU { debug: true, ..*old(self) }),
    {
        self.debug = true;
    }

    pub fn lcd_enabled(&self) -> (r: bool)
        ensures
            r == spec_lcd_enabled(self@),
    {
        (self.lcd_control / 128) % 2 == 1
    }

    pub fn window_tile_map(&self) -> (r: bool)
        ensures
            r == spec_window_tile_map(self@),
    {
        (self.lcd_control / 64) % 2 == 1
    }

    pub fn window_enabled(&self) -> (r: bool)
        ensures
            r == spec_window_enabled(self@),
    {
        (self.lcd_control / 32) % 2 == 1
    }

    pub fn bg_window_tile_data(&self) -> (r: bool)
        ensures
            r == spec_bg_window_tile_data(self@),
    {
        (self.lcd_control / 16) % 2 == 1
    }

    pub fn bg_tile_map(&self) -> (r: bool)
        ensures
            r == spec_bg_tile_map(self@),
    {
        (self.lcd_control / 8) % 2 == 1
    }

    pub fn sprite_size(&self) -> (r: bool)
        ensures
            r == spec_sprite_size(self@),
    {
        (self.lcd_control / 4) % 2 == 1
    }

    pub fn sprite_enabled(&self) -> (r: bool)
        ensures
            r == spec_sprite_enabled(self@),
    {
        (self.lcd_control / 2) % 2 == 1
    }

    pub fn bg_enabled(&self) -> (r: bool)
        ensures
            r == spec_bg_enabled(self@),
    {
        proof {
            assert(self.lcd_control as int / 1int == self.lcd_control as int);
        }
        self.lcd_control % 2 == 1
    }

    /// What a read of a PPU-owned address returns.
    pub open spec fn spec_read(v: PpuView, addr: u16) -> u8 {
        if 0x8000 <= addr <= 0x9FFF {
            v.vram[addr - 0x8000]
        } else if 0xFE00 <= addr <= 0xFE9F {
            v.oam[addr - 0xFE00]
        } else if addr == 0xFF40 {
            v.lcdc
        } else if addr == 0xFF41 {
            v.stat
        } else if addr == 0xFF42 {
            v.scroll_y
        } else if addr == 0xFF43 {
            v.scroll_x
        } else if addr == 0xFF44 {
            v.line
        } else if addr == 0xFF45 {
            v.lyc
        } else if addr == 0xFF47 {
            v.bgp
        } else if addr == 0xFF48 {
            v.obp0
        } else if addr == 0xFF49 {
            v.obp1
        } else if addr == 0xFF4A {
            v.wy
        } else {
            v.wx
        }
    }

    /// Whether `addr` belongs to the PPU: video memory, the sprite table,
    /// or one of its control, position and palette registers.
    pub open spec fn owns(addr: u16) -> bool {
        (0x8000 <= addr <= 0x9FFF) || (0xFE00 <= addr <= 0xFE9F) || (0xFF40 <= addr <= 0xFF45) || (
        0xFF47 <= addr <= 0xFF4B)
    }

    pub fn read(&self, addr: u16) -> (r: u8)
        requires
            self.wf(),
            Self::owns(addr),
        ensures
            r == Self::spec_read(self@, addr),
    {
        if 0x8000 <= addr && addr <= 0x9FFF {
            self.vram[(addr - 0x8000) as usize]
        } else if 0xFE00 <= addr && addr <= 0xFE9F {
            self.oamram[(addr - 0xFE00) as usize]
        } else if addr == 0xFF40 {
            self.lcd_control
        } else if addr == 0xFF41 {
            self.lcd_status
        } else if addr == 0xFF42 {
            self.scroll_y
        } else if addr == 0xFF43 {
            self.scroll_x
        } else if addr == 0xFF44 {
            self.line
        } else if addr == 0xFF45 {
            self.ly_compare
        } else if addr == 0xFF47 {
            self.bg_palette
        } else if addr == 0xFF48 {
            self.sprite_palette0
        } else if addr == 0xFF49 {
            self.sprite_palette1
        } else if addr == 0xFF4A {
            self.window_y
        } else {
            self.window_x
        }
    }

    /// The state after a write to a PPU-owned address.  Disabling the LCD
    /// through the control register clears the frame buffer and signals
    /// the display consumer.
    pub open spec fn spec_write(v: PpuView, addr: u16, dat: u8) -> PpuView {
        if 0x8000 <= addr <= 0x9FFF {
            PpuView { vram: v.vram.update(addr - 0x8000, dat), ..v }
        } else if 0xFE00 <= addr <= 0xFE9F {
            PpuView { oam: v.oam.update(addr - 0xFE00, dat), ..v }
        } else if addr == 0xFF40 {
            if bit_of(dat, 7) == 1 {
                PpuView { lcdc: dat, ..v }
            } else {
                PpuView {
                    lcdc: dat,
                    frame: Seq::new(v.frame.len(), |i: int| 0u8),
                    v_blank: true,
                    ..v
                }
            }
        } else if addr == 0xFF41 {
            PpuView { stat: dat, ..v }
        } else if addr == 0xFF42 {
            PpuView { scroll_y: dat, ..v }
        } else if addr == 0xFF43 {
            PpuView { scroll_x: dat, ..v }
        } else if addr == 0xFF44 {
            PpuView { line: dat, ..v }
        } else if addr == 0xFF45 {
            PpuView { lyc: dat, ..v }
        } else if addr == 0xFF47 {
            PpuView { bgp: dat, ..v }
        } else if addr == 0xFF48 {
            PpuView { obp0: dat, ..v }
        } else if addr == 0xFF49 {
            PpuView { obp1: dat, ..v }
        } else if addr == 0xFF4A {
            PpuView { wy: dat, ..v }
        } else {
            PpuView { wx: dat, ..v }
        }
    }

    pub fn write(&mut self, addr: u16, dat: u8)
        requires
            old(self).wf(),
            Self::owns(addr),
        ensures
            final(self)@ == Self::spec_write(old(self)@, addr, dat),
            final(self).wf(),
            final(self).debug == old(self).debug,
    {
        if 0x8000 <= addr && addr <= 0x9FFF {
            self.vram.set((addr - 0x8000) as usize, dat);
        } else if 0xFE00 <= addr && addr <= 0xFE9F {
            self.oamram.set((addr - 0xFE00) as usize, dat);
        } else if addr == 0xFF40 {
            self.lcd_control = dat;
            if !self.lcd_enabled() {
                self.reset_buffer();
                self.v_blank = true;
            }
        } else if addr == 0xFF41 {
            self.lcd_status = dat;
        } else if addr == 0xFF42 {
            self.scroll_y = dat;
        } else if addr == 0xFF43 {
            self.scroll_x = dat;
        } else if addr == 0xFF44 {
            self.line = dat;
        } else if addr == 0xFF45 {
            self.ly_compare = dat;
        } else if addr == 0xFF47 {
            self.bg_palette = dat;
        } else if addr == 0xFF48 {
            self.sprite_palette0 = dat;
        } else if addr == 0xFF49 {
            self.sprite_palette1 = dat;
        } else if addr == 0xFF4A {
            self.window_y = dat;
        } else {
            self.window_x = dat;
        }
    }

    /// Clears every pixel of the frame buffer to shade 0.
    pub fn reset_buffer(&mut self)
        ensures
            final(self)@ == (PpuView {
                frame: Seq::new(old(self)@.frame.len(), |i: int| 0u8),
                ..old(self)@
            }),
            final(self).debug == old(self).debug,
    {
        let len = self.frame_buffer.len();
        let mut f = zero_vec(len);
        core::mem::swap(&mut self.frame_buffer, &mut f);
    }

    pub fn get_vram(&self, addr: u16) -> (r: u8)
        requires
            sizes_ok(self@),
            0x8000 <= addr < 0xA000,
        ensures
            r == vram_at(self@, addr as int),
    {
        self.vram[(addr - 0x8000) as usize]
    }

    /// The four shades a palette register resolves the color indices to.
    pub fn load_palette(&self, palette_reg: u8) -> (r: [u8; 4])
        ensures
            r@.len() == 4,
            forall|i: int| 0 <= i < 4 ==> r@[i] == palette_shade(palette_reg, i),
    {
        [palette_reg % 4, (palette_reg / 4) % 4, (palette_reg / 16) % 4, (palette_reg / 64) % 4]
    }

    /// Renders the background row for the current line into the frame
    /// buffer; every other pixel is untouched.  A line outside the
    /// visible area renders nothing.
    pub fn draw_bg(&mut self)
        requires
            sizes_ok(old(self)@),
        ensures
            final(self)@ == (PpuView { frame: bg_row_applied(old(self)@), ..old(self)@ }),
            sizes_ok(final(self)@),
            final(self).debug == old(self).debug,
    {
        let ghost v0 = self@;
        if self.line >= 144 {
            return ;
        }
        let palette = self.load_palette(self.bg_palette);
        let tile_set_addr: u16 = if self.bg_window_tile_data() {
            0x8000
        } else {
            0x8800
        };
        let unsigned = self.bg_window_tile_data();
        let tile_map_addr: u16 = if !self.bg_tile_map() {
            0x9800
        } else {
            0x9C00
        };
        let screen_y: u16 = self.line as u16;
        let ghost d0 = self.debug;
        proof {
            assert(Seq::new(v0.frame.len(), |k: int| if k / 160 == v0.line && k % 160 < 0 {
                bg_shade(v0, k % 160)
            } else {
                v0.frame[k]
            }) =~= v0.frame);
        }
        let mut screen_x: u16 = 0;
        while screen_x < 160
            invariant
                sizes_ok(self@),
                self.debug == d0,
                sizes_ok(v0),
                v0.line < 144,
                screen_x <= 160,
                screen_y == v0.line,
                unsigned == spec_bg_window_tile_data(v0),
                tile_set_addr == (if unsigned {
                    0x8000int
                } else {
                    0x8800int
                }),
                tile_map_addr == (if spec_bg_tile_map(v0) {
                    0x9C00int
                } else {
                    0x9800int
                }),
                forall|i: int| 0 <= i < 4 ==> palette@[i] == palette_shade(v0.bgp, i),
                self@ == (PpuView {
                    frame: Seq::new(v0.frame.len(), |k: int| if k / 160 == v0.line && k % 160
                        < screen_x {
                        bg_shade(v0, k % 160)
                    } else {
                        v0.frame[k]
                    }),
                    ..v0
                }),
            decreases 160 - screen_x,
        {
            let scrolled_x = screen_x + self.scroll_x as u16;
            let scrolled_y = screen_y + self.scroll_y as u16;
            let bg_map_x = scrolled_x % 256;
            let bg_map_y = scrolled_y % 256;
            let tile_x = bg_map_x / 8;
            let tile_y = bg_map_y / 8;
            let tile_pixel_x = bg_map_x % 8;
            let tile_pixel_y = bg_map_y % 8;
            let tile_index = tile_y * 32 + tile_x;
            let tile_id_addr: u16 = tile_map_addr + tile_index;
            let tile_id = self.get_vram(tile_id_addr);
            let tile_offset: u16 = (if unsigned {
                tile_id as u16
            } else if tile_id < 128 {
                tile_id as u16 + 128
            } else {
                tile_id as u16 - 128
            }) * 16;
            let tile_line_offset = tile_pixel_y * 2;
            let tile_line_addr = tile_set_addr + tile_offset + tile_line_offset;
            let pixel1 = self.get_vram(tile_line_addr);
            let pixel2 = self.get_vram(tile_line_addr + 1);
            let pw = pow2_u8(7 - tile_pixel_x);
            let pixel_color = ((pixel2 / pw) % 2) * 2 + (pixel1 / pw) % 2;
            let real_color = palette[pixel_color as usize];
            let idx: usize = screen_y as usize * 160 + screen_x as usize;
            self.frame_buffer.set(idx, real_color);
            proof {
                assert(real_color == bg_shade(v0, screen_x as int));
                assert(self@.frame =~= Seq::new(v0.frame.len(), |k: int| if k / 160 == v0.line && k
                    % 160 < screen_x + 1 {
                    bg_shade(v0, k % 160)
                } else {
                    v0.frame[k]
                }));
            }
            screen_x += 1;
        }
        proof {
            assert(self@.frame =~= bg_row_applied(v0));
        }
    }

    /// Renders the window row for the current line into the frame
    /// buffer: screen columns at or right of the window's left edge
    /// (WX - 7) take window pixels; every other pixel, and every other
    /// row, is untouched.  Nothing is drawn before the line reaches the
    /// window's Y position.
    pub fn draw_window(&mut self)
        requires
            sizes_ok(old(self)@),
        ensures
            final(self)@ == (PpuView { frame: window_row_applied(old(self)@), ..old(self)@ }),
            sizes_ok(final(self)@),
            final(self).debug == old(self).debug,
    {
        let ghost v0 = self@;
        if self.line >= 144 {
            return ;
        }
        if self.line < self.window_y {
            return ;
        }
        let palette = self.load_palette(self.bg_palette);
        let tile_set_addr: u16 = if self.bg_window_tile_data() {
            0x8000
        } else {
            0x8800
        };
        let unsigned = self.bg_window_tile_data();
        let tile_map_addr: u16 = if !self.window_tile_map() {
            0x9800
        } else {
            0x9C00
        };
        let screen_y: u16 = self.line as u16;
        let source_y: u16 = screen_y - self.window_y as u16;
        proof {
            assert(source_y == window_row(v0));
        }
        let ghost d0 = self.debug;
        proof {
            assert(Seq::new(v0.frame.len(), |k: int| if k / 160 == v0.line && k % 160 < 0 && k
                % 160 >= window_origin(v0) {
                window_shade(v0, k % 160)
            } else {
                v0.frame[k]
            }) =~= v0.frame);
        }
        let mut screen_x: u16 = 0;
        while screen_x < 160
            invariant
                sizes_ok(self@),
                self.debug == d0,
                sizes_ok(v0),
                v0.line < 144,
                v0.line >= v0.wy,
                screen_x <= 160,
                screen_y == v0.line,
                source_y == window_row(v0),
                unsigned == spec_bg_window_tile_data(v0),
                tile_set_addr == (if unsigned {
                    0x8000int
                } else {
                    0x8800int
                }),
                tile_map_addr == (if spec_window_tile_map(v0) {
                    0x9C00int
                } else {
                    0x9800int
                }),
                forall|i: int| 0 <= i < 4 ==> palette@[i] == palette_shade(v0.bgp, i),
                self@ == (PpuView {
                    frame: Seq::new(v0.frame.len(), |k: int| if k / 160 == v0.line && k % 160
                        < screen_x && k % 160 >= window_origin(v0) {
                        window_shade(v0, k % 160)
                    } else {
                        v0.frame[k]
                    }),
                    ..v0
                }),
            decreases 160 - screen_x,
        {
            if screen_x + 7 >= self.window_x as u16 {
                let source_x: u16 = screen_x + 7 - self.window_x as u16;
                proof {
                    assert(source_x == window_col(v0, screen_x as int));
                }
                let tile_x = source_x / 8;
                let tile_y = source_y / 8;
                let tile_pixel_x = source_x % 8;
                let tile_pixel_y = source_y % 8;
                let tile_index = tile_y * 32 + tile_x;
                let tile_id_addr: u16 = tile_map_addr + tile_index;
                let tile_id = self.get_vram(tile_id_addr);
                let tile_offset: u16 = (if unsigned {
                    tile_id as u16
                } else if tile_id < 128 {
                    tile_id as u16 + 128
                } else {
                    tile_id as u16 - 128
                }) * 16;
                let tile_line_offset = tile_pixel_y * 2;
                let tile_line_addr = tile_set_addr + tile_offset + tile_line_offset;
                let pixel1 = self.get_vram(tile_line_addr);
                let pixel2 = self.get_vram(tile_line_addr + 1);
                let pw = pow2_u8(7 - tile_pixel_x);
                let pixel_color = ((pixel2 / pw) % 2) * 2 + (pixel1 / pw) % 2;
                let real_color = palette[pixel_color as usize];
                let idx: usize = screen_y as usize * 160 + screen_x as usize;
                self.frame_buffer.set(idx, real_color);
                proof {
                    assert(real_color == window_shade(v0, screen_x as int));
                }
            }
            proof {
                assert(self@.frame =~= Seq::new(v0.frame.len(), |k: int| if k / 160 == v0.line && k
                    % 160 < screen_x + 1 && k % 160 >= window_origin(v0) {
                    window_shade(v0, k % 160)
                } else {
                    v0.frame[k]
                }));
            }
            screen_x += 1;
        }
        proof {
            assert(self@.frame =~= window_row_applied(v0));
        }
    }

    /// Renders the completed line: background first, then the window,
    /// each only when enabled; nothing while the LCD is off.
    pub fn render_scanline(&mut self)
        requires
            sizes_ok(old(self)@),
        ensures
            final(self)@ == (PpuView { frame: render_scanline_spec(old(self)@), ..old(self)@ }),
            sizes_ok(final(self)@),
            final(self).debug == old(self).debug,
    {
        if !self.lcd_enabled() {
            return ;
        }
        if self.bg_enabled() {
            self.draw_bg();
        }
        if self.window_enabled() {
            self.draw_window();
        }
    }
}

/// 16-bit wrapping addition, for values already in 0..0x10000.
pub open spec fn wadd16(a: int, b: int) -> int {
    if a + b < 0x10000 {
        a + b
    } else {
        a + b - 0x10000
    }
}

/// 16-bit wrapping subtraction, for values already in 0..0x10000.
pub open spec fn wsub16(a: int, b: int) -> int {
    if a >= b {
        a - b
    } else {
        a - b + 0x10000
    }
}

/// Sprite pixel rows: 16 with the double-height control bit, else 8.
pub open spec fn sprite_height(v: PpuView) -> int {
    if spec_sprite_size(v) {
        16
    } else {
        8
    }
}

pub open spec fn sprite_behind(attr: u8) -> bool {
    bit_of(attr, 7) == 1
}

pub open spec fn sprite_flip_y(attr: u8) -> bool {
    bit_of(attr, 6) == 1
}

pub open spec fn sprite_flip_x(attr: u8) -> bool {
    bit_of(attr, 5) == 1
}

/// The object palette a sprite's attribute byte selects.
pub open spec fn sprite_palette(v: PpuView, attr: u8) -> u8 {
    if bit_of(attr, 4) == 1 {
        v.obp1
    } else {
        v.obp0
    }
}

/// The 2-bit color index of the sprite pixel at row `dy`, column `dx`
/// of the sprite's own tile, after the flip flags are applied.
pub open spec fn sprite_color(v: PpuView, pattern: u8, attr: u8, dy: int, dx: int) -> int {
    let fy = if sprite_flip_y(attr) {
        sprite_height(v) - dy - 1
    } else {
        dy
    };
    let fx = if sprite_flip_x(attr) {
        7 - dx
    } else {
        dx
    };
    let addr = 0x8000 + pattern * 16 + fy * 2;
    tile_line_color(vram_at(v, addr), vram_at(v, addr + 1), fx)
}

/// What frame cell `k` holds after one sprite is composited: inside the
/// sprite's 8-wide window a nonzero color is drawn through the selected
/// object palette, except that a behind-background sprite never covers a
/// background pixel whose shade is not zero.
pub open spec fn sprite_pixel(
    v: PpuView,
    frame: Seq<u8>,
    start_y: int,
    start_x: int,
    pattern: u8,
    attr: u8,
    k: int,
) -> u8 {
    let py = k / 160;
    let px = k % 160;
    let dy = wsub16(py, start_y);
    let dx = wsub16(px, start_x);
    if dy < sprite_height(v) && dx < 8 {
        let c = sprite_color(v, pattern, attr, dy, dx);
        if c != 0 && !(sprite_behind(attr) && frame[k] != 0) {
            palette_shade(sprite_palette(v, attr), c)
        } else {
            frame[k]
        }
    } else {
        frame[k]
    }
}

/// The frame after sprite `n` of the 40-entry table is composited.
/// A sprite whose Y byte is 0 or at least 160, or whose X byte is 0 or
/// at least 168, is off screen and changes nothing.
pub open spec fn sprite_overlay(v: PpuView, frame: Seq<u8>, n: int) -> Seq<u8> {
    let sy = v.oam[n * 4] as int;
    let sx = v.oam[n * 4 + 1] as int;
    let pattern = v.oam[n * 4 + 2];
    let attr = v.oam[n * 4 + 3];
    if sy == 0 || sy >= 160 || sx == 0 || sx >= 168 {
        frame
    } else {
        Seq::new(
            frame.len(),
            |k: int| sprite_pixel(v, frame, wsub16(sy, 16), wsub16(sx, 8), pattern, attr, k),
        )
    }
}

/// The frame with sprite cells below row `y`, plus those on row `y`
/// left of column `x`, already composited.
pub open spec fn sprite_partial(
    v: PpuView,
    frame: Seq<u8>,
    start_y: int,
    start_x: int,
    pattern: u8,
    attr: u8,
    y: int,
    x: int,
) -> Seq<u8> {
    Seq::new(
        frame.len(),
        |k: int|
            {
                let dy = wsub16(k / 160, start_y);
                let dx = wsub16(k % 160, start_x);
                if dy < y || (dy == y && dx < x) {
                    sprite_pixel(v, frame, start_y, start_x, pattern, attr, k)
                } else {
                    frame[k]
                }
            },
    )
}

/// The frame after the first `n` table entries have been composited in
/// table order.
pub open spec fn sprites_applied(v: PpuView, frame: Seq<u8>, n: nat) -> Seq<u8>
    decreases n,
{
    if n == 0 {
        frame
    } else {
        sprite_overlay(v, sprites_applied(v, frame, (n - 1) as nat), n - 1)
    }
}

/// Sprite composition reads only the sprite table, video memory, the
/// control register and the object palettes: two states agreeing on
/// those composite any frame identically.
pub proof fn lemma_sprites_ctx(v1: PpuView, v2: PpuView, frame: Seq<u8>, n: nat)
    requires
        v1.oam == v2.oam,
        v1.vram == v2.vram,
        v1.lcdc == v2.lcdc,
        v1.obp0 == v2.obp0,
        v1.obp1 == v2.obp1,
    ensures
        sprites_applied(v1, frame, n) == sprites_applied(v2, frame, n),
    decreases n,
{
    if n > 0 {
        lemma_sprites_ctx(v1, v2, frame, (n - 1) as nat);
        let f = sprites_applied(v1, frame, (n - 1) as nat);
        assert(sprite_overlay(v1, f, n - 1) =~= sprite_overlay(v2, f, n - 1));
    }
}

impl PPU {
    /// Composites sprite `n` into the frame buffer.
    pub fn draw_sprite(&mut self, n: u16)
        requires
            sizes_ok(old(self)@),
            n < 40,
        ensures
            final(self)@ == (PpuView {
                frame: sprite_overlay(old(self)@, old(self)@.frame, n as int),
                ..old(self)@
            }),
            sizes_ok(final(self)@),
            final(self).debug == old(self).debug,
    {
        let ghost v0 = self@;
        let ghost f0 = self@.frame;
        let ghost d0 = self.debug;
        let oam_offset: usize = n as usize * 4;
        let sprite_y = self.oamram[oam_offset] as u16;
        let sprite_x = self.oamram[oam_offset + 1] as u16;
        if sprite_y == 0 || sprite_y >= 160 {
            return ;
        }
        if sprite_x == 0 || sprite_x >= 168 {
            return ;
        }
        let h: u16 = if self.sprite_size() {
            16
        } else {
            8
        };
        let pattern = self.oamram[oam_offset + 2];
        let sprite_attr = self.oamram[oam_offset + 3];
        let palette = if (sprite_attr / 16) % 2 == 1 {
            self.load_palette(self.sprite_palette1)
        } else {
            self.load_palette(self.sprite_palette0)
        };
        let flip_x: bool = (sprite_attr / 32) % 2 == 1;
        let flip_y: bool = (sprite_attr / 64) % 2 == 1;
        let behind_bg: bool = (sprite_attr / 128) % 2 == 1;
        let start_y = sprite_y.wrapping_sub(16);
        let start_x = sprite_x.wrapping_sub(8);
        let ghost sy0 = wsub16(sprite_y as int, 16);
        let ghost sx0 = wsub16(sprite_x as int, 8);
        proof {
            assert(start_y == sy0 && start_x == sx0);
            assert(self@.frame =~= sprite_partial(v0, f0, sy0, sx0, pattern, sprite_attr, 0, 0));
        }
        let mut y: u16 = 0;
        while y < h
            invariant
                sizes_ok(self@),
                self.debug == d0,
                sizes_ok(v0),
                y <= h,
                h == sprite_height(v0),
                f0.len() == 160 * 144,
                flip_x == sprite_flip_x(sprite_attr),
                flip_y == sprite_flip_y(sprite_attr),
                behind_bg == sprite_behind(sprite_attr),
                forall|i: int|
                    0 <= i < 4 ==> palette@[i] == palette_shade(
                        sprite_palette(v0, sprite_attr),
                        i,
                    ),
                0 <= sy0 < 0x10000,
                0 <= sx0 < 0x10000,
                start_y == sy0,
                start_x == sx0,
                self@ == (PpuView {
                    frame: sprite_partial(v0, f0, sy0, sx0, pattern, sprite_attr, y as int, 0),
                    ..v0
                }),
            decreases h - y,
        {
            let mut x: u16 = 0;
            while x < 8
                invariant
                    sizes_ok(self@),
                    self.debug == d0,
                    sizes_ok(v0),
                    y < h,
                    x <= 8,
                    h == sprite_height(v0),
                    f0.len() == 160 * 144,
                    flip_x == sprite_flip_x(sprite_attr),
                    flip_y == sprite_flip_y(sprite_attr),
                    behind_bg == sprite_behind(sprite_attr),
                    forall|i: int|
                        0 <= i < 4 ==> palette@[i] == palette_shade(
                            sprite_palette(v0, sprite_attr),
                            i,
                        ),
                    0 <= sy0 < 0x10000,
                    0 <= sx0 < 0x10000,
                    start_y == sy0,
                    start_x == sx0,
                    self@ == (PpuView {
                        frame: sprite_partial(
                            v0,
                            f0,
                            sy0,
                            sx0,
                            pattern,
                            sprite_attr,
                            y as int,
                            x as int,
                        ),
                        ..v0
                    }),
                decreases 8 - x,
            {
                let flipped_y = if !flip_y {
                    y
                } else {
                    h - y - 1
                };
                let flipped_x = if !flip_x {
                    x
                } else {
                    7 - x
                };
                let line_addr: u16 = 0x8000 + pattern as u16 * 16 + flipped_y * 2;
                let p1v = self.get_vram(line_addr);
                let p2v = self.get_vram(line_addr + 1);
                let pw = pow2_u8(7 - flipped_x);
                let pixel_color = ((p2v / pw) % 2) * 2 + (p1v / pw) % 2;
                proof {
                    assert(pixel_color == sprite_color(
                        v0,
                        pattern,
                        sprite_attr,
                        y as int,
                        x as int,
                    ));
                }
                let screen_x = start_x.wrapping_add(x);
                let screen_y = start_y.wrapping_add(y);
                if pixel_color != 0 && screen_x < 160 && screen_y < 144 {
                    let idx: usize = screen_y as usize * 160 + screen_x as usize;
                    let cur = self.frame_buffer[idx];
                    proof {
                        assert(wsub16(screen_y as int, sy0) == y as int);
                        assert(wsub16(screen_x as int, sx0) == x as int);
                        assert(idx as int / 160 == screen_y as int && idx as int % 160
                            == screen_x as int);
                        assert(cur == f0[idx as int]);
                    }
                    if !(behind_bg && cur != 0) {
                        let shade = palette[pixel_color as usize];
                        self.frame_buffer.set(idx, shade);
                    }
                }
                proof {
                    assert forall|k: int| 0 <= k < f0.len() implies self@.frame[k]
                        == sprite_partial(
                        v0,
                        f0,
                        sy0,
                        sx0,
                        pattern,
                        sprite_attr,
                        y as int,
                        x as int + 1,
                    )[k] by {
                        let py = k / 160;
                        let px = k % 160;
                        assert(k == py * 160 + px);
                        assert(0 <= py < 144 && 0 <= px < 160);
                        if wsub16(py, sy0) == y as int && wsub16(px, sx0) == x as int {
                            assert(py == wadd16(sy0, y as int));
                            assert(px == wadd16(sx0, x as int));
                        }
                    }
                    assert(self@.frame =~= sprite_partial(
                        v0,
                        f0,
                        sy0,
                        sx0,
                        pattern,
                        sprite_attr,
                        y as int,
                        x as int + 1,
                    ));
                }
                x += 1;
            }
            proof {
                assert(sprite_partial(v0, f0, sy0, sx0, pattern, sprite_attr, y as int, 8)
                    =~= sprite_partial(
                    v0,
                    f0,
                    sy0,
                    sx0,
                    pattern,
                    sprite_attr,
                    y as int + 1,
                    0,
                ));
            }
            y += 1;
        }
        proof {
            assert forall|k: int| 0 <= k < f0.len() implies sprite_partial(
                v0,
                f0,
                sy0,
                sx0,
                pattern,
                sprite_attr,
                h as int,
                0,
            )[k] == sprite_overlay(v0, f0, n as int)[k] by {
                assert(0 <= k / 160 < 144);
            }
            assert(sprite_partial(v0, f0, sy0, sx0, pattern, sprite_attr, h as int, 0)
                =~= sprite_overlay(v0, f0, n as int));
        }
    }

    /// Composites all 40 sprite-table entries, in table order, when
    /// sprites are enabled; otherwise changes nothing.
    pub fn render_sprites(&mut self)
        requires
            sizes_ok(old(self)@),
        ensures
            final(self)@ == (PpuView {
                frame: if spec_sprite_enabled(old(self)@) {
                    sprites_applied(old(self)@, old(self)@.frame, 40)
                } else {
                    old(self)@.frame
                },
                ..old(self)@
            }),
            sizes_ok(final(self)@),
            final(self).debug == old(self).debug,
    {
        let ghost v0 = self@;
        let ghost f0 = self@.frame;
        let ghost d0 = self.debug;
        if !self.sprite_enabled() {
            return ;
        }
        let mut n: u16 = 0;
        while n < 40
            invariant
                sizes_ok(self@),
                self.debug == d0,
                sizes_ok(v0),
                n <= 40,
                spec_sprite_enabled(v0),
                self@ == (PpuView { frame: sprites_applied(v0, f0, n as nat), ..v0 }),
            decreases 40 - n,
        {
            let ghost vc = self@;
            self.draw_sprite(n);
            proof {
                assert(sprite_overlay(vc, vc.frame, n as int) =~= sprite_overlay(
                    v0,
                    sprites_applied(v0, f0, n as nat),
                    n as int,
                ));
            }
            n += 1;
        }
    }
}

/// The state and interrupt flag after the pipeline absorbs `cycles`
/// machine cycles: at most one mode transition fires, per the fixed
/// 80 / 172 / 204 / 456 budgets.
pub open spec fn ppu_run_spec(v: PpuView, cycles: u32, iflag: u8) -> (PpuView, u8) {
    let c = v.cycles + cycles;
    match v.mode {
        VideoMode::ACCESS_OAM => {
            if c >= 80 {
                (
                    PpuView {
                        cycles: (c % 80) as u32,
                        stat: spec_set_mask(spec_set_mask(v.stat, 2, true), 1, true),
                        mode: VideoMode::ACCESS_VRAM,
                        ..v
                    },
                    iflag,
                )
            } else {
                (PpuView { cycles: c as u32, ..v }, iflag)
            }
        },
        VideoMode::ACCESS_VRAM => {
            if c >= 172 {
                let coincidence = v.lyc == v.line;
                let raise = bit_of(v.stat, 3) == 1 || (bit_of(v.stat, 6) == 1 && coincidence);
                (
                    PpuView {
                        cycles: (c % 172) as u32,
                        mode: VideoMode::HBLANK,
                        stat: spec_set_mask(
                            spec_set_mask(spec_set_mask(v.stat, 4, coincidence), 2, false),
                            1,
                            false,
                        ),
                        ..v
                    },
                    if raise {
                        iflag | 2
                    } else {
                        iflag
                    },
                )
            } else {
                (PpuView { cycles: c as u32, ..v }, iflag)
            }
        },
        VideoMode::HBLANK => {
            if c >= 204 {
                let f = render_scanline_spec(v);
                let l = if v.line == 255 {
                    0u8
                } else {
                    (v.line + 1) as u8
                };
                if l == 144 {
                    (
                        PpuView {
                            frame: f,
                            line: l,
                            cycles: (c % 204) as u32,
                            mode: VideoMode::VBLANK,
                            stat: spec_set_mask(spec_set_mask(v.stat, 2, false), 1, true),
                            ..v
                        },
                        iflag | 1,
                    )
                } else {
                    (
                        PpuView {
                            frame: f,
                            line: l,
                            cycles: (c % 204) as u32,
                            mode: VideoMode::ACCESS_OAM,
                            stat: spec_set_mask(spec_set_mask(v.stat, 2, true), 1, false),
                            ..v
                        },
                        iflag,
                    )
                }
            } else {
                (PpuView { cycles: c as u32, ..v }, iflag)
            }
        },
        VideoMode::VBLANK => {
            if c >= 456 {
                let l = if v.line == 255 {
                    0u8
                } else {
                    (v.line + 1) as u8
                };
                if l == 154 {
                    let f = if spec_sprite_enabled(v) {
                        sprites_applied(v, v.frame, 40)
                    } else {
                        v.frame
                    };
                    (
                        PpuView {
                            frame: f,
                            v_blank: true,
                            line: 0u8,
                            cycles: (c % 456) as u32,
                            mode: VideoMode::ACCESS_OAM,
                            stat: spec_set_mask(spec_set_mask(v.stat, 2, true), 1, false),
                            ..v
                        },
                        iflag,
                    )
                } else {
                    (PpuView { line: l, cycles: (c % 456) as u32, ..v }, iflag)
                }
            } else {
                (PpuView { cycles: c as u32, ..v }, iflag)
            }
        },
    }
}

impl PPU {
    /// Advances the timing machine by `cycles` machine cycles, rendering
    /// and raising STAT / VBlank interrupt bits exactly as `ppu_run_spec`
    /// states.
    pub fn run(&mut self, cycles: u32, int_flag: &mut u8)
        requires
            old(self).wf(),
            cycles <= 0x0FFF_FFFF,
        ensures
            final(self).wf(),
            (final(self)@, *final(int_flag)) == ppu_run_spec(old(self)@, cycles, *old(int_flag)),
            final(self).debug == old(self).debug,
    {
        let ghost v0 = self@;
        let total: u32 = self.cycles + cycles;
        match self.mode {
            VideoMode::ACCESS_OAM => {
                if total >= 80 {
                    self.cycles = total % 80;
                    self.lcd_status = set_mask(self.lcd_status, 2, true);
                    self.lcd_status = set_mask(self.lcd_status, 1, true);
                    self.mode = VideoMode::ACCESS_VRAM;
                } else {
                    self.cycles = total;
                }
            },
            VideoMode::ACCESS_VRAM => {
                if total >= 172 {
                    self.cycles = total % 172;
                    self.mode = VideoMode::HBLANK;
                    let coincidence = self.ly_compare == self.line;
                    let stat3 = (self.lcd_status / 8) % 2 == 1;
                    let stat6 = (self.lcd_status / 64) % 2 == 1;
                    if stat3 || (stat6 && coincidence) {
                        *int_flag = *int_flag | 2;
                    }
                    self.lcd_status = set_mask(self.lcd_status, 4, coincidence);
                    self.lcd_status = set_mask(self.lcd_status, 2, false);
                    self.lcd_status = set_mask(self.lcd_status, 1, false);
                } else {
                    self.cycles = total;
                }
            },
            VideoMode::HBLANK => {
                if total >= 204 {
                    self.render_scanline();
                    self.line = self.line.wrapping_add(1);
                    self.cycles = total % 204;
                    if self.line == 144 {
                        self.mode = VideoMode::VBLANK;
                        self.lcd_status = set_mask(self.lcd_status, 2, false);
                        self.lcd_status = set_mask(self.lcd_status, 1, true);
                        *int_flag = *int_flag | 1;
                    } else {
                        self.lcd_status = set_mask(self.lcd_status, 2, true);
                        self.lcd_status = set_mask(self.lcd_status, 1, false);
                        self.mode = VideoMode::ACCESS_OAM;
                    }
                } else {
                    self.cycles = total;
                }
            },
            VideoMode::VBLANK => {
                if total >= 456 {
                    self.line = self.line.wrapping_add(1);
                    self.cycles = total % 456;
                    if self.line == 154 {
                        let ghost vc = self@;
                        self.render_sprites();
                        proof {
                            if spec_sprite_enabled(v0) {
                                lemma_sprites_ctx(vc, v0, v0.frame, 40);
                            }
                        }
                        self.v_blank = true;
                        self.line = 0;
                        self.mode = VideoMode::ACCESS_OAM;
                        self.lcd_status = set_mask(self.lcd_status, 2, true);
                        self.lcd_status = set_mask(self.lcd_status, 1, false);
                    }
                } else {
                    self.cycles = total;
                }
            },
        }
    }
}

/// One full scanline consumes exactly 456 cycles: 80 in sprite scan,
/// 172 in video-memory access and 204 in horizontal blank, after which
/// the machine is back at sprite scan with the line advanced by one.
pub proof fn lemma_scanline_timing(v: PpuView, iflag: u8)
    requires
        v.mode == VideoMode::ACCESS_OAM,
        v.cycles == 0,
        v.line < 143,
    ensures
        ({
            let (v1, f1) = ppu_run_spec(v, 80, iflag);
            let (v2, f2) = ppu_run_spec(v1, 172, f1);
            let (v3, f3) = ppu_run_spec(v2, 204, f2);
            &&& v1.mode == VideoMode::ACCESS_VRAM && v1.cycles == 0 && v1.line == v.line
            &&& v2.mode == VideoMode::HBLANK && v2.cycles == 0 && v2.line == v.line
            &&& v3.mode == VideoMode::ACCESS_OAM && v3.cycles == 0 && v3.line == v.line + 1
            &&& v3.v_blank == v.v_blank
        }),
        80 + 172 + 204 == crate::defs::CLOCKS_PER_SCANLINE,
{
}

/// The scanline at line 143 ends the visible area: its hblank
/// transition enters vertical blank and raises the VBlank interrupt bit.
pub proof fn lemma_scanline_into_vblank(v: PpuView, iflag: u8)
    requires
        v.mode == VideoMode::ACCESS_OAM,
        v.cycles == 0,
        v.line == 143,
    ensures
        ({
            let (v1, f1) = ppu_run_spec(v, 80, iflag);
            let (v2, f2) = ppu_run_spec(v1, 172, f1);
            let (v3, f3) = ppu_run_spec(v2, 204, f2);
            &&& v3.mode == VideoMode::VBLANK && v3.cycles == 0 && v3.line == 144
            &&& v3.v_blank == v.v_blank
            &&& bit_of(f3, 0) == 1
        }),
{
    let (v1, f1) = ppu_run_spec(v, 80, iflag);
    let (v2, f2) = ppu_run_spec(v1, 172, f1);
    let (v3, f3) = ppu_run_spec(v2, 204, f2);
    assert(f3 == f2 | 1);
    assert(bit_of(f2 | 1, 0) == 1) by (bit_vector);
}

/// Applies the 80 / 172 / 204 scanline cadence `k` times.
pub open spec fn advance_scanlines(v: PpuView, iflag: u8, k: nat) -> (PpuView, u8)
    decreases k,
{
    if k == 0 {
        (v, iflag)
    } else {
        let (va, fa) = advance_scanlines(v, iflag, (k - 1) as nat);
        let (v1, f1) = ppu_run_spec(va, 80, fa);
        let (v2, f2) = ppu_run_spec(v1, 172, f1);
        ppu_run_spec(v2, 204, f2)
    }
}

/// Applies one 456-cycle vertical-blank line `k` times.
pub open spec fn advance_vblank_lines(v: PpuView, iflag: u8, k: nat) -> (PpuView, u8)
    decreases k,
{
    if k == 0 {
        (v, iflag)
    } else {
        let (va, fa) = advance_vblank_lines(v, iflag, (k - 1) as nat);
        ppu_run_spec(va, 456, fa)
    }
}

proof fn lemma_scanlines_progress(v: PpuView, iflag: u8, k: nat)
    requires
        v.mode == VideoMode::ACCESS_OAM,
        v.cycles == 0,
        v.line + k <= 144,
    ensures
        ({
            let (va, fa) = advance_scanlines(v, iflag, k);
            &&& va.line == v.line + k
            &&& va.cycles == 0
            &&& va.mode == (if k > 0 && v.line + k == 144 {
                VideoMode::VBLANK
            } else {
                VideoMode::ACCESS_OAM
            })
            &&& va.v_blank == v.v_blank
        }),
    decreases k,
{
    if k > 0 {
        lemma_scanlines_progress(v, iflag, (k - 1) as nat);
        let (va, fa) = advance_scanlines(v, iflag, (k - 1) as nat);
        if va.line < 143 {
            lemma_scanline_timing(va, fa);
        } else {
            lemma_scanline_into_vblank(va, fa);
        }
    }
}

proof fn lemma_vblank_progress(v: PpuView, iflag: u8, k: nat)
    requires
        v.mode == VideoMode::VBLANK,
        v.cycles == 0,
        v.line == 144,
        k <= 9,
    ensures
        ({
            let (va, fa) = advance_vblank_lines(v, iflag, k);
            &&& va.line == 144 + k
            &&& va.cycles == 0
            &&& va.mode == VideoMode::VBLANK
            &&& va.v_blank == v.v_blank
        }),
    decreases k,
{
    if k > 0 {
        lemma_vblank_progress(v, iflag, (k - 1) as nat);
    }
}

/// One full frame consumes exactly 70224 cycles: 144 scanlines of 456
/// cycles each, then ten 456-cycle vertical-blank lines (4560 cycles),
/// after which the machine is back at line 0 in sprite scan with the
/// frame-ready signal raised.
pub proof fn lemma_frame_timing(v: PpuView, iflag: u8)
    requires
        v.mode == VideoMode::ACCESS_OAM,
        v.cycles == 0,
        v.line == 0,
    ensures
        ({
            let (va, fa) = advance_scanlines(v, iflag, 144);
            let (vb, fb) = advance_vblank_lines(va, fa, 10);
            &&& va.mode == VideoMode::VBLANK && va.line == 144 && va.cycles == 0
            &&& vb.mode == VideoMode::ACCESS_OAM && vb.line == 0 && vb.cycles == 0
            &&& vb.v_blank
        }),
        144 * (80 + 172 + 204) + 10 * 456 == crate::defs::CLOCKS_PER_FRAME,
        crate::defs::CLOCKS_PER_FRAME == 70224,
{
    lemma_scanlines_progress(v, iflag, 144);
    let (va, fa) = advance_scanlines(v, iflag, 144);
    lemma_vblank_progress(va, fa, 9);
    let (vc, fc) = advance_vblank_lines(va, fa, 9);
    assert(advance_vblank_lines(va, fa, 10) == ppu_run_spec(vc, 456, fc));
}

} // verus!
