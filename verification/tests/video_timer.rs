//! Pixel-pipeline timing and rendering, and timer behaviour.

use deepboy::defs::{Color, VideoMode};
use deepboy::ppu::PPU;
use deepboy::register::{IntFlag, IoRegs};
use deepboy::timer::Timer;

#[test]
fn scanline_budget_is_80_172_204() {
    let mut ppu = PPU::new();
    let mut iflag: u8 = 0;
    assert!(matches!(ppu.mode, VideoMode::ACCESS_OAM));
    ppu.run(80, &mut iflag);
    assert!(matches!(ppu.mode, VideoMode::ACCESS_VRAM));
    assert_eq!(ppu.cycles, 0);
    ppu.run(172, &mut iflag);
    assert!(matches!(ppu.mode, VideoMode::HBLANK));
    assert_eq!(ppu.cycles, 0);
    ppu.run(204, &mut iflag);
    assert!(matches!(ppu.mode, VideoMode::ACCESS_OAM));
    assert_eq!(ppu.cycles, 0);
    assert_eq!(ppu.line, 1);
    assert_eq!(80 + 172 + 204, 456);
}

#[test]
fn partial_budget_does_not_advance_the_mode() {
    let mut ppu = PPU::new();
    let mut iflag: u8 = 0;
    ppu.run(79, &mut iflag);
    assert!(matches!(ppu.mode, VideoMode::ACCESS_OAM));
    assert_eq!(ppu.cycles, 79);
    ppu.run(1, &mut iflag);
    assert!(matches!(ppu.mode, VideoMode::ACCESS_VRAM));
}

#[test]
fn full_frame_takes_70224_cycles_and_signals() {
    let mut ppu = PPU::new();
    let mut iflag: u8 = 0;
    let mut total: u32 = 0;
    for _line in 0..144 {
        ppu.run(80, &mut iflag);
        ppu.run(172, &mut iflag);
        ppu.run(204, &mut iflag);
        total += 456;
    }
    assert!(matches!(ppu.mode, VideoMode::VBLANK));
    assert_eq!(ppu.line, 144);
    // The VBlank interrupt bit was raised on entry.
    assert_eq!(iflag & 0x01, 0x01);
    for _line in 0..10 {
        ppu.run(456, &mut iflag);
        total += 456;
    }
    assert_eq!(total, 70224);
    assert!(matches!(ppu.mode, VideoMode::ACCESS_OAM));
    assert_eq!(ppu.line, 0);
    assert!(ppu.v_blank);
}

#[test]
fn stat_interrupt_raised_on_lyc_coincidence() {
    let mut ppu = PPU::new();
    let mut iflag: u8 = 0;
    ppu.write(0xFF45, 0); // LYC == 0 == current line
    ppu.write(0xFF41, 0x40); // enable the coincidence source
    ppu.run(80, &mut iflag);
    ppu.run(172, &mut iflag); // VRAM -> HBLANK evaluates STAT conditions
    assert_eq!(iflag & 0x02, 0x02);
    // The coincidence status bit (bit 2) is set too.
    assert_eq!(ppu.lcd_status & 0x04, 0x04);
}

#[test]
fn background_row_renders_through_the_palette() {
    let mut ppu = PPU::new();
    let mut iflag: u8 = 0;
    // LCD on, unsigned tile data, background on.
    ppu.write(0xFF40, 0x91);
    // Palette: identity (color i -> shade i).
    ppu.write(0xFF47, 0xE4);
    // Tile 0, row 0: low-plane bits all set -> color index 1 everywhere.
    ppu.write(0x8000, 0xFF);
    ppu.write(0x8001, 0x00);
    // The tile map already selects tile 0 for every cell.
    ppu.run(80, &mut iflag);
    ppu.run(172, &mut iflag);
    ppu.run(204, &mut iflag); // hblank renders line 0
    for x in 0..160usize {
        assert_eq!(ppu.frame_buffer[x], 1);
    }
    // Rows below are untouched.
    assert_eq!(ppu.frame_buffer[160], 0);
}

#[test]
fn background_scroll_wraps_the_map() {
    let mut ppu = PPU::new();
    let mut iflag: u8 = 0;
    ppu.write(0xFF40, 0x91);
    ppu.write(0xFF47, 0xE4);
    // Tile 1 row 0 reads color 1; map cell 1 holds tile 1.
    ppu.write(0x8010, 0xFF);
    ppu.write(0x8011, 0x00);
    ppu.write(0x9800 + 1, 1);
    // Scroll 8 pixels left: screen column 0 shows map column 1.
    ppu.write(0xFF43, 8);
    ppu.run(80, &mut iflag);
    ppu.run(172, &mut iflag);
    ppu.run(204, &mut iflag);
    assert_eq!(ppu.frame_buffer[0], 1);
    assert_eq!(ppu.frame_buffer[8], 0);
}

#[test]
fn window_row_renders_with_its_offset() {
    let mut ppu = PPU::new();
    // Unsigned tile data; window tile map at 0x9800.
    ppu.write(0xFF40, 0x91);
    ppu.write(0xFF47, 0xE4);
    ppu.write(0x8000, 0x00);
    ppu.write(0x8001, 0xFF); // color 2 across tile 0 row 0
    ppu.write(0xFF4A, 0); // WY
    ppu.write(0xFF4B, 7); // WX: window starts at screen column 0
    ppu.draw_window();
    for x in 0..160usize {
        assert_eq!(ppu.frame_buffer[x], 2);
    }
}

#[test]
fn sprite_composites_with_priority_rules() {
    let mut ppu = PPU::new();
    let mut iflag: u8 = 0;
    // LCD on, sprites on, background off.
    ppu.write(0xFF40, 0x82);
    ppu.write(0xFF48, 0xE4); // object palette 0: identity
    // Sprite 0 at screen (0, 0), tile 0, no flips, in front.
    ppu.write(0xFE00, 16);
    ppu.write(0xFE01, 8);
    ppu.write(0xFE02, 0);
    ppu.write(0xFE03, 0);
    // Tile 0 row 0: color 1 in every column.
    ppu.write(0x8000, 0xFF);
    ppu.write(0x8001, 0x00);
    // Drive a whole frame; sprites composite when vblank completes.
    for _line in 0..144 {
        ppu.run(80, &mut iflag);
        ppu.run(172, &mut iflag);
        ppu.run(204, &mut iflag);
    }
    for _line in 0..10 {
        ppu.run(456, &mut iflag);
    }
    assert!(ppu.v_blank);
    for x in 0..8usize {
        assert_eq!(ppu.frame_buffer[x], 1);
    }
    assert_eq!(ppu.frame_buffer[8], 0);
    assert_eq!(ppu.frame_buffer[160], 0); // row 1 untouched (tile row 1 is clear)
}

#[test]
fn behind_background_sprite_yields_to_nonzero_pixels() {
    let mut ppu = PPU::new();
    ppu.write(0xFF40, 0x82);
    ppu.write(0xFF48, 0xE4);
    ppu.write(0xFE00, 16);
    ppu.write(0xFE01, 8);
    ppu.write(0xFE02, 0);
    ppu.write(0xFE03, 0x80); // behind the background
    ppu.write(0x8000, 0xFF);
    ppu.write(0x8001, 0x00);
    // Pretend the background drew shade 3 at pixel 0 and left pixel 1
    // at shade 0.
    ppu.frame_buffer[0] = 3;
    ppu.draw_sprite(0);
    assert_eq!(ppu.frame_buffer[0], 3); // suppressed
    assert_eq!(ppu.frame_buffer[1], 1); // drawn over shade 0
}

#[test]
fn sprite_flips_mirror_the_tile() {
    let mut ppu = PPU::new();
    ppu.write(0xFF40, 0x82);
    ppu.write(0xFF48, 0xE4);
    ppu.write(0xFE00, 16);
    ppu.write(0xFE01, 8);
    ppu.write(0xFE02, 0);
    ppu.write(0xFE03, 0x20); // horizontal flip
    // Tile 0 row 0: only the leftmost pixel is color 1.
    ppu.write(0x8000, 0x80);
    ppu.write(0x8001, 0x00);
    ppu.draw_sprite(0);
    assert_eq!(ppu.frame_buffer[0], 0);
    assert_eq!(ppu.frame_buffer[7], 1); // mirrored to the right edge
}

#[test]
fn disabling_the_lcd_clears_the_frame() {
    let mut ppu = PPU::new();
    ppu.frame_buffer[0] = 3;
    ppu.write(0xFF40, 0x00);
    assert_eq!(ppu.frame_buffer[0], 0);
    assert!(ppu.v_blank);
}

#[test]
fn timer_divider_counts_every_256_cycles() {
    let mut t = Timer::new();
    let mut iflag: u8 = 0;
    t.run(255, &mut iflag);
    assert_eq!(t.read(0xFF04), 0);
    t.run(1, &mut iflag);
    assert_eq!(t.read(0xFF04), 1);
    t.write(0xFF04, 0x55); // any write clears the divider
    assert_eq!(t.read(0xFF04), 0);
}

#[test]
fn timer_fastest_rate_overflows_and_reloads_from_tma() {
    let mut t = Timer::new();
    let mut iflag: u8 = 0;
    t.write(0xFF06, 0xAB); // TMA
    t.write(0xFF07, 0x05); // enabled, 16-cycle period (reloads TIMA from TMA)
    assert_eq!(t.read(0xFF05), 0xAB);
    t.write(0xFF05, 0xFE);
    // Two ticks: 0xFE -> 0xFF, then overflow reloads from TMA.
    for _ in 0..16 {
        t.run(2, &mut iflag);
    }
    assert_eq!(t.read(0xFF05), 0xAB);
    assert_eq!(iflag & 0x04, 0x04);
}

#[test]
fn timer_counts_the_expected_number_of_cycles_to_overflow() {
    let mut t = Timer::new();
    let mut iflag: u8 = 0;
    t.write(0xFF07, 0x05);
    t.write(0xFF05, 0x00);
    // 256 ticks at 16 cycles each: exactly 4096 cycles to the overflow.
    for _ in 0..255 {
        t.run(16, &mut iflag);
        assert_eq!(iflag, 0);
    }
    assert_eq!(t.read(0xFF05), 0xFF);
    t.run(16, &mut iflag);
    assert_eq!(t.read(0xFF05), 0x00); // TMA is 0
    assert_eq!(iflag, 0x04);
}

#[test]
fn timer_disabled_never_counts() {
    let mut t = Timer::new();
    let mut iflag: u8 = 0;
    t.write(0xFF07, 0x01); // fastest rate but not enabled
    t.run(100_000, &mut iflag);
    assert_eq!(t.read(0xFF05), 0);
    assert_eq!(iflag, 0);
}

#[test]
fn changing_the_clock_select_resets_the_accumulator() {
    let mut t = Timer::new();
    let mut iflag: u8 = 0;
    t.write(0xFF06, 0x42);
    t.write(0xFF07, 0x05);
    t.run(15, &mut iflag); // one cycle short of a tick
    t.write(0xFF07, 0x06); // new clock select: accumulator resets, TIMA reloads
    assert_eq!(t.read(0xFF05), 0x42);
    t.run(63, &mut iflag);
    assert_eq!(t.read(0xFF05), 0x42); // still one short at the new period
    t.run(1, &mut iflag);
    assert_eq!(t.read(0xFF05), 0x43);
}

#[test]
fn shade_levels_and_register_addresses() {
    assert_eq!(Color::White.level(), 0xFF);
    assert_eq!(Color::LightGray.level(), 0xC0);
    assert_eq!(Color::DarkGray.level(), 0x60);
    assert_eq!(Color::Gray.level(), 0x00);
    assert_eq!(Color::from_shade(2), Color::DarkGray);
    assert_eq!(IoRegs::IF.addr(), 0xFF0F);
    assert_eq!(IoRegs::LCDC.addr(), 0xFF40);
    assert_eq!(IoRegs::DIV.addr(), 0xFF04);
    assert_eq!(IntFlag::TIMER.mask(), 0x04);
    assert_eq!(IntFlag::JOYPAD.mask(), 0x10);
}

#[test]
fn ppu_registers_read_back() {
    let mut ppu = PPU::new();
    ppu.write(0xFF42, 0x12);
    ppu.write(0xFF43, 0x34);
    ppu.write(0xFF45, 0x56);
    ppu.write(0x8123, 0x78);
    ppu.write(0xFE10, 0x9A);
    assert_eq!(ppu.read(0xFF42), 0x12);
    assert_eq!(ppu.read(0xFF43), 0x34);
    assert_eq!(ppu.read(0xFF45), 0x56);
    assert_eq!(ppu.read(0x8123), 0x78);
    assert_eq!(ppu.read(0xFE10), 0x9A);
    assert_eq!(ppu.get_vram(0x8123), 0x78);
    assert!(ppu.lcd_enabled() == false);
    ppu.write(0xFF40, 0x91);
    assert!(ppu.lcd_enabled() && ppu.bg_enabled() && ppu.bg_window_tile_data());
    assert!(!ppu.window_enabled() && !ppu.sprite_enabled());
}

#[test]
fn window_pixels_start_at_wx_minus_seven() {
    let mut ppu = PPU::new();
    ppu.write(0xFF40, 0x91);
    ppu.write(0xFF47, 0xE4);
    // Tile 0 row 0: color 2 everywhere.
    ppu.write(0x8000, 0x00);
    ppu.write(0x8001, 0xFF);
    ppu.write(0xFF4A, 0); // WY
    ppu.write(0xFF4B, 100); // WX: left edge at screen column 93
    ppu.frame_buffer[0] = 3;
    ppu.frame_buffer[92] = 3;
    ppu.draw_window();
    // Columns left of WX - 7 stay untouched.
    assert_eq!(ppu.frame_buffer[0], 3);
    assert_eq!(ppu.frame_buffer[92], 3);
    // The window's first column shows source column 0.
    assert_eq!(ppu.frame_buffer[93], 2);
    assert_eq!(ppu.frame_buffer[159], 2);
}

#[test]
fn window_source_columns_count_from_its_left_edge() {
    let mut ppu = PPU::new();
    ppu.write(0xFF40, 0x91);
    ppu.write(0xFF47, 0xE4);
    // Tile 0 is clear; tile 1 row 0 holds color 1.  Map cell 1 -> tile 1.
    ppu.write(0x8010, 0xFF);
    ppu.write(0x8011, 0x00);
    ppu.write(0x9800 + 1, 1);
    ppu.write(0xFF4A, 0);
    ppu.write(0xFF4B, 57); // left edge at screen column 50
    ppu.draw_window();
    // Source columns 0..8 (tile 0) are clear; source columns 8..16
    // (tile 1) carry color 1, at screen columns 58..66.
    assert_eq!(ppu.frame_buffer[50], 0);
    assert_eq!(ppu.frame_buffer[57], 0);
    assert_eq!(ppu.frame_buffer[58], 1);
    assert_eq!(ppu.frame_buffer[65], 1);
    assert_eq!(ppu.frame_buffer[66], 0);
}

#[test]
fn window_waits_for_its_y_position() {
    let mut ppu = PPU::new();
    ppu.write(0xFF40, 0x91);
    ppu.write(0xFF47, 0xE4);
    ppu.write(0x8000, 0x00);
    ppu.write(0x8001, 0xFF);
    ppu.write(0xFF4A, 10); // WY
    ppu.write(0xFF4B, 7);
    ppu.write(0xFF44, 5); // line above WY: nothing drawn
    ppu.draw_window();
    assert_eq!(ppu.frame_buffer[5 * 160], 0);
    ppu.write(0xFF44, 10); // line reaches WY: source row 0 drawn
    ppu.draw_window();
    assert_eq!(ppu.frame_buffer[10 * 160], 2);
}

#[test]
fn background_scroll_wraps_at_256() {
    let mut ppu = PPU::new();
    let mut iflag: u8 = 0;
    ppu.write(0xFF40, 0x91);
    ppu.write(0xFF47, 0xE4);
    // Map cell 0 holds tile 1, whose row 0 is color 1.
    ppu.write(0x8010, 0xFF);
    ppu.write(0x8011, 0x00);
    ppu.write(0x9800, 1);
    // Scroll 248: screen column 8 wraps to map column (8 + 248) % 256 = 0.
    ppu.write(0xFF43, 248);
    ppu.run(80, &mut iflag);
    ppu.run(172, &mut iflag);
    ppu.run(204, &mut iflag);
    assert_eq!(ppu.frame_buffer[8], 1);
    assert_eq!(ppu.frame_buffer[15], 1);
    assert_eq!(ppu.frame_buffer[16], 0);
    assert_eq!(ppu.frame_buffer[7], 0); // map column 255 is tile 31, clear
}
