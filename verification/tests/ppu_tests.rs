use gbemu::msg::Color;
use gbemu::ppu::fetcher::{LineFetcher, Pixel};
use gbemu::ppu::tile::{
    reverse_bits, tile_data_vram_addr, tile_id_vram_addr, OamEntry, TileLine,
};
use gbemu::ppu::{calc_stat_interrupt, cgb_to_color, get_oam_entry, Ppu, PpuMode};
use gbemu::regs::{LcdCtrl, LcdStat};

fn enabled_ppu() -> Ppu {
    let mut ppu = Ppu::new(false);
    ppu.fetcher.regs.lcdc = LcdCtrl::new(0x91);
    ppu.regs.bgp = 0xE4;
    ppu
}

fn put_object(ppu: &mut Ppu, idx: usize, ypos: u8, xpos: u8, tile: u8, attrs: u8) {
    ppu.oam[idx * 4] = ypos;
    ppu.oam[idx * 4 + 1] = xpos;
    ppu.oam[idx * 4 + 2] = tile;
    ppu.oam[idx * 4 + 3] = attrs;
}

fn px(color_id: u8, bg_priority: bool, is_obj: bool) -> Pixel {
    Pixel { color_id, palette: 0, is_obj, bg_priority }
}

#[test]
fn a_line_takes_456_dots_and_a_frame_154_lines() {
    let mut ppu = enabled_ppu();
    let mut dots = 0u32;
    let mut lines = 0u32;
    let mut last_ly = ppu.regs.ly;
    let mut line_lengths = Vec::new();
    let mut line_start = 0u32;
    while lines < 2 * 154 {
        ppu.tick(4);
        dots += 4;
        if ppu.regs.ly != last_ly {
            line_lengths.push(dots - line_start);
            line_start = dots;
            last_ly = ppu.regs.ly;
            lines += 1;
            assert!(ppu.regs.ly < 154);
        }
    }
    assert!(line_lengths.iter().all(|l| *l == 456));
    assert_eq!(dots, 2 * 154 * 456);
    assert_eq!(ppu.regs.ly, 0);
    assert!(ppu.check());
}

#[test]
fn modes_follow_the_line() {
    let mut ppu = enabled_ppu();
    let mut seen = Vec::new();
    for _ in 0..(456 / 2) {
        ppu.tick(2);
        if seen.last() != Some(&ppu.regs.mode) {
            seen.push(ppu.regs.mode);
        }
        assert_eq!(ppu.regs.stat.ppu_mode, ppu.regs.mode.as_number());
    }
    assert_eq!(seen, vec![PpuMode::Scan, PpuMode::Draw, PpuMode::HBlank, PpuMode::Scan]);
    let mut at_80 = enabled_ppu();
    at_80.tick(78);
    assert_eq!(at_80.regs.mode, PpuMode::Scan);
    at_80.tick(2);
    assert_eq!(at_80.regs.mode, PpuMode::Draw);
    assert_eq!(at_80.regs.dots_in_line, 80);
}

#[test]
fn vblank_is_raised_once_per_frame_on_line_144() {
    let mut ppu = enabled_ppu();
    let mut raised = 0;
    for _ in 0..(154 * 456 / 4) {
        let intr = ppu.tick(4);
        if intr.vblank {
            raised += 1;
            assert_eq!(ppu.regs.ly, 144);
            assert_eq!(ppu.regs.mode, PpuMode::VBlank);
        }
    }
    assert_eq!(raised, 1);
    assert_eq!(ppu.regs.mode, PpuMode::Scan);
}

#[test]
fn stat_interrupt_fires_once_when_ly_reaches_lyc() {
    let mut ppu = enabled_ppu();
    ppu.regs.stat = LcdStat::new(0x40);
    ppu.regs.lyc = 42;
    let mut fired = 0;
    let mut fired_on_line = None;
    while ppu.regs.ly < 43 {
        let before = ppu.regs.ly;
        let intr = ppu.tick(4);
        if intr.stat {
            fired += 1;
            fired_on_line = Some((before, ppu.regs.ly));
        }
    }
    assert_eq!(fired, 1);
    assert_eq!(fired_on_line, Some((41, 42)));
    assert!(!ppu.regs.stat.ly_eq_lyc);
}

#[test]
fn stat_line_is_the_or_of_the_enabled_sources() {
    let none = LcdStat::new(0);
    assert!(!calc_stat_interrupt(none, PpuMode::HBlank, 5, 5));
    let lyc = LcdStat::new(0x40);
    assert!(calc_stat_interrupt(lyc, PpuMode::Draw, 5, 5));
    assert!(!calc_stat_interrupt(lyc, PpuMode::Draw, 5, 6));
    let hblank = LcdStat::new(0x08);
    assert!(calc_stat_interrupt(hblank, PpuMode::HBlank, 1, 2));
    assert!(!calc_stat_interrupt(hblank, PpuMode::VBlank, 1, 2));
    let vblank = LcdStat::new(0x10);
    assert!(calc_stat_interrupt(vblank, PpuMode::VBlank, 1, 2));
    assert!(!calc_stat_interrupt(vblank, PpuMode::Scan, 1, 2));
    let scan = LcdStat::new(0x20);
    assert!(calc_stat_interrupt(scan, PpuMode::Scan, 1, 2));
    assert!(!calc_stat_interrupt(scan, PpuMode::Draw, 1, 2));
    assert!(calc_stat_interrupt(LcdStat::new(0x48), PpuMode::Draw, 7, 7));
}

#[test]
fn disabled_ppu_idles() {
    let mut ppu = Ppu::new(false);
    ppu.regs.ly = 17;
    ppu.regs.dots_in_line = 100;
    ppu.regs.mode = PpuMode::HBlank;
    let intr = ppu.tick(456 * 3);
    assert!(!intr.is_any());
    assert_eq!(ppu.regs.ly, 0);
    assert_eq!(ppu.regs.dots_in_line, 0);
    assert_eq!(ppu.regs.mode, PpuMode::Scan);
    assert_eq!(ppu.regs.stat.ppu_mode, 0);
}

#[test]
fn oam_scan_keeps_at_most_ten_objects_that_cover_the_line() {
    let mut ppu = enabled_ppu();
    for i in 0..40 {
        let ypos = if i % 2 == 0 { 16 } else { 100 };
        put_object(&mut ppu, i, ypos, 8 + i as u8, i as u8, 0);
    }
    ppu.tick(78);
    assert_eq!(ppu.fetcher.objects.len(), 10);
    let kept: Vec<u8> = ppu.fetcher.objects.iter().map(|o| o.tile_id).collect();
    assert_eq!(kept, vec![0, 2, 4, 6, 8, 10, 12, 14, 16, 18]);
}

#[test]
fn oam_scan_selects_by_vertical_position_and_height() {
    for (tall, ly, ypos, expect) in [
        (false, 0u8, 16u8, true),
        (false, 0, 9, true),
        (false, 0, 8, false),
        (false, 0, 17, false),
        (false, 7, 16, true),
        (false, 8, 16, false),
        (true, 8, 16, true),
        (true, 15, 16, true),
        (true, 16, 16, false),
        (true, 0, 1, true),
        (true, 0, 0, false),
        (false, 143, 159, true),
        (false, 143, 255, false),
        (true, 10, 250, false),
    ] {
        let mut ppu = enabled_ppu();
        ppu.fetcher.regs.lcdc.obj_size = tall;
        ppu.regs.ly = ly;
        put_object(&mut ppu, 0, ypos, 20, 1, 0);
        for i in 1..40 {
            put_object(&mut ppu, i, 0, 0, 0, 0);
        }
        ppu.tick(78);
        assert_eq!(ppu.fetcher.objects.len() == 1, expect, "{tall} {ly} {ypos}");
        let o = OamEntry::from_array([ypos, 20, 1, 0]);
        assert_eq!(o.ypos as u16 <= ly as u16 + 16 && (ly as u16 + 16) < ypos as u16 + if tall { 16 } else { 8 }, expect);
    }
}

#[test]
fn oam_entries_are_four_bytes() {
    let mut ppu = Ppu::new(false);
    put_object(&mut ppu, 39, 1, 2, 3, 0xF0);
    let e = get_oam_entry(&ppu.oam, 39);
    assert_eq!((e.ypos, e.xpos, e.tile_id), (1, 2, 3));
    assert!(e.attrs.bg_priority && e.attrs.yflip && e.attrs.xflip && e.attrs.dmg_palette);
    assert_eq!(e, OamEntry::from_array([1, 2, 3, 0xF0]));
}

#[test]
fn pixel_mix_follows_the_rule_table() {
    let f = LineFetcher::new(false);
    let mut cgb = LineFetcher::new(true);
    cgb.regs.lcdc.bg_win_priority = true;
    let mut cgb_no_priority = LineFetcher::new(true);
    cgb_no_priority.regs.lcdc.bg_win_priority = false;
    for bg_zero in [false, true] {
        for obj_zero in [false, true] {
            for bg_prio in [false, true] {
                for obj_prio in [false, true] {
                    let bg = px(if bg_zero { 0 } else { 2 }, bg_prio, false);
                    let obj = px(if obj_zero { 0 } else { 3 }, obj_prio, true);
                    let dmg_expect = if obj_zero {
                        bg
                    } else if bg_zero {
                        obj
                    } else if obj_prio {
                        bg
                    } else {
                        obj
                    };
                    assert_eq!(f.mix_bg_obj_pixels(bg, obj), dmg_expect);
                    let cgb_expect = if obj_zero {
                        bg
                    } else if bg_zero {
                        obj
                    } else if bg_prio || obj_prio {
                        bg
                    } else {
                        obj
                    };
                    assert_eq!(cgb.mix_bg_obj_pixels(bg, obj), cgb_expect);
                    let open_expect = if obj_zero { bg } else { obj };
                    assert_eq!(cgb_no_priority.mix_bg_obj_pixels(bg, obj), open_expect);
                }
            }
        }
    }
}

#[test]
fn tile_addresses() {
    assert_eq!(tile_data_vram_addr(true, 0), 0x0000);
    assert_eq!(tile_data_vram_addr(true, 255), 0x0FF0);
    assert_eq!(tile_data_vram_addr(false, 0), 0x1000);
    assert_eq!(tile_data_vram_addr(false, 127), 0x17F0);
    assert_eq!(tile_data_vram_addr(false, 128), 0x0800);
    assert_eq!(tile_data_vram_addr(false, 255), 0x0FF0);
    assert_eq!(tile_id_vram_addr(false, 0, 0), 0x1800);
    assert_eq!(tile_id_vram_addr(false, 31, 31), 0x1BFF);
    assert_eq!(tile_id_vram_addr(true, 3, 2), 0x1C43);
}

#[test]
fn tile_rows_read_colours_left_to_right() {
    let mut vram = vec![0u8; 0x4000];
    vram[0x10 + 6] = 0b1100_0101;
    vram[0x10 + 7] = 0b1010_0011;
    let mut t = TileLine::from_obj(OamEntry::from_array([0, 0, 1, 0]), false);
    t.line = 3;
    t.read_in_line(&vram, true);
    let ids: Vec<u8> = (0..8).map(|c| t.get_color_id(c)).collect();
    assert_eq!(ids, vec![3, 1, 2, 0, 0, 1, 2, 3]);
    let mut flipped = TileLine::from_obj(OamEntry::from_array([0, 0, 1, 0x20]), false);
    flipped.line = 3;
    flipped.read_in_line(&vram, true);
    let ids: Vec<u8> = (0..8).map(|c| flipped.get_color_id(c)).collect();
    assert_eq!(ids, vec![3, 2, 1, 0, 0, 2, 1, 3]);
    let mut upside_down = TileLine::from_obj(OamEntry::from_array([0, 0, 1, 0x40]), false);
    upside_down.line = 4;
    upside_down.read_in_line(&vram, true);
    assert_eq!(upside_down.low, 0b1100_0101);
    assert_eq!(reverse_bits(0b1100_0101), 0b1010_0011);
    assert_eq!(reverse_bits(0x01), 0x80);
}

#[test]
fn background_tiles_reach_the_frame() {
    let mut ppu = enabled_ppu();
    for row in 0..8 {
        ppu.fetcher.vram[0x10 + 2 * row] = 0xFF;
        ppu.fetcher.vram[0x20 + 2 * row + 1] = 0xFF;
    }
    for i in 0..0x400 {
        ppu.fetcher.vram[0x1800 + i] = if i % 2 == 0 { 1 } else { 2 };
    }
    for _ in 0..(154 * 456 / 4) {
        ppu.tick(4);
    }
    let mut frame = gbemu::msg::VideoFrame::new();
    ppu.copy_frame(&mut frame);
    let light = Color::from_hexcode(0xAAAAAA);
    let dark = Color::from_hexcode(0x555555);
    for y in [0usize, 1, 77, 143] {
        for x in 0..160 {
            let expect = if (x / 8) % 2 == 0 { light } else { dark };
            assert_eq!(frame.get(x, y), expect, "{x} {y}");
        }
    }
}

#[test]
fn fine_scroll_shifts_the_line() {
    let mut ppu = enabled_ppu();
    for row in 0..8 {
        ppu.fetcher.vram[0x10 + 2 * row] = 0xFF;
    }
    for i in 0..0x400 {
        ppu.fetcher.vram[0x1800 + i] = if i % 2 == 0 { 1 } else { 0 };
    }
    ppu.fetcher.regs.scx = 3;
    ppu.tick(456);
    let line: Vec<u8> = ppu.fetcher.screen_line.iter().map(|p| p.color_id).collect();
    for x in 0..160 {
        let expect = if ((x + 3) / 8) % 2 == 0 { 1 } else { 0 };
        assert_eq!(line[x], expect, "{x}");
    }
}

#[test]
fn objects_are_drawn_by_position_then_by_oam_order() {
    let mut ppu = enabled_ppu();
    ppu.fetcher.regs.lcdc = LcdCtrl::new(0x93);
    ppu.regs.obp0 = 0xE4;
    ppu.regs.obp1 = 0xE4;
    for row in 0..8 {
        ppu.fetcher.vram[0x10 + 2 * row] = 0xFF;
        ppu.fetcher.vram[0x20 + 2 * row + 1] = 0xFF;
        ppu.fetcher.vram[0x30 + 2 * row] = 0xFF;
        ppu.fetcher.vram[0x30 + 2 * row + 1] = 0xFF;
    }
    for i in 0..40 {
        put_object(&mut ppu, i, 0, 0, 0, 0);
    }
    put_object(&mut ppu, 0, 16, 8 + 20, 1, 0);
    put_object(&mut ppu, 1, 16, 8 + 16, 2, 0);
    put_object(&mut ppu, 2, 16, 8 + 16, 3, 0x10);
    put_object(&mut ppu, 3, 16, 4, 1, 0);
    ppu.tick(456);
    let line = &ppu.fetcher.screen_line;
    for x in 0..4 {
        assert_eq!((line[x].color_id, line[x].is_obj), (1, true), "{x}");
    }
    for x in 4..16 {
        assert_eq!((line[x].color_id, line[x].is_obj), (0, false), "{x}");
    }
    for x in 16..24 {
        assert_eq!((line[x].color_id, line[x].is_obj, line[x].palette), (2, true, 0), "{x}");
    }
    for x in 24..28 {
        assert_eq!((line[x].color_id, line[x].is_obj), (1, true), "{x}");
    }
    assert_eq!((line[28].color_id, line[28].is_obj), (0, false));
}

#[test]
fn window_replaces_the_background_from_wx() {
    let mut ppu = enabled_ppu();
    ppu.fetcher.regs.lcdc = LcdCtrl::new(0xF1);
    for row in 0..8 {
        ppu.fetcher.vram[0x10 + 2 * row] = 0xFF;
    }
    for i in 0..0x400 {
        ppu.fetcher.vram[0x1C00 + i] = 1;
    }
    ppu.fetcher.regs.wx = 7 + 40;
    ppu.fetcher.regs.wy = 0;
    ppu.tick(456);
    let line: Vec<u8> = ppu.fetcher.screen_line.iter().map(|p| p.color_id).collect();
    for x in 0..160 {
        assert_eq!(line[x], if x < 40 { 0 } else { 1 }, "{x}");
    }
    assert!(ppu.fetcher.regs.window);
}

#[test]
fn colours_of_colour_palettes() {
    assert_eq!(cgb_to_color(0x7FFF), Color { r: 255, g: 255, b: 255 });
    assert_eq!(cgb_to_color(0x0000), Color { r: 0, g: 0, b: 0 });
    assert_eq!(cgb_to_color(0x001F), Color { r: 255, g: 0, b: 0 });
    assert_eq!(cgb_to_color(0x03E0), Color { r: 0, g: 255, b: 0 });
    assert_eq!(cgb_to_color(0x7C00), Color { r: 0, g: 0, b: 255 });
    assert_eq!(cgb_to_color(0x0010), Color { r: 132, g: 0, b: 0 });
    let mut ppu = Ppu::new(true);
    ppu.obj_palette[2 * 8 + 3 * 2] = 0x1F;
    ppu.obj_palette[2 * 8 + 3 * 2 + 1] = 0x00;
    ppu.bg_palette[7 * 8 + 2] = 0xE0;
    ppu.bg_palette[7 * 8 + 3] = 0x03;
    assert_eq!(ppu.get_cgb_color(true, 3, 2), 0x001F);
    assert_eq!(ppu.get_cgb_color(false, 1, 7), 0x03E0);
    assert_eq!(
        ppu.pixel_to_color(Pixel { color_id: 3, palette: 2, is_obj: true, bg_priority: false }),
        Color { r: 255, g: 0, b: 0 }
    );
}

#[test]
fn monochrome_palettes_map_colour_numbers_to_shades() {
    let mut ppu = Ppu::new(false);
    ppu.regs.bgp = 0b00_01_10_11;
    ppu.regs.obp0 = 0b11_10_01_00;
    ppu.regs.obp1 = 0b00_00_00_11;
    let shades = [0xFFFFFFu32, 0xAAAAAA, 0x555555, 0x000000];
    for id in 0..4u8 {
        let bg = ppu.pixel_to_color(Pixel { color_id: id, palette: 0, is_obj: false, bg_priority: false });
        assert_eq!(bg, Color::from_hexcode(shades[3 - id as usize]));
        let o0 = ppu.pixel_to_color(Pixel { color_id: id, palette: 0, is_obj: true, bg_priority: false });
        assert_eq!(o0, Color::from_hexcode(shades[id as usize]));
    }
    let o1 = ppu.pixel_to_color(Pixel { color_id: 0, palette: 1, is_obj: true, bg_priority: false });
    assert_eq!(o1, Color::from_hexcode(0x000000));
    ppu.cycle_palette(1);
    let green = ppu.pixel_to_color(Pixel { color_id: 3, palette: 0, is_obj: false, bg_priority: false });
    assert_eq!(green, Color::from_hexcode(0xE0F8D0));
    ppu.cycle_palette(-1);
    ppu.cycle_palette(-1);
    assert_eq!(ppu.regs.dmg_palette_id, 3);
    ppu.cycle_palette(1);
    assert_eq!(ppu.regs.dmg_palette_id, 0);
}

#[test]
fn lcd_registers_keep_read_only_bits() {
    let mut ppu = enabled_ppu();
    ppu.tick(100);
    assert_eq!(ppu.read_reg(0xFF41) & 0x03, 3);
    ppu.write_reg(0xFF41, 0xF8 | 0x01);
    assert_eq!(ppu.read_reg(0xFF41), 0x78 | 0x04 | 0x03);
    ppu.write_reg(0xFF44, 99);
    assert_eq!(ppu.read_reg(0xFF44), 0);
    ppu.write_reg(0xFF45, 99);
    assert_eq!(ppu.read_reg(0xFF45), 99);
    ppu.write_reg(0xFF42, 1);
    ppu.write_reg(0xFF43, 2);
    ppu.write_reg(0xFF4A, 3);
    ppu.write_reg(0xFF4B, 4);
    ppu.write_reg(0xFF47, 5);
    ppu.write_reg(0xFF48, 6);
    ppu.write_reg(0xFF49, 7);
    ppu.write_reg(0xFF40, 0x80);
    let read: Vec<u8> = [0xFF42u16, 0xFF43, 0xFF4A, 0xFF4B, 0xFF47, 0xFF48, 0xFF49, 0xFF40]
        .iter()
        .map(|a| ppu.read_reg(*a))
        .collect();
    assert_eq!(read, vec![1, 2, 3, 4, 5, 6, 7, 0x80]);
    assert_eq!(ppu.read_reg(0xFF4C), 0);
}

#[test]
fn tall_objects_use_two_tiles_and_flip_as_a_whole() {
    let mut ppu = enabled_ppu();
    ppu.fetcher.regs.lcdc = LcdCtrl::new(0x97);
    for row in 0..8 {
        ppu.fetcher.vram[0x40 + 2 * row] = 0xFF;
        ppu.fetcher.vram[0x50 + 2 * row + 1] = 0xFF;
    }
    for i in 0..40 {
        put_object(&mut ppu, i, 0, 0, 0, 0);
    }
    put_object(&mut ppu, 0, 16, 8, 0x05, 0x00);
    put_object(&mut ppu, 1, 16, 24, 0x04, 0x40);
    let mut upper = Vec::new();
    let mut lower = Vec::new();
    for line in 0..16 {
        ppu.tick(456);
        assert_eq!(ppu.regs.ly, line + 1);
        upper.push(ppu.fetcher.screen_line[0].color_id);
        lower.push(ppu.fetcher.screen_line[16].color_id);
    }
    assert_eq!(upper, vec![1, 1, 1, 1, 1, 1, 1, 1, 2, 2, 2, 2, 2, 2, 2, 2]);
    assert_eq!(lower, vec![2, 2, 2, 2, 2, 2, 2, 2, 1, 1, 1, 1, 1, 1, 1, 1]);
}

#[test]
fn window_lines_count_only_where_the_window_was_drawn() {
    let mut ppu = enabled_ppu();
    ppu.fetcher.regs.lcdc = LcdCtrl::new(0xF1);
    for tile in 1..4usize {
        for row in 0..8 {
            ppu.fetcher.vram[tile * 16 + 2 * row] = if row % 2 == 0 { 0xFF } else { 0x00 };
            ppu.fetcher.vram[tile * 16 + 2 * row + 1] = if row % 2 == 0 { 0x00 } else { 0xFF };
        }
    }
    for i in 0..0x400 {
        ppu.fetcher.vram[0x1C00 + i] = 1;
    }
    ppu.fetcher.regs.wx = 7;
    ppu.fetcher.regs.wy = 2;
    let mut seen = Vec::new();
    for _ in 0..6 {
        ppu.tick(456);
        seen.push(ppu.fetcher.screen_line[0].color_id);
    }
    assert_eq!(seen, vec![0, 0, 1, 2, 1, 2]);
    assert_eq!(ppu.fetcher.regs.win_y, 3);
}
