use rustboy::interrupts::InterruptType;
use rustboy::ppu::{tile_color, LcdMode, PaletteType, Ppu, Rgb};

const WHITE: Rgb = Rgb { r: 255, g: 255, b: 255 };
const BLACK: Rgb = Rgb { r: 0, g: 0, b: 0 };

#[test]
fn shades() {
    assert_eq!(tile_color(0), WHITE);
    assert_eq!(tile_color(1), Rgb { r: 169, g: 169, b: 169 });
    assert_eq!(tile_color(2), Rgb { r: 84, g: 84, b: 84 });
    assert_eq!(tile_color(3), BLACK);
}

#[test]
fn power_on_state() {
    let ppu = Ppu::new();
    assert_eq!(ppu.control(), 0x91);
    assert!(ppu.stat_mode() == LcdMode::Oam);
    assert_eq!(ppu.bg_tile_map_addr(), 0x9800);
    assert_eq!(ppu.bg_window_data_area(), 0x8000);
    assert_eq!(ppu.window_map_area(), 0x9800);
    assert_eq!(ppu.ly(), 0);
}

#[test]
fn lcd_registers() {
    let mut ppu = Ppu::new();
    ppu.write_lcd(0xFF42, 0x12);
    ppu.write_lcd(0xFF43, 0x34);
    ppu.write_lcd(0xFF45, 0x56);
    ppu.write_lcd(0xFF4A, 0x78);
    ppu.write_lcd(0xFF4B, 0x9A);
    assert_eq!(ppu.read_lcd(0xFF42), 0x12);
    assert_eq!(ppu.read_lcd(0xFF43), 0x34);
    assert_eq!(ppu.read_lcd(0xFF45), 0x56);
    assert_eq!(ppu.read_lcd(0xFF4A), 0x78);
    assert_eq!(ppu.read_lcd(0xFF4B), 0x9A);
    ppu.write_lcd(0xFF40, 0x48);
    assert_eq!(ppu.bg_tile_map_addr(), 0x9C00);
    assert_eq!(ppu.bg_window_data_area(), 0x8800);
    assert_eq!(ppu.window_map_area(), 0x9C00);
    ppu.write_lcd(0xFF48, 0xE7);
    assert_eq!(ppu.read_lcd(0xFF48), 0xE4);
    ppu.write_lcd(0xFF46, 0xC1);
    assert!(ppu.dma_transferring());
    assert_eq!(ppu.dma_value(), 0xC1);
    assert_eq!(ppu.dma_start_delay(), 2);
    assert_eq!(ppu.read_lcd(0xFF46), 0xC1);
}

#[test]
fn palette_selects_shades() {
    let mut ppu = Ppu::new();
    ppu.update_palette(&PaletteType::Background, 0x1B);
    assert_eq!(ppu.bg_palette, vec![tile_color(3), tile_color(2), tile_color(1), tile_color(0)]);
    assert_eq!(ppu.read_lcd(0xFF47), 0x1B);
    ppu.write_lcd(0xFF49, 0xFF);
    // the low two bits of an object palette are dropped: colour 0 stays white
    assert_eq!(ppu.sprite1_palette, vec![WHITE, BLACK, BLACK, BLACK]);
}

#[test]
fn stat_mode_keeps_other_bits() {
    let mut ppu = Ppu::new();
    ppu.write_lcd(0xFF41, 0x48);
    ppu.set_stat_mode(LcdMode::Transfer);
    assert_eq!(ppu.read_lcd(0xFF41), 0x4B);
    assert!(ppu.stat_mode() == LcdMode::Transfer);
}

#[test]
fn ly_meets_lyc() {
    let mut ppu = Ppu::new();
    ppu.write_lcd(0xFF45, 1);
    ppu.write_lcd(0xFF41, 0x40);
    let ints = ppu.increment_ly();
    assert_eq!(ppu.ly(), 1);
    assert_eq!(ppu.read_lcd(0xFF41) & 0x04, 0x04);
    assert!(ints == vec![InterruptType::LcdStat]);
    let ints = ppu.increment_ly();
    assert_eq!(ppu.read_lcd(0xFF41) & 0x04, 0);
    assert!(ints.is_empty());
}

#[test]
fn one_line_takes_456_dots() {
    let mut ppu = Ppu::new();
    for _ in 0..79 {
        assert!(ppu.tick().is_empty());
    }
    assert!(ppu.stat_mode() == LcdMode::Oam);
    ppu.tick();
    assert!(ppu.stat_mode() == LcdMode::Transfer);
    ppu.tick();
    assert!(ppu.stat_mode() == LcdMode::HBlank);
    for _ in 82..=456 {
        ppu.tick();
    }
    assert_eq!(ppu.ly(), 1);
    assert_eq!(ppu.line_ticks(), 0);
    assert!(ppu.stat_mode() == LcdMode::Oam);
}

#[test]
fn a_frame_ends_in_vblank_and_wraps() {
    let mut ppu = Ppu::new();
    let mut vblanks = 0;
    for _ in 0..(144 * 456) {
        for i in ppu.tick() {
            if i == InterruptType::VBlank {
                vblanks += 1;
            }
        }
    }
    assert_eq!(ppu.ly(), 144);
    assert!(ppu.stat_mode() == LcdMode::VBlank);
    assert_eq!(vblanks, 1);
    for _ in 0..(10 * 456) {
        ppu.tick();
    }
    assert_eq!(ppu.ly(), 0);
    assert!(ppu.stat_mode() == LcdMode::Oam);
}

#[test]
fn background_line_is_drawn_from_tiles() {
    let mut ppu = Ppu::new();
    // tile 0, row 0: leftmost pixel colour 3, second pixel colour 1
    ppu.write_vram(0x8000, 0xC0);
    ppu.write_vram(0x8001, 0x80);
    ppu.draw_line();
    assert_eq!(ppu.video_buffer[0], BLACK);
    assert_eq!(ppu.video_buffer[1], tile_color(1));
    assert_eq!(ppu.video_buffer[2], WHITE);
    assert_eq!(ppu.video_buffer[8], BLACK);
    assert!(ppu.bg_prio[0]);
    assert!(!ppu.bg_prio[2]);
}

#[test]
fn background_scrolls() {
    let mut ppu = Ppu::new();
    ppu.write_vram(0x8000, 0xC0);
    ppu.write_vram(0x8001, 0x80);
    ppu.write_lcd(0xFF43, 1);
    ppu.draw_line();
    assert_eq!(ppu.video_buffer[0], tile_color(1));
    assert_eq!(ppu.video_buffer[7], BLACK);
}

#[test]
fn sprite_drawn_over_background() {
    let mut ppu = Ppu::new();
    ppu.write_lcd(0xFF40, 0x93);
    ppu.write_lcd(0xFF48, 0xE4);
    // sprite tile 1, row 0: leftmost pixel colour 1
    ppu.write_vram(0x8010, 0x80);
    ppu.write_oam(0xFE00, 16);
    ppu.write_oam(0xFE01, 8 + 10);
    ppu.write_oam(0xFE02, 1);
    ppu.draw_line();
    assert_eq!(ppu.video_buffer[10], tile_color(1));
    assert_eq!(ppu.video_buffer[11], WHITE);
}

#[test]
fn lines_past_the_screen_draw_nothing() {
    let mut ppu = Ppu::new();
    ppu.write_vram(0x8000, 0xFF);
    ppu.set_ly(150);
    let before = ppu.video_buffer.clone();
    ppu.draw_line();
    assert_eq!(ppu.video_buffer, before);
}

fn sprite_ppu() -> Ppu {
    let mut ppu = Ppu::new();
    // sprites on, 8x8, identity palettes for both object palettes
    ppu.write_lcd(0xFF40, 0x93);
    ppu.write_lcd(0xFF48, 0xE4);
    ppu.write_lcd(0xFF49, 0xE4);
    // tile 1, row 0: every pixel colour 1; tile 2, row 0: every pixel colour 2
    ppu.write_vram(0x8010, 0xFF);
    ppu.write_vram(0x8021, 0xFF);
    ppu
}

fn place(ppu: &mut Ppu, slot: u16, y: u8, x: u8, tile: u8, flags: u8) {
    let base = 0xFE00 + 4 * slot;
    ppu.write_oam(base, y);
    ppu.write_oam(base + 1, x);
    ppu.write_oam(base + 2, tile);
    ppu.write_oam(base + 3, flags);
}

#[test]
fn smaller_x_wins_where_sprites_overlap() {
    let mut ppu = sprite_ppu();
    place(&mut ppu, 0, 16, 8 + 12, 1, 0);
    place(&mut ppu, 1, 16, 8 + 10, 2, 0);
    ppu.draw_line();
    // columns 10-11: only sprite 1 (x 10, colour 2)
    assert_eq!(ppu.video_buffer[10], tile_color(2));
    // columns 12-17: both, sprite 1 has the smaller x
    assert_eq!(ppu.video_buffer[12], tile_color(2));
    assert_eq!(ppu.video_buffer[17], tile_color(2));
    // columns 18-19: only sprite 0
    assert_eq!(ppu.video_buffer[18], tile_color(1));
    assert_eq!(ppu.video_buffer[20], WHITE);
}

#[test]
fn same_x_lower_slot_wins() {
    let mut ppu = sprite_ppu();
    place(&mut ppu, 0, 16, 8 + 30, 2, 0);
    place(&mut ppu, 1, 16, 8 + 30, 1, 0);
    ppu.draw_line();
    assert_eq!(ppu.video_buffer[30], tile_color(2));
}

#[test]
fn sprite_behind_background_shows_only_over_colour_zero() {
    let mut ppu = sprite_ppu();
    // background tile 0 row 0: leftmost pixel colour 1, the rest 0
    ppu.write_vram(0x8000, 0x80);
    place(&mut ppu, 0, 16, 8, 2, 0x80);
    ppu.draw_line();
    assert_eq!(ppu.video_buffer[0], tile_color(1));
    assert_eq!(ppu.video_buffer[1], tile_color(2));
}

#[test]
fn only_ten_sprites_per_line() {
    let mut ppu = sprite_ppu();
    for slot in 0..11u16 {
        place(&mut ppu, slot, 16, 8 + 8 * slot as u8, 1, 0);
    }
    ppu.draw_line();
    assert_eq!(ppu.video_buffer[9 * 8], tile_color(1));
    // the eleventh sprite on the line is not drawn
    assert_eq!(ppu.video_buffer[10 * 8], WHITE);
}

#[test]
fn flipped_sprite_row_and_column() {
    let mut ppu = sprite_ppu();
    // tile 3 row 7 (last row): leftmost pixel colour 3
    ppu.write_vram(0x8030 + 14, 0x80);
    ppu.write_vram(0x8030 + 15, 0x80);
    // y flip and x flip: line 0 shows row 7, column 0 shows tile column 7
    place(&mut ppu, 0, 16, 8 + 40, 3, 0x60);
    ppu.draw_line();
    assert_eq!(ppu.video_buffer[47], BLACK);
    assert_eq!(ppu.video_buffer[40], WHITE);
}

#[test]
fn tall_sprites_use_two_tiles() {
    let mut ppu = sprite_ppu();
    ppu.write_lcd(0xFF40, 0x97);
    // tile 5 is the bottom half of tile pair 4-5; line 8 of the sprite is its row 0
    ppu.write_vram(0x8050, 0x80);
    place(&mut ppu, 0, 8, 8 + 50, 5, 0);
    ppu.draw_line();
    assert_eq!(ppu.video_buffer[50], tile_color(1));
}
