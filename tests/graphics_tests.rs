use rbgb::types::{CURRENT_SCANLINE, IF, LCD_CONTROL, LCD_STATUS, SCREEN_WIDTH};
use rbgb::{Memory, Screen};

#[test]
fn graphics_test_is_lcd_enabled() {
    let mut mem = Memory::new();
    mem.write_byte(LCD_CONTROL, 0x80);
    let screen = Screen::new();
    assert!(screen.is_lcd_enabled(&mem));

    mem.write_byte(LCD_CONTROL, 0x00);
    assert!(!screen.is_lcd_enabled(&mem));
}

#[test]
fn graphics_test_render_tile_indexing() {
    let mut mem = Memory::new();
    mem.ram_startup();
    let mut screen = Screen::new();

    mem.write_byte_forced(CURRENT_SCANLINE, 1);
    mem.write_byte_forced(0xFF42, 0);
    mem.write_byte_forced(0xFF43, 0);
    mem.write_byte_forced(0xFF4A, 0);
    mem.write_byte_forced(0xFF4B, 7);
    mem.write_byte_forced(0xFF47, 0);
    mem.write_byte_forced(0x9800, 0);
    mem.write_byte_forced(0x8000, 0);
    mem.write_byte_forced(0x8001, 0);

    screen.render_tiles(&mem, 0x31);

    let correct = (SCREEN_WIDTH as usize) * 3;
    assert_eq!(screen.buffer()[correct], 255);
    assert_eq!(screen.buffer()[1], 0);
}

#[test]
fn pixels_round_trip_and_clear() {
    let mut screen = Screen::new();
    screen.set_pixel(3, 2, 2);
    assert_eq!(screen.get_pixel(3, 2), 2);
    assert_eq!(screen.buffer()[(2 * 160 + 3) * 3], 0x77);
    screen.set_pixel(200, 2, 1);
    assert_eq!(screen.get_pixel(200, 2), 0);
    screen.clear(1);
    assert_eq!(screen.get_pixel(0, 0), 1);
    assert_eq!(screen.get_pixel(159, 143), 1);
    assert!(screen.buffer().iter().all(|b| *b == 0xCC));
    assert_eq!(Screen::color_to_rgb(0), (255, 255, 255));
    assert_eq!(Screen::rgb_to_color(1, 2, 3), 3);
}

#[test]
fn scanline_144_requests_vblank() {
    let mut mem = Memory::new();
    mem.ram_startup();
    let mut screen = Screen::new();
    mem.write_byte_forced(CURRENT_SCANLINE, 143);
    screen.update_screen(&mut mem, 456);
    assert_eq!(mem.read_byte(CURRENT_SCANLINE), 144);
    assert_eq!(mem.read_byte(IF) & 1, 1);
}

#[test]
fn scanline_wraps_after_153() {
    let mut mem = Memory::new();
    mem.ram_startup();
    let mut screen = Screen::new();
    mem.write_byte_forced(CURRENT_SCANLINE, 153);
    screen.update_screen(&mut mem, 456);
    assert_eq!(mem.read_byte(CURRENT_SCANLINE), 0);
}

#[test]
fn lcd_off_forces_mode_one() {
    let mut mem = Memory::new();
    let mut screen = Screen::new();
    mem.write_byte_forced(CURRENT_SCANLINE, 20);
    screen.update_screen(&mut mem, 100);
    assert_eq!(mem.read_byte(CURRENT_SCANLINE), 0);
    assert_eq!(mem.read_byte(LCD_STATUS) & 0x3, 1);
}

#[test]
fn scanline_counter_runs_down() {
    let mut mem = Memory::new();
    mem.ram_startup();
    let mut screen = Screen::new();
    screen.update_screen(&mut mem, 100);
    assert_eq!(mem.read_byte(CURRENT_SCANLINE), 0);
    assert_eq!(mem.read_byte(LCD_STATUS) & 0x3, 2);
    screen.update_screen(&mut mem, 100);
    assert_eq!(mem.read_byte(LCD_STATUS) & 0x3, 3);
}

#[test]
fn sprite_drawn_over_background() {
    let mut mem = Memory::new();
    mem.ram_startup();
    let mut screen = Screen::new();
    screen.clear(0);
    mem.write_byte_forced(CURRENT_SCANLINE, 0);
    mem.write_byte_forced(0xFF48, 0xE4);
    // sprite 0 at screen (0, 0), tile 1, identity palette
    mem.write_byte_forced(0xFE00, 16);
    mem.write_byte_forced(0xFE01, 8);
    mem.write_byte_forced(0xFE02, 1);
    mem.write_byte_forced(0xFE03, 0);
    // first row of tile 1: leftmost pixel color 1
    mem.write_byte_forced(0x8010, 0x80);
    mem.write_byte_forced(0x8011, 0x00);
    screen.render_sprites(&mem, 0x82);
    assert_eq!(screen.get_pixel(0, 0), 1);
    assert_eq!(screen.get_pixel(1, 0), 0);
}
