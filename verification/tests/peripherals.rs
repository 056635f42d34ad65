use gb_core::display::{background, cell_of, Cell, Pixel, Rgb, SCREEN_HEIGHT, SCREEN_WIDTH};
use gb_core::graphics::Lcd;
use gb_core::input::{button_for, EventHandler, GBButton, InputEvent, Key};
use gb_core::util::{to_bits16, to_bits8, BitGrabber};

#[test]
fn bits_of_a_byte() {
    assert!(0b0000_0001u8.nth_bit_as_bool(0));
    assert!(!0b0000_0001u8.nth_bit_as_bool(1));
    assert!(0b1000_0000u8.nth_bit_as_bool(7));
    assert!(!0b0111_1111u8.nth_bit_as_bool(7));
    for n in 0..8usize {
        assert!(0xFFu8.nth_bit_as_bool(n));
        assert!(!0u8.nth_bit_as_bool(n));
        assert_eq!(0xA5u8.nth_bit_as_bool(n), (0xA5u8 >> n) & 1 == 1);
    }
}

#[test]
fn bits_of_a_word() {
    assert!(0x8000u16.nth_bit_as_bool(15));
    assert!(!0x7FFFu16.nth_bit_as_bool(15));
    assert!(0x0800u16.nth_bit_as_bool(11));
    assert!(!0x0800u16.nth_bit_as_bool(10));
    for n in 0..16usize {
        assert!(0xFFFFu16.nth_bit_as_bool(n));
        assert!(!0u16.nth_bit_as_bool(n));
        assert_eq!(0xA5C3u16.nth_bit_as_bool(n), (0xA5C3u16 >> n) & 1 == 1);
    }
}

#[test]
fn all_bits_at_once() {
    assert_eq!(to_bits8(0), [false; 8]);
    assert_eq!(to_bits8(0xFF), [true; 8]);
    assert_eq!(to_bits8(0b0000_0101), [true, false, true, false, false, false, false, false]);
    assert_eq!(to_bits8(0x80), [false, false, false, false, false, false, false, true]);
    assert_eq!(to_bits16(0), [false; 16]);
    assert_eq!(to_bits16(0xFFFF), [true; 16]);
    let bits = to_bits16(0x8001);
    for (n, bit) in bits.iter().enumerate() {
        assert_eq!(*bit, n == 0 || n == 15);
    }
}

#[test]
fn a_new_lcd_has_every_switch_off() {
    let lcd = Lcd::new();
    assert!(!lcd.enabled);
    assert!(!lcd.display_select);
    assert!(!lcd.window_enabled);
    assert!(!lcd.tile_data);
    assert!(!lcd.background_select);
    assert!(!lcd.sprite_size);
    assert!(!lcd.sprites_enabled);
    assert!(!lcd.background_enabled);
}

#[test]
fn the_lcd_takes_each_switch_from_its_bit() {
    let mut lcd = Lcd::new();
    lcd.update_with_byte(0b1000_0000);
    assert_eq!(lcd, Lcd { enabled: true, ..Lcd::new() });
    lcd.update_with_byte(0b0100_0000);
    assert_eq!(lcd, Lcd { display_select: true, ..Lcd::new() });
    lcd.update_with_byte(0b0010_0000);
    assert_eq!(lcd, Lcd { window_enabled: true, ..Lcd::new() });
    lcd.update_with_byte(0b0001_0000);
    assert_eq!(lcd, Lcd { tile_data: true, ..Lcd::new() });
    lcd.update_with_byte(0b0000_1000);
    assert_eq!(lcd, Lcd { background_select: true, ..Lcd::new() });
    lcd.update_with_byte(0b0000_0100);
    assert_eq!(lcd, Lcd { sprite_size: true, ..Lcd::new() });
    lcd.update_with_byte(0b0000_0010);
    assert_eq!(lcd, Lcd { sprites_enabled: true, ..Lcd::new() });
    lcd.update_with_byte(0b0000_0001);
    assert_eq!(lcd, Lcd { background_enabled: true, ..Lcd::new() });
    lcd.update_with_byte(0xFF);
    assert!(lcd.enabled && lcd.display_select && lcd.window_enabled && lcd.tile_data);
    assert!(lcd.background_select && lcd.sprite_size && lcd.sprites_enabled && lcd.background_enabled);
    lcd.update_with_byte(0);
    assert_eq!(lcd, Lcd::new());
}

#[test]
fn the_four_shades() {
    assert_eq!(Pixel::LightestGreen.colour(), Rgb { red: 0x9B, green: 0xBC, blue: 0x0F });
    assert_eq!(Pixel::LightGreen.colour(), Rgb { red: 0x8B, green: 0xAC, blue: 0x0F });
    assert_eq!(Pixel::DarkGreen.colour(), Rgb { red: 0x30, green: 0x62, blue: 0x30 });
    assert_eq!(Pixel::DarkestGreen.colour(), Rgb { red: 0x0F, green: 0x38, blue: 0x0F });
    assert_eq!(background(), Rgb { red: 0, green: 0, blue: 0 });
}

#[test]
fn where_a_pixel_is_drawn() {
    assert_eq!(SCREEN_WIDTH, 160);
    assert_eq!(SCREEN_HEIGHT, 144);
    assert_eq!(cell_of(0, 0, 4), Some(Cell { x: 0, y: 0, width: 4, height: 4 }));
    assert_eq!(cell_of(159, 143, 4), Some(Cell { x: 636, y: 572, width: 4, height: 4 }));
    assert_eq!(cell_of(10, 20, 3), Some(Cell { x: 30, y: 60, width: 3, height: 3 }));
    assert_eq!(cell_of(10, 20, 0), Some(Cell { x: 0, y: 0, width: 0, height: 0 }));
    assert_eq!(cell_of(160, 0, 4), None);
    assert_eq!(cell_of(0, 144, 4), None);
    assert_eq!(cell_of(1, 0, 0x7FFF_FFFF), Some(Cell { x: i32::MAX, y: 0, width: 0x7FFF_FFFF, height: 0x7FFF_FFFF }));
    assert_eq!(cell_of(2, 0, 0x7FFF_FFFF), None);
    assert_eq!(cell_of(0, 1, 0x8000_0000), None);
    assert_eq!(cell_of(0, 0, u32::MAX), Some(Cell { x: 0, y: 0, width: u32::MAX, height: u32::MAX }));
}

#[test]
fn keys_and_their_buttons() {
    assert_eq!(button_for(Key::Z), Some(GBButton::A));
    assert_eq!(button_for(Key::X), Some(GBButton::B));
    assert_eq!(button_for(Key::Up), Some(GBButton::Up));
    assert_eq!(button_for(Key::Down), Some(GBButton::Down));
    assert_eq!(button_for(Key::Left), Some(GBButton::Left));
    assert_eq!(button_for(Key::Right), Some(GBButton::Right));
    assert_eq!(button_for(Key::KpEnter), Some(GBButton::Start));
    assert_eq!(button_for(Key::RShift), Some(GBButton::Select));
    assert_eq!(button_for(Key::Other), None);
}

#[test]
fn pressed_buttons_are_kept_in_order() {
    let mut handler = EventHandler::new();
    assert!(handler.events.is_empty());
    assert!(!handler.is_pressed(GBButton::A));

    let polled = vec![
        InputEvent::KeyDown(Key::Z),
        InputEvent::Other,
        InputEvent::KeyDown(Key::Other),
        InputEvent::KeyDown(Key::RShift),
        InputEvent::KeyDown(Key::Z),
    ];
    assert!(!handler.update_events(&polled));
    assert_eq!(handler.events, vec![GBButton::A, GBButton::Select, GBButton::A]);
    assert!(handler.is_pressed(GBButton::A));
    assert!(handler.is_pressed(GBButton::Select));
    assert!(!handler.is_pressed(GBButton::B));
    assert!(!handler.is_pressed(GBButton::Start));

    assert!(!handler.update_events(&vec![InputEvent::KeyDown(Key::Up)]));
    assert_eq!(handler.events, vec![GBButton::Up]);
    assert!(!handler.is_pressed(GBButton::A));

    assert!(!handler.update_events(&Vec::new()));
    assert!(handler.events.is_empty());
}

#[test]
fn a_request_to_quit_ends_the_round() {
    let mut handler = EventHandler::new();
    let polled = vec![
        InputEvent::KeyDown(Key::Left),
        InputEvent::Quit,
        InputEvent::KeyDown(Key::Right),
        InputEvent::Quit,
    ];
    assert!(handler.update_events(&polled));
    assert_eq!(handler.events, vec![GBButton::Left]);
    assert!(handler.update_events(&vec![InputEvent::Quit]));
    assert!(handler.events.is_empty());
}
