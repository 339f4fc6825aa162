use chip8::display::{Display, DISPLAY_HEIGHT, DISPLAY_PIXELS, DISPLAY_WIDTH};

#[test]
fn new_display_is_blank() {
    assert_eq!(DISPLAY_WIDTH, 64);
    assert_eq!(DISPLAY_HEIGHT, 32);
    assert_eq!(DISPLAY_PIXELS, 64 * 32);
    let display = Display::new();
    for y in 0..32 {
        for x in 0..64 {
            assert_eq!(display.pixel(x, y), Some(false));
        }
    }
}

#[test]
fn set_pixel_turns_one_pixel_on_or_off() {
    let mut display = Display::new();
    assert!(display.set_pixel(3, 5, true));
    for y in 0..32 {
        for x in 0..64 {
            assert_eq!(display.pixel(x, y), Some(x == 3 && y == 5));
        }
    }
    assert!(display.set_pixel(5, 3, true));
    assert_eq!(display.pixel(5, 3), Some(true));
    assert!(display.set_pixel(3, 5, false));
    assert_eq!(display.pixel(3, 5), Some(false));
    assert_eq!(display.pixel(5, 3), Some(true));
}

#[test]
fn the_corners_are_on_the_grid() {
    let mut display = Display::new();
    assert!(display.set_pixel(0, 0, true));
    assert!(display.set_pixel(63, 0, true));
    assert!(display.set_pixel(0, 31, true));
    assert!(display.set_pixel(63, 31, true));
    assert_eq!(display.pixel(0, 0), Some(true));
    assert_eq!(display.pixel(63, 0), Some(true));
    assert_eq!(display.pixel(0, 31), Some(true));
    assert_eq!(display.pixel(63, 31), Some(true));
    assert_eq!(display.pixel(1, 0), Some(false));
    assert_eq!(display.pixel(0, 1), Some(false));
    assert_eq!(display.pixel(62, 31), Some(false));
}

#[test]
fn coordinates_off_the_grid_name_no_pixel() {
    let mut display = Display::new();
    assert!(!display.set_pixel(64, 0, true));
    assert!(!display.set_pixel(0, 32, true));
    assert!(!display.set_pixel(64, 32, true));
    assert!(!display.set_pixel(usize::MAX, usize::MAX, true));
    assert_eq!(display.pixel(64, 0), None);
    assert_eq!(display.pixel(0, 32), None);
    assert_eq!(display.pixel(usize::MAX, 0), None);
    for y in 0..32 {
        for x in 0..64 {
            assert_eq!(display.pixel(x, y), Some(false));
        }
    }
}

#[test]
fn clear_turns_every_pixel_off() {
    let mut display = Display::new();
    for y in 0..32 {
        for x in 0..64 {
            display.set_pixel(x, y, (x + y) % 2 == 0);
        }
    }
    assert_eq!(display.pixel(0, 0), Some(true));
    assert_eq!(display.pixel(63, 31), Some(true));
    display.clear();
    for y in 0..32 {
        for x in 0..64 {
            assert_eq!(display.pixel(x, y), Some(false));
        }
    }
}
