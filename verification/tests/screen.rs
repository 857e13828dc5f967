use z80emu::memory::memory;
use z80emu::screen::{
    attribute_for_byte, byte_has_colors, get_color, get_color_for_byte, render, HEIGHT, WIDTH,
};

#[test]
fn the_eight_colors() {
    let expected = [
        0x000000u32,
        0x0000D7,
        0xD70000,
        0xD700D7,
        0x00D700,
        0x00D7D7,
        0xD7D700,
        0xD7D7D7,
    ];
    for (i, rgb) in expected.iter().enumerate() {
        assert_eq!(get_color(i as u8), *rgb);
    }
}

#[test]
fn attribute_of_a_bitmap_byte() {
    let mut mem = memory::new();
    mem.poke(0x5800, 0x11);
    mem.poke(0x5821, 0x22);
    mem.poke(0x5AFF, 0x33);
    assert_eq!(attribute_for_byte(&mem, 0x4000), 0x11);
    // The low byte of the offset is kept and bits 11 and 12 move down by three.
    assert_eq!(attribute_for_byte(&mem, 0x4700), 0x11);
    assert_eq!(attribute_for_byte(&mem, 0x4021), 0x22);
    assert_eq!(attribute_for_byte(&mem, 0x50FF), 0x33);
}

#[test]
fn colors_of_a_bitmap_byte() {
    let mut mem = memory::new();
    // Foreground 7, background 1.
    mem.poke(0x5800, 0x0F);
    assert!(byte_has_colors(&mem, 0x4000));
    assert_eq!(get_color_for_byte(&mem, 0x4000), (0xD7D7D7, 0x0000D7));
    // Foreground 2, background 7.
    mem.poke(0x5801, 0x3A);
    assert_eq!(get_color_for_byte(&mem, 0x4001), (0xD70000, 0xD7D7D7));
    // A background number above 7 names no colour.
    mem.poke(0x5802, 0x40);
    assert!(!byte_has_colors(&mem, 0x4002));
    mem.poke(0x5802, 0x80);
    assert!(byte_has_colors(&mem, 0x4002));
}

#[test]
fn blank_memory_renders_black() {
    let mem = memory::new();
    let frame = render(&mem).unwrap();
    assert_eq!(frame.len(), WIDTH * HEIGHT);
    assert!(frame.iter().all(|p| *p == 0));
}

#[test]
fn render_draws_seven_pixels_per_byte() {
    let mut mem = memory::new();
    mem.poke(0x5800, 0x0F);
    // The last byte drawn at column 0 of row 0 is the one at 0x4700.
    mem.poke(0x4700, 0xA1);
    let frame = render(&mem).unwrap();
    let fg = 0xD7D7D7;
    let bg = 0x0000D7;
    assert_eq!(&frame[0..8], &[fg, bg, fg, bg, bg, bg, bg, 0]);
    // The byte at 0x4701 has attribute 0 and paints black next to it.
    assert_eq!(&frame[8..16], &[0, 0, 0, 0, 0, 0, 0, 0]);
}

#[test]
fn render_places_bytes_by_row_and_column() {
    let mut mem = memory::new();
    // Attribute for offsets 0x..21: white on black.
    mem.poke(0x5821, 0x07);
    mem.poke(0x5921, 0x07);
    // 0x4721 is the last byte drawn in row 1, column 8.
    mem.poke(0x4721, 0x80);
    // 0x4F21 is the last byte drawn in row 65, column 8.
    mem.poke(0x4F21, 0x40);
    let frame = render(&mem).unwrap();
    assert_eq!(frame[WIDTH + 8], 0xD7D7D7);
    assert_eq!(frame[WIDTH + 9], 0);
    assert_eq!(frame[65 * WIDTH + 8], 0);
    assert_eq!(frame[65 * WIDTH + 9], 0xD7D7D7);
    let lit = frame.iter().filter(|p| **p != 0).count();
    assert_eq!(lit, 2);
}

#[test]
fn later_bytes_overwrite_earlier_ones() {
    let mut mem = memory::new();
    mem.poke(0x5800, 0x07);
    mem.poke(0x4000, 0xFE);
    let frame = render(&mem).unwrap();
    // 0x4700 is drawn after 0x4000 at the same place and holds zero.
    assert_eq!(&frame[0..8], &[0, 0, 0, 0, 0, 0, 0, 0]);
}

#[test]
fn render_refuses_a_colour_that_does_not_exist() {
    let mut mem = memory::new();
    mem.poke(0x5A10, 0x47);
    assert!(render(&mem).is_none());
    mem.poke(0x5A10, 0x07);
    assert!(render(&mem).is_some());
}
